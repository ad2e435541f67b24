//! Fonts whose character codes are single bytes: simple fonts and Type 3
//! fonts.

use vstd::prelude::*;
use vstd::string::StringSliceAdditionalSpecFns;
use std::collections::HashMap;
use crate::cmap::CharCode;
use crate::error::{Failure, PdfError, PdfResult};
use crate::font_encoding::{
    load_simple_encoding, load_type3_encoding, spec_simple_encoding, spec_type3_encoding,
};
use crate::object::{Dictionary, Document, Number, Object};
use crate::object_utils::{
    get_name_string, opt_dict, opt_object, spec_name_string, spec_opt_dict, spec_opt_object,
};
use crate::string_utils::{
    has_bom, max_text_len, table_unit, table_units, to_utf8, PDF_DOC_ENCODING,
};
use crate::tables::{text_is, FontPrograms, FontTables};
use crate::unicode_map::{
    extend_unicode, fold_unicode, get_unicode_map, lemma_text_of_empty, lemma_text_of_insert,
    spec_get_unicode_map, spec_to_unicode, text_of, ToUnicode,
};
use crate::utf16::{decode_utf16, is_surrogate, string_from_utf16};
use crate::widths::{
    load_simple_widths, load_type3_widths, spec_simple_widths, spec_type3_widths, WidthMap,
};

verus! {

broadcast use vstd::std_specs::hash::group_hash_axioms;

/// What a one-byte font is, as contracts see it.
pub struct SimpleFontModel {
    pub base_name: Seq<char>,
    pub encoding: Option<Seq<u16>>,
    pub unicode_map: Option<Map<CharCode, Seq<char>>>,
    pub widths: WidthMap,
    pub missing_width: Number,
}

/// A simple font: Type 1, TrueType and the like.
#[derive(Debug)]
pub struct PdfSimpleFont {
    base_name: String,
    encoding: Option<Vec<u16>>,
    unicode_map: Option<HashMap<CharCode, String>>,
    widths: HashMap<CharCode, Number>,
    missing_width: Number,
}

/// A Type 3 font. A code without a width has width 0.
#[derive(Debug)]
pub struct PdfType3Font {
    encoding: Option<Vec<u16>>,
    unicode_map: Option<HashMap<CharCode, String>>,
    widths: HashMap<CharCode, Number>,
}

/// The code unit that names the glyph called `name`: from the general list,
/// else from the dingbats list.
pub open spec fn cff_unit(tables: FontTables, name: Seq<char>) -> Option<u16> {
    match tables.glyph_names.spec_lookup(name) {
        Some(u) => Some(u),
        None => tables.zapf_names.spec_lookup(name),
    }
}

/// `m` with the pairs of a compact font program entered in order: each code
/// gets the character of its glyph's name, where the program names the glyph,
/// a list knows the name, and the code unit is no surrogate.
pub open spec fn cff_fold(
    m: Map<CharCode, Seq<char>>,
    tables: FontTables,
    pairs: Seq<(CharCode, Option<String>)>,
) -> Map<CharCode, Seq<char>>
    decreases pairs.len(),
{
    if pairs.len() == 0 {
        m
    } else {
        let p = cff_fold(m, tables, pairs.drop_last());
        match pairs.last().1 {
            None => p,
            Some(name) => match cff_unit(tables, name@) {
                None => p,
                Some(u) => match decode_utf16(seq![u]) {
                    Some(t) => p.insert(pairs.last().0, t),
                    None => p,
                },
            },
        }
    }
}

/// Enter the pairs of a compact font program into `map`.
pub fn extend_cff(
    map: &mut HashMap<CharCode, String>,
    tables: &FontTables,
    pairs: &Vec<(CharCode, Option<String>)>,
)
    ensures
        text_of(final(map)@) == cff_fold(text_of(old(map)@), *tables, pairs@),
{
    let mut i: usize = 0;
    while i < pairs.len()
        invariant
            0 <= i <= pairs@.len(),
            text_of(map@) == cff_fold(text_of(old(map)@), *tables, pairs@.take(i as int)),
        decreases pairs@.len() - i,
    {
        match &pairs[i].1 {
            Some(name) => {
                let unit = match tables.glyph_names.name_to_unicode(name) {
                    Some(u) => Some(u),
                    None => tables.zapf_names.name_to_unicode(name),
                };
                match unit {
                    Some(u) => {
                        let mut units: Vec<u16> = Vec::new();
                        units.push(u);
                        assert(units@ =~= seq![u]);
                        let ghost before = map@;
                        match string_from_utf16(units.as_slice()) {
                            Some(s) => {
                                proof {
                                    lemma_text_of_insert(before, pairs@[i as int].0, s);
                                }
                                map.insert(pairs[i].0, s);
                            },
                            None => {},
                        }
                    },
                    None => {},
                }
            },
            None => {},
        }
        i += 1;
        proof {
            assert(pairs@.take(i as int).drop_last() =~= pairs@.take(i - 1));
        }
    }
    proof {
        assert(pairs@.take(i as int) =~= pairs@);
    }
}

/// What a font's descriptor holds as compact font program.
pub enum CompactProgram {
    /// No `FontFile3` stream of subtype `Type1C`.
    Absent,
    /// Such a stream: its bytes.
    Program(Seq<u8>),
}

/// What the descriptor of `font` holds as compact font program, with the
/// errors of looking for it.
pub open spec fn spec_compact_program(doc: Document, font: Dictionary) -> Result<
    CompactProgram,
    Failure,
> {
    match spec_opt_dict(doc, font, "FontDescriptor".spec_bytes()) {
        Err(e) => Err(e),
        Ok(None) => Ok(CompactProgram::Absent),
        Ok(Some(d)) => match spec_opt_object(doc, d, "FontFile3".spec_bytes()) {
            Err(e) => Err(e),
            Ok(Some(Object::Stream(s))) => match spec_name_string(
                doc,
                s.dict,
                "Subtype".spec_bytes(),
            ) {
                Err(e) => Err(e),
                Ok(sub) => if sub == "Type1C"@ {
                    Ok(CompactProgram::Program(s.spec_contents()))
                } else {
                    Ok(CompactProgram::Absent)
                },
            },
            Ok(_) => Ok(CompactProgram::Absent),
        },
    }
}

/// The bytes of the compact font program of `font`, for the caller to parse;
/// `None` when the font has none or looking for it fails.
pub fn compact_font_program(doc: &Document, font: &Dictionary) -> (r: Option<Vec<u8>>)
    ensures
        match r {
            Some(b) => spec_compact_program(*doc, *font) == Ok::<CompactProgram, Failure>(
                CompactProgram::Program(b@),
            ),
            None => !(spec_compact_program(*doc, *font) matches Ok(CompactProgram::Program(_))),
        },
{
    let d = match opt_dict(doc, font, "FontDescriptor".as_bytes()) {
        Ok(Some(d)) => d,
        _ => {
            return None;
        },
    };
    match opt_object(doc, d, "FontFile3".as_bytes()) {
        Ok(Some(Object::Stream(s))) => match get_name_string(doc, &s.dict, "Subtype".as_bytes()) {
            Ok(sub) => if text_is(&sub, "Type1C") {
                Some(vstd::slice::slice_to_vec(s.contents()))
            } else {
                None
            },
            Err(_) => None,
        },
        _ => None,
    }
}

/// The code-to-text map of a simple font. Where the font embeds a compact
/// font program that the parser accepted, the map is built from the program
/// and the `ToUnicode` entries are entered over it. Otherwise it is the
/// `ToUnicode` map. Either way an error of the `ToUnicode` entry is an error
/// of the font.
pub open spec fn spec_simple_unicode(
    doc: Document,
    font: Dictionary,
    tables: FontTables,
    programs: FontPrograms,
) -> Result<Option<Map<CharCode, Seq<char>>>, Failure> {
    let fallback = spec_get_unicode_map(doc, font, programs.to_unicode);
    match spec_compact_program(doc, font) {
        Err(e) => Err(e),
        Ok(CompactProgram::Absent) => fallback,
        Ok(CompactProgram::Program(_)) => match programs.cff {
            None => fallback,
            Some(pairs) => {
                let base = cff_fold(Map::empty(), tables, pairs@);
                match spec_to_unicode(doc, font) {
                    Err(e) => Err(e),
                    Ok(ToUnicode::Absent) => Ok(Some(base)),
                    Ok(ToUnicode::CMap(_)) => match programs.to_unicode {
                        None => Err(Failure::InvalidStructure),
                        Some(tu) => Ok(Some(fold_unicode(base, tu@))),
                    },
                }
            },
        },
    }
}

/// The code-to-text map of a simple font.
pub fn load_simple_unicode(
    doc: &Document,
    font: &Dictionary,
    tables: &FontTables,
    programs: &FontPrograms,
) -> (r: PdfResult<Option<HashMap<CharCode, String>>>)
    ensures
        crate::unicode_map::agrees_map(r, spec_simple_unicode(*doc, *font, *tables, *programs)),
{
    let mut from_program: Option<HashMap<CharCode, String>> = None;
    match opt_dict(doc, font, "FontDescriptor".as_bytes())? {
        Some(d) => match opt_object(doc, d, "FontFile3".as_bytes())? {
            Some(Object::Stream(s)) => {
                let sub = get_name_string(doc, &s.dict, "Subtype".as_bytes())?;
                if text_is(&sub, "Type1C") {
                    match &programs.cff {
                        Some(pairs) => {
                            let mut mapping: HashMap<CharCode, String> = HashMap::new();
                            proof {
                                lemma_text_of_empty();
                            }
                            extend_cff(&mut mapping, tables, pairs);
                            match get_unicode_map_pairs(doc, font, &programs.to_unicode)? {
                                Some(tu) => {
                                    extend_unicode(&mut mapping, tu);
                                },
                                None => {},
                            }
                            from_program = Some(mapping);
                        },
                        None => {},
                    }
                }
            },
            _ => {},
        },
        None => {},
    }
    match from_program {
        Some(m) => Ok(Some(m)),
        None => get_unicode_map(doc, font, &programs.to_unicode),
    }
}

/// The parsed pairs of the `ToUnicode` entry of `font`, with the errors of
/// `get_unicode_map`; `None` where that gives no map.
fn get_unicode_map_pairs<'a>(
    doc: &Document,
    font: &Dictionary,
    parsed: &'a Option<Vec<(CharCode, Vec<u8>)>>,
) -> (r: PdfResult<Option<&'a Vec<(CharCode, Vec<u8>)>>>)
    ensures
        match r {
            Ok(Some(p)) => spec_to_unicode(*doc, *font) matches Ok(ToUnicode::CMap(_)) && *parsed
                == Some(*p),
            Ok(None) => spec_to_unicode(*doc, *font) == Ok::<ToUnicode, Failure>(ToUnicode::Absent),
            Err(e) => spec_get_unicode_map(*doc, *font, *parsed) == Err::<
                Option<Map<CharCode, Seq<char>>>,
                Failure,
            >(e.kind()),
        },
{
    match crate::object_utils::maybe_get_obj(doc, font, "ToUnicode".as_bytes()) {
        Some(Object::Stream(_)) => match parsed {
            Some(pairs) => Ok(Some(pairs)),
            None => Err(PdfError::invalid("Invalid ToUnicode CMap")),
        },
        Some(Object::Name(name)) => {
            let _ = crate::string_utils::pdf_to_utf8(name.as_slice())?;
            Ok(None)
        },
        None => Ok(None),
        Some(_) => Err(PdfError::invalid("Invalid ToUnicode type")),
    }
}

/// The simple font that a font dictionary describes.
pub open spec fn spec_simple_font(
    doc: Document,
    font: Dictionary,
    tables: FontTables,
    programs: FontPrograms,
) -> Result<SimpleFontModel, Failure> {
    match spec_name_string(doc, font, "BaseFont".spec_bytes()) {
        Err(e) => Err(e),
        Ok(base_name) => match spec_name_string(doc, font, "Subtype".spec_bytes()) {
            Err(e) => Err(e),
            Ok(_) => match spec_simple_encoding(doc, tables.glyph_names, font) {
                Err(e) => Err(e),
                Ok(encoding) => match spec_simple_unicode(doc, font, tables, programs) {
                    Err(e) => Err(e),
                    Ok(unicode_map) => match spec_simple_widths(
                        doc,
                        font,
                        tables,
                        base_name,
                        encoding,
                    ) {
                        Err(e) => Err(e),
                        Ok((widths, missing_width)) => Ok(
                            SimpleFontModel {
                                base_name,
                                encoding,
                                unicode_map,
                                widths,
                                missing_width,
                            },
                        ),
                    },
                },
            },
        },
    }
}

/// The Type 3 font that a font dictionary describes. Its model has no base
/// name and a missing width of 0.
pub open spec fn spec_type3_font(
    doc: Document,
    font: Dictionary,
    tables: FontTables,
    programs: FontPrograms,
) -> Result<SimpleFontModel, Failure> {
    match spec_type3_encoding(doc, tables.glyph_names, font) {
        Err(e) => Err(e),
        Ok(encoding) => match spec_get_unicode_map(doc, font, programs.to_unicode) {
            Err(e) => Err(e),
            Ok(unicode_map) => match spec_type3_widths(doc, font) {
                Err(e) => Err(e),
                Ok(widths) => Ok(
                    SimpleFontModel {
                        base_name: Seq::empty(),
                        encoding,
                        unicode_map,
                        widths,
                        missing_width: Number::Real(0),
                    },
                ),
            },
        },
    }
}

/// The text of one code of a one-byte font: what the code-to-text map gives
/// it; else the character of the slot of its low byte in the encoding
/// (PDFDocEncoding without one), nothing for an undefined slot or a
/// surrogate.
pub open spec fn spec_decode_byte_code(model: SimpleFontModel, code: CharCode) -> Seq<char> {
    if model.unicode_map is Some && model.unicode_map->Some_0.contains_key(code) {
        model.unicode_map->Some_0[code]
    } else {
        let table = match model.encoding {
            Some(t) => t,
            None => PDF_DOC_ENCODING@,
        };
        let unit = table_unit(table, (code % 256) as u8);
        if unit == 0 || is_surrogate(unit) {
            Seq::empty()
        } else {
            seq![unit as u32 as char]
        }
    }
}

/// A code whose slot holds the undefined value, and which the code-to-text
/// map does not know, decodes to no text.
pub proof fn lemma_undefined_slot_decodes_to_nothing(model: SimpleFontModel, code: CharCode)
    requires
        model.unicode_map matches Some(m) ==> !m.contains_key(code),
        table_unit(
            match model.encoding {
                Some(t) => t,
                None => PDF_DOC_ENCODING@,
            },
            (code % 256) as u8,
        ) == 0,
    ensures
        spec_decode_byte_code(model, code) == Seq::<char>::empty(),
{
}

/// The width of one code of a one-byte font: from the table, else the missing
/// width.
pub open spec fn spec_byte_code_width(model: SimpleFontModel, code: CharCode) -> Number {
    if model.widths.contains_key(code) {
        model.widths[code]
    } else {
        model.missing_width
    }
}

/// The first character of `bytes` in a one-byte font: the first byte, taking
/// one byte.
pub open spec fn spec_next_byte_code(bytes: Seq<u8>) -> Option<(CharCode, u8)> {
    if bytes.len() == 0 {
        None
    } else {
        Some((bytes[0] as CharCode, 1u8))
    }
}

/// The text of `code` by an optional code-to-text map and an optional table.
fn decode_byte_code(
    unicode_map: &Option<HashMap<CharCode, String>>,
    encoding: &Option<Vec<u16>>,
    code: CharCode,
) -> (s: String)
    ensures
        s@ == spec_decode_byte_code(
            SimpleFontModel {
                base_name: Seq::empty(),
                encoding: match encoding {
                    Some(t) => Some(t@),
                    None => None,
                },
                unicode_map: match unicode_map {
                    Some(m) => Some(text_of(m@)),
                    None => None,
                },
                widths: Map::empty(),
                missing_width: Number::Real(0),
            },
            code,
        ),
{
    match unicode_map {
        Some(m) => match m.get(&code) {
            Some(s) => {
                return s.clone();
            },
            None => {},
        },
        None => {},
    }
    let byte: u8 = (code % 256) as u8;
    let mut one: Vec<u8> = Vec::new();
    one.push(byte);
    let pdf_doc: [u16; 256] = PDF_DOC_ENCODING;
    let table: &[u16] = match encoding {
        Some(t) => t.as_slice(),
        None => pdf_doc.as_slice(),
    };
    let unit: u16 = if (byte as usize) < table.len() {
        table[byte as usize]
    } else {
        0
    };
    if unit == 0 {
        return String::new();
    }
    proof {
        assert(one@ =~= seq![byte]);
        assert(!has_bom(one@));
        assert(one@.len() <= max_text_len());
        let units = table_units(table@, one@);
        assert(units =~= seq![unit]);
        assert(units.skip(1) =~= Seq::<u16>::empty());
        reveal_with_fuel(decode_utf16, 2);
        assert(seq![unit as u32 as char] + Seq::<char>::empty() =~= seq![unit as u32 as char]);
    }
    match to_utf8(table, one.as_slice()) {
        Ok(s) => s,
        Err(_) => String::new(),
    }
}

impl View for PdfSimpleFont {
    type V = SimpleFontModel;

    closed spec fn view(&self) -> SimpleFontModel {
        SimpleFontModel {
            base_name: self.base_name@,
            encoding: match self.encoding {
                Some(t) => Some(t@),
                None => None,
            },
            unicode_map: match self.unicode_map {
                Some(m) => Some(text_of(m@)),
                None => None,
            },
            widths: self.widths@,
            missing_width: self.missing_width,
        }
    }
}

impl View for PdfType3Font {
    type V = SimpleFontModel;

    closed spec fn view(&self) -> SimpleFontModel {
        SimpleFontModel {
            base_name: Seq::empty(),
            encoding: match self.encoding {
                Some(t) => Some(t@),
                None => None,
            },
            unicode_map: match self.unicode_map {
                Some(m) => Some(text_of(m@)),
                None => None,
            },
            widths: self.widths@,
            missing_width: Number::Real(0),
        }
    }
}

/// Whether a font result is the model a contract names.
pub open spec fn agrees_simple(r: PdfResult<PdfSimpleFont>, want: Result<SimpleFontModel, Failure>) -> bool {
    match r {
        Ok(f) => want == Ok::<SimpleFontModel, Failure>(f@),
        Err(e) => want == Err::<SimpleFontModel, Failure>(e.kind()),
    }
}

/// Whether a font result is the model a contract names.
pub open spec fn agrees_type3(r: PdfResult<PdfType3Font>, want: Result<SimpleFontModel, Failure>) -> bool {
    match r {
        Ok(f) => want == Ok::<SimpleFontModel, Failure>(f@),
        Err(e) => want == Err::<SimpleFontModel, Failure>(e.kind()),
    }
}

impl PdfSimpleFont {
    /// Build the simple font that `font` describes. `BaseFont` and `Subtype`
    /// are required; the first error met, in the order base name, subtype,
    /// encoding, code-to-text map, widths, is returned.
    pub fn new(doc: &Document, font: &Dictionary, tables: &FontTables, programs: &FontPrograms) -> (r:
        PdfResult<PdfSimpleFont>)
        ensures
            agrees_simple(r, spec_simple_font(*doc, *font, *tables, *programs)),
    {
        let base_name = get_name_string(doc, font, "BaseFont".as_bytes())?;
        let _ = get_name_string(doc, font, "Subtype".as_bytes())?;
        let encoding = load_simple_encoding(doc, &tables.glyph_names, font)?;
        let unicode_map = load_simple_unicode(doc, font, tables, programs)?;
        let (widths, missing_width) = load_simple_widths(
            doc,
            font,
            tables,
            &base_name,
            encoding.as_ref(),
        )?;
        Ok(PdfSimpleFont { base_name, encoding, unicode_map, widths, missing_width })
    }

    /// The width of `id`: from the table, else the missing width.
    pub fn get_width(&self, id: CharCode) -> (w: Number)
        ensures
            w == spec_byte_code_width(self@, id),
    {
        match self.widths.get(&id) {
            Some(w) => *w,
            None => self.missing_width,
        }
    }

    /// The first character of `bytes`: its first byte, taking one byte.
    pub fn next_char(&self, bytes: &[u8]) -> (r: Option<(CharCode, u8)>)
        ensures
            r == spec_next_byte_code(bytes@),
    {
        if bytes.len() == 0 {
            None
        } else {
            Some((bytes[0] as CharCode, 1))
        }
    }

    /// The text of `code`.
    pub fn decode_char(&self, code: CharCode) -> (s: String)
        ensures
            s@ == spec_decode_byte_code(self@, code),
    {
        decode_byte_code(&self.unicode_map, &self.encoding, code)
    }
}

impl PdfType3Font {
    /// Build the Type 3 font that `font` describes: an encoding and
    /// `FirstChar`, `LastChar` and `Widths` are required.
    pub fn new(doc: &Document, font: &Dictionary, tables: &FontTables, programs: &FontPrograms) -> (r:
        PdfResult<PdfType3Font>)
        ensures
            agrees_type3(r, spec_type3_font(*doc, *font, *tables, *programs)),
    {
        let encoding = load_type3_encoding(doc, &tables.glyph_names, font)?;
        let unicode_map = get_unicode_map(doc, font, &programs.to_unicode)?;
        let widths = load_type3_widths(doc, font)?;
        Ok(PdfType3Font { encoding, unicode_map, widths })
    }

    /// The width of `id`: from the table, else 0.
    pub fn get_width(&self, id: CharCode) -> (w: Number)
        ensures
            w == spec_byte_code_width(self@, id),
    {
        match self.widths.get(&id) {
            Some(w) => *w,
            None => Number::Real(0),
        }
    }

    /// The first character of `bytes`: its first byte, taking one byte.
    pub fn next_char(&self, bytes: &[u8]) -> (r: Option<(CharCode, u8)>)
        ensures
            r == spec_next_byte_code(bytes@),
    {
        if bytes.len() == 0 {
            None
        } else {
            Some((bytes[0] as CharCode, 1))
        }
    }

    /// The text of `code`.
    pub fn decode_char(&self, code: CharCode) -> (s: String)
        ensures
            s@ == spec_decode_byte_code(self@, code),
    {
        decode_byte_code(&self.unicode_map, &self.encoding, code)
    }
}

} // verus!
