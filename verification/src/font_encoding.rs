//! The one-byte encoding of a simple font: a named table, or a base table
//! changed by a `Differences` array.

use vstd::prelude::*;
use vstd::string::StringSliceAdditionalSpecFns;
use crate::encodings::{encoding_to_unicode_table, spec_encoding_table, table_to_vec, WIN_ANSI_ENCODING};
use crate::error::{Failure, PdfError, PdfResult};
use crate::glyphnames::GlyphNames;
use crate::object::{Dictionary, Document, Object};
use crate::object_utils::{
    get_name_string, maybe_deref, maybe_get_array, maybe_get_name, opt_dict, opt_object,
    spec_maybe_deref, spec_maybe_get_array, spec_maybe_get_name, spec_name_string, spec_opt_dict,
    spec_opt_object,
};
use crate::string_utils::{pdf_to_utf8, spec_pdf_to_utf8, PDF_DOC_ENCODING};
use crate::tables::text_is;

verus! {

/// The table and the current code while a `Differences` array is read.
pub struct DifferencesState {
    pub table: Seq<u16>,
    pub code: i64,
}

/// The code unit that a name in a `Differences` array gives to a slot: 0, the
/// undefined value, for `notdef` and `.notdef`, which name no glyph; for any
/// other name what the list gives it, nothing where the list does not know
/// the name.
pub open spec fn spec_difference_unit(glyphs: GlyphNames, name: Seq<char>) -> Option<u16> {
    if name == "notdef"@ || name == ".notdef"@ {
        Some(0u16)
    } else {
        glyphs.spec_lookup(name)
    }
}

/// The code unit that a name in a `Differences` array gives to a slot.
pub fn difference_unit(glyphs: &GlyphNames, name: &String) -> (r: Option<u16>)
    ensures
        r == spec_difference_unit(*glyphs, name@),
{
    if text_is(name, "notdef") || text_is(name, ".notdef") {
        Some(0)
    } else {
        glyphs.name_to_unicode(name)
    }
}

/// One entry of a `Differences` array: an integer sets the current code; a
/// name gives its code unit to the current slot, when it has one and the code
/// is a slot of the table, and moves on to the next code. A slot given the
/// undefined value decodes to no text.
pub open spec fn differences_step(
    doc: Document,
    glyphs: GlyphNames,
    state: DifferencesState,
    entry: Object,
) -> Result<DifferencesState, Failure> {
    match spec_maybe_deref(doc, entry) {
        Err(e) => Err(e),
        Ok(Object::Integer(i)) => Ok(DifferencesState { table: state.table, code: i }),
        Ok(Object::Name(n)) => match spec_pdf_to_utf8(n@) {
            None => Err(Failure::EncodingError),
            Some(name) => {
                let table = match spec_difference_unit(glyphs, name) {
                    Some(u) if 0 <= state.code < state.table.len() => state.table.update(
                        state.code as int,
                        u,
                    ),
                    _ => state.table,
                };
                Ok(DifferencesState { table, code: state.code.wrapping_add(1) })
            },
        },
        Ok(_) => Err(Failure::InvalidStructure),
    }
}

/// The names `notdef` and `.notdef` make the current slot undefined, whatever
/// the base encoding had there and whatever the list knows.
pub proof fn lemma_notdef_undefines(
    doc: Document,
    glyphs: GlyphNames,
    state: DifferencesState,
    name: Vec<u8>,
)
    requires
        spec_pdf_to_utf8(name@) == Some("notdef"@) || spec_pdf_to_utf8(name@) == Some(".notdef"@),
        0 <= state.code < state.table.len(),
    ensures
        differences_step(doc, glyphs, state, Object::Name(name)) == Ok::<DifferencesState, Failure>(
            DifferencesState {
                table: state.table.update(state.code as int, 0u16),
                code: state.code.wrapping_add(1),
            },
        ),
{
}

/// The state after all of `entries`, or the error of the first entry that
/// fails.
pub open spec fn differences_fold(
    doc: Document,
    glyphs: GlyphNames,
    state: DifferencesState,
    entries: Seq<Object>,
) -> Result<DifferencesState, Failure>
    decreases entries.len(),
{
    if entries.len() == 0 {
        Ok(state)
    } else {
        match differences_step(doc, glyphs, state, entries[0]) {
            Err(e) => Err(e),
            Ok(next) => differences_fold(doc, glyphs, next, entries.skip(1)),
        }
    }
}

/// `table` changed by a `Differences` array, reading from code 0.
pub open spec fn spec_apply_differences(
    doc: Document,
    glyphs: GlyphNames,
    table: Seq<u16>,
    entries: Seq<Object>,
) -> Result<Seq<u16>, Failure> {
    match differences_fold(doc, glyphs, DifferencesState { table, code: 0 }, entries) {
        Ok(s) => Ok(s.table),
        Err(e) => Err(e),
    }
}

/// Change `table` by a `Differences` array. On success the table is the one
/// `spec_apply_differences` names; an entry that is neither an integer nor a
/// name is an `InvalidStructure` error. The number of slots never changes.
pub fn apply_encoding_differences(
    doc: &Document,
    glyphs: &GlyphNames,
    table: &mut Vec<u16>,
    differences: &[Object],
) -> (r: PdfResult<()>)
    ensures
        final(table)@.len() == old(table)@.len(),
        match r {
            Ok(_) => spec_apply_differences(*doc, *glyphs, old(table)@, differences@) == Ok::<
                Seq<u16>,
                Failure,
            >(final(table)@),
            Err(e) => spec_apply_differences(*doc, *glyphs, old(table)@, differences@) == Err::<
                Seq<u16>,
                Failure,
            >(e.kind()),
        },
{
    let mut code: i64 = 0;
    let mut i: usize = 0;
    let ghost start = DifferencesState { table: table@, code: 0 };
    assert(differences@.skip(0) =~= differences@);
    while i < differences.len()
        invariant
            0 <= i <= differences@.len(),
            table@.len() == old(table)@.len(),
            start == (DifferencesState { table: old(table)@, code: 0 }),
            differences_fold(*doc, *glyphs, start, differences@) == differences_fold(
                *doc,
                *glyphs,
                DifferencesState { table: table@, code },
                differences@.skip(i as int),
            ),
        decreases differences@.len() - i,
    {
        proof {
            assert(differences@.skip(i as int).skip(1) =~= differences@.skip(i + 1));
            assert(differences@.skip(i as int)[0] == differences@[i as int]);
        }
        let obj = maybe_deref(doc, &differences[i])?;
        match obj {
            Object::Integer(n) => {
                code = *n;
            },
            Object::Name(n) => {
                let name = pdf_to_utf8(n.as_slice())?;
                match difference_unit(glyphs, &name) {
                    Some(u) => {
                        if code >= 0 && (code as u64) < (table.len() as u64) {
                            table.set(code as usize, u);
                        }
                    },
                    None => {},
                }
                code = code.wrapping_add(1);
            },
            _ => {
                return Err(PdfError::invalid("Invalid differences entry"));
            },
        }
        i += 1;
    }
    Ok(())
}

/// What the font file of a descriptor gives as encoding. Reading the encoding
/// out of an embedded font program is not provided for, so the answer is never
/// a table; a compact font's stream is still looked at, and its errors count.
pub open spec fn spec_font_file_encoding(doc: Document, descriptor: Dictionary, subtype: Seq<char>) -> Result<
    Option<Seq<u16>>,
    Failure,
> {
    if subtype == "Type1C"@ {
        match spec_opt_object(doc, descriptor, "FontFile3".spec_bytes()) {
            Err(e) => Err(e),
            Ok(Some(Object::Stream(s))) => match spec_name_string(
                doc,
                s.dict,
                "Subtype".spec_bytes(),
            ) {
                Err(e) => Err(e),
                Ok(_) => Ok(None),
            },
            Ok(_) => Ok(None),
        }
    } else {
        Ok(None)
    }
}

/// Whether an optional table is the one a contract names.
pub open spec fn agrees_table(r: PdfResult<Option<Vec<u16>>>, want: Result<Option<Seq<u16>>, Failure>) -> bool {
    match r {
        Ok(Some(t)) => want == Ok::<Option<Seq<u16>>, Failure>(Some(t@)),
        Ok(None) => want == Ok::<Option<Seq<u16>>, Failure>(None),
        Err(e) => want == Err::<Option<Seq<u16>>, Failure>(e.kind()),
    }
}

/// The encoding that the font file of a descriptor gives: never a table, but
/// the errors of looking at a compact font's stream.
pub fn load_font_file_encoding(doc: &Document, descriptor: &Dictionary, subtype: &String) -> (r:
    PdfResult<Option<Vec<u16>>>)
    ensures
        agrees_table(r, spec_font_file_encoding(*doc, *descriptor, subtype@)),
{
    if text_is(subtype, "Type1C") {
        match opt_object(doc, descriptor, "FontFile3".as_bytes())? {
            Some(Object::Stream(s)) => {
                let _ = get_name_string(doc, &s.dict, "Subtype".as_bytes())?;
            },
            _ => {},
        }
    }
    Ok(None)
}

/// The table of an encoding dictionary: its base encoding, PDFDocEncoding
/// without one, changed by its `Differences`.
pub open spec fn spec_dict_encoding(doc: Document, glyphs: GlyphNames, dict: Dictionary) -> Result<
    Seq<u16>,
    Failure,
> {
    let base = match spec_maybe_get_name(doc, dict, "BaseEncoding".spec_bytes()) {
        Some(name) => spec_encoding_table(name),
        None => Ok(PDF_DOC_ENCODING@),
    };
    match base {
        Err(e) => Err(e),
        Ok(table) => match spec_maybe_get_array(doc, dict, "Differences".spec_bytes()) {
            Some(entries) => spec_apply_differences(doc, glyphs, table, entries),
            None => Ok(table),
        },
    }
}

/// The table of an encoding dictionary: its base encoding, PDFDocEncoding
/// without one, changed by its `Differences`. It has 256 slots.
pub fn dict_encoding(doc: &Document, glyphs: &GlyphNames, dict: &Dictionary) -> (r: PdfResult<
    Vec<u16>,
>)
    ensures
        crate::object_utils::agrees_seq(r, spec_dict_encoding(*doc, *glyphs, *dict)),
        r matches Ok(t) ==> t@.len() == 256,
{
    let mut table = match maybe_get_name(doc, dict, "BaseEncoding".as_bytes()) {
        Some(name) => encoding_to_unicode_table(name)?,
        None => table_to_vec(&PDF_DOC_ENCODING),
    };
    match maybe_get_array(doc, dict, "Differences".as_bytes()) {
        Some(entries) => {
            apply_encoding_differences(doc, glyphs, &mut table, entries.as_slice())?;
        },
        None => {},
    }
    Ok(table)
}

/// The encoding of a simple font, in this order: the table its `Encoding`
/// names; the table its `Encoding` dictionary describes; what its font file
/// gives; WinAnsiEncoding for a TrueType font; none.
pub open spec fn spec_simple_encoding(doc: Document, glyphs: GlyphNames, font: Dictionary) -> Result<
    Option<Seq<u16>>,
    Failure,
> {
    match spec_opt_object(doc, font, "Encoding".spec_bytes()) {
        Err(e) => Err(e),
        Ok(Some(Object::Name(name))) => match spec_encoding_table(name@) {
            Ok(t) => Ok(Some(t)),
            Err(e) => Err(e),
        },
        Ok(Some(Object::Dictionary(dict))) => match spec_dict_encoding(doc, glyphs, dict) {
            Ok(t) => Ok(Some(t)),
            Err(e) => Err(e),
        },
        Ok(Some(_)) => Err(Failure::InvalidStructure),
        Ok(None) => match spec_opt_dict(doc, font, "FontDescriptor".spec_bytes()) {
            Err(e) => Err(e),
            Ok(descriptor) => {
                let subtype = spec_name_string(doc, font, "Subtype".spec_bytes());
                let from_file = match descriptor {
                    None => Ok(None),
                    Some(d) => match subtype {
                        Err(e) => Err(e),
                        Ok(s) => spec_font_file_encoding(doc, d, s),
                    },
                };
                match from_file {
                    Err(e) => Err(e),
                    Ok(Some(t)) => Ok(Some(t)),
                    Ok(None) => match subtype {
                        Err(e) => Err(e),
                        Ok(s) => if s == "TrueType"@ {
                            Ok(Some(WIN_ANSI_ENCODING@))
                        } else {
                            Ok(None)
                        },
                    },
                }
            },
        },
    }
}

/// The encoding of a simple font. A table, when there is one, has 256 slots.
pub fn load_simple_encoding(doc: &Document, glyphs: &GlyphNames, font: &Dictionary) -> (r: PdfResult<
    Option<Vec<u16>>,
>)
    ensures
        agrees_table(r, spec_simple_encoding(*doc, *glyphs, *font)),
        r matches Ok(Some(t)) ==> t@.len() == 256,
{
    match opt_object(doc, font, "Encoding".as_bytes())? {
        Some(Object::Name(name)) => {
            let t = encoding_to_unicode_table(name.as_slice())?;
            Ok(Some(t))
        },
        Some(Object::Dictionary(dict)) => {
            let t = dict_encoding(doc, glyphs, dict)?;
            Ok(Some(t))
        },
        Some(_) => Err(PdfError::invalid("Invalid encoding type")),
        None => {
            let descriptor = opt_dict(doc, font, "FontDescriptor".as_bytes())?;
            match descriptor {
                Some(d) => {
                    let subtype = get_name_string(doc, font, "Subtype".as_bytes())?;
                    match load_font_file_encoding(doc, d, &subtype)? {
                        Some(t) => {
                            return Ok(Some(t));
                        },
                        None => {},
                    }
                },
                None => {},
            }
            let subtype = get_name_string(doc, font, "Subtype".as_bytes())?;
            if text_is(&subtype, "TrueType") {
                Ok(Some(table_to_vec(&WIN_ANSI_ENCODING)))
            } else {
                Ok(None)
            }
        },
    }
}

/// The encoding of a Type 3 font: the table its `Encoding` names, or the
/// table its `Encoding` dictionary describes. Without either the font is
/// refused.
pub open spec fn spec_type3_encoding(doc: Document, glyphs: GlyphNames, font: Dictionary) -> Result<
    Option<Seq<u16>>,
    Failure,
> {
    match spec_opt_object(doc, font, "Encoding".spec_bytes()) {
        Err(e) => Err(e),
        Ok(Some(Object::Name(name))) => match spec_encoding_table(name@) {
            Ok(t) => Ok(Some(t)),
            Err(e) => Err(e),
        },
        Ok(Some(Object::Dictionary(dict))) => match spec_dict_encoding(doc, glyphs, dict) {
            Ok(t) => Ok(Some(t)),
            Err(e) => Err(e),
        },
        Ok(_) => Err(Failure::InvalidStructure),
    }
}

/// The encoding of a Type 3 font; `InvalidStructure` when it has none.
pub fn load_type3_encoding(doc: &Document, glyphs: &GlyphNames, font: &Dictionary) -> (r: PdfResult<
    Option<Vec<u16>>,
>)
    ensures
        agrees_table(r, spec_type3_encoding(*doc, *glyphs, *font)),
        r matches Ok(Some(t)) ==> t@.len() == 256,
        r matches Ok(t) ==> t is Some,
{
    match opt_object(doc, font, "Encoding".as_bytes())? {
        Some(Object::Name(name)) => {
            let t = encoding_to_unicode_table(name.as_slice())?;
            Ok(Some(t))
        },
        Some(Object::Dictionary(dict)) => {
            let t = dict_encoding(doc, glyphs, dict)?;
            Ok(Some(t))
        },
        _ => Err(PdfError::invalid("Invalid encoding type")),
    }
}

} // verus!
