//! Maps from character codes to text, as a font's `ToUnicode` entry gives
//! them.

use vstd::prelude::*;
use vstd::string::StringSliceAdditionalSpecFns;
use std::collections::HashMap;
use crate::cmap::CharCode;
use crate::error::{Failure, PdfError, PdfResult};
use crate::object::{Dictionary, Document, Object};
use crate::object_utils::{maybe_get_obj, spec_maybe_get_obj};
use crate::string_utils::{pdf_to_utf8, spec_pdf_to_utf8};
use crate::utf16::{be_units, decode_utf16, string_from_utf16};

verus! {

broadcast use vstd::std_specs::hash::group_hash_axioms;

/// The text behind every code of a map.
pub open spec fn text_of(m: Map<CharCode, String>) -> Map<CharCode, Seq<char>> {
    m.map_values(|s: String| s@)
}

/// Inserting a string inserts its text.
pub proof fn lemma_text_of_insert(m: Map<CharCode, String>, k: CharCode, s: String)
    ensures
        text_of(m.insert(k, s)) == text_of(m).insert(k, s@),
{
    assert(text_of(m.insert(k, s)) =~= text_of(m).insert(k, s@));
}

/// The empty map holds no text.
pub proof fn lemma_text_of_empty()
    ensures
        text_of(Map::<CharCode, String>::empty()) == Map::<CharCode, Seq<char>>::empty(),
{
    assert(text_of(Map::<CharCode, String>::empty()) =~= Map::<CharCode, Seq<char>>::empty());
}

/// The code units in the complete byte pairs of `bytes`, big-endian; a last
/// odd byte is left out.
pub fn units_of(bytes: &[u8]) -> (units: Vec<u16>)
    ensures
        units@ == be_units(bytes@),
{
    let n: usize = bytes.len() / 2;
    let mut units: Vec<u16> = Vec::new();
    let mut i: usize = 0;
    while i < n
        invariant
            n == bytes@.len() / 2,
            2 * n <= bytes@.len() <= usize::MAX,
            0 <= i <= n,
            units@ == be_units(bytes@).take(i as int),
        decreases n - i,
    {
        let hi: u16 = bytes[2 * i] as u16;
        let lo: u16 = bytes[2 * i + 1] as u16;
        units.push(hi * 256 + lo);
        i += 1;
        proof {
            assert(units@ =~= be_units(bytes@).take(i as int));
        }
    }
    proof {
        assert(be_units(bytes@).take(n as int) =~= be_units(bytes@));
    }
    units
}

/// `init` with every pair of `pairs` whose bytes are well-formed UTF-16BE
/// entered in order; a later pair replaces an earlier one for the same code,
/// and ill-formed values are left out.
pub open spec fn fold_unicode(init: Map<CharCode, Seq<char>>, pairs: Seq<(CharCode, Vec<u8>)>) -> Map<
    CharCode,
    Seq<char>,
>
    decreases pairs.len(),
{
    if pairs.len() == 0 {
        init
    } else {
        let m = fold_unicode(init, pairs.drop_last());
        match decode_utf16(be_units(pairs.last().1@)) {
            Some(t) => m.insert(pairs.last().0, t),
            None => m,
        }
    }
}

/// Enter the pairs of a parsed `ToUnicode` CMap into `map`: each value is read
/// as UTF-16BE code units; lone surrogates and other ill-formed values are
/// dropped.
pub fn extend_unicode(map: &mut HashMap<CharCode, String>, pairs: &Vec<(CharCode, Vec<u8>)>)
    ensures
        text_of(final(map)@) == fold_unicode(text_of(old(map)@), pairs@),
{
    let mut i: usize = 0;
    while i < pairs.len()
        invariant
            0 <= i <= pairs@.len(),
            text_of(map@) == fold_unicode(text_of(old(map)@), pairs@.take(i as int)),
        decreases pairs@.len() - i,
    {
        let units = units_of(pairs[i].1.as_slice());
        let ghost before = map@;
        match string_from_utf16(units.as_slice()) {
            Some(s) => {
                proof {
                    lemma_text_of_insert(before, pairs@[i as int].0, s);
                }
                map.insert(pairs[i].0, s);
            },
            None => {},
        }
        i += 1;
        proof {
            assert(pairs@.take(i as int).drop_last() =~= pairs@.take(i - 1));
        }
    }
    proof {
        assert(pairs@.take(i as int) =~= pairs@);
    }
}

/// What a font's `ToUnicode` entry is.
pub enum ToUnicode {
    /// No entry, or a name: no map.
    Absent,
    /// A stream holding a CMap: its bytes.
    CMap(Seq<u8>),
}

/// What the `ToUnicode` entry of `font` is: `InvalidStructure` when it is
/// neither a stream nor a name, `EncodingError` when it is a name that does
/// not decode as text.
pub open spec fn spec_to_unicode(doc: Document, font: Dictionary) -> Result<ToUnicode, Failure> {
    match spec_maybe_get_obj(doc, font, "ToUnicode".spec_bytes()) {
        Some(Object::Stream(s)) => Ok(ToUnicode::CMap(s.spec_contents())),
        Some(Object::Name(n)) => if spec_pdf_to_utf8(n@) is Some {
            Ok(ToUnicode::Absent)
        } else {
            Err(Failure::EncodingError)
        },
        None => Ok(ToUnicode::Absent),
        Some(_) => Err(Failure::InvalidStructure),
    }
}

/// The bytes of the CMap that the `ToUnicode` entry of `font` holds, for the
/// caller to parse; `None` when there is no such stream.
pub fn to_unicode_program(doc: &Document, font: &Dictionary) -> (r: Option<Vec<u8>>)
    ensures
        match r {
            Some(b) => spec_to_unicode(*doc, *font) == Ok::<ToUnicode, Failure>(ToUnicode::CMap(b@)),
            None => !(spec_to_unicode(*doc, *font) matches Ok(ToUnicode::CMap(_))),
        },
{
    match maybe_get_obj(doc, font, "ToUnicode".as_bytes()) {
        Some(Object::Stream(s)) => Some(vstd::slice::slice_to_vec(s.contents())),
        _ => None,
    }
}

/// The map that `font` gets from its `ToUnicode` entry, given what the CMap
/// parser made of the entry's stream (`parsed`, `None` when it rejected the
/// stream).
pub open spec fn spec_get_unicode_map(
    doc: Document,
    font: Dictionary,
    parsed: Option<Vec<(CharCode, Vec<u8>)>>,
) -> Result<Option<Map<CharCode, Seq<char>>>, Failure> {
    match spec_to_unicode(doc, font) {
        Err(e) => Err(e),
        Ok(ToUnicode::Absent) => Ok(None),
        Ok(ToUnicode::CMap(_)) => match parsed {
            Some(pairs) => Ok(Some(fold_unicode(Map::empty(), pairs@))),
            None => Err(Failure::InvalidStructure),
        },
    }
}

/// Whether an optional map holds the text a contract names.
pub open spec fn agrees_map(
    r: PdfResult<Option<HashMap<CharCode, String>>>,
    want: Result<Option<Map<CharCode, Seq<char>>>, Failure>,
) -> bool {
    match r {
        Ok(Some(m)) => want == Ok::<Option<Map<CharCode, Seq<char>>>, Failure>(Some(text_of(m@))),
        Ok(None) => want == Ok::<Option<Map<CharCode, Seq<char>>>, Failure>(None),
        Err(e) => want == Err::<Option<Map<CharCode, Seq<char>>>, Failure>(e.kind()),
    }
}

/// The code-to-text map of a font's `ToUnicode` entry. `parsed` is what the
/// CMap parser made of the entry's stream, `None` when it rejected it; it is
/// consulted only when the entry is a stream. A name gives no map; any other
/// kind of entry is an `InvalidStructure` error, as is a rejected stream.
pub fn get_unicode_map(
    doc: &Document,
    font: &Dictionary,
    parsed: &Option<Vec<(CharCode, Vec<u8>)>>,
) -> (r: PdfResult<Option<HashMap<CharCode, String>>>)
    ensures
        agrees_map(r, spec_get_unicode_map(*doc, *font, *parsed)),
{
    match maybe_get_obj(doc, font, "ToUnicode".as_bytes()) {
        Some(Object::Stream(_)) => match parsed {
            Some(pairs) => {
                let mut map: HashMap<CharCode, String> = HashMap::new();
                proof {
                    lemma_text_of_empty();
                }
                extend_unicode(&mut map, pairs);
                Ok(Some(map))
            },
            None => Err(PdfError::invalid("Invalid ToUnicode CMap")),
        },
        Some(Object::Name(name)) => {
            let _ = pdf_to_utf8(name.as_slice())?;
            Ok(None)
        },
        None => Ok(None),
        Some(_) => Err(PdfError::invalid("Invalid ToUnicode type")),
    }
}

} // verus!
