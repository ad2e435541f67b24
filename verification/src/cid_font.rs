//! Composite fonts: character codes of one to four bytes, mapped to character
//! identifiers by a CMap.

use vstd::prelude::*;
use vstd::string::StringSliceAdditionalSpecFns;
use std::collections::HashMap;
use crate::cmap::{next_code, CIDFontEncoding, CIDRange, CharCode, CodeRange};
use crate::error::{Failure, PdfError, PdfResult};
use crate::object::{Dictionary, Document, Number, Object};
use crate::object_utils::{
    get_name_string, maybe_get_array, maybe_get_obj, spec_as_dict, spec_maybe_get_array,
    spec_maybe_get_obj, spec_name_string, to_dict,
};
use crate::string_utils::{pdf_to_utf8, spec_pdf_to_utf8};
use crate::tables::{text_is, FontPrograms};
use crate::unicode_map::{get_unicode_map, spec_get_unicode_map, text_of};
use crate::widths::{load_cid_widths, spec_cid_widths, WidthMap};

verus! {

broadcast use vstd::std_specs::hash::group_hash_axioms;

/// What a composite font is, as contracts see it.
pub struct CIDFontModel {
    pub codespace: Seq<CodeRange>,
    pub cid: Seq<CIDRange>,
    pub to_unicode: Option<Map<CharCode, Seq<char>>>,
    pub widths: WidthMap,
    pub default_width: Number,
}

/// A composite font.
#[derive(Debug)]
pub struct PdfCIDFont {
    encoding: CIDFontEncoding,
    to_unicode: Option<HashMap<CharCode, String>>,
    widths: HashMap<CharCode, Number>,
    default_width: Number,
}

/// What the `Encoding` entry of a composite font is.
pub enum CIDEncodingSource {
    /// `Identity-H` or `Identity-V`.
    Identity,
    /// A stream holding a CMap: its bytes.
    CMap(Seq<u8>),
}

/// What the `Encoding` entry of `font` is: `MissingField` when it is absent
/// or refers to nothing, `InvalidStructure` when it is a name other than the
/// two identity names, or neither a name nor a stream.
pub open spec fn spec_cid_encoding_source(doc: Document, font: Dictionary) -> Result<
    CIDEncodingSource,
    Failure,
> {
    match spec_maybe_get_obj(doc, font, "Encoding".spec_bytes()) {
        None => Err(Failure::MissingField("Encoding".spec_bytes())),
        Some(Object::Name(name)) => match spec_pdf_to_utf8(name@) {
            None => Err(Failure::EncodingError),
            Some(text) => if text == "Identity-H"@ || text == "Identity-V"@ {
                Ok(CIDEncodingSource::Identity)
            } else {
                Err(Failure::InvalidStructure)
            },
        },
        Some(Object::Stream(s)) => Ok(CIDEncodingSource::CMap(s.spec_contents())),
        Some(_) => Err(Failure::InvalidStructure),
    }
}

/// The byte mapping of a composite font, given what the CMap parser made of
/// its `Encoding` stream (`parsed`, `None` when it rejected the stream): the
/// two identity names stand for the two-byte identity mapping.
pub open spec fn spec_cid_encoding(doc: Document, font: Dictionary, parsed: Option<CIDFontEncoding>) -> Result<
    (Seq<CodeRange>, Seq<CIDRange>),
    Failure,
> {
    match spec_cid_encoding_source(doc, font) {
        Err(e) => Err(e),
        Ok(CIDEncodingSource::Identity) => Ok(
            (CIDFontEncoding::identity_codespace(), CIDFontEncoding::identity_cid()),
        ),
        Ok(CIDEncodingSource::CMap(_)) => match parsed {
            Some(e) => Ok((e.codespace@, e.cid@)),
            None => Err(Failure::InvalidStructure),
        },
    }
}

/// The bytes of the CMap that the `Encoding` entry of `font` holds, for the
/// caller to parse; `None` when the entry is no stream.
pub fn cid_encoding_program(doc: &Document, font: &Dictionary) -> (r: Option<Vec<u8>>)
    ensures
        match r {
            Some(b) => spec_cid_encoding_source(*doc, *font) == Ok::<CIDEncodingSource, Failure>(
                CIDEncodingSource::CMap(b@),
            ),
            None => !(spec_cid_encoding_source(*doc, *font) matches Ok(CIDEncodingSource::CMap(_))),
        },
{
    match maybe_get_obj(doc, font, "Encoding".as_bytes()) {
        Some(Object::Stream(s)) => Some(vstd::slice::slice_to_vec(s.contents())),
        _ => None,
    }
}

/// The byte mapping of a composite font.
pub fn load_cid_encoding(doc: &Document, font: &Dictionary, parsed: &Option<CIDFontEncoding>) -> (r:
    PdfResult<CIDFontEncoding>)
    ensures
        match r {
            Ok(e) => spec_cid_encoding(*doc, *font, *parsed) == Ok::<
                (Seq<CodeRange>, Seq<CIDRange>),
                Failure,
            >((e.codespace@, e.cid@)),
            Err(e) => spec_cid_encoding(*doc, *font, *parsed) == Err::<
                (Seq<CodeRange>, Seq<CIDRange>),
                Failure,
            >(e.kind()),
        },
        spec_cid_encoding_source(*doc, *font) == Ok::<CIDEncodingSource, Failure>(
            CIDEncodingSource::Identity,
        ) ==> r is Ok && r->Ok_0.is_identity(),
{
    match maybe_get_obj(doc, font, "Encoding".as_bytes()) {
        None => Err(PdfError::missing("Encoding".as_bytes())),
        Some(Object::Name(name)) => {
            let text = pdf_to_utf8(name.as_slice())?;
            if text_is(&text, "Identity-H") || text_is(&text, "Identity-V") {
                Ok(CIDFontEncoding::identity())
            } else {
                Err(PdfError::invalid("Unsupported encoding"))
            }
        },
        Some(Object::Stream(_)) => match parsed {
            Some(e) => Ok(e.clone()),
            None => Err(PdfError::invalid("Invalid CMap")),
        },
        Some(_) => Err(PdfError::invalid("Invalid encoding type")),
    }
}

/// The dictionary of the descendant font: the first element of
/// `DescendantFonts`, which must be an array of at least one element.
pub open spec fn spec_descendant(doc: Document, font: Dictionary) -> Result<Dictionary, Failure> {
    match spec_maybe_get_array(doc, font, "DescendantFonts".spec_bytes()) {
        None => Err(Failure::MissingField("DescendantFonts".spec_bytes())),
        Some(a) => if a.len() == 0 {
            Err(Failure::InvalidStructure)
        } else {
            spec_as_dict(doc, a[0])
        },
    }
}

/// The composite font that a font dictionary describes.
pub open spec fn spec_cid_font(doc: Document, font: Dictionary, programs: FontPrograms) -> Result<
    CIDFontModel,
    Failure,
> {
    match spec_name_string(doc, font, "BaseFont".spec_bytes()) {
        Err(e) => Err(e),
        Ok(_) => match spec_descendant(doc, font) {
            Err(e) => Err(e),
            Ok(cid_dict) => match spec_cid_encoding(doc, font, programs.encoding) {
                Err(e) => Err(e),
                Ok((codespace, cid)) => match spec_get_unicode_map(doc, font, programs.to_unicode) {
                    Err(e) => Err(e),
                    Ok(to_unicode) => match spec_cid_widths(doc, cid_dict) {
                        Err(e) => Err(e),
                        Ok((widths, default_width)) => Ok(
                            CIDFontModel { codespace, cid, to_unicode, widths, default_width },
                        ),
                    },
                },
            },
        },
    }
}

impl View for PdfCIDFont {
    type V = CIDFontModel;

    closed spec fn view(&self) -> CIDFontModel {
        CIDFontModel {
            codespace: self.encoding.codespace@,
            cid: self.encoding.cid@,
            to_unicode: match self.to_unicode {
                Some(m) => Some(text_of(m@)),
                None => None,
            },
            widths: self.widths@,
            default_width: self.default_width,
        }
    }
}

impl CIDFontModel {
    /// The first character of `bytes` and the number of bytes it takes: the
    /// shortest prefix of one to four bytes that a codespace range of its
    /// width holds and a CID range maps.
    pub open spec fn spec_next_char(self, bytes: Seq<u8>) -> Option<(CharCode, u8)> {
        next_code(self.codespace, self.cid, bytes)
    }

    /// The text of `code`: what the code-to-text map gives it, else nothing.
    pub open spec fn spec_decode_char(self, code: CharCode) -> Seq<char> {
        if self.to_unicode is Some && self.to_unicode->Some_0.contains_key(code) {
            self.to_unicode->Some_0[code]
        } else {
            Seq::empty()
        }
    }

    /// The width of `code`: from the table, else the default width.
    pub open spec fn spec_width(self, code: CharCode) -> Number {
        if self.widths.contains_key(code) {
            self.widths[code]
        } else {
            self.default_width
        }
    }
}

/// Whether a font result is the model a contract names.
pub open spec fn agrees_cid(r: PdfResult<PdfCIDFont>, want: Result<CIDFontModel, Failure>) -> bool {
    match r {
        Ok(f) => want == Ok::<CIDFontModel, Failure>(f@),
        Err(e) => want == Err::<CIDFontModel, Failure>(e.kind()),
    }
}

impl PdfCIDFont {
    /// Build the composite font that `font` describes. `BaseFont`,
    /// `DescendantFonts` and `Encoding` are required; the first error met, in
    /// the order base name, descendant, encoding, code-to-text map, widths,
    /// is returned.
    pub fn new(doc: &Document, font: &Dictionary, programs: &FontPrograms) -> (r: PdfResult<
        PdfCIDFont,
    >)
        ensures
            agrees_cid(r, spec_cid_font(*doc, *font, *programs)),
    {
        let _ = get_name_string(doc, font, "BaseFont".as_bytes())?;
        let descendants = match maybe_get_array(doc, font, "DescendantFonts".as_bytes()) {
            Some(a) => a,
            None => {
                return Err(PdfError::missing("DescendantFonts".as_bytes()));
            },
        };
        if descendants.len() == 0 {
            return Err(PdfError::invalid("Invalid CID dictionary"));
        }
        let cid_dict = to_dict(doc, &descendants[0])?;
        let encoding = load_cid_encoding(doc, font, &programs.encoding)?;
        let to_unicode = get_unicode_map(doc, font, &programs.to_unicode)?;
        let (widths, default_width) = load_cid_widths(doc, cid_dict)?;
        Ok(PdfCIDFont { encoding, to_unicode, widths, default_width })
    }

    /// The width of `id`: from the table, else the default width.
    pub fn get_width(&self, id: CharCode) -> (w: Number)
        ensures
            w == self@.spec_width(id),
    {
        match self.widths.get(&id) {
            Some(w) => *w,
            None => self.default_width,
        }
    }

    /// The first character of `bytes` and the number of bytes it takes.
    pub fn next_char(&self, bytes: &[u8]) -> (r: Option<(CharCode, u8)>)
        ensures
            r == self@.spec_next_char(bytes@),
    {
        self.encoding.next_char(bytes)
    }

    /// The text of `code`.
    pub fn decode_char(&self, code: CharCode) -> (s: String)
        ensures
            s@ == self@.spec_decode_char(code),
    {
        match &self.to_unicode {
            Some(m) => match m.get(&code) {
                Some(s) => s.clone(),
                None => String::new(),
            },
            None => String::new(),
        }
    }
}

} // verus!
