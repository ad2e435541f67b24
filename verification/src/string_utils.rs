//! Decoding of PDF text strings: UTF-16BE behind a byte-order mark, or one
//! byte per character through a 256-entry table.

use vstd::prelude::*;
use crate::error::{PdfError, PdfResult};
use crate::utf16::{
    be_bytes, decode_utf16, decode_utf16be, decode_utf16be_bytes, is_surrogate,
    lemma_be_units_of_be_bytes, lemma_decode_without_surrogates,
};

verus! {

/// PDFDocEncoding: the code unit for every byte, 0 where the byte is undefined.
pub const PDF_DOC_ENCODING: [u16; 256] = [
    0x0000, 0x0001, 0x0002, 0x0003, 0x0004, 0x0005, 0x0006, 0x0007,
    0x0008, 0x0009, 0x000a, 0x000b, 0x000c, 0x000d, 0x000e, 0x000f,
    0x0010, 0x0011, 0x0012, 0x0013, 0x0014, 0x0015, 0x0016, 0x0017,
    0x02d8, 0x02c7, 0x02c6, 0x02d9, 0x02dd, 0x02db, 0x02da, 0x02dc,
    0x0020, 0x0021, 0x0022, 0x0023, 0x0024, 0x0025, 0x0026, 0x0027,
    0x0028, 0x0029, 0x002a, 0x002b, 0x002c, 0x002d, 0x002e, 0x002f,
    0x0030, 0x0031, 0x0032, 0x0033, 0x0034, 0x0035, 0x0036, 0x0037,
    0x0038, 0x0039, 0x003a, 0x003b, 0x003c, 0x003d, 0x003e, 0x003f,
    0x0040, 0x0041, 0x0042, 0x0043, 0x0044, 0x0045, 0x0046, 0x0047,
    0x0048, 0x0049, 0x004a, 0x004b, 0x004c, 0x004d, 0x004e, 0x004f,
    0x0050, 0x0051, 0x0052, 0x0053, 0x0054, 0x0055, 0x0056, 0x0057,
    0x0058, 0x0059, 0x005a, 0x005b, 0x005c, 0x005d, 0x005e, 0x005f,
    0x0060, 0x0061, 0x0062, 0x0063, 0x0064, 0x0065, 0x0066, 0x0067,
    0x0068, 0x0069, 0x006a, 0x006b, 0x006c, 0x006d, 0x006e, 0x006f,
    0x0070, 0x0071, 0x0072, 0x0073, 0x0074, 0x0075, 0x0076, 0x0077,
    0x0078, 0x0079, 0x007a, 0x007b, 0x007c, 0x007d, 0x007e, 0x0000,
    0x2022, 0x2020, 0x2021, 0x2026, 0x2014, 0x2013, 0x0192, 0x2044,
    0x2039, 0x203a, 0x2212, 0x2030, 0x201e, 0x201c, 0x201d, 0x2018,
    0x2019, 0x201a, 0x2122, 0xfb01, 0xfb02, 0x0141, 0x0152, 0x0160,
    0x0178, 0x017d, 0x0131, 0x0142, 0x0153, 0x0161, 0x017e, 0x0000,
    0x20ac, 0x00a1, 0x00a2, 0x00a3, 0x00a4, 0x00a5, 0x00a6, 0x00a7,
    0x00a8, 0x00a9, 0x00aa, 0x00ab, 0x00ac, 0x0000, 0x00ae, 0x00af,
    0x00b0, 0x00b1, 0x00b2, 0x00b3, 0x00b4, 0x00b5, 0x00b6, 0x00b7,
    0x00b8, 0x00b9, 0x00ba, 0x00bb, 0x00bc, 0x00bd, 0x00be, 0x00bf,
    0x00c0, 0x00c1, 0x00c2, 0x00c3, 0x00c4, 0x00c5, 0x00c6, 0x00c7,
    0x00c8, 0x00c9, 0x00ca, 0x00cb, 0x00cc, 0x00cd, 0x00ce, 0x00cf,
    0x00d0, 0x00d1, 0x00d2, 0x00d3, 0x00d4, 0x00d5, 0x00d6, 0x00d7,
    0x00d8, 0x00d9, 0x00da, 0x00db, 0x00dc, 0x00dd, 0x00de, 0x00df,
    0x00e0, 0x00e1, 0x00e2, 0x00e3, 0x00e4, 0x00e5, 0x00e6, 0x00e7,
    0x00e8, 0x00e9, 0x00ea, 0x00eb, 0x00ec, 0x00ed, 0x00ee, 0x00ef,
    0x00f0, 0x00f1, 0x00f2, 0x00f3, 0x00f4, 0x00f5, 0x00f6, 0x00f7,
    0x00f8, 0x00f9, 0x00fa, 0x00fb, 0x00fc, 0x00fd, 0x00fe, 0x00ff,
];

/// The longest byte string that is decoded: it becomes twice as many bytes of
/// UTF-16, for which the decoder reserves half as much again.
pub open spec fn max_text_len() -> int {
    (usize::MAX / 8) as int
}

/// `s` starts with the UTF-16BE byte-order mark.
pub open spec fn has_bom(s: Seq<u8>) -> bool {
    s.len() >= 2 && s[0] == 0xfe && s[1] == 0xff
}

/// The code unit that `table` gives to byte `b`: 0 beyond the table's end.
pub open spec fn table_unit(table: Seq<u16>, b: u8) -> u16 {
    if (b as int) < table.len() {
        table[b as int]
    } else {
        0
    }
}

/// The code units that `table` gives to the bytes of `s`.
pub open spec fn table_units(table: Seq<u16>, s: Seq<u8>) -> Seq<u16> {
    Seq::new(s.len(), |i: int| table_unit(table, s[i]))
}

/// The text of `s`: UTF-16BE after a byte-order mark, else one code unit per
/// byte through `table`. `None` when the code units are ill-formed UTF-16, or
/// when `s` is longer than `max_text_len()`.
pub open spec fn spec_to_utf8(table: Seq<u16>, s: Seq<u8>) -> Option<Seq<char>> {
    if s.len() > max_text_len() {
        None
    } else if has_bom(s) {
        decode_utf16be(s.skip(2))
    } else {
        decode_utf16(table_units(table, s))
    }
}

/// The text of `s` under PDFDocEncoding.
pub open spec fn spec_pdf_to_utf8(s: Seq<u8>) -> Option<Seq<char>> {
    spec_to_utf8(PDF_DOC_ENCODING@, s)
}

/// No entry of PDFDocEncoding is a surrogate.
pub proof fn lemma_pdf_doc_encoding_scalar(b: u8)
    ensures
        !is_surrogate(PDF_DOC_ENCODING[b as int]),
        table_unit(PDF_DOC_ENCODING@, b) == PDF_DOC_ENCODING[b as int],
{
}

/// Without a byte-order mark PDFDocEncoding always decodes, one character per
/// byte.
pub proof fn lemma_pdf_doc_decodes(s: Seq<u8>)
    requires
        !has_bom(s),
        s.len() <= max_text_len(),
    ensures
        spec_pdf_to_utf8(s) == Some(
            Seq::new(s.len(), |i: int| PDF_DOC_ENCODING[s[i] as int] as u32 as char),
        ),
{
    let units = table_units(PDF_DOC_ENCODING@, s);
    assert forall|i: int| 0 <= i < units.len() implies !is_surrogate(#[trigger] units[i]) by {
        lemma_pdf_doc_encoding_scalar(s[i]);
    }
    lemma_decode_without_surrogates(units);
    assert(units.map_values(|u: u16| u as u32 as char) =~= Seq::new(
        s.len(),
        |i: int| PDF_DOC_ENCODING[s[i] as int] as u32 as char,
    )) by {
        assert forall|i: int| 0 <= i < s.len() implies units[i] == PDF_DOC_ENCODING[s[i] as int] by {
            lemma_pdf_doc_encoding_scalar(s[i]);
        }
    }
}

/// Round trip through PDFDocEncoding: a single byte whose table entry `u` is
/// not zero decodes to the one-character string whose scalar value is `u`.
pub proof fn lemma_pdf_doc_round_trip(b: u8)
    requires
        PDF_DOC_ENCODING[b as int] != 0,
    ensures
        spec_pdf_to_utf8(seq![b]) == Some(seq![PDF_DOC_ENCODING[b as int] as u32 as char]),
        (PDF_DOC_ENCODING[b as int] as u32 as char) as u32 == PDF_DOC_ENCODING[b as int],
{
    let s = seq![b];
    lemma_pdf_doc_decodes(s);
    assert(Seq::new(s.len(), |i: int| PDF_DOC_ENCODING[s[i] as int] as u32 as char)
        =~= seq![PDF_DOC_ENCODING[b as int] as u32 as char]);
    lemma_pdf_doc_encoding_scalar(b);
}

/// The big-endian bytes of the code units that `table` gives to `s`.
fn table_bytes(table: &[u16], s: &[u8]) -> (out: Vec<u8>)
    requires
        s@.len() <= max_text_len(),
    ensures
        out@ == be_bytes(table_units(table@, s@)),
{
    let mut out: Vec<u8> = Vec::new();
    let mut i: usize = 0;
    while i < s.len()
        invariant
            0 <= i <= s@.len(),
            out@.len() == 2 * i,
            out@ == be_bytes(table_units(table@, s@).take(i as int)),
        decreases s@.len() - i,
    {
        let b: usize = s[i] as usize;
        let k: u16 = if b < table.len() {
            table[b]
        } else {
            0
        };
        out.push((k / 256) as u8);
        out.push((k % 256) as u8);
        i += 1;
        proof {
            let units = table_units(table@, s@);
            assert(units.take(i as int) =~= units.take(i - 1).push(k));
            assert(out@ =~= be_bytes(units.take(i as int)));
        }
    }
    proof {
        let units = table_units(table@, s@);
        assert(units.take(i as int) =~= units);
    }
    out
}

/// Convert a PDF text string to a `String` with `encoding` as the one-byte
/// table. Fails with `EncodingError` exactly when the code units are
/// ill-formed UTF-16 or the string is longer than `max_text_len()`.
pub fn to_utf8(encoding: &[u16], s: &[u8]) -> (r: PdfResult<String>)
    ensures
        match r {
            Ok(t) => spec_to_utf8(encoding@, s@) == Some(t@),
            Err(e) => spec_to_utf8(encoding@, s@) is None && e is EncodingError,
        },
{
    if s.len() > usize::MAX / 8 {
        return Err(PdfError::encoding("Text too long"));
    }
    if s.len() >= 2 && s[0] == 0xfe && s[1] == 0xff {
        let rest = vstd::slice::slice_subrange(s, 2, s.len());
        assert(rest@ == s@.skip(2));
        match decode_utf16be_bytes(rest) {
            Some(t) => Ok(t),
            None => Err(PdfError::encoding("Invalid UTF-16BE")),
        }
    } else {
        let bytes = table_bytes(encoding, s);
        proof {
            lemma_be_units_of_be_bytes(table_units(encoding@, s@));
        }
        match decode_utf16be_bytes(bytes.as_slice()) {
            Some(t) => Ok(t),
            None => Err(PdfError::encoding("Invalid encoding")),
        }
    }
}

/// Convert a PDF text string to a `String`: UTF-16BE after a byte-order mark,
/// PDFDocEncoding otherwise. Without the mark the conversion fails only on a
/// string longer than `max_text_len()`.
pub fn pdf_to_utf8(s: &[u8]) -> (r: PdfResult<String>)
    ensures
        match r {
            Ok(t) => spec_pdf_to_utf8(s@) == Some(t@),
            Err(e) => spec_pdf_to_utf8(s@) is None && e is EncodingError,
        },
        !has_bom(s@) && s@.len() <= max_text_len() ==> r is Ok,
{
    proof {
        if !has_bom(s@) && s@.len() <= max_text_len() {
            lemma_pdf_doc_decodes(s@);
        }
    }
    let table: [u16; 256] = PDF_DOC_ENCODING;
    to_utf8(table.as_slice(), s)
}

} // verus!
