use pdf_extract::error::PdfError;
use pdf_extract::html::insert_nbsp;
use pdf_extract::string_utils::{pdf_to_utf8, to_utf8, PDF_DOC_ENCODING};

#[test]
fn pdf_doc_encoding_decodes_ascii() {
    assert_eq!(pdf_to_utf8(b"Hello, world").unwrap(), "Hello, world");
}

#[test]
fn pdf_doc_encoding_decodes_upper_half() {
    // bullet, dagger, euro, y with dieresis
    assert_eq!(pdf_to_utf8(&[0x80, 0x81, 0xa0, 0xff]).unwrap(), "\u{2022}\u{2020}\u{20ac}\u{ff}");
}

#[test]
fn pdf_doc_encoding_round_trips_every_defined_byte() {
    let mut defined = 0;
    for b in 0u16..256 {
        let unit = PDF_DOC_ENCODING[b as usize];
        if unit != 0 {
            let expected: String = char::from_u32(unit as u32).unwrap().to_string();
            assert_eq!(pdf_to_utf8(&[b as u8]).unwrap(), expected, "byte {}", b);
            assert_eq!(expected.chars().count(), 1);
            defined += 1;
        }
    }
    assert_eq!(defined, 252);
}

#[test]
fn pdf_doc_encoding_undefined_byte_is_nul() {
    assert_eq!(pdf_to_utf8(&[0x7f]).unwrap(), "\u{0}");
    assert_eq!(pdf_to_utf8(&[0x41, 0x9f, 0x42]).unwrap(), "A\u{0}B");
}

#[test]
fn empty_string_decodes_to_empty() {
    assert_eq!(pdf_to_utf8(&[]).unwrap(), "");
    assert_eq!(pdf_to_utf8(&[0xfe, 0xff]).unwrap(), "");
}

#[test]
fn byte_order_mark_selects_utf16() {
    assert_eq!(pdf_to_utf8(&[0xfe, 0xff, 0x00, 0x41, 0x03, 0xa9]).unwrap(), "A\u{3a9}");
}

#[test]
fn utf16_surrogate_pair_decodes_to_one_character() {
    let s = pdf_to_utf8(&[0xfe, 0xff, 0xd8, 0x3d, 0xde, 0x00]).unwrap();
    assert_eq!(s, "\u{1f600}");
    assert_eq!(s.chars().count(), 1);
}

#[test]
fn utf16_lone_surrogate_is_an_encoding_error() {
    assert!(matches!(pdf_to_utf8(&[0xfe, 0xff, 0xd8, 0x00]), Err(PdfError::EncodingError(_))));
    assert!(matches!(pdf_to_utf8(&[0xfe, 0xff, 0xdc, 0x00, 0x00, 0x41]), Err(PdfError::EncodingError(_))));
    assert!(matches!(
        pdf_to_utf8(&[0xfe, 0xff, 0xd8, 0x3d, 0x00, 0x41]),
        Err(PdfError::EncodingError(_))
    ));
}

#[test]
fn utf16_odd_length_is_an_encoding_error() {
    assert!(matches!(pdf_to_utf8(&[0xfe, 0xff, 0x00]), Err(PdfError::EncodingError(_))));
    assert!(matches!(pdf_to_utf8(&[0xfe, 0xff, 0x00, 0x41, 0x00]), Err(PdfError::EncodingError(_))));
}

#[test]
fn half_a_byte_order_mark_is_table_text() {
    // 0xfe alone is thorn in PDFDocEncoding
    assert_eq!(pdf_to_utf8(&[0xfe]).unwrap(), "\u{fe}");
    assert_eq!(pdf_to_utf8(&[0xff, 0xfe]).unwrap(), "\u{ff}\u{fe}");
}

#[test]
fn to_utf8_uses_the_given_table() {
    let mut table = vec![0u16; 256];
    table[0x41] = 0x03a9;
    table[0x42] = 0x0062;
    assert_eq!(to_utf8(&table, &[0x41, 0x42]).unwrap(), "\u{3a9}b");
}

#[test]
fn to_utf8_reads_zero_beyond_a_short_table() {
    let table = vec![0x61u16, 0x62];
    assert_eq!(to_utf8(&table, &[0, 1, 2]).unwrap(), "ab\u{0}");
}

#[test]
fn to_utf8_rejects_a_surrogate_in_the_table() {
    let mut table = vec![0x20u16; 256];
    table[1] = 0xd800;
    assert!(matches!(to_utf8(&table, &[1]), Err(PdfError::EncodingError(_))));
    assert_eq!(to_utf8(&table, &[2]).unwrap(), " ");
}

#[test]
fn to_utf8_pairs_surrogates_from_the_table() {
    let mut table = vec![0u16; 256];
    table[1] = 0xd83d;
    table[2] = 0xde00;
    assert_eq!(to_utf8(&table, &[1, 2]).unwrap(), "\u{1f600}");
}

#[test]
fn to_utf8_with_byte_order_mark_ignores_the_table() {
    let table = vec![0x78u16; 256];
    assert_eq!(to_utf8(&table, &[0xfe, 0xff, 0x00, 0x41]).unwrap(), "A");
}

#[test]
fn nbsp_keeps_single_spaces_between_words() {
    assert_eq!(insert_nbsp("a b c"), "a b c");
}

#[test]
fn nbsp_replaces_runs_and_edges() {
    assert_eq!(insert_nbsp("a  b"), "a&nbsp;&nbsp;b");
    assert_eq!(insert_nbsp(" a"), "&nbsp;a");
    assert_eq!(insert_nbsp("a "), "a&nbsp;");
    assert_eq!(insert_nbsp("   "), "&nbsp;&nbsp;&nbsp;");
    assert_eq!(insert_nbsp("a b  c "), "a b&nbsp;&nbsp;c&nbsp;");
}

#[test]
fn nbsp_leaves_other_text_alone() {
    assert_eq!(insert_nbsp(""), "");
    assert_eq!(insert_nbsp("\u{3a9}x\u{1f600}"), "\u{3a9}x\u{1f600}");
    assert_eq!(insert_nbsp("\u{3a9} \u{1f600}"), "\u{3a9} \u{1f600}");
}
