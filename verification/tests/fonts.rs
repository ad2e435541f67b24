use pdf_extract::cid_font::{cid_encoding_program, PdfCIDFont};
use pdf_extract::cmap::{CIDFontEncoding, CIDRange, CodeRange};
use pdf_extract::encodings::{
    encoding_to_unicode_table, MAC_EXPERT_ENCODING, MAC_ROMAN_ENCODING, STANDARD_ENCODING,
    WIN_ANSI_ENCODING,
};
use pdf_extract::error::PdfError;
use pdf_extract::font::{make_font, PdfFont, PdfFontIter};
use pdf_extract::dingbats::zapf_dingbats_list;
use pdf_extract::encoding_names::{
    resolve_encoding, MAC_EXPERT_NAMES, MAC_ROMAN_NAMES, STANDARD_NAMES, WIN_ANSI_NAMES,
};
use pdf_extract::font_encoding::{apply_encoding_differences, difference_unit};
use pdf_extract::glyphlist::adobe_glyph_list;
use pdf_extract::glyphnames::GlyphNames;
use pdf_extract::object::{Dictionary, Document, Number, Object, Stream};
use pdf_extract::simple_font::{compact_font_program, PdfSimpleFont, PdfType3Font};
use pdf_extract::tables::{is_core_font, FontMetrics, FontPrograms, FontTables, GlyphMetric};
use pdf_extract::unicode_map::{get_unicode_map, to_unicode_program};

fn dict(entries: Vec<(&str, Object)>) -> Dictionary {
    Dictionary { entries: entries.into_iter().map(|(k, v)| (k.as_bytes().to_vec(), v)).collect() }
}

fn name(s: &str) -> Object {
    Object::Name(s.as_bytes().to_vec())
}

fn ints(v: &[i64]) -> Object {
    Object::Array(v.iter().map(|i| Object::Integer(*i)).collect())
}

fn stream(content: &[u8]) -> Object {
    Object::Stream(Stream { dict: Dictionary::new(), content: content.to_vec(), decoded: None })
}

fn empty_document() -> Document {
    Document {
        version: "1.4".to_string(),
        trailer: Dictionary::new(),
        objects: Vec::new(),
        pages: Vec::new(),
        encrypted: false,
    }
}

fn glyph_list() -> GlyphNames {
    let mut g = GlyphNames::new();
    g.push("A".to_string(), 0x41);
    g.push("B".to_string(), 0x42);
    g.push("space".to_string(), 0x20);
    g.push("Ohm".to_string(), 0x2126);
    g.push("bullet".to_string(), 0x2022);
    g.push("Euro".to_string(), 0x20ac);
    g
}

fn tables() -> FontTables {
    let mut t = FontTables::new();
    t.glyph_names = glyph_list();
    t.zapf_names.push("a1".to_string(), 0x2701);
    t.core_metrics.push(FontMetrics {
        name: "Courier".to_string(),
        glyphs: vec![
            GlyphMetric { code: 32, width: Number::Integer(600), name: "space".to_string() },
            GlyphMetric { code: 65, width: Number::Integer(601), name: "A".to_string() },
            GlyphMetric { code: -1, width: Number::Integer(602), name: "Euro".to_string() },
            GlyphMetric { code: 183, width: Number::Integer(603), name: "bullet".to_string() },
        ],
    });
    t
}

fn is_missing(e: &PdfError, key: &str) -> bool {
    matches!(e, PdfError::MissingField(k) if k.as_slice() == key.as_bytes())
}

fn simple(font: &Dictionary, programs: &FontPrograms) -> PdfFont {
    make_font(&empty_document(), font, &tables(), programs).unwrap()
}

#[test]
fn glyph_names_resolve_by_first_entry() {
    let mut g = glyph_list();
    g.push("A".to_string(), 0x61);
    assert_eq!(g.name_to_unicode(&"A".to_string()), Some(0x41));
    assert_eq!(g.name_to_unicode(&"Ohm".to_string()), Some(0x2126));
    assert_eq!(g.name_to_unicode(&"notdef".to_string()), None);
    assert_eq!(GlyphNames::new().name_to_unicode(&"A".to_string()), None);
}

#[test]
fn the_glyph_list_knows_the_standard_names() {
    let list = adobe_glyph_list();
    assert_eq!(list.entries.len(), 4495);
    let expected = [
        ("A", 0x0041),
        ("space", 0x0020),
        ("Ohm", 0x2126),
        ("Omega", 0x2126),
        ("Omegagreek", 0x03a9),
        ("bullet", 0x2022),
        ("Euro", 0x20ac),
        ("fi", 0xfb01),
        ("quotesingle", 0x0027),
        ("quoteright", 0x2019),
        ("zero", 0x0030),
        ("germandbls", 0x00df),
        ("afii10017", 0x0410),
        ("zuhiragana", 0x305a),
    ];
    for (name, unit) in expected {
        assert_eq!(list.name_to_unicode(&name.to_string()), Some(unit), "{}", name);
    }
    for name in ["notdef", ".notdef", "", "a1", "omega ", "OHM"] {
        assert_eq!(list.name_to_unicode(&name.to_string()), None, "{}", name);
    }
}

#[test]
fn the_glyph_list_is_in_order_without_repeats() {
    let list = adobe_glyph_list();
    assert!(list.entries.windows(2).all(|w| w[0].0 < w[1].0));
    assert_eq!(list.entries.first().unwrap().0, "A");
    assert_eq!(list.entries.last().unwrap().0, "zukatakana");
    let tables = FontTables::with_glyph_lists();
    assert_eq!(tables.glyph_names.entries, list.entries);
    assert_eq!(tables.zapf_names.entries, zapf_dingbats_list().entries);
    assert!(tables.core_metrics.is_empty());
}

#[test]
fn the_dingbats_list_follows_the_dingbats_block() {
    let list = zapf_dingbats_list();
    assert_eq!(list.entries.len(), 201);
    assert!(list.entries.windows(2).all(|w| w[0].0 < w[1].0));
    let expected = [
        ("a1", 0x2701),
        ("a2", 0x2702),
        ("a202", 0x2703),
        ("a4", 0x260e),
        ("a11", 0x261b),
        ("a12", 0x261e),
        ("a35", 0x2605),
        ("a36", 0x2729),
        ("a70", 0x274b),
        ("a71", 0x25cf),
        ("a73", 0x25a0),
        ("a76", 0x25b2),
        ("a77", 0x25bc),
        ("a78", 0x25c6),
        ("a81", 0x25d7),
        ("a100", 0x275e),
        ("a89", 0x2768),
        ("a96", 0x2775),
        ("a101", 0x2761),
        ("a109", 0x2660),
        ("a110", 0x2665),
        ("a111", 0x2666),
        ("a112", 0x2663),
        ("a120", 0x2460),
        ("a129", 0x2469),
        ("a130", 0x2776),
        ("a159", 0x2793),
        ("a161", 0x2192),
        ("a163", 0x2194),
        ("a164", 0x2195),
        ("a191", 0x27be),
        ("a206", 0x2770),
    ];
    for (name, unit) in expected {
        assert_eq!(list.name_to_unicode(&name.to_string()), Some(unit), "{}", name);
    }
    for name in ["a0", "a80", "a113", "a116", "a207", "space", "A", ""] {
        assert_eq!(list.name_to_unicode(&name.to_string()), None, "{}", name);
    }
    // no name of the list is a name of the general list
    let general = adobe_glyph_list();
    assert!(list.entries.iter().all(|e| general.name_to_unicode(&e.0).is_none()));
}

#[test]
fn encoding_names_resolve_to_the_encoding_tables() {
    let list = adobe_glyph_list();
    assert_eq!(resolve_encoding(&WIN_ANSI_NAMES, &list), WIN_ANSI_ENCODING.to_vec());
    assert_eq!(resolve_encoding(&MAC_ROMAN_NAMES, &list), MAC_ROMAN_ENCODING.to_vec());
    assert_eq!(resolve_encoding(&MAC_EXPERT_NAMES, &list), MAC_EXPERT_ENCODING.to_vec());
    assert_eq!(resolve_encoding(&STANDARD_NAMES, &list), STANDARD_ENCODING.to_vec());
    // every name of the tables is a name of the list, and no byte is named twice
    for names in [&WIN_ANSI_NAMES[..], &MAC_ROMAN_NAMES[..], &MAC_EXPERT_NAMES[..], &STANDARD_NAMES[..]] {
        for (_, name) in names {
            assert!(list.name_to_unicode(&name.to_string()).is_some(), "{}", name);
        }
        assert!(names.windows(2).all(|w| w[0].0 < w[1].0));
    }
    assert_eq!(WIN_ANSI_NAMES.len(), 224);
    assert_eq!(STANDARD_NAMES.len(), 149);
}

#[test]
fn encoding_names_resolve_slot_by_slot() {
    assert!(WIN_ANSI_NAMES.contains(&(0x41, "A")));
    assert!(WIN_ANSI_NAMES.contains(&(0x80, "Euro")));
    assert!(WIN_ANSI_NAMES.contains(&(0x7f, "bullet")));
    assert!(WIN_ANSI_NAMES.iter().all(|e| e.0 >= 0x20));
    assert!(STANDARD_NAMES.contains(&(0x27, "quoteright")));
    assert!(MAC_ROMAN_NAMES.contains(&(0x80, "Adieresis")));
    let mut small = GlyphNames::new();
    small.push("A".to_string(), 0x41);
    small.push("Euro".to_string(), 0x20ac);
    let table = resolve_encoding(&WIN_ANSI_NAMES, &small);
    assert_eq!(table.len(), 256);
    assert_eq!(table[0x41], 0x41);
    assert_eq!(table[0x80], 0x20ac);
    // unknown names and bytes without a glyph resolve to 0
    assert_eq!(table[0x42], 0);
    assert_eq!(table[0x1f], 0);
    assert_eq!(table.iter().filter(|u| **u != 0).count(), 2);
    assert_eq!(resolve_encoding(&[], &small), vec![0u16; 256]);
    // of two entries for one byte the later counts
    let twice = resolve_encoding(&[(7, "A"), (9, "Euro"), (7, "Euro"), (9, "nosuchglyph")], &small);
    assert_eq!((twice[7], twice[9]), (0x20ac, 0));
}

#[test]
fn differences_resolve_through_the_glyph_list() {
    let font = make_font(
        &empty_document(),
        &differences_font(),
        &FontTables::with_glyph_lists(),
        &FontPrograms::none(),
    )
    .unwrap();
    assert_eq!(font.decode_char(65), "\u{2126}");
    assert_eq!(font.decode_char(66), "");
    assert_eq!(font.decode_char(67), "C");
    assert_eq!(font.decode(b"ABC"), "\u{2126}C");
}

#[test]
fn the_fourteen_standard_fonts_are_known() {
    for n in [
        "Courier-Bold",
        "Courier-BoldOblique",
        "Courier-Oblique",
        "Courier",
        "Helvetica-Bold",
        "Helvetica-BoldOblique",
        "Helvetica-Oblique",
        "Helvetica",
        "Symbol",
        "Times-Bold",
        "Times-BoldItalic",
        "Times-Italic",
        "Times-Roman",
        "ZapfDingbats",
    ] {
        assert!(is_core_font(&n.to_string()), "{}", n);
    }
    assert!(!is_core_font(&"Arial".to_string()));
    assert!(!is_core_font(&"courier".to_string()));
    assert!(!is_core_font(&"".to_string()));
}

#[test]
fn named_encodings_give_their_tables() {
    let win = encoding_to_unicode_table(b"WinAnsiEncoding").unwrap();
    assert_eq!(win.len(), 256);
    assert_eq!(win, WIN_ANSI_ENCODING.to_vec());
    assert_eq!(win[0x41], 0x41);
    assert_eq!(win[0x80], 0x20ac);
    assert_eq!(win[0x95], 0x2022);
    assert_eq!(win[0x1f], 0);
    let mac = encoding_to_unicode_table(b"MacRomanEncoding").unwrap();
    assert_eq!(mac, MAC_ROMAN_ENCODING.to_vec());
    assert_eq!(mac[0x41], 0x41);
    assert_eq!(mac[0x80], 0xc4);
    assert_eq!(mac[0xa5], 0x2022);
    let expert = encoding_to_unicode_table(b"MacExpertEncoding").unwrap();
    assert_eq!(expert, MAC_EXPERT_ENCODING.to_vec());
    assert_eq!(expert.len(), 256);
}

#[test]
fn standard_encoding_differs_from_ascii_at_the_quotes() {
    assert_eq!(STANDARD_ENCODING[0x41], 0x41);
    assert_eq!(STANDARD_ENCODING[0x27], 0x2019);
    assert_eq!(STANDARD_ENCODING[0x60], 0x2018);
    assert_eq!(STANDARD_ENCODING[0xa1], 0xa1);
    assert_eq!(STANDARD_ENCODING[0xe1], 0xc6);
    assert_eq!(STANDARD_ENCODING[0x00], 0);
    assert_eq!(STANDARD_ENCODING[0xff], 0);
}

#[test]
fn unknown_encoding_names_are_refused() {
    assert!(matches!(encoding_to_unicode_table(b"StandardEncoding"), Err(PdfError::InvalidStructure(_))));
    assert!(matches!(encoding_to_unicode_table(b""), Err(PdfError::InvalidStructure(_))));
    assert!(matches!(
        encoding_to_unicode_table(&[0xfe, 0xff, 0xd8, 0x00]),
        Err(PdfError::EncodingError(_))
    ));
}

#[test]
fn differences_assign_consecutive_codes() {
    let doc = empty_document();
    let mut table = vec![0u16; 256];
    let entries = vec![Object::Integer(65), name("Ohm"), name("bullet"), Object::Integer(10), name("A")];
    apply_encoding_differences(&doc, &glyph_list(), &mut table, &entries).unwrap();
    assert_eq!(table[65], 0x2126);
    assert_eq!(table[66], 0x2022);
    assert_eq!(table[10], 0x41);
    assert_eq!(table.iter().filter(|u| **u != 0).count(), 3);
}

#[test]
fn differences_skip_unknown_names_and_codes_out_of_range() {
    let doc = empty_document();
    let mut table = vec![7u16; 256];
    let entries = vec![
        Object::Integer(65),
        name("nosuchglyph"),
        name("A"),
        Object::Integer(-1),
        name("B"),
        name("B"),
        Object::Integer(256),
        name("Ohm"),
        Object::Integer(255),
        name("Euro"),
        name("Ohm"),
    ];
    apply_encoding_differences(&doc, &glyph_list(), &mut table, &entries).unwrap();
    assert_eq!(table[65], 7);
    assert_eq!(table[66], 0x41);
    assert_eq!(table[0], 0x42);
    assert_eq!(table[255], 0x20ac);
    assert_eq!(table.len(), 256);
    assert_eq!(table.iter().filter(|u| **u != 7).count(), 3);
}

#[test]
fn differences_refuse_other_entries() {
    let doc = empty_document();
    let mut table = vec![0u16; 256];
    let entries = vec![Object::Integer(65), Object::Boolean(true)];
    assert!(matches!(
        apply_encoding_differences(&doc, &glyph_list(), &mut table, &entries),
        Err(PdfError::InvalidStructure(_))
    ));
    let dangling = vec![Object::Reference((1, 0))];
    assert!(matches!(
        apply_encoding_differences(&doc, &glyph_list(), &mut table, &dangling),
        Err(PdfError::Parse(_))
    ));
    assert_eq!(table.len(), 256);
}

fn differences_font() -> Dictionary {
    dict(vec![
        ("Subtype", name("Type1")),
        ("BaseFont", name("Custom")),
        (
            "Encoding",
            Object::Dictionary(dict(vec![
                ("BaseEncoding", name("WinAnsiEncoding")),
                ("Differences", Object::Array(vec![Object::Integer(65), name("Ohm"), name("notdef")])),
            ])),
        ),
    ])
}

#[test]
fn differences_encoding_changes_the_base_table() {
    let font = simple(&differences_font(), &FontPrograms::none());
    assert_eq!(font.decode_char(65), "\u{2126}");
    // `notdef` names no glyph: the slot is undefined and decodes to nothing
    assert_eq!(font.decode_char(66), "");
    assert_eq!(font.decode_char(67), "C");
    assert_eq!(font.decode(b"ABC"), "\u{2126}C");
}

#[test]
fn notdef_undefines_a_slot_whatever_the_list_says() {
    let doc = empty_document();
    let mut list = glyph_list();
    list.push("notdef".to_string(), 0x58);
    list.push(".notdef".to_string(), 0x59);
    let mut table = vec![7u16; 256];
    let entries = vec![
        Object::Integer(65),
        name("notdef"),
        name(".notdef"),
        name("nosuchglyph"),
        name("A"),
        Object::Integer(300),
        name("notdef"),
    ];
    apply_encoding_differences(&doc, &list, &mut table, &entries).unwrap();
    assert_eq!(table[65], 0);
    assert_eq!(table[66], 0);
    // an unknown name leaves its slot as it was
    assert_eq!(table[67], 7);
    assert_eq!(table[68], 0x41);
    assert_eq!(table.iter().filter(|u| **u != 7).count(), 3);
    assert_eq!(difference_unit(&list, &"notdef".to_string()), Some(0));
    assert_eq!(difference_unit(&list, &".notdef".to_string()), Some(0));
    assert_eq!(difference_unit(&list, &"A".to_string()), Some(0x41));
    assert_eq!(difference_unit(&list, &"Notdef".to_string()), None);
}

#[test]
fn undefined_slots_decode_to_nothing() {
    let font = simple(
        &dict(vec![
            ("Subtype", name("Type1")),
            ("BaseFont", name("Custom")),
            ("Encoding", name("WinAnsiEncoding")),
        ]),
        &FontPrograms::none(),
    );
    assert_eq!(font.decode_char(0x1f), "");
    assert_eq!(font.decode_char(0x41), "A");
    assert_eq!(font.decode_char(0x80), "\u{20ac}");
    // only the low byte of a code selects the slot
    assert_eq!(font.decode_char(0x141), "A");
    assert_eq!(font.decode(&[0x41, 0x00, 0x42]), "AB");
}

#[test]
fn a_dictionary_without_base_encoding_starts_from_pdf_doc_encoding() {
    let font = simple(
        &dict(vec![
            ("Subtype", name("Type1")),
            ("BaseFont", name("Custom")),
            (
                "Encoding",
                Object::Dictionary(dict(vec![(
                    "Differences",
                    Object::Array(vec![Object::Integer(0x42), name("A")]),
                )])),
            ),
        ]),
        &FontPrograms::none(),
    );
    assert_eq!(font.decode_char(0x42), "A");
    assert_eq!(font.decode_char(0x80), "\u{2022}");
    assert_eq!(font.decode_char(0xa0), "\u{20ac}");
}

#[test]
fn truetype_defaults_to_win_ansi() {
    let tt = simple(
        &dict(vec![("Subtype", name("TrueType")), ("BaseFont", name("Custom"))]),
        &FontPrograms::none(),
    );
    assert_eq!(tt.decode_char(0x80), "\u{20ac}");
    let t1 = simple(
        &dict(vec![("Subtype", name("Type1")), ("BaseFont", name("Custom"))]),
        &FontPrograms::none(),
    );
    // no encoding at all: PDFDocEncoding decodes
    assert_eq!(t1.decode_char(0x80), "\u{2022}");
}

#[test]
fn simple_fonts_need_base_font_and_subtype() {
    let doc = empty_document();
    let t = tables();
    let p = FontPrograms::none();
    let e = make_font(&doc, &dict(vec![("BaseFont", name("X"))]), &t, &p).err().unwrap();
    assert!(is_missing(&e, "Subtype"));
    let e = PdfSimpleFont::new(&doc, &dict(vec![("Subtype", name("Type1"))]), &t, &p).err().unwrap();
    assert!(is_missing(&e, "BaseFont"));
    let bad = dict(vec![
        ("Subtype", name("Type1")),
        ("BaseFont", name("X")),
        ("Encoding", Object::Integer(3)),
    ]);
    assert!(matches!(make_font(&doc, &bad, &t, &p), Err(PdfError::InvalidStructure(_))));
    let unknown = dict(vec![
        ("Subtype", name("Type1")),
        ("BaseFont", name("X")),
        ("Encoding", name("StandardEncoding")),
    ]);
    assert!(matches!(make_font(&doc, &unknown, &t, &p), Err(PdfError::InvalidStructure(_))));
    let dangling = dict(vec![
        ("Subtype", name("Type1")),
        ("BaseFont", name("X")),
        ("Encoding", Object::Reference((4, 0))),
    ]);
    assert!(matches!(make_font(&doc, &dangling, &t, &p), Err(PdfError::Parse(_))));
    let missing_width = dict(vec![
        ("Subtype", name("Type1")),
        ("BaseFont", name("X")),
        ("MissingWidth", name("wide")),
    ]);
    assert!(matches!(make_font(&doc, &missing_width, &t, &p), Err(PdfError::InvalidStructure(_))));
}

#[test]
fn widths_come_from_the_widths_array() {
    let font = simple(
        &dict(vec![
            ("Subtype", name("Type1")),
            ("BaseFont", name("Courier")),
            ("FirstChar", Object::Integer(65)),
            ("LastChar", Object::Integer(67)),
            ("Widths", Object::Array(vec![
                Object::Integer(500),
                Object::Real(722.5f32.to_bits()),
                Object::Integer(333),
            ])),
            ("MissingWidth", Object::Integer(250)),
        ]),
        &FontPrograms::none(),
    );
    assert_eq!(font.get_width(65), Number::Integer(500));
    assert_eq!(font.get_width(66), Number::Real(722.5f32.to_bits()));
    assert_eq!(font.get_width(67), Number::Integer(333));
    assert_eq!(font.get_width(68), Number::Integer(250));
    assert_eq!(font.get_width(64), Number::Integer(250));
    assert_eq!(font.get_width(32), Number::Integer(250));
}

#[test]
fn missing_width_defaults_to_zero() {
    let font = simple(
        &dict(vec![("Subtype", name("Type1")), ("BaseFont", name("Custom"))]),
        &FontPrograms::none(),
    );
    assert_eq!(font.get_width(65), Number::Real(0));
}

#[test]
fn standard_font_widths_go_through_the_encoding() {
    let font = simple(
        &dict(vec![
            ("Subtype", name("Type1")),
            ("BaseFont", name("Courier")),
            ("Encoding", name("WinAnsiEncoding")),
            ("FirstChar", Object::Integer(65)),
        ]),
        &FontPrograms::none(),
    );
    // space is at 32 and 160 in the encoding, the euro at 128, the bullet at
    // 149 and at the unused codes
    assert_eq!(font.get_width(32), Number::Integer(600));
    assert_eq!(font.get_width(160), Number::Integer(600));
    assert_eq!(font.get_width(65), Number::Integer(601));
    assert_eq!(font.get_width(128), Number::Integer(602));
    assert_eq!(font.get_width(149), Number::Integer(603));
    assert_eq!(font.get_width(127), Number::Integer(603));
    assert_eq!(font.get_width(183), Number::Real(0));
    assert_eq!(font.get_width(66), Number::Real(0));
}

#[test]
fn standard_font_widths_without_encoding_use_the_metric_codes() {
    let font = simple(
        &dict(vec![("Subtype", name("Type1")), ("BaseFont", name("Courier"))]),
        &FontPrograms::none(),
    );
    assert_eq!(font.get_width(32), Number::Integer(600));
    assert_eq!(font.get_width(65), Number::Integer(601));
    assert_eq!(font.get_width(183), Number::Integer(603));
    assert_eq!(font.get_width(128), Number::Real(0));
    // a standard font whose metrics the tables lack has no widths
    let other = simple(
        &dict(vec![("Subtype", name("Type1")), ("BaseFont", name("Helvetica"))]),
        &FontPrograms::none(),
    );
    assert_eq!(other.get_width(65), Number::Real(0));
}

#[test]
fn simple_fonts_read_one_byte_at_a_time() {
    let font = simple(
        &dict(vec![("Subtype", name("Type1")), ("BaseFont", name("Custom"))]),
        &FontPrograms::none(),
    );
    assert_eq!(font.next_char(&[0x41, 0x42]), Some((0x41, 1)));
    assert_eq!(font.next_char(&[0xff]), Some((0xff, 1)));
    assert_eq!(font.next_char(&[]), None);
    let bytes: Vec<u8> = (0u16..256).map(|b| b as u8).collect();
    let codes = font.char_codes(&bytes);
    assert_eq!(codes.len(), 256);
    assert!(codes.iter().enumerate().all(|(i, c)| *c == (i as u32, 1)));
    assert_eq!(codes.iter().map(|c| c.1 as usize).sum::<usize>(), bytes.len());
}

#[test]
fn to_unicode_overrides_the_encoding() {
    let font_dict = dict(vec![
        ("Subtype", name("Type1")),
        ("BaseFont", name("Custom")),
        ("Encoding", name("WinAnsiEncoding")),
        ("ToUnicode", stream(b"cmap")),
    ]);
    let doc = empty_document();
    assert_eq!(to_unicode_program(&doc, &font_dict), Some(b"cmap".to_vec()));
    let mut programs = FontPrograms::none();
    programs.to_unicode = Some(vec![
        (0x41, vec![0x03, 0xa9]),
        (0x42, vec![0x00, 0x66, 0x00, 0x69]),
        (0x43, vec![0xd8, 0x3d, 0xde, 0x00]),
    ]);
    let font = simple(&font_dict, &programs);
    assert_eq!(font.decode_char(0x41), "\u{3a9}");
    assert_eq!(font.decode_char(0x42), "fi");
    assert_eq!(font.decode_char(0x43), "\u{1f600}");
    assert_eq!(font.decode_char(0x44), "D");
    assert_eq!(font.decode(b"ABCD"), "\u{3a9}fi\u{1f600}D");
}

#[test]
fn to_unicode_drops_ill_formed_values() {
    let doc = empty_document();
    let font_dict = dict(vec![("ToUnicode", stream(b""))]);
    let pairs = Some(vec![
        (1, vec![0xd8, 0x00]),
        (2, vec![0xdc, 0x00]),
        (3, vec![0xd8, 0x3d, 0x00, 0x41]),
        (4, vec![0x00, 0x41, 0x42]),
        (5, vec![]),
        (6, vec![0x00, 0x41]),
        (6, vec![0x00, 0x42]),
        (7, vec![0x00, 0x43]),
        (7, vec![0xd8, 0x00]),
    ]);
    let map = get_unicode_map(&doc, &font_dict, &pairs).unwrap().unwrap();
    assert_eq!(map.get(&1), None);
    assert_eq!(map.get(&2), None);
    assert_eq!(map.get(&3), None);
    // a last odd byte is left out
    assert_eq!(map.get(&4), Some(&"A".to_string()));
    assert_eq!(map.get(&5), Some(&"".to_string()));
    assert_eq!(map.get(&6), Some(&"B".to_string()));
    assert_eq!(map.get(&7), Some(&"C".to_string()));
    assert_eq!(map.len(), 4);
}

#[test]
fn a_bad_to_unicode_entry_fails_a_simple_font() {
    let doc = empty_document();
    let t = tables();
    let rejected = dict(vec![
        ("Subtype", name("Type1")),
        ("BaseFont", name("Custom")),
        ("ToUnicode", stream(b"cmap")),
    ]);
    assert!(matches!(
        make_font(&doc, &rejected, &t, &FontPrograms::none()),
        Err(PdfError::InvalidStructure(_))
    ));
    let wrong_kind = dict(vec![
        ("Subtype", name("Type1")),
        ("BaseFont", name("Custom")),
        ("ToUnicode", Object::Integer(1)),
    ]);
    assert!(matches!(
        make_font(&doc, &wrong_kind, &t, &omega_programs()),
        Err(PdfError::InvalidStructure(_))
    ));
    // a name is no error and gives no map
    let named = dict(vec![
        ("Subtype", name("Type1")),
        ("BaseFont", name("Custom")),
        ("ToUnicode", name("Identity-H")),
    ]);
    assert_eq!(make_font(&doc, &named, &t, &omega_programs()).unwrap().decode_char(0x41), "A");
}

#[test]
fn to_unicode_entry_kinds() {
    let doc = empty_document();
    let pairs = Some(vec![(1u32, vec![0x00u8, 0x41])]);
    assert!(get_unicode_map(&doc, &dict(vec![]), &pairs).unwrap().is_none());
    assert!(get_unicode_map(&doc, &dict(vec![("ToUnicode", name("Identity-H"))]), &pairs)
        .unwrap()
        .is_none());
    assert!(get_unicode_map(&doc, &dict(vec![("ToUnicode", name("Other"))]), &pairs)
        .unwrap()
        .is_none());
    assert!(matches!(
        get_unicode_map(&doc, &dict(vec![("ToUnicode", Object::Integer(1))]), &pairs),
        Err(PdfError::InvalidStructure(_))
    ));
    assert!(matches!(
        get_unicode_map(&doc, &dict(vec![("ToUnicode", stream(b"x"))]), &None),
        Err(PdfError::InvalidStructure(_))
    ));
    assert!(matches!(
        get_unicode_map(&doc, &dict(vec![("ToUnicode", Object::Name(vec![0xfe, 0xff, 0xd8, 0x00]))]), &pairs),
        Err(PdfError::EncodingError(_))
    ));
    assert_eq!(to_unicode_program(&doc, &dict(vec![("ToUnicode", name("Identity-H"))])), None);
    assert_eq!(to_unicode_program(&doc, &dict(vec![])), None);
}

fn compact_font() -> Dictionary {
    let program = Stream {
        dict: dict(vec![("Subtype", name("Type1C"))]),
        content: vec![1, 0, 4, 1],
        decoded: Some(vec![9, 9]),
    };
    dict(vec![
        ("Subtype", name("Type1")),
        ("BaseFont", name("Custom")),
        ("FontDescriptor", Object::Dictionary(dict(vec![("FontFile3", Object::Stream(program))]))),
        ("ToUnicode", stream(b"cmap")),
    ])
}

#[test]
fn compact_font_programs_name_their_glyphs() {
    let doc = empty_document();
    let font_dict = compact_font();
    assert_eq!(compact_font_program(&doc, &font_dict), Some(vec![9, 9]));
    let mut programs = FontPrograms::none();
    programs.cff = Some(vec![
        (1, Some("Ohm".to_string())),
        (2, Some("a1".to_string())),
        (3, Some("nosuchglyph".to_string())),
        (4, None),
        (5, Some("A".to_string())),
    ]);
    programs.to_unicode = Some(vec![(5, vec![0x00, 0x5a]), (6, vec![0x00, 0x59])]);
    let font = simple(&font_dict, &programs);
    assert_eq!(font.decode_char(1), "\u{2126}");
    assert_eq!(font.decode_char(2), "\u{2701}");
    // ToUnicode entries go over those of the program
    assert_eq!(font.decode_char(5), "Z");
    assert_eq!(font.decode_char(6), "Y");
    // codes without an entry fall back on PDFDocEncoding
    assert_eq!(font.decode_char(0x41), "A");
}

#[test]
fn a_rejected_font_program_leaves_the_to_unicode_map() {
    let font_dict = compact_font();
    let mut programs = FontPrograms::none();
    programs.to_unicode = Some(vec![(5, vec![0x00, 0x5a])]);
    let font = simple(&font_dict, &programs);
    assert_eq!(font.decode_char(5), "Z");
    // a rejected ToUnicode stream fails the font, with or without a program
    assert!(matches!(
        make_font(&empty_document(), &font_dict, &tables(), &FontPrograms::none()),
        Err(PdfError::InvalidStructure(_))
    ));
    let mut strict = FontPrograms::none();
    strict.cff = Some(vec![]);
    assert!(matches!(
        make_font(&empty_document(), &font_dict, &tables(), &strict),
        Err(PdfError::InvalidStructure(_))
    ));
}

fn type3_font(last: i64, widths: Object) -> Dictionary {
    dict(vec![
        ("Subtype", name("Type3")),
        ("Encoding", name("WinAnsiEncoding")),
        ("FirstChar", Object::Integer(65)),
        ("LastChar", Object::Integer(last)),
        ("Widths", widths),
    ])
}

#[test]
fn type3_fonts_have_no_fallback_width() {
    let font = simple(&type3_font(66, ints(&[10, 20])), &FontPrograms::none());
    assert!(matches!(font, PdfFont::Type3(_)));
    assert_eq!(font.get_width(65), Number::Integer(10));
    assert_eq!(font.get_width(66), Number::Integer(20));
    assert_eq!(font.get_width(67), Number::Real(0));
    assert_eq!(font.decode_char(65), "A");
    assert_eq!(font.next_char(&[7, 8]), Some((7, 1)));
    assert_eq!(font.decode(&[0x41, 0x1f, 0x80]), "A\u{20ac}");
}

#[test]
fn type3_fonts_check_their_widths() {
    let doc = empty_document();
    let t = tables();
    let p = FontPrograms::none();
    assert!(matches!(
        PdfType3Font::new(&doc, &type3_font(67, ints(&[10, 20])), &t, &p),
        Err(PdfError::InvalidStructure(_))
    ));
    assert!(matches!(
        PdfType3Font::new(&doc, &type3_font(65, ints(&[10, 20])), &t, &p),
        Err(PdfError::InvalidStructure(_))
    ));
    let no_encoding = dict(vec![
        ("Subtype", name("Type3")),
        ("FirstChar", Object::Integer(65)),
        ("LastChar", Object::Integer(65)),
        ("Widths", ints(&[10])),
    ]);
    assert!(matches!(make_font(&doc, &no_encoding, &t, &p), Err(PdfError::InvalidStructure(_))));
    let no_widths = dict(vec![
        ("Subtype", name("Type3")),
        ("Encoding", name("WinAnsiEncoding")),
        ("FirstChar", Object::Integer(65)),
        ("LastChar", Object::Integer(65)),
    ]);
    assert!(is_missing(&make_font(&doc, &no_widths, &t, &p).err().unwrap(), "Widths"));
    let no_first = dict(vec![("Subtype", name("Type3")), ("Encoding", name("WinAnsiEncoding"))]);
    assert!(is_missing(&make_font(&doc, &no_first, &t, &p).err().unwrap(), "FirstChar"));
}

fn cid_font(encoding: Object, descendant: Dictionary) -> Dictionary {
    dict(vec![
        ("Subtype", name("Type0")),
        ("BaseFont", name("Composite")),
        ("Encoding", encoding),
        ("DescendantFonts", Object::Array(vec![Object::Dictionary(descendant)])),
        ("ToUnicode", stream(b"cmap")),
    ])
}

fn omega_programs() -> FontPrograms {
    let mut p = FontPrograms::none();
    p.to_unicode = Some(vec![(0x41, vec![0x03, 0xa9])]);
    p
}

#[test]
fn identity_names_stand_for_the_two_byte_identity_mapping() {
    let canonical = CIDFontEncoding::identity();
    assert_eq!(canonical.codespace, vec![CodeRange { width: 2, start: 0, end: 0xffff }]);
    assert_eq!(canonical.cid, vec![CIDRange { src_code_lo: 0, src_code_hi: 0xffff, dst_cid_lo: 0 }]);
    for n in ["Identity-H", "Identity-V"] {
        let font = simple(&cid_font(name(n), Dictionary::new()), &omega_programs());
        assert!(matches!(font, PdfFont::Cid(_)));
        for bytes in [&[0x00u8, 0x41][..], &[0xff, 0xff, 0x01], &[0x12], &[], &[0x00, 0x00]] {
            assert_eq!(font.next_char(bytes), canonical.next_char(bytes), "{:?}", bytes);
        }
    }
    assert_eq!(canonical.next_char(&[0x12, 0x34, 0x56]), Some((0x1234, 2)));
    assert_eq!(canonical.next_char(&[0x12]), None);
}

#[test]
fn composite_fonts_decode_two_bytes_at_a_time() {
    let font = simple(&cid_font(name("Identity-H"), Dictionary::new()), &omega_programs());
    let bytes = [0x00, 0x41, 0x00, 0x41];
    assert_eq!(font.next_char(&bytes), Some((0x41, 2)));
    assert_eq!(font.char_codes(&bytes), vec![(0x41, 2), (0x41, 2)]);
    assert_eq!(font.decode(&bytes), "\u{3a9}\u{3a9}");
    assert_eq!(font.decode_char(0x42), "");
    // a trailing odd byte is not read
    assert_eq!(font.char_codes(&[0x00, 0x41, 0x00]), vec![(0x41, 2)]);
    assert_eq!(font.decode(&[0x00, 0x41, 0x00]), "\u{3a9}");
}

#[test]
fn font_cursor_reads_to_the_end() {
    let font = simple(&cid_font(name("Identity-H"), Dictionary::new()), &omega_programs());
    let bytes = [0x00, 0x41, 0x01, 0x02, 0x03];
    let mut it = PdfFontIter::new(&font, &bytes);
    assert_eq!(it.next(), Some((0x41, 2)));
    assert_eq!(it.next(), Some((0x102, 2)));
    assert_eq!(it.next(), None);
    assert_eq!(it.next(), None);
}

fn mixed_encoding() -> CIDFontEncoding {
    CIDFontEncoding::new(
        vec![
            CodeRange { width: 1, start: 0x00, end: 0x7f },
            CodeRange { width: 2, start: 0x8000, end: 0x9fff },
            CodeRange { width: 3, start: 0xa00000, end: 0xa0ffff },
            CodeRange { width: 4, start: 0xf0000000, end: 0xf000ffff },
        ],
        vec![
            CIDRange { src_code_lo: 0x20, src_code_hi: 0x7e, dst_cid_lo: 1 },
            CIDRange { src_code_lo: 0x8000, src_code_hi: 0x80ff, dst_cid_lo: 1000 },
            CIDRange { src_code_lo: 0xa00000, src_code_hi: 0xa0ffff, dst_cid_lo: 5000 },
            CIDRange { src_code_lo: 0xf0000000, src_code_hi: 0xf000ffff, dst_cid_lo: 0xffffff00 },
        ],
    )
}

#[test]
fn codespace_ranges_decide_the_width_of_a_code() {
    let enc = mixed_encoding();
    assert_eq!(enc.next_char(&[0x41, 0x42]), Some((0x41 - 0x20 + 1, 1)));
    assert_eq!(enc.next_char(&[0x80, 0x05, 0x41]), Some((1005, 2)));
    assert_eq!(enc.next_char(&[0xa0, 0x00, 0x07]), Some((5007, 3)));
    assert_eq!(enc.next_char(&[0xf0, 0x00, 0x00, 0x01]), Some((0xffffff01, 4)));
    // the identifier wraps at 32 bits
    assert_eq!(enc.next_char(&[0xf0, 0x00, 0x01, 0x00]), Some((0, 4)));
    // in the codespace but mapped by no range
    assert_eq!(enc.next_char(&[0x10]), None);
    assert_eq!(enc.next_char(&[0x90, 0x00]), None);
    // outside the codespace
    assert_eq!(enc.next_char(&[0xc0, 0x00, 0x00, 0x00, 0x00]), None);
    // too short
    assert_eq!(enc.next_char(&[0x80]), None);
    assert_eq!(enc.next_char(&[0xa0, 0x00]), None);
    assert_eq!(enc.next_char(&[]), None);
    assert!(enc.in_codespace(0x10, 1));
    assert!(!enc.in_codespace(0x10, 2));
    assert_eq!(enc.map_cid(0x10), None);
    assert_eq!(enc.map_cid(0x8001), Some(1001));
}

#[test]
fn reads_take_a_well_formed_string_whole() {
    let mut programs = omega_programs();
    programs.encoding = Some(mixed_encoding());
    let font = simple(&cid_font(stream(b"cmap"), Dictionary::new()), &programs);
    let well_formed = [0x41, 0x80, 0x05, 0xa0, 0x00, 0x07, 0xf0, 0x00, 0x00, 0x01, 0x42];
    let codes = font.char_codes(&well_formed);
    assert_eq!(codes, vec![(34, 1), (1005, 2), (5007, 3), (0xffffff01, 4), (35, 1)]);
    assert_eq!(codes.iter().map(|c| c.1 as usize).sum::<usize>(), well_formed.len());
    assert!(codes.iter().all(|c| (1..=4).contains(&c.1)));
    let ill_formed = [0x41, 0x80, 0x05, 0x10, 0x42];
    let codes = font.char_codes(&ill_formed);
    assert_eq!(codes, vec![(34, 1), (1005, 2)]);
    assert!(codes.iter().map(|c| c.1 as usize).sum::<usize>() < ill_formed.len());
}

#[test]
fn composite_font_encodings_are_checked() {
    let doc = empty_document();
    let t = tables();
    let p = FontPrograms::none();
    let font_dict = cid_font(stream(b"cmap"), Dictionary::new());
    assert_eq!(cid_encoding_program(&doc, &font_dict), Some(b"cmap".to_vec()));
    // the parser rejected the stream
    assert!(matches!(make_font(&doc, &font_dict, &t, &p), Err(PdfError::InvalidStructure(_))));
    let other = cid_font(name("UniJIS-UTF16-H"), Dictionary::new());
    assert_eq!(cid_encoding_program(&doc, &other), None);
    assert!(matches!(make_font(&doc, &other, &t, &omega_programs()), Err(PdfError::InvalidStructure(_))));
    let odd = cid_font(Object::Integer(1), Dictionary::new());
    assert!(matches!(make_font(&doc, &odd, &t, &omega_programs()), Err(PdfError::InvalidStructure(_))));
    let none = dict(vec![
        ("Subtype", name("Type0")),
        ("BaseFont", name("Composite")),
        ("DescendantFonts", Object::Array(vec![Object::Dictionary(Dictionary::new())])),
    ]);
    assert!(is_missing(&make_font(&doc, &none, &t, &p).err().unwrap(), "Encoding"));
}

#[test]
fn composite_fonts_need_a_descendant() {
    let doc = empty_document();
    let p = omega_programs();
    let none = dict(vec![
        ("Subtype", name("Type0")),
        ("BaseFont", name("Composite")),
        ("Encoding", name("Identity-H")),
    ]);
    assert!(is_missing(&PdfCIDFont::new(&doc, &none, &p).err().unwrap(), "DescendantFonts"));
    let empty = dict(vec![
        ("Subtype", name("Type0")),
        ("BaseFont", name("Composite")),
        ("Encoding", name("Identity-H")),
        ("DescendantFonts", Object::Array(vec![])),
    ]);
    assert!(matches!(PdfCIDFont::new(&doc, &empty, &p), Err(PdfError::InvalidStructure(_))));
    let wrong = dict(vec![
        ("Subtype", name("Type0")),
        ("BaseFont", name("Composite")),
        ("Encoding", name("Identity-H")),
        ("DescendantFonts", Object::Array(vec![Object::Integer(1)])),
    ]);
    assert!(matches!(PdfCIDFont::new(&doc, &wrong, &p), Err(PdfError::InvalidStructure(_))));
    let nameless = dict(vec![("Subtype", name("Type0")), ("Encoding", name("Identity-H"))]);
    assert!(is_missing(&PdfCIDFont::new(&doc, &nameless, &p).err().unwrap(), "BaseFont"));
}

fn widths_of(w: Object, dw: Option<Object>) -> PdfFont {
    let mut entries = vec![("W", w)];
    if let Some(d) = dw {
        entries.push(("DW", d));
    }
    simple(&cid_font(name("Identity-H"), dict(entries)), &omega_programs())
}

#[test]
fn w_arrays_hold_lists_and_ranges() {
    let font = widths_of(
        Object::Array(vec![
            Object::Integer(10),
            ints(&[500, 600, 700]),
            Object::Integer(20),
            Object::Integer(22),
            Object::Real(250.5f32.to_bits()),
            Object::Integer(12),
            ints(&[701]),
        ]),
        Some(Object::Integer(900)),
    );
    assert_eq!(font.get_width(10), Number::Integer(500));
    assert_eq!(font.get_width(11), Number::Integer(600));
    assert_eq!(font.get_width(12), Number::Integer(701));
    assert_eq!(font.get_width(13), Number::Integer(900));
    assert_eq!(font.get_width(19), Number::Integer(900));
    assert_eq!(font.get_width(20), Number::Real(250.5f32.to_bits()));
    assert_eq!(font.get_width(21), Number::Real(250.5f32.to_bits()));
    assert_eq!(font.get_width(22), Number::Real(250.5f32.to_bits()));
    assert_eq!(font.get_width(23), Number::Integer(900));
}

#[test]
fn default_width_is_one_thousand() {
    let font = widths_of(Object::Array(vec![]), None);
    assert_eq!(font.get_width(0), Number::Integer(1000));
    let plain = simple(&cid_font(name("Identity-H"), Dictionary::new()), &omega_programs());
    assert_eq!(plain.get_width(77), Number::Integer(1000));
}

#[test]
fn malformed_tails_of_w_are_left_unread() {
    let font = widths_of(
        Object::Array(vec![
            Object::Integer(1),
            ints(&[100]),
            Object::Integer(5),
            Object::Integer(6),
        ]),
        None,
    );
    assert_eq!(font.get_width(1), Number::Integer(100));
    assert_eq!(font.get_width(5), Number::Integer(1000));
    let single = widths_of(Object::Array(vec![Object::Integer(1)]), None);
    assert_eq!(single.get_width(1), Number::Integer(1000));
    let empty_range = widths_of(
        Object::Array(vec![Object::Integer(9), Object::Integer(3), Object::Integer(50)]),
        None,
    );
    assert_eq!(empty_range.get_width(9), Number::Integer(1000));
    assert_eq!(empty_range.get_width(3), Number::Integer(1000));
}

#[test]
fn w_arrays_refuse_what_is_no_number() {
    let doc = empty_document();
    let t = tables();
    let p = omega_programs();
    let cases = vec![
        Object::Array(vec![name("x"), ints(&[1])]),
        Object::Array(vec![Object::Integer(1), Object::Array(vec![name("x")])]),
        Object::Array(vec![Object::Integer(1), name("x"), Object::Integer(3)]),
        Object::Array(vec![Object::Integer(1), Object::Integer(2), name("x")]),
        Object::Array(vec![Object::Real(0), Object::Integer(2), Object::Integer(3)]),
        Object::Integer(5),
    ];
    for w in cases {
        let font_dict = cid_font(name("Identity-H"), dict(vec![("W", w)]));
        assert!(matches!(make_font(&doc, &font_dict, &t, &p), Err(PdfError::InvalidStructure(_))));
    }
    let real_dw = cid_font(name("Identity-H"), dict(vec![("DW", Object::Real(0))]));
    assert!(matches!(make_font(&doc, &real_dw, &t, &p), Err(PdfError::InvalidStructure(_))));
    let dangling = cid_font(
        name("Identity-H"),
        dict(vec![("W", Object::Array(vec![Object::Reference((3, 0)), ints(&[1])]))]),
    );
    assert!(matches!(make_font(&doc, &dangling, &t, &p), Err(PdfError::Parse(_))));
}

#[test]
fn fonts_are_chosen_by_subtype() {
    let p = omega_programs();
    assert!(matches!(simple(&cid_font(name("Identity-H"), Dictionary::new()), &p), PdfFont::Cid(_)));
    assert!(matches!(simple(&type3_font(65, ints(&[1])), &FontPrograms::none()), PdfFont::Type3(_)));
    for subtype in ["Type1", "TrueType", "MMType1", "Anything"] {
        let d = dict(vec![("Subtype", name(subtype)), ("BaseFont", name("X"))]);
        assert!(matches!(simple(&d, &FontPrograms::none()), PdfFont::Simple(_)));
    }
}
