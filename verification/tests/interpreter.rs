use pdf_extract::cmap::CIDFontEncoding;
use pdf_extract::content::{classify, Matrix, Operation, Operator};
use pdf_extract::error::PdfError;
use pdf_extract::gstate::apply_state;
use pdf_extract::object::{Dictionary, Document, Number, Object, Stream, StringFormat};
use pdf_extract::path::{Path, PathOp};
use pdf_extract::processor::{
    enter_form, font_dictionary, Action, Processor, TextItem, MAX_FORM_DEPTH,
};
use pdf_extract::tables::{FontPrograms, FontTables};
use pdf_extract::text::glyphs;
use pdf_extract::font::make_font;

fn dict(entries: Vec<(&str, Object)>) -> Dictionary {
    Dictionary { entries: entries.into_iter().map(|(k, v)| (k.as_bytes().to_vec(), v)).collect() }
}

fn name(s: &str) -> Object {
    Object::Name(s.as_bytes().to_vec())
}

fn integer(i: i64) -> Object {
    Object::Integer(i)
}

fn num(i: i64) -> Number {
    Number::Integer(i)
}

fn text(s: &[u8]) -> Object {
    Object::Str(s.to_vec(), StringFormat::Literal)
}

fn op(operator: &str, operands: Vec<Object>) -> Operation {
    Operation { operator: operator.to_string(), operands }
}

fn empty_document() -> Document {
    Document {
        version: "1.4".to_string(),
        trailer: Dictionary::new(),
        objects: Vec::new(),
        pages: Vec::new(),
        encrypted: false,
    }
}

fn simple_font_dict() -> Dictionary {
    dict(vec![
        ("Subtype", name("Type1")),
        ("BaseFont", name("Custom")),
        ("Encoding", name("WinAnsiEncoding")),
        ("FirstChar", integer(65)),
        ("LastChar", integer(66)),
        ("Widths", Object::Array(vec![integer(500), integer(600)])),
        ("MissingWidth", integer(250)),
    ])
}

fn resources() -> Dictionary {
    let form = Stream {
        dict: dict(vec![("Resources", Object::Dictionary(dict(vec![("Inner", Object::Null)])))]),
        content: b"raw".to_vec(),
        decoded: Some(b"q Q".to_vec()),
    };
    let bare = Stream { dict: Dictionary::new(), content: b"BT ET".to_vec(), decoded: None };
    dict(vec![
        (
            "Font",
            Object::Dictionary(dict(vec![
                ("F1", Object::Dictionary(simple_font_dict())),
                (
                    "F2",
                    Object::Dictionary(dict(vec![
                        ("Subtype", name("Type0")),
                        ("BaseFont", name("Composite")),
                        ("Encoding", name("Identity-H")),
                        ("DescendantFonts", Object::Array(vec![Object::Dictionary(Dictionary::new())])),
                    ])),
                ),
                ("Broken", Object::Dictionary(Dictionary::new())),
            ])),
        ),
        (
            "ExtGState",
            Object::Dictionary(dict(vec![
                (
                    "Masked",
                    Object::Dictionary(dict(vec![
                        ("Type", name("ExtGState")),
                        ("SMask", Object::Dictionary(dict(vec![("S", name("Alpha"))]))),
                        ("LW", integer(2)),
                    ])),
                ),
                ("Clear", Object::Dictionary(dict(vec![("SMask", name("None"))]))),
                ("BadName", Object::Dictionary(dict(vec![("SMask", name("Some"))]))),
                ("BadKind", Object::Dictionary(dict(vec![("SMask", integer(1))]))),
                ("BadType", Object::Dictionary(dict(vec![("Type", name("Font"))]))),
            ])),
        ),
        (
            "XObject",
            Object::Dictionary(dict(vec![
                ("Fm1", Object::Stream(form)),
                ("Fm2", Object::Stream(bare)),
                ("Im1", integer(3)),
            ])),
        ),
        (
            "ColorSpace",
            Object::Dictionary(dict(vec![("P", Object::Array(vec![name("Pattern")]))])),
        ),
    ])
}

fn load(p: &mut Processor, doc: &Document, res: &Dictionary, font: &[u8]) {
    p.load_font(doc, res, font, &FontTables::new(), &FontPrograms::none()).unwrap();
}

#[test]
fn operators_are_told_apart() {
    let known = [
        ("BT", Operator::BeginText),
        ("ET", Operator::EndText),
        ("cm", Operator::Concat),
        ("CS", Operator::StrokeColorSpace),
        ("cs", Operator::FillColorSpace),
        ("SC", Operator::StrokeColor),
        ("SCN", Operator::StrokeColor),
        ("sc", Operator::FillColor),
        ("scn", Operator::FillColor),
        ("TJ", Operator::ShowTextArray),
        ("Tj", Operator::ShowText),
        ("Tc", Operator::CharSpacing),
        ("Tw", Operator::WordSpacing),
        ("Tz", Operator::HorizontalScaling),
        ("TL", Operator::Leading),
        ("Tf", Operator::Font),
        ("Ts", Operator::Rise),
        ("Tm", Operator::TextMatrix),
        ("Td", Operator::MoveText),
        ("TD", Operator::MoveTextSetLeading),
        ("T*", Operator::NextLine),
        ("q", Operator::Save),
        ("Q", Operator::Restore),
        ("gs", Operator::ExtGState),
        ("m", Operator::MoveTo),
        ("l", Operator::LineTo),
        ("c", Operator::CurveTo),
        ("v", Operator::CurveToFromCurrent),
        ("y", Operator::CurveToEndControl),
        ("h", Operator::ClosePath),
        ("re", Operator::Rectangle),
        ("S", Operator::Stroke),
        ("F", Operator::Fill),
        ("f", Operator::Fill),
        ("n", Operator::EndPath),
        ("BMC", Operator::BeginMarkedContent),
        ("BDC", Operator::BeginMarkedContent),
        ("EMC", Operator::EndMarkedContent),
        ("Do", Operator::XObject),
        ("w", Operator::LineWidth),
    ];
    for (text, operator) in known {
        assert_eq!(classify(text), operator, "{}", text);
    }
    for text in ["G", "g", "RG", "rg", "K", "k", "i", "J", "j", "M", "d", "ri", "s", "f*", "B", "B*", "b", "W", "W*", "", "tj", "Tjj"] {
        assert_eq!(classify(text), Operator::Other, "{}", text);
    }
}

#[test]
fn a_new_interpreter_is_empty() {
    let p = Processor::new();
    assert_eq!(p.depth(), 0);
    assert!(p.path().ops.is_empty());
    let gs = p.graphics_state();
    assert_eq!(gs.font, None);
    assert!(gs.smask.is_none());
    assert_eq!((gs.fill_colorspace, gs.stroke_colorspace), (0, 0));
    assert!(gs.fill_color.is_empty() && gs.stroke_color.is_empty());
    assert!(matches!(p.colorspace(0), Some(pdf_extract::colorspace::ColorSpace::DeviceGray)));
    assert!(p.colorspace(1).is_none());
    assert!(p.font(0).is_none());
}

#[test]
fn text_objects_reset_the_text_matrices() {
    let doc = empty_document();
    let res = Dictionary::new();
    let mut p = Processor::new();
    assert!(matches!(p.step(&doc, &res, &op("BT", vec![])), Ok(Action::ResetText)));
    assert!(matches!(p.step(&doc, &res, &op("ET", vec![])), Ok(Action::ResetText)));
}

#[test]
fn matrices_carry_their_six_operands() {
    let doc = empty_document();
    let res = Dictionary::new();
    let mut p = Processor::new();
    let six = || vec![integer(2), integer(0), integer(0), integer(2), Object::Real(1.5f32.to_bits()), integer(-7)];
    let expected = Matrix {
        a: num(2),
        b: num(0),
        c: num(0),
        d: num(2),
        e: Number::Real(1.5f32.to_bits()),
        f: num(-7),
    };
    match p.step(&doc, &res, &op("cm", six())).unwrap() {
        Action::Concat(m) => assert_eq!(m, expected),
        other => panic!("{:?}", other),
    }
    match p.step(&doc, &res, &op("Tm", six())).unwrap() {
        Action::SetTextMatrix(m) => assert_eq!(m, expected),
        other => panic!("{:?}", other),
    }
}

#[test]
fn wrong_operand_counts_are_invalid() {
    let doc = empty_document();
    let res = Dictionary::new();
    let mut p = Processor::new();
    let five = || vec![integer(1), integer(0), integer(0), integer(1), integer(0)];
    let seven = || vec![integer(1), integer(0), integer(0), integer(1), integer(0), integer(0), integer(0)];
    for operator in ["cm", "Tm"] {
        assert!(matches!(p.step(&doc, &res, &op(operator, five())), Err(PdfError::InvalidStructure(_))));
        assert!(matches!(p.step(&doc, &res, &op(operator, seven())), Err(PdfError::InvalidStructure(_))));
        assert!(matches!(p.step(&doc, &res, &op(operator, vec![])), Err(PdfError::InvalidStructure(_))));
    }
    for operator in ["Td", "TD"] {
        assert!(matches!(p.step(&doc, &res, &op(operator, vec![integer(1)])), Err(PdfError::InvalidStructure(_))));
        assert!(matches!(
            p.step(&doc, &res, &op(operator, vec![integer(1), integer(2), integer(3)])),
            Err(PdfError::InvalidStructure(_))
        ));
    }
    let not_numbers = vec![integer(1), integer(0), name("x"), integer(1), integer(0), integer(0)];
    assert!(matches!(p.step(&doc, &res, &op("cm", not_numbers)), Err(PdfError::InvalidStructure(_))));
    for operator in ["Tc", "Tw", "Tz", "TL", "Ts", "w", "m", "l", "c", "y", "re", "Tj", "TJ", "CS", "cs"] {
        assert!(
            matches!(p.step(&doc, &res, &op(operator, vec![])), Err(PdfError::InvalidStructure(_))),
            "{}",
            operator
        );
    }
}

#[test]
fn text_positioning_hands_on_its_operands() {
    let doc = empty_document();
    let res = Dictionary::new();
    let mut p = Processor::new();
    assert!(matches!(
        p.step(&doc, &res, &op("Td", vec![integer(3), integer(-4)])),
        Ok(Action::MoveText(Number::Integer(3), Number::Integer(-4)))
    ));
    assert!(matches!(
        p.step(&doc, &res, &op("TD", vec![integer(0), integer(-12)])),
        Ok(Action::MoveTextSetLeading(Number::Integer(0), Number::Integer(-12)))
    ));
    assert!(matches!(p.step(&doc, &res, &op("T*", vec![])), Ok(Action::NextLine)));
    assert!(matches!(p.step(&doc, &res, &op("Tc", vec![integer(1)])), Ok(Action::CharSpacing(Number::Integer(1)))));
    assert!(matches!(p.step(&doc, &res, &op("Tw", vec![integer(2)])), Ok(Action::WordSpacing(Number::Integer(2)))));
    assert!(matches!(
        p.step(&doc, &res, &op("Tz", vec![integer(50)])),
        Ok(Action::HorizontalScaling(Number::Integer(50)))
    ));
    assert!(matches!(p.step(&doc, &res, &op("TL", vec![integer(14)])), Ok(Action::Leading(Number::Integer(14)))));
    assert!(matches!(p.step(&doc, &res, &op("Ts", vec![integer(3)])), Ok(Action::Rise(Number::Integer(3)))));
    assert!(matches!(p.step(&doc, &res, &op("w", vec![integer(4)])), Ok(Action::LineWidth(Number::Integer(4)))));
}

#[test]
fn ignored_operators_do_nothing() {
    let doc = empty_document();
    let res = Dictionary::new();
    let mut p = Processor::new();
    for operator in ["G", "g", "RG", "rg", "K", "k", "i", "J", "j", "M", "d", "ri", "s", "f*", "B", "B*", "b", "W", "W*", "xyz"] {
        assert!(matches!(p.step(&doc, &res, &op(operator, vec![integer(1)])), Ok(Action::Nothing)), "{}", operator);
    }
    assert_eq!(p.depth(), 0);
    assert!(p.path().ops.is_empty());
}

#[test]
fn save_and_restore_bring_the_state_back() {
    let doc = empty_document();
    let res = resources();
    let mut p = Processor::new();
    load(&mut p, &doc, &res, b"F1");
    load(&mut p, &doc, &res, b"F2");
    p.step(&doc, &res, &op("Tf", vec![name("F1"), integer(12)])).unwrap();
    p.step(&doc, &res, &op("sc", vec![integer(1), integer(2)])).unwrap();
    assert!(matches!(p.step(&doc, &res, &op("q", vec![])), Ok(Action::Save)));
    assert_eq!(p.depth(), 1);
    let two = vec![integer(2), integer(0), integer(0), integer(2), integer(0), integer(0)];
    assert!(matches!(p.step(&doc, &res, &op("cm", two)), Ok(Action::Concat(_))));
    p.step(&doc, &res, &op("Tf", vec![name("F2"), integer(9)])).unwrap();
    p.step(&doc, &res, &op("sc", vec![integer(5)])).unwrap();
    p.step(&doc, &res, &op("cs", vec![name("DeviceRGB")])).unwrap();
    p.step(&doc, &res, &op("gs", vec![name("Masked")])).unwrap();
    assert!(matches!(p.step(&doc, &res, &op("q", vec![])), Ok(Action::Save)));
    p.step(&doc, &res, &op("SC", vec![integer(7)])).unwrap();
    assert!(matches!(p.step(&doc, &res, &op("Q", vec![])), Ok(Action::Restore)));
    {
        let inner = p.graphics_state();
        assert_eq!(inner.font, Some(1));
        assert_eq!(inner.fill_color, vec![num(5)]);
        assert!(inner.stroke_color.is_empty());
        assert_eq!(inner.fill_colorspace, 1);
        assert!(inner.smask.is_some());
    }
    assert!(matches!(p.step(&doc, &res, &op("Q", vec![])), Ok(Action::Restore)));
    let gs = p.graphics_state();
    assert_eq!(gs.font, Some(0));
    assert_eq!(gs.fill_color, vec![num(1), num(2)]);
    assert!(gs.stroke_color.is_empty());
    assert_eq!(gs.fill_colorspace, 0);
    assert_eq!(gs.stroke_colorspace, 0);
    assert!(gs.smask.is_none());
    assert_eq!(p.depth(), 0);
}

#[test]
fn restore_without_save_is_passed_over() {
    let doc = empty_document();
    let res = Dictionary::new();
    let mut p = Processor::new();
    p.step(&doc, &res, &op("sc", vec![integer(1)])).unwrap();
    assert!(matches!(p.step(&doc, &res, &op("Q", vec![])), Ok(Action::Nothing)));
    assert_eq!(p.graphics_state().fill_color, vec![num(1)]);
    assert_eq!(p.depth(), 0);
}

#[test]
fn painting_empties_the_path() {
    let doc = empty_document();
    let res = Dictionary::new();
    for operator in ["S", "f", "F", "n"] {
        let mut p = Processor::new();
        p.step(&doc, &res, &op("SC", vec![integer(1)])).unwrap();
        p.step(&doc, &res, &op("sc", vec![integer(2)])).unwrap();
        p.step(&doc, &res, &op("m", vec![integer(0), integer(0)])).unwrap();
        p.step(&doc, &res, &op("l", vec![integer(10), integer(0)])).unwrap();
        p.step(&doc, &res, &op("h", vec![])).unwrap();
        assert_eq!(p.path().ops.len(), 3);
        let expected = vec![PathOp::MoveTo(num(0), num(0)), PathOp::LineTo(num(10), num(0)), PathOp::Close];
        match p.step(&doc, &res, &op(operator, vec![])).unwrap() {
            Action::Stroke { colorspace, color, path } => {
                assert_eq!(operator, "S");
                assert_eq!((colorspace, color), (0, vec![num(1)]));
                assert_eq!(path.ops, expected);
            }
            Action::Fill { colorspace, color, path } => {
                assert!(operator == "f" || operator == "F");
                assert_eq!((colorspace, color), (0, vec![num(2)]));
                assert_eq!(path.ops, expected);
            }
            Action::Nothing => assert_eq!(operator, "n"),
            other => panic!("{:?}", other),
        }
        assert!(p.path().ops.is_empty(), "{}", operator);
        // painting an empty path leaves it empty
        p.step(&doc, &res, &op(operator, vec![])).unwrap();
        assert!(p.path().ops.is_empty());
    }
}

#[test]
fn path_operators_append_segments() {
    let doc = empty_document();
    let res = Dictionary::new();
    let mut p = Processor::new();
    p.step(&doc, &res, &op("m", vec![integer(1), integer(2), integer(99)])).unwrap();
    p.step(&doc, &res, &op("l", vec![integer(3), integer(4)])).unwrap();
    p.step(&doc, &res, &op("c", vec![integer(1), integer(2), integer(3), integer(4), integer(5), integer(6)])).unwrap();
    p.step(&doc, &res, &op("v", vec![integer(7), integer(8), integer(9), integer(10)])).unwrap();
    p.step(&doc, &res, &op("y", vec![integer(11), integer(12), integer(13), integer(14)])).unwrap();
    p.step(&doc, &res, &op("re", vec![integer(0), integer(1), integer(20), integer(30)])).unwrap();
    p.step(&doc, &res, &op("h", vec![])).unwrap();
    assert_eq!(
        p.path().ops,
        vec![
            PathOp::MoveTo(num(1), num(2)),
            PathOp::LineTo(num(3), num(4)),
            PathOp::CurveTo(num(1), num(2), num(3), num(4), num(5), num(6)),
            PathOp::CurveTo(num(5), num(6), num(7), num(8), num(9), num(10)),
            PathOp::CurveTo(num(11), num(12), num(13), num(14), num(13), num(14)),
            PathOp::Rect(num(0), num(1), num(20), num(30)),
            PathOp::Close,
        ]
    );
}

#[test]
fn current_point_is_the_end_of_the_last_open_segment() {
    let mut path = Path::new();
    assert_eq!(path.current_point(), None);
    path.ops.push(PathOp::Close);
    assert_eq!(path.current_point(), None);
    path.ops.push(PathOp::MoveTo(num(1), num(2)));
    assert_eq!(path.current_point(), Some((num(1), num(2))));
    path.ops.push(PathOp::Close);
    path.ops.push(PathOp::Close);
    assert_eq!(path.current_point(), Some((num(1), num(2))));
    path.ops.push(PathOp::CurveTo(num(0), num(0), num(0), num(0), num(8), num(9)));
    assert_eq!(path.current_point(), Some((num(8), num(9))));
    path.ops.push(PathOp::LineTo(num(5), num(6)));
    assert_eq!(path.current_point(), Some((num(5), num(6))));
    path.ops.push(PathOp::Rect(num(0), num(0), num(1), num(1)));
    assert_eq!(path.current_point(), None);
    assert_eq!(path.clone().ops, path.ops);
}

#[test]
fn a_curve_from_nowhere_is_invalid() {
    let doc = empty_document();
    let res = Dictionary::new();
    let mut p = Processor::new();
    let v = op("v", vec![integer(7), integer(8), integer(9), integer(10)]);
    assert!(matches!(p.step(&doc, &res, &v), Err(PdfError::InvalidStructure(_))));
    p.step(&doc, &res, &op("re", vec![integer(0), integer(1), integer(20), integer(30)])).unwrap();
    assert!(matches!(p.step(&doc, &res, &v), Err(PdfError::InvalidStructure(_))));
    assert_eq!(p.path().ops.len(), 1);
    p.step(&doc, &res, &op("m", vec![integer(1), integer(2)])).unwrap();
    assert!(matches!(p.step(&doc, &res, &op("v", vec![integer(7)])), Err(PdfError::InvalidStructure(_))));
    assert!(matches!(p.step(&doc, &res, &v), Ok(Action::Nothing)));
    assert_eq!(p.path().ops.len(), 3);
}

#[test]
fn fonts_are_loaded_on_demand() {
    let doc = empty_document();
    let res = resources();
    let mut p = Processor::new();
    let tf = op("Tf", vec![name("F1"), integer(12)]);
    assert!(matches!(p.step(&doc, &res, &tf), Ok(Action::LoadFont)));
    assert_eq!(p.graphics_state().font, None);
    assert_eq!(p.find_font(b"F1"), None);
    assert!(font_dictionary(&doc, &res, b"F1").unwrap().get(b"BaseFont").is_some());
    load(&mut p, &doc, &res, b"F1");
    assert_eq!(p.find_font(b"F1"), Some(0));
    assert!(matches!(p.step(&doc, &res, &tf), Ok(Action::FontSize(Number::Integer(12)))));
    assert_eq!(p.graphics_state().font, Some(0));
    assert_eq!(p.font(0).unwrap().decode_char(65), "A");
    // loading again changes nothing
    load(&mut p, &doc, &res, b"F1");
    assert!(p.font(1).is_none());
    load(&mut p, &doc, &res, b"F2");
    assert_eq!(p.find_font(b"F2"), Some(1));
    assert_eq!(p.find_font(b"F1"), Some(0));
}

#[test]
fn font_errors_are_reported() {
    let doc = empty_document();
    let res = resources();
    let none = Dictionary::new();
    let mut p = Processor::new();
    let tables = FontTables::new();
    let programs = FontPrograms::none();
    assert!(matches!(
        p.step(&doc, &none, &op("Tf", vec![name("F1"), integer(12)])),
        Err(PdfError::MissingField(k)) if k == b"Font"
    ));
    assert!(matches!(p.step(&doc, &res, &op("Tf", vec![integer(1), integer(12)])), Err(PdfError::InvalidStructure(_))));
    assert!(matches!(
        p.load_font(&doc, &res, b"Nowhere", &tables, &programs),
        Err(PdfError::MissingField(k)) if k == b"Nowhere"
    ));
    assert!(matches!(
        p.load_font(&doc, &res, b"Broken", &tables, &programs),
        Err(PdfError::MissingField(k)) if k == b"Subtype"
    ));
    assert!(matches!(
        p.load_font(&doc, &none, b"F1", &tables, &programs),
        Err(PdfError::MissingField(k)) if k == b"Font"
    ));
    assert!(p.font(0).is_none());
    load(&mut p, &doc, &res, b"F1");
    assert!(matches!(p.step(&doc, &res, &op("Tf", vec![name("F1")])), Err(PdfError::InvalidStructure(_))));
    assert!(matches!(
        p.step(&doc, &res, &op("Tf", vec![name("F1"), name("big")])),
        Err(PdfError::InvalidStructure(_))
    ));
    assert_eq!(p.graphics_state().font, None);
}

#[test]
fn showing_text_needs_a_font() {
    let doc = empty_document();
    let res = resources();
    let mut p = Processor::new();
    assert!(matches!(p.step(&doc, &res, &op("Tj", vec![text(b"A")])), Err(PdfError::InvalidStructure(_))));
    assert!(matches!(
        p.step(&doc, &res, &op("TJ", vec![Object::Array(vec![integer(5), text(b"A")])])),
        Err(PdfError::InvalidStructure(_))
    ));
    // without a string there is nothing to show and nothing to fail on
    assert!(matches!(p.step(&doc, &res, &op("Tj", vec![integer(1)])), Ok(Action::Nothing)));
    assert!(matches!(p.step(&doc, &res, &op("TJ", vec![text(b"A")])), Ok(Action::Nothing)));
    match p.step(&doc, &res, &op("TJ", vec![Object::Array(vec![integer(5)])])).unwrap() {
        Action::ShowTextArray(items) => assert_eq!(items.len(), 1),
        other => panic!("{:?}", other),
    }
}

#[test]
fn shown_text_becomes_glyphs() {
    let doc = empty_document();
    let res = resources();
    let mut p = Processor::new();
    load(&mut p, &doc, &res, b"F1");
    p.step(&doc, &res, &op("Tf", vec![name("F1"), integer(12)])).unwrap();
    match p.step(&doc, &res, &op("Tj", vec![text(b"A B")])).unwrap() {
        Action::ShowText(g) => {
            assert_eq!(g.len(), 3);
            assert_eq!((g[0].code, g[0].length, g[0].width, g[0].word_space), (65, 1, num(500), false));
            assert_eq!(g[0].text, "A");
            assert_eq!((g[1].code, g[1].length, g[1].width, g[1].word_space), (32, 1, num(250), true));
            assert_eq!(g[1].text, " ");
            assert_eq!((g[2].code, g[2].length, g[2].width, g[2].word_space), (66, 1, num(600), false));
            assert_eq!(g[2].text, "B");
        }
        other => panic!("{:?}", other),
    }
    match p.step(&doc, &res, &op("Tj", vec![text(b"")])).unwrap() {
        Action::ShowText(g) => assert!(g.is_empty()),
        other => panic!("{:?}", other),
    }
}

#[test]
fn text_arrays_mix_strings_and_shifts() {
    let doc = empty_document();
    let res = resources();
    let mut p = Processor::new();
    load(&mut p, &doc, &res, b"F1");
    p.step(&doc, &res, &op("Tf", vec![name("F1"), integer(10)])).unwrap();
    let array = Object::Array(vec![
        text(b"A"),
        integer(-250),
        name("skipped"),
        text(b"B"),
        Object::Real(12.5f32.to_bits()),
    ]);
    match p.step(&doc, &res, &op("TJ", vec![array])).unwrap() {
        Action::ShowTextArray(items) => {
            assert_eq!(items.len(), 4);
            match &items[0] {
                TextItem::Show(g) => {
                    assert_eq!(g.len(), 1);
                    assert_eq!((g[0].text.as_str(), g[0].width), ("A", num(500)));
                }
                other => panic!("{:?}", other),
            }
            assert!(matches!(items[1], TextItem::Adjust(Number::Integer(-250))));
            match &items[2] {
                TextItem::Show(g) => assert_eq!((g[0].text.as_str(), g[0].width), ("B", num(600))),
                other => panic!("{:?}", other),
            }
            assert!(matches!(items[3], TextItem::Adjust(Number::Real(b)) if b == 12.5f32.to_bits()));
        }
        other => panic!("{:?}", other),
    }
}

#[test]
fn word_spacing_applies_to_single_byte_spaces_only() {
    let doc = empty_document();
    let res = resources();
    let simple = make_font(&doc, &simple_font_dict(), &FontTables::new(), &FontPrograms::none()).unwrap();
    let flags: Vec<bool> = glyphs(&simple, b" a ").iter().map(|g| g.word_space).collect();
    assert_eq!(flags, vec![true, false, true]);
    let mut p = Processor::new();
    load(&mut p, &doc, &res, b"F2");
    let composite = p.font(0).unwrap();
    let g = glyphs(composite, &[0x00, 0x20, 0x00, 0x41]);
    assert_eq!(g.len(), 2);
    assert_eq!((g[0].code, g[0].length, g[0].word_space), (32, 2, false));
    assert_eq!((g[1].code, g[1].length, g[1].word_space), (65, 2, false));
    assert_eq!(g[0].width, num(1000));
    assert_eq!(g[0].text, "");
    let _ = CIDFontEncoding::identity();
}

#[test]
fn colours_follow_the_colour_space() {
    let doc = empty_document();
    let res = resources();
    let mut p = Processor::new();
    p.step(&doc, &res, &op("sc", vec![integer(1), integer(2), integer(3)])).unwrap();
    p.step(&doc, &res, &op("SCN", vec![Object::Real(0)])).unwrap();
    assert_eq!(p.graphics_state().fill_color, vec![num(1), num(2), num(3)]);
    assert_eq!(p.graphics_state().stroke_color, vec![Number::Real(0)]);
    assert!(matches!(p.step(&doc, &res, &op("cs", vec![name("Pattern")])), Ok(Action::Nothing)));
    assert_eq!(p.graphics_state().fill_colorspace, 1);
    assert_eq!(p.graphics_state().stroke_colorspace, 0);
    p.step(&doc, &res, &op("scn", vec![integer(1), name("Tiling")])).unwrap();
    assert!(p.graphics_state().fill_color.is_empty());
    // the stroke space is still DeviceGray: its colour must be numbers
    assert!(matches!(
        p.step(&doc, &res, &op("SC", vec![integer(1), name("Tiling")])),
        Err(PdfError::InvalidStructure(_))
    ));
    assert_eq!(p.graphics_state().stroke_color, vec![Number::Real(0)]);
    p.step(&doc, &res, &op("CS", vec![name("P")])).unwrap();
    assert_eq!(p.graphics_state().stroke_colorspace, 2);
    p.step(&doc, &res, &op("SC", vec![name("Tiling")])).unwrap();
    assert!(p.graphics_state().stroke_color.is_empty());
    assert!(matches!(
        p.step(&doc, &res, &op("cs", vec![name("Unknown")])),
        Err(PdfError::MissingField(k)) if k == b"Unknown"
    ));
    assert!(matches!(p.step(&doc, &res, &op("cs", vec![integer(1)])), Err(PdfError::InvalidStructure(_))));
    assert_eq!(p.graphics_state().fill_colorspace, 1);
}

#[test]
fn extended_graphics_states_set_the_soft_mask() {
    let doc = empty_document();
    let res = resources();
    let mut p = Processor::new();
    assert!(matches!(p.step(&doc, &res, &op("gs", vec![name("Masked")])), Ok(Action::Nothing)));
    assert!(p.graphics_state().smask.unwrap().get(b"S").is_some());
    for bad in ["BadName", "BadKind", "BadType"] {
        assert!(
            matches!(p.step(&doc, &res, &op("gs", vec![name(bad)])), Err(PdfError::InvalidStructure(_))),
            "{}",
            bad
        );
        assert!(p.graphics_state().smask.is_some());
    }
    assert!(matches!(
        p.step(&doc, &res, &op("gs", vec![name("Absent")])),
        Err(PdfError::MissingField(k)) if k == b"Absent"
    ));
    assert!(matches!(p.step(&doc, &res, &op("gs", vec![name("Clear")])), Ok(Action::Nothing)));
    assert!(p.graphics_state().smask.is_none());
    let none = Dictionary::new();
    assert!(matches!(
        p.step(&doc, &none, &op("gs", vec![name("Masked")])),
        Err(PdfError::MissingField(k)) if k == b"ExtGState"
    ));
}

#[test]
fn entries_of_an_extended_state_apply_in_order() {
    let doc = empty_document();
    let first = dict(vec![("A", integer(1))]);
    let second = dict(vec![("B", integer(2))]);
    let state = Dictionary {
        entries: vec![
            (b"SMask".to_vec(), Object::Dictionary(first)),
            (b"SMask".to_vec(), name("None")),
            (b"SMask".to_vec(), Object::Dictionary(second)),
            (b"Type".to_vec(), integer(3)),
            (b"CA".to_vec(), integer(1)),
        ],
    };
    let mask = apply_state(&doc, None, &state).unwrap().unwrap();
    assert!(mask.get(b"B").is_some());
    let other = dict(vec![("CA", integer(1))]);
    let unchanged = apply_state(&doc, Some(mask), &other).unwrap().unwrap();
    assert!(unchanged.get(b"B").is_some());
    let dangling = dict(vec![("SMask", Object::Reference((1, 0)))]);
    assert!(matches!(apply_state(&doc, None, &dangling), Err(PdfError::Parse(_))));
}

#[test]
fn forms_are_handed_out_with_their_resources() {
    let doc = empty_document();
    let res = resources();
    let mut p = Processor::new();
    match p.step(&doc, &res, &op("Do", vec![name("Fm1")])).unwrap() {
        Action::Form { content, resources } => {
            assert_eq!(content, b"q Q");
            assert!(resources.get(b"Inner").is_some());
        }
        other => panic!("{:?}", other),
    }
    match p.step(&doc, &res, &op("Do", vec![name("Fm2")])).unwrap() {
        Action::Form { content, resources } => {
            assert_eq!(content, b"BT ET");
            assert!(resources.get(b"XObject").is_some());
        }
        other => panic!("{:?}", other),
    }
    assert!(matches!(p.step(&doc, &res, &op("Do", vec![name("Im1")])), Err(PdfError::InvalidStructure(_))));
    assert!(matches!(
        p.step(&doc, &res, &op("Do", vec![name("Absent")])),
        Err(PdfError::MissingField(k)) if k == b"Absent"
    ));
    assert!(matches!(p.step(&doc, &res, &op("Do", vec![])), Err(PdfError::InvalidStructure(_))));
    let none = Dictionary::new();
    assert!(matches!(
        p.step(&doc, &none, &op("Do", vec![name("Fm1")])),
        Err(PdfError::MissingField(k)) if k == b"XObject"
    ));
}

#[test]
fn marked_content_changes_nothing_else() {
    let doc = empty_document();
    let res = Dictionary::new();
    let mut p = Processor::new();
    for operator in ["EMC", "BMC", "BDC", "EMC", "EMC", "EMC"] {
        assert!(matches!(p.step(&doc, &res, &op(operator, vec![name("Tag")])), Ok(Action::Nothing)));
    }
    assert_eq!(p.depth(), 0);
    assert!(p.path().ops.is_empty());
}

#[test]
fn forms_may_nest_sixty_four_deep() {
    assert_eq!(MAX_FORM_DEPTH, 64);
    assert_eq!(enter_form(0).unwrap(), 1);
    assert_eq!(enter_form(63).unwrap(), 64);
    assert!(matches!(enter_form(64), Err(PdfError::InvalidStructure(_))));
    assert!(matches!(enter_form(usize::MAX), Err(PdfError::InvalidStructure(_))));
}
