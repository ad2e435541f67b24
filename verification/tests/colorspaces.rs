use pdf_extract::colorspace::{
    alternate_space, make_colorspace, AlternateColorSpace, ColorSpace,
};
use pdf_extract::error::PdfError;
use pdf_extract::function::Function;
use pdf_extract::object::{Dictionary, Document, Number, Object, Stream};

fn dict(entries: Vec<(&str, Object)>) -> Dictionary {
    Dictionary { entries: entries.into_iter().map(|(k, v)| (k.as_bytes().to_vec(), v)).collect() }
}

fn name(s: &str) -> Object {
    Object::Name(s.as_bytes().to_vec())
}

fn integer(i: i64) -> Object {
    Object::Integer(i)
}

fn num(i: i64) -> Number {
    Number::Integer(i)
}

fn ints(v: &[i64]) -> Object {
    Object::Array(v.iter().map(|i| Object::Integer(*i)).collect())
}

fn stream(entries: Vec<(&str, Object)>, content: &[u8]) -> Object {
    Object::Stream(Stream { dict: dict(entries), content: content.to_vec(), decoded: None })
}

fn document() -> Document {
    Document {
        version: "1.4".to_string(),
        trailer: Dictionary::new(),
        objects: vec![
            ((1, 0), stream(vec![("N", integer(3))], b"profile")),
            ((2, 0), Object::Dictionary(dict(vec![("FunctionType", integer(2)), ("N", integer(1))]))),
            ((3, 0), name("DeviceCMYK")),
        ],
        pages: Vec::new(),
        encrypted: false,
    }
}

fn spaces(entries: Vec<(&str, Object)>) -> Dictionary {
    dict(vec![("ColorSpace", Object::Dictionary(dict(entries)))])
}

fn resolve(entry: Object) -> Result<ColorSpace, PdfError> {
    make_colorspace(&document(), b"Cs1", &spaces(vec![("Cs1", entry)]))
}

fn is_missing(e: &PdfError, key: &str) -> bool {
    matches!(e, PdfError::MissingField(k) if k.as_slice() == key.as_bytes())
}

#[test]
fn device_names_stand_for_themselves() {
    let doc = document();
    let none = Dictionary::new();
    assert!(matches!(make_colorspace(&doc, b"DeviceGray", &none), Ok(ColorSpace::DeviceGray)));
    assert!(matches!(make_colorspace(&doc, b"DeviceRGB", &none), Ok(ColorSpace::DeviceRGB)));
    assert!(matches!(make_colorspace(&doc, b"DeviceCMYK", &none), Ok(ColorSpace::DeviceCMYK)));
    assert!(matches!(make_colorspace(&doc, b"Pattern", &none), Ok(ColorSpace::Pattern)));
    assert!(is_missing(&make_colorspace(&doc, b"DeviceN", &none).err().unwrap(), "ColorSpace"));
}

#[test]
fn named_spaces_are_looked_up_in_the_resources() {
    assert!(matches!(resolve(name("DeviceRGB")), Ok(ColorSpace::DeviceRGB)));
    assert!(matches!(resolve(name("DeviceGray")), Ok(ColorSpace::DeviceGray)));
    assert!(matches!(resolve(name("DeviceCMYK")), Err(PdfError::InvalidStructure(_))));
    assert!(matches!(resolve(integer(1)), Err(PdfError::InvalidStructure(_))));
    let e = make_colorspace(&document(), b"Cs2", &spaces(vec![("Cs1", name("DeviceRGB"))])).err().unwrap();
    assert!(is_missing(&e, "Cs2"));
    for kind in ["Pattern", "DeviceGray", "DeviceRGB", "DeviceCMYK", "DeviceN"] {
        assert!(resolve(Object::Array(vec![name(kind)])).is_ok(), "{}", kind);
    }
    assert!(matches!(resolve(Object::Array(vec![name("DeviceN")])), Ok(ColorSpace::DeviceN)));
    assert!(matches!(resolve(Object::Array(vec![name("Indexed")])), Err(PdfError::InvalidStructure(_))));
    assert!(matches!(resolve(Object::Array(vec![])), Err(PdfError::InvalidStructure(_))));
    assert!(matches!(resolve(Object::Array(vec![integer(1)])), Err(PdfError::InvalidStructure(_))));
}

#[test]
fn icc_based_spaces_keep_their_profile() {
    match resolve(Object::Array(vec![name("ICCBased"), Object::Reference((1, 0))])).unwrap() {
        ColorSpace::ICCBased(profile) => assert_eq!(profile, b"profile"),
        other => panic!("{:?}", other),
    }
    assert!(matches!(
        resolve(Object::Array(vec![name("ICCBased"), Object::Reference((2, 0))])),
        Err(PdfError::InvalidStructure(_))
    ));
    assert!(matches!(
        resolve(Object::Array(vec![name("ICCBased"), Object::Reference((9, 0))])),
        Err(PdfError::Parse(_))
    ));
    assert!(matches!(resolve(Object::Array(vec![name("ICCBased")])), Err(PdfError::InvalidStructure(_))));
}

#[test]
fn calibrated_spaces_need_a_white_point() {
    let gray = dict(vec![
        ("WhitePoint", ints(&[1, 2, 3])),
        ("BlackPoint", ints(&[0, 0])),
        ("Gamma", integer(2)),
    ]);
    match resolve(Object::Array(vec![name("CalGray"), Object::Dictionary(gray)])).unwrap() {
        ColorSpace::CalGray(c) => {
            assert_eq!(c.white_point, (num(1), num(2), num(3)));
            assert_eq!(c.black_point, None);
            assert_eq!(c.gamma, Some(num(2)));
        }
        other => panic!("{:?}", other),
    }
    let rgb = dict(vec![
        ("WhitePoint", ints(&[1, 2, 3])),
        ("BlackPoint", ints(&[4, 5, 6])),
        ("Gamma", ints(&[7, 8, 9])),
        ("Matrix", ints(&[1, 0, 0, 0, 1, 0, 0, 0, 1])),
    ]);
    match resolve(Object::Array(vec![name("CalRGB"), Object::Dictionary(rgb)])).unwrap() {
        ColorSpace::CalRGB(c) => {
            assert_eq!(c.black_point, Some((num(4), num(5), num(6))));
            assert_eq!(c.gamma, Some((num(7), num(8), num(9))));
            assert_eq!(c.matrix.unwrap().len(), 9);
        }
        other => panic!("{:?}", other),
    }
    let lab = dict(vec![("WhitePoint", ints(&[1, 2, 3])), ("Range", ints(&[-1, 1, -2, 2]))]);
    match resolve(Object::Array(vec![name("Lab"), Object::Dictionary(lab)])).unwrap() {
        ColorSpace::Lab(c) => {
            assert_eq!(c.range, Some((num(-1), num(1), num(-2), num(2))));
            assert_eq!(c.black_point, None);
        }
        other => panic!("{:?}", other),
    }
    for kind in ["CalGray", "CalRGB", "Lab"] {
        let none = resolve(Object::Array(vec![name(kind), Object::Dictionary(Dictionary::new())]));
        assert!(is_missing(&none.err().unwrap(), "WhitePoint"), "{}", kind);
        let long = dict(vec![("WhitePoint", ints(&[1, 2, 3, 4]))]);
        assert!(matches!(
            resolve(Object::Array(vec![name(kind), Object::Dictionary(long)])),
            Err(PdfError::InvalidStructure(_))
        ));
        assert!(matches!(
            resolve(Object::Array(vec![name(kind), integer(1)])),
            Err(PdfError::InvalidStructure(_))
        ));
    }
}

#[test]
fn separations_hold_name_alternate_and_tint() {
    let entry = Object::Array(vec![
        name("Separation"),
        name("Spot"),
        Object::Reference((3, 0)),
        Object::Reference((2, 0)),
    ]);
    match resolve(entry).unwrap() {
        ColorSpace::Separation(s) => {
            assert_eq!(s.name, "Spot");
            assert!(matches!(s.alternate_space, AlternateColorSpace::DeviceCMYK));
            match *s.tint_transform {
                Function::Type2(f) => {
                    assert_eq!(f.n, num(1));
                    assert!(f.c0.is_none() && f.c1.is_none());
                }
                other => panic!("{:?}", other),
            }
        }
        other => panic!("{:?}", other),
    }
    let short = Object::Array(vec![name("Separation"), name("Spot"), name("DeviceGray")]);
    assert!(matches!(resolve(short), Err(PdfError::InvalidStructure(_))));
    let no_name = Object::Array(vec![name("Separation"), integer(1), name("DeviceGray"), Object::Reference((2, 0))]);
    assert!(matches!(resolve(no_name), Err(PdfError::InvalidStructure(_))));
    let bad_alt = Object::Array(vec![name("Separation"), name("Spot"), name("Lab"), Object::Reference((2, 0))]);
    assert!(matches!(resolve(bad_alt), Err(PdfError::InvalidStructure(_))));
    let bad_tint = Object::Array(vec![name("Separation"), name("Spot"), name("DeviceGray"), integer(1)]);
    assert!(matches!(resolve(bad_tint), Err(PdfError::InvalidStructure(_))));
}

#[test]
fn alternate_spaces_are_names_or_arrays() {
    let doc = document();
    assert!(matches!(alternate_space(&doc, &name("DeviceGray")), Ok(AlternateColorSpace::DeviceGray)));
    assert!(matches!(alternate_space(&doc, &name("DeviceRGB")), Ok(AlternateColorSpace::DeviceRGB)));
    assert!(matches!(alternate_space(&doc, &Object::Reference((3, 0))), Ok(AlternateColorSpace::DeviceCMYK)));
    let icc = Object::Array(vec![name("ICCBased"), Object::Reference((1, 0))]);
    assert!(matches!(alternate_space(&doc, &icc), Ok(AlternateColorSpace::ICCBased(p)) if p == b"profile"));
    let lab = Object::Array(vec![
        name("Lab"),
        Object::Dictionary(dict(vec![("WhitePoint", ints(&[1, 1, 1]))])),
    ]);
    assert!(matches!(alternate_space(&doc, &lab), Ok(AlternateColorSpace::Lab(_))));
    let other = Object::Array(vec![name("Pattern")]);
    assert!(matches!(alternate_space(&doc, &other), Err(PdfError::InvalidStructure(_))));
    assert!(matches!(alternate_space(&doc, &integer(1)), Err(PdfError::InvalidStructure(_))));
    assert!(matches!(alternate_space(&doc, &Object::Reference((8, 0))), Err(PdfError::Parse(_))));
}

#[test]
fn sampled_functions_default_encode_and_decode() {
    let doc = document();
    let f = stream(
        vec![
            ("FunctionType", integer(0)),
            ("Range", ints(&[0, 1])),
            ("Domain", ints(&[0, 2])),
            ("Size", ints(&[4, 9])),
            ("BitsPerSample", integer(8)),
        ],
        b"samples",
    );
    match Function::new(&doc, &f).unwrap() {
        Function::Type0(t) => {
            assert_eq!(t.domain, vec![num(0), num(2)]);
            assert_eq!(t.range, vec![num(0), num(1)]);
            assert_eq!(t.size, vec![4, 9]);
            assert_eq!(t.bits_per_sample, 8);
            assert_eq!(t.contents, b"samples");
            assert_eq!(t.encode, vec![Number::Real(0), num(3), Number::Real(0), num(8)]);
            assert_eq!(t.decode, vec![num(0), num(1)]);
        }
        other => panic!("{:?}", other),
    }
    let g = stream(
        vec![
            ("FunctionType", integer(0)),
            ("Range", ints(&[0, 1])),
            ("Domain", ints(&[0, 2])),
            ("Size", ints(&[4])),
            ("BitsPerSample", integer(8)),
            ("Encode", ints(&[1, 2])),
            ("Decode", ints(&[3, 4])),
        ],
        b"",
    );
    match Function::new(&doc, &g).unwrap() {
        Function::Type0(t) => {
            assert_eq!(t.encode, vec![num(1), num(2)]);
            assert_eq!(t.decode, vec![num(3), num(4)]);
        }
        other => panic!("{:?}", other),
    }
}

#[test]
fn functions_are_told_apart_by_type() {
    let doc = document();
    let two = Object::Dictionary(dict(vec![
        ("FunctionType", integer(2)),
        ("C0", ints(&[0])),
        ("C1", ints(&[1])),
        ("N", Object::Real(1.5f32.to_bits())),
    ]));
    match Function::new(&doc, &two).unwrap() {
        Function::Type2(f) => {
            assert_eq!(f.c0, Some(vec![num(0)]));
            assert_eq!(f.c1, Some(vec![num(1)]));
            assert_eq!(f.n, Number::Real(1.5f32.to_bits()));
        }
        other => panic!("{:?}", other),
    }
    let three = Object::Dictionary(dict(vec![("FunctionType", integer(3))]));
    assert!(matches!(Function::new(&doc, &three), Ok(Function::Type3)));
    let four = stream(vec![("FunctionType", integer(4))], b"{ dup mul }");
    assert!(matches!(Function::new(&doc, &four), Ok(Function::Type4(p)) if p == b"{ dup mul }"));
}

#[test]
fn functions_report_what_is_wrong() {
    let doc = document();
    assert!(matches!(Function::new(&doc, &integer(1)), Err(PdfError::InvalidStructure(_))));
    let untyped = Object::Dictionary(Dictionary::new());
    assert!(is_missing(&Function::new(&doc, &untyped).err().unwrap(), "FunctionType"));
    for t in [0, 4, 1, 5, -1] {
        let d = Object::Dictionary(dict(vec![("FunctionType", integer(t))]));
        assert!(matches!(Function::new(&doc, &d), Err(PdfError::InvalidStructure(_))), "{}", t);
    }
    let unknown = stream(vec![("FunctionType", integer(7))], b"");
    assert!(matches!(Function::new(&doc, &unknown), Err(PdfError::InvalidStructure(_))));
    let no_n = Object::Dictionary(dict(vec![("FunctionType", integer(2))]));
    assert!(is_missing(&Function::new(&doc, &no_n).err().unwrap(), "N"));
    let no_range = stream(vec![("FunctionType", integer(0))], b"");
    assert!(is_missing(&Function::new(&doc, &no_range).err().unwrap(), "Range"));
    let no_size = stream(
        vec![("FunctionType", integer(0)), ("Range", ints(&[0, 1])), ("Domain", ints(&[0, 1]))],
        b"",
    );
    assert!(is_missing(&Function::new(&doc, &no_size).err().unwrap(), "Size"));
    let real_type = Object::Dictionary(dict(vec![("FunctionType", Object::Real(0))]));
    assert!(matches!(Function::new(&doc, &real_type), Err(PdfError::InvalidStructure(_))));
}
