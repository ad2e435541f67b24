use pdf_extract::document_utils::{
    find_page, get_catalog, get_info, get_inherited_dict, get_inherited_numbers, get_pages,
    page_setup, MediaBox,
};
use pdf_extract::error::PdfError;
use pdf_extract::object::{bytes_eq, Dictionary, Document, Number, Object, Stream, StringFormat};
use pdf_extract::object_utils::{
    as_i64, as_num, get_name_string, maybe_deref, maybe_get_array, maybe_get_name,
    maybe_get_name_string, maybe_get_obj, to_dict, to_integers, to_numbers, to_objects, to_stream,
};

fn dict(entries: Vec<(&str, Object)>) -> Dictionary {
    Dictionary { entries: entries.into_iter().map(|(k, v)| (k.as_bytes().to_vec(), v)).collect() }
}

fn name(s: &str) -> Object {
    Object::Name(s.as_bytes().to_vec())
}

fn ints(v: &[i64]) -> Object {
    Object::Array(v.iter().map(|i| Object::Integer(*i)).collect())
}

fn document(trailer: Dictionary, objects: Vec<((u32, u16), Object)>) -> Document {
    Document { version: "1.5".to_string(), trailer, objects, pages: Vec::new(), encrypted: false }
}

fn is_missing(e: &PdfError, key: &str) -> bool {
    matches!(e, PdfError::MissingField(k) if k.as_slice() == key.as_bytes())
}

#[test]
fn bytes_compare_by_content() {
    assert!(bytes_eq(b"abc", b"abc"));
    assert!(!bytes_eq(b"abc", b"abd"));
    assert!(!bytes_eq(b"abc", b"ab"));
    assert!(bytes_eq(b"", b""));
}

#[test]
fn dictionary_lookup_finds_the_first_entry() {
    let d = dict(vec![("A", Object::Integer(1)), ("B", Object::Integer(2)), ("A", Object::Integer(3))]);
    assert!(matches!(d.get(b"A"), Some(Object::Integer(1))));
    assert!(matches!(d.get(b"B"), Some(Object::Integer(2))));
    assert!(d.get(b"C").is_none());
    assert!(Dictionary::new().get(b"A").is_none());
}

#[test]
fn require_names_the_missing_key() {
    let d = dict(vec![("A", Object::Null)]);
    assert!(matches!(d.require(b"A"), Ok(Object::Null)));
    let e = d.require(b"Width").unwrap_err();
    assert!(is_missing(&e, "Width"));
}

#[test]
fn get_object_finds_by_identifier() {
    let doc = document(
        Dictionary::new(),
        vec![((1, 0), Object::Integer(10)), ((2, 0), Object::Integer(20)), ((2, 1), Object::Integer(21))],
    );
    assert!(matches!(doc.get_object((2, 0)), Ok(Object::Integer(20))));
    assert!(matches!(doc.get_object((2, 1)), Ok(Object::Integer(21))));
    assert!(matches!(doc.get_object((3, 0)), Err(PdfError::Parse(_))));
    assert!(doc.get_dictionary((1, 0)).is_none());
}

#[test]
fn maybe_deref_follows_one_reference() {
    let doc = document(
        Dictionary::new(),
        vec![((1, 0), Object::Reference((2, 0))), ((2, 0), Object::Integer(7))],
    );
    let direct = Object::Boolean(true);
    assert!(matches!(maybe_deref(&doc, &direct), Ok(Object::Boolean(true))));
    let to_two = Object::Reference((2, 0));
    assert!(matches!(maybe_deref(&doc, &to_two), Ok(Object::Integer(7))));
    let to_one = Object::Reference((1, 0));
    assert!(matches!(maybe_deref(&doc, &to_one), Ok(Object::Reference((2, 0)))));
    let dangling = Object::Reference((9, 0));
    assert!(matches!(maybe_deref(&doc, &dangling), Err(PdfError::Parse(_))));
}

#[test]
fn maybe_get_obj_dereferences_and_swallows_errors() {
    let doc = document(Dictionary::new(), vec![((5, 0), name("Font"))]);
    let d = dict(vec![
        ("Direct", Object::Integer(1)),
        ("Indirect", Object::Reference((5, 0))),
        ("Dangling", Object::Reference((6, 0))),
    ]);
    assert!(matches!(maybe_get_obj(&doc, &d, b"Direct"), Some(Object::Integer(1))));
    assert!(matches!(maybe_get_obj(&doc, &d, b"Indirect"), Some(Object::Name(_))));
    assert!(maybe_get_obj(&doc, &d, b"Dangling").is_none());
    assert!(maybe_get_obj(&doc, &d, b"Absent").is_none());
    assert_eq!(maybe_get_name(&doc, &d, b"Indirect"), Some(&b"Font"[..]));
    assert_eq!(maybe_get_name(&doc, &d, b"Direct"), None);
}

#[test]
fn as_num_accepts_integers_and_reals_only() {
    assert_eq!(as_num(&Object::Integer(-3)).unwrap(), Number::Integer(-3));
    assert_eq!(as_num(&Object::Real(1.5f32.to_bits())).unwrap(), Number::Real(1.5f32.to_bits()));
    assert!(matches!(as_num(&name("x")), Err(PdfError::InvalidStructure(_))));
    assert!(matches!(as_num(&Object::Null), Err(PdfError::InvalidStructure(_))));
    assert_eq!(as_i64(&Object::Integer(i64::MIN)).unwrap(), i64::MIN);
    assert!(matches!(as_i64(&Object::Real(0)), Err(PdfError::InvalidStructure(_))));
}

#[test]
fn typed_conversions_check_the_type() {
    let doc = document(
        Dictionary::new(),
        vec![
            ((1, 0), Object::Dictionary(dict(vec![("K", Object::Integer(1))]))),
            (
                (2, 0),
                Object::Stream(Stream { dict: Dictionary::new(), content: vec![1, 2], decoded: None }),
            ),
        ],
    );
    let r1 = Object::Reference((1, 0));
    let r2 = Object::Reference((2, 0));
    assert_eq!(to_dict(&doc, &r1).unwrap().entries.len(), 1);
    assert!(matches!(to_dict(&doc, &r2), Err(PdfError::InvalidStructure(_))));
    assert_eq!(to_stream(&doc, &r2).unwrap().content, vec![1, 2]);
    assert!(matches!(to_stream(&doc, &r1), Err(PdfError::InvalidStructure(_))));
    let r9 = Object::Reference((9, 0));
    assert!(matches!(to_dict(&doc, &r9), Err(PdfError::Parse(_))));
}

#[test]
fn number_arrays_convert_element_by_element() {
    let doc = document(Dictionary::new(), vec![((1, 0), ints(&[1, 2, 3]))]);
    let mixed = Object::Array(vec![Object::Integer(4), Object::Real(2.5f32.to_bits())]);
    assert_eq!(
        to_numbers(&doc, &mixed).unwrap(),
        vec![Number::Integer(4), Number::Real(2.5f32.to_bits())]
    );
    assert_eq!(to_integers(&doc, &Object::Reference((1, 0))).unwrap(), vec![1, 2, 3]);
    assert!(matches!(to_integers(&doc, &mixed), Err(PdfError::InvalidStructure(_))));
    let bad = Object::Array(vec![Object::Integer(4), name("x")]);
    assert!(matches!(to_numbers(&doc, &bad), Err(PdfError::InvalidStructure(_))));
    assert!(matches!(to_numbers(&doc, &Object::Integer(1)), Err(PdfError::InvalidStructure(_))));
    assert_eq!(to_numbers(&doc, &Object::Array(vec![])).unwrap(), vec![]);
    // elements are not dereferenced
    let refs = Object::Array(vec![Object::Reference((1, 0))]);
    assert!(matches!(to_numbers(&doc, &refs), Err(PdfError::InvalidStructure(_))));
}

#[test]
fn object_arrays_dereference_their_elements() {
    let doc = document(Dictionary::new(), vec![((1, 0), Object::Integer(5))]);
    let arr = Object::Array(vec![Object::Reference((1, 0)), Object::Null]);
    let v = to_objects(&doc, &arr).unwrap();
    assert_eq!(v.len(), 2);
    assert!(matches!(v[0], Object::Integer(5)));
    assert!(matches!(v[1], Object::Null));
    let bad = Object::Array(vec![Object::Null, Object::Reference((2, 0))]);
    assert!(matches!(to_objects(&doc, &bad), Err(PdfError::Parse(_))));
    assert!(matches!(to_objects(&doc, &Object::Null), Err(PdfError::InvalidStructure(_))));
}

#[test]
fn name_strings_report_each_failure() {
    let doc = document(Dictionary::new(), vec![((1, 0), name("Type1"))]);
    let d = dict(vec![
        ("Subtype", Object::Reference((1, 0))),
        ("Count", Object::Integer(1)),
        ("Bad", Object::Name(vec![0xfe, 0xff, 0xd8, 0x00])),
        ("Gone", Object::Reference((7, 0))),
        ("Wide", Object::Name(vec![0xfe, 0xff, 0x03, 0xa9])),
    ]);
    assert_eq!(get_name_string(&doc, &d, b"Subtype").unwrap(), "Type1");
    assert_eq!(get_name_string(&doc, &d, b"Wide").unwrap(), "\u{3a9}");
    assert!(is_missing(&get_name_string(&doc, &d, b"BaseFont").unwrap_err(), "BaseFont"));
    assert!(matches!(get_name_string(&doc, &d, b"Count"), Err(PdfError::InvalidStructure(_))));
    assert!(matches!(get_name_string(&doc, &d, b"Bad"), Err(PdfError::EncodingError(_))));
    assert!(matches!(get_name_string(&doc, &d, b"Gone"), Err(PdfError::Parse(_))));
    assert_eq!(maybe_get_name_string(&doc, &d, b"Subtype"), Some("Type1".to_string()));
    assert_eq!(maybe_get_name_string(&doc, &d, b"Count"), None);
    assert!(maybe_get_array(&doc, &d, b"Count").is_none());
}

#[test]
fn stream_contents_prefer_the_decoded_bytes() {
    let raw = Stream { dict: Dictionary::new(), content: vec![1, 2, 3], decoded: None };
    assert_eq!(raw.contents(), &[1, 2, 3]);
    let both = Stream { dict: Dictionary::new(), content: vec![1, 2, 3], decoded: Some(vec![9]) };
    assert_eq!(both.contents(), &[9]);
}

#[test]
fn catalog_and_pages_are_reached_through_references() {
    let doc = document(
        dict(vec![("Root", Object::Reference((1, 0))), ("Info", Object::Reference((3, 0)))]),
        vec![
            ((1, 0), Object::Dictionary(dict(vec![("Pages", Object::Reference((2, 0)))]))),
            ((2, 0), Object::Dictionary(dict(vec![("Count", Object::Integer(2))]))),
            (
                (3, 0),
                Object::Dictionary(dict(vec![(
                    "Title",
                    Object::Str(b"T".to_vec(), StringFormat::Literal),
                )])),
            ),
        ],
    );
    assert!(get_catalog(&doc).unwrap().get(b"Pages").is_some());
    assert!(matches!(get_pages(&doc).unwrap().get(b"Count"), Some(Object::Integer(2))));
    assert!(get_info(&doc).unwrap().get(b"Title").is_some());
}

#[test]
fn catalog_errors_tell_what_is_wrong() {
    let none = document(Dictionary::new(), vec![]);
    assert!(is_missing(&get_catalog(&none).unwrap_err(), "Root"));
    assert!(get_info(&none).is_none());
    let direct = document(dict(vec![("Root", Object::Dictionary(Dictionary::new()))]), vec![]);
    assert!(matches!(get_catalog(&direct), Err(PdfError::InvalidStructure(_))));
    let dangling = document(dict(vec![("Root", Object::Reference((1, 0)))]), vec![]);
    assert!(matches!(get_catalog(&dangling), Err(PdfError::Parse(_))));
    let wrong = document(
        dict(vec![("Root", Object::Reference((1, 0)))]),
        vec![((1, 0), Object::Integer(1))],
    );
    assert!(matches!(get_catalog(&wrong), Err(PdfError::InvalidStructure(_))));
    let no_pages = document(
        dict(vec![("Root", Object::Reference((1, 0)))]),
        vec![((1, 0), Object::Dictionary(Dictionary::new()))],
    );
    assert!(is_missing(&get_pages(&no_pages).unwrap_err(), "Pages"));
}

fn page_tree() -> Document {
    let mut doc = document(
        Dictionary::new(),
        vec![
            (
                (1, 0),
                Object::Dictionary(dict(vec![
                    ("MediaBox", ints(&[0, 0, 612, 792])),
                    ("Resources", Object::Dictionary(dict(vec![("Root", Object::Null)]))),
                ])),
            ),
            ((2, 0), Object::Dictionary(dict(vec![("Parent", Object::Reference((1, 0)))]))),
            (
                (3, 0),
                Object::Dictionary(dict(vec![
                    ("Parent", Object::Reference((2, 0))),
                    ("ArtBox", ints(&[10, 20, 30, 40])),
                ])),
            ),
            (
                (4, 0),
                Object::Dictionary(dict(vec![
                    ("Parent", Object::Reference((2, 0))),
                    ("MediaBox", ints(&[0, 0, 100, 200])),
                    ("Resources", Object::Dictionary(dict(vec![("Own", Object::Null)]))),
                ])),
            ),
            ((5, 0), Object::Dictionary(dict(vec![("Parent", Object::Reference((6, 0)))]))),
            ((6, 0), Object::Dictionary(dict(vec![("Parent", Object::Reference((5, 0)))]))),
            ((7, 0), Object::Integer(0)),
        ],
    );
    doc.pages = vec![(3, 0), (4, 0)];
    doc
}

fn rectangle(a: i64, b: i64, c: i64, d: i64) -> MediaBox {
    MediaBox {
        llx: Number::Integer(a),
        lly: Number::Integer(b),
        urx: Number::Integer(c),
        ury: Number::Integer(d),
    }
}

#[test]
fn page_attributes_are_inherited_from_ancestors() {
    let doc = page_tree();
    let page = doc.get_dictionary((3, 0)).unwrap();
    assert_eq!(
        get_inherited_numbers(&doc, page, b"MediaBox").unwrap(),
        vec![Number::Integer(0), Number::Integer(0), Number::Integer(612), Number::Integer(792)]
    );
    assert!(get_inherited_dict(&doc, page, b"Resources").unwrap().get(b"Root").is_some());
    assert!(get_inherited_dict(&doc, page, b"Absent").is_none());
    let own = doc.get_dictionary((4, 0)).unwrap();
    assert!(get_inherited_dict(&doc, own, b"Resources").unwrap().get(b"Own").is_some());
}

#[test]
fn a_cycle_of_parents_ends_the_walk() {
    let doc = page_tree();
    let looped = doc.get_dictionary((5, 0)).unwrap();
    assert!(get_inherited_dict(&doc, looped, b"Resources").is_none());
    assert!(get_inherited_numbers(&doc, looped, b"MediaBox").is_none());
}

#[test]
fn page_setup_resolves_boxes_and_resources() {
    let doc = page_tree();
    let first = page_setup(&doc, (3, 0)).unwrap();
    assert_eq!(first.media_box, rectangle(0, 0, 612, 792));
    assert_eq!(first.art_box, Some(rectangle(10, 20, 30, 40)));
    assert!(first.resources.unwrap().get(b"Root").is_some());
    let second = page_setup(&doc, (4, 0)).unwrap();
    assert_eq!(second.media_box, rectangle(0, 0, 100, 200));
    assert_eq!(second.art_box, None);
    assert!(second.resources.unwrap().get(b"Own").is_some());
}

#[test]
fn page_setup_reports_what_is_missing() {
    let doc = page_tree();
    assert!(is_missing(&page_setup(&doc, (5, 0)).err().unwrap(), "MediaBox"));
    assert!(matches!(page_setup(&doc, (7, 0)), Err(PdfError::InvalidStructure(_))));
    assert!(matches!(page_setup(&doc, (8, 0)), Err(PdfError::Parse(_))));
    let short = document(
        Dictionary::new(),
        vec![((1, 0), Object::Dictionary(dict(vec![("MediaBox", ints(&[0, 0, 612]))])))],
    );
    assert!(matches!(page_setup(&short, (1, 0)), Err(PdfError::InvalidStructure(_))));
    let bad_art = document(
        Dictionary::new(),
        vec![(
            (1, 0),
            Object::Dictionary(dict(vec![
                ("MediaBox", ints(&[0, 0, 612, 792])),
                ("ArtBox", name("x")),
            ])),
        )],
    );
    assert!(matches!(page_setup(&bad_art, (1, 0)), Err(PdfError::InvalidStructure(_))));
}

#[test]
fn pages_are_counted_from_one() {
    let doc = page_tree();
    assert_eq!(find_page(&doc, 1).unwrap(), (3, 0));
    assert_eq!(find_page(&doc, 2).unwrap(), (4, 0));
    assert!(matches!(find_page(&doc, 0), Err(PdfError::InvalidStructure(_))));
    assert!(matches!(find_page(&doc, 3), Err(PdfError::InvalidStructure(_))));
}
