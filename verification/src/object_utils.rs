//! Dereferencing and typed extraction of objects.

use vstd::prelude::*;
use crate::error::{Failure, PdfError, PdfResult};
use crate::object::{Dictionary, Document, Number, Object, Stream};
use crate::string_utils::{pdf_to_utf8, spec_pdf_to_utf8};

verus! {

/// `obj` itself, or the object it refers to when it is a reference.
pub open spec fn spec_maybe_deref(doc: Document, obj: Object) -> Result<Object, Failure> {
    match obj {
        Object::Reference(id) => doc.spec_get_object(id),
        _ => Ok(obj),
    }
}

/// Whether a borrowed result is the one a contract names.
pub open spec fn agrees_ref<T>(r: PdfResult<&T>, want: Result<T, Failure>) -> bool {
    match r {
        Ok(v) => want == Ok::<T, Failure>(*v),
        Err(e) => want == Err::<T, Failure>(e.kind()),
    }
}

/// Whether an optional borrow is the value a contract names.
pub open spec fn same_ref<T>(r: Option<&T>, want: Option<T>) -> bool {
    match r {
        Some(v) => want == Some(*v),
        None => want is None,
    }
}

/// Dereference an object if it is a reference: one step, never further.
pub fn maybe_deref<'a>(doc: &'a Document, obj: &'a Object) -> (r: PdfResult<&'a Object>)
    ensures
        agrees_ref(r, spec_maybe_deref(*doc, *obj)),
{
    match obj {
        Object::Reference(id) => doc.get_object(*id),
        _ => Ok(obj),
    }
}

/// The dereferenced value under `key`, when the key is present and its value
/// resolves.
pub open spec fn spec_maybe_get_obj(doc: Document, dict: Dictionary, key: Seq<u8>) -> Option<
    Object,
> {
    match dict.spec_get(key) {
        Some(o) => match spec_maybe_deref(doc, o) {
            Ok(t) => Some(t),
            Err(_) => None,
        },
        None => None,
    }
}

/// Get an object from a dictionary, dereferenced.
pub fn maybe_get_obj<'a>(doc: &'a Document, dict: &'a Dictionary, key: &[u8]) -> (r: Option<
    &'a Object,
>)
    ensures
        same_ref(r, spec_maybe_get_obj(*doc, *dict, key@)),
{
    match dict.get(key) {
        Some(o) => match maybe_deref(doc, o) {
            Ok(t) => Some(t),
            Err(_) => None,
        },
        None => None,
    }
}

/// Convert an object to a number; `InvalidStructure` unless it is an integer
/// or a real.
pub fn as_num(obj: &Object) -> (r: PdfResult<Number>)
    ensures
        crate::error::agrees(r, obj.spec_as_num()),
{
    match obj {
        Object::Integer(i) => Ok(Number::Integer(*i)),
        Object::Real(bits) => Ok(Number::Real(*bits)),
        _ => Err(PdfError::invalid("Expected number")),
    }
}

/// Convert an object to an integer; `InvalidStructure` unless it is one.
pub fn as_i64(obj: &Object) -> (r: PdfResult<i64>)
    ensures
        crate::error::agrees(r, obj.spec_as_i64()),
{
    match obj {
        Object::Integer(i) => Ok(*i),
        _ => Err(PdfError::invalid("Expected integer")),
    }
}

/// The dictionary that `obj` is or refers to.
pub open spec fn spec_as_dict(doc: Document, obj: Object) -> Result<Dictionary, Failure> {
    match spec_maybe_deref(doc, obj) {
        Ok(Object::Dictionary(d)) => Ok(d),
        Ok(_) => Err(Failure::InvalidStructure),
        Err(e) => Err(e),
    }
}

/// The dictionary that `obj` is or refers to; `InvalidStructure` when it is
/// something else.
pub fn to_dict<'a>(doc: &'a Document, obj: &'a Object) -> (r: PdfResult<&'a Dictionary>)
    ensures
        agrees_ref(r, spec_as_dict(*doc, *obj)),
{
    match maybe_deref(doc, obj)? {
        Object::Dictionary(d) => Ok(d),
        _ => Err(PdfError::invalid("Expected dictionary")),
    }
}

/// The stream that `obj` is or refers to.
pub open spec fn spec_as_stream(doc: Document, obj: Object) -> Result<Stream, Failure> {
    match spec_maybe_deref(doc, obj) {
        Ok(Object::Stream(s)) => Ok(s),
        Ok(_) => Err(Failure::InvalidStructure),
        Err(e) => Err(e),
    }
}

/// The stream that `obj` is or refers to; `InvalidStructure` when it is
/// something else.
pub fn to_stream<'a>(doc: &'a Document, obj: &'a Object) -> (r: PdfResult<&'a Stream>)
    ensures
        agrees_ref(r, spec_as_stream(*doc, *obj)),
{
    match maybe_deref(doc, obj)? {
        Object::Stream(s) => Ok(s),
        _ => Err(PdfError::invalid("Expected stream")),
    }
}

/// The dereferenced value under `key`, `None` without the key.
pub open spec fn spec_opt_object(doc: Document, dict: Dictionary, key: Seq<u8>) -> Result<
    Option<Object>,
    Failure,
> {
    match dict.spec_get(key) {
        None => Ok(None),
        Some(o) => match spec_maybe_deref(doc, o) {
            Ok(t) => Ok(Some(t)),
            Err(e) => Err(e),
        },
    }
}

/// Whether an optional borrowed result is the one a contract names.
pub open spec fn agrees_opt_ref<T>(r: PdfResult<Option<&T>>, want: Result<Option<T>, Failure>) -> bool {
    match r {
        Ok(Some(v)) => want == Ok::<Option<T>, Failure>(Some(*v)),
        Ok(None) => want == Ok::<Option<T>, Failure>(None),
        Err(e) => want == Err::<Option<T>, Failure>(e.kind()),
    }
}

/// The dereferenced value under `key`, `None` without the key; a `Parse`
/// error when the value refers to nothing.
pub fn opt_object<'a>(doc: &'a Document, dict: &'a Dictionary, key: &[u8]) -> (r: PdfResult<
    Option<&'a Object>,
>)
    ensures
        agrees_opt_ref(r, spec_opt_object(*doc, *dict, key@)),
{
    match dict.get(key) {
        None => Ok(None),
        Some(o) => {
            let t = maybe_deref(doc, o)?;
            Ok(Some(t))
        },
    }
}

/// The dictionary under `key`, `None` without the key.
pub open spec fn spec_opt_dict(doc: Document, dict: Dictionary, key: Seq<u8>) -> Result<
    Option<Dictionary>,
    Failure,
> {
    match dict.spec_get(key) {
        None => Ok(None),
        Some(o) => match spec_as_dict(doc, o) {
            Ok(t) => Ok(Some(t)),
            Err(e) => Err(e),
        },
    }
}

/// The dictionary under `key`, `None` without the key; an error when the
/// value is no dictionary.
pub fn opt_dict<'a>(doc: &'a Document, dict: &'a Dictionary, key: &[u8]) -> (r: PdfResult<
    Option<&'a Dictionary>,
>)
    ensures
        agrees_opt_ref(r, spec_opt_dict(*doc, *dict, key@)),
{
    match dict.get(key) {
        None => Ok(None),
        Some(o) => {
            let t = to_dict(doc, o)?;
            Ok(Some(t))
        },
    }
}

/// The dictionary under `key`: `MissingField` without the key.
pub open spec fn spec_get_dict(doc: Document, dict: Dictionary, key: Seq<u8>) -> Result<
    Dictionary,
    Failure,
> {
    match dict.spec_get(key) {
        None => Err(Failure::MissingField(key)),
        Some(o) => spec_as_dict(doc, o),
    }
}

/// The dictionary under `key`: `MissingField` without the key, an error when
/// the value is no dictionary.
pub fn get_dict<'a>(doc: &'a Document, dict: &'a Dictionary, key: &[u8]) -> (r: PdfResult<
    &'a Dictionary,
>)
    ensures
        agrees_ref(r, spec_get_dict(*doc, *dict, key@)),
{
    let o = dict.require(key)?;
    to_dict(doc, o)
}

/// The stream under `key`: `MissingField` without the key.
pub open spec fn spec_get_stream(doc: Document, dict: Dictionary, key: Seq<u8>) -> Result<
    Stream,
    Failure,
> {
    match dict.spec_get(key) {
        None => Err(Failure::MissingField(key)),
        Some(o) => spec_as_stream(doc, o),
    }
}

/// The stream under `key`: `MissingField` without the key, an error when the
/// value is no stream.
pub fn get_stream<'a>(doc: &'a Document, dict: &'a Dictionary, key: &[u8]) -> (r: PdfResult<
    &'a Stream,
>)
    ensures
        agrees_ref(r, spec_get_stream(*doc, *dict, key@)),
{
    let o = dict.require(key)?;
    to_stream(doc, o)
}

/// The numbers of `items`, when every item is a number.
pub open spec fn spec_numbers(items: Seq<Object>) -> Result<Seq<Number>, Failure> {
    if forall|i: int| 0 <= i < items.len() ==> (#[trigger] items[i]).spec_as_num() is Ok {
        Ok(Seq::new(items.len(), |i: int| items[i].spec_as_num()->Ok_0))
    } else {
        Err(Failure::InvalidStructure)
    }
}

/// The numbers of the array that `obj` is or refers to.
pub open spec fn spec_as_numbers(doc: Document, obj: Object) -> Result<Seq<Number>, Failure> {
    match spec_maybe_deref(doc, obj) {
        Ok(Object::Array(a)) => spec_numbers(a@),
        Ok(_) => Err(Failure::InvalidStructure),
        Err(e) => Err(e),
    }
}

/// Whether a vector result is the sequence a contract names.
pub open spec fn agrees_seq<T>(r: PdfResult<Vec<T>>, want: Result<Seq<T>, Failure>) -> bool {
    match r {
        Ok(v) => want == Ok::<Seq<T>, Failure>(v@),
        Err(e) => want == Err::<Seq<T>, Failure>(e.kind()),
    }
}

/// The numbers of a slice of objects; `InvalidStructure` when one of them is
/// not a number.
pub fn numbers_of(items: &[Object]) -> (r: PdfResult<Vec<Number>>)
    ensures
        agrees_seq(r, spec_numbers(items@)),
{
    let mut out: Vec<Number> = Vec::new();
    let mut i: usize = 0;
    while i < items.len()
        invariant
            0 <= i <= items@.len(),
            out@.len() == i,
            forall|j: int| 0 <= j < i ==> (#[trigger] items@[j]).spec_as_num() == Ok::<Number, Failure>(out@[j]),
        decreases items@.len() - i,
    {
        let n = as_num(&items[i])?;
        out.push(n);
        i += 1;
    }
    proof {
        assert(out@ =~= Seq::new(items@.len(), |i: int| items@[i].spec_as_num()->Ok_0));
    }
    Ok(out)
}

/// The numbers of the array that `obj` is or refers to; `InvalidStructure`
/// when it is no array or holds something that is not a number.
pub fn to_numbers(doc: &Document, obj: &Object) -> (r: PdfResult<Vec<Number>>)
    ensures
        agrees_seq(r, spec_as_numbers(*doc, *obj)),
{
    match maybe_deref(doc, obj)? {
        Object::Array(a) => numbers_of(a.as_slice()),
        _ => Err(PdfError::invalid("Expected array")),
    }
}

/// The objects that `items` are or refer to, when every reference resolves.
pub open spec fn spec_objects(doc: Document, items: Seq<Object>) -> Result<Seq<Object>, Failure> {
    if forall|i: int| 0 <= i < items.len() ==> spec_maybe_deref(doc, #[trigger] items[i]) is Ok {
        Ok(Seq::new(items.len(), |i: int| spec_maybe_deref(doc, items[i])->Ok_0))
    } else {
        Err(Failure::Parse)
    }
}

/// The dereferenced elements of the array that `obj` is or refers to.
pub open spec fn spec_as_objects(doc: Document, obj: Object) -> Result<Seq<Object>, Failure> {
    match spec_maybe_deref(doc, obj) {
        Ok(Object::Array(a)) => spec_objects(doc, a@),
        Ok(_) => Err(Failure::InvalidStructure),
        Err(e) => Err(e),
    }
}

/// Whether a vector of borrows is the sequence a contract names.
pub open spec fn agrees_refs<T>(r: PdfResult<Vec<&T>>, want: Result<Seq<T>, Failure>) -> bool {
    match r {
        Ok(v) => want == Ok::<Seq<T>, Failure>(Seq::new(v@.len(), |i: int| *v@[i])),
        Err(e) => want == Err::<Seq<T>, Failure>(e.kind()),
    }
}

/// The objects that `items` are or refer to; a `Parse` error when a reference
/// among them resolves to nothing.
pub fn objects_of<'a>(doc: &'a Document, items: &'a [Object]) -> (r: PdfResult<Vec<&'a Object>>)
    ensures
        agrees_refs(r, spec_objects(*doc, items@)),
{
    let mut out: Vec<&'a Object> = Vec::new();
    let mut i: usize = 0;
    while i < items.len()
        invariant
            0 <= i <= items@.len(),
            out@.len() == i,
            forall|j: int|
                0 <= j < i ==> spec_maybe_deref(*doc, #[trigger] items@[j]) == Ok::<
                    Object,
                    Failure,
                >(*out@[j]),
        decreases items@.len() - i,
    {
        let o: &'a Object = match maybe_deref(doc, &items[i]) {
            Ok(o) => o,
            Err(e) => {
                assert(spec_maybe_deref(*doc, items@[i as int]) is Err);
                assert(e.kind() == Failure::Parse);
                return Err(e);
            },
        };
        out.push(o);
        i += 1;
    }
    proof {
        assert(Seq::new(out@.len(), |i: int| *out@[i]) =~= Seq::new(
            items@.len(),
            |i: int| spec_maybe_deref(*doc, items@[i])->Ok_0,
        ));
    }
    Ok(out)
}

/// The dereferenced elements of the array that `obj` is or refers to.
pub fn to_objects<'a>(doc: &'a Document, obj: &'a Object) -> (r: PdfResult<Vec<&'a Object>>)
    ensures
        agrees_refs(r, spec_as_objects(*doc, *obj)),
{
    match maybe_deref(doc, obj)? {
        Object::Array(a) => objects_of(doc, a.as_slice()),
        _ => Err(PdfError::invalid("Expected array")),
    }
}

/// The integer under `key`, when there is one.
pub open spec fn spec_maybe_get_i64(doc: Document, dict: Dictionary, key: Seq<u8>) -> Option<i64> {
    match spec_maybe_get_obj(doc, dict, key) {
        Some(Object::Integer(i)) => Some(i),
        _ => None,
    }
}

/// The integer under `key`, when there is one.
pub fn maybe_get_i64(doc: &Document, dict: &Dictionary, key: &[u8]) -> (r: Option<i64>)
    ensures
        r == spec_maybe_get_i64(*doc, *dict, key@),
{
    match maybe_get_obj(doc, dict, key) {
        Some(Object::Integer(i)) => Some(*i),
        _ => None,
    }
}

/// The numbers of the array under `key`, when there is one of numbers only.
pub open spec fn spec_maybe_get_numbers(doc: Document, dict: Dictionary, key: Seq<u8>) -> Option<
    Seq<Number>,
> {
    match spec_maybe_get_obj(doc, dict, key) {
        Some(o) => match spec_as_numbers(doc, o) {
            Ok(v) => Some(v),
            Err(_) => None,
        },
        None => None,
    }
}

/// The numbers of the array under `key`, when there is one of numbers only.
pub fn maybe_get_numbers(doc: &Document, dict: &Dictionary, key: &[u8]) -> (r: Option<Vec<Number>>)
    ensures
        match r {
            Some(v) => spec_maybe_get_numbers(*doc, *dict, key@) == Some(v@),
            None => spec_maybe_get_numbers(*doc, *dict, key@) is None,
        },
{
    match maybe_get_obj(doc, dict, key) {
        Some(o) => match to_numbers(doc, o) {
            Ok(v) => Some(v),
            Err(_) => None,
        },
        None => None,
    }
}

/// The integers of `items`, when every item is an integer.
pub open spec fn spec_integers(items: Seq<Object>) -> Result<Seq<i64>, Failure> {
    if forall|i: int| 0 <= i < items.len() ==> (#[trigger] items[i]) is Integer {
        Ok(Seq::new(items.len(), |i: int| items[i]->Integer_0))
    } else {
        Err(Failure::InvalidStructure)
    }
}

/// The integers of the array that `obj` is or refers to.
pub open spec fn spec_as_integers(doc: Document, obj: Object) -> Result<Seq<i64>, Failure> {
    match spec_maybe_deref(doc, obj) {
        Ok(Object::Array(a)) => spec_integers(a@),
        Ok(_) => Err(Failure::InvalidStructure),
        Err(e) => Err(e),
    }
}

/// The integers of a slice of objects; `InvalidStructure` when one of them is
/// not an integer.
pub fn integers_of(items: &[Object]) -> (r: PdfResult<Vec<i64>>)
    ensures
        agrees_seq(r, spec_integers(items@)),
{
    let mut out: Vec<i64> = Vec::new();
    let mut i: usize = 0;
    while i < items.len()
        invariant
            0 <= i <= items@.len(),
            out@.len() == i,
            forall|j: int| 0 <= j < i ==> (#[trigger] items@[j]) == Object::Integer(out@[j]),
        decreases items@.len() - i,
    {
        let n: i64 = match as_i64(&items[i]) {
            Ok(n) => n,
            Err(e) => {
                assert(!(items@[i as int] is Integer));
                return Err(e);
            },
        };
        out.push(n);
        i += 1;
    }
    proof {
        assert(out@ =~= Seq::new(items@.len(), |i: int| items@[i]->Integer_0));
    }
    Ok(out)
}

/// The integers of the array that `obj` is or refers to; `InvalidStructure`
/// when it is no array or holds something that is not an integer.
pub fn to_integers(doc: &Document, obj: &Object) -> (r: PdfResult<Vec<i64>>)
    ensures
        agrees_seq(r, spec_as_integers(*doc, *obj)),
{
    match maybe_deref(doc, obj)? {
        Object::Array(a) => integers_of(a.as_slice()),
        _ => Err(PdfError::invalid("Expected array")),
    }
}

/// The text of the name under `key`.
pub open spec fn spec_name_string(doc: Document, dict: Dictionary, key: Seq<u8>) -> Result<
    Seq<char>,
    Failure,
> {
    match dict.spec_get(key) {
        None => Err(Failure::MissingField(key)),
        Some(o) => match spec_maybe_deref(doc, o) {
            Err(e) => Err(e),
            Ok(Object::Name(n)) => match spec_pdf_to_utf8(n@) {
                Some(t) => Ok(t),
                None => Err(Failure::EncodingError),
            },
            Ok(_) => Err(Failure::InvalidStructure),
        },
    }
}

/// Whether a string result is the text a contract names.
pub open spec fn agrees_text(r: PdfResult<String>, want: Result<Seq<char>, Failure>) -> bool {
    match r {
        Ok(v) => want == Ok::<Seq<char>, Failure>(v@),
        Err(e) => want == Err::<Seq<char>, Failure>(e.kind()),
    }
}

/// The text of the name under `key`: `MissingField` without the key,
/// `InvalidStructure` when the value is no name.
pub fn get_name_string(doc: &Document, dict: &Dictionary, key: &[u8]) -> (r: PdfResult<String>)
    ensures
        agrees_text(r, spec_name_string(*doc, *dict, key@)),
{
    let o = dict.require(key)?;
    match maybe_deref(doc, o)? {
        Object::Name(n) => pdf_to_utf8(n.as_slice()),
        _ => Err(PdfError::invalid("Expected name")),
    }
}

/// The bytes of the name under `key`, when there is one.
pub open spec fn spec_maybe_get_name(doc: Document, dict: Dictionary, key: Seq<u8>) -> Option<
    Seq<u8>,
> {
    match spec_maybe_get_obj(doc, dict, key) {
        Some(Object::Name(n)) => Some(n@),
        _ => None,
    }
}

/// The bytes of the name under `key`, when there is one.
pub fn maybe_get_name<'a>(doc: &'a Document, dict: &'a Dictionary, key: &[u8]) -> (r: Option<
    &'a [u8],
>)
    ensures
        match r {
            Some(n) => spec_maybe_get_name(*doc, *dict, key@) == Some(n@),
            None => spec_maybe_get_name(*doc, *dict, key@) is None,
        },
{
    match maybe_get_obj(doc, dict, key) {
        Some(Object::Name(n)) => Some(n.as_slice()),
        _ => None,
    }
}

/// The text of the name under `key`, when there is one and it decodes.
pub fn maybe_get_name_string(doc: &Document, dict: &Dictionary, key: &[u8]) -> (r: Option<String>)
    ensures
        match r {
            Some(t) => spec_name_string(*doc, *dict, key@) == Ok::<Seq<char>, Failure>(t@),
            None => spec_name_string(*doc, *dict, key@) is Err,
        },
{
    match get_name_string(doc, dict, key) {
        Ok(t) => Some(t),
        Err(_) => None,
    }
}

/// The array under `key`, when there is one.
pub open spec fn spec_maybe_get_array(doc: Document, dict: Dictionary, key: Seq<u8>) -> Option<
    Seq<Object>,
> {
    match spec_maybe_get_obj(doc, dict, key) {
        Some(Object::Array(a)) => Some(a@),
        _ => None,
    }
}

/// The array under `key`, when there is one.
pub fn maybe_get_array<'a>(doc: &'a Document, dict: &'a Dictionary, key: &[u8]) -> (r: Option<
    &'a Vec<Object>,
>)
    ensures
        match r {
            Some(a) => spec_maybe_get_array(*doc, *dict, key@) == Some(a@),
            None => spec_maybe_get_array(*doc, *dict, key@) is None,
        },
{
    match maybe_get_obj(doc, dict, key) {
        Some(Object::Array(a)) => Some(a),
        _ => None,
    }
}

} // verus!
