//! The object graph of a parsed document: numbers, names, strings, arrays,
//! dictionaries, streams and references, with the lookups the rest of the
//! library is built on.

use vstd::prelude::*;
use crate::error::{Failure, PdfError, PdfResult};

verus! {

/// The identifier of an indirect object: object number and generation.
pub type ObjectId = (u32, u16);

/// A number as it is written in a document. Real numbers are carried by the
/// bit pattern of their single-precision value and never computed with here.
#[derive(Clone, Copy, Debug, PartialEq, Eq, Structural)]
pub enum Number {
    Integer(i64),
    Real(u32),
}

/// How a string object was written.
#[derive(Clone, Copy, Debug, PartialEq, Eq, Structural)]
pub enum StringFormat {
    Literal,
    Hexadecimal,
}

/// One object of a document.
#[derive(Debug)]
pub enum Object {
    Null,
    Boolean(bool),
    Integer(i64),
    Real(u32),
    Name(Vec<u8>),
    Str(Vec<u8>, StringFormat),
    Array(Vec<Object>),
    Dictionary(Dictionary),
    Stream(Stream),
    Reference(ObjectId),
}

/// A dictionary: entries in the order of the file. A key is looked up by its
/// first entry.
#[derive(Debug)]
pub struct Dictionary {
    pub entries: Vec<(Vec<u8>, Object)>,
}

/// A stream: its dictionary, its bytes as stored, and its bytes with the
/// stream's filters undone where that succeeded.
#[derive(Debug)]
pub struct Stream {
    pub dict: Dictionary,
    pub content: Vec<u8>,
    pub decoded: Option<Vec<u8>>,
}

/// A document: its indirect objects by identifier, its trailer, and its pages
/// in reading order.
#[derive(Debug)]
pub struct Document {
    pub version: String,
    pub trailer: Dictionary,
    pub objects: Vec<(ObjectId, Object)>,
    pub pages: Vec<ObjectId>,
    pub encrypted: bool,
}

/// Whether two byte strings are equal.
pub fn bytes_eq(a: &[u8], b: &[u8]) -> (r: bool)
    ensures
        r == (a@ == b@),
{
    if a.len() != b.len() {
        return false;
    }
    let mut i: usize = 0;
    while i < a.len()
        invariant
            a@.len() == b@.len(),
            0 <= i <= a@.len(),
            a@.take(i as int) == b@.take(i as int),
        decreases a@.len() - i,
    {
        if a[i] != b[i] {
            return false;
        }
        i += 1;
        proof {
            assert(a@.take(i as int) =~= a@.take(i - 1).push(a@[i - 1]));
            assert(b@.take(i as int) =~= b@.take(i - 1).push(b@[i - 1]));
        }
    }
    proof {
        assert(a@.take(i as int) =~= a@);
        assert(b@.take(i as int) =~= b@);
    }
    true
}

/// The value of the first of `entries` whose key is `key`.
pub open spec fn lookup(entries: Seq<(Vec<u8>, Object)>, key: Seq<u8>) -> Option<Object>
    decreases entries.len(),
{
    if entries.len() == 0 {
        None
    } else if entries[0].0@ == key {
        Some(entries[0].1)
    } else {
        lookup(entries.skip(1), key)
    }
}

/// The first of `objects` whose identifier is `id`.
pub open spec fn find_object(objects: Seq<(ObjectId, Object)>, id: ObjectId) -> Option<Object>
    decreases objects.len(),
{
    if objects.len() == 0 {
        None
    } else if objects[0].0 == id {
        Some(objects[0].1)
    } else {
        find_object(objects.skip(1), id)
    }
}

impl Dictionary {
    /// A dictionary without entries.
    pub fn new() -> (d: Dictionary)
        ensures
            d.entries@.len() == 0,
    {
        Dictionary { entries: Vec::new() }
    }

    /// The value stored under `key`, if any.
    pub open spec fn spec_get(self, key: Seq<u8>) -> Option<Object> {
        lookup(self.entries@, key)
    }

    /// The value stored under `key`, if any.
    pub fn get(&self, key: &[u8]) -> (r: Option<&Object>)
        ensures
            match r {
                Some(o) => self.spec_get(key@) == Some(*o),
                None => self.spec_get(key@) is None,
            },
    {
        let mut i: usize = 0;
        assert(self.entries@.skip(0) =~= self.entries@);
        while i < self.entries.len()
            invariant
                0 <= i <= self.entries@.len(),
                lookup(self.entries@, key@) == lookup(self.entries@.skip(i as int), key@),
            decreases self.entries@.len() - i,
        {
            if bytes_eq(self.entries[i].0.as_slice(), key) {
                return Some(&self.entries[i].1);
            }
            proof {
                assert(self.entries@.skip(i as int).skip(1) =~= self.entries@.skip(i + 1));
            }
            i += 1;
        }
        None
    }

    /// The value stored under `key`, or the error that names the missing key.
    pub open spec fn spec_require(self, key: Seq<u8>) -> Result<Object, Failure> {
        match self.spec_get(key) {
            Some(o) => Ok(o),
            None => Err(Failure::MissingField(key)),
        }
    }

    /// The value stored under `key`; `MissingField` when there is none.
    pub fn require(&self, key: &[u8]) -> (r: PdfResult<&Object>)
        ensures
            match r {
                Ok(o) => self.spec_require(key@) == Ok::<Object, Failure>(*o),
                Err(e) => self.spec_require(key@) == Err::<Object, Failure>(e.kind()),
            },
    {
        match self.get(key) {
            Some(o) => Ok(o),
            None => Err(PdfError::missing(key)),
        }
    }
}

impl Object {
    /// The object as a number, when it is an integer or a real.
    pub open spec fn spec_as_num(self) -> Result<Number, Failure> {
        match self {
            Object::Integer(i) => Ok(Number::Integer(i)),
            Object::Real(bits) => Ok(Number::Real(bits)),
            _ => Err(Failure::InvalidStructure),
        }
    }

    /// The object as an integer.
    pub open spec fn spec_as_i64(self) -> Result<i64, Failure> {
        match self {
            Object::Integer(i) => Ok(i),
            _ => Err(Failure::InvalidStructure),
        }
    }

    /// The bytes of a name object.
    pub open spec fn spec_as_name(self) -> Option<Seq<u8>> {
        match self {
            Object::Name(n) => Some(n@),
            _ => None,
        }
    }

    /// The bytes of a name object.
    pub fn as_name(&self) -> (r: Option<&[u8]>)
        ensures
            match r {
                Some(n) => self.spec_as_name() == Some(n@),
                None => self.spec_as_name() is None,
            },
    {
        match self {
            Object::Name(n) => Some(n.as_slice()),
            _ => None,
        }
    }

    /// The elements of an array object.
    pub fn as_array(&self) -> (r: Option<&Vec<Object>>)
        ensures
            match r {
                Some(a) => *self == Object::Array(*a),
                None => !(self is Array),
            },
    {
        match self {
            Object::Array(a) => Some(a),
            _ => None,
        }
    }

    /// The dictionary of a dictionary object.
    pub fn as_dict(&self) -> (r: Option<&Dictionary>)
        ensures
            match r {
                Some(d) => *self == Object::Dictionary(*d),
                None => !(self is Dictionary),
            },
    {
        match self {
            Object::Dictionary(d) => Some(d),
            _ => None,
        }
    }

    /// The stream of a stream object.
    pub fn as_stream(&self) -> (r: Option<&Stream>)
        ensures
            match r {
                Some(s) => *self == Object::Stream(*s),
                None => !(self is Stream),
            },
    {
        match self {
            Object::Stream(s) => Some(s),
            _ => None,
        }
    }

    /// The target of a reference object.
    pub fn as_reference(&self) -> (r: Option<ObjectId>)
        ensures
            match r {
                Some(id) => *self == Object::Reference(id),
                None => !(self is Reference),
            },
    {
        match self {
            Object::Reference(id) => Some(*id),
            _ => None,
        }
    }
}

impl Stream {
    /// The bytes to read the stream by: decoded where decoding succeeded, as
    /// stored otherwise.
    pub open spec fn spec_contents(self) -> Seq<u8> {
        match self.decoded {
            Some(d) => d@,
            None => self.content@,
        }
    }

    /// The bytes to read the stream by: decoded where decoding succeeded, as
    /// stored otherwise.
    pub fn contents(&self) -> (r: &[u8])
        ensures
            r@ == self.spec_contents(),
    {
        match &self.decoded {
            Some(d) => d.as_slice(),
            None => self.content.as_slice(),
        }
    }
}

impl Document {
    /// The object with identifier `id`.
    pub open spec fn spec_get_object(self, id: ObjectId) -> Result<Object, Failure> {
        match find_object(self.objects@, id) {
            Some(o) => Ok(o),
            None => Err(Failure::Parse),
        }
    }

    /// The object with identifier `id`; a `Parse` error when the document
    /// holds none.
    pub fn get_object(&self, id: ObjectId) -> (r: PdfResult<&Object>)
        ensures
            match r {
                Ok(o) => self.spec_get_object(id) == Ok::<Object, Failure>(*o),
                Err(e) => self.spec_get_object(id) == Err::<Object, Failure>(e.kind()),
            },
    {
        let mut i: usize = 0;
        assert(self.objects@.skip(0) =~= self.objects@);
        while i < self.objects.len()
            invariant
                0 <= i <= self.objects@.len(),
                find_object(self.objects@, id) == find_object(self.objects@.skip(i as int), id),
            decreases self.objects@.len() - i,
        {
            if self.objects[i].0.0 == id.0 && self.objects[i].0.1 == id.1 {
                return Ok(&self.objects[i].1);
            }
            proof {
                assert(self.objects@.skip(i as int).skip(1) =~= self.objects@.skip(i + 1));
            }
            i += 1;
        }
        Err(PdfError::parse("object not found"))
    }

    /// The dictionary with identifier `id`.
    pub open spec fn spec_get_dictionary(self, id: ObjectId) -> Option<Dictionary> {
        match find_object(self.objects@, id) {
            Some(Object::Dictionary(d)) => Some(d),
            _ => None,
        }
    }

    /// The dictionary with identifier `id`, if the document holds one.
    pub fn get_dictionary(&self, id: ObjectId) -> (r: Option<&Dictionary>)
        ensures
            match r {
                Some(d) => self.spec_get_dictionary(id) == Some(*d),
                None => self.spec_get_dictionary(id) is None,
            },
    {
        match self.get_object(id) {
            Ok(Object::Dictionary(d)) => Some(d),
            _ => None,
        }
    }
}

} // verus!
