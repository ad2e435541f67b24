//! Functions as colour spaces refer to them: kept with their parameters,
//! never evaluated.

use vstd::prelude::*;
use vstd::string::StringSliceAdditionalSpecFns;
use crate::document_utils::{get_numbers, spec_get_numbers};
use crate::error::{Failure, PdfError, PdfResult};
use crate::object::{Dictionary, Document, Number, Object};
use crate::object_utils::{
    as_i64, as_num, spec_as_integers, spec_as_numbers, to_integers, to_numbers,
};

verus! {

/// A sampled function.
#[derive(Debug)]
pub struct Type0Func {
    pub domain: Vec<Number>,
    pub range: Vec<Number>,
    pub contents: Vec<u8>,
    pub size: Vec<i64>,
    pub bits_per_sample: i64,
    pub encode: Vec<Number>,
    pub decode: Vec<Number>,
}

/// An exponential interpolation function.
#[derive(Debug)]
pub struct Type2Func {
    pub c0: Option<Vec<Number>>,
    pub c1: Option<Vec<Number>>,
    pub n: Number,
}

/// A function of one of the four types.
#[derive(Debug)]
pub enum Function {
    Type0(Type0Func),
    Type2(Type2Func),
    Type3,
    /// A calculator function: its program, unread.
    Type4(Vec<u8>),
}

/// What a function is, as contracts see it.
pub enum FunctionModel {
    Type0 {
        domain: Seq<Number>,
        range: Seq<Number>,
        contents: Seq<u8>,
        size: Seq<i64>,
        bits_per_sample: i64,
        encode: Seq<Number>,
        decode: Seq<Number>,
    },
    Type2 { c0: Option<Seq<Number>>, c1: Option<Seq<Number>>, n: Number },
    Type3,
    Type4(Seq<u8>),
}

/// The numbers of an optional vector.
pub open spec fn opt_view(v: Option<Vec<Number>>) -> Option<Seq<Number>> {
    match v {
        Some(x) => Some(x@),
        None => None,
    }
}

impl View for Function {
    type V = FunctionModel;

    open spec fn view(&self) -> FunctionModel {
        match self {
            Function::Type0(f) => FunctionModel::Type0 {
                domain: f.domain@,
                range: f.range@,
                contents: f.contents@,
                size: f.size@,
                bits_per_sample: f.bits_per_sample,
                encode: f.encode@,
                decode: f.decode@,
            },
            Function::Type2(f) => FunctionModel::Type2 {
                c0: opt_view(f.c0),
                c1: opt_view(f.c1),
                n: f.n,
            },
            Function::Type3 => FunctionModel::Type3,
            Function::Type4(p) => FunctionModel::Type4(p@),
        }
    }
}

/// The numbers under `key`, `None` without the key.
pub open spec fn spec_opt_numbers(doc: Document, dict: Dictionary, key: Seq<u8>) -> Result<
    Option<Seq<Number>>,
    Failure,
> {
    match dict.spec_get(key) {
        None => Ok(None),
        Some(o) => match spec_as_numbers(doc, o) {
            Ok(v) => Ok(Some(v)),
            Err(e) => Err(e),
        },
    }
}

/// The numbers under `key`, `None` without the key; an error when the value
/// is no array of numbers.
pub fn opt_numbers(doc: &Document, dict: &Dictionary, key: &[u8]) -> (r: PdfResult<
    Option<Vec<Number>>,
>)
    ensures
        match r {
            Ok(v) => spec_opt_numbers(*doc, *dict, key@) == Ok::<Option<Seq<Number>>, Failure>(
                opt_view(v),
            ),
            Err(e) => spec_opt_numbers(*doc, *dict, key@) == Err::<Option<Seq<Number>>, Failure>(
                e.kind(),
            ),
        },
{
    match dict.get(key) {
        None => Ok(None),
        Some(o) => {
            let v = to_numbers(doc, o)?;
            Ok(Some(v))
        },
    }
}

/// The integer under `key`: the entry must be there and be an integer itself.
pub open spec fn spec_get_i64(dict: Dictionary, key: Seq<u8>) -> Result<i64, Failure> {
    match dict.spec_get(key) {
        None => Err(Failure::MissingField(key)),
        Some(o) => o.spec_as_i64(),
    }
}

/// The integer under `key`: `MissingField` without the key,
/// `InvalidStructure` when the value is no integer.
pub fn get_i64(dict: &Dictionary, key: &[u8]) -> (r: PdfResult<i64>)
    ensures
        crate::error::agrees(r, spec_get_i64(*dict, key@)),
{
    let o = dict.require(key)?;
    as_i64(o)
}

/// The number under `key`: the entry must be there and be a number itself.
pub open spec fn spec_get_number(dict: Dictionary, key: Seq<u8>) -> Result<Number, Failure> {
    match dict.spec_get(key) {
        None => Err(Failure::MissingField(key)),
        Some(o) => o.spec_as_num(),
    }
}

/// The number under `key`: `MissingField` without the key, `InvalidStructure`
/// when the value is no number.
pub fn get_number(dict: &Dictionary, key: &[u8]) -> (r: PdfResult<Number>)
    ensures
        crate::error::agrees(r, spec_get_number(*dict, key@)),
{
    let o = dict.require(key)?;
    as_num(o)
}

/// The integers under `key`: the entry must be an array of integers.
pub open spec fn spec_get_integers(doc: Document, dict: Dictionary, key: Seq<u8>) -> Result<
    Seq<i64>,
    Failure,
> {
    match dict.spec_get(key) {
        None => Err(Failure::MissingField(key)),
        Some(o) => spec_as_integers(doc, o),
    }
}

/// The default `Encode` of a sampled function: for each size `s` the pair
/// `0`, `s - 1`.
pub open spec fn default_encode(size: Seq<i64>) -> Seq<Number> {
    Seq::new(
        2 * size.len(),
        |i: int|
            if i % 2 == 0 {
                Number::Real(0)
            } else {
                Number::Integer(size[i / 2].wrapping_sub(1))
            },
    )
}

/// The default `Encode` of a sampled function.
pub fn make_default_encode(size: &Vec<i64>) -> (r: Vec<Number>)
    ensures
        r@ == default_encode(size@),
{
    let mut out: Vec<Number> = Vec::new();
    let mut i: usize = 0;
    while i < size.len()
        invariant
            0 <= i <= size@.len(),
            out@.len() == 2 * i,
            forall|k: int| 0 <= k < 2 * i ==> #[trigger] out@[k] == default_encode(size@)[k],
        decreases size@.len() - i,
    {
        out.push(Number::Real(0));
        out.push(Number::Integer(size[i].wrapping_sub(1)));
        i += 1;
    }
    assert(out@ =~= default_encode(size@));
    out
}

/// A copy of a vector of numbers.
pub fn copy_numbers(v: &Vec<Number>) -> (r: Vec<Number>)
    ensures
        r@ == v@,
{
    let mut out: Vec<Number> = Vec::new();
    let mut i: usize = 0;
    while i < v.len()
        invariant
            0 <= i <= v@.len(),
            out@ == v@.take(i as int),
        decreases v@.len() - i,
    {
        out.push(v[i]);
        i += 1;
        assert(out@ =~= v@.take(i as int));
    }
    assert(v@.take(i as int) =~= v@);
    out
}

/// The sampled function of a stream's dictionary and contents.
pub open spec fn spec_type0(doc: Document, dict: Dictionary, contents: Seq<u8>) -> Result<
    FunctionModel,
    Failure,
> {
    match spec_get_numbers(doc, dict, "Range".spec_bytes()) {
        Err(e) => Err(e),
        Ok(range) => match spec_get_numbers(doc, dict, "Domain".spec_bytes()) {
            Err(e) => Err(e),
            Ok(domain) => match spec_get_integers(doc, dict, "Size".spec_bytes()) {
                Err(e) => Err(e),
                Ok(size) => match spec_get_i64(dict, "BitsPerSample".spec_bytes()) {
                    Err(e) => Err(e),
                    Ok(bits_per_sample) => match spec_opt_numbers(
                        doc,
                        dict,
                        "Encode".spec_bytes(),
                    ) {
                        Err(e) => Err(e),
                        Ok(encode) => match spec_opt_numbers(doc, dict, "Decode".spec_bytes()) {
                            Err(e) => Err(e),
                            Ok(decode) => Ok(
                                FunctionModel::Type0 {
                                    domain,
                                    range,
                                    contents,
                                    size,
                                    bits_per_sample,
                                    encode: match encode {
                                        Some(v) => v,
                                        None => default_encode(size),
                                    },
                                    decode: match decode {
                                        Some(v) => v,
                                        None => range,
                                    },
                                },
                            ),
                        },
                    },
                },
            },
        },
    }
}

/// The exponential function of a dictionary.
pub open spec fn spec_type2(doc: Document, dict: Dictionary) -> Result<FunctionModel, Failure> {
    match spec_opt_numbers(doc, dict, "C0".spec_bytes()) {
        Err(e) => Err(e),
        Ok(c0) => match spec_opt_numbers(doc, dict, "C1".spec_bytes()) {
            Err(e) => Err(e),
            Ok(c1) => match spec_get_number(dict, "N".spec_bytes()) {
                Err(e) => Err(e),
                Ok(n) => Ok(FunctionModel::Type2 { c0, c1, n }),
            },
        },
    }
}

/// The function that `obj` describes: a dictionary or a stream whose
/// `FunctionType` is 0, 2, 3 or 4; types 0 and 4 must be streams.
pub open spec fn spec_function(doc: Document, obj: Object) -> Result<FunctionModel, Failure> {
    match obj {
        Object::Dictionary(dict) => match spec_get_i64(dict, "FunctionType".spec_bytes()) {
            Err(e) => Err(e),
            Ok(t) => if t == 2 {
                spec_type2(doc, dict)
            } else if t == 3 {
                Ok(FunctionModel::Type3)
            } else {
                Err(Failure::InvalidStructure)
            },
        },
        Object::Stream(s) => match spec_get_i64(s.dict, "FunctionType".spec_bytes()) {
            Err(e) => Err(e),
            Ok(t) => if t == 0 {
                spec_type0(doc, s.dict, s.spec_contents())
            } else if t == 2 {
                spec_type2(doc, s.dict)
            } else if t == 3 {
                Ok(FunctionModel::Type3)
            } else if t == 4 {
                Ok(FunctionModel::Type4(s.spec_contents()))
            } else {
                Err(Failure::InvalidStructure)
            },
        },
        _ => Err(Failure::InvalidStructure),
    }
}

/// Whether a function result is the model a contract names.
pub open spec fn agrees_function(r: PdfResult<Function>, want: Result<FunctionModel, Failure>) -> bool {
    match r {
        Ok(f) => want == Ok::<FunctionModel, Failure>(f@),
        Err(e) => want == Err::<FunctionModel, Failure>(e.kind()),
    }
}

/// The exponential function of a dictionary.
fn type2(doc: &Document, dict: &Dictionary) -> (r: PdfResult<Function>)
    ensures
        agrees_function(r, spec_type2(*doc, *dict)),
{
    let c0 = opt_numbers(doc, dict, "C0".as_bytes())?;
    let c1 = opt_numbers(doc, dict, "C1".as_bytes())?;
    let n = get_number(dict, "N".as_bytes())?;
    Ok(Function::Type2(Type2Func { c0, c1, n }))
}

/// The sampled function of a stream's dictionary and contents.
fn type0(doc: &Document, dict: &Dictionary, contents: &[u8]) -> (r: PdfResult<Function>)
    ensures
        agrees_function(r, spec_type0(*doc, *dict, contents@)),
{
    let range = get_numbers(doc, dict, "Range".as_bytes())?;
    let domain = get_numbers(doc, dict, "Domain".as_bytes())?;
    let size = to_integers(doc, dict.require("Size".as_bytes())?)?;
    let bits_per_sample = get_i64(dict, "BitsPerSample".as_bytes())?;
    let encode = match opt_numbers(doc, dict, "Encode".as_bytes())? {
        Some(v) => v,
        None => make_default_encode(&size),
    };
    let decode = match opt_numbers(doc, dict, "Decode".as_bytes())? {
        Some(v) => v,
        None => copy_numbers(&range),
    };
    Ok(
        Function::Type0(
            Type0Func {
                domain,
                range,
                contents: vstd::slice::slice_to_vec(contents),
                size,
                bits_per_sample,
                encode,
                decode,
            },
        ),
    )
}

impl Function {
    /// The function that `obj` describes. `InvalidStructure` when `obj` is
    /// neither a dictionary nor a stream, when the type is not 0, 2, 3 or 4,
    /// or when a function of type 0 or 4 is no stream.
    pub fn new(doc: &Document, obj: &Object) -> (r: PdfResult<Function>)
        ensures
            agrees_function(r, spec_function(*doc, *obj)),
    {
        match obj {
            Object::Dictionary(dict) => {
                let t = get_i64(dict, "FunctionType".as_bytes())?;
                if t == 2 {
                    type2(doc, dict)
                } else if t == 3 {
                    Ok(Function::Type3)
                } else if t == 0 {
                    Err(PdfError::invalid("Type 0 function must be stream"))
                } else if t == 4 {
                    Err(PdfError::invalid("Type 4 function must be stream"))
                } else {
                    Err(PdfError::invalid("Unknown function type"))
                }
            },
            Object::Stream(s) => {
                let t = get_i64(&s.dict, "FunctionType".as_bytes())?;
                if t == 0 {
                    type0(doc, &s.dict, s.contents())
                } else if t == 2 {
                    type2(doc, &s.dict)
                } else if t == 3 {
                    Ok(Function::Type3)
                } else if t == 4 {
                    Ok(Function::Type4(vstd::slice::slice_to_vec(s.contents())))
                } else {
                    Err(PdfError::invalid("Unknown function type"))
                }
            },
            _ => Err(PdfError::invalid("Function must be dict or stream")),
        }
    }
}

} // verus!
