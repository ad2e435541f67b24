//! Colour spaces: classified and kept with their parameters, never evaluated.

use vstd::prelude::*;
use vstd::string::StringSliceAdditionalSpecFns;
use crate::document_utils::{get_numbers, spec_get_numbers};
use crate::error::{Failure, PdfError, PdfResult};
use crate::function::{
    get_number, opt_view, spec_function, spec_get_number, Function, FunctionModel,
};
use crate::object::{bytes_eq, Dictionary, Document, Number, Object};
use crate::object_utils::{
    get_dict, maybe_deref, maybe_get_obj, spec_get_dict, spec_maybe_deref, spec_maybe_get_obj,
};
use crate::string_utils::{pdf_to_utf8, spec_pdf_to_utf8};
use crate::tables::text_is;

verus! {

/// Three numbers.
pub type Triple = (Number, Number, Number);

/// Four numbers.
pub type Quad = (Number, Number, Number, Number);

/// A calibrated gray space.
#[derive(Clone, Copy, Debug)]
pub struct CalGray {
    pub white_point: Triple,
    pub black_point: Option<Triple>,
    pub gamma: Option<Number>,
}

/// A calibrated RGB space.
#[derive(Debug)]
pub struct CalRGB {
    pub white_point: Triple,
    pub black_point: Option<Triple>,
    pub gamma: Option<Triple>,
    pub matrix: Option<Vec<Number>>,
}

/// A CIE L*a*b* space.
#[derive(Clone, Copy, Debug)]
pub struct Lab {
    pub white_point: Triple,
    pub black_point: Option<Triple>,
    pub range: Option<Quad>,
}

/// The alternate space of a separation.
#[derive(Debug)]
pub enum AlternateColorSpace {
    DeviceGray,
    DeviceRGB,
    DeviceCMYK,
    CalRGB(CalRGB),
    CalGray(CalGray),
    Lab(Lab),
    ICCBased(Vec<u8>),
}

/// A separation: one colorant, the space to fall back on, and the function
/// from tint to that space.
#[derive(Debug)]
pub struct Separation {
    pub name: String,
    pub alternate_space: AlternateColorSpace,
    pub tint_transform: Box<Function>,
}

/// A colour space.
#[derive(Debug)]
pub enum ColorSpace {
    DeviceGray,
    DeviceRGB,
    DeviceCMYK,
    DeviceN,
    Pattern,
    CalRGB(CalRGB),
    CalGray(CalGray),
    Lab(Lab),
    Separation(Separation),
    ICCBased(Vec<u8>),
}

/// What a calibrated RGB space is, as contracts see it.
pub struct CalRGBModel {
    pub white_point: Triple,
    pub black_point: Option<Triple>,
    pub gamma: Option<Triple>,
    pub matrix: Option<Seq<Number>>,
}

/// What an alternate space is, as contracts see it.
pub enum AlternateModel {
    DeviceGray,
    DeviceRGB,
    DeviceCMYK,
    CalRGB(CalRGBModel),
    CalGray(CalGray),
    Lab(Lab),
    ICCBased(Seq<u8>),
}

/// What a colour space is, as contracts see it.
pub enum ColorSpaceModel {
    DeviceGray,
    DeviceRGB,
    DeviceCMYK,
    DeviceN,
    Pattern,
    CalRGB(CalRGBModel),
    CalGray(CalGray),
    Lab(Lab),
    Separation { name: Seq<char>, alternate_space: AlternateModel, tint_transform: FunctionModel },
    ICCBased(Seq<u8>),
}

impl View for CalRGB {
    type V = CalRGBModel;

    open spec fn view(&self) -> CalRGBModel {
        CalRGBModel {
            white_point: self.white_point,
            black_point: self.black_point,
            gamma: self.gamma,
            matrix: opt_view(self.matrix),
        }
    }
}

impl View for AlternateColorSpace {
    type V = AlternateModel;

    open spec fn view(&self) -> AlternateModel {
        match self {
            AlternateColorSpace::DeviceGray => AlternateModel::DeviceGray,
            AlternateColorSpace::DeviceRGB => AlternateModel::DeviceRGB,
            AlternateColorSpace::DeviceCMYK => AlternateModel::DeviceCMYK,
            AlternateColorSpace::CalRGB(c) => AlternateModel::CalRGB(c@),
            AlternateColorSpace::CalGray(c) => AlternateModel::CalGray(*c),
            AlternateColorSpace::Lab(c) => AlternateModel::Lab(*c),
            AlternateColorSpace::ICCBased(p) => AlternateModel::ICCBased(p@),
        }
    }
}

impl View for ColorSpace {
    type V = ColorSpaceModel;

    open spec fn view(&self) -> ColorSpaceModel {
        match self {
            ColorSpace::DeviceGray => ColorSpaceModel::DeviceGray,
            ColorSpace::DeviceRGB => ColorSpaceModel::DeviceRGB,
            ColorSpace::DeviceCMYK => ColorSpaceModel::DeviceCMYK,
            ColorSpace::DeviceN => ColorSpaceModel::DeviceN,
            ColorSpace::Pattern => ColorSpaceModel::Pattern,
            ColorSpace::CalRGB(c) => ColorSpaceModel::CalRGB(c@),
            ColorSpace::CalGray(c) => ColorSpaceModel::CalGray(*c),
            ColorSpace::Lab(c) => ColorSpaceModel::Lab(*c),
            ColorSpace::Separation(s) => ColorSpaceModel::Separation {
                name: s.name@,
                alternate_space: s.alternate_space@,
                tint_transform: (*s.tint_transform)@,
            },
            ColorSpace::ICCBased(p) => ColorSpaceModel::ICCBased(p@),
        }
    }
}

/// The three numbers under `key`: the array must hold exactly three.
pub open spec fn spec_triple(doc: Document, dict: Dictionary, key: Seq<u8>) -> Result<Triple, Failure> {
    match spec_get_numbers(doc, dict, key) {
        Err(e) => Err(e),
        Ok(v) => if v.len() == 3 {
            Ok((v[0], v[1], v[2]))
        } else {
            Err(Failure::InvalidStructure)
        },
    }
}

/// The three numbers under `key`.
pub fn get_triple(doc: &Document, dict: &Dictionary, key: &[u8]) -> (r: PdfResult<Triple>)
    ensures
        crate::error::agrees(r, spec_triple(*doc, *dict, key@)),
{
    let v = get_numbers(doc, dict, key)?;
    if v.len() == 3 {
        Ok((v[0], v[1], v[2]))
    } else {
        Err(PdfError::invalid("Expected array of length 3"))
    }
}

/// The four numbers under `key`: the array must hold exactly four.
pub open spec fn spec_quad(doc: Document, dict: Dictionary, key: Seq<u8>) -> Result<Quad, Failure> {
    match spec_get_numbers(doc, dict, key) {
        Err(e) => Err(e),
        Ok(v) => if v.len() == 4 {
            Ok((v[0], v[1], v[2], v[3]))
        } else {
            Err(Failure::InvalidStructure)
        },
    }
}

/// The four numbers under `key`.
pub fn get_quad(doc: &Document, dict: &Dictionary, key: &[u8]) -> (r: PdfResult<Quad>)
    ensures
        crate::error::agrees(r, spec_quad(*doc, *dict, key@)),
{
    let v = get_numbers(doc, dict, key)?;
    if v.len() == 4 {
        Ok((v[0], v[1], v[2], v[3]))
    } else {
        Err(PdfError::invalid("Expected array of length 4"))
    }
}

/// A result without its error.
pub open spec fn ok_of<T>(r: Result<T, Failure>) -> Option<T> {
    match r {
        Ok(v) => Some(v),
        Err(_) => None,
    }
}

/// The calibrated gray space of a dictionary: `WhitePoint` is required, the
/// rest is kept where it reads.
pub open spec fn spec_cal_gray(doc: Document, dict: Dictionary) -> Result<CalGray, Failure> {
    match spec_triple(doc, dict, "WhitePoint".spec_bytes()) {
        Err(e) => Err(e),
        Ok(white_point) => Ok(
            CalGray {
                white_point,
                black_point: ok_of(spec_triple(doc, dict, "BlackPoint".spec_bytes())),
                gamma: ok_of(spec_get_number(dict, "Gamma".spec_bytes())),
            },
        ),
    }
}

/// The calibrated gray space of a dictionary.
pub fn cal_gray(doc: &Document, dict: &Dictionary) -> (r: PdfResult<CalGray>)
    ensures
        crate::error::agrees(r, spec_cal_gray(*doc, *dict)),
{
    let white_point = get_triple(doc, dict, "WhitePoint".as_bytes())?;
    let black_point = match get_triple(doc, dict, "BlackPoint".as_bytes()) {
        Ok(t) => Some(t),
        Err(_) => None,
    };
    let gamma = match get_number(dict, "Gamma".as_bytes()) {
        Ok(t) => Some(t),
        Err(_) => None,
    };
    Ok(CalGray { white_point, black_point, gamma })
}

/// The calibrated RGB space of a dictionary: `WhitePoint` is required, the
/// rest is kept where it reads.
pub open spec fn spec_cal_rgb(doc: Document, dict: Dictionary) -> Result<CalRGBModel, Failure> {
    match spec_triple(doc, dict, "WhitePoint".spec_bytes()) {
        Err(e) => Err(e),
        Ok(white_point) => Ok(
            CalRGBModel {
                white_point,
                black_point: ok_of(spec_triple(doc, dict, "BlackPoint".spec_bytes())),
                gamma: ok_of(spec_triple(doc, dict, "Gamma".spec_bytes())),
                matrix: ok_of(spec_get_numbers(doc, dict, "Matrix".spec_bytes())),
            },
        ),
    }
}

/// The calibrated RGB space of a dictionary.
pub fn cal_rgb(doc: &Document, dict: &Dictionary) -> (r: PdfResult<CalRGB>)
    ensures
        match r {
            Ok(c) => spec_cal_rgb(*doc, *dict) == Ok::<CalRGBModel, Failure>(c@),
            Err(e) => spec_cal_rgb(*doc, *dict) == Err::<CalRGBModel, Failure>(e.kind()),
        },
{
    let white_point = get_triple(doc, dict, "WhitePoint".as_bytes())?;
    let black_point = match get_triple(doc, dict, "BlackPoint".as_bytes()) {
        Ok(t) => Some(t),
        Err(_) => None,
    };
    let gamma = match get_triple(doc, dict, "Gamma".as_bytes()) {
        Ok(t) => Some(t),
        Err(_) => None,
    };
    let matrix = match get_numbers(doc, dict, "Matrix".as_bytes()) {
        Ok(t) => Some(t),
        Err(_) => None,
    };
    Ok(CalRGB { white_point, black_point, gamma, matrix })
}

/// The L*a*b* space of a dictionary: `WhitePoint` is required, the rest is
/// kept where it reads.
pub open spec fn spec_lab(doc: Document, dict: Dictionary) -> Result<Lab, Failure> {
    match spec_triple(doc, dict, "WhitePoint".spec_bytes()) {
        Err(e) => Err(e),
        Ok(white_point) => Ok(
            Lab {
                white_point,
                black_point: ok_of(spec_triple(doc, dict, "BlackPoint".spec_bytes())),
                range: ok_of(spec_quad(doc, dict, "Range".spec_bytes())),
            },
        ),
    }
}

/// The L*a*b* space of a dictionary.
pub fn lab(doc: &Document, dict: &Dictionary) -> (r: PdfResult<Lab>)
    ensures
        crate::error::agrees(r, spec_lab(*doc, *dict)),
{
    let white_point = get_triple(doc, dict, "WhitePoint".as_bytes())?;
    let black_point = match get_triple(doc, dict, "BlackPoint".as_bytes()) {
        Ok(t) => Some(t),
        Err(_) => None,
    };
    let range = match get_quad(doc, dict, "Range".as_bytes()) {
        Ok(t) => Some(t),
        Err(_) => None,
    };
    Ok(Lab { white_point, black_point, range })
}

/// The text of the name at index `i` of an array: the element must be there
/// and be a name itself.
pub open spec fn spec_name_at(items: Seq<Object>, i: int) -> Result<Seq<char>, Failure> {
    if 0 <= i < items.len() {
        match items[i] {
            Object::Name(n) => match spec_pdf_to_utf8(n@) {
                Some(t) => Ok(t),
                None => Err(Failure::EncodingError),
            },
            _ => Err(Failure::InvalidStructure),
        }
    } else {
        Err(Failure::InvalidStructure)
    }
}

/// The text of the name at index `i` of an array.
pub fn name_at(items: &Vec<Object>, i: usize) -> (r: PdfResult<String>)
    ensures
        crate::object_utils::agrees_text(r, spec_name_at(items@, i as int)),
{
    if i < items.len() {
        match &items[i] {
            Object::Name(n) => pdf_to_utf8(n.as_slice()),
            _ => Err(PdfError::invalid("Expected a name")),
        }
    } else {
        Err(PdfError::invalid("Color space array too short"))
    }
}

/// The dictionary at index `i` of an array: the element must be there and be
/// a dictionary itself.
pub open spec fn spec_dict_at(items: Seq<Object>, i: int) -> Result<Dictionary, Failure> {
    if 0 <= i < items.len() {
        match items[i] {
            Object::Dictionary(d) => Ok(d),
            _ => Err(Failure::InvalidStructure),
        }
    } else {
        Err(Failure::InvalidStructure)
    }
}

/// The dictionary at index `i` of an array.
pub fn dict_at(items: &Vec<Object>, i: usize) -> (r: PdfResult<&Dictionary>)
    ensures
        crate::object_utils::agrees_ref(r, spec_dict_at(items@, i as int)),
{
    if i < items.len() {
        match &items[i] {
            Object::Dictionary(d) => Ok(d),
            _ => Err(PdfError::invalid("Expected a dictionary")),
        }
    } else {
        Err(PdfError::invalid("Color space array too short"))
    }
}

/// The contents of the stream that the element at index `i` of an array is or
/// refers to.
pub open spec fn spec_stream_at(doc: Document, items: Seq<Object>, i: int) -> Result<
    Seq<u8>,
    Failure,
> {
    if 0 <= i < items.len() {
        match spec_maybe_deref(doc, items[i]) {
            Err(e) => Err(e),
            Ok(Object::Stream(s)) => Ok(s.spec_contents()),
            Ok(_) => Err(Failure::InvalidStructure),
        }
    } else {
        Err(Failure::InvalidStructure)
    }
}

/// The contents of the stream that the element at index `i` of an array is or
/// refers to.
pub fn stream_at(doc: &Document, items: &Vec<Object>, i: usize) -> (r: PdfResult<Vec<u8>>)
    ensures
        crate::object_utils::agrees_seq(r, spec_stream_at(*doc, items@, i as int)),
{
    if i < items.len() {
        match maybe_deref(doc, &items[i])? {
            Object::Stream(s) => Ok(vstd::slice::slice_to_vec(s.contents())),
            _ => Err(PdfError::invalid("ICCBased must have stream")),
        }
    } else {
        Err(PdfError::invalid("Color space array too short"))
    }
}

/// The alternate space that an object describes: one of the three device
/// names, or an array that starts with `ICCBased`, `CalGray`, `CalRGB` or
/// `Lab`.
pub open spec fn spec_alternate(doc: Document, obj: Object) -> Result<AlternateModel, Failure> {
    match spec_maybe_deref(doc, obj) {
        Err(e) => Err(e),
        Ok(Object::Name(name)) => if name@ == "DeviceGray".spec_bytes() {
            Ok(AlternateModel::DeviceGray)
        } else if name@ == "DeviceRGB".spec_bytes() {
            Ok(AlternateModel::DeviceRGB)
        } else if name@ == "DeviceCMYK".spec_bytes() {
            Ok(AlternateModel::DeviceCMYK)
        } else {
            Err(Failure::InvalidStructure)
        },
        Ok(Object::Array(cs)) => match spec_name_at(cs@, 0) {
            Err(e) => Err(e),
            Ok(kind) => if kind == "ICCBased"@ {
                match spec_stream_at(doc, cs@, 1) {
                    Ok(p) => Ok(AlternateModel::ICCBased(p)),
                    Err(e) => Err(e),
                }
            } else if kind == "CalGray"@ {
                match spec_dict_at(cs@, 1) {
                    Err(e) => Err(e),
                    Ok(d) => match spec_cal_gray(doc, d) {
                        Ok(c) => Ok(AlternateModel::CalGray(c)),
                        Err(e) => Err(e),
                    },
                }
            } else if kind == "CalRGB"@ {
                match spec_dict_at(cs@, 1) {
                    Err(e) => Err(e),
                    Ok(d) => match spec_cal_rgb(doc, d) {
                        Ok(c) => Ok(AlternateModel::CalRGB(c)),
                        Err(e) => Err(e),
                    },
                }
            } else if kind == "Lab"@ {
                match spec_dict_at(cs@, 1) {
                    Err(e) => Err(e),
                    Ok(d) => match spec_lab(doc, d) {
                        Ok(c) => Ok(AlternateModel::Lab(c)),
                        Err(e) => Err(e),
                    },
                }
            } else {
                Err(Failure::InvalidStructure)
            },
        },
        Ok(_) => Err(Failure::InvalidStructure),
    }
}

/// The alternate space that an object describes.
pub fn alternate_space(doc: &Document, obj: &Object) -> (r: PdfResult<AlternateColorSpace>)
    ensures
        match r {
            Ok(a) => spec_alternate(*doc, *obj) == Ok::<AlternateModel, Failure>(a@),
            Err(e) => spec_alternate(*doc, *obj) == Err::<AlternateModel, Failure>(e.kind()),
        },
{
    match maybe_deref(doc, obj)? {
        Object::Name(name) => {
            if bytes_eq(name.as_slice(), "DeviceGray".as_bytes()) {
                Ok(AlternateColorSpace::DeviceGray)
            } else if bytes_eq(name.as_slice(), "DeviceRGB".as_bytes()) {
                Ok(AlternateColorSpace::DeviceRGB)
            } else if bytes_eq(name.as_slice(), "DeviceCMYK".as_bytes()) {
                Ok(AlternateColorSpace::DeviceCMYK)
            } else {
                Err(PdfError::invalid("Unknown alternate colorspace"))
            }
        },
        Object::Array(cs) => {
            let kind = name_at(cs, 0)?;
            if text_is(&kind, "ICCBased") {
                Ok(AlternateColorSpace::ICCBased(stream_at(doc, cs, 1)?))
            } else if text_is(&kind, "CalGray") {
                Ok(AlternateColorSpace::CalGray(cal_gray(doc, dict_at(cs, 1)?)?))
            } else if text_is(&kind, "CalRGB") {
                Ok(AlternateColorSpace::CalRGB(cal_rgb(doc, dict_at(cs, 1)?)?))
            } else if text_is(&kind, "Lab") {
                Ok(AlternateColorSpace::Lab(lab(doc, dict_at(cs, 1)?)?))
            } else {
                Err(PdfError::invalid("Unknown alternate colorspace"))
            }
        },
        _ => Err(PdfError::invalid("Alternate space must be name or array")),
    }
}

/// The separation that an array describes: colorant name, alternate space,
/// tint function, at indices 1 to 3.
pub open spec fn spec_separation(doc: Document, cs: Seq<Object>) -> Result<ColorSpaceModel, Failure> {
    match spec_name_at(cs, 1) {
        Err(e) => Err(e),
        Ok(name) => if cs.len() < 3 {
            Err(Failure::InvalidStructure)
        } else {
            match spec_alternate(doc, cs[2]) {
                Err(e) => Err(e),
                Ok(alternate_space) => if cs.len() < 4 {
                    Err(Failure::InvalidStructure)
                } else {
                    match spec_maybe_deref(doc, cs[3]) {
                        Err(e) => Err(e),
                        Ok(f) => match spec_function(doc, f) {
                            Err(e) => Err(e),
                            Ok(tint_transform) => Ok(
                                ColorSpaceModel::Separation { name, alternate_space, tint_transform },
                            ),
                        },
                    }
                },
            }
        },
    }
}

/// The colour space that an array describes, by the name it starts with.
pub open spec fn spec_array_colorspace(doc: Document, cs: Seq<Object>) -> Result<
    ColorSpaceModel,
    Failure,
> {
    match spec_name_at(cs, 0) {
        Err(e) => Err(e),
        Ok(kind) => if kind == "Separation"@ {
            spec_separation(doc, cs)
        } else if kind == "ICCBased"@ {
            match spec_stream_at(doc, cs, 1) {
                Ok(p) => Ok(ColorSpaceModel::ICCBased(p)),
                Err(e) => Err(e),
            }
        } else if kind == "CalGray"@ {
            match spec_dict_at(cs, 1) {
                Err(e) => Err(e),
                Ok(d) => match spec_cal_gray(doc, d) {
                    Ok(c) => Ok(ColorSpaceModel::CalGray(c)),
                    Err(e) => Err(e),
                },
            }
        } else if kind == "CalRGB"@ {
            match spec_dict_at(cs, 1) {
                Err(e) => Err(e),
                Ok(d) => match spec_cal_rgb(doc, d) {
                    Ok(c) => Ok(ColorSpaceModel::CalRGB(c)),
                    Err(e) => Err(e),
                },
            }
        } else if kind == "Lab"@ {
            match spec_dict_at(cs, 1) {
                Err(e) => Err(e),
                Ok(d) => match spec_lab(doc, d) {
                    Ok(c) => Ok(ColorSpaceModel::Lab(c)),
                    Err(e) => Err(e),
                },
            }
        } else if kind == "Pattern"@ {
            Ok(ColorSpaceModel::Pattern)
        } else if kind == "DeviceGray"@ {
            Ok(ColorSpaceModel::DeviceGray)
        } else if kind == "DeviceRGB"@ {
            Ok(ColorSpaceModel::DeviceRGB)
        } else if kind == "DeviceCMYK"@ {
            Ok(ColorSpaceModel::DeviceCMYK)
        } else if kind == "DeviceN"@ {
            Ok(ColorSpaceModel::DeviceN)
        } else {
            Err(Failure::InvalidStructure)
        },
    }
}

/// The colour space that `name` stands for. The four names `DeviceGray`,
/// `DeviceRGB`, `DeviceCMYK` and `Pattern` stand for themselves. Any other
/// name is looked up in the `ColorSpace` dictionary of the resources, where it
/// must lead to an array, read by the name it starts with, or to one of the
/// names `DeviceRGB` and `DeviceGray`.
pub open spec fn spec_colorspace(doc: Document, name: Seq<u8>, resources: Dictionary) -> Result<
    ColorSpaceModel,
    Failure,
> {
    if name == "DeviceGray".spec_bytes() {
        Ok(ColorSpaceModel::DeviceGray)
    } else if name == "DeviceRGB".spec_bytes() {
        Ok(ColorSpaceModel::DeviceRGB)
    } else if name == "DeviceCMYK".spec_bytes() {
        Ok(ColorSpaceModel::DeviceCMYK)
    } else if name == "Pattern".spec_bytes() {
        Ok(ColorSpaceModel::Pattern)
    } else {
        match spec_get_dict(doc, resources, "ColorSpace".spec_bytes()) {
            Err(e) => Err(e),
            Ok(spaces) => match spec_maybe_get_obj(doc, spaces, name) {
                None => Err(Failure::MissingField(name)),
                Some(Object::Array(cs)) => spec_array_colorspace(doc, cs@),
                Some(Object::Name(n)) => match spec_pdf_to_utf8(n@) {
                    None => Err(Failure::EncodingError),
                    Some(t) => if t == "DeviceRGB"@ {
                        Ok(ColorSpaceModel::DeviceRGB)
                    } else if t == "DeviceGray"@ {
                        Ok(ColorSpaceModel::DeviceGray)
                    } else {
                        Err(Failure::InvalidStructure)
                    },
                },
                Some(_) => Err(Failure::InvalidStructure),
            },
        }
    }
}

/// Whether a colour space result is the model a contract names.
pub open spec fn agrees_colorspace(r: PdfResult<ColorSpace>, want: Result<ColorSpaceModel, Failure>) -> bool {
    match r {
        Ok(c) => want == Ok::<ColorSpaceModel, Failure>(c@),
        Err(e) => want == Err::<ColorSpaceModel, Failure>(e.kind()),
    }
}

/// The separation that an array describes.
fn separation(doc: &Document, cs: &Vec<Object>) -> (r: PdfResult<ColorSpace>)
    ensures
        agrees_colorspace(r, spec_separation(*doc, cs@)),
{
    let name = name_at(cs, 1)?;
    if cs.len() < 3 {
        return Err(PdfError::invalid("Color space array too short"));
    }
    let alternate = alternate_space(doc, &cs[2])?;
    if cs.len() < 4 {
        return Err(PdfError::invalid("Color space array too short"));
    }
    let f = maybe_deref(doc, &cs[3])?;
    let tint = Function::new(doc, f)?;
    Ok(
        ColorSpace::Separation(
            Separation { name, alternate_space: alternate, tint_transform: Box::new(tint) },
        ),
    )
}

/// The colour space that an array describes.
fn array_colorspace(doc: &Document, cs: &Vec<Object>) -> (r: PdfResult<ColorSpace>)
    ensures
        agrees_colorspace(r, spec_array_colorspace(*doc, cs@)),
{
    let kind = name_at(cs, 0)?;
    if text_is(&kind, "Separation") {
        separation(doc, cs)
    } else if text_is(&kind, "ICCBased") {
        Ok(ColorSpace::ICCBased(stream_at(doc, cs, 1)?))
    } else if text_is(&kind, "CalGray") {
        Ok(ColorSpace::CalGray(cal_gray(doc, dict_at(cs, 1)?)?))
    } else if text_is(&kind, "CalRGB") {
        Ok(ColorSpace::CalRGB(cal_rgb(doc, dict_at(cs, 1)?)?))
    } else if text_is(&kind, "Lab") {
        Ok(ColorSpace::Lab(lab(doc, dict_at(cs, 1)?)?))
    } else if text_is(&kind, "Pattern") {
        Ok(ColorSpace::Pattern)
    } else if text_is(&kind, "DeviceGray") {
        Ok(ColorSpace::DeviceGray)
    } else if text_is(&kind, "DeviceRGB") {
        Ok(ColorSpace::DeviceRGB)
    } else if text_is(&kind, "DeviceCMYK") {
        Ok(ColorSpace::DeviceCMYK)
    } else if text_is(&kind, "DeviceN") {
        Ok(ColorSpace::DeviceN)
    } else {
        Err(PdfError::invalid("Unknown colorspace"))
    }
}

/// Resolve the colour space that `name` stands for in `resources`. Whatever
/// cannot be resolved is an error: a missing `ColorSpace` dictionary or entry
/// is `MissingField`, an unknown kind of space `InvalidStructure`.
pub fn make_colorspace(doc: &Document, name: &[u8], resources: &Dictionary) -> (r: PdfResult<
    ColorSpace,
>)
    ensures
        agrees_colorspace(r, spec_colorspace(*doc, name@, *resources)),
{
    if bytes_eq(name, "DeviceGray".as_bytes()) {
        Ok(ColorSpace::DeviceGray)
    } else if bytes_eq(name, "DeviceRGB".as_bytes()) {
        Ok(ColorSpace::DeviceRGB)
    } else if bytes_eq(name, "DeviceCMYK".as_bytes()) {
        Ok(ColorSpace::DeviceCMYK)
    } else if bytes_eq(name, "Pattern".as_bytes()) {
        Ok(ColorSpace::Pattern)
    } else {
        let spaces = get_dict(doc, resources, "ColorSpace".as_bytes())?;
        match maybe_get_obj(doc, spaces, name) {
            None => Err(PdfError::missing(name)),
            Some(Object::Array(cs)) => array_colorspace(doc, cs),
            Some(Object::Name(n)) => {
                let t = pdf_to_utf8(n.as_slice())?;
                if text_is(&t, "DeviceRGB") {
                    Ok(ColorSpace::DeviceRGB)
                } else if text_is(&t, "DeviceGray") {
                    Ok(ColorSpace::DeviceGray)
                } else {
                    Err(PdfError::invalid("Unknown colorspace name"))
                }
            },
            Some(_) => Err(PdfError::invalid("ColorSpace must be name or array")),
        }
    }
}

} // verus!
