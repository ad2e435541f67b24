//! The operations of a content stream and the operators the interpreter knows.

use vstd::prelude::*;
use crate::error::{Failure, PdfError, PdfResult};
use crate::object::{Number, Object};
use crate::object_utils::as_num;
use crate::tables::str_is;

verus! {

/// One operation of a content stream: an operator after its operands.
#[derive(Debug)]
pub struct Operation {
    pub operator: String,
    pub operands: Vec<Object>,
}

/// The operators that change the interpreter's state or make it act; every
/// other operator is `Other` and is passed over.
#[derive(Clone, Copy, Debug, PartialEq, Eq, Structural)]
pub enum Operator {
    BeginText,
    EndText,
    Concat,
    StrokeColorSpace,
    FillColorSpace,
    StrokeColor,
    FillColor,
    ShowTextArray,
    ShowText,
    CharSpacing,
    WordSpacing,
    HorizontalScaling,
    Leading,
    Font,
    Rise,
    TextMatrix,
    MoveText,
    MoveTextSetLeading,
    NextLine,
    Save,
    Restore,
    ExtGState,
    MoveTo,
    LineTo,
    CurveTo,
    CurveToFromCurrent,
    CurveToEndControl,
    ClosePath,
    Rectangle,
    Stroke,
    Fill,
    EndPath,
    BeginMarkedContent,
    EndMarkedContent,
    XObject,
    LineWidth,
    Other,
}

/// The operator that a name in a content stream stands for.
pub open spec fn spec_classify(name: Seq<char>) -> Operator {
    if name == "BT"@ {
        Operator::BeginText
    } else if name == "ET"@ {
        Operator::EndText
    } else if name == "cm"@ {
        Operator::Concat
    } else if name == "CS"@ {
        Operator::StrokeColorSpace
    } else if name == "cs"@ {
        Operator::FillColorSpace
    } else if name == "SC"@ || name == "SCN"@ {
        Operator::StrokeColor
    } else if name == "sc"@ || name == "scn"@ {
        Operator::FillColor
    } else if name == "TJ"@ {
        Operator::ShowTextArray
    } else if name == "Tj"@ {
        Operator::ShowText
    } else if name == "Tc"@ {
        Operator::CharSpacing
    } else if name == "Tw"@ {
        Operator::WordSpacing
    } else if name == "Tz"@ {
        Operator::HorizontalScaling
    } else if name == "TL"@ {
        Operator::Leading
    } else if name == "Tf"@ {
        Operator::Font
    } else if name == "Ts"@ {
        Operator::Rise
    } else if name == "Tm"@ {
        Operator::TextMatrix
    } else if name == "Td"@ {
        Operator::MoveText
    } else if name == "TD"@ {
        Operator::MoveTextSetLeading
    } else if name == "T*"@ {
        Operator::NextLine
    } else if name == "q"@ {
        Operator::Save
    } else if name == "Q"@ {
        Operator::Restore
    } else if name == "gs"@ {
        Operator::ExtGState
    } else if name == "m"@ {
        Operator::MoveTo
    } else if name == "l"@ {
        Operator::LineTo
    } else if name == "c"@ {
        Operator::CurveTo
    } else if name == "v"@ {
        Operator::CurveToFromCurrent
    } else if name == "y"@ {
        Operator::CurveToEndControl
    } else if name == "h"@ {
        Operator::ClosePath
    } else if name == "re"@ {
        Operator::Rectangle
    } else if name == "S"@ {
        Operator::Stroke
    } else if name == "F"@ || name == "f"@ {
        Operator::Fill
    } else if name == "n"@ {
        Operator::EndPath
    } else if name == "BMC"@ || name == "BDC"@ {
        Operator::BeginMarkedContent
    } else if name == "EMC"@ {
        Operator::EndMarkedContent
    } else if name == "Do"@ {
        Operator::XObject
    } else if name == "w"@ {
        Operator::LineWidth
    } else {
        Operator::Other
    }
}

/// The operator that a name in a content stream stands for.
pub fn classify(name: &str) -> (r: Operator)
    ensures
        r == spec_classify(name@),
{
    if str_is(name, "BT") {
        Operator::BeginText
    } else if str_is(name, "ET") {
        Operator::EndText
    } else if str_is(name, "cm") {
        Operator::Concat
    } else if str_is(name, "CS") {
        Operator::StrokeColorSpace
    } else if str_is(name, "cs") {
        Operator::FillColorSpace
    } else if str_is(name, "SC") || str_is(name, "SCN") {
        Operator::StrokeColor
    } else if str_is(name, "sc") || str_is(name, "scn") {
        Operator::FillColor
    } else if str_is(name, "TJ") {
        Operator::ShowTextArray
    } else if str_is(name, "Tj") {
        Operator::ShowText
    } else if str_is(name, "Tc") {
        Operator::CharSpacing
    } else if str_is(name, "Tw") {
        Operator::WordSpacing
    } else if str_is(name, "Tz") {
        Operator::HorizontalScaling
    } else if str_is(name, "TL") {
        Operator::Leading
    } else if str_is(name, "Tf") {
        Operator::Font
    } else if str_is(name, "Ts") {
        Operator::Rise
    } else if str_is(name, "Tm") {
        Operator::TextMatrix
    } else if str_is(name, "Td") {
        Operator::MoveText
    } else if str_is(name, "TD") {
        Operator::MoveTextSetLeading
    } else if str_is(name, "T*") {
        Operator::NextLine
    } else if str_is(name, "q") {
        Operator::Save
    } else if str_is(name, "Q") {
        Operator::Restore
    } else if str_is(name, "gs") {
        Operator::ExtGState
    } else if str_is(name, "m") {
        Operator::MoveTo
    } else if str_is(name, "l") {
        Operator::LineTo
    } else if str_is(name, "c") {
        Operator::CurveTo
    } else if str_is(name, "v") {
        Operator::CurveToFromCurrent
    } else if str_is(name, "y") {
        Operator::CurveToEndControl
    } else if str_is(name, "h") {
        Operator::ClosePath
    } else if str_is(name, "re") {
        Operator::Rectangle
    } else if str_is(name, "S") {
        Operator::Stroke
    } else if str_is(name, "F") || str_is(name, "f") {
        Operator::Fill
    } else if str_is(name, "n") {
        Operator::EndPath
    } else if str_is(name, "BMC") || str_is(name, "BDC") {
        Operator::BeginMarkedContent
    } else if str_is(name, "EMC") {
        Operator::EndMarkedContent
    } else if str_is(name, "Do") {
        Operator::XObject
    } else if str_is(name, "w") {
        Operator::LineWidth
    } else {
        Operator::Other
    }
}

/// The six numbers of a transformation.
#[derive(Clone, Copy, Debug, PartialEq, Eq, Structural)]
pub struct Matrix {
    pub a: Number,
    pub b: Number,
    pub c: Number,
    pub d: Number,
    pub e: Number,
    pub f: Number,
}

/// The number at index `i` of `operands`: `InvalidStructure` when there is no
/// such operand or it is no number.
pub open spec fn spec_number_at(operands: Seq<Object>, i: int) -> Result<Number, Failure> {
    if 0 <= i < operands.len() {
        operands[i].spec_as_num()
    } else {
        Err(Failure::InvalidStructure)
    }
}

/// The number at index `i` of `operands`.
pub fn number_at(operands: &Vec<Object>, i: usize) -> (r: PdfResult<Number>)
    ensures
        crate::error::agrees(r, spec_number_at(operands@, i as int)),
{
    if i < operands.len() {
        as_num(&operands[i])
    } else {
        Err(PdfError::invalid("Missing operand"))
    }
}

/// The bytes of the name at index `i` of `operands`.
pub open spec fn spec_name_operand(operands: Seq<Object>, i: int) -> Result<Seq<u8>, Failure> {
    if 0 <= i < operands.len() {
        match operands[i] {
            Object::Name(n) => Ok(n@),
            _ => Err(Failure::InvalidStructure),
        }
    } else {
        Err(Failure::InvalidStructure)
    }
}

/// The bytes of the name at index `i` of `operands`: `InvalidStructure` when
/// there is no such operand or it is no name.
pub fn name_operand(operands: &Vec<Object>, i: usize) -> (r: PdfResult<&[u8]>)
    ensures
        match r {
            Ok(n) => spec_name_operand(operands@, i as int) == Ok::<Seq<u8>, Failure>(n@),
            Err(e) => spec_name_operand(operands@, i as int) == Err::<Seq<u8>, Failure>(e.kind()),
        },
{
    if i < operands.len() {
        match &operands[i] {
            Object::Name(n) => Ok(n.as_slice()),
            _ => Err(PdfError::invalid("Expected name operand")),
        }
    } else {
        Err(PdfError::invalid("Missing operand"))
    }
}

/// The transformation that exactly six numeric operands describe.
pub open spec fn spec_matrix(operands: Seq<Object>) -> Result<Matrix, Failure> {
    if operands.len() != 6 {
        Err(Failure::InvalidStructure)
    } else {
        match (
            operands[0].spec_as_num(),
            operands[1].spec_as_num(),
            operands[2].spec_as_num(),
            operands[3].spec_as_num(),
            operands[4].spec_as_num(),
            operands[5].spec_as_num(),
        ) {
            (Ok(a), Ok(b), Ok(c), Ok(d), Ok(e), Ok(f)) => Ok(Matrix { a, b, c, d, e, f }),
            _ => Err(Failure::InvalidStructure),
        }
    }
}

/// The transformation that the operands describe: `InvalidStructure` unless
/// they are exactly six numbers.
pub fn matrix_of(operands: &Vec<Object>) -> (r: PdfResult<Matrix>)
    ensures
        crate::error::agrees(r, spec_matrix(operands@)),
{
    if operands.len() != 6 {
        return Err(PdfError::invalid("Expected 6 operands"));
    }
    let a = as_num(&operands[0])?;
    let b = as_num(&operands[1])?;
    let c = as_num(&operands[2])?;
    let d = as_num(&operands[3])?;
    let e = as_num(&operands[4])?;
    let f = as_num(&operands[5])?;
    Ok(Matrix { a, b, c, d, e, f })
}

/// The pair that exactly two numeric operands describe.
pub open spec fn spec_pair(operands: Seq<Object>) -> Result<(Number, Number), Failure> {
    if operands.len() != 2 {
        Err(Failure::InvalidStructure)
    } else {
        match (operands[0].spec_as_num(), operands[1].spec_as_num()) {
            (Ok(x), Ok(y)) => Ok((x, y)),
            _ => Err(Failure::InvalidStructure),
        }
    }
}

/// The pair that the operands describe: `InvalidStructure` unless they are
/// exactly two numbers.
pub fn pair_of(operands: &Vec<Object>) -> (r: PdfResult<(Number, Number)>)
    ensures
        crate::error::agrees(r, spec_pair(operands@)),
{
    if operands.len() != 2 {
        return Err(PdfError::invalid("Expected 2 operands"));
    }
    let x = as_num(&operands[0])?;
    let y = as_num(&operands[1])?;
    Ok((x, y))
}

/// The first `n` operands as numbers.
pub open spec fn spec_leading_numbers(operands: Seq<Object>, n: int) -> Result<Seq<Number>, Failure> {
    if operands.len() < n {
        Err(Failure::InvalidStructure)
    } else {
        crate::object_utils::spec_numbers(operands.take(n))
    }
}

/// The first `n` operands as numbers: `InvalidStructure` when there are fewer
/// or one of them is no number.
pub fn leading_numbers(operands: &Vec<Object>, n: usize) -> (r: PdfResult<Vec<Number>>)
    ensures
        crate::object_utils::agrees_seq(r, spec_leading_numbers(operands@, n as int)),
        r matches Ok(v) ==> v@.len() == n,
{
    if operands.len() < n {
        return Err(PdfError::invalid("Missing operand"));
    }
    let head = vstd::slice::slice_subrange(operands.as_slice(), 0, n);
    assert(head@ =~= operands@.take(n as int));
    crate::object_utils::numbers_of(head)
}

} // verus!
