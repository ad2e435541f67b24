//! The content-stream interpreter as a step function: one operation in, the
//! next state and one action out. The state kept here is everything that
//! needs no arithmetic on real numbers; the action tells the caller what to
//! do with matrices, text parameters and the output device.

use vstd::prelude::*;
use vstd::string::StringSliceAdditionalSpecFns;
use crate::colorspace::{make_colorspace, spec_colorspace, ColorSpace, ColorSpaceModel};
use crate::content::{
    classify, leading_numbers, matrix_of, name_operand, number_at, pair_of, spec_classify,
    spec_leading_numbers, spec_matrix, spec_name_operand, spec_number_at, spec_pair, Matrix,
    Operation, Operator,
};
use crate::error::{Failure, PdfError, PdfResult};
use crate::font::{make_font, spec_make_font, FontModel, PdfFont};
use crate::gstate::{apply_state, ext_gstate_fold, GraphicsState, GsModel};
use crate::object::{bytes_eq, Dictionary, Document, Number, Object};
use crate::object_utils::{
    get_dict, get_stream, maybe_get_obj, numbers_of, spec_get_dict, spec_get_stream,
    spec_maybe_get_obj, spec_numbers,
};
use crate::path::{spec_current_point, Path, PathOp};
use crate::tables::{FontPrograms, FontTables};
use crate::text::{glyph_models, glyphs, spec_glyphs, Glyph, GlyphModel};

verus! {

/// One element of a text array.
#[derive(Debug)]
pub enum TextItem {
    /// Glyphs to show.
    Show(Vec<Glyph>),
    /// A shift of the text position, in thousandths of the font size.
    Adjust(Number),
}

/// What an element of a text array is, as contracts see it.
pub enum TextItemModel {
    Show(Seq<GlyphModel>),
    Adjust(Number),
}

impl View for TextItem {
    type V = TextItemModel;

    open spec fn view(&self) -> TextItemModel {
        match self {
            TextItem::Show(g) => TextItemModel::Show(glyph_models(g@)),
            TextItem::Adjust(n) => TextItemModel::Adjust(*n),
        }
    }
}

/// The models of a sequence of text items.
pub open spec fn item_models(items: Seq<TextItem>) -> Seq<TextItemModel> {
    Seq::new(items.len(), |i: int| items[i]@)
}

/// What the caller is to do after a step.
#[derive(Debug)]
pub enum Action<'a> {
    /// Nothing.
    Nothing,
    /// Set text matrix and text line matrix to the identity.
    ResetText,
    /// Compose the transformation with the current transformation matrix.
    Concat(Matrix),
    /// Set text matrix and text line matrix, then end the line.
    SetTextMatrix(Matrix),
    /// Move the text line matrix by the offset, then end the line.
    MoveText(Number, Number),
    /// Set the leading to the negated second number, then as `MoveText`.
    MoveTextSetLeading(Number, Number),
    /// Move to the start of the next line by the leading, then end the line.
    NextLine,
    /// Show the glyphs as one word.
    ShowText(Vec<Glyph>),
    /// Show each item in turn.
    ShowTextArray(Vec<TextItem>),
    CharSpacing(Number),
    WordSpacing(Number),
    /// The horizontal scaling in percent.
    HorizontalScaling(Number),
    Leading(Number),
    /// The font of the state has been set; this is its size.
    FontSize(Number),
    Rise(Number),
    LineWidth(Number),
    /// A copy of the state went onto the stack: save the other half too.
    Save,
    /// The state came back from the stack: restore the other half too.
    Restore,
    /// Stroke the path with the colour given; the interpreter's path is
    /// already empty.
    Stroke { colorspace: usize, color: Vec<Number>, path: Path },
    /// Fill the path with the colour given; the interpreter's path is already
    /// empty.
    Fill { colorspace: usize, color: Vec<Number>, path: Path },
    /// The font that the operation names is not loaded: load it and step
    /// through the same operation again.
    LoadFont,
    /// Interpret a form: its content with its resources, in a fresh
    /// interpreter.
    Form { content: &'a [u8], resources: &'a Dictionary },
}

/// What an action is, as contracts see it.
pub enum ActionModel {
    Nothing,
    ResetText,
    Concat(Matrix),
    SetTextMatrix(Matrix),
    MoveText(Number, Number),
    MoveTextSetLeading(Number, Number),
    NextLine,
    ShowText(Seq<GlyphModel>),
    ShowTextArray(Seq<TextItemModel>),
    CharSpacing(Number),
    WordSpacing(Number),
    HorizontalScaling(Number),
    Leading(Number),
    FontSize(Number),
    Rise(Number),
    LineWidth(Number),
    Save,
    Restore,
    Stroke { colorspace: usize, color: Seq<Number>, path: Seq<PathOp> },
    Fill { colorspace: usize, color: Seq<Number>, path: Seq<PathOp> },
    LoadFont,
    Form { content: Seq<u8>, resources: Dictionary },
}

impl<'a> View for Action<'a> {
    type V = ActionModel;

    open spec fn view(&self) -> ActionModel {
        match self {
            Action::Nothing => ActionModel::Nothing,
            Action::ResetText => ActionModel::ResetText,
            Action::Concat(m) => ActionModel::Concat(*m),
            Action::SetTextMatrix(m) => ActionModel::SetTextMatrix(*m),
            Action::MoveText(x, y) => ActionModel::MoveText(*x, *y),
            Action::MoveTextSetLeading(x, y) => ActionModel::MoveTextSetLeading(*x, *y),
            Action::NextLine => ActionModel::NextLine,
            Action::ShowText(g) => ActionModel::ShowText(glyph_models(g@)),
            Action::ShowTextArray(items) => ActionModel::ShowTextArray(item_models(items@)),
            Action::CharSpacing(n) => ActionModel::CharSpacing(*n),
            Action::WordSpacing(n) => ActionModel::WordSpacing(*n),
            Action::HorizontalScaling(n) => ActionModel::HorizontalScaling(*n),
            Action::Leading(n) => ActionModel::Leading(*n),
            Action::FontSize(n) => ActionModel::FontSize(*n),
            Action::Rise(n) => ActionModel::Rise(*n),
            Action::LineWidth(n) => ActionModel::LineWidth(*n),
            Action::Save => ActionModel::Save,
            Action::Restore => ActionModel::Restore,
            Action::Stroke { colorspace, color, path } => ActionModel::Stroke {
                colorspace: *colorspace,
                color: color@,
                path: path.ops@,
            },
            Action::Fill { colorspace, color, path } => ActionModel::Fill {
                colorspace: *colorspace,
                color: color@,
                path: path.ops@,
            },
            Action::LoadFont => ActionModel::LoadFont,
            Action::Form { content, resources } => ActionModel::Form {
                content: content@,
                resources: **resources,
            },
        }
    }
}

/// What the interpreter's state is, as contracts see it.
pub struct ProcessorModel {
    pub gs: GsModel,
    pub stack: Seq<GsModel>,
    pub marked_content: usize,
    pub path: Seq<PathOp>,
    pub fonts: Seq<(Seq<u8>, FontModel)>,
    pub colorspaces: Seq<ColorSpaceModel>,
}

/// A state and the action that led to it.
pub struct Outcome {
    pub state: ProcessorModel,
    pub action: ActionModel,
}

/// Whether no two of `fonts` have the same name.
pub open spec fn names_differ(fonts: Seq<(Seq<u8>, FontModel)>) -> bool {
    forall|i: int, j: int|
        0 <= i < j < fonts.len() ==> (#[trigger] fonts[i]).0 != (#[trigger] fonts[j]).0
}

/// The index of the first of `fonts` named `name`.
pub open spec fn font_index(fonts: Seq<(Seq<u8>, FontModel)>, name: Seq<u8>) -> Option<int>
    decreases fonts.len(),
{
    if fonts.len() == 0 {
        None
    } else {
        match font_index(fonts.drop_last(), name) {
            Some(i) => Some(i),
            None => if fonts.last().0 == name {
                Some(fonts.len() - 1)
            } else {
                None
            },
        }
    }
}

/// The items of a text array: a string gives the glyphs it stands for under
/// the font, a number a shift; anything else is passed over. A string
/// without a font is an `InvalidStructure` error.
pub open spec fn spec_text_items(font: Option<FontModel>, items: Seq<Object>) -> Result<
    Seq<TextItemModel>,
    Failure,
>
    decreases items.len(),
{
    if items.len() == 0 {
        Ok(Seq::empty())
    } else {
        match spec_text_items(font, items.drop_last()) {
            Err(e) => Err(e),
            Ok(head) => match items.last() {
                Object::Str(s, _) => match font {
                    Some(f) => Ok(head.push(TextItemModel::Show(spec_glyphs(f, s@)))),
                    None => Err(Failure::InvalidStructure),
                },
                Object::Integer(i) => Ok(head.push(TextItemModel::Adjust(Number::Integer(i)))),
                Object::Real(bits) => Ok(head.push(TextItemModel::Adjust(Number::Real(bits)))),
                _ => Ok(head),
            },
        }
    }
}

impl ProcessorModel {
    /// The state at the start of a content stream: the initial graphics
    /// state, nothing saved, an empty path, no font loaded, and DeviceGray as
    /// the one colour space.
    pub open spec fn initial() -> ProcessorModel {
        ProcessorModel {
            gs: GsModel::initial(),
            stack: Seq::empty(),
            marked_content: 0,
            path: Seq::empty(),
            fonts: Seq::empty(),
            colorspaces: seq![ColorSpaceModel::DeviceGray],
        }
    }

    /// Whether the font table is a table by name, no name occurring twice,
    /// and every index of the current and the saved states lies within the
    /// tables.
    pub open spec fn wf(self) -> bool {
        &&& names_differ(self.fonts)
        &&& self.gs.within(self.fonts.len(), self.colorspaces.len())
        &&& forall|i: int|
            0 <= i < self.stack.len() ==> (#[trigger] self.stack[i]).within(
                self.fonts.len(),
                self.colorspaces.len(),
            )
    }

    /// The font of the current state.
    pub open spec fn current_font(self) -> Option<FontModel> {
        match self.gs.font {
            Some(i) if i < self.fonts.len() => Some(self.fonts[i as int].1),
            _ => None,
        }
    }

    /// The state with its graphics state replaced.
    pub open spec fn with_gs(self, gs: GsModel) -> ProcessorModel {
        ProcessorModel { gs, ..self }
    }

    /// The state with its path replaced.
    pub open spec fn with_path(self, path: Seq<PathOp>) -> ProcessorModel {
        ProcessorModel { path, ..self }
    }

    /// The state unchanged, with an action.
    pub open spec fn act(self, action: ActionModel) -> Result<Outcome, Failure> {
        Ok(Outcome { state: self, action })
    }

    /// The step of an operator that sets a colour space: the space that the
    /// first operand names joins the table and becomes current.
    pub open spec fn step_colorspace(self, doc: Document, resources: Dictionary, operands: Seq<Object>, stroke: bool) -> Result<
        Outcome,
        Failure,
    > {
        match spec_name_operand(operands, 0) {
            Err(e) => Err(e),
            Ok(name) => match spec_colorspace(doc, name, resources) {
                Err(e) => Err(e),
                Ok(cs) => if self.colorspaces.len() >= usize::MAX {
                    Err(Failure::InvalidStructure)
                } else {
                    let index = self.colorspaces.len() as usize;
                    let gs = if stroke {
                        GsModel { stroke_colorspace: index, ..self.gs }
                    } else {
                        GsModel { fill_colorspace: index, ..self.gs }
                    };
                    ProcessorModel { gs, colorspaces: self.colorspaces.push(cs), ..self }.act(
                        ActionModel::Nothing,
                    )
                },
            },
        }
    }

    /// The step of an operator that sets a colour: the operands as numbers,
    /// or no components at all where the current space is a pattern space.
    pub open spec fn step_color(self, operands: Seq<Object>, stroke: bool) -> Result<Outcome, Failure> {
        let index = if stroke {
            self.gs.stroke_colorspace
        } else {
            self.gs.fill_colorspace
        };
        let pattern = index < self.colorspaces.len() && self.colorspaces[index as int]
            == ColorSpaceModel::Pattern;
        let color = if pattern {
            Ok(Seq::empty())
        } else {
            spec_numbers(operands)
        };
        match color {
            Err(e) => Err(e),
            Ok(c) => {
                let gs = if stroke {
                    GsModel { stroke_color: c, ..self.gs }
                } else {
                    GsModel { fill_color: c, ..self.gs }
                };
                self.with_gs(gs).act(ActionModel::Nothing)
            },
        }
    }

    /// The step of `Tf`: the `Font` resources must be there and the first
    /// operand must be a name. A font not yet loaded under that name asks for
    /// it; a loaded one becomes current, the second operand being its size.
    pub open spec fn step_font(self, doc: Document, resources: Dictionary, operands: Seq<Object>) -> Result<
        Outcome,
        Failure,
    > {
        match spec_get_dict(doc, resources, "Font".spec_bytes()) {
            Err(e) => Err(e),
            Ok(_) => match spec_name_operand(operands, 0) {
                Err(e) => Err(e),
                Ok(name) => match font_index(self.fonts, name) {
                    None => self.act(ActionModel::LoadFont),
                    Some(i) => match spec_number_at(operands, 1) {
                        Err(e) => Err(e),
                        Ok(size) => self.with_gs(GsModel { font: Some(i as usize), ..self.gs }).act(
                            ActionModel::FontSize(size),
                        ),
                    },
                },
            },
        }
    }

    /// The step of `gs`: the extended graphics state that the first operand
    /// names in the resources is applied to the soft mask.
    pub open spec fn step_ext_gstate(self, doc: Document, resources: Dictionary, operands: Seq<Object>) -> Result<
        Outcome,
        Failure,
    > {
        match spec_get_dict(doc, resources, "ExtGState".spec_bytes()) {
            Err(e) => Err(e),
            Ok(states) => match spec_name_operand(operands, 0) {
                Err(e) => Err(e),
                Ok(name) => match spec_get_dict(doc, states, name) {
                    Err(e) => Err(e),
                    Ok(state) => match ext_gstate_fold(doc, self.gs.smask, state.entries@) {
                        Err(e) => Err(e),
                        Ok(smask) => self.with_gs(GsModel { smask, ..self.gs }).act(
                            ActionModel::Nothing,
                        ),
                    },
                },
            },
        }
    }

    /// The step of `Do`: the stream that the first operand names among the
    /// `XObject` resources is handed out as a form, with its own resources
    /// where it has a dictionary of them and the current ones otherwise.
    pub open spec fn step_xobject(self, doc: Document, resources: Dictionary, operands: Seq<Object>) -> Result<
        Outcome,
        Failure,
    > {
        match spec_get_dict(doc, resources, "XObject".spec_bytes()) {
            Err(e) => Err(e),
            Ok(xobjects) => match spec_name_operand(operands, 0) {
                Err(e) => Err(e),
                Ok(name) => match spec_get_stream(doc, xobjects, name) {
                    Err(e) => Err(e),
                    Ok(form) => self.act(
                        ActionModel::Form {
                            content: form.spec_contents(),
                            resources: match spec_maybe_get_obj(
                                doc,
                                form.dict,
                                "Resources".spec_bytes(),
                            ) {
                                Some(Object::Dictionary(d)) => d,
                                _ => resources,
                            },
                        },
                    ),
                },
            },
        }
    }

    /// The step of an operator that appends a segment built from the first
    /// `n` operands.
    pub open spec fn step_segment(self, operands: Seq<Object>, n: int, op: Operator) -> Result<
        Outcome,
        Failure,
    > {
        match spec_leading_numbers(operands, n) {
            Err(e) => Err(e),
            Ok(v) => {
                let segment = match op {
                    Operator::MoveTo => PathOp::MoveTo(v[0], v[1]),
                    Operator::LineTo => PathOp::LineTo(v[0], v[1]),
                    Operator::CurveTo => PathOp::CurveTo(v[0], v[1], v[2], v[3], v[4], v[5]),
                    Operator::CurveToEndControl => PathOp::CurveTo(
                        v[0],
                        v[1],
                        v[2],
                        v[3],
                        v[2],
                        v[3],
                    ),
                    _ => PathOp::Rect(v[0], v[1], v[2], v[3]),
                };
                self.with_path(self.path.push(segment)).act(ActionModel::Nothing)
            },
        }
    }

    /// The step of `v`: a curve whose first control point is the current
    /// point. Without a current point the operation is an error.
    pub open spec fn step_curve_from_current(self, operands: Seq<Object>) -> Result<Outcome, Failure> {
        match spec_current_point(self.path) {
            None => Err(Failure::InvalidStructure),
            Some((x, y)) => match spec_leading_numbers(operands, 4) {
                Err(e) => Err(e),
                Ok(v) => self.with_path(
                    self.path.push(PathOp::CurveTo(x, y, v[0], v[1], v[2], v[3])),
                ).act(ActionModel::Nothing),
            },
        }
    }

    /// The step of a text-showing operator: `Tj` shows its string; `TJ` shows
    /// the strings of its array and shifts by the numbers between them.
    pub open spec fn step_show(self, operands: Seq<Object>, array: bool) -> Result<Outcome, Failure> {
        if operands.len() == 0 {
            Err(Failure::InvalidStructure)
        } else if array {
            match operands[0] {
                Object::Array(items) => match spec_text_items(self.current_font(), items@) {
                    Err(e) => Err(e),
                    Ok(t) => self.act(ActionModel::ShowTextArray(t)),
                },
                _ => self.act(ActionModel::Nothing),
            }
        } else {
            match operands[0] {
                Object::Str(s, _) => match self.current_font() {
                    None => Err(Failure::InvalidStructure),
                    Some(f) => self.act(ActionModel::ShowText(spec_glyphs(f, s@))),
                },
                _ => self.act(ActionModel::Nothing),
            }
        }
    }

    /// The step of an operator with one numeric operand that the caller keeps.
    pub open spec fn step_scalar(self, operands: Seq<Object>, op: Operator) -> Result<Outcome, Failure> {
        match spec_number_at(operands, 0) {
            Err(e) => Err(e),
            Ok(n) => self.act(
                match op {
                    Operator::CharSpacing => ActionModel::CharSpacing(n),
                    Operator::WordSpacing => ActionModel::WordSpacing(n),
                    Operator::HorizontalScaling => ActionModel::HorizontalScaling(n),
                    Operator::Leading => ActionModel::Leading(n),
                    Operator::Rise => ActionModel::Rise(n),
                    _ => ActionModel::LineWidth(n),
                },
            ),
        }
    }

    /// One step of the interpreter: the state after the operation and the
    /// action it calls for, or the error it ends in.
    pub open spec fn step(self, doc: Document, resources: Dictionary, operator: Seq<char>, operands: Seq<Object>) -> Result<
        Outcome,
        Failure,
    > {
        match spec_classify(operator) {
            Operator::BeginText => self.act(ActionModel::ResetText),
            Operator::EndText => self.act(ActionModel::ResetText),
            Operator::Concat => match spec_matrix(operands) {
                Err(e) => Err(e),
                Ok(m) => self.act(ActionModel::Concat(m)),
            },
            Operator::StrokeColorSpace => self.step_colorspace(doc, resources, operands, true),
            Operator::FillColorSpace => self.step_colorspace(doc, resources, operands, false),
            Operator::StrokeColor => self.step_color(operands, true),
            Operator::FillColor => self.step_color(operands, false),
            Operator::ShowTextArray => self.step_show(operands, true),
            Operator::ShowText => self.step_show(operands, false),
            Operator::CharSpacing => self.step_scalar(operands, Operator::CharSpacing),
            Operator::WordSpacing => self.step_scalar(operands, Operator::WordSpacing),
            Operator::HorizontalScaling => self.step_scalar(operands, Operator::HorizontalScaling),
            Operator::Leading => self.step_scalar(operands, Operator::Leading),
            Operator::Font => self.step_font(doc, resources, operands),
            Operator::Rise => self.step_scalar(operands, Operator::Rise),
            Operator::TextMatrix => match spec_matrix(operands) {
                Err(e) => Err(e),
                Ok(m) => self.act(ActionModel::SetTextMatrix(m)),
            },
            Operator::MoveText => match spec_pair(operands) {
                Err(e) => Err(e),
                Ok((x, y)) => self.act(ActionModel::MoveText(x, y)),
            },
            Operator::MoveTextSetLeading => match spec_pair(operands) {
                Err(e) => Err(e),
                Ok((x, y)) => self.act(ActionModel::MoveTextSetLeading(x, y)),
            },
            Operator::NextLine => self.act(ActionModel::NextLine),
            Operator::Save => ProcessorModel { stack: self.stack.push(self.gs), ..self }.act(
                ActionModel::Save,
            ),
            Operator::Restore => if self.stack.len() > 0 {
                ProcessorModel { gs: self.stack.last(), stack: self.stack.drop_last(), ..self }.act(
                    ActionModel::Restore,
                )
            } else {
                self.act(ActionModel::Nothing)
            },
            Operator::ExtGState => self.step_ext_gstate(doc, resources, operands),
            Operator::MoveTo => self.step_segment(operands, 2, Operator::MoveTo),
            Operator::LineTo => self.step_segment(operands, 2, Operator::LineTo),
            Operator::CurveTo => self.step_segment(operands, 6, Operator::CurveTo),
            Operator::CurveToFromCurrent => self.step_curve_from_current(operands),
            Operator::CurveToEndControl => self.step_segment(
                operands,
                4,
                Operator::CurveToEndControl,
            ),
            Operator::ClosePath => self.with_path(self.path.push(PathOp::Close)).act(
                ActionModel::Nothing,
            ),
            Operator::Rectangle => self.step_segment(operands, 4, Operator::Rectangle),
            Operator::Stroke => self.with_path(Seq::empty()).act(
                ActionModel::Stroke {
                    colorspace: self.gs.stroke_colorspace,
                    color: self.gs.stroke_color,
                    path: self.path,
                },
            ),
            Operator::Fill => self.with_path(Seq::empty()).act(
                ActionModel::Fill {
                    colorspace: self.gs.fill_colorspace,
                    color: self.gs.fill_color,
                    path: self.path,
                },
            ),
            Operator::EndPath => self.with_path(Seq::empty()).act(ActionModel::Nothing),
            Operator::BeginMarkedContent => ProcessorModel {
                marked_content: if self.marked_content < usize::MAX {
                    (self.marked_content + 1) as usize
                } else {
                    self.marked_content
                },
                ..self
            }.act(ActionModel::Nothing),
            Operator::EndMarkedContent => ProcessorModel {
                marked_content: if self.marked_content > 0 {
                    (self.marked_content - 1) as usize
                } else {
                    0
                },
                ..self
            }.act(ActionModel::Nothing),
            Operator::XObject => self.step_xobject(doc, resources, operands),
            Operator::LineWidth => self.step_scalar(operands, Operator::LineWidth),
            Operator::Other => self.act(ActionModel::Nothing),
        }
    }

    /// Loading a font under `name`: the `Font` resources must hold a
    /// dictionary of that name, from which the font is built and added to
    /// the table. A name already loaded changes nothing.
    pub open spec fn load_font(
        self,
        doc: Document,
        resources: Dictionary,
        name: Seq<u8>,
        tables: FontTables,
        programs: FontPrograms,
    ) -> Result<ProcessorModel, Failure> {
        if font_index(self.fonts, name) is Some {
            Ok(self)
        } else {
            match spec_font_dictionary(doc, resources, name) {
                Err(e) => Err(e),
                Ok(dict) => match spec_make_font(doc, dict, tables, programs) {
                    Err(e) => Err(e),
                    Ok(font) => Ok(ProcessorModel { fonts: self.fonts.push((name, font)), ..self }),
                },
            }
        }
    }
}

/// How deep forms may be nested. A form that draws itself, directly or through
/// others, would otherwise never end.
pub const MAX_FORM_DEPTH: usize = 64;

/// The depth of a form entered from depth `depth`: one more, as long as that
/// stays within `MAX_FORM_DEPTH`.
pub open spec fn spec_enter_form(depth: usize) -> Result<usize, Failure> {
    if depth < MAX_FORM_DEPTH {
        Ok((depth + 1) as usize)
    } else {
        Err(Failure::InvalidStructure)
    }
}

/// The depth of a form entered from depth `depth`; `InvalidStructure` when
/// forms are nested deeper than `MAX_FORM_DEPTH`.
pub fn enter_form(depth: usize) -> (r: PdfResult<usize>)
    ensures
        crate::error::agrees(r, spec_enter_form(depth)),
{
    if depth < MAX_FORM_DEPTH {
        Ok(depth + 1)
    } else {
        Err(PdfError::invalid("Forms nested too deep"))
    }
}

/// The dictionary of the font that `name` stands for in `resources`.
pub open spec fn spec_font_dictionary(doc: Document, resources: Dictionary, name: Seq<u8>) -> Result<
    Dictionary,
    Failure,
> {
    match spec_get_dict(doc, resources, "Font".spec_bytes()) {
        Err(e) => Err(e),
        Ok(fonts) => spec_get_dict(doc, fonts, name),
    }
}

/// The dictionary of the font that `name` stands for in `resources`, with the
/// errors of a missing `Font` dictionary or entry.
pub fn font_dictionary<'a>(doc: &'a Document, resources: &'a Dictionary, name: &[u8]) -> (r:
    PdfResult<&'a Dictionary>)
    ensures
        crate::object_utils::agrees_ref(r, spec_font_dictionary(*doc, *resources, name@)),
{
    let fonts = get_dict(doc, resources, "Font".as_bytes())?;
    get_dict(doc, fonts, name)
}

/// A font found among the first `k` fonts is the font found among all.
proof fn lemma_font_index_prefix(fonts: Seq<(Seq<u8>, FontModel)>, name: Seq<u8>, k: int)
    requires
        0 <= k <= fonts.len(),
        font_index(fonts.take(k), name) is Some,
    ensures
        font_index(fonts, name) == font_index(fonts.take(k), name),
    decreases fonts.len() - k,
{
    if k < fonts.len() {
        assert(fonts.take(k + 1).drop_last() =~= fonts.take(k));
        lemma_font_index_prefix(fonts, name, k + 1);
    } else {
        assert(fonts.take(k) =~= fonts);
    }
}

/// Once a prefix of a text array fails, the whole array fails.
proof fn lemma_text_items_fail(font: Option<FontModel>, items: Seq<Object>, k: int)
    requires
        0 <= k <= items.len(),
        spec_text_items(font, items.take(k)) is Err,
    ensures
        spec_text_items(font, items) == spec_text_items(font, items.take(k)),
        spec_text_items(font, items) == Err::<Seq<TextItemModel>, Failure>(Failure::InvalidStructure),
    decreases items.len() - k,
{
    lemma_text_items_error(font, items.take(k));
    if k < items.len() {
        assert(items.take(k + 1).drop_last() =~= items.take(k));
        lemma_text_items_fail(font, items, k + 1);
    } else {
        assert(items.take(k) =~= items);
    }
}

/// The only error of a text array is `InvalidStructure`.
proof fn lemma_text_items_error(font: Option<FontModel>, items: Seq<Object>)
    ensures
        spec_text_items(font, items) matches Err(e) ==> e == Failure::InvalidStructure,
    decreases items.len(),
{
    if items.len() > 0 {
        lemma_text_items_error(font, items.drop_last());
    }
}

/// The interpreter of one content stream. Its fonts are a table by resource
/// name, kept in the order of loading so that a graphics state can name a
/// font by its place; a name is entered once and never again.
pub struct Processor<'a> {
    gs: GraphicsState<'a>,
    gs_stack: Vec<GraphicsState<'a>>,
    marked_content: usize,
    path: Path,
    fonts: Vec<(Vec<u8>, PdfFont)>,
    colorspaces: Vec<ColorSpace>,
}

impl<'a> View for Processor<'a> {
    type V = ProcessorModel;

    closed spec fn view(&self) -> ProcessorModel {
        ProcessorModel {
            gs: self.gs@,
            stack: Seq::new(self.gs_stack@.len(), |i: int| self.gs_stack@[i]@),
            marked_content: self.marked_content,
            path: self.path.ops@,
            fonts: Seq::new(self.fonts@.len(), |i: int| (self.fonts@[i].0@, self.fonts@[i].1@)),
            colorspaces: Seq::new(self.colorspaces@.len(), |i: int| self.colorspaces@[i]@),
        }
    }
}

impl<'a> Processor<'a> {
    /// An interpreter at the start of a content stream.
    pub fn new() -> (p: Processor<'a>)
        ensures
            p@ == ProcessorModel::initial(),
            p@.wf(),
    {
        let mut colorspaces: Vec<ColorSpace> = Vec::new();
        colorspaces.push(ColorSpace::DeviceGray);
        let p = Processor {
            gs: GraphicsState::new(),
            gs_stack: Vec::new(),
            marked_content: 0,
            path: Path::new(),
            fonts: Vec::new(),
            colorspaces,
        };
        proof {
            assert(p@.stack =~= Seq::empty());
            assert(p@.fonts =~= Seq::empty());
            assert(p@.colorspaces =~= seq![ColorSpaceModel::DeviceGray]);
            assert(p@.path =~= Seq::empty());
        }
        p
    }

    /// The current graphics state.
    pub fn graphics_state(&self) -> (gs: &GraphicsState<'a>)
        ensures
            gs@ == self@.gs,
    {
        &self.gs
    }

    /// The number of saved graphics states.
    pub fn depth(&self) -> (n: usize)
        ensures
            n == self@.stack.len(),
    {
        self.gs_stack.len()
    }

    /// The path under construction.
    pub fn path(&self) -> (p: &Path)
        ensures
            p.ops@ == self@.path,
    {
        &self.path
    }

    /// The font at `index` of the font table.
    pub fn font(&self, index: usize) -> (f: Option<&PdfFont>)
        ensures
            match f {
                Some(x) => index < self@.fonts.len() && x@ == self@.fonts[index as int].1,
                None => index >= self@.fonts.len(),
            },
    {
        if index < self.fonts.len() {
            Some(&self.fonts[index].1)
        } else {
            None
        }
    }

    /// The colour space at `index` of the colour-space table.
    pub fn colorspace(&self, index: usize) -> (c: Option<&ColorSpace>)
        ensures
            match c {
                Some(x) => index < self@.colorspaces.len() && x@ == self@.colorspaces[index as int],
                None => index >= self@.colorspaces.len(),
            },
    {
        if index < self.colorspaces.len() {
            Some(&self.colorspaces[index])
        } else {
            None
        }
    }

    /// The index of the font loaded under `name`.
    pub fn find_font(&self, name: &[u8]) -> (r: Option<usize>)
        ensures
            match r {
                Some(i) => font_index(self@.fonts, name@) == Some(i as int) && i
                    < self@.fonts.len(),
                None => font_index(self@.fonts, name@) is None,
            },
    {
        let mut i: usize = 0;
        while i < self.fonts.len()
            invariant
                0 <= i <= self.fonts@.len(),
                font_index(self@.fonts.take(i as int), name@) is None,
            decreases self.fonts@.len() - i,
        {
            proof {
                assert(self@.fonts.take(i + 1).drop_last() =~= self@.fonts.take(i as int));
                assert(self@.fonts.take(i + 1).last() == self@.fonts[i as int]);
            }
            if bytes_eq(self.fonts[i].0.as_slice(), name) {
                proof {
                    lemma_font_index_prefix(self@.fonts, name@, i + 1);
                }
                return Some(i);
            }
            i += 1;
        }
        proof {
            assert(self@.fonts.take(i as int) =~= self@.fonts);
        }
        None
    }

    /// The font of the current state.
    fn current_font(&self) -> (f: Option<&PdfFont>)
        ensures
            match f {
                Some(x) => self@.current_font() == Some(x@),
                None => self@.current_font() is None,
            },
    {
        match self.gs.font {
            Some(i) => self.font(i),
            None => None,
        }
    }

    /// Whether a result of a step is the outcome that the model names, the
    /// state being unchanged on an error.
    pub open spec fn steps_to(
        before: ProcessorModel,
        after: ProcessorModel,
        r: PdfResult<Action<'a>>,
        want: Result<Outcome, Failure>,
    ) -> bool {
        match r {
            Ok(a) => want == Ok::<Outcome, Failure>(Outcome { state: after, action: a@ }),
            Err(e) => want == Err::<Outcome, Failure>(e.kind()) && after == before,
        }
    }

    /// The glyphs of the items of a text array.
    fn text_items(&self, items: &Vec<Object>) -> (r: PdfResult<Vec<TextItem>>)
        ensures
            match r {
                Ok(t) => spec_text_items(self@.current_font(), items@) == Ok::<
                    Seq<TextItemModel>,
                    Failure,
                >(item_models(t@)),
                Err(e) => spec_text_items(self@.current_font(), items@) == Err::<
                    Seq<TextItemModel>,
                    Failure,
                >(e.kind()),
            },
    {
        let font = self.current_font();
        let mut out: Vec<TextItem> = Vec::new();
        let mut i: usize = 0;
        assert(item_models(out@) =~= Seq::empty());
        while i < items.len()
            invariant
                0 <= i <= items@.len(),
                match font {
                    Some(x) => self@.current_font() == Some(x@),
                    None => self@.current_font() is None,
                },
                spec_text_items(self@.current_font(), items@.take(i as int)) == Ok::<
                    Seq<TextItemModel>,
                    Failure,
                >(item_models(out@)),
            decreases items@.len() - i,
        {
            proof {
                assert(items@.take(i + 1).drop_last() =~= items@.take(i as int));
                assert(items@.take(i + 1).last() == items@[i as int]);
            }
            let ghost head = item_models(out@);
            match &items[i] {
                Object::Str(s, _) => match font {
                    Some(f) => {
                        let g = glyphs(f, s.as_slice());
                        out.push(TextItem::Show(g));
                        assert(item_models(out@) =~= head.push(
                            TextItemModel::Show(spec_glyphs(f@, s@)),
                        ));
                    },
                    None => {
                        proof {
                            lemma_text_items_fail(self@.current_font(), items@, i + 1);
                        }
                        return Err(PdfError::invalid("No font set"));
                    },
                },
                Object::Integer(n) => {
                    out.push(TextItem::Adjust(Number::Integer(*n)));
                    assert(item_models(out@) =~= head.push(
                        TextItemModel::Adjust(Number::Integer(*n)),
                    ));
                },
                Object::Real(bits) => {
                    out.push(TextItem::Adjust(Number::Real(*bits)));
                    assert(item_models(out@) =~= head.push(
                        TextItemModel::Adjust(Number::Real(*bits)),
                    ));
                },
                _ => {},
            }
            i += 1;
        }
        proof {
            assert(items@.take(i as int) =~= items@);
        }
        Ok(out)
    }

    /// The step of a text-showing operator.
    fn show(&self, operands: &Vec<Object>, array: bool) -> (r: PdfResult<Action<'a>>)
        ensures
            Self::steps_to(self@, self@, r, self@.step_show(operands@, array)),
    {
        if operands.len() == 0 {
            return Err(PdfError::invalid("Missing operand"));
        }
        if array {
            match &operands[0] {
                Object::Array(items) => {
                    let t = self.text_items(items)?;
                    Ok(Action::ShowTextArray(t))
                },
                _ => Ok(Action::Nothing),
            }
        } else {
            match &operands[0] {
                Object::Str(s, _) => match self.current_font() {
                    None => Err(PdfError::invalid("No font set")),
                    Some(f) => Ok(Action::ShowText(glyphs(f, s.as_slice()))),
                },
                _ => Ok(Action::Nothing),
            }
        }
    }

    /// The step of an operator that sets a colour space.
    fn set_colorspace(
        &mut self,
        doc: &Document,
        resources: &Dictionary,
        operands: &Vec<Object>,
        stroke: bool,
    ) -> (r: PdfResult<Action<'a>>)
        ensures
            Self::steps_to(
                old(self)@,
                final(self)@,
                r,
                old(self)@.step_colorspace(*doc, *resources, operands@, stroke),
            ),
    {
        let name = name_operand(operands, 0)?;
        let cs = make_colorspace(doc, name, resources)?;
        if self.colorspaces.len() == usize::MAX {
            return Err(PdfError::invalid("Too many colour spaces"));
        }
        let index: usize = self.colorspaces.len();
        let ghost before = self@;
        let ghost model = cs@;
        self.colorspaces.push(cs);
        if stroke {
            self.gs.stroke_colorspace = index;
        } else {
            self.gs.fill_colorspace = index;
        }
        proof {
            assert(self@.colorspaces =~= before.colorspaces.push(model));
            assert(self@.stack =~= before.stack);
            assert(self@.fonts =~= before.fonts);
        }
        Ok(Action::Nothing)
    }

    /// The step of an operator that sets a colour.
    fn set_color(&mut self, operands: &Vec<Object>, stroke: bool) -> (r: PdfResult<Action<'a>>)
        ensures
            Self::steps_to(old(self)@, final(self)@, r, old(self)@.step_color(operands@, stroke)),
    {
        let index: usize = if stroke {
            self.gs.stroke_colorspace
        } else {
            self.gs.fill_colorspace
        };
        let pattern: bool = match self.colorspace(index) {
            Some(ColorSpace::Pattern) => true,
            _ => false,
        };
        let color: Vec<Number> = if pattern {
            Vec::new()
        } else {
            numbers_of(operands.as_slice())?
        };
        let ghost before = self@;
        if stroke {
            self.gs.stroke_color = color;
        } else {
            self.gs.fill_color = color;
        }
        proof {
            assert(self@.stack =~= before.stack);
            assert(self@.fonts =~= before.fonts);
            assert(self@.colorspaces =~= before.colorspaces);
        }
        Ok(Action::Nothing)
    }

    /// The step of `Tf`.
    fn set_font(&mut self, doc: &Document, resources: &Dictionary, operands: &Vec<Object>) -> (r:
        PdfResult<Action<'a>>)
        ensures
            Self::steps_to(
                old(self)@,
                final(self)@,
                r,
                old(self)@.step_font(*doc, *resources, operands@),
            ),
    {
        let _ = get_dict(doc, resources, "Font".as_bytes())?;
        let name = name_operand(operands, 0)?;
        match self.find_font(name) {
            None => Ok(Action::LoadFont),
            Some(i) => {
                let size = number_at(operands, 1)?;
                let ghost before = self@;
                self.gs.font = Some(i);
                proof {
                    assert(self@.stack =~= before.stack);
                    assert(self@.fonts =~= before.fonts);
                    assert(self@.colorspaces =~= before.colorspaces);
                }
                Ok(Action::FontSize(size))
            },
        }
    }

    /// The step of `gs`.
    fn ext_gstate(&mut self, doc: &'a Document, resources: &'a Dictionary, operands: &Vec<Object>) -> (r:
        PdfResult<Action<'a>>)
        ensures
            Self::steps_to(
                old(self)@,
                final(self)@,
                r,
                old(self)@.step_ext_gstate(*doc, *resources, operands@),
            ),
    {
        let states = get_dict(doc, resources, "ExtGState".as_bytes())?;
        let name = name_operand(operands, 0)?;
        let state = get_dict(doc, states, name)?;
        let smask = apply_state(doc, self.gs.smask, state)?;
        let ghost before = self@;
        self.gs.smask = smask;
        proof {
            assert(self@.stack =~= before.stack);
            assert(self@.fonts =~= before.fonts);
            assert(self@.colorspaces =~= before.colorspaces);
        }
        Ok(Action::Nothing)
    }

    /// The step of `Do`.
    fn xobject(&self, doc: &'a Document, resources: &'a Dictionary, operands: &Vec<Object>) -> (r:
        PdfResult<Action<'a>>)
        ensures
            Self::steps_to(self@, self@, r, self@.step_xobject(*doc, *resources, operands@)),
    {
        let xobjects = get_dict(doc, resources, "XObject".as_bytes())?;
        let name = name_operand(operands, 0)?;
        let form = get_stream(doc, xobjects, name)?;
        let own: &'a Dictionary = match maybe_get_obj(doc, &form.dict, "Resources".as_bytes()) {
            Some(Object::Dictionary(d)) => d,
            _ => resources,
        };
        Ok(Action::Form { content: form.contents(), resources: own })
    }

    /// The step of an operator that appends a segment.
    fn segment(&mut self, operands: &Vec<Object>, n: usize, op: Operator) -> (r: PdfResult<
        Action<'a>,
    >)
        requires
            match op {
                Operator::MoveTo => n == 2,
                Operator::LineTo => n == 2,
                Operator::CurveTo => n == 6,
                _ => n == 4,
            },
        ensures
            Self::steps_to(
                old(self)@,
                final(self)@,
                r,
                old(self)@.step_segment(operands@, n as int, op),
            ),
    {
        let v = leading_numbers(operands, n)?;
        let segment = match op {
            Operator::MoveTo => PathOp::MoveTo(v[0], v[1]),
            Operator::LineTo => PathOp::LineTo(v[0], v[1]),
            Operator::CurveTo => PathOp::CurveTo(v[0], v[1], v[2], v[3], v[4], v[5]),
            Operator::CurveToEndControl => PathOp::CurveTo(v[0], v[1], v[2], v[3], v[2], v[3]),
            _ => PathOp::Rect(v[0], v[1], v[2], v[3]),
        };
        let ghost before = self@;
        self.path.ops.push(segment);
        proof {
            assert(self@.stack =~= before.stack);
            assert(self@.fonts =~= before.fonts);
            assert(self@.colorspaces =~= before.colorspaces);
        }
        Ok(Action::Nothing)
    }

    /// The step of `v`.
    fn curve_from_current(&mut self, operands: &Vec<Object>) -> (r: PdfResult<Action<'a>>)
        ensures
            Self::steps_to(
                old(self)@,
                final(self)@,
                r,
                old(self)@.step_curve_from_current(operands@),
            ),
    {
        let (x, y) = match self.path.current_point() {
            Some(p) => p,
            None => {
                return Err(PdfError::invalid("No current point"));
            },
        };
        let v = leading_numbers(operands, 4)?;
        let ghost before = self@;
        self.path.ops.push(PathOp::CurveTo(x, y, v[0], v[1], v[2], v[3]));
        proof {
            assert(self@.stack =~= before.stack);
            assert(self@.fonts =~= before.fonts);
            assert(self@.colorspaces =~= before.colorspaces);
        }
        Ok(Action::Nothing)
    }

    /// Put `path` in place of the path under construction and hand out what
    /// was there.
    fn replace_path(&mut self, path: Path) -> (old_path: Path)
        ensures
            old_path.ops@ == old(self)@.path,
            final(self)@ == old(self)@.with_path(path.ops@),
    {
        let ghost before = self@;
        let mut p = path;
        core::mem::swap(&mut self.path, &mut p);
        proof {
            assert(self@.stack =~= before.stack);
            assert(self@.fonts =~= before.fonts);
            assert(self@.colorspaces =~= before.colorspaces);
        }
        p
    }

    /// The step of an operator with one numeric operand that the caller keeps.
    fn scalar(&self, operands: &Vec<Object>, op: Operator) -> (r: PdfResult<Action<'a>>)
        ensures
            Self::steps_to(self@, self@, r, self@.step_scalar(operands@, op)),
    {
        let n = number_at(operands, 0)?;
        Ok(
            match op {
                Operator::CharSpacing => Action::CharSpacing(n),
                Operator::WordSpacing => Action::WordSpacing(n),
                Operator::HorizontalScaling => Action::HorizontalScaling(n),
                Operator::Leading => Action::Leading(n),
                Operator::Rise => Action::Rise(n),
                _ => Action::LineWidth(n),
            },
        )
    }

    /// The step of `q`.
    fn save(&mut self) -> (r: PdfResult<Action<'a>>)
        ensures
            Self::steps_to(
                old(self)@,
                final(self)@,
                r,
                (ProcessorModel { stack: old(self)@.stack.push(old(self)@.gs), ..old(self)@ }).act(
                    ActionModel::Save,
                ),
            ),
    {
        let ghost before = self@;
        let copy = self.gs.clone();
        self.gs_stack.push(copy);
        proof {
            assert(self@.stack =~= before.stack.push(before.gs));
            assert(self@.fonts =~= before.fonts);
            assert(self@.colorspaces =~= before.colorspaces);
        }
        Ok(Action::Save)
    }

    /// The step of `Q`.
    fn restore(&mut self) -> (r: PdfResult<Action<'a>>)
        ensures
            Self::steps_to(
                old(self)@,
                final(self)@,
                r,
                if old(self)@.stack.len() > 0 {
                    (ProcessorModel {
                        gs: old(self)@.stack.last(),
                        stack: old(self)@.stack.drop_last(),
                        ..old(self)@
                    }).act(ActionModel::Restore)
                } else {
                    old(self)@.act(ActionModel::Nothing)
                },
            ),
    {
        let ghost before = self@;
        match self.gs_stack.pop() {
            Some(gs) => {
                self.gs = gs;
                proof {
                    assert(self@.stack =~= before.stack.drop_last());
                    assert(self@.gs == before.stack.last());
                    assert(self@.fonts =~= before.fonts);
                    assert(self@.colorspaces =~= before.colorspaces);
                }
                Ok(Action::Restore)
            },
            None => {
                proof {
                    assert(self@.stack =~= before.stack);
                    assert(self@.fonts =~= before.fonts);
                    assert(self@.colorspaces =~= before.colorspaces);
                }
                Ok(Action::Nothing)
            },
        }
    }

    /// Interpret one operation: change the state as the operator says and
    /// return the action it calls for. On an error the state is unchanged.
    pub fn step(&mut self, doc: &'a Document, resources: &'a Dictionary, op: &Operation) -> (r:
        PdfResult<Action<'a>>)
        ensures
            Self::steps_to(
                old(self)@,
                final(self)@,
                r,
                old(self)@.step(*doc, *resources, op.operator@, op.operands@),
            ),
            old(self)@.wf() ==> final(self)@.wf(),
    {
        proof {
            if self@.wf() {
                crate::interpreter_laws::lemma_step_keeps_wf(
                    self@,
                    *doc,
                    *resources,
                    op.operator@,
                    op.operands@,
                );
            }
        }
        let operands = &op.operands;
        match classify(op.operator.as_str()) {
            Operator::BeginText => Ok(Action::ResetText),
            Operator::EndText => Ok(Action::ResetText),
            Operator::Concat => Ok(Action::Concat(matrix_of(operands)?)),
            Operator::StrokeColorSpace => self.set_colorspace(doc, resources, operands, true),
            Operator::FillColorSpace => self.set_colorspace(doc, resources, operands, false),
            Operator::StrokeColor => self.set_color(operands, true),
            Operator::FillColor => self.set_color(operands, false),
            Operator::ShowTextArray => self.show(operands, true),
            Operator::ShowText => self.show(operands, false),
            Operator::CharSpacing => self.scalar(operands, Operator::CharSpacing),
            Operator::WordSpacing => self.scalar(operands, Operator::WordSpacing),
            Operator::HorizontalScaling => self.scalar(operands, Operator::HorizontalScaling),
            Operator::Leading => self.scalar(operands, Operator::Leading),
            Operator::Font => self.set_font(doc, resources, operands),
            Operator::Rise => self.scalar(operands, Operator::Rise),
            Operator::TextMatrix => Ok(Action::SetTextMatrix(matrix_of(operands)?)),
            Operator::MoveText => {
                let (x, y) = pair_of(operands)?;
                Ok(Action::MoveText(x, y))
            },
            Operator::MoveTextSetLeading => {
                let (x, y) = pair_of(operands)?;
                Ok(Action::MoveTextSetLeading(x, y))
            },
            Operator::NextLine => Ok(Action::NextLine),
            Operator::Save => self.save(),
            Operator::Restore => self.restore(),
            Operator::ExtGState => self.ext_gstate(doc, resources, operands),
            Operator::MoveTo => self.segment(operands, 2, Operator::MoveTo),
            Operator::LineTo => self.segment(operands, 2, Operator::LineTo),
            Operator::CurveTo => self.segment(operands, 6, Operator::CurveTo),
            Operator::CurveToFromCurrent => self.curve_from_current(operands),
            Operator::CurveToEndControl => self.segment(operands, 4, Operator::CurveToEndControl),
            Operator::ClosePath => {
                let ghost before = self@;
                self.path.ops.push(PathOp::Close);
                proof {
                    assert(self@.stack =~= before.stack);
                    assert(self@.fonts =~= before.fonts);
                    assert(self@.colorspaces =~= before.colorspaces);
                }
                Ok(Action::Nothing)
            },
            Operator::Rectangle => self.segment(operands, 4, Operator::Rectangle),
            Operator::Stroke => {
                let colorspace = self.gs.stroke_colorspace;
                let color = crate::function::copy_numbers(&self.gs.stroke_color);
                let path = self.replace_path(Path::new());
                assert(self@.path =~= Seq::empty());
                Ok(Action::Stroke { colorspace, color, path })
            },
            Operator::Fill => {
                let colorspace = self.gs.fill_colorspace;
                let color = crate::function::copy_numbers(&self.gs.fill_color);
                let path = self.replace_path(Path::new());
                assert(self@.path =~= Seq::empty());
                Ok(Action::Fill { colorspace, color, path })
            },
            Operator::EndPath => {
                let _ = self.replace_path(Path::new());
                assert(self@.path =~= Seq::empty());
                Ok(Action::Nothing)
            },
            Operator::BeginMarkedContent => {
                let ghost before = self@;
                if self.marked_content < usize::MAX {
                    self.marked_content = self.marked_content + 1;
                }
                proof {
                    assert(self@.stack =~= before.stack);
                    assert(self@.fonts =~= before.fonts);
                    assert(self@.colorspaces =~= before.colorspaces);
                }
                Ok(Action::Nothing)
            },
            Operator::EndMarkedContent => {
                let ghost before = self@;
                if self.marked_content > 0 {
                    self.marked_content = self.marked_content - 1;
                }
                proof {
                    assert(self@.stack =~= before.stack);
                    assert(self@.fonts =~= before.fonts);
                    assert(self@.colorspaces =~= before.colorspaces);
                }
                Ok(Action::Nothing)
            },
            Operator::XObject => self.xobject(doc, resources, operands),
            Operator::LineWidth => self.scalar(operands, Operator::LineWidth),
            Operator::Other => Ok(Action::Nothing),
        }
    }

    /// Load the font that `name` stands for in `resources`, unless a font of
    /// that name is loaded already. `programs` is what the parsers made of the
    /// font's embedded streams.
    pub fn load_font(
        &mut self,
        doc: &Document,
        resources: &Dictionary,
        name: &[u8],
        tables: &FontTables,
        programs: &FontPrograms,
    ) -> (r: PdfResult<()>)
        ensures
            match r {
                Ok(_) => old(self)@.load_font(*doc, *resources, name@, *tables, *programs) == Ok::<
                    ProcessorModel,
                    Failure,
                >(final(self)@),
                Err(e) => old(self)@.load_font(*doc, *resources, name@, *tables, *programs) == Err::<
                    ProcessorModel,
                    Failure,
                >(e.kind()) && final(self)@ == old(self)@,
            },
            old(self)@.wf() ==> final(self)@.wf(),
    {
        proof {
            if self@.wf() {
                crate::interpreter_laws::lemma_load_font_keeps_wf(
                    self@,
                    *doc,
                    *resources,
                    name@,
                    *tables,
                    *programs,
                );
            }
        }
        if self.find_font(name).is_some() {
            return Ok(());
        }
        let dict = font_dictionary(doc, resources, name)?;
        let font = make_font(doc, dict, tables, programs)?;
        let ghost before = self@;
        let ghost model = font@;
        self.fonts.push((vstd::slice::slice_to_vec(name), font));
        proof {
            assert(self@.fonts =~= before.fonts.push((name@, model)));
            assert(self@.stack =~= before.stack);
            assert(self@.colorspaces =~= before.colorspaces);
        }
        Ok(())
    }
}

} // verus!
