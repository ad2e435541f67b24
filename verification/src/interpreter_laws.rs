//! What holds of every run of the interpreter.

use vstd::prelude::*;
use crate::content::{spec_classify, spec_name_operand, Matrix, Operator};
use crate::error::Failure;
use crate::object::{Dictionary, Document, Number, Object};
use crate::processor::{font_index, ActionModel, ProcessorModel};
use crate::font::FontModel;
use crate::tables::{FontPrograms, FontTables};

verus! {

/// An operation as contracts see it.
pub struct OperationModel {
    pub operator: Seq<char>,
    pub operands: Seq<Object>,
}

/// The state after a sequence of operations, or the first error.
pub open spec fn run(m: ProcessorModel, doc: Document, resources: Dictionary, ops: Seq<OperationModel>) -> Result<
    ProcessorModel,
    Failure,
>
    decreases ops.len(),
{
    if ops.len() == 0 {
        Ok(m)
    } else {
        match run(m, doc, resources, ops.drop_last()) {
            Err(e) => Err(e),
            Ok(s) => match s.step(doc, resources, ops.last().operator, ops.last().operands) {
                Err(e) => Err(e),
                Ok(o) => Ok(o.state),
            },
        }
    }
}

/// A run that succeeds with more than `n` states saved.
pub open spec fn stays_above(r: Result<ProcessorModel, Failure>, n: nat) -> bool {
    match r {
        Ok(s) => s.stack.len() > n,
        Err(_) => false,
    }
}

/// A font that is found is found within the table.
pub proof fn lemma_font_index_bound(fonts: Seq<(Seq<u8>, FontModel)>, name: Seq<u8>)
    ensures
        font_index(fonts, name) matches Some(i) ==> 0 <= i < fonts.len() && fonts[i].0 == name,
    decreases fonts.len(),
{
    if fonts.len() > 0 {
        lemma_font_index_bound(fonts.drop_last(), name);
        match font_index(fonts.drop_last(), name) {
            Some(i) => {
                assert(fonts.drop_last()[i] == fonts[i]);
            },
            None => {},
        }
    }
}

/// What one step does to the stack of saved states: nothing, or it saves the
/// current state on top, or it takes the top as the current state. Tables
/// only grow, and only a step that leaves the stack alone changes the
/// current state in place.
pub proof fn lemma_step_stack(
    m: ProcessorModel,
    doc: Document,
    resources: Dictionary,
    operator: Seq<char>,
    operands: Seq<Object>,
)
    ensures
        m.step(doc, resources, operator, operands) matches Ok(o) ==> {
            &&& o.state.fonts == m.fonts
            &&& o.state.colorspaces.len() >= m.colorspaces.len()
            &&& match spec_classify(operator) {
                Operator::Save => o.state.stack == m.stack.push(m.gs) && o.state.gs == m.gs,
                Operator::Restore => if m.stack.len() > 0 {
                    o.state.stack == m.stack.drop_last() && o.state.gs == m.stack.last()
                } else {
                    o.state.stack == m.stack && o.state.gs == m.gs
                },
                _ => o.state.stack == m.stack,
            }
        },
{
    let r = m.step(doc, resources, operator, operands);
    match spec_classify(operator) {
        Operator::StrokeColorSpace => {
            assert(r == m.step_colorspace(doc, resources, operands, true));
        },
        Operator::FillColorSpace => {
            assert(r == m.step_colorspace(doc, resources, operands, false));
        },
        Operator::StrokeColor => {
            assert(r == m.step_color(operands, true));
        },
        Operator::FillColor => {
            assert(r == m.step_color(operands, false));
        },
        Operator::ShowTextArray => {
            assert(r == m.step_show(operands, true));
        },
        Operator::ShowText => {
            assert(r == m.step_show(operands, false));
        },
        Operator::Font => {
            assert(r == m.step_font(doc, resources, operands));
        },
        Operator::ExtGState => {
            assert(r == m.step_ext_gstate(doc, resources, operands));
        },
        Operator::XObject => {
            assert(r == m.step_xobject(doc, resources, operands));
        },
        Operator::CurveToFromCurrent => {
            assert(r == m.step_curve_from_current(operands));
        },
        Operator::MoveTo => {
            assert(r == m.step_segment(operands, 2, Operator::MoveTo));
        },
        Operator::LineTo => {
            assert(r == m.step_segment(operands, 2, Operator::LineTo));
        },
        Operator::CurveTo => {
            assert(r == m.step_segment(operands, 6, Operator::CurveTo));
        },
        Operator::CurveToEndControl => {
            assert(r == m.step_segment(operands, 4, Operator::CurveToEndControl));
        },
        Operator::Rectangle => {
            assert(r == m.step_segment(operands, 4, Operator::Rectangle));
        },
        _ => {},
    }
}

/// A step keeps every index of the current and the saved states within the
/// tables.
pub proof fn lemma_step_keeps_wf(
    m: ProcessorModel,
    doc: Document,
    resources: Dictionary,
    operator: Seq<char>,
    operands: Seq<Object>,
)
    requires
        m.wf(),
    ensures
        m.step(doc, resources, operator, operands) matches Ok(o) ==> o.state.wf(),
{
    match m.step(doc, resources, operator, operands) {
        Ok(o) => {
            lemma_step_stack(m, doc, resources, operator, operands);
            match spec_classify(operator) {
                Operator::Font => {
                    match spec_name_operand(operands, 0) {
                        Ok(name) => {
                            lemma_font_index_bound(m.fonts, name);
                        },
                        Err(_) => {},
                    }
                },
                Operator::Save => {
                    assert forall|i: int| 0 <= i < o.state.stack.len() implies (
                    #[trigger] o.state.stack[i]).within(
                        o.state.fonts.len(),
                        o.state.colorspaces.len(),
                    ) by {
                        if i < m.stack.len() {
                            assert(o.state.stack[i] == m.stack[i]);
                        }
                    }
                },
                Operator::Restore => {
                    if m.stack.len() > 0 {
                        assert(m.stack.last() == m.stack[m.stack.len() - 1]);
                        assert forall|i: int| 0 <= i < o.state.stack.len() implies (
                        #[trigger] o.state.stack[i]).within(
                            o.state.fonts.len(),
                            o.state.colorspaces.len(),
                        ) by {
                            assert(o.state.stack[i] == m.stack[i]);
                        }
                    }
                },
                _ => {
                    assert forall|i: int| 0 <= i < o.state.stack.len() implies (
                    #[trigger] o.state.stack[i]).within(
                        o.state.fonts.len(),
                        o.state.colorspaces.len(),
                    ) by {
                        assert(o.state.stack[i] == m.stack[i]);
                    }
                },
            }
        },
        Err(_) => {},
    }
}

/// At the start of a content stream every index lies within the tables.
pub proof fn lemma_initial_wf()
    ensures
        ProcessorModel::initial().wf(),
{
}

/// A name that is not found names none of the fonts.
pub proof fn lemma_font_index_none(fonts: Seq<(Seq<u8>, FontModel)>, name: Seq<u8>)
    requires
        font_index(fonts, name) is None,
    ensures
        forall|i: int| 0 <= i < fonts.len() ==> (#[trigger] fonts[i]).0 != name,
    decreases fonts.len(),
{
    if fonts.len() > 0 {
        lemma_font_index_none(fonts.drop_last(), name);
        assert forall|i: int| 0 <= i < fonts.len() implies (#[trigger] fonts[i]).0 != name by {
            if i < fonts.len() - 1 {
                assert(fonts.drop_last()[i] == fonts[i]);
            }
        }
    }
}

/// Loading a font keeps the font table a table by name and every index within
/// the tables.
pub proof fn lemma_load_font_keeps_wf(
    m: ProcessorModel,
    doc: Document,
    resources: Dictionary,
    name: Seq<u8>,
    tables: FontTables,
    programs: FontPrograms,
)
    requires
        m.wf(),
    ensures
        m.load_font(doc, resources, name, tables, programs) matches Ok(s) ==> s.wf(),
{
    match m.load_font(doc, resources, name, tables, programs) {
        Ok(s) => {
            assert forall|i: int| 0 <= i < s.stack.len() implies (#[trigger] s.stack[i]).within(
                s.fonts.len(),
                s.colorspaces.len(),
            ) by {
                assert(s.stack[i] == m.stack[i]);
            }
            if font_index(m.fonts, name) is None {
                lemma_font_index_none(m.fonts, name);
                assert forall|i: int, j: int| 0 <= i < j < s.fonts.len() implies (
                #[trigger] s.fonts[i]).0 != (#[trigger] s.fonts[j]).0 by {
                    assert(s.fonts[i] == m.fonts[i]);
                    if j < m.fonts.len() {
                        assert(s.fonts[j] == m.fonts[j]);
                    }
                }
            }
        },
        Err(_) => {},
    }
}

/// Loading a font changes neither the current state nor the saved states nor
/// the path, and keeps the fonts already loaded at their indices.
pub proof fn lemma_load_font_keeps_state(
    m: ProcessorModel,
    doc: Document,
    resources: Dictionary,
    name: Seq<u8>,
    tables: FontTables,
    programs: FontPrograms,
)
    ensures
        m.load_font(doc, resources, name, tables, programs) matches Ok(s) ==> {
            &&& s.gs == m.gs
            &&& s.stack == m.stack
            &&& s.path == m.path
            &&& s.colorspaces == m.colorspaces
            &&& s.fonts.len() >= m.fonts.len()
            &&& forall|i: int| 0 <= i < m.fonts.len() ==> s.fonts[i] == m.fonts[i]
            &&& font_index(s.fonts, name) is Some
        },
{
    match m.load_font(doc, resources, name, tables, programs) {
        Ok(s) => {
            if font_index(m.fonts, name) is None {
                assert(s.fonts.drop_last() =~= m.fonts);
            }
        },
        Err(_) => {},
    }
}

/// After any of the painting operators, stroke, fill and end-path, the path
/// is empty.
pub proof fn lemma_paint_clears_path(
    m: ProcessorModel,
    doc: Document,
    resources: Dictionary,
    operator: Seq<char>,
    operands: Seq<Object>,
)
    requires
        spec_classify(operator) == Operator::Stroke || spec_classify(operator) == Operator::Fill
            || spec_classify(operator) == Operator::EndPath,
    ensures
        m.step(doc, resources, operator, operands) matches Ok(o) && o.state.path.len() == 0,
        spec_classify(operator) == Operator::Stroke ==> m.step(
            doc,
            resources,
            operator,
            operands,
        )->Ok_0.action == (ActionModel::Stroke {
            colorspace: m.gs.stroke_colorspace,
            color: m.gs.stroke_color,
            path: m.path,
        }),
        spec_classify(operator) == Operator::Fill ==> m.step(
            doc,
            resources,
            operator,
            operands,
        )->Ok_0.action == (ActionModel::Fill {
            colorspace: m.gs.fill_colorspace,
            color: m.gs.fill_color,
            path: m.path,
        }),
{
}

/// The operators `S`, `f`, `F` and `n` are the painting operators.
pub proof fn lemma_painting_operators()
    ensures
        spec_classify("S"@) == Operator::Stroke,
        spec_classify("f"@) == Operator::Fill,
        spec_classify("F"@) == Operator::Fill,
        spec_classify("n"@) == Operator::EndPath,
{
    reveal_operator_names();
    lemma_differ("S"@, "q"@, 0);
    lemma_differ("S"@, "Q"@, 0);
    lemma_differ("S"@, "m"@, 0);
    lemma_differ("S"@, "l"@, 0);
    lemma_differ("S"@, "c"@, 0);
    lemma_differ("S"@, "v"@, 0);
    lemma_differ("S"@, "y"@, 0);
    lemma_differ("S"@, "h"@, 0);
    lemma_differ("F"@, "q"@, 0);
    lemma_differ("F"@, "Q"@, 0);
    lemma_differ("F"@, "m"@, 0);
    lemma_differ("F"@, "l"@, 0);
    lemma_differ("F"@, "c"@, 0);
    lemma_differ("F"@, "v"@, 0);
    lemma_differ("F"@, "y"@, 0);
    lemma_differ("F"@, "h"@, 0);
    lemma_differ("F"@, "S"@, 0);
    lemma_differ("f"@, "q"@, 0);
    lemma_differ("f"@, "Q"@, 0);
    lemma_differ("f"@, "m"@, 0);
    lemma_differ("f"@, "l"@, 0);
    lemma_differ("f"@, "c"@, 0);
    lemma_differ("f"@, "v"@, 0);
    lemma_differ("f"@, "y"@, 0);
    lemma_differ("f"@, "h"@, 0);
    lemma_differ("f"@, "S"@, 0);
    lemma_differ("f"@, "F"@, 0);
    lemma_differ("n"@, "q"@, 0);
    lemma_differ("n"@, "Q"@, 0);
    lemma_differ("n"@, "m"@, 0);
    lemma_differ("n"@, "l"@, 0);
    lemma_differ("n"@, "c"@, 0);
    lemma_differ("n"@, "v"@, 0);
    lemma_differ("n"@, "y"@, 0);
    lemma_differ("n"@, "h"@, 0);
    lemma_differ("n"@, "S"@, 0);
    lemma_differ("n"@, "F"@, 0);
    lemma_differ("n"@, "f"@, 0);
}

/// Two texts that differ at one place differ.
proof fn lemma_differ(a: Seq<char>, b: Seq<char>, i: int)
    requires
        0 <= i < a.len(),
        0 <= i < b.len(),
        a[i] != b[i],
    ensures
        a != b,
{
}

/// The operators `q`, `Q`, `cm`, `Tm` and `Tf` are what they are called.
pub proof fn lemma_state_operators()
    ensures
        spec_classify("q"@) == Operator::Save,
        spec_classify("Q"@) == Operator::Restore,
        spec_classify("cm"@) == Operator::Concat,
        spec_classify("Tm"@) == Operator::TextMatrix,
        spec_classify("Tf"@) == Operator::Font,
{
    reveal_operator_names();
    lemma_differ("Q"@, "q"@, 0);
    lemma_differ("cm"@, "BT"@, 0);
    lemma_differ("cm"@, "ET"@, 0);
    lemma_differ("Tm"@, "BT"@, 0);
    lemma_differ("Tm"@, "ET"@, 0);
    lemma_differ("Tm"@, "cm"@, 0);
    lemma_differ("Tm"@, "CS"@, 0);
    lemma_differ("Tm"@, "cs"@, 0);
    lemma_differ("Tm"@, "SC"@, 0);
    lemma_differ("Tm"@, "sc"@, 0);
    lemma_differ("Tm"@, "TJ"@, 1);
    lemma_differ("Tm"@, "Tj"@, 1);
    lemma_differ("Tm"@, "Tc"@, 1);
    lemma_differ("Tm"@, "Tw"@, 1);
    lemma_differ("Tm"@, "Tz"@, 1);
    lemma_differ("Tm"@, "TL"@, 1);
    lemma_differ("Tm"@, "Tf"@, 1);
    lemma_differ("Tm"@, "Ts"@, 1);
    lemma_differ("Tf"@, "BT"@, 0);
    lemma_differ("Tf"@, "ET"@, 0);
    lemma_differ("Tf"@, "cm"@, 0);
    lemma_differ("Tf"@, "CS"@, 0);
    lemma_differ("Tf"@, "cs"@, 0);
    lemma_differ("Tf"@, "SC"@, 0);
    lemma_differ("Tf"@, "sc"@, 0);
    lemma_differ("Tf"@, "TJ"@, 1);
    lemma_differ("Tf"@, "Tj"@, 1);
    lemma_differ("Tf"@, "Tc"@, 1);
    lemma_differ("Tf"@, "Tw"@, 1);
    lemma_differ("Tf"@, "Tz"@, 1);
    lemma_differ("Tf"@, "TL"@, 1);
}

/// The length and first character of every operator name.
proof fn reveal_operator_names()
    ensures
        "BT"@.len() == 2 && "BT"@[0] == 'B' && "BT"@[1] == 'T',
        "ET"@.len() == 2 && "ET"@[0] == 'E',
        "cm"@.len() == 2 && "cm"@[0] == 'c' && "cm"@[1] == 'm',
        "CS"@.len() == 2 && "CS"@[0] == 'C',
        "cs"@.len() == 2 && "cs"@[0] == 'c' && "cs"@[1] == 's',
        "SC"@.len() == 2 && "SC"@[0] == 'S',
        "SCN"@.len() == 3,
        "sc"@.len() == 2 && "sc"@[0] == 's',
        "scn"@.len() == 3,
        "TJ"@.len() == 2 && "TJ"@[0] == 'T' && "TJ"@[1] == 'J',
        "Tj"@.len() == 2 && "Tj"@[0] == 'T' && "Tj"@[1] == 'j',
        "Tc"@.len() == 2 && "Tc"@[0] == 'T' && "Tc"@[1] == 'c',
        "Tw"@.len() == 2 && "Tw"@[0] == 'T' && "Tw"@[1] == 'w',
        "Tz"@.len() == 2 && "Tz"@[0] == 'T' && "Tz"@[1] == 'z',
        "TL"@.len() == 2 && "TL"@[0] == 'T' && "TL"@[1] == 'L',
        "Tf"@.len() == 2 && "Tf"@[0] == 'T' && "Tf"@[1] == 'f',
        "Ts"@.len() == 2 && "Ts"@[0] == 'T' && "Ts"@[1] == 's',
        "Tm"@.len() == 2 && "Tm"@[0] == 'T' && "Tm"@[1] == 'm',
        "Td"@.len() == 2 && "Td"@[0] == 'T' && "Td"@[1] == 'd',
        "TD"@.len() == 2 && "TD"@[0] == 'T' && "TD"@[1] == 'D',
        "T*"@.len() == 2 && "T*"@[0] == 'T' && "T*"@[1] == '*',
        "q"@.len() == 1 && "q"@[0] == 'q',
        "Q"@.len() == 1 && "Q"@[0] == 'Q',
        "gs"@.len() == 2,
        "m"@.len() == 1 && "m"@[0] == 'm',
        "l"@.len() == 1 && "l"@[0] == 'l',
        "c"@.len() == 1 && "c"@[0] == 'c',
        "v"@.len() == 1 && "v"@[0] == 'v',
        "y"@.len() == 1 && "y"@[0] == 'y',
        "h"@.len() == 1 && "h"@[0] == 'h',
        "re"@.len() == 2,
        "S"@.len() == 1 && "S"@[0] == 'S',
        "F"@.len() == 1 && "F"@[0] == 'F',
        "f"@.len() == 1 && "f"@[0] == 'f',
        "n"@.len() == 1 && "n"@[0] == 'n',
{
    reveal_strlit("BT");
    reveal_strlit("ET");
    reveal_strlit("cm");
    reveal_strlit("CS");
    reveal_strlit("cs");
    reveal_strlit("SC");
    reveal_strlit("SCN");
    reveal_strlit("sc");
    reveal_strlit("scn");
    reveal_strlit("TJ");
    reveal_strlit("Tj");
    reveal_strlit("Tc");
    reveal_strlit("Tw");
    reveal_strlit("Tz");
    reveal_strlit("TL");
    reveal_strlit("Tf");
    reveal_strlit("Ts");
    reveal_strlit("Tm");
    reveal_strlit("Td");
    reveal_strlit("TD");
    reveal_strlit("T*");
    reveal_strlit("q");
    reveal_strlit("Q");
    reveal_strlit("gs");
    reveal_strlit("m");
    reveal_strlit("l");
    reveal_strlit("c");
    reveal_strlit("v");
    reveal_strlit("y");
    reveal_strlit("h");
    reveal_strlit("re");
    reveal_strlit("S");
    reveal_strlit("F");
    reveal_strlit("f");
    reveal_strlit("n");
}

/// The number that an operand is, where it is one.
pub open spec fn operand_number(operands: Seq<Object>, i: int, n: Number) -> bool {
    0 <= i < operands.len() && operands[i].spec_as_num() == Ok::<Number, Failure>(n)
}

/// The six numbers of a matrix are the six operands in order.
pub open spec fn matrix_from(operands: Seq<Object>, m: Matrix) -> bool {
    &&& operands.len() == 6
    &&& operand_number(operands, 0, m.a)
    &&& operand_number(operands, 1, m.b)
    &&& operand_number(operands, 2, m.c)
    &&& operand_number(operands, 3, m.d)
    &&& operand_number(operands, 4, m.e)
    &&& operand_number(operands, 5, m.f)
}

/// After a step that sets a matrix or a font, what is set is what the
/// operands supply. The transformation of `cm` and the text matrix of `Tm`
/// are handed on with the six operands unchanged and in order; `Tf` makes the
/// font loaded under its first operand the current one and hands on its
/// second operand as the size. None of them changes anything else.
pub proof fn lemma_operands_supplied(
    m: ProcessorModel,
    doc: Document,
    resources: Dictionary,
    operator: Seq<char>,
    operands: Seq<Object>,
)
    ensures
        spec_classify(operator) == Operator::Concat ==> (m.step(
            doc,
            resources,
            operator,
            operands,
        ) matches Ok(o) ==> o.state == m && (o.action matches ActionModel::Concat(t)
            && matrix_from(operands, t))),
        spec_classify(operator) == Operator::TextMatrix ==> (m.step(
            doc,
            resources,
            operator,
            operands,
        ) matches Ok(o) ==> o.state == m && (o.action matches ActionModel::SetTextMatrix(t)
            && matrix_from(operands, t))),
        spec_classify(operator) == Operator::Font ==> (m.step(
            doc,
            resources,
            operator,
            operands,
        ) matches Ok(o) ==> match o.action {
            ActionModel::FontSize(size) => {
                &&& operand_number(operands, 1, size)
                &&& spec_name_operand(operands, 0) matches Ok(name) && font_index(m.fonts, name)
                    matches Some(i) && o.state.gs.font == Some(i as usize)
                &&& o.state == m.with_gs(o.state.gs)
                &&& o.state.gs.smask == m.gs.smask
                &&& o.state.gs.fill_color == m.gs.fill_color
                &&& o.state.gs.stroke_color == m.gs.stroke_color
                &&& o.state.gs.fill_colorspace == m.gs.fill_colorspace
                &&& o.state.gs.stroke_colorspace == m.gs.stroke_colorspace
            },
            _ => o.action == ActionModel::LoadFont && o.state == m,
        }),
{
}

/// Saving and restoring. Take any state, save it, and run any operations
/// that never take the saved state off the stack. Then the saved state is
/// still where it was put, with all that lay below it; and once the stack is
/// back at the height it had after saving, a restore brings back the graphics
/// state and the stack exactly as they were before the save.
pub proof fn lemma_save_restore(
    m: ProcessorModel,
    doc: Document,
    resources: Dictionary,
    save: OperationModel,
    ops: Seq<OperationModel>,
    restore: OperationModel,
)
    requires
        spec_classify(save.operator) == Operator::Save,
        spec_classify(restore.operator) == Operator::Restore,
        forall|k: int|
            0 <= k <= ops.len() ==> stays_above(
                #[trigger] run(m, doc, resources, seq![save] + ops.take(k)),
                m.stack.len(),
            ),
    ensures
        run(m, doc, resources, seq![save] + ops) matches Ok(s) && s.stack.take(
            m.stack.len() as int + 1,
        ) == m.stack.push(m.gs),
        run(m, doc, resources, seq![save] + ops) matches Ok(s) && (s.stack.len() == m.stack.len()
            + 1 ==> (s.step(doc, resources, restore.operator, restore.operands) matches Ok(o)
            && o.state.gs == m.gs && o.state.stack == m.stack && o.action
            == ActionModel::Restore)),
    decreases ops.len(),
{
    let d = m.stack.len() + 1;
    if ops.len() == 0 {
        assert(ops.take(0) =~= ops);
        assert(seq![save] + ops =~= seq![save]);
        assert(seq![save].drop_last() =~= Seq::<OperationModel>::empty());
        assert(seq![save].last() == save);
        let r = run(m, doc, resources, seq![save]);
        assert(run(m, doc, resources, seq![save].drop_last()) == Ok::<ProcessorModel, Failure>(m));
        lemma_step_stack(m, doc, resources, save.operator, save.operands);
        let s = r->Ok_0;
        assert(s.stack.take(d as int) =~= m.stack.push(m.gs));
    } else {
        let head = ops.drop_last();
        assert forall|k: int| 0 <= k <= head.len() implies stays_above(
            #[trigger] run(m, doc, resources, seq![save] + head.take(k)),
            m.stack.len(),
        ) by {
            assert(head.take(k) =~= ops.take(k));
        }
        lemma_save_restore(m, doc, resources, save, head, restore);
        assert(ops.take(ops.len() as int) =~= ops);
        let all = seq![save] + ops;
        assert(all.drop_last() =~= seq![save] + head);
        assert(all.last() == ops.last());
        let prev = run(m, doc, resources, seq![save] + head)->Ok_0;
        let s = run(m, doc, resources, all)->Ok_0;
        lemma_step_stack(prev, doc, resources, ops.last().operator, ops.last().operands);
        assert(s.stack.take(d as int) =~= prev.stack.take(d as int));
    }
    let s = run(m, doc, resources, seq![save] + ops)->Ok_0;
    if s.stack.len() == d {
        assert(s.stack.take(d as int) =~= s.stack);
        lemma_step_stack(s, doc, resources, restore.operator, restore.operands);
        assert(m.stack.push(m.gs).drop_last() =~= m.stack);
    }
}

} // verus!
