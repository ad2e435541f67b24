//! The part of the graphics state that the interpreter keeps itself: font,
//! colours and soft mask. Matrices and the scalar text parameters are real
//! numbers and belong to whoever does the geometry.

use vstd::prelude::*;
use vstd::string::StringSliceAdditionalSpecFns;
use crate::error::{Failure, PdfError, PdfResult};
use crate::function::copy_numbers;
use crate::object::{bytes_eq, Dictionary, Document, Number, Object};
use crate::object_utils::{maybe_deref, spec_maybe_deref};

verus! {

/// The graphics state. The font and the colour spaces are indices into the
/// tables of the processor that owns the state.
#[derive(Debug)]
pub struct GraphicsState<'a> {
    pub font: Option<usize>,
    pub smask: Option<&'a Dictionary>,
    pub fill_colorspace: usize,
    pub fill_color: Vec<Number>,
    pub stroke_colorspace: usize,
    pub stroke_color: Vec<Number>,
}

/// What a graphics state is, as contracts see it.
pub struct GsModel {
    pub font: Option<usize>,
    pub smask: Option<Dictionary>,
    pub fill_colorspace: usize,
    pub fill_color: Seq<Number>,
    pub stroke_colorspace: usize,
    pub stroke_color: Seq<Number>,
}

impl<'a> View for GraphicsState<'a> {
    type V = GsModel;

    open spec fn view(&self) -> GsModel {
        GsModel {
            font: self.font,
            smask: match self.smask {
                Some(d) => Some(*d),
                None => None,
            },
            fill_colorspace: self.fill_colorspace,
            fill_color: self.fill_color@,
            stroke_colorspace: self.stroke_colorspace,
            stroke_color: self.stroke_color@,
        }
    }
}

impl GsModel {
    /// The state at the start of a content stream: no font, no soft mask,
    /// both colour spaces the first of the table, no colour components.
    pub open spec fn initial() -> GsModel {
        GsModel {
            font: None,
            smask: None,
            fill_colorspace: 0,
            fill_color: Seq::empty(),
            stroke_colorspace: 0,
            stroke_color: Seq::empty(),
        }
    }

    /// Whether the indices of the state lie within tables of `fonts` fonts
    /// and `spaces` colour spaces.
    pub open spec fn within(self, fonts: nat, spaces: nat) -> bool {
        &&& self.fill_colorspace < spaces
        &&& self.stroke_colorspace < spaces
        &&& self.font matches Some(i) ==> i < fonts
    }
}

impl<'a> GraphicsState<'a> {
    /// The state at the start of a content stream.
    pub fn new() -> (gs: GraphicsState<'a>)
        ensures
            gs@ == GsModel::initial(),
    {
        GraphicsState {
            font: None,
            smask: None,
            fill_colorspace: 0,
            fill_color: Vec::new(),
            stroke_colorspace: 0,
            stroke_color: Vec::new(),
        }
    }

    /// A copy of the state.
    pub fn clone(&self) -> (gs: GraphicsState<'a>)
        ensures
            gs@ == self@,
    {
        GraphicsState {
            font: self.font,
            smask: self.smask,
            fill_colorspace: self.fill_colorspace,
            fill_color: copy_numbers(&self.fill_color),
            stroke_colorspace: self.stroke_colorspace,
            stroke_color: copy_numbers(&self.stroke_color),
        }
    }
}

/// The soft mask after the entries of an extended graphics state, read in
/// order from `smask`. `SMask` clears the mask when it is the name `None` and
/// sets it when it is a dictionary; `Type`, where it is a name, must be
/// `ExtGState`; every other key is passed over.
pub open spec fn ext_gstate_fold(
    doc: Document,
    smask: Option<Dictionary>,
    entries: Seq<(Vec<u8>, Object)>,
) -> Result<Option<Dictionary>, Failure>
    decreases entries.len(),
{
    if entries.len() == 0 {
        Ok(smask)
    } else {
        let key = entries[0].0@;
        let value = entries[0].1;
        let rest = entries.skip(1);
        if key == "SMask".spec_bytes() {
            match spec_maybe_deref(doc, value) {
                Err(e) => Err(e),
                Ok(Object::Name(n)) => if n@ == "None".spec_bytes() {
                    ext_gstate_fold(doc, None, rest)
                } else {
                    Err(Failure::InvalidStructure)
                },
                Ok(Object::Dictionary(d)) => ext_gstate_fold(doc, Some(d), rest),
                Ok(_) => Err(Failure::InvalidStructure),
            }
        } else if key == "Type".spec_bytes() {
            match value {
                Object::Name(n) => if n@ == "ExtGState".spec_bytes() {
                    ext_gstate_fold(doc, smask, rest)
                } else {
                    Err(Failure::InvalidStructure)
                },
                _ => ext_gstate_fold(doc, smask, rest),
            }
        } else {
            ext_gstate_fold(doc, smask, rest)
        }
    }
}

/// The soft mask that an extended graphics state leaves, starting from
/// `smask`: an `SMask` that is neither the name `None` nor a dictionary, or a
/// `Type` other than `ExtGState`, is an `InvalidStructure` error.
pub fn apply_state<'a>(doc: &'a Document, smask: Option<&'a Dictionary>, state: &'a Dictionary) -> (r:
    PdfResult<Option<&'a Dictionary>>)
    ensures
        match r {
            Ok(m) => ext_gstate_fold(
                *doc,
                match smask {
                    Some(d) => Some(*d),
                    None => None,
                },
                state.entries@,
            ) == Ok::<Option<Dictionary>, Failure>(
                match m {
                    Some(d) => Some(*d),
                    None => None,
                },
            ),
            Err(e) => ext_gstate_fold(
                *doc,
                match smask {
                    Some(d) => Some(*d),
                    None => None,
                },
                state.entries@,
            ) == Err::<Option<Dictionary>, Failure>(e.kind()),
        },
{
    let mut mask: Option<&'a Dictionary> = smask;
    let mut i: usize = 0;
    let ghost start: Option<Dictionary> = match smask {
        Some(d) => Some(*d),
        None => None,
    };
    assert(state.entries@.skip(0) =~= state.entries@);
    while i < state.entries.len()
        invariant
            0 <= i <= state.entries@.len(),
            start == match smask {
                Some(d) => Some(*d),
                None => None,
            },
            ext_gstate_fold(*doc, start, state.entries@) == ext_gstate_fold(
                *doc,
                match mask {
                    Some(d) => Some(*d),
                    None => None,
                },
                state.entries@.skip(i as int),
            ),
        decreases state.entries@.len() - i,
    {
        proof {
            assert(state.entries@.skip(i as int).skip(1) =~= state.entries@.skip(i + 1));
            assert(state.entries@.skip(i as int)[0] == state.entries@[i as int]);
        }
        let key = state.entries[i].0.as_slice();
        let value = &state.entries[i].1;
        if bytes_eq(key, "SMask".as_bytes()) {
            match maybe_deref(doc, value)? {
                Object::Name(n) => {
                    if bytes_eq(n.as_slice(), "None".as_bytes()) {
                        mask = None;
                    } else {
                        return Err(PdfError::invalid("Unexpected smask name"));
                    }
                },
                Object::Dictionary(d) => {
                    mask = Some(d);
                },
                _ => {
                    return Err(PdfError::invalid("Unexpected smask type"));
                },
            }
        } else if bytes_eq(key, "Type".as_bytes()) {
            match value {
                Object::Name(n) => {
                    if !bytes_eq(n.as_slice(), "ExtGState".as_bytes()) {
                        return Err(PdfError::invalid("Expected ExtGState type"));
                    }
                },
                _ => {},
            }
        }
        i += 1;
    }
    Ok(mask)
}

} // verus!
