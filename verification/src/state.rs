//! The render state a user edits through the UI, and shader pipeline
//! selection.
//!
//! The viewer owns two fixed pipelines, one per bundled shader program.
//! The active one is chosen by name; an unrecognized name falls back to the
//! default pipeline rather than failing. The UI scale factor is held in
//! thousandths, so that the state stays in plain integers; the UI layer
//! divides by a thousand when it applies it.

use crate::geometry::GeometryError;
use crate::geometry::ShapeKind;
use vstd::prelude::*;
use vstd::string::StrSliceExecFns;

verus! {

/// The two render pipelines the viewer owns, one per bundled shader.
#[derive(Clone, Copy, Debug, PartialEq, Eq, Structural)]
pub enum PipelineKind {
    /// The default pipeline, built from the main shader.
    Main,
    /// The pipeline built from the challenge shader.
    Challenge,
}

/// Which pipeline a shader name selects: exactly the name "challenge" picks
/// the challenge pipeline; "main" and every unrecognized name fall back to
/// the default.
pub open spec fn pipeline_for(name: Seq<char>) -> PipelineKind {
    if name == "challenge"@ {
        PipelineKind::Challenge
    } else {
        PipelineKind::Main
    }
}

/// Compares two string slices character by character.
pub fn str_eq(a: &str, b: &str) -> (r: bool)
    ensures
        r == (a@ == b@),
{
    let a_len = a.unicode_len();
    let b_len = b.unicode_len();
    if a_len != b_len {
        return false;
    }
    let mut i: usize = 0;
    while i < a_len
        invariant
            a_len == a@.len(),
            b_len == b@.len(),
            a_len == b_len,
            i <= a_len,
            forall|j: int| 0 <= j < i as int ==> a@[j] == b@[j],
        decreases a_len - i,
    {
        if a.get_char(i) != b.get_char(i) {
            return false;
        }
        i = i + 1;
    }
    proof {
        assert(a@ =~= b@);
    }
    true
}

/// Selects the pipeline for a shader name, falling back to the default
/// pipeline on any unrecognized name.
pub fn select_pipeline(name: &str) -> (p: PipelineKind)
    ensures
        p == pipeline_for(name@),
{
    if str_eq(name, "challenge") {
        PipelineKind::Challenge
    } else {
        PipelineKind::Main
    }
}

/// Any name other than "challenge" — "main", but also every unrecognized
/// name — selects the default pipeline; no name fails.
pub proof fn lemma_unrecognized_shader_falls_back(name: Seq<char>)
    requires
        name != "challenge"@,
    ensures
        pipeline_for(name) == PipelineKind::Main,
{
}

/// The number of thousandths that stands for a UI scale factor of one.
pub const SCALE_UNIT_MILLIS: u32 = 1000;

/// The side count a fresh state starts with.
pub const DEFAULT_SIDES: u16 = 6;

/// What the user has chosen: the shape to draw, the shader to draw it with,
/// and the UI scale factor in thousandths.
pub struct RenderState {
    pub shape: ShapeKind,
    pub active_shader: String,
    pub ui_scale_millis: u32,
}

impl RenderState {
    /// The shape can be built and the scale factor is positive.
    pub open spec fn wf(self) -> bool {
        &&& self.shape.wf()
        &&& self.ui_scale_millis >= 1
    }

    /// A fresh state: a hexagon, the main shader, scale factor one.
    pub fn new() -> (s: Self)
        ensures
            s.wf(),
            s.shape == (ShapeKind::Polygon { sides: DEFAULT_SIDES }),
            s.active_shader@ == "main"@,
            s.ui_scale_millis == SCALE_UNIT_MILLIS,
    {
        RenderState {
            shape: ShapeKind::Polygon { sides: DEFAULT_SIDES },
            active_shader: "main".to_owned(),
            ui_scale_millis: SCALE_UNIT_MILLIS,
        }
    }

    /// Replaces the shape, rejecting one that no mesh can be built from:
    /// exactly the well-formed shapes are accepted, and a rejected call
    /// leaves the state as it was.
    pub fn set_shape(&mut self, shape: ShapeKind) -> (r: Result<(), GeometryError>)
        requires
            old(self).wf(),
        ensures
            final(self).wf(),
            shape.wf() <==> r is Ok,
            r is Ok ==> *final(self) == (RenderState { shape, ..*old(self) }),
            r is Err ==> *final(self) == *old(self) && r == Err::<(), GeometryError>(
                GeometryError::InvalidArgument,
            ),
    {
        match shape {
            ShapeKind::Polygon { sides } => {
                if sides < 3 {
                    return Err(GeometryError::InvalidArgument);
                }
            },
            ShapeKind::Cube => {},
        }
        self.shape = shape;
        Ok(())
    }

    /// Replaces the active shader name. No name is rejected: selection falls
    /// back to the default pipeline on an unrecognized one.
    pub fn set_active_shader(&mut self, name: String)
        requires
            old(self).wf(),
        ensures
            final(self).wf(),
            *final(self) == (RenderState { active_shader: name, ..*old(self) }),
    {
        self.active_shader = name;
    }

    /// Replaces the UI scale factor, given in thousandths, rejecting zero:
    /// exactly the positive values are accepted, and a rejected call leaves
    /// the state as it was.
    pub fn set_ui_scale_millis(&mut self, millis: u32) -> (r: Result<(), GeometryError>)
        requires
            old(self).wf(),
        ensures
            final(self).wf(),
            millis >= 1 <==> r is Ok,
            r is Ok ==> *final(self) == (RenderState { ui_scale_millis: millis, ..*old(self) }),
            r is Err ==> *final(self) == *old(self) && r == Err::<(), GeometryError>(
                GeometryError::InvalidArgument,
            ),
    {
        if millis == 0 {
            return Err(GeometryError::InvalidArgument);
        }
        self.ui_scale_millis = millis;
        Ok(())
    }
}

} // verus!
