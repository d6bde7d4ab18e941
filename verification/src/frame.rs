//! The per-event decisions of the frame loop.
//!
//! The event loop itself lives outside: it owns the window, the GPU device
//! and the UI layer, and hands each event it receives to [`FrameLoop`],
//! which returns the effects to perform — reconfigure the surface, replace
//! the vertex and index buffers, issue the one draw call of the frame. The
//! loop performs them in order and, after a redraw, runs the UI pass and
//! presents.

use crate::geometry::Mesh;
use crate::geometry::ShapeKind;
use crate::geometry::generate_shape;
use crate::geometry::mesh_is;
use crate::geometry::shape_indices;
use crate::state::PipelineKind;
use crate::state::RenderState;
use crate::state::pipeline_for;
use crate::state::select_pipeline;
use vstd::prelude::*;

verus! {

/// The keyboard modifiers the window reports.
#[derive(Clone, Copy, Debug, PartialEq, Eq, Structural)]
pub struct Modifiers {
    pub shift: bool,
    pub ctrl: bool,
    pub alt: bool,
    pub logo: bool,
}

/// No modifier held.
pub open spec fn no_modifiers() -> Modifiers {
    Modifiers { shift: false, ctrl: false, alt: false, logo: false }
}

impl Modifiers {
    /// No modifier held.
    pub fn none() -> (m: Modifiers)
        ensures
            m == no_modifiers(),
    {
        Modifiers { shift: false, ctrl: false, alt: false, logo: false }
    }
}

/// The window events the viewer reacts to. Everything else the window may
/// report is `Other` and is ignored.
#[derive(Clone, Copy, Debug, PartialEq, Eq, Structural)]
pub enum WindowEventKind {
    CloseRequested,
    ModifiersChanged { modifiers: Modifiers },
    /// A key press; `escape` says whether the logical key was Escape.
    KeyPressed { escape: bool },
    Resized { width: u32, height: u32 },
    RedrawRequested,
    Other,
}

/// What the event loop must do to the window and the GPU in response to an
/// event, in order.
pub enum FrameEffect {
    /// Reconfigure the surface to the new size.
    Reconfigure { width: u32, height: u32 },
    /// Drop the GPU vertex and index buffers and create new ones holding
    /// this mesh.
    ReplaceBuffers { mesh: Mesh },
    /// Issue the one indexed draw call of the frame, with the given pipeline
    /// and the first `index_count` entries of the current index buffer.
    Draw { pipeline: PipelineKind, index_count: u32 },
    /// Delegate to the UI layer to render the control widgets atop the
    /// scene, passing the current scale factor in thousandths.
    UiPass { ui_scale_millis: u32 },
}

/// The frame loop's own record: the state the UI edits, what the GPU
/// currently holds, and the flags the loop consults.
pub struct FrameLoop {
    /// The state the UI edits between frames.
    pub state: RenderState,
    /// The shape whose mesh the GPU buffers were last filled from.
    pub last_shape: ShapeKind,
    /// The surface size the window was last configured to.
    pub surface_width: u32,
    pub surface_height: u32,
    /// How many index entries the GPU index buffer holds.
    pub index_count: u32,
    /// Set by a close request or an Escape press; consulted once per loop
    /// iteration.
    pub close_requested: bool,
    /// The modifiers the window last reported.
    pub modifiers: Modifiers,
}

/// The buffers are regenerated when the shape is no longer the one they were
/// filled from — and, for the cube, on every frame.
pub open spec fn needs_regen(shape: ShapeKind, last_shape: ShapeKind) -> bool {
    shape != last_shape || shape is Cube
}

/// What a redraw must yield: new buffers first if the shape calls for them,
/// then exactly one draw call with the selected pipeline and the full index
/// count of whatever the buffers then hold, then the UI pass with the
/// current scale factor.
pub open spec fn redraw_ok(pre: FrameLoop, post: FrameLoop, effects: Seq<FrameEffect>) -> bool {
    let shape = pre.state.shape;
    let pipeline = pipeline_for(pre.state.active_shader@);
    let ui_pass = FrameEffect::UiPass { ui_scale_millis: pre.state.ui_scale_millis };
    if needs_regen(shape, pre.last_shape) {
        &&& effects.len() == 3
        &&& (effects[0] matches FrameEffect::ReplaceBuffers { mesh } && mesh_is(mesh, shape)
            && mesh.wf())
        &&& effects[1] == (FrameEffect::Draw {
            pipeline,
            index_count: shape_indices(shape).len() as u32,
        })
        &&& effects[2] == ui_pass
        &&& post == (FrameLoop {
            last_shape: shape,
            index_count: shape_indices(shape).len() as u32,
            ..pre
        })
    } else {
        &&& effects.len() == 2
        &&& effects[0] == (FrameEffect::Draw { pipeline, index_count: pre.index_count })
        &&& effects[1] == ui_pass
        &&& post == pre
    }
}

/// The whole transition relation of the loop: for each event, the new record
/// and the effects the loop must perform.
pub open spec fn step(
    pre: FrameLoop,
    event: WindowEventKind,
    post: FrameLoop,
    effects: Seq<FrameEffect>,
) -> bool {
    match event {
        WindowEventKind::CloseRequested => {
            &&& post == (FrameLoop { close_requested: true, ..pre })
            &&& effects.len() == 0
        },
        WindowEventKind::ModifiersChanged { modifiers } => {
            &&& post == (FrameLoop { modifiers, ..pre })
            &&& effects.len() == 0
        },
        WindowEventKind::KeyPressed { escape } => {
            &&& post == (FrameLoop { close_requested: pre.close_requested || escape, ..pre })
            &&& effects.len() == 0
        },
        WindowEventKind::Resized { width, height } => {
            &&& post == (FrameLoop { surface_width: width, surface_height: height, ..pre })
            &&& effects.len() == 1
            &&& effects[0] == (FrameEffect::Reconfigure { width, height })
        },
        WindowEventKind::RedrawRequested => redraw_ok(pre, post, effects),
        WindowEventKind::Other => {
            &&& post == pre
            &&& effects.len() == 0
        },
    }
}

impl FrameLoop {
    /// The record is coherent: the state is editable, the buffers were
    /// filled from a shape a mesh can be built from, and the index count is
    /// that mesh's.
    pub open spec fn wf(self) -> bool {
        &&& self.state.wf()
        &&& self.last_shape.wf()
        &&& self.index_count as int == shape_indices(self.last_shape).len()
    }

    /// Starts the loop's record for a window of the given size: a fresh
    /// render state, and the mesh of its shape, which the caller puts into
    /// the first vertex and index buffers.
    pub fn new(width: u32, height: u32) -> (r: (FrameLoop, Mesh))
        ensures
            r.0.wf(),
            r.0.state.shape == (ShapeKind::Polygon { sides: crate::state::DEFAULT_SIDES }),
            r.0.state.active_shader@ == "main"@,
            r.0.last_shape == r.0.state.shape,
            r.0.surface_width == width,
            r.0.surface_height == height,
            r.0.index_count as int == shape_indices(r.0.state.shape).len(),
            !r.0.close_requested,
            r.0.modifiers == no_modifiers(),
            mesh_is(r.1, r.0.state.shape),
            r.1.wf(),
    {
        let state = RenderState::new();
        let shape = state.shape;
        let mesh = generate_shape(shape);
        proof {
            crate::geometry::lemma_polygon_mesh_counts(crate::state::DEFAULT_SIDES);
        }
        let index_count = mesh.indices.len() as u32;
        let looper = FrameLoop {
            state,
            last_shape: shape,
            surface_width: width,
            surface_height: height,
            index_count,
            close_requested: false,
            modifiers: Modifiers::none(),
        };
        (looper, mesh)
    }

    /// Reacts to one window event: updates the record and returns the
    /// effects the loop must perform, in order, as [`step`] describes.
    pub fn on_window_event(&mut self, event: WindowEventKind) -> (effects: Vec<FrameEffect>)
        requires
            old(self).wf(),
        ensures
            final(self).wf(),
            step(*old(self), event, *final(self), effects@),
    {
        let mut effects: Vec<FrameEffect> = Vec::new();
        match event {
            WindowEventKind::CloseRequested => {
                self.close_requested = true;
            },
            WindowEventKind::ModifiersChanged { modifiers } => {
                self.modifiers = modifiers;
            },
            WindowEventKind::KeyPressed { escape } => {
                if escape {
                    self.close_requested = true;
                }
            },
            WindowEventKind::Resized { width, height } => {
                self.surface_width = width;
                self.surface_height = height;
                effects.push(FrameEffect::Reconfigure { width, height });
            },
            WindowEventKind::RedrawRequested => {
                let shape = self.state.shape;
                let regen = shape != self.last_shape || matches!(shape, ShapeKind::Cube);
                if regen {
                    let mesh = generate_shape(shape);
                    proof {
                        if shape is Polygon {
                            crate::geometry::lemma_polygon_mesh_counts(shape->Polygon_sides);
                        }
                    }
                    self.last_shape = shape;
                    self.index_count = mesh.indices.len() as u32;
                    effects.push(FrameEffect::ReplaceBuffers { mesh });
                }
                let pipeline = select_pipeline(self.state.active_shader.as_str());
                effects.push(
                    FrameEffect::Draw { pipeline, index_count: self.index_count },
                );
                effects.push(
                    FrameEffect::UiPass { ui_scale_millis: self.state.ui_scale_millis },
                );
            },
            WindowEventKind::Other => {},
        }
        effects
    }

    /// Whether the loop should exit, as consulted once per iteration.
    pub fn should_exit(&self) -> (b: bool)
        ensures
            b == self.close_requested,
    {
        self.close_requested
    }
}

/// A redraw after a shape change — switching between the polygon and the
/// cube, or to a different side count — replaces the buffers exactly once,
/// and does so before its one draw call.
pub proof fn lemma_shape_change_replaces_buffers_once(
    pre: FrameLoop,
    post: FrameLoop,
    effects: Seq<FrameEffect>,
)
    requires
        step(pre, WindowEventKind::RedrawRequested, post, effects),
        pre.state.shape != pre.last_shape,
    ensures
        effects.len() == 3,
        effects[0] is ReplaceBuffers,
        effects[1] is Draw,
        effects[2] is UiPass,
        forall|k: int| 0 <= k < effects.len() && k != 0 ==> !((#[trigger] effects[k]) is ReplaceBuffers),
{
}

/// A redraw with an unchanged polygon shape replaces no buffers: it is the
/// one draw call and the UI pass alone.
pub proof fn lemma_unchanged_polygon_draws_in_place(
    pre: FrameLoop,
    post: FrameLoop,
    effects: Seq<FrameEffect>,
)
    requires
        step(pre, WindowEventKind::RedrawRequested, post, effects),
        pre.state.shape == pre.last_shape,
        pre.state.shape is Polygon,
    ensures
        effects.len() == 2,
        effects[0] is Draw,
        effects[1] is UiPass,
        post == pre,
{
}

} // verus!
