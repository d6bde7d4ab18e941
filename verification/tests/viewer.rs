use voxxele::frame::{FrameEffect, FrameLoop, Modifiers, WindowEventKind};
use voxxele::geometry::{
    generate_cube, generate_polygon, try_generate_polygon, GeometryError, ShapeKind, VertexPos,
};
use voxxele::state::{select_pipeline, str_eq, PipelineKind, RenderState, DEFAULT_SIDES};

/// Evaluates an exact vertex description into floating-point coordinates,
/// as the renderer does: a circle vertex at the given radius, a cube corner
/// at half a unit along each axis.
fn eval(v: &VertexPos, radius: f32) -> [f32; 3] {
    match *v {
        VertexPos::Circle { step, count } => {
            let angle = 2.0 * std::f32::consts::PI * (step as f32) / (count as f32);
            [radius * angle.cos(), radius * angle.sin(), 0.0]
        }
        VertexPos::Corner { x, y, z } => {
            [(x as f32) * 0.5, (y as f32) * 0.5, (z as f32) * 0.5]
        }
    }
}

fn dist(a: [f32; 3], b: [f32; 3]) -> f32 {
    let dx = a[0] - b[0];
    let dy = a[1] - b[1];
    let dz = a[2] - b[2];
    (dx * dx + dy * dy + dz * dz).sqrt()
}

#[test]
fn polygon_counts_indices_and_radius() {
    for &sides in &[3u16, 4, 5, 6, 100, 10000] {
        let m = generate_polygon(sides);
        assert_eq!(m.vertices.len(), sides as usize);
        assert_eq!(m.indices.len(), 3 * (sides as usize - 2));
        for &ix in &m.indices {
            assert!((ix as usize) < m.vertices.len());
        }
        for v in &m.vertices {
            let p = eval(v, 0.5);
            let r = dist(p, [0.0, 0.0, 0.0]);
            assert!((r - 0.5).abs() < 1e-5);
            assert_eq!(p[2], 0.0);
        }
    }
}

#[test]
fn polygon_fan_indices_exact() {
    let m = generate_polygon(5);
    assert_eq!(m.indices, vec![0, 1, 2, 0, 2, 3, 0, 3, 4]);
    assert_eq!(
        m.vertices,
        vec![
            VertexPos::Circle { step: 0, count: 5 },
            VertexPos::Circle { step: 1, count: 5 },
            VertexPos::Circle { step: 2, count: 5 },
            VertexPos::Circle { step: 3, count: 5 },
            VertexPos::Circle { step: 4, count: 5 },
        ]
    );
}

#[test]
fn polygon_idempotent_bit_identical() {
    let a = generate_polygon(7);
    let b = generate_polygon(7);
    assert_eq!(a.vertices, b.vertices);
    assert_eq!(a.indices, b.indices);
    for (va, vb) in a.vertices.iter().zip(b.vertices.iter()) {
        let pa = eval(va, 0.25);
        let pb = eval(vb, 0.25);
        for k in 0..3 {
            assert_eq!(pa[k].to_bits(), pb[k].to_bits());
        }
    }
}

#[test]
fn square_diagonals_equal() {
    let m = generate_polygon(4);
    assert_eq!(m.vertices.len(), 4);
    let p: Vec<[f32; 3]> = m.vertices.iter().map(|v| eval(v, 0.5)).collect();
    let d02 = dist(p[0], p[2]);
    let d13 = dist(p[1], p[3]);
    assert!((d02 - d13).abs() < 1e-6);
    assert!(d02 > 0.9 && d02 < 1.1);
}

#[test]
fn degenerate_polygon_rejected() {
    for sides in 0u16..3 {
        match try_generate_polygon(sides) {
            Err(GeometryError::InvalidArgument) => {}
            Ok(_) => panic!("a polygon with fewer than three sides must be rejected"),
        }
    }
    assert!(try_generate_polygon(3).is_ok());
}

#[test]
fn cube_counts_and_triangles() {
    let m = generate_cube();
    assert_eq!(m.vertices.len(), 8);
    assert_eq!(m.indices.len(), 36);
    assert_eq!(m.indices.len() % 3, 0);
    for &ix in &m.indices {
        assert!((ix as usize) < m.vertices.len());
    }
    assert_eq!(
        m.indices,
        vec![
            4, 5, 6, 4, 6, 7, 0, 3, 2, 0, 2, 1, 1, 2, 6, 1, 6, 5, 0, 4, 7, 0, 7, 3, 3, 7, 6, 3,
            6, 2, 0, 1, 5, 0, 5, 4,
        ]
    );
}

#[test]
fn cube_bounding_box_is_half_unit() {
    let m = generate_cube();
    let mut lo = [f32::INFINITY; 3];
    let mut hi = [f32::NEG_INFINITY; 3];
    for v in &m.vertices {
        let p = eval(v, 1.0);
        for k in 0..3 {
            lo[k] = lo[k].min(p[k]);
            hi[k] = hi[k].max(p[k]);
        }
    }
    for k in 0..3 {
        assert_eq!(lo[k], -0.5);
        assert_eq!(hi[k], 0.5);
    }
}

#[test]
fn shader_selection_and_fallback() {
    assert_eq!(select_pipeline("main"), PipelineKind::Main);
    assert_eq!(select_pipeline("challenge"), PipelineKind::Challenge);
    assert_eq!(select_pipeline("does-not-exist"), PipelineKind::Main);
    assert_eq!(select_pipeline(""), PipelineKind::Main);
}

#[test]
fn switching_to_unrecognized_shader_still_draws() {
    let (mut fl, _mesh) = FrameLoop::new(1360, 768);
    fl.state.set_active_shader("main".to_string());
    let effects = fl.on_window_event(WindowEventKind::RedrawRequested);
    match &effects[0] {
        FrameEffect::Draw { pipeline, .. } => assert_eq!(*pipeline, PipelineKind::Main),
        _ => panic!("an unchanged polygon redraw starts with the draw call"),
    }
    fl.state.set_active_shader("neon".to_string());
    let effects = fl.on_window_event(WindowEventKind::RedrawRequested);
    assert_eq!(effects.len(), 2);
    match &effects[0] {
        FrameEffect::Draw { pipeline, index_count } => {
            assert_eq!(*pipeline, PipelineKind::Main);
            assert_eq!(*index_count, 12);
        }
        _ => panic!("an unchanged polygon redraw starts with the draw call"),
    }
    assert!(matches!(effects[1], FrameEffect::UiPass { .. }));
}

#[test]
fn shape_switch_replaces_buffers_once_before_draw() {
    let (mut fl, _mesh) = FrameLoop::new(1360, 768);
    assert!(fl
        .state
        .set_shape(ShapeKind::Polygon { sides: 6 })
        .is_ok());
    let _ = fl.on_window_event(WindowEventKind::RedrawRequested);
    assert!(fl.state.set_shape(ShapeKind::Cube).is_ok());
    let effects = fl.on_window_event(WindowEventKind::RedrawRequested);
    let replacements = effects
        .iter()
        .filter(|e| matches!(e, FrameEffect::ReplaceBuffers { .. }))
        .count();
    assert_eq!(replacements, 1);
    assert_eq!(effects.len(), 3);
    match &effects[0] {
        FrameEffect::ReplaceBuffers { mesh } => {
            let cube = generate_cube();
            assert_eq!(mesh.vertices, cube.vertices);
            assert_eq!(mesh.indices, cube.indices);
        }
        _ => panic!("the buffer replacement comes before the draw call"),
    }
    match &effects[1] {
        FrameEffect::Draw { index_count, .. } => assert_eq!(*index_count, 36),
        _ => panic!("the draw call follows the buffer replacement"),
    }
    assert!(matches!(
        effects[2],
        FrameEffect::UiPass { ui_scale_millis: 1000 }
    ));
}

#[test]
fn cube_regenerates_every_frame() {
    let (mut fl, _mesh) = FrameLoop::new(640, 480);
    assert!(fl.state.set_shape(ShapeKind::Cube).is_ok());
    let first = fl.on_window_event(WindowEventKind::RedrawRequested);
    assert_eq!(first.len(), 3);
    let second = fl.on_window_event(WindowEventKind::RedrawRequested);
    assert_eq!(second.len(), 3);
    assert!(matches!(second[0], FrameEffect::ReplaceBuffers { .. }));
}

#[test]
fn unchanged_polygon_is_not_regenerated() {
    let (mut fl, _mesh) = FrameLoop::new(640, 480);
    let effects = fl.on_window_event(WindowEventKind::RedrawRequested);
    assert_eq!(effects.len(), 2);
    assert!(matches!(effects[0], FrameEffect::Draw { .. }));
    assert!(matches!(effects[1], FrameEffect::UiPass { .. }));
}

#[test]
fn close_escape_and_resize() {
    let (mut fl, _mesh) = FrameLoop::new(1360, 768);
    assert!(!fl.should_exit());
    let effects = fl.on_window_event(WindowEventKind::KeyPressed { escape: false });
    assert!(effects.is_empty());
    assert!(!fl.should_exit());
    let effects = fl.on_window_event(WindowEventKind::Resized { width: 800, height: 600 });
    assert_eq!(effects.len(), 1);
    assert!(matches!(
        effects[0],
        FrameEffect::Reconfigure { width: 800, height: 600 }
    ));
    assert_eq!(fl.surface_width, 800);
    assert_eq!(fl.surface_height, 600);
    let effects = fl.on_window_event(WindowEventKind::Other);
    assert!(effects.is_empty());
    let effects = fl.on_window_event(WindowEventKind::ModifiersChanged {
        modifiers: Modifiers { shift: true, ctrl: false, alt: false, logo: false },
    });
    assert!(effects.is_empty());
    assert!(fl.modifiers.shift);
    let effects = fl.on_window_event(WindowEventKind::KeyPressed { escape: true });
    assert!(effects.is_empty());
    assert!(fl.should_exit());
    let (mut fl2, _mesh) = FrameLoop::new(1360, 768);
    let effects = fl2.on_window_event(WindowEventKind::CloseRequested);
    assert!(effects.is_empty());
    assert!(fl2.should_exit());
}

#[test]
fn fresh_state_defaults() {
    let s = RenderState::new();
    assert_eq!(s.shape, ShapeKind::Polygon { sides: DEFAULT_SIDES });
    assert_eq!(s.active_shader, "main");
    assert_eq!(s.ui_scale_millis, 1000);
    let (fl, mesh) = FrameLoop::new(1360, 768);
    assert_eq!(fl.index_count, 3 * (DEFAULT_SIDES as u32 - 2));
    assert_eq!(mesh.indices.len() as u32, fl.index_count);
    assert!(!fl.should_exit());
}

#[test]
fn state_boundary_rejections() {
    let mut s = RenderState::new();
    let before = s.shape;
    match s.set_shape(ShapeKind::Polygon { sides: 2 }) {
        Err(GeometryError::InvalidArgument) => {}
        Ok(_) => panic!("fewer than three sides must be rejected at the boundary"),
    }
    assert_eq!(s.shape, before);
    match s.set_ui_scale_millis(0) {
        Err(GeometryError::InvalidArgument) => {}
        Ok(_) => panic!("a zero scale factor must be rejected"),
    }
    assert_eq!(s.ui_scale_millis, 1000);
    assert!(s.set_ui_scale_millis(1500).is_ok());
    assert_eq!(s.ui_scale_millis, 1500);
}

#[test]
fn str_eq_agrees_with_equality() {
    assert!(str_eq("", ""));
    assert!(str_eq("main", "main"));
    assert!(!str_eq("main", "challenge"));
    assert!(!str_eq("main", "mai"));
    assert!(!str_eq("mai", "main"));
    assert!(str_eq("héllo", "héllo"));
    assert!(!str_eq("héllo", "hello"));
}
