//! Mesh construction for the two shapes the viewer can draw: a regular
//! polygon and a unit cube.
//!
//! Positions are described exactly instead of as floating-point coordinates:
//! a polygon vertex is the fraction `step / count` of a full turn on the
//! circle, and a cube corner is a triple of signs, each standing for one half
//! of the unit edge. The renderer evaluates these descriptions into
//! floating-point coordinates; everything structural about a mesh (how many
//! vertices, which corners, which triangles, the winding) is decided here.

use vstd::prelude::*;

verus! {

/// An exactly described vertex position.
#[derive(Clone, Copy, Debug, PartialEq, Eq, Structural)]
pub enum VertexPos {
    /// The point of the circle of radius one around the origin, in the plane
    /// z = 0, at angle `2 * pi * step / count` from the positive x axis.
    /// The renderer scales it by the polygon's radius.
    Circle { step: u16, count: u16 },
    /// A corner of the axis-aligned unit cube centred on the origin: each
    /// coordinate is -1 or 1 and stands for -1/2 or 1/2.
    Corner { x: i8, y: i8, z: i8 },
}

/// A triangulated shape: vertices plus indices, three indices per triangle.
pub struct Mesh {
    pub vertices: Vec<VertexPos>,
    pub indices: Vec<u16>,
}

impl Mesh {
    /// Every index refers to a vertex, and the indices form whole triangles.
    pub open spec fn wf(self) -> bool {
        &&& self.indices@.len() % 3 == 0
        &&& forall|k: int|
            0 <= k < self.indices@.len() ==> (#[trigger] self.indices@[k]) < self.vertices@.len()
    }
}

/// The vertex `i` of a regular polygon with `sides` vertices.
pub open spec fn polygon_vertex(i: int, sides: u16) -> VertexPos {
    VertexPos::Circle { step: i as u16, count: sides }
}

/// The vertices of a regular polygon: one per side, evenly spaced on the
/// circle, starting on the positive x axis and walking counter-clockwise.
pub open spec fn polygon_vertices(sides: u16) -> Seq<VertexPos> {
    Seq::new(sides as nat, |i: int| polygon_vertex(i, sides))
}

/// The entry `k` of the polygon's index list. The triangles fan out from
/// vertex 0: triangle `t` is (0, t + 1, t + 2).
pub open spec fn fan_index(k: int) -> u16 {
    let t = k / 3;
    if k % 3 == 0 {
        0u16
    } else if k % 3 == 1 {
        (t + 1) as u16
    } else {
        (t + 2) as u16
    }
}

/// The index list of a regular polygon: `sides - 2` triangles fanning out
/// from vertex 0.
pub open spec fn polygon_indices(sides: u16) -> Seq<u16> {
    Seq::new((3 * (sides - 2)) as nat, |k: int| fan_index(k))
}

/// Builds the mesh of a regular polygon with `sides` vertices on the unit
/// circle: vertex `i` sits at the fraction `i / sides` of a full turn, and
/// the `sides - 2` triangles fan out from vertex 0.
pub fn generate_polygon(sides: u16) -> (m: Mesh)
    requires
        sides >= 3,
    ensures
        m.vertices@ == polygon_vertices(sides),
        m.indices@ == polygon_indices(sides),
        m.wf(),
{
    let mut vertices: Vec<VertexPos> = Vec::new();
    let mut i: u16 = 0;
    while i < sides
        invariant
            i <= sides,
            vertices@.len() == i as int,
            forall|j: int| 0 <= j < i as int ==> vertices@[j] == polygon_vertex(j, sides),
        decreases sides - i,
    {
        vertices.push(VertexPos::Circle { step: i, count: sides });
        i = i + 1;
    }
    let mut indices: Vec<u16> = Vec::new();
    let mut t: u16 = 0;
    while t < sides - 2
        invariant
            sides >= 3,
            t <= sides - 2,
            indices@.len() == 3 * (t as int),
            forall|k: int| 0 <= k < indices@.len() ==> (#[trigger] indices@[k]) == fan_index(k),
        decreases sides - 2 - t,
    {
        let ghost prev = indices@;
        indices.push(0u16);
        indices.push(t + 1);
        indices.push(t + 2);
        proof {
            assert(indices@ =~= prev + seq![0u16, ((t + 1) as u16), ((t + 2) as u16)]);
            assert(fan_index(3 * (t as int)) == 0u16);
            assert(fan_index(3 * (t as int) + 1) == ((t as int + 1) as u16));
            assert(fan_index(3 * (t as int) + 2) == ((t as int + 2) as u16));
        }
        t = t + 1;
    }
    proof {
        assert(vertices@ =~= polygon_vertices(sides));
        assert(indices@ =~= polygon_indices(sides));
        assert forall|k: int| 0 <= k < indices@.len() implies (#[trigger] indices@[k])
            < vertices@.len() by {
            let q = k / 3;
            assert(3 * q <= k < 3 * (q + 1));
            assert(q < sides - 2);
        }
    }
    Mesh { vertices, indices }
}

/// The polygon mesh carries `sides` vertices and `3 * (sides - 2)` index
/// entries, and every index refers to one of its vertices.
pub proof fn lemma_polygon_mesh_counts(sides: u16)
    requires
        sides >= 3,
    ensures
        polygon_vertices(sides).len() == sides,
        polygon_indices(sides).len() == 3 * (sides - 2),
        forall|k: int|
            0 <= k < polygon_indices(sides).len() ==> (#[trigger] polygon_indices(sides)[k])
                < sides,
{
    assert forall|k: int|
        0 <= k < polygon_indices(sides).len() implies (#[trigger] polygon_indices(sides)[k])
        < sides by {
        let q = k / 3;
        assert(3 * q <= k < 3 * (q + 1));
        assert(q < sides - 2);
    }
}

/// The corners of the unit cube, in the documented order: the four corners
/// of the back face (z = -1/2) counter-clockwise as seen from the front,
/// then the four corners of the front face (z = 1/2) in the same order.
pub open spec fn cube_vertices() -> Seq<VertexPos> {
    seq![
        (VertexPos::Corner { x: -1i8, y: -1i8, z: -1i8 }),
        (VertexPos::Corner { x: 1i8, y: -1i8, z: -1i8 }),
        (VertexPos::Corner { x: 1i8, y: 1i8, z: -1i8 }),
        (VertexPos::Corner { x: -1i8, y: 1i8, z: -1i8 }),
        (VertexPos::Corner { x: -1i8, y: -1i8, z: 1i8 }),
        (VertexPos::Corner { x: 1i8, y: -1i8, z: 1i8 }),
        (VertexPos::Corner { x: 1i8, y: 1i8, z: 1i8 }),
        (VertexPos::Corner { x: -1i8, y: 1i8, z: 1i8 }),
    ]
}

/// The cube's index list: two triangles per face, six faces, each triangle
/// wound counter-clockwise as seen from outside the cube.
pub open spec fn cube_indices() -> Seq<u16> {
    seq![
        4u16, 5, 6, 4, 6, 7,  // front,  z = 1/2
        0, 3, 2, 0, 2, 1,  // back,   z = -1/2
        1, 2, 6, 1, 6, 5,  // right,  x = 1/2
        0, 4, 7, 0, 7, 3,  // left,   x = -1/2
        3, 7, 6, 3, 6, 2,  // top,    y = 1/2
        0, 1, 5, 0, 5, 4,  // bottom, y = -1/2
    ]
}

/// Appends one triangle to an index list.
fn push_triangle(indices: &mut Vec<u16>, a: u16, b: u16, c: u16)
    ensures
        final(indices)@ =~= old(indices)@ + seq![a, b, c],
{
    indices.push(a);
    indices.push(b);
    indices.push(c);
}

/// Builds the mesh of the axis-aligned unit cube centred on the origin:
/// its eight corners in the documented order and twelve triangles, two per
/// face, wound counter-clockwise as seen from outside.
pub fn generate_cube() -> (m: Mesh)
    ensures
        m.vertices@ == cube_vertices(),
        m.indices@ == cube_indices(),
        m.wf(),
{
    let mut vertices: Vec<VertexPos> = Vec::new();
    vertices.push(VertexPos::Corner { x: -1i8, y: -1i8, z: -1i8 });
    vertices.push(VertexPos::Corner { x: 1i8, y: -1i8, z: -1i8 });
    vertices.push(VertexPos::Corner { x: 1i8, y: 1i8, z: -1i8 });
    vertices.push(VertexPos::Corner { x: -1i8, y: 1i8, z: -1i8 });
    vertices.push(VertexPos::Corner { x: -1i8, y: -1i8, z: 1i8 });
    vertices.push(VertexPos::Corner { x: 1i8, y: -1i8, z: 1i8 });
    vertices.push(VertexPos::Corner { x: 1i8, y: 1i8, z: 1i8 });
    vertices.push(VertexPos::Corner { x: -1i8, y: 1i8, z: 1i8 });
    let mut indices: Vec<u16> = Vec::new();
    push_triangle(&mut indices, 4, 5, 6);  // front
    push_triangle(&mut indices, 4, 6, 7);
    push_triangle(&mut indices, 0, 3, 2);  // back
    push_triangle(&mut indices, 0, 2, 1);
    push_triangle(&mut indices, 1, 2, 6);  // right
    push_triangle(&mut indices, 1, 6, 5);
    push_triangle(&mut indices, 0, 4, 7);  // left
    push_triangle(&mut indices, 0, 7, 3);
    push_triangle(&mut indices, 3, 7, 6);  // top
    push_triangle(&mut indices, 3, 6, 2);
    push_triangle(&mut indices, 0, 1, 5);  // bottom
    push_triangle(&mut indices, 0, 5, 4);
    proof {
        assert(vertices@ =~= cube_vertices());
        assert(indices@ =~= cube_indices());
    }
    Mesh { vertices, indices }
}

/// The cube mesh holds eight corners and thirty-six index entries forming
/// twelve whole triangles, every index refers to one of its corners, and
/// every corner sits on the surface of the unit box: each coordinate is
/// -1 or 1, that is, one half of the unit edge away from the origin in
/// each axis, with both extremes attained.
pub proof fn lemma_cube_mesh_counts()
    ensures
        cube_vertices().len() == 8,
        cube_indices().len() == 36,
        cube_indices().len() % 3 == 0,
        forall|k: int| 0 <= k < 36 ==> (#[trigger] cube_indices()[k]) < 8,
        forall|i: int|
            0 <= i < 8 ==> ((#[trigger] cube_vertices()[i]) matches VertexPos::Corner {
                x,
                y,
                z,
            } && (x == -1i8 || x == 1i8) && (y == -1i8 || y == 1i8) && (z == -1i8 || z == 1i8)),
        cube_vertices()[0] == (VertexPos::Corner { x: -1i8, y: -1i8, z: -1i8 }),
        cube_vertices()[6] == (VertexPos::Corner { x: 1i8, y: 1i8, z: 1i8 }),
{
}

/// Generating a polygon is deterministic: any two meshes that meet the
/// generator's contract for the same side count hold the same vertex and
/// index sequences.
pub proof fn lemma_generate_polygon_deterministic(a: Mesh, b: Mesh, sides: u16)
    requires
        a.vertices@ == polygon_vertices(sides),
        a.indices@ == polygon_indices(sides),
        b.vertices@ == polygon_vertices(sides),
        b.indices@ == polygon_indices(sides),
    ensures
        a.vertices@ == b.vertices@,
        a.indices@ == b.indices@,
{
}

/// The shape the viewer is asked to draw.
#[derive(Clone, Copy, Debug, PartialEq, Eq, Structural)]
pub enum ShapeKind {
    Polygon { sides: u16 },
    Cube,
}

impl ShapeKind {
    /// A polygon needs at least three sides; the cube needs nothing.
    pub open spec fn wf(self) -> bool {
        match self {
            ShapeKind::Polygon { sides } => sides >= 3,
            ShapeKind::Cube => true,
        }
    }
}

/// The vertices that drawing the given shape calls for.
pub open spec fn shape_vertices(shape: ShapeKind) -> Seq<VertexPos> {
    match shape {
        ShapeKind::Polygon { sides } => polygon_vertices(sides),
        ShapeKind::Cube => cube_vertices(),
    }
}

/// The index list that drawing the given shape calls for.
pub open spec fn shape_indices(shape: ShapeKind) -> Seq<u16> {
    match shape {
        ShapeKind::Polygon { sides } => polygon_indices(sides),
        ShapeKind::Cube => cube_indices(),
    }
}

/// The mesh is exactly the one that drawing the given shape calls for.
pub open spec fn mesh_is(m: Mesh, shape: ShapeKind) -> bool {
    &&& m.vertices@ == shape_vertices(shape)
    &&& m.indices@ == shape_indices(shape)
}

/// Builds the mesh of the given shape.
pub fn generate_shape(shape: ShapeKind) -> (m: Mesh)
    requires
        shape.wf(),
    ensures
        mesh_is(m, shape),
        m.wf(),
{
    match shape {
        ShapeKind::Polygon { sides } => generate_polygon(sides),
        ShapeKind::Cube => generate_cube(),
    }
}

/// Rejection of geometry parameters a mesh cannot be built from.
#[derive(Clone, Copy, Debug, PartialEq, Eq, Structural)]
pub enum GeometryError {
    /// A polygon was asked for with fewer than three sides.
    InvalidArgument,
}

/// Builds the mesh of a regular polygon, rejecting a degenerate side count
/// instead of assuming it away: exactly the inputs with at least three sides
/// succeed, and each yields the mesh `generate_polygon` describes.
pub fn try_generate_polygon(sides: u16) -> (r: Result<Mesh, GeometryError>)
    ensures
        sides >= 3 <==> r is Ok,
        r matches Ok(m) ==> m.vertices@ == polygon_vertices(sides) && m.indices@
            == polygon_indices(sides) && m.wf(),
        r matches Err(e) ==> e == GeometryError::InvalidArgument,
{
    if sides >= 3 {
        Ok(generate_polygon(sides))
    } else {
        Err(GeometryError::InvalidArgument)
    }
}

} // verus!
