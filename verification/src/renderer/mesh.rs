//! Meshes: vertex data for the basic shapes, and what a draw call needs.
use crate::math::matrix::{translation_spec, Mat4};
use crate::math::quaternion::{rotation4_spec, rotation_req, Quaternion};
use crate::math::scalar::{obeys_scalar_spec, one, two, zero, Scalar};
use crate::math::vector::{Vector, Vector3, Vector4};
use crate::renderer::buffers::{ElementBufferObject, VertexArrayObject, VertexBufferObject};
use crate::renderer::texture::Texture;
use core::ops::Neg;
use vstd::prelude::*;
use vstd::std_specs::convert::FromSpec;
use vstd::std_specs::ops::{DivSpec, NegSpec};

verus! {

/// A vertex: a position, a color and a texture coordinate.
#[derive(Debug, Clone, Copy, PartialEq)]
pub struct Vertex<T> {
    pub position: [T; 3],
    pub color: [T; 4],
    pub uv: [T; 2],
}

impl<T: Scalar> Vertex<T> {
    /// The vertex with the components of the three vectors.
    pub fn from_vectors(position: Vector3<T>, color: Vector4<T>, uv: Vector<T, 2>) -> (r: Self)
        ensures
            r.position == position.0,
            r.color == color.0,
            r.uv == uv.0,
    {
        Self { position: position.0, color: color.0, uv: uv.0 }
    }

    /// The vertex's position, color and texture coordinate as sequences.
    pub open spec fn parts(self) -> (Seq<T>, Seq<T>, Seq<T>) {
        (self.position@, self.color@, self.uv@)
    }
}

/// The vertices and indices of a mesh, ready to be uploaded.
#[derive(Debug, Clone, PartialEq)]
pub struct MeshData<T> {
    pub vertices: Vec<Vertex<T>>,
    pub indices: Vec<i32>,
}

/// `x` or its negation.
pub open spec fn signed<T: Scalar>(x: T, positive: bool) -> T {
    if positive {
        x
    } else {
        x.neg_spec()
    }
}

/// One corner of a shape: the signs of its three coordinates, relative to
/// the shape's half extents, and its texture coordinate.
pub struct Corner {
    pub x: bool,
    pub y: bool,
    pub z: bool,
    pub u: i8,
    pub v: i8,
}

/// The vertex at `corner` of a box with half extents `x`, `y` and `z`.
pub open spec fn corner_vertex<T: Scalar>(corner: Corner, x: T, y: T, z: T, color: Seq<T>) -> (
    Seq<T>,
    Seq<T>,
    Seq<T>,
) {
    (
        seq![signed(x, corner.x), signed(y, corner.y), signed(z, corner.z)],
        color,
        seq![T::from_spec(corner.u), T::from_spec(corner.v)],
    )
}

/// The 36 corners of a cube's twelve triangles: six per face, in the order
/// back, front, left, right, bottom, top.
pub open spec fn cube_corners() -> Seq<Corner> {
    seq![
        Corner { x: false, y: false, z: false, u: 0, v: 0 },
        Corner { x: true, y: false, z: false, u: 1, v: 0 },
        Corner { x: true, y: true, z: false, u: 1, v: 1 },
        Corner { x: true, y: true, z: false, u: 1, v: 1 },
        Corner { x: false, y: true, z: false, u: 0, v: 1 },
        Corner { x: false, y: false, z: false, u: 0, v: 0 },
        Corner { x: false, y: false, z: true, u: 0, v: 0 },
        Corner { x: true, y: false, z: true, u: 1, v: 0 },
        Corner { x: true, y: true, z: true, u: 1, v: 1 },
        Corner { x: true, y: true, z: true, u: 1, v: 1 },
        Corner { x: false, y: true, z: true, u: 0, v: 1 },
        Corner { x: false, y: false, z: true, u: 0, v: 0 },
        Corner { x: false, y: true, z: true, u: 1, v: 0 },
        Corner { x: false, y: true, z: false, u: 1, v: 1 },
        Corner { x: false, y: false, z: false, u: 0, v: 1 },
        Corner { x: false, y: false, z: false, u: 0, v: 1 },
        Corner { x: false, y: false, z: true, u: 0, v: 0 },
        Corner { x: false, y: true, z: true, u: 1, v: 0 },
        Corner { x: true, y: true, z: true, u: 1, v: 0 },
        Corner { x: true, y: true, z: false, u: 1, v: 1 },
        Corner { x: true, y: false, z: false, u: 0, v: 1 },
        Corner { x: true, y: false, z: false, u: 0, v: 1 },
        Corner { x: true, y: false, z: true, u: 0, v: 0 },
        Corner { x: true, y: true, z: true, u: 1, v: 0 },
        Corner { x: false, y: false, z: false, u: 0, v: 1 },
        Corner { x: true, y: false, z: false, u: 1, v: 1 },
        Corner { x: true, y: false, z: true, u: 1, v: 0 },
        Corner { x: true, y: false, z: true, u: 1, v: 0 },
        Corner { x: false, y: false, z: true, u: 0, v: 0 },
        Corner { x: false, y: false, z: false, u: 0, v: 1 },
        Corner { x: false, y: true, z: false, u: 0, v: 1 },
        Corner { x: true, y: true, z: false, u: 1, v: 1 },
        Corner { x: true, y: true, z: true, u: 1, v: 0 },
        Corner { x: true, y: true, z: true, u: 1, v: 0 },
        Corner { x: false, y: true, z: true, u: 0, v: 0 },
        Corner { x: false, y: true, z: false, u: 0, v: 1 },
    ]
}

/// The four corners of a rectangle in the plane `z = 0`.
pub open spec fn rectangle_corners() -> Seq<Corner> {
    seq![
        Corner { x: true, y: true, z: true, u: 1, v: 1 },
        Corner { x: false, y: true, z: true, u: 0, v: 1 },
        Corner { x: true, y: false, z: true, u: 1, v: 0 },
        Corner { x: false, y: false, z: true, u: 0, v: 0 },
    ]
}

/// The indices of a rectangle's two triangles.
pub open spec fn rectangle_indices() -> Seq<i32> {
    seq![1i32, 0i32, 2i32, 1i32, 2i32, 3i32]
}

/// The three corners of a triangle of width `x` and height `y` in the plane
/// `z = 0`: bottom left, top, bottom right. `hx` and `hy` are the halves of
/// `x` and `y`.
pub open spec fn triangle_vertices<T: Scalar>(hx: T, hy: T, color: Seq<T>) -> Seq<
    (Seq<T>, Seq<T>, Seq<T>),
> {
    seq![
        (
            seq![hx.neg_spec(), hy.neg_spec(), zero::<T>()],
            color,
            seq![T::from_spec(-1i8), T::from_spec(-1i8)],
        ),
        (seq![zero::<T>(), hy, zero::<T>()], color, seq![zero::<T>(), one::<T>()]),
        (seq![hx, hy.neg_spec(), zero::<T>()], color, seq![one::<T>(), T::from_spec(-1i8)]),
    ]
}

/// The vertices of a shape, each by its three parts.
pub open spec fn vertex_parts<T: Scalar>(vertices: Seq<Vertex<T>>) -> Seq<
    (Seq<T>, Seq<T>, Seq<T>),
> {
    Seq::new(vertices.len(), |i: int| vertices[i].parts())
}

/// The vertices at the given corners of a box with half extents `x`, `y`, `z`.
pub open spec fn box_vertices<T: Scalar>(corners: Seq<Corner>, x: T, y: T, z: T, color: Seq<T>) -> Seq<
    (Seq<T>, Seq<T>, Seq<T>),
> {
    Seq::new(corners.len(), |i: int| corner_vertex(corners[i], x, y, z, color))
}

/// The indices `0, 1, ..., n - 1`.
pub open spec fn counting_indices(n: nat) -> Seq<i32> {
    Seq::new(n, |i: int| i as i32)
}

/// The corners of the cube, as a table.
fn cube_table() -> (r: [Corner; 36])
    ensures
        r@ == cube_corners(),
{
    let r = [
        Corner { x: false, y: false, z: false, u: 0, v: 0 },
        Corner { x: true, y: false, z: false, u: 1, v: 0 },
        Corner { x: true, y: true, z: false, u: 1, v: 1 },
        Corner { x: true, y: true, z: false, u: 1, v: 1 },
        Corner { x: false, y: true, z: false, u: 0, v: 1 },
        Corner { x: false, y: false, z: false, u: 0, v: 0 },
        Corner { x: false, y: false, z: true, u: 0, v: 0 },
        Corner { x: true, y: false, z: true, u: 1, v: 0 },
        Corner { x: true, y: true, z: true, u: 1, v: 1 },
        Corner { x: true, y: true, z: true, u: 1, v: 1 },
        Corner { x: false, y: true, z: true, u: 0, v: 1 },
        Corner { x: false, y: false, z: true, u: 0, v: 0 },
        Corner { x: false, y: true, z: true, u: 1, v: 0 },
        Corner { x: false, y: true, z: false, u: 1, v: 1 },
        Corner { x: false, y: false, z: false, u: 0, v: 1 },
        Corner { x: false, y: false, z: false, u: 0, v: 1 },
        Corner { x: false, y: false, z: true, u: 0, v: 0 },
        Corner { x: false, y: true, z: true, u: 1, v: 0 },
        Corner { x: true, y: true, z: true, u: 1, v: 0 },
        Corner { x: true, y: true, z: false, u: 1, v: 1 },
        Corner { x: true, y: false, z: false, u: 0, v: 1 },
        Corner { x: true, y: false, z: false, u: 0, v: 1 },
        Corner { x: true, y: false, z: true, u: 0, v: 0 },
        Corner { x: true, y: true, z: true, u: 1, v: 0 },
        Corner { x: false, y: false, z: false, u: 0, v: 1 },
        Corner { x: true, y: false, z: false, u: 1, v: 1 },
        Corner { x: true, y: false, z: true, u: 1, v: 0 },
        Corner { x: true, y: false, z: true, u: 1, v: 0 },
        Corner { x: false, y: false, z: true, u: 0, v: 0 },
        Corner { x: false, y: false, z: false, u: 0, v: 1 },
        Corner { x: false, y: true, z: false, u: 0, v: 1 },
        Corner { x: true, y: true, z: false, u: 1, v: 1 },
        Corner { x: true, y: true, z: true, u: 1, v: 0 },
        Corner { x: true, y: true, z: true, u: 1, v: 0 },
        Corner { x: false, y: true, z: true, u: 0, v: 0 },
        Corner { x: false, y: true, z: false, u: 0, v: 1 },
    ];
    assert(r@ =~= cube_corners());
    r
}

/// The vertex at one corner of a box; `nx`, `ny` and `nz` are the negated
/// half extents.
fn vertex_at<T: Scalar>(corner: &Corner, x: T, nx: T, y: T, ny: T, z: T, nz: T, color: Vector4<T>) -> (r:
    Vertex<T>)
    requires
        obeys_scalar_spec::<T>(),
        nx == x.neg_spec(),
        ny == y.neg_spec(),
        nz == z.neg_spec(),
    ensures
        r.parts() == corner_vertex(*corner, x, y, z, color@),
{
    let px = if corner.x {
        x
    } else {
        nx
    };
    let py = if corner.y {
        y
    } else {
        ny
    };
    let pz = if corner.z {
        z
    } else {
        nz
    };
    let r = Vertex { position: [px, py, pz], color: color.0, uv: [T::from(corner.u), T::from(corner.v)] };
    assert(r.position@ =~= corner_vertex(*corner, x, y, z, color@).0);
    assert(r.uv@ =~= corner_vertex(*corner, x, y, z, color@).2);
    r
}

/// The vertices and indices of a cube with half extents `x`, `y` and `z`:
/// twelve triangles, two per face, drawn in the order of the vertices.
pub fn cube_data<T: Scalar>(x: T, y: T, z: T, color: Vector4<T>) -> (r: MeshData<T>)
    requires
        obeys_scalar_spec::<T>(),
        x.neg_req(),
        y.neg_req(),
        z.neg_req(),
    ensures
        vertex_parts(r.vertices@) == box_vertices(cube_corners(), x, y, z, color@),
        r.indices@ == counting_indices(36),
{
    let table = cube_table();
    let nx = x.neg();
    let ny = y.neg();
    let nz = z.neg();
    let mut vertices: Vec<Vertex<T>> = Vec::new();
    let mut indices: Vec<i32> = Vec::new();
    let mut i: usize = 0;
    while i < 36
        invariant
            0 <= i <= 36,
            obeys_scalar_spec::<T>(),
            table@ == cube_corners(),
            nx == x.neg_spec(),
            ny == y.neg_spec(),
            nz == z.neg_spec(),
            vertices@.len() == i,
            indices@.len() == i,
            forall|k: int|
                0 <= k < i ==> (#[trigger] vertices@[k]).parts() == corner_vertex(
                    cube_corners()[k],
                    x,
                    y,
                    z,
                    color@,
                ),
            forall|k: int| 0 <= k < i ==> #[trigger] indices@[k] == k as i32,
        decreases 36 - i,
    {
        vertices.push(vertex_at(&table[i], x, nx, y, ny, z, nz, color));
        indices.push(i as i32);
        i += 1;
    }
    assert(vertex_parts(vertices@) =~= box_vertices(cube_corners(), x, y, z, color@));
    assert(indices@ =~= counting_indices(36));
    MeshData { vertices, indices }
}

/// The vertices and indices of a rectangle with half extents `x` and `y` in
/// the plane `z = 0`.
pub fn rectangle_data<T: Scalar>(x: T, y: T, color: Vector4<T>) -> (r: MeshData<T>)
    requires
        obeys_scalar_spec::<T>(),
        x.neg_req(),
        y.neg_req(),
    ensures
        vertex_parts(r.vertices@) == box_vertices(
            rectangle_corners(),
            x,
            y,
            zero::<T>(),
            color@,
        ),
        r.indices@ == rectangle_indices(),
{
    let nx = x.neg();
    let ny = y.neg();
    let o = T::from(0i8);
    let i = T::from(1i8);
    let vertices = vec![
        Vertex { position: [x, y, o], color: color.0, uv: [i, i] },
        Vertex { position: [nx, y, o], color: color.0, uv: [o, i] },
        Vertex { position: [x, ny, o], color: color.0, uv: [i, o] },
        Vertex { position: [nx, ny, o], color: color.0, uv: [o, o] },
    ];
    let indices = vec![1i32, 0i32, 2i32, 1i32, 2i32, 3i32];
    proof {
        let want = box_vertices(rectangle_corners(), x, y, zero::<T>(), color@);
        let got = vertex_parts(vertices@);
        assert forall|k: int| 0 <= k < 4 implies got[k] == want[k] by {
            assert(got[k].0 =~= want[k].0);
            assert(got[k].2 =~= want[k].2);
        }
        assert(got =~= want);
        assert(indices@ =~= rectangle_indices());
    }
    MeshData { vertices, indices }
}

/// The vertices and indices of a triangle of width `x` and height `y` in the
/// plane `z = 0`, centered at the origin.
pub fn triangle_data<T: Scalar>(x: T, y: T, color: Vector4<T>) -> (r: MeshData<T>)
    requires
        obeys_scalar_spec::<T>(),
        x.div_req(two::<T>()),
        y.div_req(two::<T>()),
        x.div_spec(two::<T>()).neg_req(),
        y.div_spec(two::<T>()).neg_req(),
    ensures
        vertex_parts(r.vertices@) == triangle_vertices(
            x.div_spec(two::<T>()),
            y.div_spec(two::<T>()),
            color@,
        ),
        r.indices@ == counting_indices(3),
{
    let hx = x / T::from(2i8);
    let hy = y / T::from(2i8);
    let o = T::from(0i8);
    let i = T::from(1i8);
    let m = T::from(-1i8);
    let vertices = vec![
        Vertex { position: [hx.neg(), hy.neg(), o], color: color.0, uv: [m, m] },
        Vertex { position: [o, hy, o], color: color.0, uv: [o, i] },
        Vertex { position: [hx, hy.neg(), o], color: color.0, uv: [i, m] },
    ];
    let indices = vec![0i32, 1i32, 2i32];
    proof {
        let want = triangle_vertices(x.div_spec(two::<T>()), y.div_spec(two::<T>()), color@);
        let got = vertex_parts(vertices@);
        assert forall|k: int| 0 <= k < 3 implies got[k] == want[k] by {
            assert(got[k].0 =~= want[k].0);
            assert(got[k].2 =~= want[k].2);
        }
        assert(got =~= want);
        assert(indices@ =~= counting_indices(3));
    }
    MeshData { vertices, indices }
}

/// The sequence of `n` components that is one at `axis` and zero elsewhere.
pub open spec fn unit_seq<T: Scalar>(axis: int, n: nat) -> Seq<T> {
    Seq::new(
        n,
        |i: int|
            if i == axis {
                one::<T>()
            } else {
                zero::<T>()
            },
    )
}

/// The six vertices of the three axis arrows: for each axis the origin and
/// the axis' unit point, both in the axis' color (red for x, green for y,
/// blue for z), with the texture coordinate zero.
pub open spec fn axes_vertices<T: Scalar>() -> Seq<(Seq<T>, Seq<T>, Seq<T>)> {
    Seq::new(
        6,
        |i: int|
            (
                if i % 2 == 0 {
                    seq![zero::<T>(), zero::<T>(), zero::<T>()]
                } else {
                    unit_seq::<T>(i / 2, 3)
                },
                unit_seq::<T>(i / 2, 3).push(one::<T>()),
                seq![zero::<T>(), zero::<T>()],
            ),
    )
}

/// The vertices and indices of the three axis arrows, to be drawn as lines.
pub fn axes_data<T: Scalar>() -> (r: MeshData<T>)
    ensures
        obeys_scalar_spec::<T>() ==> vertex_parts(r.vertices@) == axes_vertices::<T>(),
        r.indices@ == counting_indices(6),
{
    let o = T::from(0i8);
    let i = T::from(1i8);
    let mut vertices: Vec<Vertex<T>> = Vec::new();
    let mut indices: Vec<i32> = Vec::new();
    let mut axis: usize = 0;
    while axis < 3
        invariant
            0 <= axis <= 3,
            obeys_scalar_spec::<T>() ==> o == zero::<T>() && i == one::<T>(),
            vertices@.len() == 2 * axis,
            indices@.len() == 2 * axis,
            obeys_scalar_spec::<T>() ==> forall|k: int|
                0 <= k < 2 * axis ==> (#[trigger] vertices@[k]).parts() == axes_vertices::<T>()[k],
            forall|k: int| 0 <= k < 2 * axis ==> #[trigger] indices@[k] == k as i32,
        decreases 3 - axis,
    {
        let mut unit = [o, o, o];
        unit[axis] = i;
        let color = [unit[0], unit[1], unit[2], i];
        let start = Vertex { position: [o, o, o], color, uv: [o, o] };
        let end = Vertex { position: unit, color, uv: [o, o] };
        proof {
            if obeys_scalar_spec::<T>() {
                let a = axis as int;
                assert(unit@ =~= unit_seq::<T>(a, 3));
                assert(color@ =~= unit_seq::<T>(a, 3).push(one::<T>()));
                assert(start.parts().0 =~= axes_vertices::<T>()[2 * a].0);
                assert(start.parts().2 =~= axes_vertices::<T>()[2 * a].2);
                assert(end.parts().2 =~= axes_vertices::<T>()[2 * a + 1].2);
                assert((2 * a) / 2 == a && (2 * a + 1) / 2 == a);
                assert(start.parts() == axes_vertices::<T>()[2 * a]);
                assert(end.parts() == axes_vertices::<T>()[2 * a + 1]);
            }
        }
        vertices.push(start);
        vertices.push(end);
        indices.push((2 * axis) as i32);
        indices.push((2 * axis + 1) as i32);
        axis += 1;
    }
    assert(obeys_scalar_spec::<T>() ==> vertex_parts(vertices@) =~= axes_vertices::<T>());
    assert(indices@ =~= counting_indices(6));
    MeshData { vertices, indices }
}

/// What one draw call needs: the textures to bind, unit by unit, the model's
/// translation and rotation matrices, the vertex array and element buffer to
/// bind, and the number of indices to draw as a triangle list.
#[derive(Debug, Clone, PartialEq)]
pub struct DrawCall<T> {
    pub textures: Vec<u32>,
    pub translation: Mat4<T>,
    pub rotation: Mat4<T>,
    pub vertex_array: u32,
    pub element_buffer: u32,
    pub indices_count: i32,
}

/// A draw call as plain values: the texture handles, the rows of the two
/// matrices, the two buffer handles and the number of indices.
pub struct DrawCallView<T> {
    pub textures: Seq<u32>,
    pub translation: Seq<Seq<T>>,
    pub rotation: Seq<Seq<T>>,
    pub vertex_array: u32,
    pub element_buffer: u32,
    pub indices_count: i32,
}

impl<T> View for DrawCall<T> {
    type V = DrawCallView<T>;

    open spec fn view(&self) -> DrawCallView<T> {
        DrawCallView {
            textures: self.textures@,
            translation: self.translation@,
            rotation: self.rotation@,
            vertex_array: self.vertex_array,
            element_buffer: self.element_buffer,
            indices_count: self.indices_count,
        }
    }
}

/// The draw calls of a sequence, each as plain values.
pub open spec fn call_views<T>(calls: Seq<DrawCall<T>>) -> Seq<DrawCallView<T>> {
    Seq::new(calls.len(), |i: int| calls[i]@)
}

/// Something that can be drawn.
///
/// An implementation may declare that `draw_spec` models it. The contract
/// of `draw` speaks of modeled meshes only; of others it claims nothing.
pub trait Mesh<T: Scalar> {
    /// Whether `draw_spec` describes this mesh.
    open spec fn modeled(&self) -> bool {
        false
    }

    /// The draw call that renders the mesh in its current state.
    open spec fn draw_spec(&self) -> DrawCallView<T> {
        arbitrary()
    }

    /// The draw call that renders the mesh in its current state.
    fn draw(&self) -> (r: DrawCall<T>)
        ensures
            self.modeled() ==> r@ == self.draw_spec(),
    ;
}

/// The handles of the textures, in order.
pub open spec fn texture_handles(textures: Seq<Texture>) -> Seq<u32> {
    Seq::new(textures.len(), |i: int| textures[i].texture)
}

/// A mesh whose vertex data was uploaded once and does not change. It keeps
/// the rotation matrix of its orientation at hand.
#[derive(Debug)]
pub struct StaticMesh<T: Scalar> {
    world_position: Vector3<T>,
    rotation: Quaternion<T>,
    rotation_matrix: Mat4<T>,
    vao: VertexArrayObject,
    vbo: VertexBufferObject,
    ebo: ElementBufferObject,
    textures: Vec<Texture>,
    indices_count: i32,
}

impl<T: Scalar> StaticMesh<T> {
    /// The rotation matrix is the one of the orientation.
    #[verifier::type_invariant]
    pub closed spec fn consistent(self) -> bool {
        self.rotation_matrix@ == rotation4_spec(self.rotation)
    }

    /// The mesh's position in the world.
    pub closed spec fn position_spec(self) -> Vector3<T> {
        self.world_position
    }

    /// The mesh's orientation.
    pub closed spec fn rotation_spec(self) -> Quaternion<T> {
        self.rotation
    }

    /// The handles of the vertex array, vertex buffer and element buffer.
    pub closed spec fn buffers_spec(self) -> (u32, u32, u32) {
        (self.vao.0, self.vbo.0, self.ebo.0)
    }

    /// The mesh's textures, in the order of their units.
    pub closed spec fn textures_spec(self) -> Seq<Texture> {
        self.textures@
    }

    /// The number of indices that a draw call draws.
    pub closed spec fn indices_count_spec(self) -> i32 {
        self.indices_count
    }

    /// The mesh for buffers that hold `indices_count` indices.
    pub fn new(
        vao: VertexArrayObject,
        vbo: VertexBufferObject,
        ebo: ElementBufferObject,
        indices_count: usize,
        world_position: Vector3<T>,
        rotation: Quaternion<T>,
        textures: Vec<Texture>,
    ) -> (r: Self)
        requires
            obeys_scalar_spec::<T>(),
            rotation_req(rotation),
            indices_count <= i32::MAX,
        ensures
            r.position_spec() == world_position,
            r.rotation_spec() == rotation,
            r.buffers_spec() == (vao.0, vbo.0, ebo.0),
            r.textures_spec() == textures@,
            r.indices_count_spec() == indices_count,
    {
        Self {
            world_position,
            rotation,
            rotation_matrix: rotation.to_matrix4x4(),
            vao,
            vbo,
            ebo,
            textures,
            indices_count: indices_count as i32,
        }
    }

    /// Moves the mesh to `pos`.
    pub fn set_position(&mut self, pos: Vector3<T>)
        ensures
            final(self).position_spec() == pos,
            final(self).rotation_spec() == old(self).rotation_spec(),
            final(self).buffers_spec() == old(self).buffers_spec(),
            final(self).textures_spec() == old(self).textures_spec(),
            final(self).indices_count_spec() == old(self).indices_count_spec(),
    {
        proof {
            use_type_invariant(&*self);
        }
        self.world_position = pos;
    }

    /// Turns the mesh to the orientation `rot`.
    pub fn set_rotation(&mut self, rot: Quaternion<T>)
        requires
            obeys_scalar_spec::<T>(),
            rotation_req(rot),
        ensures
            final(self).rotation_spec() == rot,
            final(self).position_spec() == old(self).position_spec(),
            final(self).buffers_spec() == old(self).buffers_spec(),
            final(self).textures_spec() == old(self).textures_spec(),
            final(self).indices_count_spec() == old(self).indices_count_spec(),
    {
        proof {
            use_type_invariant(&*self);
        }
        let matrix = rot.to_matrix4x4();
        let mut textures: Vec<Texture> = Vec::new();
        core::mem::swap(&mut textures, &mut self.textures);
        *self = Self {
            world_position: self.world_position,
            rotation: rot,
            rotation_matrix: matrix,
            vao: VertexArrayObject(self.vao.0),
            vbo: VertexBufferObject(self.vbo.0),
            ebo: ElementBufferObject(self.ebo.0),
            textures,
            indices_count: self.indices_count,
        };
    }
}

impl<T: Scalar> Mesh<T> for StaticMesh<T> {
    /// A static mesh is modeled wherever the scalar's operators obey their
    /// specifications.
    open spec fn modeled(&self) -> bool {
        obeys_scalar_spec::<T>()
    }

    open spec fn draw_spec(&self) -> DrawCallView<T> {
        DrawCallView {
            textures: texture_handles(self.textures_spec()),
            translation: translation_spec(self.position_spec()@),
            rotation: rotation4_spec(self.rotation_spec()),
            vertex_array: self.buffers_spec().0,
            element_buffer: self.buffers_spec().2,
            indices_count: self.indices_count_spec(),
        }
    }

    /// Binds the textures in order, translates by the position and rotates
    /// by the orientation.
    fn draw(&self) -> (r: DrawCall<T>)
        ensures
            r.textures@ == texture_handles(self.textures_spec()),
            obeys_scalar_spec::<T>() ==> r.translation@ == translation_spec(self.position_spec()@),
            r.rotation@ == rotation4_spec(self.rotation_spec()),
            r.vertex_array == self.buffers_spec().0,
            r.element_buffer == self.buffers_spec().2,
            r.indices_count == self.indices_count_spec(),
    {
        proof {
            use_type_invariant(self);
        }
        let mut textures: Vec<u32> = Vec::new();
        let mut i: usize = 0;
        while i < self.textures.len()
            invariant
                0 <= i <= self.textures@.len(),
                textures@.len() == i,
                forall|k: int| 0 <= k < i ==> #[trigger] textures@[k] == self.textures@[k].texture,
            decreases self.textures@.len() - i,
        {
            textures.push(self.textures[i].texture);
            i += 1;
        }
        assert(textures@ =~= texture_handles(self.textures@));
        DrawCall {
            textures,
            translation: Mat4::translation_mat(self.world_position),
            rotation: self.rotation_matrix,
            vertex_array: self.vao.0,
            element_buffer: self.ebo.0,
            indices_count: self.indices_count,
        }
    }
}

/// The coordinate that is fixed on face `face` of the cube (0 for x, 1 for
/// y, 2 for z), with its sign.
pub open spec fn face_side(face: int) -> (int, bool) {
    if face == 0 {
        (2, false)
    } else if face == 1 {
        (2, true)
    } else if face == 2 {
        (0, false)
    } else if face == 3 {
        (0, true)
    } else if face == 4 {
        (1, false)
    } else {
        (1, true)
    }
}

/// The sign of coordinate `axis` at a corner.
pub open spec fn corner_sign(corner: Corner, axis: int) -> bool {
    if axis == 0 {
        corner.x
    } else if axis == 1 {
        corner.y
    } else {
        corner.z
    }
}

/// Every vertex of a face of the cube lies on that face's side of the cube:
/// back and front fix `z`, left and right fix `x`, bottom and top fix `y`.
pub proof fn lemma_cube_faces(face: int, k: int)
    requires
        0 <= face < 6,
        0 <= k < 6,
    ensures
        corner_sign(cube_corners()[6 * face + k], face_side(face).0) == face_side(face).1,
{
}

/// The two triangles of a face of the cube share the face's diagonal: the
/// second triangle starts where the first ends, and ends where the first starts.
pub proof fn lemma_cube_face_diagonal(face: int)
    requires
        0 <= face < 6,
    ensures
        cube_corners()[6 * face + 3] == cube_corners()[6 * face + 2],
        cube_corners()[6 * face + 5] == cube_corners()[6 * face],
{
}

} // verus!
