use crate::vector::{cross, diff, fits_i32, ivec3, scaled, IVec3};
use vstd::prelude::*;

verus! {

/// One of the six faces of an axis-aligned cube.
#[derive(Clone, Copy, Debug, PartialEq, Eq, Structural)]
pub enum CubeFace {
    /// Looks along `+y`.
    Top,
    /// Looks along `-y`.
    Bottom,
    /// Looks along `-x`.
    Left,
    /// Looks along `+x`.
    Right,
    /// Looks along `-z`.
    Front,
    /// Looks along `+z`.
    Back,
}

/// The direction along which every face of one chunk mesh looks.
#[derive(Clone, Copy, Debug, PartialEq, Eq, Structural)]
pub struct MeshFacingDirection(pub IVec3);

/// One quad: four corners, one normal per corner, and two triangles given by
/// six corner numbers.
#[derive(Clone, Copy, Debug, PartialEq, Eq)]
pub struct MeshSide {
    pub vertices: [IVec3; 4],
    pub normals: [IVec3; 4],
    pub indices: [u32; 6],
}

/// A growable triangle mesh: positions, one normal per position, and
/// triangles given by position numbers.
#[derive(Clone, Debug, PartialEq, Eq)]
pub struct MeshData {
    pub vertices: Vec<IVec3>,
    pub normals: Vec<IVec3>,
    pub indices: Vec<u32>,
}

/// What a mesh holds, as sequences.
pub struct MeshDataView {
    pub vertices: Seq<IVec3>,
    pub normals: Seq<IVec3>,
    pub indices: Seq<u32>,
}

impl MeshDataView {
    /// The mesh without any geometry.
    pub open spec fn empty() -> MeshDataView {
        MeshDataView { vertices: Seq::empty(), normals: Seq::empty(), indices: Seq::empty() }
    }

    /// Every position has a normal, the indices come in groups of six (two
    /// triangles per quad), and every index names a position of this mesh.
    pub open spec fn wf(self) -> bool {
        &&& self.vertices.len() == self.normals.len()
        &&& self.indices.len() % 6 == 0
        &&& forall|i: int|
            0 <= i < self.indices.len() ==> (#[trigger] self.indices[i]) < self.vertices.len()
    }

    /// This mesh followed by `other`, whose indices are shifted past the
    /// positions that this mesh already holds.
    pub open spec fn append(self, other: MeshDataView) -> MeshDataView {
        MeshDataView {
            vertices: self.vertices + other.vertices,
            normals: self.normals + other.normals,
            indices: self.indices + Seq::new(
                other.indices.len(),
                |j: int| (other.indices[j] + self.vertices.len()) as u32,
            ),
        }
    }
}

impl View for MeshSide {
    type V = MeshDataView;

    open spec fn view(&self) -> MeshDataView {
        MeshDataView {
            vertices: self.vertices@,
            normals: self.normals@,
            indices: self.indices@,
        }
    }
}

impl View for MeshData {
    type V = MeshDataView;

    open spec fn view(&self) -> MeshDataView {
        MeshDataView {
            vertices: self.vertices@,
            normals: self.normals@,
            indices: self.indices@,
        }
    }
}

impl Default for MeshData {
    fn default() -> (mesh: MeshData)
        ensures
            mesh@ == MeshDataView::empty(),
    {
        MeshData { vertices: Vec::new(), normals: Vec::new(), indices: Vec::new() }
    }
}

/// The unit vector along which `face` looks, away from the solid.
pub open spec fn normal_of(face: CubeFace) -> IVec3 {
    match face {
        CubeFace::Top => ivec3(0, 1, 0),
        CubeFace::Bottom => ivec3(0, -1, 0),
        CubeFace::Left => ivec3(-1, 0, 0),
        CubeFace::Right => ivec3(1, 0, 0),
        CubeFace::Front => ivec3(0, 0, -1),
        CubeFace::Back => ivec3(0, 0, 1),
    }
}

/// The four corners of `face` of the cube centred on `(x, y, z)` whose faces
/// lie `size` away from the centre.
pub open spec fn side_vertices(face: CubeFace, x: int, y: int, z: int, size: int) -> Seq<IVec3> {
    match face {
        CubeFace::Top => seq![
            ivec3(x - size, y + size, z - size),
            ivec3(x + size, y + size, z - size),
            ivec3(x + size, y + size, z + size),
            ivec3(x - size, y + size, z + size),
        ],
        CubeFace::Bottom => seq![
            ivec3(x - size, y - size, z - size),
            ivec3(x + size, y - size, z - size),
            ivec3(x + size, y - size, z + size),
            ivec3(x - size, y - size, z + size),
        ],
        CubeFace::Right => seq![
            ivec3(x + size, y - size, z - size),
            ivec3(x + size, y - size, z + size),
            ivec3(x + size, y + size, z + size),
            ivec3(x + size, y + size, z - size),
        ],
        CubeFace::Left => seq![
            ivec3(x - size, y - size, z - size),
            ivec3(x - size, y - size, z + size),
            ivec3(x - size, y + size, z + size),
            ivec3(x - size, y + size, z - size),
        ],
        CubeFace::Back => seq![
            ivec3(x - size, y - size, z + size),
            ivec3(x - size, y + size, z + size),
            ivec3(x + size, y + size, z + size),
            ivec3(x + size, y - size, z + size),
        ],
        CubeFace::Front => seq![
            ivec3(x - size, y - size, z - size),
            ivec3(x - size, y + size, z - size),
            ivec3(x + size, y + size, z - size),
            ivec3(x + size, y - size, z - size),
        ],
    }
}

/// The two triangles of `face`, as numbers of its corners. Seen from outside
/// the cube, both run counter-clockwise.
pub open spec fn side_indices(face: CubeFace) -> Seq<u32> {
    match face {
        CubeFace::Top | CubeFace::Right | CubeFace::Back => seq![0u32, 3u32, 1u32, 1u32, 3u32, 2u32],
        CubeFace::Bottom | CubeFace::Left | CubeFace::Front => seq![
            0u32,
            1u32,
            3u32,
            1u32,
            2u32,
            3u32,
        ],
    }
}

/// The quad for `face` of the cube centred on `(x, y, z)` whose faces lie
/// `size` away from the centre.
pub open spec fn side_of(face: CubeFace, x: int, y: int, z: int, size: int) -> MeshDataView {
    MeshDataView {
        vertices: side_vertices(face, x, y, z, size),
        normals: Seq::new(4, |i: int| normal_of(face)),
        indices: side_indices(face),
    }
}

impl CubeFace {
    /// The unit vector along which this face looks.
    pub fn normal(self) -> (n: IVec3)
        ensures
            n == normal_of(self),
    {
        match self {
            CubeFace::Top => IVec3 { x: 0, y: 1, z: 0 },
            CubeFace::Bottom => IVec3 { x: 0, y: -1, z: 0 },
            CubeFace::Left => IVec3 { x: -1, y: 0, z: 0 },
            CubeFace::Right => IVec3 { x: 1, y: 0, z: 0 },
            CubeFace::Front => IVec3 { x: 0, y: 0, z: -1 },
            CubeFace::Back => IVec3 { x: 0, y: 0, z: 1 },
        }
    }
}

/// Two views with the same contents are the same view.
proof fn lemma_same_view(a: MeshDataView, b: MeshDataView)
    requires
        a.vertices =~= b.vertices,
        a.normals =~= b.normals,
        a.indices =~= b.indices,
    ensures
        a == b,
{
}

/// The quad that closes the cube centred on `(x, y, z)` towards `+y`.
pub fn top_side(x: i32, y: i32, z: i32, size: i32) -> (side: MeshSide)
    requires
        fits_i32(x + size),
        fits_i32(x - size),
        fits_i32(y + size),
        fits_i32(z + size),
        fits_i32(z - size),
    ensures
        side@ == side_of(CubeFace::Top, x as int, y as int, z as int, size as int),
{
    let up = CubeFace::Top.normal();
    let side = MeshSide {
        vertices: [
            IVec3 { x: x - size, y: y + size, z: z - size },
            IVec3 { x: x + size, y: y + size, z: z - size },
            IVec3 { x: x + size, y: y + size, z: z + size },
            IVec3 { x: x - size, y: y + size, z: z + size },
        ],
        normals: [up, up, up, up],
        indices: [0, 3, 1, 1, 3, 2],
    };
    proof {
        lemma_same_view(
            side@,
            side_of(CubeFace::Top, x as int, y as int, z as int, size as int),
        );
    }
    side
}

/// The quad that closes the cube centred on `(x, y, z)` towards `-y`.
pub fn bottom_side(x: i32, y: i32, z: i32, size: i32) -> (side: MeshSide)
    requires
        fits_i32(x + size),
        fits_i32(x - size),
        fits_i32(y - size),
        fits_i32(z + size),
        fits_i32(z - size),
    ensures
        side@ == side_of(CubeFace::Bottom, x as int, y as int, z as int, size as int),
{
    let down = CubeFace::Bottom.normal();
    let side = MeshSide {
        vertices: [
            IVec3 { x: x - size, y: y - size, z: z - size },
            IVec3 { x: x + size, y: y - size, z: z - size },
            IVec3 { x: x + size, y: y - size, z: z + size },
            IVec3 { x: x - size, y: y - size, z: z + size },
        ],
        normals: [down, down, down, down],
        indices: [0, 1, 3, 1, 2, 3],
    };
    proof {
        lemma_same_view(
            side@,
            side_of(CubeFace::Bottom, x as int, y as int, z as int, size as int),
        );
    }
    side
}

/// The quad that closes the cube centred on `(x, y, z)` towards `+x`.
pub fn right_side(x: i32, y: i32, z: i32, size: i32) -> (side: MeshSide)
    requires
        fits_i32(x + size),
        fits_i32(y + size),
        fits_i32(y - size),
        fits_i32(z + size),
        fits_i32(z - size),
    ensures
        side@ == side_of(CubeFace::Right, x as int, y as int, z as int, size as int),
{
    let right = CubeFace::Right.normal();
    let side = MeshSide {
        vertices: [
            IVec3 { x: x + size, y: y - size, z: z - size },
            IVec3 { x: x + size, y: y - size, z: z + size },
            IVec3 { x: x + size, y: y + size, z: z + size },
            IVec3 { x: x + size, y: y + size, z: z - size },
        ],
        normals: [right, right, right, right],
        indices: [0, 3, 1, 1, 3, 2],
    };
    proof {
        lemma_same_view(
            side@,
            side_of(CubeFace::Right, x as int, y as int, z as int, size as int),
        );
    }
    side
}

/// The quad that closes the cube centred on `(x, y, z)` towards `-x`.
pub fn left_side(x: i32, y: i32, z: i32, size: i32) -> (side: MeshSide)
    requires
        fits_i32(x - size),
        fits_i32(y + size),
        fits_i32(y - size),
        fits_i32(z + size),
        fits_i32(z - size),
    ensures
        side@ == side_of(CubeFace::Left, x as int, y as int, z as int, size as int),
{
    let left = CubeFace::Left.normal();
    let side = MeshSide {
        vertices: [
            IVec3 { x: x - size, y: y - size, z: z - size },
            IVec3 { x: x - size, y: y - size, z: z + size },
            IVec3 { x: x - size, y: y + size, z: z + size },
            IVec3 { x: x - size, y: y + size, z: z - size },
        ],
        normals: [left, left, left, left],
        indices: [0, 1, 3, 1, 2, 3],
    };
    proof {
        lemma_same_view(
            side@,
            side_of(CubeFace::Left, x as int, y as int, z as int, size as int),
        );
    }
    side
}

/// The quad that closes the cube centred on `(x, y, z)` towards `+z`.
pub fn back_side(x: i32, y: i32, z: i32, size: i32) -> (side: MeshSide)
    requires
        fits_i32(x + size),
        fits_i32(x - size),
        fits_i32(y + size),
        fits_i32(y - size),
        fits_i32(z + size),
    ensures
        side@ == side_of(CubeFace::Back, x as int, y as int, z as int, size as int),
{
    let back = CubeFace::Back.normal();
    let side = MeshSide {
        vertices: [
            IVec3 { x: x - size, y: y - size, z: z + size },
            IVec3 { x: x - size, y: y + size, z: z + size },
            IVec3 { x: x + size, y: y + size, z: z + size },
            IVec3 { x: x + size, y: y - size, z: z + size },
        ],
        normals: [back, back, back, back],
        indices: [0, 3, 1, 1, 3, 2],
    };
    proof {
        lemma_same_view(
            side@,
            side_of(CubeFace::Back, x as int, y as int, z as int, size as int),
        );
    }
    side
}

/// The quad that closes the cube centred on `(x, y, z)` towards `-z`.
pub fn front_side(x: i32, y: i32, z: i32, size: i32) -> (side: MeshSide)
    requires
        fits_i32(x + size),
        fits_i32(x - size),
        fits_i32(y + size),
        fits_i32(y - size),
        fits_i32(z - size),
    ensures
        side@ == side_of(CubeFace::Front, x as int, y as int, z as int, size as int),
{
    let front = CubeFace::Front.normal();
    let side = MeshSide {
        vertices: [
            IVec3 { x: x - size, y: y - size, z: z - size },
            IVec3 { x: x - size, y: y + size, z: z - size },
            IVec3 { x: x + size, y: y + size, z: z - size },
            IVec3 { x: x + size, y: y - size, z: z - size },
        ],
        normals: [front, front, front, front],
        indices: [0, 1, 3, 1, 2, 3],
    };
    proof {
        lemma_same_view(
            side@,
            side_of(CubeFace::Front, x as int, y as int, z as int, size as int),
        );
    }
    side
}

/// Appends the quad `side` to `mesh`, shifting the quad's corner numbers
/// past the positions that `mesh` already holds.
pub fn add_cube_side_to_mesh(mesh: &mut MeshData, side: MeshSide)
    requires
        forall|j: int| 0 <= j < 6 ==> side.indices[j] + old(mesh).vertices.len() <= u32::MAX,
    ensures
        final(mesh)@ == old(mesh)@.append(side@),
        old(mesh)@.wf() && side@.wf() ==> final(mesh)@.wf(),
{
    let length: usize = mesh.vertices.len();
    let mut j: usize = 0;
    while j < 4
        invariant
            j <= 4,
            mesh.vertices@ == old(mesh).vertices@ + side.vertices@.subrange(0, j as int),
            mesh.normals@ == old(mesh).normals@ + side.normals@.subrange(0, j as int),
            mesh.indices@ == old(mesh).indices@,
        decreases 4 - j,
    {
        mesh.vertices.push(side.vertices[j]);
        mesh.normals.push(side.normals[j]);
        j += 1;
    }
    let mut k: usize = 0;
    while k < 6
        invariant
            k <= 6,
            length == old(mesh).vertices.len(),
            forall|j: int| 0 <= j < 6 ==> side.indices[j] + length <= u32::MAX,
            mesh.vertices@ == old(mesh).vertices@ + side.vertices@,
            mesh.normals@ == old(mesh).normals@ + side.normals@,
            mesh.indices@ == old(mesh).indices@ + Seq::new(
                k as nat,
                |j: int| (side.indices[j] + length) as u32,
            ),
        decreases 6 - k,
    {
        mesh.indices.push(side.indices[k] + length as u32);
        k += 1;
    }
    proof {
        lemma_same_view(mesh@, old(mesh)@.append(side@));
    }
}

/// The right-hand normal of the triangle that the corners numbered
/// `indices[first]`, `indices[first + 1]` and `indices[first + 2]` of a quad
/// make.
pub open spec fn triangle_normal(side: MeshDataView, first: int) -> (int, int, int) {
    let a = side.vertices[side.indices[first] as int];
    let b = side.vertices[side.indices[first + 1] as int];
    let c = side.vertices[side.indices[first + 2] as int];
    cross(diff(b, a), diff(c, a))
}

/// Winding agrees with the normal: for each of the six faces, the right-hand
/// normal of either triangle of the quad is the face's normal stretched by
/// `4 * size * size`. It is therefore parallel to the declared normal, and
/// for any cube that is not a point it points the same way.
pub proof fn lemma_winding_matches_normal(face: CubeFace, x: int, y: int, z: int, size: int)
    requires
        fits_i32(x - size),
        fits_i32(x + size),
        fits_i32(y - size),
        fits_i32(y + size),
        fits_i32(z - size),
        fits_i32(z + size),
    ensures
        triangle_normal(side_of(face, x, y, z, size), 0) == scaled(
            4 * size * size,
            normal_of(face),
        ),
        triangle_normal(side_of(face, x, y, z, size), 3) == scaled(
            4 * size * size,
            normal_of(face),
        ),
{
    let d: int = 2 * size;
    let k: int = 4 * size * size;
    assert(d * d == k) by (nonlinear_arith)
        requires
            d == 2 * size,
            k == 4 * size * size,
    ;
    lemma_scaled_unit(k, normal_of(face));
    let side = side_of(face, x, y, z, size);
    let v0 = side.vertices[0];
    let v1 = side.vertices[1];
    let v2 = side.vertices[2];
    let v3 = side.vertices[3];
    match face {
        CubeFace::Top => {
            assert(cross(diff(v3, v0), diff(v1, v0)) == (0int, k, 0int)) by (nonlinear_arith)
                requires
                    diff(v3, v0) == (0int, 0int, d),
                    diff(v1, v0) == (d, 0int, 0int),
                    d * d == k,
            ;
            assert(cross(diff(v3, v1), diff(v2, v1)) == (0int, k, 0int)) by (nonlinear_arith)
                requires
                    diff(v3, v1) == (-d, 0int, d),
                    diff(v2, v1) == (0int, 0int, d),
                    d * d == k,
            ;
        },
        CubeFace::Bottom => {
            assert(cross(diff(v1, v0), diff(v3, v0)) == (0int, -k, 0int)) by (nonlinear_arith)
                requires
                    diff(v1, v0) == (d, 0int, 0int),
                    diff(v3, v0) == (0int, 0int, d),
                    d * d == k,
            ;
            assert(cross(diff(v2, v1), diff(v3, v1)) == (0int, -k, 0int)) by (nonlinear_arith)
                requires
                    diff(v2, v1) == (0int, 0int, d),
                    diff(v3, v1) == (-d, 0int, d),
                    d * d == k,
            ;
        },
        CubeFace::Right => {
            assert(cross(diff(v3, v0), diff(v1, v0)) == (k, 0int, 0int)) by (nonlinear_arith)
                requires
                    diff(v3, v0) == (0int, d, 0int),
                    diff(v1, v0) == (0int, 0int, d),
                    d * d == k,
            ;
            assert(cross(diff(v3, v1), diff(v2, v1)) == (k, 0int, 0int)) by (nonlinear_arith)
                requires
                    diff(v3, v1) == (0int, d, -d),
                    diff(v2, v1) == (0int, d, 0int),
                    d * d == k,
            ;
        },
        CubeFace::Left => {
            assert(cross(diff(v1, v0), diff(v3, v0)) == (-k, 0int, 0int)) by (nonlinear_arith)
                requires
                    diff(v1, v0) == (0int, 0int, d),
                    diff(v3, v0) == (0int, d, 0int),
                    d * d == k,
            ;
            assert(cross(diff(v2, v1), diff(v3, v1)) == (-k, 0int, 0int)) by (nonlinear_arith)
                requires
                    diff(v2, v1) == (0int, d, 0int),
                    diff(v3, v1) == (0int, d, -d),
                    d * d == k,
            ;
        },
        CubeFace::Back => {
            assert(cross(diff(v3, v0), diff(v1, v0)) == (0int, 0int, k)) by (nonlinear_arith)
                requires
                    diff(v3, v0) == (d, 0int, 0int),
                    diff(v1, v0) == (0int, d, 0int),
                    d * d == k,
            ;
            assert(cross(diff(v3, v1), diff(v2, v1)) == (0int, 0int, k)) by (nonlinear_arith)
                requires
                    diff(v3, v1) == (d, -d, 0int),
                    diff(v2, v1) == (d, 0int, 0int),
                    d * d == k,
            ;
        },
        CubeFace::Front => {
            assert(cross(diff(v1, v0), diff(v3, v0)) == (0int, 0int, -k)) by (nonlinear_arith)
                requires
                    diff(v1, v0) == (0int, d, 0int),
                    diff(v3, v0) == (d, 0int, 0int),
                    d * d == k,
            ;
            assert(cross(diff(v2, v1), diff(v3, v1)) == (0int, 0int, -k)) by (nonlinear_arith)
                requires
                    diff(v2, v1) == (d, 0int, 0int),
                    diff(v3, v1) == (d, -d, 0int),
                    d * d == k,
            ;
        },
    }
}

/// Stretching a vector whose components are 0, 1 or -1 by `k` gives 0, `k`
/// or `-k` in each place.
proof fn lemma_scaled_unit(k: int, v: IVec3)
    requires
        -1 <= v.x <= 1,
        -1 <= v.y <= 1,
        -1 <= v.z <= 1,
    ensures
        scaled(k, v) == (
            if v.x == 0 {
                0
            } else if v.x == 1 {
                k
            } else {
                -k
            },
            if v.y == 0 {
                0
            } else if v.y == 1 {
                k
            } else {
                -k
            },
            if v.z == 0 {
                0
            } else if v.z == 1 {
                k
            } else {
                -k
            },
        ),
{
    let (a, b, c) = (v.x as int, v.y as int, v.z as int);
    assert(k * a == (if a == 0 {
        0
    } else if a == 1 {
        k
    } else {
        -k
    })) by (nonlinear_arith)
        requires
            -1 <= a <= 1,
    ;
    assert(k * b == (if b == 0 {
        0
    } else if b == 1 {
        k
    } else {
        -k
    })) by (nonlinear_arith)
        requires
            -1 <= b <= 1,
    ;
    assert(k * c == (if c == 0 {
        0
    } else if c == 1 {
        k
    } else {
        -k
    })) by (nonlinear_arith)
        requires
            -1 <= c <= 1,
    ;
}

} // verus!
