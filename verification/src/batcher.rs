use crate::faces::BlockData;
use crate::grid::{to_3d, volume, voxel_of};
use crate::mesh::{
    add_cube_side_to_mesh, back_side, bottom_side, front_side, left_side, normal_of, right_side,
    side_indices, side_of, top_side, CubeFace, MeshData, MeshDataView,
};
use crate::vector::IVec3;
use vstd::prelude::*;

verus! {

/// Width of one block in mesh position units. Positions are measured in half
/// blocks, so that the corners of a block centred on a lattice point are
/// whole numbers.
pub const BLOCK_SIZE: i32 = 2;

/// The largest world extent, in blocks along one axis, whose corner positions
/// still fit the position type.
pub const MAX_EXTENT: usize = 0x4000_0000;

/// The flat indices below `n`, in ascending order, of the voxels that show
/// `face`.
pub open spec fn exposed_voxels(data: Seq<BlockData>, face: CubeFace, n: int) -> Seq<int>
    decreases n,
{
    if n <= 0 {
        Seq::empty()
    } else if data[n - 1].shows(face) {
        exposed_voxels(data, face, n - 1).push(n - 1)
    } else {
        exposed_voxels(data, face, n - 1)
    }
}

/// The quad for `face` of the voxel with flat index `n`, in a chunk whose
/// first voxel sits `(ox, oy, oz)` blocks from the world's origin: a square
/// one block wide, centred on the voxel's face.
pub open spec fn voxel_quad(face: CubeFace, n: int, ox: int, oy: int, oz: int, edge: int)
    -> MeshDataView {
    side_of(
        face,
        2 * (voxel_of(n, edge).0 + ox),
        2 * (voxel_of(n, edge).1 + oy),
        2 * (voxel_of(n, edge).2 + oz),
        1,
    )
}

/// The mesh that holds the quad for `face` of each of `voxels`, in their
/// order: four positions and six indices per voxel, the indices of the
/// `k`-th quad pointing at positions `4k` to `4k + 3`.
pub open spec fn batch(face: CubeFace, voxels: Seq<int>, ox: int, oy: int, oz: int, edge: int)
    -> MeshDataView {
    MeshDataView {
        vertices: Seq::new(
            4 * voxels.len(),
            |k: int| voxel_quad(face, voxels[k / 4], ox, oy, oz, edge).vertices[k % 4],
        ),
        normals: Seq::new(4 * voxels.len(), |k: int| normal_of(face)),
        indices: Seq::new(
            6 * voxels.len(),
            |k: int| (side_indices(face)[k % 6] + 4 * (k / 6)) as u32,
        ),
    }
}

/// The mesh of the faces that look along `face` among the first `n` voxels
/// of a chunk.
pub open spec fn buffer_upto(
    data: Seq<BlockData>,
    face: CubeFace,
    n: int,
    ox: int,
    oy: int,
    oz: int,
    edge: int,
) -> MeshDataView {
    batch(face, exposed_voxels(data, face, n), ox, oy, oz, edge)
}

/// The mesh of all faces of a chunk that look along `face`.
pub open spec fn chunk_buffer(
    data: Seq<BlockData>,
    face: CubeFace,
    ox: int,
    oy: int,
    oz: int,
    edge: int,
) -> MeshDataView {
    buffer_upto(data, face, data.len() as int, ox, oy, oz, edge)
}

/// `acc`, followed by `mesh` and the direction of `face` unless `mesh` is
/// empty.
pub open spec fn emit(acc: Seq<(MeshDataView, IVec3)>, mesh: MeshDataView, face: CubeFace) -> Seq<
    (MeshDataView, IVec3),
> {
    if mesh.vertices.len() > 0 {
        acc.push((mesh, normal_of(face)))
    } else {
        acc
    }
}

/// The meshes of a chunk: one per direction in which at least one face is
/// exposed, in the order top, bottom, left, right, front, back, each with the
/// direction it looks along.
pub open spec fn chunk_sides(data: Seq<BlockData>, ox: int, oy: int, oz: int, edge: int) -> Seq<
    (MeshDataView, IVec3),
> {
    let s0 = Seq::<(MeshDataView, IVec3)>::empty();
    let s1 = emit(s0, chunk_buffer(data, CubeFace::Top, ox, oy, oz, edge), CubeFace::Top);
    let s2 = emit(s1, chunk_buffer(data, CubeFace::Bottom, ox, oy, oz, edge), CubeFace::Bottom);
    let s3 = emit(s2, chunk_buffer(data, CubeFace::Left, ox, oy, oz, edge), CubeFace::Left);
    let s4 = emit(s3, chunk_buffer(data, CubeFace::Right, ox, oy, oz, edge), CubeFace::Right);
    let s5 = emit(s4, chunk_buffer(data, CubeFace::Front, ox, oy, oz, edge), CubeFace::Front);
    emit(s5, chunk_buffer(data, CubeFace::Back, ox, oy, oz, edge), CubeFace::Back)
}

/// What a list of meshes with directions holds.
pub open spec fn sides_view(sides: Seq<(MeshData, IVec3)>) -> Seq<(MeshDataView, IVec3)> {
    Seq::new(sides.len(), |i: int| (sides[i].0@, sides[i].1))
}

/// The exposed voxels below `n` are at most `n`, and each is a flat index
/// below `n`.
pub proof fn lemma_exposed_voxels_bounds(data: Seq<BlockData>, face: CubeFace, n: int)
    requires
        0 <= n,
    ensures
        exposed_voxels(data, face, n).len() <= n,
        forall|k: int|
            0 <= k < exposed_voxels(data, face, n).len() ==> 0 <= (#[trigger] exposed_voxels(
                data,
                face,
                n,
            )[k]) < n,
    decreases n,
{
    if n > 0 {
        lemma_exposed_voxels_bounds(data, face, n - 1);
    }
}

/// Batching one more voxel appends that voxel's quad.
pub proof fn lemma_batch_push(
    face: CubeFace,
    voxels: Seq<int>,
    v: int,
    ox: int,
    oy: int,
    oz: int,
    edge: int,
)
    ensures
        batch(face, voxels.push(v), ox, oy, oz, edge) == batch(
            face,
            voxels,
            ox,
            oy,
            oz,
            edge,
        ).append(voxel_quad(face, v, ox, oy, oz, edge)),
{
    let a = batch(face, voxels.push(v), ox, oy, oz, edge);
    let b = batch(face, voxels, ox, oy, oz, edge).append(voxel_quad(face, v, ox, oy, oz, edge));
    let len = voxels.len() as int;
    assert(a.vertices.len() == b.vertices.len());
    assert forall|k: int| 0 <= k < a.vertices.len() implies a.vertices[k] == b.vertices[k] by {
        if k < 4 * len {
            assert(voxels.push(v)[k / 4] == voxels[k / 4]);
        } else {
            assert(k / 4 == len);
            assert(voxels.push(v)[k / 4] == v);
            assert(k % 4 == k - 4 * len);
        }
    }
    assert(a.vertices =~= b.vertices);
    assert(a.normals =~= b.normals);
    assert(a.indices.len() == b.indices.len());
    assert forall|k: int| 0 <= k < a.indices.len() implies a.indices[k] == b.indices[k] by {
        if k >= 6 * len {
            assert(k / 6 == len);
            assert(k % 6 == k - 6 * len);
        }
    }
    assert(a.indices =~= b.indices);
}

/// Batching no voxel gives the empty mesh.
pub proof fn lemma_batch_empty(face: CubeFace, ox: int, oy: int, oz: int, edge: int)
    ensures
        batch(face, Seq::empty(), ox, oy, oz, edge) == MeshDataView::empty(),
{
    let b = batch(face, Seq::empty(), ox, oy, oz, edge);
    assert(b.vertices =~= Seq::empty());
    assert(b.normals =~= Seq::empty());
    assert(b.indices =~= Seq::empty());
}

/// A batch is a consistent mesh as long as its indices fit the index type.
pub proof fn lemma_batch_wf(
    face: CubeFace,
    voxels: Seq<int>,
    ox: int,
    oy: int,
    oz: int,
    edge: int,
)
    requires
        4 * voxels.len() <= u32::MAX,
    ensures
        batch(face, voxels, ox, oy, oz, edge).wf(),
        batch(face, voxels, ox, oy, oz, edge).vertices.len() == 4 * voxels.len(),
        batch(face, voxels, ox, oy, oz, edge).indices.len() == 6 * voxels.len(),
{
    let b = batch(face, voxels, ox, oy, oz, edge);
    assert forall|i: int| 0 <= i < b.indices.len() implies (#[trigger] b.indices[i])
        < b.vertices.len() by {
        assert(0 <= side_indices(face)[i % 6] <= 3);
        assert(i / 6 < voxels.len());
    }
}

/// Every directional mesh of a chunk is consistent: it holds as many normals
/// as positions, its indices come in groups of six and name positions of the
/// mesh, and each quad adds four positions and six indices.
pub proof fn lemma_chunk_buffer_wf(
    data: Seq<BlockData>,
    face: CubeFace,
    ox: int,
    oy: int,
    oz: int,
    edge: int,
)
    requires
        4 * data.len() <= u32::MAX,
    ensures
        chunk_buffer(data, face, ox, oy, oz, edge).wf(),
        chunk_buffer(data, face, ox, oy, oz, edge).vertices.len() % 4 == 0,
        chunk_buffer(data, face, ox, oy, oz, edge).indices.len() * 4 == chunk_buffer(
            data,
            face,
            ox,
            oy,
            oz,
            edge,
        ).vertices.len() * 6,
{
    lemma_exposed_voxels_bounds(data, face, data.len() as int);
    lemma_batch_wf(face, exposed_voxels(data, face, data.len() as int), ox, oy, oz, edge);
}

/// Going from the first `i` voxels to the first `i + 1`: the mesh for `face`
/// gains the quad of voxel `i` if that voxel shows `face`, and stays as it is
/// otherwise. Before that it holds at most `4 * i` positions.
proof fn lemma_buffer_step(
    data: Seq<BlockData>,
    face: CubeFace,
    i: int,
    ox: int,
    oy: int,
    oz: int,
    edge: int,
)
    requires
        0 <= i,
        4 * i <= u32::MAX,
    ensures
        buffer_upto(data, face, i, ox, oy, oz, edge).vertices.len() <= 4 * i,
        buffer_upto(data, face, i + 1, ox, oy, oz, edge) == if data[i].shows(face) {
            buffer_upto(data, face, i, ox, oy, oz, edge).append(
                voxel_quad(face, i, ox, oy, oz, edge),
            )
        } else {
            buffer_upto(data, face, i, ox, oy, oz, edge)
        },
{
    lemma_exposed_voxels_bounds(data, face, i);
    lemma_batch_wf(face, exposed_voxels(data, face, i), ox, oy, oz, edge);
    lemma_batch_push(face, exposed_voxels(data, face, i), i, ox, oy, oz, edge);
}

/// Appends `mesh`, with the direction of `face`, to `sides`, unless `mesh`
/// holds no geometry.
fn push_side(sides: &mut Vec<(MeshData, IVec3)>, mesh: MeshData, face: CubeFace)
    ensures
        sides_view(final(sides)@) == emit(sides_view(old(sides)@), mesh@, face),
        mesh@.wf() && (forall|i: int| 0 <= i < old(sides).len() ==> (#[trigger] old(sides)[i]).0@.wf())
            ==> forall|i: int| 0 <= i < final(sides).len() ==> (#[trigger] final(sides)[i]).0@.wf(),
{
    if mesh.vertices.len() > 0 {
        let ghost view = mesh@;
        sides.push((mesh, face.normal()));
        assert(sides_view(sides@) =~= emit(sides_view(old(sides)@), view, face));
    } else {
        assert(sides_view(sides@) =~= emit(sides_view(old(sides)@), mesh@, face));
    }
}

/// Builds the meshes of one chunk from the records of its voxels. Every
/// exposed face of every solid voxel becomes one quad in the mesh of its
/// direction; directions without any exposed face yield no mesh. The chunk's
/// first voxel sits `(x_chunk_offset, y_chunk_offset, z_chunk_offset)` blocks
/// from the world's origin.
pub fn create_chunk_sides(
    x_chunk_offset: usize,
    y_chunk_offset: usize,
    z_chunk_offset: usize,
    edge: usize,
    data: &Vec<BlockData>,
) -> (sides: Vec<(MeshData, IVec3)>)
    requires
        data.len() == volume(edge as int),
        4 * volume(edge as int) <= u32::MAX,
        x_chunk_offset + edge <= MAX_EXTENT,
        y_chunk_offset + edge <= MAX_EXTENT,
        z_chunk_offset + edge <= MAX_EXTENT,
    ensures
        sides_view(sides@) == chunk_sides(
            data@,
            x_chunk_offset as int,
            y_chunk_offset as int,
            z_chunk_offset as int,
            edge as int,
        ),
        forall|i: int| 0 <= i < sides.len() ==> (#[trigger] sides[i]).0@.wf(),
{
    let size: i32 = BLOCK_SIZE / 2;
    let ghost ox = x_chunk_offset as int;
    let ghost oy = y_chunk_offset as int;
    let ghost oz = z_chunk_offset as int;

    let mut up: MeshData = MeshData::default();
    let mut down: MeshData = MeshData::default();
    let mut left: MeshData = MeshData::default();
    let mut right: MeshData = MeshData::default();
    let mut front: MeshData = MeshData::default();
    let mut back: MeshData = MeshData::default();

    proof {
        lemma_batch_empty(CubeFace::Top, ox, oy, oz, edge as int);
        lemma_batch_empty(CubeFace::Bottom, ox, oy, oz, edge as int);
        lemma_batch_empty(CubeFace::Left, ox, oy, oz, edge as int);
        lemma_batch_empty(CubeFace::Right, ox, oy, oz, edge as int);
        lemma_batch_empty(CubeFace::Front, ox, oy, oz, edge as int);
        lemma_batch_empty(CubeFace::Back, ox, oy, oz, edge as int);
    }
    let total: usize = data.len();
    let mut i: usize = 0;
    while i < total
        invariant
            total == data.len(),
            data.len() == volume(edge as int),
            4 * volume(edge as int) <= u32::MAX,
            x_chunk_offset + edge <= MAX_EXTENT,
            y_chunk_offset + edge <= MAX_EXTENT,
            z_chunk_offset + edge <= MAX_EXTENT,
            ox == x_chunk_offset,
            oy == y_chunk_offset,
            oz == z_chunk_offset,
            size == 1,
            i <= total,
            up@ == buffer_upto(data@, CubeFace::Top, i as int, ox, oy, oz, edge as int),
            down@ == buffer_upto(data@, CubeFace::Bottom, i as int, ox, oy, oz, edge as int),
            left@ == buffer_upto(data@, CubeFace::Left, i as int, ox, oy, oz, edge as int),
            right@ == buffer_upto(data@, CubeFace::Right, i as int, ox, oy, oz, edge as int),
            front@ == buffer_upto(data@, CubeFace::Front, i as int, ox, oy, oz, edge as int),
            back@ == buffer_upto(data@, CubeFace::Back, i as int, ox, oy, oz, edge as int),
        decreases total - i,
    {
        assert(edge >= 1) by (nonlinear_arith)
            requires
                0 <= i < edge * edge * edge,
                0 <= edge,
        ;
        let (x_block, y_block, z_block) = to_3d(i, edge);
        let x: i32 = BLOCK_SIZE * ((x_block + x_chunk_offset) as i32);
        let y: i32 = BLOCK_SIZE * ((y_block + y_chunk_offset) as i32);
        let z: i32 = BLOCK_SIZE * ((z_block + z_chunk_offset) as i32);
        proof {
            lemma_buffer_step(data@, CubeFace::Top, i as int, ox, oy, oz, edge as int);
            lemma_buffer_step(data@, CubeFace::Bottom, i as int, ox, oy, oz, edge as int);
            lemma_buffer_step(data@, CubeFace::Left, i as int, ox, oy, oz, edge as int);
            lemma_buffer_step(data@, CubeFace::Right, i as int, ox, oy, oz, edge as int);
            lemma_buffer_step(data@, CubeFace::Front, i as int, ox, oy, oz, edge as int);
            lemma_buffer_step(data@, CubeFace::Back, i as int, ox, oy, oz, edge as int);
        }
        match &data[i].visible_faces {
            None => (),
            Some(faces) => {
                if faces.top {
                    add_cube_side_to_mesh(&mut up, top_side(x, y, z, size));
                }
                if faces.bottom {
                    add_cube_side_to_mesh(&mut down, bottom_side(x, y, z, size));
                }
                if faces.left {
                    add_cube_side_to_mesh(&mut left, left_side(x, y, z, size));
                }
                if faces.right {
                    add_cube_side_to_mesh(&mut right, right_side(x, y, z, size));
                }
                if faces.front {
                    add_cube_side_to_mesh(&mut front, front_side(x, y, z, size));
                }
                if faces.back {
                    add_cube_side_to_mesh(&mut back, back_side(x, y, z, size));
                }
            },
        }
        i += 1;
    }
    proof {
        lemma_chunk_buffer_wf(data@, CubeFace::Top, ox, oy, oz, edge as int);
        lemma_chunk_buffer_wf(data@, CubeFace::Bottom, ox, oy, oz, edge as int);
        lemma_chunk_buffer_wf(data@, CubeFace::Left, ox, oy, oz, edge as int);
        lemma_chunk_buffer_wf(data@, CubeFace::Right, ox, oy, oz, edge as int);
        lemma_chunk_buffer_wf(data@, CubeFace::Front, ox, oy, oz, edge as int);
        lemma_chunk_buffer_wf(data@, CubeFace::Back, ox, oy, oz, edge as int);
    }
    let mut sides: Vec<(MeshData, IVec3)> = Vec::new();
    assert(sides_view(sides@) =~= Seq::<(MeshDataView, IVec3)>::empty());
    push_side(&mut sides, up, CubeFace::Top);
    push_side(&mut sides, down, CubeFace::Bottom);
    push_side(&mut sides, left, CubeFace::Left);
    push_side(&mut sides, right, CubeFace::Right);
    push_side(&mut sides, front, CubeFace::Front);
    push_side(&mut sides, back, CubeFace::Back);
    sides
}

} // verus!
