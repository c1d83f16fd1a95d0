use crate::batcher::{chunk_sides, create_chunk_sides, sides_view, MAX_EXTENT};
use crate::faces::{block_data_from_perlin, blocks_of};
use crate::grid::{
    index3d_of, index_reverse, lemma_voxel_of_flat_index, flat_index, volume, voxel_of, ChunkIndex,
    Index3D,
};
use crate::mesh::{MeshData, MeshDataView, MeshFacingDirection};
use vstd::prelude::*;

verus! {

/// Whether `chunk` holds one density per voxel of a chunk, in flat-index
/// order, each of them an answer of `sampler` for that voxel and the chunk's
/// offset.
pub open spec fn sampled<F: Fn(Index3D, Index3D) -> i64>(
    sampler: F,
    offset: Index3D,
    edge: int,
    chunk: Seq<i64>,
) -> bool {
    &&& chunk.len() == volume(edge)
    &&& forall|n: int|
        0 <= n < chunk.len() ==> call_ensures(
            sampler,
            (index3d_of(n, edge), offset),
            #[trigger] chunk[n],
        )
}

/// Samples the density field over one chunk: one value per voxel, in
/// flat-index order. The sampler is handed the voxel's place in the chunk
/// and the place of the chunk's first voxel in the world, both in blocks.
pub fn perlin<F: Fn(Index3D, Index3D) -> i64>(
    x_offset: usize,
    y_offset: usize,
    z_offset: usize,
    edge: usize,
    sampler: &F,
) -> (chunk: Vec<i64>)
    requires
        volume(edge as int) <= usize::MAX,
        forall|n: int|
            0 <= n < volume(edge as int) ==> call_requires(
                *sampler,
                (#[trigger] index3d_of(n, edge as int), Index3D { x: x_offset, y: y_offset, z: z_offset }),
            ),
    ensures
        sampled(
            *sampler,
            Index3D { x: x_offset, y: y_offset, z: z_offset },
            edge as int,
            chunk@,
        ),
{
    let offset = Index3D { x: x_offset, y: y_offset, z: z_offset };
    assert(edge * edge <= edge * edge * edge) by (nonlinear_arith)
        requires
            edge >= 0,
    ;
    let total: usize = edge * edge * edge;
    let mut chunk: Vec<i64> = Vec::new();
    let mut n: usize = 0;
    while n < total
        invariant
            total == volume(edge as int),
            n <= total,
            chunk.len() == n,
            offset == (Index3D { x: x_offset, y: y_offset, z: z_offset }),
            forall|k: int|
                0 <= k < volume(edge as int) ==> call_requires(
                    *sampler,
                    (#[trigger] index3d_of(k, edge as int), offset),
                ),
            forall|k: int|
                0 <= k < n ==> call_ensures(
                    *sampler,
                    (index3d_of(k, edge as int), offset),
                    #[trigger] chunk[k],
                ),
        decreases total - n,
    {
        assert(edge >= 1) by (nonlinear_arith)
            requires
                0 <= n < edge * edge * edge,
                0 <= edge,
        ;
        let voxel = index_reverse(n, edge);
        let a: i64 = sampler(voxel, offset);
        chunk.push(a);
        n += 1;
    }
    chunk
}

/// One renderable piece of the world: the mesh of all faces of one chunk
/// that look along one direction.
#[derive(Clone, Debug, PartialEq, Eq)]
pub struct ChunkMeshEntity {
    pub chunk: ChunkIndex,
    pub facing: MeshFacingDirection,
    pub mesh: MeshData,
}

/// What a chunk mesh entity holds.
pub struct ChunkMeshEntityView {
    pub chunk: ChunkIndex,
    pub facing: MeshFacingDirection,
    pub mesh: MeshDataView,
}

impl View for ChunkMeshEntity {
    type V = ChunkMeshEntityView;

    open spec fn view(&self) -> ChunkMeshEntityView {
        ChunkMeshEntityView { chunk: self.chunk, facing: self.facing, mesh: self.mesh@ }
    }
}

/// What a list of chunk mesh entities holds.
pub open spec fn entities_view(entities: Seq<ChunkMeshEntity>) -> Seq<ChunkMeshEntityView> {
    Seq::new(entities.len(), |i: int| entities[i]@)
}

/// The entities of one chunk: its meshes, each tagged with the chunk and the
/// direction its faces look along. The chunk's first voxel sits `edge` blocks
/// times the chunk's index from the world's origin.
pub open spec fn chunk_entities(chunk: ChunkIndex, density: Seq<i64>, threshold: i64, edge: int)
    -> Seq<ChunkMeshEntityView> {
    let sides = chunk_sides(
        blocks_of(density, threshold, edge),
        chunk.0.x * edge,
        chunk.0.y * edge,
        chunk.0.z * edge,
        edge,
    );
    Seq::new(
        sides.len(),
        |i: int|
            ChunkMeshEntityView {
                chunk,
                facing: MeshFacingDirection(sides[i].1),
                mesh: sides[i].0,
            },
    )
}

/// Meshes one chunk from its densities.
pub fn mesh_chunk(chunk: ChunkIndex, edge: usize, threshold: i64, density: &Vec<i64>) -> (entities:
    Vec<ChunkMeshEntity>)
    requires
        density.len() == volume(edge as int),
        4 * volume(edge as int) <= u32::MAX,
        (chunk.0.x + 1) * edge <= MAX_EXTENT,
        (chunk.0.y + 1) * edge <= MAX_EXTENT,
        (chunk.0.z + 1) * edge <= MAX_EXTENT,
    ensures
        entities_view(entities@) == chunk_entities(chunk, density@, threshold, edge as int),
        forall|i: int| 0 <= i < entities.len() ==> (#[trigger] entities[i]).mesh@.wf(),
{
    assert(chunk.0.x * edge + edge == (chunk.0.x + 1) * edge) by (nonlinear_arith);
    assert(chunk.0.y * edge + edge == (chunk.0.y + 1) * edge) by (nonlinear_arith);
    assert(chunk.0.z * edge + edge == (chunk.0.z + 1) * edge) by (nonlinear_arith);
    let x_chunk_offset: usize = chunk.0.x * edge;
    let y_chunk_offset: usize = chunk.0.y * edge;
    let z_chunk_offset: usize = chunk.0.z * edge;

    let block_data = block_data_from_perlin(density, edge, threshold);
    let cube_sides = create_chunk_sides(
        x_chunk_offset,
        y_chunk_offset,
        z_chunk_offset,
        edge,
        &block_data,
    );

    let ghost sides = cube_sides@;
    let mut entities: Vec<ChunkMeshEntity> = Vec::new();
    for pair in it: cube_sides.into_iter()
        invariant
            it.seq() == sides,
            entities.len() == it.index(),
            forall|k: int|
                0 <= k < entities.len() ==> (#[trigger] entities[k]) == (ChunkMeshEntity {
                    chunk,
                    facing: MeshFacingDirection(sides[k].1),
                    mesh: sides[k].0,
                }),
    {
        let (side, facing) = pair;
        entities.push(ChunkMeshEntity { chunk, facing: MeshFacingDirection(facing), mesh: side });
    }
    assert(entities_view(entities@) =~= chunk_entities(
        chunk,
        density@,
        threshold,
        edge as int,
    )) by {
        assert(sides_view(sides).len() == sides.len());
        assert forall|k: int| 0 <= k < sides.len() implies sides_view(sides)[k] == (
            sides[k].0@,
            sides[k].1,
        ) by {}
    }
    entities
}

/// The chunk that world generation visits in place `c`: the chunk grid is
/// walked with `x` slowest and `z` fastest.
pub open spec fn chunk_in_place(c: int, chunks_per_axis: int) -> ChunkIndex {
    ChunkIndex(
        Index3D {
            x: voxel_of(c, chunks_per_axis).2 as usize,
            y: voxel_of(c, chunks_per_axis).1 as usize,
            z: voxel_of(c, chunks_per_axis).0 as usize,
        },
    )
}

/// The place in the world, in blocks, of the first voxel of `chunk`.
pub open spec fn chunk_offset(chunk: ChunkIndex, edge: int) -> Index3D {
    Index3D {
        x: (chunk.0.x * edge) as usize,
        y: (chunk.0.y * edge) as usize,
        z: (chunk.0.z * edge) as usize,
    }
}

/// Whether `densities` holds, for each of the first `count` chunks in
/// visiting order, densities that `sampler` has answered for that chunk.
pub open spec fn world_sampled<F: Fn(Index3D, Index3D) -> i64>(
    sampler: F,
    densities: Seq<Seq<i64>>,
    count: int,
    chunks_per_axis: int,
    edge: int,
) -> bool {
    &&& densities.len() == count
    &&& forall|c: int|
        0 <= c < count ==> sampled(
            sampler,
            chunk_offset(chunk_in_place(c, chunks_per_axis), edge),
            edge,
            #[trigger] densities[c],
        )
}

/// The entities of the first `count` chunks in visiting order, chunk after
/// chunk, for the given densities of each chunk.
pub open spec fn world_entities(
    densities: Seq<Seq<i64>>,
    count: int,
    chunks_per_axis: int,
    threshold: i64,
    edge: int,
) -> Seq<ChunkMeshEntityView>
    decreases count,
{
    if count <= 0 {
        Seq::empty()
    } else {
        world_entities(densities, count - 1, chunks_per_axis, threshold, edge) + chunk_entities(
            chunk_in_place(count - 1, chunks_per_axis),
            densities[count - 1],
            threshold,
            edge,
        )
    }
}

/// The entities of the first `count` chunks depend on the densities of those
/// chunks only.
pub proof fn lemma_world_entities_prefix(
    densities: Seq<Seq<i64>>,
    more: Seq<Seq<i64>>,
    count: int,
    chunks_per_axis: int,
    threshold: i64,
    edge: int,
)
    requires
        0 <= count <= densities.len() <= more.len(),
        forall|c: int| 0 <= c < count ==> densities[c] == more[c],
    ensures
        world_entities(densities, count, chunks_per_axis, threshold, edge) == world_entities(
            more,
            count,
            chunks_per_axis,
            threshold,
            edge,
        ),
    decreases count,
{
    if count > 0 {
        lemma_world_entities_prefix(densities, more, count - 1, chunks_per_axis, threshold, edge);
    }
}

/// Generates the world: walks the cubic grid of chunks, samples the density
/// field over each chunk, and meshes it. The result lists the entities chunk
/// after chunk in visiting order.
///
/// The sampler is a collaborator whose answers this function cannot foresee;
/// what it returns is exactly what `mesh_chunk` makes of the sampler's
/// answers.
pub fn mesh_setup<F: Fn(Index3D, Index3D) -> i64>(
    chunks_per_axis: usize,
    edge: usize,
    threshold: i64,
    sampler: F,
) -> (entities: Vec<ChunkMeshEntity>)
    requires
        edge >= 1,
        4 * volume(edge as int) <= u32::MAX,
        chunks_per_axis * edge <= MAX_EXTENT,
        forall|voxel: Index3D, offset: Index3D|
            voxel.x + offset.x < chunks_per_axis * edge && voxel.y + offset.y < chunks_per_axis
                * edge && voxel.z + offset.z < chunks_per_axis * edge ==> #[trigger] call_requires(
                sampler,
                (voxel, offset),
            ),
    ensures
        exists|densities: Seq<Seq<i64>>|
            {
                &&& world_sampled(
                    sampler,
                    densities,
                    volume(chunks_per_axis as int),
                    chunks_per_axis as int,
                    edge as int,
                )
                &&& entities_view(entities@) == #[trigger] world_entities(
                    densities,
                    volume(chunks_per_axis as int),
                    chunks_per_axis as int,
                    threshold,
                    edge as int,
                )
            },
        forall|i: int| 0 <= i < entities.len() ==> (#[trigger] entities[i]).mesh@.wf(),
{
    let mut entities: Vec<ChunkMeshEntity> = Vec::new();
    let ghost mut densities: Seq<Seq<i64>> = Seq::empty();
    let ghost cpa = chunks_per_axis as int;
    let ghost mut c: int = 0;
    assert(entities_view(entities@) =~= world_entities(densities, 0, cpa, threshold, edge as int));

    let mut chunk_x: usize = 0;
    while chunk_x < chunks_per_axis
        invariant
            edge >= 1,
            4 * volume(edge as int) <= u32::MAX,
            chunks_per_axis * edge <= MAX_EXTENT,
            cpa == chunks_per_axis,
            forall|voxel: Index3D, offset: Index3D|
                voxel.x + offset.x < chunks_per_axis * edge && voxel.y + offset.y < chunks_per_axis
                    * edge && voxel.z + offset.z < chunks_per_axis * edge
                    ==> #[trigger] call_requires(sampler, (voxel, offset)),
            chunk_x <= chunks_per_axis,
            c == flat_index(0, 0, chunk_x as int, cpa),
            world_sampled(sampler, densities, c, cpa, edge as int),
            entities_view(entities@) == world_entities(densities, c, cpa, threshold, edge as int),
            forall|i: int| 0 <= i < entities.len() ==> (#[trigger] entities[i]).mesh@.wf(),
        decreases chunks_per_axis - chunk_x,
    {
        let mut chunk_y: usize = 0;
        while chunk_y < chunks_per_axis
            invariant
                edge >= 1,
                4 * volume(edge as int) <= u32::MAX,
                chunks_per_axis * edge <= MAX_EXTENT,
                cpa == chunks_per_axis,
                forall|voxel: Index3D, offset: Index3D|
                    voxel.x + offset.x < chunks_per_axis * edge && voxel.y + offset.y
                        < chunks_per_axis * edge && voxel.z + offset.z < chunks_per_axis * edge
                        ==> #[trigger] call_requires(sampler, (voxel, offset)),
                chunk_x < chunks_per_axis,
                chunk_y <= chunks_per_axis,
                c == flat_index(0, chunk_y as int, chunk_x as int, cpa),
                world_sampled(sampler, densities, c, cpa, edge as int),
                entities_view(entities@) == world_entities(
                    densities,
                    c,
                    cpa,
                    threshold,
                    edge as int,
                ),
                forall|i: int| 0 <= i < entities.len() ==> (#[trigger] entities[i]).mesh@.wf(),
            decreases chunks_per_axis - chunk_y,
        {
            let mut chunk_z: usize = 0;
            while chunk_z < chunks_per_axis
                invariant
                    edge >= 1,
                    4 * volume(edge as int) <= u32::MAX,
                    chunks_per_axis * edge <= MAX_EXTENT,
                    cpa == chunks_per_axis,
                    forall|voxel: Index3D, offset: Index3D|
                        voxel.x + offset.x < chunks_per_axis * edge && voxel.y + offset.y
                            < chunks_per_axis * edge && voxel.z + offset.z < chunks_per_axis
                            * edge ==> #[trigger] call_requires(sampler, (voxel, offset)),
                    chunk_x < chunks_per_axis,
                    chunk_y < chunks_per_axis,
                    chunk_z <= chunks_per_axis,
                    c == flat_index(chunk_z as int, chunk_y as int, chunk_x as int, cpa),
                    world_sampled(sampler, densities, c, cpa, edge as int),
                    entities_view(entities@) == world_entities(
                        densities,
                        c,
                        cpa,
                        threshold,
                        edge as int,
                    ),
                    forall|i: int| 0 <= i < entities.len() ==> (#[trigger] entities[i]).mesh@.wf(),
                decreases chunks_per_axis - chunk_z,
            {
                let chunk = ChunkIndex(Index3D { x: chunk_x, y: chunk_y, z: chunk_z });
                proof {
                    lemma_voxel_of_flat_index(chunk_z as int, chunk_y as int, chunk_x as int, cpa);
                    assert(chunk_in_place(c, cpa) == chunk);
                    lemma_chunk_inside_world(chunk_x as int, cpa, edge as int);
                    lemma_chunk_inside_world(chunk_y as int, cpa, edge as int);
                    lemma_chunk_inside_world(chunk_z as int, cpa, edge as int);
                }
                let x_chunk_offset: usize = chunk.0.x * edge;
                let y_chunk_offset: usize = chunk.0.y * edge;
                let z_chunk_offset: usize = chunk.0.z * edge;
                let ghost offset = Index3D {
                    x: x_chunk_offset,
                    y: y_chunk_offset,
                    z: z_chunk_offset,
                };
                assert(offset == chunk_offset(chunk, edge as int));
                assert forall|n: int| 0 <= n < volume(edge as int) implies call_requires(
                    sampler,
                    (#[trigger] index3d_of(n, edge as int), offset),
                ) by {
                    crate::grid::lemma_voxel_of_in_range(n, edge as int);
                }
                let perlin_chunk = perlin(
                    x_chunk_offset,
                    y_chunk_offset,
                    z_chunk_offset,
                    edge,
                    &sampler,
                );
                let mut chunk_meshes = mesh_chunk(chunk, edge, threshold, &perlin_chunk);
                proof {
                    let more = densities.push(perlin_chunk@);
                    lemma_world_entities_prefix(densities, more, c, cpa, threshold, edge as int);
                    assert(entities_view(entities@ + chunk_meshes@) =~= entities_view(entities@)
                        + entities_view(chunk_meshes@));
                    densities = more;
                    c = c + 1;
                }
                entities.append(&mut chunk_meshes);
                chunk_z += 1;
            }
            assert(flat_index(chunk_z as int, chunk_y as int, chunk_x as int, cpa) == flat_index(
                0,
                chunk_y + 1,
                chunk_x as int,
                cpa,
            )) by (nonlinear_arith)
                requires
                    chunk_z == cpa,
            ;
            chunk_y += 1;
        }
        assert(flat_index(0, chunk_y as int, chunk_x as int, cpa) == flat_index(
            0,
            0,
            chunk_x + 1,
            cpa,
        )) by (nonlinear_arith)
            requires
                chunk_y == cpa,
        ;
        chunk_x += 1;
    }
    assert(c == volume(cpa)) by (nonlinear_arith)
        requires
            c == flat_index(0, 0, chunk_x as int, cpa),
            chunk_x == cpa,
    ;
    entities
}

/// Whether `sampler` answers each question in one way only.
pub open spec fn deterministic<F: Fn(Index3D, Index3D) -> i64>(sampler: F) -> bool {
    forall|voxel: Index3D, offset: Index3D, a: i64, b: i64|
        #[trigger] call_ensures(sampler, (voxel, offset), a) && #[trigger] call_ensures(
            sampler,
            (voxel, offset),
            b,
        ) ==> a == b
}

/// Sampling one chunk twice with a deterministic sampler gives the same
/// densities both times.
pub proof fn lemma_sampling_repeats<F: Fn(Index3D, Index3D) -> i64>(
    sampler: F,
    offset: Index3D,
    edge: int,
    first: Seq<i64>,
    second: Seq<i64>,
)
    requires
        deterministic(sampler),
        sampled(sampler, offset, edge, first),
        sampled(sampler, offset, edge, second),
    ensures
        first == second,
{
    assert forall|n: int| 0 <= n < first.len() implies first[n] == second[n] by {
        assert(call_ensures(sampler, (index3d_of(n, edge), offset), first[n]));
        assert(call_ensures(sampler, (index3d_of(n, edge), offset), second[n]));
    }
    assert(first =~= second);
}

/// Generating a world twice with a deterministic sampler gives the same
/// entities both times.
pub proof fn lemma_world_repeats<F: Fn(Index3D, Index3D) -> i64>(
    sampler: F,
    first: Seq<Seq<i64>>,
    second: Seq<Seq<i64>>,
    chunks_per_axis: int,
    threshold: i64,
    edge: int,
)
    requires
        deterministic(sampler),
        world_sampled(sampler, first, volume(chunks_per_axis), chunks_per_axis, edge),
        world_sampled(sampler, second, volume(chunks_per_axis), chunks_per_axis, edge),
    ensures
        first == second,
        world_entities(first, volume(chunks_per_axis), chunks_per_axis, threshold, edge)
            == world_entities(second, volume(chunks_per_axis), chunks_per_axis, threshold, edge),
{
    assert forall|c: int| 0 <= c < first.len() implies first[c] == second[c] by {
        lemma_sampling_repeats(
            sampler,
            chunk_offset(chunk_in_place(c, chunks_per_axis), edge),
            edge,
            first[c],
            second[c],
        );
    }
    assert(first =~= second);
}

/// A chunk of the grid, with all its voxels, lies within the world's extent.
proof fn lemma_chunk_inside_world(index: int, chunks_per_axis: int, edge: int)
    requires
        0 <= index < chunks_per_axis,
        0 <= edge,
    ensures
        0 <= index * edge,
        index * edge + edge == (index + 1) * edge,
        (index + 1) * edge <= chunks_per_axis * edge,
{
    assert(0 <= index * edge && index * edge + edge == (index + 1) * edge && (index + 1) * edge
        <= chunks_per_axis * edge) by (nonlinear_arith)
        requires
            0 <= index < chunks_per_axis,
            0 <= edge,
    ;
}

} // verus!
