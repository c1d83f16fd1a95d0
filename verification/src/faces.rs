use crate::grid::{flat_index, in_chunk, index, to_3d, volume, voxel_of};
use crate::mesh::CubeFace;
use vstd::prelude::*;

verus! {

/// For one solid voxel: which of its six faces border empty space or the
/// outside of the chunk.
#[derive(Clone, Copy, Debug, PartialEq, Eq)]
pub struct VisibleFaces {
    pub top: bool,
    pub bottom: bool,
    pub left: bool,
    pub right: bool,
    pub front: bool,
    pub back: bool,
}

/// What meshing needs to know of one voxel: nothing for air, the exposed
/// faces for a solid voxel.
#[derive(Clone, Copy, Debug, PartialEq, Eq)]
pub struct BlockData {
    pub visible_faces: Option<VisibleFaces>,
}

/// A density below the threshold is air; any other density is solid.
pub open spec fn air(density: i64, threshold: i64) -> bool {
    density < threshold
}

/// Whether the place `(x, y, z)` is open: it lies outside the chunk, or the
/// voxel there is air. Voxels of neighbouring chunks are never consulted, so
/// a face on the chunk's boundary always counts as bordering open space.
pub open spec fn open_at(chunk: Seq<i64>, threshold: i64, x: int, y: int, z: int, edge: int)
    -> bool {
    !in_chunk(x, y, z, edge) || air(chunk[flat_index(x, y, z, edge)], threshold)
}

/// The exposed faces of the voxel `(x, y, z)`, taken to be solid.
pub open spec fn faces_at(chunk: Seq<i64>, threshold: i64, x: int, y: int, z: int, edge: int)
    -> VisibleFaces {
    VisibleFaces {
        top: open_at(chunk, threshold, x, y + 1, z, edge),
        bottom: open_at(chunk, threshold, x, y - 1, z, edge),
        left: open_at(chunk, threshold, x - 1, y, z, edge),
        right: open_at(chunk, threshold, x + 1, y, z, edge),
        front: open_at(chunk, threshold, x, y, z - 1, edge),
        back: open_at(chunk, threshold, x, y, z + 1, edge),
    }
}

/// The record of the voxel with flat index `n`.
pub open spec fn block_at(chunk: Seq<i64>, threshold: i64, n: int, edge: int) -> BlockData {
    if air(chunk[n], threshold) {
        BlockData { visible_faces: None }
    } else {
        BlockData {
            visible_faces: Some(
                faces_at(
                    chunk,
                    threshold,
                    voxel_of(n, edge).0,
                    voxel_of(n, edge).1,
                    voxel_of(n, edge).2,
                    edge,
                ),
            ),
        }
    }
}

/// The records of all voxels of a chunk, in flat-index order.
pub open spec fn blocks_of(chunk: Seq<i64>, threshold: i64, edge: int) -> Seq<BlockData> {
    Seq::new(chunk.len(), |n: int| block_at(chunk, threshold, n, edge))
}

impl VisibleFaces {
    /// Whether `face` is among the exposed faces.
    pub open spec fn shows(self, face: CubeFace) -> bool {
        match face {
            CubeFace::Top => self.top,
            CubeFace::Bottom => self.bottom,
            CubeFace::Left => self.left,
            CubeFace::Right => self.right,
            CubeFace::Front => self.front,
            CubeFace::Back => self.back,
        }
    }
}

impl BlockData {
    /// Whether the voxel is solid and `face` of it is exposed.
    pub open spec fn shows(self, face: CubeFace) -> bool {
        match self.visible_faces {
            Some(faces) => faces.shows(face),
            None => false,
        }
    }
}

/// Whether a density counts as air under the given threshold.
pub fn is_air(x: i64, threshold: i64) -> (b: bool)
    ensures
        b == air(x, threshold),
{
    x < threshold
}

/// Classifies every voxel of a chunk from its density and, for each solid
/// voxel, finds the faces that border air or the chunk's boundary.
pub fn block_data_from_perlin(chunk: &Vec<i64>, edge: usize, threshold: i64) -> (output: Vec<
    BlockData,
>)
    requires
        chunk.len() == volume(edge as int),
    ensures
        output@ == blocks_of(chunk@, threshold, edge as int),
{
    let mut output: Vec<BlockData> = Vec::new();
    let total: usize = chunk.len();
    let mut i: usize = 0;
    while i < total
        invariant
            total == chunk.len(),
            chunk.len() == volume(edge as int),
            i <= total,
            output.len() == i,
            forall|n: int|
                0 <= n < i ==> #[trigger] output[n] == block_at(chunk@, threshold, n, edge as int),
        decreases total - i,
    {
        let perlin_val: i64 = chunk[i];
        if is_air(perlin_val, threshold) {
            output.push(BlockData { visible_faces: None });
        } else {
            assert(edge >= 1) by (nonlinear_arith)
                requires
                    0 <= i < edge * edge * edge,
                    0 <= edge,
            ;
            let (x, y, z) = to_3d(i, edge);
            let last: usize = edge - 1;
            proof {
                if x < last {
                    crate::grid::lemma_flat_index_in_range(x + 1, y as int, z as int, edge as int);
                }
                if x > 0 {
                    crate::grid::lemma_flat_index_in_range(x - 1, y as int, z as int, edge as int);
                }
                if y < last {
                    crate::grid::lemma_flat_index_in_range(x as int, y + 1, z as int, edge as int);
                }
                if y > 0 {
                    crate::grid::lemma_flat_index_in_range(x as int, y - 1, z as int, edge as int);
                }
                if z < last {
                    crate::grid::lemma_flat_index_in_range(x as int, y as int, z + 1, edge as int);
                }
                if z > 0 {
                    crate::grid::lemma_flat_index_in_range(x as int, y as int, z - 1, edge as int);
                }
            }
            let faces = VisibleFaces {
                right: (x == last) || is_air(index(chunk, x + 1, y, z, edge), threshold),
                left: (x == 0) || is_air(index(chunk, x - 1, y, z, edge), threshold),
                top: (y == last) || is_air(index(chunk, x, y + 1, z, edge), threshold),
                bottom: (y == 0) || is_air(index(chunk, x, y - 1, z, edge), threshold),
                back: (z == last) || is_air(index(chunk, x, y, z + 1, edge), threshold),
                front: (z == 0) || is_air(index(chunk, x, y, z - 1, edge), threshold),
            };
            output.push(BlockData { visible_faces: Some(faces) });
        }
        i += 1;
    }
    output
}

} // verus!
