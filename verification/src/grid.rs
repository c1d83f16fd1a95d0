use vstd::arithmetic::div_mod::{
    lemma_div_denominator, lemma_fundamental_div_mod, lemma_fundamental_div_mod_converse,
};
use vstd::prelude::*;

verus! {

/// A triple of lattice coordinates: a voxel inside a chunk, or a chunk inside
/// the chunk grid.
#[derive(Clone, Copy, Debug, PartialEq, Eq, Structural)]
pub struct Index3D {
    pub x: usize,
    pub y: usize,
    pub z: usize,
}

/// The position of a chunk in the chunk grid, counted in whole chunks.
#[derive(Clone, Copy, Debug, PartialEq, Eq, Structural)]
pub struct ChunkIndex(pub Index3D);

/// Number of voxels in a cubic chunk with the given edge length.
pub open spec fn volume(edge: int) -> int {
    edge * edge * edge
}

/// Whether `(x, y, z)` names a voxel of a chunk with the given edge length.
pub open spec fn in_chunk(x: int, y: int, z: int, edge: int) -> bool {
    0 <= x < edge && 0 <= y < edge && 0 <= z < edge
}

/// Row-major position of voxel `(x, y, z)`: `x` varies fastest, `z` slowest.
pub open spec fn flat_index(x: int, y: int, z: int, edge: int) -> int {
    x + y * edge + z * edge * edge
}

/// The voxel that sits at row-major position `n`.
pub open spec fn voxel_of(n: int, edge: int) -> (int, int, int) {
    (n % edge, (n / edge) % edge, n / (edge * edge))
}

/// The voxel at row-major position `n`, as an `Index3D`.
pub open spec fn index3d_of(n: int, edge: int) -> Index3D {
    Index3D {
        x: voxel_of(n, edge).0 as usize,
        y: voxel_of(n, edge).1 as usize,
        z: voxel_of(n, edge).2 as usize,
    }
}

/// Every voxel of a chunk has a flat index below the chunk's volume, and the
/// partial sums of the index formula are no larger than the index itself.
pub proof fn lemma_flat_index_in_range(x: int, y: int, z: int, edge: int)
    requires
        in_chunk(x, y, z, edge),
    ensures
        0 <= y * edge <= flat_index(x, y, z, edge),
        0 <= z * edge <= z * edge * edge <= flat_index(x, y, z, edge),
        0 <= flat_index(x, y, z, edge) < volume(edge),
{
    assert(0 <= y * edge <= (edge - 1) * edge) by (nonlinear_arith)
        requires
            0 <= y <= edge - 1,
            edge >= 1,
    ;
    assert(0 <= z * edge <= z * edge * edge <= (edge - 1) * edge * edge) by (nonlinear_arith)
        requires
            0 <= z <= edge - 1,
            edge >= 1,
    ;
    assert((edge - 1) + (edge - 1) * edge + (edge - 1) * edge * edge == edge * edge * edge - 1)
        by (nonlinear_arith);
}

/// Every flat index below the volume names a voxel inside the chunk.
pub proof fn lemma_voxel_of_in_range(n: int, edge: int)
    requires
        edge >= 1,
        0 <= n < volume(edge),
    ensures
        in_chunk(voxel_of(n, edge).0, voxel_of(n, edge).1, voxel_of(n, edge).2, edge),
{
    assert(edge * edge >= 1) by (nonlinear_arith)
        requires
            edge >= 1,
    ;
    assert(0 <= n / (edge * edge) < edge) by (nonlinear_arith)
        requires
            0 <= n < edge * edge * edge,
            edge * edge >= 1,
            edge >= 1,
    ;
}

/// Taking the voxel of a flat index and flattening it again gives the index
/// back.
pub proof fn lemma_flat_index_of_voxel(n: int, edge: int)
    requires
        edge >= 1,
        0 <= n < volume(edge),
    ensures
        flat_index(voxel_of(n, edge).0, voxel_of(n, edge).1, voxel_of(n, edge).2, edge) == n,
{
    let q: int = n / edge;
    lemma_fundamental_div_mod(n, edge);
    lemma_fundamental_div_mod(q, edge);
    lemma_div_denominator(n, edge, edge);
    let zz: int = q / edge;
    assert(n / (edge * edge) == zz);
    assert(edge * (edge * zz + q % edge) == zz * edge * edge + (q % edge) * edge)
        by (nonlinear_arith);
}

/// Flattening a voxel and taking the voxel of the result gives the voxel
/// back.
pub proof fn lemma_voxel_of_flat_index(x: int, y: int, z: int, edge: int)
    requires
        in_chunk(x, y, z, edge),
    ensures
        voxel_of(flat_index(x, y, z, edge), edge) == (x, y, z),
{
    let n: int = flat_index(x, y, z, edge);
    let q: int = y + z * edge;
    assert(n == q * edge + x) by (nonlinear_arith)
        requires
            n == x + y * edge + z * edge * edge,
            q == y + z * edge,
    ;
    lemma_fundamental_div_mod_converse(n, edge, q, x);
    lemma_fundamental_div_mod_converse(q, edge, z, y);
    lemma_div_denominator(n, edge, edge);
}

/// Flat index of the voxel `(x, y, z)` of a chunk with the given edge length.
pub fn to_1d(x: usize, y: usize, z: usize, edge: usize) -> (n: usize)
    requires
        in_chunk(x as int, y as int, z as int, edge as int),
        flat_index(x as int, y as int, z as int, edge as int) <= usize::MAX,
    ensures
        n == flat_index(x as int, y as int, z as int, edge as int),
        n < volume(edge as int),
        voxel_of(n as int, edge as int) == (x as int, y as int, z as int),
{
    proof {
        lemma_flat_index_in_range(x as int, y as int, z as int, edge as int);
        lemma_voxel_of_flat_index(x as int, y as int, z as int, edge as int);
    }
    x + y * edge + z * edge * edge
}

/// The density stored for voxel `(x, y, z)` in a chunk's flat density array.
pub fn index(arr: &Vec<i64>, x: usize, y: usize, z: usize, edge: usize) -> (v: i64)
    requires
        in_chunk(x as int, y as int, z as int, edge as int),
        flat_index(x as int, y as int, z as int, edge as int) < arr.len(),
    ensures
        v == arr[flat_index(x as int, y as int, z as int, edge as int)],
{
    arr[to_1d(x, y, z, edge)]
}

/// Coordinates of the voxel with flat index `n`.
pub fn to_3d(n: usize, edge: usize) -> (c: (usize, usize, usize))
    requires
        edge >= 1,
        n < volume(edge as int),
    ensures
        (c.0 as int, c.1 as int, c.2 as int) == voxel_of(n as int, edge as int),
        in_chunk(c.0 as int, c.1 as int, c.2 as int, edge as int),
        flat_index(c.0 as int, c.1 as int, c.2 as int, edge as int) == n,
{
    proof {
        lemma_voxel_of_in_range(n as int, edge as int);
        lemma_flat_index_of_voxel(n as int, edge as int);
        lemma_div_denominator(n as int, edge as int, edge as int);
    }
    let x: usize = n % edge;
    let y: usize = (n / edge) % edge;
    let z: usize = (n / edge) / edge;
    (x, y, z)
}

/// Coordinates of the voxel with flat index `n`, as an `Index3D`.
pub fn index_reverse(n: usize, edge: usize) -> (c: Index3D)
    requires
        edge >= 1,
        n < volume(edge as int),
    ensures
        c == index3d_of(n as int, edge as int),
        in_chunk(c.x as int, c.y as int, c.z as int, edge as int),
        flat_index(c.x as int, c.y as int, c.z as int, edge as int) == n,
{
    let index = to_3d(n, edge);
    Index3D { x: index.0, y: index.1, z: index.2 }
}

} // verus!
