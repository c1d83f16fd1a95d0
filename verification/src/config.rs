use crate::batcher::MAX_EXTENT;
use crate::grid::volume;
use vstd::prelude::*;

verus! {

/// Chunks along each axis of the world.
pub const CHUNKS_PER_AXIS: usize = 15;

/// Voxels along each edge of a chunk.
pub const SIZE: usize = 32;

/// The longest chunk edge whose meshes can still be indexed with 32 bits.
pub const MAX_EDGE: usize = 1023;

/// Why a pair of world dimensions cannot be generated.
#[derive(Clone, Copy, Debug, PartialEq, Eq, Structural)]
pub enum ConfigError {
    /// The chunk edge is zero, so a chunk would hold no voxel.
    EmptyChunk,
    /// A chunk could hold more quad corners than a 32-bit index can name.
    ChunkTooLarge,
    /// The world would reach beyond the positions a mesh can express.
    WorldTooLarge,
}

/// The dimensions for which a world can be generated: chunks hold at least
/// one voxel, every corner of a chunk's mesh can be named by a 32-bit index,
/// and every corner position in the world fits the position type.
pub open spec fn valid_dimensions(chunks_per_axis: int, edge: int) -> bool {
    &&& edge >= 1
    &&& 4 * volume(edge) <= u32::MAX
    &&& chunks_per_axis * edge <= MAX_EXTENT
}

/// The error that `check_dimensions` reports for dimensions that are not
/// valid: the first of the three conditions that fails.
pub open spec fn dimensions_error(chunks_per_axis: int, edge: int) -> ConfigError {
    if edge < 1 {
        ConfigError::EmptyChunk
    } else if 4 * volume(edge) > u32::MAX {
        ConfigError::ChunkTooLarge
    } else {
        ConfigError::WorldTooLarge
    }
}

/// A chunk's corners can be named by 32-bit indices exactly when its edge is
/// at most `MAX_EDGE`.
pub proof fn lemma_max_edge(edge: int)
    requires
        0 <= edge,
    ensures
        4 * volume(edge) <= u32::MAX <==> edge <= MAX_EDGE,
{
    if edge <= 1023 {
        assert(edge * edge * edge <= 1023 * 1023 * 1023) by (nonlinear_arith)
            requires
                0 <= edge <= 1023,
        ;
    } else {
        assert(edge * edge * edge >= 1024 * 1024 * 1024) by (nonlinear_arith)
            requires
                edge >= 1024,
        ;
    }
}

/// The dimensions that are built in are valid.
pub proof fn lemma_default_dimensions_valid()
    ensures
        valid_dimensions(CHUNKS_PER_AXIS as int, SIZE as int),
{
    lemma_max_edge(SIZE as int);
}

/// Checks world dimensions before anything is generated, so that a bad
/// configuration stops the program instead of producing broken geometry.
pub fn check_dimensions(chunks_per_axis: usize, edge: usize) -> (r: Result<(), ConfigError>)
    ensures
        r.is_ok() == valid_dimensions(chunks_per_axis as int, edge as int),
        r.is_err() ==> r == Err::<(), ConfigError>(
            dimensions_error(chunks_per_axis as int, edge as int),
        ),
{
    proof {
        lemma_max_edge(edge as int);
    }
    if edge == 0 {
        return Err(ConfigError::EmptyChunk);
    }
    if edge > MAX_EDGE {
        return Err(ConfigError::ChunkTooLarge);
    }
    let most: usize = MAX_EXTENT / edge;
    assert(chunks_per_axis <= most <==> chunks_per_axis * edge <= MAX_EXTENT) by (nonlinear_arith)
        requires
            edge >= 1,
            most == MAX_EXTENT as int / edge as int,
            0 <= chunks_per_axis,
    ;
    if chunks_per_axis > most {
        return Err(ConfigError::WorldTooLarge);
    }
    Ok(())
}

impl ConfigError {
    /// A sentence that says what is wrong.
    pub fn message(&self) -> (text: &'static str)
        ensures
            text@ == match self {
                ConfigError::EmptyChunk => "chunk edge length must be at least 1"@,
                ConfigError::ChunkTooLarge => "chunk edge length must be at most 1023"@,
                ConfigError::WorldTooLarge =>
                    "chunks per axis times chunk edge length must be at most 1073741824"@,
            },
    {
        match self {
            ConfigError::EmptyChunk => "chunk edge length must be at least 1",
            ConfigError::ChunkTooLarge => "chunk edge length must be at most 1023",
            ConfigError::WorldTooLarge =>
                "chunks per axis times chunk edge length must be at most 1073741824",
        }
    }
}

} // verus!
