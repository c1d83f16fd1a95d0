use world_gen::faces::{block_data_from_perlin, is_air, BlockData, VisibleFaces};
use world_gen::grid::to_1d;

const ALL: VisibleFaces =
    VisibleFaces { top: true, bottom: true, left: true, right: true, front: true, back: true };
const NONE: VisibleFaces =
    VisibleFaces { top: false, bottom: false, left: false, right: false, front: false, back: false };

#[test]
fn density_below_threshold_is_air() {
    assert!(is_air(4, 5));
    assert!(is_air(-1, 0));
    assert!(is_air(i64::MIN, i64::MIN + 1));
}

#[test]
fn density_at_or_above_threshold_is_solid() {
    assert!(!is_air(5, 5));
    assert!(!is_air(6, 5));
    assert!(!is_air(i64::MAX, i64::MAX));
}

#[test]
fn lone_corner_voxel_exposes_all_six_faces() {
    let mut chunk = vec![0i64; 8];
    chunk[to_1d(0, 0, 0, 2)] = 9;
    let blocks = block_data_from_perlin(&chunk, 2, 5);
    assert_eq!(blocks.len(), 8);
    assert_eq!(blocks[0], BlockData { visible_faces: Some(ALL) });
    for n in 1..8 {
        assert_eq!(blocks[n], BlockData { visible_faces: None });
    }
}

#[test]
fn centre_of_a_solid_cube_exposes_no_face() {
    let chunk = vec![1i64; 27];
    let blocks = block_data_from_perlin(&chunk, 3, 1);
    assert_eq!(blocks.len(), 27);
    assert_eq!(blocks[to_1d(1, 1, 1, 3)], BlockData { visible_faces: Some(NONE) });
}

#[test]
fn chunk_boundary_always_counts_as_exposed() {
    let chunk = vec![1i64; 27];
    let blocks = block_data_from_perlin(&chunk, 3, 1);
    assert_eq!(
        blocks[to_1d(0, 0, 0, 3)],
        BlockData {
            visible_faces: Some(VisibleFaces {
                top: false,
                bottom: true,
                left: true,
                right: false,
                front: true,
                back: false,
            }),
        }
    );
    assert_eq!(
        blocks[to_1d(2, 2, 2, 3)],
        BlockData {
            visible_faces: Some(VisibleFaces {
                top: true,
                bottom: false,
                left: false,
                right: true,
                front: false,
                back: true,
            }),
        }
    );
    assert_eq!(
        blocks[to_1d(1, 2, 1, 3)],
        BlockData { visible_faces: Some(VisibleFaces { top: true, ..NONE }) }
    );
}

#[test]
fn one_voxel_chunk_is_all_boundary() {
    assert_eq!(block_data_from_perlin(&vec![7], 1, 7), vec![BlockData { visible_faces: Some(ALL) }]);
    assert_eq!(block_data_from_perlin(&vec![6], 1, 7), vec![BlockData { visible_faces: None }]);
}

#[test]
fn each_air_neighbour_exposes_the_face_towards_it() {
    let solid = vec![1i64; 27];
    let cases: [((usize, usize, usize), VisibleFaces); 6] = [
        ((2, 1, 1), VisibleFaces { right: true, ..NONE }),
        ((0, 1, 1), VisibleFaces { left: true, ..NONE }),
        ((1, 2, 1), VisibleFaces { top: true, ..NONE }),
        ((1, 0, 1), VisibleFaces { bottom: true, ..NONE }),
        ((1, 1, 2), VisibleFaces { back: true, ..NONE }),
        ((1, 1, 0), VisibleFaces { front: true, ..NONE }),
    ];
    for ((x, y, z), expected) in cases {
        let mut chunk = solid.clone();
        chunk[to_1d(x, y, z, 3)] = 0;
        let blocks = block_data_from_perlin(&chunk, 3, 1);
        assert_eq!(blocks[to_1d(1, 1, 1, 3)], BlockData { visible_faces: Some(expected) });
        assert_eq!(blocks[to_1d(x, y, z, 3)], BlockData { visible_faces: None });
    }
}

#[test]
fn empty_chunk_has_no_records() {
    assert_eq!(block_data_from_perlin(&Vec::new(), 0, 0), Vec::new());
}
