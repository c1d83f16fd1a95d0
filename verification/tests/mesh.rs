use world_gen::mesh::{
    add_cube_side_to_mesh, back_side, bottom_side, front_side, left_side, right_side, top_side,
    CubeFace, MeshData, MeshFacingDirection, MeshSide,
};
use world_gen::vector::IVec3;

fn v(x: i32, y: i32, z: i32) -> IVec3 {
    IVec3 { x, y, z }
}

fn all_sides(x: i32, y: i32, z: i32, size: i32) -> [(CubeFace, MeshSide); 6] {
    [
        (CubeFace::Top, top_side(x, y, z, size)),
        (CubeFace::Bottom, bottom_side(x, y, z, size)),
        (CubeFace::Left, left_side(x, y, z, size)),
        (CubeFace::Right, right_side(x, y, z, size)),
        (CubeFace::Front, front_side(x, y, z, size)),
        (CubeFace::Back, back_side(x, y, z, size)),
    ]
}

fn cross(a: (i64, i64, i64), b: (i64, i64, i64)) -> (i64, i64, i64) {
    (a.1 * b.2 - a.2 * b.1, a.2 * b.0 - a.0 * b.2, a.0 * b.1 - a.1 * b.0)
}

fn diff(p: IVec3, q: IVec3) -> (i64, i64, i64) {
    ((p.x - q.x) as i64, (p.y - q.y) as i64, (p.z - q.z) as i64)
}

#[test]
fn normals_are_the_six_axis_directions() {
    assert_eq!(CubeFace::Top.normal(), v(0, 1, 0));
    assert_eq!(CubeFace::Bottom.normal(), v(0, -1, 0));
    assert_eq!(CubeFace::Left.normal(), v(-1, 0, 0));
    assert_eq!(CubeFace::Right.normal(), v(1, 0, 0));
    assert_eq!(CubeFace::Front.normal(), v(0, 0, -1));
    assert_eq!(CubeFace::Back.normal(), v(0, 0, 1));
}

#[test]
fn top_side_template() {
    let side = top_side(10, 20, 30, 1);
    assert_eq!(side.vertices, [v(9, 21, 29), v(11, 21, 29), v(11, 21, 31), v(9, 21, 31)]);
    assert_eq!(side.normals, [v(0, 1, 0); 4]);
    assert_eq!(side.indices, [0, 3, 1, 1, 3, 2]);
}

#[test]
fn bottom_side_template() {
    let side = bottom_side(10, 20, 30, 1);
    assert_eq!(side.vertices, [v(9, 19, 29), v(11, 19, 29), v(11, 19, 31), v(9, 19, 31)]);
    assert_eq!(side.normals, [v(0, -1, 0); 4]);
    assert_eq!(side.indices, [0, 1, 3, 1, 2, 3]);
}

#[test]
fn right_side_template() {
    let side = right_side(10, 20, 30, 1);
    assert_eq!(side.vertices, [v(11, 19, 29), v(11, 19, 31), v(11, 21, 31), v(11, 21, 29)]);
    assert_eq!(side.normals, [v(1, 0, 0); 4]);
    assert_eq!(side.indices, [0, 3, 1, 1, 3, 2]);
}

#[test]
fn left_side_template() {
    let side = left_side(10, 20, 30, 1);
    assert_eq!(side.vertices, [v(9, 19, 29), v(9, 19, 31), v(9, 21, 31), v(9, 21, 29)]);
    assert_eq!(side.normals, [v(-1, 0, 0); 4]);
    assert_eq!(side.indices, [0, 1, 3, 1, 2, 3]);
}

#[test]
fn back_side_template() {
    let side = back_side(10, 20, 30, 1);
    assert_eq!(side.vertices, [v(9, 19, 31), v(9, 21, 31), v(11, 21, 31), v(11, 19, 31)]);
    assert_eq!(side.normals, [v(0, 0, 1); 4]);
    assert_eq!(side.indices, [0, 3, 1, 1, 3, 2]);
}

#[test]
fn front_side_template() {
    let side = front_side(10, 20, 30, 1);
    assert_eq!(side.vertices, [v(9, 19, 29), v(9, 21, 29), v(11, 21, 29), v(11, 19, 29)]);
    assert_eq!(side.normals, [v(0, 0, -1); 4]);
    assert_eq!(side.indices, [0, 1, 3, 1, 2, 3]);
}

#[test]
fn size_is_the_distance_from_centre_to_face() {
    let side = top_side(0, 0, 0, 5);
    assert_eq!(side.vertices, [v(-5, 5, -5), v(5, 5, -5), v(5, 5, 5), v(-5, 5, 5)]);
    let side = left_side(-3, 4, 100, 2);
    assert_eq!(side.vertices, [v(-5, 2, 98), v(-5, 2, 102), v(-5, 6, 102), v(-5, 6, 98)]);
}

#[test]
fn both_triangles_wind_along_the_declared_normal() {
    for (x, y, z, size) in [(0, 0, 0, 1), (7, -3, 12, 1), (-40, 55, 2, 3)] {
        for (face, side) in all_sides(x, y, z, size) {
            let n = face.normal();
            let k = 4 * (size as i64) * (size as i64);
            let expected = (k * n.x as i64, k * n.y as i64, k * n.z as i64);
            for first in [0usize, 3usize] {
                let a = side.vertices[side.indices[first] as usize];
                let b = side.vertices[side.indices[first + 1] as usize];
                let c = side.vertices[side.indices[first + 2] as usize];
                assert_eq!(cross(diff(b, a), diff(c, a)), expected);
            }
            for normal in side.normals {
                assert_eq!(normal, n);
            }
        }
    }
}

#[test]
fn every_corner_lies_on_the_face_plane() {
    for (face, side) in all_sides(4, 6, 8, 1) {
        let n = face.normal();
        for p in side.vertices {
            let d = (p.x - 4) * n.x + (p.y - 6) * n.y + (p.z - 8) * n.z;
            assert_eq!(d, 1);
        }
        let mut corners = side.vertices.to_vec();
        corners.sort_by_key(|p| (p.x, p.y, p.z));
        corners.dedup();
        assert_eq!(corners.len(), 4);
    }
}

#[test]
fn default_mesh_is_empty() {
    let mesh = MeshData::default();
    assert!(mesh.vertices.is_empty());
    assert!(mesh.normals.is_empty());
    assert!(mesh.indices.is_empty());
}

#[test]
fn appending_shifts_indices_past_existing_positions() {
    let mut mesh = MeshData::default();
    let first = top_side(0, 0, 0, 1);
    let second = bottom_side(2, 0, 0, 1);
    add_cube_side_to_mesh(&mut mesh, first);
    assert_eq!(mesh.vertices, first.vertices.to_vec());
    assert_eq!(mesh.normals, first.normals.to_vec());
    assert_eq!(mesh.indices, vec![0, 3, 1, 1, 3, 2]);

    add_cube_side_to_mesh(&mut mesh, second);
    assert_eq!(mesh.vertices.len(), 8);
    assert_eq!(mesh.normals.len(), 8);
    assert_eq!(&mesh.vertices[4..], &second.vertices[..]);
    assert_eq!(&mesh.normals[4..], &second.normals[..]);
    assert_eq!(mesh.indices, vec![0, 3, 1, 1, 3, 2, 4, 5, 7, 5, 6, 7]);

    add_cube_side_to_mesh(&mut mesh, first);
    assert_eq!(&mesh.indices[12..], &[8, 11, 9, 9, 11, 10]);
}

#[test]
fn appended_mesh_stays_consistent() {
    let mut mesh = MeshData::default();
    for (_, side) in all_sides(1, 2, 3, 1) {
        add_cube_side_to_mesh(&mut mesh, side);
        assert_eq!(mesh.vertices.len(), mesh.normals.len());
        assert_eq!(mesh.indices.len() % 6, 0);
        assert!(mesh.indices.iter().all(|&i| (i as usize) < mesh.vertices.len()));
    }
    assert_eq!(mesh.vertices.len(), 24);
    assert_eq!(mesh.indices.len(), 36);
}

#[test]
fn mesh_facing_direction_wraps_a_vector() {
    let facing = MeshFacingDirection(v(0, 1, 0));
    assert_eq!(facing.0, CubeFace::Top.normal());
}
