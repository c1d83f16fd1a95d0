use world_gen::camera::{
    detect_camera_direction_changed, on_camera_direction_change, CameraDirectionChangeEvent,
    FaceVisibility, PastCameraDirection,
};
use world_gen::mesh::MeshFacingDirection;
use world_gen::vector::IVec3;

fn v(x: i32, y: i32, z: i32) -> IVec3 {
    IVec3 { x, y, z }
}

fn face(normal: IVec3, visible: bool) -> FaceVisibility {
    FaceVisibility { visible, facing: MeshFacingDirection(normal) }
}

#[test]
fn turning_around_raises_the_signal() {
    let mut past = PastCameraDirection(v(1, 0, 0));
    let ev = detect_camera_direction_changed(Some(v(-1, 0, 0)), &mut past);
    assert_eq!(ev, Some(CameraDirectionChangeEvent));
    assert_eq!(past.0, v(-1, 0, 0));
}

#[test]
fn looking_the_same_way_raises_no_signal() {
    let mut past = PastCameraDirection(v(1, 0, 0));
    let ev = detect_camera_direction_changed(Some(v(1, 0, 0)), &mut past);
    assert_eq!(ev, None);
    assert_eq!(past.0, v(1, 0, 0));
}

#[test]
fn a_flip_along_any_axis_raises_the_signal() {
    for (was, now) in [
        (v(5, 3, 2), v(-1, 3, 2)),
        (v(5, 3, 2), v(5, -3, 2)),
        (v(5, 3, 2), v(5, 3, -2)),
        (v(-5, -3, -2), v(5, 3, 2)),
    ] {
        let mut past = PastCameraDirection(was);
        assert!(detect_camera_direction_changed(Some(now), &mut past).is_some());
        assert_eq!(past.0, now);
    }
}

#[test]
fn a_component_that_is_zero_does_not_flip() {
    for (was, now) in [
        (v(1, 0, 0), v(0, 1, 0)),
        (v(0, 0, 0), v(-1, -1, -1)),
        (v(1, 1, 1), v(0, 0, 0)),
        (v(3, 0, 7), v(9, -4, 1)),
    ] {
        let mut past = PastCameraDirection(was);
        assert_eq!(detect_camera_direction_changed(Some(now), &mut past), None);
        assert_eq!(past.0, now);
    }
}

#[test]
fn the_remembered_direction_is_replaced_every_time() {
    let mut past = PastCameraDirection(v(1, 0, 0));
    assert!(detect_camera_direction_changed(Some(v(1, 1, 0)), &mut past).is_none());
    assert!(detect_camera_direction_changed(Some(v(1, -1, 0)), &mut past).is_some());
    assert!(detect_camera_direction_changed(Some(v(1, -1, 0)), &mut past).is_none());
    assert!(detect_camera_direction_changed(Some(v(1, 1, 0)), &mut past).is_some());
    assert_eq!(past.0, v(1, 1, 0));
}

#[test]
fn without_a_camera_nothing_is_detected() {
    let mut past = PastCameraDirection(v(1, 0, 0));
    assert_eq!(detect_camera_direction_changed(None, &mut past), None);
    assert_eq!(past.0, v(1, 0, 0));
}

#[test]
fn extreme_components_are_handled() {
    let mut past = PastCameraDirection(v(i32::MIN, i32::MAX, i32::MIN));
    let now = v(i32::MIN, i32::MAX, i32::MAX);
    assert!(detect_camera_direction_changed(Some(now), &mut past).is_some());
    assert!(detect_camera_direction_changed(Some(now), &mut past).is_none());
}

#[test]
fn a_face_that_opposes_the_camera_becomes_visible() {
    let mut chunks = vec![face(v(0, 1, 0), false)];
    on_camera_direction_change(Some(CameraDirectionChangeEvent), Some(v(0, -1, 0)), &mut chunks);
    assert_eq!(chunks, vec![face(v(0, 1, 0), true)]);
}

#[test]
fn a_face_that_looks_along_the_camera_becomes_hidden() {
    let mut chunks = vec![face(v(0, 1, 0), true)];
    on_camera_direction_change(Some(CameraDirectionChangeEvent), Some(v(0, 1, 0)), &mut chunks);
    assert_eq!(chunks, vec![face(v(0, 1, 0), false)]);
}

#[test]
fn a_face_at_right_angles_to_the_camera_becomes_visible() {
    let mut chunks = vec![face(v(1, 0, 0), false)];
    on_camera_direction_change(Some(CameraDirectionChangeEvent), Some(v(0, 1, 0)), &mut chunks);
    assert_eq!(chunks, vec![face(v(1, 0, 0), true)]);
}

#[test]
fn every_face_is_reconsidered() {
    let normals = [v(0, 1, 0), v(0, -1, 0), v(-1, 0, 0), v(1, 0, 0), v(0, 0, -1), v(0, 0, 1)];
    let mut chunks: Vec<FaceVisibility> = normals.iter().map(|n| face(*n, true)).collect();
    on_camera_direction_change(Some(CameraDirectionChangeEvent), Some(v(2, -3, 0)), &mut chunks);
    let visible: Vec<bool> = chunks.iter().map(|c| c.visible).collect();
    assert_eq!(visible, vec![true, false, true, false, true, true]);
    for (chunk, normal) in chunks.iter().zip(normals) {
        assert_eq!(chunk.facing.0, normal);
    }
}

#[test]
fn without_a_signal_nothing_changes() {
    let before = vec![face(v(0, 1, 0), true), face(v(0, -1, 0), true), face(v(1, 0, 0), false)];
    let mut chunks = before.clone();
    on_camera_direction_change(None, Some(v(0, 1, 0)), &mut chunks);
    assert_eq!(chunks, before);
}

#[test]
fn without_a_camera_a_signal_changes_nothing() {
    let before = vec![face(v(0, 1, 0), true), face(v(0, -1, 0), false)];
    let mut chunks = before.clone();
    on_camera_direction_change(Some(CameraDirectionChangeEvent), None, &mut chunks);
    assert_eq!(chunks, before);
}

#[test]
fn detection_feeds_the_visibility_update() {
    let mut past = PastCameraDirection(v(1, 0, 0));
    let mut chunks = vec![face(v(1, 0, 0), true), face(v(-1, 0, 0), true)];

    let ev = detect_camera_direction_changed(Some(v(1, 0, 0)), &mut past);
    on_camera_direction_change(ev, Some(v(1, 0, 0)), &mut chunks);
    assert_eq!(chunks, vec![face(v(1, 0, 0), true), face(v(-1, 0, 0), true)]);

    let ev = detect_camera_direction_changed(Some(v(-1, 0, 0)), &mut past);
    on_camera_direction_change(ev, Some(v(-1, 0, 0)), &mut chunks);
    assert_eq!(chunks, vec![face(v(1, 0, 0), true), face(v(-1, 0, 0), false)]);
}

#[test]
fn the_camera_is_first_taken_to_look_along_x() {
    assert_eq!(PastCameraDirection::default().0, v(1, 0, 0));
}
