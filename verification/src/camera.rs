use crate::mesh::MeshFacingDirection;
use crate::vector::{dot, ivec3, IVec3};
use vstd::prelude::*;

verus! {

/// The signal that the camera has turned past one of the world's axes.
#[derive(Clone, Copy, Debug, PartialEq, Eq, Structural)]
pub struct CameraDirectionChangeEvent;

/// The direction the camera looked along when it was last polled.
#[derive(Clone, Copy, Debug, PartialEq, Eq, Structural)]
pub struct PastCameraDirection(pub IVec3);

impl Default for PastCameraDirection {
    /// Before the camera is polled for the first time it is taken to have
    /// looked along `+x`.
    fn default() -> (past: PastCameraDirection)
        ensures
            past.0 == ivec3(1, 0, 0),
    {
        PastCameraDirection(IVec3 { x: 1, y: 0, z: 0 })
    }
}

/// One chunk mesh as the visibility controller sees it: the direction its
/// faces look along, and whether it is currently drawn.
#[derive(Clone, Copy, Debug, PartialEq, Eq, Structural)]
pub struct FaceVisibility {
    pub visible: bool,
    pub facing: MeshFacingDirection,
}

/// Whether one of `a` and `b` is negative and the other positive. Zero has
/// no sign, so a pair with a zero in it never qualifies.
pub open spec fn opposite_signs(a: int, b: int) -> bool {
    (a < 0 && 0 < b) || (0 < a && b < 0)
}

/// Whether the viewing direction has changed its sign along any of the three
/// world axes between `was` and `now`.
pub open spec fn direction_changed(was: IVec3, now: IVec3) -> bool {
    ||| opposite_signs(was.x as int, now.x as int)
    ||| opposite_signs(was.y as int, now.y as int)
    ||| opposite_signs(was.z as int, now.z as int)
}

/// Whether the scalar products of `was` and of `now` with `axis` multiply to
/// a negative number.
pub open spec fn flipped_along(axis: IVec3, was: IVec3, now: IVec3) -> bool {
    dot(was, axis) * dot(now, axis) < 0
}

/// The direction has changed exactly when, for one of the three world axes,
/// the scalar products of the old and of the new direction with that axis
/// multiply to a negative number.
pub proof fn lemma_direction_changed_by_products(was: IVec3, now: IVec3)
    ensures
        opposite_signs(was.x as int, now.x as int) <==> flipped_along(ivec3(1, 0, 0), was, now),
        opposite_signs(was.y as int, now.y as int) <==> flipped_along(ivec3(0, 1, 0), was, now),
        opposite_signs(was.z as int, now.z as int) <==> flipped_along(ivec3(0, 0, 1), was, now),
        direction_changed(was, now) <==> {
            ||| flipped_along(ivec3(1, 0, 0), was, now)
            ||| flipped_along(ivec3(0, 1, 0), was, now)
            ||| flipped_along(ivec3(0, 0, 1), was, now)
        },
{
    lemma_dot_with_axis(was, ivec3(1, 0, 0));
    lemma_dot_with_axis(now, ivec3(1, 0, 0));
    lemma_dot_with_axis(was, ivec3(0, 1, 0));
    lemma_dot_with_axis(now, ivec3(0, 1, 0));
    lemma_dot_with_axis(was, ivec3(0, 0, 1));
    lemma_dot_with_axis(now, ivec3(0, 0, 1));
    lemma_negative_product(was.x as int, now.x as int);
    lemma_negative_product(was.y as int, now.y as int);
    lemma_negative_product(was.z as int, now.z as int);
}

/// A product is negative exactly when its factors have opposite signs.
proof fn lemma_negative_product(a: int, b: int)
    ensures
        a * b < 0 <==> opposite_signs(a, b),
{
    assert(a * b < 0 <==> (a < 0 && 0 < b) || (0 < a && b < 0)) by (nonlinear_arith);
}

/// Whether a mesh whose faces look along `normal` is drawn for a camera that
/// looks along `facing`: it is unless its faces look the same way as the
/// camera.
pub open spec fn shown_to(normal: IVec3, facing: IVec3) -> bool {
    dot(normal, facing) <= 0
}

/// The meshes after a camera that looks along `facing` has turned past an
/// axis: every flag is set anew, nothing else changes.
pub open spec fn reconsidered(chunks: Seq<FaceVisibility>, facing: IVec3) -> Seq<FaceVisibility> {
    Seq::new(
        chunks.len(),
        |i: int|
            FaceVisibility {
                visible: shown_to(chunks[i].facing.0, facing),
                facing: chunks[i].facing,
            },
    )
}

/// The scalar product with a world axis is the component along that axis.
proof fn lemma_dot_with_axis(v: IVec3, axis: IVec3)
    requires
        axis == ivec3(1, 0, 0) || axis == ivec3(0, 1, 0) || axis == ivec3(0, 0, 1),
    ensures
        axis == ivec3(1, 0, 0) ==> dot(v, axis) == v.x,
        axis == ivec3(0, 1, 0) ==> dot(v, axis) == v.y,
        axis == ivec3(0, 0, 1) ==> dot(v, axis) == v.z,
        i32::MIN <= dot(v, axis) <= i32::MAX,
{
    let (a, b, c) = (axis.x as int, axis.y as int, axis.z as int);
    assert(v.x * a + v.y * b + v.z * c == if a == 1 {
        v.x as int
    } else if b == 1 {
        v.y as int
    } else {
        v.z as int
    }) by (nonlinear_arith)
        requires
            (a == 1 && b == 0 && c == 0) || (a == 0 && b == 1 && c == 0) || (a == 0 && b == 0 && c
                == 1),
    ;
}

/// Whether the camera's component along `axis` has changed its sign.
fn axis_changed(axis: IVec3, was_facing: IVec3, facing: IVec3) -> (changed: bool)
    requires
        axis == ivec3(1, 0, 0) || axis == ivec3(0, 1, 0) || axis == ivec3(0, 0, 1),
    ensures
        changed == flipped_along(axis, was_facing, facing),
{
    let r1: i128 = was_facing.dot(axis);
    let r2: i128 = facing.dot(axis);
    proof {
        lemma_dot_with_axis(was_facing, axis);
        lemma_dot_with_axis(facing, axis);
    }
    assert(-0x4000_0000_0000_0000 <= r1 * r2 <= 0x4000_0000_0000_0000) by (nonlinear_arith)
        requires
            -0x8000_0000 <= r1 <= 0x7fff_ffff,
            -0x8000_0000 <= r2 <= 0x7fff_ffff,
    ;
    r1 * r2 < 0
}

/// Polls the camera once. With a camera present, its direction replaces the
/// remembered one, and the change signal is raised if and only if the
/// direction has changed its sign along some world axis. Without a camera
/// nothing happens.
pub fn detect_camera_direction_changed(
    camera: Option<IVec3>,
    past_cam_dir: &mut PastCameraDirection,
) -> (ev: Option<CameraDirectionChangeEvent>)
    ensures
        match camera {
            Some(facing) => {
                &&& final(past_cam_dir).0 == facing
                &&& ev.is_some() == direction_changed(old(past_cam_dir).0, facing)
            },
            None => *final(past_cam_dir) == *old(past_cam_dir) && ev.is_none(),
        },
{
    match camera {
        None => None,
        Some(facing) => {
            let was_facing = past_cam_dir.0;
            past_cam_dir.0 = facing;
            proof {
                lemma_direction_changed_by_products(was_facing, facing);
            }

            let x_changed = axis_changed(IVec3 { x: 1, y: 0, z: 0 }, was_facing, facing);
            let y_changed = axis_changed(IVec3 { x: 0, y: 1, z: 0 }, was_facing, facing);
            let z_changed = axis_changed(IVec3 { x: 0, y: 0, z: 1 }, was_facing, facing);

            if x_changed || y_changed || z_changed {
                Some(CameraDirectionChangeEvent)
            } else {
                None
            }
        },
    }
}

/// Consumes a change signal. With a signal and a camera, every mesh is shown
/// if and only if the scalar product of its facing direction and the
/// camera's direction is at most zero. Without either, nothing changes.
pub fn on_camera_direction_change(
    ev: Option<CameraDirectionChangeEvent>,
    camera: Option<IVec3>,
    chunks: &mut Vec<FaceVisibility>,
)
    ensures
        final(chunks)@ == match (ev, camera) {
            (Some(_), Some(facing)) => reconsidered(old(chunks)@, facing),
            _ => old(chunks)@,
        },
{
    if ev.is_none() {
        return ;
    }
    match camera {
        None => (),
        Some(facing) => {
            let total: usize = chunks.len();
            let mut i: usize = 0;
            while i < total
                invariant
                    i <= total,
                    total == chunks.len(),
                    chunks.len() == old(chunks).len(),
                    forall|k: int|
                        0 <= k < i ==> #[trigger] chunks[k] == reconsidered(
                            old(chunks)@,
                            facing,
                        )[k],
                    forall|k: int| i <= k < total ==> #[trigger] chunks[k] == old(chunks)[k],
                decreases total - i,
            {
                let mesh_facing = chunks[i].facing;
                let visible = mesh_facing.0.dot(facing) <= 0;
                chunks.set(i, FaceVisibility { visible, facing: mesh_facing });
                i += 1;
            }
            assert(chunks@ =~= reconsidered(old(chunks)@, facing));
        },
    }
}

} // verus!
