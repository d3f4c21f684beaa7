use clouds_core::entities::World;
use clouds_core::projection::{PerspectiveClip, Projection};
use clouds_core::rat::Rat;
use clouds_core::rot3::Rot3;
use clouds_core::skybox::update_skybox_transform;
use clouds_core::vec3::{vec3_ints, Vec3R};
use clouds_core::{
    clouds_setup, update_camera_matrices, App, CloudCamera, CloudsError, CloudsPlugin,
    ImageHandle, SystemLabel,
};

fn unit_clip(far: i64) -> PerspectiveClip {
    PerspectiveClip {
        a: Rat { num: 1, den: 1 },
        b: Rat { num: 1, den: 1 },
        c: Rat { num: 1, den: 1 },
        d: Rat { num: 1, den: 1 },
        far: Rat { num: far, den: 1 },
    }
}

fn booted_world() -> World {
    let mut w = World::new();
    clouds_setup(
        &mut w,
        ImageHandle { id: 1 },
        ImageHandle { id: 2 },
        ImageHandle { id: 3 },
        ImageHandle { id: 4 },
    );
    w
}

fn spawn_cloud_camera(w: &mut World, x: i64, y: i64, z: i64, far: i64) {
    let t = vec3_ints(x, y, z);
    let rot = Rot3::identity();
    w.spawn_camera(
        Some(CloudCamera),
        t,
        rot,
        Projection::Perspective(unit_clip(far)),
    );
}

fn rat(n: i64) -> Rat {
    Rat { num: n, den: 1 }
}

#[test]
fn scenario_a_origin_far_100() {
    let mut w = booted_world();
    spawn_cloud_camera(&mut w, 0, 0, 0, 100);
    let r = update_skybox_transform(&mut w);
    assert!(r.is_ok());
    // scale = 4 * 100 on every face
    for p in w.planes.iter() {
        assert_eq!(p.transform.scale, rat(400));
        assert_eq!(p.transform.rotation, p.orig_rotation);
    }
    // negative-Y face sits at (0, -400, 0)
    let ny = &w.planes[1];
    assert_eq!(ny.transform.translation.x.num, 0);
    assert_eq!(ny.transform.translation.y.num, -400);
    assert_eq!(ny.transform.translation.z.num, 0);
    assert_eq!(ny.transform.translation.y.den, 1);
    // the other five faces
    assert_eq!(w.planes[0].transform.translation.x.num, -400);
    assert_eq!(w.planes[2].transform.translation.z.num, -400);
    assert_eq!(w.planes[3].transform.translation.x.num, 400);
    assert_eq!(w.planes[4].transform.translation.y.num, 400);
    assert_eq!(w.planes[5].transform.translation.z.num, 400);
}

#[test]
fn scenario_b_translations_shift_with_camera() {
    let mut origin = booted_world();
    spawn_cloud_camera(&mut origin, 0, 0, 0, 100);
    assert!(update_skybox_transform(&mut origin).is_ok());

    let mut moved = booted_world();
    spawn_cloud_camera(&mut moved, 10, 2, -5, 100);
    assert!(update_skybox_transform(&mut moved).is_ok());

    for k in 0..6 {
        let a = &origin.planes[k].transform;
        let b = &moved.planes[k].transform;
        // every face shifts by exactly (10, 2, -5); scale is unchanged
        assert_eq!(b.translation.x.num, a.translation.x.num + 10);
        assert_eq!(b.translation.y.num, a.translation.y.num + 2);
        assert_eq!(b.translation.z.num, a.translation.z.num - 5);
        assert_eq!(a.translation.x.den, 1);
        assert_eq!(b.translation.x.den, 1);
        assert_eq!(b.scale, a.scale);
        assert_eq!(b.scale, rat(400));
    }
}

#[test]
fn scenario_c_far_clip_change_rescales() {
    let mut w = booted_world();
    spawn_cloud_camera(&mut w, 0, 0, 0, 100);
    assert!(update_skybox_transform(&mut w).is_ok());
    assert_eq!(w.planes[1].transform.scale, rat(400));
    assert_eq!(w.planes[1].transform.translation.y.num, -400);

    // the far-clip distance changes between two frames, camera stationary
    w.cameras[0].projection = Projection::Perspective(unit_clip(200));
    assert!(update_skybox_transform(&mut w).is_ok());
    assert_eq!(w.planes[1].transform.scale, rat(800));
    assert_eq!(w.planes[1].transform.translation.y.num, -800);
    assert_eq!(w.planes[4].transform.translation.y.num, 800);
    assert_eq!(w.planes[1].transform.translation.x.num, 0);
}

#[test]
fn scenario_d_zero_cameras_fails_fast() {
    let mut w = booted_world();
    let before = w.camera_matrices;
    assert_eq!(
        update_skybox_transform(&mut w),
        Err(CloudsError::NoActiveCamera)
    );
    assert_eq!(
        update_camera_matrices(&mut w),
        Err(CloudsError::NoActiveCamera)
    );
    assert_eq!(w.camera_matrices, before);
    // the skybox is untouched: still at the unit-cube pose
    for p in w.planes.iter() {
        assert_eq!(p.transform.scale, rat(1));
        assert_eq!(p.transform.translation, p.orig_translation);
    }
}

#[test]
fn scenario_d_two_cameras_keep_last_valid_matrices() {
    let mut w = booted_world();
    spawn_cloud_camera(&mut w, 3, 4, 5, 100);
    assert!(update_camera_matrices(&mut w).is_ok());
    let valid = w.camera_matrices;
    assert_eq!(valid.translation.x.num, 3);

    spawn_cloud_camera(&mut w, 9, 9, 9, 100);
    assert_eq!(
        update_camera_matrices(&mut w),
        Err(CloudsError::MultipleActiveCameras)
    );
    assert_eq!(
        update_skybox_transform(&mut w),
        Err(CloudsError::MultipleActiveCameras)
    );
    // the snapshot keeps its last valid value
    assert_eq!(w.camera_matrices, valid);
}

#[test]
fn non_perspective_projection_is_rejected() {
    let mut w = booted_world();
    w.spawn_camera(
        Some(CloudCamera),
        vec3_ints(0, 0, 0),
        Rot3::identity(),
        Projection::Orthographic,
    );
    assert_eq!(
        update_skybox_transform(&mut w),
        Err(CloudsError::UnsupportedProjection)
    );
    assert_eq!(
        update_camera_matrices(&mut w),
        Err(CloudsError::UnsupportedProjection)
    );
}

#[test]
fn six_planes_persist_across_updates() {
    let mut w = booted_world();
    assert_eq!(w.planes.len(), 6);
    spawn_cloud_camera(&mut w, 1, 2, 3, 50);
    let ids: Vec<u64> = w.planes.iter().map(|p| p.id).collect();
    let rotations: Vec<Rot3> = w.planes.iter().map(|p| p.orig_rotation).collect();
    let offsets: Vec<Vec3R> = w.planes.iter().map(|p| p.orig_translation).collect();
    for _ in 0..4 {
        assert!(update_skybox_transform(&mut w).is_ok());
        assert!(update_camera_matrices(&mut w).is_ok());
        assert_eq!(w.planes.len(), 6);
    }
    // identity, original offsets and original orientations never change
    for k in 0..6 {
        assert_eq!(w.planes[k].id, ids[k]);
        assert_eq!(w.planes[k].orig_rotation, rotations[k]);
        assert_eq!(w.planes[k].orig_translation, offsets[k]);
    }
}

#[test]
fn bootstrap_shares_one_material_and_mesh() {
    let w = booted_world();
    assert_eq!(w.materials.len(), 1);
    assert_eq!(w.meshes.len(), 1);
    for p in w.planes.iter() {
        assert_eq!(p.material, 0);
        assert_eq!(p.mesh, 0);
    }
    let images = w.images.expect("bootstrap inserts the image singleton");
    assert_eq!(images.cloud_render_image, ImageHandle { id: 1 });
    assert_eq!(images.cloud_atlas_image, ImageHandle { id: 2 });
    assert_eq!(images.cloud_worley_image, ImageHandle { id: 3 });
    assert_eq!(images.sky_image, ImageHandle { id: 4 });
}

#[test]
fn bootstrap_matrices_are_neutral() {
    let w = booted_world();
    let m = w.camera_matrices;
    assert_eq!(m.translation.x, rat(0));
    assert_eq!(m.translation.y, rat(0));
    assert_eq!(m.translation.z, rat(0));
    // identity matrices
    assert_eq!(m.inverse_camera_view.m00, rat(1));
    assert_eq!(m.inverse_camera_view.m01, rat(0));
    assert_eq!(m.inverse_camera_view.m11, rat(1));
    assert_eq!(m.inverse_camera_view.m33, rat(1));
    assert_eq!(m.inverse_camera_projection.m22, rat(1));
    assert_eq!(m.inverse_camera_projection.m23, rat(0));
}

#[test]
fn faces_point_inward() {
    let w = booted_world();
    for p in w.planes.iter() {
        // the rotated local up axis is the exact opposite of the face offset
        assert_eq!(i64::from(p.orig_rotation.m01), -p.orig_translation.x.num);
        assert_eq!(i64::from(p.orig_rotation.m11), -p.orig_translation.y.num);
        assert_eq!(i64::from(p.orig_rotation.m21), -p.orig_translation.z.num);
        assert_eq!(p.orig_translation.x.den, 1);
        assert_eq!(p.orig_translation.y.den, 1);
        assert_eq!(p.orig_translation.z.den, 1);
    }
    // the six unit-cube offsets, in spawn order
    let expect = [
        (-1, 0, 0),
        (0, -1, 0),
        (0, 0, -1),
        (1, 0, 0),
        (0, 1, 0),
        (0, 0, 1),
    ];
    for (k, (x, y, z)) in expect.iter().enumerate() {
        assert_eq!(w.planes[k].orig_translation.x.num, *x);
        assert_eq!(w.planes[k].orig_translation.y.num, *y);
        assert_eq!(w.planes[k].orig_translation.z.num, *z);
    }
}

#[test]
fn camera_sync_publishes_world_pose() {
    let mut w = booted_world();
    spawn_cloud_camera(&mut w, 7, -8, 9, 100);
    assert!(update_camera_matrices(&mut w).is_ok());
    let m = w.camera_matrices;
    assert_eq!(m.translation.x.num, 7);
    assert_eq!(m.translation.y.num, -8);
    assert_eq!(m.translation.z.num, 9);
    // inverse view = identity rotation block plus the translation column
    assert_eq!(m.inverse_camera_view.m00, rat(1));
    assert_eq!(m.inverse_camera_view.m03, rat(7));
    assert_eq!(m.inverse_camera_view.m13, rat(-8));
    assert_eq!(m.inverse_camera_view.m23, rat(9));
    assert_eq!(m.inverse_camera_view.m30, rat(0));
    assert_eq!(m.inverse_camera_view.m33, rat(1));
}

#[test]
fn plugin_registers_after_propagation() {
    let mut app = App {
        startup: vec![],
        post_update: vec![SystemLabel::TransformPropagate],
    };
    CloudsPlugin.build(&mut app);
    assert_eq!(app.startup, vec![SystemLabel::CloudsSetup]);
    assert_eq!(
        app.post_update,
        vec![
            SystemLabel::TransformPropagate,
            SystemLabel::UpdateSkyboxTransform,
            SystemLabel::UpdateCameraMatrices,
        ]
    );
}

#[test]
fn checked_camera_pose_update() {
    let mut w = booted_world();
    spawn_cloud_camera(&mut w, 0, 0, 0, 100);
    // a valid pose update moves the camera; the next update follows it
    let ok = w.update_camera_pose(
        0,
        vec3_ints(10, 2, -5),
        Rot3::identity(),
        Projection::Perspective(unit_clip(100)),
    );
    assert!(ok);
    assert!(update_skybox_transform(&mut w).is_ok());
    assert_eq!(w.planes[1].transform.translation.y.num, -398);
    // an invalid pose (not a rotation matrix) is rejected and changes nothing
    let before = w.cameras[0];
    let bad = Rot3 {
        m00: 0,
        m01: 0,
        m02: 0,
        m10: 0,
        m11: 1,
        m12: 0,
        m20: 0,
        m21: 0,
        m22: 1,
    };
    let ok = w.update_camera_pose(
        0,
        vec3_ints(1, 1, 1),
        bad,
        Projection::Perspective(unit_clip(100)),
    );
    assert!(!ok);
    assert_eq!(w.cameras[0], before);
    // an out-of-range index is rejected as well
    let ok = w.update_camera_pose(
        9,
        vec3_ints(1, 1, 1),
        Rot3::identity(),
        Projection::Perspective(unit_clip(100)),
    );
    assert!(!ok);
}
