//! Per-frame synchronization core for a volumetric-cloud backdrop.
//!
//! The library keeps a camera-following skybox (six inward-facing planes),
//! the active camera's inverse view and projection matrices, and the shared
//! cloud image handles consistent every frame, so a downstream raymarch pass
//! can sample clouds coherently from any camera pose.
//!
//! All geometry is modelled exactly: scalars are rational numbers, and
//! orientations are integer rotation matrices, so every contract is an exact
//! statement rather than a floating-point approximation.

pub mod entities;
pub mod mat4;
pub mod projection;
pub mod rat;
pub mod rot3;
pub mod skybox;
pub mod vec3;

use crate::entities::{find_active_camera, lemma_unique_active, World};
use crate::mat4::{
    is_inverse_of, mat4_identity, mat4_identity_exec, world_matrix, world_matrix_exec, Mat4R,
};
use crate::projection::{clip_from_view, invert_perspective, Projection};
use crate::rat::Rat;
use crate::vec3::Vec3R;
use vstd::prelude::*;

verus! {

/// Marker component for cameras that should render volumetric clouds.
/// Only one camera may carry it at a time.
#[derive(Clone, Copy, PartialEq, Eq, Structural, Debug)]
pub struct CloudCamera;

/// A handle to a GPU image owned by the external image provider.
#[derive(Clone, Copy, PartialEq, Eq, Structural, Debug)]
pub struct ImageHandle {
    pub id: u64,
}

/// The cloud material: one allocation referencing the four image handles,
/// shared by reference across all six skybox faces.
#[derive(Clone, Copy, PartialEq, Eq, Structural, Debug)]
pub struct CloudsMaterial {
    pub cloud_render_image: ImageHandle,
    pub cloud_atlas_image: ImageHandle,
    pub cloud_worley_image: ImageHandle,
    pub sky_image: ImageHandle,
}

/// The singleton resource holding the four image handles for the external
/// compute dispatch.
#[derive(Clone, Copy, PartialEq, Eq, Structural, Debug)]
pub struct CloudsImage {
    pub cloud_render_image: ImageHandle,
    pub cloud_atlas_image: ImageHandle,
    pub cloud_worley_image: ImageHandle,
    pub sky_image: ImageHandle,
}

/// The per-frame camera snapshot consumed by the raymarch pass: the active
/// camera's world position, its world transform as a matrix (the inverse
/// view matrix), and the inverse of its clip-from-view projection.
#[derive(Clone, Copy, PartialEq, Eq, Structural, Debug)]
pub struct CameraMatrices {
    pub translation: Vec3R,
    pub inverse_camera_view: Mat4R,
    pub inverse_camera_projection: Mat4R,
}

impl CameraMatrices {
    pub open spec fn wf(self) -> bool {
        &&& self.translation.wf()
        &&& self.inverse_camera_view.wf()
        &&& self.inverse_camera_projection.wf()
    }
}

/// The neutral snapshot written at startup: zero translation, identity
/// matrices, so consumers never read uninitialized data before the first
/// sync.
pub open spec fn default_camera_matrices() -> CameraMatrices {
    CameraMatrices {
        translation: Vec3R {
            x: Rat { num: 0, den: 1 },
            y: Rat { num: 0, den: 1 },
            z: Rat { num: 0, den: 1 },
        },
        inverse_camera_view: mat4_identity(),
        inverse_camera_projection: mat4_identity(),
    }
}

/// Build the neutral camera snapshot.
pub fn default_camera_matrices_exec() -> (m: CameraMatrices)
    ensures
        m == default_camera_matrices(),
        m.wf(),
{
    let zero = Rat { num: 0, den: 1 };
    CameraMatrices {
        translation: Vec3R { x: zero, y: zero, z: zero },
        inverse_camera_view: mat4_identity_exec(),
        inverse_camera_projection: mat4_identity_exec(),
    }
}

/// The configuration errors of the cloud pipeline. All of them are
/// scene-authoring mistakes: none is transient, and no update retries.
#[derive(Clone, Copy, PartialEq, Eq, Structural, Debug)]
pub enum CloudsError {
    /// No entity carries the cloud-camera marker.
    NoActiveCamera,
    /// More than one entity carries the cloud-camera marker.
    MultipleActiveCameras,
    /// The active camera's projection is not perspective.
    UnsupportedProjection,
}

/// Bootstrap: runs once at startup.
///
/// Takes the four image handles the external provider allocated, creates
/// one material referencing all four, spawns the six-plane skybox sharing
/// that single material, inserts the image singleton, and resets the camera
/// matrices to their neutral default so consumers never read uninitialized
/// data before the first sync.
pub fn clouds_setup(
    world: &mut World,
    cloud_render_image: ImageHandle,
    cloud_atlas_image: ImageHandle,
    cloud_worley_image: ImageHandle,
    sky_image: ImageHandle,
)
    requires
        old(world).wf(),
        old(world).planes@.len() == 0,
        old(world).next_id + 6 <= u64::MAX,
    ensures
        final(world).wf(),
        final(world).cameras@ == old(world).cameras@,
        final(world).planes@.len() == 6,
        final(world).materials@ == old(world).materials@.push(
            CloudsMaterial { cloud_render_image, cloud_atlas_image, cloud_worley_image, sky_image },
        ),
        forall|k: int|
            0 <= k < 6 ==> {
                let p = #[trigger] final(world).planes@[k];
                &&& p.material == old(world).materials@.len()
                &&& p.mesh == old(world).meshes@.len()
                &&& p.points_inward()
                &&& p.transform.translation == p.orig_translation
                &&& p.transform.rotation == p.orig_rotation
                &&& p.transform.scale == (Rat { num: 1, den: 1 })
            },
        final(world).planes@[0].orig_translation.is_ints(-1, 0, 0),
        final(world).planes@[1].orig_translation.is_ints(0, -1, 0),
        final(world).planes@[2].orig_translation.is_ints(0, 0, -1),
        final(world).planes@[3].orig_translation.is_ints(1, 0, 0),
        final(world).planes@[4].orig_translation.is_ints(0, 1, 0),
        final(world).planes@[5].orig_translation.is_ints(0, 0, 1),
        final(world).images == Some(
            CloudsImage { cloud_render_image, cloud_atlas_image, cloud_worley_image, sky_image },
        ),
        final(world).camera_matrices == default_camera_matrices(),
        final(world).meshes@ == old(world).meshes@.push(
            crate::entities::PlaneMesh { half_size: Rat { num: 1, den: 1 } },
        ),
        final(world).next_id == old(world).next_id + 6,
{
    let material_index = world.materials.len();
    world.materials.push(
        CloudsMaterial { cloud_render_image, cloud_atlas_image, cloud_worley_image, sky_image },
    );
    crate::skybox::init_skybox_mesh(
        world,
        crate::skybox::SkyboxMaterials::from_one_material(material_index),
    );
    world.images = Some(
        CloudsImage { cloud_render_image, cloud_atlas_image, cloud_worley_image, sky_image },
    );
    world.camera_matrices = default_camera_matrices_exec();
}

/// Camera matrix sync: runs every frame, after transform propagation.
///
/// Succeeds exactly when one entity carries the cloud-camera marker and its
/// projection is perspective; then the snapshot holds that camera's world
/// position, its world transform as a matrix, and an exact inverse of its
/// clip-from-view matrix. On a configuration error the snapshot keeps its
/// last valid value and the error says which invariant failed.
pub fn update_camera_matrices(world: &mut World) -> (r: Result<(), CloudsError>)
    requires
        old(world).wf(),
    ensures
        final(world).wf(),
        final(world).cameras@ == old(world).cameras@,
        final(world).planes@ == old(world).planes@,
        final(world).meshes@ == old(world).meshes@,
        final(world).materials@ == old(world).materials@,
        final(world).images == old(world).images,
        final(world).next_id == old(world).next_id,
        match r {
            Ok(()) => {
                &&& crate::entities::active_count(old(world).cameras@) == 1
                &&& forall|i: int|
                    0 <= i < old(world).cameras@.len() && (
                    #[trigger] old(world).cameras@[i]).is_active() ==> {
                        let cam = old(world).cameras@[i];
                        &&& cam.projection is Perspective
                        &&& final(world).camera_matrices.translation == cam.translation
                        &&& final(world).camera_matrices.inverse_camera_view == world_matrix(
                            cam.rotation,
                            cam.translation,
                        )
                        &&& is_inverse_of(
                            final(world).camera_matrices.inverse_camera_projection,
                            clip_from_view(cam.projection->Perspective_0),
                        )
                    }
            },
            Err(e) => {
                &&& final(world).camera_matrices == old(world).camera_matrices
                &&& (e == CloudsError::NoActiveCamera <==> crate::entities::active_count(
                    old(world).cameras@,
                ) == 0)
                &&& (e == CloudsError::MultipleActiveCameras <==> crate::entities::active_count(
                    old(world).cameras@,
                ) >= 2)
                &&& (e == CloudsError::UnsupportedProjection <==> crate::entities::active_count(
                    old(world).cameras@,
                ) == 1 && forall|i: int|
                    0 <= i < old(world).cameras@.len() && (
                    #[trigger] old(world).cameras@[i]).is_active() ==> !(old(
                        world,
                    ).cameras@[i].projection is Perspective))
            },
        },
{
    let found = find_active_camera(&world.cameras);
    let ix = match found {
        Ok(ix) => ix,
        Err(e) => {
            return Err(e);
        },
    };
    let cam = world.cameras[ix];
    let pc = match cam.projection {
        Projection::Perspective(pc) => pc,
        Projection::Orthographic => {
            proof {
                assert forall|i: int|
                    0 <= i < world.cameras@.len() && (#[trigger] world.cameras@[i]).is_active()
                        implies !(world.cameras@[i].projection is Perspective) by {
                    lemma_unique_active(world.cameras@, i, ix as int);
                }
            }
            return Err(CloudsError::UnsupportedProjection);
        },
    };
    let inverse_projection = invert_perspective(&pc);
    let inverse_view = world_matrix_exec(&cam.rotation, &cam.translation);
    world.camera_matrices = CameraMatrices {
        translation: cam.translation,
        inverse_camera_view: inverse_view,
        inverse_camera_projection: inverse_projection,
    };
    proof {
        assert forall|i: int|
            0 <= i < old(world).cameras@.len() && (#[trigger] old(world).cameras@[i]).is_active()
                implies {
                let c = old(world).cameras@[i];
                &&& c.projection is Perspective
                &&& world.camera_matrices.translation == c.translation
                &&& world.camera_matrices.inverse_camera_view == world_matrix(
                    c.rotation,
                    c.translation,
                )
                &&& is_inverse_of(
                    world.camera_matrices.inverse_camera_projection,
                    clip_from_view(c.projection->Perspective_0),
                )
            } by {
            lemma_unique_active(old(world).cameras@, i, ix as int);
        }
    }
    Ok(())
}

/// A label for a system in the host's schedules.
#[derive(Clone, Copy, PartialEq, Eq, Structural, Debug)]
pub enum SystemLabel {
    /// The host engine's transform-propagation stage.
    TransformPropagate,
    /// `clouds_setup`, registered to run once at startup.
    CloudsSetup,
    /// `update_skybox_transform`, registered to run every frame.
    UpdateSkyboxTransform,
    /// `update_camera_matrices`, registered to run every frame.
    UpdateCameraMatrices,
}

/// The host application's schedules, as ordered system lists: the startup
/// schedule runs once, the post-update schedule every frame in list order.
pub struct App {
    pub startup: Vec<SystemLabel>,
    pub post_update: Vec<SystemLabel>,
}

/// A plugin for rendering clouds.
///
/// Registration wires the pipeline into the host's schedules: bootstrap at
/// startup, and both per-frame systems appended to the post-update
/// schedule, so they run strictly after any transform propagation the host
/// placed there. No order is imposed between the two per-frame systems:
/// neither reads the other's output.
pub struct CloudsPlugin;

impl CloudsPlugin {
    pub fn build(&self, app: &mut App)
        ensures
            final(app).startup@ == old(app).startup@.push(SystemLabel::CloudsSetup),
            final(app).post_update@ == old(app).post_update@.push(
                SystemLabel::UpdateSkyboxTransform,
            ).push(SystemLabel::UpdateCameraMatrices),
            forall|i: int|
                0 <= i < final(app).post_update@.len() && final(app).post_update@[i]
                    == SystemLabel::TransformPropagate ==> i < old(app).post_update@.len(),
    {
        app.startup.push(SystemLabel::CloudsSetup);
        app.post_update.push(SystemLabel::UpdateSkyboxTransform);
        app.post_update.push(SystemLabel::UpdateCameraMatrices);
    }
}

} // verus!
