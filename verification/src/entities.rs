//! The entity store: cameras, skybox planes, and the shared singletons.
//!
//! The host engine's entity registry is modelled as typed component tables
//! keyed by stable numeric identifiers. Cameras and skybox planes live in
//! separate tables; the camera-matrix snapshot, the cloud image handles, the
//! mesh registry and the material registry are fields of the same store.

use crate::projection::Projection;
use crate::rat::Rat;
use crate::rot3::Rot3;
use crate::vec3::Vec3R;
use crate::{CameraMatrices, CloudCamera, CloudsError, CloudsImage, CloudsMaterial};
use vstd::prelude::*;

verus! {

/// A world transform: translation, orientation and a uniform scale.
#[derive(Clone, Copy, PartialEq, Eq, Structural, Debug)]
pub struct Transform3 {
    pub translation: Vec3R,
    pub rotation: Rot3,
    pub scale: Rat,
}

impl Transform3 {
    pub open spec fn wf(self) -> bool {
        self.translation.wf() && self.rotation.wf() && self.scale.wf()
    }
}

/// A camera entity: its world pose after transform propagation, its
/// projection, and optionally the cloud-camera marker.
#[derive(Clone, Copy, PartialEq, Eq, Structural, Debug)]
pub struct CameraEntity {
    pub id: u64,
    pub cloud_camera: Option<CloudCamera>,
    pub translation: Vec3R,
    pub rotation: Rot3,
    pub projection: Projection,
}

impl CameraEntity {
    pub open spec fn wf(self) -> bool {
        &&& self.translation.wf()
        &&& self.translation.bounded()
        &&& self.rotation.wf()
        &&& self.projection.wf()
    }

    /// The entity carries the cloud-camera marker.
    pub open spec fn is_active(self) -> bool {
        self.cloud_camera is Some
    }
}

/// A skybox plane entity: the face's original unit-cube offset and fixed
/// inward-facing orientation, set once at creation, plus the world transform
/// the per-frame update overwrites.
#[derive(Clone, Copy, PartialEq, Eq, Structural, Debug)]
pub struct SkyboxPlane {
    pub id: u64,
    pub orig_translation: Vec3R,
    pub orig_rotation: Rot3,
    pub mesh: usize,
    pub material: usize,
    pub transform: Transform3,
}

impl SkyboxPlane {
    pub open spec fn wf(self) -> bool {
        &&& self.orig_translation.is_unit_offset()
        &&& self.orig_rotation.wf()
        &&& self.transform.wf()
    }

    /// The plane faces the cube's interior: its world-space facing direction
    /// (the rotated local up axis) is the exact opposite of its unit-cube
    /// offset.
    pub open spec fn points_inward(self) -> bool {
        &&& self.orig_translation.x@.is_int(-self.orig_rotation.forward_x())
        &&& self.orig_translation.y@.is_int(-self.orig_rotation.forward_y())
        &&& self.orig_translation.z@.is_int(-self.orig_rotation.forward_z())
    }
}

/// A unit plane mesh provided by the mesh registry, reused by reference
/// across all six skybox faces. `half_size` is half the edge length.
#[derive(Clone, Copy, PartialEq, Eq, Structural, Debug)]
pub struct PlaneMesh {
    pub half_size: Rat,
}

/// The entity store and shared state the cloud pipeline works on.
pub struct World {
    /// The next identifier to hand out; every stored entity's id is below it.
    pub next_id: u64,
    pub cameras: Vec<CameraEntity>,
    pub planes: Vec<SkyboxPlane>,
    pub meshes: Vec<PlaneMesh>,
    pub materials: Vec<CloudsMaterial>,
    pub images: Option<CloudsImage>,
    pub camera_matrices: CameraMatrices,
}

impl World {
    pub open spec fn wf(self) -> bool {
        &&& forall|i: int|
            0 <= i < self.cameras@.len() ==> (#[trigger] self.cameras@[i]).wf()
                && self.cameras@[i].id < self.next_id
        &&& forall|i: int|
            0 <= i < self.planes@.len() ==> (#[trigger] self.planes@[i]).wf()
                && self.planes@[i].id < self.next_id && self.planes@[i].mesh < self.meshes@.len()
                && self.planes@[i].material < self.materials@.len()
        &&& forall|i: int, j: int|
            0 <= i < j < self.cameras@.len() ==> (#[trigger] self.cameras@[i].id) != (
            #[trigger] self.cameras@[j].id)
        &&& forall|i: int, j: int|
            0 <= i < j < self.planes@.len() ==> (#[trigger] self.planes@[i].id) != (
            #[trigger] self.planes@[j].id)
        &&& forall|i: int, j: int|
            0 <= i < self.cameras@.len() && 0 <= j < self.planes@.len() ==> (
            #[trigger] self.cameras@[i].id) != (#[trigger] self.planes@[j].id)
        &&& self.camera_matrices.wf()
    }

    /// An empty store with neutral camera matrices.
    pub fn new() -> (w: World)
        ensures
            w.wf(),
            w.next_id == 0,
            w.cameras@.len() == 0,
            w.planes@.len() == 0,
            w.meshes@.len() == 0,
            w.materials@.len() == 0,
            w.images is None,
            w.camera_matrices == crate::default_camera_matrices(),
    {
        World {
            next_id: 0,
            cameras: Vec::new(),
            planes: Vec::new(),
            meshes: Vec::new(),
            materials: Vec::new(),
            images: None,
            camera_matrices: crate::default_camera_matrices_exec(),
        }
    }

    /// Add a camera entity and return its identifier.
    pub fn spawn_camera(
        &mut self,
        marker: Option<CloudCamera>,
        translation: Vec3R,
        rotation: Rot3,
        projection: Projection,
    ) -> (id: u64)
        requires
            old(self).wf(),
            old(self).next_id < u64::MAX,
            translation.wf(),
            translation.bounded(),
            rotation.wf(),
            projection.wf(),
        ensures
            final(self).wf(),
            id == old(self).next_id,
            final(self).next_id == old(self).next_id + 1,
            final(self).cameras@ == old(self).cameras@.push(
                CameraEntity { id, cloud_camera: marker, translation, rotation, projection },
            ),
            active_count(final(self).cameras@) == active_count(old(self).cameras@) + if marker
                is Some {
                1int
            } else {
                0int
            },
            final(self).planes@ == old(self).planes@,
            final(self).meshes@ == old(self).meshes@,
            final(self).materials@ == old(self).materials@,
            final(self).images == old(self).images,
            final(self).camera_matrices == old(self).camera_matrices,
    {
        let id = self.next_id;
        self.next_id = self.next_id + 1;
        let entity = CameraEntity { id, cloud_camera: marker, translation, rotation, projection };
        proof {
            lemma_active_count_push(self.cameras@, entity);
        }
        self.cameras.push(entity);
        id
    }

    /// Add a skybox plane entity and return its identifier. The world
    /// transform starts at the face's unit-cube pose: translation equal to
    /// the original offset, unit scale, the original orientation.
    pub fn spawn_plane(
        &mut self,
        orig_translation: Vec3R,
        orig_rotation: Rot3,
        mesh: usize,
        material: usize,
    ) -> (id: u64)
        requires
            old(self).wf(),
            old(self).next_id < u64::MAX,
            orig_translation.is_unit_offset(),
            orig_rotation.wf(),
            mesh < old(self).meshes@.len(),
            material < old(self).materials@.len(),
        ensures
            final(self).wf(),
            id == old(self).next_id,
            final(self).next_id == old(self).next_id + 1,
            final(self).planes@ == old(self).planes@.push(
                SkyboxPlane {
                    id,
                    orig_translation,
                    orig_rotation,
                    mesh,
                    material,
                    transform: Transform3 {
                        translation: orig_translation,
                        rotation: orig_rotation,
                        scale: Rat { num: 1, den: 1 },
                    },
                },
            ),
            final(self).cameras@ == old(self).cameras@,
            final(self).meshes@ == old(self).meshes@,
            final(self).materials@ == old(self).materials@,
            final(self).images == old(self).images,
            final(self).camera_matrices == old(self).camera_matrices,
    {
        let id = self.next_id;
        self.next_id = self.next_id + 1;
        proof {
            assert(orig_translation.wf());
        }
        self.planes.push(
            SkyboxPlane {
                id,
                orig_translation,
                orig_rotation,
                mesh,
                material,
                transform: Transform3 {
                    translation: orig_translation,
                    rotation: orig_rotation,
                    scale: Rat { num: 1, den: 1 },
                },
            },
        );
        id
    }
}

impl World {
    /// Overwrite a camera entity's world pose and projection (as the host's
    /// transform propagation fixes them each frame), keeping its identity
    /// and marker. Returns false, changing nothing, when the index is out
    /// of range or a value is not valid for the store.
    pub fn update_camera_pose(
        &mut self,
        index: usize,
        translation: Vec3R,
        rotation: Rot3,
        projection: Projection,
    ) -> (ok: bool)
        requires
            old(self).wf(),
        ensures
            final(self).wf(),
            final(self).planes@ == old(self).planes@,
            final(self).meshes@ == old(self).meshes@,
            final(self).materials@ == old(self).materials@,
            final(self).images == old(self).images,
            final(self).camera_matrices == old(self).camera_matrices,
            final(self).next_id == old(self).next_id,
            ok <==> index < old(self).cameras@.len() && translation.wf() && translation.bounded()
                && rotation.wf() && projection.wf(),
            ok ==> final(self).cameras@ == old(self).cameras@.update(
                index as int,
                CameraEntity {
                    id: old(self).cameras@[index as int].id,
                    cloud_camera: old(self).cameras@[index as int].cloud_camera,
                    translation,
                    rotation,
                    projection,
                },
            ),
            !ok ==> final(self).cameras@ == old(self).cameras@,
    {
        if index >= self.cameras.len() {
            return false;
        }
        let ok_wf = crate::vec3::vec3_is_wf(&translation);
        let ok_bounded = crate::vec3::vec3_is_bounded(&translation);
        let ok_rot = crate::rot3::rot3_is_wf(&rotation);
        let ok_proj = match projection {
            Projection::Perspective(pc) => crate::projection::perspective_is_wf(&pc),
            Projection::Orthographic => true,
        };
        if !(ok_wf && ok_bounded && ok_rot && ok_proj) {
            return false;
        }
        let old_cam = self.cameras[index];
        self.cameras[index] = CameraEntity {
            id: old_cam.id,
            cloud_camera: old_cam.cloud_camera,
            translation,
            rotation,
            projection,
        };
        true
    }
}

/// How many entities in the table carry the cloud-camera marker.
pub open spec fn active_count(s: Seq<CameraEntity>) -> nat
    decreases s.len(),
{
    if s.len() == 0 {
        0
    } else {
        active_count(s.drop_last()) + if s.last().is_active() {
            1nat
        } else {
            0nat
        }
    }
}

/// Adding one entity adds its contribution to the count.
pub proof fn lemma_active_count_push(s: Seq<CameraEntity>, c: CameraEntity)
    ensures
        active_count(s.push(c)) == active_count(s) + if c.is_active() {
            1int
        } else {
            0int
        },
{
    assert(s.push(c).drop_last() =~= s);
    assert(s.push(c).last() == c);
}

/// Counting one more prefix element adds that element's contribution.
pub proof fn lemma_active_count_take_step(s: Seq<CameraEntity>, i: int)
    requires
        0 <= i < s.len(),
    ensures
        active_count(s.take(i + 1)) == active_count(s.take(i)) + if s[i].is_active() {
            1int
        } else {
            0int
        },
{
    assert(s.take(i + 1).drop_last() =~= s.take(i));
    assert(s.take(i + 1).last() == s[i]);
}

/// A table with an active entry holds at least one active entry.
pub proof fn lemma_active_at_least_one(s: Seq<CameraEntity>, i: int)
    requires
        0 <= i < s.len(),
        s[i].is_active(),
    ensures
        active_count(s) >= 1,
    decreases s.len(),
{
    if i < s.len() - 1 {
        assert(s.drop_last()[i] == s[i]);
        lemma_active_at_least_one(s.drop_last(), i);
    }
}

/// A table with two distinct active entries holds at least two.
pub proof fn lemma_active_two(s: Seq<CameraEntity>, i: int, j: int)
    requires
        0 <= i < j < s.len(),
        s[i].is_active(),
        s[j].is_active(),
    ensures
        active_count(s) >= 2,
    decreases s.len(),
{
    if j == s.len() - 1 {
        lemma_active_at_least_one(s.drop_last(), i);
    } else {
        assert(s.drop_last()[i] == s[i]);
        assert(s.drop_last()[j] == s[j]);
        lemma_active_two(s.drop_last(), i, j);
    }
}

/// With exactly one active entry, any two active indices coincide.
pub proof fn lemma_unique_active(s: Seq<CameraEntity>, i: int, j: int)
    requires
        active_count(s) == 1,
        0 <= i < s.len(),
        0 <= j < s.len(),
        s[i].is_active(),
        s[j].is_active(),
    ensures
        i == j,
{
    if i < j {
        lemma_active_two(s, i, j);
    } else if j < i {
        lemma_active_two(s, j, i);
    }
}

/// Locate the single entity carrying the cloud-camera marker.
///
/// Returns its index when exactly one exists; otherwise reports the
/// configuration error: no active camera, or more than one.
pub fn find_active_camera(cameras: &Vec<CameraEntity>) -> (r: Result<usize, CloudsError>)
    ensures
        match r {
            Ok(ix) => active_count(cameras@) == 1 && ix < cameras@.len()
                && cameras@[ix as int].is_active(),
            Err(e) => {
                &&& (e == CloudsError::NoActiveCamera <==> active_count(cameras@) == 0)
                &&& (e == CloudsError::MultipleActiveCameras <==> active_count(cameras@) >= 2)
                &&& (e == CloudsError::NoActiveCamera || e == CloudsError::MultipleActiveCameras)
            },
        },
{
    let mut i: usize = 0;
    let mut n: usize = 0;
    let mut ix: usize = 0;
    while i < cameras.len()
        invariant
            i <= cameras@.len(),
            n == active_count(cameras@.take(i as int)),
            n <= i,
            n > 0 ==> ix < i && cameras@[ix as int].is_active(),
        decreases cameras@.len() - i,
    {
        proof {
            lemma_active_count_take_step(cameras@, i as int);
        }
        if cameras[i].cloud_camera.is_some() {
            if n == 0 {
                ix = i;
            }
            n = n + 1;
        }
        i = i + 1;
    }
    proof {
        assert(cameras@.take(cameras@.len() as int) =~= cameras@);
    }
    if n == 0 {
        Err(CloudsError::NoActiveCamera)
    } else if n == 1 {
        Ok(ix)
    } else {
        Err(CloudsError::MultipleActiveCameras)
    }
}

} // verus!
