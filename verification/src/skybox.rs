//! Skybox geometry: six inward-facing planes enclosing the camera.
//!
//! Construction spawns one plane per cube face, each with a unit-length
//! offset along its axis and a fixed inward-facing orientation composed of
//! two quarter-turn axis rotations. Every frame, the update recenters and
//! rescales the cube around the single active camera: with far-clip
//! distance `F`, each face gets uniform scale `4 F` and world translation
//! `camera + offset * 4 F`, while its orientation is re-asserted unchanged.
//! The margin factor of four keeps the cube strictly outside the camera's
//! far clip plane between frames.

use crate::entities::{
    active_count, find_active_camera, lemma_unique_active, CameraEntity, PlaneMesh, SkyboxPlane,
    Transform3, World,
};
use crate::projection::{PerspectiveClip, Projection};
use crate::rat::{radd, rat_add, rat_mul, rmul, Rat, Ratg, COORD_BOUND};
use crate::rot3::{compose, rot_x, rot_y, rot_z, Rot3};
use crate::vec3::{vec3_ints, Vec3R};
use crate::CloudsError;
use vstd::prelude::*;

verus! {

/// One material reference per skybox face. All six may (and in this
/// pipeline do) refer to the same material allocation.
pub struct SkyboxMaterials<M> {
    pub nx: M,
    pub ny: M,
    pub nz: M,
    pub px: M,
    pub py: M,
    pub pz: M,
}

impl<M: Copy> SkyboxMaterials<M> {
    /// Share one material allocation across all six faces.
    pub fn from_one_material(material: M) -> (s: Self)
        ensures
            s.nx == material,
            s.ny == material,
            s.nz == material,
            s.px == material,
            s.py == material,
            s.pz == material,
    {
        SkyboxMaterials {
            nx: material,
            ny: material,
            nz: material,
            px: material,
            py: material,
            pz: material,
        }
    }
}

/// Spawn the six sides of a cube with front faces facing inwards,
/// representing the sky.
///
/// Each face sits at a unit-length offset along its axis and carries an
/// orientation composed of quarter-turn axis rotations so that its facing
/// direction points at the cube's interior (`points_inward`). All six faces
/// share one unit plane mesh, pushed into the mesh registry here, and
/// reference the materials handed in. World transforms start at the
/// unit-cube pose: translation equal to the offset, unit scale.
pub fn init_skybox_mesh(world: &mut World, standard_materials: SkyboxMaterials<usize>)
    requires
        old(world).wf(),
        old(world).next_id + 6 <= u64::MAX,
        standard_materials.nx < old(world).materials@.len(),
        standard_materials.ny < old(world).materials@.len(),
        standard_materials.nz < old(world).materials@.len(),
        standard_materials.px < old(world).materials@.len(),
        standard_materials.py < old(world).materials@.len(),
        standard_materials.pz < old(world).materials@.len(),
    ensures
        final(world).wf(),
        final(world).cameras@ == old(world).cameras@,
        final(world).materials@ == old(world).materials@,
        final(world).images == old(world).images,
        final(world).camera_matrices == old(world).camera_matrices,
        final(world).meshes@ == old(world).meshes@.push(
            PlaneMesh { half_size: Rat { num: 1, den: 1 } },
        ),
        final(world).next_id == old(world).next_id + 6,
        final(world).planes@.len() == old(world).planes@.len() + 6,
        forall|j: int|
            0 <= j < old(world).planes@.len() ==> final(world).planes@[j] == old(
                world,
            ).planes@[j],
        forall|f: int|
            0 <= f < 6 ==> {
                let p = #[trigger] final(world).planes@[old(world).planes@.len() as int + f];
                &&& p.id == old(world).next_id + f
                &&& p.mesh == old(world).meshes@.len()
                &&& p.points_inward()
                &&& p.transform.translation == p.orig_translation
                &&& p.transform.rotation == p.orig_rotation
                &&& p.transform.scale == (Rat { num: 1, den: 1 })
            },
        final(world).planes@[old(world).planes@.len() as int + 0].orig_translation.is_ints(-1, 0, 0),
        final(world).planes@[old(world).planes@.len() as int + 0].material
            == standard_materials.nx as int,
        final(world).planes@[old(world).planes@.len() as int + 1].orig_translation.is_ints(0, -1, 0),
        final(world).planes@[old(world).planes@.len() as int + 1].material
            == standard_materials.ny as int,
        final(world).planes@[old(world).planes@.len() as int + 1].orig_rotation == (Rot3 {
            m00: 1,
            m01: 0,
            m02: 0,
            m10: 0,
            m11: 1,
            m12: 0,
            m20: 0,
            m21: 0,
            m22: 1,
        }),
        final(world).planes@[old(world).planes@.len() as int + 2].orig_translation.is_ints(0, 0, -1),
        final(world).planes@[old(world).planes@.len() as int + 2].material
            == standard_materials.nz as int,
        final(world).planes@[old(world).planes@.len() as int + 3].orig_translation.is_ints(1, 0, 0),
        final(world).planes@[old(world).planes@.len() as int + 3].material
            == standard_materials.px as int,
        final(world).planes@[old(world).planes@.len() as int + 4].orig_translation.is_ints(0, 1, 0),
        final(world).planes@[old(world).planes@.len() as int + 4].material
            == standard_materials.py as int,
        final(world).planes@[old(world).planes@.len() as int + 5].orig_translation.is_ints(0, 0, 1),
        final(world).planes@[old(world).planes@.len() as int + 5].material
            == standard_materials.pz as int,
{
    let mesh = world.meshes.len();
    world.meshes.push(PlaneMesh { half_size: Rat { num: 1, den: 1 } });

    // negative x
    let rotation_nx = compose(&rot_z(3), &rot_y(1));
    proof {
        assert(rotation_nx.wf());
    }
    world.spawn_plane(vec3_ints(-1, 0, 0), rotation_nx, mesh, standard_materials.nx);

    // negative y
    let rotation_ny = Rot3::identity();
    world.spawn_plane(vec3_ints(0, -1, 0), rotation_ny, mesh, standard_materials.ny);

    // negative z
    let rotation_nz = rot_x(1);
    world.spawn_plane(vec3_ints(0, 0, -1), rotation_nz, mesh, standard_materials.nz);

    // positive x
    let rotation_px = compose(&rot_z(1), &rot_y(3));
    proof {
        assert(rotation_px.wf());
    }
    world.spawn_plane(vec3_ints(1, 0, 0), rotation_px, mesh, standard_materials.px);

    // positive y
    let rotation_py = compose(&rot_z(2), &rot_y(2));
    proof {
        assert(rotation_py.wf());
    }
    world.spawn_plane(vec3_ints(0, 1, 0), rotation_py, mesh, standard_materials.py);

    // positive z
    let rotation_pz = compose(&rot_x(3), &rot_y(2));
    proof {
        assert(rotation_pz.wf());
    }
    world.spawn_plane(vec3_ints(0, 0, 1), rotation_pz, mesh, standard_materials.pz);
}

/// The uniform scale of the skybox for a given projection: four times the
/// far-clip distance.
pub open spec fn skybox_scale(pc: PerspectiveClip) -> Ratg {
    rmul(Ratg { num: 4, den: 1 }, pc.far@)
}

/// One update cycle's effect on a single plane, relative to the active
/// camera `cam` with perspective projection `pc`: identity, original offset
/// and original orientation are untouched; the world transform becomes
/// uniform scale `4 F`, translation `camera + offset * 4 F`, rotation equal
/// to the original orientation.
pub open spec fn plane_updated(
    np: SkyboxPlane,
    op: SkyboxPlane,
    cam: CameraEntity,
    pc: PerspectiveClip,
) -> bool {
    &&& np.id == op.id
    &&& np.orig_translation == op.orig_translation
    &&& np.orig_rotation == op.orig_rotation
    &&& np.mesh == op.mesh
    &&& np.material == op.material
    &&& np.transform.rotation == op.orig_rotation
    &&& np.transform.scale@ == skybox_scale(pc)
    &&& np.transform.translation.x@ == radd(
        cam.translation.x@,
        rmul(op.orig_translation.x@, skybox_scale(pc)),
    )
    &&& np.transform.translation.y@ == radd(
        cam.translation.y@,
        rmul(op.orig_translation.y@, skybox_scale(pc)),
    )
    &&& np.transform.translation.z@ == radd(
        cam.translation.z@,
        rmul(op.orig_translation.z@, skybox_scale(pc)),
    )
}

/// One update cycle's effect on the whole plane table.
pub open spec fn planes_updated(
    new: Seq<SkyboxPlane>,
    old_planes: Seq<SkyboxPlane>,
    cam: CameraEntity,
    pc: PerspectiveClip,
) -> bool {
    &&& new.len() == old_planes.len()
    &&& forall|k: int|
        0 <= k < new.len() ==> plane_updated(#[trigger] new[k], old_planes[k], cam, pc)
}

/// One world coordinate of an updated face: `c + o * scale`, where `o` is a
/// unit-cube offset component and `scale` the skybox scale.
fn face_coord(c: Rat, o: Rat, scale: Rat) -> (r: Rat)
    requires
        c.wf(),
        c.bounded(),
        o.den == 1,
        -1 <= o.num <= 1,
        scale.wf(),
        -4 * COORD_BOUND <= scale.num <= 4 * COORD_BOUND,
        scale.den <= COORD_BOUND,
    ensures
        r.wf(),
        r@ == radd(c@, rmul(o@, scale@)),
{
    proof {
        assert(-4 * COORD_BOUND <= o.num * scale.num <= 4 * COORD_BOUND) by (nonlinear_arith)
            requires
                -1 <= o.num <= 1,
                -4 * COORD_BOUND <= scale.num <= 4 * COORD_BOUND,
                COORD_BOUND == 0x4000_0000,
        ;
        assert(o.den * scale.den == scale.den && o.den * scale.den <= i64::MAX)
            by (nonlinear_arith)
            requires
                o.den == 1,
                0 < scale.den <= COORD_BOUND,
                COORD_BOUND == 0x4000_0000,
        ;
    }
    let os = rat_mul(o, scale);
    proof {
        assert(i64::MIN <= c.num * os.den <= i64::MAX && i64::MIN <= os.num * c.den <= i64::MAX
            && i64::MIN <= c.num * os.den + os.num * c.den <= i64::MAX && c.den * os.den
            <= i64::MAX) by (nonlinear_arith)
            requires
                -COORD_BOUND <= c.num <= COORD_BOUND,
                0 < c.den <= COORD_BOUND,
                -4 * COORD_BOUND <= os.num <= 4 * COORD_BOUND,
                0 < os.den <= COORD_BOUND,
                COORD_BOUND == 0x4000_0000,
        ;
    }
    rat_add(c, os)
}

/// Recenter and rescale the six skybox planes around the single active
/// camera.
///
/// Succeeds exactly when one entity carries the cloud-camera marker and its
/// projection is perspective; then every plane's world transform is
/// overwritten as `plane_updated` states, and nothing else in the store
/// changes. On a configuration error the store is left untouched and the
/// error says which invariant failed.
pub fn update_skybox_transform(world: &mut World) -> (r: Result<(), CloudsError>)
    requires
        old(world).wf(),
    ensures
        final(world).wf(),
        final(world).cameras@ == old(world).cameras@,
        final(world).meshes@ == old(world).meshes@,
        final(world).materials@ == old(world).materials@,
        final(world).images == old(world).images,
        final(world).camera_matrices == old(world).camera_matrices,
        final(world).next_id == old(world).next_id,
        final(world).planes@.len() == old(world).planes@.len(),
        match r {
            Ok(()) => {
                &&& active_count(old(world).cameras@) == 1
                &&& forall|i: int|
                    0 <= i < old(world).cameras@.len() && (
                    #[trigger] old(world).cameras@[i]).is_active() ==> {
                        &&& old(world).cameras@[i].projection is Perspective
                        &&& planes_updated(
                            final(world).planes@,
                            old(world).planes@,
                            old(world).cameras@[i],
                            old(world).cameras@[i].projection->Perspective_0,
                        )
                    }
            },
            Err(e) => {
                &&& final(world).planes@ == old(world).planes@
                &&& (e == CloudsError::NoActiveCamera <==> active_count(old(world).cameras@)
                    == 0)
                &&& (e == CloudsError::MultipleActiveCameras <==> active_count(
                    old(world).cameras@,
                ) >= 2)
                &&& (e == CloudsError::UnsupportedProjection <==> active_count(
                    old(world).cameras@,
                ) == 1 && forall|i: int|
                    0 <= i < old(world).cameras@.len() && (
                    #[trigger] old(world).cameras@[i]).is_active() ==> !(old(
                        world,
                    ).cameras@[i].projection is Perspective))
            },
        },
{
    let found = find_active_camera(&world.cameras);
    let ix = match found {
        Ok(ix) => ix,
        Err(e) => {
            return Err(e);
        },
    };
    let cam = world.cameras[ix];
    let pc = match cam.projection {
        Projection::Perspective(pc) => pc,
        Projection::Orthographic => {
            proof {
                assert forall|i: int|
                    0 <= i < world.cameras@.len() && (#[trigger] world.cameras@[i]).is_active()
                        implies !(world.cameras@[i].projection is Perspective) by {
                    lemma_unique_active(world.cameras@, i, ix as int);
                }
            }
            return Err(CloudsError::UnsupportedProjection);
        },
    };
    let four = Rat { num: 4, den: 1 };
    let scale = rat_mul(four, pc.far);
    let ghost old_planes = world.planes@;
    let n = world.planes.len();
    let mut k: usize = 0;
    while k < n
        invariant
            world.wf(),
            n == world.planes@.len(),
            k <= n,
            world.planes@.len() == old_planes.len(),
            world.cameras@ == old(world).cameras@,
            world.meshes@ == old(world).meshes@,
            world.materials@ == old(world).materials@,
            world.images == old(world).images,
            world.camera_matrices == old(world).camera_matrices,
            world.next_id == old(world).next_id,
            old_planes == old(world).planes@,
            ix < world.cameras@.len(),
            cam == world.cameras@[ix as int],
            cam.projection == Projection::Perspective(pc),
            cam.wf(),
            pc.wf(),
            scale.wf(),
            scale@ == skybox_scale(pc),
            -4 * COORD_BOUND <= scale.num <= 4 * COORD_BOUND,
            scale.den <= COORD_BOUND,
            forall|j: int| 0 <= j < k ==> plane_updated(#[trigger] world.planes@[j], old_planes[j], cam, pc),
            forall|j: int| k <= j < n ==> #[trigger] world.planes@[j] == old_planes[j],
        decreases n - k,
    {
        let p = world.planes[k];
        let tx = face_coord(cam.translation.x, p.orig_translation.x, scale);
        let ty = face_coord(cam.translation.y, p.orig_translation.y, scale);
        let tz = face_coord(cam.translation.z, p.orig_translation.z, scale);
        let np = SkyboxPlane {
            id: p.id,
            orig_translation: p.orig_translation,
            orig_rotation: p.orig_rotation,
            mesh: p.mesh,
            material: p.material,
            transform: Transform3 {
                translation: Vec3R { x: tx, y: ty, z: tz },
                rotation: p.orig_rotation,
                scale,
            },
        };
        world.planes[k] = np;
        k = k + 1;
    }
    proof {
        assert forall|i: int|
            0 <= i < old(world).cameras@.len() && (#[trigger] old(world).cameras@[i]).is_active()
                implies {
                &&& old(world).cameras@[i].projection is Perspective
                &&& planes_updated(
                    world.planes@,
                    old(world).planes@,
                    old(world).cameras@[i],
                    old(world).cameras@[i].projection->Perspective_0,
                )
            } by {
            lemma_unique_active(old(world).cameras@, i, ix as int);
        }
    }
    Ok(())
}

/// Identity, original offset and original orientation of every plane are
/// invariant across any number of update cycles, whatever camera poses and
/// far-clip distances the cycles saw; in particular the number of planes
/// never changes after bootstrap.
pub proof fn lemma_update_cycles_preserve_identity(
    states: Seq<Seq<SkyboxPlane>>,
    cams: Seq<CameraEntity>,
    pcs: Seq<PerspectiveClip>,
)
    requires
        states.len() >= 1,
        cams.len() == states.len() - 1,
        pcs.len() == states.len() - 1,
        forall|i: int|
            0 <= i < cams.len() ==> planes_updated(states[i + 1], states[i], #[trigger] cams[i], pcs[i]),
    ensures
        states.last().len() == states[0].len(),
        forall|k: int|
            0 <= k < states[0].len() ==> {
                &&& (#[trigger] states.last()[k]).id == states[0][k].id
                &&& states.last()[k].orig_translation == states[0][k].orig_translation
                &&& states.last()[k].orig_rotation == states[0][k].orig_rotation
                &&& states.last()[k].mesh == states[0][k].mesh
                &&& states.last()[k].material == states[0][k].material
            },
    decreases states.len(),
{
    if states.len() > 1 {
        let n = states.len() as int;
        let sub = states.drop_last();
        assert forall|i: int|
            0 <= i < cams.drop_last().len() implies planes_updated(
            sub[i + 1],
            sub[i],
            #[trigger] cams.drop_last()[i],
            pcs.drop_last()[i],
        ) by {
            assert(sub[i + 1] == states[i + 1]);
            assert(sub[i] == states[i]);
            assert(cams.drop_last()[i] == cams[i]);
            assert(pcs.drop_last()[i] == pcs[i]);
            assert(planes_updated(states[i + 1], states[i], cams[i], pcs[i]));
        }
        lemma_update_cycles_preserve_identity(sub, cams.drop_last(), pcs.drop_last());
        assert(planes_updated(states[n - 2 + 1], states[n - 2], cams[n - 2], pcs[n - 2]));
        assert(sub.last() == states[n - 2]);
        assert(states.last() == states[n - 1]);
    }
}

} // verus!
