use clouds_core::mat4::world_matrix_exec;
use clouds_core::projection::{clip_from_view_exec, invert_perspective, PerspectiveClip};
use clouds_core::rat::{rat_add, rat_inv, rat_mul, rat_neg, Rat};
use clouds_core::rot3::{compose, rot3_is_wf, rot_x, rot_y, rot_z, Rot3};
use clouds_core::skybox::SkyboxMaterials;
use clouds_core::vec3::vec3_ints;

fn r(num: i64, den: i64) -> Rat {
    Rat { num, den }
}

#[test]
fn rational_arithmetic_is_exact() {
    assert_eq!(rat_mul(r(2, 3), r(5, 7)), r(10, 21));
    assert_eq!(rat_add(r(1, 2), r(1, 3)), r(5, 6));
    assert_eq!(rat_neg(r(4, 9)), r(-4, 9));
    assert_eq!(rat_inv(r(3, 4)), r(4, 3));
    // inverting a negative keeps the denominator positive
    assert_eq!(rat_inv(r(-3, 4)), r(-4, 3));
}

#[test]
fn perspective_inverse_has_exact_entries() {
    let p = PerspectiveClip {
        a: r(2, 1),
        b: r(3, 2),
        c: r(5, 4),
        d: r(7, 3),
        far: r(100, 1),
    };
    let inv = invert_perspective(&p);
    assert_eq!(inv.m00, r(1, 2));
    assert_eq!(inv.m11, r(2, 3));
    assert_eq!(inv.m22, r(0, 1));
    assert_eq!(inv.m23, r(-1, 1));
    assert_eq!(inv.m32, r(3, 7));
    // c / d = (5/4) * (3/7)
    assert_eq!(inv.m33, r(15, 28));
    assert_eq!(inv.m01, r(0, 1));
    assert_eq!(inv.m30, r(0, 1));
}

#[test]
fn perspective_inverse_times_projection_is_identity() {
    let p = PerspectiveClip {
        a: r(2, 1),
        b: r(3, 2),
        c: r(5, 4),
        d: r(7, 3),
        far: r(100, 1),
    };
    let m = clip_from_view_exec(&p);
    let inv = invert_perspective(&p);
    let rows = [
        [inv.m00, inv.m01, inv.m02, inv.m03],
        [inv.m10, inv.m11, inv.m12, inv.m13],
        [inv.m20, inv.m21, inv.m22, inv.m23],
        [inv.m30, inv.m31, inv.m32, inv.m33],
    ];
    let cols = [
        [m.m00, m.m10, m.m20, m.m30],
        [m.m01, m.m11, m.m21, m.m31],
        [m.m02, m.m12, m.m22, m.m32],
        [m.m03, m.m13, m.m23, m.m33],
    ];
    for i in 0..4 {
        for j in 0..4 {
            // exact rational dot product via i128 cross multiplication
            let mut num: i128 = 0;
            let mut den: i128 = 1;
            for k in 0..4 {
                let tn = i128::from(rows[i][k].num) * i128::from(cols[j][k].num);
                let td = i128::from(rows[i][k].den) * i128::from(cols[j][k].den);
                num = num * td + tn * den;
                den *= td;
            }
            let expect: i128 = if i == j { 1 } else { 0 };
            assert_eq!(num, expect * den);
        }
    }
}

#[test]
fn clip_matrix_has_projection_shape() {
    let p = PerspectiveClip {
        a: r(2, 1),
        b: r(3, 2),
        c: r(5, 4),
        d: r(7, 3),
        far: r(100, 1),
    };
    let m = clip_from_view_exec(&p);
    assert_eq!(m.m00, p.a);
    assert_eq!(m.m11, p.b);
    assert_eq!(m.m22, p.c);
    assert_eq!(m.m23, p.d);
    assert_eq!(m.m32, r(-1, 1));
    assert_eq!(m.m01, r(0, 1));
    assert_eq!(m.m33, r(0, 1));
}

#[test]
fn quarter_turns_compose_and_cancel() {
    let id = Rot3::identity();
    assert_eq!(compose(&rot_x(1), &rot_x(3)), id);
    assert_eq!(compose(&rot_y(2), &rot_y(2)), id);
    assert_eq!(compose(&rot_z(1), &rot_z(3)), id);
    // a quarter turn about X maps +Y to +Z: the middle column moves
    let rx = rot_x(1);
    assert_eq!((rx.m01, rx.m11, rx.m21), (0, 0, 1));
}

#[test]
fn rotation_validity_check() {
    assert!(rot3_is_wf(&Rot3::identity()));
    assert!(rot3_is_wf(&compose(&rot_z(3), &rot_y(1))));
    // a reflection (determinant -1) is not a rotation
    let swap = Rot3 {
        m00: 0,
        m01: 1,
        m02: 0,
        m10: 1,
        m11: 0,
        m12: 0,
        m20: 0,
        m21: 0,
        m22: 1,
    };
    assert!(!rot3_is_wf(&swap));
    // a zero row is not a rotation either
    let degenerate = Rot3 {
        m00: 0,
        m01: 0,
        m02: 0,
        m10: 0,
        m11: 1,
        m12: 0,
        m20: 0,
        m21: 0,
        m22: 1,
    };
    assert!(!rot3_is_wf(&degenerate));
}

#[test]
fn world_matrix_embeds_pose() {
    let t = vec3_ints(10, -20, 30);
    let rot = rot_z(1);
    let m = world_matrix_exec(&rot, &t);
    assert_eq!(m.m00, r(0, 1));
    assert_eq!(m.m01, r(-1, 1));
    assert_eq!(m.m10, r(1, 1));
    assert_eq!(m.m03, r(10, 1));
    assert_eq!(m.m13, r(-20, 1));
    assert_eq!(m.m23, r(30, 1));
    assert_eq!(m.m30, r(0, 1));
    assert_eq!(m.m33, r(1, 1));
}

#[test]
fn one_material_six_references() {
    let m = SkyboxMaterials::from_one_material(7usize);
    assert_eq!(m.nx, 7);
    assert_eq!(m.ny, 7);
    assert_eq!(m.nz, 7);
    assert_eq!(m.px, 7);
    assert_eq!(m.py, 7);
    assert_eq!(m.pz, 7);
}
