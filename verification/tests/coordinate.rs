use gridava::base::misc::Axes3D;
use gridava::hex::coordinate::{Axial, Transform};

fn axial(q: i32, r: i32) -> Axial {
    Axial { q, r }
}

#[test]
fn cell_distance_values() {
    assert_eq!(axial(0, 0).distance(axial(0, 0)), 0);
    assert_eq!(axial(0, 0).distance(axial(1, 1)), 2);
    assert_eq!(axial(-1, 0).distance(axial(1, 1)), 3);
    assert_eq!(axial(0, 0).distance(axial(2, -1)), 2);
    assert_eq!(axial(3, -7).distance(axial(-2, 4)), 11);
    assert_eq!(axial(0, 0).distance(axial(1, -1)), 1);
    assert_eq!(axial(i32::MIN, 0).distance(axial(-1, 0)), i32::MAX);
}

#[test]
fn cell_distance_is_a_metric_on_samples() {
    let cells = [
        axial(0, 0),
        axial(1, 0),
        axial(0, 1),
        axial(-3, 5),
        axial(7, -2),
        axial(-4, -4),
        axial(12, 9),
    ];
    for a in cells {
        assert_eq!(a.distance(a), 0);
        for b in cells {
            assert_eq!(a.distance(b), b.distance(a));
            assert_eq!(a.distance(b) == 0, a == b);
            for c in cells {
                assert!(a.distance(c) <= a.distance(b) + b.distance(c));
            }
        }
    }
}

#[test]
fn sectors_start_on_the_six_axes() {
    let origin = axial(0, 0);
    let axes = [(1, 0), (0, 1), (-1, 1), (-1, 0), (0, -1), (1, -1)];
    for k in 0..6 {
        let (q, r) = axes[k];
        assert_eq!(origin.sector_towards(axial(q, r)), k);
        assert!(origin.is_axis_aligned(axial(q, r)));
        assert_eq!(origin.sector_towards(axial(3 * q, 3 * r)), k);
    }
    let between = [(2, 1), (-1, 2), (-2, 1), (-2, -1), (1, -2), (2, -1)];
    for k in 0..6 {
        let (q, r) = between[k];
        assert_eq!(origin.sector_towards(axial(q, r)), k);
        assert!(!origin.is_axis_aligned(axial(q, r)));
    }
    assert_eq!(axial(5, 5).sector_towards(axial(5, 6)), 1);
}

#[test]
fn third_cube_coordinate() {
    assert_eq!(axial(2, 3).compute_s(), -5);
    assert_eq!(axial(i32::MIN, i32::MIN).compute_s(), 4294967296);
}

#[test]
fn rotation_by_steps() {
    let c = axial(2, 1);
    assert_eq!(c.rotate(0), axial(2, 1));
    assert_eq!(c.rotate(1), axial(-1, 3));
    assert_eq!(c.rotate(2), axial(-3, 2));
    assert_eq!(c.rotate(3), axial(-2, -1));
    assert_eq!(c.rotate(4), axial(1, -3));
    assert_eq!(c.rotate(5), axial(3, -2));
    assert_eq!(c.rotate(6), c);
    assert_eq!(c.rotate(-1), c.rotate(5));
    assert_eq!(c.rotate(-7), c.rotate(5));
    assert_eq!(c.rotate(2).rotate(3), c.rotate(5));
}

#[test]
fn reflection_keeps_one_cube_coordinate() {
    let c = axial(2, 1);
    assert_eq!(c.reflect(Axes3D::X), axial(2, -3));
    assert_eq!(c.reflect(Axes3D::Y), axial(-3, 1));
    assert_eq!(c.reflect(Axes3D::Z), axial(1, 2));
    assert_eq!(c.reflect(Axes3D::X).reflect(Axes3D::X), c);
}

#[test]
fn transform_mirrors_then_rotates_then_translates() {
    let t = Transform { translation: axial(10, 20), rotation: 1, mirror: false };
    assert_eq!(axial(2, 1).apply_transform(t), axial(9, 23));
    let m = Transform { translation: axial(10, 20), rotation: 1, mirror: true };
    assert_eq!(axial(2, 1).apply_transform(m), axial(13, 19));
    assert_eq!(axial(2, 1).apply_transform(Transform::identity()), axial(2, 1));
    let back = Transform { translation: axial(0, 0), rotation: -1, mirror: false };
    assert_eq!(axial(-1, 3).apply_transform(back), axial(2, 1));
}

#[test]
fn checked_transform_refuses_what_does_not_fit() {
    let far = Transform { translation: axial(i32::MAX, 0), rotation: 0, mirror: false };
    assert_eq!(axial(1, 0).checked_apply_transform(far), None);
    assert_eq!(axial(0, 0).checked_apply_transform(far), Some(axial(i32::MAX, 0)));
    let turn = Transform { translation: axial(0, 0), rotation: 3, mirror: false };
    assert_eq!(axial(i32::MIN, 0).checked_apply_transform(turn), None);
    assert_eq!(axial(-5, 4).checked_apply_transform(turn), Some(axial(5, -4)));
}

#[test]
fn composition_equals_sequential_application() {
    let transforms = [
        Transform::identity(),
        Transform { translation: axial(3, -2), rotation: 1, mirror: false },
        Transform { translation: axial(-1, 4), rotation: 4, mirror: true },
        Transform { translation: axial(0, 7), rotation: -2, mirror: true },
        Transform { translation: axial(5, 5), rotation: 11, mirror: false },
    ];
    let cells = [axial(0, 0), axial(1, 0), axial(2, -3), axial(-4, 6)];
    for first in transforms {
        for second in transforms {
            let both = first.then(second);
            assert!((0..6).contains(&both.rotation));
            for c in cells {
                assert_eq!(
                    c.apply_transform(both),
                    c.apply_transform(first).apply_transform(second)
                );
            }
        }
    }
}
