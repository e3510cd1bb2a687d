use magnetar::ring::{Ring, RingUpdate, State, REZ_DURATION, REZ_START_SCALE};
use magnetar::tween::{Ease, Tweener};

#[test]
fn quad_in_midpoint_and_end() {
    let mut t = Tweener::quad_in(0, 500, 250);
    assert!(!t.is_finished());
    // halfway in time is a quarter of the way in value for ease-in
    let v = t.move_by(125);
    assert_eq!(v, 125);
    assert!(!t.is_finished());
    let v = t.move_by(125);
    assert_eq!(v, 500);
    assert!(t.is_finished());
    // once finished, the value stays pinned to the end
    let v = t.move_by(1000);
    assert_eq!(v, 500);
}

#[test]
fn quad_out_midpoint() {
    let mut t = Tweener::quad_out(20, 1000, 250);
    // halfway in time is three quarters of the way in value for ease-out
    let v = t.move_by(125);
    assert_eq!(v, 20 + (980 * 750) / 1000);
    let v = t.move_by(125);
    assert_eq!(v, 1000);
    assert!(t.is_finished());
}

#[test]
fn quad_in_descending_endpoints() {
    let mut t = Tweener::quad_in(0, -500, 250);
    let v = t.move_by(125);
    assert_eq!(v, -125);
    let v = t.move_by(125);
    assert_eq!(v, -500);
}

#[test]
fn tweener_overshoot_clamps() {
    let mut t = Tweener::quad_in(0, 500, 250);
    let v = t.move_by(10_000);
    assert_eq!(v, 500);
    assert!(t.is_finished());
}

#[test]
fn ring_materializes_height_then_scale_then_idle() {
    let mut r = Ring::new_from_point(500, 1000);
    assert!(matches!(r.state, State::Rezzing { .. }));
    let u1 = r.logic_step(250);
    assert!(matches!(u1, RingUpdate::Translate { y: 500 }));
    assert!(!r.idle());
    let u2 = r.logic_step(250);
    assert!(matches!(u2, RingUpdate::Scale { factor: 1000 }));
    assert!(!r.idle());
    let u3 = r.logic_step(250);
    assert!(matches!(u3, RingUpdate::Unchanged));
    assert!(r.idle());
    // advancing an idle ring is a no-op
    let u4 = r.logic_step(250);
    assert!(matches!(u4, RingUpdate::Unchanged));
    assert!(r.idle());
}

#[test]
fn ring_small_steps_follow_the_curves() {
    let mut r = Ring::new_from_point(500, 1000);
    // 0.125 into the height window: ease-in gives a quarter of the height
    let u = r.logic_step(125);
    assert!(matches!(u, RingUpdate::Translate { y: 125 }));
    let u = r.logic_step(125);
    assert!(matches!(u, RingUpdate::Translate { y: 500 }));
    // 0.125 into the scale window: ease-out gives three quarters of the way
    let expected = REZ_START_SCALE + ((1000 - REZ_START_SCALE) * 750) / 1000;
    let u = r.logic_step(125);
    match u {
        RingUpdate::Scale { factor } => assert_eq!(factor, expected),
        _ => panic!("expected a scale update"),
    }
}

#[test]
fn rez_constants() {
    assert_eq!(REZ_DURATION, 250);
    assert_eq!(REZ_START_SCALE, 20);
    let t = Tweener::quad_in(0, 1, 1);
    assert!(matches!(t.ease, Ease::QuadIn));
}
