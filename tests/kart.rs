use kart_race::geom::{Rotation, Vec3i};
use kart_race::kart::{
    speed_factor, stabilize, Body, Controls, Kart, BASE_MAX_SPEED, BOOST_MAX_SPEED,
    DRIFT_BOOST_DURATION, ITEM_BOOST_DURATION, JUMP_COOLDOWN, JUMP_IMPULSE,
};

fn identity() -> Rotation {
    Rotation { x: 0, y: 0, z: 0, w: 1_000_000_000 }
}

fn kart() -> Kart {
    Kart::new(Vec3i::new(0, 30_000, 0), identity())
}

fn none() -> Controls {
    Controls { up: false, down: false, left: false, right: false, jump: false }
}

#[test]
fn new_kart_is_at_rest() {
    let k = kart();
    assert_eq!(k.speed, 0);
    assert_eq!(k.drift_dir, 0);
    assert!(!k.is_boosting);
    assert_eq!(k.boost_timer, 0);
    assert_eq!(k.last_safe_pos, Vec3i::new(0, 30_000, 0));
}

#[test]
fn steering_and_speed_from_buttons() {
    let mut k = kart();
    let c = Controls { up: true, left: true, ..none() };
    assert_eq!(k.player_input(c, 16_000), 0);
    assert_eq!(k.steering, 1);
    assert_eq!(k.speed, BASE_MAX_SPEED);
    let c = Controls { down: true, right: true, ..none() };
    k.player_input(c, 16_000);
    assert_eq!(k.steering, -1);
    assert_eq!(k.speed, -BASE_MAX_SPEED);
    let c = Controls { up: true, down: true, left: true, right: true, jump: false };
    k.player_input(c, 16_000);
    assert_eq!(k.steering, 0);
    assert_eq!(k.speed, 0);
}

#[test]
fn boosting_raises_target_speed() {
    let mut k = kart();
    k.is_boosting = true;
    k.boost_timer = 500_000;
    k.player_input(Controls { up: true, ..none() }, 16_000);
    assert_eq!(k.speed, BOOST_MAX_SPEED);
}

#[test]
fn jump_with_steer_starts_drift() {
    let mut k = kart();
    let c = Controls { jump: true, left: true, ..none() };
    assert_eq!(k.player_input(c, 16_000), JUMP_IMPULSE);
    assert_eq!(k.drift_dir, 1);
    assert_eq!(k.jump_cooldown, JUMP_COOLDOWN);
    // Cooldown not over: no second jump.
    assert_eq!(k.player_input(c, 16_000), 0);
    assert_eq!(k.jump_cooldown, JUMP_COOLDOWN - 16_000);
}

#[test]
fn jump_without_steer_does_not_drift() {
    let mut k = kart();
    assert_eq!(k.player_input(Controls { jump: true, ..none() }, 16_000), JUMP_IMPULSE);
    assert_eq!(k.drift_dir, 0);
}

#[test]
fn short_drift_release_gives_no_boost() {
    let mut k = kart();
    k.drift_dir = -1;
    k.drift_power = 800_000;
    k.player_input(none(), 0);
    assert!(!k.is_boosting);
    assert_eq!(k.boost_timer, 0);
    assert_eq!(k.drift_dir, 0);
    assert_eq!(k.drift_power, 0);
    // Further frames with the button released change nothing.
    for dt in [0u32, 1, 16_000, 4_000_000_000] {
        k.player_input(none(), dt);
        assert!(!k.is_boosting);
    }
}

#[test]
fn long_drift_release_arms_boost() {
    let mut k = kart();
    k.drift_dir = 1;
    k.drift_power = 800_001;
    k.player_input(none(), 16_000);
    assert!(k.is_boosting);
    assert_eq!(k.boost_timer, DRIFT_BOOST_DURATION);
    assert_eq!(k.drift_dir, 0);
    assert_eq!(k.drift_power, 0);
}

#[test]
fn drift_power_accumulates_while_drifting() {
    let mut k = kart();
    k.drift_dir = -1;
    let yaw = k.turn(10_000, &Vec3i::new(20_000, 0, 0));
    assert_eq!(yaw, -38_000);
    assert_eq!(k.drift_power, 10_000);
}

#[test]
fn turn_is_scaled_by_speed() {
    let mut k = kart();
    k.steering = 1;
    assert_eq!(k.turn(16_000, &Vec3i::new(3_000, 4_000, 0)), 22_400);
    assert_eq!(k.turn(16_000, &Vec3i::zero()), 0);
    assert_eq!(k.drift_power, 0);
}

#[test]
fn speed_factor_values() {
    assert_eq!(speed_factor(&Vec3i::new(3_000, 4_000, 0)), 5_000);
    assert_eq!(speed_factor(&Vec3i::new(0, 0, 0)), 0);
    assert_eq!(speed_factor(&Vec3i::new(1, 1, 1)), 1);
    assert_eq!(speed_factor(&Vec3i::new(0, -9_999, 0)), 9_999);
    assert_eq!(speed_factor(&Vec3i::new(0, 0, 10_000)), 10_000);
    assert_eq!(speed_factor(&Vec3i::new(i64::MIN, i64::MAX, i64::MIN)), 10_000);
}

#[test]
fn drive_pushes_toward_target_speed() {
    let mut k = kart();
    k.speed = BASE_MAX_SPEED;
    let imp = k.drive(16_000, &Vec3i::new(0, 0, -10_000), &Vec3i::new(0, 0, -1_000_000));
    assert_eq!(imp, 2_016_000);
    // No requested speed: no controller impulse.
    k.speed = 0;
    assert_eq!(k.drive(16_000, &Vec3i::new(0, 0, -10_000), &Vec3i::new(0, 0, -1_000_000)), 0);
}

#[test]
fn drive_brakes_when_too_fast() {
    let mut k = kart();
    k.speed = BASE_MAX_SPEED;
    let imp = k.drive(10_000, &Vec3i::new(48_000, 0, 0), &Vec3i::new(1_000_000, 0, 0));
    assert_eq!(imp, -450_000);
}

#[test]
fn boost_adds_impulse_and_counts_down() {
    let mut k = kart();
    k.speed = BASE_MAX_SPEED;
    k.is_boosting = true;
    k.boost_timer = 1_000_000;
    let imp = k.drive(16_000, &Vec3i::new(0, 0, -10_000), &Vec3i::new(0, 0, -1_000_000));
    assert_eq!(imp, 2_816_000);
    assert_eq!(k.boost_timer, 984_000);
    assert!(k.is_boosting);
}

#[test]
fn boost_flag_clears_when_timer_runs_out() {
    let mut k = kart();
    k.is_boosting = true;
    k.boost_timer = 10_000;
    let imp = k.drive(16_000, &Vec3i::zero(), &Vec3i::new(1_000_000, 0, 0));
    assert_eq!(imp, 800_000);
    assert_eq!(k.boost_timer, 0);
    assert!(!k.is_boosting);
    assert_eq!(k.drive(16_000, &Vec3i::zero(), &Vec3i::new(1_000_000, 0, 0)), 0);
}

#[test]
fn boost_flag_matches_timer_over_frames() {
    let mut k = kart();
    k.arm_item_boost();
    assert_eq!(k.boost_timer, ITEM_BOOST_DURATION);
    for _ in 0..200 {
        assert_eq!(k.is_boosting, k.boost_timer > 0);
        k.player_input(none(), 16_000);
        k.turn(16_000, &Vec3i::zero());
        k.drive(16_000, &Vec3i::zero(), &Vec3i::new(1_000_000, 0, 0));
    }
    assert!(!k.is_boosting);
    assert_eq!(k.boost_timer, 0);
}

#[test]
fn stabilize_keeps_only_yaw() {
    assert_eq!(stabilize(Vec3i::new(5, -7, 9)), Vec3i::new(0, -7, 0));
}

#[test]
fn safe_pose_recorded_on_band() {
    let mut k = kart();
    let r = Rotation { x: 0, y: 707_106_781, z: 0, w: 707_106_781 };
    k.record_safe_pose(Vec3i::new(10, 31_000, -20), r);
    assert_eq!(k.last_safe_pos, Vec3i::new(10, 31_000, -20));
    assert_eq!(k.last_safe_rot, r);
}

#[test]
fn safe_pose_band_edges() {
    let mut k = kart();
    k.record_safe_pose(Vec3i::new(1, 28_001, 1), identity());
    assert_eq!(k.last_safe_pos, Vec3i::new(1, 28_001, 1));
    k.record_safe_pose(Vec3i::new(2, 34_999, 2), identity());
    assert_eq!(k.last_safe_pos, Vec3i::new(2, 34_999, 2));
    k.record_safe_pose(Vec3i::new(3, 35_000, 3), identity());
    k.record_safe_pose(Vec3i::new(4, 28_000, 4), identity());
    assert_eq!(k.last_safe_pos, Vec3i::new(2, 34_999, 2));
}

#[test]
fn safe_pose_kept_off_band() {
    let mut k = kart();
    let r = Rotation { x: 0, y: 707_106_781, z: 0, w: 707_106_781 };
    for i in 0..100i64 {
        k.record_safe_pose(Vec3i::new(i, 28_000 - i * 100, i), r);
        k.record_safe_pose(Vec3i::new(i, 35_000 + i * 100, i), r);
    }
    assert_eq!(k.last_safe_pos, Vec3i::new(0, 30_000, 0));
    assert_eq!(k.last_safe_rot, identity());
}

#[test]
fn reset_button_restores_safe_pose() {
    let mut k = kart();
    let r = Rotation { x: 0, y: 707_106_781, z: 0, w: 707_106_781 };
    k.record_safe_pose(Vec3i::new(10, 31_000, -20), r);
    let body = Body {
        position: Vec3i::new(500, 40_000, 500),
        rotation: identity(),
        linvel: Vec3i::new(1, 2, 3),
        angvel: Vec3i::new(4, 5, 6),
    };
    let out = k.player_reset(body, true);
    assert_eq!(out.position, Vec3i::new(10, 33_000, -20));
    assert_eq!(out.rotation, r);
    assert_eq!(out.linvel, Vec3i::zero());
    assert_eq!(out.angvel, Vec3i::zero());
    assert_eq!(k.last_safe_pos, Vec3i::new(10, 31_000, -20));
    // Recovering again gives the same body.
    assert_eq!(k.player_reset(out, true), out);
}

#[test]
fn fall_triggers_recovery() {
    let k = kart();
    let body = Body {
        position: Vec3i::new(0, 4_999, 0),
        rotation: identity(),
        linvel: Vec3i::new(0, -9_000, 0),
        angvel: Vec3i::zero(),
    };
    let out = k.player_reset(body, false);
    assert_eq!(out.position, Vec3i::new(0, 32_000, 0));
    assert_eq!(out.linvel, Vec3i::zero());
}

#[test]
fn no_recovery_on_track() {
    let k = kart();
    let body = Body {
        position: Vec3i::new(0, 5_000, 0),
        rotation: identity(),
        linvel: Vec3i::new(0, -9_000, 0),
        angvel: Vec3i::new(1, 1, 1),
    };
    assert_eq!(k.player_reset(body, false), body);
}
