//! The vehicle controller: input decoding, turning, driving, boosting and
//! fall recovery of one kart.
//!
//! Units: time in microseconds, lengths in millimetres, speeds in millimetres
//! per second, yaw in microradians, impulses in millionths of the engine's unit.
use vstd::prelude::*;
use crate::geom::{Vec3i, Rotation, trunc_div, DIRECTION_UNIT};

verus! {

/// Target speed without boost.
pub const BASE_MAX_SPEED: i64 = 38_000;
/// Target speed while boosting.
pub const BOOST_MAX_SPEED: i64 = 65_000;
/// Upward impulse of a jump.
pub const JUMP_IMPULSE: u64 = 4_500_000;
/// Time before the next jump is allowed.
pub const JUMP_COOLDOWN: u64 = 700_000;
/// Drift time that must be exceeded for a drift to end in a boost.
pub const DRIFT_BOOST_THRESHOLD: u64 = 800_000;
/// Length of a boost earned by drifting.
pub const DRIFT_BOOST_DURATION: u64 = 1_200_000;
/// Length of a boost taken from an item box.
pub const ITEM_BOOST_DURATION: u64 = 2_000_000;
/// Yaw rate while drifting, in milliradians per second.
pub const DRIFT_TURN_RATE: i64 = 3_800;
/// Yaw rate while steering, in milliradians per second.
pub const STEER_TURN_RATE: i64 = 2_800;
/// Linear speed at and above which the kart turns at its full rate.
pub const SPEED_NORMALIZER: u64 = 10_000;
/// `SPEED_NORMALIZER` squared.
pub const SPEED_NORMALIZER_SQ: u128 = 100_000_000;
/// Gain of the speed controller, in tenths per second.
pub const DRIVE_GAIN_TENTHS: i128 = 45;
/// Extra forward impulse per microsecond of boost.
pub const BOOST_ACCEL: i128 = 50;
/// Lowest altitude of the drivable band.
pub const SAFE_BAND_LOW: i64 = 28_001;
/// Highest altitude of the drivable band.
pub const SAFE_BAND_HIGH: i64 = 34_999;
/// Below this altitude the kart has fallen off the track.
pub const FALL_ALTITUDE: i64 = 5_000;
/// Height above the safe position at which a recovered kart reappears.
pub const RESET_LIFT: i64 = 2_000;

/// The logical buttons held during a frame.
#[derive(Clone, Copy, Debug, PartialEq, Eq, Structural)]
pub struct Controls {
    pub up: bool,
    pub down: bool,
    pub left: bool,
    pub right: bool,
    pub jump: bool,
}

/// Pose and velocities of the kart's rigid body.
#[derive(Clone, Copy, Debug, PartialEq, Eq, Structural)]
pub struct Body {
    pub position: Vec3i,
    pub rotation: Rotation,
    pub linvel: Vec3i,
    pub angvel: Vec3i,
}

/// What one frame brings to the kart: the buttons, the elapsed time, the
/// body's pose as the engine left it, and whether an item box was taken.
#[derive(Clone, Copy, Debug, PartialEq, Eq, Structural)]
pub struct FrameInput {
    pub controls: Controls,
    pub dt: u32,
    pub position: Vec3i,
    pub rotation: Rotation,
    pub item_taken: bool,
}

/// Driving state of one kart.
#[derive(Clone, Copy, Debug, PartialEq, Eq, Structural)]
pub struct Kart {
    /// Requested speed along the heading.
    pub speed: i64,
    /// `1` steering left, `-1` steering right, `0` straight.
    pub steering: i8,
    /// Direction of the current drift, `0` when not drifting.
    pub drift_dir: i8,
    /// Time spent in the current drift.
    pub drift_power: u64,
    pub is_boosting: bool,
    pub boost_timer: u64,
    pub jump_cooldown: u64,
    /// Last pose recorded on the drivable band.
    pub last_safe_pos: Vec3i,
    pub last_safe_rot: Rotation,
}

/// `1` when only `pos` is held, `-1` when only `neg` is, `0` otherwise.
pub open spec fn axis(pos: bool, neg: bool) -> i8 {
    if pos && !neg { 1i8 } else if neg && !pos { -1i8 } else { 0i8 }
}

/// `a + b`, held at `u64::MAX`.
pub open spec fn sat_add(a: u64, b: u64) -> u64 {
    if a + b <= u64::MAX { (a + b) as u64 } else { u64::MAX }
}

/// `a - b`, held at zero.
pub open spec fn sat_sub(a: u64, b: u64) -> u64 {
    if a > b { (a - b) as u64 } else { 0 }
}

/// The altitude lies on the drivable band.
pub open spec fn on_safe_band(y: int) -> bool {
    SAFE_BAND_LOW <= y <= SAFE_BAND_HIGH
}

/// The largest `r <= k` with `r * r <= n`.
pub open spec fn isqrt_below(n: int, k: nat) -> nat
    decreases k,
{
    if k == 0 || k * k <= n { k } else { isqrt_below(n, (k - 1) as nat) }
}

/// `min(|v|, SPEED_NORMALIZER)`, with the length rounded down.
pub open spec fn speed_factor_spec(v: Vec3i) -> int {
    if v.norm_sq() >= SPEED_NORMALIZER_SQ {
        SPEED_NORMALIZER as int
    } else {
        isqrt_below(v.norm_sq(), SPEED_NORMALIZER as nat) as int
    }
}

proof fn lemma_isqrt_below(n: int, k: nat, r: nat)
    requires
        r <= k,
        r * r <= n,
        n < (r + 1) * (r + 1),
    ensures
        isqrt_below(n, k) == r,
    decreases k,
{
    if k > r {
        assert(k * k >= (r + 1) * (r + 1)) by (nonlinear_arith)
            requires k >= r + 1;
        lemma_isqrt_below(n, (k - 1) as nat, r);
    }
}

/// `min(|v|, SPEED_NORMALIZER)` in millimetres per second.
pub fn speed_factor(v: &Vec3i) -> (r: u64)
    ensures
        r == speed_factor_spec(*v),
        r <= SPEED_NORMALIZER,
{
    let n = v.length_squared();
    if n >= SPEED_NORMALIZER_SQ {
        return SPEED_NORMALIZER;
    }
    let mut lo: u64 = 0;
    let mut hi: u64 = SPEED_NORMALIZER;
    while hi - lo > 1
        invariant
            n < SPEED_NORMALIZER_SQ,
            lo < hi <= SPEED_NORMALIZER,
            lo * lo <= n,
            n < hi * hi,
        decreases hi - lo,
    {
        let mid: u64 = lo + (hi - lo) / 2;
        assert(mid * mid <= 100_000_000) by (nonlinear_arith)
            requires mid <= 10_000;
        if (mid * mid) as u128 <= n {
            lo = mid;
        } else {
            hi = mid;
        }
    }
    proof {
        lemma_isqrt_below(n as int, SPEED_NORMALIZER as nat, lo as nat);
    }
    lo
}

/// `linvel · forward`, exactly.
fn dot_wide(linvel: &Vec3i, forward: &Vec3i) -> (r: i128)
    requires
        forward.is_direction(),
    ensures
        r == linvel.dot(*forward),
        -0x40_0000_0000_0000_0000_0000 <= r <= 0x40_0000_0000_0000_0000_0000,
{
    proof {
        bound_product(linvel.x as int, forward.x as int);
        bound_product(linvel.y as int, forward.y as int);
        bound_product(linvel.z as int, forward.z as int);
    }
    let a = linvel.x as i128 * forward.x as i128;
    let b = linvel.y as i128 * forward.y as i128;
    let c = linvel.z as i128 * forward.z as i128;
    a + b + c
}

proof fn bound_product(v: int, f: int)
    requires
        -0x8000_0000_0000_0000 <= v <= 0x7fff_ffff_ffff_ffff,
        -1_000_000 <= f <= 1_000_000,
    ensures
        -0x8000_0000_0000_0000 * 1_000_000 <= v * f <= 0x8000_0000_0000_0000 * 1_000_000,
{
    assert(-0x8000_0000_0000_0000 * 1_000_000 <= v * f <= 0x8000_0000_0000_0000 * 1_000_000)
        by (nonlinear_arith)
        requires
            -0x8000_0000_0000_0000 <= v <= 0x7fff_ffff_ffff_ffff,
            -1_000_000 <= f <= 1_000_000;
}

/// Pitch and roll velocities removed: the kart only turns about the vertical axis.
pub fn stabilize(angvel: Vec3i) -> (r: Vec3i)
    ensures
        r == (Vec3i { x: 0, y: angvel.y, z: 0 }),
{
    Vec3i { x: 0, y: angvel.y, z: 0 }
}

impl Kart {
    /// Steering and drift directions are signs; drift power is zero unless
    /// drifting; the boost flag is set exactly while boost time remains; the
    /// safe position leaves room for the recovery lift.
    pub open spec fn wf(&self) -> bool {
        &&& -1 <= self.steering <= 1
        &&& -1 <= self.drift_dir <= 1
        &&& (self.drift_dir == 0 ==> self.drift_power == 0)
        &&& (self.is_boosting <==> self.boost_timer > 0)
        &&& -BOOST_MAX_SPEED <= self.speed <= BOOST_MAX_SPEED
        &&& self.last_safe_pos.y <= i64::MAX - RESET_LIFT
    }

    /// A kart at rest whose safe pose is its starting pose.
    pub fn new(start_pos: Vec3i, start_rot: Rotation) -> (r: Kart)
        requires
            start_pos.y <= i64::MAX - RESET_LIFT,
        ensures
            r.wf(),
            r == (Kart {
                speed: 0,
                steering: 0,
                drift_dir: 0,
                drift_power: 0,
                is_boosting: false,
                boost_timer: 0,
                jump_cooldown: 0,
                last_safe_pos: start_pos,
                last_safe_rot: start_rot,
            }),
    {
        Kart {
            speed: 0,
            steering: 0,
            drift_dir: 0,
            drift_power: 0,
            is_boosting: false,
            boost_timer: 0,
            jump_cooldown: 0,
            last_safe_pos: start_pos,
            last_safe_rot: start_rot,
        }
    }

    /// The kart is drifting.
    pub open spec fn is_drifting(&self) -> bool {
        self.drift_dir != 0
    }

    /// The jump cooldown after `dt` has elapsed.
    pub open spec fn cooled(&self, dt: u32) -> u64 {
        sat_sub(self.jump_cooldown, dt as u64)
    }

    /// A jump happens this frame: the button is held and the cooldown is over.
    pub open spec fn jump_taken(&self, c: Controls, dt: u32) -> bool {
        c.jump && self.cooled(dt) == 0
    }

    /// The drift ends this frame: the jump button is released during a drift.
    pub open spec fn drift_released(&self, c: Controls) -> bool {
        !c.jump && self.drift_dir != 0
    }

    /// A drift ends in a boost.
    pub open spec fn drift_boost_earned(&self, c: Controls) -> bool {
        self.drift_released(c) && self.drift_power > DRIFT_BOOST_THRESHOLD
    }

    /// The state after the input phase of a frame.
    pub open spec fn input_spec(self, c: Controls, dt: u32) -> Kart {
        let steer = axis(c.left, c.right);
        let max_speed = if self.is_boosting { BOOST_MAX_SPEED } else { BASE_MAX_SPEED };
        let jumped = self.jump_taken(c, dt);
        let released = self.drift_released(c);
        let earned = self.drift_boost_earned(c);
        Kart {
            speed: (axis(c.up, c.down) * max_speed) as i64,
            steering: steer,
            jump_cooldown: if jumped { JUMP_COOLDOWN } else { self.cooled(dt) },
            drift_dir: if released { 0 } else if jumped && steer != 0 { steer } else { self.drift_dir },
            drift_power: if released { 0 } else { self.drift_power },
            is_boosting: if earned { true } else { self.is_boosting },
            boost_timer: if earned { DRIFT_BOOST_DURATION } else { self.boost_timer },
            ..self
        }
    }

    /// Input phase of a frame: decodes the buttons into steering and target
    /// speed, starts a jump (and with it a drift) or ends a drift, arming a
    /// boost when the drift lasted long enough. Returns the upward impulse to
    /// apply, zero when no jump starts.
    pub fn player_input(&mut self, controls: Controls, dt: u32) -> (jump_impulse: u64)
        requires
            old(self).wf(),
        ensures
            final(self).wf(),
            *final(self) == old(self).input_spec(controls, dt),
            jump_impulse == (if old(self).jump_taken(controls, dt) { JUMP_IMPULSE } else { 0 }),
    {
        if self.jump_cooldown > dt as u64 {
            self.jump_cooldown = self.jump_cooldown - dt as u64;
        } else {
            self.jump_cooldown = 0;
        }
        let mut steer: i8 = 0;
        if controls.left {
            steer = steer + 1;
        }
        if controls.right {
            steer = steer - 1;
        }
        self.steering = steer;
        let mut acc: i64 = 0;
        if controls.up {
            acc = acc + 1;
        }
        if controls.down {
            acc = acc - 1;
        }
        let max_speed = if self.is_boosting { BOOST_MAX_SPEED } else { BASE_MAX_SPEED };
        assert(-BOOST_MAX_SPEED <= acc * max_speed <= BOOST_MAX_SPEED) by (nonlinear_arith)
            requires -1 <= acc <= 1, 0 <= max_speed <= BOOST_MAX_SPEED;
        self.speed = acc * max_speed;
        let mut jump_impulse: u64 = 0;
        if controls.jump && self.jump_cooldown == 0 {
            jump_impulse = JUMP_IMPULSE;
            self.jump_cooldown = JUMP_COOLDOWN;
            if steer != 0 {
                self.drift_dir = steer;
            }
        }
        if !controls.jump {
            if self.drift_dir != 0 {
                if self.drift_power > DRIFT_BOOST_THRESHOLD {
                    self.is_boosting = true;
                    self.boost_timer = DRIFT_BOOST_DURATION;
                }
                self.drift_dir = 0;
                self.drift_power = 0;
            }
        }
        jump_impulse
    }

    /// Yaw rate in milliradians per second before scaling by speed.
    pub open spec fn turn_rate(&self) -> int {
        if self.drift_dir != 0 {
            self.drift_dir * DRIFT_TURN_RATE
        } else {
            self.steering * STEER_TURN_RATE
        }
    }

    /// Yaw to apply this frame, in microradians: the turn rate scaled by
    /// `speed_factor_spec(linvel) / SPEED_NORMALIZER`, integrated over `dt`.
    pub open spec fn yaw_spec(&self, dt: u32, linvel: Vec3i) -> int {
        trunc_div(self.turn_rate() * speed_factor_spec(linvel) * dt, 10_000_000)
    }

    /// Drift power after `dt` more of the physics phase.
    pub open spec fn turn_spec(self, dt: u32) -> Kart {
        if self.is_drifting() {
            Kart { drift_power: sat_add(self.drift_power, dt as u64), ..self }
        } else {
            self
        }
    }

    /// Turning part of the physics phase: accumulates drift power while
    /// drifting and returns the yaw to apply this frame.
    pub fn turn(&mut self, dt: u32, linvel: &Vec3i) -> (yaw: i64)
        requires
            old(self).wf(),
        ensures
            final(self).wf(),
            *final(self) == old(self).turn_spec(dt),
            yaw == old(self).yaw_spec(dt, *linvel),
    {
        let rate: i64 = if self.drift_dir != 0 {
            self.drift_power = self.drift_power.saturating_add(dt as u64);
            self.drift_dir as i64 * DRIFT_TURN_RATE
        } else {
            self.steering as i64 * STEER_TURN_RATE
        };
        let factor = speed_factor(linvel);
        let f = factor as i64;
        let d = dt as i64;
        assert(-DRIFT_TURN_RATE <= rate <= DRIFT_TURN_RATE);
        assert(-380_000_000 <= rate * f <= 380_000_000) by (nonlinear_arith)
            requires -3_800 <= rate <= 3_800, 0 <= f <= 100_000;
        assert(-380_000_000 * 0x1_0000_0000 <= rate * f * d <= 380_000_000 * 0x1_0000_0000)
            by (nonlinear_arith)
            requires -380_000_000 <= rate * f <= 380_000_000, 0 <= d <= 0xffff_ffff;
        rate * f * d / 10_000_000
    }

    /// Speed along the heading, in millimetres per second.
    pub open spec fn forward_speed_spec(linvel: Vec3i, forward: Vec3i) -> int {
        trunc_div(linvel.dot(forward), DIRECTION_UNIT as int)
    }

    /// Impulse of the speed controller: proportional to the gap between the
    /// requested and the actual forward speed, zero when no speed is requested.
    pub open spec fn drive_impulse_spec(&self, dt: u32, linvel: Vec3i, forward: Vec3i) -> int {
        if self.speed != 0 {
            trunc_div(
                (self.speed - Kart::forward_speed_spec(linvel, forward)) * DRIVE_GAIN_TENTHS * dt,
                10_000,
            )
        } else {
            0
        }
    }

    /// Boost state after `dt` more of the physics phase.
    pub open spec fn boost_spec(self, dt: u32) -> Kart {
        if self.is_boosting {
            Kart {
                boost_timer: sat_sub(self.boost_timer, dt as u64),
                is_boosting: sat_sub(self.boost_timer, dt as u64) > 0,
                ..self
            }
        } else {
            self
        }
    }

    /// Driving part of the physics phase. `forward` is the heading after this
    /// frame's yaw, scaled by `DIRECTION_UNIT`. Counts the boost down and
    /// returns the total impulse along the heading: the speed controller's
    /// plus, while boosting, the boost's.
    pub fn drive(&mut self, dt: u32, linvel: &Vec3i, forward: &Vec3i) -> (impulse: i128)
        requires
            old(self).wf(),
            forward.is_direction(),
        ensures
            final(self).wf(),
            *final(self) == old(self).boost_spec(dt),
            impulse == old(self).drive_impulse_spec(dt, *linvel, *forward) + (if old(
                self,
            ).is_boosting {
                BOOST_ACCEL * dt
            } else {
                0
            }),
    {
        let dot = dot_wide(linvel, forward);
        let current = dot / (DIRECTION_UNIT as i128);
        let mut impulse: i128 = 0;
        if self.speed != 0 {
            let gap = self.speed as i128 - current;
            let d = dt as i128;
            assert(-0x100_0000_0000_0000_0000 <= gap <= 0x100_0000_0000_0000_0000);
            let g = gap * DRIVE_GAIN_TENTHS;
            assert(-0x1_0000_0000_0000_0000_0000 * 0x1_0000_0000 <= g * d
                <= 0x1_0000_0000_0000_0000_0000 * 0x1_0000_0000)
                by (nonlinear_arith)
                requires
                    -0x1_0000_0000_0000_0000_0000 <= g <= 0x1_0000_0000_0000_0000_0000,
                    0 <= d <= 0xffff_ffff;
            impulse = g * d / 10_000;
        }
        if self.is_boosting {
            self.boost_timer = self.boost_timer.saturating_sub(dt as u64);
            impulse = impulse + BOOST_ACCEL * dt as i128;
            if self.boost_timer == 0 {
                self.is_boosting = false;
            }
        }
        impulse
    }

    /// The safe pose after seeing the body at `position` and `rotation`.
    pub open spec fn capture_spec(self, position: Vec3i, rotation: Rotation) -> Kart {
        if on_safe_band(position.y as int) {
            Kart { last_safe_pos: position, last_safe_rot: rotation, ..self }
        } else {
            self
        }
    }

    /// Records the pose as the safe pose when its altitude is on the drivable
    /// band; leaves everything unchanged otherwise.
    pub fn record_safe_pose(&mut self, position: Vec3i, rotation: Rotation)
        requires
            old(self).wf(),
        ensures
            final(self).wf(),
            *final(self) == old(self).capture_spec(position, rotation),
    {
        if position.y >= SAFE_BAND_LOW && position.y <= SAFE_BAND_HIGH {
            self.last_safe_pos = position;
            self.last_safe_rot = rotation;
        }
    }

    /// Recovery is triggered by a fall below `FALL_ALTITUDE` or by the reset button.
    pub open spec fn needs_reset(body: Body, reset_pressed: bool) -> bool {
        body.position.y < FALL_ALTITUDE || reset_pressed
    }

    /// The body placed back at the safe pose, lifted by `RESET_LIFT`, at rest.
    pub open spec fn recovered_spec(&self) -> Body {
        Body {
            position: Vec3i {
                x: self.last_safe_pos.x,
                y: (self.last_safe_pos.y + RESET_LIFT) as i64,
                z: self.last_safe_pos.z,
            },
            rotation: self.last_safe_rot,
            linvel: Vec3i::zero_spec(),
            angvel: Vec3i::zero_spec(),
        }
    }

    /// The body after the recovery check.
    pub open spec fn reset_spec(&self, body: Body, reset_pressed: bool) -> Body {
        if Kart::needs_reset(body, reset_pressed) { self.recovered_spec() } else { body }
    }

    /// Fall recovery: when the body has fallen or reset is pressed, returns the
    /// body at the safe pose at rest; otherwise the body as it is. The kart's
    /// own state, its safe pose included, is only read.
    pub fn player_reset(&self, body: Body, reset_pressed: bool) -> (r: Body)
        requires
            self.wf(),
        ensures
            r == self.reset_spec(body, reset_pressed),
    {
        if body.position.y < FALL_ALTITUDE || reset_pressed {
            Body {
                position: Vec3i::new(
                    self.last_safe_pos.x,
                    self.last_safe_pos.y + RESET_LIFT,
                    self.last_safe_pos.z,
                ),
                rotation: self.last_safe_rot,
                linvel: Vec3i::zero(),
                angvel: Vec3i::zero(),
            }
        } else {
            body
        }
    }

    /// The state after taking an item box.
    pub open spec fn item_boost_spec(self) -> Kart {
        Kart { is_boosting: true, boost_timer: ITEM_BOOST_DURATION, ..self }
    }

    /// Arms the boost of an item box, replacing any boost under way.
    pub fn arm_item_boost(&mut self)
        requires
            old(self).wf(),
        ensures
            final(self).wf(),
            *final(self) == old(self).item_boost_spec(),
    {
        self.is_boosting = true;
        self.boost_timer = ITEM_BOOST_DURATION;
    }

    /// The state after one whole frame: input phase, turning, boost count-down,
    /// safe-pose capture, and the contacts with item boxes.
    pub open spec fn frame_spec(self, f: FrameInput) -> Kart {
        let driven = self.input_spec(f.controls, f.dt).turn_spec(f.dt).boost_spec(f.dt).capture_spec(
            f.position,
            f.rotation,
        );
        if f.item_taken { driven.item_boost_spec() } else { driven }
    }

    /// The state after `frames`, in order.
    pub open spec fn frames_spec(self, frames: Seq<FrameInput>) -> Kart
        decreases frames.len(),
    {
        if frames.len() == 0 {
            self
        } else {
            self.frames_spec(frames.drop_last()).frame_spec(frames.last())
        }
    }
}

} // verus!
