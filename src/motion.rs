//! The movement intent resolver: held keys and elapsed time to a displacement.
use vstd::prelude::*;

use crate::intent::{sample, KeyState};

verus! {

/// Walking speed, in world units per second.
pub const SPEED: i64 = 5;

/// The distance walked in `delta_micros` microseconds, in millionths of a
/// world unit.
pub open spec fn step(delta_micros: u32) -> int {
    SPEED * delta_micros
}

/// The square of `v`.
pub open spec fn sq(v: int) -> int {
    v * v
}

/// A distance `s` taken along one axis in the direction of the pair of keys
/// that do not cancel: `s` toward `pos`, `-s` toward `neg`, zero when both or
/// neither is held. This is the axis' intent times `s`.
pub open spec fn along(neg: bool, pos: bool, s: int) -> int {
    if pos && !neg {
        s
    } else if neg && !pos {
        -s
    } else {
        0
    }
}

/// The sideways component of a frame's displacement, before normalisation.
pub open spec fn movement_x(keys: KeyState, delta_micros: u32) -> int {
    along(keys.left, keys.right, step(delta_micros))
}

/// The depth component of a frame's displacement, before normalisation.
pub open spec fn movement_z(keys: KeyState, delta_micros: u32) -> int {
    along(keys.forward, keys.back, step(delta_micros))
}

/// A displacement for one frame, in millionths of a world unit.
///
/// When `norm_sq` is zero the displacement is the zero vector. Otherwise it is
/// the vector (x, y, z) divided by the square root of `norm_sq`, the squared
/// length of the intent it was scaled from. Keeping that divisor apart keeps
/// the normalisation exact.
#[derive(Clone, Copy, Debug, PartialEq, Eq, Structural)]
pub struct Displacement {
    pub x: i64,
    pub y: i64,
    pub z: i64,
    pub norm_sq: u8,
}

/// `d` is the displacement for `keys` held during `delta_micros` microseconds.
pub open spec fn is_movement(d: Displacement, keys: KeyState, delta_micros: u32) -> bool {
    &&& d.x == movement_x(keys, delta_micros)
    &&& d.y == 0
    &&& d.z == movement_z(keys, delta_micros)
    &&& d.norm_sq == keys.intent_norm_sq()
}

impl Displacement {
    /// The square of the number that (x, y, z) is divided by. A zero intent
    /// is never normalised: it stays the zero vector, divided by one.
    pub fn divisor_sq(&self) -> (r: u8)
        ensures
            r == (if self.norm_sq == 0 { 1 } else { self.norm_sq }),
            r > 0,
    {
        if self.norm_sq == 0 {
            1
        } else {
            self.norm_sq
        }
    }
}

/// Resolves the held keys and the time elapsed since the previous frame into
/// this frame's displacement.
pub fn movement(keys: &KeyState, delta_micros: u32) -> (r: Displacement)
    ensures
        is_movement(r, *keys, delta_micros),
{
    let intent = sample(keys);
    let norm_sq = intent.norm_sq();
    let step: i64 = SPEED * (delta_micros as i64);
    let x: i64 = if intent.x > 0 {
        step
    } else if intent.x < 0 {
        -step
    } else {
        0
    };
    let z: i64 = if intent.z > 0 {
        step
    } else if intent.z < 0 {
        -step
    } else {
        0
    };
    Displacement { x, y: 0, z, norm_sq }
}

/// The character's desired translation for this frame. It is written on every
/// frame, as the zero vector when no key moves the character, so that no
/// earlier request stays in place.
pub fn desired_translation(keys: &KeyState, delta_micros: u32) -> (r: Option<Displacement>)
    ensures
        r matches Some(d) && is_movement(d, *keys, delta_micros),
{
    Some(movement(keys, delta_micros))
}

/// The displacement is the zero vector exactly when the held keys cancel out on
/// both axes (no key held being one such case). Otherwise its length, the
/// length of (x, y, z) over the square root of `norm_sq`, is exactly the speed
/// times the elapsed time, whether one axis is driven or two: x² + y² + z²
/// equals `norm_sq` times the squared step.
pub proof fn lemma_length_is_speed_times_time(keys: KeyState, delta_micros: u32)
    ensures
        keys.intent_norm_sq() == 0 <==> (keys.forward == keys.back && keys.left == keys.right),
        keys.intent_norm_sq() == 0 ==> movement_x(keys, delta_micros) == 0 && movement_z(
            keys,
            delta_micros,
        ) == 0,
        sq(movement_x(keys, delta_micros)) + sq(movement_z(keys, delta_micros)) == keys.intent_norm_sq()
            * sq(step(delta_micros)),
        0 <= keys.intent_norm_sq() <= 2,
{
    let s = step(delta_micros);
    assert((-s) * (-s) == s * s) by (nonlinear_arith);
    let mx = movement_x(keys, delta_micros);
    let mz = movement_z(keys, delta_micros);
    assert(mx * mx == (if keys.left != keys.right { s * s } else { 0 }));
    assert(mz * mz == (if keys.forward != keys.back { s * s } else { 0 }));
    assert(keys.intent_norm_sq() * (s * s) == (if keys.left != keys.right { s * s } else { 0 }) + (
    if keys.forward != keys.back {
        s * s
    } else {
        0
    }));
}

/// Keys that oppose each other on an axis cancel: with both held, that axis
/// gets no movement, whatever is held on the other axis.
pub proof fn lemma_opposing_keys_cancel(keys: KeyState, delta_micros: u32)
    ensures
        keys.forward && keys.back ==> movement_z(keys, delta_micros) == 0,
        keys.left && keys.right ==> movement_x(keys, delta_micros) == 0,
{
}

/// The displacement grows linearly with the elapsed time: over `k` times the
/// time, each component is `k` times as large; the divisor depends on the keys
/// alone and stays the same.
pub proof fn lemma_scales_with_time(keys: KeyState, delta_micros: u32, k: u32)
    requires
        k * delta_micros <= u32::MAX,
    ensures
        movement_x(keys, (k * delta_micros) as u32) == k * movement_x(keys, delta_micros),
        movement_z(keys, (k * delta_micros) as u32) == k * movement_z(keys, delta_micros),
{
    let t = delta_micros as int;
    let kk = k as int;
    assert(SPEED * (kk * t) == kk * (SPEED * t)) by (nonlinear_arith);
    assert(-(SPEED * (kk * t)) == kk * -(SPEED * t)) by (nonlinear_arith);
}

} // verus!
