//! Fixed-point units and the small amount of shared arithmetic.
//!
//! Angles are kept in microradians (one millionth of a radian), distances in
//! micro-units, and the per-direction inverse square roots used to normalise
//! a direction vector as parts-per-million factors. All constants are the
//! nearest integer to the real quantity they stand for.

use vstd::prelude::*;
use vstd::arithmetic::div_mod::lemma_mod_multiples_vanish;

verus! {

/// One half turn, in microradians (nearest integer to pi * 10^6).
pub const PI_MICRORAD: i64 = 3_141_593;

/// One full turn, in microradians; exactly twice `PI_MICRORAD`, so that the
/// principal range `[-PI_MICRORAD, PI_MICRORAD)` has this length.
pub const TAU_MICRORAD: i64 = 6_283_186;

/// A quarter turn, in microradians (nearest integer to pi/2 * 10^6).
pub const HALF_PI_MICRORAD: i64 = 1_570_796;

/// Pitch is clamped to `[-PITCH_LIMIT_MICRORAD, PITCH_LIMIT_MICRORAD]`:
/// a quarter turn short by 0.01 radians, keeping the view away from the
/// poles where yaw and roll would coincide.
pub const PITCH_LIMIT_MICRORAD: i64 = HALF_PI_MICRORAD - 10_000;

/// Largest accumulated mouse motion (in device counts) accepted per frame
/// and per axis; only there so that products with a sensitivity gain fit
/// the machine words.
pub const MOUSE_DELTA_LIMIT: i64 = 100_000_000;

/// Largest sensitivity gain (microradians per device count) a well-formed
/// player may carry: one radian per count is far beyond any usable setting.
pub const SENSITIVITY_LIMIT: i64 = 1_000_000;

/// A multiple of `TAU_MICRORAD` large enough to lift any sum of a principal
/// angle and one frame's rotation delta above zero before reducing it.
pub const WRAP_LIFT_MICRORAD: i64 = 32_000_000 * TAU_MICRORAD;

/// The value `v` clamped to `[lo, hi]`.
pub open spec fn clamp_spec(v: int, lo: int, hi: int) -> int {
    if v < lo {
        lo
    } else if v > hi {
        hi
    } else {
        v
    }
}

/// The representative of angle `a` in `[-PI_MICRORAD, PI_MICRORAD)`:
/// the angle a rotation by `a` microradians actually ends at.
pub open spec fn wrap_angle_spec(a: int) -> int {
    (a + PI_MICRORAD) % (TAU_MICRORAD as int) - PI_MICRORAD
}

/// Reduces an angle to the principal range `[-PI_MICRORAD, PI_MICRORAD)`.
pub fn wrap_angle(a: i64) -> (r: i64)
    requires
        -200_000_000_000_000 <= a <= 200_000_000_000_000,
    ensures
        r == wrap_angle_spec(a as int),
        -PI_MICRORAD <= r < PI_MICRORAD,
{
    let lifted: i64 = a + PI_MICRORAD + WRAP_LIFT_MICRORAD;
    let reduced: u64 = (lifted as u64) % (TAU_MICRORAD as u64);
    proof {
        lemma_mod_multiples_vanish(
            32_000_000,
            a + PI_MICRORAD,
            TAU_MICRORAD as int,
        );
    }
    (reduced as i64) - PI_MICRORAD
}

/// Clamps a pitch angle (microradians) to the legal pitch range.
pub fn clamp_pitch(v: i64) -> (r: i64)
    ensures
        r == clamp_spec(v as int, -PITCH_LIMIT_MICRORAD as int, PITCH_LIMIT_MICRORAD as int),
        -PITCH_LIMIT_MICRORAD <= r <= PITCH_LIMIT_MICRORAD,
{
    if v < -PITCH_LIMIT_MICRORAD {
        -PITCH_LIMIT_MICRORAD
    } else if v > PITCH_LIMIT_MICRORAD {
        PITCH_LIMIT_MICRORAD
    } else {
        v
    }
}

} // verus!
