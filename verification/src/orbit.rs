//! Exact orbit angles.
//!
//! A body's angle after `e` real milliseconds is
//! `theta = (2*pi / orbital_period) * elapsed_seconds * time_speed_multiplier`
//! radians. With the period in ten-thousandths of a day and the speed
//! multiplier in thousandths of a day per second, the angle measured in full
//! turns is the exact rational
//! `(elapsed_ms * speed_milli) / (100 * period_e4)`,
//! which this module keeps as an integer pair instead of evaluating it.

use vstd::prelude::*;

verus! {

/// An angle, kept exact as the rational number of full turns `num / den`.
/// One full turn is `2 * pi` radians; the renderer converts the ratio to
/// radians and applies its own trigonometric primitives.
#[derive(Clone, Copy, Debug, PartialEq, Eq, Structural)]
pub struct Angle {
    /// Numerator: negative when the clock was moved backwards.
    pub num: i128,
    /// Denominator: always positive where the angle came from
    /// [`rotation_calculator`].
    pub den: u64,
}

/// Numerator of the angle in turns after `elapsed_ms` real milliseconds at
/// `speed_milli` thousandths of a simulated day per real second.
pub open spec fn turns_num(elapsed_ms: int, speed_milli: u32) -> int {
    elapsed_ms * speed_milli
}

/// Denominator of the angle in turns for an orbital period of `period_e4`
/// ten-thousandths of a simulated day.
pub open spec fn turns_den(period_e4: u32) -> int {
    100 * period_e4
}

/// The angle as a value: `turns_num / turns_den` packed into [`Angle`].
pub open spec fn angle_of(period_e4: u32, elapsed_ms: int, speed_milli: u32) -> Angle {
    Angle {
        num: turns_num(elapsed_ms, speed_milli) as i128,
        den: turns_den(period_e4) as u64,
    }
}

/// The fractional part of the angle, in `[0, den)`: everything a renderer
/// reads of an angle (its direction, hence the body's position on the orbit
/// circle) depends on the numerator only through this remainder.
pub open spec fn norm_turns(period_e4: u32, elapsed_ms: int, speed_milli: u32) -> int {
    turns_num(elapsed_ms, speed_milli) % turns_den(period_e4)
}

/// The angle of a body, exact: `(2*pi / period) * elapsed * speed` radians,
/// returned as the rational number of full turns.
pub fn rotation_calculator(period_e4: u32, elapsed_ms: i128, speed_milli: u32) -> (r: Angle)
    requires
        period_e4 >= 1,
        -0x1000_0000_0000_0000 <= elapsed_ms <= 0x1000_0000_0000_0000,
    ensures
        r == angle_of(period_e4, elapsed_ms as int, speed_milli),
        r.num == turns_num(elapsed_ms as int, speed_milli),
        r.den == turns_den(period_e4),
        r.den >= 100,
{
    proof {
        assert(
            -0x1000_0000_0000_0000 * 0x1_0000_0000i128
            <= elapsed_ms * (speed_milli as i128)
            <= 0x1000_0000_0000_0000 * 0x1_0000_0000i128
        ) by (nonlinear_arith)
            requires
                -0x1000_0000_0000_0000 <= elapsed_ms <= 0x1000_0000_0000_0000,
                0 <= speed_milli <= 0x1_0000_0000i128,
        ;
    }
    Angle {
        num: elapsed_ms * (speed_milli as i128),
        den: 100u64 * (period_e4 as u64),
    }
}

/// At the moment of creation (`elapsed = 0`) every body's angle is zero
/// turns: a rotation by zero is the identity, so the renderer places the
/// body exactly at `center + (orbit_radius, 0)`.
pub proof fn lemma_angle_at_start(period_e4: u32, speed_milli: u32)
    requires
        period_e4 >= 1,
    ensures
        angle_of(period_e4, 0, speed_milli).num == 0,
        norm_turns(period_e4, 0, speed_milli) == 0,
{
    vstd::arithmetic::div_mod::lemma_small_mod(0, (100 * period_e4) as nat);
}

/// Positions are periodic with period `orbital_period / time_speed_multiplier`
/// in real time: whenever `period_ms` real milliseconds satisfy
/// `period_ms * speed_milli == 100 * period_e4` (the orbital period divided
/// by the speed multiplier, written in milliseconds), the angle grows by
/// exactly one full turn, so its fractional part — and with it the body's
/// position on the orbit circle — is unchanged.
pub proof fn lemma_position_periodic(
    period_e4: u32,
    speed_milli: u32,
    t_ms: int,
    period_ms: int,
)
    requires
        period_e4 >= 1,
        speed_milli >= 1,
        period_ms * speed_milli == 100 * period_e4,
    ensures
        norm_turns(period_e4, t_ms + period_ms, speed_milli)
            == norm_turns(period_e4, t_ms, speed_milli),
{
    let d = 100 * (period_e4 as int);
    assert((t_ms + period_ms) * (speed_milli as int)
        == d * 1 + t_ms * (speed_milli as int)) by (nonlinear_arith)
        requires
            period_ms * speed_milli == 100 * period_e4,
            d == 100 * (period_e4 as int),
    ;
    vstd::arithmetic::div_mod::lemma_mod_multiples_vanish(
        1,
        t_ms * (speed_milli as int),
        d,
    );
}

} // verus!
