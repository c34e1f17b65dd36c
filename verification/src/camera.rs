use vstd::arithmetic::div_mod::{
    lemma_fundamental_div_mod, lemma_fundamental_div_mod_converse, lemma_mod_bound,
    lemma_mod_multiples_vanish, lemma_small_mod,
};
use vstd::prelude::*;

verus! {

/// One full turn, in microradians (2π rounded to the nearest microradian).
pub const TURN_URAD: i64 = 6_283_185;

/// How far the pitch may leave the horizon, in microradians: just under a
/// quarter turn, so the view never flips past the vertical.
pub const PITCH_LIMIT_URAD: i64 = 1_570_000;

/// Yaw `y` advanced by `d`, wrapped into `[0, TURN_URAD)`.
pub open spec fn add_angle(y: int, d: int) -> int {
    (y + d) % (TURN_URAD as int)
}

/// Pitch `p` clamped to the legal band.
pub open spec fn clamp_pitch(p: int) -> int {
    if p > PITCH_LIMIT_URAD as int {
        PITCH_LIMIT_URAD as int
    } else if p < -(PITCH_LIMIT_URAD as int) {
        -(PITCH_LIMIT_URAD as int)
    } else {
        p
    }
}

/// The orientation core of the free-look camera.
///
/// Rotation state is held exactly, as two independent angle accumulators
/// in integer microradians — yaw wrapped to one turn, pitch clamped short
/// of the vertical — and every rotation command is a local increment, so
/// no gimbal error can accumulate. The rendering layer rebuilds its
/// floating-point view and projection matrices from these two angles (and
/// from the float position it advances itself) once per frame.
pub struct FreeCamera {
    yaw_urad: i64,
    pitch_urad: i64,
}

impl FreeCamera {
    /// The yaw accumulator, microradians in `[0, TURN_URAD)`.
    pub closed spec fn spec_yaw(&self) -> i64 {
        self.yaw_urad
    }

    /// The pitch accumulator, microradians in the clamp band.
    pub closed spec fn spec_pitch(&self) -> i64 {
        self.pitch_urad
    }

    /// The orientation invariant: yaw wrapped, pitch inside the band.
    pub open spec fn wf(&self) -> bool {
        &&& 0 <= self.spec_yaw() < TURN_URAD
        &&& -PITCH_LIMIT_URAD <= self.spec_pitch() <= PITCH_LIMIT_URAD
    }

    /// A camera looking straight ahead.
    pub fn new() -> (c: FreeCamera)
        ensures
            c.spec_yaw() == 0,
            c.spec_pitch() == 0,
            c.wf(),
    {
        FreeCamera { yaw_urad: 0, pitch_urad: 0 }
    }

    /// The yaw angle, for the matrix-building layer.
    pub fn yaw_microradians(&self) -> (y: i64)
        ensures
            y == self.spec_yaw(),
    {
        self.yaw_urad
    }

    /// The pitch angle, for the matrix-building layer.
    pub fn pitch_microradians(&self) -> (p: i64)
        ensures
            p == self.spec_pitch(),
    {
        self.pitch_urad
    }

    /// Turn left by `delta` microradians (negative: right), wrapping the
    /// yaw accumulator around the full turn.
    pub fn rotate_left(&mut self, delta: i64)
        requires
            old(self).wf(),
            -0x4000_0000_0000_0000 <= delta <= 0x4000_0000_0000_0000,
        ensures
            final(self).wf(),
            final(self).spec_yaw() == add_angle(old(self).spec_yaw() as int, delta as int),
            final(self).spec_pitch() == old(self).spec_pitch(),
    {
        let t: i64 = TURN_URAD;
        let s: i64 = self.yaw_urad + delta;
        let y2: i64;
        if s >= 0 {
            let m = (s as u64) % (t as u64);
            proof {
                lemma_mod_bound(s as int, t as int);
            }
            y2 = m as i64;
        } else {
            let neg = -s;
            let m = (neg as u64) % (t as u64);
            proof {
                lemma_fundamental_div_mod(neg as int, t as int);
                lemma_mod_bound(neg as int, t as int);
                let q = (neg as int) / (t as int);
                if m == 0 {
                    lemma_fundamental_div_mod_converse(s as int, t as int, -q, 0);
                } else {
                    lemma_fundamental_div_mod_converse(
                        s as int,
                        t as int,
                        -q - 1,
                        t as int - m as int,
                    );
                }
            }
            y2 = if m == 0 {
                0
            } else {
                t - (m as i64)
            };
        }
        self.yaw_urad = y2;
    }

    /// Tilt up by `delta` microradians (negative: down), clamping the
    /// pitch accumulator short of the vertical.
    pub fn rotate_up(&mut self, delta: i64)
        requires
            old(self).wf(),
            -0x4000_0000_0000_0000 <= delta <= 0x4000_0000_0000_0000,
        ensures
            final(self).wf(),
            final(self).spec_pitch() == clamp_pitch(old(self).spec_pitch() + delta as int),
            final(self).spec_yaw() == old(self).spec_yaw(),
    {
        let limit: i64 = PITCH_LIMIT_URAD;
        let s: i64 = self.pitch_urad + delta;
        self.pitch_urad = if s > limit {
            limit
        } else if s < -limit {
            -limit
        } else {
            s
        };
    }
}

/// Rotation round-trip law, yaw half: turning left by any angle and then
/// right by the same angle restores the yaw exactly.
pub proof fn lemma_rotate_left_roundtrip(y: int, d: int)
    requires
        0 <= y < TURN_URAD as int,
    ensures
        add_angle(add_angle(y, d), -d) == y,
{
    let t = TURN_URAD as int;
    lemma_fundamental_div_mod(y + d, t);
    let q = (y + d) / t;
    assert((y + d) % t - d == t * (-q) + y);
    lemma_mod_multiples_vanish(-q, y, t);
    lemma_small_mod(y as nat, t as nat);
}

/// Rotation round-trip law, pitch half: tilting up and then down by the
/// same angle restores the pitch, as long as the excursion stays inside
/// the clamp band (a tilt that hits the clamp forgets the overshoot).
pub proof fn lemma_rotate_up_roundtrip(p: int, d: int)
    requires
        -PITCH_LIMIT_URAD <= p <= PITCH_LIMIT_URAD,
        -PITCH_LIMIT_URAD <= p + d <= PITCH_LIMIT_URAD,
    ensures
        clamp_pitch(clamp_pitch(p + d) - d) == p,
{
}

} // verus!
