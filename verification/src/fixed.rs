//! Fixed-point arithmetic.
//!
//! Every quantity of the engine is an `i64` that counts millionths of its
//! unit: a zoom factor of 1.5 is `1_500_000`, a position of 20 pixels is
//! `20_000_000`. Frame durations are whole microseconds, so a rate in
//! millionths per second times a duration in microseconds, divided by
//! [`MICRO`], is again an amount in millionths. Products are formed in `i128`,
//! quotients round toward zero, and whatever is stored back into an `i64`
//! saturates at the ends of its range.
use vstd::prelude::*;

verus! {

/// Number of fixed-point steps in one unit.
pub const MICRO: i64 = 1_000_000;

/// Quotient of `n` by a positive `d`, rounded toward zero.
pub open spec fn trunc_div(n: int, d: int) -> int {
    if n >= 0 {
        n / d
    } else {
        -((-n) / d)
    }
}

/// The `i64` nearest to `x`.
pub open spec fn sat(x: int) -> i64 {
    if x > i64::MAX {
        i64::MAX
    } else if x < i64::MIN {
        i64::MIN
    } else {
        x as i64
    }
}

/// The value in `[lo, hi]` nearest to `x`.
pub open spec fn clamp_to(x: int, lo: i64, hi: i64) -> i64 {
    if x < lo {
        lo
    } else if x > hi {
        hi
    } else {
        x as i64
    }
}

/// Magnitude of `x`.
pub open spec fn magnitude(x: int) -> int {
    if x >= 0 {
        x
    } else {
        -x
    }
}

/// Amount covered in `dt` microseconds at `velocity` millionths per second.
pub open spec fn travel(velocity: int, dt: int) -> int {
    trunc_div(velocity * dt, MICRO as int)
}

/// One step of the decay integrator `v -= v * dt * rate`, with `dt` in
/// microseconds and `rate` per second.
pub open spec fn decayed(velocity: int, dt: int, rate: int) -> i64 {
    sat(velocity - trunc_div(velocity * (dt * rate), MICRO as int))
}

/// `velocity` after `frames` decay steps of `dt` microseconds each.
pub open spec fn decayed_for(velocity: int, dt: int, rate: int, frames: nat) -> int
    decreases frames,
{
    if frames == 0 {
        velocity
    } else {
        decayed(decayed_for(velocity, dt, rate, (frames - 1) as nat), dt, rate) as int
    }
}

/// What a truncating quotient leaves over: less than one divisor, on the side
/// of the dividend.
pub proof fn lemma_trunc_div_bounds(n: int, d: int)
    requires
        d > 0,
    ensures
        n >= 0 ==> 0 <= trunc_div(n, d) && trunc_div(n, d) * d <= n < trunc_div(n, d) * d + d,
        n <= 0 ==> trunc_div(n, d) <= 0 && trunc_div(n, d) * d - d < n <= trunc_div(n, d) * d,
{
    if n >= 0 {
        vstd::arithmetic::div_mod::lemma_fundamental_div_mod(n, d);
        vstd::arithmetic::div_mod::lemma_mod_bound(n, d);
        vstd::arithmetic::div_mod::lemma_div_pos_is_pos(n, d);
        assert(d * (n / d) == (n / d) * d) by (nonlinear_arith);
    } else {
        let m = -n;
        vstd::arithmetic::div_mod::lemma_fundamental_div_mod(m, d);
        vstd::arithmetic::div_mod::lemma_mod_bound(m, d);
        vstd::arithmetic::div_mod::lemma_div_pos_is_pos(m, d);
        assert(d * (m / d) == (m / d) * d) by (nonlinear_arith);
        assert((-(m / d)) * d == -((m / d) * d)) by (nonlinear_arith);
    }
}

/// A truncating quotient by a divisor of at least one is no larger in
/// magnitude than the dividend, and has its sign.
pub proof fn lemma_trunc_div_shrinks(n: int, d: int)
    requires
        d >= 1,
    ensures
        magnitude(trunc_div(n, d)) <= magnitude(n),
        n >= 0 ==> trunc_div(n, d) >= 0,
        n <= 0 ==> trunc_div(n, d) <= 0,
{
    lemma_trunc_div_bounds(n, d);
    let q = trunc_div(n, d);
    if n >= 0 {
        assert(q <= q * d) by (nonlinear_arith)
            requires
                q >= 0,
                d >= 1,
        ;
    } else {
        assert(q * d <= q) by (nonlinear_arith)
            requires
                q <= 0,
                d >= 1,
        ;
    }
}

/// A multiple of the divisor divides exactly.
pub proof fn lemma_trunc_div_exact(k: int, d: int)
    requires
        d > 0,
    ensures
        trunc_div(k * d, d) == k,
{
    let n = k * d;
    lemma_trunc_div_bounds(n, d);
    let q = trunc_div(n, d);
    if k >= 0 {
        assert(k * d >= 0) by (nonlinear_arith)
            requires
                k >= 0,
                d > 0,
        ;
        assert(q == k) by (nonlinear_arith)
            requires
                q * d <= k * d < q * d + d,
                d > 0,
        ;
    } else {
        assert(k * d < 0) by (nonlinear_arith)
            requires
                k < 0,
                d > 0,
        ;
        assert(q == k) by (nonlinear_arith)
            requires
                q * d - d < k * d <= q * d,
                d > 0,
        ;
    }
}

/// Decay approaches zero: while `dt * rate` is at most one (in millionths), a
/// decay step keeps the velocity's sign and does not increase its magnitude.
pub proof fn lemma_decay_toward_zero(velocity: int, dt: int, rate: int)
    requires
        i64::MIN <= velocity <= i64::MAX,
        0 <= dt * rate <= MICRO,
    ensures
        velocity >= 0 ==> 0 <= decayed(velocity, dt, rate) <= velocity,
        velocity <= 0 ==> velocity <= decayed(velocity, dt, rate) <= 0,
{
    let factor = dt * rate;
    let loss = trunc_div(velocity * factor, MICRO as int);
    lemma_trunc_div_bounds(velocity * factor, MICRO as int);
    if velocity >= 0 {
        assert(0 <= velocity * factor <= velocity * MICRO) by (nonlinear_arith)
            requires
                velocity >= 0,
                0 <= factor <= MICRO,
        ;
        assert(loss <= velocity) by (nonlinear_arith)
            requires
                loss * MICRO <= velocity * MICRO,
        ;
    } else {
        assert(velocity * MICRO <= velocity * factor <= 0) by (nonlinear_arith)
            requires
                velocity <= 0,
                0 <= factor <= MICRO,
        ;
        assert(loss >= velocity) by (nonlinear_arith)
            requires
                loss * MICRO >= velocity * MICRO,
        ;
    }
}

/// A decay step that takes at least a sixteenth off the velocity brings what
/// the magnitude has above fifteen millionths down by a sixteenth.
pub proof fn lemma_decay_step_bound(velocity: int, dt: int, rate: int)
    requires
        i64::MIN <= velocity <= i64::MAX,
        MICRO <= 16 * (dt * rate),
        dt * rate <= MICRO,
    ensures
        16 * (magnitude(decayed(velocity, dt, rate) as int) - 15) <= 15 * (magnitude(velocity)
            - 15),
{
    let factor = dt * rate;
    let loss = trunc_div(velocity * factor, MICRO as int);
    lemma_trunc_div_bounds(velocity * factor, MICRO as int);
    lemma_decay_toward_zero(velocity, dt, rate);
    if velocity >= 0 {
        assert(16 * loss + 16 > velocity) by (nonlinear_arith)
            requires
                velocity >= 0,
                MICRO <= 16 * factor,
                velocity * factor < loss * MICRO + MICRO,
        ;
    } else {
        assert(16 * loss - 16 < velocity) by (nonlinear_arith)
            requires
                velocity <= 0,
                MICRO <= 16 * factor,
                loss * MICRO - MICRO < velocity * factor,
        ;
    }
}

/// Further frames of decay never bring the magnitude back up.
pub proof fn lemma_decay_never_grows(velocity: int, dt: int, rate: int, frames: nat, more: nat)
    requires
        i64::MIN <= velocity <= i64::MAX,
        0 <= dt * rate <= MICRO,
    ensures
        i64::MIN <= decayed_for(velocity, dt, rate, frames + more) <= i64::MAX,
        magnitude(decayed_for(velocity, dt, rate, frames + more)) <= magnitude(
            decayed_for(velocity, dt, rate, frames),
        ),
        velocity >= 0 ==> decayed_for(velocity, dt, rate, frames + more) >= 0,
        velocity <= 0 ==> decayed_for(velocity, dt, rate, frames + more) <= 0,
    decreases frames + more,
{
    if more == 0 {
        if frames > 0 {
            lemma_decay_never_grows(velocity, dt, rate, (frames - 1) as nat, 0);
            lemma_decay_toward_zero(
                decayed_for(velocity, dt, rate, (frames - 1) as nat),
                dt,
                rate,
            );
        }
    } else {
        lemma_decay_never_grows(velocity, dt, rate, frames, (more - 1) as nat);
        assert(frames + more - 1 == frames + (more - 1) as nat);
        lemma_decay_toward_zero(
            decayed_for(velocity, dt, rate, (frames + more - 1) as nat),
            dt,
            rate,
        );
    }
}

/// Eleven frames of decay at a sixteenth or more per frame halve what the
/// magnitude has above fifteen millionths.
pub proof fn lemma_decay_halves(velocity: int, dt: int, rate: int, frames: nat)
    requires
        i64::MIN <= velocity <= i64::MAX,
        MICRO <= 16 * (dt * rate),
        dt * rate <= MICRO,
    ensures
        magnitude(decayed_for(velocity, dt, rate, frames)) >= 15 ==> 2 * (magnitude(
            decayed_for(velocity, dt, rate, frames + 11),
        ) - 15) <= magnitude(decayed_for(velocity, dt, rate, frames)) - 15,
        magnitude(decayed_for(velocity, dt, rate, frames)) <= 15 ==> magnitude(
            decayed_for(velocity, dt, rate, frames + 11),
        ) <= 15,
{
    let v0 = decayed_for(velocity, dt, rate, frames);
    let v1 = decayed_for(velocity, dt, rate, frames + 1);
    let v2 = decayed_for(velocity, dt, rate, frames + 2);
    let v3 = decayed_for(velocity, dt, rate, frames + 3);
    let v4 = decayed_for(velocity, dt, rate, frames + 4);
    let v5 = decayed_for(velocity, dt, rate, frames + 5);
    let v6 = decayed_for(velocity, dt, rate, frames + 6);
    let v7 = decayed_for(velocity, dt, rate, frames + 7);
    let v8 = decayed_for(velocity, dt, rate, frames + 8);
    let v9 = decayed_for(velocity, dt, rate, frames + 9);
    let v10 = decayed_for(velocity, dt, rate, frames + 10);
    let v11 = decayed_for(velocity, dt, rate, frames + 11);
    lemma_decay_never_grows(velocity, dt, rate, frames, 0);
    lemma_decay_never_grows(velocity, dt, rate, frames, 1);
    lemma_decay_never_grows(velocity, dt, rate, frames, 2);
    lemma_decay_never_grows(velocity, dt, rate, frames, 3);
    lemma_decay_never_grows(velocity, dt, rate, frames, 4);
    lemma_decay_never_grows(velocity, dt, rate, frames, 5);
    lemma_decay_never_grows(velocity, dt, rate, frames, 6);
    lemma_decay_never_grows(velocity, dt, rate, frames, 7);
    lemma_decay_never_grows(velocity, dt, rate, frames, 8);
    lemma_decay_never_grows(velocity, dt, rate, frames, 9);
    lemma_decay_never_grows(velocity, dt, rate, frames, 10);
    lemma_decay_never_grows(velocity, dt, rate, frames, 11);
    lemma_decay_step_bound(v0, dt, rate);
    lemma_decay_step_bound(v1, dt, rate);
    lemma_decay_step_bound(v2, dt, rate);
    lemma_decay_step_bound(v3, dt, rate);
    lemma_decay_step_bound(v4, dt, rate);
    lemma_decay_step_bound(v5, dt, rate);
    lemma_decay_step_bound(v6, dt, rate);
    lemma_decay_step_bound(v7, dt, rate);
    lemma_decay_step_bound(v8, dt, rate);
    lemma_decay_step_bound(v9, dt, rate);
    lemma_decay_step_bound(v10, dt, rate);
    assert(v1 == decayed(v0, dt, rate));
    assert(v2 == decayed(v1, dt, rate));
    assert(v3 == decayed(v2, dt, rate));
    assert(v4 == decayed(v3, dt, rate));
    assert(v5 == decayed(v4, dt, rate));
    assert(v6 == decayed(v5, dt, rate));
    assert(v7 == decayed(v6, dt, rate));
    assert(v8 == decayed(v7, dt, rate));
    assert(v9 == decayed(v8, dt, rate));
    assert(v10 == decayed(v9, dt, rate));
    assert(v11 == decayed(v10, dt, rate));
}

/// After `11 * halvings` frames of decay at a sixteenth or more per frame,
/// what the magnitude has above fifteen millionths is at most the
/// `2^halvings`-th part of what it had.
pub proof fn lemma_decay_geometric(velocity: int, dt: int, rate: int, halvings: nat)
    requires
        i64::MIN <= velocity <= i64::MAX,
        MICRO <= 16 * (dt * rate),
        dt * rate <= MICRO,
        magnitude(velocity) >= 15,
    ensures
        vstd::arithmetic::power2::pow2(halvings) * (magnitude(
            decayed_for(velocity, dt, rate, 11 * halvings),
        ) - 15) <= magnitude(velocity) - 15,
    decreases halvings,
{
    if halvings == 0 {
        vstd::arithmetic::power2::lemma2_to64();
    } else {
        let k = (halvings - 1) as nat;
        lemma_decay_geometric(velocity, dt, rate, k);
        lemma_decay_halves(velocity, dt, rate, 11 * k);
        assert(11 * k + 11 == 11 * halvings);
        vstd::arithmetic::power2::lemma_pow2_unfold(halvings);
        vstd::arithmetic::power2::lemma_pow2_pos(k);
        let p = vstd::arithmetic::power2::pow2(k) as int;
        let before = magnitude(decayed_for(velocity, dt, rate, 11 * k)) - 15;
        let after = magnitude(decayed_for(velocity, dt, rate, 11 * halvings)) - 15;
        let start = magnitude(velocity) - 15;
        if before >= 0 {
            assert((2 * p) * after <= start) by (nonlinear_arith)
                requires
                    p > 0,
                    2 * after <= before,
                    p * before <= start,
            ;
        } else {
            assert((2 * p) * after <= start) by (nonlinear_arith)
                requires
                    p > 0,
                    after <= 0,
                    start >= 0,
            ;
        }
    }
}

/// Decay converges: from a velocity of at most 100 000 units per second, at a
/// frame time and rate that take between a sixteenth and the whole off per
/// frame, the magnitude is below a thousandth of a unit after 300 frames and
/// stays there. At 60 frames per second both rates of the engine do so.
pub proof fn lemma_decay_settles(velocity: int, dt: int, rate: int, frames: nat)
    requires
        magnitude(velocity) <= 100_000 * MICRO,
        MICRO <= 16 * (dt * rate),
        dt * rate <= MICRO,
        frames >= 300,
    ensures
        magnitude(decayed_for(velocity, dt, rate, frames)) < 1_000,
{
    lemma_decay_never_grows(velocity, dt, rate, 297, (frames - 297) as nat);
    assert(297 + (frames - 297) as nat == frames);
    if magnitude(velocity) >= 15 {
        lemma_decay_geometric(velocity, dt, rate, 27);
        vstd::arithmetic::power2::lemma2_to64();
        assert(vstd::arithmetic::power2::pow2(27) == 0x800_0000);
    } else {
        lemma_decay_never_grows(velocity, dt, rate, 0, 297);
    }
}

/// Saturates a wide intermediate into an `i64`.
pub fn saturate(x: i128) -> (r: i64)
    ensures
        r == sat(x as int),
{
    if x > i64::MAX as i128 {
        i64::MAX
    } else if x < i64::MIN as i128 {
        i64::MIN
    } else {
        x as i64
    }
}

/// Clamps a wide intermediate into `[lo, hi]`.
pub fn clamp(x: i128, lo: i64, hi: i64) -> (r: i64)
    requires
        lo <= hi,
    ensures
        r == clamp_to(x as int, lo, hi),
        lo <= r <= hi,
{
    if x < lo as i128 {
        lo
    } else if x > hi as i128 {
        hi
    } else {
        x as i64
    }
}

/// `a * b / d`, rounded toward zero, with the product formed exactly.
pub fn mul_div(a: i128, b: i128, d: i128) -> (q: i128)
    requires
        -0x4_0000_0000_0000_0000 <= a <= 0x4_0000_0000_0000_0000,
        0 <= b <= 0x100_0000_0000,
        d >= 1,
    ensures
        q == trunc_div(a * b, d as int),
        magnitude(q as int) <= magnitude(a * b),
        magnitude(q as int) <= 0x4_0000_0000_0000_0000 * 0x100_0000_0000,
{
    assert(-0x4_0000_0000_0000_0000 * 0x100_0000_0000 <= a * b <= 0x4_0000_0000_0000_0000
        * 0x100_0000_0000) by (nonlinear_arith)
        requires
            -0x4_0000_0000_0000_0000 <= a <= 0x4_0000_0000_0000_0000,
            0 <= b <= 0x100_0000_0000,
    ;
    let product: i128 = a * b;
    proof {
        lemma_trunc_div_shrinks(product as int, d as int);
    }
    product / d
}

/// Amount covered in `dt` microseconds at `velocity` millionths per second.
pub fn displacement(velocity: i64, dt: u32) -> (r: i128)
    ensures
        r == travel(velocity as int, dt as int),
        magnitude(r as int) <= 0x8000_0000_0000_0000 * 0x1_0000_0000,
{
    assert(magnitude(velocity * dt) <= 0x8000_0000_0000_0000 * 0x1_0000_0000) by (nonlinear_arith)
        requires
            -0x8000_0000_0000_0000 <= velocity <= 0x8000_0000_0000_0000,
            0 <= dt <= 0x1_0000_0000,
    ;
    mul_div(velocity as i128, dt as i128, MICRO as i128)
}

/// One step of the decay integrator: takes `velocity * dt * rate` off
/// `velocity`, with `dt` in microseconds and `rate` per second.
pub fn decay(velocity: i64, dt: u32, rate: u8) -> (r: i64)
    ensures
        r == decayed(velocity as int, dt as int, rate as int),
{
    assert(0 <= dt * rate <= 0x100_0000_0000) by (nonlinear_arith)
        requires
            0 <= dt <= 0xffff_ffff,
            0 <= rate <= 0xff,
    ;
    let factor: i128 = dt as i128 * rate as i128;
    let loss: i128 = mul_div(velocity as i128, factor, MICRO as i128);
    assert(magnitude(velocity * factor) <= 0x8000_0000_0000_0000 * 0x100_0000_0000)
        by (nonlinear_arith)
        requires
            -0x8000_0000_0000_0000 <= velocity <= 0x8000_0000_0000_0000,
            0 <= factor <= 0x100_0000_0000,
    ;
    saturate(velocity as i128 - loss)
}

} // verus!
