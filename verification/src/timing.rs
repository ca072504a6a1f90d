//! How long audio plays. The time is that of 64 bit floating point arithmetic, computed on integers:
//! a quotient in seconds, rounded to 53 significant bits and then to whole nanoseconds.

use vstd::prelude::*;

verus! {

/// One second, in nanoseconds.
pub const NANOS_PER_SECOND: u128 = 1_000_000_000;

/// Two to the 52nd: the least number that takes 53 bits.
pub const LEAST_53_BITS: u128 = 4503599627370496;

/// Two to the 53rd: the least number that takes more than 53 bits.
pub const LEAST_54_BITS: u128 = 9007199254740992;

/// The whole number nearest to `n / d`; of two that are equally near, the even one.
pub open spec fn nearest(n: nat, d: nat) -> nat
    recommends
        d > 0,
{
    if 2 * (n % d) < d || (2 * (n % d) == d && (n / d) % 2 == 0) {
        n / d
    } else {
        n / d + 1
    }
}

/// The floating point number nearest to `n / d`, as a fraction, where `n / d` takes at most 53 bits
/// before the point: the quotient is doubled until it takes all of them.
pub open spec fn small_double(n: nat, d: nat) -> (nat, nat)
    decreases LEAST_54_BITS * d - n,
{
    if n == 0 || n >= LEAST_53_BITS * d {
        (nearest(n, d), 1)
    } else {
        (small_double(2 * n, d).0, 2 * small_double(2 * n, d).1)
    }
}

/// The floating point number nearest to `n / d`, as a fraction, where `n / d` takes at least 53 bits
/// before the point: the quotient is halved until it takes no more.
pub open spec fn large_double(n: nat, d: nat) -> (nat, nat)
    decreases n - d,
{
    if d == 0 || n < LEAST_54_BITS * d {
        (nearest(n, d), 1)
    } else {
        (2 * large_double(n, 2 * d).0, large_double(n, 2 * d).1)
    }
}

/// The floating point number nearest to `n / d`, as a fraction.
pub open spec fn double(n: nat, d: nat) -> (nat, nat)
    recommends
        d > 0,
{
    if n < LEAST_53_BITS * d {
        small_double(n, d)
    } else {
        large_double(n, d)
    }
}

/// The floating point number nearest to a whole number; it is a whole number itself.
pub open spec fn whole_double(n: nat) -> nat {
    if n < LEAST_54_BITS {
        n
    } else {
        large_double(n, 1).0
    }
}

/// How long `frames` play at `rate` frames per second, in nanoseconds: the floating point quotient in
/// seconds, to the nearest nanosecond.
pub open spec fn frames_ns(frames: nat, rate: nat) -> nat
    recommends
        rate > 0,
{
    let seconds = double(whole_double(frames), rate);
    nearest(seconds.0 * (NANOS_PER_SECOND as nat), seconds.1)
}

fn to_nearest(n: u128, d: u128) -> (r: u128)
    requires
        0 < d < 0x8000_0000_0000_0000_0000_0000_0000_0000,
        n < 0x8000_0000_0000_0000_0000_0000_0000_0000,
    ensures
        r == nearest(n as nat, d as nat),
{
    let quotient: u128 = n / d;
    let rest: u128 = n % d;
    assert(quotient <= n) by (nonlinear_arith)
        requires
            quotient == n / d,
            d > 0,
    ;
    if 2 * rest < d || (2 * rest == d && quotient % 2 == 0) {
        quotient
    } else {
        quotient + 1
    }
}

fn to_small_double(n: u128, d: u128) -> (r: (u128, u128))
    requires
        0 < n < LEAST_54_BITS * d,
        0 < d <= 0xffff_ffff,
    ensures
        (r.0 as nat, r.1 as nat) == small_double(n as nat, d as nat),
        r.0 <= LEAST_54_BITS,
        r.1 > 0,
        r.1 * n <= LEAST_54_BITS * d,
    decreases LEAST_54_BITS * d - n,
{
    if n >= LEAST_53_BITS * d {
        proof {
            lemma_nearest_close(n as nat, d as nat);
            let m = nearest(n as nat, d as nat);
            assert(m <= LEAST_54_BITS) by (nonlinear_arith)
                requires
                    2 * (m * d) <= 2 * n + d,
                    n < LEAST_54_BITS * d,
                    d > 0,
            ;
        }
        (to_nearest(n, d), 1)
    } else {
        let (a, b) = to_small_double(2 * n, d);
        assert((2 * b) * n == b * (2 * n)) by (nonlinear_arith);
        assert(2 * b <= LEAST_54_BITS * d) by (nonlinear_arith)
            requires
                (2 * b) * n <= LEAST_54_BITS * d,
                n >= 1,
        ;
        (a, 2 * b)
    }
}

fn to_large_double(n: u128, d: u128) -> (r: u128)
    requires
        0 < d <= n < 0x4_0000_0000_0000_0000,
    ensures
        (r as nat, 1nat) == large_double(n as nat, d as nat),
        r * d <= 2 * n,
    decreases n - d,
{
    if n < LEAST_54_BITS * d {
        proof {
            lemma_nearest_close(n as nat, d as nat);
        }
        to_nearest(n, d)
    } else {
        let half: u128 = to_large_double(n, 2 * d);
        assert((2 * half) * d == half * (2 * d)) by (nonlinear_arith);
        assert(2 * half <= 2 * n) by (nonlinear_arith)
            requires
                (2 * half) * d <= 2 * n,
                d >= 1,
        ;
        2 * half
    }
}

/// How long `frames` play at `rate` frames per second, in nanoseconds.
pub fn playing_ns(frames: usize, rate: u32) -> (ns: u128)
    requires
        rate > 0,
    ensures
        ns == frames_ns(frames as nat, rate as nat),
{
    let whole: u128 = if frames as u128 >= LEAST_54_BITS {
        to_large_double(frames as u128, 1)
    } else {
        frames as u128
    };
    let d: u128 = rate as u128;
    let (a, b): (u128, u128) = if whole == 0 {
        (0, 1)
    } else if whole < LEAST_53_BITS * d {
        to_small_double(whole, d)
    } else {
        let a: u128 = to_large_double(whole, d);
        assert(a <= 2 * whole) by (nonlinear_arith)
            requires
                a * d <= 2 * whole,
                d >= 1,
        ;
        (a, 1)
    };
    assert(b <= LEAST_54_BITS * 0xffff_ffff) by {
        if whole > 0 && whole < LEAST_53_BITS * d {
            assert(b <= LEAST_54_BITS * d) by (nonlinear_arith)
                requires
                    b * whole <= LEAST_54_BITS * d,
                    whole >= 1,
            ;
        }
    }
    to_nearest(a * NANOS_PER_SECOND, b)
}

proof fn lemma_nearest_close(n: nat, d: nat)
    requires
        d > 0,
    ensures
        2 * (nearest(n, d) * d) <= 2 * n + d,
        2 * n <= 2 * (nearest(n, d) * d) + d,
{
    vstd::arithmetic::div_mod::lemma_fundamental_div_mod(n as int, d as int);
    vstd::arithmetic::div_mod::lemma_mod_bound(n as int, d as int);
    let q = n / d;
    assert(d * q == q * d) by (nonlinear_arith);
    assert((q + 1) * d == q * d + d) by (nonlinear_arith);
}

/// `a / b` differs from `n / d` by no more than one part in two to the 53rd.
spec fn close(a: int, b: int, n: int, d: int) -> bool {
    &&& LEAST_54_BITS * (a * d - n * b) <= n * b
    &&& LEAST_54_BITS * (n * b - a * d) <= n * b
}

proof fn lemma_small_close(n: nat, d: nat)
    requires
        0 < n,
        n < LEAST_54_BITS * d,
    ensures
        small_double(n, d).1 > 0,
        close(small_double(n, d).0 as int, small_double(n, d).1 as int, n as int, d as int),
    decreases LEAST_54_BITS * d - n,
{
    if n >= LEAST_53_BITS * d {
        assert(d > 0);
        lemma_nearest_close(n, d);
        assert(n * 1 == n);
    } else {
        lemma_small_close(2 * n, d);
        let b = small_double(2 * n, d).1 as int;
        assert((2 * n) * b == n * (2 * b)) by (nonlinear_arith);
    }
}

proof fn lemma_large_close(n: nat, d: nat)
    requires
        0 < d,
        n >= LEAST_53_BITS * d,
    ensures
        large_double(n, d).1 == 1,
        close(large_double(n, d).0 as int, 1, n as int, d as int),
    decreases n - d,
{
    if n < LEAST_54_BITS * d {
        lemma_nearest_close(n, d);
    } else {
        lemma_large_close(n, 2 * d);
        let a = large_double(n, 2 * d).0 as int;
        assert(a * (2 * d) == (2 * a) * d) by (nonlinear_arith);
    }
}

proof fn lemma_double_close(n: nat, d: nat)
    requires
        0 < d,
    ensures
        double(n, d).1 > 0,
        close(double(n, d).0 as int, double(n, d).1 as int, n as int, d as int),
{
    if n >= LEAST_53_BITS * d {
        lemma_large_close(n, d);
    } else if n > 0 {
        lemma_small_close(n, d);
    } else {
        lemma_nearest_close(0, d);
        assert(nearest(0, d) == 0);
        assert(0 * d == 0);
    }
}

/// The time that frames play is `frames / rate` seconds, but for half a nanosecond and one part in
/// two to the 51st.
pub proof fn law_playing_time(frames: nat, rate: nat)
    requires
        rate > 0,
    ensures
        ({
            let exact = frames * NANOS_PER_SECOND;
            let got = frames_ns(frames, rate) * rate;
            &&& 2 * LEAST_54_BITS * (got - exact) <= LEAST_54_BITS * rate + 8 * exact
            &&& 2 * LEAST_54_BITS * (exact - got) <= LEAST_54_BITS * rate + 8 * exact
        }),
{
    let one = NANOS_PER_SECOND as int;
    let p = LEAST_54_BITS as int;
    let n = frames as int;
    let r = rate as int;
    let f = whole_double(frames) as int;
    let a = double(f as nat, rate).0 as int;
    let b = double(f as nat, rate).1 as int;
    let ns = frames_ns(frames, rate) as int;
    if frames >= LEAST_54_BITS {
        lemma_large_close(frames, 1);
    }
    assert(p * (f - n) <= n && p * (n - f) <= n);
    lemma_double_close(f as nat, rate);
    lemma_nearest_close((a * one) as nat, b as nat);
    // Everything over the common denominator `b`.
    let x = ns * b * r;
    let y = a * r * one;
    let z = f * b * one;
    let w = n * b * one;
    assert(2 * (x - y) <= b * r && 2 * (y - x) <= b * r) by (nonlinear_arith)
        requires
            2 * (ns * b) <= 2 * (a * one) + b,
            2 * (a * one) <= 2 * (ns * b) + b,
            r > 0,
            x == ns * b * r,
            y == a * r * one,
    ;
    assert(p * (y - z) <= z && p * (z - y) <= z) by (nonlinear_arith)
        requires
            p * (a * r - f * b) <= f * b,
            p * (f * b - a * r) <= f * b,
            one > 0,
            y == a * r * one,
            z == f * b * one,
    ;
    assert(p * (z - w) <= w && p * (w - z) <= w) by (nonlinear_arith)
        requires
            p * (f - n) <= n,
            p * (n - f) <= n,
            b > 0,
            one > 0,
            z == f * b * one,
            w == n * b * one,
    ;
    assert(w >= 0) by (nonlinear_arith)
        requires
            n >= 0,
            b > 0,
            one > 0,
            w == n * b * one,
    ;
    assert(z <= 2 * w);
    let br = b * r;
    let exact = n * one;
    let got = ns * r;
    assert(x == got * b && w == exact * b) by (nonlinear_arith)
        requires
            x == ns * b * r,
            w == n * b * one,
            exact == n * one,
            got == ns * r,
    ;
    assert(2 * p * (x - w) <= p * br + 8 * w) by (nonlinear_arith)
        requires
            2 * (x - y) <= br,
            p * (y - z) <= z,
            p * (z - w) <= w,
            z <= 2 * w,
            w >= 0,
            p > 0,
    ;
    assert(2 * p * (w - x) <= p * br + 8 * w) by (nonlinear_arith)
        requires
            2 * (y - x) <= br,
            p * (z - y) <= z,
            p * (w - z) <= w,
            z <= 2 * w,
            w >= 0,
            p > 0,
    ;
    assert(2 * p * (got - exact) <= p * r + 8 * exact) by (nonlinear_arith)
        requires
            2 * p * (x - w) <= p * (b * r) + 8 * w,
            x == got * b,
            w == exact * b,
            b > 0,
    ;
    assert(2 * p * (exact - got) <= p * r + 8 * exact) by (nonlinear_arith)
        requires
            2 * p * (w - x) <= p * (b * r) + 8 * w,
            x == got * b,
            w == exact * b,
            b > 0,
    ;
}

/// The quotient in seconds has 53 significant bits and is the nearest number of that kind, and the
/// time is the nearest number of nanoseconds to it. This is said of quotients that take fewer than
/// 53 bits before the point, of fewer than two to the 53rd frames.
pub proof fn law_rounded_twice(frames: nat, rate: nat)
    requires
        rate > 0,
        0 < frames < LEAST_53_BITS * rate,
        frames < LEAST_54_BITS,
    ensures
        exists|m: nat, b: nat|
            #![trigger nearest(frames * b, rate), nearest(m * 1000000000, b)]
            b > 0 && LEAST_53_BITS <= m <= LEAST_54_BITS && m == nearest(frames * b, rate)
                && frames_ns(frames, rate) == nearest(m * 1000000000, b),
{
    lemma_small_bits(frames, rate);
    let m = small_double(frames, rate).0;
    let b = small_double(frames, rate).1;
    assert(m == nearest(frames * b, rate));
    assert(frames_ns(frames, rate) == nearest(m * 1000000000, b));
}

proof fn lemma_small_bits(n: nat, d: nat)
    requires
        d > 0,
        0 < n < LEAST_54_BITS * d,
    ensures
        ({
            let (m, b) = small_double(n, d);
            &&& b > 0
            &&& LEAST_53_BITS <= m <= LEAST_54_BITS
            &&& m == nearest(n * b, d)
        }),
    decreases LEAST_54_BITS * d - n,
{
    if n >= LEAST_53_BITS * d {
        lemma_nearest_close(n, d);
        let m = nearest(n, d);
        assert(LEAST_53_BITS <= m <= LEAST_54_BITS) by (nonlinear_arith)
            requires
                2 * (m * d) <= 2 * n + d,
                2 * n <= 2 * (m * d) + d,
                LEAST_53_BITS * d <= n < LEAST_54_BITS * d,
                d > 0,
        ;
        assert(n * 1 == n);
    } else {
        lemma_small_bits(2 * n, d);
        let b = small_double(2 * n, d).1;
        assert((2 * n) * b == n * (2 * b)) by (nonlinear_arith);
    }
}

} // verus!
