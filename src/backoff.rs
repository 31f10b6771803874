use vstd::prelude::*;

verus! {

/// `b` raised to the power `e`.
pub open spec fn pow_nat(b: nat, e: nat) -> nat
    decreases e,
{
    if e == 0 {
        1
    } else {
        b * pow_nat(b, (e - 1) as nat)
    }
}

/// `initial * 1.5^k`, truncated towards zero, computed exactly.
pub open spec fn grown(initial: nat, k: nat) -> nat {
    initial * pow_nat(3, k) / pow_nat(2, k)
}

/// The wait, in milliseconds, that follows the failure of attempt `i`
/// (counting from zero): `initial * 1.5^(i - 1)` truncated to an integer and
/// capped at `max_wait`. The first failure therefore waits `initial / 1.5`.
pub open spec fn backoff_ms(initial: nat, max_wait: nat, i: nat) -> nat {
    let raw = if i == 0 {
        initial * 2 / 3
    } else {
        grown(initial, (i - 1) as nat)
    };
    if raw > max_wait {
        max_wait
    } else {
        raw
    }
}

proof fn lemma_pow_positive(b: nat, e: nat)
    requires
        b >= 1,
    ensures
        pow_nat(b, e) >= 1,
    decreases e,
{
    if e > 0 {
        lemma_pow_positive(b, (e - 1) as nat);
        assert(b * pow_nat(b, (e - 1) as nat) >= 1) by (nonlinear_arith)
            requires
                b >= 1,
                pow_nat(b, (e - 1) as nat) >= 1,
        ;
    }
}

/// One more growth step never lowers the value.
proof fn lemma_grown_step(initial: nat, k: nat)
    ensures
        grown(initial, k) <= grown(initial, k + 1),
{
    let n = initial * pow_nat(3, k);
    let d = pow_nat(2, k);
    lemma_pow_positive(2, k);
    assert(pow_nat(3, k + 1) == 3 * pow_nat(3, k));
    assert(pow_nat(2, k + 1) == 2 * pow_nat(2, k));
    assert(initial * pow_nat(3, k + 1) == 3 * n) by (nonlinear_arith)
        requires
            pow_nat(3, k + 1) == 3 * pow_nat(3, k),
            n == initial * pow_nat(3, k),
    ;
    let a = n / d;
    assert(a * d <= n) by (nonlinear_arith)
        requires
            d >= 1,
            a == n / d,
    ;
    assert(a * (2 * d) <= 3 * n) by (nonlinear_arith)
        requires
            a * d <= n,
            a >= 0,
            d >= 1,
    ;
    assert(a <= (3 * n) / (2 * d)) by (nonlinear_arith)
        requires
            a * (2 * d) <= 3 * n,
            d >= 1,
            a >= 0,
    ;
}

proof fn lemma_grown_monotone(initial: nat, j: nat, k: nat)
    requires
        j <= k,
    ensures
        grown(initial, j) <= grown(initial, k),
    decreases k - j,
{
    if j < k {
        lemma_grown_monotone(initial, j, (k - 1) as nat);
        lemma_grown_step(initial, (k - 1) as nat);
    }
}

/// The wait never shrinks from one failed attempt to the next.
pub proof fn lemma_backoff_non_decreasing(initial: nat, max_wait: nat, i: nat, j: nat)
    requires
        i <= j,
    ensures
        backoff_ms(initial, max_wait, i) <= backoff_ms(initial, max_wait, j),
{
    if i == 0 && j > 0 {
        assert(grown(initial, 0) == initial) by {
            assert(pow_nat(3, 0) == 1);
            assert(pow_nat(2, 0) == 1);
        }
        lemma_grown_monotone(initial, 0, (j - 1) as nat);
    } else if i > 0 {
        lemma_grown_monotone(initial, (i - 1) as nat, (j - 1) as nat);
    }
}

/// The wait never exceeds the configured ceiling.
pub proof fn lemma_backoff_capped(initial: nat, max_wait: nat, i: nat)
    ensures
        backoff_ms(initial, max_wait, i) <= max_wait,
{
}

proof fn lemma_pow_adds(b: nat, e1: nat, e2: nat)
    ensures
        pow_nat(b, e1 + e2) == pow_nat(b, e1) * pow_nat(b, e2),
    decreases e2,
{
    if e2 > 0 {
        let e3 = (e2 - 1) as nat;
        lemma_pow_adds(b, e1, e3);
        assert((e1 + e2 - 1) as nat == e1 + e3);
        let x = pow_nat(b, e1);
        let y = pow_nat(b, e3);
        assert(pow_nat(b, e1 + e2) == b * pow_nat(b, e1 + e3));
        assert(pow_nat(b, e2) == b * y);
        assert(b * (x * y) == x * (b * y)) by (nonlinear_arith);
    } else {
        assert(e1 + e2 == e1);
        assert(pow_nat(b, e2) == 1);
    }
}

/// `3^12 >= 2^19`, raised to the power `m`.
proof fn lemma_three_beats_two(m: nat)
    ensures
        pow_nat(3, 12 * m) >= pow_nat(2, 19 * m),
    decreases m,
{
    if m > 0 {
        let m1 = (m - 1) as nat;
        lemma_three_beats_two(m1);
        reveal_with_fuel(pow_nat, 20);
        assert(pow_nat(3, 12) == 531441);
        assert(pow_nat(2, 19) == 524288);
        lemma_pow_adds(3, 12 * m1, 12);
        lemma_pow_adds(2, 19 * m1, 19);
        assert(12 * m1 + 12 == 12 * m);
        assert(19 * m1 + 19 == 19 * m);
        lemma_pow_positive(2, 19 * m1);
        let a = pow_nat(3, 12 * m1);
        let c = pow_nat(2, 19 * m1);
        assert(a * 531441 >= c * 524288) by (nonlinear_arith)
            requires
                a >= c,
                c >= 1,
        ;
    }
}

proof fn lemma_pow_monotone_2(j: nat, k: nat)
    requires
        j <= k,
    ensures
        pow_nat(2, j) <= pow_nat(2, k),
    decreases k - j,
{
    if j < k {
        lemma_pow_monotone_2(j, (k - 1) as nat);
        lemma_pow_positive(2, (k - 1) as nat);
    }
}

/// After 120 growth steps from at least 1, the value is past any `u64`.
proof fn lemma_grown_120_large(initial: nat)
    requires
        initial >= 1,
    ensures
        grown(initial, 120) >= 0x1_0000_0000_0000_0000,
        pow_nat(2, 120) == 0x1_0000_0000_0000_0000_0000_0000_0000_00,
{
    lemma_three_beats_two(10);
    lemma_pow_adds(2, 120, 70);
    reveal_with_fuel(pow_nat, 11);
    assert(pow_nat(2, 10) == 1024);
    lemma_pow_adds(2, 10, 10);
    assert(pow_nat(2, 20) == 1024 * 1024);
    lemma_pow_adds(2, 20, 20);
    assert(pow_nat(2, 40) == 0x100_0000_0000);
    lemma_pow_adds(2, 40, 40);
    assert(pow_nat(2, 80) == 0x1_0000_0000_0000_0000_0000);
    lemma_pow_adds(2, 80, 40);
    assert(pow_nat(2, 120) == 0x1_0000_0000_0000_0000_0000_0000_0000_00);
    lemma_pow_adds(2, 40, 10);
    assert(pow_nat(2, 50) == 0x4_0000_0000_0000);
    lemma_pow_adds(2, 50, 20);
    assert(pow_nat(2, 70) == 0x40_0000_0000_0000_0000);
    let p = pow_nat(2, 120);
    let t = pow_nat(3, 120);
    assert(pow_nat(2, 190) == p * 0x40_0000_0000_0000_0000);
    assert(t >= p * 0x40_0000_0000_0000_0000);
    assert(initial * t >= t) by (nonlinear_arith)
        requires
            initial >= 1,
            t >= 0,
    ;
    assert((initial * t) / p >= 0x1_0000_0000_0000_0000) by (nonlinear_arith)
        requires
            initial * t >= p * 0x40_0000_0000_0000_0000,
            p == 0x1_0000_0000_0000_0000_0000_0000_0000_00,
    ;
}

/// `min(grown(initial, k), cap)`, computed exactly.
///
/// The value `initial * 3^j / 2^j` is carried as a whole part `q` and a
/// remainder `r` over `2^j`; once `q` reaches the cap it can only grow further.
pub fn grown_capped(initial: u64, k: u32, cap: u64) -> (r: u64)
    ensures
        r == if grown(initial as nat, k as nat) > cap { cap as nat } else { grown(
            initial as nat,
            k as nat,
        ) },
{
    if initial == 0 {
        proof {
            assert(grown(0, k as nat) == 0) by {
                lemma_pow_positive(2, k as nat);
                assert(0 * pow_nat(3, k as nat) == 0);
            }
        }
        return 0;
    }
    let mut q: u128 = initial as u128;
    let mut rem: u128 = 0;
    let mut p: u128 = 1;
    let mut j: u32 = 0;
    proof {
        assert(pow_nat(3, 0) == 1 && pow_nat(2, 0) == 1);
    }
    while j < k
        invariant
            j <= k,
            j <= 120,
            p as nat == pow_nat(2, j as nat),
            rem < p,
            q * p + rem == initial * pow_nat(3, j as nat),
            q as nat == grown(initial as nat, j as nat),
            q < 0x4_0000_0000_0000_0000,
            initial >= 1,
        decreases k - j,
    {
        if q >= cap as u128 {
            proof {
                lemma_grown_monotone(initial as nat, j as nat, k as nat);
            }
            return cap;
        }
        proof {
            lemma_grown_120_large(initial as nat);
            assert(j < 120);
        }
        let odd: u128 = (3 * q) % 2;
        let half: u128 = (3 * q) / 2;
        proof {
            lemma_pow_positive(2, j as nat);
            assert(p <= 0x1_0000_0000_0000_0000_0000_0000_0000_00) by {
                lemma_pow_monotone_2(j as nat, 120);
            }
            assert(odd <= 1);
            assert(odd * p <= p) by (nonlinear_arith)
                requires
                    odd <= 1,
            ;
        }
        let t: u128 = odd * p + 3 * rem;
        let p2: u128 = 2 * p;
        proof {
            assert(t / p2 <= 1) by (nonlinear_arith)
                requires
                    t == odd * p + 3 * rem,
                    odd <= 1,
                    rem < p,
                    p2 == 2 * p,
                    p >= 1,
            ;
        }
        let q2: u128 = half + t / p2;
        let r2: u128 = t % p2;
        proof {
            let ghost jn = (j + 1) as nat;
            assert(pow_nat(2, jn) == 2 * pow_nat(2, j as nat));
            assert(pow_nat(3, jn) == 3 * pow_nat(3, j as nat));
            let ghost n = initial * pow_nat(3, j as nat);
            assert(initial * pow_nat(3, jn) == 3 * n) by (nonlinear_arith)
                requires
                    pow_nat(3, jn) == 3 * pow_nat(3, j as nat),
                    n == initial * pow_nat(3, j as nat),
            ;
            assert(q2 * p2 + r2 == 3 * n) by (nonlinear_arith)
                requires
                    q * p + rem == n,
                    3 * q == 2 * half + odd,
                    t == odd * p + 3 * rem,
                    p2 == 2 * p,
                    p >= 1,
                    q2 == half + t / p2,
                    r2 == t % p2,
            ;
            assert(r2 < p2) by (nonlinear_arith)
                requires
                    r2 == t % p2,
                    p2 >= 1,
            ;
            assert(q2 == (3 * n) / (p2 as int)) by (nonlinear_arith)
                requires
                    q2 * p2 + r2 == 3 * n,
                    0 <= r2 < p2,
                    q2 >= 0,
            ;
        }
        q = q2;
        rem = r2;
        p = p2;
        j = j + 1;
    }
    if q > cap as u128 {
        cap
    } else {
        q as u64
    }
}

/// The wait in milliseconds after attempt `i` (counting from zero) failed.
pub fn backoff_wait(initial: u64, max_wait: u64, i: u32) -> (r: u64)
    ensures
        r == backoff_ms(initial as nat, max_wait as nat, i as nat),
{
    if i == 0 {
        let raw: u64 = ((initial as u128) * 2 / 3) as u64;
        if raw > max_wait {
            max_wait
        } else {
            raw
        }
    } else {
        grown_capped(initial, i - 1, max_wait)
    }
}

} // verus!
