//! Interval-aligned scheduling: when the next update cycle should wake up.
//!
//! The pool service publishes a polling interval in whole seconds.  A cycle
//! sleeps until the smallest timestamp that is an integer multiple of that
//! interval and strictly greater than now, plus one second of safety margin
//! so the client never wakes exactly on the boundary before the server has
//! updated.

use vstd::arithmetic::div_mod::lemma_fundamental_div_mod;
use vstd::arithmetic::div_mod::lemma_mod_division_less_than_divisor;
use vstd::arithmetic::div_mod::lemma_mod_multiples_basic;
use vstd::arithmetic::mul::lemma_mul_inequality;
use vstd::prelude::*;

use crate::error::Error;

verus! {

/// A decimal digit.
pub open spec fn is_digit(c: char) -> bool {
    48 <= c as u32 <= 57
}

/// The numeric value of a decimal digit.
pub open spec fn digit_val(c: char) -> int {
    c as u32 - 48
}

/// Every character of `s` is a decimal digit.
pub open spec fn all_digits(s: Seq<char>) -> bool {
    forall|i: int| 0 <= i < s.len() ==> is_digit(#[trigger] s[i])
}

/// The value of `s` read as a base-10 numeral, most significant digit first.
pub open spec fn digits_value(s: Seq<char>) -> int
    decreases s.len(),
{
    if s.len() == 0 {
        0
    } else {
        digits_value(s.drop_last()) * 10 + digit_val(s.last())
    }
}

/// What parsing a string as a base-10 `u64` yields: the numeral's value if
/// the string is nonempty, all digits, and the value fits; nothing
/// otherwise.
pub open spec fn parse_u64_spec(s: Seq<char>) -> Option<u64> {
    if s.len() > 0 && all_digits(s) && digits_value(s) <= u64::MAX {
        Some(digits_value(s) as u64)
    } else {
        None
    }
}

proof fn lemma_digits_value_nonneg(s: Seq<char>)
    requires
        all_digits(s),
    ensures
        digits_value(s) >= 0,
    decreases s.len(),
{
    if s.len() > 0 {
        assert(all_digits(s.drop_last()));
        lemma_digits_value_nonneg(s.drop_last());
    }
}

/// A numeral is at least as large as any of its prefixes.
proof fn lemma_digits_value_prefix_le(s: Seq<char>, i: int)
    requires
        all_digits(s),
        0 <= i <= s.len(),
    ensures
        digits_value(s.subrange(0, i)) <= digits_value(s),
    decreases s.len() - i,
{
    if i == s.len() {
        assert(s.subrange(0, i) =~= s);
    } else {
        let t = s.subrange(0, i + 1);
        assert(t.drop_last() =~= s.subrange(0, i));
        assert(all_digits(t.drop_last()));
        lemma_digits_value_nonneg(t.drop_last());
        assert(digits_value(t.drop_last()) * 10 >= digits_value(t.drop_last())) by (nonlinear_arith)
            requires digits_value(t.drop_last()) >= 0;
        assert(digits_value(s.subrange(0, i)) <= digits_value(t));
        lemma_digits_value_prefix_le(s, i + 1);
    }
}

/// Reads a nonempty string of decimal digits as a `u64`.
///
/// Returns the numeral's value; `None` if the string is empty, holds a
/// non-digit character, or names a value above `u64::MAX`.
pub fn parse_u64(s: &str) -> (r: Option<u64>)
    ensures
        r == parse_u64_spec(s@),
{
    let n = s.unicode_len();
    if n == 0 {
        return None;
    }
    let mut acc: u64 = 0;
    let mut i: usize = 0;
    while i < n
        invariant
            0 < n == s@.len(),
            i <= n,
            all_digits(s@.subrange(0, i as int)),
            acc == digits_value(s@.subrange(0, i as int)),
        decreases n - i,
    {
        let c = s.get_char(i);
        let cv = c as u32;
        if cv < 48 || cv > 57 {
            assert(!all_digits(s@)) by {
                assert(!is_digit(s@[i as int]));
            }
            return None;
        }
        let d = (cv - 48) as u64;
        let ghost prefix = s@.subrange(0, i as int);
        let ghost extended = s@.subrange(0, i + 1 as int);
        assert(extended.drop_last() =~= prefix);
        assert(extended.last() == s@[i as int]);
        if acc > (u64::MAX - d) / 10 {
            // The numeral already exceeds u64::MAX at this prefix, and
            // appending further digits can only grow it.
            proof {
                let cap = (u64::MAX - d) as int;
                lemma_fundamental_div_mod(cap, 10);
                lemma_mod_division_less_than_divisor(cap, 10);
                assert((cap / 10 + 1) * 10 == (cap / 10) * 10 + 10) by (nonlinear_arith);
                assert(acc * 10 >= (cap / 10 + 1) * 10) by (nonlinear_arith)
                    requires acc >= cap / 10 + 1;
                assert(digits_value(extended) > u64::MAX);
                if all_digits(s@) {
                    lemma_digits_value_prefix_le(s@, i + 1);
                    assert(digits_value(s@) > u64::MAX);
                }
            }
            return None;
        }
        proof {
            let cap = (u64::MAX - d) as int;
            lemma_fundamental_div_mod(cap, 10);
            lemma_mod_division_less_than_divisor(cap, 10);
            assert(acc * 10 <= (cap / 10) * 10) by (nonlinear_arith)
                requires acc <= cap / 10;
            assert((cap / 10) * 10 <= cap);
        }
        acc = acc * 10 + d;
        i = i + 1;
    }
    proof {
        assert(s@.subrange(0, n as int) =~= s@);
        lemma_digits_value_nonneg(s@);
    }
    Some(acc)
}

/// Reads the interval endpoint's body.
///
/// `Ok` exactly when the body is a base-10 `u64` numeral; any other body is
/// an `InvalidInterval`.
pub fn parse_interval(body: &str) -> (r: Result<u64, Error>)
    ensures
        parse_u64_spec(body@) matches Some(n) ==> r == Ok::<u64, Error>(n),
        parse_u64_spec(body@) is None ==> r == Err::<u64, Error>(Error::InvalidInterval),
{
    match parse_u64(body) {
        Some(n) => Ok(n),
        None => Err(Error::InvalidInterval),
    }
}

/// The smallest integer multiple of `interval` strictly greater than `now`.
pub open spec fn next_boundary(now: int, interval: int) -> int
    recommends
        interval >= 1,
{
    (now / interval + 1) * interval
}

/// How long to sleep: up to the next boundary, plus one second of margin.
pub open spec fn delay_spec(now: int, interval: int) -> int
    recommends
        interval >= 1,
{
    next_boundary(now, interval) - now + 1
}

/// Law: for every positive interval and every timestamp, `next_boundary` is
/// the least multiple of the interval strictly after `now`, and the computed
/// delay lands exactly one second past it.
pub proof fn lemma_delay_alignment(now: int, interval: int)
    requires
        0 <= now,
        1 <= interval,
    ensures
        next_boundary(now, interval) % interval == 0,
        now < next_boundary(now, interval),
        forall|m: int| #[trigger] (m % interval) == 0 && now < m ==> next_boundary(now, interval)
            <= m,
        now + delay_spec(now, interval) == next_boundary(now, interval) + 1,
        2 <= delay_spec(now, interval) <= interval + 1,
{
    let q = now / interval;
    lemma_fundamental_div_mod(now, interval);
    lemma_mod_division_less_than_divisor(now, interval);
    lemma_mod_multiples_basic(q + 1, interval);
    assert((q + 1) * interval == q * interval + interval) by (nonlinear_arith);
    assert(interval * q == q * interval) by (nonlinear_arith);
    assert forall|m: int| #[trigger] (m % interval) == 0 && now < m implies next_boundary(
        now,
        interval,
    ) <= m by {
        let k = m / interval;
        lemma_fundamental_div_mod(m, interval);
        assert(interval * k == k * interval) by (nonlinear_arith);
        if k <= q {
            lemma_mul_inequality(k, q, interval);
            assert(false);
        }
        lemma_mul_inequality(q + 1, k, interval);
    }
}

/// Computes the delay until the next aligned wake-up, from the interval and
/// the current epoch-second count.
///
/// Rejects a zero interval as `InvalidInterval`; for a positive interval the
/// result is exactly `delay_spec`, saturated to `u64::MAX` in the one corner
/// where that value does not fit a `u64`.
pub fn delay_from(interval_s: u64, now_s: u64) -> (r: Result<u64, Error>)
    ensures
        interval_s == 0 ==> r == Err::<u64, Error>(Error::InvalidInterval),
        r is Err <==> interval_s == 0,
        interval_s >= 1 && delay_spec(now_s as int, interval_s as int) <= u64::MAX ==> r == Ok::<
            u64,
            Error,
        >(delay_spec(now_s as int, interval_s as int) as u64),
        interval_s >= 1 && delay_spec(now_s as int, interval_s as int) > u64::MAX ==> r == Ok::<
            u64,
            Error,
        >(u64::MAX),
        r matches Ok(d) ==> 2 <= d <= interval_s + 1,
{
    if interval_s == 0 {
        return Err(Error::InvalidInterval);
    }
    let rem: u64 = now_s % interval_s;
    proof {
        lemma_delay_alignment(now_s as int, interval_s as int);
        lemma_fundamental_div_mod(now_s as int, interval_s as int);
        lemma_mod_division_less_than_divisor(now_s as int, interval_s as int);
        let q = now_s as int / interval_s as int;
        assert((q + 1) * interval_s as int == q * interval_s as int + interval_s as int)
            by (nonlinear_arith);
        assert(interval_s as int * q == q * interval_s as int) by (nonlinear_arith);
        assert(delay_spec(now_s as int, interval_s as int) == interval_s - rem + 1);
    }
    let base: u64 = interval_s - rem;
    if base < u64::MAX {
        Ok(base + 1)
    } else {
        Ok(u64::MAX)
    }
}

/// Relies on `jiff::Timestamp::now` and `jiff::Timestamp::as_second`: the
/// current system time as whole seconds since the Unix epoch.  A `Timestamp`
/// is bounded to the years -9999..=9999, so its second count lies within the
/// stated range (`jiff` panics at startup-grade misconfiguration where the
/// system clock sits outside that range).
#[verifier::external_body]
fn clock_now_second() -> (r: i64)
    ensures
        -377705023201 <= r <= 253402207200,
{
    jiff::Timestamp::now().as_second()
}

/// Computes the delay until the next aligned wake-up from the interval
/// endpoint's body and the system clock.
///
/// Fails with `InvalidInterval` exactly when the body is not a base-10
/// numeral or names zero; otherwise the delay is `delay_spec` for the
/// interval and the clock's current second (clamped below at the epoch), so
/// it is always at least two seconds and at most one interval plus one.
pub fn delay_until_next_update(interval_body: &str) -> (r: Result<u64, Error>)
    ensures
        r is Err <==> (parse_u64_spec(interval_body@) is None || parse_u64_spec(interval_body@)
            == Some(0u64)),
        r is Err ==> r == Err::<u64, Error>(Error::InvalidInterval),
        r matches Ok(d) ==> 2 <= d <= parse_u64_spec(interval_body@)->Some_0 + 1,
{
    let interval_s = match parse_interval(interval_body) {
        Ok(n) => n,
        Err(e) => {
            return Err(e);
        },
    };
    if interval_s == 0 {
        return Err(Error::InvalidInterval);
    }
    let t = clock_now_second();
    let now_s: u64 = if t >= 0 {
        t as u64
    } else {
        0
    };
    delay_from(interval_s, now_s)
}

} // verus!
