//! SaaS analytics for system administrators: MRR and ARR, tenant counts, and the
//! size of the top-tenant list.

use vstd::prelude::*;
use crate::error::ApiError;
use crate::security::{require_sys_admin, SecurityContext};
use crate::paging::trunc_div;
use crate::text::{chars_of, concat_str, decimal_text, digits_of, i64_text, parse_i64, parse_int};

verus! {

/// The analytics are for system administrators only.
pub fn analytics_access(ctx: &SecurityContext) -> (r: Result<(), ApiError>)
    ensures
        ctx.sys_admin() <==> r is Ok,
        r matches Err(e) ==> (e matches ApiError::Forbidden(m) && m@ == "SYS_ADMIN required"@),
{
    require_sys_admin(ctx, "SYS_ADMIN required")
}

/// Annual recurring revenue: twelve months of the monthly revenue.
pub fn arr_cents(mrr_cents: i64) -> (r: i64)
    requires
        i64::MIN <= mrr_cents * 12 <= i64::MAX,
    ensures
        r == mrr_cents * 12,
{
    mrr_cents * 12
}

/// Tenants by state.
pub struct TenantCountsResponse {
    pub total: i64,
    pub active: i64,
    pub free: i64,
    pub past_due: i64,
}

/// The number of top tenants listed: the `limit` the query gives when it reads as a
/// number, 20 otherwise, and never more than 100.
pub open spec fn top_limit(limit: Option<Seq<char>>) -> int {
    let n = match limit {
        Some(t) => match parse_int(t, true, i64::MIN as int, i64::MAX as int) {
            Some(v) => v,
            None => 20,
        },
        None => 20,
    };
    if n < 100 { n } else { 100 }
}

pub fn top_tenants_limit(limit: Option<&str>) -> (r: i64)
    ensures
        r == top_limit(match limit { Some(t) => Some(t@), None => None }),
{
    let n: i64 = match limit {
        Some(t) => match parse_i64(chars_of(t).as_slice()) {
            Some(v) => v,
            None => 20,
        },
        None => 20,
    };
    if n < 100 { n } else { 100 }
}

// ── Money display ───────────────────────────────────────────────────────────

/// `2^k`.
pub open spec fn two_to(k: nat) -> nat
    decreases k,
{
    if k == 0 { 1 } else { 2 * two_to((k - 1) as nat) }
}

/// `2^52` and `2^53`: the bounds of a double's 53-bit significand.
pub open spec fn sig_low() -> int { 4503599627370496int }
pub open spec fn sig_high() -> int { 9007199254740992int }

/// The integer nearest to `num / den` (`num >= 0`, `den > 0`), ties to the even one.
pub open spec fn round_div(num: int, den: int) -> int {
    let q = num / den;
    let r = num % den;
    if 2 * r > den || (2 * r == den && q % 2 == 1) { q + 1 } else { q }
}

/// The power of two by which `d >= 2^53` is divided to leave 53 significant bits.
pub open spec fn down_scale(d: int) -> nat {
    choose|s: nat| sig_low() * #[trigger] two_to(s) <= d < sig_high() * two_to(s)
}

/// `d as f64` for `0 <= d < 2^63`: `d` rounded to 53 significant bits, ties to an
/// even significand.
pub open spec fn to_double(d: int) -> int {
    if d < sig_high() {
        d
    } else {
        round_div(d, two_to(down_scale(d)) as int) * two_to(down_scale(d))
    }
}

/// The power of two by which `x / den` (between 1 and `2^53`) is multiplied to have
/// 53 significant bits.
pub open spec fn up_scale(x: int, den: int) -> nat {
    choose|k: nat| sig_low() * den <= x * #[trigger] two_to(k) < sig_high() * den
}

/// `{:.1}` of the double nearest `x / den`, in tenths: the double is the significand
/// `round_div(x * 2^k, den)` over `2^k`, and its tenths are rounded to the nearest,
/// ties to even.
pub open spec fn tenths_of_quotient(x: int, den: int) -> int {
    let k = up_scale(x, den);
    round_div(round_div(x * two_to(k), den) * 10, two_to(k) as int)
}

/// A number of tenths written with one decimal.
pub open spec fn tenths_text(t: int) -> Seq<char> {
    digits_of((t / 10) as nat) + seq!['.'] + digits_of((t % 10) as nat)
}

/// How an amount of cents is shown: whole dollars (rounded toward zero), in
/// millions or thousands with one decimal from a million or a thousand on (the
/// amount as a double divided by a million or a thousand), else as is.
pub open spec fn cents_text(cents: int) -> Seq<char> {
    let dollars = trunc_div(cents, 100);
    if dollars >= 1_000_000 {
        seq!['$'] + tenths_text(tenths_of_quotient(to_double(dollars), 1_000_000)) + seq!['M']
    } else if dollars >= 1_000 {
        seq!['$'] + tenths_text(tenths_of_quotient(to_double(dollars), 1_000)) + seq!['K']
    } else {
        seq!['$'] + decimal_text(dollars)
    }
}

proof fn lemma_two_to_double(k: nat)
    ensures
        two_to(k + 1) == 2 * two_to(k),
        two_to(k) >= 1,
    decreases k,
{
    if k > 0 {
        lemma_two_to_double((k - 1) as nat);
    }
}

proof fn lemma_two_to_grows(a: nat, b: nat)
    requires
        a < b,
    ensures
        2 * two_to(a) <= two_to(b),
    decreases b,
{
    lemma_two_to_double(a);
    lemma_two_to_double((b - 1) as nat);
    if a + 1 < b {
        lemma_two_to_grows(a, (b - 1) as nat);
    }
}

proof fn lemma_down_scale_unique(d: int, s: nat)
    requires
        sig_low() * two_to(s) <= d < sig_high() * two_to(s),
    ensures
        down_scale(d) == s,
{
    let t = down_scale(d);
    assert(sig_low() * two_to(t) <= d < sig_high() * two_to(t));
    if t < s {
        lemma_two_to_grows(t, s);
    } else if s < t {
        lemma_two_to_grows(s, t);
    }
}

proof fn lemma_mul_le(a: int, b: int, c: int)
    by (nonlinear_arith)
    requires
        a <= b,
        c >= 0,
    ensures
        a * c <= b * c,
{
}

proof fn lemma_up_scale_unique(x: int, den: int, k: nat)
    requires
        x >= 0,
        den > 0,
        sig_low() * den <= x * two_to(k) < sig_high() * den,
    ensures
        up_scale(x, den) == k,
{
    let t = up_scale(x, den);
    assert(sig_low() * den <= x * two_to(t) < sig_high() * den);
    if t < k {
        lemma_two_to_grows(t, k);
        let a = two_to(t) as int;
        let b = two_to(k) as int;
        lemma_mul_le(2 * a, b, x);
        assert((2 * a) * x == 2 * (x * a)) by (nonlinear_arith);
        assert(b * x == x * b) by (nonlinear_arith);
    } else if k < t {
        lemma_two_to_grows(k, t);
        let a = two_to(k) as int;
        let b = two_to(t) as int;
        lemma_mul_le(2 * a, b, x);
        assert((2 * a) * x == 2 * (x * a)) by (nonlinear_arith);
        assert(b * x == x * b) by (nonlinear_arith);
    }
}

fn round_div_exec(num: u128, den: u128) -> (r: u128)
    requires
        den > 0,
        num / den < u128::MAX,
    ensures
        r == round_div(num as int, den as int),
{
    let q = num / den;
    let rem = num % den;
    if rem > den - rem || (rem == den - rem && q % 2 == 1) { q + 1 } else { q }
}

/// `d as f64`, as the integer it is, for `0 <= d < 2^63`.
fn double_of(d: u128) -> (x: u128)
    requires
        d < 0x8000_0000_0000_0000,
    ensures
        x == to_double(d as int),
        d < sig_high() ==> x == d,
        d >= sig_high() ==> sig_low() <= x <= 2 * d,
{
    if d < 9007199254740992 {
        return d;
    }
    let mut p: u128 = 1;
    let ghost mut s: nat = 0;
    while d >= 9007199254740992 * p
        invariant
            p == two_to(s),
            sig_low() * p <= d,
            d < 0x8000_0000_0000_0000,
            p >= 1,
        decreases d - sig_low() * p,
    {
        proof {
            lemma_two_to_double(s);
        }
        p = p * 2;
        proof {
            s = s + 1;
        }
    }
    proof {
        lemma_down_scale_unique(d as int, s);
    }
    let m = round_div_exec(d, p);
    proof {
        let q = d as int / p as int;
        vstd::arithmetic::div_mod::lemma_fundamental_div_mod(d as int, p as int);
        vstd::arithmetic::div_mod::lemma_mod_pos_bound(d as int, p as int);
        assert(q <= m <= q + 1);
        lemma_mul_le(m as int, q + 1, p as int);
        lemma_mul_le(q, m as int, p as int);
        assert((q + 1) * p == q * p + p) by (nonlinear_arith);
        assert(q * p == p * q) by (nonlinear_arith);
        assert(q >= sig_low()) by {
            if q < sig_low() {
                lemma_mul_le(q + 1, sig_low(), p as int);
                assert((q + 1) * p == p * q + p) by (nonlinear_arith);
            }
        }
        lemma_mul_le(sig_low(), q, p as int);
    }
    m * p
}

/// Tenths of the double nearest `x / den`, for `den <= x < 2^53 * den`.
fn tenths_of(x: u128, den: u128) -> (t: u128)
    requires
        1 <= den <= 1_000_000,
        den <= x,
        x < sig_high() * den,
    ensures
        t == tenths_of_quotient(x as int, den as int),
        t <= 10 * sig_high() + 1,
{
    let mut p: u128 = 1;
    let ghost mut k: nat = 0;
    while x * p < 4503599627370496 * den
        invariant
            p == two_to(k),
            p >= 1,
            den <= x < sig_high() * den,
            x * p < sig_high() * den,
            1 <= den <= 1_000_000,
        decreases sig_high() * den - x * p,
    {
        proof {
            lemma_two_to_double(k);
            assert(x * (p * 2) == 2 * (x * p)) by (nonlinear_arith);
            lemma_mul_le(den as int, x as int, p as int);
            assert(den * p == p * den) by (nonlinear_arith);
            assert(p < sig_high()) by {
                if p >= sig_high() {
                    lemma_mul_le(sig_high(), p as int, den as int);
                }
            }
            assert(x * p >= 1) by (nonlinear_arith) requires x >= 1, p >= 1;
        }
        p = p * 2;
        proof {
            k = k + 1;
        }
    }
    proof {
        lemma_up_scale_unique(x as int, den as int, k);
    }
    let m = round_div_exec(x * p, den);
    proof {
        assert(m <= sig_high()) by (nonlinear_arith)
            requires m <= (x * p) as int / (den as int) + 1, x * p < sig_high() * den, den >= 1;
        assert(m * 10 <= 10 * sig_high());
    }
    let t = round_div_exec(m * 10, p);
    proof {
        assert((m * 10) as int / (p as int) <= m * 10) by (nonlinear_arith)
            requires p >= 1, m >= 0;
    }
    t
}

/// An amount of cents as the analytics show it: `$1.5K`, `$2.5M`, or whole dollars.
pub fn format_cents(cents: i64) -> (r: String)
    ensures
        r@ == cents_text(cents as int),
{
    let dollars = div_trunc_100(cents);
    if dollars >= 1_000_000 {
        let x = double_of(dollars as u128);
        proof {
            assert(sig_high() * 1_000_000 > 0x1_0000_0000_0000_0000);
        }
        let t = tenths_of(x, 1_000_000);
        let text = tenths_string(t);
        let a = concat_str("$", text.as_str());
        let r = concat_str(a.as_str(), "M");
        proof {
            reveal_strlit("$");
            reveal_strlit("M");
            assert(r@ =~= cents_text(cents as int));
        }
        r
    } else if dollars >= 1_000 {
        let t = tenths_of(dollars as u128, 1_000);
        let text = tenths_string(t);
        let a = concat_str("$", text.as_str());
        let r = concat_str(a.as_str(), "K");
        proof {
            reveal_strlit("$");
            reveal_strlit("K");
            assert(r@ =~= cents_text(cents as int));
        }
        r
    } else {
        let r = concat_str("$", i64_text(dollars).as_str());
        proof {
            reveal_strlit("$");
            assert(r@ =~= cents_text(cents as int));
        }
        r
    }
}

fn div_trunc_100(cents: i64) -> (d: i64)
    ensures
        d == trunc_div(cents as int, 100),
{
    crate::paging::div_trunc(cents, 100)
}

fn tenths_string(t: u128) -> (r: String)
    requires
        t < 0x8000_0000_0000_0000,
    ensures
        r@ == tenths_text(t as int),
{
    let whole = i64_text((t / 10) as i64);
    let frac = i64_text((t % 10) as i64);
    let a = concat_str(whole.as_str(), ".");
    let r = concat_str(a.as_str(), frac.as_str());
    proof {
        reveal_strlit(".");
        assert(r@ =~= tenths_text(t as int));
    }
    r
}

} // verus!
