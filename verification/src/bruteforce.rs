//! The brute-force logon correlation: a failed-logon burst followed by a
//! successful logon from the same source. This module holds its examiner
//! note and window.

use vstd::prelude::*;
use crate::text::{decimal, owned, push_str, push_u64};
use chrono::DateTime;

verus! {

/// Examiner-facing note used when the anchor carries no burst summary: an
/// observation, never a verdict.
pub const BRUTEFORCE_NOTE: &'static str = "A failed-logon burst followed by a successful logon linked to the same source IP or targeted account is consistent with a successful brute-force attempt (T1110).";

/// One second in nanoseconds: the granularity at which a burst's first and
/// last failures count as the same instant.
pub const NS_PER_SEC: i64 = 1_000_000_000;

/// 30 minutes in nanoseconds: the burst-to-success window.
pub const BRUTEFORCE_WINDOW_NS: i64 = 30 * 60 * 1_000_000_000;

/// How a nanosecond instant renders as `YYYY-MM-DD HH:MM:SS UTC`.
pub uninterp spec fn utc_instant_text(ns: i64) -> Seq<char>;

/// Renders a nanosecond instant as `YYYY-MM-DD HH:MM:SS UTC`.
///
/// Calls `chrono::DateTime::from_timestamp_nanos` (total over `i64`: every
/// nanosecond count is a representable instant) and formats it with
/// `%Y-%m-%d %H:%M:%S UTC`. The contract names the text `utc_instant_text`
/// of the instant, a function of the instant alone (UTC, no locale); the
/// calendar arithmetic is not restated.
#[verifier::external_body]
fn fmt_instant(ns: i64) -> (r: String)
    ensures
        r@ == utc_instant_text(ns),
{
    DateTime::from_timestamp_nanos(ns).format("%Y-%m-%d %H:%M:%S UTC").to_string()
}

/// Two instants fall in the same wall-clock second (floor division by one
/// second, so negative instants round down too).
pub open spec fn same_second(a: i64, b: i64) -> bool {
    a as int / NS_PER_SEC as int == b as int / NS_PER_SEC as int
}

/// When the burst happened: one instant for a same-second burst, else a range.
pub open spec fn burst_when(first_ns: i64, last_ns: i64) -> Seq<char> {
    if same_second(first_ns, last_ns) {
        "at "@ + utc_instant_text(first_ns)
    } else {
        "between "@ + utc_instant_text(first_ns) + " and "@ + utc_instant_text(last_ns)
    }
}

/// The concrete brute-force note.
pub open spec fn bruteforce_note_text(failure_count: nat, first_ns: i64, last_ns: i64) -> Seq<char> {
    "A burst of "@ + decimal(failure_count as int) + " failed logons "@ + burst_when(first_ns, last_ns)
        + ", followed by a successful logon linked to the same source IP or targeted account, is consistent with a successful brute-force attempt (T1110)."@
}

/// The concrete brute-force note: how many failures, over what window, then
/// a success from the same source. A burst whose failures all land in one
/// wall-clock second shows one instant ("at T") instead of a range ("between
/// T1 and T2"). Stays an observation: "consistent with", never a verdict.
pub fn bruteforce_note(failure_count: usize, first_ns: i64, last_ns: i64) -> (r: String)
    ensures
        r@ == bruteforce_note_text(failure_count as nat, first_ns, last_ns),
{
    let a = first_ns.checked_div_euclid(NS_PER_SEC);
    let b = last_ns.checked_div_euclid(NS_PER_SEC);
    let mut r = owned("A burst of ");
    push_u64(&mut r, failure_count as u64);
    push_str(&mut r, " failed logons ");
    if a == b {
        push_str(&mut r, "at ");
        let t = fmt_instant(first_ns);
        push_str(&mut r, t.as_str());
    } else {
        push_str(&mut r, "between ");
        let t1 = fmt_instant(first_ns);
        push_str(&mut r, t1.as_str());
        push_str(&mut r, " and ");
        let t2 = fmt_instant(last_ns);
        push_str(&mut r, t2.as_str());
    }
    push_str(
        &mut r,
        ", followed by a successful logon linked to the same source IP or targeted account, is consistent with a successful brute-force attempt (T1110).",
    );
    r
}

/// A burst whose first and last failures fall in the same whole second
/// (`[k, k + 1)` seconds from the epoch) is told as one instant, the first
/// failure's: "A burst of N failed logons at T, followed by ...".
pub proof fn law_note_same_second_is_one_instant(failure_count: nat, first_ns: i64, last_ns: i64, k: int)
    requires
        k * 1_000_000_000 <= first_ns < (k + 1) * 1_000_000_000,
        k * 1_000_000_000 <= last_ns < (k + 1) * 1_000_000_000,
    ensures
        bruteforce_note_text(failure_count, first_ns, last_ns) == "A burst of "@ + decimal(failure_count as int)
            + " failed logons at "@ + utc_instant_text(first_ns)
            + ", followed by a successful logon linked to the same source IP or targeted account, is consistent with a successful brute-force attempt (T1110)."@,
{
    lemma_second_of(first_ns as int, k);
    lemma_second_of(last_ns as int, k);
    assert(same_second(first_ns, last_ns));
    reveal_strlit(" failed logons at ");
    reveal_strlit(" failed logons ");
    reveal_strlit("at ");
    assert(" failed logons at "@ =~= " failed logons "@ + "at "@);
    assert(bruteforce_note_text(failure_count, first_ns, last_ns) =~= "A burst of "@ + decimal(failure_count as int)
        + " failed logons at "@ + utc_instant_text(first_ns)
        + ", followed by a successful logon linked to the same source IP or targeted account, is consistent with a successful brute-force attempt (T1110)."@);
}

/// A burst whose first and last failures lie a second or more apart is told
/// as a range: "A burst of N failed logons between T1 and T2, followed by
/// ...".
pub proof fn law_note_spread_burst_is_a_range(failure_count: nat, first_ns: i64, last_ns: i64)
    requires
        last_ns - first_ns >= 1_000_000_000 || first_ns - last_ns >= 1_000_000_000,
    ensures
        bruteforce_note_text(failure_count, first_ns, last_ns) == "A burst of "@ + decimal(failure_count as int)
            + " failed logons between "@ + utc_instant_text(first_ns) + " and "@ + utc_instant_text(last_ns)
            + ", followed by a successful logon linked to the same source IP or targeted account, is consistent with a successful brute-force attempt (T1110)."@,
{
    let a = first_ns as int;
    let b = last_ns as int;
    let d = 1_000_000_000int;
    vstd::arithmetic::div_mod::lemma_fundamental_div_mod(a, d);
    vstd::arithmetic::div_mod::lemma_fundamental_div_mod(b, d);
    vstd::arithmetic::div_mod::lemma_mod_bound(a, d);
    vstd::arithmetic::div_mod::lemma_mod_bound(b, d);
    if a / d == b / d {
        assert(a - b == a % d - b % d);
        assert(false);
    }
    assert(!same_second(first_ns, last_ns));
    reveal_strlit(" failed logons between ");
    reveal_strlit(" failed logons ");
    reveal_strlit("between ");
    assert(" failed logons between "@ =~= " failed logons "@ + "between "@);
    assert(bruteforce_note_text(failure_count, first_ns, last_ns) =~= "A burst of "@ + decimal(failure_count as int)
        + " failed logons between "@ + utc_instant_text(first_ns) + " and "@ + utc_instant_text(last_ns)
        + ", followed by a successful logon linked to the same source IP or targeted account, is consistent with a successful brute-force attempt (T1110)."@);
}

/// An instant in `[k, k + 1)` seconds counts `k` whole seconds.
proof fn lemma_second_of(ns: int, k: int)
    requires
        k * 1_000_000_000 <= ns < (k + 1) * 1_000_000_000,
    ensures
        ns / 1_000_000_000 == k,
{
    let r = ns - k * 1_000_000_000;
    assert(ns == k * 1_000_000_000 + r);
    vstd::arithmetic::div_mod::lemma_fundamental_div_mod_converse(ns, 1_000_000_000, k, r);
}

} // verus!
