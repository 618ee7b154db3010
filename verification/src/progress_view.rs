//! Presentation of ingest progress: percentages, rates, estimates and compact
//! human-readable numbers, all in integer arithmetic.

use vstd::prelude::*;
use vstd::arithmetic::power2::pow2;
use crate::text::{decimal, owned, push_char, push_str, push_u128, push_u64};

verus! {

/// A pipeline phase.
#[derive(Debug, Clone, Copy, PartialEq, Eq, Structural)]
pub enum Phase {
    Queued,
    Extracting,
    Discovering,
    Parsing,
    Done,
}

/// A point-in-time view of ingest progress.
#[derive(Debug, Clone, Copy, PartialEq, Eq, Structural)]
pub struct ProgressSnapshot {
    pub phase: Phase,
    pub artifacts_total: u64,
    pub artifacts_completed: u64,
    pub events_emitted: u64,
    pub bytes_processed: u64,
    pub errors_encountered: u64,
}

/// Nanoseconds per second.
pub open spec fn ns_per_sec() -> int {
    1_000_000_000
}

/// `completed * 100 / total`, capped at 100, or `None` while the total is 0.
pub open spec fn spec_percent(completed: u64, total: u64) -> Option<u8> {
    if total == 0 {
        None
    } else {
        let m = if completed * 100 > u64::MAX { u64::MAX as int } else { completed * 100 };
        let p = m / (total as int);
        Some((if p > 100 { 100 } else { p }) as u8)
    }
}

/// Parsed percentage `completed/total`, or `None` while the total is unknown.
pub fn percent(s: &ProgressSnapshot) -> (r: Option<u8>)
    ensures
        r == spec_percent(s.artifacts_completed, s.artifacts_total),
{
    if s.artifacts_total == 0 {
        return None;
    }
    let m: u64 = match s.artifacts_completed.checked_mul(100) {
        Some(v) => v,
        None => u64::MAX,
    };
    let p = m / s.artifacts_total;
    Some(if p > 100 {
        100u8
    } else {
        p as u8
    })
}

/// `events` per second over `elapsed_ns`, rounded half up, saturated at
/// `u64::MAX`; 0 when no time has elapsed.
pub open spec fn spec_events_per_sec(events: u64, elapsed_ns: u128) -> u64 {
    if elapsed_ns == 0 {
        0
    } else {
        let q = (2 * events * ns_per_sec() + elapsed_ns) / (2 * elapsed_ns as int);
        (if q > u64::MAX { u64::MAX as int } else { q }) as u64
    }
}

/// Events per second, computed in exact integer arithmetic and rounded half
/// up (so 3.5/s is 4); 0 when no time has elapsed. There is no binary
/// floating point: the rate is the exact quotient, rounded once.
pub fn events_per_sec(events: u64, elapsed_ns: u128) -> (r: u64)
    ensures
        r == spec_events_per_sec(events, elapsed_ns),
{
    if elapsed_ns == 0 {
        return 0;
    }
    if elapsed_ns > u128::MAX / 4 {
        // 2 * events * 1e9 < 2^95 < elapsed_ns, so the quotient is 0 or 1.
        let num: u128 = 2 * (events as u128) * 1_000_000_000;
        proof {
            assert(num < 2 * elapsed_ns) by (nonlinear_arith)
                requires
                    num == 2 * (events as int) * 1_000_000_000,
                    events <= u64::MAX,
                    elapsed_ns > u128::MAX / 4,
            ;
        }
        let q: u128 = if num >= elapsed_ns {
            1
        } else {
            0
        };
        proof {
            let d = 2 * (elapsed_ns as int);
            let n2 = num + elapsed_ns;
            if num >= elapsed_ns {
                vstd::arithmetic::div_mod::lemma_div_multiples_vanish_fancy(1, n2 - d, d);
                assert(d * 1 + (n2 - d) == n2);
            } else {
                vstd::arithmetic::div_mod::lemma_basic_div(n2 as int, d);
            }
        }
        return q as u64;
    }
    let q: u128 = (2 * (events as u128) * 1_000_000_000 + elapsed_ns) / (2 * elapsed_ns);
    if q > u64::MAX as u128 {
        u64::MAX
    } else {
        q as u64
    }
}

/// Estimated nanoseconds remaining, `elapsed_ns * (total - completed) /
/// completed` rounded down (with `total - completed` floored at 0); `None`
/// when nothing has completed or the total is unknown.
pub open spec fn spec_eta(completed: u64, total: u64, elapsed_ns: u128) -> Option<u128> {
    if completed == 0 || total == 0 {
        None
    } else {
        let remaining = if total >= completed { total - completed } else { 0 };
        let v = elapsed_ns * remaining / (completed as int);
        Some((if v > u128::MAX { u128::MAX as int } else { v }) as u128)
    }
}

/// Estimated time remaining (nanoseconds), extrapolating the completion rate:
/// `elapsed * remaining / completed` in exact integer arithmetic, rounded
/// down to the nanosecond.
pub fn eta(completed: u64, total: u64, elapsed_ns: u128) -> (r: Option<u128>)
    ensures
        r == spec_eta(completed, total, elapsed_ns),
{
    if completed == 0 || total == 0 {
        return None;
    }
    let remaining: u64 = if total >= completed {
        total - completed
    } else {
        0
    };
    // elapsed_ns * remaining / completed <= elapsed_ns * remaining, computed
    // as q * remaining + (r * remaining) / completed with elapsed_ns = q * completed + r.
    let q: u128 = elapsed_ns / (completed as u128);
    let rr: u128 = elapsed_ns % (completed as u128);
    proof {
        let e = elapsed_ns as int;
        let c = completed as int;
        vstd::arithmetic::div_mod::lemma_fundamental_div_mod(e, c);
        vstd::arithmetic::div_mod::lemma_mod_pos_bound(e, c);
        assert(rr * (remaining as int) <= u128::MAX) by (nonlinear_arith)
            requires
                0 <= rr < c,
                c <= u64::MAX,
                0 <= remaining <= u64::MAX,
        ;
    }
    let part: u128 = rr * (remaining as u128) / (completed as u128);
    proof {
        let e = elapsed_ns as int;
        let c = completed as int;
        let m = remaining as int;
        assert(e * m == rr * m + (q * m) * c) by (nonlinear_arith)
            requires
                e == c * q + rr,
        ;
        vstd::arithmetic::div_mod::lemma_hoist_over_denominator(rr * m, q * m, c as nat);
    }
    match q.checked_mul(remaining as u128) {
        Some(base) => {
            match base.checked_add(part) {
                Some(v) => Some(v),
                None => Some(u128::MAX),
            }
        },
        None => {
            proof {
                assert(q * (remaining as int) <= (elapsed_ns as int) * (remaining as int) / (completed as int)) by {
                    vstd::arithmetic::div_mod::lemma_div_pos_is_pos(rr * (remaining as int), completed as int);
                }
            }
            Some(u128::MAX)
        },
    }
}

/// `a / b` rounded to the nearest integer, ties to the even one.
pub open spec fn round_half_even(a: nat, b: nat) -> nat
    recommends
        b > 0,
{
    let q = a / b;
    let r = a % b;
    if 2 * r > b || (2 * r == b && q % 2 == 1) {
        q + 1
    } else {
        q
    }
}

/// The least `s >= from` (at most 64) with `n < 2^(53 + s)`: how many low
/// bits of `n` do not fit a 53-bit significand.
pub open spec fn excess_bits(n: nat, from: nat) -> nat
    decreases 64 - from,
{
    if from >= 64 || n < pow2(53 + from) {
        from
    } else {
        excess_bits(n, from + 1)
    }
}

/// The value of `n as f64`: `n` rounded to a 53-bit significand, ties to
/// even (exact below 2^53).
pub open spec fn f64_of_int(n: nat) -> nat {
    let p = pow2(excess_bits(n, 0));
    round_half_even(n, p) * p
}

/// The least `k >= from` (at most 60) with `x * 2^k >= 2^52 * unit`: for
/// `x >= unit` it makes `x * 2^k / unit` a 53-bit significand of `x / unit`.
pub open spec fn significand_shift(x: nat, unit: nat, from: nat) -> nat
    decreases 60 - from,
{
    if from >= 60 || x * pow2(from) >= pow2(52) * unit {
        from
    } else {
        significand_shift(x, unit, from + 1)
    }
}

/// Tenths of `n as f64 / unit as f64` as `{:.1}` prints them: the quotient
/// is rounded to the nearest binary64 (significand `m`, scale `2^-k`), and
/// that exact value is rounded to tenths, ties to even. This models the
/// binary64 quotient for `unit <= n` with `n / unit < 2^52`, which covers
/// every unit and range it is used with here.
pub open spec fn float_tenths(n: u64, unit: nat) -> nat {
    let x = f64_of_int(n as nat);
    let k = significand_shift(x, unit, 0);
    let m = round_half_even(x * pow2(k), unit);
    round_half_even(10 * m, pow2(k))
}

/// One decimal place of `n / unit` as text: the integer part, `.`, and the
/// tenths digit, from `float_tenths`.
pub open spec fn one_decimal(n: u64, unit: int) -> Seq<char> {
    let tenths = float_tenths(n, unit as nat);
    decimal((tenths / 10) as int) + seq!['.'] + decimal((tenths % 10) as int)
}

/// `2^k`.
fn pow2_u128(k: u32) -> (p: u128)
    requires
        k <= 64,
    ensures
        p == pow2(k as nat),
{
    let mut p: u128 = 1;
    let mut i: u32 = 0;
    proof {
        vstd::arithmetic::power2::lemma2_to64();
    }
    while i < k
        invariant
            i <= k <= 64,
            p == pow2(i as nat),
        decreases k - i,
    {
        proof {
            vstd::arithmetic::power2::lemma_pow2_unfold((i + 1) as nat);
            vstd::arithmetic::power2::lemma2_to64_rest();
            if i + 1 < 64 {
                vstd::arithmetic::power2::lemma_pow2_strictly_increases((i + 1) as nat, 64);
            }
        }
        p = p * 2;
        i = i + 1;
    }
    p
}

/// `round_half_even(a, b)`.
fn round_half_even_u128(a: u128, b: u128) -> (r: u128)
    requires
        b > 0,
    ensures
        r == round_half_even(a as nat, b as nat),
{
    let q = a / b;
    let rem = a % b;
    if rem > b - rem || (rem == b - rem && q % 2 == 1) {
        proof {
            vstd::arithmetic::div_mod::lemma_fundamental_div_mod(a as int, b as int);
            assert(q < u128::MAX) by (nonlinear_arith)
                requires
                    a == b * q + rem,
                    rem > 0,
                    b > 0,
                    q >= 0,
                    a <= u128::MAX,
            ;
        }
        q + 1
    } else {
        q
    }
}

/// `round_half_even(a, b) <= a / b + 1`.
proof fn lemma_round_half_even_bound(a: nat, b: nat)
    requires
        b > 0,
    ensures
        round_half_even(a, b) <= a / b + 1,
{
}

/// `n as f64`, as an integer.
fn f64_value(n: u64) -> (x: u128)
    ensures
        x == f64_of_int(n as nat),
        x <= pow2(64),
{
    proof {
        vstd::arithmetic::power2::lemma2_to64();
        vstd::arithmetic::power2::lemma2_to64_rest();
    }
    let mut s: u32 = 0;
    while s < 11 && (n as u128) >= pow2_u128(53 + s)
        invariant
            s <= 11,
            excess_bits(n as nat, 0) == excess_bits(n as nat, s as nat),
        decreases 11 - s,
    {
        s = s + 1;
    }
    proof {
        if s == 11 {
            assert((n as nat) < pow2(64));
        }
        assert(excess_bits(n as nat, s as nat) == s);
    }
    let p = pow2_u128(s);
    let q = (n as u128) / p;
    let rem = (n as u128) % p;
    proof {
        vstd::arithmetic::power2::lemma_pow2_pos(s as nat);
    }
    let r = round_half_even_u128(n as u128, p);
    proof {
        vstd::arithmetic::div_mod::lemma_fundamental_div_mod(n as int, p as int);
        let t = pow2((64 - s) as nat);
        vstd::arithmetic::power2::lemma_pow2_adds(s as nat, (64 - s) as nat);
        assert(r * p <= pow2(64)) by (nonlinear_arith)
            requires
                n == p * q + rem,
                0 <= rem < p,
                n < pow2(64),
                p * t == pow2(64),
                r <= q + 1,
                rem == 0 ==> r == q,
                p > 0,
        ;
    }
    r * p
}

/// Appends `one_decimal(n, unit)`.
fn push_one_decimal(out: &mut String, n: u64, unit: u64)
    requires
        1000 <= unit <= 1_073_741_824,
    ensures
        final(out)@ == old(out)@ + one_decimal(n, unit as int),
{
    proof {
        vstd::arithmetic::power2::lemma2_to64();
        vstd::arithmetic::power2::lemma2_to64_rest();
    }
    let x = f64_value(n);
    let u = unit as u128;
    let limit: u128 = pow2_u128(52) * u;
    let mut k: u32 = 0;
    let mut p: u128 = 1;
    let mut xs: u128 = x;
    while k < 60 && xs < limit
        invariant
            k <= 60,
            p == pow2(k as nat),
            xs == x * p,
            limit == pow2(52) * u,
            limit < 0x1000_0000_0000_0000_0000_0000,
            significand_shift(x as nat, u as nat, 0) == significand_shift(x as nat, u as nat, k as nat),
        decreases 60 - k,
    {
        proof {
            vstd::arithmetic::power2::lemma_pow2_unfold((k + 1) as nat);
            vstd::arithmetic::power2::lemma_pow2_strictly_increases(k as nat, 60);
            vstd::arithmetic::power2::lemma2_to64_rest();
            assert(x * (p * 2) == (x * p) * 2) by (nonlinear_arith);
        }
        p = p * 2;
        xs = xs * 2;
        k = k + 1;
    }
    let m = round_half_even_u128(xs, u);
    proof {
        lemma_round_half_even_bound(xs as nat, u as nat);
        assert(xs as nat / u as nat <= xs as nat / 1000) by {
            vstd::arithmetic::div_mod::lemma_div_is_ordered_by_denominator(xs as int, 1000, u as int);
        }
    }
    let t = round_half_even_u128(10 * m, p);
    proof {
        lemma_round_half_even_bound((10 * m) as nat, p as nat);
        vstd::arithmetic::power2::lemma_pow2_pos(k as nat);
        assert((10 * m) as nat / (p as nat) <= (10 * m) as nat) by {
            vstd::arithmetic::div_mod::lemma_div_is_ordered_by_denominator((10 * m) as int, 1, p as int);
        }
    }
    push_u128(out, t / 10);
    push_char(out, '.');
    push_u128(out, t % 10);
    assert(final(out)@ =~= old(out)@ + one_decimal(n, unit as int));
}

/// Compact count: `950`, `18.4k`, `2.5M`.
pub open spec fn spec_humanize_count(n: u64) -> Seq<char> {
    if n <= 999 {
        decimal(n as int)
    } else if n <= 999_999 {
        one_decimal(n, 1000) + seq!['k']
    } else {
        one_decimal(n, 1_000_000) + seq!['M']
    }
}


/// Compact integer: `950`, `18.4k`, `2.5M`. The tenths are those `{:.1}`
/// prints for the binary64 quotient (`float_tenths`), so 18 450 shows as
/// `18.4k`: the nearest binary64 to 18.45 lies just below it.
pub fn humanize_count(n: u64) -> (r: String)
    ensures
        r@ == spec_humanize_count(n),
{
    let mut s = String::new();
    if n <= 999 {
        push_u64(&mut s, n);
    } else if n <= 999_999 {
        push_one_decimal(&mut s, n, 1000);
        push_char(&mut s, 'k');
    } else {
        push_one_decimal(&mut s, n, 1_000_000);
        push_char(&mut s, 'M');
    }
    assert(s@ =~= spec_humanize_count(n));
    s
}

/// Byte count in the largest fitting unit: `512 B`, `1.5 KB`, `1.2 GB`.
pub open spec fn spec_humanize_bytes(n: u64) -> Seq<char> {
    if n < 1024 {
        decimal(n as int) + " B"@
    } else if n < 1024 * 1024 {
        one_decimal(n, 1024) + " KB"@
    } else if n < 1024 * 1024 * 1024 {
        one_decimal(n, 1_048_576) + " MB"@
    } else {
        one_decimal(n, 1_073_741_824) + " GB"@
    }
}

/// Byte count in the largest fitting unit: `512 B`, `1.5 KB`, `1.2 GB`. The
/// tenths are those `{:.1}` prints for the binary64 quotient
/// (`float_tenths`), ties to even, so 1280 bytes show as `1.2 KB`.
pub fn humanize_bytes(n: u64) -> (r: String)
    ensures
        r@ == spec_humanize_bytes(n),
{
    let mut s = String::new();
    if n < 1024 {
        push_u64(&mut s, n);
        push_str(&mut s, " B");
    } else if n < 1024 * 1024 {
        push_one_decimal(&mut s, n, 1024);
        push_str(&mut s, " KB");
    } else if n < 1024 * 1024 * 1024 {
        push_one_decimal(&mut s, n, 1024 * 1024);
        push_str(&mut s, " MB");
    } else {
        push_one_decimal(&mut s, n, 1024 * 1024 * 1024);
        push_str(&mut s, " GB");
    }
    assert(s@ =~= spec_humanize_bytes(n));
    s
}

/// The label of a phase.
pub open spec fn spec_phase_label(p: Phase) -> Seq<char> {
    match p {
        Phase::Queued => "queued"@,
        Phase::Extracting => "extracting"@,
        Phase::Discovering => "discovering"@,
        Phase::Parsing => "parsing"@,
        Phase::Done => "done"@,
    }
}

/// Human label for a pipeline phase.
pub fn phase_label(phase: Phase) -> (r: &'static str)
    ensures
        r@ == spec_phase_label(phase),
{
    match phase {
        Phase::Queued => "queued",
        Phase::Extracting => "extracting",
        Phase::Discovering => "discovering",
        Phase::Parsing => "parsing",
        Phase::Done => "done",
    }
}

/// A number below 100 as two digits.
pub open spec fn two_digits(n: int) -> Seq<char> {
    if n < 10 {
        seq!['0'] + decimal(n)
    } else {
        decimal(n)
    }
}

/// `M:SS`, or `H:MM:SS` past an hour, of the whole seconds in `ns`.
pub open spec fn spec_fmt_duration(ns: u128) -> Seq<char> {
    let secs: int = (ns as int) / ns_per_sec();
    let h = secs / 3600;
    let m = (secs % 3600) / 60;
    let s = secs % 60;
    if h > 0 {
        decimal(h) + seq![':'] + two_digits(m) + seq![':'] + two_digits(s)
    } else {
        decimal(m) + seq![':'] + two_digits(s)
    }
}

/// Appends `two_digits(n)`.
fn push_two_digits(out: &mut String, n: u64)
    requires
        n < 100,
    ensures
        final(out)@ == old(out)@ + two_digits(n as int),
{
    if n < 10 {
        push_char(out, '0');
    }
    push_u64(out, n);
    assert(final(out)@ =~= old(out)@ + two_digits(n as int));
}

/// `M:SS` (or `H:MM:SS` past an hour) of a duration in nanoseconds.
pub fn fmt_duration(ns: u128) -> (r: String)
    ensures
        r@ == spec_fmt_duration(ns),
{
    let secs: u128 = ns / 1_000_000_000;
    let h: u128 = secs / 3600;
    let m: u128 = (secs % 3600) / 60;
    let sec: u128 = secs % 60;
    let mut s = String::new();
    if h > 0 {
        push_u128(&mut s, h);
        push_char(&mut s, ':');
        push_two_digits(&mut s, m as u64);
        push_char(&mut s, ':');
        push_two_digits(&mut s, sec as u64);
    } else {
        push_u128(&mut s, m);
        push_char(&mut s, ':');
        push_two_digits(&mut s, sec as u64);
    }
    assert(s@ =~= spec_fmt_duration(ns));
    s
}

/// The progress part of the status line.
pub open spec fn spec_progress_part(s: ProgressSnapshot, elapsed_ns: u128) -> Seq<char> {
    match spec_percent(s.artifacts_completed, s.artifacts_total) {
        Some(pct) => "  "@ + spec_humanize_count(s.artifacts_completed) + seq!['/'] + spec_humanize_count(
            s.artifacts_total,
        ) + "  "@ + decimal(pct as int) + seq!['%'] + match spec_eta(
            s.artifacts_completed,
            s.artifacts_total,
            elapsed_ns,
        ) {
            Some(e) => "  ETA "@ + spec_fmt_duration(e),
            None => seq![],
        },
        None => seq![],
    }
}

/// The events part of the status line.
pub open spec fn spec_events_part(s: ProgressSnapshot, elapsed_ns: u128) -> Seq<char> {
    "  "@ + spec_humanize_count(s.events_emitted) + " events  "@ + spec_humanize_count(
        spec_events_per_sec(s.events_emitted, elapsed_ns),
    ) + " ev/s"@
}

/// The errors part of the status line.
pub open spec fn spec_errors_part(s: ProgressSnapshot) -> Seq<char> {
    if s.errors_encountered > 0 {
        "  "@ + decimal(s.errors_encountered as int) + " errors"@
    } else {
        seq![]
    }
}

/// Appends the progress part.
fn push_progress(line: &mut String, s: &ProgressSnapshot, elapsed_ns: u128)
    ensures
        final(line)@ == old(line)@ + spec_progress_part(*s, elapsed_ns),
{
    let ghost start = line@;
    match percent(s) {
        Some(pct) => {
            push_str(line, "  ");
            let c = humanize_count(s.artifacts_completed);
            push_str(line, c.as_str());
            push_char(line, '/');
            let t = humanize_count(s.artifacts_total);
            push_str(line, t.as_str());
            push_str(line, "  ");
            push_u64(line, pct as u64);
            push_char(line, '%');
            let ghost mid = line@;
            match eta(s.artifacts_completed, s.artifacts_total, elapsed_ns) {
                Some(e) => {
                    push_str(line, "  ETA ");
                    let d = fmt_duration(e);
                    push_str(line, d.as_str());
                },
                None => {},
            }
            assert(line@ =~= start + spec_progress_part(*s, elapsed_ns));
        },
        None => {
            assert(line@ =~= start + spec_progress_part(*s, elapsed_ns));
        },
    }
}

/// Appends the events part.
fn push_events(line: &mut String, s: &ProgressSnapshot, elapsed_ns: u128)
    ensures
        final(line)@ == old(line)@ + spec_events_part(*s, elapsed_ns),
{
    let ghost start = line@;
    push_str(line, "  ");
    let ev = humanize_count(s.events_emitted);
    push_str(line, ev.as_str());
    push_str(line, " events  ");
    let rate = humanize_count(events_per_sec(s.events_emitted, elapsed_ns));
    push_str(line, rate.as_str());
    push_str(line, " ev/s");
    assert(line@ =~= start + spec_events_part(*s, elapsed_ns));
}

/// The status line: phase label; once the total is known, `completed/total`,
/// the percentage and (when a rate exists) the ETA; then the event count and
/// rate; then the error count when there are errors.
pub open spec fn spec_status_line(s: ProgressSnapshot, elapsed_ns: u128) -> Seq<char> {
    spec_phase_label(s.phase) + spec_progress_part(s, elapsed_ns) + spec_events_part(s, elapsed_ns)
        + spec_errors_part(s)
}

/// A one-line status string: phase, progress (only once the total is known),
/// event count, rate, ETA and error count.
pub fn status_line(s: &ProgressSnapshot, elapsed_ns: u128) -> (r: String)
    ensures
        r@ == spec_status_line(*s, elapsed_ns),
{
    let mut line = owned(phase_label(s.phase));
    push_progress(&mut line, s, elapsed_ns);
    push_events(&mut line, s, elapsed_ns);
    let ghost before_errors = line@;
    if s.errors_encountered > 0 {
        push_str(&mut line, "  ");
        push_u64(&mut line, s.errors_encountered);
        push_str(&mut line, " errors");
    }
    assert(line@ =~= before_errors + spec_errors_part(*s));
    assert(line@ =~= spec_status_line(*s, elapsed_ns));
    line
}

/// The status line opens with the phase label and closes with the event
/// count, then the rate: the events-per-second figure of `events_emitted`
/// over the elapsed time, shown compactly and followed by ` ev/s`; then the
/// error count when there are errors.
pub proof fn law_status_line_reports_rate(s: ProgressSnapshot, elapsed_ns: u128)
    ensures
        ({
            let line = spec_status_line(s, elapsed_ns);
            let rate = spec_events_per_sec(s.events_emitted, elapsed_ns);
            let errors = if s.errors_encountered == 0 {
                Seq::<char>::empty()
            } else {
                "  "@ + decimal(s.errors_encountered as int) + " errors"@
            };
            let tail = "  "@ + spec_humanize_count(s.events_emitted) + " events  "@ + spec_humanize_count(rate) + " ev/s"@ + errors;
            &&& line == spec_phase_label(s.phase) + spec_progress_part(s, elapsed_ns) + tail
            &&& line.len() >= tail.len()
            &&& line.subrange(line.len() - tail.len(), line.len() as int) == tail
            &&& line.take(spec_phase_label(s.phase).len() as int) == spec_phase_label(s.phase)
        }),
{
    let line = spec_status_line(s, elapsed_ns);
    let rate = spec_events_per_sec(s.events_emitted, elapsed_ns);
    let errors = if s.errors_encountered == 0 {
        Seq::<char>::empty()
    } else {
        "  "@ + decimal(s.errors_encountered as int) + " errors"@
    };
    let tail = "  "@ + spec_humanize_count(s.events_emitted) + " events  "@ + spec_humanize_count(rate) + " ev/s"@ + errors;
    let head = spec_phase_label(s.phase) + spec_progress_part(s, elapsed_ns);
    assert(spec_errors_part(s) =~= errors);
    assert(line =~= head + tail);
    assert(line.subrange(line.len() - tail.len(), line.len() as int) =~= tail);
    assert(line.take(spec_phase_label(s.phase).len() as int) =~= spec_phase_label(s.phase));
}

/// The rate is the events per second rounded half up: with `r` the rate,
/// `r - 1/2 <= events / seconds < r + 1/2`, unless the rate saturates at
/// `u64::MAX`, where `events / seconds >= u64::MAX - 1/2`; with no elapsed
/// time the rate is 0.
pub proof fn law_events_per_sec_rounds_half_up(events: u64, elapsed_ns: u128)
    ensures
        elapsed_ns == 0 ==> spec_events_per_sec(events, elapsed_ns) == 0,
        elapsed_ns > 0 && spec_events_per_sec(events, elapsed_ns) < u64::MAX ==> ({
            let r = spec_events_per_sec(events, elapsed_ns) as int;
            let e = elapsed_ns as int;
            &&& 2 * r * e <= 2 * (events as int) * 1_000_000_000 + e
            &&& 2 * (events as int) * 1_000_000_000 + e < 2 * (r + 1) * e
        }),
        elapsed_ns > 0 && spec_events_per_sec(events, elapsed_ns) == u64::MAX ==> 2 * (u64::MAX as int)
            * (elapsed_ns as int) <= 2 * (events as int) * 1_000_000_000 + elapsed_ns,
{
    if elapsed_ns > 0 {
        let e = elapsed_ns as int;
        let n = 2 * (events as int) * 1_000_000_000 + e;
        let d = 2 * e;
        let q = n / d;
        vstd::arithmetic::div_mod::lemma_fundamental_div_mod(n, d);
        vstd::arithmetic::div_mod::lemma_mod_pos_bound(n, d);
        assert(q * d <= n < (q + 1) * d) by (nonlinear_arith)
            requires
                n == d * q + n % d,
                0 <= n % d < d,
        ;
        let r = spec_events_per_sec(events, elapsed_ns) as int;
        if r < u64::MAX {
            assert(r == q);
            assert(2 * r * e == r * d) by (nonlinear_arith)
                requires d == 2 * e,
            ;
            assert(2 * (r + 1) * e == (r + 1) * d) by (nonlinear_arith)
                requires d == 2 * e,
            ;
        } else {
            assert(q >= u64::MAX);
            assert(2 * (u64::MAX as int) * e <= q * d) by (nonlinear_arith)
                requires d == 2 * e, q >= u64::MAX, e > 0,
            ;
        }
    }
}

/// The percentage is `completed / total` in hundredths rounded down, capped
/// at 100 (a product `completed * 100` past `u64::MAX` counts as
/// `u64::MAX`), and there is none while the total is 0: with `p` the percentage
/// and no overflow of `completed * 100`, `p * total <= completed * 100`, and
/// either `p` is 100 or `completed * 100 < (p + 1) * total`.
pub proof fn law_percent_rounds_down(completed: u64, total: u64)
    ensures
        total == 0 <==> spec_percent(completed, total) is None,
        total > 0 ==> spec_percent(completed, total)->0 <= 100,
        total > 0 && completed as int * 100 <= u64::MAX ==> ({
            let p = spec_percent(completed, total)->0 as int;
            &&& p * total <= completed * 100
            &&& p == 100 || completed * 100 < (p + 1) * total
        }),
        total > 0 && completed >= total && completed as int * 100 <= u64::MAX ==> spec_percent(completed, total)
            == Some(100u8),
{
    if total > 0 {
        let t = total as int;
        let m = if completed * 100 > u64::MAX { u64::MAX as int } else { completed * 100 };
        let q = m / t;
        vstd::arithmetic::div_mod::lemma_fundamental_div_mod(m, t);
        vstd::arithmetic::div_mod::lemma_mod_pos_bound(m, t);
        assert(q * t <= m < (q + 1) * t) by (nonlinear_arith)
            requires
                m == t * q + m % t,
                0 <= m % t < t,
        ;
        if completed >= total && completed * 100 <= u64::MAX {
            assert(m >= 100 * t);
            assert(q >= 100) by (nonlinear_arith)
                requires m >= 100 * t, m < (q + 1) * t, t > 0,
            ;
        }
        if q <= 100 {
            let p = q;
            assert(p * t <= m);
        } else {
            assert(100 * t <= q * t) by (nonlinear_arith)
                requires q > 100, t > 0,
            ;
        }
    }
}

/// The ETA extrapolates the completion rate, rounded down: with `eta` the
/// estimate, `remaining = total - completed` (0 past the total) and no
/// saturation, `eta * completed <= elapsed * remaining < (eta + 1) *
/// completed`; there is none before anything completes or while the total
/// is 0, and it is 0 once everything has completed.
pub proof fn law_eta_extrapolates(completed: u64, total: u64, elapsed_ns: u128)
    ensures
        (completed == 0 || total == 0) <==> spec_eta(completed, total, elapsed_ns) is None,
        completed > 0 && total > 0 && completed >= total ==> spec_eta(completed, total, elapsed_ns) == Some(0u128),
        completed > 0 && total > 0 && spec_eta(completed, total, elapsed_ns)->0 < u128::MAX ==> ({
            let eta = spec_eta(completed, total, elapsed_ns)->0 as int;
            let remaining = if total >= completed { total - completed } else { 0 };
            &&& eta * completed <= elapsed_ns * remaining
            &&& elapsed_ns * remaining < (eta + 1) * completed
        }),
{
    if completed > 0 && total > 0 {
        let c = completed as int;
        let remaining: int = if total >= completed { total - completed } else { 0 };
        let n = elapsed_ns * remaining;
        let q = n / c;
        assert(n >= 0) by (nonlinear_arith)
            requires n == elapsed_ns * remaining, remaining >= 0, elapsed_ns >= 0,
        ;
        vstd::arithmetic::div_mod::lemma_fundamental_div_mod(n, c);
        vstd::arithmetic::div_mod::lemma_mod_pos_bound(n, c);
        assert(q * c <= n < (q + 1) * c) by (nonlinear_arith)
            requires
                n == c * q + n % c,
                0 <= n % c < c,
        ;
        if completed >= total {
            assert(remaining == 0);
            assert(n == 0);
            assert(q == 0);
        }
    }
}

/// A duration shows its whole seconds as hours, minutes and seconds: with
/// `h` hours, `m < 60` minutes and `sec < 60` seconds making up the whole
/// seconds of `ns`, it reads `M:SS` when `h` is 0 and `H:MM:SS` otherwise,
/// minutes and seconds zero-padded after a colon.
pub proof fn law_duration_reads_back(ns: u128, h: nat, m: nat, sec: nat)
    requires
        m < 60,
        sec < 60,
        (h * 3600 + m * 60 + sec) * 1_000_000_000 <= ns < (h * 3600 + m * 60 + sec + 1) * 1_000_000_000,
    ensures
        h == 0 ==> spec_fmt_duration(ns) == decimal(m as int) + seq![':'] + two_digits(sec as int),
        h > 0 ==> spec_fmt_duration(ns) == decimal(h as int) + seq![':'] + two_digits(m as int) + seq![':']
            + two_digits(sec as int),
{
    let total = h * 3600 + m * 60 + sec;
    let r = ns - total * 1_000_000_000;
    vstd::arithmetic::div_mod::lemma_fundamental_div_mod_converse(ns as int, 1_000_000_000, total as int, r);
    let ms = m * 60 + sec;
    assert(ms < 3600);
    vstd::arithmetic::div_mod::lemma_fundamental_div_mod_converse(total as int, 3600, h as int, ms as int);
    vstd::arithmetic::div_mod::lemma_fundamental_div_mod_converse(ms as int, 60, m as int, sec as int);
    assert(total == (h * 60 + m) * 60 + sec);
    vstd::arithmetic::div_mod::lemma_fundamental_div_mod_converse(total as int, 60, (h * 60 + m) as int, sec as int);
}

/// A text that starts with a part starts with it.
proof fn lemma_starts_with(a: Seq<char>, b: Seq<char>)
    ensures
        (a + b).take(a.len() as int) == a,
{
    assert((a + b).take(a.len() as int) =~= a);
}

/// The status line is the phase label, the progress part, the events part
/// and the errors part, in that order.
proof fn lemma_status_line_parts(s: ProgressSnapshot, elapsed_ns: u128)
    ensures
        spec_status_line(s, elapsed_ns) == spec_phase_label(s.phase) + spec_progress_part(s, elapsed_ns) + (
        spec_events_part(s, elapsed_ns) + spec_errors_part(s)),
{
    assert(spec_status_line(s, elapsed_ns) =~= spec_phase_label(s.phase) + spec_progress_part(s, elapsed_ns) + (
    spec_events_part(s, elapsed_ns) + spec_errors_part(s)));
}

/// Once the total is known, the status line goes on from the phase label
/// with `completed/total` and the percentage, then the ETA when there is
/// one.
pub proof fn law_status_line_reports_progress(s: ProgressSnapshot, elapsed_ns: u128)
    requires
        s.artifacts_total > 0,
    ensures
        ({
            let line = spec_status_line(s, elapsed_ns);
            let pct = spec_percent(s.artifacts_completed, s.artifacts_total)->0;
            let eta_text = match spec_eta(s.artifacts_completed, s.artifacts_total, elapsed_ns) {
                Some(t) => "  ETA "@ + spec_fmt_duration(t),
                None => Seq::<char>::empty(),
            };
            let shown = spec_phase_label(s.phase) + "  "@ + spec_humanize_count(s.artifacts_completed) + "/"@
                + spec_humanize_count(s.artifacts_total) + "  "@ + decimal(pct as int) + "%"@ + eta_text;
            &&& shown.len() <= line.len()
            &&& line.take(shown.len() as int) == shown
        }),
{
    let pct = spec_percent(s.artifacts_completed, s.artifacts_total)->0;
    let eta_text = match spec_eta(s.artifacts_completed, s.artifacts_total, elapsed_ns) {
        Some(t) => "  ETA "@ + spec_fmt_duration(t),
        None => Seq::<char>::empty(),
    };
    let shown = spec_phase_label(s.phase) + "  "@ + spec_humanize_count(s.artifacts_completed) + "/"@
        + spec_humanize_count(s.artifacts_total) + "  "@ + decimal(pct as int) + "%"@ + eta_text;
    lemma_status_line_parts(s, elapsed_ns);
    reveal_strlit("/");
    reveal_strlit("%");
    assert(spec_phase_label(s.phase) + spec_progress_part(s, elapsed_ns) =~= shown);
    lemma_starts_with(shown, spec_events_part(s, elapsed_ns) + spec_errors_part(s));
}

/// While the total is 0 the status line shows no progress: the event count
/// comes straight after the phase label.
pub proof fn law_status_line_without_total(s: ProgressSnapshot, elapsed_ns: u128)
    requires
        s.artifacts_total == 0,
    ensures
        ({
            let line = spec_status_line(s, elapsed_ns);
            let shown = spec_phase_label(s.phase) + "  "@ + spec_humanize_count(s.events_emitted) + " events  "@;
            &&& shown.len() <= line.len()
            &&& line.take(shown.len() as int) == shown
        }),
{
    let shown = spec_phase_label(s.phase) + "  "@ + spec_humanize_count(s.events_emitted) + " events  "@;
    lemma_status_line_parts(s, elapsed_ns);
    let tail = spec_humanize_count(spec_events_per_sec(s.events_emitted, elapsed_ns)) + " ev/s"@ + spec_errors_part(s);
    assert(spec_status_line(s, elapsed_ns) =~= shown + tail);
    lemma_starts_with(shown, tail);
}
/// A quotient rounded half to even lies within half a divisor of the
/// dividend: `2 * |m * b - a| <= b`.
proof fn lemma_round_half_even_close(a: nat, b: nat)
    requires
        b > 0,
    ensures
        2 * (round_half_even(a, b) * b) <= 2 * a + b,
        2 * a <= 2 * (round_half_even(a, b) * b) + b,
{
    let q = a / b;
    let r = a % b;
    vstd::arithmetic::div_mod::lemma_fundamental_div_mod(a as int, b as int);
    vstd::arithmetic::div_mod::lemma_mod_pos_bound(a as int, b as int);
    let m = round_half_even(a, b);
    if 2 * r > b || (2 * r == b && q % 2 == 1) {
        assert(m == q + 1);
        assert(m * b == q * b + b) by (nonlinear_arith)
            requires m == q + 1,
        ;
    } else {
        assert(m == q);
    }
    assert(a == q * b + r) by (nonlinear_arith)
        requires a == b * q + r,
    ;
}

/// The search for a significand shift never goes below where it starts.
proof fn lemma_significand_shift_from(x: nat, unit: nat, from: nat)
    ensures
        significand_shift(x, unit, from) >= from,
    decreases 60 - from,
{
    if !(from >= 60 || x * pow2(from) >= pow2(52) * unit) {
        lemma_significand_shift_from(x, unit, from + 1);
    }
}

/// Below 2^53 a count converts to binary64 exactly, and when it is a whole
/// number of tenths of `unit` (`10 * n == t * unit`) those are the tenths
/// `{:.1}` prints.
proof fn lemma_float_tenths_exact(n: u64, unit: nat, t: nat)
    requires
        16 <= unit,
        n < pow2(53),
        10 * n == t * unit,
        t >= 1,
    ensures
        float_tenths(n, unit) == t,
{
    vstd::arithmetic::power2::lemma2_to64();
    // n as f64 is n.
    assert(excess_bits(n as nat, 0) == 0);
    assert(round_half_even(n as nat, 1) == n as nat);
    assert(f64_of_int(n as nat) == n as nat);
    // The shift is at least 4, so the scale is at least 16.
    let x = n as nat;
    assert(pow2(52) * 16 == pow2(56)) by {
        vstd::arithmetic::power2::lemma_pow2_adds(52, 4);
    }
    assert(pow2(53) * 8 == pow2(56)) by {
        vstd::arithmetic::power2::lemma_pow2_adds(53, 3);
    }
    assert(x * 8 < pow2(52) * unit) by (nonlinear_arith)
        requires x < pow2(53), pow2(53) * 8 == pow2(56), pow2(52) * 16 == pow2(56), unit >= 16,
    ;
    assert(x * pow2(0) <= x * 8 && x * pow2(1) <= x * 8 && x * pow2(2) <= x * 8 && x * pow2(3) <= x * 8) by (
    nonlinear_arith)
        requires pow2(0) == 1, pow2(1) == 2, pow2(2) == 4, pow2(3) == 8,
    ;
    assert(significand_shift(x, unit, 3) == significand_shift(x, unit, 4));
    assert(significand_shift(x, unit, 2) == significand_shift(x, unit, 3));
    assert(significand_shift(x, unit, 1) == significand_shift(x, unit, 2));
    assert(significand_shift(x, unit, 0) == significand_shift(x, unit, 1));
    lemma_significand_shift_from(x, unit, 4);
    let k = significand_shift(x, unit, 0);
    let p = pow2(k);
    if k > 4 {
        vstd::arithmetic::power2::lemma_pow2_strictly_increases(4, k);
    }
    assert(p >= 16);
    // The binary64 quotient is within half a unit in the last place of t / 10.
    let a = x * p;
    let m = round_half_even(a, unit);
    lemma_round_half_even_close(a, unit);
    let d = 10 * m - t * p;
    assert(-5 <= d <= 5) by (nonlinear_arith)
        requires
            2 * (m * unit) <= 2 * a + unit,
            2 * a <= 2 * (m * unit) + unit,
            a == x * p,
            10 * x == t * unit,
            d == 10 * m - t * p,
            unit > 0,
    ;
    // Rounding 10 m / p to even gives t back.
    let tm = (10 * m) as nat;
    if d >= 0 {
        vstd::arithmetic::div_mod::lemma_fundamental_div_mod_converse(tm as int, p as int, t as int, d);
        assert(round_half_even(tm, p) == t);
    } else {
        assert(tm == (t - 1) * p + (p + d)) by (nonlinear_arith)
            requires d == 10 * m - t * p, tm == 10 * m,
        ;
        vstd::arithmetic::div_mod::lemma_fundamental_div_mod_converse(tm as int, p as int, t - 1, p + d);
        assert(round_half_even(tm, p) == t);
    }
}

/// A count is shown exactly below 1000, and in thousands or millions with
/// the one decimal its tenths give when it is a whole number of tenths of
/// that unit: 18 400 shows as `18.4k`, 2 500 000 as `2.5M`.
pub proof fn law_humanize_count_shows_tenths(n: u64, t: nat)
    ensures
        n <= 999 ==> spec_humanize_count(n) == decimal(n as int),
        1000 <= n <= 999_999 && n == 100 * t ==> spec_humanize_count(n) == decimal((t / 10) as int) + seq!['.']
            + decimal((t % 10) as int) + seq!['k'],
        1_000_000 <= n <= 9_000_000_000_000_000 && n == 100_000 * t ==> spec_humanize_count(n) == decimal(
            (t / 10) as int,
        ) + seq!['.'] + decimal((t % 10) as int) + seq!['M'],
{
    vstd::arithmetic::power2::lemma2_to64();
    vstd::arithmetic::power2::lemma2_to64_rest();
    if 1000 <= n <= 999_999 && n == 100 * t {
        lemma_float_tenths_exact(n, 1000, t);
    }
    if 1_000_000 <= n <= 9_000_000_000_000_000 && n == 100_000 * t {
        lemma_float_tenths_exact(n, 1_000_000, t);
    }
}

/// A byte count is shown exactly below 1 KiB, and in KiB, MiB or GiB with
/// the one decimal its tenths give when it is a whole number of tenths of
/// that unit (a multiple of half a unit): 1536 bytes show as `1.5 KB`.
pub proof fn law_humanize_bytes_shows_tenths(n: u64, s: nat)
    ensures
        n < 1024 ==> spec_humanize_bytes(n) == decimal(n as int) + " B"@,
        1024 <= n < 1_048_576 && n == 512 * s ==> spec_humanize_bytes(n) == decimal((5 * s / 10) as int) + seq!['.']
            + decimal((5 * s % 10) as int) + " KB"@,
        1_048_576 <= n < 1_073_741_824 && n == 524_288 * s ==> spec_humanize_bytes(n) == decimal(
            (5 * s / 10) as int,
        ) + seq!['.'] + decimal((5 * s % 10) as int) + " MB"@,
        1_073_741_824 <= n <= 9_000_000_000_000_000 && n == 536_870_912 * s ==> spec_humanize_bytes(n) == decimal(
            (5 * s / 10) as int,
        ) + seq!['.'] + decimal((5 * s % 10) as int) + " GB"@,
{
    vstd::arithmetic::power2::lemma2_to64();
    vstd::arithmetic::power2::lemma2_to64_rest();
    if 1024 <= n < 1_048_576 && n == 512 * s {
        lemma_float_tenths_exact(n, 1024, 5 * s);
    }
    if 1_048_576 <= n < 1_073_741_824 && n == 524_288 * s {
        lemma_float_tenths_exact(n, 1_048_576, 5 * s);
    }
    if 1_073_741_824 <= n <= 9_000_000_000_000_000 && n == 536_870_912 * s {
        lemma_float_tenths_exact(n, 1_073_741_824, 5 * s);
    }
}

/// The label of each phase: `queued`, `extracting`, `discovering`,
/// `parsing` and `done`.
pub proof fn law_phase_labels(p: Phase)
    ensures
        p == Phase::Queued ==> spec_phase_label(p) == "queued"@,
        p == Phase::Extracting ==> spec_phase_label(p) == "extracting"@,
        p == Phase::Discovering ==> spec_phase_label(p) == "discovering"@,
        p == Phase::Parsing ==> spec_phase_label(p) == "parsing"@,
        p == Phase::Done ==> spec_phase_label(p) == "done"@,
{
}

} // verus!
