//! The severity scale and its persisted vocabulary: a rank, a lowercase token,
//! and a case-insensitive parse that also accepts the legacy `informational`.

use vstd::prelude::*;
use crate::text::str_equals;

verus! {

/// Severity of a finding, `Info` lowest through `Critical` highest.
#[derive(Debug, Clone, Copy, PartialEq, Eq, Structural, PartialOrd, Ord, Hash)]
pub enum Severity {
    Info,
    Low,
    Medium,
    High,
    Critical,
}

/// The lowercase tokens, ordered lowest severity to highest; the index of a
/// tier's token is its rank.
pub const TOKENS: [&'static str; 5] = ["info", "low", "medium", "high", "critical"];

/// The rank of a tier: `Info` is 0 through `Critical` 4.
pub open spec fn severity_rank(s: Severity) -> nat {
    match s {
        Severity::Info => 0,
        Severity::Low => 1,
        Severity::Medium => 2,
        Severity::High => 3,
        Severity::Critical => 4,
    }
}

/// The lowercase persisted token of a tier.
pub open spec fn severity_token(s: Severity) -> Seq<char> {
    match s {
        Severity::Info => "info"@,
        Severity::Low => "low"@,
        Severity::Medium => "medium"@,
        Severity::High => "high"@,
        Severity::Critical => "critical"@,
    }
}

/// The uppercase display form of a tier.
pub open spec fn severity_display(s: Severity) -> Seq<char> {
    match s {
        Severity::Info => "INFO"@,
        Severity::Low => "LOW"@,
        Severity::Medium => "MEDIUM"@,
        Severity::High => "HIGH"@,
        Severity::Critical => "CRITICAL"@,
    }
}

/// ASCII lowercase of one character; other characters are unchanged.
pub open spec fn lower_char(c: char) -> char {
    if 'A' <= c <= 'Z' {
        ((c as u32) + 32) as char
    } else {
        c
    }
}

/// ASCII lowercase of a string.
pub open spec fn ascii_lower(s: Seq<char>) -> Seq<char> {
    s.map_values(|c: char| lower_char(c))
}

/// The tier an exact lowercase token names (with the legacy `informational`).
pub open spec fn severity_of_token(t: Seq<char>) -> Option<Severity> {
    if t == "info"@ || t == "informational"@ {
        Some(Severity::Info)
    } else if t == "low"@ {
        Some(Severity::Low)
    } else if t == "medium"@ {
        Some(Severity::Medium)
    } else if t == "high"@ {
        Some(Severity::High)
    } else if t == "critical"@ {
        Some(Severity::Critical)
    } else {
        None
    }
}

/// ASCII lowercase copy of a string slice.
///
/// Calls `str::to_ascii_lowercase`, which std documents as mapping `A`-`Z`
/// to `a`-`z` and leaving every other character unchanged.
#[verifier::external_body]
pub(crate) fn to_ascii_lowercase(s: &str) -> (r: String)
    ensures
        r@ == ascii_lower(s@),
{
    s.to_ascii_lowercase()
}

impl Severity {
    /// Rank: `Info` 0 through `Critical` 4.
    pub fn rank(self) -> (r: u8)
        ensures
            r as nat == severity_rank(self),
    {
        match self {
            Severity::Info => 0,
            Severity::Low => 1,
            Severity::Medium => 2,
            Severity::High => 3,
            Severity::Critical => 4,
        }
    }

    /// The lowercase token persisted in storage and emitted as a CSS class.
    pub fn token(self) -> (r: &'static str)
        ensures
            r@ == severity_token(self),
    {
        match self {
            Severity::Info => "info",
            Severity::Low => "low",
            Severity::Medium => "medium",
            Severity::High => "high",
            Severity::Critical => "critical",
        }
    }

    /// The uppercase human-facing form, e.g. `HIGH`.
    pub fn display_name(self) -> (r: &'static str)
        ensures
            r@ == severity_display(self),
    {
        match self {
            Severity::Info => "INFO",
            Severity::Low => "LOW",
            Severity::Medium => "MEDIUM",
            Severity::High => "HIGH",
            Severity::Critical => "CRITICAL",
        }
    }
}

/// Rank and token accessors, shared by everything that grades findings.
pub trait SeverityExt {
    /// Total-ordering rank, `Info` = 0 through `Critical` = 4.
    fn rank(self) -> u8;

    /// The lowercase persisted token.
    fn token(self) -> &'static str;
}

impl SeverityExt for Severity {
    fn rank(self) -> (r: u8)
        ensures
            r as nat == severity_rank(self),
    {
        Severity::rank(self)
    }

    fn token(self) -> (r: &'static str)
        ensures
            r@ == severity_token(self),
    {
        Severity::token(self)
    }
}

/// The tier an exact lowercase token names.
fn severity_from_lower(t: &str) -> (r: Option<Severity>)
    ensures
        r == severity_of_token(t@),
{
    if str_equals(t, "info") || str_equals(t, "informational") {
        Some(Severity::Info)
    } else if str_equals(t, "low") {
        Some(Severity::Low)
    } else if str_equals(t, "medium") {
        Some(Severity::Medium)
    } else if str_equals(t, "high") {
        Some(Severity::High)
    } else if str_equals(t, "critical") {
        Some(Severity::Critical)
    } else {
        None
    }
}

/// Parse a severity token case-insensitively: the persisted token (`high`),
/// the display form (`HIGH`), or the legacy `informational`. `None` for
/// anything else.
pub fn parse(s: &str) -> (r: Option<Severity>)
    ensures
        r == severity_of_token(ascii_lower(s@)),
{
    let lower = to_ascii_lowercase(s);
    severity_from_lower(lower.as_str())
}

/// [`parse`], with anything unrecognized graded `Info`.
pub fn parse_lossy(s: &str) -> (r: Severity)
    ensures
        r == match severity_of_token(ascii_lower(s@)) {
            Some(v) => v,
            None => Severity::Info,
        },
{
    match parse(s) {
        Some(v) => v,
        None => Severity::Info,
    }
}

/// Lowercasing a lowercase ASCII token leaves it unchanged.
proof fn lemma_lower_of_token(s: Severity)
    ensures
        ascii_lower(severity_token(s)) == severity_token(s),
{
    reveal_strlit("info");
    reveal_strlit("low");
    reveal_strlit("medium");
    reveal_strlit("high");
    reveal_strlit("critical");
    assert(ascii_lower(severity_token(s)) =~= severity_token(s));
}

/// Lowercasing the display form gives the token.
proof fn lemma_lower_of_display(s: Severity)
    ensures
        ascii_lower(severity_display(s)) == severity_token(s),
{
    reveal_strlit("info");
    reveal_strlit("low");
    reveal_strlit("medium");
    reveal_strlit("high");
    reveal_strlit("critical");
    reveal_strlit("INFO");
    reveal_strlit("LOW");
    reveal_strlit("MEDIUM");
    reveal_strlit("HIGH");
    reveal_strlit("CRITICAL");
    assert(ascii_lower(severity_display(s)) =~= severity_token(s));
}

/// The five tokens are pairwise distinct and none is `informational`.
proof fn lemma_tokens_distinct()
    ensures
        forall|a: Severity, b: Severity| a != b ==> severity_token(a) != severity_token(b),
        forall|a: Severity| severity_token(a) != "informational"@,
{
    reveal_strlit("info");
    reveal_strlit("low");
    reveal_strlit("medium");
    reveal_strlit("high");
    reveal_strlit("critical");
    reveal_strlit("informational");
    assert forall|a: Severity, b: Severity| a != b implies severity_token(a) != severity_token(b) by {
        if severity_token(a).len() == severity_token(b).len() {
            assert(severity_token(a)[0] != severity_token(b)[0]);
        }
    }
    assert forall|a: Severity| severity_token(a) != "informational"@ by {
        assert(severity_token(a).len() != "informational"@.len());
    }
}

/// Parsing a tier's token or its display form gives the tier back.
pub proof fn law_parse_round_trips(s: Severity)
    ensures
        severity_of_token(ascii_lower(severity_token(s))) == Some(s),
        severity_of_token(ascii_lower(severity_display(s))) == Some(s),
{
    lemma_lower_of_token(s);
    lemma_lower_of_display(s);
    lemma_tokens_distinct();
    assert(severity_token(Severity::Info) == "info"@);
    assert(severity_token(Severity::Low) == "low"@);
    assert(severity_token(Severity::Medium) == "medium"@);
    assert(severity_token(Severity::High) == "high"@);
    assert(severity_token(Severity::Critical) == "critical"@);
    match s {
        Severity::Info => {},
        Severity::Low => {
            assert(severity_token(s) != severity_token(Severity::Info));
        },
        Severity::Medium => {
            assert(severity_token(s) != severity_token(Severity::Info));
            assert(severity_token(s) != severity_token(Severity::Low));
        },
        Severity::High => {
            assert(severity_token(s) != severity_token(Severity::Info));
            assert(severity_token(s) != severity_token(Severity::Low));
            assert(severity_token(s) != severity_token(Severity::Medium));
        },
        Severity::Critical => {
            assert(severity_token(s) != severity_token(Severity::Info));
            assert(severity_token(s) != severity_token(Severity::Low));
            assert(severity_token(s) != severity_token(Severity::Medium));
            assert(severity_token(s) != severity_token(Severity::High));
        },
    }
}

/// Rank is strictly monotone along `Info < Low < Medium < High <
/// Critical`, and distinct tiers have distinct ranks.
pub proof fn law_rank_orders_tiers()
    ensures
        severity_rank(Severity::Info) < severity_rank(Severity::Low) < severity_rank(Severity::Medium)
            < severity_rank(Severity::High) < severity_rank(Severity::Critical),
        forall|a: Severity, b: Severity| severity_rank(a) == severity_rank(b) ==> a == b,
{
}

/// `TOKENS[rank(s)]` is the token of `s`.
pub proof fn law_tokens_indexed_by_rank(s: Severity)
    ensures
        TOKENS@[severity_rank(s) as int]@ == severity_token(s),
{
}

/// The persisted tokens, tier by tier, are `info`, `low`, `medium`, `high`
/// and `critical`; each is already lowercase, and each display form is the
/// same word in capitals, so it lowercases to the token.
pub proof fn law_token_table(s: Severity)
    ensures
        s == Severity::Info ==> severity_token(s) == "info"@,
        s == Severity::Low ==> severity_token(s) == "low"@,
        s == Severity::Medium ==> severity_token(s) == "medium"@,
        s == Severity::High ==> severity_token(s) == "high"@,
        s == Severity::Critical ==> severity_token(s) == "critical"@,
        ascii_lower(severity_token(s)) == severity_token(s),
        ascii_lower(severity_display(s)) == severity_token(s),
        severity_display(s).len() == severity_token(s).len(),
{
    lemma_lower_of_token(s);
    lemma_lower_of_display(s);
    reveal_strlit("info");
    reveal_strlit("low");
    reveal_strlit("medium");
    reveal_strlit("high");
    reveal_strlit("critical");
    reveal_strlit("INFO");
    reveal_strlit("LOW");
    reveal_strlit("MEDIUM");
    reveal_strlit("HIGH");
    reveal_strlit("CRITICAL");
}

} // verus!
