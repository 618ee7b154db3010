//! Scenarios for the severity scale and its vocabulary.

use issen::severity::{self, parse, parse_lossy, Severity, SeverityExt, TOKENS};

const LADDER: [Severity; 5] = [
    Severity::Info,
    Severity::Low,
    Severity::Medium,
    Severity::High,
    Severity::Critical,
];

#[test]
fn severity_is_totally_ordered() {
    assert!(Severity::Critical > Severity::High);
    assert!(Severity::High > Severity::Medium);
    assert!(Severity::Medium > Severity::Low);
    assert!(Severity::Low > Severity::Info);
}

#[test]
fn findings_can_be_ranked_by_severity() {
    let mut tiers = [
        Severity::Low,
        Severity::Critical,
        Severity::Info,
        Severity::High,
        Severity::Medium,
    ];
    tiers.sort_unstable();
    assert_eq!(
        tiers,
        [
            Severity::Info,
            Severity::Low,
            Severity::Medium,
            Severity::High,
            Severity::Critical
        ]
    );
}

#[test]
fn rank_and_token_agree_with_tokens_order() {
    for (idx, sev) in LADDER.iter().enumerate() {
        assert_eq!(usize::from(SeverityExt::rank(*sev)), idx);
        assert_eq!(SeverityExt::token(*sev), TOKENS[idx]);
    }
}

#[test]
fn rank_never_disagrees_with_ord() {
    for pair in LADDER.windows(2) {
        assert!(pair[0] < pair[1]);
        assert!(pair[0].rank() < pair[1].rank());
    }
}

#[test]
fn parse_round_trips_token_and_display() {
    for sev in LADDER {
        assert_eq!(parse(sev.token()), Some(sev));
        assert_eq!(parse(sev.display_name()), Some(sev));
    }
}

#[test]
fn parse_accepts_the_legacy_informational_alias() {
    assert_eq!(parse("informational"), Some(Severity::Info));
    assert_eq!(parse("Informational"), Some(Severity::Info));
}

#[test]
fn parse_rejects_a_non_severity_and_parse_lossy_floors_it() {
    assert_eq!(parse("catastrophic"), None);
    assert_eq!(parse(""), None);
    assert_eq!(parse_lossy("catastrophic"), Severity::Info);
    assert_eq!(parse_lossy(""), Severity::Info);
}

#[test]
fn rank_orders_info_lowest_and_critical_highest() {
    assert_eq!(Severity::Info.rank(), 0);
    assert_eq!(Severity::Low.rank(), 1);
    assert_eq!(Severity::Medium.rank(), 2);
    assert_eq!(Severity::High.rank(), 3);
    assert_eq!(Severity::Critical.rank(), 4);
}

#[test]
fn rank_agrees_with_the_derived_ord() {
    for pair in LADDER.windows(2) {
        assert!(pair[0] < pair[1], "{:?} < {:?}", pair[0], pair[1]);
        assert!(
            pair[0].rank() < pair[1].rank(),
            "rank must track Ord: {:?} vs {:?}",
            pair[0],
            pair[1]
        );
    }
}

#[test]
fn token_is_the_lowercase_persisted_form() {
    assert_eq!(Severity::Info.token(), "info");
    assert_eq!(Severity::Low.token(), "low");
    assert_eq!(Severity::Medium.token(), "medium");
    assert_eq!(Severity::High.token(), "high");
    assert_eq!(Severity::Critical.token(), "critical");
}

#[test]
fn tokens_constant_is_ordered_lowest_to_highest_and_matches_token() {
    assert_eq!(severity::TOKENS, ["info", "low", "medium", "high", "critical"]);
    for (idx, tok) in severity::TOKENS.iter().enumerate() {
        let parsed = severity::parse(tok).expect("every TOKENS entry must parse");
        assert_eq!(usize::from(parsed.rank()), idx, "TOKENS[{idx}] = {tok}");
        assert_eq!(parsed.token(), *tok);
    }
}

#[test]
fn parse_is_case_insensitive_and_round_trips() {
    for tok in severity::TOKENS {
        let upper = tok.to_uppercase();
        assert_eq!(
            severity::parse(&upper),
            severity::parse(tok),
            "parse must be case-insensitive for {tok}"
        );
    }
    for sev in LADDER {
        assert_eq!(severity::parse(sev.display_name()), Some(sev));
    }
}

#[test]
fn parse_accepts_informational_as_a_legacy_alias_for_info() {
    assert_eq!(severity::parse("informational"), Some(Severity::Info));
    assert_eq!(severity::parse("Informational"), Some(Severity::Info));
}

#[test]
fn parse_rejects_an_unknown_token_and_shows_it_lossily_as_info() {
    assert_eq!(severity::parse("catastrophic"), None);
    assert_eq!(severity::parse(""), None);
    assert_eq!(severity::parse_lossy("catastrophic"), Severity::Info);
    assert_eq!(severity::parse_lossy("CRITICAL"), Severity::Critical);
    assert_eq!(severity::parse_lossy("informational"), Severity::Info);
}

#[test]
fn display_name_is_uppercase() {
    assert_eq!(Severity::High.display_name(), "HIGH");
    assert_eq!(Severity::Info.display_name(), "INFO");
}

#[test]
fn mixed_case_parses() {
    assert_eq!(parse("MeDiUm"), Some(Severity::Medium));
    assert_eq!(parse(" high"), None);
}
