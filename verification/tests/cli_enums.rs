use fsel::cli::enums::{DesktopIconMode, MatchMode, PinnedOrderMode, RankingMode};

#[test]
fn modes_parse_ignoring_case_and_whitespace() {
    assert_eq!(MatchMode::parse(" Exact "), Ok(MatchMode::Exact));
    assert_eq!("fuzzy".parse::<MatchMode>(), Ok(MatchMode::Fuzzy));
    assert_eq!(RankingMode::parse("RECENCY"), Ok(RankingMode::Recency));
    assert_eq!(PinnedOrderMode::parse("newest"), Ok(PinnedOrderMode::NewestPinned));
    assert_eq!(PinnedOrderMode::parse("last_pinned"), Ok(PinnedOrderMode::NewestPinned));
    assert_eq!(PinnedOrderMode::parse("oldest"), Ok(PinnedOrderMode::OldestPinned));
    assert_eq!(DesktopIconMode::parse("off"), Ok(DesktopIconMode::Off));
    assert_eq!(DesktopIconMode::parse("yes"), Ok(DesktopIconMode::Preview));
}

#[test]
fn unknown_modes_are_reported() {
    assert_eq!(MatchMode::parse("close"), Err("Invalid match mode: 'close'".to_string()));
    assert_eq!(
        RankingMode::parse("best"),
        Err("Invalid ranking mode: 'best'".to_string())
    );
    assert_eq!(
        PinnedOrderMode::parse("x"),
        Err("Invalid pinned order mode: 'x'".to_string())
    );
    assert_eq!(
        DesktopIconMode::parse("huge"),
        Err("Invalid desktop icon mode: 'huge'. Valid options: none, preview, list, both".to_string())
    );
}

#[test]
fn mode_names_round_trip() {
    for mode in [RankingMode::Frecency, RankingMode::Recency, RankingMode::Frequency] {
        assert_eq!(RankingMode::parse(mode.as_str()), Ok(mode));
    }
    for mode in [
        PinnedOrderMode::Ranking,
        PinnedOrderMode::Alphabetical,
        PinnedOrderMode::OldestPinned,
        PinnedOrderMode::NewestPinned,
    ] {
        assert_eq!(PinnedOrderMode::parse(mode.as_str()), Ok(mode));
    }
    assert_eq!(RankingMode::Frecency.as_str(), "frecency");
    assert_eq!(PinnedOrderMode::OldestPinned.as_str(), "oldest_pinned");
}

#[test]
fn icon_modes_say_where_icons_show() {
    assert!(DesktopIconMode::Both.shows_preview() && DesktopIconMode::Both.shows_list());
    assert!(DesktopIconMode::Preview.shows_preview() && !DesktopIconMode::Preview.shows_list());
    assert!(!DesktopIconMode::List.shows_preview() && DesktopIconMode::List.shows_list());
    assert!(!DesktopIconMode::Off.shows_preview() && !DesktopIconMode::Off.shows_list());
    assert_eq!(DesktopIconMode::default(), DesktopIconMode::Preview);
    assert_eq!(MatchMode::default(), MatchMode::Fuzzy);
}
