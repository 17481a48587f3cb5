use mlb::catalog::{category_at, codes, group_from_input, group_label, lookup, StatGroup};
use mlb::errors::StatsError;

#[test]
fn hitting_codes_translate() {
    assert_eq!(lookup("H", StatGroup::Hitting), Ok("hits"));
    assert_eq!(lookup("HR", StatGroup::Hitting), Ok("homeRuns"));
    assert_eq!(lookup("RBI", StatGroup::Hitting), Ok("runsBattedIn"));
    assert_eq!(lookup("SB", StatGroup::Hitting), Ok("stolenBases"));
    assert_eq!(lookup("BB", StatGroup::Hitting), Ok("walks"));
    assert_eq!(lookup("HBP", StatGroup::Hitting), Ok("hitByPitches"));
    assert_eq!(lookup("SO", StatGroup::Hitting), Ok("strikeouts"));
    assert_eq!(lookup("AVG", StatGroup::Hitting), Ok("battingAverage"));
    assert_eq!(lookup("OBP", StatGroup::Hitting), Ok("onBasePercentage"));
    assert_eq!(lookup("SLG", StatGroup::Hitting), Ok("slugglingPercentage"));
    assert_eq!(lookup("OPS", StatGroup::Hitting), Ok("onBasePlusSlugging"));
}

#[test]
fn pitching_codes_translate() {
    assert_eq!(lookup("W", StatGroup::Pitching), Ok("wins"));
    assert_eq!(lookup("L", StatGroup::Pitching), Ok("losses"));
    assert_eq!(lookup("ERA", StatGroup::Pitching), Ok("earnedRunAverage"));
    assert_eq!(lookup("SHO", StatGroup::Pitching), Ok("shutouts"));
    assert_eq!(lookup("HLD", StatGroup::Pitching), Ok("holds"));
    assert_eq!(lookup("SV", StatGroup::Pitching), Ok("saves"));
    assert_eq!(lookup("IP", StatGroup::Pitching), Ok("inningsPitched"));
    assert_eq!(lookup("HR", StatGroup::Pitching), Ok("homeRuns"));
    assert_eq!(lookup("WHIP", StatGroup::Pitching), Ok("walksAndHitsPerInningPitched"));
    assert_eq!(lookup("BB9", StatGroup::Pitching), Ok("walksPer9Inn"));
    assert_eq!(lookup("SO9", StatGroup::Pitching), Ok("strikeoutsPer9Inn"));
    assert_eq!(lookup("HBP", StatGroup::Pitching), Ok("hitBatsmen"));
}

#[test]
fn lookup_is_stable_across_calls() {
    let first = lookup("HR", StatGroup::Hitting);
    let second = lookup("HR", StatGroup::Hitting);
    assert_eq!(first, second);
    assert_eq!(first, Ok("homeRuns"));
}

#[test]
fn codes_fail_outside_their_group() {
    assert_eq!(lookup("W", StatGroup::Hitting), Err(StatsError::InvalidCategory));
    assert_eq!(lookup("ERA", StatGroup::Hitting), Err(StatsError::InvalidCategory));
    assert_eq!(lookup("IP", StatGroup::Hitting), Err(StatsError::InvalidCategory));
    assert_eq!(lookup("WHIP", StatGroup::Hitting), Err(StatsError::InvalidCategory));
    assert_eq!(lookup("H", StatGroup::Pitching), Err(StatsError::InvalidCategory));
    assert_eq!(lookup("RBI", StatGroup::Pitching), Err(StatsError::InvalidCategory));
    assert_eq!(lookup("SB", StatGroup::Pitching), Err(StatsError::InvalidCategory));
}

#[test]
fn unknown_codes_fail() {
    assert_eq!(lookup("XYZ", StatGroup::Hitting), Err(StatsError::InvalidCategory));
    assert_eq!(lookup("hr", StatGroup::Hitting), Err(StatsError::InvalidCategory));
    assert_eq!(lookup("", StatGroup::Pitching), Err(StatsError::InvalidCategory));
}

#[test]
fn the_tables_are_closed() {
    assert_eq!(codes(StatGroup::Hitting).len(), 11);
    assert_eq!(codes(StatGroup::Pitching).len(), 18);
    for code in codes(StatGroup::Hitting) {
        assert!(lookup(code, StatGroup::Hitting).is_ok());
    }
    for code in codes(StatGroup::Pitching) {
        assert!(lookup(code, StatGroup::Pitching).is_ok());
    }
}

#[test]
fn menu_selection_picks_a_code() {
    assert_eq!(category_at(StatGroup::Hitting, "2\n"), Ok("HR"));
    assert_eq!(category_at(StatGroup::Pitching, "3\n"), Ok("ERA"));
    assert_eq!(category_at(StatGroup::Hitting, "11"), Ok("OPS"));
    assert_eq!(category_at(StatGroup::Hitting, "12"), Err(StatsError::Selection));
    assert_eq!(category_at(StatGroup::Pitching, "0"), Err(StatsError::Selection));
    assert_eq!(category_at(StatGroup::Pitching, "x"), Err(StatsError::Selection));
}

#[test]
fn stat_group_labels() {
    assert_eq!(group_label(StatGroup::Hitting), "hitting");
    assert_eq!(group_label(StatGroup::Pitching), "pitching");
    assert_eq!(group_from_input("hitting\n"), Ok(StatGroup::Hitting));
    assert_eq!(group_from_input(" pitching "), Ok(StatGroup::Pitching));
    assert_eq!(group_from_input("fielding"), Err(StatsError::Selection));
}
