use mlb::classify::{classify, PlayerKind};
use mlb::errors::StatsError;
use mlb::resolve::{filter_candidates, resolve, select_candidate, select_index, PlayerCandidate, Resolution};

fn candidate(id: u64, name: &str, position: &str, team_id: u64) -> PlayerCandidate {
    PlayerCandidate {
        id,
        full_name: String::from(name),
        position: String::from(position),
        team_id,
    }
}

fn sample_roster() -> Vec<PlayerCandidate> {
    vec![
        candidate(1, "Joey Bart", "C", 137),
        candidate(2, "Logan Webb", "P", 137),
        candidate(3, "Will Smith", "C", 119),
        candidate(4, "Will Smith", "RP", 119),
        candidate(5, "Shohei Ohtani", "TWP", 108),
    ]
}

#[test]
fn every_match_contains_the_query() {
    let roster = sample_roster();
    let found = filter_candidates("smith", &roster);
    assert_eq!(found.len(), 2);
    for c in &found {
        assert!(c.full_name.to_lowercase().contains("smith"));
    }
}

#[test]
fn filtering_is_case_insensitive_both_ways() {
    let roster = sample_roster();
    // An upper-case query still matches a lower-case name: both sides are
    // folded before the substring search.
    let found = filter_candidates("BART", &roster);
    assert_eq!(found.len(), 1);
    assert_eq!(found[0].full_name, "Joey Bart");
    let found = filter_candidates("webb", &roster);
    assert_eq!(found.len(), 1);
    assert_eq!(found[0].id, 2);
}

#[test]
fn the_query_is_trimmed_before_matching() {
    let roster = sample_roster();
    let found = filter_candidates(" Bart \n", &roster);
    assert_eq!(found.len(), 1);
    assert_eq!(found[0].id, 1);
}

#[test]
fn zero_matches_are_a_not_found_error() {
    let roster = sample_roster();
    match resolve("Trout", &roster) {
        Err(e) => assert_eq!(e, StatsError::NotFound),
        Ok(_) => panic!("an unmatched query must be refused"),
    }
}

#[test]
fn a_unique_match_resolves_without_disambiguation() {
    // Season "2022", query "Bart", a roster holding one Joey Bart at
    // catcher: resolution is silent and classifies as a batter.
    let roster = sample_roster();
    match resolve("Bart", &roster) {
        Ok(Resolution::Resolved(c)) => {
            assert_eq!(c.id, 1);
            assert_eq!(c.full_name, "Joey Bart");
            assert_eq!(classify(&c.position), PlayerKind::Batter);
        },
        _ => panic!("a unique match must resolve directly"),
    }
}

#[test]
fn several_matches_ask_for_disambiguation() {
    // Season "2022", query "Smith" matching Will Smith the catcher and
    // Will Smith the reliever: two entries are offered, and picking the
    // second resolves to the pitcher.
    let roster = sample_roster();
    match resolve("Smith", &roster) {
        Ok(Resolution::Ambiguous(cands)) => {
            assert_eq!(cands.len(), 2);
            assert_eq!(cands[0].position, "C");
            assert_eq!(cands[1].position, "RP");
            let chosen = select_candidate(&cands, "2\n").unwrap();
            assert_eq!(chosen.id, 4);
            assert_eq!(chosen.position, "RP");
        },
        _ => panic!("two matches must be handed back for disambiguation"),
    }
}

#[test]
fn selections_are_validated_against_the_list() {
    let roster = sample_roster();
    let cands = filter_candidates("Smith", &roster);
    assert_eq!(cands.len(), 2);
    for bad in ["0", "3", "abc", "", "-1"] {
        match select_candidate(&cands, bad) {
            Err(e) => assert_eq!(e, StatsError::Selection),
            Ok(_) => panic!("selection {:?} must be refused", bad),
        }
    }
}

#[test]
fn select_index_is_one_based() {
    assert_eq!(select_index(3, "1"), Ok(0));
    assert_eq!(select_index(3, " 3 \n"), Ok(2));
    assert_eq!(select_index(3, "4"), Err(StatsError::Selection));
    assert_eq!(select_index(0, "1"), Err(StatsError::Selection));
}

#[test]
fn classification_by_position_code() {
    assert_eq!(classify("P"), PlayerKind::Pitcher);
    assert_eq!(classify("TWP"), PlayerKind::Pitcher);
    assert_eq!(classify("C"), PlayerKind::Batter);
    assert_eq!(classify("SS"), PlayerKind::Batter);
    assert_eq!(classify("RP"), PlayerKind::Batter);
    assert_eq!(classify("1B"), PlayerKind::Batter);
    assert_eq!(classify("p"), PlayerKind::Batter);
}
