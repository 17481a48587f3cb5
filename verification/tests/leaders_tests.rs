use mlb::catalog::StatGroup;
use mlb::client::MlbClient;
use mlb::errors::StatsError;
use mlb::leaders::{
    leaders_for_group, team_leaders_from_sections, top_leaders, LeaderSection, RawLeader,
};

fn row(name: &str, value: &str) -> RawLeader {
    RawLeader { name: String::from(name), value: String::from(value) }
}

fn seven_rows() -> Vec<RawLeader> {
    vec![
        row("Aaron Judge", "62"),
        row("Kyle Schwarber", "46"),
        row("Mike Trout", "40"),
        row("Pete Alonso", "40"),
        row("Yordan Alvarez", "37"),
        row("Austin Riley", "38"),
        row("Paul Goldschmidt", "35"),
    ]
}

#[test]
fn display_lists_are_capped_at_five() {
    let top = top_leaders(&seven_rows());
    assert_eq!(top.len(), 5);
    let short = top_leaders(&vec![row("Aaron Judge", "62"), row("Mike Trout", "40")]);
    assert_eq!(short.len(), 2);
    assert_eq!(top_leaders(&Vec::new()).len(), 0);
}

#[test]
fn ranks_start_at_one_and_increase() {
    let top = top_leaders(&seven_rows());
    for (i, entry) in top.iter().enumerate() {
        assert_eq!(entry.rank, (i as u64) + 1);
    }
    assert_eq!(top[0].name, "Aaron Judge");
    assert_eq!(top[0].value, "62");
    assert_eq!(top[4].name, "Yordan Alvarez");
}

#[test]
fn the_group_filter_keeps_only_the_requested_tag() {
    // A response tagged with several stat groups: only rows from the
    // section whose tag equals the requested group may appear.
    let sections = vec![
        LeaderSection {
            group: String::from("hitting"),
            leaders: vec![row("Freddie Freeman", ".325")],
        },
        LeaderSection {
            group: String::from("pitching"),
            leaders: vec![row("Julio Urias", "2.16"), row("Tyler Anderson", "2.57")],
        },
    ];
    let rows = leaders_for_group(&sections, StatGroup::Pitching).unwrap();
    assert_eq!(rows.len(), 2);
    assert_eq!(rows[0].name, "Julio Urias");
    assert_eq!(rows[1].name, "Tyler Anderson");
    let rows = leaders_for_group(&sections, StatGroup::Hitting).unwrap();
    assert_eq!(rows.len(), 1);
    assert_eq!(rows[0].name, "Freddie Freeman");
}

#[test]
fn a_response_without_the_group_is_malformed() {
    let sections = vec![
        LeaderSection { group: String::from("hitting"), leaders: vec![row("Jeff McNeil", ".326")] },
    ];
    assert_eq!(
        leaders_for_group(&sections, StatGroup::Pitching).err(),
        Some(StatsError::Remote)
    );
}

#[test]
fn team_leaders_filter_then_rank_then_truncate() {
    // Category "ERA", group "pitching", a response holding both a hitting
    // and a pitching board: only pitching-tagged rows appear, top five by
    // rank.
    let sections = vec![
        LeaderSection {
            group: String::from("hitting"),
            leaders: vec![row("Trea Turner", ".298")],
        },
        LeaderSection {
            group: String::from("pitching"),
            leaders: vec![
                row("Julio Urias", "2.16"),
                row("Tyler Anderson", "2.57"),
                row("Clayton Kershaw", "2.28"),
                row("Tony Gonsolin", "2.14"),
                row("Andrew Heaney", "3.10"),
                row("Craig Kimbrel", "3.75"),
            ],
        },
    ];
    let entries = team_leaders_from_sections(&sections, StatGroup::Pitching).unwrap();
    assert_eq!(entries.len(), 5);
    for (i, entry) in entries.iter().enumerate() {
        assert_eq!(entry.rank, (i as u64) + 1);
        assert_ne!(entry.name, "Trea Turner");
        assert_ne!(entry.name, "Craig Kimbrel");
    }
    assert_eq!(entries[0].name, "Julio Urias");
    assert_eq!(entries[0].value, "2.16");
}

#[test]
fn leader_lines_render() {
    let top = top_leaders(&seven_rows());
    assert_eq!(MlbClient::leader_line(&top[0]), "1) Aaron Judge (62)");
    assert_eq!(MlbClient::leader_line(&top[4]), "5) Yordan Alvarez (37)");
}
