use mlb::catalog::StatGroup;
use mlb::classify::{classify, PlayerKind};
use mlb::client::MlbClient;
use mlb::errors::StatsError;
use mlb::json::{
    parse_league_leaders, parse_roster, parse_stat_fields, parse_team_leader_sections,
    parse_team_list, parse_team_stats,
};
use mlb::resolve::Resolution;
use mlb::season::validate;
use mlb::stats::get_int;

const TEAMS_BODY: &str = r#"{"teams":[{"id":137,"abbreviation":"SF"},{"id":119,"abbreviation":"LAD"}]}"#;

const ROSTER_BODY: &str = r#"{"people":[
    {"id":1,"fullName":"Joey Bart","primaryPosition":{"abbreviation":"C"},"currentTeam":{"id":137}},
    {"id":2,"fullName":"Logan Webb","primaryPosition":{"abbreviation":"P"},"currentTeam":{"id":137}},
    {"id":3,"fullName":"Will Smith","primaryPosition":{"abbreviation":"C"},"currentTeam":{"id":119}},
    {"id":4,"fullName":"Will Smith","primaryPosition":{"abbreviation":"RP"},"currentTeam":{"id":119}}
]}"#;

const BATTER_BODY: &str = r#"{"people":[{"id":1,"stats":[{"splits":[{"stat":{
    "gamesPlayed":97,"plateAppearances":291,"atBats":261,"runs":26,"hits":57,
    "doubles":11,"triples":0,"homeRuns":11,"rbi":22,"stolenBases":0,
    "caughtStealing":1,"baseOnBalls":25,"hitByPitch":2,"strikeOuts":101,
    "avg":".215","babip":".311","obp":".296","slg":".364","ops":".660"
}}]}]}]}"#;

const LEAGUE_LEADERS_BODY: &str = r#"{"leagueLeaders":[{"leaders":[
    {"rank":1,"person":{"fullName":"Aaron Judge"},"value":"62"},
    {"rank":2,"person":{"fullName":"Kyle Schwarber"},"value":"46"},
    {"rank":3,"person":{"fullName":"Mike Trout"},"value":"40"},
    {"rank":4,"person":{"fullName":"Pete Alonso"},"value":"40"},
    {"rank":5,"person":{"fullName":"Austin Riley"},"value":"38"},
    {"rank":6,"person":{"fullName":"Yordan Alvarez"},"value":"37"}
]}]}"#;

const TEAM_LEADERS_BODY: &str = r#"{"teamLeaders":[
    {"statGroup":"hitting","leaders":[{"person":{"fullName":"Trea Turner"},"value":".298"}]},
    {"statGroup":"pitching","leaders":[
        {"person":{"fullName":"Tony Gonsolin"},"value":"2.14"},
        {"person":{"fullName":"Julio Urias"},"value":"2.16"}
    ]}
]}"#;

const TEAM_STATS_BODY: &str = r#"{"stats":[
    {"group":{"displayName":"pitching"},"splits":[{"team":{"name":"San Francisco Giants"},"stat":{"wins":81,"era":"3.85"}}]},
    {"group":{"displayName":"hitting"},"splits":[{"team":{"name":"San Francisco Giants"},"stat":{"runs":716,"avg":".235"}}]}
]}"#;

#[test]
fn the_team_list_parses() {
    let teams = parse_team_list(TEAMS_BODY).unwrap();
    assert_eq!(teams.len(), 2);
    assert_eq!(teams[0].id, 137);
    assert_eq!(teams[0].abbreviation, "SF");
    assert_eq!(teams[1].abbreviation, "LAD");
}

#[test]
fn malformed_team_lists_are_remote_errors() {
    assert_eq!(parse_team_list("not json").err(), Some(StatsError::Remote));
    assert_eq!(parse_team_list("{}").err(), Some(StatsError::Remote));
    assert_eq!(
        parse_team_list(r#"{"teams":[{"id":137}]}"#).err(),
        Some(StatsError::Remote)
    );
    assert_eq!(
        parse_team_list(r#"{"teams":[{"id":"137","abbreviation":"SF"}]}"#).err(),
        Some(StatsError::Remote)
    );
}

#[test]
fn the_roster_parses() {
    let roster = parse_roster(ROSTER_BODY).unwrap();
    assert_eq!(roster.len(), 4);
    assert_eq!(roster[1].full_name, "Logan Webb");
    assert_eq!(roster[1].position, "P");
    assert_eq!(roster[1].team_id, 137);
}

#[test]
fn the_stat_payload_parses_to_raw_fields() {
    let fields = parse_stat_fields(BATTER_BODY).unwrap();
    assert_eq!(get_int(&fields, "gamesPlayed"), Ok(97));
    assert_eq!(get_int(&fields, "strikeOuts"), Ok(101));
    assert_eq!(
        parse_stat_fields(r#"{"people":[]}"#).err(),
        Some(StatsError::Remote)
    );
}

#[test]
fn a_search_resolves_and_decodes_end_to_end() {
    // Season "2022", query "Bart": one candidate, a catcher, so the batter
    // variant decodes and the statline renders.
    let season = validate("2022", 2024).unwrap();
    let client = MlbClient::new(season, &parse_team_list(TEAMS_BODY).unwrap());
    let roster = parse_roster(ROSTER_BODY).unwrap();
    match client.get_player("Bart", &roster).unwrap() {
        Resolution::Resolved(c) => {
            assert_eq!(c.full_name, "Joey Bart");
            let kind = classify(&c.position);
            assert_eq!(kind, PlayerKind::Batter);
            let fields = parse_stat_fields(BATTER_BODY).unwrap();
            let line = MlbClient::statline_for(kind, &fields).unwrap();
            assert_eq!(line, "0.215/0.296/0.364");
        },
        Resolution::Ambiguous(_) => panic!("one match must resolve directly"),
    }
}

#[test]
fn an_ambiguous_search_lists_both_candidates() {
    let season = validate("2022", 2024).unwrap();
    let client = MlbClient::new(season, &parse_team_list(TEAMS_BODY).unwrap());
    let roster = parse_roster(ROSTER_BODY).unwrap();
    match client.get_player("Smith", &roster).unwrap() {
        Resolution::Ambiguous(cands) => {
            assert_eq!(cands.len(), 2);
            assert_eq!(client.candidate_line(0, &cands[0]), "1) Will Smith, LAD (C)");
            assert_eq!(client.candidate_line(1, &cands[1]), "2) Will Smith, LAD (RP)");
        },
        Resolution::Resolved(_) => panic!("two matches must ask for a choice"),
    }
}

#[test]
fn league_leaders_parse_and_truncate() {
    let rows = parse_league_leaders(LEAGUE_LEADERS_BODY).unwrap();
    assert_eq!(rows.len(), 6);
    let top = mlb::leaders::top_leaders(&rows);
    assert_eq!(top.len(), 5);
    assert_eq!(top[0].rank, 1);
    assert_eq!(top[0].name, "Aaron Judge");
    assert_eq!(MlbClient::leader_line(&top[1]), "2) Kyle Schwarber (46)");
}

#[test]
fn team_leaders_parse_and_filter_by_group() {
    // Category "ERA", group "pitching", a response holding both boards:
    // only the pitching rows survive the local filter.
    let sections = parse_team_leader_sections(TEAM_LEADERS_BODY).unwrap();
    assert_eq!(sections.len(), 2);
    let entries =
        mlb::leaders::team_leaders_from_sections(&sections, StatGroup::Pitching).unwrap();
    assert_eq!(entries.len(), 2);
    assert_eq!(entries[0].name, "Tony Gonsolin");
    assert_eq!(entries[1].name, "Julio Urias");
    for e in &entries {
        assert_ne!(e.name, "Trea Turner");
    }
}

#[test]
fn team_stats_sections_parse_in_service_order() {
    let sections = parse_team_stats(TEAM_STATS_BODY).unwrap();
    assert_eq!(sections.len(), 2);
    let (h, p) = mlb::stats::split_team_sections(&sections).unwrap();
    assert_eq!((h, p), (1, 0));
    assert_eq!(sections[h].team_name, "San Francisco Giants");
    assert_eq!(get_int(&sections[h].fields, "runs"), Ok(716));
    assert_eq!(get_int(&sections[p].fields, "wins"), Ok(81));
}
