use mlb::catalog::StatGroup;
use mlb::client::MlbClient;
use mlb::errors::StatsError;
use mlb::resolve::PlayerCandidate;
use mlb::season::{validate, Season};
use mlb::teams::{team_id_at, TeamDirectory, TeamEntry};

fn entry(id: u64, abbreviation: &str) -> TeamEntry {
    TeamEntry { id, abbreviation: String::from(abbreviation) }
}

fn sample_list() -> Vec<TeamEntry> {
    vec![entry(137, "SF"), entry(119, "LAD"), entry(108, "LAA")]
}

#[test]
fn the_directory_answers_by_identifier() {
    let d = TeamDirectory::build(&sample_list());
    assert_eq!(d.len(), 3);
    assert_eq!(d.abbreviation_of(137).unwrap(), "SF");
    assert_eq!(d.abbreviation_of(119).unwrap(), "LAD");
    assert!(d.abbreviation_of(1).is_none());
}

#[test]
fn duplicate_identifiers_keep_the_first_entry() {
    let list = vec![entry(137, "SF"), entry(137, "XXX"), entry(119, "LAD")];
    let d = TeamDirectory::build(&list);
    assert_eq!(d.len(), 2);
    assert_eq!(d.abbreviation_of(137).unwrap(), "SF");
}

#[test]
fn a_team_is_selected_from_the_menu_by_index() {
    let d = TeamDirectory::build(&sample_list());
    assert_eq!(team_id_at(&d, "1\n"), Ok(137));
    assert_eq!(team_id_at(&d, "3"), Ok(108));
    assert_eq!(team_id_at(&d, "4"), Err(StatsError::Selection));
    assert_eq!(team_id_at(&d, "zero"), Err(StatsError::Selection));
}

#[test]
fn the_client_holds_the_season_and_the_directory() {
    let season = validate("2022", 2024).unwrap();
    let client = MlbClient::new(season, &sample_list());
    assert_eq!(client.season, Season { year: 2022 });
    assert_eq!(client.directory.abbreviation_of(137).unwrap(), "SF");
}

#[test]
fn menu_lines_render() {
    let season = validate("2022", 2024).unwrap();
    let client = MlbClient::new(season, &sample_list());
    let teams = client.directory.teams();
    assert_eq!(MlbClient::team_line(0, &teams[0]), "1) SF");
    assert_eq!(MlbClient::team_line(2, &teams[2]), "3) LAA");
    let c = PlayerCandidate {
        id: 3,
        full_name: String::from("Will Smith"),
        position: String::from("C"),
        team_id: 119,
    };
    assert_eq!(client.candidate_line(0, &c), "1) Will Smith, LAD (C)");
    let unknown = PlayerCandidate {
        id: 9,
        full_name: String::from("Nobody Much"),
        position: String::from("2B"),
        team_id: 999,
    };
    assert_eq!(client.candidate_line(1, &unknown), "2) Nobody Much, ? (2B)");
}

#[test]
fn leader_requests_translate_the_category_first() {
    let season = validate("2022", 2024).unwrap();
    let client = MlbClient::new(season, &sample_list());
    let req = client.leaders_request("HR", StatGroup::Hitting).unwrap();
    assert_eq!(req.path, "stats/leaders");
    assert_eq!(req.params[0], (String::from("season"), String::from("2022")));
    assert_eq!(req.params[1], (String::from("statGroup"), String::from("hitting")));
    assert_eq!(req.params[2], (String::from("leaderCategories"), String::from("homeRuns")));
    assert_eq!(
        client.leaders_request("W", StatGroup::Hitting).err(),
        Some(StatsError::InvalidCategory)
    );
    let req = client.team_leaders_request(137, "ERA", StatGroup::Pitching).unwrap();
    assert_eq!(req.path, "teams/137/leaders");
    assert_eq!(req.params[1], (
        String::from("leaderCategories"),
        String::from("earnedRunAverage"),
    ));
    assert_eq!(
        client.team_leaders_request(137, "XYZ", StatGroup::Pitching).err(),
        Some(StatsError::InvalidCategory)
    );
}

#[test]
fn request_builders_name_the_remote_contract() {
    let season = validate("2022", 2024).unwrap();
    let req = mlb::requests::teams_request(&season);
    assert_eq!(req.path, "teams");
    assert_eq!(req.params[0], (String::from("sportId"), String::from("1")));
    assert_eq!(req.params[1], (
        String::from("fields"),
        String::from("teams,id,abbreviation"),
    ));
    assert_eq!(req.params[2], (String::from("season"), String::from("2022")));
    let req = mlb::requests::players_request(&season);
    assert_eq!(req.path, "sports/1/players");
    let req = mlb::requests::player_details_request(
        12345,
        StatGroup::Pitching,
        &season,
    );
    assert_eq!(req.path, "people");
    assert_eq!(req.params[0], (String::from("personIds"), String::from("12345")));
    assert_eq!(req.params[1], (
        String::from("hydrate"),
        String::from("stats(group=[pitching],type=season,season=2022),currentTeam"),
    ));
    let req = mlb::requests::team_stats_request(137, &season);
    assert_eq!(req.path, "teams/137/stats");
    assert_eq!(req.params[1], (String::from("group"), String::from("hitting,pitching")));
}
