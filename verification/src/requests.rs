//! Request builders: the path and query parameters of each remote lookup.
//!
//! The transport (URL assembly, encoding, the HTTP call itself) lives
//! outside this crate; what is verified here is that each lookup asks for
//! exactly the resource and parameters the remote service's contract names.

use vstd::prelude::*;

use crate::catalog::{spec_group_label, StatGroup};
use crate::season::Season;
use crate::text::{dec_digits, u64_to_string};

verus! {

/// A remote lookup: a path below the service root and its query parameters,
/// in order.
#[derive(Debug)]
pub struct Request {
    pub path: String,
    pub params: Vec<(String, String)>,
}

/// The decimal rendering of a validated season.
pub open spec fn spec_season_text(season: Season) -> Seq<char> {
    dec_digits(season.year as int)
}

fn season_text(season: &Season) -> (r: String)
    requires
        season.wf(),
    ensures
        r@ == spec_season_text(*season),
{
    u64_to_string(season.year as u64)
}

fn pair(key: &str, value: String) -> (r: (String, String))
    ensures
        r.0@ == key@,
        r.1@ == value@,
{
    (key.to_owned(), value)
}

/// The team list for a season.
pub fn teams_request(season: &Season) -> (r: Request)
    requires
        season.wf(),
    ensures
        r.path@ == "teams"@,
        r.params@.len() == 3,
        r.params@[0].0@ == "sportId"@ && r.params@[0].1@ == "1"@,
        r.params@[1].0@ == "fields"@ && r.params@[1].1@ == "teams,id,abbreviation"@,
        r.params@[2].0@ == "season"@ && r.params@[2].1@ == spec_season_text(*season),
{
    let path: &str = "teams";
    let mut params: Vec<(String, String)> = Vec::new();
    params.push(pair("sportId", {
        let one: &str = "1";
        one.to_owned()
    }));
    params.push(pair("fields", {
        let fields: &str = "teams,id,abbreviation";
        fields.to_owned()
    }));
    params.push(pair("season", season_text(season)));
    Request { path: path.to_owned(), params }
}

/// The season-wide player search feeding a name query.
pub fn players_request(season: &Season) -> (r: Request)
    requires
        season.wf(),
    ensures
        r.path@ == "sports/1/players"@,
        r.params@.len() == 1,
        r.params@[0].0@ == "season"@ && r.params@[0].1@ == spec_season_text(*season),
{
    let path: &str = "sports/1/players";
    let mut params: Vec<(String, String)> = Vec::new();
    params.push(pair("season", season_text(season)));
    Request { path: path.to_owned(), params }
}

/// The hydrate expression asking for one player's season stats of one group.
pub open spec fn spec_hydrate(group: StatGroup, season: Season) -> Seq<char> {
    "stats(group=["@ + spec_group_label(group) + "],type=season,season="@ + spec_season_text(
        season,
    ) + "),currentTeam"@
}

/// The stat detail of one player, hydrated with the chosen group's season
/// stats.
pub fn player_details_request(player_id: u64, group: StatGroup, season: &Season) -> (r: Request)
    requires
        season.wf(),
    ensures
        r.path@ == "people"@,
        r.params@.len() == 2,
        r.params@[0].0@ == "personIds"@ && r.params@[0].1@ == dec_digits(player_id as int),
        r.params@[1].0@ == "hydrate"@ && r.params@[1].1@ == spec_hydrate(group, *season),
{
    let path: &str = "people";
    let mut params: Vec<(String, String)> = Vec::new();
    params.push(pair("personIds", u64_to_string(player_id)));
    let mut hydrate = {
        let head: &str = "stats(group=[";
        head.to_owned()
    };
    hydrate.append(crate::catalog::group_label(group));
    hydrate.append("],type=season,season=");
    let st = season_text(season);
    hydrate.append(st.as_str());
    hydrate.append("),currentTeam");
    params.push(pair("hydrate", hydrate));
    Request { path: path.to_owned(), params }
}

/// A team's aggregate season stats, both groups at once.
pub fn team_stats_request(team_id: u64, season: &Season) -> (r: Request)
    requires
        season.wf(),
    ensures
        r.path@ == "teams/"@ + dec_digits(team_id as int) + "/stats"@,
        r.params@.len() == 3,
        r.params@[0].0@ == "season"@ && r.params@[0].1@ == spec_season_text(*season),
        r.params@[1].0@ == "group"@ && r.params@[1].1@ == "hitting,pitching"@,
        r.params@[2].0@ == "stats"@ && r.params@[2].1@ == "season"@,
{
    let mut path = {
        let head: &str = "teams/";
        head.to_owned()
    };
    let id = u64_to_string(team_id);
    path.append(id.as_str());
    path.append("/stats");
    let mut params: Vec<(String, String)> = Vec::new();
    params.push(pair("season", season_text(season)));
    params.push(pair("group", {
        let both: &str = "hitting,pitching";
        both.to_owned()
    }));
    params.push(pair("stats", {
        let kind: &str = "season";
        kind.to_owned()
    }));
    Request { path, params }
}

/// The league-wide leaders of one canonical category.
pub fn stat_leaders_request(category: &str, group: StatGroup, season: &Season) -> (r: Request)
    requires
        season.wf(),
    ensures
        r.path@ == "stats/leaders"@,
        r.params@.len() == 3,
        r.params@[0].0@ == "season"@ && r.params@[0].1@ == spec_season_text(*season),
        r.params@[1].0@ == "statGroup"@ && r.params@[1].1@ == spec_group_label(group),
        r.params@[2].0@ == "leaderCategories"@ && r.params@[2].1@ == category@,
{
    let path: &str = "stats/leaders";
    let mut params: Vec<(String, String)> = Vec::new();
    params.push(pair("season", season_text(season)));
    params.push(pair("statGroup", {
        let label = crate::catalog::group_label(group);
        label.to_owned()
    }));
    params.push(pair("leaderCategories", category.to_owned()));
    Request { path: path.to_owned(), params }
}

/// One team's leaders of one canonical category.  The endpoint answers with
/// every stat group regardless of the category's group, so callers filter
/// the response locally.
pub fn team_stat_leaders_request(team_id: u64, category: &str, season: &Season) -> (r: Request)
    requires
        season.wf(),
    ensures
        r.path@ == "teams/"@ + dec_digits(team_id as int) + "/leaders"@,
        r.params@.len() == 2,
        r.params@[0].0@ == "season"@ && r.params@[0].1@ == spec_season_text(*season),
        r.params@[1].0@ == "leaderCategories"@ && r.params@[1].1@ == category@,
{
    let mut path = {
        let head: &str = "teams/";
        head.to_owned()
    };
    let id = u64_to_string(team_id);
    path.append(id.as_str());
    path.append("/leaders");
    let mut params: Vec<(String, String)> = Vec::new();
    params.push(pair("season", season_text(season)));
    params.push(pair("leaderCategories", category.to_owned()));
    Request { path, params }
}

} // verus!
