//! The session client: the validated season, the team directory built once
//! for it, and the verified steps of each query pipeline.
//!
//! The transport is not here: a caller builds a `Request`, performs it
//! however it likes, and hands the response body or its parsed form back to
//! the next verified step.

use vstd::prelude::*;

use crate::catalog::{spec_lookup, StatGroup};
use crate::classify::PlayerKind;
use crate::errors::StatsError;
use crate::leaders::LeaderEntry;
use crate::player::{
    batter_fields_ok, pitcher_fields_ok, spec_batter, spec_pitcher, Player, PlayerStats,
};
use crate::requests::{
    spec_season_text, stat_leaders_request, team_stat_leaders_request, Request,
};
use crate::resolve::{PlayerCandidate, Resolution};
use crate::season::Season;
use crate::stats::RawField;
use crate::teams::{dir_lookup, TeamDirectory, TeamEntry};
use crate::text::dec_digits;
use crate::text::u64_to_string;

verus! {

/// One session's shared state: the season and the directory, both built
/// once and read-only afterwards.
#[derive(Debug)]
pub struct MlbClient {
    pub season: Season,
    pub directory: TeamDirectory,
}

impl MlbClient {
    pub open spec fn wf(self) -> bool {
        self.season.wf() && self.directory.wf()
    }

    /// Builds the session state from the validated season and the season's
    /// team list: the directory keeps the first abbreviation the list gives
    /// each team identifier.
    pub fn new(season: Season, teams: &Vec<TeamEntry>) -> (c: MlbClient)
        requires
            season.wf(),
        ensures
            c.wf(),
            c.season == season,
            forall|id: u64|
                #[trigger] dir_lookup(c.directory@, id) == dir_lookup(teams.deep_view(), id),
    {
        MlbClient { season, directory: TeamDirectory::build(teams) }
    }

    /// Narrows a name query against the season's roster; see
    /// `resolve::resolve` for the policy by match count.
    pub fn get_player(&self, query: &str, roster: &Vec<PlayerCandidate>) -> (r: Result<
        Resolution,
        StatsError,
    >)
        ensures
            ({
                let m = crate::resolve::spec_filter_roster(
                    roster.deep_view(),
                    crate::resolve::lower_of(crate::text::spec_trim(query@)),
                );
                &&& m.len() == 0 <==> r == Err::<Resolution, StatsError>(StatsError::NotFound)
                &&& m.len() == 1 ==> (r matches Ok(Resolution::Resolved(c)) && c@ == m[0])
                &&& m.len() >= 2 ==> (r matches Ok(Resolution::Ambiguous(cs)) && cs.deep_view()
                    == m)
            }),
    {
        crate::resolve::resolve(query, roster)
    }

    /// Decodes a player's stat payload as the classified variant and renders
    /// its one-line statline.
    pub fn statline_for(kind: PlayerKind, fields: &Vec<RawField>) -> (r: Result<String, StatsError>)
        ensures
            kind == PlayerKind::Batter ==> ({
                &&& r is Ok <==> batter_fields_ok(fields.deep_view())
                &&& (r matches Ok(s) ==> s@ == spec_batter(fields.deep_view()).statline_spec())
            }),
            kind == PlayerKind::Pitcher ==> ({
                &&& r is Ok <==> pitcher_fields_ok(fields.deep_view())
                &&& (r matches Ok(s) ==> s@ == spec_pitcher(fields.deep_view()).statline_spec())
            }),
            r is Err ==> r == Err::<String, StatsError>(StatsError::Decode),
    {
        match crate::player::decode(fields, kind) {
            Ok(PlayerStats::Batter(b)) => Ok(b.statline()),
            Ok(PlayerStats::Pitcher(p)) => Ok(p.statline()),
            Err(_) => Err(StatsError::Decode),
        }
    }

    /// The league-leaders lookup for a short category code: translating the
    /// code through the catalog decides between a request and an
    /// invalid-category error before anything is sent.
    pub fn leaders_request(&self, code: &str, group: StatGroup) -> (r: Result<Request, StatsError>)
        requires
            self.wf(),
        ensures
            match spec_lookup(code@, group) {
                Some(c) => (r matches Ok(req) && req.path@ == "stats/leaders"@
                    && req.params@.len() == 3 && req.params@[0].0@ == "season"@
                    && req.params@[0].1@ == spec_season_text(self.season) && req.params@[1].0@
                    == "statGroup"@ && req.params@[1].1@ == crate::catalog::spec_group_label(group)
                    && req.params@[2].0@ == "leaderCategories"@ && req.params@[2].1@ == c),
                None => r == Err::<Request, StatsError>(StatsError::InvalidCategory),
            },
    {
        match crate::catalog::lookup(code, group) {
            Ok(category) => Ok(stat_leaders_request(category, group, &self.season)),
            Err(_) => Err(StatsError::InvalidCategory),
        }
    }

    /// The team-leaders lookup for a short category code and a chosen team.
    pub fn team_leaders_request(&self, team_id: u64, code: &str, group: StatGroup) -> (r: Result<
        Request,
        StatsError,
    >)
        requires
            self.wf(),
        ensures
            match spec_lookup(code@, group) {
                Some(c) => (r matches Ok(req) && req.path@ == "teams/"@ + dec_digits(
                    team_id as int,
                ) + "/leaders"@ && req.params@.len() == 2 && req.params@[0].0@ == "season"@
                    && req.params@[0].1@ == spec_season_text(self.season) && req.params@[1].0@
                    == "leaderCategories"@ && req.params@[1].1@ == c),
                None => r == Err::<Request, StatsError>(StatsError::InvalidCategory),
            },
    {
        match crate::catalog::lookup(code, group) {
            Ok(category) => Ok(team_stat_leaders_request(team_id, category, &self.season)),
            Err(_) => Err(StatsError::InvalidCategory),
        }
    }

    /// One numbered line of the disambiguation menu: the 1-based index, the
    /// candidate's name, its team's abbreviation (or a placeholder when the
    /// directory lacks the team) and its position code.
    pub fn candidate_line(&self, index: usize, c: &PlayerCandidate) -> (r: String)
        requires
            index < usize::MAX,
        ensures
            r@ == dec_digits(index as int + 1) + ") "@ + c.full_name@ + ", "@ + (
            match dir_lookup(self.directory@, c@.team_id) {
                Some(a) => a,
                None => "?"@,
            }) + " ("@ + c.position@ + ")"@,
    {
        let mut out = u64_to_string((index as u64) + 1);
        out.append(") ");
        out.append(c.full_name.as_str());
        out.append(", ");
        match self.directory.abbreviation_of(c.team_id) {
            Some(a) => out.append(a.as_str()),
            None => out.append("?"),
        }
        out.append(" (");
        out.append(c.position.as_str());
        out.append(")");
        out
    }

    /// One numbered line of the team menu.
    pub fn team_line(index: usize, e: &TeamEntry) -> (r: String)
        requires
            index < usize::MAX,
        ensures
            r@ == dec_digits(index as int + 1) + ") "@ + e.abbreviation@,
    {
        let mut out = u64_to_string((index as u64) + 1);
        out.append(") ");
        out.append(e.abbreviation.as_str());
        out
    }

    /// One display line of a leaderboard: rank, name, and the stat value in
    /// parentheses.
    pub fn leader_line(e: &LeaderEntry) -> (r: String)
        ensures
            r@ == dec_digits(e.rank as int) + ") "@ + e.name@ + " ("@ + e.value@ + ")"@,
    {
        let mut out = u64_to_string(e.rank);
        out.append(") ");
        out.append(e.name.as_str());
        out.append(" (");
        out.append(e.value.as_str());
        out.append(")");
        out
    }
}

} // verus!
