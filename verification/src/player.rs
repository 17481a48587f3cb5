//! Typed player records and the decoder that builds them from a raw stat
//! payload.
//!
//! A record is one of two closed variants, batting or pitching, chosen by the
//! classifier.  Every field a variant names is required: a payload missing
//! one, or carrying a rate string that does not parse, is refused with a
//! decode error rather than turned into a partial record.

use vstd::prelude::*;

use crate::classify::PlayerKind;
use crate::errors::StatsError;
use crate::stats::{
    get_int, get_rate, rate_render, spec_int_field, spec_rate_field, spec_rate_render, Rate,
    RawField, RawFieldView,
};
use crate::text::dec_digits;
use crate::text::u64_to_string;

verus! {

/// A decoded batting record for one player-season.
#[derive(Clone, Copy, Debug, PartialEq, Eq, Structural)]
pub struct Batter {
    pub games_played: u64,
    pub plate_appearances: u64,
    pub at_bats: u64,
    pub runs: u64,
    pub hits: u64,
    pub doubles: u64,
    pub triples: u64,
    pub home_runs: u64,
    pub rbi: u64,
    pub stolen_bases: u64,
    pub caught_stealing: u64,
    pub base_on_balls: u64,
    pub hit_by_pitch: u64,
    pub strike_outs: u64,
    pub avg: Rate,
    pub babip: Rate,
    pub obp: Rate,
    pub slg: Rate,
    pub ops: Rate,
}

/// A decoded pitching record for one player-season.
#[derive(Clone, Copy, Debug, PartialEq, Eq, Structural)]
pub struct Pitcher {
    pub wins: u64,
    pub losses: u64,
    pub games_pitched: u64,
    pub games_started: u64,
    pub games_finished: u64,
    pub complete_games: u64,
    pub shutouts: u64,
    pub holds: u64,
    pub saves: u64,
    pub hits: u64,
    pub runs: u64,
    pub earned_runs: u64,
    pub home_runs: u64,
    pub base_on_balls: u64,
    pub strike_outs: u64,
    pub hit_by_pitch: u64,
    pub era: Rate,
    pub innings_pitched: Rate,
    pub whip: Rate,
    pub hits_per9: Rate,
    pub home_runs_per9: Rate,
    pub walks_per9: Rate,
    pub strikeouts_per9: Rate,
    pub strikeout_walk_ratio: Rate,
}

/// Whether a payload carries every field a batting record requires.
pub open spec fn batter_fields_ok(fields: Seq<RawFieldView>) -> bool {
    &&& spec_int_field(fields, "gamesPlayed"@) is Some
    &&& spec_int_field(fields, "plateAppearances"@) is Some
    &&& spec_int_field(fields, "atBats"@) is Some
    &&& spec_int_field(fields, "runs"@) is Some
    &&& spec_int_field(fields, "hits"@) is Some
    &&& spec_int_field(fields, "doubles"@) is Some
    &&& spec_int_field(fields, "triples"@) is Some
    &&& spec_int_field(fields, "homeRuns"@) is Some
    &&& spec_int_field(fields, "rbi"@) is Some
    &&& spec_int_field(fields, "stolenBases"@) is Some
    &&& spec_int_field(fields, "caughtStealing"@) is Some
    &&& spec_int_field(fields, "baseOnBalls"@) is Some
    &&& spec_int_field(fields, "hitByPitch"@) is Some
    &&& spec_int_field(fields, "strikeOuts"@) is Some
    &&& spec_rate_field(fields, "avg"@) is Some
    &&& spec_rate_field(fields, "babip"@) is Some
    &&& spec_rate_field(fields, "obp"@) is Some
    &&& spec_rate_field(fields, "slg"@) is Some
    &&& spec_rate_field(fields, "ops"@) is Some
}

/// The batting record a decodable payload denotes.
pub open spec fn spec_batter(fields: Seq<RawFieldView>) -> Batter {
    Batter {
        games_played: spec_int_field(fields, "gamesPlayed"@)->Some_0,
        plate_appearances: spec_int_field(fields, "plateAppearances"@)->Some_0,
        at_bats: spec_int_field(fields, "atBats"@)->Some_0,
        runs: spec_int_field(fields, "runs"@)->Some_0,
        hits: spec_int_field(fields, "hits"@)->Some_0,
        doubles: spec_int_field(fields, "doubles"@)->Some_0,
        triples: spec_int_field(fields, "triples"@)->Some_0,
        home_runs: spec_int_field(fields, "homeRuns"@)->Some_0,
        rbi: spec_int_field(fields, "rbi"@)->Some_0,
        stolen_bases: spec_int_field(fields, "stolenBases"@)->Some_0,
        caught_stealing: spec_int_field(fields, "caughtStealing"@)->Some_0,
        base_on_balls: spec_int_field(fields, "baseOnBalls"@)->Some_0,
        hit_by_pitch: spec_int_field(fields, "hitByPitch"@)->Some_0,
        strike_outs: spec_int_field(fields, "strikeOuts"@)->Some_0,
        avg: spec_rate_field(fields, "avg"@)->Some_0,
        babip: spec_rate_field(fields, "babip"@)->Some_0,
        obp: spec_rate_field(fields, "obp"@)->Some_0,
        slg: spec_rate_field(fields, "slg"@)->Some_0,
        ops: spec_rate_field(fields, "ops"@)->Some_0,
    }
}

/// Whether a payload carries every field a pitching record requires.
pub open spec fn pitcher_fields_ok(fields: Seq<RawFieldView>) -> bool {
    &&& spec_int_field(fields, "wins"@) is Some
    &&& spec_int_field(fields, "losses"@) is Some
    &&& spec_int_field(fields, "gamesPitched"@) is Some
    &&& spec_int_field(fields, "gamesStarted"@) is Some
    &&& spec_int_field(fields, "gamesFinished"@) is Some
    &&& spec_int_field(fields, "completeGames"@) is Some
    &&& spec_int_field(fields, "shutouts"@) is Some
    &&& spec_int_field(fields, "holds"@) is Some
    &&& spec_int_field(fields, "saves"@) is Some
    &&& spec_int_field(fields, "hits"@) is Some
    &&& spec_int_field(fields, "runs"@) is Some
    &&& spec_int_field(fields, "earnedRuns"@) is Some
    &&& spec_int_field(fields, "homeRuns"@) is Some
    &&& spec_int_field(fields, "baseOnBalls"@) is Some
    &&& spec_int_field(fields, "strikeOuts"@) is Some
    &&& spec_int_field(fields, "hitByPitch"@) is Some
    &&& spec_rate_field(fields, "era"@) is Some
    &&& spec_rate_field(fields, "inningsPitched"@) is Some
    &&& spec_rate_field(fields, "whip"@) is Some
    &&& spec_rate_field(fields, "hitsPer9Inn"@) is Some
    &&& spec_rate_field(fields, "homeRunsPer9"@) is Some
    &&& spec_rate_field(fields, "walksPer9Inn"@) is Some
    &&& spec_rate_field(fields, "strikeoutsPer9Inn"@) is Some
    &&& spec_rate_field(fields, "strikeoutWalkRatio"@) is Some
}

/// The pitching record a decodable payload denotes.
pub open spec fn spec_pitcher(fields: Seq<RawFieldView>) -> Pitcher {
    Pitcher {
        wins: spec_int_field(fields, "wins"@)->Some_0,
        losses: spec_int_field(fields, "losses"@)->Some_0,
        games_pitched: spec_int_field(fields, "gamesPitched"@)->Some_0,
        games_started: spec_int_field(fields, "gamesStarted"@)->Some_0,
        games_finished: spec_int_field(fields, "gamesFinished"@)->Some_0,
        complete_games: spec_int_field(fields, "completeGames"@)->Some_0,
        shutouts: spec_int_field(fields, "shutouts"@)->Some_0,
        holds: spec_int_field(fields, "holds"@)->Some_0,
        saves: spec_int_field(fields, "saves"@)->Some_0,
        hits: spec_int_field(fields, "hits"@)->Some_0,
        runs: spec_int_field(fields, "runs"@)->Some_0,
        earned_runs: spec_int_field(fields, "earnedRuns"@)->Some_0,
        home_runs: spec_int_field(fields, "homeRuns"@)->Some_0,
        base_on_balls: spec_int_field(fields, "baseOnBalls"@)->Some_0,
        strike_outs: spec_int_field(fields, "strikeOuts"@)->Some_0,
        hit_by_pitch: spec_int_field(fields, "hitByPitch"@)->Some_0,
        era: spec_rate_field(fields, "era"@)->Some_0,
        innings_pitched: spec_rate_field(fields, "inningsPitched"@)->Some_0,
        whip: spec_rate_field(fields, "whip"@)->Some_0,
        hits_per9: spec_rate_field(fields, "hitsPer9Inn"@)->Some_0,
        home_runs_per9: spec_rate_field(fields, "homeRunsPer9"@)->Some_0,
        walks_per9: spec_rate_field(fields, "walksPer9Inn"@)->Some_0,
        strikeouts_per9: spec_rate_field(fields, "strikeoutsPer9Inn"@)->Some_0,
        strikeout_walk_ratio: spec_rate_field(fields, "strikeoutWalkRatio"@)->Some_0,
    }
}

impl Batter {
    /// Decodes a batting record from a raw stat payload: succeeds exactly
    /// when every required field is present and well-formed, and then every
    /// field of the record is the payload's value for it.
    pub fn new(fields: &Vec<RawField>) -> (r: Result<Batter, StatsError>)
        ensures
            r is Ok <==> batter_fields_ok(fields.deep_view()),
            r matches Ok(b) ==> b == spec_batter(fields.deep_view()),
            r is Err ==> r == Err::<Batter, StatsError>(StatsError::Decode),
    {
        let games_played = match get_int(fields, "gamesPlayed") {
            Ok(v) => v,
            Err(_) => return Err(StatsError::Decode),
        };
        let plate_appearances = match get_int(fields, "plateAppearances") {
            Ok(v) => v,
            Err(_) => return Err(StatsError::Decode),
        };
        let at_bats = match get_int(fields, "atBats") {
            Ok(v) => v,
            Err(_) => return Err(StatsError::Decode),
        };
        let runs = match get_int(fields, "runs") {
            Ok(v) => v,
            Err(_) => return Err(StatsError::Decode),
        };
        let hits = match get_int(fields, "hits") {
            Ok(v) => v,
            Err(_) => return Err(StatsError::Decode),
        };
        let doubles = match get_int(fields, "doubles") {
            Ok(v) => v,
            Err(_) => return Err(StatsError::Decode),
        };
        let triples = match get_int(fields, "triples") {
            Ok(v) => v,
            Err(_) => return Err(StatsError::Decode),
        };
        let home_runs = match get_int(fields, "homeRuns") {
            Ok(v) => v,
            Err(_) => return Err(StatsError::Decode),
        };
        let rbi = match get_int(fields, "rbi") {
            Ok(v) => v,
            Err(_) => return Err(StatsError::Decode),
        };
        let stolen_bases = match get_int(fields, "stolenBases") {
            Ok(v) => v,
            Err(_) => return Err(StatsError::Decode),
        };
        let caught_stealing = match get_int(fields, "caughtStealing") {
            Ok(v) => v,
            Err(_) => return Err(StatsError::Decode),
        };
        let base_on_balls = match get_int(fields, "baseOnBalls") {
            Ok(v) => v,
            Err(_) => return Err(StatsError::Decode),
        };
        let hit_by_pitch = match get_int(fields, "hitByPitch") {
            Ok(v) => v,
            Err(_) => return Err(StatsError::Decode),
        };
        let strike_outs = match get_int(fields, "strikeOuts") {
            Ok(v) => v,
            Err(_) => return Err(StatsError::Decode),
        };
        let avg = match get_rate(fields, "avg") {
            Ok(v) => v,
            Err(_) => return Err(StatsError::Decode),
        };
        let babip = match get_rate(fields, "babip") {
            Ok(v) => v,
            Err(_) => return Err(StatsError::Decode),
        };
        let obp = match get_rate(fields, "obp") {
            Ok(v) => v,
            Err(_) => return Err(StatsError::Decode),
        };
        let slg = match get_rate(fields, "slg") {
            Ok(v) => v,
            Err(_) => return Err(StatsError::Decode),
        };
        let ops = match get_rate(fields, "ops") {
            Ok(v) => v,
            Err(_) => return Err(StatsError::Decode),
        };
        Ok(
            Batter {
                games_played,
                plate_appearances,
                at_bats,
                runs,
                hits,
                doubles,
                triples,
                home_runs,
                rbi,
                stolen_bases,
                caught_stealing,
                base_on_balls,
                hit_by_pitch,
                strike_outs,
                avg,
                babip,
                obp,
                slg,
                ops,
            },
        )
    }
}

impl Pitcher {
    /// Decodes a pitching record from a raw stat payload: succeeds exactly
    /// when every required field is present and well-formed, and then every
    /// field of the record is the payload's value for it.
    pub fn new(fields: &Vec<RawField>) -> (r: Result<Pitcher, StatsError>)
        ensures
            r is Ok <==> pitcher_fields_ok(fields.deep_view()),
            r matches Ok(p) ==> p == spec_pitcher(fields.deep_view()),
            r is Err ==> r == Err::<Pitcher, StatsError>(StatsError::Decode),
    {
        let wins = match get_int(fields, "wins") {
            Ok(v) => v,
            Err(_) => return Err(StatsError::Decode),
        };
        let losses = match get_int(fields, "losses") {
            Ok(v) => v,
            Err(_) => return Err(StatsError::Decode),
        };
        let games_pitched = match get_int(fields, "gamesPitched") {
            Ok(v) => v,
            Err(_) => return Err(StatsError::Decode),
        };
        let games_started = match get_int(fields, "gamesStarted") {
            Ok(v) => v,
            Err(_) => return Err(StatsError::Decode),
        };
        let games_finished = match get_int(fields, "gamesFinished") {
            Ok(v) => v,
            Err(_) => return Err(StatsError::Decode),
        };
        let complete_games = match get_int(fields, "completeGames") {
            Ok(v) => v,
            Err(_) => return Err(StatsError::Decode),
        };
        let shutouts = match get_int(fields, "shutouts") {
            Ok(v) => v,
            Err(_) => return Err(StatsError::Decode),
        };
        let holds = match get_int(fields, "holds") {
            Ok(v) => v,
            Err(_) => return Err(StatsError::Decode),
        };
        let saves = match get_int(fields, "saves") {
            Ok(v) => v,
            Err(_) => return Err(StatsError::Decode),
        };
        let hits = match get_int(fields, "hits") {
            Ok(v) => v,
            Err(_) => return Err(StatsError::Decode),
        };
        let runs = match get_int(fields, "runs") {
            Ok(v) => v,
            Err(_) => return Err(StatsError::Decode),
        };
        let earned_runs = match get_int(fields, "earnedRuns") {
            Ok(v) => v,
            Err(_) => return Err(StatsError::Decode),
        };
        let home_runs = match get_int(fields, "homeRuns") {
            Ok(v) => v,
            Err(_) => return Err(StatsError::Decode),
        };
        let base_on_balls = match get_int(fields, "baseOnBalls") {
            Ok(v) => v,
            Err(_) => return Err(StatsError::Decode),
        };
        let strike_outs = match get_int(fields, "strikeOuts") {
            Ok(v) => v,
            Err(_) => return Err(StatsError::Decode),
        };
        let hit_by_pitch = match get_int(fields, "hitByPitch") {
            Ok(v) => v,
            Err(_) => return Err(StatsError::Decode),
        };
        let era = match get_rate(fields, "era") {
            Ok(v) => v,
            Err(_) => return Err(StatsError::Decode),
        };
        let innings_pitched = match get_rate(fields, "inningsPitched") {
            Ok(v) => v,
            Err(_) => return Err(StatsError::Decode),
        };
        let whip = match get_rate(fields, "whip") {
            Ok(v) => v,
            Err(_) => return Err(StatsError::Decode),
        };
        let hits_per9 = match get_rate(fields, "hitsPer9Inn") {
            Ok(v) => v,
            Err(_) => return Err(StatsError::Decode),
        };
        let home_runs_per9 = match get_rate(fields, "homeRunsPer9") {
            Ok(v) => v,
            Err(_) => return Err(StatsError::Decode),
        };
        let walks_per9 = match get_rate(fields, "walksPer9Inn") {
            Ok(v) => v,
            Err(_) => return Err(StatsError::Decode),
        };
        let strikeouts_per9 = match get_rate(fields, "strikeoutsPer9Inn") {
            Ok(v) => v,
            Err(_) => return Err(StatsError::Decode),
        };
        let strikeout_walk_ratio = match get_rate(fields, "strikeoutWalkRatio") {
            Ok(v) => v,
            Err(_) => return Err(StatsError::Decode),
        };
        Ok(
            Pitcher {
                wins,
                losses,
                games_pitched,
                games_started,
                games_finished,
                complete_games,
                shutouts,
                holds,
                saves,
                hits,
                runs,
                earned_runs,
                home_runs,
                base_on_balls,
                strike_outs,
                hit_by_pitch,
                era,
                innings_pitched,
                whip,
                hits_per9,
                home_runs_per9,
                walks_per9,
                strikeouts_per9,
                strikeout_walk_ratio,
            },
        )
    }
}

/// A record of either variant, handled exhaustively wherever it is consumed.
#[derive(Clone, Copy, Debug, PartialEq, Eq, Structural)]
pub enum PlayerStats {
    Batter(Batter),
    Pitcher(Pitcher),
}

/// Decodes the raw stat payload as the variant the classifier chose.
pub fn decode(fields: &Vec<RawField>, kind: PlayerKind) -> (r: Result<PlayerStats, StatsError>)
    ensures
        kind == PlayerKind::Batter ==> ({
            &&& r is Ok <==> batter_fields_ok(fields.deep_view())
            &&& (r matches Ok(s) ==> s == PlayerStats::Batter(spec_batter(fields.deep_view())))
        }),
        kind == PlayerKind::Pitcher ==> ({
            &&& r is Ok <==> pitcher_fields_ok(fields.deep_view())
            &&& (r matches Ok(s) ==> s == PlayerStats::Pitcher(spec_pitcher(fields.deep_view())))
        }),
        r is Err ==> r == Err::<PlayerStats, StatsError>(StatsError::Decode),
{
    match kind {
        PlayerKind::Batter => match Batter::new(fields) {
            Ok(b) => Ok(PlayerStats::Batter(b)),
            Err(e) => Err(e),
        },
        PlayerKind::Pitcher => match Pitcher::new(fields) {
            Ok(p) => Ok(PlayerStats::Pitcher(p)),
            Err(e) => Err(e),
        },
    }
}

/// A record that can render itself as a one-line statline.
pub trait Player {
    /// The display form of the record.
    spec fn statline_spec(&self) -> Seq<char>;

    /// Renders the record's one-line display form.
    fn statline(&self) -> (r: String)
        ensures
            r@ == self.statline_spec(),
    ;
}

impl Player for Batter {
    /// The slash line: average, on-base and slugging, separated by '/'.
    open spec fn statline_spec(&self) -> Seq<char> {
        spec_rate_render(self.avg) + "/"@ + spec_rate_render(self.obp) + "/"@ + spec_rate_render(
            self.slg,
        )
    }

    fn statline(&self) -> (r: String) {
        let mut out = rate_render(&self.avg);
        out.append("/");
        let obp = rate_render(&self.obp);
        out.append(obp.as_str());
        out.append("/");
        let slg = rate_render(&self.slg);
        out.append(slg.as_str());
        out
    }
}

impl Player for Pitcher {
    /// The win-loss line with the earned-run average.
    open spec fn statline_spec(&self) -> Seq<char> {
        dec_digits(self.wins as int) + " W-"@ + dec_digits(self.losses as int) + " L, "@
            + spec_rate_render(self.era) + " ERA"@
    }

    fn statline(&self) -> (r: String) {
        let mut out = u64_to_string(self.wins);
        out.append(" W-");
        let losses = u64_to_string(self.losses);
        out.append(losses.as_str());
        out.append(" L, ");
        let era = rate_render(&self.era);
        out.append(era.as_str());
        out.append(" ERA");
        out
    }
}

} // verus!
