//! The category catalog: two closed tables translating a short display code
//! (what a user picks from a menu) into the canonical field name the remote
//! service expects, one table per stat group.
//!
//! The tables are closed and static; lookup is case-sensitive and
//! group-scoped, and has no side effects, so it is modelled as a pure
//! function rather than ambient state.

use vstd::prelude::*;

use crate::errors::StatsError;
use crate::text::str_eq;

verus! {

/// One of the two statistical groups every query is scoped to.
#[derive(Clone, Copy, Debug, PartialEq, Eq, Structural)]
pub enum StatGroup {
    Hitting,
    Pitching,
}

/// The group label the remote service uses in paths, query strings and
/// response tags.
pub open spec fn spec_group_label(group: StatGroup) -> Seq<char> {
    match group {
        StatGroup::Hitting => "hitting"@,
        StatGroup::Pitching => "pitching"@,
    }
}

pub fn group_label(group: StatGroup) -> (r: &'static str)
    ensures
        r@ == spec_group_label(group),
{
    match group {
        StatGroup::Hitting => "hitting",
        StatGroup::Pitching => "pitching",
    }
}

/// Reads a stat group from raw user input: exactly "hitting" or "pitching"
/// after trimming, anything else refused as a selection error.
pub fn group_from_input(raw: &str) -> (r: Result<StatGroup, StatsError>)
    ensures
        crate::text::spec_trim(raw@) == "hitting"@ ==> r == Ok::<StatGroup, StatsError>(
            StatGroup::Hitting,
        ),
        crate::text::spec_trim(raw@) == "pitching"@ ==> r == Ok::<StatGroup, StatsError>(
            StatGroup::Pitching,
        ),
        crate::text::spec_trim(raw@) != "hitting"@ && crate::text::spec_trim(raw@) != "pitching"@
            ==> r == Err::<StatGroup, StatsError>(StatsError::Selection),
{
    proof {
        reveal_strlit("hitting");
        reveal_strlit("pitching");
        assert("hitting"@.len() == 7 && "pitching"@.len() == 8);
    }
    let t = crate::text::trim_str(raw);
    if str_eq(t, "hitting") {
        Ok(StatGroup::Hitting)
    } else if str_eq(t, "pitching") {
        Ok(StatGroup::Pitching)
    } else {
        Err(StatsError::Selection)
    }
}

/// The canonical field name for a short code within a group, if the code
/// belongs to that group's closed table.
pub open spec fn spec_lookup(code: Seq<char>, group: StatGroup) -> Option<Seq<char>> {
    match group {
        StatGroup::Hitting => if code == "H"@ {
            Some("hits"@)
        } else if code == "HR"@ {
            Some("homeRuns"@)
        } else if code == "RBI"@ {
            Some("runsBattedIn"@)
        } else if code == "SB"@ {
            Some("stolenBases"@)
        } else if code == "BB"@ {
            Some("walks"@)
        } else if code == "HBP"@ {
            Some("hitByPitches"@)
        } else if code == "SO"@ {
            Some("strikeouts"@)
        } else if code == "AVG"@ {
            Some("battingAverage"@)
        } else if code == "OBP"@ {
            Some("onBasePercentage"@)
        } else if code == "SLG"@ {
            Some("slugglingPercentage"@)
        } else if code == "OPS"@ {
            Some("onBasePlusSlugging"@)
        } else {
            None
        },
        StatGroup::Pitching => if code == "W"@ {
            Some("wins"@)
        } else if code == "L"@ {
            Some("losses"@)
        } else if code == "ERA"@ {
            Some("earnedRunAverage"@)
        } else if code == "SHO"@ {
            Some("shutouts"@)
        } else if code == "HLD"@ {
            Some("holds"@)
        } else if code == "SV"@ {
            Some("saves"@)
        } else if code == "IP"@ {
            Some("inningsPitched"@)
        } else if code == "HR"@ {
            Some("homeRuns"@)
        } else if code == "BB"@ {
            Some("walks"@)
        } else if code == "SO"@ {
            Some("strikeouts"@)
        } else if code == "HBP"@ {
            Some("hitBatsmen"@)
        } else if code == "WHIP"@ {
            Some("walksAndHitsPerInningPitched"@)
        } else if code == "BB9"@ {
            Some("walksPer9Inn"@)
        } else if code == "SO9"@ {
            Some("strikeoutsPer9Inn"@)
        } else if code == "AVG"@ {
            Some("battingAverage"@)
        } else if code == "OBP"@ {
            Some("onBasePercentage"@)
        } else if code == "SLG"@ {
            Some("slugglingPercentage"@)
        } else if code == "OPS"@ {
            Some("onBasePlusSlugging"@)
        } else {
            None
        },
    }
}

/// Translates a short display code within a stat group.  The same code and
/// group always give the same canonical name, and a code outside the group's
/// table is an invalid-category error.
pub fn lookup(code: &str, group: StatGroup) -> (r: Result<&'static str, StatsError>)
    ensures
        match spec_lookup(code@, group) {
            Some(c) => r matches Ok(s) && s@ == c,
            None => r matches Err(e) && e == StatsError::InvalidCategory,
        },
{
    match group {
        StatGroup::Hitting => if str_eq(code, "H") {
            Ok("hits")
        } else if str_eq(code, "HR") {
            Ok("homeRuns")
        } else if str_eq(code, "RBI") {
            Ok("runsBattedIn")
        } else if str_eq(code, "SB") {
            Ok("stolenBases")
        } else if str_eq(code, "BB") {
            Ok("walks")
        } else if str_eq(code, "HBP") {
            Ok("hitByPitches")
        } else if str_eq(code, "SO") {
            Ok("strikeouts")
        } else if str_eq(code, "AVG") {
            Ok("battingAverage")
        } else if str_eq(code, "OBP") {
            Ok("onBasePercentage")
        } else if str_eq(code, "SLG") {
            Ok("slugglingPercentage")
        } else if str_eq(code, "OPS") {
            Ok("onBasePlusSlugging")
        } else {
            Err(StatsError::InvalidCategory)
        },
        StatGroup::Pitching => if str_eq(code, "W") {
            Ok("wins")
        } else if str_eq(code, "L") {
            Ok("losses")
        } else if str_eq(code, "ERA") {
            Ok("earnedRunAverage")
        } else if str_eq(code, "SHO") {
            Ok("shutouts")
        } else if str_eq(code, "HLD") {
            Ok("holds")
        } else if str_eq(code, "SV") {
            Ok("saves")
        } else if str_eq(code, "IP") {
            Ok("inningsPitched")
        } else if str_eq(code, "HR") {
            Ok("homeRuns")
        } else if str_eq(code, "BB") {
            Ok("walks")
        } else if str_eq(code, "SO") {
            Ok("strikeouts")
        } else if str_eq(code, "HBP") {
            Ok("hitBatsmen")
        } else if str_eq(code, "WHIP") {
            Ok("walksAndHitsPerInningPitched")
        } else if str_eq(code, "BB9") {
            Ok("walksPer9Inn")
        } else if str_eq(code, "SO9") {
            Ok("strikeoutsPer9Inn")
        } else if str_eq(code, "AVG") {
            Ok("battingAverage")
        } else if str_eq(code, "OBP") {
            Ok("onBasePercentage")
        } else if str_eq(code, "SLG") {
            Ok("slugglingPercentage")
        } else if str_eq(code, "OPS") {
            Ok("onBasePlusSlugging")
        } else {
            Err(StatsError::InvalidCategory)
        },
    }
}

/// The short codes of a group, in menu order.
pub open spec fn spec_codes(group: StatGroup) -> Seq<Seq<char>> {
    match group {
        StatGroup::Hitting => seq![
            "H"@,
            "HR"@,
            "RBI"@,
            "SB"@,
            "BB"@,
            "HBP"@,
            "SO"@,
            "AVG"@,
            "OBP"@,
            "SLG"@,
            "OPS"@,
        ],
        StatGroup::Pitching => seq![
            "W"@,
            "L"@,
            "ERA"@,
            "SHO"@,
            "HLD"@,
            "SV"@,
            "IP"@,
            "HR"@,
            "BB"@,
            "SO"@,
            "HBP"@,
            "WHIP"@,
            "BB9"@,
            "SO9"@,
            "AVG"@,
            "OBP"@,
            "SLG"@,
            "OPS"@,
        ],
    }
}

/// The menu of short codes for a group: 11 hitting codes, 18 pitching codes.
pub fn codes(group: StatGroup) -> (r: Vec<&'static str>)
    ensures
        r@.len() == spec_codes(group).len(),
        forall|i: int| 0 <= i < r@.len() ==> #[trigger] r@[i]@ == spec_codes(group)[i],
{
    let r: Vec<&'static str> = match group {
        StatGroup::Hitting => vec![
            "H",
            "HR",
            "RBI",
            "SB",
            "BB",
            "HBP",
            "SO",
            "AVG",
            "OBP",
            "SLG",
            "OPS",
        ],
        StatGroup::Pitching => vec![
            "W",
            "L",
            "ERA",
            "SHO",
            "HLD",
            "SV",
            "IP",
            "HR",
            "BB",
            "SO",
            "HBP",
            "WHIP",
            "BB9",
            "SO9",
            "AVG",
            "OBP",
            "SLG",
            "OPS",
        ],
    };
    r
}

/// The short code a 1-based menu selection picks from a group's code menu.
pub fn category_at(group: StatGroup, raw: &str) -> (r: Result<&'static str, StatsError>)
    ensures
        match crate::resolve::spec_selection(raw@, spec_codes(group).len() as int) {
            Some(i) => r matches Ok(c) && c@ == spec_codes(group)[i],
            None => r matches Err(e) && e == StatsError::Selection,
        },
{
    let list = codes(group);
    match crate::resolve::select_index(list.len(), raw) {
        Ok(j) => Ok(list[j]),
        Err(_) => Err(StatsError::Selection),
    }
}

/// Lookup is group-scoped: a code that belongs only to the hitting table
/// fails in the pitching group, and a code that belongs only to the pitching
/// table fails in the hitting group.
pub proof fn lemma_lookup_group_scoped()
    ensures
        spec_lookup("H"@, StatGroup::Pitching) is None,
        spec_lookup("RBI"@, StatGroup::Pitching) is None,
        spec_lookup("SB"@, StatGroup::Pitching) is None,
        spec_lookup("W"@, StatGroup::Hitting) is None,
        spec_lookup("L"@, StatGroup::Hitting) is None,
        spec_lookup("ERA"@, StatGroup::Hitting) is None,
        spec_lookup("SHO"@, StatGroup::Hitting) is None,
        spec_lookup("HLD"@, StatGroup::Hitting) is None,
        spec_lookup("SV"@, StatGroup::Hitting) is None,
        spec_lookup("IP"@, StatGroup::Hitting) is None,
        spec_lookup("WHIP"@, StatGroup::Hitting) is None,
        spec_lookup("BB9"@, StatGroup::Hitting) is None,
        spec_lookup("SO9"@, StatGroup::Hitting) is None,
{
    reveal_strlit("H");
    reveal_strlit("HR");
    reveal_strlit("RBI");
    reveal_strlit("SB");
    reveal_strlit("BB");
    reveal_strlit("HBP");
    reveal_strlit("SO");
    reveal_strlit("AVG");
    reveal_strlit("OBP");
    reveal_strlit("SLG");
    reveal_strlit("OPS");
    reveal_strlit("W");
    reveal_strlit("L");
    reveal_strlit("ERA");
    reveal_strlit("SHO");
    reveal_strlit("HLD");
    reveal_strlit("SV");
    reveal_strlit("IP");
    reveal_strlit("WHIP");
    reveal_strlit("BB9");
    reveal_strlit("SO9");
    assert("H"@.len() == 1 && "H"@[0] == 'H');
    assert("HR"@.len() == 2 && "HR"@[0] == 'H');
    assert("RBI"@.len() == 3 && "RBI"@[0] == 'R');
    assert("SB"@.len() == 2 && "SB"@[0] == 'S' && "SB"@[1] == 'B');
    assert("BB"@.len() == 2 && "BB"@[0] == 'B');
    assert("HBP"@.len() == 3 && "HBP"@[0] == 'H' && "HBP"@[1] == 'B');
    assert("SO"@.len() == 2 && "SO"@[0] == 'S' && "SO"@[1] == 'O');
    assert("AVG"@.len() == 3 && "AVG"@[0] == 'A');
    assert("OBP"@.len() == 3 && "OBP"@[0] == 'O');
    assert("SLG"@.len() == 3 && "SLG"@[0] == 'S' && "SLG"@[1] == 'L');
    assert("OPS"@.len() == 3 && "OPS"@[0] == 'O' && "OPS"@[1] == 'P');
    assert("W"@.len() == 1 && "W"@[0] == 'W');
    assert("L"@.len() == 1 && "L"@[0] == 'L');
    assert("ERA"@.len() == 3 && "ERA"@[0] == 'E');
    assert("SHO"@.len() == 3 && "SHO"@[0] == 'S' && "SHO"@[1] == 'H');
    assert("HLD"@.len() == 3 && "HLD"@[0] == 'H' && "HLD"@[1] == 'L');
    assert("SV"@.len() == 2 && "SV"@[0] == 'S' && "SV"@[1] == 'V');
    assert("IP"@.len() == 2 && "IP"@[0] == 'I');
    assert("WHIP"@.len() == 4 && "WHIP"@[0] == 'W');
    assert("BB9"@.len() == 3 && "BB9"@[0] == 'B' && "BB9"@[1] == 'B' && "BB9"@[2] == '9');
    assert("SO9"@.len() == 3 && "SO9"@[0] == 'S' && "SO9"@[1] == 'O' && "SO9"@[2] == '9');
}

} // verus!
