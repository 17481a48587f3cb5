//! Player classification: which statistical variant a resolved candidate's
//! record uses.

use vstd::prelude::*;

use crate::catalog::StatGroup;
use crate::text::str_eq;

verus! {

/// The two statistical variants, a closed set: adding a variant forces every
/// consumption site to be revisited.
#[derive(Clone, Copy, Debug, PartialEq, Eq, Structural)]
pub enum PlayerKind {
    Batter,
    Pitcher,
}

impl PlayerKind {
    /// The stat group whose payload this variant decodes.
    pub open spec fn spec_stat_group(self) -> StatGroup {
        match self {
            PlayerKind::Batter => StatGroup::Hitting,
            PlayerKind::Pitcher => StatGroup::Pitching,
        }
    }

    pub fn stat_group(self) -> (g: StatGroup)
        ensures
            g == self.spec_stat_group(),
    {
        match self {
            PlayerKind::Batter => StatGroup::Hitting,
            PlayerKind::Pitcher => StatGroup::Pitching,
        }
    }
}

/// Position codes "P" and "TWP" (a two-way player) take the pitching record;
/// every other code takes the batting record.  A two-way player's batting
/// record is therefore unreachable through classification alone, a known
/// simplification of the resolution flow.
pub open spec fn spec_classify(position: Seq<char>) -> PlayerKind {
    if position == "P"@ || position == "TWP"@ {
        PlayerKind::Pitcher
    } else {
        PlayerKind::Batter
    }
}

/// Maps a candidate's primary-position code to its statistical variant.
/// Total: every code classifies, and equal codes always classify alike.
pub fn classify(position: &str) -> (k: PlayerKind)
    ensures
        k == spec_classify(position@),
{
    if str_eq(position, "P") || str_eq(position, "TWP") {
        PlayerKind::Pitcher
    } else {
        PlayerKind::Batter
    }
}

} // verus!
