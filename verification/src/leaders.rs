//! Leaderboard logic: ranking, truncation, and the client-side group filter.
//!
//! A leaders response arrives as ranked rows in response order.  For display,
//! the rows are ranked 1, 2, ... in that order and cut to the top five —
//! entries beyond five are dropped, not hidden.  The team-leaders endpoint
//! ignores the requested stat-group filter and answers with sections for
//! every group, so a mandatory local filter picks the section whose tag
//! equals the requested group.

use vstd::prelude::*;

use crate::catalog::{spec_group_label, StatGroup};
use crate::errors::StatsError;
use crate::text::str_eq;

verus! {

/// One raw leaderboard row: the player's name and the stat value as the
/// service rendered it.
#[derive(Debug)]
pub struct RawLeader {
    pub name: String,
    pub value: String,
}

pub ghost struct RawLeaderView {
    pub name: Seq<char>,
    pub value: Seq<char>,
}

impl View for RawLeader {
    type V = RawLeaderView;

    open spec fn view(&self) -> RawLeaderView {
        RawLeaderView { name: self.name@, value: self.value@ }
    }
}

impl DeepView for RawLeader {
    type V = RawLeaderView;

    open spec fn deep_view(&self) -> RawLeaderView {
        self@
    }
}

/// One displayable ranked row.
#[derive(Debug)]
pub struct LeaderEntry {
    pub rank: u64,
    pub name: String,
    pub value: String,
}

pub ghost struct LeaderEntryView {
    pub rank: u64,
    pub name: Seq<char>,
    pub value: Seq<char>,
}

impl View for LeaderEntry {
    type V = LeaderEntryView;

    open spec fn view(&self) -> LeaderEntryView {
        LeaderEntryView { rank: self.rank, name: self.name@, value: self.value@ }
    }
}

impl DeepView for LeaderEntry {
    type V = LeaderEntryView;

    open spec fn deep_view(&self) -> LeaderEntryView {
        self@
    }
}

/// One group-tagged ranked list of a team-leaders response.
#[derive(Debug)]
pub struct LeaderSection {
    pub group: String,
    pub leaders: Vec<RawLeader>,
}

pub ghost struct LeaderSectionView {
    pub group: Seq<char>,
    pub leaders: Seq<RawLeaderView>,
}

impl View for LeaderSection {
    type V = LeaderSectionView;

    open spec fn view(&self) -> LeaderSectionView {
        LeaderSectionView { group: self.group@, leaders: self.leaders.deep_view() }
    }
}

impl DeepView for LeaderSection {
    type V = LeaderSectionView;

    open spec fn deep_view(&self) -> LeaderSectionView {
        self@
    }
}

/// The display list a raw leaders list denotes: the first five rows, ranked
/// 1-based in response order.
pub open spec fn spec_top_leaders(raw: Seq<RawLeaderView>) -> Seq<LeaderEntryView> {
    Seq::new(
        if raw.len() < 5 {
            raw.len()
        } else {
            5
        },
        |i: int| LeaderEntryView { rank: (i + 1) as u64, name: raw[i].name, value: raw[i].value },
    )
}

/// Ranks a raw leaders list for display, keeping only the top five rows;
/// the entry at position `i` carries rank `i + 1` and the name and value of
/// row `i` of the response.
pub fn top_leaders(raw: &Vec<RawLeader>) -> (r: Vec<LeaderEntry>)
    ensures
        r.deep_view() == spec_top_leaders(raw.deep_view()),
{
    let n: usize = if raw.len() < 5 {
        raw.len()
    } else {
        5
    };
    let mut r: Vec<LeaderEntry> = Vec::new();
    let mut i: usize = 0;
    while i < n
        invariant
            n == if raw.deep_view().len() < 5 {
                raw.deep_view().len()
            } else {
                5
            },
            n <= raw@.len(),
            0 <= i <= n,
            r.deep_view() =~= spec_top_leaders(raw.deep_view()).take(i as int),
        decreases n - i,
    {
        let entry = LeaderEntry {
            rank: (i as u64) + 1,
            name: raw[i].name.clone(),
            value: raw[i].value.clone(),
        };
        let ghost old_dv = r.deep_view();
        proof {
            assert(entry@ == spec_top_leaders(raw.deep_view())[i as int]);
        }
        r.push(entry);
        proof {
            assert(r.deep_view() =~= old_dv.push(entry@));
            assert(r.deep_view() =~= spec_top_leaders(raw.deep_view()).take(i + 1));
        }
        i = i + 1;
    }
    proof {
        assert(r.deep_view() =~= spec_top_leaders(raw.deep_view()));
    }
    r
}

/// Display lists are capped at five entries, and their ranks start at 1 and
/// go up by one in display order, whatever the response held.
pub proof fn lemma_leader_order(raw: Seq<RawLeaderView>)
    ensures
        spec_top_leaders(raw).len() <= 5,
        spec_top_leaders(raw).len() > 0 ==> spec_top_leaders(raw)[0].rank == 1,
        forall|i: int|
            0 < i < spec_top_leaders(raw).len() ==> (#[trigger] spec_top_leaders(raw)[i]).rank
                == spec_top_leaders(raw)[i - 1].rank + 1,
{
}

/// The first section carrying a given group tag, if any.
pub open spec fn find_group_section(sections: Seq<LeaderSectionView>, label: Seq<char>) -> Option<
    int,
>
    decreases sections.len(),
{
    if sections.len() == 0 {
        None
    } else if sections[0].group == label {
        Some(0)
    } else {
        match find_group_section(sections.drop_first(), label) {
            Some(k) => Some(k + 1),
            None => None,
        }
    }
}

proof fn lemma_find_group_section_at(sections: Seq<LeaderSectionView>, label: Seq<char>, i: int)
    requires
        0 <= i <= sections.len(),
        forall|k: int| 0 <= k < i ==> (#[trigger] sections[k]).group != label,
        i < sections.len() ==> sections[i].group == label,
    ensures
        i == sections.len() ==> find_group_section(sections, label) is None,
        i < sections.len() ==> find_group_section(sections, label) == Some(i),
    decreases i,
{
    if i > 0 {
        let rest = sections.drop_first();
        assert(forall|k: int|
            0 <= k < i - 1 ==> (#[trigger] rest[k]).group == sections[k + 1].group);
        lemma_find_group_section_at(rest, label, i - 1);
    }
}

/// The rows of the first section whose tag equals the requested group, and
/// of no other: the mandatory client-side filter for the team-leaders
/// endpoint, which ignores the group it was asked for.  A response carrying
/// no section for the group is malformed.
pub fn leaders_for_group(sections: &Vec<LeaderSection>, group: StatGroup) -> (r: Result<
    Vec<RawLeader>,
    StatsError,
>)
    ensures
        match find_group_section(sections.deep_view(), spec_group_label(group)) {
            Some(i) => (r matches Ok(v) && v.deep_view() == sections.deep_view()[i].leaders
                && sections.deep_view()[i].group == spec_group_label(group)),
            None => r == Err::<Vec<RawLeader>, StatsError>(StatsError::Remote),
        },
{
    let label = crate::catalog::group_label(group);
    let n: usize = sections.len();
    let mut i: usize = 0;
    while i < n
        invariant
            n == sections@.len(),
            0 <= i <= n,
            label@ == spec_group_label(group),
            forall|k: int|
                0 <= k < i ==> (#[trigger] sections.deep_view()[k]).group != spec_group_label(
                    group,
                ),
        decreases n - i,
    {
        if str_eq(sections[i].group.as_str(), label) {
            proof {
                lemma_find_group_section_at(sections.deep_view(), spec_group_label(group), i as int);
            }
            let src = &sections[i].leaders;
            let mut out: Vec<RawLeader> = Vec::new();
            let mut j: usize = 0;
            while j < src.len()
                invariant
                    0 <= j <= src@.len(),
                    out.deep_view() =~= src.deep_view().take(j as int),
                decreases src@.len() - j,
            {
                let row = RawLeader { name: src[j].name.clone(), value: src[j].value.clone() };
                let ghost old_dv = out.deep_view();
                proof {
                    assert(row@ == src.deep_view()[j as int]);
                }
                out.push(row);
                proof {
                    assert(out.deep_view() =~= old_dv.push(row@));
                    assert(out.deep_view() =~= src.deep_view().take(j + 1));
                }
                j = j + 1;
            }
            proof {
                assert(out.deep_view() =~= src.deep_view());
            }
            return Ok(out);
        }
        i = i + 1;
    }
    proof {
        lemma_find_group_section_at(sections.deep_view(), spec_group_label(group), n as int);
    }
    Err(StatsError::Remote)
}

/// The team-scoped leader pipeline after the remote call: filter the
/// response's sections to the requested group, then rank and truncate.
pub fn team_leaders_from_sections(sections: &Vec<LeaderSection>, group: StatGroup) -> (r: Result<
    Vec<LeaderEntry>,
    StatsError,
>)
    ensures
        match find_group_section(sections.deep_view(), spec_group_label(group)) {
            Some(i) => (r matches Ok(es) && es.deep_view() == spec_top_leaders(
                sections.deep_view()[i].leaders,
            ) && sections.deep_view()[i].group == spec_group_label(group)),
            None => r == Err::<Vec<LeaderEntry>, StatsError>(StatsError::Remote),
        },
{
    match leaders_for_group(sections, group) {
        Ok(rows) => Ok(top_leaders(&rows)),
        Err(_) => Err(StatsError::Remote),
    }
}

} // verus!
