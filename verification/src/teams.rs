//! The team directory: a season-scoped mapping from team identifier to
//! display abbreviation, built once from the remote team list and read-only
//! afterwards.

use vstd::prelude::*;

verus! {

/// A club's identity for one season.
#[derive(Debug)]
pub struct TeamEntry {
    pub id: u64,
    pub abbreviation: String,
}

pub ghost struct TeamEntryView {
    pub id: u64,
    pub abbreviation: Seq<char>,
}

impl View for TeamEntry {
    type V = TeamEntryView;

    open spec fn view(&self) -> TeamEntryView {
        TeamEntryView { id: self.id, abbreviation: self.abbreviation@ }
    }
}

impl DeepView for TeamEntry {
    type V = TeamEntryView;

    open spec fn deep_view(&self) -> TeamEntryView {
        self@
    }
}

impl TeamEntry {
    /// An owned copy with the same abstract value.
    pub fn duplicate(&self) -> (e: TeamEntry)
        ensures
            e@ == self@,
    {
        TeamEntry { id: self.id, abbreviation: self.abbreviation.clone() }
    }
}

/// The abbreviation of the first entry carrying `id`, if any.
pub open spec fn dir_lookup(entries: Seq<TeamEntryView>, id: u64) -> Option<Seq<char>>
    decreases entries.len(),
{
    if entries.len() == 0 {
        None
    } else if entries[0].id == id {
        Some(entries[0].abbreviation)
    } else {
        dir_lookup(entries.drop_first(), id)
    }
}

proof fn lemma_dir_lookup_at(entries: Seq<TeamEntryView>, id: u64, i: int)
    requires
        0 <= i <= entries.len(),
        forall|k: int| 0 <= k < i ==> (#[trigger] entries[k]).id != id,
        i < entries.len() ==> entries[i].id == id,
    ensures
        i == entries.len() ==> dir_lookup(entries, id) is None,
        i < entries.len() ==> dir_lookup(entries, id) == Some(entries[i].abbreviation),
    decreases i,
{
    if i > 0 {
        let rest = entries.drop_first();
        assert(forall|k: int| 0 <= k < i - 1 ==> (#[trigger] rest[k]).id == entries[k + 1].id);
        lemma_dir_lookup_at(rest, id, i - 1);
    }
}

/// Appending an entry only answers lookups that nothing before it answered.
proof fn lemma_dir_lookup_push(entries: Seq<TeamEntryView>, e: TeamEntryView, id: u64)
    ensures
        dir_lookup(entries.push(e), id) == if dir_lookup(entries, id) is Some {
            dir_lookup(entries, id)
        } else if e.id == id {
            Some(e.abbreviation)
        } else {
            None
        },
    decreases entries.len(),
{
    if entries.len() == 0 {
        assert(entries.push(e)[0] == e);
        assert(entries.push(e).drop_first() =~= Seq::<TeamEntryView>::empty());
        assert(dir_lookup(Seq::<TeamEntryView>::empty(), id) is None);
    } else {
        assert(entries.push(e)[0] == entries[0]);
        assert(entries.push(e).drop_first() =~= entries.drop_first().push(e));
        lemma_dir_lookup_push(entries.drop_first(), e, id);
    }
}

/// The position of the first entry carrying `id`, if any.
fn find_by_id(entries: &Vec<TeamEntry>, id: u64) -> (r: Option<usize>)
    ensures
        match r {
            Some(j) => j < entries.deep_view().len() && entries.deep_view()[j as int].id == id,
            None => forall|k: int|
                0 <= k < entries.deep_view().len() ==> (#[trigger] entries.deep_view()[k]).id
                    != id,
        },
{
    let n: usize = entries.len();
    let mut i: usize = 0;
    while i < n
        invariant
            n == entries@.len(),
            0 <= i <= n,
            forall|k: int| 0 <= k < i ==> (#[trigger] entries.deep_view()[k]).id != id,
        decreases n - i,
    {
        if entries[i].id == id {
            return Some(i);
        }
        i = i + 1;
    }
    None
}

/// The season's team directory.  Identifiers are unique within it, and a
/// lookup answers with the abbreviation the remote team list gave first for
/// that identifier.
#[derive(Debug)]
pub struct TeamDirectory {
    entries: Vec<TeamEntry>,
}

impl View for TeamDirectory {
    type V = Seq<TeamEntryView>;

    closed spec fn view(&self) -> Seq<TeamEntryView> {
        self.entries.deep_view()
    }
}

impl TeamDirectory {
    /// Identifiers are unique within the directory.
    pub open spec fn wf(self) -> bool {
        forall|i: int, j: int|
            0 <= i < j < self@.len() ==> (#[trigger] self@[i]).id != (#[trigger] self@[j]).id
    }

    /// Builds the directory from a remote team list, keeping the first entry
    /// for each identifier; every lookup answers exactly as a lookup in the
    /// raw list would.
    pub fn build(list: &Vec<TeamEntry>) -> (d: TeamDirectory)
        ensures
            d.wf(),
            forall|id: u64| #[trigger] dir_lookup(d@, id) == dir_lookup(list.deep_view(), id),
            d@.len() <= list.deep_view().len(),
    {
        let n: usize = list.len();
        let mut out: Vec<TeamEntry> = Vec::new();
        let mut i: usize = 0;
        proof {
            assert(forall|id: u64| #[trigger] dir_lookup(list.deep_view().take(0), id) is None)
                by {
                assert(list.deep_view().take(0) =~= Seq::<TeamEntryView>::empty());
            }
        }
        while i < n
            invariant
                n == list@.len(),
                0 <= i <= n,
                out.deep_view().len() <= i,
                forall|a: int, b: int|
                    0 <= a < b < out.deep_view().len() ==> (#[trigger] out.deep_view()[a]).id != (
                    #[trigger] out.deep_view()[b]).id,
                forall|id: u64|
                    #[trigger] dir_lookup(out.deep_view(), id) == dir_lookup(
                        list.deep_view().take(i as int),
                        id,
                    ),
            decreases n - i,
        {
            let e = &list[i];
            let ghost prev = out.deep_view();
            let ghost cur_input = list.deep_view().take(i as int);
            let ghost next_input = list.deep_view().take(i + 1);
            proof {
                assert(next_input =~= cur_input.push(list.deep_view()[i as int]));
            }
            match find_by_id(&out, e.id) {
                Some(_) => {
                    proof {
                        let j = choose|j: int|
                            0 <= j < prev.len() && (#[trigger] prev[j]).id == e.id;
                        assert forall|id: u64|
                            #[trigger] dir_lookup(out.deep_view(), id) == dir_lookup(
                                next_input,
                                id,
                            ) by {
                            lemma_dir_lookup_push(cur_input, list.deep_view()[i as int], id);
                            if id == e.id {
                                lemma_dir_lookup_some(prev, id);
                            }
                        }
                    }
                },
                None => {
                    let d = e.duplicate();
                    out.push(d);
                    proof {
                        assert(out.deep_view() =~= prev.push(list.deep_view()[i as int]));
                        assert forall|id: u64|
                            #[trigger] dir_lookup(out.deep_view(), id) == dir_lookup(
                                next_input,
                                id,
                            ) by {
                            lemma_dir_lookup_push(cur_input, list.deep_view()[i as int], id);
                            lemma_dir_lookup_push(prev, list.deep_view()[i as int], id);
                        }
                    }
                },
            }
            i = i + 1;
        }
        proof {
            assert(list.deep_view().take(n as int) =~= list.deep_view());
        }
        TeamDirectory { entries: out }
    }

    /// The entries, in directory order, for menu display.
    pub fn teams(&self) -> (r: &Vec<TeamEntry>)
        ensures
            r.deep_view() == self@,
    {
        &self.entries
    }

    /// How many teams the directory holds.
    pub fn len(&self) -> (n: usize)
        ensures
            n == self@.len(),
    {
        self.entries.len()
    }

    /// The display abbreviation for a team identifier, if the directory
    /// holds that team.
    pub fn abbreviation_of(&self, id: u64) -> (r: Option<&String>)
        ensures
            match dir_lookup(self@, id) {
                Some(a) => r matches Some(s) && s@ == a,
                None => r is None,
            },
    {
        let n: usize = self.entries.len();
        let mut i: usize = 0;
        while i < n
            invariant
                n == self.entries@.len(),
                0 <= i <= n,
                forall|k: int| 0 <= k < i ==> (#[trigger] self.entries.deep_view()[k]).id != id,
            decreases n - i,
        {
            if self.entries[i].id == id {
                proof {
                    lemma_dir_lookup_at(self@, id, i as int);
                }
                return Some(&self.entries[i].abbreviation);
            }
            i = i + 1;
        }
        proof {
            lemma_dir_lookup_at(self@, id, n as int);
        }
        None
    }
}

/// A sequence holding `id` somewhere answers a lookup for `id`.
proof fn lemma_dir_lookup_some(entries: Seq<TeamEntryView>, id: u64)
    requires
        exists|j: int| 0 <= j < entries.len() && (#[trigger] entries[j]).id == id,
    ensures
        dir_lookup(entries, id) is Some,
    decreases entries.len(),
{
    if entries[0].id != id {
        let j = choose|j: int| 0 <= j < entries.len() && (#[trigger] entries[j]).id == id;
        let rest = entries.drop_first();
        assert(rest[j - 1] == entries[j]);
        lemma_dir_lookup_some(rest, id);
    }
}

/// A team-id lookup used by menus: the identifier of the entry a 1-based
/// selection picks.
pub fn team_id_at(directory: &TeamDirectory, raw: &str) -> (r: Result<u64, crate::errors::StatsError>)
    ensures
        match crate::resolve::spec_selection(raw@, directory@.len() as int) {
            Some(i) => r matches Ok(id) && id == directory@[i].id,
            None => r matches Err(e) && e == crate::errors::StatsError::Selection,
        },
{
    match crate::resolve::select_index(directory.len(), raw) {
        Ok(j) => Ok(directory.teams()[j].id),
        Err(_) => Err(crate::errors::StatsError::Selection),
    }
}

} // verus!
