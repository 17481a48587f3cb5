//! The player resolver: narrows a name query against a roster to exactly one
//! candidate.
//!
//! Filtering is a case-insensitive substring match of the trimmed query
//! against each candidate's full name, preserving roster order.  Zero matches
//! refuse the query; one match resolves silently; several matches are handed
//! back so the caller can put a numbered choice to the user.

use vstd::prelude::*;

use crate::errors::StatsError;
use crate::text::{parse_u64, spec_contains, spec_parse_u64, spec_trim, trim_str};

verus! {

/// A roster entry returned by a name search, before disambiguation.
#[derive(Debug)]
pub struct PlayerCandidate {
    pub id: u64,
    pub full_name: String,
    pub position: String,
    pub team_id: u64,
}

/// The abstract value of a candidate: its strings as character sequences.
pub ghost struct CandidateView {
    pub id: u64,
    pub full_name: Seq<char>,
    pub position: Seq<char>,
    pub team_id: u64,
}

impl View for PlayerCandidate {
    type V = CandidateView;

    open spec fn view(&self) -> CandidateView {
        CandidateView {
            id: self.id,
            full_name: self.full_name@,
            position: self.position@,
            team_id: self.team_id,
        }
    }
}

impl DeepView for PlayerCandidate {
    type V = CandidateView;

    open spec fn deep_view(&self) -> CandidateView {
        self@
    }
}

impl PlayerCandidate {
    /// An owned copy with the same abstract value.
    pub fn duplicate(&self) -> (c: PlayerCandidate)
        ensures
            c@ == self@,
    {
        PlayerCandidate {
            id: self.id,
            full_name: self.full_name.clone(),
            position: self.position.clone(),
            team_id: self.team_id,
        }
    }
}

/// The lowercase folding of a character sequence.  It stands for what
/// `str::to_lowercase` returns, which depends on the characters alone.
pub uninterp spec fn lower_of(s: Seq<char>) -> Seq<char>;

/// Relies on str::to_lowercase: the result is a pure function of the
/// characters of its input.
#[verifier::external_body]
fn lowercase(s: &str) -> (r: String)
    ensures
        r@ == lower_of(s@),
{
    s.to_lowercase()
}

/// Whether a candidate matches an already-folded query.
pub open spec fn candidate_matches(c: CandidateView, query_folded: Seq<char>) -> bool {
    spec_contains(lower_of(c.full_name), query_folded)
}

/// The candidates matching a folded query, in roster order.
pub open spec fn spec_filter_roster(roster: Seq<CandidateView>, query_folded: Seq<char>) -> Seq<
    CandidateView,
> {
    roster.filter(|c: CandidateView| candidate_matches(c, query_folded))
}

/// Every roster candidate whose full name contains the trimmed query,
/// case-insensitively, as a substring; roster order is preserved.
pub fn filter_candidates(query: &str, roster: &Vec<PlayerCandidate>) -> (r: Vec<PlayerCandidate>)
    ensures
        r.deep_view() == spec_filter_roster(roster.deep_view(), lower_of(spec_trim(query@))),
{
    let q = lowercase(trim_str(query));
    let ghost qf = lower_of(spec_trim(query@));
    let ghost pred = |c: CandidateView| candidate_matches(c, qf);
    let mut r: Vec<PlayerCandidate> = Vec::new();
    let mut i: usize = 0;
    proof {
        assert(roster.deep_view().take(0).filter(pred) =~= Seq::<CandidateView>::empty());
    }
    while i < roster.len()
        invariant
            0 <= i <= roster.len(),
            q@ == qf,
            pred == (|c: CandidateView| candidate_matches(c, qf)),
            r.deep_view() == roster.deep_view().take(i as int).filter(pred),
        decreases roster.len() - i,
    {
        let ghost prev = roster.deep_view().take(i as int);
        let ghost cur = roster.deep_view().take(i + 1);
        proof {
            assert(cur.drop_last() =~= prev);
            assert(cur.last() == roster.deep_view()[i as int]);
            reveal(Seq::filter);
        }
        let c = &roster[i];
        let name_low = lowercase(c.full_name.as_str());
        if crate::text::contains_str(name_low.as_str(), q.as_str()) {
            let ghost old_dv = r.deep_view();
            let d = c.duplicate();
            r.push(d);
            proof {
                assert(r.deep_view() =~= old_dv.push(roster.deep_view()[i as int]));
            }
        }
        i = i + 1;
    }
    proof {
        assert(roster.deep_view().take(roster.len() as int) =~= roster.deep_view());
    }
    r
}

/// The outcome of narrowing a query: either a single candidate, or the
/// matching candidates awaiting an interactive choice.
#[derive(Debug)]
pub enum Resolution {
    Resolved(PlayerCandidate),
    Ambiguous(Vec<PlayerCandidate>),
}

/// Narrows a name query against a roster.  Zero matches refuse the query
/// with a not-found error; exactly one match resolves without any prompt;
/// two or more matches are handed back for disambiguation.
pub fn resolve(query: &str, roster: &Vec<PlayerCandidate>) -> (r: Result<Resolution, StatsError>)
    ensures
        ({
            let m = spec_filter_roster(roster.deep_view(), lower_of(spec_trim(query@)));
            &&& m.len() == 0 <==> r == Err::<Resolution, StatsError>(StatsError::NotFound)
            &&& m.len() == 1 ==> (r matches Ok(Resolution::Resolved(c)) && c@ == m[0])
            &&& m.len() >= 2 ==> (r matches Ok(Resolution::Ambiguous(cs)) && cs.deep_view() == m)
        }),
{
    let mut found = filter_candidates(query, roster);
    if found.len() == 0 {
        Err(StatsError::NotFound)
    } else if found.len() == 1 {
        let c = found.remove(0);
        Ok(Resolution::Resolved(c))
    } else {
        Ok(Resolution::Ambiguous(found))
    }
}

/// The 0-based index a raw 1-based menu selection picks from a list of
/// `len` entries, if it parses and is in range.
pub open spec fn spec_selection(raw: Seq<char>, len: int) -> Option<int> {
    match spec_parse_u64(spec_trim(raw)) {
        Some(v) => if 1 <= v && v as int <= len {
            Some(v as int - 1)
        } else {
            None
        },
        None => None,
    }
}

/// Parses a 1-based menu selection against a list of `len` entries and
/// returns the 0-based index; a non-numeric or out-of-range selection is a
/// selection error, answered by re-prompting.
pub fn select_index(len: usize, raw: &str) -> (r: Result<usize, StatsError>)
    ensures
        match spec_selection(raw@, len as int) {
            Some(i) => r matches Ok(j) && j as int == i && j < len,
            None => r matches Err(e) && e == StatsError::Selection,
        },
{
    let t = trim_str(raw);
    match parse_u64(t) {
        Some(v) => {
            if 1 <= v && v <= len as u64 {
                Ok((v - 1) as usize)
            } else {
                Err(StatsError::Selection)
            }
        },
        None => Err(StatsError::Selection),
    }
}

/// Applies a 1-based selection to the displayed candidate list, resolving
/// the ambiguity; the chosen candidate is exactly the list entry at that
/// index.
pub fn select_candidate(candidates: &Vec<PlayerCandidate>, raw: &str) -> (r: Result<
    PlayerCandidate,
    StatsError,
>)
    ensures
        match spec_selection(raw@, candidates.deep_view().len() as int) {
            Some(i) => r matches Ok(c) && c@ == candidates.deep_view()[i],
            None => r matches Err(e) && e == StatsError::Selection,
        },
{
    match select_index(candidates.len(), raw) {
        Ok(j) => Ok(candidates[j].duplicate()),
        Err(_) => Err(StatsError::Selection),
    }
}

/// An element of a filtered sequence comes from the unfiltered one.
proof fn lemma_filter_is_subset<A>(s: Seq<A>, pred: spec_fn(A) -> bool, i: int)
    requires
        0 <= i < s.filter(pred).len(),
    ensures
        s.contains(s.filter(pred)[i]),
    decreases s.len(),
{
    reveal(Seq::filter);
    broadcast use vstd::seq_lib::group_filter_ensures;

    if s.len() > 0 {
        let fp = s.drop_last().filter(pred);
        if pred(s.last()) && i == fp.len() {
            assert(s.filter(pred)[i] == s.last());
            assert(s[s.len() - 1] == s.last());
        } else {
            lemma_filter_is_subset(s.drop_last(), pred, i);
            let j = choose|j: int| 0 <= j < s.drop_last().len() && s.drop_last()[j] == s.drop_last(
            ).filter(pred)[i];
            assert(s[j] == s.drop_last()[j]);
        }
    }
}

/// The resolution policy, stated over the match set: every candidate in the
/// match set has the folded query as a substring of its folded full name,
/// and is a member of the roster, so whichever 1-based index disambiguation
/// picks, the resolved player matched the query and came from the roster.
pub proof fn lemma_resolution_sound(roster: Seq<CandidateView>, query_folded: Seq<char>, i: int)
    requires
        0 <= i < spec_filter_roster(roster, query_folded).len(),
    ensures
        spec_contains(lower_of(spec_filter_roster(roster, query_folded)[i].full_name), query_folded),
        roster.contains(spec_filter_roster(roster, query_folded)[i]),
{
    let pred = |c: CandidateView| candidate_matches(c, query_folded);
    broadcast use vstd::seq_lib::group_filter_ensures;

    assert(pred(roster.filter(pred)[i]));
    lemma_filter_is_subset(roster, pred, i);
}

} // verus!
