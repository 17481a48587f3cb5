//! The boundary to the remote service's document format.
//!
//! Response bodies arrive as JSON text.  Parsing and field access go through
//! serde_json behind the trusted items below.  A parsed value is opaque to
//! the verifier, so its content is modelled: `json_view` names what a value
//! holds, `json_of` names the document a body parses to, and each trusted
//! accessor is specified against that model.  On top of them, one spec
//! function per response shape (team list, roster, stat payload, leaders)
//! says exactly which documents are well-formed and what they denote, and
//! each reader is proved to return precisely that denotation, or a remote
//! error for any other document.

use vstd::prelude::*;

use crate::errors::StatsError;
use crate::leaders::{LeaderSection, LeaderSectionView, RawLeader, RawLeaderView};
use crate::resolve::{CandidateView, PlayerCandidate};
use crate::stats::{
    FieldValue, FieldValueView, RawField, RawFieldView, StatSection, StatSectionView,
};
use crate::teams::{TeamEntry, TeamEntryView};

verus! {

#[verifier::external_type_specification]
#[verifier::external_body]
pub struct ExValue(serde_json::Value);

/// The abstract content of a parsed JSON value: scalars as plain values,
/// numbers split into those a `u64` carries and the rest, arrays as
/// sequences, and objects as key-value pairs in the order the value's map
/// iterates (ascending key order, keys unique).
pub ghost enum JsonView {
    Null,
    Bool(bool),
    UInt(u64),
    OtherNum,
    Text(Seq<char>),
    Arr(Seq<JsonView>),
    Obj(Seq<(Seq<char>, JsonView)>),
}

/// The content of a parsed value.  It stands for what a serde_json::Value
/// holds, which the accessors below read; a value determines its content.
pub uninterp spec fn json_view(v: serde_json::Value) -> JsonView;

/// The document a body of JSON text parses to, if it parses.  It stands for
/// what serde_json::from_str returns, a function of the text alone.
pub uninterp spec fn json_of(body: Seq<char>) -> Option<JsonView>;

/// The value under `key` among an object's entries (keys are unique, so the
/// first match is the only one).
pub open spec fn entry_lookup(entries: Seq<(Seq<char>, JsonView)>, key: Seq<char>) -> Option<
    JsonView,
>
    decreases entries.len(),
{
    if entries.len() == 0 {
        None
    } else if entries[0].0 == key {
        Some(entries[0].1)
    } else {
        entry_lookup(entries.drop_first(), key)
    }
}

/// The member of an object under a key; anything but an object has none.
pub open spec fn obj_lookup(v: JsonView, key: Seq<char>) -> Option<JsonView> {
    match v {
        JsonView::Obj(entries) => entry_lookup(entries, key),
        _ => None,
    }
}

/// Two member lookups in a row.
pub open spec fn obj_lookup2(v: JsonView, k1: Seq<char>, k2: Seq<char>) -> Option<JsonView> {
    match obj_lookup(v, k1) {
        Some(m) => obj_lookup(m, k2),
        None => None,
    }
}

/// The first element of an array, if the value is a non-empty array.
pub open spec fn first_elem(v: Option<JsonView>) -> Option<JsonView> {
    match v {
        Some(JsonView::Arr(items)) => if items.len() > 0 {
            Some(items[0])
        } else {
            None
        },
        _ => None,
    }
}

/// Relies on serde_json::from_str: parses a JSON document, or fails; the
/// result is a function of the text alone.
#[verifier::external_body]
fn json_parse(text: &str) -> (r: Option<serde_json::Value>)
    ensures
        match json_of(text@) {
            Some(doc) => r matches Some(v) && json_view(v) == doc,
            None => r is None,
        },
{
    match serde_json::from_str::<serde_json::Value>(text) {
        Ok(v) => Some(v),
        Err(_) => None,
    }
}

/// Relies on serde_json::Value::get: the member of an object under a key;
/// on anything but an object it finds nothing.
#[verifier::external_body]
fn json_get<'a>(v: &'a serde_json::Value, key: &str) -> (r: Option<&'a serde_json::Value>)
    ensures
        match obj_lookup(json_view(*v), key@) {
            Some(m) => r matches Some(x) && json_view(*x) == m,
            None => r is None,
        },
{
    v.get(key)
}

/// Relies on serde_json::Value::as_u64: the value of a number representable
/// as a `u64`; any other value is refused.
#[verifier::external_body]
fn json_as_u64(v: &serde_json::Value) -> (r: Option<u64>)
    ensures
        match json_view(*v) {
            JsonView::UInt(n) => r == Some(n),
            _ => r is None,
        },
{
    v.as_u64()
}

/// Relies on serde_json::Value::as_str: a string's text; any other value is
/// refused.
#[verifier::external_body]
fn json_as_str<'a>(v: &'a serde_json::Value) -> (r: Option<&'a str>)
    ensures
        match json_view(*v) {
            JsonView::Text(t) => r matches Some(s) && s@ == t,
            _ => r is None,
        },
{
    v.as_str()
}

/// Relies on serde_json::Value::as_array: an array's elements, in order;
/// any other value is refused.
#[verifier::external_body]
fn json_as_array<'a>(v: &'a serde_json::Value) -> (r: Option<&'a Vec<serde_json::Value>>)
    ensures
        match json_view(*v) {
            JsonView::Arr(elems) => r matches Some(a) && a@.len() == elems.len() && (forall|i: int|
                0 <= i < elems.len() ==> json_view(#[trigger] a@[i]) == elems[i]),
            _ => r is None,
        },
{
    v.as_array()
}

/// Relies on serde_json::Value::as_object and serde_json::Map::iter: an
/// object's members as owned pairs, in the order the map iterates; any
/// other value is refused.
#[verifier::external_body]
fn json_object_entries(v: &serde_json::Value) -> (r: Option<Vec<(String, serde_json::Value)>>)
    ensures
        match json_view(*v) {
            JsonView::Obj(entries) => r matches Some(pairs) && pairs@.len() == entries.len() && (
            forall|i: int|
                0 <= i < entries.len() ==> (#[trigger] pairs@[i]).0@ == entries[i].0 && json_view(
                    pairs@[i].1,
                ) == entries[i].1),
            _ => r is None,
        },
{
    match v.as_object() {
        Some(m) => Some(m.iter().map(|(k, val)| (k.clone(), val.clone())).collect()),
        None => None,
    }
}

/// The team entry a document value denotes: a numeric "id" and a string
/// "abbreviation".
pub open spec fn team_entry_of(v: JsonView) -> Option<TeamEntryView> {
    match (obj_lookup(v, "id"@), obj_lookup(v, "abbreviation"@)) {
        (Some(JsonView::UInt(id)), Some(JsonView::Text(abbreviation))) => Some(
            TeamEntryView { id: id, abbreviation: abbreviation },
        ),
        _ => None,
    }
}

/// The team list a document denotes: a "teams" array of team entries.
pub open spec fn team_list_of(doc: JsonView) -> Option<Seq<TeamEntryView>> {
    match obj_lookup(doc, "teams"@) {
        Some(JsonView::Arr(items)) => if forall|i: int|
            0 <= i < items.len() ==> (#[trigger] team_entry_of(items[i])) is Some {
            Some(Seq::new(items.len(), |i: int| team_entry_of(items[i])->Some_0))
        } else {
            None
        },
        _ => None,
    }
}

/// The team list a response body denotes, if the body parses to a
/// well-formed team list response.
pub open spec fn spec_team_list(body: Seq<char>) -> Option<Seq<TeamEntryView>> {
    match json_of(body) {
        Some(doc) => team_list_of(doc),
        None => None,
    }
}

fn read_team_entry(team: &serde_json::Value) -> (r: Result<TeamEntry, StatsError>)
    ensures
        match team_entry_of(json_view(*team)) {
            Some(e) => r matches Ok(out) && out@ == e,
            None => r == Err::<TeamEntry, StatsError>(StatsError::Remote),
        },
{
    let id = match json_get(team, "id") {
        Some(v) => match json_as_u64(v) {
            Some(x) => x,
            None => return Err(StatsError::Remote),
        },
        None => return Err(StatsError::Remote),
    };
    let abbreviation = match json_get(team, "abbreviation") {
        Some(v) => match json_as_str(v) {
            Some(s) => s.to_owned(),
            None => return Err(StatsError::Remote),
        },
        None => return Err(StatsError::Remote),
    };
    Ok(TeamEntry { id, abbreviation })
}

/// Reads the team list response: succeeds exactly on a body denoting a team
/// list, returns exactly that list, and refuses any other body as a
/// malformed response.
pub fn parse_team_list(body: &str) -> (r: Result<Vec<TeamEntry>, StatsError>)
    ensures
        r is Ok <==> spec_team_list(body@) is Some,
        r matches Ok(v) ==> v.deep_view() == spec_team_list(body@)->Some_0,
        r is Err ==> r == Err::<Vec<TeamEntry>, StatsError>(StatsError::Remote),
{
    let root = match json_parse(body) {
        Some(v) => v,
        None => return Err(StatsError::Remote),
    };
    let ghost doc = json_view(root);
    let teams = match json_get(&root, "teams") {
        Some(v) => v,
        None => return Err(StatsError::Remote),
    };
    let arr = match json_as_array(teams) {
        Some(a) => a,
        None => return Err(StatsError::Remote),
    };
    let ghost items = json_view(*teams)->Arr_0;
    let mut out: Vec<TeamEntry> = Vec::new();
    let n: usize = arr.len();
    let mut i: usize = 0;
    while i < n
        invariant
            json_of(body@) == Some(doc),
            obj_lookup(doc, "teams"@) == Some(JsonView::Arr(items)),
            n == arr@.len(),
            n == items.len(),
            0 <= i <= n,
            forall|k: int| 0 <= k < n ==> json_view(#[trigger] arr@[k]) == items[k],
            forall|k: int| 0 <= k < i ==> (#[trigger] team_entry_of(items[k])) is Some,
            out.deep_view().len() == i,
            forall|k: int|
                0 <= k < i ==> #[trigger] out.deep_view()[k] == team_entry_of(items[k])->Some_0,
        decreases n - i,
    {
        match read_team_entry(&arr[i]) {
            Ok(e) => {
                let ghost old_dv = out.deep_view();
                proof {
                    assert(e@ == team_entry_of(items[i as int])->Some_0);
                }
                out.push(e);
                proof {
                    assert(out.deep_view() =~= old_dv.push(team_entry_of(items[i as int])->Some_0));
                }
            },
            Err(_) => {
                proof {
                    assert(team_entry_of(items[i as int]) is None);
                    assert(team_list_of(doc) is None);
                }
                return Err(StatsError::Remote);
            },
        }
        i = i + 1;
    }
    proof {
        assert(out.deep_view() =~= team_list_of(doc)->Some_0);
    }
    Ok(out)
}

/// The roster candidate a document value denotes: "id", "fullName",
/// "primaryPosition"."abbreviation" and "currentTeam"."id".
pub open spec fn candidate_of(v: JsonView) -> Option<CandidateView> {
    match (
        obj_lookup(v, "id"@),
        obj_lookup(v, "fullName"@),
        obj_lookup2(v, "primaryPosition"@, "abbreviation"@),
        obj_lookup2(v, "currentTeam"@, "id"@),
    ) {
        (
            Some(JsonView::UInt(id)),
            Some(JsonView::Text(full_name)),
            Some(JsonView::Text(position)),
            Some(JsonView::UInt(team_id)),
        ) => Some(
            CandidateView { id: id, full_name: full_name, position: position, team_id: team_id },
        ),
        _ => None,
    }
}

/// The roster a document denotes: a "people" array of candidates.
pub open spec fn roster_of(doc: JsonView) -> Option<Seq<CandidateView>> {
    match obj_lookup(doc, "people"@) {
        Some(JsonView::Arr(items)) => if forall|i: int|
            0 <= i < items.len() ==> (#[trigger] candidate_of(items[i])) is Some {
            Some(Seq::new(items.len(), |i: int| candidate_of(items[i])->Some_0))
        } else {
            None
        },
        _ => None,
    }
}

/// The roster a response body denotes, if the body parses to a well-formed
/// player search response.
pub open spec fn spec_roster(body: Seq<char>) -> Option<Seq<CandidateView>> {
    match json_of(body) {
        Some(doc) => roster_of(doc),
        None => None,
    }
}

fn read_candidate(person: &serde_json::Value) -> (r: Result<PlayerCandidate, StatsError>)
    ensures
        match candidate_of(json_view(*person)) {
            Some(c) => r matches Ok(out) && out@ == c,
            None => r == Err::<PlayerCandidate, StatsError>(StatsError::Remote),
        },
{
    let id = match json_get(person, "id") {
        Some(v) => match json_as_u64(v) {
            Some(x) => x,
            None => return Err(StatsError::Remote),
        },
        None => return Err(StatsError::Remote),
    };
    let full_name = match json_get(person, "fullName") {
        Some(v) => match json_as_str(v) {
            Some(s) => s.to_owned(),
            None => return Err(StatsError::Remote),
        },
        None => return Err(StatsError::Remote),
    };
    let position = match json_get(person, "primaryPosition") {
        Some(p) => match json_get(p, "abbreviation") {
            Some(v) => match json_as_str(v) {
                Some(s) => s.to_owned(),
                None => return Err(StatsError::Remote),
            },
            None => return Err(StatsError::Remote),
        },
        None => return Err(StatsError::Remote),
    };
    let team_id = match json_get(person, "currentTeam") {
        Some(t) => match json_get(t, "id") {
            Some(v) => match json_as_u64(v) {
                Some(x) => x,
                None => return Err(StatsError::Remote),
            },
            None => return Err(StatsError::Remote),
        },
        None => return Err(StatsError::Remote),
    };
    Ok(PlayerCandidate { id, full_name, position, team_id })
}

/// Reads the player search response: succeeds exactly on a body denoting a
/// roster, returns exactly that roster, and refuses any other body as a
/// malformed response.
pub fn parse_roster(body: &str) -> (r: Result<Vec<PlayerCandidate>, StatsError>)
    ensures
        r is Ok <==> spec_roster(body@) is Some,
        r matches Ok(v) ==> v.deep_view() == spec_roster(body@)->Some_0,
        r is Err ==> r == Err::<Vec<PlayerCandidate>, StatsError>(StatsError::Remote),
{
    let root = match json_parse(body) {
        Some(v) => v,
        None => return Err(StatsError::Remote),
    };
    let ghost doc = json_view(root);
    let people = match json_get(&root, "people") {
        Some(v) => v,
        None => return Err(StatsError::Remote),
    };
    let arr = match json_as_array(people) {
        Some(a) => a,
        None => return Err(StatsError::Remote),
    };
    let ghost items = json_view(*people)->Arr_0;
    let mut out: Vec<PlayerCandidate> = Vec::new();
    let n: usize = arr.len();
    let mut i: usize = 0;
    while i < n
        invariant
            json_of(body@) == Some(doc),
            obj_lookup(doc, "people"@) == Some(JsonView::Arr(items)),
            n == arr@.len(),
            n == items.len(),
            0 <= i <= n,
            forall|k: int| 0 <= k < n ==> json_view(#[trigger] arr@[k]) == items[k],
            forall|k: int| 0 <= k < i ==> (#[trigger] candidate_of(items[k])) is Some,
            out.deep_view().len() == i,
            forall|k: int|
                0 <= k < i ==> #[trigger] out.deep_view()[k] == candidate_of(items[k])->Some_0,
        decreases n - i,
    {
        match read_candidate(&arr[i]) {
            Ok(c) => {
                let ghost old_dv = out.deep_view();
                proof {
                    assert(c@ == candidate_of(items[i as int])->Some_0);
                }
                out.push(c);
                proof {
                    assert(out.deep_view() =~= old_dv.push(candidate_of(items[i as int])->Some_0));
                }
            },
            Err(_) => {
                proof {
                    assert(candidate_of(items[i as int]) is None);
                    assert(roster_of(doc) is None);
                }
                return Err(StatsError::Remote);
            },
        }
        i = i + 1;
    }
    proof {
        assert(out.deep_view() =~= roster_of(doc)->Some_0);
    }
    Ok(out)
}

/// The raw field value a document scalar denotes: unsigned numbers and
/// strings are kept, anything else is carried as an unusable placeholder.
pub open spec fn field_view_of(v: JsonView) -> FieldValueView {
    match v {
        JsonView::UInt(n) => FieldValueView::Int(n),
        JsonView::Text(s) => FieldValueView::Text(s),
        _ => FieldValueView::Other,
    }
}

/// The raw fields an object's entries denote, in entry order.
pub open spec fn raw_fields_of(entries: Seq<(Seq<char>, JsonView)>) -> Seq<RawFieldView> {
    Seq::new(
        entries.len(),
        |i: int| RawFieldView { name: entries[i].0, value: field_view_of(entries[i].1) },
    )
}

/// The stat payload a document value denotes: it must be an object, and its
/// members become the raw fields the decoder reads.
pub open spec fn stat_fields_of(v: JsonView) -> Option<Seq<RawFieldView>> {
    match v {
        JsonView::Obj(entries) => Some(raw_fields_of(entries)),
        _ => None,
    }
}

fn field_value_of(v: &serde_json::Value) -> (r: FieldValue)
    ensures
        r@ == field_view_of(json_view(*v)),
{
    match json_as_u64(v) {
        Some(n) => FieldValue::Int(n),
        None => match json_as_str(v) {
            Some(s) => FieldValue::Text(s.to_owned()),
            None => FieldValue::Other,
        },
    }
}

fn fields_of_object(stat: &serde_json::Value) -> (r: Result<Vec<RawField>, StatsError>)
    ensures
        match stat_fields_of(json_view(*stat)) {
            Some(fields) => r matches Ok(out) && out.deep_view() == fields,
            None => r == Err::<Vec<RawField>, StatsError>(StatsError::Remote),
        },
{
    let entries = match json_object_entries(stat) {
        Some(e) => e,
        None => return Err(StatsError::Remote),
    };
    let ghost model = json_view(*stat)->Obj_0;
    let mut out: Vec<RawField> = Vec::new();
    let n: usize = entries.len();
    let mut i: usize = 0;
    while i < n
        invariant
            n == entries@.len(),
            n == model.len(),
            0 <= i <= n,
            forall|k: int|
                0 <= k < n ==> (#[trigger] entries@[k]).0@ == model[k].0 && json_view(
                    entries@[k].1,
                ) == model[k].1,
            out.deep_view().len() == i,
            forall|k: int| 0 <= k < i ==> #[trigger] out.deep_view()[k] == raw_fields_of(model)[k],
        decreases n - i,
    {
        let pair = &entries[i];
        let value = field_value_of(&pair.1);
        let ghost old_dv = out.deep_view();
        let field = RawField { name: pair.0.clone(), value };
        proof {
            assert(field@ == raw_fields_of(model)[i as int]);
        }
        out.push(field);
        proof {
            assert(out.deep_view() =~= old_dv.push(raw_fields_of(model)[i as int]));
        }
        i = i + 1;
    }
    proof {
        assert(out.deep_view() =~= raw_fields_of(model));
    }
    Ok(out)
}

/// The stat object of a player stat-detail document:
/// "people"[0]."stats"[0]."splits"[0]."stat".
pub open spec fn stat_value_of(doc: JsonView) -> Option<JsonView> {
    match first_elem(obj_lookup(doc, "people"@)) {
        Some(person) => match first_elem(obj_lookup(person, "stats"@)) {
            Some(stat0) => match first_elem(obj_lookup(stat0, "splits"@)) {
                Some(split) => obj_lookup(split, "stat"@),
                None => None,
            },
            None => None,
        },
        None => None,
    }
}

/// The decoder's raw fields a stat-detail body denotes, if the body parses
/// to a well-formed stat-detail response.
pub open spec fn spec_stat_fields(body: Seq<char>) -> Option<Seq<RawFieldView>> {
    match json_of(body) {
        Some(doc) => match stat_value_of(doc) {
            Some(sv) => stat_fields_of(sv),
            None => None,
        },
        None => None,
    }
}

fn stat_of_person<'a>(root: &'a serde_json::Value) -> (r: Option<&'a serde_json::Value>)
    ensures
        match stat_value_of(json_view(*root)) {
            Some(sv) => r matches Some(v) && json_view(*v) == sv,
            None => r is None,
        },
{
    let people_v = match json_get(root, "people") {
        Some(v) => v,
        None => return None,
    };
    let people = match json_as_array(people_v) {
        Some(a) => a,
        None => return None,
    };
    if people.len() == 0 {
        return None;
    }
    let stats_v = match json_get(&people[0], "stats") {
        Some(v) => v,
        None => return None,
    };
    let stats = match json_as_array(stats_v) {
        Some(a) => a,
        None => return None,
    };
    if stats.len() == 0 {
        return None;
    }
    let splits_v = match json_get(&stats[0], "splits") {
        Some(v) => v,
        None => return None,
    };
    let splits = match json_as_array(splits_v) {
        Some(a) => a,
        None => return None,
    };
    if splits.len() == 0 {
        return None;
    }
    json_get(&splits[0], "stat")
}

/// Reads a player stat-detail response down to its stat payload: succeeds
/// exactly on a body denoting one, returns exactly its raw fields, and
/// refuses any other envelope as a malformed response.
pub fn parse_stat_fields(body: &str) -> (r: Result<Vec<RawField>, StatsError>)
    ensures
        r is Ok <==> spec_stat_fields(body@) is Some,
        r matches Ok(v) ==> v.deep_view() == spec_stat_fields(body@)->Some_0,
        r is Err ==> r == Err::<Vec<RawField>, StatsError>(StatsError::Remote),
{
    let root = match json_parse(body) {
        Some(v) => v,
        None => return Err(StatsError::Remote),
    };
    let stat = match stat_of_person(&root) {
        Some(v) => v,
        None => return Err(StatsError::Remote),
    };
    fields_of_object(stat)
}

/// The team-stats section a document value denotes: the group label under
/// "group"."displayName", and a first split with the team's name and the
/// aggregate stat object.
pub open spec fn stat_section_of(v: JsonView) -> Option<StatSectionView> {
    match obj_lookup2(v, "group"@, "displayName"@) {
        Some(JsonView::Text(group)) => match obj_lookup(v, "splits"@) {
            Some(JsonView::Arr(splits)) => if splits.len() > 0 {
                match obj_lookup2(splits[0], "team"@, "name"@) {
                    Some(JsonView::Text(team_name)) => match obj_lookup(splits[0], "stat"@) {
                        Some(sv) => match stat_fields_of(sv) {
                            Some(fields) => Some(
                                StatSectionView {
                                    group: group,
                                    team_name: team_name,
                                    fields: fields,
                                },
                            ),
                            None => None,
                        },
                        None => None,
                    },
                    _ => None,
                }
            } else {
                None
            },
            _ => None,
        },
        _ => None,
    }
}

/// The group-tagged sections a team-stats document denotes.
pub open spec fn team_stats_of(doc: JsonView) -> Option<Seq<StatSectionView>> {
    match obj_lookup(doc, "stats"@) {
        Some(JsonView::Arr(items)) => if forall|i: int|
            0 <= i < items.len() ==> (#[trigger] stat_section_of(items[i])) is Some {
            Some(Seq::new(items.len(), |i: int| stat_section_of(items[i])->Some_0))
        } else {
            None
        },
        _ => None,
    }
}

/// The sections a team season-stats body denotes, if the body parses to a
/// well-formed team-stats response.
pub open spec fn spec_team_stats(body: Seq<char>) -> Option<Seq<StatSectionView>> {
    match json_of(body) {
        Some(doc) => team_stats_of(doc),
        None => None,
    }
}

fn read_stat_section(section: &serde_json::Value) -> (r: Result<StatSection, StatsError>)
    ensures
        match stat_section_of(json_view(*section)) {
            Some(s) => r matches Ok(out) && out@ == s,
            None => r == Err::<StatSection, StatsError>(StatsError::Remote),
        },
{
    let group = match json_get(section, "group") {
        Some(g) => match json_get(g, "displayName") {
            Some(v) => match json_as_str(v) {
                Some(s) => s.to_owned(),
                None => return Err(StatsError::Remote),
            },
            None => return Err(StatsError::Remote),
        },
        None => return Err(StatsError::Remote),
    };
    let splits = match json_get(section, "splits") {
        Some(v) => match json_as_array(v) {
            Some(a) => a,
            None => return Err(StatsError::Remote),
        },
        None => return Err(StatsError::Remote),
    };
    if splits.len() == 0 {
        return Err(StatsError::Remote);
    }
    let split = &splits[0];
    let team_name = match json_get(split, "team") {
        Some(t) => match json_get(t, "name") {
            Some(v) => match json_as_str(v) {
                Some(s) => s.to_owned(),
                None => return Err(StatsError::Remote),
            },
            None => return Err(StatsError::Remote),
        },
        None => return Err(StatsError::Remote),
    };
    let stat = match json_get(split, "stat") {
        Some(v) => v,
        None => return Err(StatsError::Remote),
    };
    let fields = match fields_of_object(stat) {
        Ok(f) => f,
        Err(_) => return Err(StatsError::Remote),
    };
    Ok(StatSection { group, team_name, fields })
}

/// Reads a team season-stats response: succeeds exactly on a body denoting
/// group-tagged sections, returns exactly those sections in response order,
/// and refuses any other body as a malformed response.
pub fn parse_team_stats(body: &str) -> (r: Result<Vec<StatSection>, StatsError>)
    ensures
        r is Ok <==> spec_team_stats(body@) is Some,
        r matches Ok(v) ==> v.deep_view() == spec_team_stats(body@)->Some_0,
        r is Err ==> r == Err::<Vec<StatSection>, StatsError>(StatsError::Remote),
{
    let root = match json_parse(body) {
        Some(v) => v,
        None => return Err(StatsError::Remote),
    };
    let ghost doc = json_view(root);
    let stats = match json_get(&root, "stats") {
        Some(v) => v,
        None => return Err(StatsError::Remote),
    };
    let arr = match json_as_array(stats) {
        Some(a) => a,
        None => return Err(StatsError::Remote),
    };
    let ghost items = json_view(*stats)->Arr_0;
    let mut out: Vec<StatSection> = Vec::new();
    let n: usize = arr.len();
    let mut i: usize = 0;
    while i < n
        invariant
            json_of(body@) == Some(doc),
            obj_lookup(doc, "stats"@) == Some(JsonView::Arr(items)),
            n == arr@.len(),
            n == items.len(),
            0 <= i <= n,
            forall|k: int| 0 <= k < n ==> json_view(#[trigger] arr@[k]) == items[k],
            forall|k: int| 0 <= k < i ==> (#[trigger] stat_section_of(items[k])) is Some,
            out.deep_view().len() == i,
            forall|k: int|
                0 <= k < i ==> #[trigger] out.deep_view()[k] == stat_section_of(items[k])->Some_0,
        decreases n - i,
    {
        match read_stat_section(&arr[i]) {
            Ok(s) => {
                let ghost old_dv = out.deep_view();
                proof {
                    assert(s@ == stat_section_of(items[i as int])->Some_0);
                }
                out.push(s);
                proof {
                    assert(out.deep_view() =~= old_dv.push(
                        stat_section_of(items[i as int])->Some_0,
                    ));
                }
            },
            Err(_) => {
                proof {
                    assert(stat_section_of(items[i as int]) is None);
                    assert(team_stats_of(doc) is None);
                }
                return Err(StatsError::Remote);
            },
        }
        i = i + 1;
    }
    proof {
        assert(out.deep_view() =~= team_stats_of(doc)->Some_0);
    }
    Ok(out)
}

/// The leaderboard row a document value denotes: "person"."fullName" and a
/// string "value".
pub open spec fn leader_row_of(v: JsonView) -> Option<RawLeaderView> {
    match (obj_lookup2(v, "person"@, "fullName"@), obj_lookup(v, "value"@)) {
        (Some(JsonView::Text(name)), Some(JsonView::Text(value))) => Some(
            RawLeaderView { name: name, value: value },
        ),
        _ => None,
    }
}

/// The ranked rows a leaders array denotes.
pub open spec fn leader_rows_of(v: JsonView) -> Option<Seq<RawLeaderView>> {
    match v {
        JsonView::Arr(rows) => if forall|i: int|
            0 <= i < rows.len() ==> (#[trigger] leader_row_of(rows[i])) is Some {
            Some(Seq::new(rows.len(), |i: int| leader_row_of(rows[i])->Some_0))
        } else {
            None
        },
        _ => None,
    }
}

fn read_leader_row(row: &serde_json::Value) -> (r: Result<RawLeader, StatsError>)
    ensures
        match leader_row_of(json_view(*row)) {
            Some(l) => r matches Ok(out) && out@ == l,
            None => r == Err::<RawLeader, StatsError>(StatsError::Remote),
        },
{
    let name = match json_get(row, "person") {
        Some(p) => match json_get(p, "fullName") {
            Some(v) => match json_as_str(v) {
                Some(s) => s.to_owned(),
                None => return Err(StatsError::Remote),
            },
            None => return Err(StatsError::Remote),
        },
        None => return Err(StatsError::Remote),
    };
    let value = match json_get(row, "value") {
        Some(v) => match json_as_str(v) {
            Some(s) => s.to_owned(),
            None => return Err(StatsError::Remote),
        },
        None => return Err(StatsError::Remote),
    };
    Ok(RawLeader { name, value })
}

fn leader_rows(leaders: &serde_json::Value) -> (r: Result<Vec<RawLeader>, StatsError>)
    ensures
        match leader_rows_of(json_view(*leaders)) {
            Some(rows) => r matches Ok(out) && out.deep_view() == rows,
            None => r == Err::<Vec<RawLeader>, StatsError>(StatsError::Remote),
        },
{
    let arr = match json_as_array(leaders) {
        Some(a) => a,
        None => return Err(StatsError::Remote),
    };
    let ghost rows = json_view(*leaders)->Arr_0;
    let mut out: Vec<RawLeader> = Vec::new();
    let n: usize = arr.len();
    let mut i: usize = 0;
    while i < n
        invariant
            json_view(*leaders) == JsonView::Arr(rows),
            n == arr@.len(),
            n == rows.len(),
            0 <= i <= n,
            forall|k: int| 0 <= k < n ==> json_view(#[trigger] arr@[k]) == rows[k],
            forall|k: int| 0 <= k < i ==> (#[trigger] leader_row_of(rows[k])) is Some,
            out.deep_view().len() == i,
            forall|k: int|
                0 <= k < i ==> #[trigger] out.deep_view()[k] == leader_row_of(rows[k])->Some_0,
        decreases n - i,
    {
        match read_leader_row(&arr[i]) {
            Ok(l) => {
                let ghost old_dv = out.deep_view();
                proof {
                    assert(l@ == leader_row_of(rows[i as int])->Some_0);
                }
                out.push(l);
                proof {
                    assert(out.deep_view() =~= old_dv.push(leader_row_of(rows[i as int])->Some_0));
                }
            },
            Err(_) => {
                proof {
                    assert(leader_row_of(rows[i as int]) is None);
                    assert(leader_rows_of(json_view(*leaders)) is None);
                }
                return Err(StatsError::Remote);
            },
        }
        i = i + 1;
    }
    proof {
        assert(out.deep_view() =~= leader_rows_of(json_view(*leaders))->Some_0);
    }
    Ok(out)
}

/// The ranked rows a league-leaders document denotes:
/// "leagueLeaders"[0]."leaders".
pub open spec fn league_leaders_of(doc: JsonView) -> Option<Seq<RawLeaderView>> {
    match first_elem(obj_lookup(doc, "leagueLeaders"@)) {
        Some(board) => match obj_lookup(board, "leaders"@) {
            Some(l) => leader_rows_of(l),
            None => None,
        },
        None => None,
    }
}

/// The rows a league-leaders body denotes, if the body parses to a
/// well-formed league-leaders response.
pub open spec fn spec_league_leaders(body: Seq<char>) -> Option<Seq<RawLeaderView>> {
    match json_of(body) {
        Some(doc) => league_leaders_of(doc),
        None => None,
    }
}

/// Reads a league-leaders response: succeeds exactly on a body denoting one,
/// returns exactly its ranked rows, and refuses any other body as a
/// malformed response.
pub fn parse_league_leaders(body: &str) -> (r: Result<Vec<RawLeader>, StatsError>)
    ensures
        r is Ok <==> spec_league_leaders(body@) is Some,
        r matches Ok(v) ==> v.deep_view() == spec_league_leaders(body@)->Some_0,
        r is Err ==> r == Err::<Vec<RawLeader>, StatsError>(StatsError::Remote),
{
    let root = match json_parse(body) {
        Some(v) => v,
        None => return Err(StatsError::Remote),
    };
    let boards_v = match json_get(&root, "leagueLeaders") {
        Some(v) => v,
        None => return Err(StatsError::Remote),
    };
    let boards = match json_as_array(boards_v) {
        Some(a) => a,
        None => return Err(StatsError::Remote),
    };
    if boards.len() == 0 {
        return Err(StatsError::Remote);
    }
    let leaders_v = match json_get(&boards[0], "leaders") {
        Some(v) => v,
        None => return Err(StatsError::Remote),
    };
    leader_rows(leaders_v)
}

/// The group-tagged section a document value denotes: a "statGroup" tag and
/// its own "leaders" rows.
pub open spec fn leader_section_of(v: JsonView) -> Option<LeaderSectionView> {
    match (obj_lookup(v, "statGroup"@), obj_lookup(v, "leaders"@)) {
        (Some(JsonView::Text(group)), Some(l)) => match leader_rows_of(l) {
            Some(rows) => Some(LeaderSectionView { group: group, leaders: rows }),
            None => None,
        },
        _ => None,
    }
}

/// The sections a team-leaders document denotes: a "teamLeaders" array of
/// group-tagged boards, every group kept; filtering to the requested group
/// happens in the verified leader logic.
pub open spec fn team_leader_sections_of(doc: JsonView) -> Option<Seq<LeaderSectionView>> {
    match obj_lookup(doc, "teamLeaders"@) {
        Some(JsonView::Arr(items)) => if forall|i: int|
            0 <= i < items.len() ==> (#[trigger] leader_section_of(items[i])) is Some {
            Some(Seq::new(items.len(), |i: int| leader_section_of(items[i])->Some_0))
        } else {
            None
        },
        _ => None,
    }
}

/// The sections a team-leaders body denotes, if the body parses to a
/// well-formed team-leaders response.
pub open spec fn spec_team_leader_sections(body: Seq<char>) -> Option<Seq<LeaderSectionView>> {
    match json_of(body) {
        Some(doc) => team_leader_sections_of(doc),
        None => None,
    }
}

fn read_leader_section(section: &serde_json::Value) -> (r: Result<LeaderSection, StatsError>)
    ensures
        match leader_section_of(json_view(*section)) {
            Some(s) => r matches Ok(out) && out@ == s,
            None => r == Err::<LeaderSection, StatsError>(StatsError::Remote),
        },
{
    let group = match json_get(section, "statGroup") {
        Some(v) => match json_as_str(v) {
            Some(s) => s.to_owned(),
            None => return Err(StatsError::Remote),
        },
        None => return Err(StatsError::Remote),
    };
    let leaders_v = match json_get(section, "leaders") {
        Some(v) => v,
        None => return Err(StatsError::Remote),
    };
    let leaders = match leader_rows(leaders_v) {
        Ok(rows) => rows,
        Err(_) => return Err(StatsError::Remote),
    };
    Ok(LeaderSection { group, leaders })
}

/// Reads a team-leaders response: succeeds exactly on a body denoting
/// group-tagged sections, returns exactly those sections in response order,
/// and refuses any other body as a malformed response.
pub fn parse_team_leader_sections(body: &str) -> (r: Result<Vec<LeaderSection>, StatsError>)
    ensures
        r is Ok <==> spec_team_leader_sections(body@) is Some,
        r matches Ok(v) ==> v.deep_view() == spec_team_leader_sections(body@)->Some_0,
        r is Err ==> r == Err::<Vec<LeaderSection>, StatsError>(StatsError::Remote),
{
    let root = match json_parse(body) {
        Some(v) => v,
        None => return Err(StatsError::Remote),
    };
    let ghost doc = json_view(root);
    let arr_v = match json_get(&root, "teamLeaders") {
        Some(v) => v,
        None => return Err(StatsError::Remote),
    };
    let arr = match json_as_array(arr_v) {
        Some(a) => a,
        None => return Err(StatsError::Remote),
    };
    let ghost items = json_view(*arr_v)->Arr_0;
    let mut out: Vec<LeaderSection> = Vec::new();
    let n: usize = arr.len();
    let mut i: usize = 0;
    while i < n
        invariant
            json_of(body@) == Some(doc),
            obj_lookup(doc, "teamLeaders"@) == Some(JsonView::Arr(items)),
            n == arr@.len(),
            n == items.len(),
            0 <= i <= n,
            forall|k: int| 0 <= k < n ==> json_view(#[trigger] arr@[k]) == items[k],
            forall|k: int| 0 <= k < i ==> (#[trigger] leader_section_of(items[k])) is Some,
            out.deep_view().len() == i,
            forall|k: int|
                0 <= k < i ==> #[trigger] out.deep_view()[k] == leader_section_of(
                    items[k],
                )->Some_0,
        decreases n - i,
    {
        match read_leader_section(&arr[i]) {
            Ok(s) => {
                let ghost old_dv = out.deep_view();
                proof {
                    assert(s@ == leader_section_of(items[i as int])->Some_0);
                }
                out.push(s);
                proof {
                    assert(out.deep_view() =~= old_dv.push(
                        leader_section_of(items[i as int])->Some_0,
                    ));
                }
            },
            Err(_) => {
                proof {
                    assert(leader_section_of(items[i as int]) is None);
                    assert(team_leader_sections_of(doc) is None);
                }
                return Err(StatsError::Remote);
            },
        }
        i = i + 1;
    }
    proof {
        assert(out.deep_view() =~= team_leader_sections_of(doc)->Some_0);
    }
    Ok(out)
}

} // verus!
