//! Raw stat payloads and the pieces the decoder is built from.
//!
//! The remote service renders a stat object as a map from field names to
//! scalars: counting stats arrive as numbers, rate stats as numeric strings
//! (".301", "3.25"), with an occasional non-numeric placeholder (".---") for
//! a rate that is undefined for the player.  A payload is modelled as the
//! sequence of its scalar fields, in wire order; lookups take the first
//! field of a given name.

use vstd::prelude::*;

use crate::errors::StatsError;
use crate::text::{dec_digits, parse_u64, spec_parse_u64, str_eq, u64_to_string};

verus! {

/// One scalar of a stat payload: an unsigned count, a string, or something
/// the decoder has no use for (an object, an array, a float, a null).
#[derive(Debug)]
pub enum FieldValue {
    Int(u64),
    Text(String),
    Other,
}

pub ghost enum FieldValueView {
    Int(u64),
    Text(Seq<char>),
    Other,
}

impl View for FieldValue {
    type V = FieldValueView;

    open spec fn view(&self) -> FieldValueView {
        match self {
            FieldValue::Int(n) => FieldValueView::Int(*n),
            FieldValue::Text(s) => FieldValueView::Text(s@),
            FieldValue::Other => FieldValueView::Other,
        }
    }
}

impl DeepView for FieldValue {
    type V = FieldValueView;

    open spec fn deep_view(&self) -> FieldValueView {
        self@
    }
}

/// A named scalar of a stat payload.
#[derive(Debug)]
pub struct RawField {
    pub name: String,
    pub value: FieldValue,
}

pub ghost struct RawFieldView {
    pub name: Seq<char>,
    pub value: FieldValueView,
}

impl View for RawField {
    type V = RawFieldView;

    open spec fn view(&self) -> RawFieldView {
        RawFieldView { name: self.name@, value: self.value@ }
    }
}

impl DeepView for RawField {
    type V = RawFieldView;

    open spec fn deep_view(&self) -> RawFieldView {
        self@
    }
}

/// The first field of a given name, if any.
pub open spec fn find_field(fields: Seq<RawFieldView>, name: Seq<char>) -> Option<FieldValueView>
    decreases fields.len(),
{
    if fields.len() == 0 {
        None
    } else if fields[0].name == name {
        Some(fields[0].value)
    } else {
        find_field(fields.drop_first(), name)
    }
}

proof fn lemma_find_field_at(fields: Seq<RawFieldView>, name: Seq<char>, i: int)
    requires
        0 <= i <= fields.len(),
        forall|k: int| 0 <= k < i ==> (#[trigger] fields[k]).name != name,
        i < fields.len() ==> fields[i].name == name,
    ensures
        i == fields.len() ==> find_field(fields, name) is None,
        i < fields.len() ==> find_field(fields, name) == Some(fields[i].value),
    decreases i,
{
    if i > 0 {
        let rest = fields.drop_first();
        assert(forall|k: int| 0 <= k < i - 1 ==> (#[trigger] rest[k]).name == fields[k + 1].name);
        lemma_find_field_at(rest, name, i - 1);
    }
}

/// The first field named `name`, scanning in wire order.
pub fn get_field<'a>(fields: &'a Vec<RawField>, name: &str) -> (r: Option<&'a FieldValue>)
    ensures
        match find_field(fields.deep_view(), name@) {
            Some(v) => r matches Some(fv) && fv@ == v,
            None => r is None,
        },
{
    let n: usize = fields.len();
    let mut i: usize = 0;
    while i < n
        invariant
            n == fields@.len(),
            0 <= i <= n,
            forall|k: int| 0 <= k < i ==> (#[trigger] fields.deep_view()[k]).name != name@,
        decreases n - i,
    {
        if str_eq(fields[i].name.as_str(), name) {
            proof {
                lemma_find_field_at(fields.deep_view(), name@, i as int);
            }
            return Some(&fields[i].value);
        }
        i = i + 1;
    }
    proof {
        lemma_find_field_at(fields.deep_view(), name@, n as int);
    }
    None
}

/// A rate statistic: an exact decimal (`mantissa` scaled by `scale` fraction
/// digits, so ".301" is 301 over scale 3), or the service's explicit
/// "undefined" placeholder, kept as a state of its own so that callers can
/// display it as not applicable.
#[derive(Clone, Copy, Debug, PartialEq, Eq, Structural)]
pub enum Rate {
    Value { mantissa: u64, scale: u8 },
    Undefined,
}

/// The first '.' of a string, if any.
pub open spec fn find_dot(s: Seq<char>) -> Option<int>
    decreases s.len(),
{
    if s.len() == 0 {
        None
    } else if s[0] == '.' {
        Some(0)
    } else {
        match find_dot(s.drop_first()) {
            Some(k) => Some(k + 1),
            None => None,
        }
    }
}

proof fn lemma_find_dot_at(s: Seq<char>, i: int)
    requires
        0 <= i <= s.len(),
        forall|k: int| 0 <= k < i ==> #[trigger] s[k] != '.',
        i < s.len() ==> s[i] == '.',
    ensures
        i == s.len() ==> find_dot(s) is None,
        i < s.len() ==> find_dot(s) == Some(i),
    decreases i,
{
    if i > 0 {
        let rest = s.drop_first();
        assert(forall|k: int| 0 <= k < i - 1 ==> #[trigger] rest[k] == s[k + 1]);
        lemma_find_dot_at(rest, i - 1);
    }
}

/// The rate a numeric string denotes: the digits around at most one '.'
/// read as one number, scaled by the count of fraction digits; the
/// placeholder ".---" denotes the undefined rate; anything else (a sign, an
/// exponent, a second dot, no digits at all, or more digits than a `u64`
/// carries) does not parse.
pub open spec fn spec_parse_rate(s: Seq<char>) -> Option<Rate> {
    if s == ".---"@ {
        Some(Rate::Undefined)
    } else {
        match find_dot(s) {
            None => match spec_parse_u64(s) {
                Some(v) => Some(Rate::Value { mantissa: v, scale: 0 }),
                None => None,
            },
            Some(k) => {
                let ds = s.take(k) + s.skip(k + 1);
                if s.len() - k - 1 <= 255 {
                    match spec_parse_u64(ds) {
                        Some(v) => Some(
                            Rate::Value { mantissa: v, scale: (s.len() - k - 1) as u8 },
                        ),
                        None => None,
                    }
                } else {
                    None
                }
            },
        }
    }
}

/// Parses a rate string exactly as `spec_parse_rate` reads it.
pub fn parse_rate(s: &str) -> (r: Option<Rate>)
    ensures
        r == spec_parse_rate(s@),
{
    if str_eq(s, ".---") {
        return Some(Rate::Undefined);
    }
    let n: usize = s.unicode_len();
    let mut i: usize = 0;
    while i < n && s.get_char(i) != '.'
        invariant
            n == s@.len(),
            0 <= i <= n,
            forall|k: int| 0 <= k < i ==> #[trigger] s@[k] != '.',
        decreases n - i,
    {
        i = i + 1;
    }
    proof {
        lemma_find_dot_at(s@, i as int);
    }
    if i == n {
        match parse_u64(s) {
            Some(v) => Some(Rate::Value { mantissa: v, scale: 0 }),
            None => None,
        }
    } else {
        let whole = s.substring_char(0, i);
        let frac = s.substring_char(i + 1, n);
        let frac_len: usize = frac.unicode_len();
        if frac_len > 255 {
            return None;
        }
        let ds = whole.to_owned().concat(frac);
        proof {
            assert(ds@ =~= s@.take(i as int) + s@.skip(i + 1));
        }
        match parse_u64(ds.as_str()) {
            Some(v) => Some(Rate::Value { mantissa: v, scale: frac_len as u8 }),
            None => None,
        }
    }
}

/// A run of `n` zero digits.
pub open spec fn zeros(n: int) -> Seq<char>
    decreases n,
{
    if n <= 0 {
        Seq::empty()
    } else {
        seq!['0'] + zeros(n - 1)
    }
}

/// The display form of a rate: the mantissa's digits with the decimal point
/// restored ("0.301", "3.25"), whole numbers bare, and the undefined rate
/// shown as its placeholder.
pub open spec fn spec_rate_render(r: Rate) -> Seq<char> {
    match r {
        Rate::Undefined => ".---"@,
        Rate::Value { mantissa, scale } => {
            let d = dec_digits(mantissa as int);
            if scale == 0 {
                d
            } else if d.len() <= scale {
                "0."@ + zeros(scale - d.len()) + d
            } else {
                d.take(d.len() - scale) + seq!['.'] + d.skip(d.len() - scale)
            }
        },
    }
}

/// Renders a rate for display.
pub fn rate_render(r: &Rate) -> (out: String)
    ensures
        out@ == spec_rate_render(*r),
{
    match r {
        Rate::Undefined => {
            let s: &str = ".---";
            s.to_owned()
        },
        Rate::Value { mantissa, scale } => {
            let d = u64_to_string(*mantissa);
            let dn: usize = d.as_str().unicode_len();
            let sc: usize = *scale as usize;
            if sc == 0 {
                d
            } else if dn <= sc {
                let pad: usize = sc - dn;
                let mut out = {
                    let prefix: &str = "0.";
                    prefix.to_owned()
                };
                let mut k: usize = 0;
                while k < pad
                    invariant
                        0 <= k <= pad,
                        out@ == "0."@ + zeros(k as int),
                    decreases pad - k,
                {
                    out.append("0");
                    proof {
                        reveal_strlit("0");
                        assert("0"@ =~= seq!['0']);
                        assert(zeros(k + 1) =~= zeros(k as int) + seq!['0']) by {
                            lemma_zeros_snoc(k + 1);
                        }
                        assert(out@ =~= "0."@ + zeros(k + 1));
                    }
                    k = k + 1;
                }
                out.append(d.as_str());
                proof {
                    assert(out@ =~= "0."@ + zeros(sc - dn) + dec_digits(*mantissa as int));
                }
                out
            } else {
                let head = d.as_str().substring_char(0, dn - sc);
                let tail = d.as_str().substring_char(dn - sc, dn);
                let mut out = head.to_owned();
                out.append(".");
                out.append(tail);
                proof {
                    reveal_strlit(".");
                    assert("."@ =~= seq!['.']);
                    let dd = dec_digits(*mantissa as int);
                    assert(out@ =~= dd.take(dd.len() - *scale) + seq!['.'] + dd.skip(
                        dd.len() - *scale,
                    ));
                }
                out
            }
        },
    }
}

/// `zeros` grows at the back as well as at the front.
proof fn lemma_zeros_snoc(n: int)
    requires
        n >= 1,
    ensures
        zeros(n) =~= zeros(n - 1) + seq!['0'],
    decreases n,
{
    if n > 1 {
        lemma_zeros_snoc(n - 1);
    }
}

/// One group-tagged section of a team's season stats: the group label, the
/// team's display name, and the aggregate stat payload.
#[derive(Debug)]
pub struct StatSection {
    pub group: String,
    pub team_name: String,
    pub fields: Vec<RawField>,
}

pub ghost struct StatSectionView {
    pub group: Seq<char>,
    pub team_name: Seq<char>,
    pub fields: Seq<RawFieldView>,
}

impl View for StatSection {
    type V = StatSectionView;

    open spec fn view(&self) -> StatSectionView {
        StatSectionView {
            group: self.group@,
            team_name: self.team_name@,
            fields: self.fields.deep_view(),
        }
    }
}

impl DeepView for StatSection {
    type V = StatSectionView;

    open spec fn deep_view(&self) -> StatSectionView {
        self@
    }
}

/// The first section carrying a given group label, if any.
pub open spec fn find_section(sections: Seq<StatSectionView>, label: Seq<char>) -> Option<int>
    decreases sections.len(),
{
    if sections.len() == 0 {
        None
    } else if sections[0].group == label {
        Some(0)
    } else {
        match find_section(sections.drop_first(), label) {
            Some(k) => Some(k + 1),
            None => None,
        }
    }
}

proof fn lemma_find_section_at(sections: Seq<StatSectionView>, label: Seq<char>, i: int)
    requires
        0 <= i <= sections.len(),
        forall|k: int| 0 <= k < i ==> (#[trigger] sections[k]).group != label,
        i < sections.len() ==> sections[i].group == label,
    ensures
        i == sections.len() ==> find_section(sections, label) is None,
        i < sections.len() ==> find_section(sections, label) == Some(i),
    decreases i,
{
    if i > 0 {
        let rest = sections.drop_first();
        assert(forall|k: int|
            0 <= k < i - 1 ==> (#[trigger] rest[k]).group == sections[k + 1].group);
        lemma_find_section_at(rest, label, i - 1);
    }
}

/// The position of the first section tagged with `label`.
pub fn section_index(sections: &Vec<StatSection>, label: &str) -> (r: Option<usize>)
    ensures
        match find_section(sections.deep_view(), label@) {
            Some(i) => r matches Some(j) && j as int == i && j < sections.deep_view().len(),
            None => r is None,
        },
{
    let n: usize = sections.len();
    let mut i: usize = 0;
    while i < n
        invariant
            n == sections@.len(),
            0 <= i <= n,
            forall|k: int| 0 <= k < i ==> (#[trigger] sections.deep_view()[k]).group != label@,
        decreases n - i,
    {
        if str_eq(sections[i].group.as_str(), label) {
            proof {
                lemma_find_section_at(sections.deep_view(), label@, i as int);
            }
            return Some(i);
        }
        i = i + 1;
    }
    proof {
        lemma_find_section_at(sections.deep_view(), label@, n as int);
    }
    None
}

/// Locates the hitting and the pitching section of a team-stats response,
/// whichever order the service sent them in; a response missing either
/// section is malformed.
pub fn split_team_sections(sections: &Vec<StatSection>) -> (r: Result<(usize, usize), StatsError>)
    ensures
        ({
            let h = find_section(sections.deep_view(), "hitting"@);
            let p = find_section(sections.deep_view(), "pitching"@);
            &&& h is Some && p is Some ==> (r matches Ok(pair) && pair.0 as int == h->Some_0
                && pair.1 as int == p->Some_0)
            &&& h is None || p is None ==> r == Err::<(usize, usize), StatsError>(
                StatsError::Remote,
            )
        }),
{
    let h = section_index(sections, "hitting");
    let p = section_index(sections, "pitching");
    match (h, p) {
        (Some(hi), Some(pi)) => Ok((hi, pi)),
        _ => Err(StatsError::Remote),
    }
}

/// The unsigned count a payload carries under `name`, if it carries one.
pub open spec fn spec_int_field(fields: Seq<RawFieldView>, name: Seq<char>) -> Option<u64> {
    match find_field(fields, name) {
        Some(FieldValueView::Int(n)) => Some(n),
        _ => None,
    }
}

/// The rate a payload carries under `name`, if the field is there and its
/// string parses.
pub open spec fn spec_rate_field(fields: Seq<RawFieldView>, name: Seq<char>) -> Option<Rate> {
    match find_field(fields, name) {
        Some(FieldValueView::Text(s)) => spec_parse_rate(s),
        _ => None,
    }
}

/// The string a payload carries under `name`, if it carries one.
pub open spec fn spec_text_field(fields: Seq<RawFieldView>, name: Seq<char>) -> Option<Seq<char>> {
    match find_field(fields, name) {
        Some(FieldValueView::Text(s)) => Some(s),
        _ => None,
    }
}

/// A required counting stat: absent or non-numeric is a decode error.
pub fn get_int(fields: &Vec<RawField>, name: &str) -> (r: Result<u64, StatsError>)
    ensures
        match spec_int_field(fields.deep_view(), name@) {
            Some(v) => r == Ok::<u64, StatsError>(v),
            None => r == Err::<u64, StatsError>(StatsError::Decode),
        },
{
    match get_field(fields, name) {
        Some(fv) => match fv {
            FieldValue::Int(n) => Ok(*n),
            _ => Err(StatsError::Decode),
        },
        None => Err(StatsError::Decode),
    }
}

/// A required rate stat: absent, non-string, or unparseable is a decode
/// error; the service's placeholder decodes to the undefined rate.
pub fn get_rate(fields: &Vec<RawField>, name: &str) -> (r: Result<Rate, StatsError>)
    ensures
        match spec_rate_field(fields.deep_view(), name@) {
            Some(v) => r == Ok::<Rate, StatsError>(v),
            None => r == Err::<Rate, StatsError>(StatsError::Decode),
        },
{
    match get_field(fields, name) {
        Some(fv) => match fv {
            FieldValue::Text(s) => match parse_rate(s.as_str()) {
                Some(v) => Ok(v),
                None => Err(StatsError::Decode),
            },
            _ => Err(StatsError::Decode),
        },
        None => Err(StatsError::Decode),
    }
}

/// A required string-valued stat: absent or non-string is a decode error.
pub fn get_text(fields: &Vec<RawField>, name: &str) -> (r: Result<String, StatsError>)
    ensures
        match spec_text_field(fields.deep_view(), name@) {
            Some(s) => r matches Ok(t) && t@ == s,
            None => r == Err::<String, StatsError>(StatsError::Decode),
        },
{
    match get_field(fields, name) {
        Some(fv) => match fv {
            FieldValue::Text(s) => Ok(s.clone()),
            _ => Err(StatsError::Decode),
        },
        None => Err(StatsError::Decode),
    }
}

} // verus!
