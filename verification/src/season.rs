//! Season validation: the first stage of every session.
//!
//! A season is entered as raw text.  Empty input defaults to the current
//! calendar year; anything else must be a year between 1871 and the current
//! year, or validation is refused and the caller re-prompts.

use vstd::prelude::*;

use crate::errors::StatsError;
use crate::text::{
    all_digits, dec_digits, digits_to_int, int_seq, lemma_dec_digits_value, lemma_trim_untouched,
    parse_u64, spec_trim, trim_str,
};

verus! {

/// Relies on chrono::Utc::now and chrono::Datelike::year: the current
/// calendar year by the system clock, the default and the upper bound for a
/// season.  Nothing is assumed of it: validation takes it as an argument and
/// is verified for every value.  chrono aborts on a host clock before the
/// Unix epoch.
#[verifier::external_body]
pub fn current_year() -> i32 {
    chrono::Datelike::year(&chrono::Utc::now())
}

/// A validated statistical year, shared read-only by all later stages.
#[derive(Clone, Copy, Debug, PartialEq, Eq, Structural)]
pub struct Season {
    pub year: i32,
}

impl Season {
    /// Well-formed when inside the era the remote service covers.
    pub open spec fn wf(self) -> bool {
        1871 <= self.year
    }
}

/// The accepted year, if any: the current year for blank input, otherwise the
/// trimmed input read as a decimal year inside [1871, current_year].
pub open spec fn spec_validate(raw: Seq<char>, current_year: i32) -> Option<i32> {
    let t = spec_trim(raw);
    if t.len() == 0 {
        Some(current_year)
    } else if all_digits(t) && 1871 <= digits_to_int(t) && digits_to_int(t)
        <= current_year as int {
        Some(digits_to_int(t) as i32)
    } else {
        None
    }
}

/// Parses and bounds a season value.  Blank input defaults to the current
/// calendar year; non-numeric input or a year outside [1871, current_year]
/// is a validation error, which the caller answers by re-prompting.
pub fn validate(raw: &str, current_year: i32) -> (r: Result<Season, StatsError>)
    ensures
        match spec_validate(raw@, current_year) {
            Some(y) => r matches Ok(s) && s.year == y,
            None => r matches Err(e) && e == StatsError::Validation,
        },
        r is Ok && spec_trim(raw@).len() > 0 ==> (r matches Ok(s) && s.wf() && s.year
            <= current_year),
{
    let t = trim_str(raw);
    if t.unicode_len() == 0 {
        return Ok(Season { year: current_year });
    }
    match parse_u64(t) {
        Some(v) => {
            proof {
                crate::text::lemma_digits_nonneg(t@);
            }
            if 1871 <= v && v <= 2147483647 && (v as i32) <= current_year {
                Ok(Season { year: v as i32 })
            } else {
                Err(StatsError::Validation)
            }
        },
        None => {
            proof {
                if all_digits(t@) {
                    crate::text::lemma_digits_nonneg(t@);
                }
            }
            Err(StatsError::Validation)
        },
    }
}

/// For every integer `y`, validating the decimal rendering of `y` succeeds
/// exactly when `1871 <= y <= current_year`, and yields `y`; blank input
/// always succeeds and yields the current year.
pub proof fn lemma_validate_decimal(y: int, current_year: i32)
    ensures
        1871 <= y <= current_year as int ==> spec_validate(int_seq(y), current_year) == Some(
            y as i32,
        ),
        !(1871 <= y <= current_year as int) ==> spec_validate(int_seq(y), current_year) is None,
        spec_validate(Seq::<char>::empty(), current_year) == Some(current_year),
{
    assert(spec_trim(Seq::<char>::empty()) == Seq::<char>::empty());
    if y >= 0 {
        let d = dec_digits(y);
        lemma_dec_digits_value(y);
        lemma_trim_untouched(d);
        assert(int_seq(y) == d);
    } else {
        let s = int_seq(y);
        lemma_dec_digits_value(-y);
        assert(s[0] == '-');
        assert(!crate::text::is_space('-'));
        assert(s.last() == dec_digits(-y).last());
        assert(crate::text::is_digit(s.last()));
        lemma_trim_untouched(s);
        assert(!crate::text::is_digit(s[0]));
        assert(!all_digits(spec_trim(s)));
    }
}

} // verus!
