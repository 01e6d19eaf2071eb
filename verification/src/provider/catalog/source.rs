//! Catalog provenance and evidence freshness.

use vstd::prelude::*;

use crate::error::{configuration, is_configuration, LlmError};
use crate::text::{chars_of, is_digit, lemma_seq_lt_total, lemma_seq_lt_transitive, owned, seq_lt, str_lt};

use super::ids::CatalogSourceId;

verus! {

/// The numeric value of an ASCII digit.
pub open spec fn digit_value(c: char) -> int {
    (c as int) - ('0' as int)
}

/// `s` has the shape `YYYY-MM-DD`: ten characters, dashes at positions 4 and 7 and ASCII
/// digits elsewhere.
pub open spec fn date_shape(s: Seq<char>) -> bool {
    &&& s.len() == 10
    &&& forall|i: int|
        0 <= i < 10 ==> if i == 4 || i == 7 {
            #[trigger] s[i] == '-'
        } else {
            is_digit(s[i])
        }
}

/// The year of a `YYYY-MM-DD` text.
pub open spec fn date_year(s: Seq<char>) -> int {
    1000 * digit_value(s[0]) + 100 * digit_value(s[1]) + 10 * digit_value(s[2]) + digit_value(
        s[3],
    )
}

/// The month of a `YYYY-MM-DD` text.
pub open spec fn date_month(s: Seq<char>) -> int {
    10 * digit_value(s[5]) + digit_value(s[6])
}

/// The day of a `YYYY-MM-DD` text.
pub open spec fn date_day(s: Seq<char>) -> int {
    10 * digit_value(s[8]) + digit_value(s[9])
}

/// Gregorian leap year.
pub open spec fn is_leap_year(year: int) -> bool {
    year % 4 == 0 && (year % 100 != 0 || year % 400 == 0)
}

/// Days in `month` of `year`; zero for a month outside `1..=12`.
pub open spec fn days_in_month(year: int, month: int) -> int {
    if month == 1 || month == 3 || month == 5 || month == 7 || month == 8 || month == 10 || month
        == 12 {
        31
    } else if month == 4 || month == 6 || month == 9 || month == 11 {
        30
    } else if month == 2 {
        if is_leap_year(year) {
            29
        } else {
            28
        }
    } else {
        0
    }
}

/// Why `s` is not an ISO-8601 calendar date, as the error message, or `None` when it is one.
pub open spec fn date_rejection(s: Seq<char>) -> Option<Seq<char>> {
    if !date_shape(s) {
        Some("catalog dates must use YYYY-MM-DD"@)
    } else if date_day(s) == 0 || date_day(s) > days_in_month(date_year(s), date_month(s)) {
        Some("catalog date is not a valid calendar day"@)
    } else {
        None
    }
}

/// `r` answers the date check of `s`.
pub open spec fn date_checked<T>(s: Seq<char>, r: Result<T, LlmError>) -> bool {
    match date_rejection(s) {
        None => r is Ok,
        Some(message) => r matches Err(e) && is_configuration(e, message),
    }
}

fn digit(c: char) -> (r: u32)
    requires
        is_digit(c),
    ensures
        r == digit_value(c),
        r <= 9,
{
    (c as u32) - ('0' as u32)
}

fn date_shape_exec(chars: &Vec<char>) -> (r: bool)
    ensures
        r == date_shape(chars@),
{
    if chars.len() != 10 {
        return false;
    }
    let mut i: usize = 0;
    while i < 10
        invariant
            chars@.len() == 10,
            i <= 10,
            forall|j: int|
                0 <= j < i ==> if j == 4 || j == 7 {
                    #[trigger] chars@[j] == '-'
                } else {
                    is_digit(chars@[j])
                },
        decreases 10 - i,
    {
        let c = chars[i];
        if i == 4 || i == 7 {
            if c != '-' {
                return false;
            }
        } else if !('0' <= c && c <= '9') {
            return false;
        }
        i = i + 1;
    }
    true
}

/// Checks that `value` is an ISO-8601 calendar date `YYYY-MM-DD`.
pub fn validate_date(value: &str) -> (r: Result<(), LlmError>)
    ensures
        date_checked(value@, r),
{
    let chars = chars_of(value);
    if !date_shape_exec(&chars) {
        return Err(configuration("catalog dates must use YYYY-MM-DD"));
    }
    proof {
        assert(is_digit(value@[0]) && is_digit(value@[1]) && is_digit(value@[2]) && is_digit(
            value@[3],
        ));
        assert(is_digit(value@[5]) && is_digit(value@[6]) && is_digit(value@[8]) && is_digit(
            value@[9],
        ));
    }
    let year = 1000 * digit(chars[0]) + 100 * digit(chars[1]) + 10 * digit(chars[2]) + digit(
        chars[3],
    );
    let month = 10 * digit(chars[5]) + digit(chars[6]);
    let day = 10 * digit(chars[8]) + digit(chars[9]);
    let leap = year % 4 == 0 && (year % 100 != 0 || year % 400 == 0);
    let max_day: u32 = if month == 1 || month == 3 || month == 5 || month == 7 || month == 8
        || month == 10 || month == 12 {
        31
    } else if month == 4 || month == 6 || month == 9 || month == 11 {
        30
    } else if month == 2 {
        if leap {
            29
        } else {
            28
        }
    } else {
        0
    };
    if day == 0 || day > max_day {
        return Err(configuration("catalog date is not a valid calendar day"));
    }
    Ok(())
}

/// Mathematical form of a [`CatalogSource`].
pub struct CatalogSourceView {
    pub id: Seq<char>,
    pub reviewed_at: Seq<char>,
    pub expires_at: Option<Seq<char>>,
}

/// Source metadata attached to catalog facts.
#[derive(Debug)]
pub struct CatalogSource {
    id: CatalogSourceId,
    reviewed_at: String,
    expires_at: Option<String>,
}

/// The view of an optional owned text.
pub open spec fn opt_text(text: Option<String>) -> Option<Seq<char>> {
    match text {
        Some(t) => Some(t@),
        None => None,
    }
}

/// The view of an optional borrowed text.
pub open spec fn opt_str(text: Option<&str>) -> Option<Seq<char>> {
    match text {
        Some(t) => Some(t@),
        None => None,
    }
}

/// Both dates of a source are calendar dates and the expiry does not precede the review.
pub open spec fn source_dates_valid(v: CatalogSourceView) -> bool {
    &&& date_rejection(v.reviewed_at) is None
    &&& match v.expires_at {
        Some(e) => date_rejection(e) is None && !seq_lt(e, v.reviewed_at),
        None => true,
    }
}

impl View for CatalogSource {
    type V = CatalogSourceView;

    closed spec fn view(&self) -> CatalogSourceView {
        CatalogSourceView {
            id: self.id@,
            reviewed_at: self.reviewed_at@,
            expires_at: opt_text(self.expires_at),
        }
    }
}

impl CatalogSource {
    #[verifier::type_invariant]
    spec fn dates_valid(self) -> bool {
        source_dates_valid(self@)
    }
}

impl Clone for CatalogSource {
    fn clone(&self) -> (r: Self)
        ensures
            r@ == self@,
    {
        proof {
            use_type_invariant(self);
        }
        CatalogSource {
            id: self.id.clone(),
            reviewed_at: self.reviewed_at.clone(),
            expires_at: match &self.expires_at {
                Some(e) => Some(e.clone()),
                None => None,
            },
        }
    }
}

/// What creating a source from `id`, `reviewed_at` and `expires_at` answers.
pub open spec fn source_result(
    id: Seq<char>,
    reviewed_at: Seq<char>,
    expires_at: Option<Seq<char>>,
    r: Result<CatalogSource, LlmError>,
) -> bool {
    match date_rejection(reviewed_at) {
        Some(message) => r matches Err(e) && is_configuration(e, message),
        None => match expires_at {
            Some(expiry) => match date_rejection(expiry) {
                Some(message) => r matches Err(e) && is_configuration(e, message),
                None => if seq_lt(expiry, reviewed_at) {
                    r matches Err(e) && is_configuration(
                        e,
                        "catalog expiry precedes review date"@,
                    )
                } else {
                    r matches Ok(s) && s@ == (CatalogSourceView { id, reviewed_at, expires_at })
                },
            },
            None => r matches Ok(s) && s@ == (CatalogSourceView { id, reviewed_at, expires_at }),
        },
    }
}

/// The source's expiry is strictly before `today`.
pub open spec fn stale_on(v: CatalogSourceView, today: Seq<char>) -> bool {
    match v.expires_at {
        Some(expiry) => seq_lt(expiry, today),
        None => false,
    }
}

impl CatalogSource {
    /// Creates source metadata using ISO-8601 calendar dates.
    pub fn new(id: CatalogSourceId, reviewed_at: &str, expires_at: Option<&str>) -> (r: Result<
        Self,
        LlmError,
    >)
        ensures
            source_result(id@, reviewed_at@, opt_str(expires_at), r),
    {
        validate_date(reviewed_at)?;
        let expires = match expires_at {
            Some(date) => {
                validate_date(date)?;
                if str_lt(date, reviewed_at) {
                    return Err(configuration("catalog expiry precedes review date"));
                }
                Some(owned(date))
            },
            None => None,
        };
        Ok(CatalogSource { id, reviewed_at: owned(reviewed_at), expires_at: expires })
    }

    /// Returns source ID.
    pub fn id(&self) -> (r: &CatalogSourceId)
        ensures
            r@ == self@.id,
    {
        &self.id
    }

    /// Returns review date.
    pub fn reviewed_at(&self) -> (r: &str)
        ensures
            r@ == self@.reviewed_at,
            source_dates_valid(self@),
    {
        proof {
            use_type_invariant(self);
        }
        self.reviewed_at.as_str()
    }

    /// Returns expiry date.
    pub fn expires_at(&self) -> (r: Option<&str>)
        ensures
            opt_str(r) == self@.expires_at,
            source_dates_valid(self@),
    {
        proof {
            use_type_invariant(self);
        }
        match &self.expires_at {
            Some(e) => Some(e.as_str()),
            None => None,
        }
    }

    /// Reports whether the source is stale at a calendar date.
    pub fn is_stale_on(&self, today: &str) -> (r: Result<bool, LlmError>)
        ensures
            date_checked(today@, r),
            r matches Ok(b) ==> b == stale_on(self@, today@),
    {
        validate_date(today)?;
        match &self.expires_at {
            Some(expiry) => Ok(str_lt(expiry.as_str(), today)),
            None => Ok(false),
        }
    }
}

/// A source is not stale on its own review date, and once stale it stays stale on every
/// later date.
pub proof fn lemma_staleness_is_monotone(
    source: CatalogSourceView,
    earlier: Seq<char>,
    later: Seq<char>,
)
    requires
        source_dates_valid(source),
    ensures
        !stale_on(source, source.reviewed_at),
        stale_on(source, earlier) && !seq_lt(later, earlier) ==> stale_on(source, later),
{
    if let Some(expiry) = source.expires_at {
        if seq_lt(expiry, earlier) && !seq_lt(later, earlier) {
            lemma_seq_lt_total(later, earlier);
            if later != earlier {
                lemma_seq_lt_transitive(expiry, earlier, later);
            }
        }
    }
}

} // verus!
