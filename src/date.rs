//! Normalization of user-supplied calendar dates to ISO form.
use vstd::prelude::*;

verus! {

/// The ISO text (`YYYY-MM-DD`) of the calendar date that `s` denotes when
/// read with the strftime-style format `fmt`; `None` when `s` does not
/// follow `fmt` or names no valid date.
pub uninterp spec fn parsed_iso_date(s: Seq<char>, fmt: Seq<char>) -> Option<Seq<char>>;

/// Relies on `chrono::NaiveDate::parse_from_str` to read `s` with `fmt`,
/// and on `NaiveDate`'s `Display` for the ISO text of the date read.
#[verifier::external_body]
fn parse_iso_date(s: &str, fmt: &str) -> (r: Option<String>)
    ensures
        r matches Some(d) ==> parsed_iso_date(s@, fmt@) == Some(d@),
        r is None ==> parsed_iso_date(s@, fmt@) is None,
{
    chrono::NaiveDate::parse_from_str(s, fmt).ok().map(|d| d.to_string())
}

/// The number of accepted textual date formats.
pub const DATE_FORMAT_COUNT: usize = 5;

/// The accepted date formats, tried in this order: day/month/year,
/// ISO date, ISO timestamp in UTC, month/day/year, day-month-year.
pub open spec fn date_format(i: int) -> Seq<char> {
    if i == 0 {
        "%d/%m/%Y"@
    } else if i == 1 {
        "%Y-%m-%d"@
    } else if i == 2 {
        "%Y-%m-%dT%H:%M:%SZ"@
    } else if i == 3 {
        "%m/%d/%Y"@
    } else {
        "%d-%m-%Y"@
    }
}

fn date_format_at(i: usize) -> (r: &'static str)
    requires
        i < DATE_FORMAT_COUNT,
    ensures
        r@ == date_format(i as int),
{
    if i == 0 {
        "%d/%m/%Y"
    } else if i == 1 {
        "%Y-%m-%d"
    } else if i == 2 {
        "%Y-%m-%dT%H:%M:%SZ"
    } else if i == 3 {
        "%m/%d/%Y"
    } else {
        "%d-%m-%Y"
    }
}

/// The first present entry of `cs` from index `i` on.
pub open spec fn first_present(cs: Seq<Option<Seq<char>>>, i: int) -> Option<Seq<char>>
    decreases cs.len() - i,
{
    if i < 0 || i >= cs.len() {
        None
    } else if cs[i] is Some {
        cs[i]
    } else {
        first_present(cs, i + 1)
    }
}

/// The readings of `s` under each accepted format, in order.
pub open spec fn date_readings(s: Seq<char>) -> Seq<Option<Seq<char>>> {
    Seq::new(DATE_FORMAT_COUNT as nat, |i: int| parsed_iso_date(s, date_format(i)))
}

/// The ISO date that `s` denotes under the first accepted format that
/// reads it.
pub open spec fn normalized_date(s: Seq<char>) -> Option<Seq<char>> {
    first_present(date_readings(s), 0)
}

/// Why a date could not be normalized.
#[derive(Debug, PartialEq, Eq, Structural)]
pub enum DateError {
    /// No accepted format reads the text as a date.
    Unsupported,
}

pub open spec fn opt_view(o: Option<String>) -> Option<Seq<char>> {
    match o {
        Some(s) => Some(s@),
        None => None,
    }
}

/// The first reading that succeeded, or `Unsupported` when none did.
pub fn first_reading(readings: Vec<Option<String>>) -> (r: Result<String, DateError>)
    ensures
        r matches Ok(d) ==> first_present(readings@.map_values(|o: Option<String>| opt_view(o)), 0)
            == Some(d@),
        r is Err <==> first_present(readings@.map_values(|o: Option<String>| opt_view(o)), 0) is None,
{
    let ghost views = readings@.map_values(|o: Option<String>| opt_view(o));
    let ghost n = views.len();
    // Reading the length records that it fits in a `usize`.
    let _len: usize = readings.len();
    let mut pending = readings;
    let mut found: Option<String> = None;
    let mut i: usize = 0;
    // Taken from the front, so that `pending` holds the readings from `i` on.
    while pending.len() > 0 && found.is_none()
        invariant
            n <= usize::MAX,
            views.len() == n,
            i <= n,
            found is None ==> i + pending@.len() == n,
            found is None ==> forall|k: int|
                0 <= k < pending@.len() ==> #[trigger] opt_view(pending@[k]) == views[i + k],
            found is None ==> first_present(views, 0) == first_present(views, i as int),
            found matches Some(d) ==> first_present(views, 0) == Some(d@),
        decreases pending@.len(),
    {
        let ghost before = pending@;
        let c = pending.remove(0);
        assert(opt_view(c) == views[i as int]) by {
            assert(opt_view(before[0]) == views[i + 0]);
        }
        assert forall|k: int| 0 <= k < pending@.len() implies #[trigger] opt_view(pending@[k]) == views[i + 1 + k] by {
            assert(pending@[k] == before[k + 1]);
            assert(opt_view(before[k + 1]) == views[i + (k + 1)]);
        }
        match c {
            Some(d) => {
                found = Some(d);
            },
            None => {
                i = i + 1;
            },
        }
    }
    match found {
        Some(d) => Ok(d),
        None => Err(DateError::Unsupported),
    }
}

/// The ISO date (`YYYY-MM-DD`) that `s` denotes under the first accepted
/// format that reads it; `Unsupported` when no accepted format does.
pub fn normalize_date(s: &str) -> (r: Result<String, DateError>)
    ensures
        r matches Ok(d) ==> normalized_date(s@) == Some(d@),
        r is Err <==> normalized_date(s@) is None,
{
    let mut readings: Vec<Option<String>> = Vec::new();
    let mut i: usize = 0;
    while i < DATE_FORMAT_COUNT
        invariant
            i <= DATE_FORMAT_COUNT,
            readings@.len() == i,
            forall|k: int| 0 <= k < i ==> #[trigger] opt_view(readings@[k]) == date_readings(s@)[k],
        decreases DATE_FORMAT_COUNT - i,
    {
        readings.push(parse_iso_date(s, date_format_at(i)));
        i = i + 1;
    }
    assert(readings@.map_values(|o: Option<String>| opt_view(o)) =~= date_readings(s@));
    first_reading(readings)
}

} // verus!
