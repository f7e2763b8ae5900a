use chrono::Datelike;
use vstd::prelude::*;

verus! {

/// A calendar date as year, month and day, ordered chronologically.
#[derive(Clone, Copy, Debug, PartialEq, Eq, Structural)]
pub struct CivilDate {
    pub year: i32,
    pub month: u32,
    pub day: u32,
}

#[verifier::external_type_specification]
#[verifier::external_body]
pub struct ExParseError(chrono::ParseError);

/// The date that chrono reads from `s` in the `%Y-%m-%d` format, if any.
pub uninterp spec fn iso_date_of(s: Seq<char>) -> Option<CivilDate>;

/// Relies on chrono's `NaiveDate::parse_from_str` with the format `%Y-%m-%d`,
/// and on `Datelike::{year, month, day}` of the date it returns.
#[verifier::external_body]
fn parse_iso_date(s: &str) -> (r: Result<CivilDate, chrono::ParseError>)
    ensures
        r is Ok <==> iso_date_of(s@) is Some,
        r matches Ok(d) ==> iso_date_of(s@) == Some(d),
{
    match chrono::NaiveDate::parse_from_str(s, "%Y-%m-%d") {
        Ok(d) => Ok(CivilDate { year: d.year(), month: d.month(), day: d.day() }),
        Err(e) => Err(e),
    }
}

impl CivilDate {
    /// `self` falls strictly before `other`.
    pub open spec fn before(self, other: CivilDate) -> bool {
        self.year < other.year || (self.year == other.year && (self.month < other.month || (
        self.month == other.month && self.day < other.day)))
    }

    pub open spec fn order(self, other: CivilDate) -> core::cmp::Ordering {
        if self.before(other) {
            core::cmp::Ordering::Less
        } else if self == other {
            core::cmp::Ordering::Equal
        } else {
            core::cmp::Ordering::Greater
        }
    }

    pub fn is_before(&self, other: &CivilDate) -> (r: bool)
        ensures
            r == self.before(*other),
    {
        self.year < other.year || (self.year == other.year && (self.month < other.month || (
        self.month == other.month && self.day < other.day)))
    }

    /// Chronological comparison of two dates.
    pub fn compare(&self, other: &CivilDate) -> (r: core::cmp::Ordering)
        ensures
            r == self.order(*other),
    {
        if self.is_before(other) {
            core::cmp::Ordering::Less
        } else if self.year == other.year && self.month == other.month && self.day == other.day {
            core::cmp::Ordering::Equal
        } else {
            core::cmp::Ordering::Greater
        }
    }

    /// Reads a date written as `YYYY-MM-DD`; an unreadable date is a data error.
    pub fn parse(s: &str) -> (r: Result<CivilDate, crate::error::QuotaError>)
        ensures
            match iso_date_of(s@) {
                Some(d) => r == Ok::<CivilDate, crate::error::QuotaError>(d),
                None => r == Err::<CivilDate, crate::error::QuotaError>(
                    crate::error::QuotaError::DataIntegrity,
                ),
            },
    {
        match parse_iso_date(s) {
            Ok(d) => Ok(d),
            Err(_) => Err(crate::error::QuotaError::DataIntegrity),
        }
    }
}

/// Compares two dates written as `YYYY-MM-DD`; fails when either is unreadable.
pub fn compare_dates(date1: &str, date2: &str) -> (r: Result<core::cmp::Ordering, crate::error::QuotaError>)
    ensures
        match (iso_date_of(date1@), iso_date_of(date2@)) {
            (Some(a), Some(b)) => r == Ok::<core::cmp::Ordering, crate::error::QuotaError>(a.order(b)),
            _ => r == Err::<core::cmp::Ordering, crate::error::QuotaError>(
                crate::error::QuotaError::DataIntegrity,
            ),
        },
{
    let a = CivilDate::parse(date1)?;
    let b = CivilDate::parse(date2)?;
    Ok(a.compare(&b))
}

} // verus!
