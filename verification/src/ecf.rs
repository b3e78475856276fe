use crate::org;
use crate::org::{has_date, past_deadline, year_in_zone, zone_known, Instant, Timezone};
use crate::types::ConfigurationError;
use vstd::prelude::*;

verus! {

/// The month in which a membership of the federation lapses.
pub const EXPIRY_MONTH: u32 = 8;

/// The day of `EXPIRY_MONTH` on which a membership lapses.
pub const EXPIRY_DAY: u32 = 31;

/// The month in which the time to renew a lapsed membership ends.
pub const RENEWAL_MONTH: u32 = 9;

/// The day of `RENEWAL_MONTH` on which the time to renew ends.
pub const RENEWAL_DAY: u32 = 14;

/// The name of the zone by which the federation counts its days.
pub open spec fn london_spec() -> Seq<char> {
    "Europe/London"@
}

/// Whether, at `now`, the given day of `year` has ended in London.
pub open spec fn past_in_london(
    now: Instant,
    year: int,
    month: int,
    day: int,
) -> Result<bool, ConfigurationError> {
    if zone_known(london_spec()) {
        past_deadline(now, london_spec(), year, month, day)
    } else {
        Err(ConfigurationError::UnknownTimezone)
    }
}

/// The calendar year in London at `now`.
pub open spec fn year_in_london(now: Instant) -> Result<i32, ConfigurationError> {
    if zone_known(london_spec()) {
        Ok(year_in_zone(london_spec(), now.secs as int) as i32)
    } else {
        Err(ConfigurationError::UnknownTimezone)
    }
}

/// The zone of London.
pub fn london() -> (result: Result<Timezone, ConfigurationError>)
    ensures
        zone_known(london_spec()) ==> result is Ok && result->Ok_0@ == london_spec(),
        !zone_known(london_spec()) ==> result == Err::<Timezone, ConfigurationError>(
            ConfigurationError::UnknownTimezone,
        ),
{
    org::timezone_from_string("Europe/London")
}

/// Whether the membership year that ends on 31 August of `year` is over.
pub fn is_past_expiry(year: i32) -> (result: Result<bool, ConfigurationError>)
    ensures
        exists|now: Instant| #[trigger]
            has_date(now.secs as int) && result == past_in_london(
                now,
                year as int,
                EXPIRY_MONTH as int,
                EXPIRY_DAY as int,
            ),
{
    let now = org::now();
    assert(has_date(now.secs as int));
    match london() {
        Ok(zone) => org::is_past_expiry_at(now, year, &zone, EXPIRY_MONTH, EXPIRY_DAY),
        Err(e) => Err(e),
    }
}

/// The calendar year in London.
pub fn current_london_year() -> (result: Result<i32, ConfigurationError>)
    ensures
        exists|now: Instant| #[trigger] has_date(now.secs as int) && result == year_in_london(now),
{
    let now = org::now();
    assert(has_date(now.secs as int));
    match london() {
        Ok(zone) => Ok(org::current_year_at(now, &zone)),
        Err(e) => Err(e),
    }
}

/// Whether the membership year that ends on 31 August of the current year
/// is over.
pub fn is_past_expiry_this_year() -> (result: Result<bool, ConfigurationError>)
    ensures
        exists|now: Instant| #[trigger]
            has_date(now.secs as int) && result == past_in_london(
                now,
                year_in_zone(london_spec(), now.secs as int),
                EXPIRY_MONTH as int,
                EXPIRY_DAY as int,
            ),
{
    let now = org::now();
    assert(has_date(now.secs as int));
    match london() {
        Ok(zone) => org::is_past_expiry_this_year_at(now, &zone, EXPIRY_MONTH, EXPIRY_DAY),
        Err(e) => Err(e),
    }
}

/// Whether the time to renew a membership that lapsed in `exp_year` is
/// over: whether 14 September of that year has ended.
pub fn is_past_renewal(exp_year: i32) -> (result: Result<bool, ConfigurationError>)
    ensures
        exists|now: Instant| #[trigger]
            has_date(now.secs as int) && result == past_in_london(
                now,
                exp_year as int,
                RENEWAL_MONTH as int,
                RENEWAL_DAY as int,
            ),
{
    let now = org::now();
    assert(has_date(now.secs as int));
    match london() {
        Ok(zone) => org::is_past_renewal_at(now, exp_year, &zone, RENEWAL_MONTH, RENEWAL_DAY),
        Err(e) => Err(e),
    }
}

} // verus!
