use crate::types::ConfigurationError;
use chrono::{DateTime, Datelike, LocalResult, TimeZone, Utc};
use chrono_tz::Tz;
use vstd::prelude::*;

verus! {

/// A point in time: whole seconds since 1970-01-01T00:00:00 UTC, leap
/// seconds not counted, and the nanoseconds since that second began.
#[derive(Clone, Copy, Debug, PartialEq, Eq, Structural)]
pub struct Instant {
    pub secs: i64,
    pub nanos: u32,
}

/// The points in time that a wall-clock time of a zone stands for.
#[derive(Clone, Copy, Debug, PartialEq, Eq, Structural)]
pub enum LocalInstant {
    /// The wall-clock time does not occur: the date does not exist, or the
    /// clocks of the zone skip the time.
    Never,
    /// The wall-clock time occurs once, at this second.
    Once(i64),
    /// The clocks of the zone are set back over the wall-clock time, so that
    /// it occurs at these two seconds.
    Twice(i64, i64),
}

/// The first second that can be converted into a calendar date.
pub const FIRST_SECOND: i64 = -8_334_601_228_800;

/// The last second that can be converted into a calendar date.
pub const LAST_SECOND: i64 = 8_210_266_876_799;

/// The least year that a calendar date can carry.
pub const FIRST_YEAR: i32 = -262_144;

/// The greatest year that a calendar date can carry.
pub const LAST_YEAR: i32 = 262_143;

/// The second can be converted into a calendar date.
pub open spec fn has_date(secs: int) -> bool {
    FIRST_SECOND <= secs <= LAST_SECOND
}

/// Whether the IANA time zone database, as `chrono_tz` holds it, has a zone
/// of this name.
pub uninterp spec fn zone_known(name: Seq<char>) -> bool;

/// The points in time at which the clocks of the zone show the given date and
/// time of day, by the rules of the IANA time zone database.
pub uninterp spec fn instant_of_local(
    zone: Seq<char>,
    year: int,
    month: int,
    day: int,
    hour: int,
    minute: int,
    second: int,
) -> LocalInstant;

/// The calendar year that the clocks of the zone show at the given second.
pub uninterp spec fn year_in_zone(zone: Seq<char>, secs: int) -> int;

/// `str::parse::<chrono_tz::Tz>`: whether the name is that of a zone. The
/// lookup is by the exact name, in a table that is compiled in.
#[verifier::external_body]
fn zone_exists(name: &str) -> (known: bool)
    ensures
        known == zone_known(name@),
{
    name.parse::<Tz>().is_ok()
}

/// `chrono::TimeZone::with_ymd_and_hms` on a `chrono_tz::Tz`: the seconds at
/// which the zone shows the given wall-clock time. It gives no point in time
/// for a date or time of day that does not exist, and never panics.
#[verifier::external_body]
fn local_instant(
    zone: &str,
    year: i32,
    month: u32,
    day: u32,
    hour: u32,
    minute: u32,
    second: u32,
) -> (at: LocalInstant)
    requires
        zone_known(zone@),
    ensures
        at == instant_of_local(
            zone@,
            year as int,
            month as int,
            day as int,
            hour as int,
            minute as int,
            second as int,
        ),
{
    let tz: Tz = zone.parse().unwrap();
    match tz.with_ymd_and_hms(year, month, day, hour, minute, second) {
        LocalResult::None => LocalInstant::Never,
        LocalResult::Single(at) => LocalInstant::Once(at.timestamp()),
        LocalResult::Ambiguous(first, second) => LocalInstant::Twice(
            first.timestamp(),
            second.timestamp(),
        ),
    }
}

/// `chrono::TimeZone::from_utc_datetime` on a `chrono_tz::Tz`, and the year
/// of what it gives: the calendar year in the zone at the given second. The
/// year of a `chrono` date lies between `FIRST_YEAR` and `LAST_YEAR`.
#[verifier::external_body]
fn zone_year(zone: &str, secs: i64) -> (year: i32)
    requires
        zone_known(zone@),
        has_date(secs as int),
    ensures
        year == year_in_zone(zone@, secs as int),
        FIRST_YEAR <= year <= LAST_YEAR,
{
    let tz: Tz = zone.parse().unwrap();
    let utc = DateTime::from_timestamp(secs, 0).unwrap();
    tz.from_utc_datetime(&utc.naive_utc()).year()
}

/// `chrono::Utc::now`: the time of the system clock. Every time that
/// `chrono` holds can be converted into a calendar date, and has less than
/// two thousand million nanoseconds. It panics where the system clock
/// stands before 1970.
#[verifier::external_body]
fn utc_now() -> (now: Instant)
    ensures
        has_date(now.secs as int),
        now.nanos < 2_000_000_000,
{
    let now = Utc::now();
    Instant { secs: now.timestamp(), nanos: now.timestamp_subsec_nanos() }
}

/// A time zone of the IANA time zone database, held by its name.
pub struct Timezone {
    name: String,
}

impl View for Timezone {
    type V = Seq<char>;

    closed spec fn view(&self) -> Seq<char> {
        self.name@
    }
}

impl Timezone {
    #[verifier::type_invariant]
    spec fn names_a_zone(self) -> bool {
        zone_known(self.name@)
    }

    /// The name of the zone, such as `Europe/London`.
    pub fn name(&self) -> (name: &str)
        ensures
            name@ == self@,
            zone_known(self@),
    {
        proof {
            use_type_invariant(self);
        }
        self.name.as_str()
    }
}

impl Clone for Timezone {
    fn clone(&self) -> (copy: Self)
        ensures
            copy@ == self@,
    {
        proof {
            use_type_invariant(self);
        }
        Timezone { name: self.name.clone() }
    }
}

/// The zone of the given name. A name that the time zone database does not
/// hold is refused: no other zone is put in its place.
pub fn timezone_from_string(timezone: &str) -> (result: Result<Timezone, ConfigurationError>)
    ensures
        zone_known(timezone@) ==> result is Ok && result->Ok_0@ == timezone@,
        !zone_known(timezone@) ==> result == Err::<Timezone, ConfigurationError>(
            ConfigurationError::UnknownTimezone,
        ),
{
    if zone_exists(timezone) {
        Ok(Timezone { name: timezone.to_owned() })
    } else {
        Err(ConfigurationError::UnknownTimezone)
    }
}

/// The time of the system clock.
pub fn now() -> (now: Instant)
    ensures
        has_date(now.secs as int),
{
    utc_now()
}

/// The second that ends the given day in the zone: the one at which its
/// clocks show 23:59:59.
pub open spec fn deadline_spec(
    zone: Seq<char>,
    year: int,
    month: int,
    day: int,
) -> Result<i64, ConfigurationError> {
    match instant_of_local(zone, year, month, day, 23, 59, 59) {
        LocalInstant::Once(at) => Ok(at),
        LocalInstant::Never => Err(ConfigurationError::NoSuchDeadline),
        LocalInstant::Twice(_, _) => Err(ConfigurationError::AmbiguousDeadline),
    }
}

/// The instant lies strictly after the beginning of the given second.
pub open spec fn after(now: Instant, secs: int) -> bool {
    now.secs > secs || (now.secs == secs && now.nanos > 0)
}

/// Whether, at `now`, the given day of the zone has ended: whether `now`
/// lies strictly after 23:59:59 of that day.
pub open spec fn past_deadline(
    now: Instant,
    zone: Seq<char>,
    year: int,
    month: int,
    day: int,
) -> Result<bool, ConfigurationError> {
    match deadline_spec(zone, year, month, day) {
        Ok(at) => Ok(after(now, at as int)),
        Err(e) => Err(e),
    }
}

/// The second at which the clocks of the zone show 23:59:59 on the given
/// day. A day on which they never do, or do so twice, is a fault of the
/// configuration.
pub fn deadline(
    year: i32,
    timezone: &Timezone,
    month: u32,
    day: u32,
) -> (result: Result<i64, ConfigurationError>)
    ensures
        result == deadline_spec(timezone@, year as int, month as int, day as int),
{
    match local_instant(timezone.name(), year, month, day, 23, 59, 59) {
        LocalInstant::Once(at) => Ok(at),
        LocalInstant::Never => Err(ConfigurationError::NoSuchDeadline),
        LocalInstant::Twice(_, _) => Err(ConfigurationError::AmbiguousDeadline),
    }
}

/// Whether `now` lies strictly after the beginning of the second `deadline`.
pub fn is_after(now: Instant, deadline: i64) -> (past: bool)
    ensures
        past == after(now, deadline as int),
{
    now.secs > deadline || (now.secs == deadline && now.nanos > 0)
}

/// Whether, at `now`, the membership year that ends on the given day of
/// `year` is over.
pub fn is_past_expiry_at(
    now: Instant,
    year: i32,
    timezone: &Timezone,
    month: u32,
    day: u32,
) -> (result: Result<bool, ConfigurationError>)
    ensures
        result == past_deadline(now, timezone@, year as int, month as int, day as int),
{
    match deadline(year, timezone, month, day) {
        Ok(at) => Ok(is_after(now, at)),
        Err(e) => Err(e),
    }
}

/// Whether the membership year that ends on the given day of `year` is over
/// by the system clock.
pub fn is_past_expiry(
    year: i32,
    timezone: &Timezone,
    month: u32,
    day: u32,
) -> (result: Result<bool, ConfigurationError>)
    ensures
        exists|now: Instant| #[trigger]
            has_date(now.secs as int) && result == past_deadline(
                now,
                timezone@,
                year as int,
                month as int,
                day as int,
            ),
{
    let now = now();
    assert(has_date(now.secs as int));
    is_past_expiry_at(now, year, timezone, month, day)
}

/// The calendar year in the zone at `now`.
pub fn current_year_at(now: Instant, timezone: &Timezone) -> (year: i32)
    requires
        has_date(now.secs as int),
    ensures
        year == year_in_zone(timezone@, now.secs as int),
        FIRST_YEAR <= year <= LAST_YEAR,
{
    zone_year(timezone.name(), now.secs)
}

/// The calendar year in the zone by the system clock.
pub fn current_year(timezone: &Timezone) -> (year: i32)
    ensures
        FIRST_YEAR <= year <= LAST_YEAR,
        exists|now: Instant| #[trigger] has_date(now.secs as int) && year == year_in_zone(timezone@, now.secs as int),
{
    let now = now();
    assert(has_date(now.secs as int));
    current_year_at(now, timezone)
}

/// Whether, at `now`, the membership year that ends in the calendar year of
/// `now` is over.
pub fn is_past_expiry_this_year_at(
    now: Instant,
    timezone: &Timezone,
    month: u32,
    day: u32,
) -> (result: Result<bool, ConfigurationError>)
    requires
        has_date(now.secs as int),
    ensures
        result == past_deadline(
            now,
            timezone@,
            year_in_zone(timezone@, now.secs as int),
            month as int,
            day as int,
        ),
{
    is_past_expiry_at(now, current_year_at(now, timezone), timezone, month, day)
}

/// Whether the membership year that ends in the current calendar year is
/// over by the system clock.
pub fn is_past_expiry_this_year(
    timezone: &Timezone,
    month: u32,
    day: u32,
) -> (result: Result<bool, ConfigurationError>)
    ensures
        exists|now: Instant| #[trigger]
            has_date(now.secs as int) && result == past_deadline(
                now,
                timezone@,
                year_in_zone(timezone@, now.secs as int),
                month as int,
                day as int,
            ),
{
    let now = now();
    assert(has_date(now.secs as int));
    is_past_expiry_this_year_at(now, timezone, month, day)
}

/// Whether, at `now`, the time to renew a membership that lapsed in
/// `exp_year` is over: whether `now` lies strictly after 23:59:59 of the
/// renewal day of that year.
pub fn is_past_renewal_at(
    now: Instant,
    exp_year: i32,
    timezone: &Timezone,
    month: u32,
    day: u32,
) -> (result: Result<bool, ConfigurationError>)
    ensures
        result == past_deadline(now, timezone@, exp_year as int, month as int, day as int),
{
    is_past_expiry_at(now, exp_year, timezone, month, day)
}

/// Whether the time to renew a membership that lapsed in `exp_year` is over
/// by the system clock.
pub fn is_past_renewal(
    exp_year: i32,
    timezone: &Timezone,
    month: u32,
    day: u32,
) -> (result: Result<bool, ConfigurationError>)
    ensures
        exists|now: Instant| #[trigger]
            has_date(now.secs as int) && result == past_deadline(
                now,
                timezone@,
                exp_year as int,
                month as int,
                day as int,
            ),
{
    let now = now();
    assert(has_date(now.secs as int));
    is_past_renewal_at(now, exp_year, timezone, month, day)
}

/// One instant is not later than another.
pub open spec fn not_later(earlier: Instant, later: Instant) -> bool {
    earlier.secs < later.secs || (earlier.secs == later.secs && earlier.nanos <= later.nanos)
}

/// A deadline that has passed stays passed: what is past at one instant is
/// past at every later one, in every zone and for every day.
pub proof fn lemma_once_past_always_past(
    earlier: Instant,
    later: Instant,
    zone: Seq<char>,
    year: int,
    month: int,
    day: int,
)
    requires
        not_later(earlier, later),
        past_deadline(earlier, zone, year, month, day) == Ok::<bool, ConfigurationError>(true),
    ensures
        past_deadline(later, zone, year, month, day) == Ok::<bool, ConfigurationError>(true),
{
}

/// The last second of the day still belongs to it: at 23:59:59 sharp the
/// deadline is not past, and from the next nanosecond on it is.
pub proof fn lemma_deadline_is_the_last_moment(
    now: Instant,
    zone: Seq<char>,
    year: int,
    month: int,
    day: int,
)
    requires
        deadline_spec(zone, year, month, day) is Ok,
    ensures
        past_deadline(now, zone, year, month, day) == Ok::<bool, ConfigurationError>(
            !not_later(now, Instant { secs: deadline_spec(zone, year, month, day)->Ok_0, nanos: 0 }),
        ),
{
}

} // verus!
