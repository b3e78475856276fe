use crate::db::{expiring_by, rows_of, MemberRow, Membership, OrgDbClient};
use crate::org;
use crate::org::{has_date, past_deadline, year_in_zone, Instant, Timezone};
use crate::types::{ConfigurationError, StoreError};
use vstd::prelude::*;

verus! {

/// The year up to which lapsed memberships are reclaimed: the current year
/// once the time to renew in it has passed, the year before until then.
pub open spec fn cutoff_year_spec(current_year: int, past_renewal: bool) -> int {
    if past_renewal {
        current_year
    } else {
        current_year - 1
    }
}

/// The year up to which lapsed memberships are reclaimed.
pub fn cutoff_year(current_year: i32, past_renewal: bool) -> (year: i32)
    requires
        current_year > i32::MIN,
    ensures
        year == cutoff_year_spec(current_year as int, past_renewal),
{
    if past_renewal {
        current_year
    } else {
        current_year - 1
    }
}

/// The pauses of the watch.
#[derive(Clone, Copy, Debug, PartialEq, Eq, Structural)]
pub struct WatchSettings {
    /// The pause after each member, in milliseconds, so that Lichess is not
    /// asked too often.
    pub delay_ms: u64,
    /// The pause between two rounds, in seconds.
    pub interval_seconds: u64,
}

/// What is being done for the member whose turn it is.
#[derive(Clone, Copy, Debug, PartialEq, Eq, Structural)]
pub enum Stage {
    /// Lichess has been asked to take the member out of the team.
    Kick,
    /// The store has been asked to delete the membership.
    Remove,
    /// The outcome is being recorded, and the pause after it kept.
    Rest,
}

/// The log in which a line is recorded.
#[derive(Clone, Copy, Debug, PartialEq, Eq, Structural)]
pub enum Log {
    /// `kick.log`: the members that were taken out.
    Kick,
    /// `kick.error.log`: the members that could not be taken out.
    KickError,
    /// `expiry.error.log`: the rounds that could not be made.
    ExpiryError,
}

/// The name of the file of a log.
pub open spec fn file_name_spec(log: Log) -> Seq<char> {
    match log {
        Log::Kick => "kick.log"@,
        Log::KickError => "kick.error.log"@,
        Log::ExpiryError => "expiry.error.log"@,
    }
}

impl Log {
    /// The name of the file of the log.
    pub fn file_name(&self) -> (name: &'static str)
        ensures
            name@ == file_name_spec(*self),
    {
        match self {
            Log::Kick => "kick.log",
            Log::KickError => "kick.error.log",
            Log::ExpiryError => "expiry.error.log",
        }
    }
}

/// Where the watch over lapsed memberships stands.
#[derive(Debug, PartialEq, Eq)]
pub enum Watch {
    /// Between two rounds.
    Idle,
    /// The store has been asked for the memberships that lapsed in `year` or
    /// earlier.
    Querying { year: i32 },
    /// The member at place `at` of `queue` is being dealt with.
    Processing { queue: Vec<Membership>, at: usize, stage: Stage },
    /// A round that could not be made is being recorded.
    Closing,
}

/// What the watch is told.
#[derive(Debug, PartialEq, Eq)]
pub enum WatchEvent {
    /// A round is due. It is `current_year` in the zone of the organisation,
    /// and the time to renew in that year is over or not.
    Tick { current_year: i32, past_renewal: bool },
    /// A round is due, and the calendar could not be read.
    Misconfigured(ConfigurationError),
    /// The store has answered a `Query`.
    Listed(Result<Vec<Membership>, StoreError>),
    /// Lichess has answered a `Kick`: whether it confirmed it.
    Kicked(bool),
    /// The store has answered a `Remove`.
    Removed(Result<u64, StoreError>),
    /// A `Report` has been recorded and its pause kept.
    Reported,
}

/// What the watch asks for.
#[derive(Debug, PartialEq, Eq)]
pub enum WatchAction {
    /// Nothing: the event was not the one that the watch waits for.
    Stay,
    /// Wait for `seconds`, then say `Tick`.
    Sleep { seconds: u64 },
    /// Ask the store for the memberships that lapse in `year` or earlier,
    /// then say `Listed`.
    Query { year: i32 },
    /// Ask Lichess to take the account out of the team, then say `Kicked`.
    Kick { lichess_id: String },
    /// Ask the store to delete the membership, then say `Removed`.
    Remove { org_id: String },
    /// Append `line` to `log`, print `notice`, wait for `pause_ms`, then say
    /// `Reported`.
    Report { log: Log, line: String, notice: String, pause_ms: u64 },
}

/// What a `Watch` says.
pub enum WatchView {
    Idle,
    Querying { year: int },
    Processing { queue: Seq<MemberRow>, at: int, stage: Stage },
    Closing,
}

/// What a `WatchEvent` says.
pub enum WatchEventView {
    Tick { current_year: int, past_renewal: bool },
    Misconfigured(ConfigurationError),
    Listed(Result<Seq<MemberRow>, StoreError>),
    Kicked(bool),
    Removed(Result<u64, StoreError>),
    Reported,
}

/// What a `WatchAction` says.
pub enum WatchActionView {
    Stay,
    Sleep { seconds: u64 },
    Query { year: int },
    Kick { lichess_id: Seq<char> },
    Remove { org_id: Seq<char> },
    Report { log: Log, line: Seq<char>, notice: Seq<char>, pause_ms: u64 },
}

impl View for Watch {
    type V = WatchView;

    open spec fn view(&self) -> WatchView {
        match *self {
            Watch::Idle => WatchView::Idle,
            Watch::Querying { year } => WatchView::Querying { year: year as int },
            Watch::Processing { queue, at, stage } => WatchView::Processing {
                queue: rows_of(queue@),
                at: at as int,
                stage,
            },
            Watch::Closing => WatchView::Closing,
        }
    }
}

impl View for WatchEvent {
    type V = WatchEventView;

    open spec fn view(&self) -> WatchEventView {
        match *self {
            WatchEvent::Tick { current_year, past_renewal } => WatchEventView::Tick {
                current_year: current_year as int,
                past_renewal,
            },
            WatchEvent::Misconfigured(e) => WatchEventView::Misconfigured(e),
            WatchEvent::Listed(Ok(members)) => WatchEventView::Listed(Ok(rows_of(members@))),
            WatchEvent::Listed(Err(e)) => WatchEventView::Listed(Err(e)),
            WatchEvent::Kicked(confirmed) => WatchEventView::Kicked(confirmed),
            WatchEvent::Removed(outcome) => WatchEventView::Removed(outcome),
            WatchEvent::Reported => WatchEventView::Reported,
        }
    }
}

impl View for WatchAction {
    type V = WatchActionView;

    open spec fn view(&self) -> WatchActionView {
        match *self {
            WatchAction::Stay => WatchActionView::Stay,
            WatchAction::Sleep { seconds } => WatchActionView::Sleep { seconds },
            WatchAction::Query { year } => WatchActionView::Query { year: year as int },
            WatchAction::Kick { lichess_id } => WatchActionView::Kick { lichess_id: lichess_id@ },
            WatchAction::Remove { org_id } => WatchActionView::Remove { org_id: org_id@ },
            WatchAction::Report { log, line, notice, pause_ms } => WatchActionView::Report {
                log,
                line: line@,
                notice: notice@,
                pause_ms,
            },
        }
    }
}

/// The watch turns to the member at place `at`: it asks Lichess to take
/// them out, or ends the round where the queue holds no such place.
pub open spec fn turn_to(queue: Seq<MemberRow>, at: int, settings: WatchSettings) -> (
    WatchView,
    WatchActionView,
) {
    if 0 <= at < queue.len() {
        (
            WatchView::Processing { queue, at, stage: Stage::Kick },
            WatchActionView::Kick { lichess_id: queue[at].lichess_id },
        )
    } else {
        (WatchView::Idle, WatchActionView::Sleep { seconds: settings.interval_seconds })
    }
}

/// What is recorded of a round for which the store gave no list.
pub const NO_LIST: &'static str = "Could not fetch expired users from db";

/// What is recorded of a round for which the calendar could not be read.
pub const NO_CALENDAR: &'static str = "Could not tell which memberships have expired";

/// The record of a member who was taken out of the team and of the store.
pub open spec fn kicked_report(lichess_id: Seq<char>, settings: WatchSettings) -> WatchActionView {
    WatchActionView::Report {
        log: Log::Kick,
        line: "Successfully kicked "@ + lichess_id,
        notice: "Successfully kicked "@ + lichess_id,
        pause_ms: settings.delay_ms,
    }
}

/// The record of a member whom Lichess did not take out of the team.
pub open spec fn not_kicked_report(
    lichess_id: Seq<char>,
    settings: WatchSettings,
) -> WatchActionView {
    WatchActionView::Report {
        log: Log::KickError,
        line: "Could not kick "@ + lichess_id,
        notice: "Could not kick "@ + lichess_id,
        pause_ms: settings.delay_ms,
    }
}

/// The record of a member who was taken out of the team, and whose
/// membership the store did not delete.
pub open spec fn not_removed_report(
    lichess_id: Seq<char>,
    settings: WatchSettings,
) -> WatchActionView {
    WatchActionView::Report {
        log: Log::KickError,
        line: "Could not Remove "@ + lichess_id + " from db"@,
        notice: "Could not remove "@ + lichess_id + " from db"@,
        pause_ms: settings.delay_ms,
    }
}

/// The record of a round that could not be made.
pub open spec fn no_round_report() -> WatchActionView {
    WatchActionView::Report {
        log: Log::ExpiryError,
        line: NO_LIST@,
        notice: NO_LIST@,
        pause_ms: 0,
    }
}

/// The record of a round that could not begin, because the calendar could
/// not be read.
pub open spec fn no_calendar_report() -> WatchActionView {
    WatchActionView::Report {
        log: Log::ExpiryError,
        line: NO_CALENDAR@,
        notice: NO_CALENDAR@,
        pause_ms: 0,
    }
}

/// The state that follows `state` on `event`, and what the watch asks for.
///
/// A round begins with a query for the memberships that have lapsed, unless
/// the calendar could not be read: then the round is skipped. Its
/// members are dealt with one after the other: Lichess is asked to take the
/// member out of the team, and only if it confirms that is the store asked
/// to delete the membership. Whatever comes of either, the outcome is
/// recorded and the watch turns to the next member. A query that fails
/// ends the round at once. An event that the state does not wait for
/// changes nothing.
pub open spec fn step_spec(state: WatchView, event: WatchEventView, settings: WatchSettings) -> (
    WatchView,
    WatchActionView,
) {
    match (state, event) {
        (WatchView::Idle, WatchEventView::Tick { current_year, past_renewal }) => {
            let year = cutoff_year_spec(current_year, past_renewal);
            (WatchView::Querying { year }, WatchActionView::Query { year })
        },
        (WatchView::Idle, WatchEventView::Misconfigured(_)) => (
            WatchView::Closing,
            no_calendar_report(),
        ),
        (WatchView::Querying { year }, WatchEventView::Listed(Ok(queue))) => turn_to(
            queue,
            0,
            settings,
        ),
        (WatchView::Querying { year }, WatchEventView::Listed(Err(_))) => (
            WatchView::Closing,
            no_round_report(),
        ),
        (WatchView::Closing, WatchEventView::Reported) => (
            WatchView::Idle,
            WatchActionView::Sleep { seconds: settings.interval_seconds },
        ),
        (WatchView::Processing { queue, at, stage }, event) => {
            if !(0 <= at < queue.len()) {
                (WatchView::Idle, WatchActionView::Sleep { seconds: settings.interval_seconds })
            } else {
                match (stage, event) {
                    (Stage::Kick, WatchEventView::Kicked(true)) => (
                        WatchView::Processing { queue, at, stage: Stage::Remove },
                        WatchActionView::Remove { org_id: queue[at].org_id },
                    ),
                    (Stage::Kick, WatchEventView::Kicked(false)) => (
                        WatchView::Processing { queue, at, stage: Stage::Rest },
                        not_kicked_report(queue[at].lichess_id, settings),
                    ),
                    (Stage::Remove, WatchEventView::Removed(Ok(_))) => (
                        WatchView::Processing { queue, at, stage: Stage::Rest },
                        kicked_report(queue[at].lichess_id, settings),
                    ),
                    (Stage::Remove, WatchEventView::Removed(Err(_))) => (
                        WatchView::Processing { queue, at, stage: Stage::Rest },
                        not_removed_report(queue[at].lichess_id, settings),
                    ),
                    (Stage::Rest, WatchEventView::Reported) => turn_to(queue, at + 1, settings),
                    _ => (state, WatchActionView::Stay),
                }
            }
        },
        _ => (state, WatchActionView::Stay),
    }
}

/// `front` followed by `back`.
fn joined(front: &str, back: &str) -> (text: String)
    ensures
        text@ == front@ + back@,
{
    let mut text = front.to_owned();
    text.append(back);
    text
}

/// The request to record a line.
fn report(log: Log, line: String, notice: String, pause_ms: u64) -> (action: WatchAction)
    ensures
        action@ == (WatchActionView::Report { log, line: line@, notice: notice@, pause_ms }),
{
    WatchAction::Report { log, line, notice, pause_ms }
}

/// The request to record that the store gave no list.
fn no_round() -> (action: WatchAction)
    ensures
        action@ == no_round_report(),
{
    report(
        Log::ExpiryError,
        NO_LIST.to_owned(),
        NO_LIST.to_owned(),
        0,
    )
}

/// The request to record that the calendar could not be read.
fn no_calendar() -> (action: WatchAction)
    ensures
        action@ == no_calendar_report(),
{
    report(
        Log::ExpiryError,
        NO_CALENDAR.to_owned(),
        NO_CALENDAR.to_owned(),
        0,
    )
}

/// Turns to the member at place `at`, or ends the round.
fn turn(queue: Vec<Membership>, at: usize, settings: &WatchSettings) -> (next: (Watch, WatchAction))
    ensures
        (next.0@, next.1@) == turn_to(rows_of(queue@), at as int, *settings),
{
    if at < queue.len() {
        let lichess_id = queue[at].lichess_id.clone();
        (Watch::Processing { queue, at, stage: Stage::Kick }, WatchAction::Kick { lichess_id })
    } else {
        (Watch::Idle, WatchAction::Sleep { seconds: settings.interval_seconds })
    }
}

impl Watch {
    /// A watch between two rounds.
    pub fn new() -> (watch: Watch)
        ensures
            watch@ == WatchView::Idle,
    {
        Watch::Idle
    }

    /// Takes the event in and says what is to be done next.
    pub fn step(self, event: WatchEvent, settings: &WatchSettings) -> (next: (Watch, WatchAction))
        requires
            event matches WatchEvent::Tick { current_year, .. } ==> current_year > i32::MIN,
        ensures
            (next.0@, next.1@) == step_spec(self@, event@, *settings),
    {
        match self {
            Watch::Idle => match event {
                WatchEvent::Tick { current_year, past_renewal } => {
                    let year = cutoff_year(current_year, past_renewal);
                    (Watch::Querying { year }, WatchAction::Query { year })
                },
                WatchEvent::Misconfigured(_) => (Watch::Closing, no_calendar()),
                _ => (Watch::Idle, WatchAction::Stay),
            },
            Watch::Querying { year } => match event {
                WatchEvent::Listed(Ok(queue)) => turn(queue, 0, settings),
                WatchEvent::Listed(Err(_)) => (Watch::Closing, no_round()),
                _ => (Watch::Querying { year }, WatchAction::Stay),
            },
            Watch::Closing => match event {
                WatchEvent::Reported => (
                    Watch::Idle,
                    WatchAction::Sleep { seconds: settings.interval_seconds },
                ),
                _ => (Watch::Closing, WatchAction::Stay),
            },
            Watch::Processing { queue, at, stage } => {
                if at >= queue.len() {
                    return (Watch::Idle, WatchAction::Sleep { seconds: settings.interval_seconds });
                }
                let ghost rows = rows_of(queue@);
                assert(rows[at as int] == queue@[at as int]@);
                match (stage, event) {
                    (Stage::Kick, WatchEvent::Kicked(true)) => {
                        let org_id = queue[at].org_id.clone();
                        (
                            Watch::Processing { queue, at, stage: Stage::Remove },
                            WatchAction::Remove { org_id },
                        )
                    },
                    (Stage::Kick, WatchEvent::Kicked(false)) => {
                        let line = joined("Could not kick ", queue[at].lichess_id.as_str());
                        let notice = line.clone();
                        (
                            Watch::Processing { queue, at, stage: Stage::Rest },
                            report(Log::KickError, line, notice, settings.delay_ms),
                        )
                    },
                    (Stage::Remove, WatchEvent::Removed(Ok(_))) => {
                        let line = joined("Successfully kicked ", queue[at].lichess_id.as_str());
                        let notice = line.clone();
                        (
                            Watch::Processing { queue, at, stage: Stage::Rest },
                            report(Log::Kick, line, notice, settings.delay_ms),
                        )
                    },
                    (Stage::Remove, WatchEvent::Removed(Err(_))) => {
                        let mut line = joined("Could not Remove ", queue[at].lichess_id.as_str());
                        line.append(" from db");
                        let mut notice = joined(
                            "Could not remove ",
                            queue[at].lichess_id.as_str(),
                        );
                        notice.append(" from db");
                        (
                            Watch::Processing { queue, at, stage: Stage::Rest },
                            report(Log::KickError, line, notice, settings.delay_ms),
                        )
                    },
                    (Stage::Rest, WatchEvent::Reported) => {
                        if at < usize::MAX {
                            turn(queue, at + 1, settings)
                        } else {
                            (Watch::Idle, WatchAction::Sleep { seconds: settings.interval_seconds })
                        }
                    },
                    (stage, _) => (Watch::Processing { queue, at, stage }, WatchAction::Stay),
                }
            },
        }
    }
}

/// What the watch is told when a round is due at `now`: the calendar year in
/// the zone, and whether the renewal day of that year has ended.
pub open spec fn tick_spec(now: Instant, zone: Seq<char>, month: int, day: int) -> WatchEventView {
    let current_year = year_in_zone(zone, now.secs as int);
    match past_deadline(now, zone, current_year, month, day) {
        Ok(past_renewal) => WatchEventView::Tick { current_year, past_renewal },
        Err(e) => WatchEventView::Misconfigured(e),
    }
}

/// Reads the calendar at `now` for a round of the watch.
pub fn tick_at(
    now: Instant,
    timezone: &Timezone,
    renewal_month: u32,
    renewal_day: u32,
) -> (event: WatchEvent)
    requires
        has_date(now.secs as int),
    ensures
        event@ == tick_spec(now, timezone@, renewal_month as int, renewal_day as int),
        event matches WatchEvent::Tick { current_year, .. } ==> current_year > i32::MIN,
{
    let current_year = org::current_year_at(now, timezone);
    match org::is_past_renewal_at(now, current_year, timezone, renewal_month, renewal_day) {
        Ok(past_renewal) => WatchEvent::Tick { current_year, past_renewal },
        Err(e) => WatchEvent::Misconfigured(e),
    }
}

/// Reads the calendar by the system clock for a round of the watch.
pub fn tick(timezone: &Timezone, renewal_month: u32, renewal_day: u32) -> (event: WatchEvent)
    ensures
        exists|now: Instant| #[trigger]
            has_date(now.secs as int) && event@ == tick_spec(
                now,
                timezone@,
                renewal_month as int,
                renewal_day as int,
            ),
        event matches WatchEvent::Tick { current_year, .. } ==> current_year > i32::MIN,
{
    let now = org::now();
    assert(has_date(now.secs as int));
    tick_at(now, timezone, renewal_month, renewal_day)
}

/// Why the lapsed memberships could not be listed.
#[derive(Clone, Copy, Debug, PartialEq, Eq, Structural)]
pub enum WatchError {
    Calendar(ConfigurationError),
    Store(StoreError),
}

/// The memberships that may be reclaimed at `now`: an error where the
/// calendar cannot be read or the store is cut off, else the rows that
/// lapse in the cutoff year or earlier.
pub open spec fn expired_at(
    now: Instant,
    rows: Seq<MemberRow>,
    connected: bool,
    zone: Seq<char>,
    month: int,
    day: int,
) -> Result<Seq<MemberRow>, WatchError> {
    let current_year = year_in_zone(zone, now.secs as int);
    match past_deadline(now, zone, current_year, month, day) {
        Err(e) => Err(WatchError::Calendar(e)),
        Ok(past_renewal) => if connected {
            Ok(expiring_by(rows, cutoff_year_spec(current_year, past_renewal)))
        } else {
            Err(WatchError::Store(StoreError::Unavailable))
        },
    }
}

/// What `found` says: the rows of the memberships, or the error.
pub open spec fn found_rows(
    found: Result<Vec<Membership>, WatchError>,
) -> Result<Seq<MemberRow>, WatchError> {
    match found {
        Ok(members) => Ok(rows_of(members@)),
        Err(e) => Err(e),
    }
}

/// The memberships of the store that may be reclaimed at `now`: those of
/// the current year once its renewal day has ended, and of earlier years.
pub fn find_expired_members_at(
    now: Instant,
    db: &OrgDbClient,
    timezone: &Timezone,
    month: u32,
    day: u32,
) -> (found: Result<Vec<Membership>, WatchError>)
    requires
        has_date(now.secs as int),
    ensures
        found_rows(found) == expired_at(
            now,
            db.rows(),
            db.connected(),
            timezone@,
            month as int,
            day as int,
        ),
{
    let current_year = org::current_year_at(now, timezone);
    match org::is_past_renewal_at(now, current_year, timezone, month, day) {
        Err(e) => Err(WatchError::Calendar(e)),
        Ok(past_renewal) => {
            let year = cutoff_year(current_year, past_renewal);
            match db.get_members_with_at_most_expiry_year(year) {
                Ok(members) => Ok(members),
                Err(e) => Err(WatchError::Store(e)),
            }
        },
    }
}

/// The memberships of the store that may be reclaimed by the system clock.
pub fn find_expired_members(
    db: &OrgDbClient,
    timezone: &Timezone,
    month: u32,
    day: u32,
) -> (found: Result<Vec<Membership>, WatchError>)
    ensures
        exists|now: Instant| #[trigger]
            has_date(now.secs as int) && found_rows(found) == expired_at(
                now,
                db.rows(),
                db.connected(),
                timezone@,
                month as int,
                day as int,
            ),
{
    let now = org::now();
    assert(has_date(now.secs as int));
    find_expired_members_at(now, db, timezone, month, day)
}

/// The watch asks the store to delete a membership only when Lichess has
/// just confirmed that it took that member out of the team.
pub proof fn lemma_remove_only_after_kick(
    state: WatchView,
    event: WatchEventView,
    settings: WatchSettings,
)
    requires
        step_spec(state, event, settings).1 is Remove,
    ensures
        event == WatchEventView::Kicked(true),
        state matches WatchView::Processing { queue, at, stage } && stage == Stage::Kick && 0 <= at
            < queue.len() && step_spec(state, event, settings).1 == (WatchActionView::Remove {
            org_id: queue[at].org_id,
        }),
{
}

/// Whatever becomes of a member, the watch goes on to the next: when
/// Lichess refuses, and when it confirms and the store then deletes the
/// membership or fails to, the outcome is recorded, and after the record
/// the watch turns to the following place of the queue.
pub proof fn lemma_failure_does_not_end_the_round(
    queue: Seq<MemberRow>,
    at: int,
    removed: Result<u64, StoreError>,
    settings: WatchSettings,
)
    requires
        0 <= at < queue.len(),
    ensures
        ({
            let asked = WatchView::Processing { queue, at, stage: Stage::Kick };
            let refused = step_spec(asked, WatchEventView::Kicked(false), settings);
            let confirmed = step_spec(asked, WatchEventView::Kicked(true), settings);
            let answered = step_spec(confirmed.0, WatchEventView::Removed(removed), settings);
            &&& refused.1 == not_kicked_report(queue[at].lichess_id, settings)
            &&& step_spec(refused.0, WatchEventView::Reported, settings) == turn_to(
                queue,
                at + 1,
                settings,
            )
            &&& confirmed.1 == (WatchActionView::Remove { org_id: queue[at].org_id })
            &&& answered.1 == if removed is Ok {
                kicked_report(queue[at].lichess_id, settings)
            } else {
                not_removed_report(queue[at].lichess_id, settings)
            }
            &&& step_spec(answered.0, WatchEventView::Reported, settings) == turn_to(
                queue,
                at + 1,
                settings,
            )
        }),
{
}

/// A round whose query fails deals with no member: the failure is
/// recorded, and the watch waits for the next round.
pub proof fn lemma_failed_query_skips_the_round(year: int, e: StoreError, settings: WatchSettings)
    ensures
        ({
            let failed = step_spec(
                WatchView::Querying { year },
                WatchEventView::Listed(Err(e)),
                settings,
            );
            &&& failed.1 == no_round_report()
            &&& step_spec(failed.0, WatchEventView::Reported, settings) == (
                WatchView::Idle,
                WatchActionView::Sleep { seconds: settings.interval_seconds },
            )
        }),
{
}

/// The state of the watch after the events, told in order.
pub open spec fn state_after(
    state: WatchView,
    events: Seq<WatchEventView>,
    settings: WatchSettings,
) -> WatchView
    decreases events.len(),
{
    if events.len() == 0 {
        state
    } else {
        step_spec(state_after(state, events.drop_last(), settings), events.last(), settings).0
    }
}

/// The number of times that the store is asked to delete a membership
/// while the events are told in order.
pub open spec fn removals(
    state: WatchView,
    events: Seq<WatchEventView>,
    settings: WatchSettings,
) -> nat
    decreases events.len(),
{
    if events.len() == 0 {
        0
    } else {
        let before = removals(state, events.drop_last(), settings);
        let asked = step_spec(
            state_after(state, events.drop_last(), settings),
            events.last(),
            settings,
        ).1;
        if asked is Remove {
            before + 1
        } else {
            before
        }
    }
}

/// The number of times that the watch is told that Lichess took a member
/// out of the team.
pub open spec fn confirmations(events: Seq<WatchEventView>) -> nat
    decreases events.len(),
{
    if events.len() == 0 {
        0
    } else if events.last() == WatchEventView::Kicked(true) {
        confirmations(events.drop_last()) + 1
    } else {
        confirmations(events.drop_last())
    }
}

/// Whatever the watch is told, in whatever state and order: it asks the
/// store to delete no more memberships than Lichess has confirmed kicks. A
/// watch that is never told of a confirmed kick deletes nothing.
pub proof fn lemma_no_more_removals_than_kicks(
    state: WatchView,
    events: Seq<WatchEventView>,
    settings: WatchSettings,
)
    ensures
        removals(state, events, settings) <= confirmations(events),
    decreases events.len(),
{
    if events.len() > 0 {
        lemma_no_more_removals_than_kicks(state, events.drop_last(), settings);
        let before = state_after(state, events.drop_last(), settings);
        if step_spec(before, events.last(), settings).1 is Remove {
            lemma_remove_only_after_kick(before, events.last(), settings);
        }
    }
}

/// What comes of one member: whether Lichess confirms the kick and, if it
/// does, what the store answers.
pub struct Fate {
    pub kicked: bool,
    pub removed: Result<u64, StoreError>,
}

/// The events that the watch is told while it deals with one member.
pub open spec fn events_for(fate: Fate) -> Seq<WatchEventView> {
    if fate.kicked {
        seq![
            WatchEventView::Kicked(true),
            WatchEventView::Removed(fate.removed),
            WatchEventView::Reported,
        ]
    } else {
        seq![WatchEventView::Kicked(false), WatchEventView::Reported]
    }
}

/// The events that the watch is told while it deals with one member after
/// the other.
pub open spec fn events_of(fates: Seq<Fate>) -> Seq<WatchEventView>
    decreases fates.len(),
{
    if fates.len() == 0 {
        Seq::empty()
    } else {
        events_of(fates.drop_last()) + events_for(fates.last())
    }
}

/// Telling events one run after another is telling them in one run.
pub proof fn lemma_state_after_both(
    state: WatchView,
    first: Seq<WatchEventView>,
    second: Seq<WatchEventView>,
    settings: WatchSettings,
)
    ensures
        state_after(state, first + second, settings) == state_after(
            state_after(state, first, settings),
            second,
            settings,
        ),
    decreases second.len(),
{
    if second.len() == 0 {
        assert(first + second =~= first);
    } else {
        assert((first + second).drop_last() =~= first + second.drop_last());
        assert((first + second).last() == second.last());
        lemma_state_after_both(state, first, second.drop_last(), settings);
    }
}

/// The state after one more event.
pub proof fn lemma_state_after_one_more(
    state: WatchView,
    events: Seq<WatchEventView>,
    event: WatchEventView,
    settings: WatchSettings,
)
    ensures
        state_after(state, events.push(event), settings) == step_spec(
            state_after(state, events, settings),
            event,
            settings,
        ).0,
{
    assert(events.push(event).drop_last() =~= events);
}

/// Every lapsed member gets their turn, in the order of the list: whatever
/// comes of the members before, once the watch has been told of it, it
/// deals with the next, and after the last it is idle again.
pub proof fn lemma_every_member_gets_their_turn(
    queue: Seq<MemberRow>,
    fates: Seq<Fate>,
    settings: WatchSettings,
)
    requires
        0 < queue.len(),
        fates.len() <= queue.len(),
    ensures
        state_after(
            WatchView::Processing { queue, at: 0, stage: Stage::Kick },
            events_of(fates),
            settings,
        ) == turn_to(queue, fates.len() as int, settings).0,
    decreases fates.len(),
{
    let begun = WatchView::Processing { queue, at: 0, stage: Stage::Kick };
    if fates.len() > 0 {
        let before = fates.drop_last();
        let fate = fates.last();
        let at = before.len() as int;
        lemma_every_member_gets_their_turn(queue, before, settings);
        lemma_state_after_both(begun, events_of(before), events_for(fate), settings);
        lemma_failure_does_not_end_the_round(queue, at, fate.removed, settings);
        let asked = WatchView::Processing { queue, at, stage: Stage::Kick };
        let none = Seq::<WatchEventView>::empty();
        assert(state_after(asked, none, settings) == asked);
        if fate.kicked {
            let kicked = WatchEventView::Kicked(true);
            let removed = WatchEventView::Removed(fate.removed);
            lemma_state_after_one_more(asked, none, kicked, settings);
            lemma_state_after_one_more(asked, none.push(kicked), removed, settings);
            lemma_state_after_one_more(
                asked,
                none.push(kicked).push(removed),
                WatchEventView::Reported,
                settings,
            );
            assert(events_for(fate) =~= none.push(kicked).push(removed).push(
                WatchEventView::Reported,
            ));
        } else {
            let refused = WatchEventView::Kicked(false);
            lemma_state_after_one_more(asked, none, refused, settings);
            lemma_state_after_one_more(
                asked,
                none.push(refused),
                WatchEventView::Reported,
                settings,
            );
            assert(events_for(fate) =~= none.push(refused).push(WatchEventView::Reported));
        }
    }
}

/// A round asks for the members that lapsed before the current year, and
/// for those of the current year too once the time to renew in it is over.
pub proof fn lemma_round_asks_by_the_cutoff(
    current_year: int,
    past_renewal: bool,
    settings: WatchSettings,
)
    ensures
        step_spec(
            WatchView::Idle,
            WatchEventView::Tick { current_year, past_renewal },
            settings,
        ).1 == (WatchActionView::Query {
            year: if past_renewal {
                current_year
            } else {
                current_year - 1
            },
        }),
{
}

} // verus!
