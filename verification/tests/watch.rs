use org2lichess::db::{Membership, OrgDbClient};
use org2lichess::expwatch::{
    find_expired_members, find_expired_members_at, tick, tick_at, Log, Stage, Watch, WatchAction,
    WatchError, WatchEvent, WatchSettings,
};
use org2lichess::org::{timezone_from_string, Instant};
use org2lichess::types::{ConfigurationError, StoreError};

const SETTINGS: WatchSettings = WatchSettings { delay_ms: 1000, interval_seconds: 3600 };

fn member(org_id: &str, lichess_id: &str, exp_year: i32) -> Membership {
    Membership { org_id: org_id.to_string(), lichess_id: lichess_id.to_string(), exp_year }
}

fn report(log: Log, line: &str, notice: &str, pause_ms: u64) -> WatchAction {
    WatchAction::Report { log, line: line.to_string(), notice: notice.to_string(), pause_ms }
}

/// One round of the watch on the store. Lichess confirms the kick of the
/// accounts in `kickable`; the store fails to delete the members in
/// `stuck`. Returns what was recorded.
fn round(
    db: &mut OrgDbClient,
    current_year: i32,
    past_renewal: bool,
    kickable: &[&str],
    stuck: &[&str],
) -> Vec<WatchAction> {
    let mut records = Vec::new();
    let (mut watch, mut action) =
        Watch::new().step(WatchEvent::Tick { current_year, past_renewal }, &SETTINGS);
    loop {
        let event = match action {
            WatchAction::Query { year } => {
                WatchEvent::Listed(db.get_members_with_at_most_expiry_year(year))
            }
            WatchAction::Kick { ref lichess_id } => {
                WatchEvent::Kicked(kickable.contains(&lichess_id.as_str()))
            }
            WatchAction::Remove { ref org_id } => {
                if stuck.contains(&org_id.as_str()) {
                    WatchEvent::Removed(Err(StoreError::Unavailable))
                } else {
                    WatchEvent::Removed(db.remove_membership(org_id))
                }
            }
            WatchAction::Report { .. } => {
                records.push(action);
                WatchEvent::Reported
            }
            WatchAction::Sleep { seconds } => {
                assert_eq!(seconds, 3600);
                assert_eq!(watch, Watch::Idle);
                return records;
            }
            WatchAction::Stay => panic!("the watch did not take the answer"),
        };
        let next = watch.step(event, &SETTINGS);
        watch = next.0;
        action = next.1;
    }
}

#[test]
fn a_round_asks_for_the_members_of_the_cutoff_year() {
    let tick = WatchEvent::Tick { current_year: 2024, past_renewal: false };
    assert_eq!(
        Watch::new().step(tick, &SETTINGS),
        (Watch::Querying { year: 2023 }, WatchAction::Query { year: 2023 })
    );
    let tick = WatchEvent::Tick { current_year: 2024, past_renewal: true };
    assert_eq!(
        Watch::new().step(tick, &SETTINGS),
        (Watch::Querying { year: 2024 }, WatchAction::Query { year: 2024 })
    );
}

#[test]
fn a_round_without_lapsed_members_ends_at_once() {
    let next = Watch::Querying { year: 2023 }.step(WatchEvent::Listed(Ok(vec![])), &SETTINGS);
    assert_eq!(next, (Watch::Idle, WatchAction::Sleep { seconds: 3600 }));
}

#[test]
fn a_failed_query_is_recorded_and_the_round_skipped() {
    let failed = WatchEvent::Listed(Err(StoreError::Unavailable));
    let (watch, action) = Watch::Querying { year: 2023 }.step(failed, &SETTINGS);
    assert_eq!(watch, Watch::Closing);
    assert_eq!(
        action,
        report(
            Log::ExpiryError,
            "Could not fetch expired users from db",
            "Could not fetch expired users from db",
            0
        )
    );
    assert_eq!(
        watch.step(WatchEvent::Reported, &SETTINGS),
        (Watch::Idle, WatchAction::Sleep { seconds: 3600 })
    );
}

#[test]
fn a_calendar_that_cannot_be_read_skips_the_round() {
    let event = WatchEvent::Misconfigured(ConfigurationError::NoSuchDeadline);
    let (watch, action) = Watch::new().step(event, &SETTINGS);
    assert_eq!(watch, Watch::Closing);
    assert!(matches!(action, WatchAction::Report { log: Log::ExpiryError, pause_ms: 0, .. }));
}

#[test]
fn each_member_is_kicked_then_removed_then_recorded() {
    let queue = vec![member("A", "a", 2020), member("B", "b", 2021)];
    let (watch, action) =
        Watch::Querying { year: 2023 }.step(WatchEvent::Listed(Ok(queue)), &SETTINGS);
    assert_eq!(action, WatchAction::Kick { lichess_id: "a".to_string() });
    let (watch, action) = watch.step(WatchEvent::Kicked(true), &SETTINGS);
    assert_eq!(action, WatchAction::Remove { org_id: "A".to_string() });
    let (watch, action) = watch.step(WatchEvent::Removed(Ok(1)), &SETTINGS);
    assert_eq!(action, report(Log::Kick, "Successfully kicked a", "Successfully kicked a", 1000));
    let (watch, action) = watch.step(WatchEvent::Reported, &SETTINGS);
    assert_eq!(action, WatchAction::Kick { lichess_id: "b".to_string() });
    let (watch, action) = watch.step(WatchEvent::Kicked(false), &SETTINGS);
    assert_eq!(action, report(Log::KickError, "Could not kick b", "Could not kick b", 1000));
    assert!(matches!(watch, Watch::Processing { at: 1, stage: Stage::Rest, .. }));
    let (watch, action) = watch.step(WatchEvent::Reported, &SETTINGS);
    assert_eq!((watch, action), (Watch::Idle, WatchAction::Sleep { seconds: 3600 }));
}

#[test]
fn a_store_that_fails_to_delete_is_recorded_as_an_error() {
    let queue = vec![member("A", "a", 2020)];
    let watch = Watch::Processing { queue, at: 0, stage: Stage::Remove };
    let (_, action) = watch.step(WatchEvent::Removed(Err(StoreError::Unavailable)), &SETTINGS);
    assert_eq!(
        action,
        report(
            Log::KickError,
            "Could not Remove a from db",
            "Could not remove a from db",
            1000
        )
    );
}

#[test]
fn an_event_that_is_not_awaited_changes_nothing() {
    assert_eq!(
        Watch::Idle.step(WatchEvent::Kicked(true), &SETTINGS),
        (Watch::Idle, WatchAction::Stay)
    );
    assert_eq!(
        Watch::Querying { year: 1 }.step(WatchEvent::Reported, &SETTINGS),
        (Watch::Querying { year: 1 }, WatchAction::Stay)
    );
    assert_eq!(
        Watch::Closing.step(WatchEvent::Removed(Ok(1)), &SETTINGS),
        (Watch::Closing, WatchAction::Stay)
    );
    let queue = vec![member("A", "a", 2020)];
    let asked = Watch::Processing { queue, at: 0, stage: Stage::Kick };
    let (watch, action) = asked.step(WatchEvent::Removed(Ok(1)), &SETTINGS);
    assert_eq!(action, WatchAction::Stay);
    assert!(matches!(watch, Watch::Processing { at: 0, stage: Stage::Kick, .. }));
    let tick = WatchEvent::Tick { current_year: 2024, past_renewal: true };
    let (watch, action) = watch.step(tick, &SETTINGS);
    assert_eq!(action, WatchAction::Stay);
    assert!(matches!(watch, Watch::Processing { at: 0, stage: Stage::Kick, .. }));
}

#[test]
fn a_place_beyond_the_queue_ends_the_round() {
    let watch = Watch::Processing { queue: vec![], at: 3, stage: Stage::Kick };
    assert_eq!(
        watch.step(WatchEvent::Kicked(true), &SETTINGS),
        (Watch::Idle, WatchAction::Sleep { seconds: 3600 })
    );
}

#[test]
fn a_round_removes_those_whom_lichess_let_go() {
    let mut db = OrgDbClient::new();
    db.register_member("A", "a", 2022).unwrap();
    db.register_member("B", "b", 2023).unwrap();
    db.register_member("C", "c", 2024).unwrap();
    // In 2024, before the renewal deadline: only 2023 and earlier lapse.
    let records = round(&mut db, 2024, false, &["a"], &[]);
    assert_eq!(
        records,
        vec![
            report(Log::Kick, "Successfully kicked a", "Successfully kicked a", 1000),
            report(Log::KickError, "Could not kick b", "Could not kick b", 1000),
        ]
    );
    assert_eq!(db.get_members(), Ok(vec![member("B", "b", 2023), member("C", "c", 2024)]));
    // After the renewal deadline the members of 2024 lapse too.
    let records = round(&mut db, 2024, true, &["b", "c"], &[]);
    assert_eq!(records.len(), 2);
    assert_eq!(db.get_members(), Ok(vec![]));
}

#[test]
fn a_member_whom_the_store_kept_is_retried_in_the_next_round() {
    let mut db = OrgDbClient::new();
    db.register_member("M", "m", 2022).unwrap();
    db.register_member("N", "n", 2022).unwrap();
    // Round N: Lichess lets both go, the store fails to delete M.
    let records = round(&mut db, 2024, false, &["m", "n"], &["M"]);
    assert_eq!(
        records,
        vec![
            report(Log::KickError, "Could not Remove m from db", "Could not remove m from db", 1000),
            report(Log::Kick, "Successfully kicked n", "Successfully kicked n", 1000),
        ]
    );
    // M is still listed as lapsed.
    assert_eq!(db.get_members_with_at_most_expiry_year(2023), Ok(vec![member("M", "m", 2022)]));
    // Round N+1: M is dealt with again, and goes.
    let records = round(&mut db, 2024, false, &["m", "n"], &[]);
    assert_eq!(
        records,
        vec![report(Log::Kick, "Successfully kicked m", "Successfully kicked m", 1000)]
    );
    assert_eq!(db.get_members(), Ok(vec![]));
}

#[test]
fn a_member_whom_lichess_keeps_stays_in_the_store() {
    let mut db = OrgDbClient::new();
    db.register_member("M", "m", 2022).unwrap();
    for _ in 0..3 {
        let records = round(&mut db, 2024, false, &[], &[]);
        assert_eq!(records, vec![report(Log::KickError, "Could not kick m", "Could not kick m", 1000)]);
        assert_eq!(db.get_members(), Ok(vec![member("M", "m", 2022)]));
    }
}

#[test]
fn a_round_on_a_store_that_is_cut_off_changes_nothing() {
    let mut db = OrgDbClient::new();
    db.register_member("M", "m", 2022).unwrap();
    db.set_connected(false);
    let records = round(&mut db, 2024, false, &["m"], &[]);
    assert_eq!(records.len(), 1);
    assert!(matches!(records[0], WatchAction::Report { log: Log::ExpiryError, .. }));
    db.set_connected(true);
    assert_eq!(db.get_members(), Ok(vec![member("M", "m", 2022)]));
}

#[test]
fn the_tick_reads_the_year_and_the_renewal_deadline() {
    let london = timezone_from_string("Europe/London").unwrap();
    // 2024-09-14T23:59:59+01:00 is 1726354799.
    let before = Instant { secs: 1726354799, nanos: 0 };
    let after = Instant { secs: 1726354800, nanos: 0 };
    assert_eq!(
        tick_at(before, &london, 9, 14),
        WatchEvent::Tick { current_year: 2024, past_renewal: false }
    );
    assert_eq!(
        tick_at(after, &london, 9, 14),
        WatchEvent::Tick { current_year: 2024, past_renewal: true }
    );
    assert_eq!(
        tick_at(after, &london, 9, 31),
        WatchEvent::Misconfigured(ConfigurationError::NoSuchDeadline)
    );
    assert!(matches!(tick(&london, 9, 14), WatchEvent::Tick { .. }));
    assert_eq!(
        tick(&london, 2, 30),
        WatchEvent::Misconfigured(ConfigurationError::NoSuchDeadline)
    );
}

#[test]
fn the_lapsed_members_are_found_by_the_calendar() {
    let london = timezone_from_string("Europe/London").unwrap();
    let mut db = OrgDbClient::new();
    db.register_member("A", "a", 2023).unwrap();
    db.register_member("B", "b", 2024).unwrap();
    db.register_member("C", "c", 2025).unwrap();
    let before = Instant { secs: 1726354799, nanos: 0 };
    let after = Instant { secs: 1726354800, nanos: 0 };
    assert_eq!(
        find_expired_members_at(before, &db, &london, 9, 14),
        Ok(vec![member("A", "a", 2023)])
    );
    assert_eq!(
        find_expired_members_at(after, &db, &london, 9, 14),
        Ok(vec![member("A", "a", 2023), member("B", "b", 2024)])
    );
    assert_eq!(
        find_expired_members_at(after, &db, &london, 2, 30),
        Err(WatchError::Calendar(ConfigurationError::NoSuchDeadline))
    );
    assert!(find_expired_members(&db, &london, 9, 14).unwrap().len() >= 2);
    db.set_connected(false);
    assert_eq!(
        find_expired_members_at(after, &db, &london, 9, 14),
        Err(WatchError::Store(StoreError::Unavailable))
    );
}
