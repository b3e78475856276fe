use org2lichess::config::{
    AzolveConfig, Config, ExpiryConfig, LichessConfig, OrgConfig, ServerConfig,
};
use org2lichess::db::Membership;
use org2lichess::linking::InternalError;
use org2lichess::org::Instant;
use org2lichess::routes::{admin_user_json, is_form_open, manage_authed, show_form, FormPage, Page};
use org2lichess::session::Session;
use org2lichess::tempctx::{
    empty_context, make_admin_context, make_error_context, make_linked_context,
    make_logged_in_context, month_to_string,
};
use org2lichess::types::{ConfigurationError, StoreError};

fn config() -> Config {
    Config {
        org: OrgConfig {
            long_name: "English Chess Federation".to_string(),
            short_name: "ECF".to_string(),
            icon: String::new(),
            image: String::new(),
            team_id: "ecf-team".to_string(),
            timezone: "Europe/London".to_string(),
            referral_link: String::new(),
            authentication_secret: String::new(),
            authentication_secret_first_word: String::new(),
            memberid_placeholder: String::new(),
            password_placeholder: String::new(),
            password_explanation: String::new(),
            memberid_pattern: String::new(),
        },
        expiry: ExpiryConfig {
            enable: true,
            membership_month: 8,
            membership_day: 31,
            renewal_month: 9,
            renewal_day: 14,
        },
        server: ServerConfig {
            url: String::new(),
            expiry_check_interval_seconds: 60,
            postgres_options: String::new(),
        },
        lichess: LichessConfig {
            domain: "lichess.org".to_string(),
            client_id: String::new(),
            client_secret: String::new(),
            team_admin: "boss".to_string(),
            team_password: String::new(),
            personal_api_token: String::new(),
        },
        azolve: AzolveConfig {
            api: String::new(),
            api_pwd: String::new(),
            api_token: String::new(),
            transform_apis: vec![],
            test_backdoor_member_id: String::new(),
            test_backdoor_password: String::new(),
        },
    }
}

fn session(lichess_id: &str, name: &str) -> Session {
    Session {
        lichess_id: lichess_id.to_string(),
        lichess_username: name.to_string(),
        oauth_token: String::new(),
    }
}

#[test]
fn months_have_their_names() {
    let names = [
        "ERROR", "January", "February", "March", "April", "May", "June", "July", "August",
        "September", "October", "November", "December", "ERROR",
    ];
    for (month, name) in names.iter().enumerate() {
        assert_eq!(month_to_string(month as u32), *name);
    }
    assert_eq!(month_to_string(u32::MAX), "ERROR");
}

#[test]
fn every_page_shows_the_organisation() {
    let cfg = config();
    assert_eq!(empty_context(&cfg).org, &cfg.org);
}

#[test]
fn the_administrator_is_the_account_that_manages_the_team() {
    let cfg = config();
    let context = make_logged_in_context(&session("boss", "Boss"), &cfg);
    assert_eq!(context.org, &cfg.org);
    assert_eq!(context.lichess, "Boss");
    assert!(context.admin);
    let context = make_logged_in_context(&session("alice", "boss"), &cfg);
    assert_eq!(context.lichess, "boss");
    assert!(!context.admin);
    assert!(!make_logged_in_context(&session("Boss", "x"), &cfg).admin);
}

#[test]
fn an_error_page_carries_its_message() {
    let cfg = config();
    let logged_in = make_logged_in_context(&session("alice", "Alice"), &cfg);
    let context = make_error_context(logged_in, "Invalid form data.");
    assert_eq!(context.error, "Invalid form data.");
    assert_eq!(context.logged_in.lichess, "Alice");
    assert!(!context.logged_in.admin);
}

#[test]
fn the_admin_page_lists_the_members_and_counts_the_referrals() {
    let cfg = config();
    let logged_in = make_logged_in_context(&session("boss", "Boss"), &cfg);
    let members = vec![Membership {
        org_id: "1".to_string(),
        lichess_id: "a".to_string(),
        exp_year: 2024,
    }];
    let context = make_admin_context(logged_in, 7, members);
    assert_eq!(context.ref_count, 7);
    assert_eq!(context.members.len(), 1);
    assert_eq!(context.members[0].org_id, "1");
    assert!(context.logged_in.admin);
}

#[test]
fn the_page_of_a_link_names_the_days() {
    let cfg = config();
    let logged_in = make_logged_in_context(&session("alice", "Alice"), &cfg);
    let context = make_linked_context(logged_in, "123".to_string(), 2024, true, &cfg.expiry);
    assert_eq!(context.org_id, "123");
    assert_eq!(context.exp_year, 2024);
    assert!(context.can_renew);
    assert_eq!(context.exp_month, "August");
    assert_eq!(context.exp_day, 31);
    assert_eq!(context.renew_month, "September");
    assert_eq!(context.renew_day, 14);
    assert_eq!(context.logged_in.lichess, "Alice");
}

#[test]
fn the_page_of_an_account_shows_its_membership() {
    let cfg = config();
    let who = session("alice", "Alice");
    // 2024-08-31T23:59:59+01:00 and the second after it.
    let at_deadline = Instant { secs: 1725145199, nanos: 0 };
    let after = Instant { secs: 1725145200, nanos: 0 };
    let held = || {
        Ok(Some(Membership {
            org_id: "123".to_string(),
            lichess_id: "alice".to_string(),
            exp_year: 2024,
        }))
    };

    match manage_authed(after, Ok(None), &who, &cfg) {
        Ok(Page::NotLinked(context)) => {
            assert_eq!(context.lichess, "Alice");
            assert!(!context.admin);
        }
        other => panic!("not the invitation: {:?}", other),
    }
    match manage_authed(at_deadline, held(), &who, &cfg) {
        Ok(Page::Linked(context)) => {
            assert_eq!(context.org_id, "123");
            assert_eq!(context.exp_year, 2024);
            assert!(!context.can_renew);
            assert_eq!(context.exp_month, "August");
            assert_eq!(context.renew_month, "September");
        }
        other => panic!("not the membership: {:?}", other),
    }
    match manage_authed(after, held(), &who, &cfg) {
        Ok(Page::Linked(context)) => assert!(context.can_renew),
        other => panic!("not the membership: {:?}", other),
    }
    assert_eq!(
        manage_authed(after, Err(StoreError::Unavailable), &who, &cfg),
        Err(InternalError::Store(StoreError::Unavailable))
    );
    let mut odd = config();
    odd.org.timezone = "Mars/Olympus".to_string();
    assert_eq!(
        manage_authed(after, held(), &who, &odd),
        Err(InternalError::Configuration(ConfigurationError::UnknownTimezone))
    );
    assert!(matches!(manage_authed(after, Ok(None), &who, &odd), Ok(Page::NotLinked(_))));
    let mut odd = config();
    odd.expiry.membership_day = 32;
    assert_eq!(
        manage_authed(after, held(), &who, &odd),
        Err(InternalError::Configuration(ConfigurationError::NoSuchDeadline))
    );
}

#[test]
fn the_form_is_shown_to_those_who_may_link() {
    let cfg = config();
    let who = session("alice", "Alice");
    let at_deadline = Instant { secs: 1725145199, nanos: 0 };
    let after = Instant { secs: 1725145200, nanos: 0 };
    let held = || {
        Ok(Some(Membership {
            org_id: "123".to_string(),
            lichess_id: "alice".to_string(),
            exp_year: 2024,
        }))
    };

    match show_form(after, Ok(None), &who, &cfg) {
        Ok(FormPage::Form(context)) => {
            assert_eq!(context.error, "");
            assert_eq!(context.logged_in.lichess, "Alice");
        }
        other => panic!("not the form: {:?}", other),
    }
    assert_eq!(show_form(at_deadline, held(), &who, &cfg), Ok(FormPage::Index));
    assert!(matches!(show_form(after, held(), &who, &cfg), Ok(FormPage::Form(_))));
    assert_eq!(
        show_form(after, Err(StoreError::Full), &who, &cfg),
        Err(InternalError::Store(StoreError::Full))
    );
    let mut odd = config();
    odd.org.timezone = String::new();
    let unknown = Err(InternalError::Configuration(ConfigurationError::UnknownTimezone));
    assert_eq!(show_form(after, Ok(None), &who, &odd), unknown);
    assert_eq!(is_form_open(after, &Ok(None), &cfg), Ok(true));
    assert_eq!(is_form_open(at_deadline, &held(), &cfg), Ok(false));
}

#[test]
fn the_members_are_listed_with_their_accounts() {
    assert_eq!(admin_user_json(&vec![]), vec![]);
    let members = vec![
        Membership { org_id: "1".to_string(), lichess_id: "a".to_string(), exp_year: 2024 },
        Membership { org_id: "2".to_string(), lichess_id: "b".to_string(), exp_year: 2025 },
    ];
    assert_eq!(
        admin_user_json(&members),
        vec![("1".to_string(), "a".to_string()), ("2".to_string(), "b".to_string())]
    );
}
