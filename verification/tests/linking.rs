use org2lichess::azolve::{Verification, VerificationAction, VerificationEvent, SUCCESS};
use org2lichess::config::{
    AzolveConfig, Config, ExpiryConfig, LichessConfig, OrgConfig, ServerConfig,
};
use org2lichess::db::{Membership, OrgDbClient};
use org2lichess::linking::{
    can_use_form, link_memberships, org_id_unused, registration_year, InternalError, LinkAction,
    LinkError, LinkEvent, LinkOutcome, LinkRequest, Linking, OrgInfo,
};
use org2lichess::org::{timezone_from_string, Instant};
use org2lichess::session::Session;
use org2lichess::types::{ConfigurationError, StoreError};

// 2024-08-31T23:59:59+01:00
const DEADLINE_2024: i64 = 1725145199;

fn config() -> Config {
    Config {
        org: OrgConfig {
            long_name: "English Chess Federation".to_string(),
            short_name: "ECF".to_string(),
            icon: String::new(),
            image: String::new(),
            team_id: "ecf-team".to_string(),
            timezone: "Europe/London".to_string(),
            referral_link: "https://example.org/join".to_string(),
            authentication_secret: "PIN".to_string(),
            authentication_secret_first_word: "PIN".to_string(),
            memberid_placeholder: String::new(),
            password_placeholder: String::new(),
            password_explanation: String::new(),
            memberid_pattern: String::new(),
        },
        expiry: ExpiryConfig {
            enable: true,
            membership_month: 8,
            membership_day: 31,
            renewal_month: 9,
            renewal_day: 14,
        },
        server: ServerConfig {
            url: "https://link.example".to_string(),
            expiry_check_interval_seconds: 3600,
            postgres_options: String::new(),
        },
        lichess: LichessConfig {
            domain: "lichess.org".to_string(),
            client_id: "client".to_string(),
            client_secret: String::new(),
            team_admin: "boss".to_string(),
            team_password: "letmein".to_string(),
            personal_api_token: "lip_x".to_string(),
        },
        azolve: AzolveConfig {
            api: "https://authority.example/lookup".to_string(),
            api_pwd: "shared".to_string(),
            api_token: "tok".to_string(),
            transform_apis: vec![],
            test_backdoor_member_id: String::new(),
            test_backdoor_password: String::new(),
        },
    }
}

fn session(lichess_id: &str) -> Session {
    Session {
        lichess_id: lichess_id.to_string(),
        lichess_username: lichess_id.to_uppercase(),
        oauth_token: format!("token-of-{}", lichess_id),
    }
}

fn form(org_id: &str) -> OrgInfo {
    OrgInfo { org_id: org_id.to_string(), org_password: "secret".to_string() }
}

fn member(org_id: &str, lichess_id: &str, exp_year: i32) -> Membership {
    Membership { org_id: org_id.to_string(), lichess_id: lichess_id.to_string(), exp_year }
}

/// Deals with a request to link on the store. The authority answers with
/// `body`, Lichess confirms the join or not. Returns the outcome and the
/// number of times the store was asked to register.
fn link(
    db: &mut OrgDbClient,
    request: &LinkRequest,
    body: Option<&str>,
    joins: bool,
) -> (LinkOutcome, usize) {
    let mut registered = 0;
    let (mut state, mut action) = link_memberships(request);
    loop {
        let event = match action {
            LinkAction::FindByLichessId { ref lichess_id } => {
                LinkEvent::OwnMembership(db.get_member_for_lichess_id(lichess_id))
            }
            LinkAction::Verify(VerificationAction::Submit(_)) => LinkEvent::Verification(
                VerificationEvent::Answered(body.map(|b| b.to_string())),
            ),
            LinkAction::Verify(_) => panic!("no transform is configured"),
            LinkAction::FindByOrgId { ref org_id } => {
                LinkEvent::OrgMembership(db.get_member_for_org_id(org_id))
            }
            LinkAction::Join { ref token, ref team_id, ref team_password } => {
                assert_eq!(token, &request.session.oauth_token);
                assert_eq!(team_id, "ecf-team");
                assert_eq!(team_password, "letmein");
                LinkEvent::Joined(joins)
            }
            LinkAction::Register { ref org_id, ref lichess_id, exp_year } => {
                registered += 1;
                LinkEvent::Registered(db.register_member(org_id, lichess_id, exp_year))
            }
            LinkAction::Finish(outcome) => {
                assert_eq!(state, Linking::Finished);
                return (outcome, registered);
            }
            LinkAction::Stay => panic!("the link did not take the answer"),
        };
        let next = state.step(event, request);
        state = next.0;
        action = next.1;
    }
}

#[test]
fn a_confirmed_claim_is_linked_once_lichess_has_confirmed() {
    let (cfg, who, info) = (config(), session("alice"), form("123"));
    let request = LinkRequest {
        now: Instant { secs: DEADLINE_2024 - 1, nanos: 0 },
        session: &who,
        config: &cfg,
        form: Some(&info),
    };
    let mut db = OrgDbClient::new();
    assert_eq!(link(&mut db, &request, Some(SUCCESS), true), (LinkOutcome::Linked, 1));
    assert_eq!(db.get_member_for_org_id("123"), Ok(Some(member("123", "alice", 2024))));
    assert_eq!(db.get_members().unwrap().len(), 1);
}

#[test]
fn a_refusal_by_lichess_leaves_no_row() {
    let (cfg, who, info) = (config(), session("alice"), form("123"));
    let request = LinkRequest {
        now: Instant { secs: DEADLINE_2024 - 1, nanos: 0 },
        session: &who,
        config: &cfg,
        form: Some(&info),
    };
    let mut db = OrgDbClient::new();
    assert_eq!(
        link(&mut db, &request, Some(SUCCESS), false),
        (LinkOutcome::Rejected(LinkError::GatewayFailure), 0)
    );
    assert_eq!(db.get_member_for_org_id("123"), Ok(None));
    assert_eq!(db.get_members(), Ok(vec![]));
}

#[test]
fn a_refusal_by_lichess_leaves_the_prior_link() {
    let (cfg, who, info) = (config(), session("alice"), form("123"));
    let request = LinkRequest {
        now: Instant { secs: DEADLINE_2024 + 1, nanos: 0 },
        session: &who,
        config: &cfg,
        form: Some(&info),
    };
    let mut db = OrgDbClient::new();
    db.register_member("123", "alice", 2024).unwrap();
    assert_eq!(
        link(&mut db, &request, Some(SUCCESS), false),
        (LinkOutcome::Rejected(LinkError::GatewayFailure), 0)
    );
    assert_eq!(db.get_members(), Ok(vec![member("123", "alice", 2024)]));
}

#[test]
fn a_membership_that_is_linked_after_the_expiry_day_lasts_until_next_year() {
    let (cfg, who, info) = (config(), session("alice"), form("123"));
    let request = LinkRequest {
        now: Instant { secs: DEADLINE_2024 + 1, nanos: 0 },
        session: &who,
        config: &cfg,
        form: Some(&info),
    };
    let mut db = OrgDbClient::new();
    assert_eq!(link(&mut db, &request, Some(SUCCESS), true), (LinkOutcome::Linked, 1));
    assert_eq!(db.get_member_for_org_id("123"), Ok(Some(member("123", "alice", 2025))));
    let london = timezone_from_string("Europe/London").unwrap();
    assert_eq!(registration_year(request.now, &london, &cfg.expiry), Ok(2025));
    let before = Instant { secs: DEADLINE_2024, nanos: 0 };
    assert_eq!(registration_year(before, &london, &cfg.expiry), Ok(2024));
}

#[test]
fn a_lapsed_membership_can_be_renewed() {
    let (cfg, who, info) = (config(), session("alice"), form("123"));
    let request = LinkRequest {
        now: Instant { secs: DEADLINE_2024 + 1, nanos: 0 },
        session: &who,
        config: &cfg,
        form: Some(&info),
    };
    let mut db = OrgDbClient::new();
    db.register_member("123", "alice", 2024).unwrap();
    assert_eq!(link(&mut db, &request, Some(SUCCESS), true), (LinkOutcome::Linked, 1));
    assert_eq!(db.get_members(), Ok(vec![member("123", "alice", 2025)]));
}

#[test]
fn a_membership_that_has_not_lapsed_cannot_be_linked_again() {
    let (cfg, who, info) = (config(), session("alice"), form("123"));
    let request = LinkRequest {
        now: Instant { secs: DEADLINE_2024, nanos: 0 },
        session: &who,
        config: &cfg,
        form: Some(&info),
    };
    let mut db = OrgDbClient::new();
    db.register_member("123", "alice", 2024).unwrap();
    assert_eq!(link(&mut db, &request, Some(SUCCESS), true), (LinkOutcome::NotAllowed, 0));
}

#[test]
fn a_claim_that_the_authority_refuses_is_turned_down() {
    let (cfg, who, info) = (config(), session("alice"), form("123"));
    let request = LinkRequest {
        now: Instant { secs: DEADLINE_2024, nanos: 0 },
        session: &who,
        config: &cfg,
        form: Some(&info),
    };
    let mut db = OrgDbClient::new();
    assert_eq!(
        link(&mut db, &request, Some("[]"), true),
        (LinkOutcome::Rejected(LinkError::VerificationFailed), 0)
    );
    assert_eq!(
        link(&mut db, &request, None, true),
        (LinkOutcome::Rejected(LinkError::VerificationUnavailable), 0)
    );
    assert_eq!(db.get_members(), Ok(vec![]));
}

#[test]
fn a_membership_of_another_account_is_not_taken_over() {
    let (cfg, who, info) = (config(), session("alice"), form("123"));
    let request = LinkRequest {
        now: Instant { secs: DEADLINE_2024, nanos: 0 },
        session: &who,
        config: &cfg,
        form: Some(&info),
    };
    let mut db = OrgDbClient::new();
    db.register_member("123", "bob", 2024).unwrap();
    assert_eq!(
        link(&mut db, &request, Some(SUCCESS), true),
        (LinkOutcome::Rejected(LinkError::AlreadyLinked), 0)
    );
    assert_eq!(db.get_members(), Ok(vec![member("123", "bob", 2024)]));
}

#[test]
fn a_form_that_could_not_be_read_is_turned_down() {
    let (cfg, who) = (config(), session("alice"));
    let request = LinkRequest {
        now: Instant { secs: DEADLINE_2024, nanos: 0 },
        session: &who,
        config: &cfg,
        form: None,
    };
    let mut db = OrgDbClient::new();
    assert_eq!(
        link(&mut db, &request, Some(SUCCESS), true),
        (LinkOutcome::Rejected(LinkError::InvalidForm), 0)
    );
}

#[test]
fn a_store_that_fails_ends_the_request() {
    let (cfg, who, info) = (config(), session("alice"), form("123"));
    let request = LinkRequest {
        now: Instant { secs: DEADLINE_2024, nanos: 0 },
        session: &who,
        config: &cfg,
        form: Some(&info),
    };
    let mut db = OrgDbClient::new();
    db.set_connected(false);
    assert_eq!(
        link(&mut db, &request, Some(SUCCESS), true),
        (LinkOutcome::Failed(InternalError::Store(StoreError::Unavailable)), 0)
    );
    let failed = LinkOutcome::Failed(InternalError::Store(StoreError::Full));
    assert_eq!(
        Linking::CheckingOrgId.step(LinkEvent::OrgMembership(Err(StoreError::Full)), &request),
        (Linking::Finished, LinkAction::Finish(failed))
    );
    assert_eq!(
        Linking::Registering.step(LinkEvent::Registered(Err(StoreError::Full)), &request),
        (Linking::Finished, LinkAction::Finish(failed))
    );
}

#[test]
fn a_zone_that_is_not_known_ends_the_request_before_anything_is_asked() {
    let (mut cfg, who, info) = (config(), session("alice"), form("123"));
    cfg.org.timezone = "Europe/Nowhere".to_string();
    let request = LinkRequest {
        now: Instant { secs: DEADLINE_2024, nanos: 0 },
        session: &who,
        config: &cfg,
        form: Some(&info),
    };
    let failed =
        LinkOutcome::Failed(InternalError::Configuration(ConfigurationError::UnknownTimezone));
    assert_eq!(link_memberships(&request), (Linking::Finished, LinkAction::Finish(failed)));
    assert_eq!(
        Linking::CheckingForm.step(LinkEvent::OwnMembership(Ok(None)), &request),
        (Linking::Finished, LinkAction::Finish(failed))
    );
    assert_eq!(
        Linking::Joining.step(LinkEvent::Joined(true), &request),
        (Linking::Finished, LinkAction::Finish(failed))
    );
}

#[test]
fn an_expiry_day_that_does_not_exist_ends_the_request() {
    let (mut cfg, who, info) = (config(), session("alice"), form("123"));
    cfg.expiry.membership_month = 2;
    cfg.expiry.membership_day = 30;
    let request = LinkRequest {
        now: Instant { secs: DEADLINE_2024, nanos: 0 },
        session: &who,
        config: &cfg,
        form: Some(&info),
    };
    let failed =
        LinkOutcome::Failed(InternalError::Configuration(ConfigurationError::NoSuchDeadline));
    let mut db = OrgDbClient::new();
    assert_eq!(link(&mut db, &request, Some(SUCCESS), true), (failed, 0));
    db.register_member("9", "alice", 2020).unwrap();
    assert_eq!(link(&mut db, &request, Some(SUCCESS), true), (failed, 0));
}

#[test]
fn the_link_ignores_what_it_does_not_wait_for() {
    let (cfg, who, info) = (config(), session("alice"), form("123"));
    let request = LinkRequest {
        now: Instant { secs: DEADLINE_2024, nanos: 0 },
        session: &who,
        config: &cfg,
        form: Some(&info),
    };
    assert_eq!(
        Linking::CheckingForm.step(LinkEvent::Joined(true), &request),
        (Linking::CheckingForm, LinkAction::Stay)
    );
    assert_eq!(
        Linking::Joining.step(LinkEvent::Registered(Ok(1)), &request),
        (Linking::Joining, LinkAction::Stay)
    );
    assert_eq!(
        Linking::Finished.step(LinkEvent::Joined(true), &request),
        (Linking::Finished, LinkAction::Stay)
    );
    let stray = LinkEvent::Verification(VerificationEvent::Transformed(Some("x".to_string())));
    assert_eq!(
        Linking::Verifying(Verification::Submitted).step(stray, &request),
        (Linking::Verifying(Verification::Submitted), LinkAction::Stay)
    );
}

#[test]
fn the_backdoor_leads_straight_to_the_store() {
    let (mut cfg, who, info) = (config(), session("alice"), form("123"));
    cfg.azolve.test_backdoor_member_id = "123".to_string();
    cfg.azolve.test_backdoor_password = "secret".to_string();
    let request = LinkRequest {
        now: Instant { secs: DEADLINE_2024, nanos: 0 },
        session: &who,
        config: &cfg,
        form: Some(&info),
    };
    assert_eq!(
        Linking::CheckingForm.step(LinkEvent::OwnMembership(Ok(None)), &request),
        (Linking::CheckingOrgId, LinkAction::FindByOrgId { org_id: "123".to_string() })
    );
}

#[test]
fn the_form_can_be_used_without_a_membership_or_with_a_lapsed_one() {
    let cfg = config();
    let london = timezone_from_string("Europe/London").unwrap();
    let now = Instant { secs: DEADLINE_2024 + 1, nanos: 0 };
    assert_eq!(can_use_form(now, &None, &london, &cfg.expiry), Ok(true));
    assert_eq!(can_use_form(now, &Some(member("1", "a", 2024)), &london, &cfg.expiry), Ok(true));
    assert_eq!(can_use_form(now, &Some(member("1", "a", 2025)), &london, &cfg.expiry), Ok(false));
    let mut odd = config().expiry;
    odd.membership_day = 32;
    assert_eq!(
        can_use_form(now, &Some(member("1", "a", 2024)), &london, &odd),
        Err(ConfigurationError::NoSuchDeadline)
    );
    assert_eq!(can_use_form(now, &None, &london, &odd), Ok(true));
}

#[test]
fn a_membership_is_free_for_the_account_that_holds_it() {
    assert!(org_id_unused(&None, &session("alice")));
    assert!(org_id_unused(&Some(member("1", "alice", 2024)), &session("alice")));
    assert!(!org_id_unused(&Some(member("1", "bob", 2024)), &session("alice")));
}

#[test]
fn the_member_is_told_why() {
    assert_eq!(LinkError::InvalidForm.message(), "Invalid form data.");
    assert_eq!(
        LinkError::VerificationFailed.message(),
        "Membership verification failed, please check your member ID and password."
    );
    assert_eq!(
        LinkError::VerificationUnavailable.message(),
        "At the moment we're unable to verify your membership. Please try again later."
    );
    assert_eq!(
        LinkError::AlreadyLinked.message(),
        "This membership is already linked to a Lichess account."
    );
    assert_eq!(
        LinkError::GatewayFailure.message(),
        "Could not add you to the Lichess team, please try again later."
    );
}
