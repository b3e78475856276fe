use org2lichess::azolve::{
    is_backdoor, is_success, is_whitespace, parameters, query, verify_user, Query, Verification,
    VerificationAction, VerificationEvent, SUCCESS,
};
use org2lichess::config::AzolveConfig;
use org2lichess::types::VerificationError;

fn authority(transform_apis: &[&str]) -> AzolveConfig {
    AzolveConfig {
        api: "https://authority.example/lookup".to_string(),
        api_pwd: "shared".to_string(),
        api_token: "tok".to_string(),
        transform_apis: transform_apis.iter().map(|s| s.to_string()).collect(),
        test_backdoor_member_id: String::new(),
        test_backdoor_password: String::new(),
    }
}

fn pairs(pairs: &[(&str, &str)]) -> Vec<(String, String)> {
    pairs.iter().map(|(n, v)| (n.to_string(), v.to_string())).collect()
}

fn submitted(credential: &str) -> VerificationAction {
    let claim = format!("MID|123;PIN|{};Token|tok", credential);
    VerificationAction::Submit(Query {
        url: "https://authority.example/lookup".to_string(),
        pairs: pairs(&[
            ("userId", "AzolveAPI"),
            ("password", "shared"),
            ("clientReference", "ECF"),
            ("objectName", "Cus_SSO_Pin"),
            ("objectType", "sp"),
            ("parameters", &claim),
        ]),
    })
}

#[test]
fn only_the_sentinel_confirms() {
    assert_eq!(SUCCESS, r#"[["Return Code","Message"],["1","Success"]]"#);
    assert!(is_success(SUCCESS));
    assert!(is_success(&format!("  {}\r\n", SUCCESS)));
    assert!(is_success(&format!("\u{a0}\t{}\u{3000}", SUCCESS)));
    assert!(!is_success(""));
    assert!(!is_success("   "));
    assert!(!is_success(r#"[["Return Code","Message"],["0","Failure"]]"#));
    assert!(!is_success(r#"[["Return Code","Message"],["1","Success"]] x"#));
    assert!(!is_success(r#"x [["Return Code","Message"],["1","Success"]]"#));
    assert!(!is_success(r#"[["Return Code", "Message"],["1","Success"]]"#));
    assert!(!is_success(r#"[["Return Code","Message"],["1","Success"]"#));
    assert!(!is_success(&format!("{}{}", SUCCESS, SUCCESS)));
    assert!(!is_success(&format!("\u{200b}{}", SUCCESS)));
}

#[test]
fn an_answer_confirms_where_its_trimmed_text_is_the_sentinel() {
    let around = ["", " ", "\n", "\t \r\n", "\u{2003}", "\u{200b}", "x", "\u{0}"];
    let cores = [SUCCESS, "", "[]", r#"[["Return Code","Message"],["1","Success"]] "#, "[[\"1\"]]"];
    for before in around {
        for core in cores {
            for after in around {
                let body = format!("{}{}{}", before, core, after);
                assert_eq!(is_success(&body), body.trim() == SUCCESS);
            }
        }
    }
}

#[test]
fn white_space_is_what_unicode_says() {
    for c in ['\u{0}', '\u{8}', '\u{e}', '\u{1f}', '!', 'a', '\u{84}', '\u{86}', '\u{200b}', '\u{feff}'] {
        assert!(!is_whitespace(c));
        assert!(!c.is_whitespace());
    }
    let mut seen = 0;
    for code in 0..0x11_0000u32 {
        if let Some(c) = char::from_u32(code) {
            assert_eq!(is_whitespace(c), c.is_whitespace());
            if c.is_whitespace() {
                seen += 1;
            }
        }
    }
    assert_eq!(seen, 25);
}

#[test]
fn the_claim_is_carried_in_one_parameter() {
    assert_eq!(parameters("123", "PIN", "secret", "tok"), "MID|123;PIN|secret;Token|tok");
    assert_eq!(parameters("", "", "", ""), "MID|;|;Token|");
    let q = query(&authority(&[]), "PIN", "123", "secret");
    assert_eq!(VerificationAction::Submit(q), submitted("secret"));
}

#[test]
fn the_backdoor_is_shut_unless_it_is_configured_in_full() {
    let mut azolve = authority(&[]);
    assert!(!is_backdoor("", "", &azolve));
    assert!(!is_backdoor("test", "pw", &azolve));
    azolve.test_backdoor_member_id = "test".to_string();
    assert!(!is_backdoor("test", "", &azolve));
    azolve.test_backdoor_password = "pw".to_string();
    assert!(is_backdoor("test", "pw", &azolve));
    assert!(!is_backdoor("test", "pW", &azolve));
    assert!(!is_backdoor("Test", "pw", &azolve));
    assert!(!is_backdoor("test ", "pw", &azolve));
    assert_eq!(
        verify_user("test", "pw", &azolve, "PIN"),
        (Verification::Finished, VerificationAction::Finish(Ok(())))
    );
    assert_eq!(verify_user("test", "no", &azolve, "PIN").0, Verification::Submitted);
}

#[test]
fn without_a_transform_the_raw_credential_is_submitted() {
    let azolve = authority(&[]);
    assert_eq!(
        verify_user("123", "secret", &azolve, "PIN"),
        (Verification::Submitted, submitted("secret"))
    );
    let azolve = authority(&["", ""]);
    assert_eq!(
        verify_user("123", "secret", &azolve, "PIN"),
        (Verification::Submitted, submitted("secret"))
    );
}

#[test]
fn the_answer_of_the_authority_decides() {
    let azolve = authority(&[]);
    let answered = |body: Option<&str>| {
        Verification::Submitted.step(
            VerificationEvent::Answered(body.map(|b| b.to_string())),
            "123",
            &azolve,
            "PIN",
        )
    };
    assert_eq!(
        answered(Some(SUCCESS)),
        (Verification::Finished, VerificationAction::Finish(Ok(())))
    );
    assert_eq!(
        answered(Some(r#"[["Return Code","Message"],["0","No"]]"#)),
        (Verification::Finished, VerificationAction::Finish(Err(VerificationError::Failed)))
    );
    assert_eq!(
        answered(Some("")),
        (Verification::Finished, VerificationAction::Finish(Err(VerificationError::Failed)))
    );
    assert_eq!(
        answered(None),
        (Verification::Finished, VerificationAction::Finish(Err(VerificationError::Unavailable)))
    );
}

#[test]
fn the_credential_passes_through_each_transform_in_turn() {
    let azolve = authority(&["", "https://one.example", "", "https://two.example", ""]);
    let (state, action) = verify_user("123", "raw", &azolve, "PIN");
    assert_eq!(state, Verification::Transforming { at: 1 });
    assert_eq!(
        action,
        VerificationAction::Transform {
            endpoint: "https://one.example".to_string(),
            credential: "raw".to_string()
        }
    );
    let event = VerificationEvent::Transformed(Some("once".to_string()));
    let (state, action) = state.step(event, "123", &azolve, "PIN");
    assert_eq!(state, Verification::Transforming { at: 3 });
    assert_eq!(
        action,
        VerificationAction::Transform {
            endpoint: "https://two.example".to_string(),
            credential: "once".to_string()
        }
    );
    let event = VerificationEvent::Transformed(Some("twice".to_string()));
    let (state, action) = state.step(event, "123", &azolve, "PIN");
    assert_eq!((state, action), (Verification::Submitted, submitted("twice")));
}

#[test]
fn a_transform_that_fails_ends_the_attempt() {
    let azolve = authority(&["https://one.example", "https://two.example"]);
    let (state, _) = verify_user("123", "raw", &azolve, "PIN");
    assert_eq!(
        state.step(VerificationEvent::Transformed(None), "123", &azolve, "PIN"),
        (Verification::Finished, VerificationAction::Finish(Err(VerificationError::Unavailable)))
    );
}

#[test]
fn the_client_ignores_what_it_does_not_wait_for() {
    let azolve = authority(&["https://one.example"]);
    let answered = VerificationEvent::Answered(Some(SUCCESS.to_string()));
    assert_eq!(
        Verification::Transforming { at: 0 }.step(answered, "123", &azolve, "PIN"),
        (Verification::Transforming { at: 0 }, VerificationAction::Stay)
    );
    let transformed = VerificationEvent::Transformed(Some("x".to_string()));
    assert_eq!(
        Verification::Submitted.step(transformed, "123", &azolve, "PIN"),
        (Verification::Submitted, VerificationAction::Stay)
    );
    let answered = VerificationEvent::Answered(Some(SUCCESS.to_string()));
    assert_eq!(
        Verification::Finished.step(answered, "123", &azolve, "PIN"),
        (Verification::Finished, VerificationAction::Stay)
    );
}

#[test]
fn a_transform_at_the_last_place_leads_to_the_authority() {
    let azolve = authority(&["https://one.example"]);
    let event = VerificationEvent::Transformed(Some("x".to_string()));
    let state = Verification::Transforming { at: usize::MAX };
    assert_eq!(state.step(event, "123", &azolve, "PIN"), (Verification::Submitted, submitted("x")));
}
