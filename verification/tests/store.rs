use org2lichess::db::{extract_one_membership, Membership, OrgDbClient, REFERRAL_LIMIT};
use org2lichess::types::StoreError;

fn member(org_id: &str, lichess_id: &str, exp_year: i32) -> Membership {
    Membership { org_id: org_id.to_string(), lichess_id: lichess_id.to_string(), exp_year }
}

#[test]
fn register_then_get_by_org_id_returns_the_row() {
    let mut db = OrgDbClient::new();
    assert_eq!(db.register_member("A", "B", 2024), Ok(1));
    assert_eq!(db.get_member_for_org_id("A"), Ok(Some(member("A", "B", 2024))));
    assert_eq!(db.get_member_for_lichess_id("B"), Ok(Some(member("A", "B", 2024))));
    assert_eq!(db.get_member_for_org_id("B"), Ok(None));
}

#[test]
fn relink_overwrites_the_old_link() {
    let mut db = OrgDbClient::new();
    db.register_member("A", "B", 2024).unwrap();
    db.register_member("A", "C", 2025).unwrap();
    assert_eq!(db.get_members(), Ok(vec![member("A", "C", 2025)]));
    assert_eq!(db.get_member_for_lichess_id("B"), Ok(None));
}

#[test]
fn register_deletes_the_rows_of_both_identities() {
    let mut db = OrgDbClient::new();
    db.register_member("A", "B", 2024).unwrap();
    db.register_member("C", "D", 2024).unwrap();
    db.register_member("E", "F", 2023).unwrap();
    // A moves to D: the links A-B and C-D both go.
    db.register_member("A", "D", 2026).unwrap();
    assert_eq!(db.get_members(), Ok(vec![member("E", "F", 2023), member("A", "D", 2026)]));
}

#[test]
fn no_identity_is_linked_twice_after_many_registrations() {
    let mut db = OrgDbClient::new();
    let orgs = ["a", "b", "c", "a", "d", "b", "e", "a"];
    let accounts = ["x", "y", "x", "z", "y", "x", "z", "w"];
    for i in 0..orgs.len() {
        db.register_member(orgs[i], accounts[i], 2020 + i as i32).unwrap();
    }
    let all = db.get_members().unwrap();
    for i in 0..all.len() {
        for j in 0..all.len() {
            if i != j {
                assert_ne!(all[i].org_id, all[j].org_id);
                assert_ne!(all[i].lichess_id, all[j].lichess_id);
            }
        }
    }
    assert_eq!(db.get_member_for_org_id("a"), Ok(Some(member("a", "w", 2027))));
}

#[test]
fn remove_twice_returns_one_then_zero() {
    let mut db = OrgDbClient::new();
    db.register_member("A", "B", 2024).unwrap();
    assert_eq!(db.remove_membership("A"), Ok(1));
    assert_eq!(db.remove_membership("A"), Ok(0));
    assert_eq!(db.get_members(), Ok(vec![]));
}

#[test]
fn remove_by_lichess_id_takes_the_row_of_the_account() {
    let mut db = OrgDbClient::new();
    db.register_member("A", "B", 2024).unwrap();
    db.register_member("C", "D", 2025).unwrap();
    assert_eq!(db.remove_membership_by_lichess_id("A"), Ok(0));
    assert_eq!(db.remove_membership_by_lichess_id("B"), Ok(1));
    assert_eq!(db.remove_membership_by_lichess_id("B"), Ok(0));
    assert_eq!(db.get_members(), Ok(vec![member("C", "D", 2025)]));
}

#[test]
fn expired_members_are_those_of_the_year_and_before() {
    let mut db = OrgDbClient::new();
    db.register_member("A", "a", 2022).unwrap();
    db.register_member("B", "b", 2023).unwrap();
    db.register_member("C", "c", 2024).unwrap();
    assert_eq!(
        db.get_members_with_at_most_expiry_year(2023),
        Ok(vec![member("A", "a", 2022), member("B", "b", 2023)])
    );
    assert_eq!(db.get_members_with_at_most_expiry_year(2021), Ok(vec![]));
    assert_eq!(db.get_members_with_at_most_expiry_year(i32::MAX).unwrap().len(), 3);
}

#[test]
fn a_store_that_is_cut_off_refuses_and_keeps_its_rows() {
    let mut db = OrgDbClient::new();
    db.register_member("A", "B", 2024).unwrap();
    db.referral_click("B").unwrap();
    db.set_connected(false);
    assert_eq!(db.remove_membership("A"), Err(StoreError::Unavailable));
    assert_eq!(db.remove_membership_by_lichess_id("B"), Err(StoreError::Unavailable));
    assert_eq!(db.register_member("X", "Y", 2030), Err(StoreError::Unavailable));
    assert_eq!(db.get_members(), Err(StoreError::Unavailable));
    assert_eq!(db.get_member_for_org_id("A"), Err(StoreError::Unavailable));
    assert_eq!(db.get_member_for_lichess_id("B"), Err(StoreError::Unavailable));
    assert_eq!(db.get_members_with_at_most_expiry_year(2024), Err(StoreError::Unavailable));
    assert_eq!(db.referral_click("Z"), Err(StoreError::Unavailable));
    assert_eq!(db.referral_count(), Err(StoreError::Unavailable));
    db.set_connected(true);
    assert_eq!(db.get_members(), Ok(vec![member("A", "B", 2024)]));
    assert_eq!(db.referral_count(), Ok(1));
}

#[test]
fn a_referral_is_counted_once_for_each_account() {
    let mut db = OrgDbClient::new();
    assert_eq!(db.referral_count(), Ok(0));
    assert_eq!(db.referral_click("x"), Ok(1));
    assert_eq!(db.referral_click("x"), Ok(0));
    assert_eq!(db.referral_click("y"), Ok(1));
    assert_eq!(db.referral_click("x"), Ok(0));
    assert_eq!(db.referral_count(), Ok(2));
    assert_eq!(db.get_members(), Ok(vec![]));
}

#[test]
fn a_full_ledger_refuses_new_accounts_only() {
    assert_eq!(REFERRAL_LIMIT, i32::MAX as usize);
    let mut db = OrgDbClient::with_ledger_limit(2);
    assert_eq!(db.referral_click("x"), Ok(1));
    assert_eq!(db.referral_click("y"), Ok(1));
    assert_eq!(db.referral_click("z"), Err(StoreError::Full));
    assert_eq!(db.referral_click("x"), Ok(0));
    assert_eq!(db.referral_count(), Ok(2));
    let mut none = OrgDbClient::with_ledger_limit(0);
    assert_eq!(none.referral_click("x"), Err(StoreError::Full));
    assert_eq!(none.referral_count(), Ok(0));
    let mut wide = OrgDbClient::with_ledger_limit(usize::MAX);
    assert_eq!(wide.referral_click("x"), Ok(1));
}

#[test]
fn extract_one_membership_gives_the_first_row() {
    assert_eq!(extract_one_membership(&vec![]), None);
    let rows = vec![member("A", "a", 2022), member("B", "b", 2023)];
    assert_eq!(extract_one_membership(&rows), Some(member("A", "a", 2022)));
}

#[test]
fn a_copy_of_a_membership_says_the_same() {
    let m = member("A", "a", 2022);
    assert_eq!(m.clone(), m);
}
