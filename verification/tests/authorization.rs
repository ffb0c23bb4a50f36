use kodbot::authorization::{
    conclude, identity, is_permitted, member_purge_permission, AuthorizationStep, Caller,
    CallerMember,
};
use kodbot::config::Permission;
use kodbot::notice::Delivery;

fn rules() -> Vec<Permission> {
    vec![Permission::User(1), Permission::Role(50), Permission::User(2), Permission::Role(60)]
}

#[test]
fn a_user_rule_lets_in_without_any_role() {
    assert!(is_permitted(&rules(), 1, &vec![]));
    assert!(is_permitted(&rules(), 2, &vec![7, 8]));
}

#[test]
fn a_role_rule_lets_in_only_who_holds_the_role() {
    assert!(is_permitted(&rules(), 3, &vec![7, 60]));
    assert!(is_permitted(&rules(), 3, &vec![50]));
    assert!(!is_permitted(&rules(), 3, &vec![7, 8]));
    assert!(!is_permitted(&rules(), 3, &vec![]));
}

#[test]
fn a_user_identifier_is_no_role_and_the_other_way_round() {
    // 50 is a role rule, not a user rule; 1 is a user rule, not a role rule.
    assert!(!is_permitted(&rules(), 50, &vec![]));
    assert!(!is_permitted(&rules(), 3, &vec![1, 2]));
}

#[test]
fn an_empty_list_lets_nobody_in() {
    assert!(!is_permitted(&vec![], 1, &vec![50]));
}

#[test]
fn the_user_named_by_the_event_comes_first() {
    let caller = Caller {
        user: Some(4),
        member: Some(CallerMember { user: Some(5), roles: vec![] }),
    };
    assert_eq!(identity(&caller), Some(4));
    let caller = Caller { user: None, member: Some(CallerMember { user: Some(5), roles: vec![] }) };
    assert_eq!(identity(&caller), Some(5));
    let caller = Caller { user: None, member: Some(CallerMember { user: None, roles: vec![] }) };
    assert_eq!(identity(&caller), None);
    let caller = Caller { user: None, member: None };
    assert_eq!(identity(&caller), None);
}

#[test]
fn roles_at_hand_decide_at_once() {
    let caller = Caller {
        user: None,
        member: Some(CallerMember { user: Some(3), roles: vec![9, 60] }),
    };
    match member_purge_permission(&rules(), 900, &caller) {
        AuthorizationStep::Decided(verdict) => {
            assert!(verdict.permitted);
            assert!(verdict.denial.is_none());
        }
        AuthorizationStep::Fetch { .. } => panic!("the roles were at hand"),
    }
}

#[test]
fn who_is_not_let_in_is_told_so() {
    let caller = Caller {
        user: None,
        member: Some(CallerMember { user: Some(3), roles: vec![9] }),
    };
    match member_purge_permission(&rules(), 900, &caller) {
        AuthorizationStep::Decided(verdict) => {
            assert!(!verdict.permitted);
            let denial = verdict.denial.unwrap();
            assert_eq!(denial.delivery, Delivery::Respond);
            assert_eq!(denial.content, "You do not have permission to run this command.");
            assert!(denial.buttons.is_empty());
        }
        AuthorizationStep::Fetch { .. } => panic!("the roles were at hand"),
    }
}

#[test]
fn roles_not_at_hand_are_fetched() {
    let caller = Caller { user: Some(1), member: None };
    match member_purge_permission(&rules(), 900, &caller) {
        AuthorizationStep::Fetch { guild, user } => {
            assert_eq!(guild, 900);
            assert_eq!(user, 1);
        }
        AuthorizationStep::Decided(_) => panic!("the roles were not at hand"),
    }
    let fetched = vec![60];
    assert!(conclude(&rules(), 3, Some(&fetched)).permitted);
    let fetched = vec![61];
    let verdict = conclude(&rules(), 3, Some(&fetched));
    assert!(!verdict.permitted);
    assert_eq!(
        verdict.denial.unwrap().content,
        "You do not have permission to run this command."
    );
}

#[test]
fn a_membership_that_cannot_be_fetched_counts_as_no_role() {
    assert!(conclude(&rules(), 1, None).permitted);
    assert!(!conclude(&rules(), 3, None).permitted);
}
