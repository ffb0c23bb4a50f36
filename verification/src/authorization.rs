use crate::config::Permission;
use crate::notice::{Delivery, Notice, NoticeView};
use crate::roster::holds_role;
use vstd::prelude::*;

verus! {

/// The caller's membership as the triggering event shows it.
#[derive(Clone, Debug)]
pub struct CallerMember {
    pub user: Option<u64>,
    pub roles: Vec<u64>,
}

/// Who invoked a command, as the triggering event shows it: the user,
/// where the event names one, and the membership, where the command was
/// given inside the community.
#[derive(Clone, Debug)]
pub struct Caller {
    pub user: Option<u64>,
    pub member: Option<CallerMember>,
}

/// The identity of the caller: the user that the event names, else the
/// user of the membership that it shows.
pub open spec fn identity_of(caller: Caller) -> Option<u64> {
    if caller.user is Some {
        caller.user
    } else if caller.member is Some {
        caller.member->0.user
    } else {
        None
    }
}

/// Whether one rule lets the caller in: a user rule names the caller, or
/// a role rule names a role that the caller holds.
pub open spec fn permits(rule: Permission, user: u64, roles: Seq<u64>) -> bool {
    match rule {
        Permission::User(allowed) => allowed == user,
        Permission::Role(allowed) => roles.contains(allowed),
    }
}

/// Whether the allow-list lets the caller in: one of its rules does.
pub open spec fn permitted(rules: Seq<Permission>, user: u64, roles: Seq<u64>) -> bool {
    exists|i: int| 0 <= i < rules.len() && permits(#[trigger] rules[i], user, roles)
}

/// What is said to a caller who is not let in.
pub open spec fn denial() -> NoticeView {
    NoticeView {
        delivery: Delivery::Respond,
        content: "You do not have permission to run this command."@,
        buttons: Seq::empty(),
    }
}

/// What was decided on a caller. A caller who is not let in has to be told
/// so, and the verdict says how: whoever asked for it has nothing left to
/// do but to send `denial` and stop.
#[derive(Clone, Debug)]
pub struct Verdict {
    pub permitted: bool,
    pub denial: Option<Notice>,
}

/// The next step of an authorization.
#[derive(Clone, Debug)]
pub enum AuthorizationStep {
    /// The event did not show which roles the caller holds: fetch the
    /// caller's membership, then `conclude`.
    Fetch { guild: u64, user: u64 },
    Decided(Verdict),
}

/// The verdict on a caller with these roles.
pub open spec fn verdict_ok(verdict: Verdict, rules: Seq<Permission>, user: u64, roles: Seq<u64>) -> bool {
    &&& verdict.permitted == permitted(rules, user, roles)
    &&& verdict.permitted ==> verdict.denial is None
    &&& !verdict.permitted ==> verdict.denial is Some && verdict.denial->0@ == denial()
}

/// Who the caller is; `None` where the event names nobody.
pub fn identity(caller: &Caller) -> (r: Option<u64>)
    ensures
        r == identity_of(*caller),
{
    match caller.user {
        Some(user) => Some(user),
        None => match &caller.member {
            Some(member) => member.user,
            None => None,
        },
    }
}

/// Whether the allow-list lets in the user `user` who holds `roles`.
/// Nothing is changed by asking.
pub fn is_permitted(rules: &Vec<Permission>, user: u64, roles: &Vec<u64>) -> (r: bool)
    ensures
        r == permitted(rules@, user, roles@),
{
    let mut i: usize = 0;
    while i < rules.len()
        invariant
            i <= rules@.len(),
            forall|j: int| 0 <= j < i ==> !permits(#[trigger] rules@[j], user, roles@),
        decreases rules@.len() - i,
    {
        let matches = match rules[i] {
            Permission::User(allowed) => allowed == user,
            Permission::Role(allowed) => holds_role(roles, allowed),
        };
        if matches {
            return true;
        }
        i = i + 1;
    }
    false
}

/// Decides on a caller whose roles are known, and writes the denial where
/// the caller is not let in. `roles` is `None` where the membership could
/// not be fetched: the caller then counts as holding no role.
pub fn conclude(rules: &Vec<Permission>, user: u64, roles: Option<&Vec<u64>>) -> (r: Verdict)
    ensures
        verdict_ok(
            r,
            rules@,
            user,
            match roles {
                Some(held) => held@,
                None => Seq::empty(),
            },
        ),
{
    let allowed = match roles {
        Some(held) => is_permitted(rules, user, held),
        None => {
            let none: Vec<u64> = Vec::new();
            is_permitted(rules, user, &none)
        },
    };
    if allowed {
        Verdict { permitted: true, denial: None }
    } else {
        let notice = Notice {
            delivery: Delivery::Respond,
            content: String::from_str("You do not have permission to run this command."),
            buttons: Vec::new(),
        };
        assert(notice@.buttons =~= Seq::empty());
        Verdict { permitted: false, denial: Some(notice) }
    }
}

/// Guards the purge. A caller is let in who is named by a user rule or
/// holds a role named by a role rule. Where the event shows the caller's
/// membership the decision is made at once; where it does not, the
/// membership has to be fetched first, and the answer says so.
pub fn member_purge_permission(
    rules: &Vec<Permission>,
    guild: u64,
    caller: &Caller,
) -> (r: AuthorizationStep)
    requires
        identity_of(*caller) is Some,
    ensures
        match caller.member {
            Some(member) => r matches AuthorizationStep::Decided(verdict) && verdict_ok(
                verdict,
                rules@,
                identity_of(*caller)->0,
                member.roles@,
            ),
            None => r matches AuthorizationStep::Fetch { guild: g, user } && g == guild && Some(user)
                == identity_of(*caller),
        },
{
    let user = identity(caller).unwrap();
    match &caller.member {
        Some(member) => AuthorizationStep::Decided(conclude(rules, user, Some(&member.roles))),
        None => AuthorizationStep::Fetch { guild, user },
    }
}

/// A caller named by a user rule is let in whatever roles the caller
/// holds, and with none at all.
pub proof fn law_user_rule_suffices(rules: Seq<Permission>, user: u64, roles: Seq<u64>)
    requires
        rules.contains(Permission::User(user)),
    ensures
        permitted(rules, user, roles),
        permitted(rules, user, Seq::empty()),
{
    let i = choose|i: int| 0 <= i < rules.len() && rules[i] == Permission::User(user);
    assert(permits(rules[i], user, roles));
    assert(permits(rules[i], user, Seq::empty()));
}

/// A caller whom no user rule names is let in exactly if the caller holds
/// a role that a role rule names.
pub proof fn law_role_rule_needs_role(rules: Seq<Permission>, user: u64, roles: Seq<u64>)
    requires
        !rules.contains(Permission::User(user)),
    ensures
        permitted(rules, user, roles) <==> exists|role: u64|
            roles.contains(role) && #[trigger] rules.contains(Permission::Role(role)),
{
    if permitted(rules, user, roles) {
        let i = choose|i: int| 0 <= i < rules.len() && permits(#[trigger] rules[i], user, roles);
        match rules[i] {
            Permission::User(allowed) => {
                assert(rules.contains(Permission::User(user)));
            },
            Permission::Role(allowed) => {
                assert(rules.contains(Permission::Role(allowed)));
            },
        }
    }
    if exists|role: u64| roles.contains(role) && #[trigger] rules.contains(Permission::Role(role)) {
        let role = choose|role: u64|
            roles.contains(role) && #[trigger] rules.contains(Permission::Role(role));
        let i = choose|i: int| 0 <= i < rules.len() && rules[i] == Permission::Role(role);
        assert(permits(rules[i], user, roles));
    }
}

} // verus!
