use crate::ebas::{confirms, verify_membership};
use crate::json::json_parse;
use crate::notice::{Delivery, Notice, NoticeView};
use crate::text::{append_mention, mention};
use vstd::prelude::*;

verus! {

/// Where a verification stands.
#[derive(Clone, Copy, Debug, PartialEq, Eq, Structural)]
pub enum VerifyStage {
    /// The registry has been asked; waits for its answer.
    Asking,
    /// Membership is confirmed; waits for the outcome of the grant.
    Granting,
    Done,
}

/// How a verification ended.
#[derive(Clone, Copy, Debug, PartialEq, Eq, Structural)]
pub enum VerifyOutcome {
    /// Membership was confirmed and the role was granted.
    Verified,
    /// The registry did not confirm membership, or did not answer.
    NotVerified,
    /// Membership was confirmed, but the role could not be granted.
    GrantFailed,
}

/// What the outside reports back to a verification.
#[derive(Clone, Debug)]
pub enum VerifyEvent {
    /// The registry's answer, or `None` where none came.
    Answered(Option<String>),
    /// The grant was tried; `true` if it went through.
    Granted(bool),
}

/// What a verification asks the outside to do next.
#[derive(Clone, Copy, Debug, PartialEq, Eq)]
pub enum VerifyAction {
    /// Grant `role` to `user`.
    Grant { guild: u64, user: u64, role: u64 },
    /// Tell the caller how it ended; the verification is over.
    Respond { outcome: VerifyOutcome, role: u64 },
    /// The event was not meant for this stage; nothing changes.
    Ignore,
}

/// One verification: a caller who has handed in an identity token and
/// waits to be granted the role.
#[derive(Clone, Copy, Debug, PartialEq, Eq)]
pub struct VerifyFlow {
    pub guild: u64,
    pub user: u64,
    pub role: u64,
    pub stage: VerifyStage,
}

/// Whether what came back from the registry confirms membership. No
/// answer confirms nothing.
pub open spec fn answer_confirms(answer: Option<String>) -> bool {
    match answer {
        Some(text) => confirms(json_parse(text@)),
        None => false,
    }
}

/// The verification workflow as one function: the flow after `event`, and
/// what the outside is asked to do next. The role is granted only after
/// the registry has confirmed membership, and a grant that fails is
/// reported as such.
pub open spec fn verify_step(flow: VerifyFlow, event: VerifyEvent) -> (VerifyFlow, VerifyAction) {
    match flow.stage {
        VerifyStage::Asking => match event {
            VerifyEvent::Answered(answer) => if answer_confirms(answer) {
                (
                    VerifyFlow { stage: VerifyStage::Granting, ..flow },
                    VerifyAction::Grant { guild: flow.guild, user: flow.user, role: flow.role },
                )
            } else {
                (
                    VerifyFlow { stage: VerifyStage::Done, ..flow },
                    VerifyAction::Respond { outcome: VerifyOutcome::NotVerified, role: flow.role },
                )
            },
            _ => (flow, VerifyAction::Ignore),
        },
        VerifyStage::Granting => match event {
            VerifyEvent::Granted(went_through) => (
                VerifyFlow { stage: VerifyStage::Done, ..flow },
                VerifyAction::Respond {
                    outcome: if went_through {
                        VerifyOutcome::Verified
                    } else {
                        VerifyOutcome::GrantFailed
                    },
                    role: flow.role,
                },
            ),
            _ => (flow, VerifyAction::Ignore),
        },
        VerifyStage::Done => (flow, VerifyAction::Ignore),
    }
}

impl VerifyFlow {
    /// The verification of `user`, for whom the registry is being asked.
    pub fn begin(guild: u64, user: u64, role: u64) -> (r: VerifyFlow)
        ensures
            r == (VerifyFlow { guild, user, role, stage: VerifyStage::Asking }),
    {
        VerifyFlow { guild, user, role, stage: VerifyStage::Asking }
    }
}

/// Carries one verification forward: takes in the registry's answer or
/// the outcome of the grant, and says what is to be done next.
pub fn member_verify(flow: &mut VerifyFlow, event: &VerifyEvent) -> (action: VerifyAction)
    ensures
        (*final(flow), action) == verify_step(*old(flow), *event),
{
    match flow.stage {
        VerifyStage::Asking => match event {
            VerifyEvent::Answered(answer) => {
                let is_member = match answer {
                    Some(text) => verify_membership(text.as_str()),
                    None => false,
                };
                if is_member {
                    flow.stage = VerifyStage::Granting;
                    VerifyAction::Grant { guild: flow.guild, user: flow.user, role: flow.role }
                } else {
                    flow.stage = VerifyStage::Done;
                    VerifyAction::Respond { outcome: VerifyOutcome::NotVerified, role: flow.role }
                }
            },
            _ => VerifyAction::Ignore,
        },
        VerifyStage::Granting => match event {
            VerifyEvent::Granted(went_through) => {
                flow.stage = VerifyStage::Done;
                if *went_through {
                    VerifyAction::Respond { outcome: VerifyOutcome::Verified, role: flow.role }
                } else {
                    VerifyAction::Respond { outcome: VerifyOutcome::GrantFailed, role: flow.role }
                }
            },
            _ => VerifyAction::Ignore,
        },
        VerifyStage::Done => VerifyAction::Ignore,
    }
}

/// What the caller is told at the end of a verification.
pub open spec fn outcome_text(outcome: VerifyOutcome, role: u64) -> Seq<char> {
    match outcome {
        VerifyOutcome::Verified => "Thanks for your membership! You have been added to "@
            + mention(role) + "."@,
        VerifyOutcome::NotVerified =>
            "We have no registered member with this email. After you have registered, you can rerun the command."@,
        VerifyOutcome::GrantFailed => "Thanks for your membership! I could not add you to "@
            + mention(role) + ", though. Please ask an administrator for help."@,
    }
}

/// Writes what the caller is told at the end of a verification: an answer
/// to the command that nobody else sees.
pub fn outcome_notice(outcome: VerifyOutcome, role: u64) -> (r: Notice)
    ensures
        r@ == (NoticeView {
            delivery: Delivery::Respond,
            content: outcome_text(outcome, role),
            buttons: Seq::empty(),
        }),
{
    let content = match outcome {
        VerifyOutcome::Verified => {
            let mut text = String::from_str("Thanks for your membership! You have been added to ");
            append_mention(&mut text, role);
            text.append(".");
            assert(text@ =~= outcome_text(outcome, role));
            text
        },
        VerifyOutcome::NotVerified => String::from_str(
            "We have no registered member with this email. After you have registered, you can rerun the command.",
        ),
        VerifyOutcome::GrantFailed => {
            let mut text = String::from_str("Thanks for your membership! I could not add you to ");
            append_mention(&mut text, role);
            text.append(", though. Please ask an administrator for help.");
            assert(text@ =~= outcome_text(outcome, role));
            text
        },
    };
    let r = Notice { delivery: Delivery::Respond, content, buttons: Vec::new() };
    assert(r@.buttons =~= Seq::empty());
    r
}

/// A verification fed a row of events, one after the other: where it
/// ends, and what it asked for on the way.
pub open spec fn verify_run(flow: VerifyFlow, events: Seq<VerifyEvent>) -> (
    VerifyFlow,
    Seq<VerifyAction>,
)
    decreases events.len(),
{
    if events.len() == 0 {
        (flow, Seq::empty())
    } else {
        let before = verify_run(flow, events.drop_last());
        let last = verify_step(before.0, events.last());
        (last.0, before.1.push(last.1))
    }
}

/// How many of the actions grant the role.
pub open spec fn grants(actions: Seq<VerifyAction>) -> nat
    decreases actions.len(),
{
    if actions.len() == 0 {
        0
    } else if actions.last() is Grant {
        grants(actions.drop_last()) + 1
    } else {
        grants(actions.drop_last())
    }
}

/// Whether the event is an answer of the registry that confirms membership.
pub open spec fn confirming(event: VerifyEvent) -> bool {
    match event {
        VerifyEvent::Answered(answer) => answer_confirms(answer),
        _ => false,
    }
}

/// The role is granted once at most, and only to a caller whose
/// membership the registry has confirmed: whatever is reported to a
/// verification, as long as it still waits for the registry it has
/// granted nothing, and afterwards it has granted once at most.
pub proof fn law_grant_once(flow: VerifyFlow, events: Seq<VerifyEvent>)
    requires
        flow.stage == VerifyStage::Asking,
    ensures
        grants(verify_run(flow, events).1) <= 1,
        verify_run(flow, events).0.stage == VerifyStage::Asking ==> grants(
            verify_run(flow, events).1,
        ) == 0,
        grants(verify_run(flow, events).1) == 1 ==> exists|i: int|
            0 <= i < events.len() && confirming(#[trigger] events[i]),
    decreases events.len(),
{
    if events.len() > 0 {
        let earlier = events.drop_last();
        law_grant_once(flow, earlier);
        let before = verify_run(flow, earlier);
        let last = verify_step(before.0, events.last());
        assert(before.1.push(last.1).drop_last() =~= before.1);
        lemma_granted_leaves_asking(flow, earlier);
        if grants(before.1) == 1 {
            let i = choose|i: int| 0 <= i < earlier.len() && confirming(#[trigger] earlier[i]);
            assert(events[i] == earlier[i]);
        }
        if last.1 is Grant {
            assert(confirming(events[events.len() - 1]));
        }
    }
}

proof fn lemma_granted_leaves_asking(flow: VerifyFlow, events: Seq<VerifyEvent>)
    requires
        flow.stage == VerifyStage::Asking,
    ensures
        grants(verify_run(flow, events).1) > 0 ==> verify_run(flow, events).0.stage
            != VerifyStage::Asking,
    decreases events.len(),
{
    if events.len() > 0 {
        lemma_granted_leaves_asking(flow, events.drop_last());
        let before = verify_run(flow, events.drop_last());
        let last = verify_step(before.0, events.last());
        assert(before.1.push(last.1).drop_last() =~= before.1);
    }
}

} // verus!
