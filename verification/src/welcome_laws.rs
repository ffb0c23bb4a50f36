use crate::state::{State, Welcome};
use crate::welcome::{
    fetched_from, reconcile_step, validated, DesiredView, FetchedView, ReconcileAction,
    ReconcileEventView, ReconcileStage, Reconciled, WelcomeError, NOT_FOUND,
};
use vstd::prelude::*;

verus! {

/// The channel as the platform holds it: what each message in it says, by
/// the identifier of the message.
pub type Channel = Map<u64, Seq<char>>;

/// What the platform does when it is asked for `action`, and what it
/// reports back: a message that is asked for is shown if it is there; the
/// announcement is posted under the identifier `fresh`; an edit puts the
/// wanted text in place; the state is written, or not, as `saved` has it.
pub open spec fn served(
    channel: Channel,
    announcement: DesiredView,
    action: ReconcileAction,
    fresh: u64,
    saved: bool,
) -> (Channel, ReconcileEventView) {
    match action {
        ReconcileAction::Fetch { channel: _, message } => (
            channel,
            ReconcileEventView::Fetched(
                if channel.contains_key(message) {
                    FetchedView::Found(channel[message])
                } else {
                    FetchedView::Refused
                },
            ),
        ),
        ReconcileAction::Post { channel: _ } => (
            channel.insert(fresh, announcement.content),
            ReconcileEventView::Posted(fresh),
        ),
        ReconcileAction::Edit { channel: _, message } => (
            channel.insert(message, announcement.content),
            ReconcileEventView::Edited,
        ),
        _ => (channel, ReconcileEventView::Saved(saved)),
    }
}

/// How a pass of the reconciler against the platform ended.
pub struct Pass {
    pub state: State,
    pub channel: Channel,
    /// How many times the platform was asked to post or to edit.
    pub writes: nat,
    /// How many times the platform was asked for a message.
    pub fetches: nat,
    /// How it ended, or `None` if it has not.
    pub outcome: Option<Reconciled>,
}

/// The rest of a pass: the platform does what `action` asks, the
/// reconciler takes in what comes back, and so on, for at most `rounds`
/// actions.
pub open spec fn driven(
    desired: Option<DesiredView>,
    state: State,
    stage: ReconcileStage,
    action: ReconcileAction,
    channel: Channel,
    fresh: u64,
    saved: bool,
    rounds: nat,
) -> Pass
    decreases rounds,
{
    match action {
        ReconcileAction::Stop(outcome) => Pass {
            state,
            channel,
            writes: 0,
            fetches: 0,
            outcome: Some(outcome),
        },
        ReconcileAction::Ignore => Pass { state, channel, writes: 0, fetches: 0, outcome: None },
        _ => if rounds == 0 || desired is None {
            Pass { state, channel, writes: 0, fetches: 0, outcome: None }
        } else {
            let answer = served(channel, desired->0, action, fresh, saved);
            let next = reconcile_step(desired, state, stage, answer.1);
            let rest = driven(
                desired,
                next.0,
                next.1,
                next.2,
                answer.0,
                fresh,
                saved,
                (rounds - 1) as nat,
            );
            Pass {
                writes: rest.writes + if action is Post || action is Edit {
                    1nat
                } else {
                    0nat
                },
                fetches: rest.fetches + if action is Fetch {
                    1nat
                } else {
                    0nat
                },
                ..rest
            }
        },
    }
}

/// One whole pass of the reconciler against the platform, from `Start`.
/// No pass takes more than four actions.
pub open spec fn pass(
    desired: Option<DesiredView>,
    state: State,
    channel: Channel,
    fresh: u64,
    saved: bool,
) -> Pass {
    let first = reconcile_step(desired, state, ReconcileStage::Idle, ReconcileEventView::Start);
    driven(desired, first.0, first.1, first.2, channel, fresh, saved, 4)
}

/// Where no announcement is wanted the reconciler asks nothing of the
/// platform and changes nothing.
pub proof fn law_nothing_wanted(state: State, channel: Channel, fresh: u64, saved: bool)
    ensures
        reconcile_step(None, state, ReconcileStage::Idle, ReconcileEventView::Start) == (
            state,
            ReconcileStage::Done,
            ReconcileAction::Stop(Reconciled::NothingWanted),
        ),
        pass(None, state, channel, fresh, saved) == (Pass {
            state,
            channel,
            writes: 0,
            fetches: 0,
            outcome: Some(Reconciled::NothingWanted),
        }),
{
    reveal_with_fuel(driven, 2);
}

/// One pass is enough. Whether the state names no message, one that is
/// gone, one that says something else or one that says what is wanted:
/// after the pass the state names a message that is there and says what
/// is wanted, and the platform was asked to write at most once and to
/// show a message at most once. This holds whether or not the state could
/// be written. (`fresh` is the identifier that the platform gives to a
/// message posted in the pass.)
pub proof fn law_converges(
    announcement: DesiredView,
    state: State,
    channel: Channel,
    fresh: u64,
    saved: bool,
)
    ensures
        ({
            let p = pass(Some(announcement), state, channel, fresh, saved);
            &&& p.outcome is Some
            &&& p.outcome != Some(Reconciled::GaveUp)
            &&& p.state.welcome is Some
            &&& p.channel.contains_key(p.state.welcome->0.message)
            &&& p.channel[p.state.welcome->0.message] == announcement.content
            &&& p.state.member == state.member
            &&& p.writes <= 1
            &&& p.fetches <= 1
        }),
{
    reveal_with_fuel(driven, 5);
}

/// A second pass right after the first, with nothing changed in between,
/// asks the platform to write nothing and leaves everything as the first
/// pass left it.
pub proof fn law_idempotent(
    desired: Option<DesiredView>,
    state: State,
    channel: Channel,
    fresh: u64,
    saved: bool,
    fresh_again: u64,
    saved_again: bool,
)
    ensures
        ({
            let once = pass(desired, state, channel, fresh, saved);
            let twice = pass(desired, once.state, once.channel, fresh_again, saved_again);
            &&& once.writes <= 1
            &&& twice.writes == 0
            &&& twice.state == once.state
            &&& twice.channel == once.channel
            &&& desired is None ==> twice.fetches == 0
            &&& desired is Some ==> twice.outcome == Some(Reconciled::Kept)
        }),
{
    reveal_with_fuel(driven, 5);
    match desired {
        None => {
            law_nothing_wanted(state, channel, fresh, saved);
        },
        Some(announcement) => {
            law_converges(announcement, state, channel, fresh, saved);
        },
    }
}

/// Whenever the reconciler changes the state it asks for the state to be
/// written, and what it changes is the record of the announcement alone.
pub proof fn law_changes_are_saved(
    desired: Option<DesiredView>,
    state: State,
    stage: ReconcileStage,
    event: ReconcileEventView,
)
    ensures
        ({
            let after = reconcile_step(desired, state, stage, event);
            &&& after.0 != state ==> after.2 == ReconcileAction::Save
            &&& after.0.member == state.member
        }),
{
}

/// The state is written after a post and at no other time, and what is
/// written then names the message that was posted.
pub proof fn law_save_follows_post(
    desired: Option<DesiredView>,
    state: State,
    stage: ReconcileStage,
    event: ReconcileEventView,
)
    ensures
        ({
            let after = reconcile_step(desired, state, stage, event);
            &&& after.2 == ReconcileAction::Save <==> desired is Some && stage
                == ReconcileStage::Posting && event is Posted
            &&& after.2 == ReconcileAction::Save ==> after.0.welcome == Some(
                Welcome { message: event->Posted_0 },
            )
        }),
{
}

/// The reconciler posts and edits only where an announcement is wanted,
/// so that the text to post or to edit in is at hand.
pub proof fn law_text_is_at_hand(
    desired: Option<DesiredView>,
    state: State,
    stage: ReconcileStage,
    event: ReconcileEventView,
)
    ensures
        ({
            let after = reconcile_step(desired, state, stage, event);
            after.2 is Post || after.2 is Edit ==> desired is Some
        }),
{
}

/// The check of the stored message says that it is not found exactly
/// when the platform answered so; every other failure to fetch it, an
/// error answer of another kind among them, is told apart from that.
pub proof fn law_not_found_alone(status: Option<u16>, content: Option<String>, text: Seq<char>)
    ensures
        validated(fetched_from(status, content), text) == Err::<(), WelcomeError>(
            WelcomeError::MessageNotFound,
        ) <==> status == Some(NOT_FOUND),
        status != Some(NOT_FOUND) && !(status is Some && 200 <= status->0 < 300 && content
            is Some) ==> validated(fetched_from(status, content), text) == Err::<
            (),
            WelcomeError,
        >(WelcomeError::Other),
{
}

/// A fetch that failed, for whatever reason but that the message is gone,
/// posts nothing and leaves the state as it is; a message that is gone is
/// posted anew.
pub proof fn law_only_gone_is_posted_anew(announcement: DesiredView, state: State)
    requires
        state.welcome is Some,
    ensures
        reconcile_step(
            Some(announcement),
            state,
            ReconcileStage::Checking,
            ReconcileEventView::Fetched(FetchedView::Failed),
        ) == (state, ReconcileStage::Done, ReconcileAction::Stop(Reconciled::GaveUp)),
        reconcile_step(
            Some(announcement),
            state,
            ReconcileStage::Checking,
            ReconcileEventView::Fetched(FetchedView::Refused),
        ) == (
            state,
            ReconcileStage::Posting,
            ReconcileAction::Post { channel: announcement.channel },
        ),
{
}

} // verus!
