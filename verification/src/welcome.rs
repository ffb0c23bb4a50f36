use crate::config::Config;
use crate::state::{State, Welcome};
use vstd::prelude::*;

verus! {

/// Why the posted announcement is not as wanted.
#[derive(Clone, Copy, Debug, PartialEq, Eq, Structural)]
pub enum WelcomeError {
    /// The message that the state names is gone.
    MessageNotFound,
    /// The message is there and says something else.
    WrongContent,
    /// The platform could not be asked.
    Other,
}

/// The announcement that is wanted: where, and what it says.
#[derive(Clone, Debug)]
pub struct DesiredAnnouncement {
    pub channel: u64,
    pub content: String,
}

/// The wanted announcement as the contracts see it.
pub struct DesiredView {
    pub channel: u64,
    pub content: Seq<char>,
}

impl View for DesiredAnnouncement {
    type V = DesiredView;

    open spec fn view(&self) -> DesiredView {
        DesiredView { channel: self.channel, content: self.content@ }
    }
}

/// The wanted announcement, if any, as the contracts see it.
pub open spec fn wanted(desired: Option<DesiredAnnouncement>) -> Option<DesiredView> {
    match desired {
        Some(announcement) => Some(announcement@),
        None => None,
    }
}

/// What asking the platform for a message came to.
#[derive(Clone, Debug)]
pub enum Fetched {
    /// The message is there; this is what it says.
    Found(String),
    /// The platform answered that there is no such message: it is gone.
    Refused,
    /// Whether the message is there could not be learned: the platform
    /// gave no answer, or answered with any other error, or what it
    /// answered could not be read.
    Failed,
}

/// What asking for a message came to, as the contracts see it.
pub enum FetchedView {
    Found(Seq<char>),
    Refused,
    Failed,
}

impl View for Fetched {
    type V = FetchedView;

    open spec fn view(&self) -> FetchedView {
        match self {
            Fetched::Found(content) => FetchedView::Found(content@),
            Fetched::Refused => FetchedView::Refused,
            Fetched::Failed => FetchedView::Failed,
        }
    }
}

/// The status with which the platform answers that there is no such
/// message.
pub const NOT_FOUND: u16 = 404;

/// What an answer of the platform says of the message asked for. Only the
/// status `NOT_FOUND` says that the message is gone; only a status of
/// success, 200 to 299, together with the text of the message says that
/// it is there; everything else leaves it open.
pub open spec fn fetched_from(status: Option<u16>, content: Option<String>) -> FetchedView {
    if status == Some(NOT_FOUND) {
        FetchedView::Refused
    } else if status is Some && 200 <= status->0 < 300 && content is Some {
        FetchedView::Found(content->0@)
    } else {
        FetchedView::Failed
    }
}

/// Sorts what came back when the platform was asked for a message.
/// `status` is the status of its answer, `None` where no answer came;
/// `content` is the text of the message that the answer held, `None`
/// where it held none that could be read.
pub fn fetched(status: Option<u16>, content: Option<String>) -> (r: Fetched)
    ensures
        r@ == fetched_from(status, content),
{
    match status {
        None => Fetched::Failed,
        Some(code) => {
            if code == NOT_FOUND {
                Fetched::Refused
            } else if 200 <= code && code < 300 {
                match content {
                    Some(text) => Fetched::Found(text),
                    None => Fetched::Failed,
                }
            } else {
                Fetched::Failed
            }
        },
    }
}

/// Holds what was fetched against the wanted text. Only a message that is
/// gone counts as not found; a fetch that failed in any other way leaves
/// open whether it is there.
pub open spec fn validated(fetched: FetchedView, content: Seq<char>) -> Result<(), WelcomeError> {
    match fetched {
        FetchedView::Found(posted) => if posted == content {
            Ok(())
        } else {
            Err(WelcomeError::WrongContent)
        },
        FetchedView::Refused => Err(WelcomeError::MessageNotFound),
        FetchedView::Failed => Err(WelcomeError::Other),
    }
}

/// Checks the message that the state names against the wanted text:
/// whether it is there, and whether it says what is wanted.
pub fn validate_welcome_message(
    fetched: &Fetched,
    content: &String,
) -> (r: Result<(), WelcomeError>)
    ensures
        r == validated(fetched@, content@),
{
    match fetched {
        Fetched::Found(posted) => {
            if *posted == *content {
                Ok(())
            } else {
                Err(WelcomeError::WrongContent)
            }
        },
        Fetched::Refused => Err(WelcomeError::MessageNotFound),
        Fetched::Failed => Err(WelcomeError::Other),
    }
}

/// Where a pass of the reconciler stands.
#[derive(Clone, Copy, Debug, PartialEq, Eq, Structural)]
pub enum ReconcileStage {
    Idle,
    /// Waits for the message that the state names.
    Checking,
    /// Waits for the identifier of the new message.
    Posting,
    /// Waits for the edit to go through.
    Editing,
    /// Waits for the state to be written.
    Saving,
    Done,
}

/// How a pass of the reconciler ended.
#[derive(Clone, Copy, Debug, PartialEq, Eq, Structural)]
pub enum Reconciled {
    /// No announcement is wanted; nothing was asked of the platform.
    NothingWanted,
    /// The announcement was there and said what is wanted.
    Kept,
    /// The announcement was there and has been edited.
    Edited,
    /// The announcement has been posted anew and the state written.
    Posted,
    /// The announcement has been posted anew, but the state could not be
    /// written. The message stays; the next pass will find it or post
    /// again.
    PostedUnsaved,
    /// The platform failed; nothing more was tried.
    GaveUp,
}

/// What the outside reports back to the reconciler.
#[derive(Clone, Debug)]
pub enum ReconcileEvent {
    Start,
    Fetched(Fetched),
    /// The announcement was posted under this identifier.
    Posted(u64),
    Edited,
    /// The state was written, or could not be.
    Saved(bool),
    /// The platform did not do what was asked.
    Failed,
}

/// What is reported back, as the contracts see it.
pub enum ReconcileEventView {
    Start,
    Fetched(FetchedView),
    Posted(u64),
    Edited,
    Saved(bool),
    Failed,
}

impl View for ReconcileEvent {
    type V = ReconcileEventView;

    open spec fn view(&self) -> ReconcileEventView {
        match self {
            ReconcileEvent::Start => ReconcileEventView::Start,
            ReconcileEvent::Fetched(fetched) => ReconcileEventView::Fetched(fetched@),
            ReconcileEvent::Posted(message) => ReconcileEventView::Posted(*message),
            ReconcileEvent::Edited => ReconcileEventView::Edited,
            ReconcileEvent::Saved(written) => ReconcileEventView::Saved(*written),
            ReconcileEvent::Failed => ReconcileEventView::Failed,
        }
    }
}

/// What the reconciler asks the outside to do next. The text to post or
/// to edit in is that of the wanted announcement.
#[derive(Clone, Copy, Debug, PartialEq, Eq, Structural)]
pub enum ReconcileAction {
    Fetch { channel: u64, message: u64 },
    Post { channel: u64 },
    Edit { channel: u64, message: u64 },
    /// Write the state.
    Save,
    /// The pass is over.
    Stop(Reconciled),
    /// The event was not meant for this stage; nothing changes.
    Ignore,
}

/// The reconciler as one function: the state and the stage after `event`,
/// and what the outside is asked to do next.
pub open spec fn reconcile_step(
    desired: Option<DesiredView>,
    state: State,
    stage: ReconcileStage,
    event: ReconcileEventView,
) -> (State, ReconcileStage, ReconcileAction) {
    match desired {
        None => match (stage, event) {
            (ReconcileStage::Idle, ReconcileEventView::Start) => (
                state,
                ReconcileStage::Done,
                ReconcileAction::Stop(Reconciled::NothingWanted),
            ),
            _ => (state, stage, ReconcileAction::Ignore),
        },
        Some(announcement) => {
            let post = (
                state,
                ReconcileStage::Posting,
                ReconcileAction::Post { channel: announcement.channel },
            );
            let give_up = (state, ReconcileStage::Done, ReconcileAction::Stop(Reconciled::GaveUp));
            match (stage, event) {
                (ReconcileStage::Idle, ReconcileEventView::Start) => match state.welcome {
                    None => post,
                    Some(record) => (
                        state,
                        ReconcileStage::Checking,
                        ReconcileAction::Fetch {
                            channel: announcement.channel,
                            message: record.message,
                        },
                    ),
                },
                (ReconcileStage::Checking, ReconcileEventView::Fetched(fetched)) => match (
                    validated(fetched, announcement.content),
                    state.welcome,
                ) {
                    (Ok(_), _) => (
                        state,
                        ReconcileStage::Done,
                        ReconcileAction::Stop(Reconciled::Kept),
                    ),
                    (Err(WelcomeError::MessageNotFound), _) => post,
                    (Err(WelcomeError::WrongContent), Some(record)) => (
                        state,
                        ReconcileStage::Editing,
                        ReconcileAction::Edit {
                            channel: announcement.channel,
                            message: record.message,
                        },
                    ),
                    _ => give_up,
                },
                (ReconcileStage::Posting, ReconcileEventView::Posted(message)) => (
                    State { welcome: Some(Welcome { message }), ..state },
                    ReconcileStage::Saving,
                    ReconcileAction::Save,
                ),
                (ReconcileStage::Posting, ReconcileEventView::Failed) => give_up,
                (ReconcileStage::Editing, ReconcileEventView::Edited) => (
                    state,
                    ReconcileStage::Done,
                    ReconcileAction::Stop(Reconciled::Edited),
                ),
                (ReconcileStage::Editing, ReconcileEventView::Failed) => give_up,
                (ReconcileStage::Saving, ReconcileEventView::Saved(written)) => (
                    state,
                    ReconcileStage::Done,
                    ReconcileAction::Stop(
                        if written {
                            Reconciled::Posted
                        } else {
                            Reconciled::PostedUnsaved
                        },
                    ),
                ),
                _ => (state, stage, ReconcileAction::Ignore),
            }
        },
    }
}

/// What the reconciler asks for next, with all that the outside needs to do
/// it.
#[derive(Clone, Debug)]
pub struct ReconcileOrder {
    pub stage: ReconcileStage,
    pub action: ReconcileAction,
    /// The text to post or to edit in. It goes with `Post` and `Edit`, and
    /// with no other action.
    pub text: Option<String>,
    /// The file to write the state to. It goes with `Save`, and with no
    /// other action.
    pub path: Option<String>,
}

/// The text that goes with an action: that of the wanted announcement,
/// where the action posts or edits.
pub open spec fn text_with(
    desired: Option<DesiredAnnouncement>,
    action: ReconcileAction,
) -> Option<String> {
    match (action, desired) {
        (ReconcileAction::Post { .. }, Some(announcement)) => Some(announcement.content),
        (ReconcileAction::Edit { .. }, Some(announcement)) => Some(announcement.content),
        _ => None,
    }
}

/// The file that goes with an action: the one that holds the state, where
/// the action writes the state.
pub open spec fn path_with(state_path: String, action: ReconcileAction) -> Option<String> {
    if action == ReconcileAction::Save {
        Some(state_path)
    } else {
        None
    }
}

/// The announcement that the configuration wants, given what reading the
/// file it names came to (see `Welcome::content`).
pub fn desired(config: &Config, read: Option<String>) -> (r: Option<DesiredAnnouncement>)
    ensures
        r is Some == (config.welcome.text is Some || (config.welcome.file is Some && read is Some)),
        r matches Some(announcement) ==> announcement.channel == config.welcome.channel && Some(
            announcement.content,
        ) == (if config.welcome.text is Some {
            config.welcome.text
        } else {
            read
        }),
{
    match config.welcome().content(read) {
        Some(content) => Some(DesiredAnnouncement { channel: config.welcome().channel(), content }),
        None => None,
    }
}

/// Carries one pass of the reconciler forward. A pass begins with `Start`
/// at the stage `Idle`. Where no announcement is wanted it ends at once.
/// Where the state names no message, or names one that is gone, the
/// announcement is posted, the state takes the new identifier and is
/// written. Where the message is there and says something else, it is
/// edited in place and the state stays. Where it says what is wanted,
/// nothing is done. That the state could not be written is reported and
/// undoes nothing.
pub fn handle_welcome_message(
    desired: &Option<DesiredAnnouncement>,
    state: &mut State,
    stage: ReconcileStage,
    event: &ReconcileEvent,
) -> (r: (ReconcileStage, ReconcileAction))
    ensures
        (*final(state), r.0, r.1) == reconcile_step(wanted(*desired), *old(state), stage, event@),
{
    let announcement = match desired {
        None => {
            return match (stage, event) {
                (ReconcileStage::Idle, ReconcileEvent::Start) => (
                    ReconcileStage::Done,
                    ReconcileAction::Stop(Reconciled::NothingWanted),
                ),
                _ => (stage, ReconcileAction::Ignore),
            };
        },
        Some(announcement) => announcement,
    };
    let channel = announcement.channel;
    let post = (ReconcileStage::Posting, ReconcileAction::Post { channel });
    let give_up = (ReconcileStage::Done, ReconcileAction::Stop(Reconciled::GaveUp));
    match (stage, event) {
        (ReconcileStage::Idle, ReconcileEvent::Start) => match state.welcome() {
            None => post,
            Some(record) => (
                ReconcileStage::Checking,
                ReconcileAction::Fetch { channel, message: record.message() },
            ),
        },
        (ReconcileStage::Checking, ReconcileEvent::Fetched(fetched)) => {
            match (validate_welcome_message(fetched, &announcement.content), state.welcome()) {
                (Ok(_), _) => (ReconcileStage::Done, ReconcileAction::Stop(Reconciled::Kept)),
                (Err(WelcomeError::MessageNotFound), _) => post,
                (Err(WelcomeError::WrongContent), Some(record)) => (
                    ReconcileStage::Editing,
                    ReconcileAction::Edit { channel, message: record.message() },
                ),
                _ => give_up,
            }
        },
        (ReconcileStage::Posting, ReconcileEvent::Posted(message)) => {
            state.set_welcome(Welcome::new(*message));
            (ReconcileStage::Saving, ReconcileAction::Save)
        },
        (ReconcileStage::Posting, ReconcileEvent::Failed) => give_up,
        (ReconcileStage::Editing, ReconcileEvent::Edited) => (
            ReconcileStage::Done,
            ReconcileAction::Stop(Reconciled::Edited),
        ),
        (ReconcileStage::Editing, ReconcileEvent::Failed) => give_up,
        (ReconcileStage::Saving, ReconcileEvent::Saved(written)) => (
            ReconcileStage::Done,
            ReconcileAction::Stop(
                if *written {
                    Reconciled::Posted
                } else {
                    Reconciled::PostedUnsaved
                },
            ),
        ),
        _ => (stage, ReconcileAction::Ignore),
    }
}

} // verus!
