use crate::choice::{custom_id, custom_id_text, Choice};
use crate::purge::{Closing, PurgeAction};
use crate::text::{append_decimal, append_mention, decimal, mention};
use vstd::prelude::*;

verus! {

/// The way a message reaches the caller.
#[derive(Clone, Copy, Debug, PartialEq, Eq)]
pub enum Delivery {
    /// The first answer to the command.
    Respond,
    /// Replaces the first answer.
    UpdateResponse,
    /// A further message after the first answer.
    Followup,
    /// Replaces the further message `message`.
    UpdateFollowup { message: u64 },
}

/// One button of a prompt.
#[derive(Clone, Debug, PartialEq, Eq)]
pub struct Button {
    pub custom_id: String,
    pub label: String,
    /// Drawn as a warning; the other buttons are drawn plain.
    pub danger: bool,
}

/// A message for the caller, seen by nobody else. A message without
/// buttons takes away the buttons of the one it replaces.
#[derive(Clone, Debug, PartialEq, Eq)]
pub struct Notice {
    pub delivery: Delivery,
    pub content: String,
    pub buttons: Vec<Button>,
}

/// A button as the contracts see it.
pub struct ButtonView {
    pub custom_id: Seq<char>,
    pub label: Seq<char>,
    pub danger: bool,
}

/// A message as the contracts see it.
pub struct NoticeView {
    pub delivery: Delivery,
    pub content: Seq<char>,
    pub buttons: Seq<ButtonView>,
}

impl View for Button {
    type V = ButtonView;

    open spec fn view(&self) -> ButtonView {
        ButtonView { custom_id: self.custom_id@, label: self.label@, danger: self.danger }
    }
}

impl View for Notice {
    type V = NoticeView;

    open spec fn view(&self) -> NoticeView {
        NoticeView {
            delivery: self.delivery,
            content: self.content@,
            buttons: Seq::new(self.buttons@.len(), |i: int| self.buttons@[i]@),
        }
    }
}

/// The two buttons of a prompt of the session `correlation`: the one that
/// cancels, drawn plain, and the one that confirms, drawn as a warning.
pub open spec fn prompt_buttons(correlation: u64, confirm_label: Seq<char>) -> Seq<ButtonView> {
    seq![
        ButtonView {
            custom_id: custom_id_text(correlation, Choice::Cancel),
            label: "Cancel"@,
            danger: false,
        },
        ButtonView {
            custom_id: custom_id_text(correlation, Choice::Confirm),
            label: confirm_label,
            danger: true,
        },
    ]
}

pub open spec fn first_prompt_text(role: u64) -> Seq<char> {
    "Are you sure that you want to remove *all* members from "@ + mention(role) + "?"@
}

pub open spec fn collecting_text(role: u64) -> Seq<char> {
    "I am collecting the necessary data to remove all users from "@ + mention(role) + "."@
}

pub open spec fn second_prompt_text(found: usize, role: u64) -> Seq<char> {
    "Found "@ + decimal(found as nat) + " members in "@ + mention(role)
        + ". Do you want me to remove them from "@ + mention(role) + "?"@
}

pub open spec fn proceeding_text(found: usize, role: u64) -> Seq<char> {
    "I will remove "@ + decimal(found as nat) + " members from "@ + mention(role) + "."@
}

pub open spec fn summary_text(role: u64, succeeded: usize, failed: usize) -> Seq<char> {
    "I have removed "@ + decimal(succeeded as nat) + " members from "@ + mention(role) + ". "@
        + decimal(failed as nat) + " could not be removed."@
}

/// The last word of a session: where it goes and what it says.
pub open spec fn closing_notice(closing: Closing) -> NoticeView {
    match closing {
        Closing::Declined => NoticeView {
            delivery: Delivery::UpdateResponse,
            content: "Better safe than sorry!"@,
            buttons: Seq::empty(),
        },
        Closing::Withdrawn { prompt } => NoticeView {
            delivery: Delivery::UpdateFollowup { message: prompt },
            content: "Won't proceed with deleting the members."@,
            buttons: Seq::empty(),
        },
        Closing::ExpiredFirst => NoticeView {
            delivery: Delivery::UpdateResponse,
            content: "I got no answer in time, so no member was removed."@,
            buttons: Seq::empty(),
        },
        Closing::ExpiredSecond { prompt } => NoticeView {
            delivery: Delivery::UpdateFollowup { message: prompt },
            content: "I got no answer in time, so no member was removed."@,
            buttons: Seq::empty(),
        },
        Closing::Unavailable => NoticeView {
            delivery: Delivery::Followup,
            content: "Something went wrong, so no member was removed."@,
            buttons: Seq::empty(),
        },
        Closing::Summary { role, succeeded, failed } => NoticeView {
            delivery: Delivery::Followup,
            content: summary_text(role, succeeded, failed),
            buttons: Seq::empty(),
        },
    }
}

/// The message that an action of the purge sends to the caller, if it
/// sends one.
pub open spec fn notice_of(action: PurgeAction) -> Option<NoticeView> {
    match action {
        PurgeAction::Prompt { correlation, role } => Some(
            NoticeView {
                delivery: Delivery::Respond,
                content: first_prompt_text(role),
                buttons: prompt_buttons(correlation, "Purge"@),
            },
        ),
        PurgeAction::Announce { role } => Some(
            NoticeView {
                delivery: Delivery::UpdateResponse,
                content: collecting_text(role),
                buttons: Seq::empty(),
            },
        ),
        PurgeAction::Ask { correlation, role, found } => Some(
            NoticeView {
                delivery: Delivery::Followup,
                content: second_prompt_text(found, role),
                buttons: prompt_buttons(correlation, "Continue"@),
            },
        ),
        PurgeAction::Proceed { prompt, role, found } => Some(
            NoticeView {
                delivery: Delivery::UpdateFollowup { message: prompt },
                content: proceeding_text(found, role),
                buttons: Seq::empty(),
            },
        ),
        PurgeAction::Finish(closing) => Some(closing_notice(closing)),
        PurgeAction::Wait => None,
        PurgeAction::FetchPage { .. } => None,
        PurgeAction::Revoke { .. } => None,
        PurgeAction::Ignore => None,
    }
}

fn make_buttons(correlation: u64, confirm_label: &str) -> (r: Vec<Button>)
    ensures
        Seq::new(r@.len(), |i: int| r@[i]@) == prompt_buttons(correlation, confirm_label@),
{
    let mut r: Vec<Button> = Vec::new();
    r.push(
        Button {
            custom_id: custom_id(correlation, Choice::Cancel),
            label: String::from_str("Cancel"),
            danger: false,
        },
    );
    r.push(
        Button {
            custom_id: custom_id(correlation, Choice::Confirm),
            label: String::from_str(confirm_label),
            danger: true,
        },
    );
    r
}

fn plain(delivery: Delivery, content: String) -> (r: Notice)
    ensures
        r@ == (NoticeView { delivery, content: content@, buttons: Seq::empty() }),
{
    let r = Notice { delivery, content, buttons: Vec::new() };
    assert(r@.buttons =~= Seq::empty());
    r
}

fn last_word(last: Closing) -> (r: Notice)
    ensures
        r@ == closing_notice(last),
{
    match last {
        Closing::Declined => plain(
            Delivery::UpdateResponse,
            String::from_str("Better safe than sorry!"),
        ),
        Closing::Withdrawn { prompt } => plain(
            Delivery::UpdateFollowup { message: prompt },
            String::from_str("Won't proceed with deleting the members."),
        ),
        Closing::ExpiredFirst => plain(
            Delivery::UpdateResponse,
            String::from_str("I got no answer in time, so no member was removed."),
        ),
        Closing::ExpiredSecond { prompt } => plain(
            Delivery::UpdateFollowup { message: prompt },
            String::from_str("I got no answer in time, so no member was removed."),
        ),
        Closing::Unavailable => plain(
            Delivery::Followup,
            String::from_str("Something went wrong, so no member was removed."),
        ),
        Closing::Summary { role, succeeded, failed } => {
            let mut content = String::from_str("I have removed ");
            append_decimal(&mut content, succeeded as u64);
            content.append(" members from ");
            append_mention(&mut content, role);
            content.append(". ");
            append_decimal(&mut content, failed as u64);
            content.append(" could not be removed.");
            plain(Delivery::Followup, content)
        },
    }
}

/// Writes the message that `action` sends to the caller: its text, the way
/// it is delivered and its buttons. `None` for an action that sends none.
pub fn notice(action: &PurgeAction) -> (r: Option<Notice>)
    ensures
        r is Some == notice_of(*action) is Some,
        r matches Some(n) ==> Some(n@) == notice_of(*action),
{
    match action {
        PurgeAction::Prompt { correlation, role } => {
            let mut content = String::from_str(
                "Are you sure that you want to remove *all* members from ",
            );
            append_mention(&mut content, *role);
            content.append("?");
            let buttons = make_buttons(*correlation, "Purge");
            Some(Notice { delivery: Delivery::Respond, content, buttons })
        },
        PurgeAction::Announce { role } => {
            let mut content = String::from_str(
                "I am collecting the necessary data to remove all users from ",
            );
            append_mention(&mut content, *role);
            content.append(".");
            Some(plain(Delivery::UpdateResponse, content))
        },
        PurgeAction::Ask { correlation, role, found } => {
            let mut content = String::from_str("Found ");
            append_decimal(&mut content, *found as u64);
            content.append(" members in ");
            append_mention(&mut content, *role);
            content.append(". Do you want me to remove them from ");
            append_mention(&mut content, *role);
            content.append("?");
            let buttons = make_buttons(*correlation, "Continue");
            Some(Notice { delivery: Delivery::Followup, content, buttons })
        },
        PurgeAction::Proceed { prompt, role, found } => {
            let mut content = String::from_str("I will remove ");
            append_decimal(&mut content, *found as u64);
            content.append(" members from ");
            append_mention(&mut content, *role);
            content.append(".");
            Some(plain(Delivery::UpdateFollowup { message: *prompt }, content))
        },
        PurgeAction::Finish(last) => Some(last_word(*last)),
        PurgeAction::Wait => None,
        PurgeAction::FetchPage { .. } => None,
        PurgeAction::Revoke { .. } => None,
        PurgeAction::Ignore => None,
    }
}

} // verus!
