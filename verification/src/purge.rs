use crate::choice::Choice;
use crate::roster::{collect_holders, holders, MemberSnapshot};
use vstd::prelude::*;

verus! {

/// Largest page the platform hands out for a roster listing.
pub const MEMBER_LIMIT: u16 = 1000;

/// How long a prompt waits for a click, in seconds, before the outside
/// reports `Timeout`. The platform takes answers to a command for a
/// quarter of an hour; the two prompts and the reading of the roster share
/// that time.
pub const PROMPT_WAIT_SECONDS: u64 = 300;

/// The state of a purge as its caller sees it.
#[derive(Clone, Copy, Debug, PartialEq, Eq, Structural)]
pub enum Phase {
    AwaitingFirstConfirmation,
    Enumerating,
    AwaitingSecondConfirmation,
    Mutating,
    Completed,
    Cancelled,
    Failed,
}

/// Where a session stands: the phase, and within it the answer that the
/// session waits for.
#[derive(Clone, Copy, Debug, PartialEq, Eq, Structural)]
pub enum Stage {
    /// The first prompt is out; waits for a click.
    AwaitingFirst,
    /// Confirmed once; the notice that the roster is being read is on its way.
    Announcing,
    /// Waits for a page of the roster.
    Fetching,
    /// The roster is read; the second prompt is being posted.
    Asking,
    /// The second prompt is out; waits for a click.
    AwaitingSecond,
    /// Confirmed twice; the notice that the removal begins is on its way.
    Confirming,
    /// Waits for the outcome of one revocation.
    Revoking,
    Completed,
    Cancelled,
    Failed,
}

/// The phase that a stage belongs to.
pub open spec fn phase_of(stage: Stage) -> Phase {
    match stage {
        Stage::AwaitingFirst => Phase::AwaitingFirstConfirmation,
        Stage::Announcing => Phase::Enumerating,
        Stage::Fetching => Phase::Enumerating,
        Stage::Asking => Phase::Enumerating,
        Stage::AwaitingSecond => Phase::AwaitingSecondConfirmation,
        Stage::Confirming => Phase::Mutating,
        Stage::Revoking => Phase::Mutating,
        Stage::Completed => Phase::Completed,
        Stage::Cancelled => Phase::Cancelled,
        Stage::Failed => Phase::Failed,
    }
}

/// A session is over in these stages and takes no further part.
pub open spec fn is_terminal(stage: Stage) -> bool {
    stage == Stage::Completed || stage == Stage::Cancelled || stage == Stage::Failed
}

/// What the outside reports back to a session.
#[derive(Clone, Debug)]
pub enum PurgeEvent {
    /// A button was clicked; its identifier has been read back.
    Click { correlation: u64, choice: Choice },
    /// The bounded wait for a click ran out.
    Timeout,
    /// A notice was handed to the platform. Whether it arrived is not asked.
    Sent,
    /// A page of the roster.
    Page(Vec<MemberSnapshot>),
    /// The second prompt was posted under this message identifier.
    Asked(u64),
    /// The platform did not deliver what the session asked for.
    Unavailable,
    /// One revocation was tried; `true` if it went through.
    Revoked(bool),
}

/// The last word of a session.
#[derive(Clone, Copy, Debug, PartialEq, Eq)]
pub enum Closing {
    /// Cancelled at the first prompt.
    Declined,
    /// Cancelled at the second prompt, posted under `prompt`.
    Withdrawn { prompt: u64 },
    /// No click came in time at the first prompt.
    ExpiredFirst,
    /// No click came in time at the second prompt, posted under `prompt`.
    ExpiredSecond { prompt: u64 },
    /// The roster or the second prompt could not be had.
    Unavailable,
    /// Every target was tried.
    Summary { role: u64, succeeded: usize, failed: usize },
}

/// What the session asks the outside to do next. Each action but `Finish`
/// and `Ignore` is answered by one event.
#[derive(Clone, Copy, Debug, PartialEq, Eq)]
pub enum PurgeAction {
    /// Answer the command with the first prompt, then wait for a click.
    Prompt { correlation: u64, role: u64 },
    /// Go on waiting for a click.
    Wait,
    /// Replace the first prompt by the notice that the roster is being read.
    Announce { role: u64 },
    /// Ask for the members that follow `after`, at most `limit` of them.
    FetchPage { guild: u64, after: Option<u64>, limit: u16 },
    /// Post the second prompt, which names the number of members found.
    Ask { correlation: u64, role: u64, found: usize },
    /// Replace the second prompt by the notice that the removal begins.
    Proceed { prompt: u64, role: u64, found: usize },
    /// Take `role` from `user`.
    Revoke { guild: u64, user: u64, role: u64 },
    /// Say the last word; the session is over.
    Finish(Closing),
    /// The event was not meant for this stage; nothing changes.
    Ignore,
}

/// One run of the purge workflow, from the command to its last word. The
/// role is taken from each of its holders in turn; the role itself is left
/// standing, and with it whatever else was set for single members.
pub struct PurgeSession {
    correlation: u64,
    guild: u64,
    role: u64,
    page_size: u16,
    stage: Stage,
    after: Option<u64>,
    targets: Vec<u64>,
    prompt: u64,
    next: usize,
    succeeded: usize,
    failed: usize,
}

/// A session as the contracts see it.
pub struct SessionView {
    pub correlation: u64,
    pub guild: u64,
    pub role: u64,
    pub page_size: u16,
    pub stage: Stage,
    pub after: Option<u64>,
    pub targets: Seq<u64>,
    pub prompt: u64,
    pub next: usize,
    pub succeeded: usize,
    pub failed: usize,
}

impl SessionView {
    /// What holds of every session: the page size is one the platform
    /// takes, and the counts follow the targets tried so far.
    pub open spec fn wf(self) -> bool {
        &&& 1 <= self.page_size <= MEMBER_LIMIT
        &&& self.targets.len() <= usize::MAX
        &&& self.next <= self.targets.len()
        &&& self.succeeded + self.failed == self.next
        &&& self.stage == Stage::Revoking ==> self.next < self.targets.len()
        &&& self.stage == Stage::Completed ==> self.next == self.targets.len()
        &&& !(self.stage == Stage::Revoking || self.stage == Stage::Completed) ==> self.next == 0
    }

    /// The session that a command opens.
    pub open spec fn opened(correlation: u64, guild: u64, role: u64, page_size: u16) -> SessionView {
        SessionView {
            correlation,
            guild,
            role,
            page_size,
            stage: Stage::AwaitingFirst,
            after: None,
            targets: Seq::empty(),
            prompt: 0,
            next: 0,
            succeeded: 0,
            failed: 0,
        }
    }
}

/// What a click or the lack of one does to a session that waits at a prompt.
pub open spec fn on_prompt(s: SessionView, event: PurgeEvent) -> (SessionView, PurgeAction) {
    let first = s.stage == Stage::AwaitingFirst;
    match event {
        PurgeEvent::Click { correlation, choice } => {
            if correlation != s.correlation {
                (s, PurgeAction::Wait)
            } else if choice == Choice::Confirm {
                if first {
                    (SessionView { stage: Stage::Announcing, ..s }, PurgeAction::Announce { role: s.role })
                } else {
                    (
                        SessionView { stage: Stage::Confirming, ..s },
                        PurgeAction::Proceed {
                            prompt: s.prompt,
                            role: s.role,
                            found: s.targets.len() as usize,
                        },
                    )
                }
            } else {
                (
                    SessionView { stage: Stage::Cancelled, ..s },
                    PurgeAction::Finish(
                        if first {
                            Closing::Declined
                        } else {
                            Closing::Withdrawn { prompt: s.prompt }
                        },
                    ),
                )
            }
        },
        PurgeEvent::Timeout => (
            SessionView { stage: Stage::Cancelled, ..s },
            PurgeAction::Finish(
                if first {
                    Closing::ExpiredFirst
                } else {
                    Closing::ExpiredSecond { prompt: s.prompt }
                },
            ),
        ),
        _ => (s, PurgeAction::Ignore),
    }
}

/// What a page of the roster does to a session that waits for one: the
/// holders on it join the targets, and a full page asks for the next one.
pub open spec fn on_page(s: SessionView, page: Seq<MemberSnapshot>) -> (SessionView, PurgeAction) {
    let targets = s.targets + holders(page, s.role);
    let ask = PurgeAction::Ask { correlation: s.correlation, role: s.role, found: targets.len() as usize };
    if page.len() == 0 {
        (SessionView { stage: Stage::Asking, ..s }, ask)
    } else if page.len() < s.page_size {
        (SessionView { stage: Stage::Asking, after: Some(page.last().user_id), targets, ..s }, ask)
    } else {
        (
            SessionView { after: Some(page.last().user_id), targets, ..s },
            PurgeAction::FetchPage {
                guild: s.guild,
                after: Some(page.last().user_id),
                limit: s.page_size,
            },
        )
    }
}

/// The next revocation, or the summary when every target has been tried.
pub open spec fn next_revocation(s: SessionView) -> (SessionView, PurgeAction) {
    if s.next < s.targets.len() {
        (
            SessionView { stage: Stage::Revoking, ..s },
            PurgeAction::Revoke { guild: s.guild, user: s.targets[s.next as int], role: s.role },
        )
    } else {
        (
            SessionView { stage: Stage::Completed, ..s },
            PurgeAction::Finish(
                Closing::Summary { role: s.role, succeeded: s.succeeded, failed: s.failed },
            ),
        )
    }
}

/// What the outcome of one revocation does: it is counted, whichever it
/// is, and the next target is tried.
pub open spec fn on_revoked(s: SessionView, went_through: bool) -> (SessionView, PurgeAction) {
    next_revocation(
        SessionView {
            next: (s.next + 1) as usize,
            succeeded: if went_through {
                (s.succeeded + 1) as usize
            } else {
                s.succeeded
            },
            failed: if went_through {
                s.failed
            } else {
                (s.failed + 1) as usize
            },
            ..s
        },
    )
}

/// The whole workflow as one function: the session after `event`, and what
/// the outside is asked to do next.
pub open spec fn step(s: SessionView, event: PurgeEvent) -> (SessionView, PurgeAction) {
    match s.stage {
        Stage::AwaitingFirst => on_prompt(s, event),
        Stage::AwaitingSecond => on_prompt(s, event),
        Stage::Announcing => match event {
            PurgeEvent::Sent => (
                SessionView { stage: Stage::Fetching, ..s },
                PurgeAction::FetchPage { guild: s.guild, after: s.after, limit: s.page_size },
            ),
            _ => (s, PurgeAction::Ignore),
        },
        Stage::Fetching => match event {
            PurgeEvent::Page(members) => on_page(s, members@),
            PurgeEvent::Unavailable => (
                SessionView { stage: Stage::Failed, ..s },
                PurgeAction::Finish(Closing::Unavailable),
            ),
            _ => (s, PurgeAction::Ignore),
        },
        Stage::Asking => match event {
            PurgeEvent::Asked(prompt) => (
                SessionView { stage: Stage::AwaitingSecond, prompt, ..s },
                PurgeAction::Wait,
            ),
            PurgeEvent::Unavailable => (
                SessionView { stage: Stage::Failed, ..s },
                PurgeAction::Finish(Closing::Unavailable),
            ),
            _ => (s, PurgeAction::Ignore),
        },
        Stage::Confirming => match event {
            PurgeEvent::Sent => next_revocation(s),
            _ => (s, PurgeAction::Ignore),
        },
        Stage::Revoking => match event {
            PurgeEvent::Revoked(went_through) => on_revoked(s, went_through),
            _ => (s, PurgeAction::Ignore),
        },
        Stage::Completed => (s, PurgeAction::Ignore),
        Stage::Cancelled => (s, PurgeAction::Ignore),
        Stage::Failed => (s, PurgeAction::Ignore),
    }
}

impl View for PurgeSession {
    type V = SessionView;

    closed spec fn view(&self) -> SessionView {
        SessionView {
            correlation: self.correlation,
            guild: self.guild,
            role: self.role,
            page_size: self.page_size,
            stage: self.stage,
            after: self.after,
            targets: self.targets@,
            prompt: self.prompt,
            next: self.next,
            succeeded: self.succeeded,
            failed: self.failed,
        }
    }
}

impl PurgeSession {
    /// Opens the session of one purge command and asks for the first prompt.
    /// `correlation` is the identifier of the interaction that carried the
    /// command; `page_size` is how many members one listing may hold.
    pub fn open(
        correlation: u64,
        guild: u64,
        role: u64,
        page_size: u16,
    ) -> (r: (PurgeSession, PurgeAction))
        requires
            1 <= page_size <= MEMBER_LIMIT,
        ensures
            r.0@ == SessionView::opened(correlation, guild, role, page_size),
            r.0@.wf(),
            r.1 == (PurgeAction::Prompt { correlation, role }),
    {
        let session = PurgeSession {
            correlation,
            guild,
            role,
            page_size,
            stage: Stage::AwaitingFirst,
            after: None,
            targets: Vec::new(),
            prompt: 0,
            next: 0,
            succeeded: 0,
            failed: 0,
        };
        (session, PurgeAction::Prompt { correlation, role })
    }

    /// The identifier that the session's buttons carry.
    pub fn correlation(&self) -> (r: u64)
        ensures
            r == self@.correlation,
    {
        self.correlation
    }

    /// Where the session stands.
    pub fn stage(&self) -> (r: Stage)
        ensures
            r == self@.stage,
    {
        self.stage
    }

    /// The state of the purge as its caller sees it.
    pub fn phase(&self) -> (r: Phase)
        ensures
            r == phase_of(self@.stage),
    {
        match self.stage {
            Stage::AwaitingFirst => Phase::AwaitingFirstConfirmation,
            Stage::Announcing => Phase::Enumerating,
            Stage::Fetching => Phase::Enumerating,
            Stage::Asking => Phase::Enumerating,
            Stage::AwaitingSecond => Phase::AwaitingSecondConfirmation,
            Stage::Confirming => Phase::Mutating,
            Stage::Revoking => Phase::Mutating,
            Stage::Completed => Phase::Completed,
            Stage::Cancelled => Phase::Cancelled,
            Stage::Failed => Phase::Failed,
        }
    }

    /// Whether the session is over.
    pub fn is_over(&self) -> (r: bool)
        ensures
            r == is_terminal(self@.stage),
    {
        match self.stage {
            Stage::Completed => true,
            Stage::Cancelled => true,
            Stage::Failed => true,
            _ => false,
        }
    }

    /// The members found to hold the role, in the order of the roster.
    pub fn targets(&self) -> (r: &Vec<u64>)
        ensures
            r@ == self@.targets,
    {
        &self.targets
    }

    /// How many revocations went through so far.
    pub fn succeeded(&self) -> (r: usize)
        ensures
            r == self@.succeeded,
    {
        self.succeeded
    }

    /// How many revocations failed so far.
    pub fn failed(&self) -> (r: usize)
        ensures
            r == self@.failed,
    {
        self.failed
    }

    fn prompt_event(&mut self, event: &PurgeEvent) -> (action: PurgeAction)
        requires
            old(self)@.wf(),
            old(self)@.stage == Stage::AwaitingFirst || old(self)@.stage == Stage::AwaitingSecond,
        ensures
            (final(self)@, action) == on_prompt(old(self)@, *event),
            final(self)@.wf(),
    {
        let first = match self.stage {
            Stage::AwaitingFirst => true,
            _ => false,
        };
        match event {
            PurgeEvent::Click { correlation, choice } => {
                if *correlation != self.correlation {
                    PurgeAction::Wait
                } else {
                    match choice {
                        Choice::Confirm => {
                            if first {
                                self.stage = Stage::Announcing;
                                PurgeAction::Announce { role: self.role }
                            } else {
                                self.stage = Stage::Confirming;
                                PurgeAction::Proceed {
                                    prompt: self.prompt,
                                    role: self.role,
                                    found: self.targets.len(),
                                }
                            }
                        },
                        Choice::Cancel => {
                            self.stage = Stage::Cancelled;
                            if first {
                                PurgeAction::Finish(Closing::Declined)
                            } else {
                                PurgeAction::Finish(Closing::Withdrawn { prompt: self.prompt })
                            }
                        },
                    }
                }
            },
            PurgeEvent::Timeout => {
                self.stage = Stage::Cancelled;
                if first {
                    PurgeAction::Finish(Closing::ExpiredFirst)
                } else {
                    PurgeAction::Finish(Closing::ExpiredSecond { prompt: self.prompt })
                }
            },
            _ => PurgeAction::Ignore,
        }
    }

    fn page_event(&mut self, page: &Vec<MemberSnapshot>) -> (action: PurgeAction)
        requires
            old(self)@.wf(),
            old(self)@.stage == Stage::Fetching,
        ensures
            (final(self)@, action) == on_page(old(self)@, page@),
            final(self)@.wf(),
    {
        if page.len() == 0 {
            self.stage = Stage::Asking;
            return PurgeAction::Ask {
                correlation: self.correlation,
                role: self.role,
                found: self.targets.len(),
            };
        }
        collect_holders(page, self.role, &mut self.targets);
        let last: u64 = page[page.len() - 1].user_id;
        self.after = Some(last);
        let found: usize = self.targets.len();
        if page.len() < self.page_size as usize {
            self.stage = Stage::Asking;
            PurgeAction::Ask { correlation: self.correlation, role: self.role, found }
        } else {
            PurgeAction::FetchPage { guild: self.guild, after: Some(last), limit: self.page_size }
        }
    }

    fn revoke_next(&mut self) -> (action: PurgeAction)
        requires
            old(self)@.targets.len() <= usize::MAX,
        ensures
            (final(self)@, action) == next_revocation(old(self)@),
    {
        if self.next < self.targets.len() {
            self.stage = Stage::Revoking;
            PurgeAction::Revoke { guild: self.guild, user: self.targets[self.next], role: self.role }
        } else {
            self.stage = Stage::Completed;
            PurgeAction::Finish(
                Closing::Summary {
                    role: self.role,
                    succeeded: self.succeeded,
                    failed: self.failed,
                },
            )
        }
    }
}

/// Carries one purge forward. The session takes in what the outside
/// reports and answers with what is to be done next: the prompts, the
/// pages of the roster, one revocation for each member that holds the
/// role, and the last word. A click that belongs to another session, and
/// an event that the stage does not wait for, change nothing.
pub fn member_purge(session: &mut PurgeSession, event: &PurgeEvent) -> (action: PurgeAction)
    requires
        old(session)@.wf(),
    ensures
        (final(session)@, action) == step(old(session)@, *event),
        final(session)@.wf(),
{
    match session.stage {
        Stage::AwaitingFirst => session.prompt_event(event),
        Stage::AwaitingSecond => session.prompt_event(event),
        Stage::Announcing => match event {
            PurgeEvent::Sent => {
                session.stage = Stage::Fetching;
                PurgeAction::FetchPage {
                    guild: session.guild,
                    after: session.after,
                    limit: session.page_size,
                }
            },
            _ => PurgeAction::Ignore,
        },
        Stage::Fetching => match event {
            PurgeEvent::Page(members) => session.page_event(members),
            PurgeEvent::Unavailable => {
                session.stage = Stage::Failed;
                PurgeAction::Finish(Closing::Unavailable)
            },
            _ => PurgeAction::Ignore,
        },
        Stage::Asking => match event {
            PurgeEvent::Asked(prompt) => {
                session.stage = Stage::AwaitingSecond;
                session.prompt = *prompt;
                PurgeAction::Wait
            },
            PurgeEvent::Unavailable => {
                session.stage = Stage::Failed;
                PurgeAction::Finish(Closing::Unavailable)
            },
            _ => PurgeAction::Ignore,
        },
        Stage::Confirming => match event {
            PurgeEvent::Sent => session.revoke_next(),
            _ => PurgeAction::Ignore,
        },
        Stage::Revoking => match event {
            PurgeEvent::Revoked(went_through) => {
                session.next = session.next + 1;
                if *went_through {
                    session.succeeded = session.succeeded + 1;
                } else {
                    session.failed = session.failed + 1;
                }
                session.revoke_next()
            },
            _ => PurgeAction::Ignore,
        },
        Stage::Completed => PurgeAction::Ignore,
        Stage::Cancelled => PurgeAction::Ignore,
        Stage::Failed => PurgeAction::Ignore,
    }
}

} // verus!
