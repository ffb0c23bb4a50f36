use crate::choice::{custom_id_text, decode_custom_id, Choice};
use crate::purge::{
    is_terminal, member_purge, step, PurgeAction, PurgeEvent, PurgeSession, SessionView,
    MEMBER_LIMIT,
};
use vstd::prelude::*;

verus! {

/// The purges that are under way, each under the correlation identifier of
/// the command that opened it.
pub struct SessionTable {
    sessions: Vec<PurgeSession>,
}

/// Where the session `correlation` stands in the table, if it is there.
pub open spec fn find(sessions: Seq<SessionView>, correlation: u64) -> Option<int> {
    if exists|i: int| 0 <= i < sessions.len() && (#[trigger] sessions[i]).correlation == correlation {
        Some(
            choose|i: int|
                0 <= i < sessions.len() && (#[trigger] sessions[i]).correlation == correlation,
        )
    } else {
        None
    }
}

/// What holds of every table: each session in it is sound and still under
/// way, and no two of them share a correlation identifier.
pub open spec fn table_wf(sessions: Seq<SessionView>) -> bool {
    &&& forall|i: int|
        0 <= i < sessions.len() ==> (#[trigger] sessions[i]).wf() && !is_terminal(sessions[i].stage)
    &&& forall|i: int, j: int|
        0 <= i < j < sessions.len() ==> (#[trigger] sessions[i]).correlation != (
        #[trigger] sessions[j]).correlation
}

/// The table after `event` was delivered to the session `correlation`: that
/// session has taken its step, and has left the table if the step ended
/// it. Every other session is as before.
pub open spec fn delivered(
    sessions: Seq<SessionView>,
    correlation: u64,
    event: PurgeEvent,
) -> Seq<SessionView> {
    match find(sessions, correlation) {
        None => sessions,
        Some(i) => {
            let after = step(sessions[i], event).0;
            if is_terminal(after.stage) {
                sessions.remove(i)
            } else {
                sessions.update(i, after)
            }
        },
    }
}

impl View for SessionTable {
    type V = Seq<SessionView>;

    closed spec fn view(&self) -> Seq<SessionView> {
        Seq::new(self.sessions@.len(), |i: int| self.sessions@[i]@)
    }
}

impl SessionTable {
    /// A table with no session in it.
    pub fn new() -> (r: SessionTable)
        ensures
            r@ == Seq::<SessionView>::empty(),
            table_wf(r@),
    {
        let r = SessionTable { sessions: Vec::new() };
        assert(r@ =~= Seq::<SessionView>::empty());
        r
    }

    /// How many purges are under way.
    pub fn len(&self) -> (r: usize)
        ensures
            r == self@.len(),
    {
        self.sessions.len()
    }

    fn position(&self, correlation: u64) -> (r: Option<usize>)
        requires
            table_wf(self@),
        ensures
            match r {
                Some(i) => find(self@, correlation) == Some(i as int) && i < self@.len(),
                None => find(self@, correlation) is None,
            },
    {
        let mut i: usize = 0;
        while i < self.sessions.len()
            invariant
                table_wf(self@),
                i <= self.sessions@.len(),
                forall|j: int| 0 <= j < i ==> (#[trigger] self@[j]).correlation != correlation,
            decreases self.sessions@.len() - i,
        {
            if self.sessions[i].correlation() == correlation {
                proof {
                    assert(self@[i as int].correlation == correlation);
                    let k = find(self@, correlation)->0;
                    assert(self@[k].correlation == correlation);
                    if k < i {
                        assert(self@[k].correlation != self@[i as int].correlation);
                    }
                    if i < k {
                        assert(self@[i as int].correlation != self@[k].correlation);
                    }
                }
                return Some(i);
            }
            i = i + 1;
        }
        None
    }

    /// Whether a purge is under way under `correlation`.
    pub fn is_active(&self, correlation: u64) -> (r: bool)
        requires
            table_wf(self@),
        ensures
            r == find(self@, correlation) is Some,
    {
        self.position(correlation).is_some()
    }

    /// Opens a session under `correlation` and asks for its first prompt.
    /// A correlation identifier holds one session at a time: while one is
    /// under way, nothing is opened and `None` comes back.
    pub fn open(
        &mut self,
        correlation: u64,
        guild: u64,
        role: u64,
        page_size: u16,
    ) -> (r: Option<PurgeAction>)
        requires
            table_wf(old(self)@),
            1 <= page_size <= MEMBER_LIMIT,
        ensures
            table_wf(final(self)@),
            find(old(self)@, correlation) is Some ==> r is None && final(self)@ == old(self)@,
            find(old(self)@, correlation) is None ==> r == Some(
                PurgeAction::Prompt { correlation, role },
            ) && final(self)@ == old(self)@.push(
                SessionView::opened(correlation, guild, role, page_size),
            ),
    {
        if self.position(correlation).is_some() {
            return None;
        }
        let (session, action) = PurgeSession::open(correlation, guild, role, page_size);
        self.sessions.push(session);
        assert(self@ =~= old(self)@.push(SessionView::opened(correlation, guild, role, page_size)));
        Some(action)
    }

    /// Hands `event` to the session `correlation` and returns what that
    /// session asks for next; `None` when no such session is under way. A
    /// session that the event ends leaves the table, so that its
    /// correlation identifier is free again. No other session is touched.
    pub fn deliver(&mut self, correlation: u64, event: &PurgeEvent) -> (r: Option<PurgeAction>)
        requires
            table_wf(old(self)@),
        ensures
            table_wf(final(self)@),
            final(self)@ == delivered(old(self)@, correlation, *event),
            r == match find(old(self)@, correlation) {
                None => None,
                Some(i) => Some(step(old(self)@[i], *event).1),
            },
    {
        match self.position(correlation) {
            None => None,
            Some(i) => {
                let mut session = self.sessions.remove(i);
                let action = member_purge(&mut session, event);
                if session.is_over() {
                    assert(self@ =~= old(self)@.remove(i as int));
                } else {
                    self.sessions.insert(i, session);
                    assert(self@ =~= old(self)@.update(i as int, session@));
                }
                Some(action)
            },
        }
    }

    /// Routes a click to the session whose button was clicked. The
    /// identifier of the button is read back; a click on anything that is
    /// not a button of a session under way reaches no session.
    pub fn click(&mut self, button: &str) -> (r: Option<(u64, PurgeAction)>)
        requires
            table_wf(old(self)@),
        ensures
            table_wf(final(self)@),
            (forall|correlation: u64, choice: Choice|
                button@ != #[trigger] custom_id_text(correlation, choice)) ==> r is None
                && final(self)@ == old(self)@,
            forall|correlation: u64, choice: Choice|
                button@ == #[trigger] custom_id_text(correlation, choice) ==> {
                    let event = PurgeEvent::Click { correlation, choice };
                    &&& final(self)@ == delivered(old(self)@, correlation, event)
                    &&& r == match find(old(self)@, correlation) {
                        None => None,
                        Some(i) => Some((correlation, step(old(self)@[i], event).1)),
                    }
                },
    {
        match decode_custom_id(button) {
            None => None,
            Some((correlation, choice)) => {
                proof {
                    assert forall|c: u64, x: Choice|
                        button@ == #[trigger] custom_id_text(c, x) implies c == correlation && x
                        == choice by {
                        crate::choice::lemma_custom_id_injective(c, x, correlation, choice);
                    }
                }
                let event = PurgeEvent::Click { correlation, choice };
                match self.deliver(correlation, &event) {
                    None => None,
                    Some(action) => Some((correlation, action)),
                }
            },
        }
    }
}

/// Whatever is delivered to one session, every session under another
/// correlation identifier stays in the table as it is.
pub proof fn law_others_untouched(
    sessions: Seq<SessionView>,
    correlation: u64,
    event: PurgeEvent,
    other: SessionView,
)
    requires
        sessions.contains(other),
        other.correlation != correlation,
    ensures
        delivered(sessions, correlation, event).contains(other),
{
    let k = choose|k: int| 0 <= k < sessions.len() && sessions[k] == other;
    match find(sessions, correlation) {
        None => {},
        Some(i) => {
            let after = step(sessions[i], event).0;
            if is_terminal(after.stage) {
                let left = sessions.remove(i);
                if k < i {
                    assert(left[k] == other);
                } else {
                    assert(left[k - 1] == other);
                }
            } else {
                assert(sessions.update(i, after)[k] == other);
            }
        },
    }
}

} // verus!
