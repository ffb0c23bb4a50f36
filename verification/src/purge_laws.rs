use crate::choice::{custom_id_text, lemma_custom_id_injective, Choice};
use crate::purge::{
    is_terminal, next_revocation, on_page, on_revoked, step, Closing, PurgeAction, PurgeEvent,
    SessionView, Stage,
};
use crate::roster::{holders, lemma_holders_concat, lemma_holders_len, MemberSnapshot};
use vstd::prelude::*;

verus! {

/// A session fed a row of events, one after the other: where it ends, and
/// what it asked for on the way.
pub open spec fn run(s: SessionView, events: Seq<PurgeEvent>) -> (SessionView, Seq<PurgeAction>)
    decreases events.len(),
{
    if events.len() == 0 {
        (s, Seq::empty())
    } else {
        let before = run(s, events.drop_last());
        let last = step(before.0, events.last());
        (last.0, before.1.push(last.1))
    }
}

/// How many of the actions take the role from a member.
pub open spec fn revocations(actions: Seq<PurgeAction>) -> nat
    decreases actions.len(),
{
    if actions.len() == 0 {
        0
    } else if actions.last() is Revoke {
        revocations(actions.drop_last()) + 1
    } else {
        revocations(actions.drop_last())
    }
}

/// The stages in which no member has lost the role yet and none will
/// without a second confirmation.
pub open spec fn before_removal(stage: Stage) -> bool {
    stage != Stage::Confirming && stage != Stage::Revoking && stage != Stage::Completed
}

/// A purge takes the role from nobody unless both prompts were confirmed:
/// whatever the outside reports to a session that has not been confirmed
/// twice, as long as it stands before the removal, and in particular once
/// it is cancelled, it has asked for no revocation.
pub proof fn law_no_removal_without_confirmation(s: SessionView, events: Seq<PurgeEvent>)
    requires
        before_removal(s.stage),
    ensures
        before_removal(run(s, events).0.stage) ==> revocations(run(s, events).1) == 0,
        run(s, events).0.stage == Stage::Cancelled ==> revocations(run(s, events).1) == 0,
        run(s, events).0.stage == Stage::Failed ==> revocations(run(s, events).1) == 0,
        revocations(run(s, events).1) > 0 ==> run(s, events).0.stage == Stage::Revoking
            || run(s, events).0.stage == Stage::Completed,
    decreases events.len(),
{
    if events.len() > 0 {
        law_no_removal_without_confirmation(s, events.drop_last());
        let before = run(s, events.drop_last());
        let last = step(before.0, events.last());
        assert(before.1.push(last.1).drop_last() =~= before.1);
        assert(last.1 is Revoke ==> last.0.stage == Stage::Revoking);
        assert(before_removal(last.0.stage) ==> before_removal(before.0.stage));
    }
}

/// Cancelling at either prompt ends the session on the spot, with a last
/// word and no revocation.
pub proof fn law_cancel_ends_session(s: SessionView)
    requires
        s.stage == Stage::AwaitingFirst || s.stage == Stage::AwaitingSecond,
    ensures
        ({
            let click = PurgeEvent::Click { correlation: s.correlation, choice: Choice::Cancel };
            &&& step(s, click).0.stage == Stage::Cancelled
            &&& step(s, click).1 is Finish
            &&& step(s, PurgeEvent::Timeout).0.stage == Stage::Cancelled
            &&& step(s, PurgeEvent::Timeout).1 is Finish
        }),
{
}

/// A session that is over stays as it is and asks for nothing more.
pub proof fn law_over_is_over(s: SessionView, event: PurgeEvent)
    requires
        is_terminal(s.stage),
    ensures
        step(s, event) == (s, PurgeAction::Ignore),
{
}

/// A click on a button of another session changes nothing: the session
/// goes on waiting, or goes on with what it was doing.
pub proof fn law_foreign_click(s: SessionView, correlation: u64, choice: Choice)
    requires
        correlation != s.correlation,
    ensures
        step(s, PurgeEvent::Click { correlation, choice }).0 == s,
        step(s, PurgeEvent::Click { correlation, choice }).1 is Wait
            || step(s, PurgeEvent::Click { correlation, choice }).1 is Ignore,
{
}

/// Two sessions with different correlation identifiers never take each
/// other's clicks: whatever a button of the one reads back as, the other
/// is left as it was.
pub proof fn law_sessions_isolated(
    one: SessionView,
    other: SessionView,
    pressed: Choice,
    correlation: u64,
    choice: Choice,
)
    requires
        one.correlation != other.correlation,
        custom_id_text(correlation, choice) == custom_id_text(one.correlation, pressed),
    ensures
        correlation == one.correlation,
        choice == pressed,
        step(other, PurgeEvent::Click { correlation, choice }).0 == other,
{
    lemma_custom_id_injective(correlation, choice, one.correlation, pressed);
}

/// What a page of the roster does to a session, as `step` has it: a
/// session that waits for a page takes it in (`on_page`), and any other
/// session is left as it is.
pub open spec fn page_step(s: SessionView, page: Seq<MemberSnapshot>) -> SessionView {
    if s.stage == Stage::Fetching {
        on_page(s, page).0
    } else {
        s
    }
}

/// A session fed a row of pages, one after the other.
pub open spec fn fed(s: SessionView, pages: Seq<Seq<MemberSnapshot>>) -> SessionView
    decreases pages.len(),
{
    if pages.len() == 0 {
        s
    } else {
        page_step(fed(s, pages.drop_last()), pages.last())
    }
}

/// The roster that a row of pages shows: the pages one after the other.
pub open spec fn joined(pages: Seq<Seq<MemberSnapshot>>) -> Seq<MemberSnapshot>
    decreases pages.len(),
{
    if pages.len() == 0 {
        Seq::empty()
    } else {
        joined(pages.drop_last()) + pages.last()
    }
}

/// Whether each of the pages is full.
pub open spec fn all_full(pages: Seq<Seq<MemberSnapshot>>, page_size: u16) -> bool {
    forall|i: int| 0 <= i < pages.len() ==> (#[trigger] pages[i]).len() == page_size
}

/// Whether the pages are a roster as the platform hands it out in pages of
/// `page_size`: full pages, and then one page that is short or empty.
pub open spec fn cut_into_pages(pages: Seq<Seq<MemberSnapshot>>, page_size: u16) -> bool {
    &&& pages.len() >= 1
    &&& all_full(pages.drop_last(), page_size)
    &&& pages.last().len() < page_size
}

proof fn lemma_full_pages(s: SessionView, pages: Seq<Seq<MemberSnapshot>>)
    requires
        s.stage == Stage::Fetching,
        s.page_size >= 1,
        all_full(pages, s.page_size),
    ensures
        ({
            let t = fed(s, pages);
            &&& t == SessionView { after: t.after, targets: t.targets, ..s }
            &&& t.targets == s.targets + holders(joined(pages), s.role)
            &&& pages.len() > 0 ==> t.after == Some(pages.last().last().user_id)
        }),
    decreases pages.len(),
{
    if pages.len() == 0 {
        assert(s.targets + holders(joined(pages), s.role) =~= s.targets);
    } else {
        let earlier = pages.drop_last();
        assert(all_full(earlier, s.page_size)) by {
            assert forall|i: int| 0 <= i < earlier.len() implies (#[trigger] earlier[i]).len()
                == s.page_size by {
                assert(earlier[i] == pages[i]);
            }
        }
        lemma_full_pages(s, earlier);
        assert(pages.last() == pages[pages.len() - 1]);
        lemma_holders_concat(joined(earlier), pages.last(), s.role);
        assert(s.targets + holders(joined(earlier), s.role) + holders(pages.last(), s.role)
            =~= s.targets + (holders(joined(earlier), s.role) + holders(pages.last(), s.role)));
    }
}

/// Reading the roster finds exactly the members that hold the role,
/// whatever the page size, wherever the pages end and in whatever order
/// the platform lists the members. A session that starts to read a roster
/// handed out in full pages and a last one that is short or empty goes on
/// asking until that last page. It asks for each page after the last
/// member of the page before. Then it holds as targets the holders of the
/// role, each once for each time the roster shows it, in the order of the
/// roster.
pub proof fn law_targets_are_holders(s: SessionView, pages: Seq<Seq<MemberSnapshot>>)
    requires
        s.wf(),
        s.stage == Stage::Fetching,
        s.targets.len() == 0,
        cut_into_pages(pages, s.page_size),
        joined(pages).len() <= usize::MAX,
    ensures
        ({
            let t = fed(s, pages);
            &&& t == SessionView { stage: Stage::Asking, after: t.after, targets: t.targets, ..s }
            &&& t.wf()
            &&& t.targets == holders(joined(pages), s.role)
            &&& forall|k: int|
                0 <= k < pages.len() ==> (#[trigger] fed(s, pages.take(k))).stage
                    == Stage::Fetching
            &&& forall|k: int|
                1 <= k < pages.len() ==> (#[trigger] fed(s, pages.take(k))).after == Some(
                    pages[k - 1].last().user_id,
                )
        }),
{
    let full = pages.drop_last();
    lemma_full_pages(s, full);
    lemma_holders_concat(joined(full), pages.last(), s.role);
    lemma_holders_len(joined(pages), s.role);
    assert(s.targets + holders(joined(pages), s.role) =~= holders(joined(pages), s.role));
    assert(s.targets + holders(joined(full), s.role) =~= holders(joined(full), s.role));
    assert forall|k: int| 0 <= k < pages.len() implies (#[trigger] fed(s, pages.take(k))).stage
        == Stage::Fetching && (k >= 1 ==> fed(s, pages.take(k)).after == Some(
        pages[k - 1].last().user_id,
    )) by {
        let shown = pages.take(k);
        assert(all_full(shown, s.page_size)) by {
            assert forall|i: int| 0 <= i < shown.len() implies (#[trigger] shown[i]).len()
                == s.page_size by {
                assert(shown[i] == full[i]);
            }
        }
        lemma_full_pages(s, shown);
        if k >= 1 {
            assert(shown.last() == pages[k - 1]);
        }
    }
}

/// The targets do not depend on the page size: two sessions for the same
/// role that read the same roster, cut into pages of whatever size each
/// of them asks for, end with the same targets.
pub proof fn law_page_size_is_immaterial(
    one: SessionView,
    pages: Seq<Seq<MemberSnapshot>>,
    other: SessionView,
    other_pages: Seq<Seq<MemberSnapshot>>,
)
    requires
        one.wf(),
        one.stage == Stage::Fetching,
        one.targets.len() == 0,
        cut_into_pages(pages, one.page_size),
        other.wf(),
        other.stage == Stage::Fetching,
        other.targets.len() == 0,
        cut_into_pages(other_pages, other.page_size),
        one.role == other.role,
        joined(pages) == joined(other_pages),
        joined(pages).len() <= usize::MAX,
    ensures
        fed(one, pages).targets == fed(other, other_pages).targets,
        fed(one, pages).targets.len() == holders(joined(pages), one.role).len(),
{
    law_targets_are_holders(one, pages);
    law_targets_are_holders(other, other_pages);
}

/// How many of the outcomes are `which`.
pub open spec fn count_of(outcomes: Seq<bool>, which: bool) -> nat
    decreases outcomes.len(),
{
    if outcomes.len() == 0 {
        0
    } else if outcomes.last() == which {
        count_of(outcomes.drop_last(), which) + 1
    } else {
        count_of(outcomes.drop_last(), which)
    }
}

/// What the outside reports while the role is taken away: that the notice
/// went out, and then the outcome of each revocation in turn.
pub open spec fn removal_events(outcomes: Seq<bool>) -> Seq<PurgeEvent> {
    Seq::new(
        outcomes.len() + 1,
        |i: int|
            if i == 0 {
                PurgeEvent::Sent
            } else {
                PurgeEvent::Revoked(outcomes[i - 1])
            },
    )
}

/// What a session with these targets asks for while the role is taken
/// away: one revocation for each target, in order, and then the summary.
pub open spec fn removal_actions(s: SessionView, outcomes: Seq<bool>) -> Seq<PurgeAction> {
    Seq::new(
        s.targets.len() + 1,
        |i: int|
            if i < s.targets.len() {
                PurgeAction::Revoke { guild: s.guild, user: s.targets[i], role: s.role }
            } else {
                PurgeAction::Finish(
                    Closing::Summary {
                        role: s.role,
                        succeeded: count_of(outcomes, true) as usize,
                        failed: count_of(outcomes, false) as usize,
                    },
                )
            },
    )
}

proof fn lemma_count_bound(outcomes: Seq<bool>)
    ensures
        count_of(outcomes, true) + count_of(outcomes, false) == outcomes.len(),
    decreases outcomes.len(),
{
    if outcomes.len() > 0 {
        lemma_count_bound(outcomes.drop_last());
    }
}

proof fn lemma_removal_prefix(s: SessionView, outcomes: Seq<bool>, done: nat)
    requires
        s.wf(),
        s.stage == Stage::Confirming,
        outcomes.len() == s.targets.len(),
        done <= outcomes.len(),
    ensures
        ({
            let r = run(s, removal_events(outcomes).take(done as int + 1));
            let seen = outcomes.take(done as int);
            &&& r.0 == SessionView {
                stage: if done < outcomes.len() {
                    Stage::Revoking
                } else {
                    Stage::Completed
                },
                next: done as usize,
                succeeded: count_of(seen, true) as usize,
                failed: count_of(seen, false) as usize,
                ..s
            }
            &&& r.1 == removal_actions(s, outcomes).take(done as int + 1)
        }),
    decreases done,
{
    let events = removal_events(outcomes);
    let expected = removal_actions(s, outcomes);
    let now = events.take(done as int + 1);
    let seen = outcomes.take(done as int);
    lemma_count_bound(seen);
    assert(now.drop_last() =~= events.take(done as int));
    if done == 0 {
        assert(now.drop_last() =~= Seq::empty());
        assert(run(s, now.drop_last()).0 == s);
        assert(now.last() == PurgeEvent::Sent);
        assert(step(s, PurgeEvent::Sent) == next_revocation(s));
        assert(count_of(seen, true) == 0);
        assert(count_of(seen, false) == 0);
        if outcomes.len() == 0 {
            assert(outcomes =~= seen);
        }
        assert(run(s, now).1 =~= expected.take(1));
    } else {
        let earlier = (done - 1) as nat;
        lemma_removal_prefix(s, outcomes, earlier);
        let before = run(s, events.take(done as int));
        let went_through = outcomes[done - 1];
        assert(now.last() == PurgeEvent::Revoked(went_through));
        let older = outcomes.take(earlier as int);
        lemma_count_bound(older);
        assert(seen.drop_last() =~= older);
        assert(seen.last() == went_through);
        assert(step(before.0, now.last()) == on_revoked(before.0, went_through));
        if done == outcomes.len() {
            assert(outcomes =~= seen);
        }
        assert(run(s, now).1 =~= expected.take(done as int + 1));
    }
}

/// One failed revocation stops nothing: once the removal is confirmed,
/// every target is tried, in order, whatever became of the ones before,
/// and the summary counts each outcome once, the failures among them.
pub proof fn law_every_target_is_tried(s: SessionView, outcomes: Seq<bool>)
    requires
        s.wf(),
        s.stage == Stage::Confirming,
        outcomes.len() == s.targets.len(),
    ensures
        ({
            let r = run(s, removal_events(outcomes));
            &&& r.0.stage == Stage::Completed
            &&& r.0.succeeded == count_of(outcomes, true)
            &&& r.0.failed == count_of(outcomes, false)
            &&& r.0.succeeded + r.0.failed == s.targets.len()
            &&& r.1 == removal_actions(s, outcomes)
            &&& revocations(r.1) == s.targets.len()
        }),
{
    let events = removal_events(outcomes);
    let expected = removal_actions(s, outcomes);
    lemma_removal_prefix(s, outcomes, outcomes.len());
    lemma_count_bound(outcomes);
    assert(events.take(outcomes.len() as int + 1) =~= events);
    assert(outcomes.take(outcomes.len() as int) =~= outcomes);
    assert(expected.take(outcomes.len() as int + 1) =~= expected);
    lemma_revocations_of_prefix(s, outcomes, s.targets.len());
    assert(expected.take(s.targets.len() as int) =~= expected.drop_last());
}

proof fn lemma_revocations_of_prefix(s: SessionView, outcomes: Seq<bool>, done: nat)
    requires
        done <= s.targets.len(),
    ensures
        revocations(removal_actions(s, outcomes).take(done as int)) == done,
    decreases done,
{
    let expected = removal_actions(s, outcomes);
    if done > 0 {
        lemma_revocations_of_prefix(s, outcomes, (done - 1) as nat);
        assert(expected.take(done as int).drop_last() =~= expected.take(done - 1));
        assert(expected.take(done as int).last() == expected[done - 1]);
    }
}

/// With one failure among `K` revocations the summary reports `K - 1`
/// successes and one failure.
pub proof fn law_one_failure(s: SessionView, outcomes: Seq<bool>, failing: int)
    requires
        s.wf(),
        s.stage == Stage::Confirming,
        outcomes.len() == s.targets.len(),
        0 <= failing < outcomes.len(),
        forall|i: int| 0 <= i < outcomes.len() ==> outcomes[i] == (i != failing),
    ensures
        run(s, removal_events(outcomes)).0.failed == 1,
        run(s, removal_events(outcomes)).0.succeeded == s.targets.len() - 1,
        revocations(run(s, removal_events(outcomes)).1) == s.targets.len(),
{
    law_every_target_is_tried(s, outcomes);
    lemma_one_false(outcomes, failing, outcomes.len());
    assert(outcomes.take(outcomes.len() as int) =~= outcomes);
}

proof fn lemma_one_false(outcomes: Seq<bool>, failing: int, upto: nat)
    requires
        0 <= failing < outcomes.len(),
        upto <= outcomes.len(),
        forall|i: int| 0 <= i < outcomes.len() ==> outcomes[i] == (i != failing),
    ensures
        count_of(outcomes.take(upto as int), false) == if failing < upto {
            1nat
        } else {
            0nat
        },
    decreases upto,
{
    if upto > 0 {
        lemma_one_false(outcomes, failing, (upto - 1) as nat);
        assert(outcomes.take(upto as int).drop_last() =~= outcomes.take(upto - 1));
        assert(outcomes.take(upto as int).last() == outcomes[upto - 1]);
    }
}

/// A purge that is confirmed twice reaches every holder of the role. A
/// session that has been confirmed once reads the roster, posts the
/// second prompt, is confirmed again and then asks for the role to be
/// taken from each member of the roster that holds it, once, in the order
/// of the roster, whatever the page size and whatever becomes of the
/// single revocations; after that it is completed.
pub proof fn law_purge_reaches_every_holder(
    s: SessionView,
    pages: Seq<Seq<MemberSnapshot>>,
    prompt: u64,
    outcomes: Seq<bool>,
)
    requires
        s.wf(),
        s.stage == Stage::Fetching,
        s.targets.len() == 0,
        cut_into_pages(pages, s.page_size),
        joined(pages).len() <= usize::MAX,
        outcomes.len() == holders(joined(pages), s.role).len(),
    ensures
        ({
            let found = holders(joined(pages), s.role);
            let read = fed(s, pages);
            let asked = step(read, PurgeEvent::Asked(prompt)).0;
            let confirmed = step(
                asked,
                PurgeEvent::Click { correlation: s.correlation, choice: Choice::Confirm },
            ).0;
            let removal = run(confirmed, removal_events(outcomes));
            &&& removal.0.stage == Stage::Completed
            &&& removal.0.succeeded == count_of(outcomes, true)
            &&& removal.0.failed == count_of(outcomes, false)
            &&& removal.1.len() == found.len() + 1
            &&& forall|i: int|
                0 <= i < found.len() ==> #[trigger] removal.1[i] == (PurgeAction::Revoke {
                    guild: s.guild,
                    user: found[i],
                    role: s.role,
                })
        }),
{
    law_targets_are_holders(s, pages);
    let read = fed(s, pages);
    let asked = step(read, PurgeEvent::Asked(prompt)).0;
    let confirmed = step(
        asked,
        PurgeEvent::Click { correlation: s.correlation, choice: Choice::Confirm },
    ).0;
    assert(confirmed == SessionView { stage: Stage::Confirming, prompt, ..read });
    law_every_target_is_tried(confirmed, outcomes);
}

} // verus!
