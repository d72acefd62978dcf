//! What holds of the detector over whole histories of events.
use vstd::prelude::*;
use crate::detector::{decision_for, next_tracked, pass_through, Decision, Disposition};
use crate::engine::notified;
use crate::event::{class_of, KeyClass, KeyEvent, Transition};
use crate::oracle::OracleReading;

verus! {

/// One callback invocation as the detector sees it: the event, and the
/// oracle's answer at that moment.
pub struct Observation {
    pub event: KeyEvent,
    pub reading: OracleReading,
}

/// The tracked flag after a history of observations, starting from
/// `initial`.
pub open spec fn tracked_after(initial: bool, history: Seq<Observation>) -> bool
    decreases history.len(),
{
    if history.len() == 0 {
        initial
    } else {
        next_tracked(
            tracked_after(initial, history.drop_last()),
            history.last().event,
            history.last().reading.held(),
        )
    }
}

/// The decision on the last observation of a non-empty history.
pub open spec fn last_decision(initial: bool, history: Seq<Observation>) -> Decision
    recommends
        history.len() > 0,
{
    decision_for(
        tracked_after(initial, history.drop_last()),
        history.last().event,
        history.last().reading.held(),
    )
}

/// The number of notifications that a history of observations gives rise
/// to, starting from `initial`.
pub open spec fn notifications_in(initial: bool, history: Seq<Observation>) -> nat
    decreases history.len(),
{
    if history.len() == 0 {
        0
    } else {
        let earlier = notifications_in(initial, history.drop_last());
        if last_decision(initial, history).notify {
            earlier + 1
        } else {
            earlier
        }
    }
}

/// A history followed by one more observation: the tracked flag and the
/// notification count unfold by one step.
pub proof fn lemma_unfold_push(initial: bool, history: Seq<Observation>, next: Observation)
    ensures
        tracked_after(initial, history.push(next)) == next_tracked(
            tracked_after(initial, history),
            next.event,
            next.reading.held(),
        ),
        notifications_in(initial, history.push(next)) == notifications_in(initial, history) + (
        if decision_for(tracked_after(initial, history), next.event, next.reading.held()).notify {
            1nat
        } else {
            0nat
        }),
{
    let extended = history.push(next);
    assert(extended.drop_last() =~= history);
    assert(extended.last() == next);
}

/// Reconciliation restores the truth: whatever the history of events, lost
/// releases included, and whatever the tracked flag had drifted to, after a
/// hardware event of the trigger key the tracked flag equals the oracle's
/// answer at that event.
pub proof fn law_reconciliation_restores_truth(
    initial: bool,
    history: Seq<Observation>,
    trigger: Observation,
)
    requires
        class_of(trigger.event) == KeyClass::Trigger,
    ensures
        tracked_after(initial, history.push(trigger)) == trigger.reading.held(),
{
    lemma_unfold_push(initial, history, trigger);
}

/// Reconciliation is idempotent: a second trigger event under the same
/// oracle answer leaves the tracked flag where the first put it and reports
/// no correction.
pub proof fn law_reconciliation_idempotent(
    belief: bool,
    first: Observation,
    second: Observation,
)
    requires
        class_of(first.event) == KeyClass::Trigger,
        class_of(second.event) == KeyClass::Trigger,
        first.reading.held() == second.reading.held(),
    ensures
        ({
            let once = next_tracked(belief, first.event, first.reading.held());
            &&& next_tracked(once, second.event, second.reading.held()) == once
            &&& !decision_for(once, second.event, second.reading.held()).corrected
        }),
{
}

/// Only a hardware event of the trigger key can notify: a history without
/// one gives rise to no notification.
pub proof fn lemma_no_trigger_no_notification(initial: bool, history: Seq<Observation>)
    requires
        forall|i: int|
            0 <= i < history.len() ==> class_of(#[trigger] history[i].event) != KeyClass::Trigger,
    ensures
        notifications_in(initial, history) == 0,
    decreases history.len(),
{
    if history.len() > 0 {
        let earlier = history.drop_last();
        assert forall|i: int| 0 <= i < earlier.len() implies class_of(
            #[trigger] earlier[i].event,
        ) != KeyClass::Trigger by {
            assert(earlier[i] == history[i]);
        }
        lemma_no_trigger_no_notification(initial, earlier);
        assert(class_of(history[history.len() - 1].event) != KeyClass::Trigger);
    }
}

/// No double notification: one press of the trigger key while the modifier
/// is held gives rise to exactly one notification, however many events of
/// other keys came before it, repeated modifier presses among them, and
/// whatever the tracked flag was at the start.
pub proof fn law_single_notification(
    initial: bool,
    repeats: Seq<Observation>,
    press: Observation,
)
    requires
        forall|i: int|
            0 <= i < repeats.len() ==> class_of(#[trigger] repeats[i].event) != KeyClass::Trigger,
        class_of(press.event) == KeyClass::Trigger,
        press.event.transition == Transition::Down,
        press.reading.held(),
    ensures
        notifications_in(initial, repeats.push(press)) == 1,
{
    lemma_no_trigger_no_notification(initial, repeats);
    lemma_unfold_push(initial, repeats, press);
}

/// The release that ends a chord press is swallowed with it and notifies
/// nobody: press and release of the trigger key under a held modifier give
/// one notification between them.
pub proof fn law_release_does_not_notify(initial: bool, press: Observation, release: Observation)
    requires
        class_of(press.event) == KeyClass::Trigger,
        press.event.transition == Transition::Down,
        press.reading.held(),
        class_of(release.event) == KeyClass::Trigger,
        release.event.transition == Transition::Up,
        release.reading.held(),
    ensures
        notifications_in(initial, seq![press, release]) == 1,
        last_decision(initial, seq![press, release]).disposition == Disposition::Swallow,
{
    let both = seq![press, release];
    assert(both =~= Seq::<Observation>::empty().push(press).push(release));
    lemma_unfold_push(initial, Seq::<Observation>::empty(), press);
    lemma_unfold_push(initial, Seq::<Observation>::empty().push(press), release);
    assert(both.drop_last() =~= Seq::<Observation>::empty().push(press));
}

/// Injected events are invisible: an event that carries the injected marker
/// leaves the tracked flag alone, is passed on and notifies nobody, whatever
/// its key, the tracked flag and the oracle's answer.
pub proof fn law_injected_event_ignored(belief: bool, event: KeyEvent, oracle_held: bool)
    requires
        event.injected,
    ensures
        next_tracked(belief, event, oracle_held) == belief,
        decision_for(belief, event, oracle_held) == pass_through(),
{
}

/// A history made of injected events only changes nothing and notifies
/// nobody.
pub proof fn law_injected_history_ignored(initial: bool, history: Seq<Observation>)
    requires
        forall|i: int| 0 <= i < history.len() ==> (#[trigger] history[i]).event.injected,
    ensures
        tracked_after(initial, history) == initial,
        notifications_in(initial, history) == 0,
    decreases history.len(),
{
    if history.len() > 0 {
        let earlier = history.drop_last();
        assert forall|i: int| 0 <= i < earlier.len() implies (#[trigger] earlier[i]).event.injected by {
            assert(earlier[i] == history[i]);
        }
        law_injected_history_ignored(initial, earlier);
        assert(history[history.len() - 1].event.injected);
    }
}

/// Detection fails open on a missing surface: while no surface is stored
/// nobody is notified, whatever the decision, and once one is stored a
/// decision that asks for a notification reaches it. What the detector
/// decides, and what becomes of the tracked flag, does not depend on the
/// surface at all.
pub proof fn law_missing_surface_drops_notification<S>(surface: Option<S>, decision: Decision)
    ensures
        surface is None ==> notified(surface, decision) is None,
        surface is Some && decision.notify ==> notified(surface, decision) == surface,
        !decision.notify ==> notified(surface, decision) is None,
{
}

/// The oracle is read only for the trigger key: for every other event the
/// outcome is the same under any two answers.
pub proof fn law_oracle_read_only_for_trigger(
    belief: bool,
    event: KeyEvent,
    one_answer: bool,
    other_answer: bool,
)
    requires
        class_of(event) != KeyClass::Trigger,
    ensures
        next_tracked(belief, event, one_answer) == next_tracked(belief, event, other_answer),
        decision_for(belief, event, one_answer) == decision_for(belief, event, other_answer),
{
}

/// The detector fails open: an event is swallowed only if it is a hardware
/// event of the trigger key and the oracle confirms the modifier as held,
/// and a notification is sent only for an event that is swallowed.
pub proof fn law_swallow_only_confirmed_chord(belief: bool, event: KeyEvent, oracle_held: bool)
    ensures
        decision_for(belief, event, oracle_held).disposition == Disposition::Swallow <==> class_of(
            event,
        ) == KeyClass::Trigger && oracle_held,
        decision_for(belief, event, oracle_held).notify ==> decision_for(
            belief,
            event,
            oracle_held,
        ).disposition == Disposition::Swallow,
{
}

} // verus!
