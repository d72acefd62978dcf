//! The chord detector: tracked modifier state and the per-event decision.
//!
//! The rules are applied in a fixed order to every event. An injected event
//! is passed on untouched. A modifier event updates the tracked flag and is
//! passed on. A trigger event first reconciles the tracked flag with the
//! oracle; if the modifier is then held the event belongs to the chord, else
//! it is an ordinary keystroke. Every other key is passed on.
//!
//! Of the two ways to keep the shell from handling the chord itself, this
//! detector swallows the trigger key's events for as long as the chord is
//! active. It never swallows a modifier event, so the shell always sees the
//! modifier's release; the price is that the shell sees a modifier press
//! and release with nothing in between.
use vstd::prelude::*;
use crate::event::{class_of, KeyClass, KeyEvent, Transition};
use crate::oracle::OracleReading;

verus! {

/// What becomes of an event once the detector has seen it.
#[derive(Clone, Copy, Debug, PartialEq, Eq, Structural)]
pub enum Disposition {
    /// Hand the event on to the next hook, unchanged.
    Forward,
    /// Keep the event from the rest of the system.
    Swallow,
}

/// The detector's decision on one event.
#[derive(Clone, Copy, Debug, PartialEq, Eq, Structural)]
pub struct Decision {
    pub disposition: Disposition,
    /// The chord fired: the application is to be asked to toggle its window.
    pub notify: bool,
    /// The tracked flag contradicted the oracle and was reset to it.
    pub corrected: bool,
}

/// The decision that passes an event on and does nothing else.
pub open spec fn pass_through() -> Decision {
    Decision { disposition: Disposition::Forward, notify: false, corrected: false }
}

/// The tracked flag after a modifier event with the given transition.
pub open spec fn tracked_after_transition(belief: bool, transition: Transition) -> bool {
    match transition {
        Transition::Down => true,
        Transition::Up => false,
        Transition::Other => belief,
    }
}

/// The tracked flag after one event. `oracle_held` is the oracle's answer at
/// the time of the event; only a trigger event reads it.
pub open spec fn next_tracked(belief: bool, event: KeyEvent, oracle_held: bool) -> bool {
    match class_of(event) {
        KeyClass::Injected => belief,
        KeyClass::Modifier => tracked_after_transition(belief, event.transition),
        KeyClass::Trigger => oracle_held,
        KeyClass::Other => belief,
    }
}

/// The decision on one event, given the tracked flag before it and the
/// oracle's answer at the time of the event.
pub open spec fn decision_for(belief: bool, event: KeyEvent, oracle_held: bool) -> Decision {
    match class_of(event) {
        KeyClass::Trigger => Decision {
            disposition: if oracle_held {
                Disposition::Swallow
            } else {
                Disposition::Forward
            },
            notify: oracle_held && event.transition == Transition::Down,
            corrected: belief != oracle_held,
        },
        _ => pass_through(),
    }
}

impl Decision {
    /// The decision that passes an event on and does nothing else. It is also
    /// the decision to fall back on when the detector cannot be reached.
    pub fn forward() -> (decision: Decision)
        ensures
            decision == pass_through(),
    {
        Decision { disposition: Disposition::Forward, notify: false, corrected: false }
    }

    /// Whether the event is kept from the rest of the system.
    pub fn is_swallowed(&self) -> (swallowed: bool)
        ensures
            swallowed == (self.disposition == Disposition::Swallow),
    {
        match self.disposition {
            Disposition::Swallow => true,
            Disposition::Forward => false,
        }
    }
}

/// The detector's belief about whether the modifier is held, as derived from
/// the event stream. It starts out `false` and may drift from the truth when
/// a release is lost; reconciliation repairs it.
#[derive(Clone, Copy, Debug)]
pub struct TrackedModifierState {
    modifier_down: bool,
}

impl TrackedModifierState {
    /// The tracked flag.
    pub closed spec fn held(&self) -> bool {
        self.modifier_down
    }

    /// A fresh state: the modifier is believed to be up.
    pub fn new() -> (state: TrackedModifierState)
        ensures
            !state.held(),
    {
        TrackedModifierState { modifier_down: false }
    }

    /// Reads the tracked flag.
    pub fn is_held(&self) -> (held: bool)
        ensures
            held == self.held(),
    {
        self.modifier_down
    }

    /// Records the edge of a modifier event: a press sets the flag, a
    /// release clears it, anything else leaves it.
    pub fn record_transition(&mut self, transition: Transition)
        ensures
            final(self).held() == tracked_after_transition(old(self).held(), transition),
    {
        match transition {
            Transition::Down => {
                self.modifier_down = true;
            },
            Transition::Up => {
                self.modifier_down = false;
            },
            Transition::Other => {},
        }
    }

    /// Resets the flag to the oracle's answer and reports whether the two
    /// had disagreed.
    pub fn reconcile(&mut self, reading: OracleReading) -> (corrected: bool)
        ensures
            final(self).held() == reading.held(),
            corrected == (old(self).held() != reading.held()),
    {
        let truth = reading.modifier_held();
        let corrected = self.modifier_down != truth;
        self.modifier_down = truth;
        corrected
    }

    /// Handles one event: updates the tracked flag and returns the decision.
    ///
    /// `reading` is consulted only where `event.needs_oracle()` holds; for
    /// every other event any reading gives the same result.
    pub fn handle_event(&mut self, event: KeyEvent, reading: OracleReading) -> (decision: Decision)
        ensures
            final(self).held() == next_tracked(old(self).held(), event, reading.held()),
            decision == decision_for(old(self).held(), event, reading.held()),
            event.injected ==> final(self).held() == old(self).held() && decision
                == pass_through(),
    {
        match event.classify() {
            KeyClass::Injected => Decision::forward(),
            KeyClass::Modifier => {
                self.record_transition(event.transition);
                Decision::forward()
            },
            KeyClass::Trigger => {
                let corrected = self.reconcile(reading);
                if self.modifier_down {
                    let notify = match event.transition {
                        Transition::Down => true,
                        _ => false,
                    };
                    Decision { disposition: Disposition::Swallow, notify, corrected }
                } else {
                    Decision { disposition: Disposition::Forward, notify: false, corrected }
                }
            },
            KeyClass::Other => Decision::forward(),
        }
    }
}

} // verus!
