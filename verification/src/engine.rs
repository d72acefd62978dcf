//! The state of one hook installation and its lifecycle.
//!
//! The hook callback is a free-standing entry point, so everything it needs
//! lives in one container: the tracked modifier flag, the handle of the
//! application's notification target, and the registration token of the
//! hook. The container is generic in the last two; it stores them and hands
//! them back, and never looks inside.
//!
//! Each field has one writer. `start` writes the surface, the hook thread
//! writes the token through `registration_result` and `teardown`, and the
//! callback writes the tracked flag through `handle_event`.
use vstd::prelude::*;
use crate::detector::{decision_for, next_tracked, pass_through, Decision, TrackedModifierState};
use crate::event::KeyEvent;
use crate::oracle::OracleReading;

verus! {

/// Whom a decision reaches: the stored surface when the decision asks for a
/// notification, nobody when it does not or when no surface is stored.
pub open spec fn notified<S>(surface: Option<S>, decision: Decision) -> Option<S> {
    if decision.notify {
        surface
    } else {
        None
    }
}

/// What the hook thread does once registration has been attempted.
#[derive(Clone, Copy, Debug, PartialEq, Eq, Structural)]
pub enum HookThreadStep {
    /// The hook is installed: retrieve and dispatch messages until the loop
    /// ends, then tear down.
    PumpMessages,
    /// Registration failed: report it once and do nothing more. The rest of
    /// the application goes on without the feature.
    ReportFailure,
}

/// The process-wide state of the interception engine. `S` is the handle of
/// the application surface, `H` the registration token of the hook.
pub struct HookEngine<S, H> {
    modifier: TrackedModifierState,
    surface: Option<S>,
    hook: Option<H>,
}

impl<S, H> HookEngine<S, H> {
    /// The tracked modifier flag.
    pub closed spec fn modifier_held(&self) -> bool {
        self.modifier.held()
    }

    /// The application surface, once `start` has stored one.
    pub closed spec fn surface(&self) -> Option<S> {
        self.surface
    }

    /// The token of the live hook: `None` before installation, after a
    /// failed registration and after teardown.
    pub closed spec fn hook(&self) -> Option<H> {
        self.hook
    }

    /// An engine that has not been started: the modifier is believed up, no
    /// surface is stored and no hook is installed.
    pub fn new() -> (engine: HookEngine<S, H>)
        ensures
            !engine.modifier_held(),
            engine.surface() is None,
            engine.hook() is None,
    {
        HookEngine { modifier: TrackedModifierState::new(), surface: None, hook: None }
    }

    /// Stores the application surface, replacing any earlier one. The caller
    /// then spawns the hook thread, which registers the hook and reports the
    /// outcome through `registration_result`.
    pub fn start(&mut self, surface: S)
        ensures
            final(self).surface() == Some(surface),
            final(self).modifier_held() == old(self).modifier_held(),
            final(self).hook() == old(self).hook(),
    {
        self.surface = Some(surface);
    }

    /// Records the outcome of registering the hook and tells the hook thread
    /// how to go on. A token is stored; a failure leaves the engine as it
    /// was.
    pub fn registration_result(&mut self, outcome: Option<H>) -> (step: HookThreadStep)
        ensures
            outcome is Some ==> final(self).hook() == outcome && step
                == HookThreadStep::PumpMessages,
            outcome is None ==> final(self).hook() == old(self).hook() && step
                == HookThreadStep::ReportFailure,
            final(self).surface() == old(self).surface(),
            final(self).modifier_held() == old(self).modifier_held(),
    {
        match outcome {
            Some(token) => {
                self.hook = Some(token);
                HookThreadStep::PumpMessages
            },
            None => HookThreadStep::ReportFailure,
        }
    }

    /// Ends the installation when the message loop has exited: hands back
    /// the token to unregister, if a hook was installed, and forgets it.
    pub fn teardown(&mut self) -> (token: Option<H>)
        ensures
            token == old(self).hook(),
            final(self).hook() is None,
            final(self).surface() == old(self).surface(),
            final(self).modifier_held() == old(self).modifier_held(),
    {
        self.hook.take()
    }

    /// Whether a hook is installed.
    pub fn is_installed(&self) -> (installed: bool)
        ensures
            installed == self.hook() is Some,
    {
        self.hook.is_some()
    }

    /// The token of the live hook, for calls that must name it.
    pub fn installed_hook(&self) -> (token: Option<&H>)
        ensures
            token is Some <==> self.hook() is Some,
            token is Some ==> *token->0 == self.hook()->0,
    {
        match &self.hook {
            Some(token) => Some(token),
            None => None,
        }
    }

    /// Whether a surface has been stored.
    pub fn has_surface(&self) -> (present: bool)
        ensures
            present == self.surface() is Some,
    {
        self.surface.is_some()
    }

    /// Reads the tracked modifier flag.
    pub fn is_modifier_held(&self) -> (held: bool)
        ensures
            held == self.modifier_held(),
    {
        self.modifier.is_held()
    }

    /// The detection path: handles one event of the hook callback. It asks
    /// nothing of the engine's lifecycle, so it may run before `start` and
    /// after teardown, and it touches nothing but the tracked flag.
    pub fn handle_event(&mut self, event: KeyEvent, reading: OracleReading) -> (decision: Decision)
        ensures
            final(self).modifier_held() == next_tracked(
                old(self).modifier_held(),
                event,
                reading.held(),
            ),
            decision == decision_for(old(self).modifier_held(), event, reading.held()),
            event.injected ==> final(self).modifier_held() == old(self).modifier_held()
                && decision == pass_through(),
            final(self).surface() == old(self).surface(),
            final(self).hook() == old(self).hook(),
    {
        self.modifier.handle_event(event, reading)
    }

    /// Whom to notify after a decision: the stored surface when the
    /// decision asks for a notification, else none. With no surface stored
    /// the notification is dropped; the next chord press is the retry.
    pub fn notification_target(&self, decision: &Decision) -> (target: Option<&S>)
        ensures
            target is Some <==> notified(self.surface(), *decision) is Some,
            target is Some ==> *target->0 == notified(self.surface(), *decision)->0,
    {
        if decision.notify {
            match &self.surface {
                Some(surface) => Some(surface),
                None => None,
            }
        } else {
            None
        }
    }
}

} // verus!
