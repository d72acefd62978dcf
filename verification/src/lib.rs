//! A chord interception engine for a system-wide keyboard hook.
//!
//! The engine watches every key transition the input dispatcher reports,
//! tracks whether the modifier of the chord is held, repairs that belief
//! against the operating system's own answer whenever the trigger key is
//! seen, and decides for each event whether it is passed on or swallowed and
//! whether the application is told that the chord fired.
//!
//! Everything here is a function of plain values. Installing the hook,
//! asking the system for a key's level and reaching the user-interface
//! thread are left to the caller, which hands the answers in.
pub mod keys;
pub mod event;
pub mod oracle;
pub mod detector;
pub mod engine;
pub mod window;
pub mod laws;
