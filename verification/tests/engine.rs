use chord_hook::detector::{Decision, Disposition};
use chord_hook::engine::{HookEngine, HookThreadStep};
use chord_hook::event::{KeyEvent, Transition};
use chord_hook::keys::{VK_LWIN, VK_V};
use chord_hook::oracle::OracleReading;

fn press(virtual_key: u32) -> KeyEvent {
    KeyEvent { virtual_key, transition: Transition::Down, injected: false }
}

fn held() -> OracleReading {
    OracleReading { left_down: true, right_down: false }
}

#[test]
fn new_engine_is_idle() {
    let engine: HookEngine<String, u64> = HookEngine::new();
    assert!(!engine.is_installed());
    assert!(!engine.has_surface());
    assert!(!engine.is_modifier_held());
}

#[test]
fn start_stores_and_replaces_the_surface() {
    let mut engine: HookEngine<String, u64> = HookEngine::new();
    engine.start(String::from("first"));
    assert!(engine.has_surface());
    let notify = Decision { disposition: Disposition::Swallow, notify: true, corrected: false };
    assert_eq!(engine.notification_target(&notify), Some(&String::from("first")));
    engine.start(String::from("second"));
    assert_eq!(engine.notification_target(&notify), Some(&String::from("second")));
    assert!(!engine.is_installed());
    assert!(!engine.is_modifier_held());
}

#[test]
fn detection_before_start_skips_the_notification() {
    let mut engine: HookEngine<String, u64> = HookEngine::new();
    engine.handle_event(press(VK_LWIN), OracleReading::released());
    let decision = engine.handle_event(press(VK_V), held());
    assert_eq!(
        decision,
        Decision { disposition: Disposition::Swallow, notify: true, corrected: false }
    );
    assert_eq!(engine.notification_target(&decision), None);
    assert!(engine.is_modifier_held());

    // The next press after start is the retry.
    engine.start(String::from("main"));
    let decision = engine.handle_event(press(VK_V), held());
    assert_eq!(engine.notification_target(&decision), Some(&String::from("main")));
}

#[test]
fn no_target_without_a_notification() {
    let mut engine: HookEngine<String, u64> = HookEngine::new();
    engine.start(String::from("main"));
    let decision = engine.handle_event(press(VK_LWIN), OracleReading::released());
    assert!(!decision.notify);
    assert_eq!(engine.notification_target(&decision), None);
    assert_eq!(engine.notification_target(&Decision::forward()), None);
}

#[test]
fn registration_success_installs_the_hook() {
    let mut engine: HookEngine<String, u64> = HookEngine::new();
    engine.start(String::from("main"));
    assert_eq!(engine.installed_hook(), None);
    assert_eq!(engine.registration_result(Some(7)), HookThreadStep::PumpMessages);
    assert!(engine.is_installed());
    assert_eq!(engine.installed_hook(), Some(&7));
    assert!(engine.has_surface());
}

#[test]
fn registration_failure_leaves_the_feature_off() {
    let mut engine: HookEngine<String, u64> = HookEngine::new();
    engine.start(String::from("main"));
    assert_eq!(engine.registration_result(None), HookThreadStep::ReportFailure);
    assert!(!engine.is_installed());
    assert!(engine.has_surface());
    assert_eq!(engine.teardown(), None);
}

#[test]
fn teardown_hands_back_the_token_once() {
    let mut engine: HookEngine<String, u64> = HookEngine::new();
    engine.registration_result(Some(42));
    engine.handle_event(press(VK_LWIN), OracleReading::released());
    assert_eq!(engine.teardown(), Some(42));
    assert!(!engine.is_installed());
    assert!(engine.is_modifier_held());
    assert_eq!(engine.teardown(), None);
}

#[test]
fn events_leave_surface_and_hook_alone() {
    let mut engine: HookEngine<String, u64> = HookEngine::new();
    engine.start(String::from("main"));
    engine.registration_result(Some(1));
    engine.handle_event(press(VK_LWIN), OracleReading::released());
    engine.handle_event(press(VK_V), held());
    engine.handle_event(press(VK_V), OracleReading::released());
    assert!(engine.has_surface());
    assert!(engine.is_installed());
    assert!(!engine.is_modifier_held());
    assert_eq!(engine.teardown(), Some(1));
}
