use gamemode::monitor::{
    MonitorAction, MonitorState, SessionMonitor, SessionStep, IDLE_INTERVAL_SECS,
    WATCHING_INTERVAL_SECS,
};
use gamemode::settings::AppSettings;

fn user_settings() -> AppSettings {
    AppSettings { suspend_explorer: true, advanced_tweaks: true, ..AppSettings::default() }
}

fn watching(pid: u32) -> SessionMonitor {
    let mut monitor = SessionMonitor::new(AppSettings::default());
    monitor.session_starting(&user_settings());
    monitor.session_started(Some((pid, 0x77)));
    monitor
}

#[test]
fn a_new_monitor_is_idle() {
    let monitor = SessionMonitor::new(AppSettings::default());
    assert_eq!(monitor.current_state(), MonitorState::Idle);
    assert_eq!(monitor.watched(), None);
    assert!(!monitor.active);
    assert!(monitor.may_exit());
    assert_eq!(monitor.poll_interval_secs(), 5);
    assert_eq!(IDLE_INTERVAL_SECS, 5);
    assert_eq!(WATCHING_INTERVAL_SECS, 2);
}

#[test]
fn a_detected_workload_is_watched_every_two_seconds() {
    let monitor = watching(4242);
    assert_eq!(monitor.current_state(), MonitorState::Watching(4242));
    assert_eq!(monitor.watched(), Some(4242));
    assert_eq!(monitor.poll_interval_secs(), 2);
    assert!(monitor.active);
    assert!(!monitor.may_exit());
    assert_eq!(monitor.settings, user_settings());
}

#[test]
fn a_session_without_workload_is_active_but_idle() {
    let mut monitor = SessionMonitor::new(AppSettings::default());
    monitor.session_starting(&user_settings());
    monitor.session_started(None);
    assert!(monitor.active);
    assert_eq!(monitor.current_state(), MonitorState::Idle);
    assert_eq!(monitor.poll_interval_secs(), 5);
    assert_eq!(monitor.tick(false), MonitorAction::Nothing);
    assert!(monitor.active);
}

#[test]
fn a_tick_with_a_living_workload_changes_nothing() {
    let mut monitor = watching(4242);
    assert_eq!(monitor.tick(true), MonitorAction::Nothing);
    assert_eq!(monitor, watching(4242));
}

#[test]
fn the_session_ends_once_when_the_workload_is_gone() {
    let mut monitor = watching(4242);
    assert_eq!(monitor.tick(true), MonitorAction::Nothing);
    assert_eq!(monitor.tick(false), MonitorAction::EndSession { settings: user_settings() });
    assert!(!monitor.active);
    assert_eq!(monitor.current_state(), MonitorState::Idle);
    assert_eq!(monitor.watched(), None);
    assert_eq!(monitor.poll_interval_secs(), 5);
    assert_eq!(monitor.tick(false), MonitorAction::Nothing);
    assert_eq!(monitor.tick(true), MonitorAction::Nothing);
    assert!(!monitor.active);
}

#[test]
fn the_end_uses_the_settings_of_the_start() {
    let mut monitor = watching(4242);
    let changed = AppSettings { isolate_network: true, ..AppSettings::default() };
    assert_ne!(changed, user_settings());
    match monitor.tick(false) {
        MonitorAction::EndSession { settings } => assert_eq!(settings, user_settings()),
        MonitorAction::Nothing => panic!("the session must end"),
    }
}

#[test]
fn process_id_zero_is_never_watched() {
    let mut monitor = SessionMonitor::new(AppSettings::default());
    monitor.session_starting(&user_settings());
    monitor.session_started(Some((0, 1)));
    assert_eq!(monitor.current_state(), MonitorState::Idle);
    assert_eq!(monitor.watched(), None);
    assert_eq!(monitor.poll_interval_secs(), 2);
    assert_eq!(monitor.tick(false), MonitorAction::Nothing);
    assert!(monitor.active);
}

#[test]
fn the_user_ends_the_session() {
    let mut monitor = watching(4242);
    assert_eq!(monitor.session_stopping(), user_settings());
    assert_eq!(monitor.current_state(), MonitorState::Idle);
    assert!(monitor.active);
    assert_eq!(monitor.tick(false), MonitorAction::Nothing);
    monitor.session_stopped();
    assert!(!monitor.active);
    assert!(monitor.may_exit());
}

#[test]
fn steps_of_a_session_start_and_end() {
    let with = user_settings();
    let without = AppSettings::default();
    assert_eq!(
        SessionMonitor::start_steps(&with),
        vec![
            SessionStep::SystemTweaks,
            SessionStep::HardwareTweaks,
            SessionStep::GameMode,
            SessionStep::DetectWorkload,
        ]
    );
    assert_eq!(
        SessionMonitor::start_steps(&without),
        vec![SessionStep::HardwareTweaks, SessionStep::GameMode, SessionStep::DetectWorkload]
    );
    assert_eq!(
        SessionMonitor::end_steps(&with),
        vec![SessionStep::GameMode, SessionStep::HardwareTweaks, SessionStep::SystemTweaks]
    );
    assert_eq!(
        SessionMonitor::end_steps(&without),
        vec![SessionStep::GameMode, SessionStep::HardwareTweaks]
    );
}
