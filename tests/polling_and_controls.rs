use hangar_dashboard::controls::{success_key, ControlAction, ControlPanel, RELOAD_DELAY_MS};
use hangar_dashboard::polling::{
    metrics_after_fetch, status_after_fetch, status_badge, unknown_status_key, PollCommand,
    Poller, METRICS_POLL_INTERVAL_MS, STATUS_POLL_INTERVAL_MS,
};

fn schedule_handle(cmds: &[PollCommand]) -> u64 {
    match cmds.last() {
        Some(PollCommand::Schedule { timer, .. }) => *timer,
        _ => panic!("expected a schedule"),
    }
}

#[test]
fn periods_are_fixed() {
    assert_eq!(STATUS_POLL_INTERVAL_MS, 5000);
    assert_eq!(METRICS_POLL_INTERVAL_MS, 3000);
    assert_eq!(RELOAD_DELAY_MS, 1500);
}

#[test]
fn poller_lifecycle() {
    let mut p = Poller::new(STATUS_POLL_INTERVAL_MS);
    let cmds = p.mount(42);
    assert_eq!(cmds.len(), 2);
    assert_eq!(cmds[0], PollCommand::Fetch { id: 42 });
    let t = schedule_handle(&cmds);
    assert_eq!(cmds[1], PollCommand::Schedule { timer: t, period_ms: 5000 });
    assert_eq!(p.tick(t), Some(42));
    assert_eq!(p.tick(t), Some(42));
    assert!(p.mount(42).is_empty());
    assert_eq!(p.unmount(), Some(PollCommand::Cancel { timer: t }));
    assert_eq!(p.tick(t), None);
    assert_eq!(p.unmount(), None);
}

#[test]
fn changing_id_cancels_old_timer() {
    let mut p = Poller::new(METRICS_POLL_INTERVAL_MS);
    let t = schedule_handle(&p.mount(42));
    let cmds = p.mount(43);
    assert_eq!(cmds[0], PollCommand::Cancel { timer: t });
    assert_eq!(cmds[1], PollCommand::Fetch { id: 43 });
    let u = schedule_handle(&cmds);
    assert_ne!(u, t);
    assert_eq!(p.tick(t), None);
    assert_eq!(p.tick(u), Some(43));
}

#[test]
fn status_keeps_last_value_on_failure() {
    assert_eq!(status_after_fetch(None, None), None);
    let s = status_after_fetch(None, Some("running".to_string()));
    assert_eq!(s.as_deref(), Some("running"));
    let s = status_after_fetch(s, None);
    assert_eq!(s.as_deref(), Some("running"));
    let s = status_after_fetch(s, Some("exited".to_string()));
    assert_eq!(s.as_deref(), Some("exited"));
}

#[test]
fn metrics_clear_on_failure() {
    assert_eq!(metrics_after_fetch::<u32, ()>(Ok(5)), Some(5));
    assert_eq!(metrics_after_fetch::<u32, ()>(Err(())), None);
}

#[test]
fn status_badge_keys() {
    let running = "running".to_string();
    let b = status_badge(Some(&running));
    assert_eq!(b.class, "status-running");
    assert_eq!(b.label_key, "common.status_running");
    let b = status_badge(None);
    assert_eq!(b.class, "status-unknown");
    assert_eq!(b.label_key, "common.loading");
    assert_eq!(unknown_status_key(), "common.status_unknown");
}

#[test]
fn one_control_action_at_a_time() {
    let mut c = ControlPanel::new();
    assert_eq!(c.press(ControlAction::Start), Some(ControlAction::Start));
    assert!(c.in_flight);
    assert_eq!(c.press(ControlAction::Stop), None);
    assert_eq!(c.press(ControlAction::Start), None);
    assert_eq!(c.finish(ControlAction::Start, true), Some(1500));
    assert!(!c.in_flight);
    assert_eq!(c.succeeded, Some(ControlAction::Start));
    assert_eq!(c.press(ControlAction::Restart), Some(ControlAction::Restart));
    assert_eq!(c.succeeded, None);
    assert_eq!(c.finish(ControlAction::Restart, false), None);
    assert_eq!(c.succeeded, None);
    assert!(!c.in_flight);
}

#[test]
fn control_success_keys() {
    assert_eq!(success_key(ControlAction::Start), "project_dashboard.start_success");
    assert_eq!(success_key(ControlAction::Stop), "project_dashboard.stop_success");
    assert_eq!(success_key(ControlAction::Restart), "project_dashboard.restart_success");
}
