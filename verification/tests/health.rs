use penpot_desktop::config::{AppConfig, DesktopEnv, SidecarProfile, DEFAULT_FLAGS};
use penpot_desktop::mcp_health::McpHealthReport;
use penpot_desktop::sidecar::health::{ProbeResult, ReachWait, WaitAction, WaitEvent};

fn config() -> AppConfig {
    AppConfig {
        penpot_public_uri: "penpot.example.com".to_string(),
        penpot_flags: DEFAULT_FLAGS.to_string(),
        sidecar_profile: SidecarProfile::Remote,
        auto_start_sidecar: true,
        repo_root: None,
    }
}

#[test]
fn probe_status_below_500_is_reachable() {
    let p = ProbeResult::from_status(404);
    assert!(p.reachable);
    assert_eq!(p.status, Some(404));
    assert_eq!(p.error, None);
    assert!(!ProbeResult::from_status(500).reachable);
    assert!(ProbeResult::from_status(499).reachable);
    let e = ProbeResult::from_error("connection refused".to_string());
    assert!(!e.reachable);
    assert_eq!(e.status, None);
    assert_eq!(e.error.as_deref(), Some("connection refused"));
}

#[test]
fn health_report_initial_endpoints() {
    let r = McpHealthReport::initial(&config(), &DesktopEnv::unset());
    assert_eq!(r.penpot_uri, "https://penpot.example.com/");
    assert_eq!(r.mcp_stream_url, "https://penpot.example.com/mcp/stream");
    assert_eq!(r.mcp_ws_url, "wss://penpot.example.com/mcp/ws");
    assert!(!r.stream_reachable);
    assert_eq!(r.stream_status, None);
}

#[test]
fn health_report_status_rules() {
    let mut r = McpHealthReport::initial(&config(), &DesktopEnv::unset());
    r.record_status(405);
    assert!(r.stream_reachable);
    assert_eq!(r.summary(), "MCP stream reachable (HTTP 405)\nhttps://penpot.example.com/mcp/stream");
    r.record_status(204);
    assert!(r.stream_reachable);
    r.record_status(404);
    assert!(!r.stream_reachable);
    r.record_status(300);
    assert!(!r.stream_reachable);
}

#[test]
fn health_report_error_summary() {
    let mut r = McpHealthReport::initial(&config(), &DesktopEnv::unset());
    r.record_error("timed out".to_string());
    assert_eq!(r.summary(), "MCP stream not reachable\nhttps://penpot.example.com/mcp/stream\ntimed out");
    let r = McpHealthReport::initial(&config(), &DesktopEnv::unset());
    assert_eq!(r.summary(), "MCP stream not reachable\nhttps://penpot.example.com/mcp/stream\n");
}

fn run_wait(clock: &[bool], probes: &[bool]) -> (bool, Vec<WaitAction>) {
    let mut w = ReachWait::new(3);
    let (mut c, mut p) = (0, 0);
    let mut actions = Vec::new();
    for _ in 0..50 {
        let a = w.next_action();
        actions.push(a);
        let event = match a {
            WaitAction::ReadClock => {
                c += 1;
                WaitEvent::Clock(clock[c - 1])
            }
            WaitAction::Probe => {
                p += 1;
                WaitEvent::Probed(probes[p - 1])
            }
            WaitAction::Sleep(_) => WaitEvent::Slept,
            WaitAction::Done(r) => return (r, actions),
        };
        w.step(event);
    }
    panic!("wait did not end");
}

#[test]
fn wait_ends_when_reachable() {
    let (r, actions) = run_wait(&[true, true], &[false, true]);
    assert!(r);
    assert_eq!(
        actions,
        vec![
            WaitAction::ReadClock,
            WaitAction::Probe,
            WaitAction::Sleep(3),
            WaitAction::ReadClock,
            WaitAction::Probe,
            WaitAction::Done(true),
        ]
    );
}

#[test]
fn wait_times_out_at_deadline() {
    let (r, actions) = run_wait(&[true, false], &[false]);
    assert!(!r);
    assert_eq!(actions.len(), 5);
    let (r, actions) = run_wait(&[false], &[]);
    assert!(!r);
    assert_eq!(actions, vec![WaitAction::ReadClock, WaitAction::Done(false)]);
}

#[test]
fn wait_ignores_unasked_events() {
    let mut w = ReachWait::new(5);
    w.step(WaitEvent::Probed(true));
    assert_eq!(w.next_action(), WaitAction::ReadClock);
    w.step(WaitEvent::Clock(false));
    w.step(WaitEvent::Clock(true));
    assert_eq!(w.next_action(), WaitAction::Done(false));
}
