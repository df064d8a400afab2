use penpot_desktop::config::{AppConfig, DesktopEnv, SidecarProfile, DEFAULT_FLAGS};
use penpot_desktop::sidecar::health::ProbeResult;
use penpot_desktop::sidecar::orchestrator::{
    devenv_spawn_verdict, docker_up_verdict, failed_status, manage_script_check, mcp_build_check,
    repo_for_spawn, service_from_probe, SidecarOrchestrator,
};
use penpot_desktop::sidecar::run::{RunAction, RunEvent, RunState, SidecarOutcome};

struct Replies {
    client: Result<(), String>,
    penpot_check: u16,
    penpot_probe: u16,
    mcp_check: u16,
    mcp_probe: u16,
    devenv: Result<bool, String>,
    docker: Result<(), String>,
    mcp: Result<(), String>,
    ready: bool,
}

fn replies() -> Replies {
    Replies {
        client: Ok(()),
        penpot_check: 200,
        penpot_probe: 200,
        mcp_check: 200,
        mcp_probe: 200,
        devenv: Ok(true),
        docker: Ok(()),
        mcp: Ok(()),
        ready: true,
    }
}

fn config(profile: SidecarProfile, auto: bool) -> AppConfig {
    AppConfig {
        penpot_public_uri: "https://penpot.example.com/".to_string(),
        penpot_flags: DEFAULT_FLAGS.to_string(),
        sidecar_profile: profile,
        auto_start_sidecar: auto,
        repo_root: None,
    }
}

/// Drives a run, answering each action from `r`; returns the outcome and
/// the actions asked for.
fn drive(cfg: &AppConfig, r: &Replies) -> (SidecarOutcome, Vec<String>) {
    let mut run = RunState::begin(cfg, &DesktopEnv::unset(), Some("/repo".to_string()));
    let mut log = Vec::new();
    let mut penpot_probes = 0;
    let mut mcp_probes = 0;
    for _ in 0..10 {
        let event = match run.next_action() {
            RunAction::CreateClient => {
                log.push("client".to_string());
                match &r.client {
                    Ok(()) => RunEvent::ClientReady,
                    Err(e) => RunEvent::ClientFailed(e.clone()),
                }
            }
            RunAction::Probe(url) => {
                log.push(format!("probe {url}"));
                let code = if url == run.penpot_uri {
                    penpot_probes += 1;
                    if penpot_probes == 1 && cfg.sidecar_profile != SidecarProfile::Remote
                        && cfg.sidecar_profile != SidecarProfile::ManagedMcp
                    {
                        r.penpot_check
                    } else {
                        r.penpot_probe
                    }
                } else {
                    mcp_probes += 1;
                    if mcp_probes == 1 && cfg.sidecar_profile == SidecarProfile::ManagedMcp {
                        r.mcp_check
                    } else {
                        r.mcp_probe
                    }
                };
                RunEvent::Probed(ProbeResult::from_status(code))
            }
            RunAction::SpawnDevenv => {
                log.push("spawn devenv".to_string());
                match &r.devenv {
                    Ok(b) => RunEvent::DevenvStarted(*b),
                    Err(e) => RunEvent::SpawnFailed(e.clone()),
                }
            }
            RunAction::SpawnDocker => {
                log.push("spawn docker".to_string());
                match &r.docker {
                    Ok(()) => RunEvent::DockerStarted,
                    Err(e) => RunEvent::SpawnFailed(e.clone()),
                }
            }
            RunAction::SpawnMcp => {
                log.push("spawn mcp".to_string());
                match &r.mcp {
                    Ok(()) => RunEvent::McpStarted,
                    Err(e) => RunEvent::SpawnFailed(e.clone()),
                }
            }
            RunAction::WaitForReachable { url, timeout_secs, interval_secs } => {
                log.push(format!("wait {url} {timeout_secs} {interval_secs}"));
                RunEvent::WaitEnded(r.ready)
            }
            RunAction::Finished => break,
        };
        run = run.step(event);
    }
    (run.finish().expect("the run finishes"), log)
}

#[test]
fn remote_probes_penpot_once() {
    let (o, log) = drive(&config(SidecarProfile::Remote, true), &replies());
    assert_eq!(log, vec!["client", "probe https://penpot.example.com/"]);
    assert!(o.status.running);
    assert_eq!(o.status.profile, "remote");
    assert_eq!(o.status.repo_root.as_deref(), Some("/repo"));
    assert_eq!(o.status.message, None);
    assert_eq!(o.status.services.len(), 1);
    assert_eq!(o.status.services[0].name, "penpot");
    assert_eq!(o.status.services[0].state, "running");
    assert_eq!(o.status.services[0].detail.as_deref(), Some("HTTP 200"));
    assert!(!o.spawned_devenv && !o.started_docker && !o.mcp_started);
}

#[test]
fn remote_unreachable_is_not_running() {
    let mut r = replies();
    r.penpot_probe = 502;
    let (o, _) = drive(&config(SidecarProfile::Remote, true), &r);
    assert!(!o.status.running);
    assert_eq!(o.status.services[0].state, "unhealthy");
    assert_eq!(o.status.services[0].detail.as_deref(), Some("HTTP 502"));
}

#[test]
fn client_failure_ends_run() {
    let mut r = replies();
    r.client = Err("no tls".to_string());
    let (o, log) = drive(&config(SidecarProfile::Devenv, true), &r);
    assert_eq!(log, vec!["client"]);
    assert!(!o.status.running);
    assert_eq!(o.status.message.as_deref(), Some("HTTP client error: no tls"));
    assert_eq!(o.status.penpot_public_uri, "https://localhost:3449/");
    assert!(o.status.services.is_empty());
}

#[test]
fn devenv_starts_when_down() {
    let mut r = replies();
    r.penpot_check = 503;
    let (o, log) = drive(&config(SidecarProfile::Devenv, true), &r);
    assert_eq!(
        log,
        vec![
            "client",
            "probe https://localhost:3449/",
            "spawn devenv",
            "wait https://localhost:3449/ 180 3",
            "probe https://localhost:3449/",
            "probe https://penpot.example.com/mcp/stream",
        ]
    );
    assert!(o.status.running);
    assert!(o.spawned_devenv);
    assert_eq!(o.status.message.as_deref(), Some("Started devenv via manage.sh run-devenv-agentic"));
    assert_eq!(o.status.services[0].name, "penpot-devenv");
    assert_eq!(o.status.services[1].name, "mcp-stream");
}

#[test]
fn devenv_down_without_auto_start_fails() {
    let mut r = replies();
    r.penpot_check = 503;
    let (o, log) = drive(&config(SidecarProfile::Devenv, false), &r);
    assert_eq!(log.len(), 2);
    assert!(!o.status.running);
    assert_eq!(
        o.status.message.as_deref(),
        Some("Devenv is not reachable. Start ./manage.sh run-devenv-agentic or enable auto_start_sidecar.")
    );
}

#[test]
fn devenv_timeout_fails_and_forgets_start() {
    let mut r = replies();
    r.penpot_check = 503;
    r.ready = false;
    let (o, _) = drive(&config(SidecarProfile::Devenv, true), &r);
    assert!(!o.status.running);
    assert!(!o.spawned_devenv);
    assert_eq!(o.status.message.as_deref(), Some("Timed out waiting for devenv at https://localhost:3449"));
}

#[test]
fn devenv_spawn_failure_is_reported() {
    let mut r = replies();
    r.penpot_check = 503;
    r.devenv = Err("manage.sh not found".to_string());
    let (o, _) = drive(&config(SidecarProfile::Devenv, true), &r);
    assert_eq!(o.status.message.as_deref(), Some("manage.sh not found"));
}

#[test]
fn docker_starts_stack() {
    let mut r = replies();
    r.penpot_check = 503;
    let (o, log) = drive(&config(SidecarProfile::DockerLocal, true), &r);
    assert_eq!(log[3], "wait http://localhost:9001/ 300 5");
    assert!(o.started_docker);
    assert!(o.status.running);
    assert_eq!(o.status.message.as_deref(), Some("Started docker/images/docker-compose.yaml"));
    assert_eq!(o.status.services.len(), 1);
    assert_eq!(o.status.services[0].name, "penpot-docker");
}

#[test]
fn docker_down_without_auto_start_fails() {
    let mut r = replies();
    r.penpot_check = 503;
    let (o, _) = drive(&config(SidecarProfile::DockerLocal, false), &r);
    assert_eq!(
        o.status.message.as_deref(),
        Some("Docker Penpot stack is not reachable on http://localhost:9001")
    );
    r.ready = false;
    let (o, _) = drive(&config(SidecarProfile::DockerLocal, true), &r);
    assert_eq!(o.status.message.as_deref(), Some("Timed out waiting for docker stack at http://localhost:9001"));
    assert!(!o.started_docker);
}

#[test]
fn managed_mcp_starts_server() {
    let mut r = replies();
    r.mcp_check = 502;
    r.ready = false;
    let (o, log) = drive(&config(SidecarProfile::ManagedMcp, true), &r);
    assert_eq!(
        log,
        vec![
            "client",
            "probe https://penpot.example.com/",
            "probe http://127.0.0.1:4401/mcp",
            "spawn mcp",
            "wait http://127.0.0.1:4401/mcp 60 2",
            "probe http://127.0.0.1:4401/mcp",
        ]
    );
    assert!(o.mcp_started);
    assert!(o.status.running);
    assert_eq!(o.status.message.as_deref(), Some("Started local MCP server from monorepo"));
}

#[test]
fn managed_mcp_needs_both_services() {
    let mut r = replies();
    r.mcp_probe = 500;
    let (o, log) = drive(&config(SidecarProfile::ManagedMcp, false), &r);
    assert_eq!(log.len(), 4);
    assert!(!o.status.running);
    assert!(!o.mcp_started);
    assert_eq!(o.status.message, None);
}

#[test]
fn unrelated_event_leaves_run() {
    let run = RunState::begin(&config(SidecarProfile::Remote, true), &DesktopEnv::unset(), None);
    let run = run.step(RunEvent::WaitEnded(true));
    assert!(matches!(run.next_action(), RunAction::CreateClient));
    assert!(run.finish().is_none());
}

#[test]
fn orchestrator_records_and_stops() {
    let cfg = config(SidecarProfile::DockerLocal, true);
    let env = DesktopEnv::unset();
    let mut orch = SidecarOrchestrator::from_config(&cfg, &env, Some("/repo".to_string()));
    let s = orch.status();
    assert_eq!(s.message.as_deref(), Some("Sidecar not started"));
    assert_eq!(s.penpot_public_uri, "http://localhost:9001/");
    assert_eq!(s.profile, "docker_local");
    let mut r = replies();
    r.penpot_check = 503;
    let (outcome, _) = drive(&cfg, &r);
    let kill = orch.record_outcome(SidecarProfile::DockerLocal, Some("/repo".to_string()), outcome);
    assert!(!kill);
    assert!(orch.status().running);
    let plan = orch.stop_managed();
    assert!(!plan.kill_mcp_child);
    assert_eq!(plan.compose_down_in.as_deref(), Some("/repo"));
    let s = orch.status();
    assert!(!s.running);
    assert_eq!(s.message.as_deref(), Some("Sidecar stopped"));
    let again = orch.stop_managed();
    assert!(!again.kill_mcp_child);
    assert_eq!(again.compose_down_in, None);
}

#[test]
fn orchestrator_takes_stack_down_where_it_started() {
    let cfg = config(SidecarProfile::DockerLocal, true);
    let env = DesktopEnv::unset();
    let mut orch = SidecarOrchestrator::from_config(&cfg, &env, Some("/repo".to_string()));
    let mut r = replies();
    r.penpot_check = 503;
    let (started, _) = drive(&cfg, &r);
    assert!(started.started_docker);
    orch.record_outcome(SidecarProfile::DockerLocal, Some("/repo".to_string()), started);
    let remote = config(SidecarProfile::Remote, true);
    let (later, _) = drive(&remote, &replies());
    assert!(!later.started_docker);
    orch.record_outcome(SidecarProfile::Remote, None, later);
    let plan = orch.stop_managed();
    assert_eq!(plan.compose_down_in.as_deref(), Some("/repo"));
    assert_eq!(orch.stop_managed().compose_down_in, None);
}

#[test]
fn orchestrator_replaces_mcp_child() {
    let cfg = config(SidecarProfile::ManagedMcp, true);
    let env = DesktopEnv::unset();
    let mut orch = SidecarOrchestrator::from_config(&cfg, &env, None);
    let mut r = replies();
    r.mcp_check = 500;
    let (o1, _) = drive(&cfg, &r);
    assert!(!orch.record_outcome(SidecarProfile::ManagedMcp, None, o1));
    let (o2, _) = drive(&cfg, &r);
    assert!(orch.record_outcome(SidecarProfile::ManagedMcp, None, o2));
    let plan = orch.stop_managed();
    assert!(plan.kill_mcp_child);
    assert_eq!(plan.compose_down_in, None);
}

#[test]
fn service_and_failed_status_records() {
    let s = service_from_probe("x", "http://e", &ProbeResult::from_error("boom".to_string()));
    assert_eq!(s.state, "unhealthy");
    assert_eq!(s.endpoint.as_deref(), Some("http://e"));
    assert_eq!(s.detail.as_deref(), Some("boom"));
    let f = failed_status(SidecarProfile::ManagedMcp, "https://a/", &None, "why".to_string());
    assert_eq!(f.profile, "managed_mcp");
    assert!(!f.running);
    assert_eq!(f.message.as_deref(), Some("why"));
}

#[test]
fn spawn_verdicts() {
    assert_eq!(devenv_spawn_verdict(true, "exit status: 0", ""), Ok(true));
    assert_eq!(devenv_spawn_verdict(false, "exit status: 1", "devenv already running\n"), Ok(false));
    assert_eq!(
        devenv_spawn_verdict(false, "exit status: 2", "oops"),
        Err("manage.sh run-devenv-agentic failed (exit status: 2): oops".to_string())
    );
    assert_eq!(docker_up_verdict(true, "exit status: 0"), Ok(()));
    assert_eq!(
        docker_up_verdict(false, "exit status: 1"),
        Err("docker compose up failed with exit status: 1".to_string())
    );
}

#[test]
fn spawn_prechecks() {
    assert_eq!(repo_for_spawn(&Some("/r".to_string())), Ok("/r".to_string()));
    assert_eq!(
        repo_for_spawn(&None),
        Err("Penpot repo not found. Set PENPOT_REPO_ROOT.".to_string())
    );
    assert_eq!(manage_script_check(true, "/r/manage.sh"), Ok(()));
    assert_eq!(
        manage_script_check(false, "/r/manage.sh"),
        Err("manage.sh not found at /r/manage.sh".to_string())
    );
    assert_eq!(mcp_build_check(true, "/r/x.js"), Ok(()));
    assert_eq!(
        mcp_build_check(false, "/r/mcp/packages/server/dist/index.js"),
        Err("MCP server build not found at /r/mcp/packages/server/dist/index.js. Run: cd mcp && pnpm run build"
            .to_string())
    );
}
