use penpot_desktop::commands::{
    config_response, lock_poisoned_status, settings_from_payload, settings_response, start_result,
    uninitialized_status, uninitialized_stop_status, SaveSettingsPayload,
};
use penpot_desktop::config::{AppConfig, DesktopEnv, SidecarProfile, DEFAULT_FLAGS};
use penpot_desktop::sidecar::orchestrator::failed_status;
use penpot_desktop::shell::{
    is_auth_expired, menu_action, popup_label, same_origin, sidecar_status_text, MenuAction, Origin,
};
use penpot_desktop::sidecar::health::ProbeResult;
use penpot_desktop::sidecar::orchestrator::{service_from_probe, SidecarStatus};

fn config() -> AppConfig {
    AppConfig {
        penpot_public_uri: "https://penpot.example.com".to_string(),
        penpot_flags: DEFAULT_FLAGS.to_string(),
        sidecar_profile: SidecarProfile::Remote,
        auto_start_sidecar: true,
        repo_root: None,
    }
}

fn payload(uri: &str, profile: &str, repo: Option<&str>) -> SaveSettingsPayload {
    SaveSettingsPayload {
        penpot_public_uri: uri.to_string(),
        penpot_flags: "flags".to_string(),
        sidecar_profile: profile.to_string(),
        auto_start_sidecar: false,
        repo_root: repo.map(|s| s.to_string()),
    }
}

#[test]
fn responses_report_configuration() {
    let mut env = DesktopEnv::unset();
    env.sidecar = Some("devenv".to_string());
    let r = config_response(&config(), &env);
    assert_eq!(r.penpot_public_uri, "https://penpot.example.com/");
    assert_eq!(r.sidecar_profile, "devenv");
    let s = settings_response(&config(), &env, Some("/cfg/config.json".to_string()));
    assert_eq!(s.sidecar_profile, "remote");
    assert_eq!(s.effective_penpot_uri, "https://penpot.example.com/");
    assert_eq!(s.mcp_stream_url, "https://penpot.example.com/mcp/stream");
    assert_eq!(s.config_path.as_deref(), Some("/cfg/config.json"));
}

#[test]
fn saving_settings() {
    let c = settings_from_payload(config(), payload("https://team.example/", "mcp", Some("  /src/penpot  ")))
        .unwrap();
    assert_eq!(c.penpot_public_uri, "https://team.example/");
    assert_eq!(c.sidecar_profile, SidecarProfile::ManagedMcp);
    assert_eq!(c.repo_root.as_deref(), Some("/src/penpot"));
    assert_eq!(c.penpot_flags, "flags");
    assert!(!c.auto_start_sidecar);
    let c = settings_from_payload(config(), payload("ignored", "docker", Some("   "))).unwrap();
    assert_eq!(c.penpot_public_uri, "http://localhost:9001/");
    assert_eq!(c.repo_root, None);
    let c = settings_from_payload(config(), payload("", "devenv", None)).unwrap();
    assert_eq!(c.penpot_public_uri, "https://localhost:3449/");
}

#[test]
fn saving_settings_errors() {
    assert_eq!(
        settings_from_payload(config(), payload("x", "cloud", None)).err(),
        Some("unknown sidecar profile: cloud".to_string())
    );
    assert_eq!(
        settings_from_payload(config(), payload("  \t", "remote", None)).err(),
        Some("Penpot 服务器地址不能为空".to_string())
    );
}

#[test]
fn switching_profile_and_uri() {
    let c = config().with_sidecar_profile("devenv").unwrap();
    assert_eq!(c.penpot_public_uri, "https://localhost:3449/");
    assert_eq!(c.sidecar_profile, SidecarProfile::Devenv);
    let c = config().with_sidecar_profile("remote").unwrap();
    assert_eq!(c.penpot_public_uri, "https://penpot.example.com/");
    assert_eq!(
        config().with_sidecar_profile("x").err(),
        Some("unknown sidecar profile: x".to_string())
    );
    let mut d = config();
    d.sidecar_profile = SidecarProfile::DockerLocal;
    let c = d.with_penpot_uri("https://new.example".to_string());
    assert_eq!(c.penpot_public_uri, "https://new.example");
    assert_eq!(c.sidecar_profile, SidecarProfile::Remote);
}

#[test]
fn start_result_uses_message() {
    let failed = failed_status(SidecarProfile::Remote, "https://a/", &None, "down".to_string());
    assert_eq!(start_result(failed).err(), Some("down".to_string()));
    let mut s = failed_status(SidecarProfile::Remote, "https://a/", &None, "x".to_string());
    s.message = None;
    assert_eq!(start_result(s).err(), Some("sidecar failed to start".to_string()));
    let mut ok = failed_status(SidecarProfile::Remote, "https://a/", &None, "x".to_string());
    ok.running = true;
    assert!(start_result(ok).is_ok());
    let after = config().with_status_uri(&failed_status(SidecarProfile::Devenv, "https://localhost:3449/", &None, "m".to_string()));
    assert_eq!(after.penpot_public_uri, "https://localhost:3449/");
}

#[test]
fn placeholder_statuses() {
    let env = DesktopEnv::unset();
    let s = lock_poisoned_status(&env);
    assert_eq!(s.profile, "unknown");
    assert_eq!(s.penpot_public_uri, "https://design.penpot.app/");
    assert_eq!(s.message.as_deref(), Some("Sidecar state lock poisoned"));
    let s = uninitialized_stop_status(&env);
    assert_eq!(s.message.as_deref(), Some("Sidecar not initialized"));
    let s = uninitialized_status(&config(), &env, Some("/r".to_string()));
    assert_eq!(s.profile, "remote");
    assert_eq!(s.repo_root.as_deref(), Some("/r"));
    assert!(!s.running);
}

#[test]
fn menu_ids() {
    assert_eq!(menu_action("reload"), MenuAction::Reload);
    assert_eq!(menu_action("open_browser"), MenuAction::OpenBrowser);
    assert_eq!(menu_action("settings"), MenuAction::Settings);
    assert_eq!(menu_action("copy_codex"), MenuAction::CopyCodex);
    assert_eq!(menu_action("check_mcp"), MenuAction::CheckMcp);
    assert_eq!(menu_action("sidecar_status"), MenuAction::SidecarStatus);
    assert_eq!(menu_action("sidecar_start"), MenuAction::SidecarStart);
    assert_eq!(menu_action("sidecar_stop"), MenuAction::SidecarStop);
    assert_eq!(menu_action("quit"), MenuAction::Ignore);
}

#[test]
fn auth_expiry_phrases() {
    assert!(is_auth_expired("Your session expired, sign in"));
    assert!(is_auth_expired("not authenticated"));
    assert!(is_auth_expired("您还没有登录。"));
    assert!(is_auth_expired("会话已过期"));
    assert!(!is_auth_expired("Dashboard"));
    assert!(!is_auth_expired(""));
}

#[test]
fn popup_labels() {
    assert_eq!(popup_label(1), "penpot-popup-1");
    assert_eq!(popup_label(1024), "penpot-popup-1024");
    assert_eq!(popup_label(0), "penpot-popup-0");
}

#[test]
fn origins() {
    let a = Origin { scheme: "https".to_string(), host: Some("a.b".to_string()), port: Some(443) };
    let b = Origin { scheme: "https".to_string(), host: Some("a.b".to_string()), port: Some(443) };
    let c = Origin { scheme: "https".to_string(), host: Some("a.b".to_string()), port: Some(8443) };
    let d = Origin { scheme: "http".to_string(), host: Some("a.b".to_string()), port: Some(443) };
    let e = Origin { scheme: "https".to_string(), host: None, port: Some(443) };
    assert!(same_origin(&a, &b));
    assert!(!same_origin(&a, &c));
    assert!(!same_origin(&a, &d));
    assert!(!same_origin(&a, &e));
}

#[test]
fn status_dialog_text() {
    let mut s: SidecarStatus = failed_status(SidecarProfile::Devenv, "https://localhost:3449/", &None, "msg".to_string());
    assert_eq!(
        sidecar_status_text(&s),
        "profile: devenv\nuri: https://localhost:3449/\nrunning: false\nrepo: (none)\n\nmsg\n\n"
    );
    s.running = true;
    s.repo_root = Some("/r".to_string());
    s.message = None;
    s.services.push(service_from_probe("penpot-devenv", "https://localhost:3449/", &ProbeResult::from_status(200)));
    s.services.push(service_from_probe("mcp-stream", "https://x/mcp/stream", &ProbeResult::from_status(500)));
    assert_eq!(
        sidecar_status_text(&s),
        "profile: devenv\nuri: https://localhost:3449/\nrunning: true\nrepo: /r\n\n\n\n- penpot-devenv [running] https://localhost:3449/\n- mcp-stream [unhealthy] https://x/mcp/stream"
    );
}
