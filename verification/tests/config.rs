use penpot_desktop::config::{
    join_uri_path, normalize_uri, parse_sidecar_profile, AppConfig, DesktopEnv, SidecarProfile,
    DEFAULT_FLAGS, LOCAL_MCP_STREAM_URL, LOCAL_MCP_WS_URL,
};

fn remote_config(uri: &str, profile: SidecarProfile) -> AppConfig {
    AppConfig {
        penpot_public_uri: uri.to_string(),
        penpot_flags: DEFAULT_FLAGS.to_string(),
        sidecar_profile: profile,
        auto_start_sidecar: true,
        repo_root: None,
    }
}

#[test]
fn normalizes_uri_trailing_slash() {
    assert_eq!(
        normalize_uri("https://design.penpot.app"),
        "https://design.penpot.app/"
    );
}

#[test]
fn builds_mcp_urls() {
    let cfg = AppConfig {
        penpot_public_uri: "https://penpot.example.com/".to_string(),
        penpot_flags: DEFAULT_FLAGS.to_string(),
        sidecar_profile: SidecarProfile::Remote,
        auto_start_sidecar: true,
        repo_root: None,
    };
    let env = DesktopEnv::unset();
    assert_eq!(
        cfg.mcp_stream_url(&env),
        "https://penpot.example.com/mcp/stream"
    );
    assert_eq!(cfg.mcp_ws_url(&env), "wss://penpot.example.com/mcp/ws");
    assert!(cfg.mcp_plugin_ws_uri(&env).is_none());
}

#[test]
fn managed_mcp_uses_local_endpoints() {
    let cfg = AppConfig {
        penpot_public_uri: "https://penpot.example.com/".to_string(),
        penpot_flags: DEFAULT_FLAGS.to_string(),
        sidecar_profile: SidecarProfile::ManagedMcp,
        auto_start_sidecar: true,
        repo_root: None,
    };
    let env = DesktopEnv::unset();
    assert_eq!(cfg.mcp_stream_url(&env), LOCAL_MCP_STREAM_URL);
    assert_eq!(cfg.mcp_ws_url(&env), LOCAL_MCP_WS_URL);
    assert_eq!(cfg.mcp_plugin_ws_uri(&env).as_deref(), Some(LOCAL_MCP_WS_URL));
    assert!(cfg.initialization_script(&env).contains("penpotMcpServerURI"));
}

#[test]
fn normalize_trims_and_adds_scheme() {
    assert_eq!(normalize_uri("  penpot.example.com \n"), "https://penpot.example.com/");
    assert_eq!(normalize_uri("http://localhost:9001"), "http://localhost:9001/");
    assert_eq!(normalize_uri("\u{3000}https://x.org/a/"), "https://x.org/a/");
    assert_eq!(normalize_uri(""), "https://");
}

#[test]
fn normalize_is_idempotent_on_examples() {
    for uri in ["penpot.example.com", " http://a.b//", "https://c.d/e", "ftp://x"] {
        let once = normalize_uri(uri);
        assert_eq!(normalize_uri(&once), once);
        assert!(once.ends_with('/'));
        assert!(once.starts_with("http://") || once.starts_with("https://"));
    }
}

#[test]
fn join_strips_all_trailing_slashes() {
    assert_eq!(join_uri_path("https://a.b///", "mcp/stream"), "https://a.b/mcp/stream");
    assert_eq!(join_uri_path("https://a.b", "mcp/ws"), "https://a.b/mcp/ws");
}

#[test]
fn parses_profiles_and_short_names() {
    assert_eq!(parse_sidecar_profile("remote"), Ok(SidecarProfile::Remote));
    assert_eq!(parse_sidecar_profile("devenv"), Ok(SidecarProfile::Devenv));
    assert_eq!(parse_sidecar_profile("docker"), Ok(SidecarProfile::DockerLocal));
    assert_eq!(parse_sidecar_profile("docker_local"), Ok(SidecarProfile::DockerLocal));
    assert_eq!(parse_sidecar_profile("mcp"), Ok(SidecarProfile::ManagedMcp));
    assert_eq!(parse_sidecar_profile("managed_mcp"), Ok(SidecarProfile::ManagedMcp));
    assert_eq!(
        parse_sidecar_profile("Remote"),
        Err("unknown sidecar profile: Remote".to_string())
    );
}

#[test]
fn profile_names_round_trip() {
    for p in [
        SidecarProfile::Remote,
        SidecarProfile::Devenv,
        SidecarProfile::DockerLocal,
        SidecarProfile::ManagedMcp,
    ] {
        assert_eq!(parse_sidecar_profile(p.as_str()), Ok(p));
        assert_eq!(SidecarProfile::from_env(Some(p.as_str())), Some(p));
    }
    assert_eq!(SidecarProfile::from_env(None), None);
    assert_eq!(SidecarProfile::from_env(Some("bogus")), None);
    assert_eq!(SidecarProfile::default(), SidecarProfile::Remote);
}

#[test]
fn environment_overrides_profile() {
    let cfg = remote_config("https://penpot.example.com/", SidecarProfile::Remote);
    let mut env = DesktopEnv::unset();
    assert_eq!(cfg.effective_sidecar_profile(&env), SidecarProfile::Remote);
    env.dev = true;
    assert_eq!(cfg.effective_sidecar_profile(&env), SidecarProfile::Remote);
    env.sidecar = Some("mcp".to_string());
    assert_eq!(cfg.effective_sidecar_profile(&env), SidecarProfile::ManagedMcp);
    assert_eq!(cfg.mcp_stream_url(&env), LOCAL_MCP_STREAM_URL);
    env.sidecar = Some("nonsense".to_string());
    assert_eq!(cfg.effective_sidecar_profile(&env), SidecarProfile::Remote);
    env.desktop_uri = Some("https://penpot.example.com/".to_string());
    env.sidecar = Some("devenv".to_string());
    assert_eq!(cfg.effective_sidecar_profile(&env), SidecarProfile::Remote);
}

#[test]
fn profile_precedence_order() {
    let saved = remote_config("https://saved.example/", SidecarProfile::DockerLocal);
    let dev = DesktopEnv { desktop_uri: None, sidecar: None, dev: true };
    let cfg = AppConfig::load(&dev, Some(saved.clone()));
    assert_eq!(cfg.effective_sidecar_profile(&dev), SidecarProfile::DockerLocal);
    let cfg = AppConfig::load(&dev, None);
    assert_eq!(cfg.effective_sidecar_profile(&dev), SidecarProfile::Devenv);
    let named = DesktopEnv { desktop_uri: None, sidecar: Some("docker".to_string()), dev: true };
    let devenv_saved = remote_config("https://saved.example/", SidecarProfile::Devenv);
    let cfg = AppConfig::load(&named, Some(devenv_saved));
    assert_eq!(cfg.effective_sidecar_profile(&named), SidecarProfile::DockerLocal);
    let forced = DesktopEnv {
        desktop_uri: Some("https://penpot.example.com/".to_string()),
        sidecar: Some("devenv".to_string()),
        dev: true,
    };
    let cfg = AppConfig::load(&forced, Some(saved));
    assert_eq!(cfg.effective_sidecar_profile(&forced), SidecarProfile::Remote);
    assert_eq!(cfg.penpot_public_uri, "https://penpot.example.com/");
    let plain = DesktopEnv::unset();
    let cfg = AppConfig::load(&plain, None);
    assert_eq!(cfg.effective_sidecar_profile(&plain), SidecarProfile::Remote);
}

#[test]
fn profile_uris() {
    let cfg = remote_config("penpot.example.com", SidecarProfile::Remote);
    assert_eq!(cfg.penpot_uri_for_profile(&SidecarProfile::Devenv), "https://localhost:3449/");
    assert_eq!(cfg.penpot_uri_for_profile(&SidecarProfile::DockerLocal), "http://localhost:9001/");
    assert_eq!(cfg.penpot_uri_for_profile(&SidecarProfile::Remote), "https://penpot.example.com/");
    assert_eq!(cfg.penpot_uri_for_profile(&SidecarProfile::ManagedMcp), "https://penpot.example.com/");
}

#[test]
fn http_instance_uses_ws_scheme() {
    let cfg = remote_config("http://localhost:9001", SidecarProfile::Remote);
    let env = DesktopEnv::unset();
    assert_eq!(cfg.mcp_ws_url(&env), "ws://localhost:9001/mcp/ws");
    assert_eq!(cfg.mcp_stream_url(&env), "http://localhost:9001/mcp/stream");
}

#[test]
fn load_prefers_environment_uri() {
    let saved = remote_config("https://saved.example/", SidecarProfile::DockerLocal);
    let env = DesktopEnv {
        desktop_uri: Some(" penpot.team ".to_string()),
        sidecar: None,
        dev: false,
    };
    let cfg = AppConfig::load(&env, Some(saved));
    assert_eq!(cfg.penpot_public_uri, "https://penpot.team/");
    assert_eq!(cfg.sidecar_profile, SidecarProfile::Remote);
    assert_eq!(cfg.penpot_flags, DEFAULT_FLAGS);
    assert!(cfg.auto_start_sidecar);
    assert_eq!(cfg.repo_root, None);
}

#[test]
fn load_uses_saved_or_defaults() {
    let saved = remote_config("https://saved.example/", SidecarProfile::DockerLocal);
    let env = DesktopEnv::unset();
    let cfg = AppConfig::load(&env, Some(saved));
    assert_eq!(cfg.penpot_public_uri, "https://saved.example/");
    assert_eq!(cfg.sidecar_profile, SidecarProfile::DockerLocal);
    let cfg = AppConfig::load(&env, None);
    assert_eq!(cfg.penpot_public_uri, "https://design.penpot.app");
    assert_eq!(cfg.normalized_public_uri(), "https://design.penpot.app/");
    assert_eq!(cfg.sidecar_profile, SidecarProfile::Remote);
    let dev = DesktopEnv { desktop_uri: None, sidecar: None, dev: true };
    assert_eq!(AppConfig::load(&dev, None).penpot_public_uri, "https://localhost:3449");
}

#[test]
fn initialization_script_quotes_values() {
    let mut cfg = remote_config("https://penpot.example.com", SidecarProfile::Remote);
    cfg.penpot_flags = "a \"b\"".to_string();
    let script = cfg.initialization_script(&DesktopEnv::unset());
    let expected = "\nwindow.penpotPublicURI = \"https://penpot.example.com/\";\n\
window.penpotFlags = \"a \\\"b\\\"\";\n\
window.externalContextInfo = function() {\n  return { platform: \"desktop\", shell: \"tauri\", penpotUri: \"https://penpot.example.com/\" };\n};\n";
    assert_eq!(script, expected);
    assert!(!script.contains("penpotMcpServerURI"));
}

#[test]
fn clone_keeps_config() {
    let mut cfg = remote_config("https://a.b/", SidecarProfile::Devenv);
    cfg.repo_root = Some("/src/penpot".to_string());
    let copy = cfg.clone();
    assert_eq!(copy.penpot_public_uri, cfg.penpot_public_uri);
    assert_eq!(copy.repo_root, cfg.repo_root);
    assert_eq!(copy.sidecar_profile, cfg.sidecar_profile);
}

#[test]
fn ws_url_follows_stream_url() {
    let env = DesktopEnv::unset();
    for (uri, ws) in [
        ("https://a.b///", "wss://a.b/mcp/ws"),
        ("http://localhost:9001", "ws://localhost:9001/mcp/ws"),
        ("penpot.team/x/", "wss://penpot.team/x/mcp/ws"),
    ] {
        let cfg = remote_config(uri, SidecarProfile::Remote);
        let stream = cfg.mcp_stream_url(&env);
        let base = stream.strip_suffix("/mcp/stream").unwrap();
        let swapped = if let Some(rest) = base.strip_prefix("https://") {
            format!("wss://{rest}")
        } else {
            format!("ws://{}", base.strip_prefix("http://").unwrap())
        };
        assert_eq!(cfg.mcp_ws_url(&env), format!("{swapped}/mcp/ws"));
        assert_eq!(cfg.mcp_ws_url(&env), ws);
    }
}
