//! The decisions behind the shell's commands: what the settings window is
//! shown and what saving it does, how a profile change or a new URI changes
//! the settings, the fallback statuses, and the texts shown in dialogs.
use vstd::prelude::*;
use crate::config::{
    clone_opt_string, effective_profile, mcp_stream_url_of, mcp_ws_url_of, normalized_uri,
    parse_profile, parse_sidecar_profile, profile_name, uri_for_profile, AppConfig,
    AppConfigView, DesktopEnv, SidecarProfile, DEFAULT_DEV_URI, DEFAULT_DOCKER_URI,
    UNKNOWN_PROFILE_PREFIX,
};
use crate::sidecar::orchestrator::{SidecarStatus, ServiceView, StatusView};
use crate::text::{owned, trim, trimmed};

verus! {

pub const EMPTY_URI_MESSAGE: &'static str = "Penpot 服务器地址不能为空";

pub const START_FAILED_MESSAGE: &'static str = "sidecar failed to start";

pub const UNKNOWN_PROFILE: &'static str = "unknown";

pub const NOT_INITIALIZED_MESSAGE: &'static str = "Sidecar not initialized";

pub const LOCK_POISONED_MESSAGE: &'static str = "Sidecar state lock poisoned";

/// What the main window is told of the configuration.
pub struct ConfigResponse {
    pub penpot_public_uri: String,
    pub penpot_flags: String,
    pub sidecar_profile: String,
    pub mcp_stream_url: String,
    pub mcp_ws_url: String,
}

pub struct ConfigResponseView {
    pub penpot_public_uri: Seq<char>,
    pub penpot_flags: Seq<char>,
    pub sidecar_profile: Seq<char>,
    pub mcp_stream_url: Seq<char>,
    pub mcp_ws_url: Seq<char>,
}

impl View for ConfigResponse {
    type V = ConfigResponseView;

    open spec fn view(&self) -> ConfigResponseView {
        ConfigResponseView {
            penpot_public_uri: self.penpot_public_uri@,
            penpot_flags: self.penpot_flags@,
            sidecar_profile: self.sidecar_profile@,
            mcp_stream_url: self.mcp_stream_url@,
            mcp_ws_url: self.mcp_ws_url@,
        }
    }
}

/// What the settings window is shown.
pub struct SettingsResponse {
    pub penpot_public_uri: String,
    pub penpot_flags: String,
    pub sidecar_profile: String,
    pub auto_start_sidecar: bool,
    pub repo_root: Option<String>,
    pub effective_penpot_uri: String,
    pub mcp_stream_url: String,
    pub mcp_ws_url: String,
    pub config_path: Option<String>,
}

pub struct SettingsResponseView {
    pub penpot_public_uri: Seq<char>,
    pub penpot_flags: Seq<char>,
    pub sidecar_profile: Seq<char>,
    pub auto_start_sidecar: bool,
    pub repo_root: Option<Seq<char>>,
    pub effective_penpot_uri: Seq<char>,
    pub mcp_stream_url: Seq<char>,
    pub mcp_ws_url: Seq<char>,
    pub config_path: Option<Seq<char>>,
}

impl View for SettingsResponse {
    type V = SettingsResponseView;

    open spec fn view(&self) -> SettingsResponseView {
        SettingsResponseView {
            penpot_public_uri: self.penpot_public_uri@,
            penpot_flags: self.penpot_flags@,
            sidecar_profile: self.sidecar_profile@,
            auto_start_sidecar: self.auto_start_sidecar,
            repo_root: self.repo_root.deep_view(),
            effective_penpot_uri: self.effective_penpot_uri@,
            mcp_stream_url: self.mcp_stream_url@,
            mcp_ws_url: self.mcp_ws_url@,
            config_path: self.config_path.deep_view(),
        }
    }
}

/// What the settings window sends on save.
pub struct SaveSettingsPayload {
    pub penpot_public_uri: String,
    pub penpot_flags: String,
    pub sidecar_profile: String,
    pub auto_start_sidecar: bool,
    pub repo_root: Option<String>,
}

pub struct PayloadView {
    pub penpot_public_uri: Seq<char>,
    pub penpot_flags: Seq<char>,
    pub sidecar_profile: Seq<char>,
    pub auto_start_sidecar: bool,
    pub repo_root: Option<Seq<char>>,
}

impl View for SaveSettingsPayload {
    type V = PayloadView;

    open spec fn view(&self) -> PayloadView {
        PayloadView {
            penpot_public_uri: self.penpot_public_uri@,
            penpot_flags: self.penpot_flags@,
            sidecar_profile: self.sidecar_profile@,
            auto_start_sidecar: self.auto_start_sidecar,
            repo_root: self.repo_root.deep_view(),
        }
    }
}

/// A monorepo path as entered: trimmed, and none when that leaves nothing.
pub open spec fn entered_repo_root(r: Option<Seq<char>>) -> Option<Seq<char>> {
    match r {
        Some(p) => if trimmed(p).len() == 0 {
            None
        } else {
            Some(trimmed(p))
        },
        None => None,
    }
}

/// The settings after saving the settings window: the profile must be
/// known; `devenv` and `docker_local` take their fixed URI; the others keep
/// the URI entered, which must not be blank.
pub open spec fn settings_applied(c: AppConfigView, p: PayloadView) -> Result<
    AppConfigView,
    Seq<char>,
> {
    match parse_profile(p.sidecar_profile) {
        None => Err(UNKNOWN_PROFILE_PREFIX@ + p.sidecar_profile),
        Some(profile) => {
            let base = AppConfigView {
                penpot_flags: p.penpot_flags,
                sidecar_profile: profile,
                auto_start_sidecar: p.auto_start_sidecar,
                repo_root: entered_repo_root(p.repo_root),
                ..c
            };
            match profile {
                SidecarProfile::Devenv | SidecarProfile::DockerLocal => Ok(
                    AppConfigView { penpot_public_uri: uri_for_profile(c, profile), ..base },
                ),
                _ => if trimmed(p.penpot_public_uri).len() == 0 {
                    Err(EMPTY_URI_MESSAGE@)
                } else {
                    Ok(AppConfigView { penpot_public_uri: p.penpot_public_uri, ..base })
                },
            }
        },
    }
}

/// What the main window is told of the configuration.
pub fn config_response(cfg: &AppConfig, env: &DesktopEnv) -> (r: ConfigResponse)
    ensures
        r@ == (ConfigResponseView {
            penpot_public_uri: normalized_uri(cfg@.penpot_public_uri),
            penpot_flags: cfg@.penpot_flags,
            sidecar_profile: profile_name(effective_profile(cfg@, env@)),
            mcp_stream_url: mcp_stream_url_of(cfg@, env@),
            mcp_ws_url: mcp_ws_url_of(cfg@, env@),
        }),
{
    ConfigResponse {
        penpot_public_uri: cfg.normalized_public_uri(),
        penpot_flags: cfg.penpot_flags.clone(),
        sidecar_profile: owned(cfg.effective_sidecar_profile(env).as_str()),
        mcp_stream_url: cfg.mcp_stream_url(env),
        mcp_ws_url: cfg.mcp_ws_url(env),
    }
}

/// What the settings window is shown: the saved profile and its URI, and
/// the MCP endpoints in force.
pub fn settings_response(cfg: &AppConfig, env: &DesktopEnv, config_path: Option<String>) -> (r:
    SettingsResponse)
    ensures
        r@ == (SettingsResponseView {
            penpot_public_uri: normalized_uri(cfg@.penpot_public_uri),
            penpot_flags: cfg@.penpot_flags,
            sidecar_profile: profile_name(cfg@.sidecar_profile),
            auto_start_sidecar: cfg@.auto_start_sidecar,
            repo_root: cfg@.repo_root,
            effective_penpot_uri: uri_for_profile(cfg@, cfg@.sidecar_profile),
            mcp_stream_url: mcp_stream_url_of(cfg@, env@),
            mcp_ws_url: mcp_ws_url_of(cfg@, env@),
            config_path: config_path.deep_view(),
        }),
{
    let profile = cfg.sidecar_profile;
    SettingsResponse {
        penpot_public_uri: cfg.normalized_public_uri(),
        penpot_flags: cfg.penpot_flags.clone(),
        sidecar_profile: owned(profile.as_str()),
        auto_start_sidecar: cfg.auto_start_sidecar,
        repo_root: clone_opt_string(&cfg.repo_root),
        effective_penpot_uri: cfg.penpot_uri_for_profile(&profile),
        mcp_stream_url: cfg.mcp_stream_url(env),
        mcp_ws_url: cfg.mcp_ws_url(env),
        config_path,
    }
}

/// The settings after saving the settings window, or why they cannot be saved.
pub fn settings_from_payload(cfg: AppConfig, payload: SaveSettingsPayload) -> (r: Result<
    AppConfig,
    String,
>)
    ensures
        match r {
            Ok(c) => settings_applied(cfg@, payload@) == Ok::<AppConfigView, Seq<char>>(c@),
            Err(e) => settings_applied(cfg@, payload@) == Err::<AppConfigView, Seq<char>>(e@),
        },
{
    let profile = match parse_sidecar_profile(payload.sidecar_profile.as_str()) {
        Ok(p) => p,
        Err(e) => return Err(e),
    };
    let repo_root = match &payload.repo_root {
        Some(value) => {
            let t = trim(value.as_str());
            if t.as_str().unicode_len() == 0 {
                None
            } else {
                Some(t)
            }
        },
        None => None,
    };
    let penpot_public_uri = match profile {
        SidecarProfile::Devenv | SidecarProfile::DockerLocal => cfg.penpot_uri_for_profile(&profile),
        SidecarProfile::Remote | SidecarProfile::ManagedMcp => {
            let t = trim(payload.penpot_public_uri.as_str());
            if t.as_str().unicode_len() == 0 {
                return Err(owned(EMPTY_URI_MESSAGE));
            }
            payload.penpot_public_uri
        },
    };
    Ok(
        AppConfig {
            penpot_public_uri,
            penpot_flags: payload.penpot_flags,
            sidecar_profile: profile,
            auto_start_sidecar: payload.auto_start_sidecar,
            repo_root,
        },
    )
}

impl AppConfig {
    /// The settings with `uri` as the Penpot instance, under the `remote` profile.
    pub fn with_penpot_uri(self, uri: String) -> (c: Self)
        ensures
            c@ == (AppConfigView {
                penpot_public_uri: uri@,
                sidecar_profile: SidecarProfile::Remote,
                ..self@
            }),
    {
        AppConfig { penpot_public_uri: uri, sidecar_profile: SidecarProfile::Remote, ..self }
    }

    /// The settings switched to the profile named `name`, with the URI that
    /// profile serves; or why the name is refused.
    pub fn with_sidecar_profile(self, name: &str) -> (r: Result<Self, String>)
        ensures
            match r {
                Ok(c) => parse_profile(name@) is Some && c@ == (AppConfigView {
                    sidecar_profile: parse_profile(name@)->0,
                    penpot_public_uri: uri_for_profile(self@, parse_profile(name@)->0),
                    ..self@
                }),
                Err(e) => parse_profile(name@) is None && e@ == UNKNOWN_PROFILE_PREFIX@ + name@,
            },
    {
        match parse_sidecar_profile(name) {
            Ok(profile) => {
                let uri = self.penpot_uri_for_profile(&profile);
                Ok(AppConfig { sidecar_profile: profile, penpot_public_uri: uri, ..self })
            },
            Err(e) => Err(e),
        }
    }

    /// The settings in force after a run: the Penpot URI is the one the
    /// run's status reports.
    pub fn with_status_uri(self, status: &SidecarStatus) -> (c: Self)
        ensures
            c@ == (AppConfigView { penpot_public_uri: status@.penpot_public_uri, ..self@ }),
    {
        AppConfig { penpot_public_uri: status.penpot_public_uri.clone(), ..self }
    }
}

/// The answer to a start request: the status when the sidecar runs, else
/// its message (or a generic one) as the error.
pub fn start_result(status: SidecarStatus) -> (r: Result<SidecarStatus, String>)
    ensures
        status@.running ==> r is Ok && r->Ok_0@ == status@,
        !status@.running ==> r is Err && r->Err_0@ == match status@.message {
            Some(m) => m,
            None => START_FAILED_MESSAGE@,
        },
{
    if status.running {
        Ok(status)
    } else {
        match status.message {
            Some(m) => Err(m),
            None => Err(owned(START_FAILED_MESSAGE)),
        }
    }
}

/// A status for when the orchestrator cannot be asked: not running, no
/// services, with the profile, URI, monorepo and message given.
pub open spec fn placeholder_status(
    profile: Seq<char>,
    penpot_uri: Seq<char>,
    repo_root: Option<Seq<char>>,
    message: Seq<char>,
) -> StatusView {
    StatusView {
        profile,
        penpot_public_uri: penpot_uri,
        repo_root,
        running: false,
        services: Seq::empty(),
        message: Some(message),
    }
}

fn placeholder(profile: &str, penpot_uri: String, repo_root: Option<String>, message: &str) -> (s:
    SidecarStatus)
    ensures
        s@ == placeholder_status(profile@, penpot_uri@, repo_root.deep_view(), message@),
{
    let s = SidecarStatus {
        profile: owned(profile),
        penpot_public_uri: penpot_uri,
        repo_root,
        running: false,
        services: Vec::new(),
        message: Some(owned(message)),
    };
    assert(s@.services =~= Seq::<ServiceView>::empty());
    s
}

/// The status shown when the orchestrator's state cannot be read: profile
/// `unknown`, the default Penpot URI.
pub fn lock_poisoned_status(env: &DesktopEnv) -> (s: SidecarStatus)
    ensures
        s@ == placeholder_status(
            UNKNOWN_PROFILE@,
            normalized_uri(crate::config::default_uri(env@.dev)),
            None,
            LOCK_POISONED_MESSAGE@,
        ),
{
    let uri = AppConfig::default_for(env).normalized_public_uri();
    placeholder(UNKNOWN_PROFILE, uri, None, LOCK_POISONED_MESSAGE)
}

/// The status shown on stop before the orchestrator exists: profile
/// `unknown`, the default Penpot URI.
pub fn uninitialized_stop_status(env: &DesktopEnv) -> (s: SidecarStatus)
    ensures
        s@ == placeholder_status(
            UNKNOWN_PROFILE@,
            normalized_uri(crate::config::default_uri(env@.dev)),
            None,
            NOT_INITIALIZED_MESSAGE@,
        ),
{
    let uri = AppConfig::default_for(env).normalized_public_uri();
    placeholder(UNKNOWN_PROFILE, uri, None, NOT_INITIALIZED_MESSAGE)
}

/// The status shown before the orchestrator exists: the profile in force,
/// the configured URI and the monorepo found.
pub fn uninitialized_status(cfg: &AppConfig, env: &DesktopEnv, repo_root: Option<String>) -> (s:
    SidecarStatus)
    ensures
        s@ == placeholder_status(
            profile_name(effective_profile(cfg@, env@)),
            normalized_uri(cfg@.penpot_public_uri),
            repo_root.deep_view(),
            NOT_INITIALIZED_MESSAGE@,
        ),
{
    let profile = cfg.effective_sidecar_profile(env);
    placeholder(profile.as_str(), cfg.normalized_public_uri(), repo_root, NOT_INITIALIZED_MESSAGE)
}

/// Saving the settings window keeps what the window was sent: the flags, the
/// auto-start choice (whatever was saved before), the profile named and the
/// trimmed monorepo path. It succeeds exactly when the profile is known and,
/// for a profile without a fixed URI, the URI entered is not blank.
pub proof fn lemma_settings_keep_choices(c: AppConfigView, p: PayloadView)
    ensures
        settings_applied(c, p) is Ok <==> (parse_profile(p.sidecar_profile) is Some && (
        parse_profile(p.sidecar_profile) == Some(SidecarProfile::Devenv) || parse_profile(
            p.sidecar_profile,
        ) == Some(SidecarProfile::DockerLocal) || trimmed(p.penpot_public_uri).len() != 0)),
        settings_applied(c, p) is Ok ==> {
            let c2 = settings_applied(c, p)->Ok_0;
            &&& c2.auto_start_sidecar == p.auto_start_sidecar
            &&& c2.penpot_flags == p.penpot_flags
            &&& Some(c2.sidecar_profile) == parse_profile(p.sidecar_profile)
            &&& c2.repo_root == entered_repo_root(p.repo_root)
            &&& c2.penpot_public_uri == match c2.sidecar_profile {
                SidecarProfile::Devenv => normalized_uri(DEFAULT_DEV_URI@),
                SidecarProfile::DockerLocal => normalized_uri(DEFAULT_DOCKER_URI@),
                _ => p.penpot_public_uri,
            }
        },
{
}

} // verus!
