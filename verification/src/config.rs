//! The desktop shell's configuration: sidecar profiles, the saved settings,
//! and the URIs derived from them (Penpot instance, MCP stream and WebSocket
//! endpoints, the script injected into the main window).
use vstd::prelude::*;
use vstd::string::*;
use crate::text::{
    concat, ends_with_char, has_prefix, owned, str_eq, strip_trailing, trim, trim_end_char, trim_end_ws,
    trim_start_ws, trimmed,
};

verus! {

pub const DEFAULT_PENPOT_URI: &'static str = "https://design.penpot.app";

pub const DEFAULT_DEV_URI: &'static str = "https://localhost:3449";

pub const DEFAULT_FLAGS: &'static str = "enable-feature-render-wasm plugins/runtime";

pub const DEFAULT_DOCKER_URI: &'static str = "http://localhost:9001";

pub const LOCAL_MCP_STREAM_URL: &'static str = "http://127.0.0.1:4401/mcp";

pub const LOCAL_MCP_WS_URL: &'static str = "ws://127.0.0.1:4402/";

pub const HTTP_SCHEME: &'static str = "http://";

pub const HTTPS_SCHEME: &'static str = "https://";

pub const WS_SCHEME: &'static str = "ws://";

pub const WSS_SCHEME: &'static str = "wss://";

pub const MCP_STREAM_PATH: &'static str = "mcp/stream";

pub const MCP_WS_PATH: &'static str = "mcp/ws";

pub const NAME_REMOTE: &'static str = "remote";

pub const NAME_DEVENV: &'static str = "devenv";

pub const NAME_DOCKER_LOCAL: &'static str = "docker_local";

pub const NAME_DOCKER: &'static str = "docker";

pub const NAME_MANAGED_MCP: &'static str = "managed_mcp";

pub const NAME_MCP: &'static str = "mcp";

pub const SLASH: &'static str = "/";

pub const SCRIPT_URI_PREFIX: &'static str = "\nwindow.penpotPublicURI = ";

pub const SCRIPT_FLAGS_PREFIX: &'static str = ";\nwindow.penpotFlags = ";

pub const SCRIPT_LINE_END: &'static str = ";\n";

pub const SCRIPT_MCP_PREFIX: &'static str = "window.penpotMcpServerURI = ";

pub const SCRIPT_CONTEXT_PREFIX: &'static str = "window.externalContextInfo = function() {\n  return { platform: \"desktop\", shell: \"tauri\", penpotUri: ";

pub const SCRIPT_CONTEXT_SUFFIX: &'static str = " };\n};\n";

pub const UNKNOWN_PROFILE_PREFIX: &'static str = "unknown sidecar profile: ";

/// Which local services the shell runs beside the Penpot window.
#[derive(Debug, Clone, Copy, PartialEq, Eq, Structural)]
pub enum SidecarProfile {
    Remote,
    Devenv,
    DockerLocal,
    ManagedMcp,
}

impl Default for SidecarProfile {
    fn default() -> (p: Self)
        ensures
            p == SidecarProfile::Remote,
    {
        SidecarProfile::Remote
    }
}

/// The name under which a profile is saved and shown.
pub open spec fn profile_name(p: SidecarProfile) -> Seq<char> {
    match p {
        SidecarProfile::Remote => NAME_REMOTE@,
        SidecarProfile::Devenv => NAME_DEVENV@,
        SidecarProfile::DockerLocal => NAME_DOCKER_LOCAL@,
        SidecarProfile::ManagedMcp => NAME_MANAGED_MCP@,
    }
}

/// The profile a name selects: each canonical name, plus the short forms
/// `docker` and `mcp`; any other name selects none.
pub open spec fn parse_profile(v: Seq<char>) -> Option<SidecarProfile> {
    if v == NAME_REMOTE@ {
        Some(SidecarProfile::Remote)
    } else if v == NAME_DEVENV@ {
        Some(SidecarProfile::Devenv)
    } else if v == NAME_DOCKER_LOCAL@ || v == NAME_DOCKER@ {
        Some(SidecarProfile::DockerLocal)
    } else if v == NAME_MANAGED_MCP@ || v == NAME_MCP@ {
        Some(SidecarProfile::ManagedMcp)
    } else {
        None
    }
}

impl SidecarProfile {
    pub fn as_str(&self) -> (s: &'static str)
        ensures
            s@ == profile_name(*self),
    {
        match self {
            SidecarProfile::Remote => NAME_REMOTE,
            SidecarProfile::Devenv => NAME_DEVENV,
            SidecarProfile::DockerLocal => NAME_DOCKER_LOCAL,
            SidecarProfile::ManagedMcp => NAME_MANAGED_MCP,
        }
    }

    /// The profile that the value of the `PENPOT_DESKTOP_SIDECAR` variable
    /// selects, given that value (`None` where the variable is unset).
    pub fn from_env(value: Option<&str>) -> (p: Option<Self>)
        ensures
            p == match value {
                Some(v) => parse_profile(v@),
                None => None,
            },
    {
        match value {
            Some(v) => profile_by_name(v),
            None => None,
        }
    }
}

fn profile_by_name(v: &str) -> (p: Option<SidecarProfile>)
    ensures
        p == parse_profile(v@),
{
    if str_eq(v, NAME_REMOTE) {
        Some(SidecarProfile::Remote)
    } else if str_eq(v, NAME_DEVENV) {
        Some(SidecarProfile::Devenv)
    } else if str_eq(v, NAME_DOCKER_LOCAL) || str_eq(v, NAME_DOCKER) {
        Some(SidecarProfile::DockerLocal)
    } else if str_eq(v, NAME_MANAGED_MCP) || str_eq(v, NAME_MCP) {
        Some(SidecarProfile::ManagedMcp)
    } else {
        None
    }
}

/// The name of a profile reads back as that profile.
pub proof fn lemma_profile_name_round_trip(p: SidecarProfile)
    ensures
        parse_profile(profile_name(p)) == Some(p),
{
    reveal_strlit("remote");
    reveal_strlit("devenv");
    reveal_strlit("docker_local");
    reveal_strlit("docker");
    reveal_strlit("managed_mcp");
    reveal_strlit("mcp");
    match p {
        SidecarProfile::Remote => {},
        SidecarProfile::Devenv => {
            assert(NAME_DEVENV@[0] != NAME_REMOTE@[0]);
        },
        SidecarProfile::DockerLocal => {
            assert(NAME_DOCKER_LOCAL@[0] != NAME_REMOTE@[0]);
            assert(NAME_DOCKER_LOCAL@[1] != NAME_DEVENV@[1]);
        },
        SidecarProfile::ManagedMcp => {
            assert(NAME_MANAGED_MCP@[0] != NAME_REMOTE@[0]);
            assert(NAME_MANAGED_MCP@[0] != NAME_DEVENV@[0]);
            assert(NAME_MANAGED_MCP@[0] != NAME_DOCKER_LOCAL@[0]);
            assert(NAME_MANAGED_MCP@[0] != NAME_DOCKER@[0]);
        },
    }
}

/// Reads a profile name, or says which name is unknown.
pub fn parse_sidecar_profile(value: &str) -> (r: Result<SidecarProfile, String>)
    ensures
        match r {
            Ok(p) => parse_profile(value@) == Some(p),
            Err(e) => parse_profile(value@) is None && e@ == UNKNOWN_PROFILE_PREFIX@ + value@,
        },
{
    match profile_by_name(value) {
        Some(p) => Ok(p),
        None => Err(concat(UNKNOWN_PROFILE_PREFIX, value)),
    }
}

/// Prefixes `https://` unless `t` already names the `http` or `https` scheme.
pub open spec fn with_scheme(t: Seq<char>) -> Seq<char> {
    if HTTP_SCHEME@.is_prefix_of(t) || HTTPS_SCHEME@.is_prefix_of(t) {
        t
    } else {
        HTTPS_SCHEME@ + t
    }
}

/// Appends `/` unless `s` already ends with one.
pub open spec fn with_trailing_slash(s: Seq<char>) -> Seq<char> {
    if s.len() > 0 && s.last() == '/' {
        s
    } else {
        s + SLASH@
    }
}

/// The canonical form of a Penpot URI: trimmed, with a scheme, ending in `/`.
pub open spec fn normalized_uri(uri: Seq<char>) -> Seq<char> {
    with_trailing_slash(with_scheme(trimmed(uri)))
}

/// `path` appended to `base` after exactly one `/`, whatever number of
/// slashes `base` ended with.
pub open spec fn joined_path(base: Seq<char>, path: Seq<char>) -> Seq<char> {
    trim_end_char(base, '/') + SLASH@ + path
}

/// Every normalized URI names the `http` or `https` scheme and ends with `/`.
pub proof fn lemma_normalized_uri_shape(uri: Seq<char>)
    ensures
        HTTP_SCHEME@.is_prefix_of(normalized_uri(uri)) || HTTPS_SCHEME@.is_prefix_of(
            normalized_uri(uri),
        ),
        normalized_uri(uri).len() > 0,
        normalized_uri(uri).last() == '/',
{
    reveal_strlit("/");
    let t = trimmed(uri);
    let w = with_scheme(t);
    if !(HTTP_SCHEME@.is_prefix_of(t) || HTTPS_SCHEME@.is_prefix_of(t)) {
        assert((HTTPS_SCHEME@ + t).subrange(0, HTTPS_SCHEME@.len() as int) =~= HTTPS_SCHEME@);
    }
    assert(HTTP_SCHEME@.is_prefix_of(w) || HTTPS_SCHEME@.is_prefix_of(w));
    if !(w.len() > 0 && w.last() == '/') {
        let n = w + SLASH@;
        if HTTP_SCHEME@.is_prefix_of(w) {
            assert(n.subrange(0, HTTP_SCHEME@.len() as int) =~= w.subrange(
                0,
                HTTP_SCHEME@.len() as int,
            ));
        } else {
            assert(n.subrange(0, HTTPS_SCHEME@.len() as int) =~= w.subrange(
                0,
                HTTPS_SCHEME@.len() as int,
            ));
        }
    }
}

/// Normalizing is idempotent: a normalized URI is left as it is.
pub proof fn lemma_normalize_uri_idempotent(uri: Seq<char>)
    ensures
        normalized_uri(normalized_uri(uri)) == normalized_uri(uri),
{
    reveal_strlit("http://");
    reveal_strlit("https://");
    let n = normalized_uri(uri);
    lemma_normalized_uri_shape(uri);
    assert(n[0] == 'h') by {
        if HTTP_SCHEME@.is_prefix_of(n) {
            assert(n[0] == n.subrange(0, HTTP_SCHEME@.len() as int)[0]);
        } else {
            assert(n[0] == n.subrange(0, HTTPS_SCHEME@.len() as int)[0]);
        }
    }
    assert(trim_start_ws(n) == n);
    assert(trim_end_ws(n) == n);
    assert(trimmed(n) == n);
}

/// Brings a URI to its canonical form: surrounding whitespace removed,
/// `https://` put in front unless it names `http` or `https` already, and
/// a trailing `/` added unless there is one.
pub fn normalize_uri(uri: &str) -> (r: String)
    ensures
        r@ == normalized_uri(uri@),
{
    let t = trim(uri);
    let with_scheme = if has_prefix(t.as_str(), HTTP_SCHEME) || has_prefix(t.as_str(), HTTPS_SCHEME) {
        t
    } else {
        concat(HTTPS_SCHEME, t.as_str())
    };
    if ends_with_char(with_scheme.as_str(), '/') {
        with_scheme
    } else {
        concat(with_scheme.as_str(), SLASH)
    }
}

/// `path` below `base`: the trailing slashes of `base` are dropped and one
/// `/` put between the two.
pub fn join_uri_path(base: &str, path: &str) -> (r: String)
    ensures
        r@ == joined_path(base@, path@),
{
    let mut r = strip_trailing(base, '/');
    r.append(SLASH);
    r.append(path);
    r
}

/// What the shell reads from its process environment.
pub struct DesktopEnv {
    /// The value of `PENPOT_DESKTOP_URI`, where it is set.
    pub desktop_uri: Option<String>,
    /// The value of `PENPOT_DESKTOP_SIDECAR`, where it is set.
    pub sidecar: Option<String>,
    /// Whether `PENPOT_DESKTOP_DEV` is set.
    pub dev: bool,
}

pub struct DesktopEnvView {
    pub desktop_uri: Option<Seq<char>>,
    pub sidecar: Option<Seq<char>>,
    pub dev: bool,
}

impl View for DesktopEnv {
    type V = DesktopEnvView;

    open spec fn view(&self) -> DesktopEnvView {
        DesktopEnvView {
            desktop_uri: self.desktop_uri.deep_view(),
            sidecar: self.sidecar.deep_view(),
            dev: self.dev,
        }
    }
}

impl DesktopEnv {
    /// An environment that sets none of the shell's variables.
    pub fn unset() -> (e: Self)
        ensures
            e@ == (DesktopEnvView { desktop_uri: None, sidecar: None, dev: false }),
    {
        DesktopEnv { desktop_uri: None, sidecar: None, dev: false }
    }
}

/// The saved settings of the shell.
pub struct AppConfig {
    pub penpot_public_uri: String,
    pub penpot_flags: String,
    pub sidecar_profile: SidecarProfile,
    pub auto_start_sidecar: bool,
    pub repo_root: Option<String>,
}

pub struct AppConfigView {
    pub penpot_public_uri: Seq<char>,
    pub penpot_flags: Seq<char>,
    pub sidecar_profile: SidecarProfile,
    pub auto_start_sidecar: bool,
    pub repo_root: Option<Seq<char>>,
}

impl View for AppConfig {
    type V = AppConfigView;

    open spec fn view(&self) -> AppConfigView {
        AppConfigView {
            penpot_public_uri: self.penpot_public_uri@,
            penpot_flags: self.penpot_flags@,
            sidecar_profile: self.sidecar_profile,
            auto_start_sidecar: self.auto_start_sidecar,
            repo_root: self.repo_root.deep_view(),
        }
    }
}

impl Clone for AppConfig {
    fn clone(&self) -> (c: Self)
        ensures
            c@ == self@,
    {
        AppConfig {
            penpot_public_uri: self.penpot_public_uri.clone(),
            penpot_flags: self.penpot_flags.clone(),
            sidecar_profile: self.sidecar_profile,
            auto_start_sidecar: self.auto_start_sidecar,
            repo_root: clone_opt_string(&self.repo_root),
        }
    }
}

/// A copy of an optional string.
pub fn clone_opt_string(s: &Option<String>) -> (r: Option<String>)
    ensures
        r.deep_view() == s.deep_view(),
{
    match s {
        Some(v) => Some(v.clone()),
        None => None,
    }
}

/// The profile that the environment forces, if it names one.
pub open spec fn env_profile(e: DesktopEnvView) -> Option<SidecarProfile> {
    match e.sidecar {
        Some(v) => parse_profile(v),
        None => None,
    }
}

/// The profile in force, highest first: a URI in the environment forces
/// `remote`; else the profile the environment names; else the profile of
/// the settings in hand (saved, or the defaults, which give `devenv` in
/// development mode and `remote` otherwise).
pub open spec fn effective_profile(c: AppConfigView, e: DesktopEnvView) -> SidecarProfile {
    if e.desktop_uri is Some {
        SidecarProfile::Remote
    } else {
        match env_profile(e) {
            Some(p) => p,
            None => c.sidecar_profile,
        }
    }
}

/// The profile used where no settings are saved: `devenv` in development
/// mode, else `remote`.
pub open spec fn default_profile(dev: bool) -> SidecarProfile {
    if dev {
        SidecarProfile::Devenv
    } else {
        SidecarProfile::Remote
    }
}

/// The Penpot URI used where nothing else is configured.
pub open spec fn default_uri(dev: bool) -> Seq<char> {
    if dev {
        DEFAULT_DEV_URI@
    } else {
        DEFAULT_PENPOT_URI@
    }
}

/// The settings used where none are saved.
pub open spec fn default_config(e: DesktopEnvView) -> AppConfigView {
    AppConfigView {
        penpot_public_uri: default_uri(e.dev),
        penpot_flags: DEFAULT_FLAGS@,
        sidecar_profile: default_profile(e.dev),
        auto_start_sidecar: true,
        repo_root: None,
    }
}

pub open spec fn opt_config_view(c: Option<AppConfig>) -> Option<AppConfigView> {
    match c {
        Some(c) => Some(c@),
        None => None,
    }
}

/// The settings in force: a URI in the environment overrides everything and
/// goes with the defaults under the `remote` profile; else the saved
/// settings, where there are any; else the defaults.
pub open spec fn loaded_config(e: DesktopEnvView, saved: Option<AppConfigView>) -> AppConfigView {
    match e.desktop_uri {
        Some(u) => AppConfigView {
            penpot_public_uri: normalized_uri(u),
            sidecar_profile: SidecarProfile::Remote,
            ..default_config(e)
        },
        None => match saved {
            Some(c) => c,
            None => default_config(e),
        },
    }
}

/// The Penpot URI that a profile serves.
pub open spec fn uri_for_profile(c: AppConfigView, p: SidecarProfile) -> Seq<char> {
    match p {
        SidecarProfile::Devenv => normalized_uri(DEFAULT_DEV_URI@),
        SidecarProfile::DockerLocal => normalized_uri(DEFAULT_DOCKER_URI@),
        _ => normalized_uri(c.penpot_public_uri),
    }
}

/// The MCP stream endpoint: the local server under `managed_mcp`, else
/// `mcp/stream` below the Penpot instance.
pub open spec fn mcp_stream_url_of(c: AppConfigView, e: DesktopEnvView) -> Seq<char> {
    if effective_profile(c, e) == SidecarProfile::ManagedMcp {
        LOCAL_MCP_STREAM_URL@
    } else {
        joined_path(normalized_uri(c.penpot_public_uri), MCP_STREAM_PATH@)
    }
}

/// The WebSocket the MCP plugin connects to directly: only under `managed_mcp`.
pub open spec fn mcp_plugin_ws_uri_of(c: AppConfigView, e: DesktopEnvView) -> Option<Seq<char>> {
    if effective_profile(c, e) == SidecarProfile::ManagedMcp {
        Some(LOCAL_MCP_WS_URL@)
    } else {
        None
    }
}

/// An `http(s)` base URI with the matching WebSocket scheme (`ws(s)`).
pub open spec fn ws_base(base: Seq<char>) -> Seq<char> {
    if HTTPS_SCHEME@.is_prefix_of(base) {
        WSS_SCHEME@ + base.skip(HTTPS_SCHEME@.len() as int)
    } else {
        WS_SCHEME@ + base.skip(HTTP_SCHEME@.len() as int)
    }
}

/// The MCP WebSocket endpoint: the local server under `managed_mcp`, else
/// `mcp/ws` below the Penpot instance reached over `ws(s)`.
pub open spec fn mcp_ws_url_of(c: AppConfigView, e: DesktopEnvView) -> Seq<char> {
    if effective_profile(c, e) == SidecarProfile::ManagedMcp {
        LOCAL_MCP_WS_URL@
    } else {
        joined_path(ws_base(normalized_uri(c.penpot_public_uri)), MCP_WS_PATH@)
    }
}

/// The line of the injected script that hands the plugin its WebSocket, if any.
pub open spec fn script_mcp_line(quoted_ws: Option<Seq<char>>) -> Seq<char> {
    match quoted_ws {
        Some(q) => SCRIPT_MCP_PREFIX@ + q + SCRIPT_LINE_END@,
        None => Seq::empty(),
    }
}

/// The script injected into Penpot windows, from the quoted URI, flags and
/// plugin WebSocket.
pub open spec fn script_text(
    quoted_uri: Seq<char>,
    quoted_flags: Seq<char>,
    quoted_ws: Option<Seq<char>>,
) -> Seq<char> {
    SCRIPT_URI_PREFIX@ + quoted_uri + SCRIPT_FLAGS_PREFIX@ + quoted_flags + SCRIPT_LINE_END@
        + script_mcp_line(quoted_ws) + SCRIPT_CONTEXT_PREFIX@ + quoted_uri + SCRIPT_CONTEXT_SUFFIX@
}

/// What `format!("{:?}", s)` writes for a string slice `s`.
pub uninterp spec fn debug_quoted(s: Seq<char>) -> Seq<char>;

/// std's `Debug` formatting of a `str`: the string in double quotes, with
/// the characters that `Debug` escapes written as escapes. The contract only
/// names the result; which characters are escaped is not stated.
#[verifier::external_body]
fn debug_quote(s: &str) -> (r: String)
    ensures
        r@ == debug_quoted(s@),
{
    format!("{:?}", s)
}

/// Puts the injected script together from its already quoted values.
pub fn render_initialization_script(
    quoted_uri: &str,
    quoted_flags: &str,
    quoted_ws: Option<&str>,
) -> (r: String)
    ensures
        r@ == script_text(
            quoted_uri@,
            quoted_flags@,
            match quoted_ws {
                Some(q) => Some(q@),
                None => None,
            },
        ),
{
    let mut r = owned(SCRIPT_URI_PREFIX);
    r.append(quoted_uri);
    r.append(SCRIPT_FLAGS_PREFIX);
    r.append(quoted_flags);
    r.append(SCRIPT_LINE_END);
    match quoted_ws {
        Some(q) => {
            r.append(SCRIPT_MCP_PREFIX);
            r.append(q);
            r.append(SCRIPT_LINE_END);
        },
        None => {},
    }
    r.append(SCRIPT_CONTEXT_PREFIX);
    r.append(quoted_uri);
    r.append(SCRIPT_CONTEXT_SUFFIX);
    proof {
        let qw = match quoted_ws {
            Some(q) => Some(q@),
            None => None,
        };
        assert(r@ =~= script_text(quoted_uri@, quoted_flags@, qw));
    }
    r
}

/// The Penpot URI used where nothing else is configured.
pub fn default_penpot_uri(dev: bool) -> (r: String)
    ensures
        r@ == default_uri(dev),
{
    if dev {
        owned(DEFAULT_DEV_URI)
    } else {
        owned(DEFAULT_PENPOT_URI)
    }
}

/// Sidecars start on their own unless the saved settings say otherwise.
pub fn default_auto_start_sidecar() -> (b: bool)
    ensures
        b,
{
    true
}

impl AppConfig {
    /// The settings used where none are saved.
    pub fn default_for(env: &DesktopEnv) -> (c: Self)
        ensures
            c@ == default_config(env@),
    {
        AppConfig {
            penpot_public_uri: default_penpot_uri(env.dev),
            penpot_flags: owned(DEFAULT_FLAGS),
            sidecar_profile: if env.dev {
                SidecarProfile::Devenv
            } else {
                SidecarProfile::Remote
            },
            auto_start_sidecar: true,
            repo_root: None,
        }
    }

    /// The settings in force, given the environment and the settings read
    /// from the configuration file (`None` where it is missing or unreadable).
    pub fn load(env: &DesktopEnv, saved: Option<AppConfig>) -> (c: Self)
        ensures
            c@ == loaded_config(env@, opt_config_view(saved)),
    {
        match &env.desktop_uri {
            Some(uri) => {
                let defaults = AppConfig::default_for(env);
                AppConfig {
                    penpot_public_uri: normalize_uri(uri.as_str()),
                    sidecar_profile: SidecarProfile::Remote,
                    ..defaults
                }
            },
            None => match saved {
                Some(c) => c,
                None => AppConfig::default_for(env),
            },
        }
    }

    pub fn normalized_public_uri(&self) -> (r: String)
        ensures
            r@ == normalized_uri(self@.penpot_public_uri),
    {
        normalize_uri(self.penpot_public_uri.as_str())
    }

    pub fn effective_sidecar_profile(&self, env: &DesktopEnv) -> (p: SidecarProfile)
        ensures
            p == effective_profile(self@, env@),
    {
        if env.desktop_uri.is_some() {
            return SidecarProfile::Remote;
        }
        let from_env = match &env.sidecar {
            Some(v) => SidecarProfile::from_env(Some(v.as_str())),
            None => SidecarProfile::from_env(None),
        };
        match from_env {
            Some(p) => p,
            None => self.sidecar_profile,
        }
    }

    pub fn penpot_uri_for_profile(&self, profile: &SidecarProfile) -> (r: String)
        ensures
            r@ == uri_for_profile(self@, *profile),
    {
        match profile {
            SidecarProfile::Devenv => normalize_uri(DEFAULT_DEV_URI),
            SidecarProfile::DockerLocal => normalize_uri(DEFAULT_DOCKER_URI),
            SidecarProfile::Remote | SidecarProfile::ManagedMcp => self.normalized_public_uri(),
        }
    }

    pub fn mcp_stream_url(&self, env: &DesktopEnv) -> (r: String)
        ensures
            r@ == mcp_stream_url_of(self@, env@),
    {
        if self.effective_sidecar_profile(env) == SidecarProfile::ManagedMcp {
            owned(LOCAL_MCP_STREAM_URL)
        } else {
            join_uri_path(self.normalized_public_uri().as_str(), MCP_STREAM_PATH)
        }
    }

    /// Direct WebSocket URL for the Penpot MCP plugin (bypasses reverse proxy).
    pub fn mcp_plugin_ws_uri(&self, env: &DesktopEnv) -> (r: Option<String>)
        ensures
            r.deep_view() == mcp_plugin_ws_uri_of(self@, env@),
    {
        if self.effective_sidecar_profile(env) == SidecarProfile::ManagedMcp {
            Some(owned(LOCAL_MCP_WS_URL))
        } else {
            None
        }
    }

    pub fn mcp_ws_url(&self, env: &DesktopEnv) -> (r: String)
        ensures
            r@ == mcp_ws_url_of(self@, env@),
    {
        if self.effective_sidecar_profile(env) == SidecarProfile::ManagedMcp {
            owned(LOCAL_MCP_WS_URL)
        } else {
            let base = self.normalized_public_uri();
            proof {
                lemma_normalized_uri_shape(self@.penpot_public_uri);
            }
            let n = base.as_str().unicode_len();
            let ws = if has_prefix(base.as_str(), HTTPS_SCHEME) {
                let rest = base.as_str().substring_char(HTTPS_SCHEME.unicode_len(), n);
                assert(rest@ =~= base@.skip(HTTPS_SCHEME@.len() as int));
                concat(WSS_SCHEME, rest)
            } else {
                let rest = base.as_str().substring_char(HTTP_SCHEME.unicode_len(), n);
                assert(rest@ =~= base@.skip(HTTP_SCHEME@.len() as int));
                concat(WS_SCHEME, rest)
            };
            join_uri_path(ws.as_str(), MCP_WS_PATH)
        }
    }

    /// The script injected into every Penpot window: the instance URI, the
    /// feature flags, the plugin's WebSocket under `managed_mcp`, and the
    /// context that Penpot asks the shell for.
    pub fn initialization_script(&self, env: &DesktopEnv) -> (r: String)
        ensures
            r@ == script_text(
                debug_quoted(normalized_uri(self@.penpot_public_uri)),
                debug_quoted(self@.penpot_flags),
                match mcp_plugin_ws_uri_of(self@, env@) {
                    Some(ws) => Some(debug_quoted(ws)),
                    None => None,
                },
            ),
    {
        let uri = self.normalized_public_uri();
        let quoted_uri = debug_quote(uri.as_str());
        let quoted_flags = debug_quote(self.penpot_flags.as_str());
        match self.mcp_plugin_ws_uri(env) {
            Some(ws) => {
                let quoted_ws = debug_quote(ws.as_str());
                render_initialization_script(
                    quoted_uri.as_str(),
                    quoted_flags.as_str(),
                    Some(quoted_ws.as_str()),
                )
            },
            None => render_initialization_script(quoted_uri.as_str(), quoted_flags.as_str(), None),
        }
    }
}

/// A URI in the environment overrides the saved settings: the settings in
/// force are the defaults with that URI, normalized, and the profile in
/// force is `remote`, whatever profile the environment or the saved
/// settings name.
pub proof fn lemma_env_uri_forces_remote(e: DesktopEnvView, saved: Option<AppConfigView>)
    requires
        e.desktop_uri is Some,
    ensures
        loaded_config(e, saved).penpot_public_uri == normalized_uri(e.desktop_uri->0),
        loaded_config(e, saved).sidecar_profile == SidecarProfile::Remote,
        loaded_config(e, saved).penpot_flags == DEFAULT_FLAGS@,
        effective_profile(loaded_config(e, saved), e) == SidecarProfile::Remote,
{
}

/// Saved settings are what loads back, unless the environment names a URI.
pub proof fn lemma_saved_settings_load(e: DesktopEnvView, c: AppConfigView)
    requires
        e.desktop_uri is None,
    ensures
        loaded_config(e, Some(c)) == c,
{
}

/// Without any saved settings or URI in the environment, the shell uses
/// the cloud instance under the `remote` profile, or devenv's URI and
/// profile in development mode.
pub proof fn lemma_defaults_without_settings(e: DesktopEnvView)
    requires
        e.desktop_uri is None,
    ensures
        loaded_config(e, None).sidecar_profile == if e.dev {
            SidecarProfile::Devenv
        } else {
            SidecarProfile::Remote
        },
        loaded_config(e, None).auto_start_sidecar,
        loaded_config(e, None).repo_root is None,
        loaded_config(e, None).penpot_public_uri == if e.dev {
            DEFAULT_DEV_URI@
        } else {
            DEFAULT_PENPOT_URI@
        },
{
}

/// The order in which the profile in force is chosen: a URI in the
/// environment (forces `remote`), then the profile the environment names,
/// then the saved settings, then development mode (`devenv`), then `remote`.
pub proof fn lemma_profile_precedence(e: DesktopEnvView, saved: Option<AppConfigView>)
    ensures
        effective_profile(loaded_config(e, saved), e) == if e.desktop_uri is Some {
            SidecarProfile::Remote
        } else if env_profile(e) is Some {
            env_profile(e)->0
        } else if saved is Some {
            saved->0.sidecar_profile
        } else if e.dev {
            SidecarProfile::Devenv
        } else {
            SidecarProfile::Remote
        },
{
}

/// Under `managed_mcp` every MCP endpoint is the local server; under any
/// other profile the endpoints lie below the Penpot instance and the plugin
/// gets no direct WebSocket.
pub proof fn lemma_mcp_endpoints(c: AppConfigView, e: DesktopEnvView)
    ensures
        effective_profile(c, e) == SidecarProfile::ManagedMcp ==> {
            &&& mcp_stream_url_of(c, e) == LOCAL_MCP_STREAM_URL@
            &&& mcp_ws_url_of(c, e) == LOCAL_MCP_WS_URL@
            &&& mcp_plugin_ws_uri_of(c, e) == Some(LOCAL_MCP_WS_URL@)
        },
        effective_profile(c, e) != SidecarProfile::ManagedMcp ==> {
            &&& mcp_stream_url_of(c, e) == trim_end_char(normalized_uri(c.penpot_public_uri), '/')
                + SLASH@ + MCP_STREAM_PATH@
            &&& mcp_ws_url_of(c, e) == trim_end_char(ws_base(normalized_uri(c.penpot_public_uri)), '/')
                + SLASH@ + MCP_WS_PATH@
            &&& mcp_plugin_ws_uri_of(c, e) is None
        },
{
}

/// The WebSocket endpoint reaches the same host as the instance: an
/// `https` instance is reached over `wss`, an `http` one over `ws`, and the
/// rest of the URI is kept.
pub proof fn lemma_ws_base_swaps_scheme(uri: Seq<char>)
    ensures
        ({
            let n = normalized_uri(uri);
            if HTTPS_SCHEME@.is_prefix_of(n) {
                ws_base(n) == WSS_SCHEME@ + n.skip(HTTPS_SCHEME@.len() as int)
            } else {
                HTTP_SCHEME@.is_prefix_of(n) && ws_base(n) == WS_SCHEME@ + n.skip(
                    HTTP_SCHEME@.len() as int,
                )
            }
        }),
{
    lemma_normalized_uri_shape(uri);
}

proof fn lemma_trim_end_shape(s: Seq<char>, c: char)
    ensures
        trim_end_char(s, c).len() <= s.len(),
        trim_end_char(s, c) =~= s.subrange(0, trim_end_char(s, c).len() as int),
        trim_end_char(s, c).len() > 0 ==> trim_end_char(s, c).last() != c,
    decreases s.len(),
{
    if s.len() > 0 && s.last() == c {
        lemma_trim_end_shape(s.drop_last(), c);
    }
}

/// Trimming the slashes off the end of a URI commutes with swapping its
/// scheme `p` for `q`, where the trimmed URI still starts with `p`.
proof fn lemma_trim_end_swapped_scheme(s: Seq<char>, p: Seq<char>, q: Seq<char>)
    requires
        p.len() > 0,
        p.last() == '/',
        p.is_prefix_of(trim_end_char(s, '/')),
    ensures
        trim_end_char(q + s.skip(p.len() as int), '/') =~= q + trim_end_char(s, '/').skip(
            p.len() as int,
        ),
    decreases s.len(),
{
    lemma_trim_end_shape(s, '/');
    let t = trim_end_char(s, '/');
    assert(t.len() > p.len()) by {
        if t.len() == p.len() {
            assert(t =~= p);
        }
    }
    let u = q + s.skip(p.len() as int);
    if s.len() > 0 && s.last() == '/' {
        lemma_trim_end_shape(s.drop_last(), '/');
        assert(u.last() == '/');
        assert(u.drop_last() =~= q + s.drop_last().skip(p.len() as int));
        lemma_trim_end_swapped_scheme(s.drop_last(), p, q);
    } else {
        assert(t == s);
        assert(u.last() == s.last());
    }
}

/// Outside `managed_mcp`, both MCP endpoints lie below the instance's URI
/// with its trailing slashes trimmed: the stream at `mcp/stream`, and the
/// WebSocket at `mcp/ws` of that same base reached over `ws(s)`. This holds
/// wherever the trimmed URI still names its `http(s)` scheme.
pub proof fn lemma_ws_url_follows_stream_url(c: AppConfigView, e: DesktopEnvView)
    requires
        effective_profile(c, e) != SidecarProfile::ManagedMcp,
        HTTP_SCHEME@.is_prefix_of(trim_end_char(normalized_uri(c.penpot_public_uri), '/'))
            || HTTPS_SCHEME@.is_prefix_of(trim_end_char(normalized_uri(c.penpot_public_uri), '/')),
    ensures
        ({
            let base = trim_end_char(normalized_uri(c.penpot_public_uri), '/');
            &&& mcp_stream_url_of(c, e) == base + SLASH@ + MCP_STREAM_PATH@
            &&& mcp_ws_url_of(c, e) == ws_base(base) + SLASH@ + MCP_WS_PATH@
        }),
{
    reveal_strlit("http://");
    reveal_strlit("https://");
    let n = normalized_uri(c.penpot_public_uri);
    let b = trim_end_char(n, '/');
    lemma_trim_end_shape(n, '/');
    if HTTPS_SCHEME@.is_prefix_of(b) {
        assert(HTTPS_SCHEME@.is_prefix_of(n));
        lemma_trim_end_swapped_scheme(n, HTTPS_SCHEME@, WSS_SCHEME@);
    } else {
        assert(HTTP_SCHEME@.is_prefix_of(n));
        assert(!HTTPS_SCHEME@.is_prefix_of(n)) by {
            if HTTPS_SCHEME@.is_prefix_of(n) {
                assert(b[4] == n[4]);
            }
        }
        lemma_trim_end_swapped_scheme(n, HTTP_SCHEME@, WS_SCHEME@);
    }
}

/// The feature flags in force are the ones saved, where saved settings are
/// loaded; in every other case (a URI in the environment, or nothing saved)
/// they are the default flags. Without saved settings or a URI in the
/// environment, every setting is its default.
pub proof fn lemma_default_flags(e: DesktopEnvView, saved: Option<AppConfigView>)
    ensures
        loaded_config(e, saved).penpot_flags == if e.desktop_uri is None && saved is Some {
            saved->0.penpot_flags
        } else {
            DEFAULT_FLAGS@
        },
        e.desktop_uri is None ==> loaded_config(e, None) == (AppConfigView {
            penpot_public_uri: if e.dev {
                DEFAULT_DEV_URI@
            } else {
                DEFAULT_PENPOT_URI@
            },
            penpot_flags: DEFAULT_FLAGS@,
            sidecar_profile: if e.dev {
                SidecarProfile::Devenv
            } else {
                SidecarProfile::Remote
            },
            auto_start_sidecar: true,
            repo_root: None,
        }),
{
}

/// `devenv` and `docker_local` serve Penpot at their fixed local URIs,
/// whatever the settings say; `remote` and `managed_mcp` serve the
/// configured instance, normalized.
pub proof fn lemma_profile_uris(c: AppConfigView, d: AppConfigView, p: SidecarProfile)
    ensures
        (p == SidecarProfile::Devenv || p == SidecarProfile::DockerLocal) ==> uri_for_profile(c, p)
            == uri_for_profile(d, p),
        p == SidecarProfile::Devenv ==> uri_for_profile(c, p) == normalized_uri(DEFAULT_DEV_URI@),
        p == SidecarProfile::DockerLocal ==> uri_for_profile(c, p) == normalized_uri(
            DEFAULT_DOCKER_URI@,
        ),
        (p == SidecarProfile::Remote || p == SidecarProfile::ManagedMcp) ==> uri_for_profile(c, p)
            == normalized_uri(c.penpot_public_uri),
{
}

} // verus!
