//! Decisions of the window shell: which menu item was chosen, whether a new
//! window stays in the app, what a page's text says of the session, and the
//! text of the sidecar status dialog.
use vstd::prelude::*;
use crate::sidecar::orchestrator::{services_view, ServiceStatus, ServiceView, SidecarStatus, StatusView};
use crate::text::{concat, contains, contains_seq, decimal, decimal_string, owned, str_eq};

verus! {

pub const MENU_RELOAD: &'static str = "reload";

pub const MENU_OPEN_BROWSER: &'static str = "open_browser";

pub const MENU_SETTINGS: &'static str = "settings";

pub const MENU_COPY_CODEX: &'static str = "copy_codex";

pub const MENU_CHECK_MCP: &'static str = "check_mcp";

pub const MENU_SIDECAR_STATUS: &'static str = "sidecar_status";

pub const MENU_SIDECAR_START: &'static str = "sidecar_start";

pub const MENU_SIDECAR_STOP: &'static str = "sidecar_stop";

pub const SESSION_EXPIRED: &'static str = "session expired";

pub const NOT_AUTHENTICATED: &'static str = "not authenticated";

pub const NOT_LOGGED_IN: &'static str = "还没有登录";

pub const SESSION_EXPIRED_ZH: &'static str = "会话已过期";

pub const POPUP_LABEL_PREFIX: &'static str = "penpot-popup-";

pub const LINE_PREFIX: &'static str = "- ";

pub const STATE_OPEN: &'static str = " [";

pub const STATE_CLOSE: &'static str = "] ";

pub const NEWLINE: &'static str = "\n";

pub const BLANK_LINE: &'static str = "\n\n";

pub const PROFILE_LABEL: &'static str = "profile: ";

pub const URI_LABEL: &'static str = "\nuri: ";

pub const RUNNING_LABEL: &'static str = "\nrunning: ";

pub const REPO_LABEL: &'static str = "\nrepo: ";

pub const NO_REPO: &'static str = "(none)";

pub const TRUE_TEXT: &'static str = "true";

pub const FALSE_TEXT: &'static str = "false";

/// What a menu item asks for.
#[derive(Debug, Clone, Copy, PartialEq, Eq, Structural)]
pub enum MenuAction {
    Reload,
    OpenBrowser,
    Settings,
    CopyCodex,
    CheckMcp,
    SidecarStatus,
    SidecarStart,
    SidecarStop,
    /// An id that no item of the shell's menu has.
    Ignore,
}

/// The action of the menu item with id `id`.
pub open spec fn menu_action_of(id: Seq<char>) -> MenuAction {
    if id == MENU_RELOAD@ {
        MenuAction::Reload
    } else if id == MENU_OPEN_BROWSER@ {
        MenuAction::OpenBrowser
    } else if id == MENU_SETTINGS@ {
        MenuAction::Settings
    } else if id == MENU_COPY_CODEX@ {
        MenuAction::CopyCodex
    } else if id == MENU_CHECK_MCP@ {
        MenuAction::CheckMcp
    } else if id == MENU_SIDECAR_STATUS@ {
        MenuAction::SidecarStatus
    } else if id == MENU_SIDECAR_START@ {
        MenuAction::SidecarStart
    } else if id == MENU_SIDECAR_STOP@ {
        MenuAction::SidecarStop
    } else {
        MenuAction::Ignore
    }
}

pub fn menu_action(id: &str) -> (a: MenuAction)
    ensures
        a == menu_action_of(id@),
{
    if str_eq(id, MENU_RELOAD) {
        MenuAction::Reload
    } else if str_eq(id, MENU_OPEN_BROWSER) {
        MenuAction::OpenBrowser
    } else if str_eq(id, MENU_SETTINGS) {
        MenuAction::Settings
    } else if str_eq(id, MENU_COPY_CODEX) {
        MenuAction::CopyCodex
    } else if str_eq(id, MENU_CHECK_MCP) {
        MenuAction::CheckMcp
    } else if str_eq(id, MENU_SIDECAR_STATUS) {
        MenuAction::SidecarStatus
    } else if str_eq(id, MENU_SIDECAR_START) {
        MenuAction::SidecarStart
    } else if str_eq(id, MENU_SIDECAR_STOP) {
        MenuAction::SidecarStop
    } else {
        MenuAction::Ignore
    }
}

/// A page's text says that the user is not signed in (in English or Chinese).
pub open spec fn says_auth_expired(text: Seq<char>) -> bool {
    ||| contains_seq(text, SESSION_EXPIRED@)
    ||| contains_seq(text, NOT_AUTHENTICATED@)
    ||| contains_seq(text, NOT_LOGGED_IN@)
    ||| contains_seq(text, SESSION_EXPIRED_ZH@)
}

pub fn is_auth_expired(text: &str) -> (b: bool)
    ensures
        b == says_auth_expired(text@),
{
    contains(text, SESSION_EXPIRED) || contains(text, NOT_AUTHENTICATED) || contains(
        text,
        NOT_LOGGED_IN,
    ) || contains(text, SESSION_EXPIRED_ZH)
}

/// The label of the `n`th popup window.
pub fn popup_label(n: u64) -> (l: String)
    ensures
        l@ == POPUP_LABEL_PREFIX@ + decimal(n as nat),
{
    concat(POPUP_LABEL_PREFIX, decimal_string(n).as_str())
}

/// The origin of a URL: scheme, host, and port (the scheme's default where
/// none is written).
pub struct Origin {
    pub scheme: String,
    pub host: Option<String>,
    pub port: Option<u16>,
}

pub struct OriginView {
    pub scheme: Seq<char>,
    pub host: Option<Seq<char>>,
    pub port: Option<u16>,
}

impl View for Origin {
    type V = OriginView;

    open spec fn view(&self) -> OriginView {
        OriginView { scheme: self.scheme@, host: self.host.deep_view(), port: self.port }
    }
}

/// Whether a window opened from Penpot stays in the app: when it has
/// Penpot's origin.
pub fn same_origin(base: &Origin, candidate: &Origin) -> (b: bool)
    ensures
        b == (base@ == candidate@),
{
    let hosts_equal = match (&base.host, &candidate.host) {
        (Some(a), Some(b)) => str_eq(a.as_str(), b.as_str()),
        (None, None) => true,
        _ => false,
    };
    let ports_equal = match (base.port, candidate.port) {
        (Some(a), Some(b)) => a == b,
        (None, None) => true,
        _ => false,
    };
    str_eq(base.scheme.as_str(), candidate.scheme.as_str()) && hosts_equal && ports_equal
}

/// One line of the status dialog: a service, its state and its endpoint.
pub open spec fn service_line(s: ServiceView) -> Seq<char> {
    LINE_PREFIX@ + s.name + STATE_OPEN@ + s.state + STATE_CLOSE@ + match s.endpoint {
        Some(e) => e,
        None => Seq::empty(),
    }
}

/// The service lines of the status dialog, one per service.
pub open spec fn service_lines(v: Seq<ServiceView>) -> Seq<char>
    decreases v.len(),
{
    if v.len() == 0 {
        Seq::empty()
    } else if v.len() == 1 {
        service_line(v[0])
    } else {
        service_lines(v.drop_last()) + NEWLINE@ + service_line(v.last())
    }
}

/// The text of the sidecar status dialog.
pub open spec fn status_text(s: StatusView) -> Seq<char> {
    PROFILE_LABEL@ + s.profile + URI_LABEL@ + s.penpot_public_uri + RUNNING_LABEL@ + (if s.running {
        TRUE_TEXT@
    } else {
        FALSE_TEXT@
    }) + REPO_LABEL@ + match s.repo_root {
        Some(r) => r,
        None => NO_REPO@,
    } + BLANK_LINE@ + match s.message {
        Some(m) => m,
        None => Seq::empty(),
    } + BLANK_LINE@ + service_lines(s.services)
}

fn append_service_line(r: &mut String, s: &ServiceStatus)
    ensures
        final(r)@ == old(r)@ + service_line(s@),
{
    r.append(LINE_PREFIX);
    r.append(s.name.as_str());
    r.append(STATE_OPEN);
    r.append(s.state.as_str());
    r.append(STATE_CLOSE);
    match &s.endpoint {
        Some(e) => r.append(e.as_str()),
        None => {},
    }
    assert(r@ =~= old(r)@ + service_line(s@));
}

/// The service lines of the status dialog.
pub fn services_text(v: &Vec<ServiceStatus>) -> (r: String)
    ensures
        r@ == service_lines(services_view(v@)),
{
    let mut r = String::new();
    let mut i: usize = 0;
    while i < v.len()
        invariant
            i <= v@.len(),
            r@ == service_lines(services_view(v@).take(i as int)),
        decreases v@.len() - i,
    {
        let ghost before = r@;
        if i > 0 {
            r.append(NEWLINE);
        }
        append_service_line(&mut r, &v[i]);
        proof {
            let t = services_view(v@).take(i + 1);
            assert(t.drop_last() =~= services_view(v@).take(i as int));
            assert(t.last() == v@[i as int]@);
            if i == 0 {
                assert(before =~= Seq::<char>::empty());
                assert(r@ =~= service_lines(t));
            } else {
                assert(r@ =~= service_lines(t));
            }
        }
        i = i + 1;
    }
    assert(services_view(v@).take(v@.len() as int) =~= services_view(v@));
    r
}

/// The text of the sidecar status dialog.
pub fn sidecar_status_text(status: &SidecarStatus) -> (t: String)
    ensures
        t@ == status_text(status@),
{
    let mut t = owned(PROFILE_LABEL);
    t.append(status.profile.as_str());
    t.append(URI_LABEL);
    t.append(status.penpot_public_uri.as_str());
    t.append(RUNNING_LABEL);
    if status.running {
        t.append(TRUE_TEXT);
    } else {
        t.append(FALSE_TEXT);
    }
    t.append(REPO_LABEL);
    match &status.repo_root {
        Some(r) => t.append(r.as_str()),
        None => t.append(NO_REPO),
    }
    t.append(BLANK_LINE);
    match &status.message {
        Some(m) => t.append(m.as_str()),
        None => {},
    }
    t.append(BLANK_LINE);
    let lines = services_text(&status.services);
    t.append(lines.as_str());
    assert(t@ =~= status_text(status@));
    t
}

} // verus!
