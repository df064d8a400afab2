//! Bringing up one sidecar profile, as a state machine.
//!
//! The caller asks `RunState::next_action` what outside work comes next
//! (create the HTTP client, probe an endpoint, start a process, wait for an
//! endpoint), does it, and hands what it gave to `RunState::step`, until the
//! action is `Finished`; `RunState::finish` then gives the outcome.
use vstd::prelude::*;
use crate::config::{
    effective_profile, mcp_stream_url_of, profile_name, uri_for_profile, AppConfig, DesktopEnv,
    SidecarProfile,
};
use crate::sidecar::health::{ProbeResult, ProbeView};
use crate::sidecar::orchestrator::{
    failed_status, failed_status_of, service_from_probe, service_of, services_view, ServiceStatus,
    ServiceView, SidecarStatus, StatusView, STATE_RUNNING, STATE_UNHEALTHY,
};
use crate::text::{concat, owned};

verus! {

pub const SERVICE_PENPOT: &'static str = "penpot";

pub const SERVICE_PENPOT_DEVENV: &'static str = "penpot-devenv";

pub const SERVICE_PENPOT_DOCKER: &'static str = "penpot-docker";

pub const SERVICE_MCP_STREAM: &'static str = "mcp-stream";

pub const CLIENT_ERROR_PREFIX: &'static str = "HTTP client error: ";

pub const DEVENV_TIMEOUT: &'static str = "Timed out waiting for devenv at https://localhost:3449";

pub const DEVENV_UNREACHABLE: &'static str = "Devenv is not reachable. Start ./manage.sh run-devenv-agentic or enable auto_start_sidecar.";

pub const DOCKER_TIMEOUT: &'static str = "Timed out waiting for docker stack at http://localhost:9001";

pub const DOCKER_UNREACHABLE: &'static str = "Docker Penpot stack is not reachable on http://localhost:9001";

pub const DEVENV_STARTED: &'static str = "Started devenv via manage.sh run-devenv-agentic";

pub const DOCKER_STARTED: &'static str = "Started docker/images/docker-compose.yaml";

pub const MCP_STARTED: &'static str = "Started local MCP server from monorepo";

/// Where a run stands.
#[derive(Debug, Clone, Copy, PartialEq, Eq, Structural)]
pub enum RunStage {
    /// The HTTP client is to be created.
    CreatingClient,
    /// `devenv` and `docker_local`: is Penpot already up?
    CheckingPenpot,
    /// The profile's process is to be started.
    Spawning,
    /// The started service is to come up.
    WaitingReady,
    /// Penpot is probed for the status.
    ProbingPenpot,
    /// `managed_mcp`: is the MCP server already up?
    CheckingMcp,
    /// The MCP stream is probed for the status.
    ProbingMcp,
    /// The run is over.
    Finished,
}

/// What a run brought about: the status, and what it started.
pub struct SidecarOutcome {
    pub status: SidecarStatus,
    pub spawned_devenv: bool,
    pub started_docker: bool,
    pub mcp_started: bool,
}

pub struct OutcomeView {
    pub status: StatusView,
    pub spawned_devenv: bool,
    pub started_docker: bool,
    pub mcp_started: bool,
}

impl View for SidecarOutcome {
    type V = OutcomeView;

    open spec fn view(&self) -> OutcomeView {
        OutcomeView {
            status: self.status@,
            spawned_devenv: self.spawned_devenv,
            started_docker: self.started_docker,
            mcp_started: self.mcp_started,
        }
    }
}

/// What the outside work asked for gave.
pub enum RunEvent {
    ClientReady,
    ClientFailed(String),
    Probed(ProbeResult),
    /// `manage.sh run-devenv-agentic` ran; `true` unless devenv was already running.
    DevenvStarted(bool),
    DockerStarted,
    McpStarted,
    SpawnFailed(String),
    /// The wait ended; `true` when the endpoint came up in time.
    WaitEnded(bool),
}

pub enum RunEventView {
    ClientReady,
    ClientFailed(Seq<char>),
    Probed(ProbeView),
    DevenvStarted(bool),
    DockerStarted,
    McpStarted,
    SpawnFailed(Seq<char>),
    WaitEnded(bool),
}

impl View for RunEvent {
    type V = RunEventView;

    open spec fn view(&self) -> RunEventView {
        match self {
            RunEvent::ClientReady => RunEventView::ClientReady,
            RunEvent::ClientFailed(e) => RunEventView::ClientFailed(e@),
            RunEvent::Probed(p) => RunEventView::Probed(p@),
            RunEvent::DevenvStarted(b) => RunEventView::DevenvStarted(*b),
            RunEvent::DockerStarted => RunEventView::DockerStarted,
            RunEvent::McpStarted => RunEventView::McpStarted,
            RunEvent::SpawnFailed(e) => RunEventView::SpawnFailed(e@),
            RunEvent::WaitEnded(b) => RunEventView::WaitEnded(*b),
        }
    }
}

/// The outside work a run asks for next.
pub enum RunAction {
    CreateClient,
    Probe(String),
    SpawnDevenv,
    SpawnDocker,
    SpawnMcp,
    WaitForReachable { url: String, timeout_secs: u64, interval_secs: u64 },
    Finished,
}

pub enum RunActionView {
    CreateClient,
    Probe(Seq<char>),
    SpawnDevenv,
    SpawnDocker,
    SpawnMcp,
    WaitForReachable { url: Seq<char>, timeout_secs: u64, interval_secs: u64 },
    Finished,
}

impl View for RunAction {
    type V = RunActionView;

    open spec fn view(&self) -> RunActionView {
        match self {
            RunAction::CreateClient => RunActionView::CreateClient,
            RunAction::Probe(u) => RunActionView::Probe(u@),
            RunAction::SpawnDevenv => RunActionView::SpawnDevenv,
            RunAction::SpawnDocker => RunActionView::SpawnDocker,
            RunAction::SpawnMcp => RunActionView::SpawnMcp,
            RunAction::WaitForReachable { url, timeout_secs, interval_secs } =>
                RunActionView::WaitForReachable {
                    url: url@,
                    timeout_secs: *timeout_secs,
                    interval_secs: *interval_secs,
                },
            RunAction::Finished => RunActionView::Finished,
        }
    }
}

/// A run of one profile.
pub struct RunState {
    pub profile: SidecarProfile,
    pub penpot_uri: String,
    pub mcp_url: String,
    pub repo_root: Option<String>,
    pub auto_start: bool,
    pub stage: RunStage,
    pub services: Vec<ServiceStatus>,
    pub penpot_reachable: bool,
    pub spawned_devenv: bool,
    pub started_docker: bool,
    pub mcp_started: bool,
    pub result: Option<Result<SidecarOutcome, SidecarStatus>>,
}

pub struct RunView {
    pub profile: SidecarProfile,
    pub penpot_uri: Seq<char>,
    pub mcp_url: Seq<char>,
    pub repo_root: Option<Seq<char>>,
    pub auto_start: bool,
    pub stage: RunStage,
    pub services: Seq<ServiceView>,
    pub penpot_reachable: bool,
    pub spawned_devenv: bool,
    pub started_docker: bool,
    pub mcp_started: bool,
    pub result: Option<Result<OutcomeView, StatusView>>,
}

pub open spec fn result_view(r: Option<Result<SidecarOutcome, SidecarStatus>>) -> Option<
    Result<OutcomeView, StatusView>,
> {
    match r {
        Some(Ok(o)) => Some(Ok(o@)),
        Some(Err(s)) => Some(Err(s@)),
        None => None,
    }
}

impl View for RunState {
    type V = RunView;

    open spec fn view(&self) -> RunView {
        RunView {
            profile: self.profile,
            penpot_uri: self.penpot_uri@,
            mcp_url: self.mcp_url@,
            repo_root: self.repo_root.deep_view(),
            auto_start: self.auto_start,
            stage: self.stage,
            services: services_view(self.services@),
            penpot_reachable: self.penpot_reachable,
            spawned_devenv: self.spawned_devenv,
            started_docker: self.started_docker,
            mcp_started: self.mcp_started,
            result: result_view(self.result),
        }
    }
}

/// A run that has not done anything yet.
pub open spec fn initial_run(
    profile: SidecarProfile,
    penpot_uri: Seq<char>,
    mcp_url: Seq<char>,
    repo_root: Option<Seq<char>>,
    auto_start: bool,
) -> RunView {
    RunView {
        profile,
        penpot_uri,
        mcp_url,
        repo_root,
        auto_start,
        stage: RunStage::CreatingClient,
        services: Seq::empty(),
        penpot_reachable: false,
        spawned_devenv: false,
        started_docker: false,
        mcp_started: false,
        result: None,
    }
}

/// The name of the Penpot service of a profile.
pub open spec fn penpot_service_name(p: SidecarProfile) -> Seq<char> {
    match p {
        SidecarProfile::Devenv => SERVICE_PENPOT_DEVENV@,
        SidecarProfile::DockerLocal => SERVICE_PENPOT_DOCKER@,
        _ => SERVICE_PENPOT@,
    }
}

/// Why a profile that may not start services on its own is not up.
pub open spec fn unreachable_message(p: SidecarProfile) -> Seq<char> {
    match p {
        SidecarProfile::Devenv => DEVENV_UNREACHABLE@,
        _ => DOCKER_UNREACHABLE@,
    }
}

/// Why a started profile is not up.
pub open spec fn timeout_message(p: SidecarProfile) -> Seq<char> {
    match p {
        SidecarProfile::Devenv => DEVENV_TIMEOUT@,
        _ => DOCKER_TIMEOUT@,
    }
}

/// The message of a profile that came up: what the run started, if anything.
pub open spec fn started_message(s: RunView) -> Option<Seq<char>> {
    match s.profile {
        SidecarProfile::Remote => None,
        SidecarProfile::Devenv => if s.spawned_devenv {
            Some(DEVENV_STARTED@)
        } else {
            None
        },
        SidecarProfile::DockerLocal => if s.started_docker {
            Some(DOCKER_STARTED@)
        } else {
            None
        },
        SidecarProfile::ManagedMcp => if s.mcp_started {
            Some(MCP_STARTED@)
        } else {
            None
        },
    }
}

/// The run ends without the profile up, for the reason given.
pub open spec fn finish_failed(s: RunView, message: Seq<char>) -> RunView {
    RunView {
        stage: RunStage::Finished,
        result: Some(Err(failed_status_of(s.profile, s.penpot_uri, s.repo_root, message))),
        ..s
    }
}

/// The run ends with the services probed so far.
pub open spec fn finish_ok(s: RunView, running: bool) -> RunView {
    RunView {
        stage: RunStage::Finished,
        result: Some(
            Ok(
                OutcomeView {
                    status: StatusView {
                        profile: profile_name(s.profile),
                        penpot_public_uri: s.penpot_uri,
                        repo_root: s.repo_root,
                        running,
                        services: s.services,
                        message: started_message(s),
                    },
                    spawned_devenv: s.spawned_devenv,
                    started_docker: s.started_docker,
                    mcp_started: s.mcp_started,
                },
            ),
        ),
        ..s
    }
}

/// Where a run goes once the client is there: `devenv` and `docker_local`
/// first check whether Penpot is up; the others probe it for the status.
pub open spec fn after_client(p: SidecarProfile) -> RunStage {
    match p {
        SidecarProfile::Devenv | SidecarProfile::DockerLocal => RunStage::CheckingPenpot,
        _ => RunStage::ProbingPenpot,
    }
}

/// A run after one piece of outside work gave `e`. An event that is not the
/// answer to the action asked for leaves the run as it is.
pub open spec fn run_next(s: RunView, e: RunEventView) -> RunView {
    match s.stage {
        RunStage::CreatingClient => match e {
            RunEventView::ClientReady => RunView { stage: after_client(s.profile), ..s },
            RunEventView::ClientFailed(err) => finish_failed(s, CLIENT_ERROR_PREFIX@ + err),
            _ => s,
        },
        RunStage::CheckingPenpot => match e {
            RunEventView::Probed(p) => if p.reachable {
                RunView { stage: RunStage::ProbingPenpot, ..s }
            } else if s.auto_start {
                RunView { stage: RunStage::Spawning, ..s }
            } else {
                finish_failed(s, unreachable_message(s.profile))
            },
            _ => s,
        },
        RunStage::Spawning => match e {
            RunEventView::DevenvStarted(spawned) => if s.profile == SidecarProfile::Devenv {
                RunView { stage: RunStage::WaitingReady, spawned_devenv: spawned, ..s }
            } else {
                s
            },
            RunEventView::DockerStarted => if s.profile == SidecarProfile::DockerLocal {
                RunView { stage: RunStage::WaitingReady, started_docker: true, ..s }
            } else {
                s
            },
            RunEventView::McpStarted => if s.profile == SidecarProfile::ManagedMcp {
                RunView { stage: RunStage::WaitingReady, mcp_started: true, ..s }
            } else {
                s
            },
            RunEventView::SpawnFailed(err) => finish_failed(s, err),
            _ => s,
        },
        RunStage::WaitingReady => match e {
            RunEventView::WaitEnded(ready) => if s.profile == SidecarProfile::ManagedMcp {
                RunView { stage: RunStage::ProbingMcp, ..s }
            } else if ready {
                RunView { stage: RunStage::ProbingPenpot, ..s }
            } else {
                finish_failed(s, timeout_message(s.profile))
            },
            _ => s,
        },
        RunStage::ProbingPenpot => match e {
            RunEventView::Probed(p) => {
                let s2 = RunView {
                    services: s.services.push(
                        service_of(penpot_service_name(s.profile), s.penpot_uri, p),
                    ),
                    penpot_reachable: p.reachable,
                    ..s
                };
                match s.profile {
                    SidecarProfile::Devenv => RunView { stage: RunStage::ProbingMcp, ..s2 },
                    SidecarProfile::ManagedMcp => RunView { stage: RunStage::CheckingMcp, ..s2 },
                    _ => finish_ok(s2, p.reachable),
                }
            },
            _ => s,
        },
        RunStage::CheckingMcp => match e {
            RunEventView::Probed(p) => if !p.reachable && s.auto_start {
                RunView { stage: RunStage::Spawning, ..s }
            } else {
                RunView { stage: RunStage::ProbingMcp, ..s }
            },
            _ => s,
        },
        RunStage::ProbingMcp => match e {
            RunEventView::Probed(p) => {
                let s2 = RunView {
                    services: s.services.push(service_of(SERVICE_MCP_STREAM@, s.mcp_url, p)),
                    ..s
                };
                finish_ok(
                    s2,
                    if s.profile == SidecarProfile::ManagedMcp {
                        s.penpot_reachable && p.reachable
                    } else {
                        s.penpot_reachable
                    },
                )
            },
            _ => s,
        },
        RunStage::Finished => s,
    }
}

/// The outside work a run asks for in its stage.
pub open spec fn action_of(s: RunView) -> RunActionView {
    match s.stage {
        RunStage::CreatingClient => RunActionView::CreateClient,
        RunStage::CheckingPenpot | RunStage::ProbingPenpot => RunActionView::Probe(s.penpot_uri),
        RunStage::CheckingMcp | RunStage::ProbingMcp => RunActionView::Probe(s.mcp_url),
        RunStage::Spawning => match s.profile {
            SidecarProfile::Devenv => RunActionView::SpawnDevenv,
            SidecarProfile::DockerLocal => RunActionView::SpawnDocker,
            _ => RunActionView::SpawnMcp,
        },
        RunStage::WaitingReady => match s.profile {
            SidecarProfile::Devenv => RunActionView::WaitForReachable {
                url: s.penpot_uri,
                timeout_secs: 180,
                interval_secs: 3,
            },
            SidecarProfile::DockerLocal => RunActionView::WaitForReachable {
                url: s.penpot_uri,
                timeout_secs: 300,
                interval_secs: 5,
            },
            _ => RunActionView::WaitForReachable {
                url: s.mcp_url,
                timeout_secs: 60,
                interval_secs: 2,
            },
        },
        RunStage::Finished => RunActionView::Finished,
    }
}

/// The outcome that a finished run hands the orchestrator: a failed run
/// counts as having started nothing.
pub open spec fn outcome_of(r: Result<OutcomeView, StatusView>) -> OutcomeView {
    match r {
        Ok(o) => o,
        Err(status) => OutcomeView {
            status,
            spawned_devenv: false,
            started_docker: false,
            mcp_started: false,
        },
    }
}

fn push_service(v: &mut Vec<ServiceStatus>, s: ServiceStatus)
    ensures
        services_view(final(v)@) == services_view(old(v)@).push(s@),
{
    v.push(s);
    assert(services_view(v@) =~= services_view(old(v)@).push(s@));
}

impl RunState {
    /// A run of `profile` serving `penpot_uri`, whose MCP stream is `mcp_url`.
    pub fn new(
        profile: SidecarProfile,
        penpot_uri: String,
        mcp_url: String,
        repo_root: Option<String>,
        auto_start: bool,
    ) -> (r: Self)
        ensures
            r@ == initial_run(profile, penpot_uri@, mcp_url@, repo_root.deep_view(), auto_start),
    {
        let r = RunState {
            profile,
            penpot_uri,
            mcp_url,
            repo_root,
            auto_start,
            stage: RunStage::CreatingClient,
            services: Vec::new(),
            penpot_reachable: false,
            spawned_devenv: false,
            started_docker: false,
            mcp_started: false,
            result: None,
        };
        assert(r@.services =~= Seq::<ServiceView>::empty());
        r
    }

    /// A run of the profile in force, in the monorepo at `repo_root`.
    pub fn begin(cfg: &AppConfig, env: &DesktopEnv, repo_root: Option<String>) -> (r: Self)
        ensures
            r@ == initial_run(
                effective_profile(cfg@, env@),
                uri_for_profile(cfg@, effective_profile(cfg@, env@)),
                mcp_stream_url_of(cfg@, env@),
                repo_root.deep_view(),
                cfg@.auto_start_sidecar,
            ),
    {
        let profile = cfg.effective_sidecar_profile(env);
        let penpot_uri = cfg.penpot_uri_for_profile(&profile);
        let mcp_url = cfg.mcp_stream_url(env);
        RunState::new(profile, penpot_uri, mcp_url, repo_root, cfg.auto_start_sidecar)
    }

    /// The outside work the run asks for next.
    pub fn next_action(&self) -> (a: RunAction)
        ensures
            a@ == action_of(self@),
    {
        match self.stage {
            RunStage::CreatingClient => RunAction::CreateClient,
            RunStage::CheckingPenpot | RunStage::ProbingPenpot => RunAction::Probe(
                self.penpot_uri.clone(),
            ),
            RunStage::CheckingMcp | RunStage::ProbingMcp => RunAction::Probe(self.mcp_url.clone()),
            RunStage::Spawning => match self.profile {
                SidecarProfile::Devenv => RunAction::SpawnDevenv,
                SidecarProfile::DockerLocal => RunAction::SpawnDocker,
                _ => RunAction::SpawnMcp,
            },
            RunStage::WaitingReady => match self.profile {
                SidecarProfile::Devenv => RunAction::WaitForReachable {
                    url: self.penpot_uri.clone(),
                    timeout_secs: 180,
                    interval_secs: 3,
                },
                SidecarProfile::DockerLocal => RunAction::WaitForReachable {
                    url: self.penpot_uri.clone(),
                    timeout_secs: 300,
                    interval_secs: 5,
                },
                _ => RunAction::WaitForReachable {
                    url: self.mcp_url.clone(),
                    timeout_secs: 60,
                    interval_secs: 2,
                },
            },
            RunStage::Finished => RunAction::Finished,
        }
    }

    fn fail(self, message: String) -> (r: Self)
        ensures
            r@ == finish_failed(self@, message@),
    {
        let status = failed_status(self.profile, self.penpot_uri.as_str(), &self.repo_root, message);
        RunState { stage: RunStage::Finished, result: Some(Err(status)), ..self }
    }

    fn started_message(&self) -> (m: Option<String>)
        ensures
            m.deep_view() == started_message(self@),
    {
        match self.profile {
            SidecarProfile::Remote => None,
            SidecarProfile::Devenv => if self.spawned_devenv {
                Some(owned(DEVENV_STARTED))
            } else {
                None
            },
            SidecarProfile::DockerLocal => if self.started_docker {
                Some(owned(DOCKER_STARTED))
            } else {
                None
            },
            SidecarProfile::ManagedMcp => if self.mcp_started {
                Some(owned(MCP_STARTED))
            } else {
                None
            },
        }
    }

    fn succeed(self, running: bool) -> (r: Self)
        ensures
            r@ == finish_ok(self@, running),
    {
        let message = self.started_message();
        let profile = owned(self.profile.as_str());
        let penpot_public_uri = self.penpot_uri.clone();
        let repo_root = crate::config::clone_opt_string(&self.repo_root);
        let services = crate::sidecar::orchestrator::clone_services(&self.services);
        let status = SidecarStatus { profile, penpot_public_uri, repo_root, running, services, message };
        let outcome = SidecarOutcome {
            status,
            spawned_devenv: self.spawned_devenv,
            started_docker: self.started_docker,
            mcp_started: self.mcp_started,
        };
        RunState { stage: RunStage::Finished, result: Some(Ok(outcome)), ..self }
    }

    /// The run after the outside work it asked for gave `event`; an event
    /// that does not answer that work leaves the run as it is.
    pub fn step(self, event: RunEvent) -> (r: Self)
        ensures
            r@ == run_next(self@, event@),
    {
        match self.stage {
            RunStage::CreatingClient => match event {
                RunEvent::ClientReady => {
                    let stage = match self.profile {
                        SidecarProfile::Devenv | SidecarProfile::DockerLocal => RunStage::CheckingPenpot,
                        _ => RunStage::ProbingPenpot,
                    };
                    RunState { stage, ..self }
                },
                RunEvent::ClientFailed(err) => {
                    let message = concat(CLIENT_ERROR_PREFIX, err.as_str());
                    self.fail(message)
                },
                _ => self,
            },
            RunStage::CheckingPenpot => match event {
                RunEvent::Probed(p) => if p.reachable {
                    RunState { stage: RunStage::ProbingPenpot, ..self }
                } else if self.auto_start {
                    RunState { stage: RunStage::Spawning, ..self }
                } else {
                    let message = match self.profile {
                        SidecarProfile::Devenv => owned(DEVENV_UNREACHABLE),
                        _ => owned(DOCKER_UNREACHABLE),
                    };
                    self.fail(message)
                },
                _ => self,
            },
            RunStage::Spawning => match event {
                RunEvent::DevenvStarted(spawned) => if self.profile == SidecarProfile::Devenv {
                    RunState { stage: RunStage::WaitingReady, spawned_devenv: spawned, ..self }
                } else {
                    self
                },
                RunEvent::DockerStarted => if self.profile == SidecarProfile::DockerLocal {
                    RunState { stage: RunStage::WaitingReady, started_docker: true, ..self }
                } else {
                    self
                },
                RunEvent::McpStarted => if self.profile == SidecarProfile::ManagedMcp {
                    RunState { stage: RunStage::WaitingReady, mcp_started: true, ..self }
                } else {
                    self
                },
                RunEvent::SpawnFailed(err) => self.fail(err),
                _ => self,
            },
            RunStage::WaitingReady => match event {
                RunEvent::WaitEnded(ready) => if self.profile == SidecarProfile::ManagedMcp {
                    RunState { stage: RunStage::ProbingMcp, ..self }
                } else if ready {
                    RunState { stage: RunStage::ProbingPenpot, ..self }
                } else {
                    let message = match self.profile {
                        SidecarProfile::Devenv => owned(DEVENV_TIMEOUT),
                        _ => owned(DOCKER_TIMEOUT),
                    };
                    self.fail(message)
                },
                _ => self,
            },
            RunStage::ProbingPenpot => match event {
                RunEvent::Probed(p) => {
                    let name = match self.profile {
                        SidecarProfile::Devenv => SERVICE_PENPOT_DEVENV,
                        SidecarProfile::DockerLocal => SERVICE_PENPOT_DOCKER,
                        _ => SERVICE_PENPOT,
                    };
                    let svc = service_from_probe(name, self.penpot_uri.as_str(), &p);
                    let mut s2 = RunState { penpot_reachable: p.reachable, ..self };
                    push_service(&mut s2.services, svc);
                    match s2.profile {
                        SidecarProfile::Devenv => RunState { stage: RunStage::ProbingMcp, ..s2 },
                        SidecarProfile::ManagedMcp => RunState { stage: RunStage::CheckingMcp, ..s2 },
                        _ => s2.succeed(p.reachable),
                    }
                },
                _ => self,
            },
            RunStage::CheckingMcp => match event {
                RunEvent::Probed(p) => if !p.reachable && self.auto_start {
                    RunState { stage: RunStage::Spawning, ..self }
                } else {
                    RunState { stage: RunStage::ProbingMcp, ..self }
                },
                _ => self,
            },
            RunStage::ProbingMcp => match event {
                RunEvent::Probed(p) => {
                    let svc = service_from_probe(SERVICE_MCP_STREAM, self.mcp_url.as_str(), &p);
                    let running = if self.profile == SidecarProfile::ManagedMcp {
                        self.penpot_reachable && p.reachable
                    } else {
                        self.penpot_reachable
                    };
                    let mut s2 = self;
                    push_service(&mut s2.services, svc);
                    s2.succeed(running)
                },
                _ => self,
            },
            RunStage::Finished => self,
        }
    }

    /// The outcome of a finished run (`None` while it is not finished).
    pub fn finish(self) -> (o: Option<SidecarOutcome>)
        ensures
            match self@.result {
                Some(r) => o is Some && o->0@ == outcome_of(r),
                None => o is None,
            },
    {
        match self.result {
            Some(Ok(outcome)) => Some(outcome),
            Some(Err(status)) => Some(
                SidecarOutcome {
                    status,
                    spawned_devenv: false,
                    started_docker: false,
                    mcp_started: false,
                },
            ),
            None => None,
        }
    }
}

/// What every piece of outside work gives in one run: the client creation,
/// each probe, each process start, and the wait.
pub struct SidecarReplies {
    pub client: Result<(), Seq<char>>,
    /// The first probe of Penpot under `devenv` and `docker_local`.
    pub penpot_check: ProbeView,
    /// The probe of Penpot that the status reports.
    pub penpot_probe: ProbeView,
    /// The first probe of the MCP stream under `managed_mcp`.
    pub mcp_check: ProbeView,
    /// The probe of the MCP stream that the status reports.
    pub mcp_probe: ProbeView,
    pub devenv_spawn: Result<bool, Seq<char>>,
    pub docker_spawn: Result<(), Seq<char>>,
    pub mcp_spawn: Result<(), Seq<char>>,
    /// Whether the started service came up before the wait ended.
    pub ready: bool,
}

/// What the outside work that a run asks for gives, in `w`.
pub open spec fn reply(s: RunView, w: SidecarReplies) -> RunEventView {
    match s.stage {
        RunStage::CreatingClient => match w.client {
            Ok(_) => RunEventView::ClientReady,
            Err(e) => RunEventView::ClientFailed(e),
        },
        RunStage::CheckingPenpot => RunEventView::Probed(w.penpot_check),
        RunStage::ProbingPenpot => RunEventView::Probed(w.penpot_probe),
        RunStage::CheckingMcp => RunEventView::Probed(w.mcp_check),
        RunStage::ProbingMcp => RunEventView::Probed(w.mcp_probe),
        RunStage::Spawning => match s.profile {
            SidecarProfile::Devenv => match w.devenv_spawn {
                Ok(spawned) => RunEventView::DevenvStarted(spawned),
                Err(e) => RunEventView::SpawnFailed(e),
            },
            SidecarProfile::DockerLocal => match w.docker_spawn {
                Ok(_) => RunEventView::DockerStarted,
                Err(e) => RunEventView::SpawnFailed(e),
            },
            _ => match w.mcp_spawn {
                Ok(_) => RunEventView::McpStarted,
                Err(e) => RunEventView::SpawnFailed(e),
            },
        },
        RunStage::WaitingReady | RunStage::Finished => RunEventView::WaitEnded(w.ready),
    }
}

/// A run after `n` pieces of outside work, each answered from `w`.
pub open spec fn run_with(s: RunView, w: SidecarReplies, n: nat) -> RunView
    decreases n,
{
    if n == 0 {
        s
    } else {
        run_with(run_next(s, reply(s, w)), w, (n - 1) as nat)
    }
}

/// The result of a profile that could not be brought up.
pub open spec fn not_up(
    profile: SidecarProfile,
    penpot_uri: Seq<char>,
    repo_root: Option<Seq<char>>,
    message: Seq<char>,
) -> Result<OutcomeView, StatusView> {
    Err(failed_status_of(profile, penpot_uri, repo_root, message))
}

/// The result of a profile that was brought up.
pub open spec fn up(
    profile: SidecarProfile,
    penpot_uri: Seq<char>,
    repo_root: Option<Seq<char>>,
    running: bool,
    services: Seq<ServiceView>,
    message: Option<Seq<char>>,
    spawned_devenv: bool,
    started_docker: bool,
    mcp_started: bool,
) -> Result<OutcomeView, StatusView> {
    Ok(
        OutcomeView {
            status: StatusView {
                profile: profile_name(profile),
                penpot_public_uri: penpot_uri,
                repo_root,
                running,
                services,
                message,
            },
            spawned_devenv,
            started_docker,
            mcp_started,
        },
    )
}

/// What bringing up a profile gives, when the outside work gives `w`:
/// - `remote`: Penpot is probed; the profile runs when it is reachable.
/// - `devenv`: when Penpot is not reachable, devenv is started (only with
///   auto start) and waited for (180 s); then Penpot and the MCP stream are
///   probed, and the profile runs when Penpot is reachable.
/// - `docker_local`: the same with the docker stack (300 s), probing Penpot only.
/// - `managed_mcp`: Penpot is probed; when the MCP stream is not reachable
///   and auto start is on, the MCP server is started and waited for (60 s,
///   whatever the wait gives); then the stream is probed, and the profile
///   runs when both are reachable.
/// A client that cannot be created, a start that fails, a service that
/// is down without auto start or does not come up in time end the run with
/// the reason.
pub open spec fn brought_up(
    profile: SidecarProfile,
    penpot_uri: Seq<char>,
    mcp_url: Seq<char>,
    repo_root: Option<Seq<char>>,
    auto_start: bool,
    w: SidecarReplies,
) -> Result<OutcomeView, StatusView> {
    match w.client {
        Err(e) => not_up(profile, penpot_uri, repo_root, CLIENT_ERROR_PREFIX@ + e),
        Ok(_) => match profile {
            SidecarProfile::Remote => up(
                profile,
                penpot_uri,
                repo_root,
                w.penpot_probe.reachable,
                seq![service_of(SERVICE_PENPOT@, penpot_uri, w.penpot_probe)],
                None,
                false,
                false,
                false,
            ),
            SidecarProfile::Devenv => {
                let start = !w.penpot_check.reachable;
                if start && !auto_start {
                    not_up(profile, penpot_uri, repo_root, DEVENV_UNREACHABLE@)
                } else if start && w.devenv_spawn is Err {
                    not_up(profile, penpot_uri, repo_root, w.devenv_spawn->Err_0)
                } else if start && !w.ready {
                    not_up(profile, penpot_uri, repo_root, DEVENV_TIMEOUT@)
                } else {
                    let spawned = start && w.devenv_spawn->Ok_0;
                    up(
                        profile,
                        penpot_uri,
                        repo_root,
                        w.penpot_probe.reachable,
                        seq![
                            service_of(SERVICE_PENPOT_DEVENV@, penpot_uri, w.penpot_probe),
                            service_of(SERVICE_MCP_STREAM@, mcp_url, w.mcp_probe),
                        ],
                        if spawned {
                            Some(DEVENV_STARTED@)
                        } else {
                            None
                        },
                        spawned,
                        false,
                        false,
                    )
                }
            },
            SidecarProfile::DockerLocal => {
                let start = !w.penpot_check.reachable;
                if start && !auto_start {
                    not_up(profile, penpot_uri, repo_root, DOCKER_UNREACHABLE@)
                } else if start && w.docker_spawn is Err {
                    not_up(profile, penpot_uri, repo_root, w.docker_spawn->Err_0)
                } else if start && !w.ready {
                    not_up(profile, penpot_uri, repo_root, DOCKER_TIMEOUT@)
                } else {
                    up(
                        profile,
                        penpot_uri,
                        repo_root,
                        w.penpot_probe.reachable,
                        seq![service_of(SERVICE_PENPOT_DOCKER@, penpot_uri, w.penpot_probe)],
                        if start {
                            Some(DOCKER_STARTED@)
                        } else {
                            None
                        },
                        false,
                        start,
                        false,
                    )
                }
            },
            SidecarProfile::ManagedMcp => {
                let start = !w.mcp_check.reachable && auto_start;
                if start && w.mcp_spawn is Err {
                    not_up(profile, penpot_uri, repo_root, w.mcp_spawn->Err_0)
                } else {
                    up(
                        profile,
                        penpot_uri,
                        repo_root,
                        w.penpot_probe.reachable && w.mcp_probe.reachable,
                        seq![
                            service_of(SERVICE_PENPOT@, penpot_uri, w.penpot_probe),
                            service_of(SERVICE_MCP_STREAM@, mcp_url, w.mcp_probe),
                        ],
                        if start {
                            Some(MCP_STARTED@)
                        } else {
                            None
                        },
                        false,
                        false,
                        start,
                    )
                }
            },
        },
    }
}

/// Driving a run, answering each action it asks for from `w`, finishes it
/// within six pieces of outside work, with the result that `brought_up`
/// gives for the same profile and replies.
pub proof fn lemma_run_brings_up_profile(
    profile: SidecarProfile,
    penpot_uri: Seq<char>,
    mcp_url: Seq<char>,
    repo_root: Option<Seq<char>>,
    auto_start: bool,
    w: SidecarReplies,
)
    ensures
        ({
            let end = run_with(initial_run(profile, penpot_uri, mcp_url, repo_root, auto_start), w, 6);
            &&& end.stage == RunStage::Finished
            &&& end.result == Some(brought_up(profile, penpot_uri, mcp_url, repo_root, auto_start, w))
        }),
{
    reveal_with_fuel(run_with, 7);
    let s0 = initial_run(profile, penpot_uri, mcp_url, repo_root, auto_start);
    let p1 = service_of(penpot_service_name(profile), penpot_uri, w.penpot_probe);
    let m1 = service_of(SERVICE_MCP_STREAM@, mcp_url, w.mcp_probe);
    assert(Seq::<ServiceView>::empty().push(p1) =~= seq![p1]);
    assert(Seq::<ServiceView>::empty().push(p1).push(m1) =~= seq![p1, m1]);
}

/// What every run keeps: only `devenv` and `docker_local` check Penpot
/// before starting it, only `managed_mcp` checks the MCP server, and a
/// `remote` run never gets to starting or waiting for anything.
pub open spec fn run_inv(s: RunView) -> bool {
    &&& s.stage == RunStage::CheckingPenpot ==> (s.profile == SidecarProfile::Devenv || s.profile
        == SidecarProfile::DockerLocal)
    &&& s.stage == RunStage::CheckingMcp ==> s.profile == SidecarProfile::ManagedMcp
    &&& (s.stage == RunStage::Spawning || s.stage == RunStage::WaitingReady) ==> s.profile
        != SidecarProfile::Remote
}

/// A run starts out keeping `run_inv`, and every step keeps it.
pub proof fn lemma_run_inv(
    profile: SidecarProfile,
    penpot_uri: Seq<char>,
    mcp_url: Seq<char>,
    repo_root: Option<Seq<char>>,
    auto_start: bool,
    s: RunView,
    e: RunEventView,
)
    ensures
        run_inv(initial_run(profile, penpot_uri, mcp_url, repo_root, auto_start)),
        run_inv(s) ==> run_inv(run_next(s, e)),
{
}

/// A start is asked for only when auto-start is on and the check just made
/// found the service down: Penpot for `devenv` and `docker_local`, the MCP
/// server for `managed_mcp`; a `remote` run never asks for one.
pub proof fn lemma_launch_only_when_down(s: RunView, e: RunEventView)
    requires
        run_inv(s),
        s.stage != RunStage::Spawning,
        run_next(s, e).stage == RunStage::Spawning,
    ensures
        s.auto_start,
        s.profile != SidecarProfile::Remote,
        e matches RunEventView::Probed(p) && !p.reachable,
        (s.stage == RunStage::CheckingMcp) == (s.profile == SidecarProfile::ManagedMcp),
        s.stage == RunStage::CheckingPenpot || s.stage == RunStage::CheckingMcp,
{
}

/// A run probes the service its stage is about: the Penpot instance of the
/// profile while checking or probing Penpot, the MCP stream while checking
/// or probing MCP; and the service recorded after a status probe names the
/// very endpoint that was probed, with what the probe found.
pub proof fn lemma_probe_targets_stage_service(s: RunView, p: ProbeView)
    ensures
        (s.stage == RunStage::CheckingPenpot || s.stage == RunStage::ProbingPenpot) ==> action_of(s)
            == RunActionView::Probe(s.penpot_uri),
        (s.stage == RunStage::CheckingMcp || s.stage == RunStage::ProbingMcp) ==> action_of(s)
            == RunActionView::Probe(s.mcp_url),
        (s.stage == RunStage::ProbingPenpot || s.stage == RunStage::ProbingMcp) ==> ({
            let next = run_next(s, RunEventView::Probed(p));
            &&& action_of(s) matches RunActionView::Probe(u) && next.services.len()
                == s.services.len() + 1 && next.services.last().endpoint == Some(u)
            &&& next.services.last().state == if p.reachable {
                STATE_RUNNING@
            } else {
                STATE_UNHEALTHY@
            }
            &&& next.services.subrange(0, s.services.len() as int) == s.services
        }),
{
    if s.stage == RunStage::ProbingPenpot || s.stage == RunStage::ProbingMcp {
        let next = run_next(s, RunEventView::Probed(p));
        assert(next.services.subrange(0, s.services.len() as int) =~= s.services);
    }
}

/// The status a run reports says the profile is running exactly as the
/// status probes found it: for `remote` and `docker_local`, Penpot's probe;
/// for `devenv`, Penpot's earlier probe (the MCP stream is only listed); for
/// `managed_mcp`, both Penpot's earlier probe and the stream's.
pub proof fn lemma_running_follows_probes(s: RunView, p: ProbeView)
    ensures
        s.stage == RunStage::ProbingPenpot ==> run_next(s, RunEventView::Probed(p)).penpot_reachable
            == p.reachable,
        s.stage == RunStage::ProbingPenpot && (s.profile == SidecarProfile::Remote || s.profile
            == SidecarProfile::DockerLocal) ==> (run_next(s, RunEventView::Probed(p)).result matches Some(
            Ok(o),
        ) && o.status.running == p.reachable),
        s.stage == RunStage::ProbingMcp ==> (run_next(s, RunEventView::Probed(p)).result matches Some(
            Ok(o),
        ) && o.status.running == if s.profile == SidecarProfile::ManagedMcp {
            s.penpot_reachable && p.reachable
        } else {
            s.penpot_reachable
        }),
{
}

} // verus!
