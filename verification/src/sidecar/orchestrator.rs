//! The statuses of sidecar services and profiles, the judgement of the
//! commands that start them, and the orchestrator's record of what it
//! started and must stop. Bringing a profile up is in `run`.
use vstd::prelude::*;
use crate::config::{
    clone_opt_string, effective_profile, profile_name, uri_for_profile, AppConfig, DesktopEnv,
    SidecarProfile,
};
use crate::sidecar::run::{OutcomeView, SidecarOutcome};
use crate::sidecar::health::{ProbeResult, ProbeView};
use crate::text::{concat, contains, contains_seq, decimal, decimal_string, owned};

verus! {

pub const STATE_RUNNING: &'static str = "running";

pub const STATE_UNHEALTHY: &'static str = "unhealthy";

pub const SIDECAR_NOT_STARTED: &'static str = "Sidecar not started";

pub const SIDECAR_STOPPED: &'static str = "Sidecar stopped";

pub const ALREADY_RUNNING: &'static str = "already running";

pub const DEVENV_FAILED_PREFIX: &'static str = "manage.sh run-devenv-agentic failed (";

pub const DEVENV_FAILED_INFIX: &'static str = "): ";

pub const DOCKER_UP_FAILED_PREFIX: &'static str = "docker compose up failed with ";

pub const HTTP_DETAIL_PREFIX: &'static str = "HTTP ";
/// A spawn asked for without a known monorepo.
pub const REPO_NOT_FOUND: &'static str = "Penpot repo not found. Set PENPOT_REPO_ROOT.";
/// Where the monorepo has no `manage.sh`; the script's path follows.
pub const MANAGE_NOT_FOUND_PREFIX: &'static str = "manage.sh not found at ";
/// Where the MCP server is not built: the prefix, the entry point's path,
/// then the suffix.
pub const MCP_BUILD_NOT_FOUND_PREFIX: &'static str = "MCP server build not found at ";
pub const MCP_BUILD_NOT_FOUND_SUFFIX: &'static str = ". Run: cd mcp && pnpm run build";

/// One service of a sidecar profile, as last probed.
pub struct ServiceStatus {
    pub name: String,
    pub state: String,
    pub endpoint: Option<String>,
    pub detail: Option<String>,
}

pub struct ServiceView {
    pub name: Seq<char>,
    pub state: Seq<char>,
    pub endpoint: Option<Seq<char>>,
    pub detail: Option<Seq<char>>,
}

impl View for ServiceStatus {
    type V = ServiceView;

    open spec fn view(&self) -> ServiceView {
        ServiceView {
            name: self.name@,
            state: self.state@,
            endpoint: self.endpoint.deep_view(),
            detail: self.detail.deep_view(),
        }
    }
}

impl Clone for ServiceStatus {
    fn clone(&self) -> (r: Self)
        ensures
            r@ == self@,
    {
        ServiceStatus {
            name: self.name.clone(),
            state: self.state.clone(),
            endpoint: clone_opt_string(&self.endpoint),
            detail: clone_opt_string(&self.detail),
        }
    }
}

pub open spec fn services_view(v: Seq<ServiceStatus>) -> Seq<ServiceView> {
    v.map_values(|s: ServiceStatus| s@)
}

/// The state of a sidecar profile: which profile, the Penpot URI it serves,
/// the monorepo it works in, whether it is up, its services and a message.
pub struct SidecarStatus {
    pub profile: String,
    pub penpot_public_uri: String,
    pub repo_root: Option<String>,
    pub running: bool,
    pub services: Vec<ServiceStatus>,
    pub message: Option<String>,
}

pub struct StatusView {
    pub profile: Seq<char>,
    pub penpot_public_uri: Seq<char>,
    pub repo_root: Option<Seq<char>>,
    pub running: bool,
    pub services: Seq<ServiceView>,
    pub message: Option<Seq<char>>,
}

impl View for SidecarStatus {
    type V = StatusView;

    open spec fn view(&self) -> StatusView {
        StatusView {
            profile: self.profile@,
            penpot_public_uri: self.penpot_public_uri@,
            repo_root: self.repo_root.deep_view(),
            running: self.running,
            services: services_view(self.services@),
            message: self.message.deep_view(),
        }
    }
}

/// A copy of a list of service records.
pub fn clone_services(v: &Vec<ServiceStatus>) -> (r: Vec<ServiceStatus>)
    ensures
        services_view(r@) == services_view(v@),
{
    let mut r: Vec<ServiceStatus> = Vec::new();
    let mut i: usize = 0;
    while i < v.len()
        invariant
            i <= v@.len(),
            r@.len() == i,
            forall|j: int| 0 <= j < i ==> #[trigger] r@[j]@ == v@[j]@,
        decreases v@.len() - i,
    {
        let s = v[i].clone();
        r.push(s);
        i = i + 1;
    }
    assert(services_view(r@) =~= services_view(v@));
    r
}

impl Clone for SidecarStatus {
    fn clone(&self) -> (r: Self)
        ensures
            r@ == self@,
    {
        SidecarStatus {
            profile: self.profile.clone(),
            penpot_public_uri: self.penpot_public_uri.clone(),
            repo_root: clone_opt_string(&self.repo_root),
            running: self.running,
            services: clone_services(&self.services),
            message: clone_opt_string(&self.message),
        }
    }
}

/// The service record of a probed endpoint: `running` when reachable, else
/// `unhealthy`; the detail is the probe's error, else its HTTP status.
pub open spec fn service_of(name: Seq<char>, endpoint: Seq<char>, probe: ProbeView) -> ServiceView {
    ServiceView {
        name,
        state: if probe.reachable {
            STATE_RUNNING@
        } else {
            STATE_UNHEALTHY@
        },
        endpoint: Some(endpoint),
        detail: match probe.error {
            Some(e) => Some(e),
            None => match probe.status {
                Some(s) => Some(HTTP_DETAIL_PREFIX@ + decimal(s as nat)),
                None => None,
            },
        },
    }
}

/// The status of a profile that could not be brought up, with the reason.
pub open spec fn failed_status_of(
    profile: SidecarProfile,
    penpot_uri: Seq<char>,
    repo_root: Option<Seq<char>>,
    message: Seq<char>,
) -> StatusView {
    StatusView {
        profile: profile_name(profile),
        penpot_public_uri: penpot_uri,
        repo_root,
        running: false,
        services: Seq::empty(),
        message: Some(message),
    }
}

pub fn service_from_probe(name: &str, endpoint: &str, probe: &ProbeResult) -> (s: ServiceStatus)
    ensures
        s@ == service_of(name@, endpoint@, probe@),
{
    let detail = match &probe.error {
        Some(e) => Some(e.clone()),
        None => match probe.status {
            Some(code) => Some(concat(HTTP_DETAIL_PREFIX, decimal_string(code as u64).as_str())),
            None => None,
        },
    };
    ServiceStatus {
        name: owned(name),
        state: if probe.reachable {
            owned(STATE_RUNNING)
        } else {
            owned(STATE_UNHEALTHY)
        },
        endpoint: Some(owned(endpoint)),
        detail,
    }
}

pub fn failed_status(
    profile: SidecarProfile,
    penpot_uri: &str,
    repo_root: &Option<String>,
    message: String,
) -> (s: SidecarStatus)
    ensures
        s@ == failed_status_of(profile, penpot_uri@, repo_root.deep_view(), message@),
{
    let s = SidecarStatus {
        profile: owned(profile.as_str()),
        penpot_public_uri: owned(penpot_uri),
        repo_root: clone_opt_string(repo_root),
        running: false,
        services: Vec::new(),
        message: Some(message),
    };
    assert(s@.services =~= Seq::<ServiceView>::empty());
    s
}

/// What the orchestrator keeps between runs: the profile and monorepo of the
/// last run, what it started and has not stopped, and the last status.
pub struct SidecarOrchestrator {
    profile: SidecarProfile,
    repo_root: Option<String>,
    started_docker: bool,
    /// The monorepo of the run that last started the docker stack.
    docker_repo: Option<String>,
    spawned_devenv: bool,
    /// Whether a local MCP server started by a run is still held.
    has_mcp_child: bool,
    last_status: SidecarStatus,
}

pub struct OrchestratorView {
    pub profile: SidecarProfile,
    pub repo_root: Option<Seq<char>>,
    pub started_docker: bool,
    pub docker_repo: Option<Seq<char>>,
    pub spawned_devenv: bool,
    pub has_mcp_child: bool,
    pub last_status: StatusView,
}

impl View for SidecarOrchestrator {
    type V = OrchestratorView;

    closed spec fn view(&self) -> OrchestratorView {
        OrchestratorView {
            profile: self.profile,
            repo_root: self.repo_root.deep_view(),
            started_docker: self.started_docker,
            docker_repo: self.docker_repo.deep_view(),
            spawned_devenv: self.spawned_devenv,
            has_mcp_child: self.has_mcp_child,
            last_status: self.last_status@,
        }
    }
}

/// What stopping asks the caller to do.
pub struct StopPlan {
    /// Kill and reap the local MCP server that a run started.
    pub kill_mcp_child: bool,
    /// Take down the docker stack that a run started, in the monorepo it
    /// was started from.
    pub compose_down_in: Option<String>,
}

pub struct StopPlanView {
    pub kill_mcp_child: bool,
    pub compose_down_in: Option<Seq<char>>,
}

impl View for StopPlan {
    type V = StopPlanView;

    open spec fn view(&self) -> StopPlanView {
        StopPlanView {
            kill_mcp_child: self.kill_mcp_child,
            compose_down_in: self.compose_down_in.deep_view(),
        }
    }
}

/// The orchestrator before any run: nothing started, status "not started".
pub open spec fn fresh_orchestrator(
    profile: SidecarProfile,
    penpot_uri: Seq<char>,
    repo_root: Option<Seq<char>>,
) -> OrchestratorView {
    OrchestratorView {
        profile,
        repo_root,
        started_docker: false,
        docker_repo: None,
        spawned_devenv: false,
        has_mcp_child: false,
        last_status: StatusView {
            profile: profile_name(profile),
            penpot_public_uri: penpot_uri,
            repo_root,
            running: false,
            services: Seq::empty(),
            message: Some(SIDECAR_NOT_STARTED@),
        },
    }
}

/// The orchestrator after a run of `profile` in `repo_root` gave `outcome`:
/// what the run started is added to what was started before (a docker stack
/// together with the monorepo it was started from), and its status becomes
/// the last status.
pub open spec fn recorded(
    o: OrchestratorView,
    profile: SidecarProfile,
    repo_root: Option<Seq<char>>,
    outcome: OutcomeView,
) -> OrchestratorView {
    OrchestratorView {
        profile,
        repo_root,
        started_docker: o.started_docker || outcome.started_docker,
        docker_repo: if outcome.started_docker {
            repo_root
        } else {
            o.docker_repo
        },
        spawned_devenv: o.spawned_devenv || outcome.spawned_devenv,
        has_mcp_child: o.has_mcp_child || outcome.mcp_started,
        last_status: outcome.status,
    }
}

/// What stopping asks for: the held MCP server, and the docker stack if a
/// run started it, in the monorepo it was started from.
pub open spec fn stop_plan(o: OrchestratorView) -> StopPlanView {
    StopPlanView {
        kill_mcp_child: o.has_mcp_child,
        compose_down_in: if o.started_docker {
            o.docker_repo
        } else {
            None
        },
    }
}

/// The orchestrator after stopping: nothing held, the docker stack counted
/// as down, and the last status says the sidecar stopped and is not running.
/// A devenv session is left running.
pub open spec fn stopped(o: OrchestratorView) -> OrchestratorView {
    OrchestratorView {
        started_docker: false,
        docker_repo: None,
        has_mcp_child: false,
        last_status: StatusView {
            running: false,
            message: Some(SIDECAR_STOPPED@),
            ..o.last_status
        },
        ..o
    }
}

impl SidecarOrchestrator {
    /// The orchestrator before any run, for the profile in force and the
    /// monorepo at `repo_root`.
    pub fn from_config(cfg: &AppConfig, env: &DesktopEnv, repo_root: Option<String>) -> (o: Self)
        ensures
            o@ == fresh_orchestrator(
                effective_profile(cfg@, env@),
                uri_for_profile(cfg@, effective_profile(cfg@, env@)),
                repo_root.deep_view(),
            ),
    {
        let profile = cfg.effective_sidecar_profile(env);
        let penpot_uri = cfg.penpot_uri_for_profile(&profile);
        let status = SidecarStatus {
            profile: owned(profile.as_str()),
            penpot_public_uri: penpot_uri,
            repo_root: clone_opt_string(&repo_root),
            running: false,
            services: Vec::new(),
            message: Some(owned(SIDECAR_NOT_STARTED)),
        };
        assert(status@.services =~= Seq::<ServiceView>::empty());
        SidecarOrchestrator {
            profile,
            repo_root,
            started_docker: false,
            docker_repo: None,
            spawned_devenv: false,
            has_mcp_child: false,
            last_status: status,
        }
    }

    /// The last status.
    pub fn status(&self) -> (s: SidecarStatus)
        ensures
            s@ == self@.last_status,
    {
        self.last_status.clone()
    }

    /// Records what a run of `profile` in `repo_root` brought about. Returns
    /// whether a local MCP server held from before must be killed, because
    /// the run started a new one.
    pub fn record_outcome(
        &mut self,
        profile: SidecarProfile,
        repo_root: Option<String>,
        outcome: SidecarOutcome,
    ) -> (kill_previous: bool)
        ensures
            final(self)@ == recorded(old(self)@, profile, repo_root.deep_view(), outcome@),
            kill_previous == (old(self)@.has_mcp_child && outcome@.mcp_started),
    {
        let kill_previous = self.has_mcp_child && outcome.mcp_started;
        self.profile = profile;
        if outcome.started_docker {
            self.started_docker = true;
            self.docker_repo = clone_opt_string(&repo_root);
        }
        self.repo_root = repo_root;
        if outcome.spawned_devenv {
            self.spawned_devenv = true;
        }
        if outcome.mcp_started {
            self.has_mcp_child = true;
        }
        self.last_status = outcome.status;
        kill_previous
    }

    /// Stops what the runs started: says what the caller is to kill and take
    /// down, and records the sidecar as stopped.
    pub fn stop_managed(&mut self) -> (plan: StopPlan)
        ensures
            plan@ == stop_plan(old(self)@),
            final(self)@ == stopped(old(self)@),
    {
        let kill_mcp_child = self.has_mcp_child;
        self.has_mcp_child = false;
        let compose_down_in = if self.started_docker {
            clone_opt_string(&self.docker_repo)
        } else {
            None
        };
        self.started_docker = false;
        self.docker_repo = None;
        self.last_status.message = Some(owned(SIDECAR_STOPPED));
        self.last_status.running = false;
        StopPlan { kill_mcp_child, compose_down_in }
    }
}

/// The monorepo a spawn works in, or the error that none is known.
pub fn repo_for_spawn(repo_root: &Option<String>) -> (r: Result<String, String>)
    ensures
        match repo_root {
            Some(d) => r is Ok && r->Ok_0@ == d@,
            None => r is Err && r->Err_0@ == REPO_NOT_FOUND@,
        },
{
    match repo_root {
        Some(d) => Ok(d.clone()),
        None => Err(owned(REPO_NOT_FOUND)),
    }
}

/// Whether devenv can be started: `manage.sh` must exist at `script_path`.
pub fn manage_script_check(exists: bool, script_path: &str) -> (r: Result<(), String>)
    ensures
        exists ==> r is Ok,
        !exists ==> r is Err && r->Err_0@ == MANAGE_NOT_FOUND_PREFIX@ + script_path@,
{
    if exists {
        Ok(())
    } else {
        Err(concat(MANAGE_NOT_FOUND_PREFIX, script_path))
    }
}

/// Whether the local MCP server can be started: its build must exist at
/// `entry_path`.
pub fn mcp_build_check(exists: bool, entry_path: &str) -> (r: Result<(), String>)
    ensures
        exists ==> r is Ok,
        !exists ==> r is Err && r->Err_0@ == MCP_BUILD_NOT_FOUND_PREFIX@ + entry_path@
            + MCP_BUILD_NOT_FOUND_SUFFIX@,
{
    if exists {
        Ok(())
    } else {
        let mut e = concat(MCP_BUILD_NOT_FOUND_PREFIX, entry_path);
        e.append(MCP_BUILD_NOT_FOUND_SUFFIX);
        Err(e)
    }
}

/// What a run of `manage.sh run-devenv-agentic` means for the devenv
/// profile: success started devenv; output that says it is already running
/// means nothing was started; anything else is a failure, reported with the
/// exit status and the output.
pub open spec fn devenv_verdict(success: bool, exit_status: Seq<char>, output: Seq<char>) -> Result<
    bool,
    Seq<char>,
> {
    if success {
        Ok(true)
    } else if contains_seq(output, ALREADY_RUNNING@) {
        Ok(false)
    } else {
        Err(DEVENV_FAILED_PREFIX@ + exit_status + DEVENV_FAILED_INFIX@ + output)
    }
}

/// Judges a finished `manage.sh run-devenv-agentic`, given whether it
/// succeeded, its exit status as text and its standard output followed by
/// its standard error.
pub fn devenv_spawn_verdict(success: bool, exit_status: &str, output: &str) -> (r: Result<
    bool,
    String,
>)
    ensures
        match r {
            Ok(b) => devenv_verdict(success, exit_status@, output@) == Ok::<bool, Seq<char>>(b),
            Err(e) => devenv_verdict(success, exit_status@, output@) == Err::<bool, Seq<char>>(e@),
        },
{
    if success {
        return Ok(true);
    }
    if contains(output, ALREADY_RUNNING) {
        return Ok(false);
    }
    let mut e = concat(DEVENV_FAILED_PREFIX, exit_status);
    e.append(DEVENV_FAILED_INFIX);
    e.append(output);
    Err(e)
}

/// Judges a finished `docker compose up -d`, given whether it succeeded and
/// its exit status as text.
pub fn docker_up_verdict(success: bool, exit_status: &str) -> (r: Result<(), String>)
    ensures
        success ==> r is Ok,
        !success ==> r is Err && r->Err_0@ == DOCKER_UP_FAILED_PREFIX@ + exit_status@,
{
    if success {
        Ok(())
    } else {
        Err(concat(DOCKER_UP_FAILED_PREFIX, exit_status))
    }
}

/// Stopping twice is stopping once: the second stop asks for nothing and
/// changes nothing.
pub proof fn lemma_stop_idempotent(o: OrchestratorView)
    ensures
        stop_plan(stopped(o)) == (StopPlanView { kill_mcp_child: false, compose_down_in: None }),
        stopped(stopped(o)) == stopped(o),
{
}

/// After stopping, the status reports the sidecar as stopped and not running,
/// and nothing is held that a later stop would have to kill or take down.
pub proof fn lemma_stopped_status(o: OrchestratorView)
    ensures
        !stopped(o).last_status.running,
        stopped(o).last_status.message == Some(SIDECAR_STOPPED@),
        !stopped(o).has_mcp_child,
        !stopped(o).started_docker,
        stopped(o).spawned_devenv == o.spawned_devenv,
        stopped(o).last_status.services == o.last_status.services,
{
}

/// What a run started stays recorded until a stop: recording another
/// outcome never forgets a started docker stack, devenv or MCP server, and
/// the status it reports is the run's.
pub proof fn lemma_record_keeps_started(
    o: OrchestratorView,
    profile: SidecarProfile,
    repo_root: Option<Seq<char>>,
    outcome: OutcomeView,
)
    ensures
        o.started_docker ==> recorded(o, profile, repo_root, outcome).started_docker,
        o.spawned_devenv ==> recorded(o, profile, repo_root, outcome).spawned_devenv,
        o.has_mcp_child ==> recorded(o, profile, repo_root, outcome).has_mcp_child,
        recorded(o, profile, repo_root, outcome).last_status == outcome.status,
{
}

/// The docker stack is taken down where it was started: a run that starts
/// it makes its monorepo the one that a stop takes down, and a later run
/// that does not start it, in another monorepo or in none, leaves that as
/// it was.
pub proof fn lemma_compose_down_where_started(
    o: OrchestratorView,
    profile: SidecarProfile,
    repo_root: Option<Seq<char>>,
    outcome: OutcomeView,
)
    ensures
        outcome.started_docker ==> stop_plan(recorded(o, profile, repo_root, outcome)).compose_down_in
            == repo_root,
        !outcome.started_docker ==> stop_plan(recorded(o, profile, repo_root, outcome)).compose_down_in
            == stop_plan(o).compose_down_in,
{
}

/// Stopping kills the local MCP server exactly when one is held, whatever
/// profile the runs since moved to: a server that a recorded run started is
/// killed at the next stop, however many other runs were recorded between.
pub proof fn lemma_stop_kills_held_mcp(
    o: OrchestratorView,
    profile: SidecarProfile,
    repo_root: Option<Seq<char>>,
    outcome: OutcomeView,
)
    ensures
        stop_plan(o).kill_mcp_child == o.has_mcp_child,
        outcome.mcp_started ==> recorded(o, profile, repo_root, outcome).has_mcp_child,
        o.has_mcp_child ==> stop_plan(recorded(o, profile, repo_root, outcome)).kill_mcp_child,
        outcome.mcp_started ==> stop_plan(recorded(o, profile, repo_root, outcome)).kill_mcp_child,
{
}

} // verus!
