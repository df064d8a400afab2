//! Finding the Penpot monorepo, as a state machine.
//!
//! The search tries the directory named by `PENPOT_REPO_ROOT`, then the
//! working directory and its ancestors, then the executable's directory and
//! its ancestors, eight levels each. The caller asks `RepoSearch::next_action`
//! which directory to check, checks it for the monorepo's markers, and hands
//! the answer and the directory's parent to `RepoSearch::step`, until the
//! action is `Found` or `NotFound`.
use vstd::prelude::*;

verus! {

/// How many directories one walk up the tree checks: the start and its
/// ancestors.
pub const WALK_LEVELS: u32 = 8;

/// Where a search stands.
#[derive(Debug, Clone, Copy, PartialEq, Eq, Structural)]
pub enum SearchPhase {
    /// Checking the directory the environment names.
    Explicit,
    /// Walking up from the working directory.
    WorkDir,
    /// Walking up from the executable's directory.
    ExeDir,
    Found,
    NotFound,
}

/// A search for the monorepo.
pub struct RepoSearch {
    phase: SearchPhase,
    /// The directory being checked, or the one found.
    current: String,
    /// How many directories the current walk may still check, this one
    /// included.
    remaining: u32,
    cwd: Option<String>,
    exe_dir: Option<String>,
}

pub struct RepoSearchView {
    pub phase: SearchPhase,
    pub current: Seq<char>,
    pub remaining: nat,
    pub cwd: Option<Seq<char>>,
    pub exe_dir: Option<Seq<char>>,
}

impl View for RepoSearch {
    type V = RepoSearchView;

    closed spec fn view(&self) -> RepoSearchView {
        RepoSearchView {
            phase: self.phase,
            current: self.current@,
            remaining: self.remaining as nat,
            cwd: self.cwd.deep_view(),
            exe_dir: self.exe_dir.deep_view(),
        }
    }
}

/// What the search asks for next.
pub enum RepoAction {
    /// Check this directory for the monorepo, and find its parent.
    Check(String),
    Found(String),
    NotFound,
}

pub enum RepoActionView {
    Check(Seq<char>),
    Found(Seq<char>),
    NotFound,
}

impl View for RepoAction {
    type V = RepoActionView;

    open spec fn view(&self) -> RepoActionView {
        match self {
            RepoAction::Check(d) => RepoActionView::Check(d@),
            RepoAction::Found(d) => RepoActionView::Found(d@),
            RepoAction::NotFound => RepoActionView::NotFound,
        }
    }
}

/// The search has ended without a monorepo.
pub open spec fn search_failed(s: RepoSearchView) -> RepoSearchView {
    RepoSearchView { phase: SearchPhase::NotFound, current: Seq::empty(), remaining: 0, ..s }
}

/// The walk up from the executable's directory, or the end of the search
/// where that directory is unknown.
pub open spec fn start_exe_walk(s: RepoSearchView) -> RepoSearchView {
    match s.exe_dir {
        Some(d) => RepoSearchView {
            phase: SearchPhase::ExeDir,
            current: d,
            remaining: WALK_LEVELS as nat,
            ..s
        },
        None => search_failed(s),
    }
}

/// The walk up from the working directory, or the end of the search where
/// the working directory could not be read.
pub open spec fn start_work_walk(s: RepoSearchView) -> RepoSearchView {
    match s.cwd {
        Some(d) => RepoSearchView {
            phase: SearchPhase::WorkDir,
            current: d,
            remaining: WALK_LEVELS as nat,
            ..s
        },
        None => search_failed(s),
    }
}

/// The search before any check.
pub open spec fn search_begin(
    explicit: Option<Seq<char>>,
    cwd: Option<Seq<char>>,
    exe_dir: Option<Seq<char>>,
) -> RepoSearchView {
    let s = RepoSearchView {
        phase: SearchPhase::Explicit,
        current: Seq::empty(),
        remaining: 1,
        cwd,
        exe_dir,
    };
    match explicit {
        Some(d) => RepoSearchView { current: d, ..s },
        None => start_work_walk(s),
    }
}

pub open spec fn search_action(s: RepoSearchView) -> RepoActionView {
    match s.phase {
        SearchPhase::Found => RepoActionView::Found(s.current),
        SearchPhase::NotFound => RepoActionView::NotFound,
        _ => RepoActionView::Check(s.current),
    }
}

/// One step up a walk, or what follows the walk once it is exhausted.
pub open spec fn walk_on(
    s: RepoSearchView,
    parent: Option<Seq<char>>,
    exhausted: RepoSearchView,
) -> RepoSearchView {
    match parent {
        Some(p) => if s.remaining > 1 {
            RepoSearchView { current: p, remaining: (s.remaining - 1) as nat, ..s }
        } else {
            exhausted
        },
        None => exhausted,
    }
}

/// The search after the current directory was checked: `is_repo` says
/// whether it holds the monorepo, `parent` is its parent directory.
pub open spec fn search_step(
    s: RepoSearchView,
    is_repo: bool,
    parent: Option<Seq<char>>,
) -> RepoSearchView {
    match s.phase {
        SearchPhase::Found | SearchPhase::NotFound => s,
        _ => if is_repo {
            RepoSearchView { phase: SearchPhase::Found, remaining: 0, ..s }
        } else {
            match s.phase {
                SearchPhase::Explicit => start_work_walk(s),
                SearchPhase::WorkDir => walk_on(s, parent, start_exe_walk(s)),
                _ => walk_on(s, parent, search_failed(s)),
            }
        },
    }
}

impl RepoSearch {
    /// Starts a search, given the directory the environment names, the
    /// working directory (`None` where it cannot be read) and the
    /// executable's directory (`None` where it is unknown).
    pub fn begin(explicit: Option<String>, cwd: Option<String>, exe_dir: Option<String>) -> (s:
        RepoSearch)
        ensures
            s@ == search_begin(explicit.deep_view(), cwd.deep_view(), exe_dir.deep_view()),
    {
        let mut s = RepoSearch {
            phase: SearchPhase::Explicit,
            current: String::new(),
            remaining: 1,
            cwd,
            exe_dir,
        };
        match explicit {
            Some(d) => {
                s.current = d;
            },
            None => {
                s.start_work_walk();
            },
        }
        s
    }

    fn fail(&mut self)
        ensures
            final(self)@ == search_failed(old(self)@),
    {
        self.phase = SearchPhase::NotFound;
        self.current = String::new();
        self.remaining = 0;
    }

    fn start_work_walk(&mut self)
        ensures
            final(self)@ == start_work_walk(old(self)@),
    {
        match &self.cwd {
            Some(d) => {
                self.current = d.clone();
                self.phase = SearchPhase::WorkDir;
                self.remaining = WALK_LEVELS;
            },
            None => self.fail(),
        }
    }

    fn start_exe_walk(&mut self)
        ensures
            final(self)@ == start_exe_walk(old(self)@),
    {
        match &self.exe_dir {
            Some(d) => {
                self.current = d.clone();
                self.phase = SearchPhase::ExeDir;
                self.remaining = WALK_LEVELS;
            },
            None => self.fail(),
        }
    }

    /// What the search asks for next.
    pub fn next_action(&self) -> (a: RepoAction)
        ensures
            a@ == search_action(self@),
    {
        match self.phase {
            SearchPhase::Found => RepoAction::Found(self.current.clone()),
            SearchPhase::NotFound => RepoAction::NotFound,
            _ => RepoAction::Check(self.current.clone()),
        }
    }

    /// Takes in the check of the directory asked for: whether it holds the
    /// monorepo, and its parent directory, if it has one.
    pub fn step(&mut self, is_repo: bool, parent: Option<String>)
        ensures
            final(self)@ == search_step(old(self)@, is_repo, parent.deep_view()),
    {
        match self.phase {
            SearchPhase::Found | SearchPhase::NotFound => {},
            SearchPhase::Explicit => {
                if is_repo {
                    self.phase = SearchPhase::Found;
                    self.remaining = 0;
                } else {
                    self.start_work_walk();
                }
            },
            SearchPhase::WorkDir | SearchPhase::ExeDir => {
                if is_repo {
                    self.phase = SearchPhase::Found;
                    self.remaining = 0;
                } else {
                    match parent {
                        Some(p) if self.remaining > 1 => {
                            self.current = p;
                            self.remaining = self.remaining - 1;
                        },
                        _ => {
                            if self.phase == SearchPhase::WorkDir {
                                self.start_exe_walk();
                            } else {
                                self.fail();
                            }
                        },
                    }
                }
            },
        }
    }
}

/// The nearest of `d` and its ancestors, `levels` directories in all, that
/// holds the monorepo; `parent` gives each directory's parent.
pub open spec fn walk_find(
    d: Seq<char>,
    levels: nat,
    is_repo: spec_fn(Seq<char>) -> bool,
    parent: spec_fn(Seq<char>) -> Option<Seq<char>>,
) -> Option<Seq<char>>
    decreases levels,
{
    if levels == 0 {
        None
    } else if is_repo(d) {
        Some(d)
    } else {
        match parent(d) {
            Some(p) => walk_find(p, (levels - 1) as nat, is_repo, parent),
            None => None,
        }
    }
}

/// Where the monorepo is found: the directory the environment names, if it
/// holds it; else, unless the working directory cannot be read, the nearest
/// of the working directory and its ancestors that holds it; else the
/// nearest of the executable's directory and its ancestors; else nowhere.
pub open spec fn search_result(
    explicit: Option<Seq<char>>,
    cwd: Option<Seq<char>>,
    exe_dir: Option<Seq<char>>,
    is_repo: spec_fn(Seq<char>) -> bool,
    parent: spec_fn(Seq<char>) -> Option<Seq<char>>,
) -> Option<Seq<char>> {
    if explicit is Some && is_repo(explicit->0) {
        explicit
    } else {
        match cwd {
            None => None,
            Some(c) => match walk_find(c, WALK_LEVELS as nat, is_repo, parent) {
                Some(r) => Some(r),
                None => match exe_dir {
                    Some(x) => walk_find(x, WALK_LEVELS as nat, is_repo, parent),
                    None => None,
                },
            },
        }
    }
}

/// The search after `n` steps, each answered from `is_repo` and `parent`.
pub open spec fn run_search(
    s: RepoSearchView,
    is_repo: spec_fn(Seq<char>) -> bool,
    parent: spec_fn(Seq<char>) -> Option<Seq<char>>,
    n: nat,
) -> RepoSearchView
    decreases n,
{
    if n == 0 {
        s
    } else {
        run_search(
            search_step(s, is_repo(s.current), parent(s.current)),
            is_repo,
            parent,
            (n - 1) as nat,
        )
    }
}

/// What the search ends with, for a result.
pub open spec fn final_action(r: Option<Seq<char>>) -> RepoActionView {
    match r {
        Some(d) => RepoActionView::Found(d),
        None => RepoActionView::NotFound,
    }
}

proof fn lemma_ended_search_stays(
    s: RepoSearchView,
    is_repo: spec_fn(Seq<char>) -> bool,
    parent: spec_fn(Seq<char>) -> Option<Seq<char>>,
    n: nat,
)
    requires
        s.phase == SearchPhase::Found || s.phase == SearchPhase::NotFound,
    ensures
        run_search(s, is_repo, parent, n) == s,
    decreases n,
{
    if n > 0 {
        lemma_ended_search_stays(s, is_repo, parent, (n - 1) as nat);
    }
}

proof fn lemma_exe_walk(
    s: RepoSearchView,
    is_repo: spec_fn(Seq<char>) -> bool,
    parent: spec_fn(Seq<char>) -> Option<Seq<char>>,
    n: nat,
)
    requires
        s.phase == SearchPhase::ExeDir,
        1 <= s.remaining <= n,
    ensures
        search_action(run_search(s, is_repo, parent, n)) == final_action(
            walk_find(s.current, s.remaining, is_repo, parent),
        ),
    decreases s.remaining,
{
    let next = search_step(s, is_repo(s.current), parent(s.current));
    assert(run_search(s, is_repo, parent, n) == run_search(next, is_repo, parent, (n - 1) as nat));
    if next.phase == SearchPhase::Found || next.phase == SearchPhase::NotFound {
        lemma_ended_search_stays(next, is_repo, parent, (n - 1) as nat);
        if !is_repo(s.current) && parent(s.current) is Some {
            assert(s.remaining == 1);
            assert(walk_find(parent(s.current)->0, 0, is_repo, parent) is None);
        }
    } else {
        lemma_exe_walk(next, is_repo, parent, (n - 1) as nat);
    }
}

proof fn lemma_work_walk(
    s: RepoSearchView,
    is_repo: spec_fn(Seq<char>) -> bool,
    parent: spec_fn(Seq<char>) -> Option<Seq<char>>,
    n: nat,
)
    requires
        s.phase == SearchPhase::WorkDir,
        1 <= s.remaining,
        s.remaining + WALK_LEVELS <= n,
    ensures
        search_action(run_search(s, is_repo, parent, n)) == match walk_find(
            s.current,
            s.remaining,
            is_repo,
            parent,
        ) {
            Some(r) => RepoActionView::Found(r),
            None => match s.exe_dir {
                Some(x) => final_action(walk_find(x, WALK_LEVELS as nat, is_repo, parent)),
                None => RepoActionView::NotFound,
            },
        },
    decreases s.remaining,
{
    let next = search_step(s, is_repo(s.current), parent(s.current));
    assert(run_search(s, is_repo, parent, n) == run_search(next, is_repo, parent, (n - 1) as nat));
    if next.phase == SearchPhase::Found || next.phase == SearchPhase::NotFound {
        lemma_ended_search_stays(next, is_repo, parent, (n - 1) as nat);
        if !is_repo(s.current) && parent(s.current) is Some {
            assert(s.remaining == 1);
            assert(walk_find(parent(s.current)->0, 0, is_repo, parent) is None);
        }
    } else if next.phase == SearchPhase::ExeDir {
        lemma_exe_walk(next, is_repo, parent, (n - 1) as nat);
        if parent(s.current) is Some {
            assert(s.remaining == 1);
            assert(walk_find(parent(s.current)->0, 0, is_repo, parent) is None);
        }
    } else {
        lemma_work_walk(next, is_repo, parent, (n - 1) as nat);
    }
}

/// The search finds the monorepo where `search_result` says, for every tree
/// of directories: after at most seventeen checks (the named directory and
/// two walks of eight) it has found that directory, or ended without one,
/// also where the working directory cannot be read.
pub proof fn lemma_search_result(
    explicit: Option<Seq<char>>,
    cwd: Option<Seq<char>>,
    exe_dir: Option<Seq<char>>,
    is_repo: spec_fn(Seq<char>) -> bool,
    parent: spec_fn(Seq<char>) -> Option<Seq<char>>,
    n: nat,
)
    requires
        n >= 1 + 2 * WALK_LEVELS,
    ensures
        search_action(run_search(search_begin(explicit, cwd, exe_dir), is_repo, parent, n))
            == final_action(search_result(explicit, cwd, exe_dir, is_repo, parent)),
{
    let s0 = search_begin(explicit, cwd, exe_dir);
    if s0.phase == SearchPhase::Explicit {
        let s1 = search_step(s0, is_repo(s0.current), parent(s0.current));
        assert(run_search(s0, is_repo, parent, n) == run_search(s1, is_repo, parent, (n - 1) as nat));
        if s1.phase == SearchPhase::WorkDir {
            lemma_work_walk(s1, is_repo, parent, (n - 1) as nat);
        } else {
            lemma_ended_search_stays(s1, is_repo, parent, (n - 1) as nat);
        }
    } else if s0.phase == SearchPhase::WorkDir {
        lemma_work_walk(s0, is_repo, parent, n);
    } else {
        lemma_ended_search_stays(s0, is_repo, parent, n);
    }
}

} // verus!
