use penpot_desktop::sidecar::repo::{RepoAction, RepoSearch};

fn parent_of(dir: &str) -> Option<String> {
    if dir == "/" {
        return None;
    }
    match dir.rfind('/') {
        Some(0) => Some("/".to_string()),
        Some(i) => Some(dir[..i].to_string()),
        None => None,
    }
}

/// Runs a search over a tree in which `repos` hold the monorepo; returns
/// the result and the directories checked, in order.
fn search(
    explicit: Option<&str>,
    cwd: Option<&str>,
    exe_dir: Option<&str>,
    repos: &[&str],
) -> (Option<String>, Vec<String>) {
    let mut s = RepoSearch::begin(
        explicit.map(|d| d.to_string()),
        cwd.map(|d| d.to_string()),
        exe_dir.map(|d| d.to_string()),
    );
    let mut checked = Vec::new();
    for _ in 0..40 {
        match s.next_action() {
            RepoAction::Check(dir) => {
                let found = repos.contains(&dir.as_str());
                let parent = parent_of(&dir);
                checked.push(dir);
                s.step(found, parent);
            }
            RepoAction::Found(dir) => return (Some(dir), checked),
            RepoAction::NotFound => return (None, checked),
        }
    }
    panic!("search did not end");
}

#[test]
fn explicit_root_wins() {
    let (r, checked) = search(Some("/src/penpot"), Some("/home/u/penpot/desktop"), None, &[
        "/src/penpot",
        "/home/u/penpot",
    ]);
    assert_eq!(r.as_deref(), Some("/src/penpot"));
    assert_eq!(checked, vec!["/src/penpot"]);
}

#[test]
fn explicit_root_that_is_no_repo_falls_back_to_cwd() {
    let (r, checked) = search(Some("/nowhere"), Some("/home/u/penpot/desktop"), None, &[
        "/home/u/penpot",
    ]);
    assert_eq!(r.as_deref(), Some("/home/u/penpot"));
    assert_eq!(checked, vec!["/nowhere", "/home/u/penpot/desktop", "/home/u/penpot"]);
}

#[test]
fn walk_stops_at_the_filesystem_root() {
    let (r, checked) = search(None, Some("/a/b"), Some("/opt/app/bin"), &["/opt/app"]);
    assert_eq!(r.as_deref(), Some("/opt/app"));
    assert_eq!(checked, vec!["/a/b", "/a", "/", "/opt/app/bin", "/opt/app"]);
}

#[test]
fn walk_checks_eight_levels() {
    let deep = "/1/2/3/4/5/6/7/8/9";
    let (r, checked) = search(None, Some(deep), None, &["/1"]);
    assert_eq!(r, None);
    assert_eq!(checked.len(), 8);
    assert_eq!(checked[7], "/1/2");
    let (r, _) = search(None, Some(deep), None, &["/1/2"]);
    assert_eq!(r.as_deref(), Some("/1/2"));
}

#[test]
fn unreadable_cwd_ends_search() {
    let (r, checked) = search(None, None, Some("/opt/app"), &["/opt/app"]);
    assert_eq!(r, None);
    assert!(checked.is_empty());
    let (r, checked) = search(Some("/x"), None, Some("/opt/app"), &["/opt/app"]);
    assert_eq!(r, None);
    assert_eq!(checked, vec!["/x"]);
}

#[test]
fn nothing_found_anywhere() {
    let (r, checked) = search(None, Some("/a"), Some("/b"), &[]);
    assert_eq!(r, None);
    assert_eq!(checked, vec!["/a", "/", "/b", "/"]);
    let (r, _) = search(None, Some("/a"), None, &[]);
    assert_eq!(r, None);
}
