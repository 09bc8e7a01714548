use std::collections::BTreeMap;

use mkflashdriverepo::config::Config;
use mkflashdriverepo::error::ProvisionError;
use mkflashdriverepo::provisioner::{Provisioner, Step};
use mkflashdriverepo::request::{Reply, Request, ToolCommand};

/// What lies at a path of the disk in memory.
#[derive(Clone, Debug, PartialEq, Eq)]
enum Kind {
    Dir,
    File,
}

/// A world in memory that carries out requests as a file system would.
#[derive(Clone, Debug, PartialEq, Eq)]
struct Bench {
    disk: BTreeMap<String, Kind>,
    launched: Vec<ToolCommand>,
    printed: Vec<String>,
    asked: Vec<Request>,
    removal_fails: bool,
    creation_fails: bool,
    launch_fails: bool,
    registration_fails: bool,
}

fn bench(dirs: &[&str], files: &[&str]) -> Bench {
    let mut disk = BTreeMap::new();
    for dir in dirs {
        disk.insert(dir.to_string(), Kind::Dir);
    }
    for file in files {
        disk.insert(file.to_string(), Kind::File);
    }
    Bench {
        disk,
        launched: Vec::new(),
        printed: Vec::new(),
        asked: Vec::new(),
        removal_fails: false,
        creation_fails: false,
        launch_fails: false,
        registration_fails: false,
    }
}

fn refused() -> Reply {
    Reply::Failed { detail: "refused".to_string() }
}

fn carry_out(world: &mut Bench, request: &Request) -> Reply {
    world.asked.push(request.clone());
    match request {
        Request::IsDir { path } => Reply::Found(world.disk.get(path) == Some(&Kind::Dir)),
        Request::Exists { path } => Reply::Found(world.disk.contains_key(path)),
        Request::RemoveTree { path } => {
            if world.removal_fails {
                return refused();
            }
            let below = format!("{}/", path);
            world.disk.retain(|other, _| other != path && !other.starts_with(&below));
            Reply::Done
        }
        Request::CreateDirs { path } => {
            if world.creation_fails {
                return refused();
            }
            for (at, _) in path.match_indices('/').filter(|(at, _)| *at > 0) {
                if !make_dir(world, &path[..at]) {
                    return refused();
                }
            }
            if !make_dir(world, path) {
                return refused();
            }
            Reply::Done
        }
        Request::Launch { command } => {
            let registers = command.dir.is_none();
            if (registers && world.registration_fails) || (!registers && world.launch_fails) {
                return refused();
            }
            world.launched.push(command.clone());
            Reply::Done
        }
        Request::Print { line } => {
            world.printed.push(line.clone());
            Reply::Done
        }
    }
}

/// Makes `path` a directory unless something else is there.
fn make_dir(world: &mut Bench, path: &str) -> bool {
    *world.disk.entry(path.to_string()).or_insert(Kind::Dir) == Kind::Dir
}

/// Runs the whole operation against the world in memory.
fn provision(config: &Config, world: &mut Bench) -> Result<(), ProvisionError> {
    let mut step = Provisioner::start(config.clone());
    loop {
        match step {
            Step::Finished { result } => return result,
            Step::Perform { request, then } => {
                let reply = carry_out(world, &request);
                step = then.advance(reply);
            }
        }
    }
}

/// What the initialising tool leaves in a directory.
fn populate(world: &mut Bench, target: &str) {
    world.disk.insert(format!("{}/HEAD", target), Kind::File);
    world.disk.insert(format!("{}/objects", target), Kind::Dir);
    world.disk.insert(format!("{}/refs", target), Kind::Dir);
    world.disk.insert(format!("{}/refs/heads", target), Kind::Dir);
}

fn config(base: &str, name: &str, force: bool, skip_origin_add: bool) -> Config {
    Config {
        name: name.to_string(),
        base_path: base.to_string(),
        working_dir: "/home/me/project".to_string(),
        force,
        skip_origin_add,
    }
}

fn git(args: &[&str], dir: Option<&str>) -> ToolCommand {
    ToolCommand {
        program: "git".to_string(),
        args: args.iter().map(|arg| arg.to_string()).collect(),
        dir: dir.map(|dir| dir.to_string()),
    }
}

fn mutates(request: &Request) -> bool {
    !matches!(request, Request::IsDir { .. } | Request::Exists { .. })
}

#[test]
fn new_repository_is_created_and_registered_as_origin() {
    let mut world = bench(&["/tmp", "/tmp/repos"], &[]);
    let result = provision(&config("/tmp/repos", "foo", false, false), &mut world);
    assert_eq!(result, Ok(()));
    assert_eq!(world.disk.get("/tmp/repos/foo.git"), Some(&Kind::Dir));
    assert_eq!(world.disk.len(), 3);
    assert_eq!(
        world.launched,
        vec![
            git(&["init", "--bare"], Some("/tmp/repos/foo.git")),
            git(&["remote", "add", "origin", "/tmp/repos/foo.git"], None),
        ]
    );
    assert!(world.printed.is_empty());
}

#[test]
fn existing_repository_is_refused_without_force() {
    let mut world = bench(&["/tmp", "/tmp/repos", "/tmp/repos/foo.git"], &["/tmp/repos/foo.git/HEAD"]);
    let before = world.disk.clone();
    let result = provision(&config("/tmp/repos", "foo", false, false), &mut world);
    assert_eq!(
        result,
        Err(ProvisionError::TargetAlreadyExists { path: "/tmp/repos/foo.git".to_string() })
    );
    let text = result.unwrap_err().describe();
    assert!(text.contains("exists"));
    assert!(text.contains("--force"));
    assert_eq!(world.disk, before);
    assert!(world.launched.is_empty());
    assert!(world.printed.is_empty());
    assert!(!world.asked.iter().any(mutates));
}

#[test]
fn existing_repository_is_replaced_with_force() {
    let mut world = bench(
        &["/tmp", "/tmp/repos", "/tmp/repos/foo.git", "/tmp/repos/foo.git/objects"],
        &["/tmp/repos/foo.git/HEAD", "/tmp/repos/foo.git/objects/pack", "/tmp/repos/foo.gitx"],
    );
    let result = provision(&config("/tmp/repos", "foo", true, false), &mut world);
    assert_eq!(result, Ok(()));
    assert_eq!(world.disk, bench(&["/tmp", "/tmp/repos", "/tmp/repos/foo.git"], &["/tmp/repos/foo.gitx"]).disk);
    assert_eq!(
        world.asked,
        vec![
            Request::IsDir { path: "/tmp/repos".to_string() },
            Request::Exists { path: "/tmp/repos/foo.git".to_string() },
            Request::RemoveTree { path: "/tmp/repos/foo.git".to_string() },
            Request::CreateDirs { path: "/tmp/repos/foo.git".to_string() },
            Request::Launch { command: git(&["init", "--bare"], Some("/tmp/repos/foo.git")) },
            Request::Launch {
                command: git(&["remote", "add", "origin", "/tmp/repos/foo.git"], None),
            },
        ]
    );
}

#[test]
fn missing_base_is_rejected_and_nothing_is_created() {
    let mut world = bench(&["/tmp"], &[]);
    let before = world.disk.clone();
    let result = provision(&config("/nonexistent", "foo", false, false), &mut world);
    assert_eq!(
        result,
        Err(ProvisionError::InvalidBasePath { path: "/nonexistent".to_string() })
    );
    assert!(result.unwrap_err().describe().contains("/nonexistent does not exist"));
    assert_eq!(world.disk, before);
    assert_eq!(world.asked, vec![Request::IsDir { path: "/nonexistent".to_string() }]);
    assert!(world.launched.is_empty());
    assert!(world.printed.is_empty());
}

#[test]
fn skipped_origin_prints_the_path_of_the_repository() {
    let mut world = bench(&["/tmp", "/tmp/repos"], &[]);
    let result = provision(&config("/tmp/repos", "bar", false, true), &mut world);
    assert_eq!(result, Ok(()));
    assert_eq!(world.disk.get("/tmp/repos/bar.git"), Some(&Kind::Dir));
    assert_eq!(world.launched, vec![git(&["init", "--bare"], Some("/tmp/repos/bar.git"))]);
    assert_eq!(world.printed, vec!["/tmp/repos/bar.git".to_string()]);
}

#[test]
fn base_that_is_a_file_is_rejected() {
    let mut world = bench(&["/tmp"], &["/tmp/repos"]);
    let before = world.disk.clone();
    for force in [false, true] {
        let result = provision(&config("/tmp/repos", "foo", force, false), &mut world);
        assert_eq!(
            result,
            Err(ProvisionError::InvalidBasePath { path: "/tmp/repos".to_string() })
        );
    }
    assert_eq!(world.disk, before);
    assert!(!world.asked.iter().any(mutates));
}

#[test]
fn fresh_target_is_created_and_nothing_is_deleted() {
    for force in [false, true] {
        let mut world = bench(&["/tmp", "/tmp/repos", "/tmp/repos/other.git"], &["/tmp/repos/notes"]);
        let before = world.disk.clone();
        let result = provision(&config("/tmp/repos", "foo", force, true), &mut world);
        assert_eq!(result, Ok(()));
        let mut expected = before.clone();
        expected.insert("/tmp/repos/foo.git".to_string(), Kind::Dir);
        assert_eq!(world.disk, expected);
        assert!(!world.asked.iter().any(|request| matches!(request, Request::RemoveTree { .. })));
    }
}

#[test]
fn target_that_is_a_file_is_in_the_way_too() {
    let mut world = bench(&["/tmp", "/tmp/repos"], &["/tmp/repos/foo.git"]);
    let before = world.disk.clone();
    let result = provision(&config("/tmp/repos", "foo", false, false), &mut world);
    assert_eq!(
        result,
        Err(ProvisionError::TargetAlreadyExists { path: "/tmp/repos/foo.git".to_string() })
    );
    assert_eq!(world.disk, before);
}

#[test]
fn forced_rerun_leaves_the_same_disk() {
    let settings = config("/tmp/repos", "foo", true, false);
    let mut world = bench(&["/tmp", "/tmp/repos"], &["/tmp/repos/notes"]);
    assert_eq!(provision(&settings, &mut world), Ok(()));
    let first = world.disk.clone();
    populate(&mut world, "/tmp/repos/foo.git");
    assert_ne!(world.disk, first);
    assert_eq!(provision(&settings, &mut world), Ok(()));
    assert_eq!(world.disk, first);
    assert_eq!(world.disk.get("/tmp/repos/foo.git"), Some(&Kind::Dir));
    assert!(!world.disk.keys().any(|path| path.starts_with("/tmp/repos/foo.git/")));
    let init = git(&["init", "--bare"], Some("/tmp/repos/foo.git"));
    let register = git(&["remote", "add", "origin", "/tmp/repos/foo.git"], None);
    assert_eq!(world.launched, vec![init.clone(), register.clone(), init, register]);
}

#[test]
fn failed_deletion_stops_the_run() {
    let mut world = bench(&["/tmp/repos", "/tmp/repos/foo.git"], &["/tmp/repos/foo.git/HEAD"]);
    world.removal_fails = true;
    let before = world.disk.clone();
    let result = provision(&config("/tmp/repos", "foo", true, false), &mut world);
    assert_eq!(result, Err(ProvisionError::DeletionFailed { detail: "refused".to_string() }));
    assert_eq!(world.disk, before);
    assert_eq!(world.asked.last(), Some(&Request::RemoveTree { path: "/tmp/repos/foo.git".to_string() }));
    assert!(world.launched.is_empty());
}

#[test]
fn failed_creation_stops_the_run() {
    let mut world = bench(&["/tmp/repos"], &[]);
    world.creation_fails = true;
    let result = provision(&config("/tmp/repos", "foo", false, false), &mut world);
    assert_eq!(result, Err(ProvisionError::CreationFailed { detail: "refused".to_string() }));
    assert_eq!(world.asked.last(), Some(&Request::CreateDirs { path: "/tmp/repos/foo.git".to_string() }));
    assert!(world.launched.is_empty());
    assert!(world.printed.is_empty());
}

#[test]
fn failed_launch_leaves_the_empty_directory() {
    let mut world = bench(&["/tmp", "/tmp/repos"], &[]);
    world.launch_fails = true;
    let result = provision(&config("/tmp/repos", "foo", false, true), &mut world);
    assert_eq!(
        result,
        Err(ProvisionError::ExternalToolLaunchFailed { detail: "refused".to_string() })
    );
    assert_eq!(world.disk, bench(&["/tmp", "/tmp/repos", "/tmp/repos/foo.git"], &[]).disk);
    assert!(world.launched.is_empty());
    assert!(world.printed.is_empty());
}

#[test]
fn failed_registration_does_not_fail_the_run() {
    let mut world = bench(&["/tmp/repos"], &[]);
    world.registration_fails = true;
    let result = provision(&config("/tmp/repos", "foo", false, false), &mut world);
    assert_eq!(result, Ok(()));
    assert_eq!(world.launched, vec![git(&["init", "--bare"], Some("/tmp/repos/foo.git"))]);
    assert_eq!(world.disk.get("/tmp/repos/foo.git"), Some(&Kind::Dir));
}

#[test]
fn every_run_ends_within_six_requests() {
    for force in [false, true] {
        for skip in [false, true] {
            for dirs in [vec![], vec!["/r"], vec!["/r", "/r/foo.git"]] {
                let mut world = bench(&dirs, &[]);
                let _ = provision(&config("/r", "foo", force, skip), &mut world);
                assert!(!world.asked.is_empty());
                assert!(world.asked.len() <= 6);
            }
        }
    }
}

#[test]
fn only_the_tree_of_the_target_is_touched() {
    let dirs = ["/r", "/r/foo.git", "/r/foo.git/refs", "/r/foo", "/r/foo.gitignore", "/r/bar.git"];
    let files = ["/r/foo.git/HEAD", "/r/foo.git.bak", "/r/bar.git/HEAD"];
    let mut world = bench(&dirs, &files);
    let before = world.disk.clone();
    assert_eq!(provision(&config("/r", "foo", true, true), &mut world), Ok(()));
    for (path, kind) in &before {
        if path != "/r/foo.git" && !path.starts_with("/r/foo.git/") {
            assert_eq!(world.disk.get(path), Some(kind));
        }
    }
    assert_eq!(world.disk.len(), before.len() - 2);
}

#[test]
fn name_with_a_separator_gets_the_directories_in_between() {
    let mut world = bench(&["/r"], &[]);
    assert_eq!(provision(&config("/r", "team/foo", false, true), &mut world), Ok(()));
    assert_eq!(world.disk, bench(&["/r", "/r/team", "/r/team/foo.git"], &[]).disk);
    assert_eq!(world.printed, vec!["/r/team/foo.git".to_string()]);

    assert_eq!(provision(&config("/r", "team/bar", false, true), &mut world), Ok(()));
    assert_eq!(
        world.disk,
        bench(&["/r", "/r/team", "/r/team/foo.git", "/r/team/bar.git"], &[]).disk
    );
}

#[test]
fn file_on_the_way_to_the_target_fails_the_creation() {
    let mut world = bench(&["/r"], &["/r/team"]);
    let before = world.disk.clone();
    let result = provision(&config("/r", "team/foo", true, false), &mut world);
    assert_eq!(result, Err(ProvisionError::CreationFailed { detail: "refused".to_string() }));
    assert_eq!(world.disk, before);
    assert!(world.launched.is_empty());
}

#[test]
fn empty_name_gives_a_directory_named_by_the_suffix() {
    let mut world = bench(&["/r"], &[]);
    assert_eq!(provision(&config("/r", "", false, true), &mut world), Ok(()));
    assert_eq!(world.disk, bench(&["/r", "/r/.git"], &[]).disk);
    assert_eq!(world.printed, vec!["/r/.git".to_string()]);
}

#[test]
fn relative_base_prints_the_absolute_path() {
    let mut world = bench(&["repos"], &[]);
    assert_eq!(provision(&config("repos", "bar", false, true), &mut world), Ok(()));
    assert_eq!(world.disk, bench(&["repos", "repos/bar.git"], &[]).disk);
    assert_eq!(
        world.launched,
        vec![git(&["init", "--bare"], Some("/home/me/project/repos/bar.git"))]
    );
    assert_eq!(world.printed, vec!["/home/me/project/repos/bar.git".to_string()]);
}

#[test]
fn relative_base_registers_the_absolute_path() {
    let mut world = bench(&["repos", "repos/foo.git"], &["repos/foo.git/HEAD"]);
    assert_eq!(provision(&config("repos", "foo", true, false), &mut world), Ok(()));
    assert_eq!(world.disk, bench(&["repos", "repos/foo.git"], &[]).disk);
    assert_eq!(
        world.launched,
        vec![
            git(&["init", "--bare"], Some("/home/me/project/repos/foo.git")),
            git(&["remote", "add", "origin", "/home/me/project/repos/foo.git"], None),
        ]
    );
    assert!(world.printed.is_empty());
}

#[test]
fn failed_launch_after_a_deletion_leaves_the_empty_directory() {
    let mut world = bench(&["/r", "/r/foo.git"], &["/r/foo.git/HEAD", "/r/notes"]);
    world.launch_fails = true;
    let result = provision(&config("/r", "foo", true, false), &mut world);
    assert_eq!(
        result,
        Err(ProvisionError::ExternalToolLaunchFailed { detail: "refused".to_string() })
    );
    assert_eq!(world.disk, bench(&["/r", "/r/foo.git"], &["/r/notes"]).disk);
    assert!(world.launched.is_empty());
}
