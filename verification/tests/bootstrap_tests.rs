use kade_ide::bootstrap::{
    directory_label, init_app, role_at, BootAction, BootEvent, BootPhase, Bootstrap, LOGS_DIR,
};
use kade_ide::error::Error;
use kade_ide::paths::{resolve_from, ResolvedPath, StorageRole};
use kade_ide::provision::{ensure_dir_exists, DirAction, DirEvent, DirState, PathStatus};
use std::collections::BTreeSet;
use std::path::{Path, PathBuf};

/// The directories that exist, and what was asked in which order.
struct World {
    dirs: BTreeSet<PathBuf>,
    files: BTreeSet<PathBuf>,
    unresolvable: Vec<StorageRole>,
    asked: Vec<String>,
}

impl World {
    fn new() -> World {
        World {
            dirs: BTreeSet::new(),
            files: BTreeSet::new(),
            unresolvable: Vec::new(),
            asked: Vec::new(),
        }
    }

    fn base(role: StorageRole) -> PathBuf {
        match role {
            StorageRole::Config => PathBuf::from("/home/alice/.config"),
            StorageRole::Data => PathBuf::from("/home/alice/.local/share"),
            StorageRole::Cache => PathBuf::from("/home/alice/.cache"),
            StorageRole::LocalData => PathBuf::from("/home/alice/.local/share"),
        }
    }

    fn resolve(&mut self, role: StorageRole) -> Result<ResolvedPath, Error> {
        self.asked.push(format!("resolve {:?}", role));
        if self.unresolvable.contains(&role) {
            resolve_from(role, None)
        } else {
            resolve_from(role, Some(World::base(role)))
        }
    }

    fn provision(&mut self, path: &Path) -> Result<(), Error> {
        self.asked.push(format!("provision {}", path.display()));
        let text = path.display().to_string();
        let mut state = DirState::Start;
        let mut event = DirEvent::Begin;
        loop {
            let (next, action) = ensure_dir_exists(&text, state, event);
            state = next;
            event = match action {
                DirAction::Probe => {
                    let is_dir = self.dirs.contains(path);
                    let is_file = self.files.contains(path);
                    DirEvent::Probed(PathStatus::observe(is_dir || is_file, is_dir))
                }
                DirAction::Create => {
                    self.dirs.insert(path.to_path_buf());
                    DirEvent::Created(Ok(()))
                }
                DirAction::Finish(outcome) => return outcome,
                DirAction::Nothing => unreachable!(),
            };
        }
    }

    fn boot(&mut self) -> Result<Vec<PathBuf>, Error> {
        let mut state = Bootstrap::new();
        let mut event = BootEvent::Start;
        loop {
            let (next, action) = state.step(event);
            state = next;
            event = match action {
                BootAction::Resolve(role) => BootEvent::Resolved(self.resolve(role)),
                BootAction::Provision(dir) => {
                    BootEvent::Provisioned(self.provision(&dir.to_path_buf()))
                }
                BootAction::Finish(dirs) => {
                    assert_eq!(state.phase(), BootPhase::Finished);
                    return Ok(dirs.iter().map(|d| d.to_path_buf()).collect());
                }
                BootAction::Fail(e) => {
                    assert_eq!(state.phase(), BootPhase::Failed);
                    return Err(e);
                }
                BootAction::Nothing => unreachable!(),
            };
        }
    }
}

#[test]
fn bootstrap_provisions_four_directories_in_order() {
    let mut world = World::new();
    let dirs = world.boot().unwrap();
    assert_eq!(
        dirs,
        vec![
            PathBuf::from("/home/alice/.local/share/kade-ide"),
            PathBuf::from("/home/alice/.config/kade-ide"),
            PathBuf::from("/home/alice/.cache/kade-ide"),
            PathBuf::from("/home/alice/.local/share/kade-ide/logs"),
        ]
    );
    assert_eq!(
        world.asked,
        vec![
            "resolve Data",
            "provision /home/alice/.local/share/kade-ide",
            "resolve Config",
            "provision /home/alice/.config/kade-ide",
            "resolve Cache",
            "provision /home/alice/.cache/kade-ide",
            "resolve LocalData",
            "provision /home/alice/.local/share/kade-ide/logs",
        ]
    );
    for dir in dirs {
        assert!(world.dirs.contains(&dir));
    }
}

#[test]
fn bootstrap_twice_changes_nothing_more() {
    let mut world = World::new();
    let first = world.boot().unwrap();
    let after_first = world.dirs.clone();
    let second = world.boot().unwrap();
    assert_eq!(first, second);
    assert_eq!(world.dirs, after_first);
}

#[test]
fn second_resolution_failing_leaves_the_first_directory() {
    let mut world = World::new();
    world.unresolvable.push(StorageRole::Config);
    match world.boot() {
        Err(Error::Config(message)) => assert_eq!(message, "Failed to get config directory"),
        other => panic!("unexpected {:?}", other),
    }
    assert!(world.dirs.contains(Path::new("/home/alice/.local/share/kade-ide")));
    assert_eq!(world.dirs.len(), 1);
    assert_eq!(
        world.asked,
        vec!["resolve Data", "provision /home/alice/.local/share/kade-ide", "resolve Config"]
    );
}

#[test]
fn first_resolution_failing_touches_nothing() {
    let mut world = World::new();
    world.unresolvable.push(StorageRole::Data);
    match world.boot() {
        Err(Error::Config(message)) => assert_eq!(message, "Failed to get data directory"),
        other => panic!("unexpected {:?}", other),
    }
    assert!(world.dirs.is_empty());
    assert_eq!(world.asked, vec!["resolve Data"]);
}

#[test]
fn failing_provisioning_ends_the_sequence() {
    let mut world = World::new();
    world.files.insert(PathBuf::from("/home/alice/.cache/kade-ide"));
    match world.boot() {
        Err(Error::Custom(message)) => assert_eq!(
            message,
            "path exists but is not a directory: /home/alice/.cache/kade-ide"
        ),
        other => panic!("unexpected {:?}", other),
    }
    assert_eq!(world.dirs.len(), 2);
    assert!(!world.asked.contains(&String::from("resolve LocalData")));
}

#[test]
fn failure_is_handed_on_unchanged() {
    let (state, _) = Bootstrap::new().step(BootEvent::Start);
    let (state, _) =
        state.step(BootEvent::Resolved(resolve_from(StorageRole::Data, Some(PathBuf::from("/d")))));
    let denied = std::io::Error::new(std::io::ErrorKind::PermissionDenied, "denied");
    let (state, action) = state.step(BootEvent::Provisioned(Err(Error::from(denied))));
    assert_eq!(state.phase(), BootPhase::Failed);
    assert_eq!(state.done_count(), 0);
    match action {
        BootAction::Fail(Error::Io(inner)) => {
            assert_eq!(inner.kind(), std::io::ErrorKind::PermissionDenied);
            assert_eq!(inner.to_string(), "denied");
        }
        other => panic!("unexpected {:?}", other),
    }
    let (state, action) = state.step(BootEvent::Start);
    assert_eq!(state.phase(), BootPhase::Failed);
    assert!(matches!(action, BootAction::Nothing));
    let (state, action) = init_app(state, BootEvent::Provisioned(Ok(())));
    assert_eq!(state.phase(), BootPhase::Failed);
    assert!(matches!(action, BootAction::Nothing));
}

#[test]
fn events_out_of_turn_are_ignored() {
    let state = Bootstrap::new();
    assert_eq!(state.phase(), BootPhase::Idle);
    let (state, action) = init_app(state, BootEvent::Provisioned(Ok(())));
    assert_eq!(state.phase(), BootPhase::Idle);
    assert!(matches!(action, BootAction::Nothing));
    let (state, action) = state.step(BootEvent::Start);
    assert_eq!(state.phase(), BootPhase::Resolving);
    assert!(matches!(action, BootAction::Resolve(StorageRole::Data)));
    let (state, action) = state.step(BootEvent::Start);
    assert_eq!(state.phase(), BootPhase::Resolving);
    assert_eq!(state.done_count(), 0);
    assert!(matches!(action, BootAction::Nothing));
}

#[test]
fn logs_live_below_the_local_data() {
    assert_eq!(LOGS_DIR, "logs");
    let mut state = Bootstrap::new();
    let mut event = BootEvent::Start;
    let mut provisioned: Vec<ResolvedPath> = Vec::new();
    loop {
        let (next, action) = state.step(event);
        state = next;
        event = match action {
            BootAction::Resolve(role) => {
                BootEvent::Resolved(resolve_from(role, Some(PathBuf::from("/base"))))
            }
            BootAction::Provision(dir) => {
                provisioned.push(dir);
                BootEvent::Provisioned(Ok(()))
            }
            BootAction::Finish(dirs) => {
                assert_eq!(dirs.len(), 4);
                for (dir, asked) in dirs.iter().zip(provisioned.iter()) {
                    assert_eq!(dir.base, asked.base);
                    assert_eq!(dir.segments, asked.segments);
                }
                break;
            }
            other => panic!("unexpected {:?}", other),
        };
    }
    assert_eq!(provisioned[0].segments, vec![String::from("kade-ide")]);
    assert_eq!(provisioned[1].segments, vec![String::from("kade-ide")]);
    assert_eq!(provisioned[2].segments, vec![String::from("kade-ide")]);
    assert_eq!(provisioned[3].segments, vec![String::from("kade-ide"), String::from("logs")]);
    assert_eq!(state.done_count(), 0);
}

#[test]
fn order_and_labels() {
    assert_eq!(role_at(0), Some(StorageRole::Data));
    assert_eq!(role_at(1), Some(StorageRole::Config));
    assert_eq!(role_at(2), Some(StorageRole::Cache));
    assert_eq!(role_at(3), Some(StorageRole::LocalData));
    assert_eq!(role_at(4), None);
    assert_eq!(role_at(usize::MAX), None);
    assert_eq!(directory_label(StorageRole::Data), "App data directory");
    assert_eq!(directory_label(StorageRole::Config), "Config directory");
    assert_eq!(directory_label(StorageRole::Cache), "Cache directory");
    assert_eq!(directory_label(StorageRole::LocalData), "Logs directory");
}

#[test]
fn init_app_asks_the_platform_itself() {
    let (state, action) = init_app(Bootstrap::new(), BootEvent::Start);
    match (action, dirs::data_dir()) {
        (BootAction::Provision(dir), Some(base)) => {
            assert_eq!(state.phase(), BootPhase::Provisioning);
            assert_eq!(dir.base, base);
            assert_eq!(dir.to_path_buf(), base.join("kade-ide"));
        }
        (BootAction::Fail(Error::Config(message)), None) => {
            assert_eq!(state.phase(), BootPhase::Failed);
            assert_eq!(message, "Failed to get data directory");
        }
        (action, base) => panic!("unexpected {:?} for {:?}", action, base),
    }
}

#[test]
fn init_app_runs_through_the_four_roles() {
    let bases =
        [dirs::data_dir(), dirs::config_dir(), dirs::cache_dir(), dirs::data_local_dir()];
    let mut expected: Vec<PathBuf> = Vec::new();
    for (index, base) in bases.iter().enumerate() {
        match base {
            Some(base) if index == 3 => expected.push(base.join("kade-ide").join("logs")),
            Some(base) => expected.push(base.join("kade-ide")),
            None => break,
        }
    }
    let mut asked: Vec<PathBuf> = Vec::new();
    let mut state = Bootstrap::new();
    let mut event = BootEvent::Start;
    let finished = loop {
        let (next, action) = init_app(state, event);
        state = next;
        event = match action {
            BootAction::Provision(dir) => {
                asked.push(dir.to_path_buf());
                BootEvent::Provisioned(Ok(()))
            }
            BootAction::Finish(dirs) => {
                let handed: Vec<PathBuf> = dirs.iter().map(|d| d.to_path_buf()).collect();
                assert_eq!(handed, expected);
                break true;
            }
            BootAction::Fail(Error::Config(_)) => break false,
            other => panic!("unexpected {:?}", other),
        };
    };
    assert_eq!(asked, expected);
    assert_eq!(finished, expected.len() == 4);
    assert_eq!(state.phase(), if finished { BootPhase::Finished } else { BootPhase::Failed });
}

#[test]
fn init_app_stops_at_a_failed_directory() {
    let (state, action) = init_app(Bootstrap::new(), BootEvent::Start);
    if let BootAction::Provision(_) = action {
        let denied = std::io::Error::new(std::io::ErrorKind::PermissionDenied, "denied");
        let (state, action) = init_app(state, BootEvent::Provisioned(Err(Error::from(denied))));
        assert_eq!(state.phase(), BootPhase::Failed);
        assert_eq!(state.done_count(), 0);
        assert!(matches!(action, BootAction::Fail(Error::Io(_))));
        let (state, action) = init_app(state, BootEvent::Provisioned(Ok(())));
        assert_eq!(state.phase(), BootPhase::Failed);
        assert!(matches!(action, BootAction::Nothing));
    }
}
