use hyperion_desktop::paths::{FilePath, PathError};
use hyperion_desktop::supervisor::{
    conclude_start, config_notice, locate_binary, plan_launch, ConfigNotice, LaunchPlan,
    ProcessCell, StartError, SupervisedProcess,
};
use std::cell::Cell;
use std::rc::Rc;

/// Stands in for a child process: records whether it was killed and waited for.
#[derive(Debug, PartialEq, Eq)]
struct FakeChild {
    alive: Rc<Cell<bool>>,
    reaped: Rc<Cell<bool>>,
}

impl FakeChild {
    fn kill(&mut self) {
        self.alive.set(false);
    }

    fn wait(&mut self) {
        self.reaped.set(true);
    }
}

/// Stands in for the operating system's process table.
struct FakeSystem {
    spawned: Cell<u32>,
    alive: Rc<Cell<bool>>,
    reaped: Rc<Cell<bool>>,
}

impl FakeSystem {
    fn new() -> Self {
        FakeSystem {
            spawned: Cell::new(0),
            alive: Rc::new(Cell::new(false)),
            reaped: Rc::new(Cell::new(false)),
        }
    }

    fn spawn(&self, _plan: &LaunchPlan) -> Result<SupervisedProcess<FakeChild>, String> {
        self.spawned.set(self.spawned.get() + 1);
        self.alive.set(true);
        Ok(SupervisedProcess {
            handle: FakeChild { alive: self.alive.clone(), reaped: self.reaped.clone() },
            pid: 4242,
        })
    }
}

/// Runs a start against the fake system, the way a host would.
fn start_on(
    system: &FakeSystem,
    cell: &mut ProcessCell<FakeChild>,
    binary: Result<FilePath, PathError>,
    exists: bool,
) -> Result<u32, StartError> {
    let located = locate_binary(binary)?;
    let plan = plan_launch(located, exists)?;
    let started = conclude_start(system.spawn(&plan))?;
    let pid = started.pid;
    cell.store(started);
    Ok(pid)
}

/// Runs a stop against the fake system, the way a host would.
fn stop_on(cell: &mut ProcessCell<FakeChild>) -> bool {
    match cell.stop() {
        Some(mut running) => {
            running.handle.kill();
            running.handle.wait();
            true
        }
        None => false,
    }
}

fn packaged_binary() -> FilePath {
    FilePath {
        base: "/opt/hyperion/resources".to_string(),
        from_parent: false,
        segments: vec!["hyper".to_string()],
    }
}

fn development_config() -> FilePath {
    FilePath {
        base: "/w/desktop-app".to_string(),
        from_parent: true,
        segments: vec!["bin".to_string(), ".env.hyper".to_string()],
    }
}

fn numbered(pid: u32) -> SupervisedProcess<u8> {
    SupervisedProcess { handle: 0, pid }
}

#[test]
fn new_cell_is_empty() {
    let cell: ProcessCell<u8> = ProcessCell::new();
    assert!(!cell.is_running());
    assert_eq!(cell.pid(), None);
}

#[test]
fn stop_without_start_does_nothing() {
    let mut cell: ProcessCell<FakeChild> = ProcessCell::new();
    assert!(!stop_on(&mut cell));
    assert!(!cell.is_running());
    assert_eq!(cell.pid(), None);
}

#[test]
fn stop_twice_acts_once() {
    let system = FakeSystem::new();
    let mut cell: ProcessCell<FakeChild> = ProcessCell::new();
    assert_eq!(start_on(&system, &mut cell, Ok(packaged_binary()), true), Ok(4242));
    assert!(stop_on(&mut cell));
    assert!(!stop_on(&mut cell));
    assert!(!cell.is_running());
}

#[test]
fn start_fills_the_cell_and_stop_empties_it() {
    let system = FakeSystem::new();
    let mut cell: ProcessCell<FakeChild> = ProcessCell::new();
    assert_eq!(start_on(&system, &mut cell, Ok(packaged_binary()), true), Ok(4242));
    assert_eq!(system.spawned.get(), 1);
    assert!(cell.is_running());
    assert_eq!(cell.pid(), Some(4242));
    assert!(system.alive.get());

    assert!(stop_on(&mut cell));
    assert!(!cell.is_running());
    assert_eq!(cell.pid(), None);
    assert!(!system.alive.get());
    assert!(system.reaped.get());
}

#[test]
fn stop_hands_over_the_process_that_was_stored() {
    let mut cell: ProcessCell<u8> = ProcessCell::new();
    assert_eq!(cell.store(SupervisedProcess { handle: 9, pid: 77 }), None);
    assert_eq!(cell.stop(), Some(SupervisedProcess { handle: 9, pid: 77 }));
    assert_eq!(cell.stop(), None);
}

#[test]
fn store_replaces_the_process_held() {
    let mut cell: ProcessCell<u8> = ProcessCell::new();
    assert_eq!(cell.store(numbered(1)), None);
    assert_eq!(cell.store(numbered(2)), Some(numbered(1)));
    assert_eq!(cell.pid(), Some(2));
    assert_eq!(cell.stop(), Some(numbered(2)));
    assert!(!cell.is_running());
}

#[test]
fn cell_can_be_filled_again_after_a_stop() {
    let mut cell: ProcessCell<u8> = ProcessCell::new();
    cell.store(numbered(1));
    cell.stop();
    assert_eq!(cell.store(numbered(3)), None);
    assert_eq!(cell.pid(), Some(3));
}

#[test]
fn missing_binary_fails_before_any_spawn() {
    let system = FakeSystem::new();
    let mut cell: ProcessCell<FakeChild> = ProcessCell::new();
    let outcome = start_on(&system, &mut cell, Ok(packaged_binary()), false);
    assert_eq!(outcome, Err(StartError::BinaryNotFound(packaged_binary())));
    assert_eq!(system.spawned.get(), 0);
    assert!(!system.alive.get());
    assert!(!cell.is_running());
}

#[test]
fn missing_binary_yields_no_plan() {
    assert_eq!(
        plan_launch(packaged_binary(), false),
        Err(StartError::BinaryNotFound(packaged_binary()))
    );
}

#[test]
fn existing_binary_is_launched_in_serving_mode() {
    assert_eq!(
        plan_launch(packaged_binary(), true),
        Ok(LaunchPlan {
            program: packaged_binary(),
            arguments: vec!["--mode=http".to_string()],
            inherit_output: true,
        })
    );
}

#[test]
fn unresolved_binary_fails_before_any_spawn() {
    let system = FakeSystem::new();
    let mut cell: ProcessCell<FakeChild> = ProcessCell::new();
    let unresolved = Err(PathError::NotResolvable("no resource directory".to_string()));
    let outcome = start_on(&system, &mut cell, unresolved, true);
    assert_eq!(outcome, Err(StartError::NotResolvable("no resource directory".to_string())));
    assert_eq!(system.spawned.get(), 0);
    assert!(!cell.is_running());
}

#[test]
fn located_binary_is_passed_on() {
    assert_eq!(locate_binary(Ok(packaged_binary())), Ok(packaged_binary()));
}

#[test]
fn spawn_failure_carries_the_reason() {
    let refused: Result<SupervisedProcess<u8>, String> = Err("permission denied".to_string());
    assert_eq!(
        conclude_start(refused),
        Err(StartError::SpawnFailed("permission denied".to_string()))
    );
}

#[test]
fn spawned_process_is_passed_on() {
    assert_eq!(conclude_start(Ok(numbered(12))), Ok(numbered(12)));
}

#[test]
fn present_config_is_reported_found() {
    assert_eq!(
        config_notice(Ok(development_config()), true),
        ConfigNotice::Found(development_config())
    );
}

#[test]
fn absent_config_is_reported_missing() {
    assert_eq!(
        config_notice(Ok(development_config()), false),
        ConfigNotice::Missing(development_config())
    );
}

#[test]
fn unresolved_config_is_reported_so_whatever_the_probe() {
    let unresolved = || Err(PathError::NotResolvable("gone".to_string()));
    assert_eq!(config_notice(unresolved(), false), ConfigNotice::Unresolved);
    assert_eq!(config_notice(unresolved(), true), ConfigNotice::Unresolved);
}

#[test]
fn absent_config_does_not_stop_a_start() {
    let system = FakeSystem::new();
    let mut cell: ProcessCell<FakeChild> = ProcessCell::new();
    let notice = config_notice(Ok(development_config()), false);
    assert_eq!(notice, ConfigNotice::Missing(development_config()));
    assert_eq!(start_on(&system, &mut cell, Ok(packaged_binary()), true), Ok(4242));
    assert!(cell.is_running());
}

#[test]
fn not_resolvable_message_is_the_reason() {
    let error = StartError::NotResolvable("unknown path".to_string());
    assert_eq!(error.message(), "unknown path");
}

#[test]
fn binary_not_found_message_names_the_location() {
    let error = StartError::BinaryNotFound(packaged_binary());
    assert_eq!(error.message(), "Hyperion binary not found at /opt/hyperion/resources/hyper");
}

#[test]
fn spawn_failed_message_carries_the_reason() {
    let error = StartError::SpawnFailed("exec format error".to_string());
    assert_eq!(error.message(), "Failed to start Hyperion server: exec format error");
}
