//! Supervision of the one backend process.
//!
//! The host owns the operating system: it probes the disk, spawns the child,
//! signals it and waits for it. This module owns the decisions in between:
//! whether a launch may go ahead and with which command line, what to say
//! about the environment file, what a spawn outcome means, and which process,
//! if any, a stop has to terminate.
//!
//! The process handle is a type parameter: the host puts its child-process
//! handle there, and nothing here looks inside it.
use crate::paths::{rendered_path, FilePath, PathError};
use crate::text::joined;
use vstd::prelude::*;

verus! {

/// A running backend: the host's handle to it and its process id.
#[derive(Debug, PartialEq, Eq)]
pub struct SupervisedProcess<H> {
    pub handle: H,
    pub pid: u32,
}

/// The single place where the running backend is kept. Empty means that no
/// backend is running under this supervisor.
///
/// The cell holds at most one process by construction. The host shares one
/// cell for the lifetime of the application and serialises access to it.
#[derive(Debug)]
pub struct ProcessCell<H> {
    slot: Option<SupervisedProcess<H>>,
}

impl<H> View for ProcessCell<H> {
    type V = Option<SupervisedProcess<H>>;

    closed spec fn view(&self) -> Option<SupervisedProcess<H>> {
        self.slot
    }
}

/// What a cell holds after `process` was stored in it, whatever it held.
pub open spec fn after_store<H>(
    held: Option<SupervisedProcess<H>>,
    process: SupervisedProcess<H>,
) -> Option<SupervisedProcess<H>> {
    Some(process)
}

/// What a cell holds after a stop, whatever it held: nothing.
pub open spec fn after_stop<H>(held: Option<SupervisedProcess<H>>) -> Option<SupervisedProcess<H>> {
    None
}

/// The process that a stop hands over for termination: the one held, if any.
pub open spec fn released_by_stop<H>(held: Option<SupervisedProcess<H>>) -> Option<
    SupervisedProcess<H>,
> {
    held
}

impl<H> ProcessCell<H> {
    /// An empty cell.
    pub fn new() -> (cell: Self)
        ensures
            cell@ is None,
    {
        ProcessCell { slot: None }
    }

    /// Whether a backend is held.
    pub fn is_running(&self) -> (running: bool)
        ensures
            running == (self@ is Some),
    {
        self.slot.is_some()
    }

    /// The process id of the backend held, if any.
    pub fn pid(&self) -> (pid: Option<u32>)
        ensures
            pid == match self@ {
                Some(process) => Some(process.pid),
                None => None,
            },
    {
        match &self.slot {
            Some(process) => Some(process.pid),
            None => None,
        }
    }

    /// Stores a started backend, replacing whatever was held, and hands back
    /// what was replaced.
    pub fn store(&mut self, process: SupervisedProcess<H>) -> (replaced: Option<
        SupervisedProcess<H>,
    >)
        ensures
            final(self)@ == after_store(old(self)@, process),
            replaced == old(self)@,
    {
        let replaced = self.slot.take();
        self.slot = Some(process);
        replaced
    }

    /// Empties the cell and hands over the backend that was held, for the
    /// host to terminate and wait for. On an empty cell nothing is handed
    /// over and nothing changes.
    pub fn stop(&mut self) -> (released: Option<SupervisedProcess<H>>)
        ensures
            final(self)@ == after_stop(old(self)@),
            released == released_by_stop(old(self)@),
    {
        self.slot.take()
    }
}

/// A stop on a cell that never held a process releases nothing and leaves
/// the cell as it was.
pub proof fn lemma_stop_before_start<H>(held: Option<SupervisedProcess<H>>)
    requires
        held is None,
    ensures
        released_by_stop(held) is None,
        after_stop(held) == held,
{
}

/// Stopping is idempotent: a second stop finds the cell empty, releases
/// nothing, and leaves the cell as the first stop left it.
pub proof fn lemma_stop_is_idempotent<H>(held: Option<SupervisedProcess<H>>)
    ensures
        after_stop(held) is None,
        released_by_stop(after_stop(held)) is None,
        after_stop(after_stop(held)) == after_stop(held),
{
}

/// After a store the cell holds exactly the stored process; the next stop
/// releases that process and leaves the cell empty.
pub proof fn lemma_store_then_stop<H>(
    held: Option<SupervisedProcess<H>>,
    process: SupervisedProcess<H>,
)
    ensures
        after_store(held, process) == Some(process),
        released_by_stop(after_store(held, process)) == Some(process),
        after_stop(after_store(held, process)) is None,
{
}

/// Why a start failed. Each of these aborts the launch of the application.
#[derive(Clone, Debug, PartialEq, Eq)]
pub enum StartError {
    /// The binary could not be located; carries the lookup's reason.
    NotResolvable(String),
    /// Nothing exists at the resolved location; carries the location.
    BinaryNotFound(FilePath),
    /// The operating system refused the launch; carries its reason.
    SpawnFailed(String),
}

/// The command line the host is to spawn.
#[derive(Clone, Debug, PartialEq, Eq)]
pub struct LaunchPlan {
    /// The program to run.
    pub program: FilePath,
    /// Its arguments.
    pub arguments: Vec<String>,
    /// Whether the child writes to the host's own output and error streams.
    pub inherit_output: bool,
}

/// What to tell the log about the optional environment file. None of these
/// stops a start: the backend finds the file by itself, or runs on defaults.
#[derive(Clone, Debug, PartialEq, Eq)]
pub enum ConfigNotice {
    /// The file's location could not be resolved.
    Unresolved,
    /// The file is there.
    Found(FilePath),
    /// The file is not there.
    Missing(FilePath),
}

/// The flag that puts the backend in HTTP-serving mode.
pub open spec fn serving_flag() -> Seq<char> {
    "--mode=http"@
}

/// The message of a start error, as shown to the user.
pub open spec fn start_message(error: StartError) -> Seq<char> {
    match error {
        StartError::NotResolvable(reason) => reason@,
        StartError::BinaryNotFound(path) => "Hyperion binary not found at "@ + rendered_path(
            path@,
        ),
        StartError::SpawnFailed(reason) => "Failed to start Hyperion server: "@ + reason@,
    }
}

/// Whether `plan` launches `binary`: that program, the serving flag as its
/// only argument, output inherited.
pub open spec fn launches(plan: LaunchPlan, binary: FilePath) -> bool {
    &&& plan.program == binary
    &&& plan.arguments@.len() == 1
    &&& plan.arguments@[0]@ == serving_flag()
    &&& plan.inherit_output
}

/// Whether `planned` is the decision on launching `binary`: a plan that
/// launches it exactly where something exists at its location, and otherwise
/// the error that carries the location.
pub open spec fn launch_decision(
    binary: FilePath,
    exists: bool,
    planned: Result<LaunchPlan, StartError>,
) -> bool {
    if exists {
        planned matches Ok(plan) && launches(plan, binary)
    } else {
        planned == Err::<LaunchPlan, StartError>(StartError::BinaryNotFound(binary))
    }
}

impl StartError {
    /// The message of this error, as shown to the user.
    pub fn message(&self) -> (text: String)
        ensures
            text@ == start_message(*self),
    {
        match self {
            StartError::NotResolvable(reason) => reason.clone(),
            StartError::BinaryNotFound(path) => {
                let shown = path.rendered();
                joined("Hyperion binary not found at ", shown.as_str())
            },
            StartError::SpawnFailed(reason) => joined(
                "Failed to start Hyperion server: ",
                reason.as_str(),
            ),
        }
    }
}

/// The first step of a start: the binary's location, or the reason why there
/// is none. The location is what the host probes next.
pub fn locate_binary(resolved: Result<FilePath, PathError>) -> (located: Result<
    FilePath,
    StartError,
>)
    ensures
        located == match resolved {
            Ok(path) => Ok::<FilePath, StartError>(path),
            Err(PathError::NotResolvable(reason)) => Err(StartError::NotResolvable(reason)),
        },
{
    match resolved {
        Ok(path) => Ok(path),
        Err(PathError::NotResolvable(reason)) => Err(StartError::NotResolvable(reason)),
    }
}

/// Decides the launch once the host has probed the binary's location.
///
/// Where nothing exists there, the start fails with the location and there
/// is no plan to spawn from. Otherwise the plan runs the binary with the
/// serving flag and inherited output; the environment file is not passed.
pub fn plan_launch(binary: FilePath, exists: bool) -> (planned: Result<LaunchPlan, StartError>)
    ensures
        launch_decision(binary, exists, planned),
{
    if !exists {
        return Err(StartError::BinaryNotFound(binary));
    }
    let mut arguments: Vec<String> = Vec::new();
    arguments.push("--mode=http".to_owned());
    Ok(LaunchPlan { program: binary, arguments, inherit_output: true })
}

/// Decides what to log about the environment file, from its resolution and
/// the host's probe of the location. `exists` is not looked at where the
/// location was not resolved.
pub fn config_notice(resolved: Result<FilePath, PathError>, exists: bool) -> (notice: ConfigNotice)
    ensures
        notice == match resolved {
            Ok(path) => if exists {
                ConfigNotice::Found(path)
            } else {
                ConfigNotice::Missing(path)
            },
            Err(_) => ConfigNotice::Unresolved,
        },
{
    match resolved {
        Ok(path) => if exists {
            ConfigNotice::Found(path)
        } else {
            ConfigNotice::Missing(path)
        },
        Err(_) => ConfigNotice::Unresolved,
    }
}

/// Decides how a start ends, from what the spawn returned: the process as it
/// came, or a spawn failure with the operating system's reason.
pub fn conclude_start<H>(spawned: Result<SupervisedProcess<H>, String>) -> (started: Result<
    SupervisedProcess<H>,
    StartError,
>)
    ensures
        started == match spawned {
            Ok(process) => Ok::<SupervisedProcess<H>, StartError>(process),
            Err(reason) => Err(StartError::SpawnFailed(reason)),
        },
{
    match spawned {
        Ok(process) => Ok(process),
        Err(reason) => Err(StartError::SpawnFailed(reason)),
    }
}

} // verus!
