use vstd::prelude::*;

use crate::locate::{first_found, launch_path, locate_backend, platform_executable_name};
use crate::status::{ShellError, Status};

verus! {

/// Holds the handle of the one backend process, if any, of type `H`.
///
/// Starting and stopping are split into a decision, made here, and the
/// process work (spawn, kill) that the caller performs and reports back:
/// `begin_start` then `finish_start`, and `stop` then `stop_report`.
/// A caller that shares a supervisor between threads holds it behind a
/// lock for the whole of such a pair.
pub struct Supervisor<H> {
    child: Option<H>,
}

/// What the caller is to do after `begin_start`.
#[derive(Debug, PartialEq, Eq)]
pub enum StartAction {
    /// Report the status, spawn nothing.
    Report(Status),
    /// Spawn the executable at this path, with its output captured, and
    /// hand the outcome to `finish_start`.
    Spawn(String),
}

impl<H> View for Supervisor<H> {
    type V = Option<H>;

    closed spec fn view(&self) -> Option<H> {
        self.child
    }
}

/// Whether a start, made while a process is held or not (`running`), asks
/// for a spawn: only where nothing is held and the backend was found.
pub open spec fn start_spawns(running: bool, probes: Seq<Option<String>>) -> bool {
    !running && first_found(probes) is Some
}

/// What a start reports without spawning, where it spawns nothing.
pub open spec fn start_report(running: bool, probes: Seq<Option<String>>) -> Result<
    StartAction,
    ShellError,
> {
    if first_found(probes) is None {
        Err(ShellError::ResourceNotFound)
    } else {
        Ok(StartAction::Report(Status::AlreadyRunning))
    }
}

/// The handle held after a spawn was attempted with this outcome.
pub open spec fn after_spawn<H>(spawned: Result<H, String>) -> Option<H> {
    match spawned {
        Ok(h) => Some(h),
        Err(_) => None,
    }
}

/// What a start reports once the spawn was attempted with this outcome.
pub open spec fn spawn_report<H>(spawned: Result<H, String>) -> Result<Status, ShellError> {
    match spawned {
        Ok(_) => Ok(Status::Started),
        Err(why) => Err(ShellError::SpawnFailure(why)),
    }
}

/// What a stop reports, given the outcome of terminating the handle it
/// took (`None` where it took none).
pub open spec fn stop_outcome(killed: Option<Result<(), String>>) -> Result<Status, ShellError> {
    match killed {
        None => Ok(Status::NotRunning),
        Some(Ok(())) => Ok(Status::Stopped),
        Some(Err(why)) => Err(ShellError::KillFailure(why)),
    }
}

/// The handle held after a stop: none, whatever was held before.
pub open spec fn after_stop<H>(held: Option<H>) -> Option<H> {
    None
}

/// What a stop reports when made on a supervisor that holds `held`, where
/// terminating a taken handle would have the outcome `kill`.
pub open spec fn stop_result<H>(held: Option<H>, kill: Result<(), String>) -> Result<
    Status,
    ShellError,
> {
    stop_outcome(
        if held is Some {
            Some(kill)
        } else {
            None
        },
    )
}

/// One start call, as the probes it saw and whether the operating system
/// accepts the spawn, should the call ask for one.
pub type StartCall = (Seq<Option<String>>, bool);

/// Whether a start call, made while `running` tells whether a process is
/// held, leaves a new process behind.
pub open spec fn call_spawns(running: bool, call: StartCall) -> bool {
    start_spawns(running, call.0) && call.1
}

/// Whether a process is held after a run of start calls with no stop.
pub open spec fn running_after(running: bool, calls: Seq<StartCall>) -> bool
    decreases calls.len(),
{
    if calls.len() == 0 {
        running
    } else {
        running_after(running || call_spawns(running, calls[0]), calls.drop_first())
    }
}

/// How many processes a run of start calls with no stop leaves behind.
pub open spec fn processes_spawned(running: bool, calls: Seq<StartCall>) -> nat
    decreases calls.len(),
{
    if calls.len() == 0 {
        0
    } else {
        (if call_spawns(running, calls[0]) {
            1nat
        } else {
            0nat
        }) + processes_spawned(running || call_spawns(running, calls[0]), calls.drop_first())
    }
}

/// Over any run of start calls with no stop between them, at most one
/// process is spawned, and none where one was already held; and a held
/// process stays held.
pub proof fn lemma_starts_spawn_at_most_once(running: bool, calls: Seq<StartCall>)
    ensures
        processes_spawned(running, calls) <= (if running {
            0nat
        } else {
            1nat
        }),
        running ==> running_after(running, calls),
    decreases calls.len(),
{
    if calls.len() > 0 {
        let next = running || call_spawns(running, calls[0]);
        lemma_starts_spawn_at_most_once(next, calls.drop_first());
        if !call_spawns(running, calls[0]) {
            assert(next == running);
        }
    }
}

/// While a process is held, a start asks for no spawn: it reports that the
/// backend is already running where the backend is found, and fails with
/// `ResourceNotFound` where it is not.
pub proof fn lemma_start_while_running(probes: Seq<Option<String>>)
    ensures
        !start_spawns(true, probes),
        first_found(probes) is Some ==> start_report(true, probes) == Ok::<
            StartAction,
            ShellError,
        >(StartAction::Report(Status::AlreadyRunning)),
        first_found(probes) is None ==> start_report(true, probes) == Err::<
            StartAction,
            ShellError,
        >(ShellError::ResourceNotFound),
{
}

/// Stopping is idempotent: after a stop, whatever it held and however its
/// termination went, a second stop takes no handle and succeeds, reporting
/// that the backend was not running.
pub proof fn lemma_stop_twice<H>(held: Option<H>, kill: Result<(), String>)
    ensures
        stop_result(after_stop(held), kill) == Ok::<Status, ShellError>(Status::NotRunning),
{
}

impl<H> Supervisor<H> {
    /// Whether a backend process is held.
    pub open spec fn running(&self) -> bool {
        self@ is Some
    }

    /// A supervisor that holds no process.
    pub fn new() -> (s: Self)
        ensures
            s@ is None,
    {
        Supervisor { child: None }
    }

    /// Whether a backend process is held.
    pub fn is_running(&self) -> (r: bool)
        ensures
            r == self.running(),
    {
        self.child.is_some()
    }

    /// Decides what a start request does. `probes` holds, for each
    /// candidate location in order, its resolved path where it exists;
    /// `windows` tells whether the platform wants the executable suffix.
    ///
    /// Fails with `ResourceNotFound` where no candidate was found; else
    /// reports `AlreadyRunning` where a process is held; else asks for a
    /// spawn of the first path found.
    pub fn begin_start(&self, probes: &Vec<Option<String>>, windows: bool) -> (r: Result<
        StartAction,
        ShellError,
    >)
        ensures
            start_spawns(self.running(), probes@) ==> (r matches Ok(StartAction::Spawn(path))
                && path@ == launch_path(probes@, windows)),
            !start_spawns(self.running(), probes@) ==> r == start_report(self.running(), probes@),
    {
        match locate_backend(probes) {
            None => Err(ShellError::ResourceNotFound),
            Some(found) => {
                if self.child.is_some() {
                    Ok(StartAction::Report(Status::AlreadyRunning))
                } else {
                    Ok(StartAction::Spawn(platform_executable_name(found.as_str(), windows)))
                }
            },
        }
    }

    /// Records the outcome of the spawn that `begin_start` asked for: the
    /// new handle, or the operating system's reason for refusing.
    pub fn finish_start(&mut self, spawned: Result<H, String>) -> (r: Result<Status, ShellError>)
        requires
            !old(self).running(),
        ensures
            final(self)@ == after_spawn(spawned),
            r == spawn_report(spawned),
    {
        match spawned {
            Ok(h) => {
                self.child = Some(h);
                Ok(Status::Started)
            },
            Err(why) => Err(ShellError::SpawnFailure(why)),
        }
    }

    /// Gives up the held handle, if any, for the caller to terminate; no
    /// handle is held afterwards.
    pub fn stop(&mut self) -> (taken: Option<H>)
        ensures
            taken == old(self)@,
            final(self)@ == after_stop(old(self)@),
    {
        self.child.take()
    }
}

/// What a stop reports: `killed` is `None` where `stop` gave up no handle,
/// and otherwise the outcome of terminating the one it gave up.
pub fn stop_report(killed: Option<Result<(), String>>) -> (r: Result<Status, ShellError>)
    ensures
        r == stop_outcome(killed),
{
    match killed {
        None => Ok(Status::NotRunning),
        Some(Ok(())) => Ok(Status::Stopped),
        Some(Err(why)) => Err(ShellError::KillFailure(why)),
    }
}

} // verus!
