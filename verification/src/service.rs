//! Starting, stopping and restarting the executor.
//!
//! Each step looks at whether the executor is running and at whether this run
//! has killed it already, and says what to do next; the caller does it and
//! asks again, until the step is to spawn the executor or to finish.

use vstd::prelude::*;

verus! {

/// The name of the executor's process.
pub fn service_name() -> (r: &'static str)
    ensures
        r@ == "executor"@,
{
    "executor"
}

/// What the user asked of the service.
#[derive(Debug, Clone, Copy, PartialEq, Eq, Structural)]
pub enum ServiceCommand {
    Start,
    Stop,
    Restart,
}

/// The next thing to do.
#[derive(Debug, Clone, Copy, PartialEq, Eq, Structural)]
pub enum ServiceStep {
    /// Kill the running executor, then ask again.
    Kill,
    /// Spawn the executor from its directory; the run is over.
    Spawn,
    /// The run is over.
    Finish,
}

/// Start kills a running executor once and then spawns a new one; stop kills a
/// running executor once; restart kills until no executor runs, then spawns one.
pub open spec fn service_step(command: ServiceCommand, running: bool, killed: bool) -> ServiceStep {
    match command {
        ServiceCommand::Start => if running && !killed {
            ServiceStep::Kill
        } else {
            ServiceStep::Spawn
        },
        ServiceCommand::Stop => if running && !killed {
            ServiceStep::Kill
        } else {
            ServiceStep::Finish
        },
        ServiceCommand::Restart => if running {
            ServiceStep::Kill
        } else {
            ServiceStep::Spawn
        },
    }
}

/// The next step of `command`, given whether the executor is running and
/// whether this run has killed it already.
pub fn next_service_step(command: ServiceCommand, running: bool, killed: bool) -> (r: ServiceStep)
    ensures
        r == service_step(command, running, killed),
{
    match command {
        ServiceCommand::Start => if running && !killed {
            ServiceStep::Kill
        } else {
            ServiceStep::Spawn
        },
        ServiceCommand::Stop => if running && !killed {
            ServiceStep::Kill
        } else {
            ServiceStep::Finish
        },
        ServiceCommand::Restart => if running {
            ServiceStep::Kill
        } else {
            ServiceStep::Spawn
        },
    }
}

/// Stopping never spawns; starting always ends by spawning; start and stop kill
/// at most once; restart spawns only once no executor runs; nothing is killed
/// that does not run.
pub proof fn service_steps_are_safe(command: ServiceCommand, running: bool, killed: bool)
    ensures
        command == ServiceCommand::Stop ==> service_step(command, running, killed) != ServiceStep::Spawn,
        command == ServiceCommand::Start ==> service_step(command, running, killed) != ServiceStep::Finish,
        command != ServiceCommand::Restart && killed ==> service_step(command, running, killed)
            != ServiceStep::Kill,
        command == ServiceCommand::Restart && service_step(command, running, killed) == ServiceStep::Spawn
            ==> !running,
        service_step(command, running, killed) == ServiceStep::Kill ==> running,
{
}

/// Restart kills while an executor runs and, once none runs, always spawns a
/// new one, whether or not it killed anything first: it never just finishes.
pub proof fn restart_ends_in_a_new_executor()
    ensures
        forall|killed: bool| #[trigger] service_step(ServiceCommand::Restart, false, killed) == ServiceStep::Spawn,
        forall|killed: bool| #[trigger] service_step(ServiceCommand::Restart, true, killed) == ServiceStep::Kill,
        forall|running: bool, killed: bool|
            #[trigger] service_step(ServiceCommand::Restart, running, killed) != ServiceStep::Finish,
{
}

/// Start spawns the executor at the end of every run: at once where none runs,
/// and after killing the running one once.
pub proof fn start_ends_in_a_new_executor()
    ensures
        forall|killed: bool| #[trigger] service_step(ServiceCommand::Start, false, killed) == ServiceStep::Spawn,
        service_step(ServiceCommand::Start, true, false) == ServiceStep::Kill,
        service_step(ServiceCommand::Start, true, true) == ServiceStep::Spawn,
{
}

/// Stop kills a running executor once and then finishes; where none runs it finishes at once.
pub proof fn stop_ends_without_an_executor_spawned()
    ensures
        forall|killed: bool| #[trigger] service_step(ServiceCommand::Stop, false, killed) == ServiceStep::Finish,
        service_step(ServiceCommand::Stop, true, false) == ServiceStep::Kill,
        service_step(ServiceCommand::Stop, true, true) == ServiceStep::Finish,
{
}

/// Whatever the command, an executor that runs and has not been killed yet is killed first.
pub proof fn a_running_executor_is_killed_first(command: ServiceCommand)
    ensures
        service_step(command, true, false) == ServiceStep::Kill,
{
}

} // verus!
