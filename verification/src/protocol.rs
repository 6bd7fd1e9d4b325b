//! The namespace-creation and synchronization protocol.
//!
//! One invocation runs two cooperating operating-system processes.  The
//! *launcher* creates a one-shot signaling channel, spawns the isolated
//! process image, writes the spawned process's identity mapping, releases it
//! through the channel, and then supervises descendants until none remain.
//! The *container-init* process blocks on the channel, and once released
//! performs its setup sequence in strict order — root change, working
//! directory reset, hostname, process-information mount — before replacing
//! itself with the target command.
//!
//! Each side is a state machine: a pure transition function from the current
//! phase and the outcome of the last operation to the next phase and the next
//! operation.  The surrounding binary performs each operation and feeds its
//! outcome back in.  All ordering guarantees of the design are proved over
//! these transition functions and over traces of them; see the proof
//! functions at the end of this file.

use vstd::prelude::*;
use crate::namespace::NamespaceConfig;

verus! {

// ---------------------------------------------------------------------------
// The launcher machine
// ---------------------------------------------------------------------------

/// Where the launcher stands.  Phases past `ChannelReady` carry the spawned
/// process id.
#[derive(Clone, Copy, PartialEq, Eq, Structural, Debug)]
pub enum LauncherPhase {
    /// Nothing done yet; the channel is about to be created.
    Start,
    /// The channel exists; the isolated process is about to be spawned.
    ChannelReady,
    /// The process exists and is blocked on the channel; its identity
    /// mapping is about to be written.
    Spawned { pid: i32 },
    /// The mapping is written; the release signal is about to be sent.
    Mapped { pid: i32 },
    /// The process is released; the launcher reaps descendants.
    Supervising { pid: i32 },
    /// No descendants remain; the invocation succeeded.
    Finished,
    /// A fatal failure; the invocation aborts.
    Failed,
}

/// The outcome of the launcher's last operation.
#[derive(Clone, Copy, PartialEq, Eq, Structural, Debug)]
pub enum LauncherEvent {
    /// The channel was created.
    ChannelCreated,
    /// Channel creation failed.
    ChannelFailed,
    /// The isolated process was spawned with this id.
    ChildSpawned { pid: i32 },
    /// Process creation was rejected.
    SpawnFailed,
    /// The identity-mapping write completed.
    MappingWritten,
    /// The identity-mapping write failed.
    MappingFailed,
    /// The release signal was sent.
    ReleaseSent,
    /// Sending the release signal failed.
    ReleaseFailed,
    /// A descendant exited with this code and was reaped.
    ChildReaped { pid: i32, code: i32 },
    /// A descendant stopped; it still exists.
    ChildStopped { pid: i32 },
    /// Descendants exist but none is reapable right now.
    ChildrenStillAlive,
    /// No descendants remain.
    NoChildrenLeft,
    /// The reaping query itself failed.
    WaitFailed,
}

/// What the launcher does next.
#[derive(Clone, Copy, PartialEq, Eq, Structural, Debug)]
pub enum LauncherAction {
    /// Create the one-shot signaling channel.
    CreateChannel,
    /// Spawn the isolated process image with this namespace configuration.
    SpawnChild { config: NamespaceConfig },
    /// Write the identity mapping of process `pid`.
    WriteMapping { pid: i32 },
    /// Send the release signal through the channel.
    SendRelease,
    /// Query for a reapable descendant without blocking.
    PollChildren,
    /// Sleep one polling interval, then query again.
    SleepThenPoll,
    /// Terminate successfully.
    FinishSuccess,
    /// Terminate with a failure.
    Abort,
}

/// The launcher's transition function.  Every operation failure, and every
/// outcome that the current phase does not expect, is fatal: the design
/// never retries a privileged operation.
pub open spec fn launcher_next(pre: LauncherPhase, ev: LauncherEvent) -> (LauncherPhase,
    LauncherAction) {
    match (pre, ev) {
        (LauncherPhase::Start, LauncherEvent::ChannelCreated) => (
            LauncherPhase::ChannelReady,
            LauncherAction::SpawnChild { config: NamespaceConfig::spec_full_isolation() },
        ),
        (LauncherPhase::ChannelReady, LauncherEvent::ChildSpawned { pid }) => if 1 <= pid {
            (LauncherPhase::Spawned { pid }, LauncherAction::WriteMapping { pid })
        } else {
            (LauncherPhase::Failed, LauncherAction::Abort)
        },
        (LauncherPhase::Spawned { pid }, LauncherEvent::MappingWritten) => (
            LauncherPhase::Mapped { pid },
            LauncherAction::SendRelease,
        ),
        (LauncherPhase::Mapped { pid }, LauncherEvent::ReleaseSent) => (
            LauncherPhase::Supervising { pid },
            LauncherAction::PollChildren,
        ),
        (LauncherPhase::Supervising { pid }, LauncherEvent::ChildReaped { .. }) => (
            LauncherPhase::Supervising { pid },
            LauncherAction::PollChildren,
        ),
        (LauncherPhase::Supervising { pid }, LauncherEvent::ChildStopped { .. }) => (
            LauncherPhase::Supervising { pid },
            LauncherAction::PollChildren,
        ),
        (LauncherPhase::Supervising { pid }, LauncherEvent::ChildrenStillAlive) => (
            LauncherPhase::Supervising { pid },
            LauncherAction::SleepThenPoll,
        ),
        (LauncherPhase::Supervising { pid }, LauncherEvent::NoChildrenLeft) => (
            LauncherPhase::Finished,
            LauncherAction::FinishSuccess,
        ),
        _ => (LauncherPhase::Failed, LauncherAction::Abort),
    }
}

/// The launcher's first step: before any outcome exists, it creates the
/// channel from the start phase.
pub fn launcher_start() -> (r: (LauncherPhase, LauncherAction))
    ensures
        r.0 == LauncherPhase::Start,
        r.1 == LauncherAction::CreateChannel,
{
    (LauncherPhase::Start, LauncherAction::CreateChannel)
}

/// One launcher step: from the current phase and the outcome of the last
/// operation to the next phase and the next operation.
pub fn launcher_step(pre: LauncherPhase, ev: LauncherEvent) -> (r: (LauncherPhase, LauncherAction))
    ensures
        r == launcher_next(pre, ev),
{
    match (pre, ev) {
        (LauncherPhase::Start, LauncherEvent::ChannelCreated) => (
            LauncherPhase::ChannelReady,
            LauncherAction::SpawnChild { config: NamespaceConfig::full_isolation() },
        ),
        (LauncherPhase::ChannelReady, LauncherEvent::ChildSpawned { pid }) => if 1 <= pid {
            (LauncherPhase::Spawned { pid }, LauncherAction::WriteMapping { pid })
        } else {
            (LauncherPhase::Failed, LauncherAction::Abort)
        },
        (LauncherPhase::Spawned { pid }, LauncherEvent::MappingWritten) => (
            LauncherPhase::Mapped { pid },
            LauncherAction::SendRelease,
        ),
        (LauncherPhase::Mapped { pid }, LauncherEvent::ReleaseSent) => (
            LauncherPhase::Supervising { pid },
            LauncherAction::PollChildren,
        ),
        (LauncherPhase::Supervising { pid }, LauncherEvent::ChildReaped { .. }) => (
            LauncherPhase::Supervising { pid },
            LauncherAction::PollChildren,
        ),
        (LauncherPhase::Supervising { pid }, LauncherEvent::ChildStopped { .. }) => (
            LauncherPhase::Supervising { pid },
            LauncherAction::PollChildren,
        ),
        (LauncherPhase::Supervising { pid }, LauncherEvent::ChildrenStillAlive) => (
            LauncherPhase::Supervising { pid },
            LauncherAction::SleepThenPoll,
        ),
        (LauncherPhase::Supervising { pid }, LauncherEvent::NoChildrenLeft) => (
            LauncherPhase::Finished,
            LauncherAction::FinishSuccess,
        ),
        _ => (LauncherPhase::Failed, LauncherAction::Abort),
    }
}

// ---------------------------------------------------------------------------
// The container-init machine
// ---------------------------------------------------------------------------

/// Where the container-init process stands.  Each phase names what has been
/// accomplished so far.
#[derive(Clone, Copy, PartialEq, Eq, Structural, Debug)]
pub enum ContainerPhase {
    /// Blocked on the channel; no setup may run yet.
    AwaitingRelease,
    /// The release signal arrived; the root change is next.
    Released,
    /// The root directory is changed; the working-directory reset is next.
    Confined,
    /// The working directory is the new root; the hostname set is next.
    WorkdirReady,
    /// The namespace-local hostname is set; the process-information mount
    /// is next.
    HostnameReady,
    /// The process-information filesystem is mounted; the image replacement
    /// is next.
    ProcReady,
    /// A fatal failure; the container-init process terminates.
    Halted,
}

/// The outcome of the container-init process's last operation.
#[derive(Clone, Copy, PartialEq, Eq, Structural, Debug)]
pub enum ContainerEvent {
    /// The blocking read on the channel returned: the launcher released us.
    ReleaseReceived,
    /// The blocking read failed.
    ReadFailed,
    /// The root directory was changed to the root path.
    RootChanged,
    /// The root change failed.
    RootFailed,
    /// The working directory was reset to the new root.
    WorkdirSet,
    /// The working-directory reset failed.
    WorkdirFailed,
    /// The namespace-local hostname was set.
    HostnameSet,
    /// Setting the hostname failed.
    HostnameFailed,
    /// The process-information filesystem was mounted.
    ProcMounted,
    /// The mount failed.
    MountFailed,
    /// The image replacement returned, which it only does on failure.
    ExecFailed,
}

/// What the container-init process does next.
#[derive(Clone, Copy, PartialEq, Eq, Structural, Debug)]
pub enum ContainerAction {
    /// Block on the channel until the launcher sends the release signal.
    AwaitRelease,
    /// Change the root directory to the supplied root path.
    ChangeRoot,
    /// Reset the working directory to the new root.
    ResetWorkdir,
    /// Set the namespace-local hostname to the fixed container label.
    SetHostname,
    /// Mount the process-information filesystem inside the new root.
    MountProc,
    /// Replace this process image with the target command.
    ExecTarget,
    /// Terminate this process with an error; there is no caller to return
    /// to.
    Terminate,
}

/// The container-init transition function.  The setup sequence runs in
/// strict order, each step fatal on failure, and ends in the image
/// replacement; nothing runs after a successful replacement, so no outcome
/// for it exists.
pub open spec fn container_next(pre: ContainerPhase, ev: ContainerEvent) -> (ContainerPhase,
    ContainerAction) {
    match (pre, ev) {
        (ContainerPhase::AwaitingRelease, ContainerEvent::ReleaseReceived) => (
            ContainerPhase::Released,
            ContainerAction::ChangeRoot,
        ),
        (ContainerPhase::Released, ContainerEvent::RootChanged) => (
            ContainerPhase::Confined,
            ContainerAction::ResetWorkdir,
        ),
        (ContainerPhase::Confined, ContainerEvent::WorkdirSet) => (
            ContainerPhase::WorkdirReady,
            ContainerAction::SetHostname,
        ),
        (ContainerPhase::WorkdirReady, ContainerEvent::HostnameSet) => (
            ContainerPhase::HostnameReady,
            ContainerAction::MountProc,
        ),
        (ContainerPhase::HostnameReady, ContainerEvent::ProcMounted) => (
            ContainerPhase::ProcReady,
            ContainerAction::ExecTarget,
        ),
        _ => (ContainerPhase::Halted, ContainerAction::Terminate),
    }
}

/// The container-init process's first step: before any outcome exists, it
/// blocks on the channel.
pub fn container_start() -> (r: (ContainerPhase, ContainerAction))
    ensures
        r.0 == ContainerPhase::AwaitingRelease,
        r.1 == ContainerAction::AwaitRelease,
{
    (ContainerPhase::AwaitingRelease, ContainerAction::AwaitRelease)
}

/// One container-init step.
pub fn container_step(pre: ContainerPhase, ev: ContainerEvent) -> (r: (
    ContainerPhase,
    ContainerAction,
))
    ensures
        r == container_next(pre, ev),
{
    match (pre, ev) {
        (ContainerPhase::AwaitingRelease, ContainerEvent::ReleaseReceived) => (
            ContainerPhase::Released,
            ContainerAction::ChangeRoot,
        ),
        (ContainerPhase::Released, ContainerEvent::RootChanged) => (
            ContainerPhase::Confined,
            ContainerAction::ResetWorkdir,
        ),
        (ContainerPhase::Confined, ContainerEvent::WorkdirSet) => (
            ContainerPhase::WorkdirReady,
            ContainerAction::SetHostname,
        ),
        (ContainerPhase::WorkdirReady, ContainerEvent::HostnameSet) => (
            ContainerPhase::HostnameReady,
            ContainerAction::MountProc,
        ),
        (ContainerPhase::HostnameReady, ContainerEvent::ProcMounted) => (
            ContainerPhase::ProcReady,
            ContainerAction::ExecTarget,
        ),
        _ => (ContainerPhase::Halted, ContainerAction::Terminate),
    }
}

// ---------------------------------------------------------------------------
// Per-step laws
// ---------------------------------------------------------------------------

/// Every spawn the launcher ever asks for requests all four isolation
/// domains together; a subset would break the design's guarantee.
pub proof fn lemma_spawn_requests_full_isolation(pre: LauncherPhase, ev: LauncherEvent)
    ensures
        launcher_next(pre, ev).1 matches LauncherAction::SpawnChild { config }
            ==> config.is_complete(),
{
}

/// The release signal is sent only from the phase in which the identity
/// mapping is in place, and only on the outcome that reports its write
/// complete: the mapping write happens-before the release.
pub proof fn lemma_release_only_after_mapping(pre: LauncherPhase, ev: LauncherEvent)
    ensures
        launcher_next(pre, ev).1 == LauncherAction::SendRelease <==> (pre is Spawned && ev
            == LauncherEvent::MappingWritten),
{
}

/// A failed mapping write aborts the launcher before the release signal is
/// ever sent: the spawned process is never released into an unmapped state.
pub proof fn lemma_mapping_failure_aborts(pid: i32)
    ensures
        launcher_next(LauncherPhase::Spawned { pid }, LauncherEvent::MappingFailed) == (
            LauncherPhase::Failed,
            LauncherAction::Abort,
        ),
        forall|ev: LauncherEvent|
            #[trigger] launcher_next(LauncherPhase::Failed, ev).1 != LauncherAction::SendRelease,
{
}

/// The launcher writes a mapping only for a process id it was just handed by
/// a successful spawn, and that id is a valid (positive) process id.
pub proof fn lemma_mapping_written_for_spawned_pid(pre: LauncherPhase, ev: LauncherEvent)
    ensures
        launcher_next(pre, ev).1 matches LauncherAction::WriteMapping { pid } ==> (1 <= pid && pre
            is ChannelReady && ev == (LauncherEvent::ChildSpawned { pid })),
{
}

/// The supervision loop terminates successfully exactly when no descendants
/// remain: it never ends while the process tree still has a live member, and
/// it always ends once the tree is empty.
pub proof fn lemma_supervision_exit(pre: LauncherPhase, ev: LauncherEvent)
    ensures
        launcher_next(pre, ev).1 == LauncherAction::FinishSuccess <==> (pre is Supervising && ev
            == LauncherEvent::NoChildrenLeft),
{
}

/// A target that exits with some code, with no other descendants left
/// behind: the supervisor observes exactly one reap outcome for it — reaping
/// keeps it supervising, polling again at once — and the very next outcome,
/// that no descendants remain, finishes the launcher.
pub proof fn lemma_single_reap_then_finish(pid: i32, child: i32, code: i32)
    ensures
        launcher_next(LauncherPhase::Supervising { pid }, LauncherEvent::ChildReaped { pid: child, code })
            == (LauncherPhase::Supervising { pid }, LauncherAction::PollChildren),
        launcher_next(LauncherPhase::Supervising { pid }, LauncherEvent::NoChildrenLeft) == (
            LauncherPhase::Finished,
            LauncherAction::FinishSuccess,
        ),
{
}

/// The container side performs its root change only once the release signal
/// has arrived — never while it is still awaiting release.
pub proof fn lemma_chroot_only_on_release(pre: ContainerPhase, ev: ContainerEvent)
    ensures
        container_next(pre, ev).1 == ContainerAction::ChangeRoot <==> (pre
            == ContainerPhase::AwaitingRelease && ev == ContainerEvent::ReleaseReceived),
{
}

/// The image replacement is attempted only from the phase in which the whole
/// setup sequence — root change, working directory, hostname, mount — has
/// completed.
pub proof fn lemma_exec_only_after_mount(pre: ContainerPhase, ev: ContainerEvent)
    ensures
        container_next(pre, ev).1 == ContainerAction::ExecTarget <==> (pre
            == ContainerPhase::HostnameReady && ev == ContainerEvent::ProcMounted),
{
}

/// If the image replacement returns — which it only does on failure — the
/// container-init process terminates rather than falling through into code
/// meant for a different program; and no phase continues past the
/// replacement, because no success outcome for it exists.
pub proof fn lemma_exec_failure_terminates()
    ensures
        container_next(ContainerPhase::ProcReady, ContainerEvent::ExecFailed) == (
            ContainerPhase::Halted,
            ContainerAction::Terminate,
        ),
        forall|ev: ContainerEvent|
            #[trigger] container_next(ContainerPhase::ProcReady, ev) == (
                ContainerPhase::Halted,
                ContainerAction::Terminate,
            ),
{
}

} // verus!
