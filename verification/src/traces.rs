//! Traces of the protocol, and the ordering guarantees proved over them.
//!
//! A trace records one process's steps in order: the phase it stood in, the
//! outcome it observed, and the phase and action the transition function gave
//! back.  A system trace interleaves the two processes' steps in the order
//! the operations completed, and carries the one guarantee the channel
//! provides: its one-shot read returns only after the write.  Everything
//! else — in particular that the identity mapping is written before the
//! container performs any operation requiring resolved identity — is proved.

use vstd::prelude::*;
use crate::protocol::ContainerAction;
use crate::protocol::ContainerEvent;
use crate::protocol::ContainerPhase;
use crate::protocol::LauncherAction;
use crate::protocol::LauncherEvent;
use crate::protocol::LauncherPhase;
use crate::protocol::container_next;
use crate::protocol::launcher_next;

verus! {

// ---------------------------------------------------------------------------
// Traces of one process
// ---------------------------------------------------------------------------

/// One recorded launcher step.
#[derive(Clone, Copy, PartialEq, Eq, Structural, Debug)]
pub struct LauncherRecord {
    /// The phase the launcher stood in.
    pub pre: LauncherPhase,
    /// The outcome of its last operation.
    pub event: LauncherEvent,
    /// The phase the transition function moved it to.
    pub post: LauncherPhase,
    /// The action the transition function asked for next.
    pub action: LauncherAction,
}

/// One recorded container-init step.
#[derive(Clone, Copy, PartialEq, Eq, Structural, Debug)]
pub struct ContainerRecord {
    /// The phase the container-init process stood in.
    pub pre: ContainerPhase,
    /// The outcome of its last operation.
    pub event: ContainerEvent,
    /// The phase the transition function moved it to.
    pub post: ContainerPhase,
    /// The action the transition function asked for next.
    pub action: ContainerAction,
}

/// The record really is a step of the launcher machine.
pub open spec fn launcher_record_ok(s: LauncherRecord) -> bool {
    (s.post, s.action) == launcher_next(s.pre, s.event)
}

/// The record really is a step of the container machine.
pub open spec fn container_record_ok(s: ContainerRecord) -> bool {
    (s.post, s.action) == container_next(s.pre, s.event)
}

/// A well-formed launcher trace: it starts at the start phase, every step
/// follows the transition function, and consecutive steps chain.
pub open spec fn launcher_trace_ok(t: Seq<LauncherRecord>) -> bool {
    &&& forall|i: int| 0 <= i < t.len() ==> launcher_record_ok(#[trigger] t[i])
    &&& forall|i: int| 0 < i < t.len() ==> (#[trigger] t[i]).pre == t[i - 1].post
    &&& t.len() > 0 ==> t[0].pre == LauncherPhase::Start
}

/// A well-formed container trace.
pub open spec fn container_trace_ok(t: Seq<ContainerRecord>) -> bool {
    &&& forall|i: int| 0 <= i < t.len() ==> container_record_ok(#[trigger] t[i])
    &&& forall|i: int| 0 < i < t.len() ==> (#[trigger] t[i]).pre == t[i - 1].post
    &&& t.len() > 0 ==> t[0].pre == ContainerPhase::AwaitingRelease
}

// ---------------------------------------------------------------------------
// The launcher's progress never goes backwards, and the release signal is
// sent at most once
// ---------------------------------------------------------------------------

/// How far along the launcher's one-way path a phase lies.
pub open spec fn launcher_progress(p: LauncherPhase) -> nat {
    match p {
        LauncherPhase::Start => 0,
        LauncherPhase::ChannelReady => 1,
        LauncherPhase::Spawned { .. } => 2,
        LauncherPhase::Mapped { .. } => 3,
        LauncherPhase::Supervising { .. } => 4,
        LauncherPhase::Finished => 5,
        LauncherPhase::Failed => 6,
    }
}

/// One launcher step never moves its progress backwards.
pub proof fn lemma_launcher_progress_step(pre: LauncherPhase, ev: LauncherEvent)
    ensures
        launcher_progress(launcher_next(pre, ev).0) >= launcher_progress(pre),
{
}

/// Along a well-formed launcher trace, progress never goes backwards.
pub proof fn lemma_launcher_progress_monotone(t: Seq<LauncherRecord>, j: int, k: int)
    requires
        launcher_trace_ok(t),
        0 <= j <= k < t.len(),
    ensures
        launcher_progress(t[j].pre) <= launcher_progress(t[k].pre),
    decreases k - j,
{
    if j < k {
        lemma_launcher_progress_monotone(t, j, k - 1);
        lemma_launcher_progress_step(t[k - 1].pre, t[k - 1].event);
    }
}

/// The channel invariant: the release signal is sent at most once in any
/// well-formed launcher trace.
pub proof fn lemma_release_sent_at_most_once(t: Seq<LauncherRecord>, j: int, k: int)
    requires
        launcher_trace_ok(t),
        0 <= j < k < t.len(),
        t[j].action == LauncherAction::SendRelease,
    ensures
        t[k].action != LauncherAction::SendRelease,
{
    // Sending the release happens only from the spawned phase (progress 2)
    // and moves to progress 3; afterwards progress never drops back to 2,
    // so the sending transition cannot fire again.
    assert(launcher_progress(t[j].post) >= 3);
    lemma_launcher_progress_monotone(t, j + 1, k);
    assert(t[j + 1].pre == t[j].post);
    if t[k].action == LauncherAction::SendRelease {
        assert(launcher_progress(t[k].pre) == 2);
    }
}

// ---------------------------------------------------------------------------
// The launcher's protocol history: supervision begins only after the whole
// protocol prefix happened, in order
// ---------------------------------------------------------------------------

/// How many protocol stages a launcher phase has completed (failure counts
/// none: nothing may rely on an aborted launcher).
pub open spec fn launcher_stages(p: LauncherPhase) -> nat {
    match p {
        LauncherPhase::Start => 0,
        LauncherPhase::ChannelReady => 1,
        LauncherPhase::Spawned { .. } => 2,
        LauncherPhase::Mapped { .. } => 3,
        LauncherPhase::Supervising { .. } => 4,
        LauncherPhase::Finished => 5,
        LauncherPhase::Failed => 0,
    }
}

/// The outcome that completes launcher stage `r` (1 through 5): channel
/// created, child spawned, mapping written, release sent, no children left.
pub open spec fn launcher_stage_done(r: nat, ev: LauncherEvent) -> bool {
    if r == 1 {
        ev == LauncherEvent::ChannelCreated
    } else if r == 2 {
        ev is ChildSpawned
    } else if r == 3 {
        ev == LauncherEvent::MappingWritten
    } else if r == 4 {
        ev == LauncherEvent::ReleaseSent
    } else {
        ev == LauncherEvent::NoChildrenLeft
    }
}

/// The outcomes completing launcher stages 1 through `r` all occurred before
/// index `i`, in their required order.
pub open spec fn launcher_history(t: Seq<LauncherRecord>, i: int, r: nat) -> bool
    decreases r,
{
    r == 0 || exists|j: int|
        0 <= j < i && launcher_stage_done(r, (#[trigger] t[j]).event) && launcher_history(
            t,
            j,
            (r - 1) as nat,
        )
}

/// A transition into a phase of stage `r >= 1` either completed stage `r`
/// from stage `r - 1`, or was a supervision step that stayed at stage 4.
pub proof fn lemma_launcher_reverse_step(pre: LauncherPhase, ev: LauncherEvent)
    ensures
        launcher_stages(launcher_next(pre, ev).0) >= 1 ==> ({
            let r = launcher_stages(launcher_next(pre, ev).0);
            (launcher_stage_done(r, ev) && launcher_stages(pre) + 1 == r) || (r == 4
                && launcher_stages(pre) == 4)
        }),
{
}

/// A history before index `i` is also a history before any later index.
pub proof fn lemma_launcher_history_widen(t: Seq<LauncherRecord>, i: int, k: int, r: nat)
    requires
        launcher_history(t, i, r),
        i <= k,
    ensures
        launcher_history(t, k, r),
{
    if r >= 1 {
        let j = choose|j: int|
            0 <= j < i && launcher_stage_done(r, (#[trigger] t[j]).event) && launcher_history(
                t,
                j,
                (r - 1) as nat,
            );
        assert(0 <= j < k && launcher_stage_done(r, t[j].event) && launcher_history(
            t,
            j,
            (r - 1) as nat,
        ));
    }
}

/// Reaching a launcher phase certifies its whole protocol history, in order.
pub proof fn lemma_launcher_history(t: Seq<LauncherRecord>, i: int)
    requires
        launcher_trace_ok(t),
        0 <= i < t.len(),
    ensures
        launcher_history(t, i, launcher_stages(t[i].pre)),
    decreases i,
{
    if i > 0 {
        lemma_launcher_history(t, i - 1);
        let r = launcher_stages(t[i].pre);
        if r >= 1 {
            assert(t[i].pre == t[i - 1].post);
            assert(launcher_record_ok(t[i - 1]));
            lemma_launcher_reverse_step(t[i - 1].pre, t[i - 1].event);
            if launcher_stage_done(r, t[i - 1].event) && launcher_stages(t[i - 1].pre) + 1 == r {
                assert(0 <= i - 1 < i && launcher_stage_done(r, t[i - 1].event)
                    && launcher_history(t, i - 1, (r - 1) as nat));
            } else {
                lemma_launcher_history_widen(t, i - 1, i, 4);
            }
        }
    }
}

/// Supervision begins only once the whole protocol prefix has happened in
/// order: the channel was created, then the child spawned, then its mapping
/// written, then the release sent.
pub proof fn lemma_supervision_only_after_protocol(t: Seq<LauncherRecord>, i: int)
    requires
        launcher_trace_ok(t),
        0 <= i < t.len(),
        t[i].pre is Supervising,
    ensures
        launcher_history(t, i, 4),
{
    lemma_launcher_history(t, i);
}

// ---------------------------------------------------------------------------
// The container's setup history: each phase certifies, in order, everything
// that had to happen to reach it
// ---------------------------------------------------------------------------

/// How many setup stages a container phase has completed (failure counts
/// none: nothing may rely on a halted process).
pub open spec fn setup_progress(p: ContainerPhase) -> nat {
    match p {
        ContainerPhase::AwaitingRelease => 0,
        ContainerPhase::Released => 1,
        ContainerPhase::Confined => 2,
        ContainerPhase::WorkdirReady => 3,
        ContainerPhase::HostnameReady => 4,
        ContainerPhase::ProcReady => 5,
        ContainerPhase::Halted => 0,
    }
}

/// The outcome that completes setup stage `r` (1 through 5).
pub open spec fn setup_event(r: nat) -> ContainerEvent {
    if r == 1 {
        ContainerEvent::ReleaseReceived
    } else if r == 2 {
        ContainerEvent::RootChanged
    } else if r == 3 {
        ContainerEvent::WorkdirSet
    } else if r == 4 {
        ContainerEvent::HostnameSet
    } else {
        ContainerEvent::ProcMounted
    }
}

/// The outcomes completing stages 1 through `r` all occurred before index
/// `i`, in their required order.
pub open spec fn setup_history(t: Seq<ContainerRecord>, i: int, r: nat) -> bool
    decreases r,
{
    r == 0 || exists|j: int|
        0 <= j < i && (#[trigger] t[j]).event == setup_event(r) && setup_history(
            t,
            j,
            (r - 1) as nat,
        )
}

/// The only transition into a phase of setup progress `r >= 1` comes from
/// the phase of progress `r - 1`, on the outcome that completes stage `r`.
pub proof fn lemma_container_reverse_step(pre: ContainerPhase, ev: ContainerEvent)
    ensures
        setup_progress(container_next(pre, ev).0) >= 1 ==> (ev == setup_event(
            setup_progress(container_next(pre, ev).0),
        ) && setup_progress(pre) + 1 == setup_progress(container_next(pre, ev).0)),
{
}

/// Reaching a phase certifies its whole setup history: in a well-formed
/// container trace, the phase at step `i` was reached only through every
/// earlier stage's outcome, in order.
pub proof fn lemma_container_history(t: Seq<ContainerRecord>, i: int)
    requires
        container_trace_ok(t),
        0 <= i < t.len(),
    ensures
        setup_history(t, i, setup_progress(t[i].pre)),
    decreases i,
{
    if i > 0 {
        lemma_container_history(t, i - 1);
        let r = setup_progress(t[i].pre);
        if r >= 1 {
            assert(t[i].pre == t[i - 1].post);
            assert(container_record_ok(t[i - 1]));
            lemma_container_reverse_step(t[i - 1].pre, t[i - 1].event);
            assert(0 <= i - 1 < i && t[i - 1].event == setup_event(r) && setup_history(
                t,
                i - 1,
                (r - 1) as nat,
            ));
        }
    }
}

/// The containment ordering: the image replacement is attempted only after
/// the release arrived, the root was changed, the working directory was
/// reset, the hostname was set, and the process-information filesystem was
/// mounted — in that order.  The target command therefore starts only under
/// the changed root.
pub proof fn lemma_exec_only_after_setup(t: Seq<ContainerRecord>, i: int)
    requires
        container_trace_ok(t),
        0 <= i < t.len(),
        t[i].action == ContainerAction::ExecTarget,
    ensures
        t[i].event == ContainerEvent::ProcMounted,
        setup_history(t, i + 1, 5),
{
    assert(container_record_ok(t[i]));
    lemma_container_history(t, i);
    assert(setup_history(t, i, 4));
    assert(0 <= i < i + 1 && t[i].event == setup_event(5) && setup_history(t, i, 4));
}

// ---------------------------------------------------------------------------
// The two processes together: the synchronization guarantee
// ---------------------------------------------------------------------------

/// One step of the whole system: a step of one of the two processes.  A
/// system trace lists the steps of both in the order they completed.
#[derive(Clone, Copy, PartialEq, Eq, Structural, Debug)]
pub enum SystemRecord {
    /// The launcher took a step.
    LauncherStep { launcher: LauncherRecord },
    /// The container-init process took a step.
    ContainerStep { container: ContainerRecord },
}

/// The record follows its process's transition function.
pub open spec fn system_record_ok(s: SystemRecord) -> bool {
    match s {
        SystemRecord::LauncherStep { launcher } => launcher_record_ok(launcher),
        SystemRecord::ContainerStep { container } => container_record_ok(container),
    }
}

/// A container step that observed the release signal.
pub open spec fn observes_release(s: SystemRecord) -> bool {
    s matches SystemRecord::ContainerStep { container } && container.event
        == ContainerEvent::ReleaseReceived
}

/// A launcher step that sends the release signal.
pub open spec fn sends_release(s: SystemRecord) -> bool {
    s matches SystemRecord::LauncherStep { launcher } && launcher.action == LauncherAction::SendRelease
}

/// A launcher step that observed its mapping write complete.
pub open spec fn mapping_write_completed(s: SystemRecord) -> bool {
    s matches SystemRecord::LauncherStep { launcher } && launcher.event == LauncherEvent::MappingWritten
}

/// A container step that begins the root change.
pub open spec fn begins_root_change(s: SystemRecord) -> bool {
    s matches SystemRecord::ContainerStep { container } && container.action == ContainerAction::ChangeRoot
}

/// What the one-shot channel guarantees, and all it guarantees: its blocking
/// read returns only after the write was performed.
pub open spec fn channel_ordering_ok(t: Seq<SystemRecord>) -> bool {
    forall|i: int|
        0 <= i < t.len() && observes_release(#[trigger] t[i]) ==> exists|j: int|
            0 <= j < i && sends_release(#[trigger] t[j])
}

/// A well-formed system trace: every step follows its process's transition
/// function, and the channel behaves as a one-shot channel.
pub open spec fn system_trace_ok(t: Seq<SystemRecord>) -> bool {
    &&& forall|i: int| 0 <= i < t.len() ==> system_record_ok(#[trigger] t[i])
    &&& channel_ordering_ok(t)
}

/// The synchronization guarantee of the whole design: in any well-formed
/// system trace, the identity-mapping write has completed strictly before
/// the container-init process begins its root change — the first operation
/// that requires the mapping to be resolved.
pub proof fn lemma_mapping_before_confinement(t: Seq<SystemRecord>, i: int)
    requires
        system_trace_ok(t),
        0 <= i < t.len(),
        begins_root_change(t[i]),
    ensures
        exists|j: int| 0 <= j < i && mapping_write_completed(#[trigger] t[j]),
{
    // The root change is begun only on the release outcome; the channel
    // says some earlier step sent the release; and the launcher sends the
    // release only on the outcome that reports the mapping written.
    assert(observes_release(t[i]));
    let j = choose|j: int| 0 <= j < i && sends_release(#[trigger] t[j]);
    assert(mapping_write_completed(t[j]));
}

} // verus!
