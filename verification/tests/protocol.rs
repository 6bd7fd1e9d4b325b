use prun::namespace::NamespaceConfig;
use prun::protocol::ContainerAction;
use prun::protocol::ContainerEvent;
use prun::protocol::ContainerPhase;
use prun::protocol::LauncherAction;
use prun::protocol::LauncherEvent;
use prun::protocol::LauncherPhase;
use prun::protocol::container_start;
use prun::protocol::container_step;
use prun::protocol::launcher_start;
use prun::protocol::launcher_step;

#[test]
fn launcher_happy_path_orders_mapping_before_release() {
    let (phase, action) = launcher_start();
    assert_eq!(phase, LauncherPhase::Start);
    assert_eq!(action, LauncherAction::CreateChannel);

    let (phase, action) = launcher_step(phase, LauncherEvent::ChannelCreated);
    assert_eq!(phase, LauncherPhase::ChannelReady);
    match action {
        LauncherAction::SpawnChild { config } => {
            assert_eq!(config, NamespaceConfig::full_isolation());
        }
        other => panic!("expected a spawn, got {:?}", other),
    }

    let (phase, action) = launcher_step(phase, LauncherEvent::ChildSpawned { pid: 42 });
    assert_eq!(phase, LauncherPhase::Spawned { pid: 42 });
    assert_eq!(action, LauncherAction::WriteMapping { pid: 42 });

    // The release is sent only once the mapping write has completed.
    let (phase, action) = launcher_step(phase, LauncherEvent::MappingWritten);
    assert_eq!(phase, LauncherPhase::Mapped { pid: 42 });
    assert_eq!(action, LauncherAction::SendRelease);

    let (phase, action) = launcher_step(phase, LauncherEvent::ReleaseSent);
    assert_eq!(phase, LauncherPhase::Supervising { pid: 42 });
    assert_eq!(action, LauncherAction::PollChildren);
}

#[test]
fn mapping_failure_aborts_before_release() {
    let phase = LauncherPhase::Spawned { pid: 42 };
    let (phase, action) = launcher_step(phase, LauncherEvent::MappingFailed);
    assert_eq!(phase, LauncherPhase::Failed);
    assert_eq!(action, LauncherAction::Abort);
    // Even further outcomes never make a failed launcher send the release.
    let (_, action) = launcher_step(phase, LauncherEvent::MappingWritten);
    assert_eq!(action, LauncherAction::Abort);
}

#[test]
fn spawn_failure_aborts() {
    let (_, action) = launcher_step(LauncherPhase::ChannelReady, LauncherEvent::SpawnFailed);
    assert_eq!(action, LauncherAction::Abort);
}

#[test]
fn supervision_drains_then_sleeps_then_finishes() {
    let phase = LauncherPhase::Supervising { pid: 42 };

    // A reapable descendant is drained and the poll repeats at once.
    let (phase, action) = launcher_step(phase, LauncherEvent::ChildReaped { pid: 42, code: 0 });
    assert_eq!(phase, LauncherPhase::Supervising { pid: 42 });
    assert_eq!(action, LauncherAction::PollChildren);

    // Descendants exist but none is reapable: sleep one interval.
    let (phase, action) = launcher_step(phase, LauncherEvent::ChildrenStillAlive);
    assert_eq!(phase, LauncherPhase::Supervising { pid: 42 });
    assert_eq!(action, LauncherAction::SleepThenPoll);

    // No descendants remain: the loop terminates, and only now.
    let (phase, action) = launcher_step(phase, LauncherEvent::NoChildrenLeft);
    assert_eq!(phase, LauncherPhase::Finished);
    assert_eq!(action, LauncherAction::FinishSuccess);
}

#[test]
fn exactly_one_reap_for_a_lone_child() {
    // A target that exits with code 7 and spawned nothing else: one reap
    // outcome, then termination.
    let phase = LauncherPhase::Supervising { pid: 42 };
    let mut reaps = 0;
    let (phase, action) = launcher_step(phase, LauncherEvent::ChildReaped { pid: 42, code: 7 });
    if action == LauncherAction::PollChildren {
        reaps += 1;
    }
    let (phase, action) = launcher_step(phase, LauncherEvent::NoChildrenLeft);
    assert_eq!(reaps, 1);
    assert_eq!(phase, LauncherPhase::Finished);
    assert_eq!(action, LauncherAction::FinishSuccess);
}

#[test]
fn wait_failure_is_fatal() {
    let (phase, action) = launcher_step(
        LauncherPhase::Supervising { pid: 42 },
        LauncherEvent::WaitFailed,
    );
    assert_eq!(phase, LauncherPhase::Failed);
    assert_eq!(action, LauncherAction::Abort);
}

#[test]
fn container_setup_runs_in_strict_order() {
    let (phase, action) = container_start();
    assert_eq!(phase, ContainerPhase::AwaitingRelease);
    assert_eq!(action, ContainerAction::AwaitRelease);

    let (phase, action) = container_step(phase, ContainerEvent::ReleaseReceived);
    assert_eq!(phase, ContainerPhase::Released);
    assert_eq!(action, ContainerAction::ChangeRoot);

    let (phase, action) = container_step(phase, ContainerEvent::RootChanged);
    assert_eq!(phase, ContainerPhase::Confined);
    assert_eq!(action, ContainerAction::ResetWorkdir);

    let (phase, action) = container_step(phase, ContainerEvent::WorkdirSet);
    assert_eq!(phase, ContainerPhase::WorkdirReady);
    assert_eq!(action, ContainerAction::SetHostname);

    let (phase, action) = container_step(phase, ContainerEvent::HostnameSet);
    assert_eq!(phase, ContainerPhase::HostnameReady);
    assert_eq!(action, ContainerAction::MountProc);

    let (phase, action) = container_step(phase, ContainerEvent::ProcMounted);
    assert_eq!(phase, ContainerPhase::ProcReady);
    assert_eq!(action, ContainerAction::ExecTarget);
}

#[test]
fn unsynchronized_setup_outcome_halts_the_container() {
    // A root change that happens while the container still awaits release
    // is outside the protocol: the machine refuses to continue.
    let (phase, action) = container_step(
        ContainerPhase::AwaitingRelease,
        ContainerEvent::RootChanged,
    );
    assert_eq!(phase, ContainerPhase::Halted);
    assert_eq!(action, ContainerAction::Terminate);
}

#[test]
fn failed_setup_steps_are_fatal() {
    for (pre, ev) in [
        (ContainerPhase::AwaitingRelease, ContainerEvent::ReadFailed),
        (ContainerPhase::Released, ContainerEvent::RootFailed),
        (ContainerPhase::Confined, ContainerEvent::WorkdirFailed),
        (ContainerPhase::WorkdirReady, ContainerEvent::HostnameFailed),
        (ContainerPhase::HostnameReady, ContainerEvent::MountFailed),
    ] {
        let (phase, action) = container_step(pre, ev);
        assert_eq!(phase, ContainerPhase::Halted);
        assert_eq!(action, ContainerAction::Terminate);
    }
}

#[test]
fn exec_failure_terminates_the_container() {
    let (phase, action) = container_step(ContainerPhase::ProcReady, ContainerEvent::ExecFailed);
    assert_eq!(phase, ContainerPhase::Halted);
    assert_eq!(action, ContainerAction::Terminate);
}

#[test]
fn namespace_config_and_hostname_label() {
    let c = NamespaceConfig::full_isolation();
    assert!(c.user && c.uts && c.pid && c.mount);
    assert_eq!(prun::namespace::hostname_label(), b"container".to_vec());
}
