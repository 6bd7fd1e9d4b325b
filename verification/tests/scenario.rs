//! End-to-end walk of `run /srv/rootfs /bin/echo hello` through the verified
//! core: parsing, root resolution, the launcher's protocol, and the
//! container-init setup, ending in a successful supervision exit.

use prun::args::Invocation;
use prun::args::parse_invocation;
use prun::idmap::map_line;
use prun::idmap::uid_map_path;
use prun::image::resolve_image_path;
use prun::protocol::ContainerAction;
use prun::protocol::ContainerEvent;
use prun::protocol::LauncherAction;
use prun::protocol::LauncherEvent;
use prun::protocol::LauncherPhase;
use prun::protocol::container_start;
use prun::protocol::container_step;
use prun::protocol::launcher_start;
use prun::protocol::launcher_step;

#[test]
fn run_echo_hello_end_to_end() {
    // Invocation.
    let args: Vec<Vec<u8>> = ["prun", "run", "/srv/rootfs", "/bin/echo", "hello"]
        .iter()
        .map(|p| p.as_bytes().to_vec())
        .collect();
    let (image, command) = match parse_invocation(&args) {
        Invocation::Run { image, command } => (image, command),
        _ => panic!("expected a run invocation"),
    };
    assert_eq!(command, vec![b"/bin/echo".to_vec(), b"hello".to_vec()]);

    // Root resolution: an absolute path stands for itself.
    let root = resolve_image_path(&b"/var/lib/images".to_vec(), &image);
    assert_eq!(root, b"/srv/rootfs".to_vec());

    // Launcher: channel, spawn, mapping, release.
    let (phase, action) = launcher_start();
    assert_eq!(action, LauncherAction::CreateChannel);
    let (phase, action) = launcher_step(phase, LauncherEvent::ChannelCreated);
    assert!(matches!(action, LauncherAction::SpawnChild { .. }));
    let (phase, action) = launcher_step(phase, LauncherEvent::ChildSpawned { pid: 4711 });
    assert_eq!(action, LauncherAction::WriteMapping { pid: 4711 });
    assert_eq!(uid_map_path(4711), b"/proc/4711/uid_map".to_vec());
    assert_eq!(map_line(1000), b"0 1000 1".to_vec());
    let (phase, action) = launcher_step(phase, LauncherEvent::MappingWritten);
    assert_eq!(action, LauncherAction::SendRelease);
    let (phase, action) = launcher_step(phase, LauncherEvent::ReleaseSent);
    assert_eq!(action, LauncherAction::PollChildren);

    // Container-init: released, then the setup sequence, then the exec.
    let (cphase, caction) = container_start();
    assert_eq!(caction, ContainerAction::AwaitRelease);
    let (cphase, caction) = container_step(cphase, ContainerEvent::ReleaseReceived);
    assert_eq!(caction, ContainerAction::ChangeRoot);
    let (cphase, caction) = container_step(cphase, ContainerEvent::RootChanged);
    assert_eq!(caction, ContainerAction::ResetWorkdir);
    let (cphase, caction) = container_step(cphase, ContainerEvent::WorkdirSet);
    assert_eq!(caction, ContainerAction::SetHostname);
    let (cphase, caction) = container_step(cphase, ContainerEvent::HostnameSet);
    assert_eq!(caction, ContainerAction::MountProc);
    let (_cphase, caction) = container_step(cphase, ContainerEvent::ProcMounted);
    assert_eq!(caction, ContainerAction::ExecTarget);

    // The echo exits 0; the supervisor reaps it once and terminates.
    let (phase, action) = launcher_step(phase, LauncherEvent::ChildReaped { pid: 4711, code: 0 });
    assert_eq!(action, LauncherAction::PollChildren);
    let (phase, action) = launcher_step(phase, LauncherEvent::NoChildrenLeft);
    assert_eq!(phase, LauncherPhase::Finished);
    assert_eq!(action, LauncherAction::FinishSuccess);
}
