//! Launching a daemon, with processes and clocks played here.

use vhost_user::virtiofsd::binary_path;
use vhost_user::virtiofsd::ListenEvent;
use vhost_user::virtiofsd::ListenStep;
use vhost_user::virtiofsd::ListenWait;
use vhost_user::virtiofsd::Virtiofsd;
use vhost_user::virtiofsd::VirtiofsdError;
use vhost_user::virtiofsd::BINARY_ENV;
use vhost_user::virtiofsd::LISTEN_POLL_MILLIS;
use vhost_user::virtiofsd::LISTEN_TIMEOUT_NANOS;

const SECOND: u128 = 1_000_000_000;

#[test]
fn binary_is_configured_by_the_environment() {
    assert_eq!(BINARY_ENV, "PETRI_VIRTIOFSD_BINARY");
    assert_eq!(binary_path(None), None);
    assert_eq!(binary_path(Some(vec![])), None);
    assert_eq!(binary_path(Some(b"/bin/d".to_vec())), Some(b"/bin/d".to_vec()));
}

#[test]
fn launch_has_the_right_arguments() {
    let launch =
        Virtiofsd::spawn(Some(b"/bin/d".to_vec()), b"/srv".to_vec(), b"/run/s".to_vec()).unwrap();
    assert_eq!(launch.program, b"/bin/d");
    let args: [&[u8]; 8] = [
        b"--socket-path",
        b"/run/s",
        b"--shared-dir",
        b"/srv",
        b"--sandbox",
        b"none",
        b"--log-level",
        b"debug",
    ];
    assert_eq!(launch.args, args);
    // The daemon is reached where it was told to listen.
    let daemon = Virtiofsd::spawned(launch);
    assert_eq!(daemon.connect(), b"/run/s");
}

#[test]
fn launch_needs_a_binary() {
    for variable in [None, Some(vec![])] {
        let error = Virtiofsd::spawn(variable, vec![], vec![]).err().unwrap();
        assert_eq!(error, VirtiofsdError::NoBinary);
        assert_eq!(
            error.message(),
            "PETRI_VIRTIOFSD_BINARY is not set; no virtiofsd to launch"
        );
    }
}

fn daemon() -> Virtiofsd {
    Virtiofsd::spawned(
        Virtiofsd::spawn(Some(b"d".to_vec()), b"/srv".to_vec(), b"/run/s".to_vec()).unwrap(),
    )
}

#[test]
fn daemon_is_killed_unless_waited_for() {
    let mut killed = daemon();
    assert_eq!(killed.process_handle(), Ok(()));
    assert!(killed.must_kill());
    assert!(!killed.must_kill());

    let mut waited = daemon();
    assert_eq!(waited.wait(), Ok(()));
    assert!(!waited.must_kill());
    assert_eq!(waited.wait(), Err(VirtiofsdError::AlreadyReaped));
    assert_eq!(waited.process_handle(), Err(VirtiofsdError::NotRunning));
    assert_eq!(VirtiofsdError::AlreadyReaped.message(), "virtiofsd already reaped");
    assert_eq!(
        VirtiofsdError::NotRunning.message(),
        "virtiofsd process is no longer running"
    );
}

#[test]
fn device_takes_its_tag() {
    let handle = daemon().fs_handle(17u32, "share");
    assert_eq!(handle.connection, 17);
    assert_eq!(handle.tag, "share");
    assert_eq!(handle.num_queues, None);
    assert_eq!(handle.queue_size, None);
}

/// Waits for a daemon that listens at one time and exits at another.
fn wait_for(listens: u128, exits: u128) -> (ListenStep<i32, ()>, u128) {
    let mut now: u128 = 0;
    let mut wait = ListenWait::wait_for_listen();
    loop {
        let event = match wait {
            ListenWait::ProbeSocket => ListenEvent::Socket(now >= listens),
            ListenWait::PollChild => {
                ListenEvent::Child(Ok(if now >= exits { Some(3) } else { None }))
            }
            ListenWait::ReadClock => ListenEvent::Elapsed(now),
            ListenWait::Sleep => {
                now += LISTEN_POLL_MILLIS as u128 * 1_000_000;
                ListenEvent::Slept
            }
        };
        match wait.step(event) {
            ListenStep::Next(next) => wait = next,
            end => return (end, now),
        }
    }
}

#[test]
fn wait_ends_when_the_daemon_listens_or_not() {
    assert_eq!(LISTEN_TIMEOUT_NANOS, 10 * SECOND);
    assert!(matches!(wait_for(0, u128::MAX), (ListenStep::Listening, 0)));
    assert!(matches!(
        wait_for(SECOND, u128::MAX),
        (ListenStep::Listening, SECOND)
    ));
    assert!(matches!(
        wait_for(u128::MAX, 2 * SECOND),
        (ListenStep::Exited(3), at) if at == 2 * SECOND
    ));
    // The socket is looked at before the process.
    assert!(matches!(wait_for(SECOND, SECOND), (ListenStep::Listening, _)));
    // Ten seconds are not too long yet.
    assert!(matches!(
        wait_for(u128::MAX, u128::MAX),
        (ListenStep::TimedOut, at) if at == 10 * SECOND + 50_000_000
    ));
    let failed: ListenStep<i32, &str> = ListenWait::PollChild.step(ListenEvent::Child(Err("gone")));
    assert!(matches!(failed, ListenStep::PollFailed("gone")));
}
