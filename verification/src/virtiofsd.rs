//! Launching a virtiofsd daemon, and what a vhost-user frontend needs in order
//! to talk to it.
//!
//! The daemon is found through an environment variable; where that is unset there
//! is none to launch. Processes, sockets and clocks are the caller's.

use vstd::prelude::*;
use vstd::string::StrSliceExecFns;
use vstd::string::StringExecFns;
use vstd::string::StringSliceAdditionalSpecFns;

verus! {

/// Environment variable naming the virtiofsd binary.
pub const BINARY_ENV: &'static str = "PETRI_VIRTIOFSD_BINARY";

/// How long to wait for the daemon to start listening, in nanoseconds.
pub const LISTEN_TIMEOUT_NANOS: u128 = 10_000_000_000;

/// How long to sleep between looks at the daemon, in milliseconds.
pub const LISTEN_POLL_MILLIS: u64 = 50;

/// Why the daemon is not there.
#[derive(Debug, Clone, Copy, PartialEq, Eq, Structural)]
pub enum VirtiofsdError {
    /// No binary is configured.
    NoBinary,
    /// The daemon was waited for already.
    AlreadyReaped,
    /// The daemon runs no longer.
    NotRunning,
}

/// What is said when the daemon is not there.
pub open spec fn virtiofsd_error_message(error: VirtiofsdError) -> Seq<char> {
    match error {
        VirtiofsdError::NoBinary => "PETRI_VIRTIOFSD_BINARY is not set; no virtiofsd to launch"@,
        VirtiofsdError::AlreadyReaped => "virtiofsd already reaped"@,
        VirtiofsdError::NotRunning => "virtiofsd process is no longer running"@,
    }
}

impl VirtiofsdError {
    /// What to say of this error.
    pub fn message(&self) -> (message: &'static str)
        ensures
            message@ == virtiofsd_error_message(*self),
    {
        match self {
            VirtiofsdError::NoBinary => "PETRI_VIRTIOFSD_BINARY is not set; no virtiofsd to launch",
            VirtiofsdError::AlreadyReaped => "virtiofsd already reaped",
            VirtiofsdError::NotRunning => "virtiofsd process is no longer running",
        }
    }
}

/// The configured binary, given the bytes that `BINARY_ENV` is set to: none if
/// it is unset or empty.
pub open spec fn configured_binary(variable: Option<Seq<u8>>) -> Option<Seq<u8>> {
    match variable {
        Some(path) if path.len() > 0 => Some(path),
        _ => None,
    }
}

/// The bytes of an optional path.
pub open spec fn path_view(path: Option<Vec<u8>>) -> Option<Seq<u8>> {
    match path {
        Some(path) => Some(path@),
        None => None,
    }
}

/// The configured virtiofsd binary, or `None` if `BINARY_ENV`, of which
/// `variable` is the value, is unset or empty.
pub fn binary_path(variable: Option<Vec<u8>>) -> (path: Option<Vec<u8>>)
    ensures
        path_view(path) == configured_binary(path_view(variable)),
{
    match variable {
        Some(path) => {
            if path.len() == 0 {
                None
            } else {
                Some(path)
            }
        },
        None => None,
    }
}

/// A daemon to launch.
#[derive(Debug)]
pub struct Launch {
    /// The binary.
    pub program: Vec<u8>,
    /// Its arguments.
    pub args: Vec<Vec<u8>>,
    /// Where the daemon will listen.
    pub socket_path: Vec<u8>,
}

/// The arguments of a daemon that shares `shared_dir` and listens at
/// `socket_path`. It is not sandboxed, for which Windows has no means and other
/// platforms want privileges.
pub open spec fn launch_args(shared_dir: Seq<u8>, socket_path: Seq<u8>) -> Seq<Seq<u8>> {
    seq![
        "--socket-path".spec_bytes(),
        socket_path,
        "--shared-dir".spec_bytes(),
        shared_dir,
        "--sandbox".spec_bytes(),
        "none".spec_bytes(),
        "--log-level".spec_bytes(),
        "debug".spec_bytes(),
    ]
}

/// The contents of a list of arguments.
pub open spec fn args_view(args: Seq<Vec<u8>>) -> Seq<Seq<u8>> {
    Seq::new(args.len(), |i: int| args[i]@)
}

/// A virtiofsd daemon.
#[derive(Debug)]
pub struct Virtiofsd {
    running: bool,
    socket_path: Vec<u8>,
}

/// The state of a `Virtiofsd`.
pub struct VirtiofsdView {
    /// Whether the process is held, and neither waited for nor killed.
    pub running: bool,
    /// Where the daemon listens.
    pub socket_path: Seq<u8>,
}

impl View for Virtiofsd {
    type V = VirtiofsdView;

    closed spec fn view(&self) -> VirtiofsdView {
        VirtiofsdView { running: self.running, socket_path: self.socket_path@ }
    }
}

/// A virtio-fs device to be made of a connection to a daemon.
#[derive(Debug)]
pub struct VhostUserFsHandle<C> {
    /// The connection.
    pub connection: C,
    /// The tag that the guest mounts by.
    pub tag: String,
    /// How many request queues, if not the default.
    pub num_queues: Option<u16>,
    /// The size of the queues, if not the default.
    pub queue_size: Option<u16>,
}

impl Virtiofsd {
    /// The daemon to spawn in order to share `shared_dir` and listen at
    /// `socket_path`, where `variable` is the value of `BINARY_ENV`.
    pub fn spawn(
        variable: Option<Vec<u8>>,
        shared_dir: Vec<u8>,
        socket_path: Vec<u8>,
    ) -> (launch: Result<Launch, VirtiofsdError>)
        ensures
            match configured_binary(path_view(variable)) {
                None => launch == Err::<Launch, VirtiofsdError>(VirtiofsdError::NoBinary),
                Some(program) => {
                    &&& launch is Ok
                    &&& launch->Ok_0.program@ == program
                    &&& args_view(launch->Ok_0.args@) == launch_args(shared_dir@, socket_path@)
                    &&& launch->Ok_0.socket_path@ == socket_path@
                },
            },
    {
        let program: Vec<u8> = match binary_path(variable) {
            Some(program) => program,
            None => {
                return Err(VirtiofsdError::NoBinary);
            },
        };
        let mut args: Vec<Vec<u8>> = Vec::new();
        args.push("--socket-path".as_bytes_vec());
        args.push(copy_path(&socket_path));
        args.push("--shared-dir".as_bytes_vec());
        args.push(shared_dir);
        args.push("--sandbox".as_bytes_vec());
        args.push("none".as_bytes_vec());
        args.push("--log-level".as_bytes_vec());
        args.push("debug".as_bytes_vec());
        assert(args_view(args@) =~= launch_args(shared_dir@, socket_path@));
        Ok(Launch { program, args, socket_path })
    }

    /// The daemon, once its process was spawned.
    pub fn spawned(launch: Launch) -> (daemon: Virtiofsd)
        ensures
            daemon@ == (VirtiofsdView { running: true, socket_path: launch.socket_path@ }),
    {
        Virtiofsd { running: true, socket_path: launch.socket_path }
    }

    /// Where to connect a control channel to the daemon.
    pub fn connect(&self) -> (path: &[u8])
        ensures
            path@ == self@.socket_path,
    {
        self.socket_path.as_slice()
    }

    /// Whether there is a process to duplicate a handle of, for the frontend to
    /// pass objects through.
    pub fn process_handle(&self) -> (held: Result<(), VirtiofsdError>)
        ensures
            held == (if self@.running {
                Ok::<(), VirtiofsdError>(())
            } else {
                Err::<(), VirtiofsdError>(VirtiofsdError::NotRunning)
            }),
    {
        if self.running {
            Ok(())
        } else {
            Err(VirtiofsdError::NotRunning)
        }
    }

    /// A virtio-fs device behind `connection`, exposed to the guest under `tag`.
    pub fn fs_handle<C>(&self, connection: C, tag: &str) -> (handle: VhostUserFsHandle<C>)
        ensures
            handle.connection == connection,
            handle.tag@ == tag@,
            handle.num_queues is None,
            handle.queue_size is None,
    {
        VhostUserFsHandle {
            connection,
            tag: String::from_str(tag),
            num_queues: None,
            queue_size: None,
        }
    }

    /// Gives up the process, to be waited for.
    ///
    /// The daemon serves one connection and exits when the frontend disconnects.
    pub fn wait(&mut self) -> (held: Result<(), VirtiofsdError>)
        ensures
            held == (if old(self)@.running {
                Ok::<(), VirtiofsdError>(())
            } else {
                Err::<(), VirtiofsdError>(VirtiofsdError::AlreadyReaped)
            }),
            final(self)@ == (VirtiofsdView { running: false, ..old(self)@ }),
    {
        if self.running {
            self.running = false;
            Ok(())
        } else {
            Err(VirtiofsdError::AlreadyReaped)
        }
    }

    /// Gives up the daemon. Says whether its process is to be killed: it may be
    /// serving a connection that nobody is going to close.
    pub fn must_kill(&mut self) -> (kill: bool)
        ensures
            kill == old(self)@.running,
            final(self)@ == (VirtiofsdView { running: false, ..old(self)@ }),
    {
        let kill: bool = self.running;
        self.running = false;
        kill
    }
}

/// A path of the same bytes.
fn copy_path(path: &Vec<u8>) -> (copy: Vec<u8>)
    ensures
        copy@ == path@,
{
    let mut copy: Vec<u8> = Vec::new();
    copy.extend_from_slice(path.as_slice());
    assert(copy@ =~= path@);
    copy
}

/// What a wait for the daemon to listen does next.
#[derive(Debug, Clone, Copy, PartialEq, Eq, Structural)]
pub enum ListenWait {
    /// See whether the socket is there; the daemon creates it when it listens.
    ProbeSocket,
    /// See whether the daemon has exited.
    PollChild,
    /// See how long the wait has taken.
    ReadClock,
    /// Sleep for `LISTEN_POLL_MILLIS`.
    Sleep,
}

/// The outcome of an action. `S` is the exit status of a process and `E` the
/// error of asking for it.
#[derive(Debug)]
pub enum ListenEvent<S, E> {
    /// Whether the socket is there.
    Socket(bool),
    /// The daemon's exit status, if it has exited.
    Child(Result<Option<S>, E>),
    /// Nanoseconds since the wait began.
    Elapsed(u128),
    /// The sleep is over.
    Slept,
}

/// What comes of a step.
#[derive(Debug)]
pub enum ListenStep<S, E> {
    /// There is more to do.
    Next(ListenWait),
    /// The daemon listens.
    Listening,
    /// The daemon exited before it listened.
    Exited(S),
    /// Whether it exited could not be found out.
    PollFailed(E),
    /// The daemon took too long.
    TimedOut,
}

/// Whether `event` can be the outcome of what is done next.
pub open spec fn listen_event_fits<S, E>(wait: ListenWait, event: ListenEvent<S, E>) -> bool {
    match event {
        ListenEvent::Socket(exists) => wait is ProbeSocket,
        ListenEvent::Child(status) => wait is PollChild,
        ListenEvent::Elapsed(nanos) => wait is ReadClock,
        ListenEvent::Slept => wait is Sleep,
    }
}

/// What comes of an outcome: the socket decides first, then the daemon's exit,
/// then the time.
pub open spec fn listen_step<S, E>(event: ListenEvent<S, E>) -> ListenStep<S, E> {
    match event {
        ListenEvent::Socket(true) => ListenStep::Listening,
        ListenEvent::Socket(false) => ListenStep::Next(ListenWait::PollChild),
        ListenEvent::Child(Err(error)) => ListenStep::PollFailed(error),
        ListenEvent::Child(Ok(Some(status))) => ListenStep::Exited(status),
        ListenEvent::Child(Ok(None)) => ListenStep::Next(ListenWait::ReadClock),
        ListenEvent::Elapsed(nanos) => if nanos > LISTEN_TIMEOUT_NANOS {
            ListenStep::TimedOut
        } else {
            ListenStep::Next(ListenWait::Sleep)
        },
        ListenEvent::Slept => ListenStep::Next(ListenWait::ProbeSocket),
    }
}

/// What comes of one look at a daemon: at its socket, then at its process, then
/// at the clock.
pub open spec fn listen_round<S, E>(
    exists: bool,
    child: Result<Option<S>, E>,
    nanos: u128,
) -> ListenStep<S, E> {
    match listen_step::<S, E>(ListenEvent::Socket(exists)) {
        ListenStep::Next(_) => match listen_step(ListenEvent::Child(child)) {
            ListenStep::Next(_) => listen_step(ListenEvent::Elapsed(nanos)),
            end => end,
        },
        end => end,
    }
}

/// How a wait ends. A daemon that listens is found however late it is, and one
/// that exited is reported without waiting out the time. The wait goes on, and
/// comes back to the socket after a sleep, only while the daemon runs without
/// listening and the time is not over.
pub proof fn law_listen_round<S, E>(exists: bool, child: Result<Option<S>, E>, nanos: u128)
    ensures
        exists ==> listen_round(exists, child, nanos) is Listening,
        !exists ==> match child {
            Err(error) => listen_round(exists, child, nanos) == ListenStep::<S, E>::PollFailed(
                error,
            ),
            Ok(Some(status)) => listen_round(exists, child, nanos) == ListenStep::<S, E>::Exited(
                status,
            ),
            Ok(None) => if nanos > 10_000_000_000 {
                listen_round(exists, child, nanos) is TimedOut
            } else {
                listen_round(exists, child, nanos) == ListenStep::<S, E>::Next(ListenWait::Sleep)
            },
        },
        listen_step::<S, E>(ListenEvent::Socket(false)) == ListenStep::<S, E>::Next(
            ListenWait::PollChild,
        ),
        listen_step::<S, E>(ListenEvent::Child(Ok(None))) == ListenStep::<S, E>::Next(
            ListenWait::ReadClock,
        ),
        listen_step::<S, E>(ListenEvent::Slept) == ListenStep::<S, E>::Next(
            ListenWait::ProbeSocket,
        ),
{
}

impl ListenWait {
    /// Begins to wait for the daemon to listen.
    pub fn wait_for_listen() -> (wait: ListenWait)
        ensures
            wait is ProbeSocket,
    {
        ListenWait::ProbeSocket
    }

    /// Goes on with the outcome of the action.
    pub fn step<S, E>(self, event: ListenEvent<S, E>) -> (step: ListenStep<S, E>)
        requires
            listen_event_fits(self, event),
        ensures
            step == listen_step(event),
    {
        match event {
            ListenEvent::Socket(exists) => {
                if exists {
                    ListenStep::Listening
                } else {
                    ListenStep::Next(ListenWait::PollChild)
                }
            },
            ListenEvent::Child(Err(error)) => ListenStep::PollFailed(error),
            ListenEvent::Child(Ok(Some(status))) => ListenStep::Exited(status),
            ListenEvent::Child(Ok(None)) => ListenStep::Next(ListenWait::ReadClock),
            ListenEvent::Elapsed(nanos) => {
                if nanos > LISTEN_TIMEOUT_NANOS {
                    ListenStep::TimedOut
                } else {
                    ListenStep::Next(ListenWait::Sleep)
                }
            },
            ListenEvent::Slept => ListenStep::Next(ListenWait::ProbeSocket),
        }
    }
}

} // verus!
