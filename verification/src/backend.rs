//! The backend worker supervisor: spawn spec, signal delivery and the
//! zero-downtime restart handshake.
//!
//! The supervisor owns one child worker process. It records the worker's PID
//! and delivers OS signals to it on command: SIGHUP to reload, SIGTERM to
//! shut down, SIGUSR2 to begin the restart handshake. Spawning the child and
//! polling the filesystem are outside work; their outcomes are handed in as
//! plain values ([`Backend::record_started`], [`SuccessorProbe`],
//! [`Backend::restart_finish`]).

use vstd::prelude::*;
use vstd::string::StringExecFns;

use crate::signal::SignalToken;

verus! {

/// The immutable record of how the worker is launched: the program, its
/// arguments, and the PID file it maintains (production mode only).
pub struct BackendSpec {
    /// Program to execute.
    pub program: String,
    /// Arguments handed to the program.
    pub args: Vec<String>,
    /// Path of the worker's PID file; present only in production mode.
    /// Without it the restart handshake is refused.
    pub pid_file_path: Option<String>,
}

impl BackendSpec {
    /// The debug-mode launcher: the in-process development server, with no
    /// PID file and hence no restart capability.
    pub fn for_debug() -> (r: BackendSpec)
        ensures
            r.program@ == "./manage.py"@,
            r.args@.len() == 1,
            r.args@[0]@ == "dev_server"@,
            r.pid_file_path is None,
    {
        BackendSpec {
            program: "./manage.py".to_owned(),
            args: vec!["dev_server".to_owned()],
            pid_file_path: None,
        }
    }

    /// The production launcher: the external WSGI/ASGI runner, invoked with
    /// a PID-file flag so that the restart handshake can find the successor.
    pub fn for_production(pid_file_path: String) -> (r: BackendSpec)
        ensures
            r.program@ == "gunicorn"@,
            r.args@.len() == 5,
            r.args@[0]@ == "-c"@,
            r.args@[1]@ == "./lifecycle/gunicorn.conf.py"@,
            r.args@[2]@ == "authentik.root.asgi:application"@,
            r.args@[3]@ == "--pid"@,
            r.args@[4]@ == pid_file_path@,
            r.pid_file_path == Some(pid_file_path),
    {
        let path_arg = pid_file_path.clone();
        BackendSpec {
            program: "gunicorn".to_owned(),
            args: vec![
                "-c".to_owned(),
                "./lifecycle/gunicorn.conf.py".to_owned(),
                "authentik.root.asgi:application".to_owned(),
                "--pid".to_owned(),
                path_arg,
            ],
            pid_file_path: Some(pid_file_path),
        }
    }
}

/// The supervisor's view of the worker: its launch spec and the PID that is
/// authoritative for signal delivery. When `current_pid` is `None`, every
/// signal-forwarding operation is a no-op that reports [`SignalAttempt::NoWorker`].
pub struct Backend {
    /// How the worker is (re)launched.
    pub spec: BackendSpec,
    /// PID of the running worker, if one was recorded.
    pub current_pid: Option<i32>,
}

/// What one signal-forwarding operation did.
#[derive(Clone, Copy, Debug, PartialEq, Eq, Structural)]
pub enum SignalAttempt {
    /// No worker PID is recorded; nothing was signalled.
    NoWorker,
    /// `signal` was handed to the operating system for `pid`. `delivered`
    /// is false when the OS refused delivery (stale PID, permissions);
    /// such failures are logged by callers and never escalate.
    Attempted { signal: SignalToken, pid: i32, delivered: bool },
}

/// Relies on nix::sys::signal::kill: delivers the POSIX signal that `sig`
/// stands for to the process `pid`, returning `Err` with the errno value
/// when the OS refuses (ESRCH, EPERM). Whether delivery succeeds depends on
/// the processes alive at the call, so nothing more is promised of it.
#[verifier::external_body]
fn deliver_signal(pid: i32, sig: SignalToken) -> (r: Result<(), i32>) {
    let signal = match sig {
        SignalToken::Hangup => nix::sys::signal::Signal::SIGHUP,
        SignalToken::Interrupt => nix::sys::signal::Signal::SIGINT,
        SignalToken::Quit => nix::sys::signal::Signal::SIGQUIT,
        SignalToken::Terminate => nix::sys::signal::Signal::SIGTERM,
        SignalToken::UserDefined2 => nix::sys::signal::Signal::SIGUSR2,
    };
    match nix::sys::signal::kill(nix::unistd::Pid::from_raw(pid), signal) {
        Ok(()) => Ok(()),
        Err(errno) => Err(errno as i32),
    }
}

impl Backend {
    /// A supervisor for a worker that has not been started yet.
    pub fn new(spec: BackendSpec) -> (r: Backend)
        ensures
            r.spec == spec,
            r.current_pid is None,
    {
        Backend { spec, current_pid: None }
    }

    /// Records the PID of the worker that the caller has just spawned from
    /// this supervisor's spec. The recorded PID is authoritative for all
    /// later signal delivery.
    pub fn record_started(&mut self, pid: i32)
        ensures
            final(self).spec == old(self).spec,
            final(self).current_pid == Some(pid),
    {
        self.current_pid = Some(pid);
    }

    /// Sends `sig` to the recorded worker, if there is one. Delivery failure
    /// is reported, not escalated, and never changes the supervisor's state.
    fn forward(&self, sig: SignalToken) -> (r: SignalAttempt)
        ensures
            self.current_pid is None <==> r is NoWorker,
            self.current_pid is Some ==> (r matches SignalAttempt::Attempted { signal, pid, .. }
                && signal == sig && pid == self.current_pid->0),
    {
        match self.current_pid {
            Some(pid) => {
                let delivered = deliver_signal(pid, sig).is_ok();
                SignalAttempt::Attempted { signal: sig, pid, delivered }
            }
            None => SignalAttempt::NoWorker,
        }
    }

    /// Reload (on Hangup): sends SIGHUP to the worker. A no-op without a
    /// recorded worker; a delivery failure is reported, not fatal.
    pub fn reload(&self) -> (r: SignalAttempt)
        ensures
            self.current_pid is None <==> r is NoWorker,
            self.current_pid is Some ==> (r matches SignalAttempt::Attempted { signal, pid, .. }
                && signal == SignalToken::Hangup && pid == self.current_pid->0),
    {
        self.forward(SignalToken::Hangup)
    }

    /// Quick shutdown (on Interrupt or Quit): sends SIGTERM to the worker.
    pub fn quick_shutdown(&self) -> (r: SignalAttempt)
        ensures
            self.current_pid is None <==> r is NoWorker,
            self.current_pid is Some ==> (r matches SignalAttempt::Attempted { signal, pid, .. }
                && signal == SignalToken::Terminate && pid == self.current_pid->0),
    {
        self.forward(SignalToken::Terminate)
    }

    /// Graceful shutdown (on Terminate): sends SIGTERM to the worker. It is
    /// distinct from [`Backend::quick_shutdown`] only at the front-end layer,
    /// which runs a bounded drain window on the graceful path.
    pub fn graceful_shutdown(&self) -> (r: SignalAttempt)
        ensures
            self.current_pid is None <==> r is NoWorker,
            self.current_pid is Some ==> (r matches SignalAttempt::Attempted { signal, pid, .. }
                && signal == SignalToken::Terminate && pid == self.current_pid->0),
    {
        self.forward(SignalToken::Terminate)
    }
}

/// The path of the successor PID file that the restart handshake polls:
/// the worker's own PID file path with `".2"` appended.
pub fn successor_pid_path(pid_file_path: &str) -> (r: String)
    ensures
        r@ == pid_file_path@ + ".2"@,
{
    let mut path = pid_file_path.to_owned();
    path.append(".2");
    path
}

/// How the first step of the restart handshake ended.
pub enum RestartBegin {
    /// Debug mode (no PID file) or no recorded worker: restart is refused
    /// and logged; the supervisor stays as it is.
    NotEligible,
    /// SIGUSR2 could not be delivered to the worker; the restart is
    /// abandoned with the old worker left in place.
    SignalFailed,
    /// SIGUSR2 was delivered: poll this path until the successor's PID file
    /// appears, then finish with [`Backend::restart_finish`].
    AwaitSuccessor {
        /// The successor PID file to poll.
        successor_path: String,
    },
}

/// Outcome of one filesystem probe for the successor PID file.
#[derive(Clone, Copy, Debug, PartialEq, Eq, Structural)]
pub enum SuccessorProbe {
    /// The file exists.
    Present,
    /// The file does not exist yet.
    Absent,
    /// The probe itself failed — distinct from "not present".
    ProbeError,
}

/// What the restart poll loop does after one probe, taken every second.
#[derive(Clone, Copy, Debug, PartialEq, Eq, Structural)]
pub enum PollStep {
    /// The successor's PID file is there: read it and finish the handshake.
    ReadSuccessor,
    /// Not there yet: probe again after the next tick. The wait is
    /// unbounded; callers that need a timeout layer one above.
    Wait,
    /// The probe errored: abort the restart, keeping the old worker.
    AbortRestart,
}

/// The restart poll loop's reaction to one filesystem probe.
pub fn restart_poll_step(probe: SuccessorProbe) -> (r: PollStep)
    ensures
        probe == SuccessorProbe::Present ==> r == PollStep::ReadSuccessor,
        probe == SuccessorProbe::Absent ==> r == PollStep::Wait,
        probe == SuccessorProbe::ProbeError ==> r == PollStep::AbortRestart,
{
    match probe {
        SuccessorProbe::Present => PollStep::ReadSuccessor,
        SuccessorProbe::Absent => PollStep::Wait,
        SuccessorProbe::ProbeError => PollStep::AbortRestart,
    }
}

/// How the last step of the restart handshake ended.
#[derive(Clone, Copy, Debug, PartialEq, Eq, Structural)]
pub enum RestartFinish {
    /// The successor's PID file did not parse; the restart is abandoned and
    /// the old worker stays in place.
    Aborted,
    /// The successor was adopted as the current worker. SIGTERM was handed
    /// to the OS for the predecessor (`delivered` is false when the OS
    /// refused; that is logged, not escalated).
    Completed { old_pid: i32, new_pid: i32, delivered: bool },
}

impl Backend {
    /// The restart handshake's precondition and targets: the worker PID that
    /// receives SIGUSR2 and the successor PID-file path to poll. `None` when
    /// the supervisor is not eligible: no recorded worker, or no PID file
    /// (debug mode).
    pub fn restart_target(&self) -> (r: Option<(i32, String)>)
        ensures
            r is Some <==> (self.current_pid is Some && self.spec.pid_file_path is Some),
            r is Some ==> (r->0).0 == self.current_pid->0 && ((r->0).1)@
                == self.spec.pid_file_path->0@ + ".2"@,
    {
        match self.current_pid {
            Some(pid) => match &self.spec.pid_file_path {
                Some(path) => Some((pid, successor_pid_path(path.as_str()))),
                None => None,
            },
            None => None,
        }
    }

    /// Begins the zero-downtime restart (on UserDefined2): sends SIGUSR2 to
    /// the worker, which the runner takes as "spawn a replacement". The
    /// supervisor's own state does not change until the successor is
    /// discovered and adopted by [`Backend::restart_finish`].
    pub fn restart_begin(&self) -> (r: RestartBegin)
        ensures
            r is NotEligible <==> !(self.current_pid is Some
                && self.spec.pid_file_path is Some),
            r matches RestartBegin::AwaitSuccessor { successor_path } ==> successor_path@
                == self.spec.pid_file_path->0@ + ".2"@,
    {
        match self.restart_target() {
            Some((pid, successor_path)) => {
                if deliver_signal(pid, SignalToken::UserDefined2).is_ok() {
                    RestartBegin::AwaitSuccessor { successor_path }
                } else {
                    RestartBegin::SignalFailed
                }
            }
            None => RestartBegin::NotEligible,
        }
    }

    /// Finishes the restart handshake with the successor PID file's
    /// contents: parses the PID, retires the predecessor with SIGTERM, and
    /// makes the successor the current worker. A parse failure aborts the
    /// restart and leaves the supervisor exactly as it was.
    pub fn restart_finish(&mut self, contents: &str) -> (r: RestartFinish)
        requires
            old(self).current_pid is Some,
        ensures
            final(self).spec == old(self).spec,
            crate::pidfile::parsed_pid(contents@) is None ==> r == RestartFinish::Aborted
                && *final(self) == *old(self),
            crate::pidfile::parsed_pid(contents@) is Some ==> {
                &&& final(self).current_pid is Some
                &&& final(self).current_pid->0 as int == crate::pidfile::parsed_pid(contents@)->0
                &&& (r matches RestartFinish::Completed { old_pid, new_pid, .. }
                    && old_pid == old(self).current_pid->0
                    && new_pid as int == crate::pidfile::parsed_pid(contents@)->0)
            },
    {
        match crate::pidfile::parse_pid(contents) {
            Some(new_pid) => {
                let old_pid = self.current_pid.unwrap();
                let delivered = deliver_signal(old_pid, SignalToken::Terminate).is_ok();
                self.current_pid = Some(new_pid);
                RestartFinish::Completed { old_pid, new_pid, delivered }
            }
            None => RestartFinish::Aborted,
        }
    }
}

/// What the backend supervisor does with one token from its bus, and whether
/// its signal loop returns afterwards.
#[derive(Clone, Copy, Debug, PartialEq, Eq, Structural)]
pub enum SupervisorStep {
    /// Reload the worker (SIGHUP to it).
    Reload,
    /// Quick shutdown: SIGTERM to the worker, then stop supervising.
    QuickShutdown,
    /// Graceful shutdown: SIGTERM to the worker, then stop supervising. The
    /// bounded drain window is the front-end's affair.
    GracefulShutdown,
    /// Run the zero-downtime restart handshake.
    Restart,
}

/// The supervisor's dispatch table: which operation one bus token commands,
/// and whether the supervisor's signal loop exits after it.
pub fn supervisor_step(token: SignalToken) -> (r: (SupervisorStep, bool))
    ensures
        token == SignalToken::Hangup ==> r == (SupervisorStep::Reload, false),
        token == SignalToken::Interrupt ==> r == (SupervisorStep::QuickShutdown, true),
        token == SignalToken::Quit ==> r == (SupervisorStep::QuickShutdown, true),
        token == SignalToken::Terminate ==> r == (SupervisorStep::GracefulShutdown, true),
        token == SignalToken::UserDefined2 ==> r == (SupervisorStep::Restart, false),
{
    match token {
        SignalToken::Hangup => (SupervisorStep::Reload, false),
        SignalToken::Interrupt | SignalToken::Quit => (SupervisorStep::QuickShutdown, true),
        SignalToken::Terminate => (SupervisorStep::GracefulShutdown, true),
        SignalToken::UserDefined2 => (SupervisorStep::Restart, false),
    }
}

} // verus!
