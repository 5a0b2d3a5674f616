//! Process-signal tokens and the fan-out rules of the signal bus.
//!
//! A single ingest task receives the operating system's HUP, INT, QUIT, TERM
//! and USR2 notifications and turns each into a [`SignalToken`]. The token is
//! then emitted on up to two broadcast buses: one addressed at the front-end
//! listeners, one at the backend supervisor. The mapping, and whether the
//! ingest task keeps running afterwards, are fixed by [`fan_out`].

use vstd::prelude::*;

verus! {

/// A received operating-system signal, as carried on the in-process buses.
#[derive(Clone, Copy, Debug, PartialEq, Eq, Structural)]
pub enum SignalToken {
    /// SIGHUP: reload the backend worker.
    Hangup,
    /// SIGINT: quick shutdown.
    Interrupt,
    /// SIGQUIT: quick shutdown.
    Quit,
    /// SIGTERM: graceful shutdown with a bounded drain window.
    Terminate,
    /// SIGUSR2: zero-downtime restart of the backend worker.
    UserDefined2,
}

/// What the signal-ingest task does with one received token: which bus (if
/// any) receives it, and whether the ingest task returns afterwards.
#[derive(Clone, Copy, Debug, PartialEq, Eq, Structural)]
pub struct SignalFanOut {
    /// Token to emit on the front-end listener bus, if any.
    pub front_end: Option<SignalToken>,
    /// Token to emit on the backend supervisor bus, if any.
    pub backend: Option<SignalToken>,
    /// True when the ingest task returns after emitting.
    pub pump_exits: bool,
}

/// The fan-out table of the signal bus: which bus observes each token, and
/// whether the pump returns afterwards.
pub open spec fn spec_fan_out(token: SignalToken) -> SignalFanOut {
    match token {
        SignalToken::Hangup => SignalFanOut {
            front_end: None,
            backend: Some(SignalToken::Hangup),
            pump_exits: false,
        },
        SignalToken::Interrupt => SignalFanOut {
            front_end: Some(SignalToken::Interrupt),
            backend: Some(SignalToken::Interrupt),
            pump_exits: true,
        },
        SignalToken::Quit => SignalFanOut {
            front_end: Some(SignalToken::Quit),
            backend: Some(SignalToken::Quit),
            pump_exits: true,
        },
        SignalToken::Terminate => SignalFanOut {
            front_end: Some(SignalToken::Terminate),
            backend: None,
            pump_exits: true,
        },
        SignalToken::UserDefined2 => SignalFanOut {
            front_end: None,
            backend: Some(SignalToken::UserDefined2),
            pump_exits: false,
        },
    }
}

/// The fan-out of one received token.
///
/// HUP and USR2 go to the backend bus only and leave the pump running.
/// INT and QUIT go to both buses. TERM goes to the front-end bus only: the
/// front-end forwards it to the backend bus once its own drain window has
/// begun, so in-flight requests drain before the backend is torn down.
/// The pump returns exactly on INT, QUIT and TERM.
pub fn fan_out(token: SignalToken) -> (r: SignalFanOut)
    ensures
        r == spec_fan_out(token),
        r.pump_exits == (token == SignalToken::Interrupt || token == SignalToken::Quit
            || token == SignalToken::Terminate),
{
    match token {
        SignalToken::Hangup => SignalFanOut {
            front_end: None,
            backend: Some(SignalToken::Hangup),
            pump_exits: false,
        },
        SignalToken::Interrupt => SignalFanOut {
            front_end: Some(SignalToken::Interrupt),
            backend: Some(SignalToken::Interrupt),
            pump_exits: true,
        },
        SignalToken::Quit => SignalFanOut {
            front_end: Some(SignalToken::Quit),
            backend: Some(SignalToken::Quit),
            pump_exits: true,
        },
        SignalToken::Terminate => SignalFanOut {
            front_end: Some(SignalToken::Terminate),
            backend: None,
            pump_exits: true,
        },
        SignalToken::UserDefined2 => SignalFanOut {
            front_end: None,
            backend: Some(SignalToken::UserDefined2),
            pump_exits: false,
        },
    }
}

/// A token as a one-element emission, or none.
pub open spec fn emitted(o: Option<SignalToken>) -> Seq<SignalToken> {
    match o {
        Some(t) => seq![t],
        None => Seq::<SignalToken>::empty(),
    }
}

/// Everything the two buses observe when the pump receives the given tokens
/// in order: each token's fan-out, up to and including the first token that
/// makes the pump return.
pub open spec fn spec_pump(tokens: Seq<SignalToken>) -> (Seq<SignalToken>, Seq<SignalToken>)
    decreases tokens.len(),
{
    if tokens.len() == 0 {
        (Seq::<SignalToken>::empty(), Seq::<SignalToken>::empty())
    } else {
        let emission = spec_fan_out(tokens.first());
        let front = emitted(emission.front_end);
        let backend = emitted(emission.backend);
        if emission.pump_exits {
            (front, backend)
        } else {
            let rest = spec_pump(tokens.drop_first());
            (front + rest.0, backend + rest.1)
        }
    }
}

/// Runs the whole pump over the signals received in order, returning what
/// the front-end and backend buses observe.
#[verifier::loop_isolation(false)]
pub fn pump_emissions(tokens: &Vec<SignalToken>) -> (r: (Vec<SignalToken>, Vec<SignalToken>))
    ensures
        (r.0@, r.1@) == spec_pump(tokens@),
{
    let mut front: Vec<SignalToken> = Vec::new();
    let mut backend: Vec<SignalToken> = Vec::new();
    let mut i: usize = 0;
    proof {
        assert(tokens@.skip(0) =~= tokens@);
        assert(front@ + spec_pump(tokens@.skip(0)).0 =~= spec_pump(tokens@).0);
        assert(backend@ + spec_pump(tokens@.skip(0)).1 =~= spec_pump(tokens@).1);
    }
    while i < tokens.len()
        invariant
            0 <= i <= tokens@.len(),
            front@ + spec_pump(tokens@.skip(i as int)).0 == spec_pump(tokens@).0,
            backend@ + spec_pump(tokens@.skip(i as int)).1 == spec_pump(tokens@).1,
        decreases tokens@.len() - i,
    {
        proof {
            assert(tokens@.skip(i as int).first() == tokens@[i as int]);
            assert(tokens@.skip(i as int).drop_first() =~= tokens@.skip(i + 1));
        }
        let emission = fan_out(tokens[i]);
        if let Some(t) = emission.front_end {
            front.push(t);
        }
        if let Some(t) = emission.backend {
            backend.push(t);
        }
        if emission.pump_exits {
            proof {
                assert(front@ =~= spec_pump(tokens@).0);
                assert(backend@ =~= spec_pump(tokens@).1);
            }
            return (front, backend);
        }
        proof {
            assert(front@ + spec_pump(tokens@.skip(i + 1)).0 =~= spec_pump(tokens@).0);
            assert(backend@ + spec_pump(tokens@.skip(i + 1)).1 =~= spec_pump(tokens@).1);
        }
        i = i + 1;
    }
    proof {
        assert(tokens@.skip(tokens@.len() as int) =~= Seq::<SignalToken>::empty());
        assert(front@ =~= spec_pump(tokens@).0);
        assert(backend@ =~= spec_pump(tokens@).1);
    }
    (front, backend)
}

/// The pump ends with the first terminating signal: whatever the OS delivers
/// after the first of Interrupt, Quit or Terminate is observed on neither
/// bus.
pub proof fn lemma_pump_stops_at_first_terminating(tokens: Seq<SignalToken>, n: int)
    requires
        0 <= n < tokens.len(),
        spec_fan_out(tokens[n]).pump_exits,
        forall|k: int| 0 <= k < n ==> !spec_fan_out(#[trigger] tokens[k]).pump_exits,
    ensures
        spec_pump(tokens) == spec_pump(tokens.take(n + 1)),
    decreases n,
{
    let cut = tokens.take(n + 1);
    if n == 0 {
        assert(cut.first() == tokens.first());
    } else {
        assert(cut.first() == tokens.first());
        assert(cut.drop_first() =~= tokens.drop_first().take(n));
        lemma_pump_stops_at_first_terminating(tokens.drop_first(), n - 1);
    }
}

/// The bounded drain window of a graceful listener shutdown, in seconds.
pub const GRACEFUL_DRAIN_SECONDS: u64 = 30;

/// What a listener's shutdown coordinator does to its own listener.
#[derive(Clone, Copy, Debug, PartialEq, Eq, Structural)]
pub enum ListenerAction {
    /// Stop the listener at once, aborting open connections.
    Shutdown,
    /// Stop accepting new connections; let open ones finish within
    /// `drain_seconds`.
    GracefulShutdown { drain_seconds: u64 },
    /// The token is not addressed at listeners.
    Ignore,
}

/// One step of a listener's shutdown coordinator: the action on its own
/// listener, whether a Terminate token is forwarded to the backend bus in
/// the same step, and whether the coordinator task returns.
#[derive(Clone, Copy, Debug, PartialEq, Eq, Structural)]
pub struct CoordinatorStep {
    /// What happens to the listener.
    pub action: ListenerAction,
    /// True when a Terminate token is put on the backend bus now, so the
    /// backend drains in parallel with the front-end's own drain window.
    pub forward_terminate: bool,
    /// True when the coordinator task returns after this step.
    pub exits: bool,
}

/// The shutdown coordinator's reaction to one token from the front-end bus.
///
/// Interrupt and Quit shut the listener down at once; Terminate begins a
/// bounded graceful drain and — on the one coordinator that owns backend
/// forwarding (the plain HTTP listener's) — forwards Terminate to the
/// backend bus in the same step, never later than the listener's own
/// Terminate handling. All other tokens are ignored.
pub fn coordinator_step(token: SignalToken, owns_backend_forwarding: bool) -> (r: CoordinatorStep)
    ensures
        (token == SignalToken::Interrupt || token == SignalToken::Quit) ==> r == (CoordinatorStep {
            action: ListenerAction::Shutdown,
            forward_terminate: false,
            exits: true,
        }),
        token == SignalToken::Terminate ==> r == (CoordinatorStep {
            action: ListenerAction::GracefulShutdown { drain_seconds: GRACEFUL_DRAIN_SECONDS },
            forward_terminate: owns_backend_forwarding,
            exits: true,
        }),
        (token == SignalToken::Hangup || token == SignalToken::UserDefined2) ==> r == (
        CoordinatorStep { action: ListenerAction::Ignore, forward_terminate: false, exits: false }),
{
    match token {
        SignalToken::Interrupt | SignalToken::Quit => CoordinatorStep {
            action: ListenerAction::Shutdown,
            forward_terminate: false,
            exits: true,
        },
        SignalToken::Terminate => CoordinatorStep {
            action: ListenerAction::GracefulShutdown { drain_seconds: GRACEFUL_DRAIN_SECONDS },
            forward_terminate: owns_backend_forwarding,
            exits: true,
        },
        SignalToken::Hangup | SignalToken::UserDefined2 => CoordinatorStep {
            action: ListenerAction::Ignore,
            forward_terminate: false,
            exits: false,
        },
    }
}

} // verus!
