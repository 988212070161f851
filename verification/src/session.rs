//! The capture session: the parameters of one subprocess invocation and the
//! lifecycle state machine that guarantees exactly-once, idempotent
//! termination.
//!
//! The subprocess itself is spawned and reaped by the surrounding binary;
//! the session here owns the decisions: which arguments to pass, which
//! state follows which, and whether a stop signal is still owed.

use vstd::prelude::*;
use crate::digits::{dec_chars, u64_to_decimal};
use crate::errors::ConfigError;
use crate::pattern::{pattern_compiles, DomainPattern};

verus! {

/// The lifecycle of the one capture subprocess.
#[derive(Clone, Copy, Debug, PartialEq, Eq, Structural)]
pub enum SessionState {
    /// The subprocess has been spawned; its output is not yet being read.
    Spawned,
    /// Output lines are being read.
    Streaming,
    /// The stop signal has been sent; the exit is not yet reaped.
    Terminating,
    /// The subprocess has fully exited and been reaped.
    Terminated,
}

/// Where a session ends up after `terminate`, from any state: always
/// `Terminated`.
pub open spec fn terminate_transition(s: SessionState) -> SessionState {
    SessionState::Terminated
}

/// Whether a session in this state still owes the subprocess a stop signal.
pub open spec fn needs_signal(s: SessionState) -> bool {
    s != SessionState::Terminated
}

/// Terminating is idempotent: a second `terminate` finds the session
/// already `Terminated`, leaves it there, and owes no further signal, so
/// two calls have the same effect as one.
pub proof fn lemma_terminate_idempotent(s: SessionState)
    ensures
        terminate_transition(terminate_transition(s)) == terminate_transition(s),
        !needs_signal(terminate_transition(s)),
{
}

/// The parameters of one capture: immutable once constructed, with the
/// invariants `timeout_seconds > 0`, `target_count > 0` and a compiling
/// domain pattern established at construction.
pub struct CaptureRequest {
    pub interface: String,
    pub timeout_seconds: u64,
    pub target_count: usize,
    pub pattern: DomainPattern,
}

/// The duration argument handed to the subprocess: it self-terminates after
/// the declared number of seconds.
pub open spec fn duration_arg_spec(timeout: int) -> Seq<char> {
    "duration:"@ + dec_chars(timeout)
}

/// The full argument list of the capture invocation: the interface, the
/// hard duration limit, the capture filter on the well-known TLS port, the
/// display filter on ClientHello messages, and field output of the server
/// name and the raw TCP payload separated by `|`.
pub open spec fn invocation_args_spec(interface: Seq<char>, timeout: int) -> Seq<Seq<char>> {
    seq![
        "-i"@,
        interface,
        "-a"@,
        duration_arg_spec(timeout),
        "-f"@,
        "tcp port 443"@,
        "-Y"@,
        "tls.handshake.type == 1"@,
        "-T"@,
        "fields"@,
        "-e"@,
        "tls.handshake.extensions_server_name"@,
        "-e"@,
        "tcp.payload"@,
        "-E"@,
        "separator=|"@,
    ]
}

impl CaptureRequest {
    /// The request invariant established by `new`.
    pub open spec fn wf(&self) -> bool {
        self.timeout_seconds > 0 && self.target_count > 0
    }

    /// Builds a request, rejecting a non-compiling pattern, a zero timeout
    /// and a zero target count, in that order of precedence.
    pub fn new(interface: String, timeout_seconds: u64, target_count: usize, pattern_text: &str)
        -> (r: Result<CaptureRequest, ConfigError>)
        ensures
            !pattern_compiles(pattern_text@) ==> r == Err::<CaptureRequest, ConfigError>(
                ConfigError::InvalidPattern,
            ),
            pattern_compiles(pattern_text@) && timeout_seconds == 0 ==> r == Err::<
                CaptureRequest,
                ConfigError,
            >(ConfigError::ZeroTimeout),
            pattern_compiles(pattern_text@) && timeout_seconds > 0 && target_count == 0 ==> r
                == Err::<CaptureRequest, ConfigError>(ConfigError::ZeroTarget),
            r matches Ok(req) ==> pattern_compiles(pattern_text@) && req.wf()
                && req.interface@ == interface@ && req.timeout_seconds == timeout_seconds
                && req.target_count == target_count && req.pattern@ == pattern_text@,
            r is Ok <==> pattern_compiles(pattern_text@) && timeout_seconds > 0 && target_count
                > 0,
    {
        let pattern = match DomainPattern::new(pattern_text) {
            Ok(p) => p,
            Err(e) => {
                return Err(e);
            },
        };
        if timeout_seconds == 0 {
            return Err(ConfigError::ZeroTimeout);
        }
        if target_count == 0 {
            return Err(ConfigError::ZeroTarget);
        }
        Ok(CaptureRequest { interface, timeout_seconds, target_count, pattern })
    }

    /// The argument list of the capture invocation for this request.
    pub fn invocation_args(&self) -> (r: Vec<String>)
        ensures
            r.deep_view() == invocation_args_spec(self.interface@, self.timeout_seconds as int),
    {
        let mut args: Vec<String> = Vec::new();
        args.push(String::from_str("-i"));
        args.push(self.interface.clone());
        args.push(String::from_str("-a"));
        let mut duration = String::from_str("duration:");
        let rendered = u64_to_decimal(self.timeout_seconds);
        duration.append(rendered.as_str());
        args.push(duration);
        args.push(String::from_str("-f"));
        args.push(String::from_str("tcp port 443"));
        args.push(String::from_str("-Y"));
        args.push(String::from_str("tls.handshake.type == 1"));
        args.push(String::from_str("-T"));
        args.push(String::from_str("fields"));
        args.push(String::from_str("-e"));
        args.push(String::from_str("tls.handshake.extensions_server_name"));
        args.push(String::from_str("-e"));
        args.push(String::from_str("tcp.payload"));
        args.push(String::from_str("-E"));
        args.push(String::from_str("separator=|"));
        proof {
            assert(args.deep_view() =~~= invocation_args_spec(
                self.interface@,
                self.timeout_seconds as int,
            ));
        }
        args
    }
}

/// The lifecycle tracker of one capture subprocess. The surrounding binary
/// performs the spawn, the stop signal and the reap; the session dictates
/// the transitions and guarantees the terminate path is taken exactly once.
pub struct CaptureSession {
    state: SessionState,
}

impl View for CaptureSession {
    type V = SessionState;

    closed spec fn view(&self) -> SessionState {
        self.state
    }
}

impl CaptureSession {
    /// A session for a freshly spawned subprocess.
    pub fn new() -> (s: CaptureSession)
        ensures
            s@ == SessionState::Spawned,
    {
        CaptureSession { state: SessionState::Spawned }
    }

    /// The current lifecycle state.
    pub fn state(&self) -> (r: SessionState)
        ensures
            r == self@,
    {
        self.state
    }

    /// Records that the subprocess output is being read.
    pub fn mark_streaming(&mut self)
        requires
            old(self)@ == SessionState::Spawned,
        ensures
            final(self)@ == SessionState::Streaming,
    {
        self.state = SessionState::Streaming;
    }

    /// Begins termination: reports whether a stop signal is still owed and
    /// moves a live session to `Terminating`. A terminated session stays
    /// terminated and owes nothing.
    pub fn begin_terminate(&mut self) -> (signal: bool)
        ensures
            signal == needs_signal(old(self)@),
            final(self)@ == if old(self)@ == SessionState::Terminated {
                SessionState::Terminated
            } else {
                SessionState::Terminating
            },
    {
        if self.state == SessionState::Terminated {
            false
        } else {
            self.state = SessionState::Terminating;
            true
        }
    }

    /// Completes termination after the exit has been reaped.
    pub fn finish_terminate(&mut self)
        ensures
            final(self)@ == SessionState::Terminated,
    {
        self.state = SessionState::Terminated;
    }

    /// Terminates unconditionally and idempotently: afterwards the session
    /// is `Terminated`, and the result says whether the caller must still
    /// signal and reap the subprocess (false when already terminated).
    pub fn terminate(&mut self) -> (signal: bool)
        ensures
            final(self)@ == terminate_transition(old(self)@),
            signal == needs_signal(old(self)@),
    {
        let signal = self.begin_terminate();
        self.finish_terminate();
        signal
    }
}

} // verus!
