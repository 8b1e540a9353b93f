//! Supervisor state for the locally spawned Ollama inference server: the
//! fixed host and port it is bound to, the lifecycle status of the owned
//! process, and the liveness decision taken on each poll of that process.

use vstd::prelude::*;
use vstd::string::StringExecFns;

use crate::text::dec_seq;
use crate::text::i64_dec;
use crate::text::int_seq;
use crate::text::u64_dec;

verus! {

/// Lifecycle status of the supervised server process.
#[derive(Clone, Copy, PartialEq, Eq, Structural, Debug)]
pub enum Status {
    NotStarted,
    Running,
    Exited(i32),
}

/// The point-in-time observation of the owned process that a liveness check
/// consumes: still running, exited with a code, or the poll itself failed
/// with a diagnostic.
pub enum Poll {
    StillRunning,
    Exited(i32),
    PollError(String),
}

/// The supervisor of the local inference server: the fixed endpoint the
/// server is bound to and the status of the owned process.
pub struct ParrotLlama {
    pub host: String,
    pub port: u16,
    pub status: Status,
}

impl ParrotLlama {
    /// A supervisor for the fixed local endpoint, with no process started.
    pub fn new() -> (s: Self)
        ensures
            s.host@ == "http://localhost"@,
            s.port == 51821,
            s.status is NotStarted,
    {
        ParrotLlama { host: String::from_str("http://localhost"), port: 51821, status: Status::NotStarted }
    }

    /// The `host:port` binding the server process must be configured with;
    /// both sides of the connection agree on this value.
    pub fn endpoint(&self) -> (r: String)
        ensures
            r@ == self.host@ + ":"@ + dec_seq(self.port as nat),
    {
        let mut s = self.host.clone();
        s.append(":");
        let p = u64_dec(self.port as u64);
        s.append(p.as_str());
        s
    }

    /// Records that the server process has been spawned: the supervisor now
    /// owns a running process. The spawn itself is the caller's side effect.
    pub fn run(&mut self)
        ensures
            final(self).status is Running,
            final(self).host == old(self).host,
            final(self).port == old(self).port,
    {
        self.status = Status::Running;
    }

    /// The liveness decision for one poll of the owned process: whether the
    /// server is confirmed still running, and the diagnostic to log when it
    /// is not. Before any start the poll is not consulted; an observed exit
    /// is recorded in the status.
    pub fn check_server(&mut self, poll: Poll) -> (r: (bool, Option<String>))
        ensures
            final(self).host == old(self).host,
            final(self).port == old(self).port,
            old(self).status is NotStarted ==> !r.0 && final(self).status == old(self).status
                && r.1 is Some && r.1->0@ == "Process is not set"@,
            !(old(self).status is NotStarted) ==> match poll {
                Poll::StillRunning => r.0 && r.1 is None && final(self).status == old(self).status,
                Poll::Exited(code) => !r.0 && final(self).status == Status::Exited(code)
                    && r.1 is Some && r.1->0@ == "Ollama server exited with: "@ + int_seq(
                    code as int,
                ),
                Poll::PollError(msg) => !r.0 && final(self).status == old(self).status
                    && r.1 is Some && r.1->0@ == "Error checking Ollama server status: "@ + msg@,
            },
    {
        match self.status {
            Status::NotStarted => (false, Some(String::from_str("Process is not set"))),
            _ => match poll {
                Poll::StillRunning => (true, None),
                Poll::Exited(code) => {
                    self.status = Status::Exited(code);
                    let mut m = String::from_str("Ollama server exited with: ");
                    let digits = i64_dec(code as i64);
                    m.append(digits.as_str());
                    (false, Some(m))
                },
                Poll::PollError(msg) => {
                    let mut m = String::from_str("Error checking Ollama server status: ");
                    m.append(msg.as_str());
                    (false, Some(m))
                },
            },
        }
    }
}

} // verus!
