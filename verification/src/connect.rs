//! The connect-with-timeout state machine.
//!
//! The operating system offers no timed connect for Bluetooth sockets, so
//! one is built by hand: issue a nonblocking connect, restore blocking mode,
//! and then wait for write-readiness under a wall-clock deadline. This
//! module holds every decision of that protocol; the surrounding platform
//! glue performs the system calls, measures elapsed time, and reports each
//! outcome back as a plain event.
//!
//! A readiness event that includes a hangup or error condition means the
//! connection was refused even though the socket looks writable, so the
//! pending socket error is fetched and returned; when that slot is empty —
//! a genuine, narrow race — a generic error stands in. A wait interrupted
//! by a signal is retried transparently. All native error codes are carried
//! as plain values, so one machine serves both platform families.

use vstd::prelude::*;

use crate::duration::BtDuration;
use crate::error::BtError;

verus! {

/// Where a connect-with-timeout attempt stands.
#[derive(Clone, Copy, Debug, PartialEq, Eq, Structural)]
pub enum ConnectState {
    /// The nonblocking connect is to be issued next.
    Issued,
    /// The connect is in progress; the socket is being waited on for
    /// write-readiness under the deadline.
    AwaitingWritable,
    /// The connection is established.
    Connected,
    /// The attempt failed with the carried error.
    Failed(BtError),
    /// The deadline passed before the connection completed.
    TimedOut,
}

/// What the platform glue observed from one readiness wait.
#[derive(Clone, Copy, Debug, PartialEq, Eq, Structural)]
pub enum PollOutcome {
    /// The wait itself failed with the native error code.
    Error(i32),
    /// The wait expired without the socket becoming ready.
    Expired,
    /// The socket became ready. `hangup` is true when the readiness event
    /// included the hangup or error condition; `pending` is then the native
    /// error read (and cleared) from the socket's pending-error slot, if
    /// any was set.
    Ready { hangup: bool, pending: Option<i32> },
}

/// One connect-with-timeout attempt: the requested deadline, the two native
/// codes the protocol must recognise, and the current state.
#[derive(Clone, Copy, Debug, PartialEq, Eq, Structural)]
pub struct ConnectTimeout {
    /// The requested overall timeout; never zero.
    pub timeout: BtDuration,
    /// The native code the nonblocking connect reports while the attempt is
    /// still in progress (`EINPROGRESS` or the would-block code).
    pub in_progress_code: i32,
    /// The native code of a signal-interrupted wait (`EINTR`).
    pub interrupted_code: i32,
    /// Where the attempt stands.
    pub state: ConnectState,
}

/// The milliseconds to hand to one readiness wait when `rem_nanos`
/// nanoseconds of the deadline remain: the remainder rounded down, but at
/// least one millisecond, and capped at the widest wait the native call
/// accepts.
pub open spec fn wait_millis_spec(rem_nanos: int) -> i32 {
    let ms = rem_nanos / 1_000_000;
    if ms == 0 {
        1i32
    } else if ms > i32::MAX {
        i32::MAX
    } else {
        ms as i32
    }
}

impl ConnectTimeout {
    /// The machine's bookkeeping is intact: the deadline is well formed and
    /// nonzero.
    pub open spec fn wf(self) -> bool {
        self.timeout.wf() && self.timeout.as_nanos_spec() > 0
    }

    /// Begins a connect-with-timeout attempt.
    ///
    /// A zero duration is rejected up front with `InvalidInput`, before any
    /// socket operation is issued; otherwise the machine starts in
    /// `Issued`, directing the caller to issue the nonblocking connect.
    pub fn new(timeout: BtDuration, in_progress_code: i32, interrupted_code: i32) -> (r: Result<
        ConnectTimeout,
        BtError,
    >)
        requires
            timeout.wf(),
        ensures
            timeout.as_nanos_spec() == 0 ==> r == Result::<ConnectTimeout, BtError>::Err(
                BtError::InvalidInput,
            ),
            timeout.as_nanos_spec() != 0 ==> r == Result::<ConnectTimeout, BtError>::Ok(
                ConnectTimeout { timeout, in_progress_code, interrupted_code, state: ConnectState::Issued },
            ),
            r matches Ok(m) ==> m.wf(),
    {
        if timeout.is_zero() {
            Err(BtError::InvalidInput)
        } else {
            Ok(
                ConnectTimeout {
                    timeout,
                    in_progress_code,
                    interrupted_code,
                    state: ConnectState::Issued,
                },
            )
        }
    }

    /// Records the outcome of the nonblocking connect: `None` for immediate
    /// success, `Some(code)` for a native error code.
    ///
    /// Immediate success connects; the in-progress code moves to the
    /// readiness wait; any other error fails the attempt at once, without
    /// waiting.
    pub fn on_connect_result(&mut self, errno: Option<i32>)
        requires
            old(self).state is Issued,
        ensures
            *final(self) == (ConnectTimeout {
                state: match errno {
                    Option::None => ConnectState::Connected,
                    Option::Some(e) => if e == old(self).in_progress_code {
                        ConnectState::AwaitingWritable
                    } else {
                        ConnectState::Failed(BtError::Os(e))
                    },
                },
                ..*old(self)
            }),
    {
        match errno {
            None => {
                self.state = ConnectState::Connected;
            },
            Some(e) => {
                if e == self.in_progress_code {
                    self.state = ConnectState::AwaitingWritable;
                } else {
                    self.state = ConnectState::Failed(BtError::Os(e));
                }
            },
        }
    }

    /// Checks the deadline before one readiness wait, given the time elapsed
    /// since the attempt began.
    ///
    /// When the elapsed time has reached the timeout, the attempt times out
    /// and `None` is returned; otherwise the state is unchanged and the
    /// caller receives the bounded wait, in milliseconds, for the next
    /// readiness call.
    pub fn next_wait(&mut self, elapsed: &BtDuration) -> (w: Option<i32>)
        requires
            old(self).state is AwaitingWritable,
            old(self).wf(),
            elapsed.wf(),
        ensures
            elapsed.as_nanos_spec() >= old(self).timeout.as_nanos_spec() ==> *final(self) == (
            ConnectTimeout { state: ConnectState::TimedOut, ..*old(self) }) && w is None,
            elapsed.as_nanos_spec() < old(self).timeout.as_nanos_spec() ==> *final(self) == *old(self)
                && w == Option::Some(
                wait_millis_spec(old(self).timeout.as_nanos_spec() - elapsed.as_nanos_spec()),
            ),
    {
        if elapsed.ge(&self.timeout) {
            self.state = ConnectState::TimedOut;
            return None;
        }
        let rem = self.timeout.sub(elapsed);
        let sub_ms: u64 = (rem.nanos / 1_000_000) as u64;
        let ms: u64 = match rem.secs.checked_mul(1000) {
            Some(m) => match m.checked_add(sub_ms) {
                Some(t) => t,
                None => u64::MAX,
            },
            None => u64::MAX,
        };
        proof {
            let rn = self.timeout.as_nanos_spec() - elapsed.as_nanos_spec();
            assert(rem.secs * 1000 + rem.nanos / 1_000_000 == rn / 1_000_000) by (nonlinear_arith)
                requires
                    rem.nanos < 1_000_000_000,
                    rn == rem.secs * 1_000_000_000 + rem.nanos,
            ;
        }
        let w: i32 = if ms == 0 {
            1
        } else if ms > i32::MAX as u64 {
            i32::MAX
        } else {
            ms as i32
        };
        Some(w)
    }

    /// Records the outcome of one readiness wait.
    ///
    /// A signal-interrupted wait and an expired wait leave the state
    /// unchanged, so the caller re-checks the deadline and waits again. Any
    /// other wait failure fails the attempt. A readiness event without the
    /// hangup condition connects; one with it fails with the pending socket
    /// error, or with a generic error when no pending error was set.
    pub fn on_poll(&mut self, outcome: PollOutcome)
        requires
            old(self).state is AwaitingWritable,
        ensures
            *final(self) == (ConnectTimeout {
                state: match outcome {
                    PollOutcome::Error(e) => if e == old(self).interrupted_code {
                        ConnectState::AwaitingWritable
                    } else {
                        ConnectState::Failed(BtError::Os(e))
                    },
                    PollOutcome::Expired => ConnectState::AwaitingWritable,
                    PollOutcome::Ready { hangup, pending } => if !hangup {
                        ConnectState::Connected
                    } else {
                        match pending {
                            Option::Some(e) => ConnectState::Failed(BtError::Os(e)),
                            Option::None => ConnectState::Failed(BtError::Other),
                        }
                    },
                },
                ..*old(self)
            }),
    {
        match outcome {
            PollOutcome::Error(e) => {
                if e != self.interrupted_code {
                    self.state = ConnectState::Failed(BtError::Os(e));
                }
            },
            PollOutcome::Expired => {},
            PollOutcome::Ready { hangup, pending } => {
                if !hangup {
                    self.state = ConnectState::Connected;
                } else {
                    match pending {
                        Some(e) => {
                            self.state = ConnectState::Failed(BtError::Os(e));
                        },
                        None => {
                            self.state = ConnectState::Failed(BtError::Other);
                        },
                    }
                }
            },
        }
    }

    /// The final result of the attempt, once a terminal state is reached:
    /// `Connected` is success, `Failed` carries its error, and `TimedOut`
    /// reports `BtError::TimedOut`. In the two live states there is no
    /// result yet.
    pub fn result(&self) -> (r: Option<Result<(), BtError>>)
        ensures
            r == match self.state {
                ConnectState::Connected => Option::Some(Result::<(), BtError>::Ok(())),
                ConnectState::Failed(e) => Option::Some(Result::<(), BtError>::Err(e)),
                ConnectState::TimedOut => Option::Some(
                    Result::<(), BtError>::Err(BtError::TimedOut),
                ),
                ConnectState::Issued => Option::None::<Result<(), BtError>>,
                ConnectState::AwaitingWritable => Option::None::<Result<(), BtError>>,
            },
    {
        match self.state {
            ConnectState::Connected => Some(Ok(())),
            ConnectState::Failed(e) => Some(Err(e)),
            ConnectState::TimedOut => Some(Err(BtError::TimedOut)),
            ConnectState::Issued => None,
            ConnectState::AwaitingWritable => None,
        }
    }
}

} // verus!
