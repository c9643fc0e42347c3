//! Sessions over a tunnel: telling them from direct ones, how many there may be, and how
//! the server goes about a client's request to be met half-way or through a relay.
//!
//! A request is known by a number; two requests are the same if their numbers are. Points
//! in time and pauses are nanoseconds.

use vstd::prelude::*;
use crate::text::{concat2, concat3, decimal, decimal_string};

verus! {

/// The most tunnel sessions at a time. Each of them has threads of its own.
pub const MAX_TUNNEL_SESSIONS: usize = 64;

/// The tunnel sessions that run.
#[derive(Clone, Copy, Debug, PartialEq, Eq, Structural)]
pub struct TunnelSessionSlots {
    pub active: usize,
}

impl TunnelSessionSlots {
    pub open spec fn wf(self) -> bool {
        self.active <= MAX_TUNNEL_SESSIONS
    }

    pub fn new() -> (out: Self)
        ensures
            out.wf(),
            out.active == 0,
    {
        TunnelSessionSlots { active: 0 }
    }

    /// Takes a slot for a session, if one is free.
    pub fn acquire(&mut self) -> (ok: bool)
        requires
            old(self).wf(),
        ensures
            final(self).wf(),
            ok == (old(self).active < MAX_TUNNEL_SESSIONS),
            final(self).active == old(self).active + (if ok {
                1int
            } else {
                0
            }),
    {
        if self.active < MAX_TUNNEL_SESSIONS {
            self.active = self.active + 1;
            true
        } else {
            false
        }
    }

    /// Gives back the slot of a session that has ended.
    pub fn release(&mut self)
        requires
            old(self).wf(),
            old(self).active > 0,
        ensures
            final(self).wf(),
            final(self).active == old(self).active - 1,
    {
        self.active = self.active - 1;
    }
}

/// What the first bytes of a connection say.
#[derive(Clone, Copy, Debug, PartialEq, Eq, Structural)]
pub enum TunnelDetect {
    Tunnel,
    Normal,
    /// They fit the preamble so far; there have to be more.
    Wait,
}

/// That `a` and `b` do not differ as far as both of them go.
pub open spec fn agree(a: Seq<u8>, b: Seq<u8>) -> bool {
    forall|i: int| 0 <= i < a.len() && i < b.len() ==> #[trigger] a[i] == b[i]
}

/// Tells by the first bytes of a connection, which stay where they are, whether the client
/// wants a tunnel. `None` says that they could not be had in time.
pub fn detect_tunnel_preamble(peeked: Option<&[u8]>, preamble: &[u8]) -> (out: TunnelDetect)
    ensures
        out == (match peeked {
            None => TunnelDetect::Normal,
            Some(bytes) => if bytes@.len() == 0 || !agree(bytes@, preamble@) {
                TunnelDetect::Normal
            } else if bytes@.len() >= preamble@.len() {
                TunnelDetect::Tunnel
            } else {
                TunnelDetect::Wait
            },
        }),
{
    let bytes: &[u8] = match peeked {
        Some(bytes) => bytes,
        None => {
            return TunnelDetect::Normal;
        },
    };
    if bytes.len() == 0 {
        return TunnelDetect::Normal;
    }
    let mut i: usize = 0;
    while i < bytes.len() && i < preamble.len()
        invariant
            peeked == Some(bytes),
            i <= bytes@.len(),
            i <= preamble@.len(),
            forall|k: int| 0 <= k < i ==> #[trigger] bytes@[k] == preamble@[k],
        decreases bytes@.len() - i,
    {
        if bytes[i] != preamble[i] {
            return TunnelDetect::Normal;
        }
        i = i + 1;
    }
    if bytes.len() >= preamble.len() {
        TunnelDetect::Tunnel
    } else {
        TunnelDetect::Wait
    }
}

/// A client whose first byte is not that of the preamble never waits: it is a normal one at
/// once, however few of its bytes there are.
pub proof fn first_byte_decides(bytes: Seq<u8>, preamble: Seq<u8>)
    requires
        bytes.len() > 0,
        preamble.len() > 0,
        bytes[0] != preamble[0],
    ensures
        !agree(bytes, preamble),
{
    if agree(bytes, preamble) {
        assert(bytes[0] == preamble[0]);
    }
}

/// How often a request to be met half-way is tried.
pub const MAX_PUNCH_ATTEMPTS: u32 = 3;

/// The pause of a task that has nothing to do.
pub const IDLE_NANOS: u64 = 200_000_000;

/// The pause after a failed try to meet half-way.
pub const PUNCH_BACKOFF_NANOS: u64 = 500_000_000;

/// What the task that meets clients half-way does next.
#[derive(Clone, Copy, Debug, PartialEq, Eq, Structural)]
pub enum PunchStep {
    Stop,
    Sleep(u64),
    /// Get the socket, the addresses to try and the keys.
    Prepare,
    /// Send towards the client and listen.
    Punch,
    /// Run the session that came of it.
    StartSession,
}

/// What the task sees at the start of a turn.
#[derive(Clone, Copy, Debug, PartialEq, Eq, Structural)]
pub struct PunchInputs {
    pub shutdown: bool,
    /// The request that a client has left.
    pub pending: Option<u64>,
    /// That a session runs that came of an earlier one.
    pub session_active: bool,
    /// That the exchange of keys and addresses is done.
    pub ready: bool,
}

/// The task that meets clients half-way.
#[derive(Clone, Copy, Debug, PartialEq, Eq, Structural)]
pub struct PunchTask {
    pub last_handled: Option<u64>,
    pub attempted: Option<u64>,
    pub attempts: u32,
}

impl PunchTask {
    pub open spec fn wf(self) -> bool {
        self.attempts < MAX_PUNCH_ATTEMPTS
    }

    /// The task and its step at the start of a turn.
    pub open spec fn turned(self, inputs: PunchInputs) -> (PunchTask, PunchStep) {
        if inputs.shutdown {
            (self, PunchStep::Stop)
        } else {
            match inputs.pending {
                None => (
                    PunchTask { attempted: None, attempts: 0, ..self },
                    PunchStep::Sleep(IDLE_NANOS),
                ),
                Some(request) => if self.last_handled == Some(request) || inputs.session_active {
                    (self, PunchStep::Sleep(IDLE_NANOS))
                } else {
                    (
                        if self.attempted == Some(request) {
                            self
                        } else {
                            PunchTask { attempted: Some(request), attempts: 0, ..self }
                        },
                        if inputs.ready {
                            PunchStep::Prepare
                        } else {
                            PunchStep::Sleep(IDLE_NANOS)
                        },
                    )
                },
            }
        }
    }

    /// The task after a try at a request.
    pub open spec fn tried(self, request: u64, ok: bool) -> (PunchTask, PunchStep) {
        if ok {
            (
                PunchTask { last_handled: Some(request), attempted: None, attempts: 0 },
                PunchStep::StartSession,
            )
        } else if self.attempts + 1 >= MAX_PUNCH_ATTEMPTS {
            (
                PunchTask { last_handled: Some(request), attempted: None, attempts: 0 },
                PunchStep::Sleep(PUNCH_BACKOFF_NANOS),
            )
        } else {
            (
                PunchTask { attempts: (self.attempts + 1) as u32, ..self },
                PunchStep::Sleep(PUNCH_BACKOFF_NANOS),
            )
        }
    }

    pub fn new() -> (out: Self)
        ensures
            out.wf(),
            out == (PunchTask { last_handled: None, attempted: None, attempts: 0 }),
    {
        PunchTask { last_handled: None, attempted: None, attempts: 0 }
    }

    /// Starts a turn.
    pub fn next(&mut self, inputs: PunchInputs) -> (step: PunchStep)
        requires
            old(self).wf(),
        ensures
            final(self).wf(),
            (*final(self), step) == old(self).turned(inputs),
    {
        if inputs.shutdown {
            return PunchStep::Stop;
        }
        let request: u64 = match inputs.pending {
            Some(request) => request,
            None => {
                self.attempted = None;
                self.attempts = 0;
                return PunchStep::Sleep(IDLE_NANOS);
            },
        };
        let handled: bool = match self.last_handled {
            Some(r) => r == request,
            None => false,
        };
        if handled || inputs.session_active {
            return PunchStep::Sleep(IDLE_NANOS);
        }
        let known: bool = match self.attempted {
            Some(r) => r == request,
            None => false,
        };
        if !known {
            self.attempted = Some(request);
            self.attempts = 0;
        }
        if !inputs.ready {
            return PunchStep::Sleep(IDLE_NANOS);
        }
        PunchStep::Prepare
    }

    /// Takes in what there is for a try: a socket, addresses (`None` where they are not
    /// there yet) and keys.
    pub fn prepared(&self, has_socket: bool, candidates: Option<usize>, has_keys: bool) -> (step:
        PunchStep)
        ensures
            step == (if !has_socket {
                PunchStep::Sleep(PUNCH_BACKOFF_NANOS)
            } else if candidates matches Some(n) && n > 0 && has_keys {
                PunchStep::Punch
            } else {
                PunchStep::Sleep(IDLE_NANOS)
            }),
    {
        if !has_socket {
            return PunchStep::Sleep(PUNCH_BACKOFF_NANOS);
        }
        match candidates {
            Some(n) => if n > 0 && has_keys {
                PunchStep::Punch
            } else {
                PunchStep::Sleep(IDLE_NANOS)
            },
            None => PunchStep::Sleep(IDLE_NANOS),
        }
    }

    /// Takes in what came of a try at a request.
    pub fn punched(&mut self, request: u64, ok: bool) -> (step: PunchStep)
        requires
            old(self).wf(),
        ensures
            final(self).wf(),
            (*final(self), step) == old(self).tried(request, ok),
    {
        if ok {
            self.last_handled = Some(request);
            self.attempted = None;
            self.attempts = 0;
            return PunchStep::StartSession;
        }
        self.attempts = self.attempts + 1;
        if self.attempts >= MAX_PUNCH_ATTEMPTS {
            self.last_handled = Some(request);
            self.attempted = None;
            self.attempts = 0;
        }
        PunchStep::Sleep(PUNCH_BACKOFF_NANOS)
    }
}

/// The task after `tries` failed tries at the same request, each in a turn of its own.
pub open spec fn after_failures(task: PunchTask, request: u64, tries: nat) -> PunchTask
    decreases tries,
{
    if tries == 0 {
        task
    } else {
        let before = after_failures(task, request, (tries - 1) as nat);
        let inputs = PunchInputs {
            shutdown: false,
            pending: Some(request),
            session_active: false,
            ready: true,
        };
        if before.turned(inputs).1 == PunchStep::Prepare {
            before.turned(inputs).0.tried(request, false).0
        } else {
            before.turned(inputs).0
        }
    }
}

/// A request that is new to the task is tried again after one failed try and after two,
/// and is let go after three: from then on it is not tried any more.
pub proof fn requests_get_three_tries(task: PunchTask, request: u64, inputs: PunchInputs)
    requires
        task.last_handled != Some(request),
        task.attempted != Some(request),
        inputs == (PunchInputs {
            shutdown: false,
            pending: Some(request),
            session_active: false,
            ready: true,
        }),
    ensures
        task.turned(inputs).1 == PunchStep::Prepare,
        after_failures(task, request, 1).turned(inputs).1 == PunchStep::Prepare,
        after_failures(task, request, 2).turned(inputs).1 == PunchStep::Prepare,
        after_failures(task, request, 3).turned(inputs).1 == PunchStep::Sleep(IDLE_NANOS),
        after_failures(task, request, 3).last_handled == Some(request),
{
    reveal_with_fuel(after_failures, 4);
}

/// While a session runs that came of a request, no other is tried.
pub proof fn one_punched_session_at_a_time(task: PunchTask, inputs: PunchInputs)
    requires
        inputs.session_active,
    ensures
        task.turned(inputs).1 != PunchStep::Prepare,
{
}

/// The pause of the relay task while a request waits for its next try.
pub const RELAY_WAIT_NANOS: u64 = 100_000_000;

/// The pause before the next try after `failures` failed ones, in milliseconds: a quarter
/// of a second, doubled with each failure up to four seconds.
pub open spec fn retry_delay_ms(failures: nat) -> nat {
    if failures <= 1 {
        250
    } else if failures == 2 {
        500
    } else if failures == 3 {
        1000
    } else if failures == 4 {
        2000
    } else {
        4000
    }
}

/// What the relay task does next.
#[derive(Clone, Copy, Debug, PartialEq, Eq, Structural)]
pub enum RelayStep {
    Stop,
    Sleep(u64),
    /// Try to meet the client at the relay.
    Dial,
}

/// What the relay task sees at the start of a turn.
#[derive(Clone, Copy, Debug, PartialEq, Eq, Structural)]
pub struct RelayInputs {
    pub shutdown: bool,
    pub pending: Option<u64>,
    pub session_active: bool,
    pub now: u64,
}

/// What came of a try to meet a client at the relay.
#[derive(Debug)]
pub enum DialOutcome {
    /// The keys are not there yet.
    NoKeys,
    NoAddress,
    /// The ticket is refused for good.
    TicketRefused(String),
    TicketFailed(String),
    ConnectFailed(String),
    TunnelFailed(String),
    /// The client was met, but there are too many sessions.
    TooManySessions,
    Paired,
}

/// What follows on a try.
#[derive(Debug)]
pub enum DialStep {
    /// Run the session.
    StartSession,
    /// The request is not this server's any more; the text says why.
    Abandon(String),
    /// Try again later; the text says why and when. A short pause may come first.
    Retry { message: String, pause: Option<u64> },
}

/// The same as a value of mathematics.
pub ghost enum DialView {
    StartSession,
    Abandon(Seq<char>),
    Retry { message: Seq<char>, pause: Option<u64> },
}

impl View for DialStep {
    type V = DialView;

    open spec fn view(&self) -> DialView {
        match self {
            DialStep::StartSession => DialView::StartSession,
            DialStep::Abandon(text) => DialView::Abandon(text@),
            DialStep::Retry { message, pause } => DialView::Retry {
                message: message@,
                pause: *pause,
            },
        }
    }
}

/// The task that meets clients at the relay.
#[derive(Clone, Copy, Debug, PartialEq, Eq, Structural)]
pub struct RelayTask {
    pub last_handled: Option<u64>,
    pub retrying: Option<u64>,
    pub failures: u32,
    pub retry_at: u64,
}

/// Why a try is to be repeated, where it is.
pub open spec fn retry_reason(outcome: DialOutcome) -> Option<Seq<char>> {
    match outcome {
        DialOutcome::NoKeys => Some("lease-bound relay crypto is not ready"@),
        DialOutcome::NoAddress => Some(
            "client requested relay but no relay address is available"@,
        ),
        DialOutcome::TicketFailed(e) => Some(e@),
        DialOutcome::ConnectFailed(e) => Some(e@),
        DialOutcome::TunnelFailed(e) => Some("tunnel setup failed after pairing: "@ + e@),
        DialOutcome::TooManySessions => Some("tunnel session cap reached after relay pairing"@),
        DialOutcome::TicketRefused(_) => None,
        DialOutcome::Paired => None,
    }
}

/// `a + b`, or the largest number where that is too large.
pub open spec fn later(a: u64, b: nat) -> u64 {
    if a + b <= u64::MAX {
        (a + b) as u64
    } else {
        u64::MAX
    }
}

impl RelayTask {
    /// The number of failures after one more.
    pub open spec fn failed_again(self) -> u32 {
        if self.failures < u32::MAX {
            (self.failures + 1) as u32
        } else {
            u32::MAX
        }
    }

    /// The task and its step at the start of a turn.
    pub open spec fn turned(self, inputs: RelayInputs) -> (RelayTask, RelayStep) {
        if inputs.shutdown {
            (self, RelayStep::Stop)
        } else {
            match inputs.pending {
                None => (self, RelayStep::Sleep(IDLE_NANOS)),
                Some(request) => if self.last_handled == Some(request) || inputs.session_active {
                    (self, RelayStep::Sleep(IDLE_NANOS))
                } else {
                    let task = if self.retrying == Some(request) {
                        self
                    } else {
                        RelayTask {
                            retrying: Some(request),
                            failures: 0,
                            retry_at: inputs.now,
                            ..self
                        }
                    };
                    (
                        task,
                        if inputs.now < task.retry_at {
                            RelayStep::Sleep(RELAY_WAIT_NANOS)
                        } else {
                            RelayStep::Dial
                        },
                    )
                },
            }
        }
    }

    /// The task after a try at a request.
    pub open spec fn tried(self, request: u64, outcome: DialOutcome, now: u64) -> RelayTask {
        match retry_reason(outcome) {
            Some(_) => RelayTask {
                failures: self.failed_again(),
                retry_at: later(now, retry_delay_ms(self.failed_again() as nat) * 1_000_000),
                ..self
            },
            None => RelayTask { last_handled: Some(request), retrying: None, ..self },
        }
    }

    /// What follows on a try.
    pub open spec fn dialed_step(self, outcome: DialOutcome) -> DialView {
        match retry_reason(outcome) {
            Some(reason) => DialView::Retry {
                message: reason + "; retrying in "@ + decimal(
                    retry_delay_ms(self.failed_again() as nat),
                ) + "ms"@,
                pause: if outcome is NoKeys {
                    Some(IDLE_NANOS)
                } else {
                    None
                },
            },
            None => match outcome {
                DialOutcome::TicketRefused(e) => DialView::Abandon(
                    e@ + "; request is no longer owned by this lease pair"@,
                ),
                _ => DialView::StartSession,
            },
        }
    }

    pub fn new(now: u64) -> (out: Self)
        ensures
            out == (RelayTask { last_handled: None, retrying: None, failures: 0, retry_at: now }),
    {
        RelayTask { last_handled: None, retrying: None, failures: 0, retry_at: now }
    }

    /// Starts a turn.
    pub fn next(&mut self, inputs: RelayInputs) -> (step: RelayStep)
        ensures
            (*final(self), step) == old(self).turned(inputs),
    {
        if inputs.shutdown {
            return RelayStep::Stop;
        }
        let request: u64 = match inputs.pending {
            Some(request) => request,
            None => {
                return RelayStep::Sleep(IDLE_NANOS);
            },
        };
        let handled: bool = match self.last_handled {
            Some(r) => r == request,
            None => false,
        };
        if handled || inputs.session_active {
            return RelayStep::Sleep(IDLE_NANOS);
        }
        let known: bool = match self.retrying {
            Some(r) => r == request,
            None => false,
        };
        if !known {
            self.retrying = Some(request);
            self.failures = 0;
            self.retry_at = inputs.now;
        }
        if inputs.now < self.retry_at {
            return RelayStep::Sleep(RELAY_WAIT_NANOS);
        }
        RelayStep::Dial
    }

    fn retry(&mut self, reason: &str, pause: Option<u64>, now: u64) -> (step: DialStep)
        ensures
            *final(self) == (RelayTask {
                failures: old(self).failed_again(),
                retry_at: later(now, retry_delay_ms(old(self).failed_again() as nat) * 1_000_000),
                ..*old(self)
            }),
            step@ == (DialView::Retry {
                message: reason@ + "; retrying in "@ + decimal(
                    retry_delay_ms(old(self).failed_again() as nat),
                ) + "ms"@,
                pause,
            }),
    {
        self.failures = self.failures.saturating_add(1);
        let delay_ms: u64 = if self.failures <= 1 {
            250
        } else if self.failures == 2 {
            500
        } else if self.failures == 3 {
            1000
        } else if self.failures == 4 {
            2000
        } else {
            4000
        };
        self.retry_at = now.saturating_add(delay_ms * 1_000_000);
        let mut message = concat3(reason, "; retrying in ", decimal_string(delay_ms).as_str());
        message.append("ms");
        DialStep::Retry { message, pause }
    }

    fn settle(&mut self, request: u64)
        ensures
            *final(self) == (RelayTask {
                last_handled: Some(request),
                retrying: None,
                ..*old(self)
            }),
    {
        self.last_handled = Some(request);
        self.retrying = None;
    }

    /// Takes in what came of a try at a request.
    pub fn dialed(&mut self, request: u64, outcome: DialOutcome, now: u64) -> (step: DialStep)
        ensures
            *final(self) == old(self).tried(request, outcome, now),
            step@ == old(self).dialed_step(outcome),
    {
        match outcome {
            DialOutcome::NoKeys => self.retry(
                "lease-bound relay crypto is not ready",
                Some(IDLE_NANOS),
                now,
            ),
            DialOutcome::NoAddress => self.retry(
                "client requested relay but no relay address is available",
                None,
                now,
            ),
            DialOutcome::TicketFailed(e) => self.retry(e.as_str(), None, now),
            DialOutcome::ConnectFailed(e) => self.retry(e.as_str(), None, now),
            DialOutcome::TunnelFailed(e) => self.retry(
                concat2("tunnel setup failed after pairing: ", e.as_str()).as_str(),
                None,
                now,
            ),
            DialOutcome::TooManySessions => self.retry(
                "tunnel session cap reached after relay pairing",
                None,
                now,
            ),
            DialOutcome::TicketRefused(e) => {
                self.settle(request);
                DialStep::Abandon(
                    concat2(e.as_str(), "; request is no longer owned by this lease pair"),
                )
            },
            DialOutcome::Paired => {
                self.settle(request);
                DialStep::StartSession
            },
        }
    }
}

/// A request that was paired or refused for good is not tried again, and one that failed
/// otherwise is not tried before its pause is over.
pub proof fn relay_requests_wait_their_turn(
    task: RelayTask,
    request: u64,
    outcome: DialOutcome,
    now: u64,
    inputs: RelayInputs,
)
    requires
        task.retrying == Some(request),
        inputs.pending == Some(request),
    ensures
        retry_reason(outcome) is None || inputs.now < later(
            now,
            retry_delay_ms(task.failed_again() as nat) * 1_000_000,
        ) ==> task.tried(request, outcome, now).turned(inputs).1 != RelayStep::Dial,
{
}

/// The pause between two tries is never shorter than a quarter of a second, never longer
/// than four, and never shorter than the one before.
pub proof fn retry_pauses_grow(failures: nat)
    ensures
        250 <= retry_delay_ms(failures) <= 4000,
        retry_delay_ms(failures) <= retry_delay_ms(failures + 1),
        1 <= failures < 5 ==> retry_delay_ms(failures + 1) == 2 * retry_delay_ms(failures),
{
}

} // verus!
