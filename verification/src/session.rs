//! How a client's session comes up and ends.
//!
//! [`Session`] takes in what came of reading from the client and of setting up the
//! stream, and says what to do next. Reading, sending and the deadlines are outside.

use vstd::prelude::*;
use crate::auth::constant_time_eq;
use crate::media::ClientDisplayInfo;
use crate::messages::{ClientMessage, Said, ServerMessage};

verus! {

/// How a client is connected.
#[derive(Clone, Copy, Debug, PartialEq, Eq, Structural)]
pub enum Link {
    /// By a control connection, with media beside it.
    Direct,
    /// By one link for everything. A reliable one loses nothing.
    Tunnel { reliable: bool },
}

/// How far a session is.
#[derive(Clone, Copy, Debug, PartialEq, Eq, Structural)]
pub enum Phase {
    Authenticating,
    AwaitingDisplay,
    SettingUp,
    AwaitingReady,
    Streaming,
    Closed,
}

/// What came of waiting for the client or for the set-up.
pub enum SessionEvent {
    /// Messages that were read together; on a tunnel those of one packet.
    Received(Vec<ClientMessage>),
    PeerClosed,
    ReadFailed,
    DeadlinePassed,
    /// The set-up of the stream is done, or why it failed.
    SetUp(Result<(), String>),
    /// The control loop has ended.
    StreamEnded,
}

/// A part of taking a session down.
#[derive(Clone, Copy, Debug, PartialEq, Eq, Structural)]
pub enum Teardown {
    StopClipboard,
    StopFileTransfers,
    StopTransport,
    /// Take the client out of the bitrate's reckoning.
    LeaveRateControl,
    /// Take control of the input from the client, where it has it.
    ReleaseControl,
    UnregisterInput,
    /// End the subscription, and the pipeline with the last one.
    Unsubscribe,
    JoinTransport,
    /// Take the client off the list of connected ones.
    Forget,
}

/// Something to do now.
pub enum SessionStep {
    Send(ServerMessage),
    /// Put the client on the list of connected ones and give it a number.
    Register,
    SetUpPipeline,
    /// Register the client's input and tell it about the stream.
    OpenStream,
    /// Start the transport and the control loop, with a keyframe first.
    StartTransport,
    /// Give what was sent a moment to get out.
    Linger,
    Down(Teardown),
}

/// The same as a value of mathematics.
pub ghost enum StepView {
    Send(Said),
    Register,
    SetUpPipeline,
    OpenStream,
    StartTransport,
    Linger,
    Down(Teardown),
}

impl View for SessionStep {
    type V = StepView;

    open spec fn view(&self) -> StepView {
        match self {
            SessionStep::Send(m) => StepView::Send(m@),
            SessionStep::Register => StepView::Register,
            SessionStep::SetUpPipeline => StepView::SetUpPipeline,
            SessionStep::OpenStream => StepView::OpenStream,
            SessionStep::StartTransport => StepView::StartTransport,
            SessionStep::Linger => StepView::Linger,
            SessionStep::Down(t) => StepView::Down(*t),
        }
    }
}

/// The views of a list of steps.
pub open spec fn step_views(steps: Seq<SessionStep>) -> Seq<StepView> {
    steps.map_values(|s: SessionStep| s@)
}

/// How long a phase may take, in nanoseconds.
pub fn phase_deadline(link: Link, phase: Phase) -> (nanos: Option<u64>)
    ensures
        nanos == (match (link, phase) {
            (Link::Direct, Phase::Authenticating) => Some(5_000_000_000u64),
            (Link::Direct, Phase::AwaitingDisplay) => Some(150_000_000),
            (Link::Direct, Phase::AwaitingReady) => Some(2_000_000_000),
            (Link::Tunnel { .. }, Phase::Authenticating) => Some(10_000_000_000),
            (Link::Tunnel { .. }, Phase::AwaitingDisplay) => Some(5_000_000_000),
            (Link::Tunnel { .. }, Phase::AwaitingReady) => Some(5_000_000_000),
            _ => None,
        }),
{
    match (link, phase) {
        (Link::Direct, Phase::Authenticating) => Some(5_000_000_000),
        (Link::Direct, Phase::AwaitingDisplay) => Some(150_000_000),
        (Link::Direct, Phase::AwaitingReady) => Some(2_000_000_000),
        (Link::Tunnel { .. }, Phase::Authenticating) => Some(10_000_000_000),
        (Link::Tunnel { .. }, Phase::AwaitingDisplay) => Some(5_000_000_000),
        (Link::Tunnel { .. }, Phase::AwaitingReady) => Some(5_000_000_000),
        _ => None,
    }
}

/// The token of the first message from `from` on that carries one.
pub open spec fn offered_token(ms: Seq<ClientMessage>, from: int) -> Option<Seq<char>>
    decreases ms.len() - from,
{
    if from < 0 || from >= ms.len() {
        None
    } else {
        match ms[from] {
            ClientMessage::Authenticate(t) => Some(t@),
            _ => offered_token(ms, from + 1),
        }
    }
}

/// The display of the last message that describes one.
pub open spec fn last_display(ms: Seq<ClientMessage>) -> Option<ClientDisplayInfo>
    decreases ms.len(),
{
    if ms.len() == 0 {
        None
    } else {
        match ms.last() {
            ClientMessage::DisplayInfo(d) => Some(d),
            _ => last_display(ms.drop_last()),
        }
    }
}

/// Where the first message from `from` on stands that says that the client is ready.
pub open spec fn ready_at(ms: Seq<ClientMessage>, from: int) -> Option<int>
    decreases ms.len() - from,
{
    if from < 0 || from >= ms.len() {
        None
    } else if ms[from] is ReadyForMedia {
        Some(from)
    } else {
        ready_at(ms, from + 1)
    }
}

/// A client's session.
#[derive(Clone, Copy, Debug, PartialEq, Eq, Structural)]
pub struct Session {
    pub link: Link,
    pub phase: Phase,
    pub display: Option<ClientDisplayInfo>,
    /// That the client is on the list of connected ones.
    pub known: bool,
    /// That it takes part in the stream.
    pub subscribed: bool,
    /// That its input is registered.
    pub input_registered: bool,
}

/// What an event leads to.
pub struct SessionReaction {
    /// How many of the received messages are used up. The others are for the control loop.
    pub taken: usize,
    pub steps: Vec<SessionStep>,
}

pub open spec fn send_error(text: Seq<char>) -> StepView {
    StepView::Send(Said::Error(text))
}

pub open spec fn send_auth(ok: bool) -> StepView {
    StepView::Send(Said::Message(ServerMessage::AuthResult(ok)))
}

impl Session {
    /// With nothing held, for good.
    pub open spec fn closed(self) -> Session {
        Session {
            phase: Phase::Closed,
            known: false,
            subscribed: false,
            input_registered: false,
            ..self
        }
    }

    /// That what a session holds fits how far it is.
    pub open spec fn wf(self) -> bool {
        match self.phase {
            Phase::Authenticating => !self.known && !self.subscribed && !self.input_registered,
            Phase::AwaitingDisplay => {
                &&& self.known == (self.link is Direct)
                &&& !self.subscribed
                &&& !self.input_registered
            },
            Phase::SettingUp => {
                &&& self.known
                &&& !self.subscribed
                &&& !self.input_registered
                &&& self.link is Tunnel ==> self.display is Some
            },
            Phase::AwaitingReady | Phase::Streaming => {
                &&& self.known
                &&& self.subscribed
                &&& self.input_registered
            },
            Phase::Closed => !self.known && !self.subscribed && !self.input_registered,
        }
    }

    /// The token that counts: on a tunnel only that of a packet's first message.
    pub open spec fn token_in(self, ms: Seq<ClientMessage>) -> Option<Seq<char>> {
        match self.link {
            Link::Direct => offered_token(ms, 0),
            Link::Tunnel { .. } => if ms.len() > 0 {
                match ms[0] {
                    ClientMessage::Authenticate(t) => Some(t@),
                    _ => None,
                }
            } else {
                None
            },
        }
    }

    /// The display that counts: on a tunnel only that of a packet's first message.
    pub open spec fn display_in(self, ms: Seq<ClientMessage>) -> Option<ClientDisplayInfo> {
        match self.link {
            Link::Direct => last_display(ms),
            Link::Tunnel { .. } => if ms.len() > 0 {
                match ms[0] {
                    ClientMessage::DisplayInfo(d) => Some(d),
                    _ => None,
                }
            } else {
                None
            },
        }
    }

    /// What is taken down before the stream has started.
    pub open spec fn early_teardown(self) -> Seq<StepView> {
        let first = if self.subscribed {
            seq![
                StepView::Down(Teardown::LeaveRateControl),
                StepView::Down(Teardown::ReleaseControl),
                StepView::Down(Teardown::Unsubscribe),
            ]
        } else {
            Seq::<StepView>::empty()
        };
        let second = if self.input_registered {
            first.push(StepView::Down(Teardown::UnregisterInput))
        } else {
            first
        };
        if self.known {
            second.push(StepView::Down(Teardown::Forget))
        } else {
            second
        }
    }

    /// What is taken down once the stream has started. The two kinds of link differ in the
    /// order.
    pub open spec fn full_teardown(self) -> Seq<StepView> {
        match self.link {
            Link::Direct => seq![
                StepView::Down(Teardown::StopClipboard),
                StepView::Down(Teardown::StopFileTransfers),
                StepView::Down(Teardown::StopTransport),
                StepView::Down(Teardown::LeaveRateControl),
                StepView::Down(Teardown::ReleaseControl),
                StepView::Down(Teardown::UnregisterInput),
                StepView::Down(Teardown::Unsubscribe),
                StepView::Down(Teardown::JoinTransport),
                StepView::Down(Teardown::Forget),
            ],
            Link::Tunnel { .. } => seq![
                StepView::Down(Teardown::StopClipboard),
                StepView::Down(Teardown::StopFileTransfers),
                StepView::Down(Teardown::StopTransport),
                StepView::Down(Teardown::ReleaseControl),
                StepView::Down(Teardown::UnregisterInput),
                StepView::Down(Teardown::JoinTransport),
                StepView::Down(Teardown::LeaveRateControl),
                StepView::Down(Teardown::Unsubscribe),
                StepView::Down(Teardown::Forget),
            ],
        }
    }

    /// The session and its steps after the attempt to authenticate.
    pub open spec fn authenticated(self, event: SessionEvent, token: Seq<char>) -> (
        Session,
        Seq<StepView>,
    ) {
        let nothing = Seq::<StepView>::empty();
        match event {
            SessionEvent::Received(ms) => match self.token_in(ms@) {
                Some(t) => if t == token {
                    (
                        Session {
                            phase: Phase::AwaitingDisplay,
                            known: self.link is Direct,
                            ..self
                        },
                        if self.link is Direct {
                            seq![send_auth(true), StepView::Register]
                        } else {
                            seq![send_auth(true)]
                        },
                    )
                } else {
                    (
                        self.closed(),
                        if self.link is Direct {
                            seq![send_auth(false), send_error("Authentication failed."@)]
                        } else {
                            seq![send_auth(false)]
                        },
                    )
                },
                None => (self, nothing),
            },
            SessionEvent::DeadlinePassed => (
                self.closed(),
                if self.link is Direct {
                    seq![send_error("Authentication failed."@)]
                } else {
                    nothing
                },
            ),
            SessionEvent::PeerClosed => if self.link is Direct {
                (self.closed(), seq![send_error("Authentication failed."@)])
            } else {
                (self, nothing)
            },
            SessionEvent::ReadFailed => if self.link is Direct {
                (self.closed(), nothing)
            } else {
                (self, nothing)
            },
            _ => (self, nothing),
        }
    }

    /// A direct session that has heard what there is to hear of the display.
    pub open spec fn display_heard(
        self,
        display: Option<ClientDisplayInfo>,
        disconnect: bool,
    ) -> (Session, Seq<StepView>) {
        if disconnect {
            (Session { display, ..self }.closed(), self.early_teardown())
        } else {
            (
                Session { phase: Phase::SettingUp, display, ..self },
                seq![StepView::SetUpPipeline],
            )
        }
    }

    /// The session and its steps after waiting for the client's display. A direct client
    /// need not describe one.
    pub open spec fn with_display(self, event: SessionEvent, disconnect: bool) -> (
        Session,
        Seq<StepView>,
    ) {
        let nothing = Seq::<StepView>::empty();
        match self.link {
            Link::Direct => match event {
                SessionEvent::Received(ms) => match self.display_in(ms@) {
                    Some(d) => self.display_heard(Some(d), disconnect),
                    None => (self, nothing),
                },
                SessionEvent::PeerClosed | SessionEvent::DeadlinePassed => self.display_heard(
                    None,
                    disconnect,
                ),
                SessionEvent::ReadFailed => (self.closed(), self.early_teardown()),
                _ => (self, nothing),
            },
            Link::Tunnel { .. } => match event {
                SessionEvent::Received(ms) => match self.display_in(ms@) {
                    Some(d) => (
                        Session {
                            phase: Phase::SettingUp,
                            display: Some(d),
                            known: true,
                            ..self
                        },
                        seq![StepView::Register, StepView::SetUpPipeline],
                    ),
                    None => (self, nothing),
                },
                SessionEvent::DeadlinePassed => (self.closed(), self.early_teardown()),
                _ => (self, nothing),
            },
        }
    }

    /// The session and its steps after the set-up of the stream.
    pub open spec fn set_up(self, event: SessionEvent, disconnect: bool) -> (
        Session,
        Seq<StepView>,
    ) {
        match event {
            SessionEvent::SetUp(Ok(_)) => {
                let joined = Session { subscribed: true, ..self };
                if self.link is Direct && disconnect {
                    (joined.closed(), joined.early_teardown())
                } else {
                    (
                        Session { phase: Phase::AwaitingReady, input_registered: true, ..joined },
                        seq![StepView::OpenStream],
                    )
                }
            },
            SessionEvent::SetUp(Err(e)) => (
                self.closed(),
                if self.link is Direct {
                    seq![send_error(e@), StepView::Linger] + self.early_teardown()
                } else {
                    seq![send_error(e@)] + self.early_teardown()
                },
            ),
            _ => (self, Seq::empty()),
        }
    }

    /// The session and its steps after waiting for the client to be ready.
    pub open spec fn made_ready(self, event: SessionEvent, disconnect: bool) -> (
        Session,
        Seq<StepView>,
    ) {
        match event {
            SessionEvent::Received(ms) => if ready_at(ms@, 0) is Some {
                if self.link is Direct && disconnect {
                    (self.closed(), self.early_teardown())
                } else {
                    (
                        Session { phase: Phase::Streaming, ..self },
                        seq![
                            StepView::StartTransport,
                            StepView::Send(Said::Message(ServerMessage::StreamStarted)),
                        ],
                    )
                }
            } else {
                (self, Seq::empty())
            },
            SessionEvent::DeadlinePassed => (self.closed(), self.early_teardown()),
            SessionEvent::PeerClosed | SessionEvent::ReadFailed => if self.link is Direct {
                (self.closed(), self.early_teardown())
            } else {
                (self, Seq::empty())
            },
            _ => (self, Seq::empty()),
        }
    }

    /// The session after an event, and what it leads to.
    pub open spec fn next(self, event: SessionEvent, token: Seq<char>, disconnect: bool) -> (
        Session,
        Seq<StepView>,
    ) {
        match self.phase {
            Phase::Authenticating => self.authenticated(event, token),
            Phase::AwaitingDisplay => self.with_display(event, disconnect),
            Phase::SettingUp => self.set_up(event, disconnect),
            Phase::AwaitingReady => self.made_ready(event, disconnect),
            Phase::Streaming => match event {
                SessionEvent::StreamEnded => (self.closed(), self.full_teardown()),
                _ => (self, Seq::empty()),
            },
            Phase::Closed => (self, Seq::empty()),
        }
    }

    /// How many of the received messages an event uses up: a direct client's messages
    /// behind the one that says that it is ready are for the control loop.
    pub open spec fn used_up(self, event: SessionEvent) -> int {
        match event {
            SessionEvent::Received(ms) => match ready_at(ms@, 0) {
                Some(i) => if self.phase == Phase::AwaitingReady && self.link is Direct {
                    i + 1
                } else {
                    ms@.len() as int
                },
                None => ms@.len() as int,
            },
            _ => 0,
        }
    }

    /// A session of a client that has just connected.
    pub fn new(link: Link) -> (out: Self)
        ensures
            out.wf(),
            out == (Session {
                link,
                phase: Phase::Authenticating,
                display: None,
                known: false,
                subscribed: false,
                input_registered: false,
            }),
    {
        Session {
            link,
            phase: Phase::Authenticating,
            display: None,
            known: false,
            subscribed: false,
            input_registered: false,
        }
    }
}

/// Whether two secrets are the same, in a time that depends on their lengths alone.
pub fn same_secret(a: &str, b: &str) -> (same: bool)
    ensures
        same == (a@ == b@),
{
    proof {
        vstd::utf8::encode_utf8_decode_utf8(a@);
        vstd::utf8::encode_utf8_decode_utf8(b@);
    }
    constant_time_eq(a.as_bytes(), b.as_bytes())
}

impl Session {
    /// Whether the token that counts is the expected one; `None` where there is none.
    fn judge_token(&self, ms: &Vec<ClientMessage>, expected: &str) -> (ok: Option<bool>)
        ensures
            ok == (match self.token_in(ms@) {
                Some(t) => Some(t == expected@),
                None => None,
            }),
    {
        if matches!(self.link, Link::Direct) {
            let mut i: usize = 0;
            while i < ms.len()
                invariant
                    i <= ms@.len(),
                    offered_token(ms@, 0) == offered_token(ms@, i as int),
                    self.link is Direct,
                decreases ms@.len() - i,
            {
                if let ClientMessage::Authenticate(t) = &ms[i] {
                    return Some(same_secret(t.as_str(), expected));
                }
                i = i + 1;
            }
            None
        } else if ms.len() > 0 {
            if let ClientMessage::Authenticate(t) = &ms[0] {
                return Some(same_secret(t.as_str(), expected));
            }
            None
        } else {
            None
        }
    }

    fn find_display(&self, ms: &Vec<ClientMessage>) -> (out: Option<ClientDisplayInfo>)
        ensures
            out == self.display_in(ms@),
    {
        if matches!(self.link, Link::Direct) {
            let mut i: usize = ms.len();
            proof {
                assert(ms@.subrange(0, i as int) == ms@);
            }
            while i > 0
                invariant
                    i <= ms@.len(),
                    last_display(ms@) == last_display(ms@.subrange(0, i as int)),
                    self.link is Direct,
                decreases i,
            {
                let ghost head = ms@.subrange(0, i as int);
                proof {
                    assert(head.last() == ms@[i - 1]);
                    assert(head.drop_last() == ms@.subrange(0, i - 1));
                }
                if let ClientMessage::DisplayInfo(d) = &ms[i - 1] {
                    return Some(*d);
                }
                i = i - 1;
            }
            None
        } else if ms.len() > 0 {
            if let ClientMessage::DisplayInfo(d) = &ms[0] {
                return Some(*d);
            }
            None
        } else {
            None
        }
    }

    fn close(&mut self)
        ensures
            *final(self) == old(self).closed(),
    {
        self.phase = Phase::Closed;
        self.known = false;
        self.subscribed = false;
        self.input_registered = false;
    }

    fn take_down_early(&mut self, steps: &mut Vec<SessionStep>)
        ensures
            *final(self) == old(self).closed(),
            step_views(final(steps)@) == step_views(old(steps)@) + old(self).early_teardown(),
    {
        let ghost start = steps@;
        if self.subscribed {
            steps.push(SessionStep::Down(Teardown::LeaveRateControl));
            steps.push(SessionStep::Down(Teardown::ReleaseControl));
            steps.push(SessionStep::Down(Teardown::Unsubscribe));
        }
        if self.input_registered {
            steps.push(SessionStep::Down(Teardown::UnregisterInput));
        }
        if self.known {
            steps.push(SessionStep::Down(Teardown::Forget));
        }
        proof {
            assert(step_views(steps@) =~= step_views(start) + old(self).early_teardown());
        }
        self.close();
    }

    fn on_authentication(&mut self, event: &SessionEvent, token: &str) -> (steps: Vec<SessionStep>)
        ensures
            *final(self) == old(self).authenticated(*event, token@).0,
            step_views(steps@) == old(self).authenticated(*event, token@).1,
    {
        let ghost start = *self;
        let mut steps: Vec<SessionStep> = Vec::new();
        let direct: bool = matches!(self.link, Link::Direct);
        match event {
            SessionEvent::Received(ms) => match self.judge_token(ms, token) {
                Some(true) => {
                    self.phase = Phase::AwaitingDisplay;
                    self.known = direct;
                    steps.push(SessionStep::Send(ServerMessage::AuthResult(true)));
                    if direct {
                        steps.push(SessionStep::Register);
                    }
                },
                Some(false) => {
                    self.close();
                    steps.push(SessionStep::Send(ServerMessage::AuthResult(false)));
                    if direct {
                        steps.push(
                            SessionStep::Send(
                                ServerMessage::Error("Authentication failed.".to_owned()),
                            ),
                        );
                    }
                },
                None => {},
            },
            SessionEvent::DeadlinePassed => {
                self.close();
                if direct {
                    steps.push(
                        SessionStep::Send(ServerMessage::Error("Authentication failed.".to_owned())),
                    );
                }
            },
            SessionEvent::PeerClosed => {
                if direct {
                    self.close();
                    steps.push(
                        SessionStep::Send(ServerMessage::Error("Authentication failed.".to_owned())),
                    );
                }
            },
            SessionEvent::ReadFailed => {
                if direct {
                    self.close();
                }
            },
            _ => {},
        }
        proof {
            assert(step_views(steps@) =~= start.authenticated(*event, token@).1);
        }
        steps
    }

    fn on_display_heard(
        &mut self,
        display: Option<ClientDisplayInfo>,
        disconnect: bool,
        steps: &mut Vec<SessionStep>,
    )
        requires
            old(steps)@.len() == 0,
        ensures
            *final(self) == old(self).display_heard(display, disconnect).0,
            step_views(final(steps)@) == old(self).display_heard(display, disconnect).1,
    {
        let ghost start = *self;
        self.display = display;
        if disconnect {
            self.take_down_early(steps);
            proof {
                assert(step_views(steps@) =~= start.early_teardown());
            }
        } else {
            self.phase = Phase::SettingUp;
            steps.push(SessionStep::SetUpPipeline);
            proof {
                assert(step_views(steps@) =~= seq![StepView::SetUpPipeline]);
            }
        }
    }

    fn on_display(&mut self, event: &SessionEvent, disconnect: bool) -> (steps: Vec<SessionStep>)
        ensures
            *final(self) == old(self).with_display(*event, disconnect).0,
            step_views(steps@) == old(self).with_display(*event, disconnect).1,
    {
        let ghost start = *self;
        let mut steps: Vec<SessionStep> = Vec::new();
        if matches!(self.link, Link::Direct) {
            match event {
                SessionEvent::Received(ms) => {
                    if let Some(d) = self.find_display(ms) {
                        self.on_display_heard(Some(d), disconnect, &mut steps);
                    }
                },
                SessionEvent::PeerClosed => {
                    self.on_display_heard(None, disconnect, &mut steps);
                },
                SessionEvent::DeadlinePassed => {
                    self.on_display_heard(None, disconnect, &mut steps);
                },
                SessionEvent::ReadFailed => {
                    self.take_down_early(&mut steps);
                },
                _ => {},
            }
        } else {
            match event {
                SessionEvent::Received(ms) => {
                    if let Some(d) = self.find_display(ms) {
                        self.phase = Phase::SettingUp;
                        self.display = Some(d);
                        self.known = true;
                        steps.push(SessionStep::Register);
                        steps.push(SessionStep::SetUpPipeline);
                    }
                },
                SessionEvent::DeadlinePassed => {
                    self.take_down_early(&mut steps);
                },
                _ => {},
            }
        }
        proof {
            assert(step_views(steps@) =~= start.with_display(*event, disconnect).1);
        }
        steps
    }

    fn on_set_up(&mut self, event: SessionEvent, disconnect: bool) -> (steps: Vec<SessionStep>)
        ensures
            *final(self) == old(self).set_up(event, disconnect).0,
            step_views(steps@) == old(self).set_up(event, disconnect).1,
    {
        let ghost start = *self;
        let ghost given = event;
        let mut steps: Vec<SessionStep> = Vec::new();
        let direct: bool = matches!(self.link, Link::Direct);
        if let SessionEvent::SetUp(result) = event {
            match result {
                Ok(_) => {
                    self.subscribed = true;
                    if direct && disconnect {
                        self.take_down_early(&mut steps);
                    } else {
                        self.phase = Phase::AwaitingReady;
                        self.input_registered = true;
                        steps.push(SessionStep::OpenStream);
                    }
                },
                Err(e) => {
                    steps.push(SessionStep::Send(ServerMessage::Error(e)));
                    if direct {
                        steps.push(SessionStep::Linger);
                    }
                    self.take_down_early(&mut steps);
                },
            }
        }
        proof {
            assert(step_views(steps@) =~= start.set_up(given, disconnect).1);
        }
        steps
    }

    fn find_ready(ms: &Vec<ClientMessage>) -> (at: Option<usize>)
        ensures
            match at {
                Some(i) => ready_at(ms@, 0) == Some(i as int) && i < ms@.len(),
                None => ready_at(ms@, 0) is None,
            },
    {
        let mut i: usize = 0;
        while i < ms.len()
            invariant
                i <= ms@.len(),
                ready_at(ms@, 0) == ready_at(ms@, i as int),
            decreases ms@.len() - i,
        {
            if matches!(&ms[i], ClientMessage::ReadyForMedia) {
                return Some(i);
            }
            i = i + 1;
        }
        None
    }

    fn on_ready(&mut self, event: &SessionEvent, disconnect: bool) -> (steps: Vec<SessionStep>)
        ensures
            *final(self) == old(self).made_ready(*event, disconnect).0,
            step_views(steps@) == old(self).made_ready(*event, disconnect).1,
    {
        let ghost start = *self;
        let mut steps: Vec<SessionStep> = Vec::new();
        let direct: bool = matches!(self.link, Link::Direct);
        match event {
            SessionEvent::Received(ms) => {
                if Session::find_ready(ms).is_some() {
                    if direct && disconnect {
                        self.take_down_early(&mut steps);
                    } else {
                        self.phase = Phase::Streaming;
                        steps.push(SessionStep::StartTransport);
                        steps.push(SessionStep::Send(ServerMessage::StreamStarted));
                    }
                }
            },
            SessionEvent::DeadlinePassed => {
                self.take_down_early(&mut steps);
            },
            SessionEvent::PeerClosed => {
                if direct {
                    self.take_down_early(&mut steps);
                }
            },
            SessionEvent::ReadFailed => {
                if direct {
                    self.take_down_early(&mut steps);
                }
            },
            _ => {},
        }
        proof {
            assert(step_views(steps@) =~= start.made_ready(*event, disconnect).1);
        }
        steps
    }

    fn take_down_stream(&mut self) -> (steps: Vec<SessionStep>)
        ensures
            *final(self) == old(self).closed(),
            step_views(steps@) == old(self).full_teardown(),
    {
        let ghost start = *self;
        let mut steps: Vec<SessionStep> = Vec::new();
        steps.push(SessionStep::Down(Teardown::StopClipboard));
        steps.push(SessionStep::Down(Teardown::StopFileTransfers));
        steps.push(SessionStep::Down(Teardown::StopTransport));
        if matches!(self.link, Link::Direct) {
            steps.push(SessionStep::Down(Teardown::LeaveRateControl));
            steps.push(SessionStep::Down(Teardown::ReleaseControl));
            steps.push(SessionStep::Down(Teardown::UnregisterInput));
            steps.push(SessionStep::Down(Teardown::Unsubscribe));
            steps.push(SessionStep::Down(Teardown::JoinTransport));
        } else {
            steps.push(SessionStep::Down(Teardown::ReleaseControl));
            steps.push(SessionStep::Down(Teardown::UnregisterInput));
            steps.push(SessionStep::Down(Teardown::JoinTransport));
            steps.push(SessionStep::Down(Teardown::LeaveRateControl));
            steps.push(SessionStep::Down(Teardown::Unsubscribe));
        }
        steps.push(SessionStep::Down(Teardown::Forget));
        proof {
            assert(step_views(steps@) =~= start.full_teardown());
        }
        self.close();
        steps
    }

    /// Takes in an event. `token` is the one that clients must know; `disconnect` says that
    /// the client is to be let go.
    pub fn on_event(&mut self, event: SessionEvent, token: &str, disconnect: bool) -> (out:
        SessionReaction)
        requires
            old(self).wf(),
        ensures
            final(self).wf(),
            *final(self) == old(self).next(event, token@, disconnect).0,
            step_views(out.steps@) == old(self).next(event, token@, disconnect).1,
            out.taken == old(self).used_up(event),
    {
        let direct: bool = matches!(self.link, Link::Direct);
        let awaiting: bool = matches!(self.phase, Phase::AwaitingReady);
        let taken: usize = match &event {
            SessionEvent::Received(ms) => {
                let count: usize = ms.len();
                match Session::find_ready(ms) {
                    Some(i) => if awaiting && direct {
                        i + 1
                    } else {
                        count
                    },
                    None => count,
                }
            },
            _ => 0,
        };
        let steps = match self.phase {
            Phase::Authenticating => self.on_authentication(&event, token),
            Phase::AwaitingDisplay => self.on_display(&event, disconnect),
            Phase::SettingUp => self.on_set_up(event, disconnect),
            Phase::AwaitingReady => self.on_ready(&event, disconnect),
            Phase::Streaming => {
                if matches!(event, SessionEvent::StreamEnded) {
                    self.take_down_stream()
                } else {
                    let none: Vec<SessionStep> = Vec::new();
                    proof {
                        assert(step_views(none@) =~= Seq::<StepView>::empty());
                    }
                    none
                }
            },
            Phase::Closed => {
                let none: Vec<SessionStep> = Vec::new();
                proof {
                    assert(step_views(none@) =~= Seq::<StepView>::empty());
                }
                none
            },
        };
        SessionReaction { taken, steps }
    }
}

/// A client that does not know the token gets no further than authentication.
pub proof fn only_the_token_opens_a_session(
    s: Session,
    event: SessionEvent,
    token: Seq<char>,
    disconnect: bool,
)
    requires
        s.phase == Phase::Authenticating,
        !(event matches SessionEvent::Received(ms) && s.token_in(ms@) == Some(token)),
    ensures
        s.next(event, token, disconnect).0.phase == Phase::Authenticating || s.next(
            event,
            token,
            disconnect,
        ).0.phase == Phase::Closed,
{
}

/// Before it is authenticated a client gets nothing but the answer to that: no step is
/// anything else than a refusal or an error.
pub proof fn strangers_get_only_a_refusal(
    s: Session,
    event: SessionEvent,
    token: Seq<char>,
    disconnect: bool,
    i: int,
)
    requires
        s.phase == Phase::Authenticating,
        s.next(event, token, disconnect).0.phase != Phase::AwaitingDisplay,
        0 <= i < s.next(event, token, disconnect).1.len(),
    ensures
        ({
            let step = s.next(event, token, disconnect).1[i];
            step == send_auth(false) || step == send_error("Authentication failed."@)
        }),
{
}

/// A client that knows the token is told so before anything else happens.
pub proof fn the_token_is_answered(
    s: Session,
    ms: Vec<ClientMessage>,
    token: Seq<char>,
    disconnect: bool,
)
    requires
        s.phase == Phase::Authenticating,
        s.token_in(ms@) is Some,
    ensures
        ({
            let next = s.next(SessionEvent::Received(ms), token, disconnect);
            &&& next.1.len() > 0
            &&& next.1[0] == send_auth(s.token_in(ms@) == Some(token))
        }),
{
}

/// A session that closes gives back all that it held: its subscription, its share in the
/// bitrate, control of the input, the registration of its input, and its place on the list.
pub proof fn closing_gives_everything_back(
    s: Session,
    event: SessionEvent,
    token: Seq<char>,
    disconnect: bool,
)
    requires
        s.wf(),
        s.next(event, token, disconnect).0.phase == Phase::Closed,
    ensures
        ({
            let (after, steps) = s.next(event, token, disconnect);
            &&& !after.known && !after.subscribed && !after.input_registered
            &&& s.subscribed ==> {
                &&& steps.contains(StepView::Down(Teardown::Unsubscribe))
                &&& steps.contains(StepView::Down(Teardown::LeaveRateControl))
                &&& steps.contains(StepView::Down(Teardown::ReleaseControl))
            }
            &&& s.input_registered ==> steps.contains(StepView::Down(Teardown::UnregisterInput))
            &&& s.known ==> steps.contains(StepView::Down(Teardown::Forget))
        }),
{
    let (after, steps) = s.next(event, token, disconnect);
    let n = steps.len();
    match s.phase {
        Phase::Streaming => {
            if s.link is Direct {
                assert(steps[3] == StepView::Down(Teardown::LeaveRateControl));
                assert(steps[4] == StepView::Down(Teardown::ReleaseControl));
                assert(steps[5] == StepView::Down(Teardown::UnregisterInput));
                assert(steps[6] == StepView::Down(Teardown::Unsubscribe));
            } else {
                assert(steps[3] == StepView::Down(Teardown::ReleaseControl));
                assert(steps[4] == StepView::Down(Teardown::UnregisterInput));
                assert(steps[6] == StepView::Down(Teardown::LeaveRateControl));
                assert(steps[7] == StepView::Down(Teardown::Unsubscribe));
            }
            assert(steps[8] == StepView::Down(Teardown::Forget));
        },
        Phase::AwaitingReady => {
            assert(steps[0] == StepView::Down(Teardown::LeaveRateControl));
            assert(steps[1] == StepView::Down(Teardown::ReleaseControl));
            assert(steps[2] == StepView::Down(Teardown::Unsubscribe));
            assert(steps[3] == StepView::Down(Teardown::UnregisterInput));
            assert(steps[4] == StepView::Down(Teardown::Forget));
        },
        _ => {
            if s.known {
                assert(steps[n - 1] == StepView::Down(Teardown::Forget));
            }
        },
    }
}

/// A stream that was set up for a client that is to be let go is given back at once.
pub proof fn unwanted_set_up_is_undone(s: Session, token: Seq<char>)
    requires
        s.wf(),
        s.phase == Phase::SettingUp,
        s.link is Direct,
    ensures
        ({
            let (after, steps) = s.next(SessionEvent::SetUp(Ok(())), token, true);
            &&& after.phase == Phase::Closed
            &&& steps.contains(StepView::Down(Teardown::Unsubscribe))
        }),
{
    let (after, steps) = s.next(SessionEvent::SetUp(Ok(())), token, true);
    assert(steps[2] == StepView::Down(Teardown::Unsubscribe));
}

/// A closed session stays closed and does nothing.
pub proof fn closed_sessions_stay_closed(
    s: Session,
    event: SessionEvent,
    token: Seq<char>,
    disconnect: bool,
)
    requires
        s.phase == Phase::Closed,
    ensures
        s.next(event, token, disconnect) == (s, Seq::<StepView>::empty()),
{
}

} // verus!
