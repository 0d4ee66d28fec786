//! The connection state machine.
//!
//! A [`GatewayConnection`] holds the session record that survives
//! reconnects and the phase of the current connection attempt. A driver
//! owns the transport: it reports what happened as an [`Event`], calls
//! [`GatewayConnection::step`], and performs the [`Action`]s it gets back.
//! The machine itself reads no socket and keeps no clock.

use crate::address::{normalize, normalized};
use crate::decode::{decode, decode_text_spec, unsigned_member, DecodeError};
use crate::encode::{identify_doc, lemma_identify_wire, lemma_resume_wire, resume_doc};
use crate::gateway::{
    optional_text, EventName, EventView, Gateway, GatewayKind, GatewayOpCode, GatewayView, Hello,
    Identify, KindView, MessageCreate, MessageCreateView, Resume,
};
use crate::json::{as_u64, document, get, Json};
use vstd::prelude::*;

verus! {

/// A failure of the transport, as far as the client tells failures apart.
#[derive(Debug, Clone, Copy, PartialEq, Eq, Structural)]
pub enum TransportError {
    /// The peer went away without the closing handshake.
    ResetWithoutClosingHandshake,
    /// The connection was reset by the peer.
    ConnectionReset,
    /// Any other failure to open, read or write.
    Other,
}

/// A violation of the protocol: the client cannot go on with this server.
#[derive(Debug, Clone, Copy, PartialEq, Eq, Structural)]
pub enum ProtocolError {
    /// A frame was no envelope.
    Decode(DecodeError),
    /// A control operation arrived in a phase that has no use for it.
    UnexpectedOperation(GatewayOpCode),
    /// A dispatch event arrived before Hello.
    EventBeforeHello,
    /// A frame arrived that is neither text nor a close.
    UnexpectedFrame,
    /// Hello came without a heartbeat interval.
    MalformedHello,
    /// The server asked for a reconnect, and no session is recorded.
    MissingSession,
    /// The endpoint of the attempt is no address.
    InvalidEndpoint,
    /// The driver reported an event that cannot happen in the phase.
    OutOfPhase,
}

/// How a connection attempt ended.
#[derive(Debug, Clone, Copy, PartialEq, Eq, Structural)]
pub enum Outcome {
    /// The transport closed in order, or the stream of frames ended.
    Closed,
    /// The transport failed.
    Transport(TransportError),
    /// The protocol was violated.
    Fatal(ProtocolError),
}

/// Where a connection attempt stands.
#[derive(Debug, Clone, Copy, PartialEq, Eq, Structural)]
pub enum Phase {
    /// No transport yet.
    Connecting,
    /// The transport is open; the first frame must be Hello.
    AwaitingHello,
    /// Identify or Resume was sent; no frame has come since.
    Authenticated,
    /// Steady state: frames are routed as they come.
    Dispatching,
    /// The attempt is over.
    Terminated(Outcome),
}

/// What the driver reports to the machine.
#[derive(Debug, Clone, PartialEq)]
pub enum Event {
    /// A connection attempt is wanted.
    Start,
    /// The transport is open.
    Opened,
    /// A text frame arrived.
    Text(String),
    /// A close frame arrived.
    Close,
    /// A frame of any other kind arrived.
    Other,
    /// Opening, reading or writing failed.
    Failed(TransportError),
    /// The stream of frames ended.
    Ended,
}

/// An event as plain values.
pub enum EventInput {
    Start,
    Opened,
    Text(Seq<char>),
    Close,
    Other,
    Failed(TransportError),
    Ended,
}

impl View for Event {
    type V = EventInput;

    open spec fn view(&self) -> EventInput {
        match *self {
            Event::Start => EventInput::Start,
            Event::Opened => EventInput::Opened,
            Event::Text(t) => EventInput::Text(t@),
            Event::Close => EventInput::Close,
            Event::Other => EventInput::Other,
            Event::Failed(e) => EventInput::Failed(e),
            Event::Ended => EventInput::Ended,
        }
    }
}

/// A frame for the outbound channel.
#[derive(Debug, Clone, PartialEq)]
pub enum Outbound {
    Heartbeat(Hello),
    Identify(Identify),
    Resume(Resume),
}

impl Outbound {
    /// The wire document of the frame.
    pub open spec fn wire(&self) -> Json {
        match *self {
            Outbound::Heartbeat(h) => h.wire(),
            Outbound::Identify(i) => i.wire(),
            Outbound::Resume(r) => r.wire(),
        }
    }

    /// Prints the wire document.
    pub fn encode(&self) -> (r: String)
        ensures
            r@ == crate::json::printed(self.wire()),
    {
        match self {
            Outbound::Heartbeat(h) => h.encode(),
            Outbound::Identify(i) => i.encode(),
            Outbound::Resume(r) => r.encode(),
        }
    }
}

/// A reaction to a message.
#[derive(Debug, Clone, PartialEq)]
pub struct Reaction {
    pub channel_id: String,
    pub message_id: String,
    pub emoji: String,
}

/// A reaction as plain values.
pub struct ReactionView {
    pub channel_id: Seq<char>,
    pub message_id: Seq<char>,
    pub emoji: Seq<char>,
}

impl View for Reaction {
    type V = ReactionView;

    open spec fn view(&self) -> ReactionView {
        ReactionView {
            channel_id: self.channel_id@,
            message_id: self.message_id@,
            emoji: self.emoji@,
        }
    }
}

/// What the driver is to do.
#[derive(Debug, Clone, PartialEq)]
pub enum Action {
    /// Open a transport to the address.
    Connect(String),
    /// Start the heartbeat task of this connection, with the interval in
    /// milliseconds.
    StartHeartbeat(u64),
    /// Write the frame through the outbound channel.
    Send(Outbound),
    /// React to a message.
    React(Reaction),
}

/// An action as plain values. A frame is given by its wire document.
pub enum ActionView {
    Connect(Seq<char>),
    StartHeartbeat(u64),
    Send(Json),
    React(ReactionView),
}

impl View for Action {
    type V = ActionView;

    open spec fn view(&self) -> ActionView {
        match *self {
            Action::Connect(address) => ActionView::Connect(address@),
            Action::StartHeartbeat(ms) => ActionView::StartHeartbeat(ms),
            Action::Send(frame) => ActionView::Send(frame.wire()),
            Action::React(r) => ActionView::React(r@),
        }
    }
}

/// The actions as plain values, in order.
pub open spec fn actions_view(actions: Seq<Action>) -> Seq<ActionView> {
    actions.map_values(|a: Action| a@)
}

/// The endpoint of a connection that resumes no session.
pub open spec fn default_endpoint() -> Seq<char> {
    "wss://gateway.discord.gg/"@
}

/// The emoji that the client reacts with: U+1F525.
pub open spec fn reaction_emoji() -> Seq<char> {
    "\u{1F525}"@
}

/// The session record and the phase of the current attempt.
#[derive(Debug, Clone, PartialEq)]
pub struct GatewayConnection<'a> {
    /// Authentication token.
    pub token: &'a str,
    /// Where to reconnect, from the last session-ready event.
    pub resume_gateway_url: Option<String>,
    /// The session, from the last session-ready event.
    pub session_id: Option<String>,
    /// The highest sequence number seen in the session.
    pub sequence: u64,
    /// Where the current attempt stands.
    pub phase: Phase,
}

/// A connection as plain values.
pub struct ConnectionView {
    pub token: Seq<char>,
    pub resume_gateway_url: Option<Seq<char>>,
    pub session_id: Option<Seq<char>>,
    pub sequence: u64,
    pub phase: Phase,
}

impl<'a> View for GatewayConnection<'a> {
    type V = ConnectionView;

    open spec fn view(&self) -> ConnectionView {
        ConnectionView {
            token: self.token@,
            resume_gateway_url: optional_text(self.resume_gateway_url),
            session_id: optional_text(self.session_id),
            sequence: self.sequence,
            phase: self.phase,
        }
    }
}

impl ConnectionView {
    /// Whether there is a session to resume: a session id that is not
    /// empty, and the URL to resume it at.
    pub open spec fn can_resume(self) -> bool {
        &&& self.session_id matches Some(id)
        &&& id.len() > 0
        &&& self.resume_gateway_url is Some
    }

    /// The endpoint of the next transport: the resume URL where there is
    /// one, else the default.
    pub open spec fn endpoint(self) -> Seq<char> {
        match self.resume_gateway_url {
            Some(url) => url,
            None => default_endpoint(),
        }
    }

    /// This connection in another phase.
    pub open spec fn in_phase(self, phase: Phase) -> ConnectionView {
        ConnectionView { phase, ..self }
    }

    /// This connection after an attempt that ended with `outcome`.
    pub open spec fn ended(self, outcome: Outcome) -> ConnectionView {
        self.in_phase(Phase::Terminated(outcome))
    }

    /// The Resume of the recorded session, with the recorded sequence
    /// number.
    pub open spec fn resume(self) -> Json {
        resume_doc(self.token, self.session_id->0, self.sequence)
    }

    /// This connection after an envelope with the sequence number `seen`:
    /// the record keeps the highest number.
    pub open spec fn observed(self, seen: Option<u64>) -> ConnectionView {
        match seen {
            Some(n) => if n > self.sequence {
                ConnectionView { sequence: n, ..self }
            } else {
                self
            },
            None => self,
        }
    }
}

/// The larger of two sequence numbers.
pub open spec fn max_u64(a: u64, b: u64) -> u64 {
    if a >= b {
        a
    } else {
        b
    }
}

/// What the policy does with a message: it reacts where the message
/// mentions the user `id`, and only there.
pub open spec fn policy(message: MessageCreateView, id: Seq<char>) -> Seq<ActionView> {
    if message.mentions.contains(id) {
        seq![
            ActionView::React(
                ReactionView {
                    channel_id: message.channel_id,
                    message_id: message.id,
                    emoji: reaction_emoji(),
                },
            ),
        ]
    } else {
        Seq::empty()
    }
}

/// The machine at the start of an attempt, and what the driver is to do.
/// `address` is the normal form of the endpoint, or `None` where the
/// endpoint is no address.
pub open spec fn on_start(s: ConnectionView, address: Option<Seq<char>>) -> (
    ConnectionView,
    Seq<ActionView>,
) {
    match s.phase {
        Phase::Terminated(_) => (s, Seq::empty()),
        Phase::Connecting => match address {
            Some(a) => (s, seq![ActionView::Connect(a)]),
            None => (s.ended(Outcome::Fatal(ProtocolError::InvalidEndpoint)), Seq::empty()),
        },
        _ => (s.ended(Outcome::Fatal(ProtocolError::OutOfPhase)), Seq::empty()),
    }
}

/// The machine after Hello with the payload `d`, and what the driver is to
/// do: start the heartbeat, then resume the session where there is one to
/// resume, else identify. Identify starts a new session, whose sequence
/// numbers start anew.
pub open spec fn on_hello(s: ConnectionView, d: Json) -> (ConnectionView, Seq<ActionView>) {
    match unsigned_member(d, "heartbeat_interval"@) {
        Some(ms) => if s.can_resume() {
            (
                s.in_phase(Phase::Authenticated),
                seq![ActionView::StartHeartbeat(ms), ActionView::Send(s.resume())],
            )
        } else {
            (
                ConnectionView { sequence: 0, ..s.in_phase(Phase::Authenticated) },
                seq![ActionView::StartHeartbeat(ms), ActionView::Send(identify_doc(s.token))],
            )
        },
        None => (s.ended(Outcome::Fatal(ProtocolError::MalformedHello)), Seq::empty()),
    }
}

/// The machine after a dispatch event in the steady state.
pub open spec fn on_event(s: ConnectionView, event: EventView, seen: Option<u64>, id: Seq<char>) -> (
    ConnectionView,
    Seq<ActionView>,
) {
    let next = s.observed(seen).in_phase(Phase::Dispatching);
    match event {
        EventView::Ready(ready) => (
            ConnectionView {
                resume_gateway_url: Some(ready.resume_gateway_url),
                session_id: Some(ready.session_id),
                ..next
            },
            Seq::empty(),
        ),
        EventView::MessageCreate(message) => (next, policy(message, id)),
        _ => (next, Seq::empty()),
    }
}

/// The machine after a control operation in the steady state. An
/// acknowledged heartbeat changes nothing. On Reconnect the client resumes
/// the recorded session in place, whatever the session id is; only without
/// one the attempt ends. Any other operation ends the attempt.
pub open spec fn on_operation(s: ConnectionView, op: GatewayOpCode) -> (
    ConnectionView,
    Seq<ActionView>,
) {
    match op {
        GatewayOpCode::HeartbackACK => (s.in_phase(Phase::Dispatching), Seq::empty()),
        GatewayOpCode::Reconnect => if s.session_id is Some {
            (s.in_phase(Phase::Dispatching), seq![ActionView::Send(s.resume())])
        } else {
            (s.ended(Outcome::Fatal(ProtocolError::MissingSession)), Seq::empty())
        },
        _ => (s.ended(Outcome::Fatal(ProtocolError::UnexpectedOperation(op))), Seq::empty()),
    }
}

/// The machine after an envelope, and what the driver is to do. `id` is the
/// client's own user.
pub open spec fn on_envelope(s: ConnectionView, envelope: GatewayView, id: Seq<char>) -> (
    ConnectionView,
    Seq<ActionView>,
) {
    match s.phase {
        Phase::Connecting => (s.ended(Outcome::Fatal(ProtocolError::OutOfPhase)), Seq::empty()),
        Phase::Terminated(_) => (s, Seq::empty()),
        Phase::AwaitingHello => match envelope.kind {
            KindView::Op(op, d) => if op == GatewayOpCode::Hello {
                on_hello(s, d)
            } else {
                (s.ended(Outcome::Fatal(ProtocolError::UnexpectedOperation(op))), Seq::empty())
            },
            KindView::Event(_) => (
                s.ended(Outcome::Fatal(ProtocolError::EventBeforeHello)),
                Seq::empty(),
            ),
        },
        _ => match envelope.kind {
            KindView::Op(op, _) => on_operation(s, op),
            KindView::Event(event) => on_event(s, event, envelope.sequence, id),
        },
    }
}

/// The machine after an event, and what the driver is to do.
pub open spec fn step_spec(s: ConnectionView, event: EventInput, id: Seq<char>) -> (
    ConnectionView,
    Seq<ActionView>,
) {
    match s.phase {
        Phase::Terminated(_) => (s, Seq::empty()),
        Phase::Connecting => match event {
            EventInput::Start => on_start(s, normalized(s.endpoint())),
            EventInput::Opened => (s.in_phase(Phase::AwaitingHello), Seq::empty()),
            EventInput::Failed(e) => (s.ended(Outcome::Transport(e)), Seq::empty()),
            _ => (s.ended(Outcome::Fatal(ProtocolError::OutOfPhase)), Seq::empty()),
        },
        _ => match event {
            EventInput::Start => (s.ended(Outcome::Fatal(ProtocolError::OutOfPhase)), Seq::empty()),
            EventInput::Opened => (s.ended(Outcome::Fatal(ProtocolError::OutOfPhase)), Seq::empty()),
            EventInput::Text(text) => match decode_text_spec(text) {
                Ok(envelope) => on_envelope(s, envelope, id),
                Err(e) => (s.ended(Outcome::Fatal(ProtocolError::Decode(e))), Seq::empty()),
            },
            EventInput::Close => (s.ended(Outcome::Closed), Seq::empty()),
            EventInput::Other => (
                s.ended(Outcome::Fatal(ProtocolError::UnexpectedFrame)),
                Seq::empty(),
            ),
            EventInput::Failed(e) => (s.ended(Outcome::Transport(e)), Seq::empty()),
            EventInput::Ended => (s.ended(Outcome::Closed), Seq::empty()),
        },
    }
}

fn mentions_user(message: &MessageCreate, id: &str) -> (r: bool)
    ensures
        r == message@.mentions.contains(id@),
{
    let mut i: usize = 0;
    while i < message.mentions.len()
        invariant
            i <= message.mentions.len(),
            forall|j: int| 0 <= j < i ==> message@.mentions[j] != id@,
        decreases message.mentions.len() - i,
    {
        if message.mentions[i].id.as_str().eq(id) {
            assert(message@.mentions[i as int] == id@);
            return true;
        }
        i += 1;
    }
    false
}

/// What the policy does with a message: one reaction where the message
/// mentions the user `id`, nothing otherwise.
pub fn react_to_mention(message: &MessageCreate, id: &str) -> (r: Vec<Action>)
    ensures
        actions_view(r@) == policy(message@, id@),
{
    let mut actions: Vec<Action> = Vec::new();
    if mentions_user(message, id) {
        actions.push(
            Action::React(
                Reaction {
                    channel_id: message.channel_id.clone(),
                    message_id: message.id.clone(),
                    emoji: "\u{1F525}".to_owned(),
                },
            ),
        );
    }
    assert(actions_view(actions@) =~= policy(message@, id@));
    actions
}

impl<'a> GatewayConnection<'a> {
    /// A connection without a session, before its first attempt.
    pub fn new(token: &'a str) -> (r: Self)
        ensures
            r@ == (ConnectionView {
                token: token@,
                resume_gateway_url: None,
                session_id: None,
                sequence: 0,
                phase: Phase::Connecting,
            }),
    {
        Self {
            token,
            resume_gateway_url: None,
            session_id: None,
            sequence: 0_u64,
            phase: Phase::Connecting,
        }
    }

    /// The endpoint to open the next transport to: the resume URL where
    /// the session record has one, else the default endpoint.
    pub fn endpoint(&self) -> (r: String)
        ensures
            r@ == self@.endpoint(),
    {
        match &self.resume_gateway_url {
            Some(url) => url.clone(),
            None => "wss://gateway.discord.gg/".to_owned(),
        }
    }

    /// Whether there is a session to resume.
    pub fn can_resume(&self) -> (r: bool)
        ensures
            r == self@.can_resume(),
    {
        match &self.session_id {
            Some(id) => !id.as_str().is_empty() && self.resume_gateway_url.is_some(),
            None => false,
        }
    }

    /// How the current attempt ended, once it has.
    pub fn outcome(&self) -> (r: Option<Outcome>)
        ensures
            r == match self@.phase {
                Phase::Terminated(outcome) => Some(outcome),
                _ => None,
            },
    {
        match self.phase {
            Phase::Terminated(outcome) => Some(outcome),
            _ => None,
        }
    }

    /// Readies the machine for the next attempt. The session record stays.
    pub fn reconnect(&mut self)
        ensures
            final(self)@ == old(self)@.in_phase(Phase::Connecting),
    {
        self.phase = Phase::Connecting;
    }

    fn end(&mut self, outcome: Outcome) -> (r: Vec<Action>)
        ensures
            final(self)@ == old(self)@.ended(outcome),
            r@.len() == 0,
    {
        self.phase = Phase::Terminated(outcome);
        Vec::new()
    }

    fn resume_frame(&self) -> (r: Option<Action>)
        ensures
            match r {
                Some(frame) => self@.session_id is Some && frame@ == ActionView::Send(
                    self@.resume(),
                ),
                None => self@.session_id is None,
            },
    {
        match &self.session_id {
            Some(id) => {
                let frame = Resume::new(self.token, id.as_str(), self.sequence);
                proof {
                    lemma_resume_wire(frame, self.token@, id@, self.sequence);
                }
                Some(Action::Send(Outbound::Resume(frame)))
            },
            None => None,
        }
    }

    fn hello(&mut self, d: &serde_json::Value) -> (r: Vec<Action>)
        ensures
            (final(self)@, actions_view(r@)) == on_hello(old(self)@, document(*d)),
    {
        let interval = match get(d, "heartbeat_interval") {
            Some(x) => as_u64(x),
            None => None,
        };
        match interval {
            None => {
                let r = self.end(Outcome::Fatal(ProtocolError::MalformedHello));
                assert(actions_view(r@) =~= Seq::empty());
                r
            },
            Some(ms) => {
                let mut actions: Vec<Action> = Vec::new();
                actions.push(Action::StartHeartbeat(ms));
                let resume = if self.can_resume() {
                    self.resume_frame()
                } else {
                    None
                };
                match resume {
                    Some(resume) => {
                        actions.push(resume);
                        self.phase = Phase::Authenticated;
                        assert(actions_view(actions@) =~= seq![
                            ActionView::StartHeartbeat(ms),
                            ActionView::Send(old(self)@.resume()),
                        ]);
                    },
                    None => {
                        let frame = Identify::new(self.token);
                        proof {
                            lemma_identify_wire(frame, self.token@);
                        }
                        actions.push(Action::Send(Outbound::Identify(frame)));
                        self.sequence = 0;
                        self.phase = Phase::Authenticated;
                        assert(actions_view(actions@) =~= seq![
                            ActionView::StartHeartbeat(ms),
                            ActionView::Send(identify_doc(old(self)@.token)),
                        ]);
                    },
                }
                actions
            },
        }
    }

    fn operation(&mut self, op: GatewayOpCode) -> (r: Vec<Action>)
        ensures
            (final(self)@, actions_view(r@)) == on_operation(old(self)@, op),
    {
        match op {
            GatewayOpCode::HeartbackACK => {
                self.phase = Phase::Dispatching;
                let r: Vec<Action> = Vec::new();
                assert(actions_view(r@) =~= Seq::empty());
                r
            },
            GatewayOpCode::Reconnect => match self.resume_frame() {
                Some(resume) => {
                    let mut actions: Vec<Action> = Vec::new();
                    actions.push(resume);
                    self.phase = Phase::Dispatching;
                    assert(actions_view(actions@) =~= seq![ActionView::Send(old(self)@.resume())]);
                    actions
                },
                None => {
                    let r = self.end(Outcome::Fatal(ProtocolError::MissingSession));
                    assert(actions_view(r@) =~= Seq::empty());
                    r
                },
            },
            _ => {
                let r = self.end(Outcome::Fatal(ProtocolError::UnexpectedOperation(op)));
                assert(actions_view(r@) =~= Seq::empty());
                r
            },
        }
    }

    fn event(&mut self, event: &EventName, seen: Option<u64>, id: &str) -> (r: Vec<Action>)
        ensures
            (final(self)@, actions_view(r@)) == on_event(old(self)@, event@, seen, id@),
    {
        match seen {
            Some(n) => {
                if n > self.sequence {
                    self.sequence = n;
                }
            },
            None => {},
        }
        self.phase = Phase::Dispatching;
        match event {
            EventName::Ready(ready) => {
                self.resume_gateway_url = Some(ready.resume_gateway_url.clone());
                self.session_id = Some(ready.session_id.clone());
                let r: Vec<Action> = Vec::new();
                assert(actions_view(r@) =~= Seq::empty());
                r
            },
            EventName::MessageCreate(message) => react_to_mention(message, id),
            _ => {
                let r: Vec<Action> = Vec::new();
                assert(actions_view(r@) =~= Seq::empty());
                r
            },
        }
    }

    /// Starts an attempt at the address `address`, the normal form of the
    /// endpoint: moves the machine as [`on_start`] says, and returns the
    /// actions that it gives.
    pub fn start(&mut self, address: Option<String>) -> (r: Vec<Action>)
        ensures
            (final(self)@, actions_view(r@)) == on_start(old(self)@, optional_text(address)),
    {
        match self.phase {
            Phase::Terminated(_) => {
                let r: Vec<Action> = Vec::new();
                assert(actions_view(r@) =~= Seq::empty());
                r
            },
            Phase::Connecting => match address {
                Some(a) => {
                    let mut actions: Vec<Action> = Vec::new();
                    actions.push(Action::Connect(a));
                    assert(actions_view(actions@) =~= seq![ActionView::Connect(a@)]);
                    actions
                },
                None => {
                    let r = self.end(Outcome::Fatal(ProtocolError::InvalidEndpoint));
                    assert(actions_view(r@) =~= Seq::empty());
                    r
                },
            },
            _ => {
                let r = self.end(Outcome::Fatal(ProtocolError::OutOfPhase));
                assert(actions_view(r@) =~= Seq::empty());
                r
            },
        }
    }

    /// Takes an inbound envelope: moves the machine as [`on_envelope`]
    /// says, and returns the actions that it gives, in order.
    pub fn receive(&mut self, envelope: &Gateway, id: &str) -> (r: Vec<Action>)
        ensures
            (final(self)@, actions_view(r@)) == on_envelope(old(self)@, envelope@, id@),
    {
        match self.phase {
            Phase::Connecting => {
                let r = self.end(Outcome::Fatal(ProtocolError::OutOfPhase));
                assert(actions_view(r@) =~= Seq::empty());
                r
            },
            Phase::Terminated(_) => {
                let r: Vec<Action> = Vec::new();
                assert(actions_view(r@) =~= Seq::empty());
                r
            },
            Phase::AwaitingHello => match &envelope.kind {
                GatewayKind::GatewayOp(o) => {
                    if o.op == GatewayOpCode::Hello {
                        self.hello(&o.data)
                    } else {
                        let r = self.end(Outcome::Fatal(ProtocolError::UnexpectedOperation(o.op)));
                        assert(actions_view(r@) =~= Seq::empty());
                        r
                    }
                },
                GatewayKind::Event(_) => {
                    let r = self.end(Outcome::Fatal(ProtocolError::EventBeforeHello));
                    assert(actions_view(r@) =~= Seq::empty());
                    r
                },
            },
            _ => match &envelope.kind {
                GatewayKind::GatewayOp(o) => self.operation(o.op),
                GatewayKind::Event(e) => self.event(&e.data, envelope.sequence, id),
            },
        }
    }

    /// Takes an event from the driver: moves the machine as [`step_spec`]
    /// says, and returns the actions that it gives, in order.
    ///
    /// A text frame is decoded first: a frame that is no envelope ends the
    /// attempt, and an envelope is handed to [`GatewayConnection::receive`].
    /// At the start the endpoint is brought to its normal form and handed to
    /// [`GatewayConnection::start`].
    pub fn step(&mut self, event: &Event, id: &str) -> (r: Vec<Action>)
        ensures
            (final(self)@, actions_view(r@)) == step_spec(old(self)@, event@, id@),
    {
        let r = match self.phase {
            Phase::Terminated(_) => Vec::new(),
            Phase::Connecting => match event {
                Event::Start => {
                    let address = normalize(self.endpoint().as_str());
                    return self.start(address);
                },
                Event::Opened => {
                    self.phase = Phase::AwaitingHello;
                    Vec::new()
                },
                Event::Failed(e) => self.end(Outcome::Transport(*e)),
                _ => self.end(Outcome::Fatal(ProtocolError::OutOfPhase)),
            },
            _ => match event {
                Event::Start => self.end(Outcome::Fatal(ProtocolError::OutOfPhase)),
                Event::Opened => self.end(Outcome::Fatal(ProtocolError::OutOfPhase)),
                Event::Text(text) => match decode(text.as_str()) {
                    Ok(envelope) => {
                        return self.receive(&envelope, id);
                    },
                    Err(e) => self.end(Outcome::Fatal(ProtocolError::Decode(e))),
                },
                Event::Close => self.end(Outcome::Closed),
                Event::Other => self.end(Outcome::Fatal(ProtocolError::UnexpectedFrame)),
                Event::Failed(e) => self.end(Outcome::Transport(*e)),
                Event::Ended => self.end(Outcome::Closed),
            },
        };
        assert(actions_view(r@) =~= Seq::empty());
        r
    }
}

/// The outbound channel's own counter. It tags heartbeats and nothing else:
/// it is not the sequence number of the protocol, and it starts anew with
/// every transport.
#[derive(Debug, Clone, Copy, PartialEq, Eq, Structural)]
pub struct SocketSequence {
    pub sequence: u64,
}

impl SocketSequence {
    /// The counter of a fresh channel.
    pub fn new() -> (r: Self)
        ensures
            r.sequence == 0,
    {
        Self { sequence: 0 }
    }

    /// Advances the counter by one and returns its new value.
    pub fn get_seq(&mut self) -> (r: u64)
        requires
            old(self).sequence < u64::MAX,
        ensures
            final(self).sequence == old(self).sequence + 1,
            r == final(self).sequence,
    {
        self.sequence += 1;
        self.sequence
    }

    /// The next heartbeat of the channel, tagged with the advanced counter.
    /// Returns `None`, and leaves the counter, once it can advance no more.
    pub fn heartbeat(&mut self) -> (r: Option<Outbound>)
        ensures
            match r {
                Some(frame) => old(self).sequence < u64::MAX && final(self).sequence == old(
                    self,
                ).sequence + 1 && frame == Outbound::Heartbeat(
                    Hello { op: GatewayOpCode::Heartbeat, data: final(self).sequence },
                ),
                None => old(self).sequence == u64::MAX && *final(self) == *old(self),
            },
    {
        if self.sequence < u64::MAX {
            let seq = self.get_seq();
            Some(Outbound::Heartbeat(Hello::new(seq)))
        } else {
            None
        }
    }
}

/// The machine after a run of envelopes, taken in order.
pub open spec fn after(s: ConnectionView, envelopes: Seq<GatewayView>, id: Seq<char>) -> ConnectionView
    decreases envelopes.len(),
{
    if envelopes.len() == 0 {
        s
    } else {
        on_envelope(after(s, envelopes.drop_last(), id), envelopes.last(), id).0
    }
}

/// The highest of `start` and the sequence numbers that the envelopes carry.
pub open spec fn highest(start: u64, envelopes: Seq<GatewayView>) -> u64
    decreases envelopes.len(),
{
    if envelopes.len() == 0 {
        start
    } else {
        match envelopes.last().sequence {
            Some(n) => max_u64(highest(start, envelopes.drop_last()), n),
            None => highest(start, envelopes.drop_last()),
        }
    }
}

/// [`highest`] is a maximum: no number that went in is above it, and it is
/// one of them.
pub proof fn lemma_highest_is_maximum(start: u64, envelopes: Seq<GatewayView>)
    ensures
        highest(start, envelopes) >= start,
        forall|i: int|
            0 <= i < envelopes.len() && (#[trigger] envelopes[i]).sequence is Some ==> highest(
                start,
                envelopes,
            ) >= envelopes[i].sequence->0,
        highest(start, envelopes) == start || exists|i: int|
            0 <= i < envelopes.len() && (#[trigger] envelopes[i]).sequence == Some(
                highest(start, envelopes),
            ),
    decreases envelopes.len(),
{
    if envelopes.len() > 0 {
        let front = envelopes.drop_last();
        lemma_highest_is_maximum(start, front);
        assert forall|i: int|
            0 <= i < envelopes.len() && (#[trigger] envelopes[i]).sequence is Some implies highest(
            start,
            envelopes,
        ) >= envelopes[i].sequence->0 by {
            if i < front.len() {
                assert(front[i] == envelopes[i]);
            }
        }
        if highest(start, envelopes) != start {
            if envelopes.last().sequence == Some(highest(start, envelopes)) {
                assert(envelopes[envelopes.len() - 1].sequence == Some(highest(start, envelopes)));
            } else {
                let i = choose|i: int|
                    0 <= i < front.len() && (#[trigger] front[i]).sequence == Some(
                        highest(start, front),
                    );
                assert(envelopes[i] == front[i]);
            }
        }
    }
}

/// After a run of dispatch envelopes in the steady state, the recorded
/// sequence number is the highest of the one recorded before and those that
/// the envelopes carried. The machine stays in the steady state.
pub proof fn lemma_sequence_is_highest_seen(
    s: ConnectionView,
    envelopes: Seq<GatewayView>,
    id: Seq<char>,
)
    requires
        s.phase == Phase::Authenticated || s.phase == Phase::Dispatching,
        forall|i: int| 0 <= i < envelopes.len() ==> (#[trigger] envelopes[i]).kind is Event,
    ensures
        after(s, envelopes, id).sequence == highest(s.sequence, envelopes),
        after(s, envelopes, id).token == s.token,
        envelopes.len() > 0 ==> after(s, envelopes, id).phase == Phase::Dispatching,
        envelopes.len() == 0 ==> after(s, envelopes, id) == s,
    decreases envelopes.len(),
{
    if envelopes.len() > 0 {
        let front = envelopes.drop_last();
        assert forall|i: int| 0 <= i < front.len() implies (#[trigger] front[i]).kind is Event by {
            assert(front[i] == envelopes[i]);
        }
        lemma_sequence_is_highest_seen(s, front, id);
        assert(envelopes.last() == envelopes[envelopes.len() - 1]);
    }
}

/// In the steady state no envelope lowers the recorded sequence number.
pub proof fn lemma_sequence_never_decreases(s: ConnectionView, envelope: GatewayView, id: Seq<char>)
    requires
        s.phase != Phase::AwaitingHello,
    ensures
        on_envelope(s, envelope, id).0.sequence >= s.sequence,
{
}

/// On Hello the client sends exactly one authentication frame, after the
/// order to start the heartbeat: a Resume of the recorded session if and
/// only if there is one to resume, and an Identify otherwise. Where it is a
/// Resume, the endpoint of the attempt is the resume URL.
pub proof fn lemma_resume_iff_session(s: ConnectionView, envelope: GatewayView, id: Seq<char>, ms: u64)
    requires
        s.phase == Phase::AwaitingHello,
        envelope.kind matches KindView::Op(op, d) && op == GatewayOpCode::Hello && unsigned_member(
            d,
            "heartbeat_interval"@,
        ) == Some(ms),
    ensures
        ({
            let (next, actions) = on_envelope(s, envelope, id);
            &&& next.phase == Phase::Authenticated
            &&& actions.len() == 2
            &&& actions[0] == ActionView::StartHeartbeat(ms)
            &&& actions[1] matches ActionView::Send(frame)
            &&& (crate::encode::frame_opcode(frame) == Some(GatewayOpCode::Resume.spec_code())
                <==> s.can_resume())
            &&& (crate::encode::frame_opcode(frame) == Some(GatewayOpCode::Identify.spec_code())
                <==> !s.can_resume())
            &&& (s.can_resume() ==> frame == resume_doc(s.token, s.session_id->0, s.sequence)
                && s.endpoint() == s.resume_gateway_url->0 && next == s.in_phase(
                Phase::Authenticated,
            ))
            &&& (!s.can_resume() ==> frame == identify_doc(s.token))
        }),
{
    crate::encode::lemma_frame_opcode(
        GatewayOpCode::Resume,
        resume_doc(s.token, s.session_id->0, s.sequence)->Object_0["d"@],
    );
    crate::encode::lemma_frame_opcode(
        GatewayOpCode::Identify,
        identify_doc(s.token)->Object_0["d"@],
    );
    reveal_strlit("op");
    reveal_strlit("d");
    assert("op"@.len() != "d"@.len());
}

/// A Reconnect in the steady state, with a session recorded, makes the
/// client send one Resume of that session with the recorded sequence
/// number. The session record stays as it was, and the machine goes on
/// dispatching.
pub proof fn lemma_reconnect_resumes(s: ConnectionView, envelope: GatewayView, id: Seq<char>)
    requires
        s.phase == Phase::Authenticated || s.phase == Phase::Dispatching,
        envelope.kind matches KindView::Op(op, _) && op == GatewayOpCode::Reconnect,
        s.session_id is Some,
    ensures
        on_envelope(s, envelope, id) == (
            s.in_phase(Phase::Dispatching),
            seq![ActionView::Send(resume_doc(s.token, s.session_id->0, s.sequence))],
        ),
        on_envelope(s, envelope, id).0.sequence == s.sequence,
        on_envelope(s, envelope, id).0.session_id == s.session_id,
        on_envelope(s, envelope, id).0.resume_gateway_url == s.resume_gateway_url,
{
}

/// A Reconnect ends the attempt only where no session is recorded.
pub proof fn lemma_reconnect_without_session(s: ConnectionView, envelope: GatewayView, id: Seq<char>)
    requires
        s.phase == Phase::Authenticated || s.phase == Phase::Dispatching,
        envelope.kind matches KindView::Op(op, _) && op == GatewayOpCode::Reconnect,
    ensures
        on_envelope(s, envelope, id).0.phase is Terminated <==> s.session_id is None,
        s.session_id is None ==> on_envelope(s, envelope, id) == (
            s.ended(Outcome::Fatal(ProtocolError::MissingSession)),
            Seq::<ActionView>::empty(),
        ),
{
}

/// An attempt that has ended stays ended, and orders nothing more.
pub proof fn lemma_terminated_is_final(s: ConnectionView, event: EventInput, id: Seq<char>)
    requires
        s.phase is Terminated,
    ensures
        step_spec(s, event, id) == (s, Seq::<ActionView>::empty()),
{
}

/// The session record changes on the session-ready event alone, which sets
/// the session and the resume URL it names. No envelope changes the token.
pub proof fn lemma_session_changes_only_on_ready(
    s: ConnectionView,
    envelope: GatewayView,
    id: Seq<char>,
)
    ensures
        ({
            let next = on_envelope(s, envelope, id).0;
            let steady = s.phase == Phase::Authenticated || s.phase == Phase::Dispatching;
            &&& next.token == s.token
            &&& match envelope.kind {
                KindView::Event(EventView::Ready(ready)) if steady => {
                    &&& next.session_id == Some(ready.session_id)
                    &&& next.resume_gateway_url == Some(ready.resume_gateway_url)
                },
                _ => {
                    &&& next.session_id == s.session_id
                    &&& next.resume_gateway_url == s.resume_gateway_url
                },
            }
        }),
{
}

} // verus!
