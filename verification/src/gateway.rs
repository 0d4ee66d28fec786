//! The envelope model: what travels over the gateway, in both directions.
//!
//! Each type that holds text or a JSON document has a view made of
//! sequences of characters and of [`Json`] contents. Contracts speak of the
//! views.

use crate::json::{document, Json};
use serde_json::Value;
use vstd::prelude::*;

verus! {

/// The opcode of a dispatch frame. On the wire it is `0`.
#[derive(Debug, Clone, Copy, PartialEq, Eq, Structural)]
pub enum GatewayDispatchOpCode {
    /// Dispatches an event.
    Dispatch,
}

/// The opcode of a control operation. On the wire each is the number that
/// [`GatewayOpCode::code`] gives.
#[derive(Debug, Clone, Copy, PartialEq, Eq, Structural)]
pub enum GatewayOpCode {
    /// Liveness pulse, client to server.
    Heartbeat,
    /// Full authentication of a new session.
    Identify,
    /// Updates the client status.
    StatusUpdate,
    /// Joins, moves or leaves a voice channel.
    VoiceStateUpdate,
    /// Voice liveness pulse.
    VoiceServerPing,
    /// Resumes an earlier session.
    Resume,
    /// The server asks the client to reconnect.
    Reconnect,
    /// Requests guild members.
    RequestGuildMembers,
    /// The server rejects the session.
    InvalidSession,
    /// First frame of a connection; carries the heartbeat interval.
    Hello,
    /// The server acknowledges a heartbeat.
    HeartbackACK,
}

impl GatewayOpCode {
    /// The number that stands for this opcode on the wire.
    pub open spec fn spec_code(self) -> u64 {
        match self {
            GatewayOpCode::Heartbeat => 1,
            GatewayOpCode::Identify => 2,
            GatewayOpCode::StatusUpdate => 3,
            GatewayOpCode::VoiceStateUpdate => 4,
            GatewayOpCode::VoiceServerPing => 5,
            GatewayOpCode::Resume => 6,
            GatewayOpCode::Reconnect => 7,
            GatewayOpCode::RequestGuildMembers => 8,
            GatewayOpCode::InvalidSession => 9,
            GatewayOpCode::Hello => 10,
            GatewayOpCode::HeartbackACK => 11,
        }
    }

    /// The opcode that `code` stands for, if it is one of the closed set.
    pub open spec fn spec_from_code(code: u64) -> Option<GatewayOpCode> {
        if code == 1 {
            Some(GatewayOpCode::Heartbeat)
        } else if code == 2 {
            Some(GatewayOpCode::Identify)
        } else if code == 3 {
            Some(GatewayOpCode::StatusUpdate)
        } else if code == 4 {
            Some(GatewayOpCode::VoiceStateUpdate)
        } else if code == 5 {
            Some(GatewayOpCode::VoiceServerPing)
        } else if code == 6 {
            Some(GatewayOpCode::Resume)
        } else if code == 7 {
            Some(GatewayOpCode::Reconnect)
        } else if code == 8 {
            Some(GatewayOpCode::RequestGuildMembers)
        } else if code == 9 {
            Some(GatewayOpCode::InvalidSession)
        } else if code == 10 {
            Some(GatewayOpCode::Hello)
        } else if code == 11 {
            Some(GatewayOpCode::HeartbackACK)
        } else {
            None
        }
    }

    /// The number that stands for this opcode on the wire.
    #[verifier::when_used_as_spec(spec_code)]
    pub fn code(self) -> (n: u64)
        ensures
            n == self.spec_code(),
            1 <= n <= 11,
    {
        match self {
            GatewayOpCode::Heartbeat => 1,
            GatewayOpCode::Identify => 2,
            GatewayOpCode::StatusUpdate => 3,
            GatewayOpCode::VoiceStateUpdate => 4,
            GatewayOpCode::VoiceServerPing => 5,
            GatewayOpCode::Resume => 6,
            GatewayOpCode::Reconnect => 7,
            GatewayOpCode::RequestGuildMembers => 8,
            GatewayOpCode::InvalidSession => 9,
            GatewayOpCode::Hello => 10,
            GatewayOpCode::HeartbackACK => 11,
        }
    }

    /// The opcode that `code` stands for: `Some` exactly for 1 to 11.
    #[verifier::when_used_as_spec(spec_from_code)]
    pub fn from_code(code: u64) -> (op: Option<GatewayOpCode>)
        ensures
            op == Self::spec_from_code(code),
            op is Some <==> 1 <= code <= 11,
            op matches Some(o) ==> o.spec_code() == code,
    {
        match code {
            1 => Some(GatewayOpCode::Heartbeat),
            2 => Some(GatewayOpCode::Identify),
            3 => Some(GatewayOpCode::StatusUpdate),
            4 => Some(GatewayOpCode::VoiceStateUpdate),
            5 => Some(GatewayOpCode::VoiceServerPing),
            6 => Some(GatewayOpCode::Resume),
            7 => Some(GatewayOpCode::Reconnect),
            8 => Some(GatewayOpCode::RequestGuildMembers),
            9 => Some(GatewayOpCode::InvalidSession),
            10 => Some(GatewayOpCode::Hello),
            11 => Some(GatewayOpCode::HeartbackACK),
            _ => None,
        }
    }
}

/// Every opcode is found again from its wire number.
pub proof fn lemma_opcode_roundtrip(op: GatewayOpCode)
    ensures
        GatewayOpCode::spec_from_code(op.spec_code()) == Some(op),
{
}

/// The author of a message.
#[derive(Debug, Clone, PartialEq)]
pub struct MessageCreateAuthor {
    pub username: String,
}

impl View for MessageCreateAuthor {
    type V = Seq<char>;

    /// The user name.
    open spec fn view(&self) -> Seq<char> {
        self.username@
    }
}

/// A user mentioned in a message.
#[derive(Debug, Clone, PartialEq)]
pub struct MessageCreateMention {
    pub id: String,
}

impl View for MessageCreateMention {
    type V = Seq<char>;

    /// The user's identifier.
    open spec fn view(&self) -> Seq<char> {
        self.id@
    }
}

/// The payload of a message-created event.
#[derive(Debug, Clone, PartialEq)]
pub struct MessageCreate {
    pub author: MessageCreateAuthor,
    pub channel_id: String,
    pub id: String,
    pub content: String,
    pub guild_id: Option<String>,
    pub mentions: Vec<MessageCreateMention>,
}

/// A message-created payload as plain values.
pub struct MessageCreateView {
    pub author: Seq<char>,
    pub channel_id: Seq<char>,
    pub id: Seq<char>,
    pub content: Seq<char>,
    pub guild_id: Option<Seq<char>>,
    /// The identifiers of the mentioned users, in order.
    pub mentions: Seq<Seq<char>>,
}

/// The view of an optional text.
pub open spec fn optional_text(s: Option<String>) -> Option<Seq<char>> {
    match s {
        Some(t) => Some(t@),
        None => None,
    }
}

impl View for MessageCreate {
    type V = MessageCreateView;

    open spec fn view(&self) -> MessageCreateView {
        MessageCreateView {
            author: self.author@,
            channel_id: self.channel_id@,
            id: self.id@,
            content: self.content@,
            guild_id: optional_text(self.guild_id),
            mentions: self.mentions@.map_values(|m: MessageCreateMention| m@),
        }
    }
}

/// The payload of the session-ready event, as far as the client reads it.
#[derive(Debug, Clone, PartialEq)]
pub struct Ready {
    pub resume_gateway_url: String,
    pub session_id: String,
}

/// A session-ready payload as plain values.
pub struct ReadyView {
    pub resume_gateway_url: Seq<char>,
    pub session_id: Seq<char>,
}

impl View for Ready {
    type V = ReadyView;

    open spec fn view(&self) -> ReadyView {
        ReadyView { resume_gateway_url: self.resume_gateway_url@, session_id: self.session_id@ }
    }
}

/// A dispatch event, keyed by its name on the wire.
///
/// The session-ready and message-created events carry a typed payload. The
/// other named events carry their payload as it came. An event under any
/// other name is kept, with its name, in `Unknown`.
#[derive(Debug, Clone, PartialEq)]
pub enum EventName {
    Ready(Ready),
    ChannelCreate(Value),
    MessageCreate(MessageCreate),
    MessageUpdate(Value),
    MessageDelete(Value),
    MessageDeleteBulk(Value),
    ChannelPinsUpdate(Value),
    Unknown(String, Value),
}

/// A dispatch event as plain values.
pub enum EventView {
    Ready(ReadyView),
    ChannelCreate(Json),
    MessageCreate(MessageCreateView),
    MessageUpdate(Json),
    MessageDelete(Json),
    MessageDeleteBulk(Json),
    ChannelPinsUpdate(Json),
    Unknown(Seq<char>, Json),
}

impl View for EventName {
    type V = EventView;

    open spec fn view(&self) -> EventView {
        match *self {
            EventName::Ready(r) => EventView::Ready(r@),
            EventName::ChannelCreate(d) => EventView::ChannelCreate(document(d)),
            EventName::MessageCreate(m) => EventView::MessageCreate(m@),
            EventName::MessageUpdate(d) => EventView::MessageUpdate(document(d)),
            EventName::MessageDelete(d) => EventView::MessageDelete(document(d)),
            EventName::MessageDeleteBulk(d) => EventView::MessageDeleteBulk(document(d)),
            EventName::ChannelPinsUpdate(d) => EventView::ChannelPinsUpdate(document(d)),
            EventName::Unknown(name, d) => EventView::Unknown(name@, document(d)),
        }
    }
}

/// A dispatch frame: the dispatch opcode and the event.
#[derive(Debug, Clone, PartialEq)]
pub struct GatewayDispatch {
    pub op: GatewayDispatchOpCode,
    pub data: EventName,
}

/// A control operation as it arrives: the opcode and the payload as it came.
#[derive(Debug, Clone, PartialEq)]
pub struct GatewayOp {
    pub op: GatewayOpCode,
    pub data: Value,
}

/// What an envelope carries: a control operation or a dispatch event.
#[derive(Debug, Clone, PartialEq)]
pub enum GatewayKind {
    GatewayOp(GatewayOp),
    Event(GatewayDispatch),
}

/// What an envelope carries, as plain values.
pub enum KindView {
    /// A control operation: opcode and payload.
    Op(GatewayOpCode, Json),
    /// A dispatch event.
    Event(EventView),
}

impl View for GatewayKind {
    type V = KindView;

    open spec fn view(&self) -> KindView {
        match *self {
            GatewayKind::GatewayOp(o) => KindView::Op(o.op, document(o.data)),
            GatewayKind::Event(e) => KindView::Event(e.data@),
        }
    }
}

/// One inbound envelope: what it carries, and the sequence number where the
/// frame had one.
#[derive(Debug, Clone, PartialEq)]
pub struct Gateway {
    pub kind: GatewayKind,
    pub sequence: Option<u64>,
}

/// An envelope as plain values.
pub struct GatewayView {
    pub kind: KindView,
    pub sequence: Option<u64>,
}

impl View for Gateway {
    type V = GatewayView;

    open spec fn view(&self) -> GatewayView {
        GatewayView { kind: self.kind@, sequence: self.sequence }
    }
}

/// A heartbeat frame, client to server: the heartbeat opcode and the
/// number that tags this pulse.
#[derive(Debug, Clone, Copy, PartialEq, Eq, Structural)]
pub struct Hello {
    pub op: GatewayOpCode,
    pub data: u64,
}

impl Hello {
    /// The heartbeat tagged `seq`.
    pub fn new(seq: u64) -> (r: Hello)
        ensures
            r.op == GatewayOpCode::Heartbeat,
            r.data == seq,
    {
        Hello { op: GatewayOpCode::Heartbeat, data: seq }
    }
}

/// The connection properties of an Identify.
#[derive(Debug, Clone, PartialEq)]
pub struct IdetifyProperties {
    pub os: String,
    pub browser: String,
    pub device: String,
}

/// One activity of a presence.
#[derive(Debug, Clone, PartialEq)]
pub struct IdetifyPresenceActivity {
    /// The activity's name.
    pub name: String,
    /// The activity type; the member `type` on the wire.
    pub kind: u32,
    /// Stream URL.
    pub url: Option<String>,
    /// When the activity was added to the session, in milliseconds of Unix
    /// time.
    pub created_at: u64,
    /// Start or end of the game, in Unix time.
    pub timestamps: Option<u64>,
    /// Application of the game.
    pub application_id: Option<String>,
    /// What the player is doing.
    pub details: Option<String>,
    /// The party status.
    pub state: Option<String>,
    /// Emoji of a custom status.
    pub emoji: Option<String>,
    /// Whether the activity is an instanced game session.
    pub instance: Option<bool>,
    /// Activity flags, or-ed together.
    pub flags: Option<u32>,
}

/// The initial presence of an Identify.
#[derive(Debug, Clone, PartialEq)]
pub struct IdetifyPresence {
    /// Since when the client is idle, in milliseconds of Unix time.
    pub since: Option<u64>,
    pub activities: Vec<IdetifyPresenceActivity>,
    pub status: String,
    pub afk: bool,
}

/// The payload of an Identify.
#[derive(Debug, Clone, PartialEq)]
pub struct IdentifyData {
    /// Authentication token.
    pub token: String,
    pub properties: IdetifyProperties,
    /// The compression that the connection supports.
    pub compress: Option<String>,
    /// Number of members from which on the server leaves offline members
    /// out of a guild's member list.
    pub large_threshold: Option<u8>,
    /// Shard number and number of shards.
    pub shard: [u32; 2],
    pub presence: Option<IdetifyPresence>,
    /// The intents bitmask.
    pub intents: u32,
}

/// An Identify frame, client to server: full authentication of a new
/// session.
#[derive(Debug, Clone, PartialEq)]
pub struct Identify {
    pub op: GatewayOpCode,
    pub data: IdentifyData,
}

impl Identify {
    /// Whether this is the Identify that the client sends for the token
    /// `token`: fixed connection properties, no compression, a threshold of
    /// 250, the single shard 0 of 1, no presence, and the intents 4608.
    pub open spec fn is_default_for(&self, token: Seq<char>) -> bool {
        &&& self.op == GatewayOpCode::Identify
        &&& self.data.token@ == token
        &&& self.data.properties.os@ == "linux"@
        &&& self.data.properties.browser@ == "Mario"@
        &&& self.data.properties.device@ == "My computer"@
        &&& self.data.compress is None
        &&& self.data.large_threshold == Some(250u8)
        &&& self.data.shard@ == seq![0u32, 1u32]
        &&& self.data.presence is None
        &&& self.data.intents == 4608
    }

    /// The Identify that the client sends for the token `token`.
    pub fn new(token: &str) -> (r: Identify)
        ensures
            r.is_default_for(token@),
    {
        let shard: [u32; 2] = [0, 1];
        assert(shard@ =~= seq![0u32, 1u32]);
        Identify {
            op: GatewayOpCode::Identify,
            data: IdentifyData {
                token: token.to_owned(),
                properties: IdetifyProperties {
                    os: "linux".to_owned(),
                    browser: "Mario".to_owned(),
                    device: "My computer".to_owned(),
                },
                compress: None,
                large_threshold: Some(250),
                shard,
                presence: None,
                intents: 4608,
            },
        }
    }
}

/// The payload of a Resume.
#[derive(Debug, Clone, PartialEq)]
pub struct ResumeData {
    /// Authentication token.
    pub token: String,
    /// The session to resume.
    pub session_id: String,
    /// The last sequence number that the client has seen.
    pub seq: u64,
}

/// A Resume frame, client to server: takes up an earlier session.
#[derive(Debug, Clone, PartialEq)]
pub struct Resume {
    pub op: GatewayOpCode,
    pub data: ResumeData,
}

impl Resume {
    /// Whether this is the Resume of the session `session_id` after the
    /// sequence number `seq`, for the token `token`.
    pub open spec fn is_for(&self, token: Seq<char>, session_id: Seq<char>, seq: u64) -> bool {
        &&& self.op == GatewayOpCode::Resume
        &&& self.data.token@ == token
        &&& self.data.session_id@ == session_id
        &&& self.data.seq == seq
    }

    /// The Resume of the session `session_id` after the sequence number
    /// `seq`.
    pub fn new(token: &str, session_id: &str, seq: u64) -> (r: Resume)
        ensures
            r.is_for(token@, session_id@, seq),
    {
        Resume {
            op: GatewayOpCode::Resume,
            data: ResumeData { token: token.to_owned(), session_id: session_id.to_owned(), seq },
        }
    }
}

} // verus!
