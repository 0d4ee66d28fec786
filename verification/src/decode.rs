//! Decoding of inbound frames.
//!
//! [`decode_spec`] says which envelope a JSON document stands for, or why it
//! stands for none. [`decode_value`] computes exactly that from a parsed
//! document, and [`decode`] does so from the text of a frame.

use crate::gateway::{
    EventName, EventView, Gateway, GatewayDispatch, GatewayDispatchOpCode, GatewayKind, GatewayOp,
    GatewayOpCode, GatewayView, KindView, MessageCreate, MessageCreateAuthor, MessageCreateMention,
    MessageCreateView, Ready, ReadyView,
};
use crate::json::{as_array, as_bool, as_str, as_u64, document, get, is_null, is_object, member, parse, parsed, Json};
use serde_json::Value;
use vstd::prelude::*;

verus! {

/// Equality of string slices, `str`'s `PartialEq`: two slices are equal
/// exactly when they hold the same characters.
pub assume_specification[ <str as PartialEq>::eq ](a: &str, b: &str) -> (r: bool)
    ensures
        r == (a@ == b@),
;

/// Why a frame is no envelope.
#[derive(Debug, Clone, Copy, PartialEq, Eq, Structural)]
pub enum DecodeError {
    /// The text is not JSON.
    Syntax,
    /// The document is not an object.
    NotAnObject,
    /// The member `s` is there, and is neither null nor an unsigned integer.
    BadSequence,
    /// Neither an opcode nor an event name says what the frame carries.
    MissingDiscriminant,
    /// The opcode is an unsigned integer outside the closed set.
    UnknownOpcode(u64),
    /// The payload lacks a member that its opcode or event name requires,
    /// or holds it with another type.
    BadPayload,
}

/// The text member `key` of `doc`, if `doc` has one.
pub open spec fn text_member(doc: Json, key: Seq<char>) -> Option<Seq<char>> {
    match member(doc, key) {
        Some(Json::Text(s)) => Some(s),
        _ => None,
    }
}

/// The unsigned member `key` of `doc`, if `doc` has one.
pub open spec fn unsigned_member(doc: Json, key: Seq<char>) -> Option<u64> {
    match member(doc, key) {
        Some(Json::Unsigned(n)) => Some(n),
        _ => None,
    }
}

/// The member `key` of `doc` where it may be left out: `Some(None)` where it
/// is absent or null, `Some(Some(..))` where it is a text, `None` where it
/// is anything else.
pub open spec fn optional_text_member(doc: Json, key: Seq<char>) -> Option<Option<Seq<char>>> {
    match member(doc, key) {
        None => Some(None),
        Some(Json::Null) => Some(None),
        Some(Json::Text(s)) => Some(Some(s)),
        Some(_) => None,
    }
}

/// The payload of an envelope: its member `d`, or null where it has none.
pub open spec fn payload(doc: Json) -> Json {
    match member(doc, "d"@) {
        Some(d) => d,
        None => Json::Null,
    }
}

/// The sequence number of an envelope: its member `s`, which may be absent
/// or null.
pub open spec fn sequence_spec(doc: Json) -> Result<Option<u64>, DecodeError> {
    match member(doc, "s"@) {
        None => Ok(None),
        Some(Json::Null) => Ok(None),
        Some(Json::Unsigned(n)) => Ok(Some(n)),
        Some(_) => Err(DecodeError::BadSequence),
    }
}

/// The session-ready payload that `d` stands for: both members are
/// required texts.
pub open spec fn ready_spec(d: Json) -> Option<ReadyView> {
    match (text_member(d, "resume_gateway_url"@), text_member(d, "session_id"@)) {
        (Some(url), Some(id)) => Some(ReadyView { resume_gateway_url: url, session_id: id }),
        _ => None,
    }
}

/// The identifiers of the mentioned users: `list` must be an array of
/// objects that each have a text member `id`.
pub open spec fn mentions_spec(list: Json) -> Option<Seq<Seq<char>>> {
    match list {
        Json::List(items) => if forall|i: int|
            0 <= i < items.len() ==> text_member(#[trigger] items[i], "id"@) is Some {
            Some(items.map_values(|item: Json| text_member(item, "id"@).unwrap()))
        } else {
            None
        },
        _ => None,
    }
}

/// The message-created payload that `d` stands for. Required: `author`
/// with a text `username`, the texts `channel_id`, `id` and `content`, and
/// the array `mentions`. `guild_id` may be absent or null.
pub open spec fn message_spec(d: Json) -> Option<MessageCreateView> {
    match member(d, "author"@) {
        None => None,
        Some(author) => match (
            text_member(author, "username"@),
            text_member(d, "channel_id"@),
            text_member(d, "id"@),
            text_member(d, "content"@),
            optional_text_member(d, "guild_id"@),
            member(d, "mentions"@),
        ) {
            (Some(username), Some(channel_id), Some(id), Some(content), Some(guild_id), Some(list)) =>
                match mentions_spec(list) {
                    Some(mentions) => Some(
                        MessageCreateView {
                            author: username,
                            channel_id,
                            id,
                            content,
                            guild_id,
                            mentions,
                        },
                    ),
                    None => None,
                },
            _ => None,
        },
    }
}

/// Whether events of this name carry a typed payload.
pub open spec fn is_typed_event(name: Seq<char>) -> bool {
    name == "READY"@ || name == "MESSAGE_CREATE"@
}

/// The event that the name `name` and the payload `d` stand for. Only a
/// typed event can fail, on a payload of the wrong shape.
pub open spec fn event_spec(name: Seq<char>, d: Json) -> Result<EventView, DecodeError> {
    if name == "READY"@ {
        match ready_spec(d) {
            Some(r) => Ok(EventView::Ready(r)),
            None => Err(DecodeError::BadPayload),
        }
    } else if name == "MESSAGE_CREATE"@ {
        match message_spec(d) {
            Some(m) => Ok(EventView::MessageCreate(m)),
            None => Err(DecodeError::BadPayload),
        }
    } else if name == "CHANNEL_CREATE"@ {
        Ok(EventView::ChannelCreate(d))
    } else if name == "MESSAGE_UPDATE"@ {
        Ok(EventView::MessageUpdate(d))
    } else if name == "MESSAGE_DELETE"@ {
        Ok(EventView::MessageDelete(d))
    } else if name == "MESSAGE_DELETE_BULK"@ {
        Ok(EventView::MessageDeleteBulk(d))
    } else if name == "CHANNEL_PINS_UPDATE"@ {
        Ok(EventView::ChannelPinsUpdate(d))
    } else {
        Ok(EventView::Unknown(name, d))
    }
}

/// Whether the payload `d` has the shape that the opcode `op` fixes, as far
/// as the client reads it: Hello carries an unsigned `heartbeat_interval`,
/// InvalidSession a boolean. The payloads of other opcodes are not read.
pub open spec fn payload_fits(op: GatewayOpCode, d: Json) -> bool {
    match op {
        GatewayOpCode::Hello => unsigned_member(d, "heartbeat_interval"@) is Some,
        GatewayOpCode::InvalidSession => d is Bool,
        _ => true,
    }
}

/// The dispatch event of an envelope whose opcode is 0, null or absent: the
/// member `t` must be a text.
pub open spec fn dispatch_spec(doc: Json) -> Result<KindView, DecodeError> {
    match text_member(doc, "t"@) {
        Some(name) => match event_spec(name, payload(doc)) {
            Ok(event) => Ok(KindView::Event(event)),
            Err(e) => Err(e),
        },
        None => Err(DecodeError::MissingDiscriminant),
    }
}

/// What an envelope carries. An opcode from 1 to 11 makes it a control
/// operation, whatever else the frame holds. The opcode 0, or none, makes
/// it a dispatch event.
pub open spec fn kind_spec(doc: Json) -> Result<KindView, DecodeError> {
    match member(doc, "op"@) {
        Some(Json::Unsigned(n)) => if n == 0 {
            dispatch_spec(doc)
        } else {
            match GatewayOpCode::spec_from_code(n) {
                Some(op) => if payload_fits(op, payload(doc)) {
                    Ok(KindView::Op(op, payload(doc)))
                } else {
                    Err(DecodeError::BadPayload)
                },
                None => Err(DecodeError::UnknownOpcode(n)),
            }
        },
        Some(Json::Null) => dispatch_spec(doc),
        None => dispatch_spec(doc),
        Some(_) => Err(DecodeError::MissingDiscriminant),
    }
}

/// The envelope that the document `doc` stands for.
pub open spec fn decode_spec(doc: Json) -> Result<GatewayView, DecodeError> {
    if !(doc is Object) {
        Err(DecodeError::NotAnObject)
    } else {
        match sequence_spec(doc) {
            Err(e) => Err(e),
            Ok(sequence) => match kind_spec(doc) {
                Err(e) => Err(e),
                Ok(kind) => Ok(GatewayView { kind, sequence }),
            },
        }
    }
}

/// The envelope that the text of a frame stands for.
pub open spec fn decode_text_spec(text: Seq<char>) -> Result<GatewayView, DecodeError> {
    match parsed(text) {
        None => Err(DecodeError::Syntax),
        Some(doc) => decode_spec(doc),
    }
}

/// Whether the outcome `r` of a decoding is the one that `expected` asks for.
pub open spec fn decoded_as(
    r: Result<Gateway, DecodeError>,
    expected: Result<GatewayView, DecodeError>,
) -> bool {
    match r {
        Ok(g) => expected == Ok::<GatewayView, DecodeError>(g@),
        Err(e) => expected == Err::<GatewayView, DecodeError>(e),
    }
}

fn text_of<'a>(v: &'a Value, key: &str) -> (r: Option<&'a str>)
    ensures
        match r {
            Some(s) => text_member(document(*v), key@) == Some(s@),
            None => text_member(document(*v), key@) is None,
        },
{
    match get(v, key) {
        Some(x) => as_str(x),
        None => None,
    }
}

fn unsigned_of(v: &Value, key: &str) -> (r: Option<u64>)
    ensures
        r == unsigned_member(document(*v), key@),
{
    match get(v, key) {
        Some(x) => as_u64(x),
        None => None,
    }
}

fn optional_text_of(v: &Value, key: &str) -> (r: Option<Option<String>>)
    ensures
        match r {
            Some(t) => optional_text_member(document(*v), key@) == Some(
                crate::gateway::optional_text(t),
            ),
            None => optional_text_member(document(*v), key@) is None,
        },
{
    match get(v, key) {
        None => Some(None),
        Some(x) => {
            if is_null(x) {
                Some(None)
            } else {
                match as_str(x) {
                    Some(s) => Some(Some(s.to_owned())),
                    None => None,
                }
            }
        },
    }
}

fn decode_sequence(v: &Value) -> (r: Result<Option<u64>, DecodeError>)
    ensures
        r == sequence_spec(document(*v)),
{
    match get(v, "s") {
        None => Ok(None),
        Some(x) => {
            if is_null(x) {
                Ok(None)
            } else {
                match as_u64(x) {
                    Some(n) => Ok(Some(n)),
                    None => Err(DecodeError::BadSequence),
                }
            }
        },
    }
}

fn decode_ready(d: &Value) -> (r: Option<Ready>)
    ensures
        match r {
            Some(ready) => ready_spec(document(*d)) == Some(ready@),
            None => ready_spec(document(*d)) is None,
        },
{
    let url = text_of(d, "resume_gateway_url");
    let id = text_of(d, "session_id");
    match (url, id) {
        (Some(url), Some(id)) => Some(
            Ready { resume_gateway_url: url.to_owned(), session_id: id.to_owned() },
        ),
        _ => None,
    }
}

fn decode_mentions(list: &Value) -> (r: Option<Vec<MessageCreateMention>>)
    ensures
        match r {
            Some(found) => mentions_spec(document(*list)) == Some(
                found@.map_values(|m: MessageCreateMention| m@),
            ),
            None => mentions_spec(document(*list)) is None,
        },
{
    match as_array(list) {
        None => None,
        Some(items) => {
            let ghost docs = crate::json::documents(items@);
            let mut found: Vec<MessageCreateMention> = Vec::new();
            let mut i: usize = 0;
            while i < items.len()
                invariant
                    i <= items.len(),
                    found@.len() == i,
                    docs == crate::json::documents(items@),
                    document(*list) == Json::List(docs),
                    forall|j: int|
                        0 <= j < i ==> text_member(#[trigger] docs[j], "id"@) == Some(found@[j]@),
                decreases items.len() - i,
            {
                match text_of(&items[i], "id") {
                    Some(id) => {
                        found.push(MessageCreateMention { id: id.to_owned() });
                    },
                    None => {
                        assert(text_member(docs[i as int], "id"@) is None);
                        return None;
                    },
                }
                i += 1;
            }
            proof {
                let ids = docs.map_values(|item: Json| text_member(item, "id"@).unwrap());
                assert(ids =~= found@.map_values(|m: MessageCreateMention| m@));
            }
            Some(found)
        },
    }
}

fn decode_message(d: &Value) -> (r: Option<MessageCreate>)
    ensures
        match r {
            Some(message) => message_spec(document(*d)) == Some(message@),
            None => message_spec(document(*d)) is None,
        },
{
    let author = match get(d, "author") {
        Some(a) => a,
        None => { return None; },
    };
    let username = match text_of(author, "username") {
        Some(s) => s,
        None => { return None; },
    };
    let channel_id = match text_of(d, "channel_id") {
        Some(s) => s,
        None => { return None; },
    };
    let id = match text_of(d, "id") {
        Some(s) => s,
        None => { return None; },
    };
    let content = match text_of(d, "content") {
        Some(s) => s,
        None => { return None; },
    };
    let guild_id = match optional_text_of(d, "guild_id") {
        Some(g) => g,
        None => { return None; },
    };
    let list = match get(d, "mentions") {
        Some(l) => l,
        None => { return None; },
    };
    let mentions = match decode_mentions(list) {
        Some(m) => m,
        None => { return None; },
    };
    Some(
        MessageCreate {
            author: MessageCreateAuthor { username: username.to_owned() },
            channel_id: channel_id.to_owned(),
            id: id.to_owned(),
            content: content.to_owned(),
            guild_id,
            mentions,
        },
    )
}

/// Decodes the event that the name `name` and the payload `d` stand for.
pub fn decode_event(name: &str, d: &Value) -> (r: Result<EventName, DecodeError>)
    ensures
        match r {
            Ok(event) => event_spec(name@, document(*d)) == Ok::<EventView, DecodeError>(event@),
            Err(e) => event_spec(name@, document(*d)) == Err::<EventView, DecodeError>(e),
        },
        !is_typed_event(name@) ==> r is Ok,
{
    if name.eq("READY") {
        match decode_ready(d) {
            Some(ready) => Ok(EventName::Ready(ready)),
            None => Err(DecodeError::BadPayload),
        }
    } else if name.eq("MESSAGE_CREATE") {
        match decode_message(d) {
            Some(message) => Ok(EventName::MessageCreate(message)),
            None => Err(DecodeError::BadPayload),
        }
    } else if name.eq("CHANNEL_CREATE") {
        Ok(EventName::ChannelCreate(d.clone()))
    } else if name.eq("MESSAGE_UPDATE") {
        Ok(EventName::MessageUpdate(d.clone()))
    } else if name.eq("MESSAGE_DELETE") {
        Ok(EventName::MessageDelete(d.clone()))
    } else if name.eq("MESSAGE_DELETE_BULK") {
        Ok(EventName::MessageDeleteBulk(d.clone()))
    } else if name.eq("CHANNEL_PINS_UPDATE") {
        Ok(EventName::ChannelPinsUpdate(d.clone()))
    } else {
        Ok(EventName::Unknown(name.to_owned(), d.clone()))
    }
}

fn payload_of(v: &Value) -> (r: Value)
    ensures
        document(r) == payload(document(*v)),
{
    match get(v, "d") {
        Some(d) => d.clone(),
        None => crate::json::null(),
    }
}

fn check_payload(op: GatewayOpCode, d: &Value) -> (r: bool)
    ensures
        r == payload_fits(op, document(*d)),
{
    match op {
        GatewayOpCode::Hello => unsigned_of(d, "heartbeat_interval").is_some(),
        GatewayOpCode::InvalidSession => as_bool(d).is_some(),
        _ => true,
    }
}

fn decode_dispatch(v: &Value) -> (r: Result<GatewayKind, DecodeError>)
    ensures
        match r {
            Ok(kind) => dispatch_spec(document(*v)) == Ok::<KindView, DecodeError>(kind@),
            Err(e) => dispatch_spec(document(*v)) == Err::<KindView, DecodeError>(e),
        },
{
    match text_of(v, "t") {
        Some(name) => {
            let d = payload_of(v);
            match decode_event(name, &d) {
                Ok(event) => Ok(
                    GatewayKind::Event(
                        GatewayDispatch { op: GatewayDispatchOpCode::Dispatch, data: event },
                    ),
                ),
                Err(e) => Err(e),
            }
        },
        None => Err(DecodeError::MissingDiscriminant),
    }
}

fn decode_kind(v: &Value) -> (r: Result<GatewayKind, DecodeError>)
    ensures
        match r {
            Ok(kind) => kind_spec(document(*v)) == Ok::<KindView, DecodeError>(kind@),
            Err(e) => kind_spec(document(*v)) == Err::<KindView, DecodeError>(e),
        },
{
    match get(v, "op") {
        None => decode_dispatch(v),
        Some(x) => {
            if is_null(x) {
                decode_dispatch(v)
            } else {
                match as_u64(x) {
                    None => Err(DecodeError::MissingDiscriminant),
                    Some(n) => {
                        if n == 0 {
                            decode_dispatch(v)
                        } else {
                            match GatewayOpCode::from_code(n) {
                                None => Err(DecodeError::UnknownOpcode(n)),
                                Some(op) => {
                                    let d = payload_of(v);
                                    if check_payload(op, &d) {
                                        Ok(GatewayKind::GatewayOp(GatewayOp { op, data: d }))
                                    } else {
                                        Err(DecodeError::BadPayload)
                                    }
                                },
                            }
                        }
                    },
                }
            }
        },
    }
}

/// Decodes the envelope that a parsed document stands for.
///
/// Returns the envelope exactly where [`decode_spec`] gives one, and
/// otherwise the error that it gives.
pub fn decode_value(v: &Value) -> (r: Result<Gateway, DecodeError>)
    ensures
        decoded_as(r, decode_spec(document(*v))),
{
    if !is_object(v) {
        return Err(DecodeError::NotAnObject);
    }
    let sequence = match decode_sequence(v) {
        Ok(s) => s,
        Err(e) => { return Err(e); },
    };
    match decode_kind(v) {
        Ok(kind) => Ok(Gateway { kind, sequence }),
        Err(e) => Err(e),
    }
}

/// Decodes the text of an inbound frame.
///
/// Fails with [`DecodeError::Syntax`] exactly where the text is not JSON,
/// and otherwise returns what [`decode_value`] returns for the parsed
/// document.
pub fn decode(text: &str) -> (r: Result<Gateway, DecodeError>)
    ensures
        decoded_as(r, decode_text_spec(text@)),
{
    match parse(text) {
        Ok(v) => decode_value(&v),
        Err(_) => Err(DecodeError::Syntax),
    }
}

/// No frame fails to decode because of its event name alone: under a name
/// that has no typed payload, every payload is accepted and kept as it came.
pub proof fn lemma_untyped_event_always_decodes(name: Seq<char>, d: Json)
    requires
        !is_typed_event(name),
    ensures
        event_spec(name, d) is Ok,
        event_spec(name, d) matches Ok(event) && match event {
            EventView::Ready(_) => false,
            EventView::MessageCreate(_) => false,
            EventView::ChannelCreate(p) => p == d,
            EventView::MessageUpdate(p) => p == d,
            EventView::MessageDelete(p) => p == d,
            EventView::MessageDeleteBulk(p) => p == d,
            EventView::ChannelPinsUpdate(p) => p == d,
            EventView::Unknown(n, p) => n == name && p == d,
        },
{
}

/// An event fails to decode only where its name has a typed payload and the
/// payload has not the shape that the name requires.
pub proof fn lemma_only_typed_events_fail(name: Seq<char>, d: Json)
    requires
        event_spec(name, d) is Err,
    ensures
        is_typed_event(name),
        event_spec(name, d) == Err::<EventView, DecodeError>(DecodeError::BadPayload),
        name == "READY"@ ==> ready_spec(d) is None,
        name == "MESSAGE_CREATE"@ ==> message_spec(d) is None,
{
    reveal_strlit("READY");
    reveal_strlit("MESSAGE_CREATE");
    assert("READY"@.len() != "MESSAGE_CREATE"@.len());
}

/// A dispatch envelope under an event name without a typed payload decodes,
/// whatever else the frame holds: an object whose `s` is absent, null or an
/// unsigned integer, whose `op` is absent, null or 0, and whose `t` is the
/// name.
pub proof fn lemma_untyped_dispatch_decodes(doc: Json, name: Seq<char>)
    requires
        doc is Object,
        sequence_spec(doc) is Ok,
        member(doc, "op"@) is None || member(doc, "op"@) == Some(Json::Null) || member(
            doc,
            "op"@,
        ) == Some(Json::Unsigned(0)),
        text_member(doc, "t"@) == Some(name),
        !is_typed_event(name),
    ensures
        decode_spec(doc) matches Ok(envelope) && envelope.sequence == sequence_spec(doc)->Ok_0
            && envelope.kind == KindView::Event(event_spec(name, payload(doc))->Ok_0),
{
    lemma_untyped_event_always_decodes(name, payload(doc));
}

/// A member that the client does not read changes nothing: an envelope
/// decodes to the same result with and without it.
pub proof fn lemma_unread_members_are_ignored(
    members: Map<Seq<char>, Json>,
    key: Seq<char>,
    value: Json,
)
    requires
        key != "s"@,
        key != "op"@,
        key != "t"@,
        key != "d"@,
    ensures
        decode_spec(Json::Object(members.insert(key, value))) == decode_spec(Json::Object(members)),
{
    let with = Json::Object(members.insert(key, value));
    let without = Json::Object(members);
    assert(member(with, "s"@) == member(without, "s"@));
    assert(member(with, "op"@) == member(without, "op"@));
    assert(member(with, "t"@) == member(without, "t"@));
    assert(member(with, "d"@) == member(without, "d"@));
}

} // verus!
