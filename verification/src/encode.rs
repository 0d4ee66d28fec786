//! Encoding of outbound frames.
//!
//! Each frame that the client sends has a wire document, given by its spec
//! function `wire`. `to_value` builds exactly that document, and `encode`
//! prints it.

use crate::gateway::{
    optional_text, GatewayOpCode, Hello, Identify, IdentifyData, IdetifyPresence,
    IdetifyPresenceActivity, IdetifyProperties, Resume, ResumeData,
};
use crate::json::{
    boolean, document, documents, insert, list, null, object, print, printed, text, unsigned, Json,
};
use serde_json::Value;
use vstd::prelude::*;

verus! {

/// The document of a frame: the opcode under `op`, the payload under `d`.
pub open spec fn frame_doc(op: GatewayOpCode, d: Json) -> Json {
    Json::Object(Map::empty().insert("op"@, Json::Unsigned(op.spec_code())).insert("d"@, d))
}

/// A text, or null where there is none.
pub open spec fn text_or_null(t: Option<Seq<char>>) -> Json {
    match t {
        Some(s) => Json::Text(s),
        None => Json::Null,
    }
}

/// An unsigned integer, or null where there is none.
pub open spec fn unsigned_or_null(n: Option<u64>) -> Json {
    match n {
        Some(k) => Json::Unsigned(k),
        None => Json::Null,
    }
}

/// A boolean, or null where there is none.
pub open spec fn bool_or_null(b: Option<bool>) -> Json {
    match b {
        Some(v) => Json::Bool(v),
        None => Json::Null,
    }
}

/// The optional `u8` as an optional `u64`.
pub open spec fn widen8(n: Option<u8>) -> Option<u64> {
    match n {
        Some(k) => Some(k as u64),
        None => None,
    }
}

/// The optional `u32` as an optional `u64`.
pub open spec fn widen32(n: Option<u32>) -> Option<u64> {
    match n {
        Some(k) => Some(k as u64),
        None => None,
    }
}

fn frame(op: GatewayOpCode, d: Value) -> (r: Value)
    ensures
        document(r) == frame_doc(op, document(d)),
{
    let mut out = object();
    insert(&mut out, "op", unsigned(op.code()));
    insert(&mut out, "d", d);
    out
}

fn optional_text_value(t: &Option<String>) -> (r: Value)
    ensures
        document(r) == text_or_null(optional_text(*t)),
{
    match t {
        Some(s) => text(s.as_str()),
        None => null(),
    }
}

fn optional_unsigned_value(n: Option<u64>) -> (r: Value)
    ensures
        document(r) == unsigned_or_null(n),
{
    match n {
        Some(k) => unsigned(k),
        None => null(),
    }
}

fn optional_bool_value(b: Option<bool>) -> (r: Value)
    ensures
        document(r) == bool_or_null(b),
{
    match b {
        Some(v) => boolean(v),
        None => null(),
    }
}

impl Hello {
    /// The wire document of this frame.
    pub open spec fn wire(&self) -> Json {
        frame_doc(self.op, Json::Unsigned(self.data))
    }

    /// Builds the wire document.
    pub fn to_value(&self) -> (r: Value)
        ensures
            document(r) == self.wire(),
    {
        frame(self.op, unsigned(self.data))
    }

    /// Prints the wire document.
    pub fn encode(&self) -> (r: String)
        ensures
            r@ == printed(self.wire()),
    {
        print(&self.to_value())
    }
}

impl IdetifyProperties {
    /// The wire document of the connection properties.
    pub open spec fn wire(&self) -> Json {
        Json::Object(
            Map::empty().insert("os"@, Json::Text(self.os@)).insert(
                "browser"@,
                Json::Text(self.browser@),
            ).insert("device"@, Json::Text(self.device@)),
        )
    }

    /// Builds the wire document.
    pub fn to_value(&self) -> (r: Value)
        ensures
            document(r) == self.wire(),
    {
        let mut out = object();
        insert(&mut out, "os", text(self.os.as_str()));
        insert(&mut out, "browser", text(self.browser.as_str()));
        insert(&mut out, "device", text(self.device.as_str()));
        out
    }
}

impl IdetifyPresenceActivity {
    /// The wire document of the activity. What is left out is sent as null.
    pub open spec fn wire(&self) -> Json {
        Json::Object(
            Map::empty().insert("name"@, Json::Text(self.name@)).insert(
                "type"@,
                Json::Unsigned(self.kind as u64),
            ).insert("url"@, text_or_null(optional_text(self.url))).insert(
                "created_at"@,
                Json::Unsigned(self.created_at),
            ).insert("timestamps"@, unsigned_or_null(self.timestamps)).insert(
                "application_id"@,
                text_or_null(optional_text(self.application_id)),
            ).insert("details"@, text_or_null(optional_text(self.details))).insert(
                "state"@,
                text_or_null(optional_text(self.state)),
            ).insert("emoji"@, text_or_null(optional_text(self.emoji))).insert(
                "instance"@,
                bool_or_null(self.instance),
            ).insert("flags"@, unsigned_or_null(widen32(self.flags))),
        )
    }

    /// Builds the wire document.
    pub fn to_value(&self) -> (r: Value)
        ensures
            document(r) == self.wire(),
    {
        let flags: Option<u64> = match self.flags {
            Some(f) => Some(f as u64),
            None => None,
        };
        let mut out = object();
        insert(&mut out, "name", text(self.name.as_str()));
        insert(&mut out, "type", unsigned(self.kind as u64));
        insert(&mut out, "url", optional_text_value(&self.url));
        insert(&mut out, "created_at", unsigned(self.created_at));
        insert(&mut out, "timestamps", optional_unsigned_value(self.timestamps));
        insert(&mut out, "application_id", optional_text_value(&self.application_id));
        insert(&mut out, "details", optional_text_value(&self.details));
        insert(&mut out, "state", optional_text_value(&self.state));
        insert(&mut out, "emoji", optional_text_value(&self.emoji));
        insert(&mut out, "instance", optional_bool_value(self.instance));
        insert(&mut out, "flags", optional_unsigned_value(flags));
        out
    }
}

/// The wire documents of the activities, in order.
pub open spec fn activities_doc(activities: Seq<IdetifyPresenceActivity>) -> Seq<Json> {
    activities.map_values(|a: IdetifyPresenceActivity| a.wire())
}

impl IdetifyPresence {
    /// The wire document of the presence.
    pub open spec fn wire(&self) -> Json {
        Json::Object(
            Map::empty().insert("since"@, unsigned_or_null(self.since)).insert(
                "activities"@,
                Json::List(activities_doc(self.activities@)),
            ).insert("status"@, Json::Text(self.status@)).insert("afk"@, Json::Bool(self.afk)),
        )
    }

    /// Builds the wire document.
    pub fn to_value(&self) -> (r: Value)
        ensures
            document(r) == self.wire(),
    {
        let mut items: Vec<Value> = Vec::new();
        let mut i: usize = 0;
        while i < self.activities.len()
            invariant
                i <= self.activities.len(),
                items@.len() == i,
                forall|j: int| 0 <= j < i ==> document(#[trigger] items@[j]) == self.activities@[j].wire(),
            decreases self.activities.len() - i,
        {
            items.push(self.activities[i].to_value());
            i += 1;
        }
        assert(documents(items@) =~= activities_doc(self.activities@));
        let mut out = object();
        insert(&mut out, "since", optional_unsigned_value(self.since));
        insert(&mut out, "activities", list(items));
        insert(&mut out, "status", text(self.status.as_str()));
        insert(&mut out, "afk", boolean(self.afk));
        out
    }
}

/// The wire document of an optional presence.
pub open spec fn presence_doc(p: Option<IdetifyPresence>) -> Json {
    match p {
        Some(presence) => presence.wire(),
        None => Json::Null,
    }
}

/// The wire document of a shard pair.
pub open spec fn shard_doc(shard: Seq<u32>) -> Json {
    Json::List(seq![Json::Unsigned(shard[0] as u64), Json::Unsigned(shard[1] as u64)])
}

impl IdentifyData {
    /// The wire document of the payload. What is left out is sent as null.
    pub open spec fn wire(&self) -> Json {
        Json::Object(
            Map::empty().insert("token"@, Json::Text(self.token@)).insert(
                "properties"@,
                self.properties.wire(),
            ).insert("compress"@, text_or_null(optional_text(self.compress))).insert(
                "large_threshold"@,
                unsigned_or_null(widen8(self.large_threshold)),
            ).insert("shard"@, shard_doc(self.shard@)).insert(
                "presence"@,
                presence_doc(self.presence),
            ).insert("intents"@, Json::Unsigned(self.intents as u64)),
        )
    }

    /// Builds the wire document.
    pub fn to_value(&self) -> (r: Value)
        ensures
            document(r) == self.wire(),
    {
        let threshold: Option<u64> = match self.large_threshold {
            Some(t) => Some(t as u64),
            None => None,
        };
        let mut pair: Vec<Value> = Vec::new();
        pair.push(unsigned(self.shard[0] as u64));
        pair.push(unsigned(self.shard[1] as u64));
        assert(Json::List(documents(pair@)) == shard_doc(self.shard@)) by {
            assert(documents(pair@) =~= seq![
                Json::Unsigned(self.shard@[0] as u64),
                Json::Unsigned(self.shard@[1] as u64),
            ]);
        }
        let presence = match &self.presence {
            Some(p) => p.to_value(),
            None => null(),
        };
        let mut out = object();
        insert(&mut out, "token", text(self.token.as_str()));
        insert(&mut out, "properties", self.properties.to_value());
        insert(&mut out, "compress", optional_text_value(&self.compress));
        insert(&mut out, "large_threshold", optional_unsigned_value(threshold));
        insert(&mut out, "shard", list(pair));
        insert(&mut out, "presence", presence);
        insert(&mut out, "intents", unsigned(self.intents as u64));
        out
    }
}

impl Identify {
    /// The wire document of this frame.
    pub open spec fn wire(&self) -> Json {
        frame_doc(self.op, self.data.wire())
    }

    /// Builds the wire document.
    pub fn to_value(&self) -> (r: Value)
        ensures
            document(r) == self.wire(),
    {
        frame(self.op, self.data.to_value())
    }

    /// Prints the wire document.
    pub fn encode(&self) -> (r: String)
        ensures
            r@ == printed(self.wire()),
    {
        print(&self.to_value())
    }
}

impl ResumeData {
    /// The wire document of the payload.
    pub open spec fn wire(&self) -> Json {
        Json::Object(
            Map::empty().insert("token"@, Json::Text(self.token@)).insert(
                "session_id"@,
                Json::Text(self.session_id@),
            ).insert("seq"@, Json::Unsigned(self.seq)),
        )
    }

    /// Builds the wire document.
    pub fn to_value(&self) -> (r: Value)
        ensures
            document(r) == self.wire(),
    {
        let mut out = object();
        insert(&mut out, "token", text(self.token.as_str()));
        insert(&mut out, "session_id", text(self.session_id.as_str()));
        insert(&mut out, "seq", unsigned(self.seq));
        out
    }
}

impl Resume {
    /// The wire document of this frame.
    pub open spec fn wire(&self) -> Json {
        frame_doc(self.op, self.data.wire())
    }

    /// Builds the wire document.
    pub fn to_value(&self) -> (r: Value)
        ensures
            document(r) == self.wire(),
    {
        frame(self.op, self.data.to_value())
    }

    /// Prints the wire document.
    pub fn encode(&self) -> (r: String)
        ensures
            r@ == printed(self.wire()),
    {
        print(&self.to_value())
    }
}

/// The wire document of the Identify that the client sends for `token`.
pub open spec fn identify_doc(token: Seq<char>) -> Json {
    frame_doc(
        GatewayOpCode::Identify,
        Json::Object(
            Map::empty().insert("token"@, Json::Text(token)).insert(
                "properties"@,
                Json::Object(
                    Map::empty().insert("os"@, Json::Text("linux"@)).insert(
                        "browser"@,
                        Json::Text("Mario"@),
                    ).insert("device"@, Json::Text("My computer"@)),
                ),
            ).insert("compress"@, Json::Null).insert("large_threshold"@, Json::Unsigned(250)).insert(
                "shard"@,
                Json::List(seq![Json::Unsigned(0), Json::Unsigned(1)]),
            ).insert("presence"@, Json::Null).insert("intents"@, Json::Unsigned(4608)),
        ),
    )
}

/// The wire document of the Resume of `session_id` after `seq`.
pub open spec fn resume_doc(token: Seq<char>, session_id: Seq<char>, seq: u64) -> Json {
    frame_doc(
        GatewayOpCode::Resume,
        Json::Object(
            Map::empty().insert("token"@, Json::Text(token)).insert(
                "session_id"@,
                Json::Text(session_id),
            ).insert("seq"@, Json::Unsigned(seq)),
        ),
    )
}

/// The opcode that a frame document carries.
pub open spec fn frame_opcode(doc: Json) -> Option<u64> {
    match crate::json::member(doc, "op"@) {
        Some(Json::Unsigned(n)) => Some(n),
        _ => None,
    }
}

/// A frame document carries the opcode it was made with.
pub proof fn lemma_frame_opcode(op: GatewayOpCode, d: Json)
    ensures
        frame_opcode(frame_doc(op, d)) == Some(op.spec_code()),
{
    reveal_strlit("op");
    reveal_strlit("d");
    assert("op"@.len() != "d"@.len());
}

/// The Identify made for a token has the document [`identify_doc`].
pub proof fn lemma_identify_wire(i: Identify, token: Seq<char>)
    requires
        i.is_default_for(token),
    ensures
        i.wire() == identify_doc(token),
{
    assert(i.data.shard@[0] == 0u32 && i.data.shard@[1] == 1u32);
}

/// The Resume made for a session has the document [`resume_doc`].
pub proof fn lemma_resume_wire(r: Resume, token: Seq<char>, session_id: Seq<char>, seq: u64)
    requires
        r.is_for(token, session_id, seq),
    ensures
        r.wire() == resume_doc(token, session_id, seq),
{
}

} // verus!
