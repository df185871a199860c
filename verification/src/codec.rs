//! The wire protocol codec: the tagged envelope written as a JSON object.
//!
//! An envelope is an object with the members `version` and `payload`. The
//! payload is an object with the member `type` and, where the message carries
//! anything, the member `message`. The shape of the envelope is this module's
//! business and is proved here; the JSON text under it is `serde_json`'s.
use crate::json::{
    empty_object, is_null, lookup, member, member_of, null_value, number_of, number_value, parse,
    parsed, print, printed, text_of, text_value, tree_of, with_member, Tree,
};
use crate::protocol::{
    CodecError, Despawn, Despawned, Envelope, Message, Payload, Spawn, Spawned, Version1,
};
use vstd::prelude::*;

verus! {

/// The tag under which a message travels.
pub open spec fn tag_of(message: Message) -> Seq<char> {
    match message {
        Message::Ping => "ping"@,
        Message::Pong => "pong"@,
        Message::Spawn => "spawn"@,
        Message::Spawned { .. } => "spawned"@,
        Message::Despawn => "despawn"@,
        Message::Despawned { .. } => "despawned"@,
    }
}

/// What a message carries beside its tag; `None` where it carries nothing.
pub open spec fn content_of(message: Message) -> Option<Tree> {
    match message {
        Message::Ping => None,
        Message::Pong => None,
        Message::Spawn => Some(Tree::Null),
        Message::Spawned { id, x, y } => Some(
            Tree::Object(
                seq![("id"@, Tree::Text(id)), ("x"@, Tree::Number(x)), ("y"@, Tree::Number(y))],
            ),
        ),
        Message::Despawn => Some(Tree::Null),
        Message::Despawned { id } => Some(Tree::Object(seq![("id"@, Tree::Text(id))])),
    }
}

/// The JSON object that stands for a message.
pub open spec fn message_tree(message: Message) -> Tree {
    match content_of(message) {
        None => Tree::Object(seq![("type"@, Tree::Text(tag_of(message)))]),
        Some(content) => Tree::Object(
            seq![("type"@, Tree::Text(tag_of(message))), ("message"@, content)],
        ),
    }
}

/// The JSON object that stands for an envelope.
pub open spec fn envelope_tree(envelope: Envelope) -> Tree {
    match envelope {
        Envelope::V1(message) => Tree::Object(
            seq![("version"@, Tree::Text("1"@)), ("payload"@, message_tree(message))],
        ),
    }
}

/// The message that a payload object stands for, if it stands for one.
///
/// The `type` member must be one of the six tags. `ping` and `pong` carry
/// nothing: their `message` member is missing or `null`. `spawn` and
/// `despawn` carry `null`. `spawned` carries an object with a string `id` and
/// numbers `x` and `y`; `despawned` an object with a string `id`. Members
/// under other keys are passed over.
pub open spec fn message_decoded(body: Tree) -> Option<Message> {
    let content = member(body, "message"@);
    match member(body, "type"@) {
        Some(Tree::Text(tag)) => {
            if tag == "ping"@ {
                if content is None || content == Some(Tree::Null) {
                    Some(Message::Ping)
                } else {
                    None
                }
            } else if tag == "pong"@ {
                if content is None || content == Some(Tree::Null) {
                    Some(Message::Pong)
                } else {
                    None
                }
            } else if tag == "spawn"@ {
                if content == Some(Tree::Null) {
                    Some(Message::Spawn)
                } else {
                    None
                }
            } else if tag == "spawned"@ {
                match content {
                    Some(inner) => match (
                        member(inner, "id"@),
                        member(inner, "x"@),
                        member(inner, "y"@),
                    ) {
                        (Some(Tree::Text(id)), Some(Tree::Number(x)), Some(Tree::Number(y))) => Some(
                            Message::Spawned { id, x, y },
                        ),
                        _ => None,
                    },
                    None => None,
                }
            } else if tag == "despawn"@ {
                if content == Some(Tree::Null) {
                    Some(Message::Despawn)
                } else {
                    None
                }
            } else if tag == "despawned"@ {
                match content {
                    Some(inner) => match member(inner, "id"@) {
                        Some(Tree::Text(id)) => Some(Message::Despawned { id }),
                        _ => None,
                    },
                    None => None,
                }
            } else {
                None
            }
        },
        _ => None,
    }
}

/// The envelope that a JSON value stands for, if it stands for one: an object
/// whose `version` member is the string `1` and whose `payload` member stands
/// for a message.
pub open spec fn envelope_decoded(tree: Tree) -> Option<Envelope> {
    match (member(tree, "version"@), member(tree, "payload"@)) {
        (Some(Tree::Text(version)), Some(body)) => {
            if version == "1"@ {
                match message_decoded(body) {
                    Some(message) => Some(Envelope::V1(message)),
                    None => None,
                }
            } else {
                None
            }
        },
        _ => None,
    }
}

/// The envelope that a byte sequence stands for, if it stands for one.
pub open spec fn wire_decoded(bytes: Seq<u8>) -> Option<Envelope> {
    match parsed(bytes) {
        Some(tree) => envelope_decoded(tree),
        None => None,
    }
}

/// The bytes that an envelope is written as, if it can be written.
pub open spec fn wire_encoded(envelope: Envelope) -> Option<Seq<u8>> {
    printed(envelope_tree(envelope))
}

/// The keys and tags of the wire format are pairwise different where the
/// format tells them apart.
pub proof fn wire_literals_differ()
    ensures
        "version"@ != "payload"@,
        "type"@ != "message"@,
        "id"@ != "x"@,
        "id"@ != "y"@,
        "x"@ != "y"@,
        "ping"@ != "pong"@,
        "ping"@ != "spawn"@,
        "ping"@ != "spawned"@,
        "ping"@ != "despawn"@,
        "ping"@ != "despawned"@,
        "pong"@ != "spawn"@,
        "pong"@ != "spawned"@,
        "pong"@ != "despawn"@,
        "pong"@ != "despawned"@,
        "spawn"@ != "spawned"@,
        "spawn"@ != "despawn"@,
        "spawn"@ != "despawned"@,
        "spawned"@ != "despawn"@,
        "spawned"@ != "despawned"@,
        "despawn"@ != "despawned"@,
{
    reveal_strlit("version");
    reveal_strlit("payload");
    reveal_strlit("type");
    reveal_strlit("message");
    reveal_strlit("id");
    reveal_strlit("x");
    reveal_strlit("y");
    reveal_strlit("ping");
    reveal_strlit("pong");
    reveal_strlit("spawn");
    reveal_strlit("spawned");
    reveal_strlit("despawn");
    reveal_strlit("despawned");
    assert("version"@[0] != "payload"@[0]);
    assert("type"@.len() != "message"@.len());
    assert("id"@.len() != "x"@.len());
    assert("id"@.len() != "y"@.len());
    assert("x"@[0] != "y"@[0]);
    assert("ping"@[1] != "pong"@[1]);
    assert("ping"@.len() == 4 && "pong"@.len() == 4);
    assert("spawn"@.len() == 5);
    assert("spawned"@.len() == 7 && "despawn"@.len() == 7);
    assert("despawned"@.len() == 9);
    assert("spawned"@[0] != "despawn"@[0]);
}

/// The members of an object with one member.
proof fn lookup_one(k0: Seq<char>, v0: Tree, key: Seq<char>)
    ensures
        lookup(seq![(k0, v0)], key) == if k0 == key {
            Some(v0)
        } else {
            None
        },
{
    let fields = seq![(k0, v0)];
    assert(fields.drop_first() =~= Seq::empty());
    assert(lookup(fields.drop_first(), key) is None);
}

/// The members of an object with two members.
proof fn lookup_two(k0: Seq<char>, v0: Tree, k1: Seq<char>, v1: Tree, key: Seq<char>)
    ensures
        lookup(seq![(k0, v0), (k1, v1)], key) == if k0 == key {
            Some(v0)
        } else if k1 == key {
            Some(v1)
        } else {
            None
        },
{
    let fields = seq![(k0, v0), (k1, v1)];
    assert(fields.drop_first() =~= seq![(k1, v1)]);
    lookup_one(k1, v1, key);
}

/// The members of an object with three members.
proof fn lookup_three(
    k0: Seq<char>,
    v0: Tree,
    k1: Seq<char>,
    v1: Tree,
    k2: Seq<char>,
    v2: Tree,
    key: Seq<char>,
)
    ensures
        lookup(seq![(k0, v0), (k1, v1), (k2, v2)], key) == if k0 == key {
            Some(v0)
        } else if k1 == key {
            Some(v1)
        } else if k2 == key {
            Some(v2)
        } else {
            None
        },
{
    let fields = seq![(k0, v0), (k1, v1), (k2, v2)];
    assert(fields.drop_first() =~= seq![(k1, v1), (k2, v2)]);
    lookup_two(k1, v1, k2, v2, key);
}

/// Reading back the object of a message gives the message.
pub proof fn message_round_trip(message: Message)
    ensures
        message_decoded(message_tree(message)) == Some(message),
{
    wire_literals_differ();
    let tag = Tree::Text(tag_of(message));
    match content_of(message) {
        None => {
            lookup_one("type"@, tag, "type"@);
            lookup_one("type"@, tag, "message"@);
        },
        Some(content) => {
            lookup_two("type"@, tag, "message"@, content, "type"@);
            lookup_two("type"@, tag, "message"@, content, "message"@);
            match message {
                Message::Spawned { id, x, y } => {
                    lookup_three(
                        "id"@,
                        Tree::Text(id),
                        "x"@,
                        Tree::Number(x),
                        "y"@,
                        Tree::Number(y),
                        "id"@,
                    );
                    lookup_three(
                        "id"@,
                        Tree::Text(id),
                        "x"@,
                        Tree::Number(x),
                        "y"@,
                        Tree::Number(y),
                        "x"@,
                    );
                    lookup_three(
                        "id"@,
                        Tree::Text(id),
                        "x"@,
                        Tree::Number(x),
                        "y"@,
                        Tree::Number(y),
                        "y"@,
                    );
                },
                Message::Despawned { id } => {
                    lookup_one("id"@, Tree::Text(id), "id"@);
                },
                _ => {},
            }
        },
    }
}

/// Reading back the object of an envelope gives the envelope, whatever the
/// envelope is.
pub proof fn envelope_round_trip(envelope: Envelope)
    ensures
        envelope_decoded(envelope_tree(envelope)) == Some(envelope),
{
    wire_literals_differ();
    match envelope {
        Envelope::V1(message) => {
            let version = Tree::Text("1"@);
            let body = message_tree(message);
            lookup_two("version"@, version, "payload"@, body, "version"@);
            lookup_two("version"@, version, "payload"@, body, "payload"@);
            message_round_trip(message);
        },
    }
}

/// Different envelopes are written as different objects.
pub proof fn envelope_tree_is_injective(first: Envelope, second: Envelope)
    requires
        envelope_tree(first) == envelope_tree(second),
    ensures
        first == second,
{
    envelope_round_trip(first);
    envelope_round_trip(second);
}

/// Every byte sequence that reads as the JSON object of an envelope decodes to
/// that envelope.
pub proof fn wire_round_trip(envelope: Envelope, bytes: Seq<u8>)
    requires
        parsed(bytes) == Some(envelope_tree(envelope)),
    ensures
        wire_decoded(bytes) == Some(envelope),
{
    envelope_round_trip(envelope);
}

/// Whether `text` is the literal `literal`.
fn text_is(text: &String, literal: &str) -> (r: bool)
    ensures
        r == (text@ == literal@),
{
    let other = literal.to_owned();
    *text == other
}

/// Whether a message that carries nothing may have this `message` member:
/// none, or `null`.
fn carries_nothing(content: Option<&serde_json::Value>) -> (r: bool)
    ensures
        r == match content {
            Some(value) => tree_of(*value) is Null,
            None => true,
        },
{
    match content {
        Some(value) => is_null(value),
        None => true,
    }
}

/// Whether the `message` member is there and is `null`.
fn carries_null(content: Option<&serde_json::Value>) -> (r: bool)
    ensures
        r == match content {
            Some(value) => tree_of(*value) is Null,
            None => false,
        },
{
    match content {
        Some(value) => is_null(value),
        None => false,
    }
}

/// The string member of `object` under `key`.
fn text_member(object: &serde_json::Value, key: &str) -> (r: Option<String>)
    ensures
        match r {
            Some(text) => member(tree_of(*object), key@) == Some(Tree::Text(text@)),
            None => !(member(tree_of(*object), key@) matches Some(Tree::Text(_))),
        },
{
    match member_of(object, key) {
        Some(value) => text_of(value),
        None => None,
    }
}

/// The number member of `object` under `key`.
fn number_member(object: &serde_json::Value, key: &str) -> (r: Option<serde_json::Number>)
    ensures
        match r {
            Some(number) => member(tree_of(*object), key@) == Some(Tree::Number(number)),
            None => !(member(tree_of(*object), key@) matches Some(Tree::Number(_))),
        },
{
    match member_of(object, key) {
        Some(value) => number_of(value),
        None => None,
    }
}

/// A JSON object with the one member `key`.
fn object_of(key: &str, value: serde_json::Value) -> (r: serde_json::Value)
    ensures
        tree_of(r) == Tree::Object(seq![(key@, tree_of(value))]),
{
    let ghost held = tree_of(value);
    let object = with_member(empty_object(), key, value);
    assert(Seq::<(Seq<char>, Tree)>::empty().push((key@, held)) =~= seq![(key@, held)]);
    object
}

impl Spawned {
    /// Reads the content of a `spawned` message: an object with a string `id`
    /// and numbers `x` and `y`.
    pub fn from_value(content: &serde_json::Value) -> (r: Result<Spawned, CodecError>)
        ensures
            match (
                member(tree_of(*content), "id"@),
                member(tree_of(*content), "x"@),
                member(tree_of(*content), "y"@),
            ) {
                (Some(Tree::Text(id)), Some(Tree::Number(x)), Some(Tree::Number(y))) => r is Ok
                    && r->Ok_0.id@ == id && r->Ok_0.x == x && r->Ok_0.y == y,
                _ => r is Err && r->Err_0 == CodecError::Malformed,
            },
    {
        let id = match text_member(content, "id") {
            Some(id) => id,
            None => return Err(CodecError::Malformed),
        };
        let x = match number_member(content, "x") {
            Some(x) => x,
            None => return Err(CodecError::Malformed),
        };
        let y = match number_member(content, "y") {
            Some(y) => y,
            None => return Err(CodecError::Malformed),
        };
        Ok(Spawned { id, x, y })
    }

    /// Writes the content of a `spawned` message.
    pub fn to_value(&self) -> (r: serde_json::Value)
        ensures
            Some(tree_of(r)) == content_of(Message::Spawned { id: self.id@, x: self.x, y: self.y }),
    {
        let with_id = object_of("id", text_value(self.id.as_str()));
        proof {
            wire_literals_differ();
            lookup_one("id"@, Tree::Text(self.id@), "x"@);
        }
        let with_x = with_member(with_id, "x", number_value(&self.x));
        proof {
            let fields = seq![("id"@, Tree::Text(self.id@))].push(("x"@, Tree::Number(self.x)));
            assert(fields =~= seq![("id"@, Tree::Text(self.id@)), ("x"@, Tree::Number(self.x))]);
            lookup_two("id"@, Tree::Text(self.id@), "x"@, Tree::Number(self.x), "y"@);
        }
        let with_y = with_member(with_x, "y", number_value(&self.y));
        proof {
            let fields = seq![("id"@, Tree::Text(self.id@)), ("x"@, Tree::Number(self.x))].push(
                ("y"@, Tree::Number(self.y)),
            );
            assert(fields =~= seq![
                ("id"@, Tree::Text(self.id@)),
                ("x"@, Tree::Number(self.x)),
                ("y"@, Tree::Number(self.y)),
            ]);
        }
        with_y
    }
}

impl Despawned {
    /// Reads the content of a `despawned` message: an object with a string
    /// `id`.
    pub fn from_value(content: &serde_json::Value) -> (r: Result<Despawned, CodecError>)
        ensures
            match member(tree_of(*content), "id"@) {
                Some(Tree::Text(id)) => r is Ok && r->Ok_0.id@ == id,
                _ => r is Err && r->Err_0 == CodecError::Malformed,
            },
    {
        match text_member(content, "id") {
            Some(id) => Ok(Despawned { id }),
            None => Err(CodecError::Malformed),
        }
    }

    /// Writes the content of a `despawned` message.
    pub fn to_value(&self) -> (r: serde_json::Value)
        ensures
            Some(tree_of(r)) == content_of(Message::Despawned { id: self.id@ }),
    {
        object_of("id", text_value(self.id.as_str()))
    }
}

impl Version1 {
    /// The tag under which this message travels.
    pub fn tag(&self) -> (r: &'static str)
        ensures
            r@ == tag_of(self@),
    {
        match self {
            Version1::Ping => "ping",
            Version1::Pong => "pong",
            Version1::Spawn(_) => "spawn",
            Version1::Spawned(_) => "spawned",
            Version1::Despawn(_) => "despawn",
            Version1::Despawned(_) => "despawned",
        }
    }

    /// Reads a message from its JSON object. Fails with `Malformed` exactly
    /// where the object stands for no message.
    pub fn from_value(body: &serde_json::Value) -> (r: Result<Version1, CodecError>)
        ensures
            match message_decoded(tree_of(*body)) {
                Some(message) => r is Ok && r->Ok_0@ == message,
                None => r is Err && r->Err_0 == CodecError::Malformed,
            },
    {
        let tag = match text_member(body, "type") {
            Some(tag) => tag,
            None => return Err(CodecError::Malformed),
        };
        let content = member_of(body, "message");
        if text_is(&tag, "ping") {
            if carries_nothing(content) {
                Ok(Version1::Ping)
            } else {
                Err(CodecError::Malformed)
            }
        } else if text_is(&tag, "pong") {
            if carries_nothing(content) {
                Ok(Version1::Pong)
            } else {
                Err(CodecError::Malformed)
            }
        } else if text_is(&tag, "spawn") {
            if carries_null(content) {
                Ok(Version1::Spawn(Spawn))
            } else {
                Err(CodecError::Malformed)
            }
        } else if text_is(&tag, "spawned") {
            match content {
                Some(inner) => match Spawned::from_value(inner) {
                    Ok(spawned) => Ok(Version1::Spawned(spawned)),
                    Err(error) => Err(error),
                },
                None => Err(CodecError::Malformed),
            }
        } else if text_is(&tag, "despawn") {
            if carries_null(content) {
                Ok(Version1::Despawn(Despawn))
            } else {
                Err(CodecError::Malformed)
            }
        } else if text_is(&tag, "despawned") {
            match content {
                Some(inner) => match Despawned::from_value(inner) {
                    Ok(despawned) => Ok(Version1::Despawned(despawned)),
                    Err(error) => Err(error),
                },
                None => Err(CodecError::Malformed),
            }
        } else {
            Err(CodecError::Malformed)
        }
    }

    /// Writes a message as its JSON object.
    pub fn to_value(&self) -> (r: serde_json::Value)
        ensures
            tree_of(r) == message_tree(self@),
    {
        let tagged = object_of("type", text_value(self.tag()));
        let content = match self {
            Version1::Ping => None,
            Version1::Pong => None,
            Version1::Spawn(_) => Some(null_value()),
            Version1::Spawned(spawned) => Some(spawned.to_value()),
            Version1::Despawn(_) => Some(null_value()),
            Version1::Despawned(despawned) => Some(despawned.to_value()),
        };
        match content {
            None => tagged,
            Some(content) => {
                let ghost tag = Tree::Text(tag_of(self@));
                let ghost held = tree_of(content);
                proof {
                    wire_literals_differ();
                    lookup_one("type"@, tag, "message"@);
                }
                let whole = with_member(tagged, "message", content);
                assert(seq![("type"@, tag)].push(("message"@, held)) =~= seq![
                    ("type"@, tag),
                    ("message"@, held),
                ]);
                whole
            },
        }
    }
}

impl Payload {
    /// Reads an envelope from its JSON object. Fails with `Malformed` exactly
    /// where the value stands for no envelope.
    pub fn from_value(value: &serde_json::Value) -> (r: Result<Payload, CodecError>)
        ensures
            match envelope_decoded(tree_of(*value)) {
                Some(envelope) => r is Ok && r->Ok_0@ == envelope,
                None => r is Err && r->Err_0 == CodecError::Malformed,
            },
    {
        let version = match text_member(value, "version") {
            Some(version) => version,
            None => return Err(CodecError::Malformed),
        };
        let body = match member_of(value, "payload") {
            Some(body) => body,
            None => return Err(CodecError::Malformed),
        };
        if !text_is(&version, "1") {
            return Err(CodecError::Malformed);
        }
        match Version1::from_value(body) {
            Ok(message) => Ok(Payload::V1(message)),
            Err(error) => Err(error),
        }
    }

    /// Writes an envelope as its JSON object.
    pub fn to_value(&self) -> (r: serde_json::Value)
        ensures
            tree_of(r) == envelope_tree(self@),
    {
        match self {
            Payload::V1(message) => {
                let versioned = object_of("version", text_value("1"));
                let body = message.to_value();
                let ghost version = Tree::Text("1"@);
                let ghost held = tree_of(body);
                proof {
                    wire_literals_differ();
                    lookup_one("version"@, version, "payload"@);
                }
                let whole = with_member(versioned, "payload", body);
                assert(seq![("version"@, version)].push(("payload"@, held)) =~= seq![
                    ("version"@, version),
                    ("payload"@, held),
                ]);
                whole
            },
        }
    }

    /// Decodes an envelope from its bytes. Succeeds exactly where the bytes
    /// are JSON text for an object that stands for an envelope, and then
    /// returns that envelope; every other input is `Malformed`.
    pub fn deserialize(payload: &[u8]) -> (r: Result<Payload, CodecError>)
        ensures
            match wire_decoded(payload@) {
                Some(envelope) => r is Ok && r->Ok_0@ == envelope,
                None => r is Err && r->Err_0 == CodecError::Malformed,
            },
    {
        match parse(payload) {
            Ok(value) => Payload::from_value(&value),
            Err(_) => Err(CodecError::Malformed),
        }
    }

    /// Encodes an envelope as bytes: the compact JSON text of its object. The
    /// bytes depend on the envelope alone.
    pub fn serialize(&self) -> (r: Result<Vec<u8>, CodecError>)
        ensures
            match wire_encoded(self@) {
                Some(bytes) => r is Ok && r->Ok_0@ == bytes,
                None => r is Err && r->Err_0 == CodecError::Unwritable,
            },
    {
        let value = self.to_value();
        match print(&value) {
            Ok(bytes) => Ok(bytes),
            Err(_) => Err(CodecError::Unwritable),
        }
    }
}

} // verus!
