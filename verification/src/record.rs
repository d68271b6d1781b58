//! The records that a node writes to the distributed hash table: their keys,
//! their lifetime, and the JSON payload of a content record.

use crate::strings::{concat, opt_view};
use serde_json::Value;
use vstd::prelude::*;
use vstd::string::*;

verus! {

/// The lifetime of every record that a node writes: 24 hours, in seconds.
pub const RECORD_TTL_SECS: u64 = 86400;

/// A JSON value, as far as a record needs one.
#[derive(Debug, PartialEq, Eq)]
pub enum JsonValue {
    Null,
    Text(String),
    List(Vec<String>),
}

/// A JSON value as plain text.
pub enum JsonValueView {
    Null,
    Text(Seq<char>),
    List(Seq<Seq<char>>),
}

/// One member of a JSON object.
#[derive(Debug, PartialEq, Eq)]
pub struct JsonField {
    pub key: String,
    pub value: JsonValue,
}

impl View for JsonValue {
    type V = JsonValueView;

    open spec fn view(&self) -> JsonValueView {
        match self {
            JsonValue::Null => JsonValueView::Null,
            JsonValue::Text(s) => JsonValueView::Text(s@),
            JsonValue::List(l) => JsonValueView::List(l.deep_view()),
        }
    }
}

impl View for JsonField {
    type V = (Seq<char>, JsonValueView);

    open spec fn view(&self) -> (Seq<char>, JsonValueView) {
        (self.key@, self.value@)
    }
}

impl DeepView for JsonField {
    type V = (Seq<char>, JsonValueView);

    open spec fn deep_view(&self) -> (Seq<char>, JsonValueView) {
        self@
    }
}

/// The bytes that `serde_json::to_vec` writes for the object with the given
/// members.
pub uninterp spec fn json_object(fields: Seq<(Seq<char>, JsonValueView)>) -> Seq<u8>;

/// Builds a `serde_json::Map` from the members, one `insert` each in their
/// order, and calls `serde_json::to_vec` on the object; the bytes are known
/// by name only.
#[verifier::external_body]
pub(crate) fn json_object_bytes(fields: &Vec<JsonField>) -> (r: Vec<u8>)
    ensures
        r@ == json_object(fields.deep_view()),
{
    let mut map = serde_json::Map::new();
    for f in fields.iter() {
        let v = match &f.value {
            JsonValue::Null => Value::Null,
            JsonValue::Text(s) => Value::String(s.clone()),
            JsonValue::List(l) => Value::Array(l.iter().cloned().map(Value::String).collect()),
        };
        map.insert(f.key.clone(), v);
    }
    serde_json::to_vec(&Value::Object(map)).unwrap_or_default()
}

/// The members of a content record: hash, path, title, author (null where
/// there is none), tags and the publishing peer.
pub open spec fn content_fields(
    hash: Seq<char>,
    path: Seq<char>,
    title: Seq<char>,
    author: Option<Seq<char>>,
    tags: Seq<Seq<char>>,
    peer: Seq<char>,
) -> Seq<(Seq<char>, JsonValueView)> {
    seq![
        ("hash"@, JsonValueView::Text(hash)),
        ("path"@, JsonValueView::Text(path)),
        ("title"@, JsonValueView::Text(title)),
        (
            "author"@,
            match author {
                Some(a) => JsonValueView::Text(a),
                None => JsonValueView::Null,
            },
        ),
        ("tags"@, JsonValueView::List(tags)),
        ("peer_id"@, JsonValueView::Text(peer)),
    ]
}

/// The payload of a content record.
pub open spec fn content_payload(
    hash: Seq<char>,
    path: Seq<char>,
    title: Seq<char>,
    author: Option<Seq<char>>,
    tags: Seq<Seq<char>>,
    peer: Seq<char>,
) -> Seq<u8> {
    json_object(content_fields(hash, path, title, author, tags, peer))
}

/// Writes the payload of a content record.
pub fn content_record(
    hash: &str,
    path: &str,
    title: &str,
    author: &Option<String>,
    tags: &Vec<String>,
    peer: &str,
) -> (r: Vec<u8>)
    ensures
        r@ == content_payload(hash@, path@, title@, opt_view(*author), tags.deep_view(), peer@),
{
    let mut fields: Vec<JsonField> = Vec::new();
    fields.push(
        JsonField { key: String::from_str("hash"), value: JsonValue::Text(String::from_str(hash)) },
    );
    fields.push(
        JsonField { key: String::from_str("path"), value: JsonValue::Text(String::from_str(path)) },
    );
    fields.push(
        JsonField {
            key: String::from_str("title"),
            value: JsonValue::Text(String::from_str(title)),
        },
    );
    let author_value = match author {
        Some(a) => JsonValue::Text(a.clone()),
        None => JsonValue::Null,
    };
    fields.push(JsonField { key: String::from_str("author"), value: author_value });
    fields.push(
        JsonField {
            key: String::from_str("tags"),
            value: JsonValue::List(crate::strings::clone_texts(tags)),
        },
    );
    fields.push(
        JsonField {
            key: String::from_str("peer_id"),
            value: JsonValue::Text(String::from_str(peer)),
        },
    );
    assert(fields.deep_view() =~= content_fields(
        hash@,
        path@,
        title@,
        opt_view(*author),
        tags.deep_view(),
        peer@,
    ));
    json_object_bytes(&fields)
}

/// The key of a node's presence record: `peer:<peer-id>`.
pub open spec fn peer_key_text(peer: Seq<char>) -> Seq<char> {
    "peer:"@ + peer
}

/// The key of a content record: `content:<hash>`.
pub open spec fn content_key_text(hash: Seq<char>) -> Seq<char> {
    "content:"@ + hash
}

/// The key of an address that an operator added: `manual:<address>`.
pub open spec fn manual_key_text(address: Seq<char>) -> Seq<char> {
    "manual:"@ + address
}

/// The key of the shared discovery slot.
pub open spec fn discovery_key_text() -> Seq<char> {
    "discovery"@
}

/// Writes the key of a node's presence record.
pub fn peer_key(peer: &str) -> (r: String)
    ensures
        r@ == peer_key_text(peer@),
{
    concat("peer:", peer)
}

/// Writes the key of a content record.
pub fn content_key(hash: &str) -> (r: String)
    ensures
        r@ == content_key_text(hash@),
{
    concat("content:", hash)
}

/// Writes the key of an address that an operator added.
pub fn manual_key(address: &str) -> (r: String)
    ensures
        r@ == manual_key_text(address@),
{
    concat("manual:", address)
}

/// Writes the key of the shared discovery slot.
pub fn discovery_key() -> (r: String)
    ensures
        r@ == discovery_key_text(),
{
    String::from_str("discovery")
}

} // verus!
