//! The chunked transfer: the request that asks for one chunk, the chunk that
//! answers it, and why a transfer from an honest peer is complete.

use crate::text::slice_copy;
use sha2::{Digest, Sha256};
use vstd::bytes::spec_u64_to_le_bytes;
use vstd::prelude::*;
use vstd::utf8::*;

verus! {

/// The size of a full chunk: 64 KiB.
pub const CHUNK_SIZE: u64 = 65536;

/// The name of the request/response protocol.
pub open spec fn protocol_name() -> Seq<char> {
    "/chunk/1"@
}

/// The name of the request/response protocol.
pub fn chunk_protocol() -> (r: &'static str)
    ensures
        r@ == protocol_name(),
{
    "/chunk/1"
}

/// The payload of a chunk request: the length of the hash text in eight
/// bytes, least significant first, the UTF-8 bytes of the hash, and the
/// offset in eight bytes, least significant first.
pub open spec fn request_bytes(hash: Seq<char>, offset: u64) -> Seq<u8> {
    spec_u64_to_le_bytes(encode_utf8(hash).len() as u64) + encode_utf8(hash) + spec_u64_to_le_bytes(
        offset,
    )
}

/// What `bincode::deserialize` reads from a payload as a pair of hash text
/// and offset: nothing where it reports an error.
pub uninterp spec fn decoded_request(payload: Seq<u8>) -> Option<(Seq<char>, u64)>;

/// The view of a decoded request.
pub open spec fn request_view(r: Option<(String, u64)>) -> Option<(Seq<char>, u64)> {
    match r {
        Some((h, o)) => Some((h@, o)),
        None => None,
    }
}

/// Calls `bincode::serialize` on the pair of hash and offset. With the
/// crate's default options a string is written as its byte length in a
/// fixed eight bytes, little endian, and then its bytes; a `u64` as eight
/// bytes, little endian. Writing into memory does not fail.
#[verifier::external_body]
pub(crate) fn encode_request(hash: &str, offset: u64) -> (r: Vec<u8>)
    ensures
        r@ == request_bytes(hash@, offset),
{
    bincode::serialize(&(hash.to_string(), offset)).unwrap_or_default()
}

/// Calls `bincode::deserialize` for a pair of string and `u64`. What
/// `bincode::serialize` wrote for a pair is read back as that pair.
#[verifier::external_body]
pub(crate) fn decode_request(payload: &[u8]) -> (r: Option<(String, u64)>)
    ensures
        request_view(r) == decoded_request(payload@),
        forall|h: Seq<char>, o: u64|
            payload@ == #[trigger] request_bytes(h, o) ==> request_view(r) == Some((h, o)),
{
    bincode::deserialize(payload).ok()
}

/// Builds the request for the chunk of `hash` at `offset`.
pub fn build_chunk_request(hash: &str, offset: u64) -> (r: Vec<u8>)
    ensures
        r@ == request_bytes(hash@, offset),
{
    encode_request(hash, offset)
}

/// Reads a chunk request. A payload that `build_chunk_request` wrote gives
/// back the hash and offset it was built from.
pub fn parse_chunk_request(payload: &[u8]) -> (r: Option<(String, u64)>)
    ensures
        request_view(r) == decoded_request(payload@),
        forall|h: Seq<char>, o: u64|
            payload@ == #[trigger] request_bytes(h, o) ==> request_view(r) == Some((h, o)),
{
    decode_request(payload)
}

/// The chunk of `content` at `offset`: up to 64 KiB from there, nothing at
/// or behind the end.
pub open spec fn chunk_at(content: Seq<u8>, offset: nat) -> Seq<u8> {
    if offset >= content.len() {
        Seq::empty()
    } else if content.len() - offset <= CHUNK_SIZE {
        content.subrange(offset as int, content.len() as int)
    } else {
        content.subrange(offset as int, offset + CHUNK_SIZE)
    }
}

/// Cuts the chunk at `offset` out of `content`.
pub fn read_chunk(content: &[u8], offset: u64) -> (r: Vec<u8>)
    ensures
        r@ == chunk_at(content@, offset as nat),
{
    if offset >= content.len() as u64 {
        return Vec::new();
    }
    let start: usize = offset as usize;
    let left: usize = content.len() - start;
    if left as u64 <= CHUNK_SIZE {
        slice_copy(content, start, content.len())
    } else {
        slice_copy(content, start, start + CHUNK_SIZE as usize)
    }
}

/// What a fetch that starts at `offset` has written when the first empty
/// chunk arrives, given that every answer is the chunk of `content` at the
/// offset asked for.
pub open spec fn assembled(content: Seq<u8>, offset: nat) -> Seq<u8>
    decreases content.len() - offset,
{
    if offset >= content.len() {
        Seq::empty()
    } else {
        chunk_at(content, offset) + assembled(content, offset + chunk_at(content, offset).len())
    }
}

/// The number of chunks that are not empty when `content` is fetched from
/// `offset` on.
pub open spec fn chunk_count(content: Seq<u8>, offset: nat) -> nat
    decreases content.len() - offset,
{
    if offset >= content.len() {
        0
    } else {
        1 + chunk_count(content, offset + chunk_at(content, offset).len())
    }
}

/// A fetch from a peer that answers every request with the chunk asked for
/// writes the rest of the content from the offset where it starts.
pub proof fn lemma_assembled_is_rest(content: Seq<u8>, offset: nat)
    requires
        offset <= content.len(),
    ensures
        assembled(content, offset) == content.subrange(offset as int, content.len() as int),
    decreases content.len() - offset,
{
    if offset >= content.len() {
        assert(content.subrange(offset as int, content.len() as int) =~= Seq::<u8>::empty());
    } else {
        let c = chunk_at(content, offset);
        lemma_assembled_is_rest(content, offset + c.len());
        assert(c + content.subrange((offset + c.len()) as int, content.len() as int) =~= content.subrange(
            offset as int,
            content.len() as int,
        ));
    }
}

/// A fetch from the start that an honest peer serves writes the content,
/// byte for byte, and the first empty chunk comes at its end.
pub proof fn lemma_transfer_complete(content: Seq<u8>)
    ensures
        assembled(content, 0) == content,
        chunk_at(content, content.len()).len() == 0,
{
    lemma_assembled_is_rest(content, 0);
    assert(content.subrange(0, content.len() as int) =~= content);
}

/// Every chunk but the last is full, so a content of `n` bytes takes
/// `n / 65536` full chunks and one more for a remainder.
pub proof fn lemma_chunk_count(content: Seq<u8>, offset: nat)
    requires
        offset <= content.len(),
        offset % (CHUNK_SIZE as nat) == 0,
    ensures
        chunk_count(content, offset) == (content.len() - offset + CHUNK_SIZE - 1) / (
        CHUNK_SIZE as int),
    decreases content.len() - offset,
{
    if offset >= content.len() {
    } else if content.len() - offset <= CHUNK_SIZE {
        assert(chunk_count(content, content.len()) == 0);
    } else {
        lemma_chunk_count(content, offset + CHUNK_SIZE as nat);
    }
}

/// The SHA-256 digest that the `sha2` crate computes of a byte string.
pub uninterp spec fn sha256(data: Seq<u8>) -> Seq<u8>;

/// Calls `sha2::Sha256::digest`; the digest is known by name only.
#[verifier::external_body]
pub(crate) fn sha256_digest(data: &[u8]) -> (r: Vec<u8>)
    ensures
        r@ == sha256(data@),
{
    Sha256::digest(data).to_vec()
}

/// The content hash of `data`: its SHA-256 digest in lower-case
/// hexadecimal.
pub open spec fn content_hash(data: Seq<u8>) -> Seq<char> {
    crate::strings::hex_chars(sha256(data))
}

/// Computes the content hash of `data`.
pub fn calculate_hash(data: &[u8]) -> (r: String)
    ensures
        r@ == content_hash(data@),
{
    let digest = sha256_digest(data);
    crate::strings::hex_string(digest.as_slice())
}

/// Tests whether `data` has the content hash `expected`.
pub fn validate_integrity(data: &[u8], expected: &str) -> (r: bool)
    ensures
        r == (content_hash(data@) == expected@),
{
    let actual = calculate_hash(data);
    crate::strings::same_text(actual.as_str(), expected)
}

/// What a fetch from an honest peer has written at its end carries the
/// hash that was asked for.
pub proof fn lemma_fetched_hash(content: Seq<u8>, hash: Seq<char>)
    requires
        content_hash(content) == hash,
    ensures
        content_hash(assembled(content, 0)) == hash,
{
    lemma_transfer_complete(content);
}

} // verus!
