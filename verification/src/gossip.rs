//! The line protocol of the gossip topics: content announcements, search
//! requests, search responses and peer announcements, all UTF-8 text with
//! `|` between fields.

use crate::address::{is_address, is_valid_address};
use crate::strings::{opt_view, text_of, utf8_text};
use crate::text::{
    extend,
    has_prefix,
    rows,
    slice_copy,
    split,
    split_all,
    split_n,
    splitn,
    starts_with,
    trim,
    trimmed,
};
use vstd::prelude::*;
use vstd::string::*;
use vstd::utf8::*;

verus! {

pub const PIPE: u8 = 124;

pub const TAG_SEPARATOR: u8 = 44;

pub const SLASH: u8 = 47;

/// The topic of content announcements and search traffic.
pub open spec fn content_topic_name() -> Seq<char> {
    "content"@
}

/// The topic on which nodes announce their addresses.
pub open spec fn peers_topic_name() -> Seq<char> {
    "peers"@
}

/// A gossip topic of the overlay.
#[derive(Debug, PartialEq, Eq, Clone, Copy, Structural)]
pub enum Topic {
    /// Content announcements and search traffic.
    Content,
    /// Self announcements.
    Peers,
}

impl Topic {
    /// The topic's name on the wire.
    pub fn name(&self) -> (r: &'static str)
        ensures
            r@ == match self {
                Topic::Content => content_topic_name(),
                Topic::Peers => peers_topic_name(),
            },
    {
        match self {
            Topic::Content => "content",
            Topic::Peers => "peers",
        }
    }
}

/// What starts a content announcement.
pub open spec fn content_tag() -> Seq<u8> {
    encode_utf8("CONTENT|"@)
}

/// What starts a search request.
pub open spec fn search_tag() -> Seq<u8> {
    encode_utf8("S|"@)
}

/// What starts a search response.
pub open spec fn response_tag() -> Seq<u8> {
    encode_utf8("R|"@)
}

/// The author that is announced for content without one.
pub open spec fn unknown_author() -> Seq<char> {
    "Unknown"@
}

/// A message of the gossip topics.
#[derive(Debug, PartialEq, Eq)]
pub enum GossipMessage {
    /// `CONTENT|<hash>|<title>|<author>|<tags>`
    Content { hash: String, title: String, author: String, tags: Vec<String> },
    /// A logical address, as it stands.
    PeerAnnounce { address: String },
    /// `S|<search-id>|<query>`
    SearchRequest { id: String, query: String },
    /// `R|<search-id>|<hash>|<name>`
    SearchResponse { id: String, hash: String, name: String },
}

/// A gossip message as plain text.
pub enum GossipView {
    Content { hash: Seq<char>, title: Seq<char>, author: Seq<char>, tags: Seq<Seq<char>> },
    PeerAnnounce { address: Seq<char> },
    SearchRequest { id: Seq<char>, query: Seq<char> },
    SearchResponse { id: Seq<char>, hash: Seq<char>, name: Seq<char> },
}

impl View for GossipMessage {
    type V = GossipView;

    open spec fn view(&self) -> GossipView {
        match self {
            GossipMessage::Content { hash, title, author, tags } => GossipView::Content {
                hash: hash@,
                title: title@,
                author: author@,
                tags: tags.deep_view(),
            },
            GossipMessage::PeerAnnounce { address } => GossipView::PeerAnnounce {
                address: address@,
            },
            GossipMessage::SearchRequest { id, query } => GossipView::SearchRequest {
                id: id@,
                query: query@,
            },
            GossipMessage::SearchResponse { id, hash, name } => GossipView::SearchResponse {
                id: id@,
                hash: hash@,
                name: name@,
            },
        }
    }
}

/// The view of an optional message.
pub open spec fn message_view(m: Option<GossipMessage>) -> Option<GossipView> {
    match m {
        Some(x) => Some(x@),
        None => None,
    }
}

/// The text that `bytes` encode, or no text at all where they encode none.
pub open spec fn lossy_text(bytes: Seq<u8>) -> Seq<char> {
    match text_of(bytes) {
        Some(t) => t,
        None => Seq::empty(),
    }
}

/// The tags of a list: its pieces between commas, each trimmed.
pub open spec fn tags_of(pieces: Seq<Seq<u8>>) -> Seq<Seq<char>> {
    Seq::new(pieces.len(), |i: int| lossy_text(trimmed(pieces[i])))
}

/// What follows the first `n` bytes.
pub open spec fn skip(data: Seq<u8>, n: nat) -> Seq<u8> {
    data.subrange(n as int, data.len() as int)
}

/// The content announcement that `rest` holds behind the tag.
pub open spec fn content_of(rest: Seq<u8>) -> Option<GossipView> {
    let f = split_n(rest, PIPE, 4);
    if f.len() == 4 {
        match (text_of(f[0]), text_of(f[1]), text_of(f[2])) {
            (Some(hash), Some(title), Some(author)) => Some(
                GossipView::Content {
                    hash,
                    title,
                    author,
                    tags: tags_of(split_all(f[3], TAG_SEPARATOR)),
                },
            ),
            _ => None,
        }
    } else {
        None
    }
}

/// The search request that `rest` holds behind the tag.
pub open spec fn request_of(rest: Seq<u8>) -> Option<GossipView> {
    let f = split_n(rest, PIPE, 2);
    if f.len() == 2 {
        match (text_of(f[0]), text_of(f[1])) {
            (Some(id), Some(query)) => Some(GossipView::SearchRequest { id, query }),
            _ => None,
        }
    } else {
        None
    }
}

/// The search response that `rest` holds behind the tag.
pub open spec fn response_of(rest: Seq<u8>) -> Option<GossipView> {
    let f = split_n(rest, PIPE, 3);
    if f.len() == 3 {
        match (text_of(f[0]), text_of(f[1]), text_of(f[2])) {
            (Some(id), Some(hash), Some(name)) => Some(
                GossipView::SearchResponse { id, hash, name },
            ),
            _ => None,
        }
    } else {
        None
    }
}

/// Whether a payload announces an address: it is text that the overlay's
/// address syntax takes. Such a text is empty or begins with a slash.
pub open spec fn announces(data: Seq<u8>) -> bool {
    valid_utf8(data) && (data.len() == 0 || data[0] == SLASH) && is_address(decode_utf8(data))
}

/// What a payload of the content topic says: a content announcement, a
/// search request or a search response, by its tag. A text behind the
/// content tag is a content announcement or nothing.
pub open spec fn content_meaning(data: Seq<u8>) -> Option<GossipView> {
    if !valid_utf8(data) {
        None
    } else if has_prefix(data, content_tag()) {
        content_of(skip(data, content_tag().len()))
    } else if has_prefix(data, search_tag()) {
        request_of(skip(data, search_tag().len()))
    } else if has_prefix(data, response_tag()) {
        response_of(skip(data, response_tag().len()))
    } else {
        None
    }
}

/// What a payload of the peers topic says, given whether it announces an
/// address.
pub open spec fn peers_meaning(data: Seq<u8>, address: bool) -> Option<GossipView> {
    if valid_utf8(data) && address {
        Some(GossipView::PeerAnnounce { address: decode_utf8(data) })
    } else {
        None
    }
}

/// What a gossip payload says on its topic. Bytes that are no UTF-8 text
/// say nothing.
pub open spec fn message_of(topic: Topic, data: Seq<u8>) -> Option<GossipView> {
    match topic {
        Topic::Content => content_meaning(data),
        Topic::Peers => peers_meaning(data, announces(data)),
    }
}

fn read_tags(list: &[u8]) -> (r: Vec<String>)
    ensures
        r.deep_view() == tags_of(split_all(list@, TAG_SEPARATOR)),
{
    let pieces = split(list, TAG_SEPARATOR);
    let mut out: Vec<String> = Vec::new();
    let mut i: usize = 0;
    let ghost all = rows(pieces@);
    while i < pieces.len()
        invariant
            i <= pieces.len(),
            all == rows(pieces@),
            out.len() == i,
            forall|j: int| 0 <= j < i ==> out.deep_view()[j] == lossy_text(trimmed(all[j])),
        decreases pieces.len() - i,
    {
        let t = trim(pieces[i].as_slice());
        let tag = match utf8_text(t.as_slice()) {
            Some(s) => s,
            None => String::new(),
        };
        let ghost before = out.deep_view();
        out.push(tag);
        assert forall|j: int| 0 <= j < i + 1 implies out.deep_view()[j] == lossy_text(
            trimmed(all[j]),
        ) by {
            if j < i {
                assert(out.deep_view()[j] == before[j]);
            }
        }
        i += 1;
    }
    assert(out.deep_view() =~= tags_of(all));
    out
}

fn read_content(rest: &[u8]) -> (r: Option<GossipMessage>)
    ensures
        message_view(r) == content_of(rest@),
{
    let f = splitn(rest, PIPE, 4);
    if f.len() != 4 {
        return None;
    }
    assert(rows(f@)[0] == f[0]@ && rows(f@)[1] == f[1]@ && rows(f@)[2] == f[2]@ && rows(f@)[3]
        == f[3]@);
    match utf8_text(f[0].as_slice()) {
        Some(hash) => match utf8_text(f[1].as_slice()) {
            Some(title) => match utf8_text(f[2].as_slice()) {
                Some(author) => {
                    let tags = read_tags(f[3].as_slice());
                    Some(GossipMessage::Content { hash, title, author, tags })
                },
                None => None,
            },
            None => None,
        },
        None => None,
    }
}

fn read_request(rest: &[u8]) -> (r: Option<GossipMessage>)
    ensures
        message_view(r) == request_of(rest@),
{
    let f = splitn(rest, PIPE, 2);
    if f.len() != 2 {
        return None;
    }
    assert(rows(f@)[0] == f[0]@ && rows(f@)[1] == f[1]@);
    match utf8_text(f[0].as_slice()) {
        Some(id) => match utf8_text(f[1].as_slice()) {
            Some(query) => Some(GossipMessage::SearchRequest { id, query }),
            None => None,
        },
        None => None,
    }
}

fn read_response(rest: &[u8]) -> (r: Option<GossipMessage>)
    ensures
        message_view(r) == response_of(rest@),
{
    let f = splitn(rest, PIPE, 3);
    if f.len() != 3 {
        return None;
    }
    assert(rows(f@)[0] == f[0]@ && rows(f@)[1] == f[1]@ && rows(f@)[2] == f[2]@);
    match utf8_text(f[0].as_slice()) {
        Some(id) => match utf8_text(f[1].as_slice()) {
            Some(hash) => match utf8_text(f[2].as_slice()) {
                Some(name) => Some(GossipMessage::SearchResponse { id, hash, name }),
                None => None,
            },
            None => None,
        },
        None => None,
    }
}

/// Reads a payload of the content topic.
pub fn parse_content(data: &[u8]) -> (r: Option<GossipMessage>)
    ensures
        message_view(r) == content_meaning(data@),
{
    if utf8_text(data).is_none() {
        return None;
    }
    let content = "CONTENT|".as_bytes();
    let search = "S|".as_bytes();
    let response = "R|".as_bytes();
    if starts_with(data, content) {
        let rest = slice_copy(data, content.len(), data.len());
        read_content(rest.as_slice())
    } else if starts_with(data, search) {
        let rest = slice_copy(data, search.len(), data.len());
        read_request(rest.as_slice())
    } else if starts_with(data, response) {
        let rest = slice_copy(data, response.len(), data.len());
        read_response(rest.as_slice())
    } else {
        None
    }
}

/// Reads a payload of the peers topic, given whether it announces an
/// address.
pub fn classify_announcement(data: &[u8], address: bool) -> (r: Option<GossipMessage>)
    ensures
        message_view(r) == peers_meaning(data@, address),
{
    match utf8_text(data) {
        Some(text) => {
            if address {
                Some(GossipMessage::PeerAnnounce { address: text })
            } else {
                None
            }
        },
        None => None,
    }
}

/// Reads a gossip payload on its topic.
pub fn parse_gossip(topic: Topic, data: &[u8]) -> (r: Option<GossipMessage>)
    ensures
        message_view(r) == message_of(topic, data@),
{
    match topic {
        Topic::Content => parse_content(data),
        Topic::Peers => {
            let address = if data.len() == 0 || data[0] == SLASH {
                match utf8_text(data) {
                    Some(t) => is_valid_address(t.as_str()),
                    None => false,
                }
            } else {
                false
            };
            classify_announcement(data, address)
        },
    }
}

/// The bytes of the tags, and of the separator as text.
pub proof fn lemma_tag_bytes()
    ensures
        content_tag().len() == 8,
        content_tag()[0] == 0x43,
        search_tag() == seq![0x53u8, PIPE],
        response_tag() == seq![0x52u8, PIPE],
        encode_utf8("|"@) == seq![PIPE],
{
    reveal_strlit("CONTENT|");
    reveal_strlit("S|");
    reveal_strlit("R|");
    reveal_strlit("|");
    assert(is_ascii_chars("CONTENT|"@));
    assert(is_ascii_chars("S|"@));
    assert(is_ascii_chars("R|"@));
    assert(is_ascii_chars("|"@));
    is_ascii_chars_encode_utf8("CONTENT|"@);
    is_ascii_chars_encode_utf8("S|"@);
    is_ascii_chars_encode_utf8("R|"@);
    is_ascii_chars_encode_utf8("|"@);
    assert(search_tag() =~= seq![0x53u8, PIPE]);
    assert(response_tag() =~= seq![0x52u8, PIPE]);
    assert(encode_utf8("|"@) =~= seq![PIPE]);
}

/// A line of texts with separators between them is text.
proof fn lemma_line_is_text(tag: Seq<char>, fields: Seq<Seq<char>>)
    requires
        fields.len() >= 1,
    ensures
        valid_utf8(encode_utf8(tag) + crate::text::join(encoded(fields), PIPE)),
{
    lemma_joined_is_text(fields);
    encode_utf8_valid_utf8(tag);
    valid_utf8_concat(encode_utf8(tag), crate::text::join(encoded(fields), PIPE));
}

/// The encodings of texts.
pub open spec fn encoded(fields: Seq<Seq<char>>) -> Seq<Seq<u8>> {
    Seq::new(fields.len(), |i: int| encode_utf8(fields[i]))
}

proof fn lemma_joined_is_text(fields: Seq<Seq<char>>)
    ensures
        valid_utf8(crate::text::join(encoded(fields), PIPE)),
    decreases fields.len(),
{
    let parts = encoded(fields);
    if fields.len() == 0 {
        encode_utf8_valid_utf8(Seq::<char>::empty());
        assert(crate::text::join(parts, PIPE) =~= encode_utf8(Seq::<char>::empty()));
    } else if fields.len() == 1 {
        encode_utf8_valid_utf8(fields[0]);
    } else {
        lemma_tag_bytes();
        assert(parts.drop_first() =~= encoded(fields.drop_first()));
        lemma_joined_is_text(fields.drop_first());
        encode_utf8_valid_utf8(fields[0]);
        encode_utf8_valid_utf8("|"@);
        valid_utf8_concat(parts[0], seq![PIPE]);
        valid_utf8_concat(parts[0] + seq![PIPE], crate::text::join(parts.drop_first(), PIPE));
    }
}

/// A search request that is written and read again is the same request,
/// as long as its id holds no separator.
pub proof fn lemma_request_round_trip(id: Seq<char>, query: Seq<char>)
    requires
        crate::text::free_of(encode_utf8(id), PIPE),
    ensures
        message_of(Topic::Content, request_line(id, query)) == Some(
            GossipView::SearchRequest { id, query },
        ),
{
    lemma_tag_bytes();
    let fields = seq![id, query];
    let parts = encoded(fields);
    let line = request_line(id, query);
    assert(parts.drop_first() =~= seq![encode_utf8(query)]);
    assert(crate::text::join(parts, PIPE) == parts[0] + seq![PIPE] + crate::text::join(
        parts.drop_first(),
        PIPE,
    ));
    assert(line =~= search_tag() + crate::text::join(parts, PIPE));
    lemma_line_is_text("S|"@, fields);
    assert(line[0] == 0x53);
    assert(!has_prefix(line, content_tag())) by {
        if has_prefix(line, content_tag()) {
            assert(line.subrange(0, 8)[0] == content_tag()[0]);
        }
    }
    assert(line.subrange(0, 2) =~= search_tag());
    assert(skip(line, 2) =~= crate::text::join(parts, PIPE));
    assert forall|i: int| 0 <= i < parts.len() - 1 implies crate::text::free_of(
        #[trigger] parts[i],
        PIPE,
    ) by {
        assert(parts[i] == encode_utf8(id));
    }
    crate::text::lemma_split_join(parts, PIPE);
    crate::strings::lemma_text_round_trip(id);
    crate::strings::lemma_text_round_trip(query);
}

/// A search response that is written and read again is the same response,
/// as long as its id and its hash hold no separator.
pub proof fn lemma_response_round_trip(id: Seq<char>, hash: Seq<char>, name: Seq<char>)
    requires
        crate::text::free_of(encode_utf8(id), PIPE),
        crate::text::free_of(encode_utf8(hash), PIPE),
    ensures
        message_of(Topic::Content, response_line(id, hash, name)) == Some(
            GossipView::SearchResponse { id, hash, name },
        ),
{
    lemma_tag_bytes();
    let fields = seq![id, hash, name];
    let parts = encoded(fields);
    let line = response_line(id, hash, name);
    let rest = parts.drop_first();
    assert(rest =~= seq![encode_utf8(hash), encode_utf8(name)]);
    assert(rest.drop_first() =~= seq![encode_utf8(name)]);
    assert(crate::text::join(rest, PIPE) == rest[0] + seq![PIPE] + crate::text::join(
        rest.drop_first(),
        PIPE,
    ));
    assert(crate::text::join(parts, PIPE) == parts[0] + seq![PIPE] + crate::text::join(
        rest,
        PIPE,
    ));
    assert(line =~= response_tag() + crate::text::join(parts, PIPE));
    lemma_line_is_text("R|"@, fields);
    assert(line[0] == 0x52);
    assert(!has_prefix(line, content_tag())) by {
        if has_prefix(line, content_tag()) {
            assert(line.subrange(0, 8)[0] == content_tag()[0]);
        }
    }
    assert(!has_prefix(line, search_tag())) by {
        if has_prefix(line, search_tag()) {
            assert(line.subrange(0, 2)[0] == search_tag()[0]);
        }
    }
    assert(line.subrange(0, 2) =~= response_tag());
    assert(skip(line, 2) =~= crate::text::join(parts, PIPE));
    assert forall|i: int| 0 <= i < parts.len() - 1 implies crate::text::free_of(
        #[trigger] parts[i],
        PIPE,
    ) by {
        if i == 0 {
            assert(parts[i] == encode_utf8(id));
        } else {
            assert(parts[i] == encode_utf8(hash));
        }
    }
    crate::text::lemma_split_join(parts, PIPE);
    crate::strings::lemma_text_round_trip(id);
    crate::strings::lemma_text_round_trip(hash);
    crate::strings::lemma_text_round_trip(name);
}

/// The tags of an announcement, with commas between them.
pub open spec fn tag_list(tags: Seq<Seq<char>>) -> Seq<u8> {
    crate::text::join(Seq::new(tags.len(), |i: int| encode_utf8(tags[i])), TAG_SEPARATOR)
}

/// The line that announces content.
pub open spec fn content_line(
    hash: Seq<char>,
    title: Seq<char>,
    author: Option<Seq<char>>,
    tags: Seq<Seq<char>>,
) -> Seq<u8> {
    content_tag() + encode_utf8(hash) + seq![PIPE] + encode_utf8(title) + seq![PIPE] + encode_utf8(
        match author {
            Some(a) => a,
            None => unknown_author(),
        },
    ) + seq![PIPE] + tag_list(tags)
}

/// The line that asks for a search.
pub open spec fn request_line(id: Seq<char>, query: Seq<char>) -> Seq<u8> {
    search_tag() + encode_utf8(id) + seq![PIPE] + encode_utf8(query)
}

/// The line that answers a search with one hit.
pub open spec fn response_line(id: Seq<char>, hash: Seq<char>, name: Seq<char>) -> Seq<u8> {
    response_tag() + encode_utf8(id) + seq![PIPE] + encode_utf8(hash) + seq![PIPE] + encode_utf8(
        name,
    )
}

/// Writes the line that announces content.
pub fn content_announcement(
    hash: &str,
    title: &str,
    author: &Option<String>,
    tags: &Vec<String>,
) -> (r: Vec<u8>)
    ensures
        r@ == content_line(hash@, title@, opt_view(*author), tags.deep_view()),
{
    let mut rows_of_tags: Vec<Vec<u8>> = Vec::new();
    let mut i: usize = 0;
    while i < tags.len()
        invariant
            i <= tags.len(),
            rows_of_tags.len() == i,
            forall|j: int| 0 <= j < i ==> rows_of_tags[j]@ == encode_utf8(tags.deep_view()[j]),
        decreases tags.len() - i,
    {
        let mut row: Vec<u8> = Vec::new();
        extend(&mut row, tags[i].as_str().as_bytes());
        assert(row@ =~= encode_utf8(tags.deep_view()[i as int]));
        rows_of_tags.push(row);
        i += 1;
    }
    assert(rows(rows_of_tags@) =~= Seq::new(
        tags.deep_view().len(),
        |i: int| encode_utf8(tags.deep_view()[i]),
    ));
    let list = crate::text::join_fields(&rows_of_tags, TAG_SEPARATOR);
    let mut out: Vec<u8> = Vec::new();
    extend(&mut out, "CONTENT|".as_bytes());
    extend(&mut out, hash.as_bytes());
    out.push(PIPE);
    extend(&mut out, title.as_bytes());
    out.push(PIPE);
    match author {
        Some(a) => extend(&mut out, a.as_str().as_bytes()),
        None => extend(&mut out, "Unknown".as_bytes()),
    }
    out.push(PIPE);
    extend(&mut out, list.as_slice());
    assert(out@ =~= content_line(hash@, title@, opt_view(*author), tags.deep_view()));
    out
}

/// Writes the line that asks for a search.
pub fn search_request(id: &str, query: &str) -> (r: Vec<u8>)
    ensures
        r@ == request_line(id@, query@),
{
    let mut out: Vec<u8> = Vec::new();
    extend(&mut out, "S|".as_bytes());
    extend(&mut out, id.as_bytes());
    out.push(PIPE);
    extend(&mut out, query.as_bytes());
    assert(out@ =~= request_line(id@, query@));
    out
}

/// Writes the line that answers a search with one hit.
pub fn search_response(id: &str, hash: &str, name: &str) -> (r: Vec<u8>)
    ensures
        r@ == response_line(id@, hash@, name@),
{
    let mut out: Vec<u8> = Vec::new();
    extend(&mut out, "R|".as_bytes());
    extend(&mut out, id.as_bytes());
    out.push(PIPE);
    extend(&mut out, hash.as_bytes());
    out.push(PIPE);
    extend(&mut out, name.as_bytes());
    assert(out@ =~= response_line(id@, hash@, name@));
    out
}

} // verus!
