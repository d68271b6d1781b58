use allibrary::index::{file_name, insert_key, position_of, remove_key, ContentIndex, IndexedContent};
use allibrary::record::{
    content_key, content_record, discovery_key, manual_key, peer_key, RECORD_TTL_SECS,
};

fn s(x: &str) -> String {
    x.to_string()
}

fn entry(path: &str, title: &str, author: Option<&str>, tags: &[&str]) -> IndexedContent {
    IndexedContent {
        path: s(path),
        title: s(title),
        author: author.map(s),
        tags: tags.iter().map(|t| s(t)).collect(),
    }
}

#[test]
fn index_keeps_one_entry_for_each_hash_in_order() {
    let mut index = ContentIndex::new();
    assert_eq!(index.len(), 0);
    index.insert(s("h1"), entry("/a", "A", None, &[]));
    index.insert(s("h2"), entry("/b", "B", None, &[]));
    index.insert(s("h1"), entry("/a2", "A2", None, &[]));
    assert_eq!(index.len(), 2);
    assert_eq!(index.hash_at(0), "h1");
    assert_eq!(index.entry_at(0), &entry("/a2", "A2", None, &[]));
    assert_eq!(index.get("h2"), Some(&entry("/b", "B", None, &[])));
    assert_eq!(index.get("h3"), None);
}

#[test]
fn search_matches_title_author_and_tags_without_case() {
    let mut index = ContentIndex::new();
    index.insert(s("h1"), entry("/a.pdf", "Straße der Träume", Some("ÉMILE"), &["Ünïcode"]));
    index.insert(s("h2"), entry("/b.pdf", "Other", None, &["plain"]));
    assert_eq!(index.search("STRASSE"), vec![]);
    assert_eq!(index.search("träume"), vec![(s("h1"), s("Straße der Träume"))]);
    assert_eq!(index.search("TRÄUME"), vec![(s("h1"), s("Straße der Träume"))]);
    assert_eq!(index.search("émile"), vec![(s("h1"), s("Straße der Träume"))]);
    assert_eq!(index.search("ünï"), vec![(s("h1"), s("Straße der Träume"))]);
    assert_eq!(index.search("PLAIN"), vec![(s("h2"), s("Other"))]);
    assert_eq!(
        index.search(""),
        vec![(s("h1"), s("Straße der Träume")), (s("h2"), s("Other"))]
    );
    assert_eq!(index.search("/a.pdf"), vec![]);
}

#[test]
fn case_folding_follows_the_letter_s_place_in_its_word() {
    // a capital sigma at the end of a word folds to the final sigma, a
    // capital sigma alone to the plain one
    let mut index = ContentIndex::new();
    index.insert(s("h1"), entry("/a.pdf", "ΟΔΟΣ", None, &[]));
    assert_eq!(index.search("Σ"), vec![]);
    assert_eq!(index.search("ΟΔΟΣ"), vec![(s("h1"), s("ΟΔΟΣ"))]);
    assert_eq!(index.search("οδο"), vec![(s("h1"), s("ΟΔΟΣ"))]);
}

#[test]
fn folded_search_takes_the_query_as_it_is() {
    let mut index = ContentIndex::new();
    index.insert(s("h1"), entry("/a.pdf", "Alpha", None, &[]));
    assert_eq!(index.search_folded("alpha"), vec![(s("h1"), s("Alpha"))]);
    assert_eq!(index.search_folded("Alpha"), vec![]);
    assert!(entry("/a.pdf", "Alpha", None, &[]).matches_folded("lph"));
}

#[test]
fn entry_without_title_goes_by_its_file_name() {
    assert_eq!(entry("/lib/x/Book.epub", "", None, &[]).name(), "Book.epub");
    assert_eq!(entry("/lib/x/", "", None, &[]).name(), "x");
    assert_eq!(entry("Book.epub", "", None, &[]).name(), "Book.epub");
    assert_eq!(entry("", "", None, &[]).name(), "");
    assert_eq!(entry("/lib/x/Book.epub", "T", None, &[]).name(), "T");
}

#[test]
fn file_names() {
    assert_eq!(file_name(b"/a/b/c.txt"), b"c.txt".to_vec());
    assert_eq!(file_name(b"/a/b///"), b"b".to_vec());
    assert_eq!(file_name(b"c.txt"), b"c.txt".to_vec());
    assert_eq!(file_name(b"/"), b"".to_vec());
    assert_eq!(file_name(b""), b"".to_vec());
}

#[test]
fn key_lists() {
    let mut keys = vec![s("a"), s("b")];
    insert_key(&mut keys, s("c"));
    insert_key(&mut keys, s("a"));
    assert_eq!(keys, vec![s("a"), s("b"), s("c")]);
    assert_eq!(position_of(&keys, "b"), Some(1));
    assert_eq!(position_of(&keys, "z"), None);
    remove_key(&mut keys, "a");
    remove_key(&mut keys, "z");
    assert_eq!(keys, vec![s("b"), s("c")]);
}

#[test]
fn record_keys() {
    assert_eq!(peer_key("12D3"), "peer:12D3");
    assert_eq!(content_key("abc"), "content:abc");
    assert_eq!(manual_key("/ip4/1.2.3.4/tcp/1"), "manual:/ip4/1.2.3.4/tcp/1");
    assert_eq!(discovery_key(), "discovery");
    assert_eq!(RECORD_TTL_SECS, 24 * 60 * 60);
}

#[test]
fn content_record_is_json_with_the_publisher() {
    let payload = content_record("h", "/p", "T \"q\"", &None, &vec![s("a"), s("b")], "me");
    assert_eq!(
        String::from_utf8(payload).unwrap(),
        "{\"author\":null,\"hash\":\"h\",\"path\":\"/p\",\"peer_id\":\"me\",\"tags\":[\"a\",\"b\"],\"title\":\"T \\\"q\\\"\"}"
    );
    let payload = content_record("h", "/p", "T", &Some(s("Ann")), &vec![], "me");
    assert_eq!(
        String::from_utf8(payload).unwrap(),
        "{\"author\":\"Ann\",\"hash\":\"h\",\"path\":\"/p\",\"peer_id\":\"me\",\"tags\":[],\"title\":\"T\"}"
    );
}
