//! The records of the library's database, the words under which a
//! document's state is stored, and the history of the schema.

use vstd::prelude::*;
use vstd::string::*;

verus! {

/// The file format of a stored document.
#[allow(clippy::upper_case_acronyms)]
#[derive(Debug, Clone, Copy, PartialEq, Eq, Structural)]
pub enum FileType {
    PDF,
    EPUB,
}

/// How far the processing of a document has come.
#[derive(Debug, Clone, Copy, PartialEq, Eq, Structural)]
pub enum ProcessingStatus {
    Pending,
    Processing,
    Verified,
    Error,
}

/// What the malware scan of a document found.
#[derive(Debug, Clone, Copy, PartialEq, Eq, Structural)]
pub enum MalwareScanStatus {
    Pending,
    Clean,
    Suspicious,
    Blocked,
}

/// The part that a person had in a document.
#[derive(Debug, Clone, Copy, PartialEq, Eq, Structural)]
pub enum AuthorRole {
    Author,
    Editor,
    Translator,
    Compiler,
    Contributor,
}

impl FileType {
    pub fn to_string(&self) -> (r: String)
        ensures
            r@ == match self {
                FileType::PDF => "PDF"@,
                FileType::EPUB => "EPUB"@,
            },
    {
        match self {
            FileType::PDF => String::from_str("PDF"),
            FileType::EPUB => String::from_str("EPUB"),
        }
    }
}

impl ProcessingStatus {
    pub fn to_string(&self) -> (r: String)
        ensures
            r@ == match self {
                ProcessingStatus::Pending => "pending"@,
                ProcessingStatus::Processing => "processing"@,
                ProcessingStatus::Verified => "verified"@,
                ProcessingStatus::Error => "error"@,
            },
    {
        match self {
            ProcessingStatus::Pending => String::from_str("pending"),
            ProcessingStatus::Processing => String::from_str("processing"),
            ProcessingStatus::Verified => String::from_str("verified"),
            ProcessingStatus::Error => String::from_str("error"),
        }
    }
}

impl MalwareScanStatus {
    pub fn to_string(&self) -> (r: String)
        ensures
            r@ == match self {
                MalwareScanStatus::Pending => "pending"@,
                MalwareScanStatus::Clean => "clean"@,
                MalwareScanStatus::Suspicious => "suspicious"@,
                MalwareScanStatus::Blocked => "blocked"@,
            },
    {
        match self {
            MalwareScanStatus::Pending => String::from_str("pending"),
            MalwareScanStatus::Clean => String::from_str("clean"),
            MalwareScanStatus::Suspicious => String::from_str("suspicious"),
            MalwareScanStatus::Blocked => String::from_str("blocked"),
        }
    }
}

impl AuthorRole {
    pub fn to_string(&self) -> (r: String)
        ensures
            r@ == match self {
                AuthorRole::Author => "author"@,
                AuthorRole::Editor => "editor"@,
                AuthorRole::Translator => "translator"@,
                AuthorRole::Compiler => "compiler"@,
                AuthorRole::Contributor => "contributor"@,
            },
    {
        match self {
            AuthorRole::Author => String::from_str("author"),
            AuthorRole::Editor => String::from_str("editor"),
            AuthorRole::Translator => String::from_str("translator"),
            AuthorRole::Compiler => String::from_str("compiler"),
            AuthorRole::Contributor => String::from_str("contributor"),
        }
    }
}

/// The part that one author has in one document.
#[derive(Debug, PartialEq, Eq)]
pub struct DocumentAuthor {
    pub document_id: String,
    pub author_id: String,
    pub author_role: String,
    pub attribution_order: i32,
}

/// What a listing of documents is narrowed by.
#[derive(Debug, PartialEq, Eq)]
pub struct DocumentFilters {
    pub file_type: Option<String>,
    pub processing_status: Option<String>,
    pub is_shared: Option<bool>,
    pub cultural_origin: Option<String>,
}

/// A document of the library. Points in time are seconds since the epoch.
#[derive(Debug, PartialEq, Eq)]
pub struct Document {
    pub id: String,
    pub title: String,
    pub description: Option<String>,
    pub content_hash: String,
    pub file_type: String,
    pub file_size: i64,
    pub created_at: i64,
    pub updated_at: i64,
    pub language_code: Option<String>,
    pub publication_date: Option<i64>,
    pub page_count: Option<i32>,
    pub cultural_origin: Option<String>,
    pub traditional_knowledge_protocols: Option<String>,
    pub indigenous_permissions: Option<String>,
    pub local_path: Option<String>,
    pub is_shared: bool,
    pub processing_status: String,
    pub content_verification_hash: Option<String>,
    pub malware_scan_status: String,
    pub javascript_stripped: bool,
    pub peer_availability_count: i32,
    pub last_availability_check: Option<i64>,
    pub download_priority: i32,
}

/// An author.
#[derive(Debug, PartialEq, Eq)]
pub struct Author {
    pub id: String,
    pub name: String,
    pub birth_date: Option<i64>,
    pub death_date: Option<i64>,
    pub cultural_affiliation: Option<String>,
    pub institutional_affiliation: Option<String>,
    pub biographical_notes: Option<String>,
    pub preferred_citation_format: Option<String>,
    pub created_at: i64,
}

/// A collection of documents.
#[derive(Debug, PartialEq, Eq)]
pub struct Collection {
    pub id: String,
    pub name: String,
    pub description: Option<String>,
    pub created_at: i64,
    pub updated_at: i64,
}

/// A tag.
#[derive(Debug, PartialEq, Eq)]
pub struct Tag {
    pub id: String,
    pub name: String,
    pub description: Option<String>,
    pub created_at: i64,
}

impl Document {
    /// A document that has just come in under the id `id` at time `now`:
    /// shared, not yet processed, not yet scanned, and with nothing else
    /// known of it.
    pub fn new(
        id: String,
        title: String,
        content_hash: String,
        file_type: FileType,
        file_size: i64,
        now: i64,
    ) -> (r: Document)
        ensures
            r.id@ == id@,
            r.title@ == title@,
            r.content_hash@ == content_hash@,
            r.file_type@ == match file_type {
                FileType::PDF => "PDF"@,
                FileType::EPUB => "EPUB"@,
            },
            r.file_size == file_size,
            r.created_at == now,
            r.updated_at == now,
            r.is_shared,
            r.processing_status@ == "pending"@,
            r.malware_scan_status@ == "pending"@,
            !r.javascript_stripped,
            r.peer_availability_count == 0,
            r.download_priority == 0,
            r.description is None && r.language_code is None && r.publication_date is None
                && r.page_count is None && r.cultural_origin is None
                && r.traditional_knowledge_protocols is None && r.indigenous_permissions is None
                && r.local_path is None && r.content_verification_hash is None
                && r.last_availability_check is None,
    {
        Document {
            id,
            title,
            description: None,
            content_hash,
            file_type: file_type.to_string(),
            file_size,
            created_at: now,
            updated_at: now,
            language_code: None,
            publication_date: None,
            page_count: None,
            cultural_origin: None,
            traditional_knowledge_protocols: None,
            indigenous_permissions: None,
            local_path: None,
            is_shared: true,
            processing_status: ProcessingStatus::Pending.to_string(),
            content_verification_hash: None,
            malware_scan_status: MalwareScanStatus::Pending.to_string(),
            javascript_stripped: false,
            peer_availability_count: 0,
            last_availability_check: None,
            download_priority: 0,
        }
    }
}

impl Author {
    /// An author of whom only the name is known, entered under the id `id`
    /// at time `now`.
    pub fn new(id: String, name: String, now: i64) -> (r: Author)
        ensures
            r.id@ == id@,
            r.name@ == name@,
            r.created_at == now,
            r.birth_date is None && r.death_date is None && r.cultural_affiliation is None
                && r.institutional_affiliation is None && r.biographical_notes is None
                && r.preferred_citation_format is None,
    {
        Author {
            id,
            name,
            birth_date: None,
            death_date: None,
            cultural_affiliation: None,
            institutional_affiliation: None,
            biographical_notes: None,
            preferred_citation_format: None,
            created_at: now,
        }
    }
}

impl Collection {
    /// An empty collection, made under the id `id` at time `now`.
    pub fn new(id: String, name: String, now: i64) -> (r: Collection)
        ensures
            r.id@ == id@,
            r.name@ == name@,
            r.description is None,
            r.created_at == now,
            r.updated_at == now,
    {
        Collection { id, name, description: None, created_at: now, updated_at: now }
    }
}

impl Tag {
    /// A tag, made under the id `id` at time `now`.
    pub fn new(id: String, name: String, now: i64) -> (r: Tag)
        ensures
            r.id@ == id@,
            r.name@ == name@,
            r.description is None,
            r.created_at == now,
    {
        Tag { id, name, description: None, created_at: now }
    }
}

/// One step in the history of the database's schema.
#[derive(Debug, PartialEq, Eq)]
pub struct Migration {
    pub version: String,
    pub description: String,
    pub sql: String,
}

/// The versions of the migrations, in order.
pub open spec fn versions(migrations: Seq<Migration>) -> Seq<Seq<char>> {
    Seq::new(migrations.len(), |i: int| migrations[i].version@)
}

/// The positions of the migrations whose version is not among `applied`,
/// in order.
pub open spec fn pending_of(all: Seq<Seq<char>>, applied: Seq<Seq<char>>) -> Seq<int>
    decreases all.len(),
{
    if all.len() == 0 {
        Seq::empty()
    } else if crate::index::has_key(applied, all.last()) {
        pending_of(all.drop_last(), applied)
    } else {
        pending_of(all.drop_last(), applied).push(all.len() - 1)
    }
}

/// The views of positions.
pub open spec fn positions(v: Seq<usize>) -> Seq<int> {
    Seq::new(v.len(), |i: int| v[i] as int)
}

/// Finds the migrations that are still to run: those whose version is not
/// among the applied ones, in order.
pub fn pending_migrations(migrations: &Vec<Migration>, applied: &Vec<String>) -> (r: Vec<usize>)
    ensures
        positions(r@) == pending_of(versions(migrations@), applied.deep_view()),
{
    let mut out: Vec<usize> = Vec::new();
    let mut i: usize = 0;
    let ghost all = versions(migrations@);
    assert(all.subrange(0, 0) =~= Seq::<Seq<char>>::empty());
    assert(positions(out@) =~= pending_of(all.subrange(0, 0), applied.deep_view()));
    while i < migrations.len()
        invariant
            i <= migrations.len(),
            all == versions(migrations@),
            positions(out@) == pending_of(all.subrange(0, i as int), applied.deep_view()),
        decreases migrations.len() - i,
    {
        let ghost before = positions(out@);
        assert(all.subrange(0, i + 1).drop_last() =~= all.subrange(0, i as int));
        assert(all.subrange(0, i + 1).last() == migrations[i as int].version@);
        if crate::index::position_of(applied, migrations[i].version.as_str()).is_none() {
            out.push(i);
            assert(positions(out@) =~= before.push(i as int));
        }
        i += 1;
    }
    assert(all.subrange(0, all.len() as int) =~= all);
    out
}

} // verus!
