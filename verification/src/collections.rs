//! Collections of documents as the host application asks for them and is
//! answered, and the snapshot of the system that it is shown.

use crate::cache::CacheStats;
use crate::models::Document;
use crate::strings::opt_view;
use vstd::prelude::*;
use vstd::string::*;

verus! {

/// What is known of the culture that a collection belongs to.
#[derive(Debug, PartialEq, Eq)]
pub struct CulturalMetadata {
    pub sensitivity_level: Option<i32>,
    pub cultural_origin: Option<String>,
    pub community_id: Option<String>,
    pub traditional_protocols: Option<Vec<String>>,
    pub educational_context: Option<String>,
    pub cultural_context: Option<String>,
    pub source_attribution: Option<String>,
    pub cultural_group: Option<String>,
    pub related_concepts: Option<Vec<String>>,
    pub community_notes: Option<String>,
}

/// A request for a new collection.
#[derive(Debug, PartialEq, Eq)]
pub struct CreateCollectionRequest {
    pub name: String,
    pub description: Option<String>,
    pub type_: Option<String>,
    pub visibility: Option<String>,
    pub document_ids: Option<Vec<String>>,
    pub cultural_metadata: Option<CulturalMetadata>,
    pub tags: Option<Vec<String>>,
    pub categories: Option<Vec<String>>,
}

/// A request for changes to a collection.
#[derive(Debug, PartialEq, Eq)]
pub struct UpdateCollectionRequest {
    pub name: Option<String>,
    pub description: Option<String>,
    pub type_: Option<String>,
    pub visibility: Option<String>,
    pub cultural_metadata: Option<CulturalMetadata>,
    pub tags: Option<Vec<String>>,
    pub categories: Option<Vec<String>>,
}

/// A collection as the host application is shown it.
#[derive(Debug, PartialEq, Eq)]
pub struct CollectionResponse {
    pub id: String,
    pub name: String,
    pub description: Option<String>,
    pub type_: String,
    pub visibility: String,
    pub document_count: i32,
    pub created_at: String,
    pub updated_at: String,
    pub cultural_metadata: Option<CulturalMetadata>,
    pub tags: Vec<String>,
    pub categories: Vec<String>,
}

/// A request for a new document.
#[derive(Debug, PartialEq, Eq)]
pub struct CreateDocumentRequest {
    pub title: String,
    pub description: Option<String>,
    pub content_hash: String,
    pub file_type: String,
    pub file_size: i64,
}

/// A document as the host application is shown it.
#[derive(Debug, PartialEq, Eq)]
pub struct DocumentResponse {
    pub id: String,
    pub title: String,
    pub description: Option<String>,
    pub content_hash: String,
    pub file_type: String,
    pub file_size: i64,
    pub created_at: String,
    pub updated_at: String,
    pub is_shared: bool,
    pub processing_status: String,
}

/// The snapshot of a cache as the host application is shown it.
#[derive(Debug, PartialEq, Eq)]
pub struct CacheStatsResponse {
    pub content_entries: usize,
    pub metadata_entries: usize,
    pub total_content_size: usize,
    pub max_entries: usize,
}

/// The snapshot of the system as the host application is shown it.
#[derive(Debug, PartialEq, Eq)]
pub struct SystemStatus {
    pub database_connected: bool,
    pub file_cache_initialized: bool,
    pub app_version: String,
    pub total_documents: i64,
    pub cache_stats: Option<CacheStatsResponse>,
}

/// The text that is given, or `fallback` where none is.
pub open spec fn text_or(given: Option<String>, fallback: Seq<char>) -> Seq<char> {
    match given {
        Some(t) => t@,
        None => fallback,
    }
}

/// The list that is given, or the empty list where none is.
pub open spec fn list_or_empty(given: Option<Vec<String>>) -> Seq<Seq<char>> {
    match given {
        Some(l) => l.deep_view(),
        None => Seq::empty(),
    }
}

fn or_text(given: Option<String>, fallback: &str) -> (r: String)
    ensures
        r@ == text_or(given, fallback@),
{
    match given {
        Some(t) => t,
        None => String::from_str(fallback),
    }
}

fn or_empty(given: Option<Vec<String>>) -> (r: Vec<String>)
    ensures
        r.deep_view() == list_or_empty(given),
{
    match given {
        Some(l) => l,
        None => {
            let out: Vec<String> = Vec::new();
            assert(out.deep_view() =~= Seq::<Seq<char>>::empty());
            out
        },
    }
}

/// The answer to a request for a new collection that was stored under
/// `id` at time `created_at`: personal and private unless the request says
/// otherwise, and without documents.
pub fn created_collection(request: CreateCollectionRequest, id: String, created_at: String) -> (r:
    CollectionResponse)
    ensures
        r.id@ == id@,
        r.name@ == request.name@,
        opt_view(r.description) == opt_view(request.description),
        r.type_@ == text_or(request.type_, "personal"@),
        r.visibility@ == text_or(request.visibility, "private"@),
        r.document_count == 0,
        r.created_at@ == created_at@,
        r.updated_at@ == created_at@,
        r.cultural_metadata == request.cultural_metadata,
        r.tags.deep_view() == list_or_empty(request.tags),
        r.categories.deep_view() == list_or_empty(request.categories),
{
    CollectionResponse {
        id,
        name: request.name,
        description: request.description,
        type_: or_text(request.type_, "personal"),
        visibility: or_text(request.visibility, "private"),
        document_count: 0,
        created_at: created_at.clone(),
        updated_at: created_at,
        cultural_metadata: request.cultural_metadata,
        tags: or_empty(request.tags),
        categories: or_empty(request.categories),
    }
}

/// A stored collection as it is listed: personal and private.
pub fn listed_collection(
    id: String,
    name: String,
    description: Option<String>,
    created_at: String,
    updated_at: String,
) -> (r: CollectionResponse)
    ensures
        r.id@ == id@,
        r.name@ == name@,
        opt_view(r.description) == opt_view(description),
        r.type_@ == "personal"@,
        r.visibility@ == "private"@,
        r.document_count == 0,
        r.created_at@ == created_at@,
        r.updated_at@ == updated_at@,
        r.cultural_metadata is None,
        r.tags@.len() == 0,
        r.categories@.len() == 0,
{
    CollectionResponse {
        id,
        name,
        description,
        type_: String::from_str("personal"),
        visibility: String::from_str("private"),
        document_count: 0,
        created_at,
        updated_at,
        cultural_metadata: None,
        tags: Vec::new(),
        categories: Vec::new(),
    }
}

/// The answer to a request for changes to the collection `id` at time
/// `now`: what the request gives, and the usual values for what it leaves
/// out.
pub fn update_collection(id: String, request: UpdateCollectionRequest, now: String) -> (r:
    CollectionResponse)
    ensures
        r.id@ == id@,
        r.name@ == text_or(request.name, "Updated Collection"@),
        opt_view(r.description) == opt_view(request.description),
        r.type_@ == text_or(request.type_, "personal"@),
        r.visibility@ == text_or(request.visibility, "private"@),
        r.document_count == 0,
        r.created_at@ == now@,
        r.updated_at@ == now@,
        r.cultural_metadata == request.cultural_metadata,
        r.tags.deep_view() == list_or_empty(request.tags),
        r.categories.deep_view() == list_or_empty(request.categories),
{
    CollectionResponse {
        id,
        name: or_text(request.name, "Updated Collection"),
        description: request.description,
        type_: or_text(request.type_, "personal"),
        visibility: or_text(request.visibility, "private"),
        document_count: 0,
        created_at: now.clone(),
        updated_at: now,
        cultural_metadata: request.cultural_metadata,
        tags: or_empty(request.tags),
        categories: or_empty(request.categories),
    }
}

/// The snapshot of a cache as the host application is shown it.
pub fn cache_stats_response(stats: &CacheStats) -> (r: CacheStatsResponse)
    ensures
        r.content_entries == stats.content_entries,
        r.metadata_entries == stats.metadata_entries,
        r.total_content_size == stats.total_content_size,
        r.max_entries == stats.max_entries,
{
    CacheStatsResponse {
        content_entries: stats.content_entries,
        metadata_entries: stats.metadata_entries,
        total_content_size: stats.total_content_size,
        max_entries: stats.max_entries,
    }
}

/// The snapshot of the system: documents are counted only while the
/// database answers, and the cache is shown only while it exists.
pub fn system_status(
    database_connected: bool,
    cache: Option<&CacheStats>,
    app_version: String,
    documents: i64,
) -> (r: SystemStatus)
    ensures
        r.database_connected == database_connected,
        r.file_cache_initialized == (cache is Some),
        r.app_version@ == app_version@,
        r.total_documents == if database_connected {
            documents
        } else {
            0
        },
        r.cache_stats is Some <==> cache is Some,
        cache is Some ==> r.cache_stats->0.content_entries == cache->0.content_entries
            && r.cache_stats->0.metadata_entries == cache->0.metadata_entries
            && r.cache_stats->0.total_content_size == cache->0.total_content_size
            && r.cache_stats->0.max_entries == cache->0.max_entries,
{
    SystemStatus {
        database_connected,
        file_cache_initialized: cache.is_some(),
        app_version,
        total_documents: if database_connected {
            documents
        } else {
            0
        },
        cache_stats: match cache {
            Some(c) => Some(cache_stats_response(c)),
            None => None,
        },
    }
}

/// The document that a request for a new document asks for, before it has
/// an id: not shared, not yet processed and not yet scanned.
pub fn requested_document(request: CreateDocumentRequest, now: i64) -> (r: Document)
    ensures
        r.id@.len() == 0,
        r.title@ == request.title@,
        opt_view(r.description) == opt_view(request.description),
        r.content_hash@ == request.content_hash@,
        r.file_type@ == request.file_type@,
        r.file_size == request.file_size,
        r.created_at == now,
        r.updated_at == now,
        !r.is_shared,
        r.processing_status@ == "pending"@,
        r.malware_scan_status@ == "pending"@,
        !r.javascript_stripped,
        r.peer_availability_count == 0,
        r.download_priority == 0,
        r.language_code is None && r.publication_date is None && r.page_count is None
            && r.cultural_origin is None && r.traditional_knowledge_protocols is None
            && r.indigenous_permissions is None && r.local_path is None
            && r.content_verification_hash is None && r.last_availability_check is None,
{
    Document {
        id: String::new(),
        title: request.title,
        description: request.description,
        content_hash: request.content_hash,
        file_type: request.file_type,
        file_size: request.file_size,
        created_at: now,
        updated_at: now,
        language_code: None,
        publication_date: None,
        page_count: None,
        cultural_origin: None,
        traditional_knowledge_protocols: None,
        indigenous_permissions: None,
        local_path: None,
        is_shared: false,
        processing_status: String::from_str("pending"),
        content_verification_hash: None,
        malware_scan_status: String::from_str("pending"),
        javascript_stripped: false,
        peer_availability_count: 0,
        last_availability_check: None,
        download_priority: 0,
    }
}

impl DocumentResponse {
    /// A document as the host application is shown it, with its points in
    /// time written out by the caller.
    pub fn from(doc: Document, created_at: String, updated_at: String) -> (r: DocumentResponse)
        ensures
            r.id@ == doc.id@,
            r.title@ == doc.title@,
            opt_view(r.description) == opt_view(doc.description),
            r.content_hash@ == doc.content_hash@,
            r.file_type@ == doc.file_type@,
            r.file_size == doc.file_size,
            r.created_at@ == created_at@,
            r.updated_at@ == updated_at@,
            r.is_shared == doc.is_shared,
            r.processing_status@ == doc.processing_status@,
    {
        DocumentResponse {
            id: doc.id,
            title: doc.title,
            description: doc.description,
            content_hash: doc.content_hash,
            file_type: doc.file_type,
            file_size: doc.file_size,
            created_at,
            updated_at,
            is_shared: doc.is_shared,
            processing_status: doc.processing_status,
        }
    }
}

} // verus!
