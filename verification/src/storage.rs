//! The layout of the document store: where documents, temporary files and
//! cached files live, how a stored file is named, and which paths the store
//! answers for.

use crate::chunk::{calculate_hash, content_hash};
use crate::error::{AlLibraryError, ErrorKind};
use crate::index::{file_name, last_segment, SLASH};
use crate::strings::{concat, text_of, utf8_text};
use crate::text::{has_prefix, starts_with};
use crate::tor_manager::{join_path, joined};
use vstd::prelude::*;
use vstd::string::*;
use vstd::utf8::*;

verus! {

/// The directories of a document store.
#[derive(Debug, PartialEq, Eq)]
pub struct FileStorage {
    base_path: String,
    documents_path: String,
    temp_path: String,
    cache_path: String,
}

/// A document that was stored.
#[derive(Debug, PartialEq, Eq)]
pub struct StoredFile {
    pub file_id: String,
    pub filename: String,
    pub file_path: String,
    pub content_hash: String,
    pub file_size: u64,
}

/// How much the store holds.
#[derive(Debug, PartialEq, Eq)]
pub struct StorageStats {
    pub total_size: u64,
    pub file_count: u32,
    pub documents_path: String,
}

/// Whether `path` lies in the directory `dir` or is the directory itself.
pub open spec fn lies_in(path: Seq<u8>, dir: Seq<u8>) -> bool {
    has_prefix(path, dir) && (path.len() == dir.len() || (dir.len() > 0 && dir.last() == SLASH)
        || path[dir.len() as int] == SLASH)
}

/// The name of a stored file: its id, a dot and its extension.
pub open spec fn stored_name(file_id: Seq<char>, extension: Seq<char>) -> Seq<char> {
    file_id + "."@ + extension
}

impl FileStorage {
    /// The base directory.
    pub closed spec fn base(&self) -> Seq<char> {
        self.base_path@
    }

    /// A store is laid out under its base directory.
    pub closed spec fn wf(&self) -> bool {
        &&& self.documents_path@ == joined(self.base_path@, "documents"@)
        &&& self.temp_path@ == joined(self.base_path@, "temp"@)
        &&& self.cache_path@ == joined(self.base_path@, "cache"@)
    }

    /// Lays a store out under `base_path`.
    pub fn new(base_path: String) -> (r: FileStorage)
        ensures
            r.wf(),
            r.base() == base_path@,
    {
        let documents_path = join_path(base_path.as_str(), "documents");
        let temp_path = join_path(base_path.as_str(), "temp");
        let cache_path = join_path(base_path.as_str(), "cache");
        FileStorage { base_path, documents_path, temp_path, cache_path }
    }

    /// The base directory.
    pub fn base_path(&self) -> (r: &str)
        ensures
            r@ == self.base(),
    {
        self.base_path.as_str()
    }

    /// The directory of the documents: `documents` under the base.
    pub fn documents_path(&self) -> (r: &str)
        requires
            self.wf(),
        ensures
            r@ == joined(self.base(), "documents"@),
    {
        self.documents_path.as_str()
    }

    /// The directory of temporary files: `temp` under the base.
    pub fn temp_path(&self) -> (r: &str)
        requires
            self.wf(),
        ensures
            r@ == joined(self.base(), "temp"@),
    {
        self.temp_path.as_str()
    }

    /// The directory of cached files: `cache` under the base.
    pub fn cache_path(&self) -> (r: &str)
        requires
            self.wf(),
        ensures
            r@ == joined(self.base(), "cache"@),
    {
        self.cache_path.as_str()
    }

    /// Whether the store answers for `file_path`: only for what lies in its
    /// directory of documents.
    pub fn owns(&self, file_path: &str) -> (r: bool)
        requires
            self.wf(),
        ensures
            r == lies_in(
                encode_utf8(file_path@),
                encode_utf8(joined(self.base(), "documents"@)),
            ),
    {
        let path = file_path.as_bytes();
        let dir = self.documents_path.as_str().as_bytes();
        if !starts_with(path, dir) {
            return false;
        }
        path.len() == dir.len() || (dir.len() > 0 && dir[dir.len() - 1] == SLASH) || path[dir.len()]
            == SLASH
    }

    /// Refuses a path that the store does not answer for.
    pub fn check_document_path(&self, file_path: &str) -> (r: Result<(), AlLibraryError>)
        requires
            self.wf(),
        ensures
            r is Ok <==> lies_in(
                encode_utf8(file_path@),
                encode_utf8(joined(self.base(), "documents"@)),
            ),
            r is Err ==> r->Err_0.spec_kind() == ErrorKind::Security && r->Err_0.detail()
                == "Invalid file path"@,
    {
        if self.owns(file_path) {
            Ok(())
        } else {
            Err(AlLibraryError::security(String::from_str("Invalid file path")))
        }
    }

    /// What is recorded of a document that is stored under the id
    /// `file_id`: its name, its place among the documents, the hash of its
    /// content and its size.
    pub fn store_document(&self, file_id: String, content: &[u8], file_extension: &str) -> (r:
        StoredFile)
        requires
            self.wf(),
        ensures
            r.file_id@ == file_id@,
            r.filename@ == stored_name(file_id@, file_extension@),
            r.file_path@ == joined(
                joined(self.base(), "documents"@),
                stored_name(file_id@, file_extension@),
            ),
            r.content_hash@ == content_hash(content@),
            r.file_size == content@.len(),
    {
        let mut filename = concat(file_id.as_str(), ".");
        filename.append(file_extension);
        let file_path = join_path(self.documents_path.as_str(), filename.as_str());
        let content_hash = calculate_hash(content);
        StoredFile { file_id, filename, file_path, content_hash, file_size: content.len() as u64 }
    }

    /// Where a file goes when it is moved to the temporary directory: under
    /// its own name. A path without a name is refused.
    pub fn move_to_temp(&self, file_path: &str) -> (r: Result<String, AlLibraryError>)
        requires
            self.wf(),
        ensures
            match text_of(last_segment(encode_utf8(file_path@))) {
                Some(name) => if name.len() > 0 {
                    r is Ok && r->Ok_0@ == joined(joined(self.base(), "temp"@), name)
                } else {
                    r is Err
                },
                None => r is Err,
            },
            r is Err ==> r->Err_0.spec_kind() == ErrorKind::FileOperation && r->Err_0.detail()
                == "Invalid filename"@,
    {
        let name = file_name(file_path.as_bytes());
        match utf8_text(name.as_slice()) {
            Some(n) => {
                if n.as_str().unicode_len() > 0 {
                    Ok(join_path(self.temp_path.as_str(), n.as_str()))
                } else {
                    Err(AlLibraryError::file_operation(String::from_str("Invalid filename")))
                }
            },
            None => Err(AlLibraryError::file_operation(String::from_str("Invalid filename"))),
        }
    }

    /// The statistics of a store that holds files of the given sizes. A
    /// total or a count that the counters cannot hold stays at their
    /// greatest value.
    pub fn get_storage_stats(&self, sizes: &Vec<u64>) -> (r: StorageStats)
        requires
            self.wf(),
        ensures
            r.total_size == if total(sizes@) <= u64::MAX {
                total(sizes@)
            } else {
                u64::MAX as int
            },
            r.file_count == if sizes@.len() <= u32::MAX {
                sizes@.len()
            } else {
                u32::MAX as nat
            },
            r.documents_path@ == joined(self.base(), "documents"@),
    {
        let mut total_size: u64 = 0;
        let mut file_count: u32 = 0;
        let mut i: usize = 0;
        assert(sizes@.subrange(0, 0) =~= Seq::<u64>::empty());
        while i < sizes.len()
            invariant
                i <= sizes.len(),
                total_size == if total(sizes@.subrange(0, i as int)) <= u64::MAX {
                    total(sizes@.subrange(0, i as int))
                } else {
                    u64::MAX as int
                },
                file_count == if i <= u32::MAX {
                    i as int
                } else {
                    u32::MAX as int
                },
            decreases sizes.len() - i,
        {
            assert(sizes@.subrange(0, i + 1).drop_last() =~= sizes@.subrange(0, i as int));
            assert(sizes@.subrange(0, i + 1).last() == sizes@[i as int]);
            proof {
                lemma_total_nonnegative(sizes@.subrange(0, i as int));
            }
            total_size = total_size.saturating_add(sizes[i]);
            file_count = file_count.saturating_add(1);
            i += 1;
        }
        assert(sizes@.subrange(0, sizes@.len() as int) =~= sizes@);
        StorageStats { total_size, file_count, documents_path: self.documents_path.clone() }
    }
}

/// The sum of sizes.
pub open spec fn total(sizes: Seq<u64>) -> int
    decreases sizes.len(),
{
    if sizes.len() == 0 {
        0
    } else {
        total(sizes.drop_last()) + sizes.last()
    }
}

/// A sum of sizes is not negative.
pub proof fn lemma_total_nonnegative(sizes: Seq<u64>)
    ensures
        total(sizes) >= 0,
    decreases sizes.len(),
{
    if sizes.len() > 0 {
        lemma_total_nonnegative(sizes.drop_last());
    }
}

} // verus!
