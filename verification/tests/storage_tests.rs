use allibrary::error::{AlLibraryError, ErrorKind};
use allibrary::storage::{FileStorage, StorageStats, StoredFile};

fn s(x: &str) -> String {
    x.to_string()
}

#[test]
fn store_is_laid_out_under_its_base() {
    let store = FileStorage::new(s("/var/lib/app"));
    assert_eq!(store.base_path(), "/var/lib/app");
    assert_eq!(store.documents_path(), "/var/lib/app/documents");
    assert_eq!(store.temp_path(), "/var/lib/app/temp");
    assert_eq!(store.cache_path(), "/var/lib/app/cache");
    let store = FileStorage::new(s("/base/"));
    assert_eq!(store.documents_path(), "/base/documents");
    let store = FileStorage::new(s(""));
    assert_eq!(store.documents_path(), "documents");
}

#[test]
fn stored_file_is_named_by_id_and_extension() {
    let store = FileStorage::new(s("/base"));
    assert_eq!(
        store.store_document(s("1234"), b"hello", "pdf"),
        StoredFile {
            file_id: s("1234"),
            filename: s("1234.pdf"),
            file_path: s("/base/documents/1234.pdf"),
            content_hash: s("2cf24dba5fb0a30e26e83b2ac5b9e29e1b161e5c1fa7425e73043362938b9824"),
            file_size: 5,
        }
    );
}

#[test]
fn store_answers_only_for_its_documents() {
    let store = FileStorage::new(s("/base"));
    assert!(store.owns("/base/documents/a.pdf"));
    assert!(store.owns("/base/documents"));
    assert!(store.owns("/base/documents/"));
    assert!(!store.owns("/base/documentsX/a.pdf"));
    assert!(!store.owns("/base/temp/a.pdf"));
    assert!(!store.owns("/etc/passwd"));
    assert!(!store.owns(""));
    assert_eq!(store.check_document_path("/base/documents/a.pdf"), Ok(()));
    let e = store.check_document_path("/etc/passwd").unwrap_err();
    assert_eq!(e, AlLibraryError::Security { message: s("Invalid file path") });
    assert_eq!(e.kind(), ErrorKind::Security);
    assert_eq!(e.describe(), "Security error: Invalid file path");
}

#[test]
fn files_move_to_temp_under_their_own_name() {
    let store = FileStorage::new(s("/base"));
    assert_eq!(store.move_to_temp("/somewhere/else/a.pdf"), Ok(s("/base/temp/a.pdf")));
    assert_eq!(store.move_to_temp("a.pdf"), Ok(s("/base/temp/a.pdf")));
    assert_eq!(
        store.move_to_temp("/"),
        Err(AlLibraryError::FileOperation { message: s("Invalid filename") })
    );
    assert_eq!(
        store.move_to_temp(""),
        Err(AlLibraryError::FileOperation { message: s("Invalid filename") })
    );
}

#[test]
fn statistics_sum_the_sizes() {
    let store = FileStorage::new(s("/base"));
    assert_eq!(
        store.get_storage_stats(&vec![10, 20, 12]),
        StorageStats { total_size: 42, file_count: 3, documents_path: s("/base/documents") }
    );
    assert_eq!(
        store.get_storage_stats(&vec![]),
        StorageStats { total_size: 0, file_count: 0, documents_path: s("/base/documents") }
    );
    assert_eq!(store.get_storage_stats(&vec![u64::MAX, 1]).total_size, u64::MAX);
}

#[test]
fn errors_describe_themselves() {
    let all = [
        (AlLibraryError::file_operation(s("x")), ErrorKind::FileOperation, "File operation error: x"),
        (
            AlLibraryError::document_processing(s("x")),
            ErrorKind::DocumentProcessing,
            "Document processing error: x",
        ),
        (AlLibraryError::network(s("x")), ErrorKind::Network, "Network error: x"),
        (AlLibraryError::security(s("x")), ErrorKind::Security, "Security error: x"),
        (
            AlLibraryError::cultural_protection(s("x")),
            ErrorKind::CulturalProtection,
            "Cultural protection error: x",
        ),
        (AlLibraryError::configuration(s("x")), ErrorKind::Configuration, "Configuration error: x"),
        (AlLibraryError::not_found(s("x")), ErrorKind::NotFound, "Not found: x"),
        (AlLibraryError::invalid_input(s("x")), ErrorKind::InvalidInput, "Invalid input: x"),
        (
            AlLibraryError::permission_denied(s("x")),
            ErrorKind::PermissionDenied,
            "Permission denied: x",
        ),
        (AlLibraryError::internal(s("x")), ErrorKind::Internal, "Internal error: x"),
    ];
    for (e, kind, text) in all {
        assert_eq!(e.kind(), kind);
        assert_eq!(e.describe(), text);
    }
}
