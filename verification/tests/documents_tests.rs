use allibrary::documents::{
    check_epub_entry, check_import, check_preview, count_document, document_id, document_type,
    is_document, page_file_name, scan_error, scan_kind, FolderInfo, ImportError, ImportKind,
    ScanKind, MAX_IMPORT_SIZE, MAX_PREVIEW_SIZE,
};
use allibrary::history::{
    add_search_to_history, get_index_info_path, get_search_history, get_search_history_path,
};
use allibrary::type_detection::DocumentType;

fn s(x: &str) -> String {
    x.to_string()
}

#[test]
fn document_id_is_the_md5_of_the_path() {
    assert_eq!(document_id(""), "d41d8cd98f00b204e9800998ecf8427e");
    assert_eq!(document_id("hello"), "5d41402abc4b2a76b9719d911017c592");
}

#[test]
fn documents_are_told_by_extension_or_name() {
    assert!(is_document("/lib/a.PDF"));
    assert!(is_document("/lib/notes.markdown"));
    assert!(is_document("/lib/my-pdf-backup.bak"));
    assert!(is_document("/lib/README_md"));
    assert!(is_document("/lib/page.xhtml"));
    assert!(!is_document("/lib/image.png"));
    assert!(!is_document("/lib/"));
    assert!(!is_document("/pdf/image.png"));
}

#[test]
fn scan_takes_supported_files_and_those_named_like_documents() {
    assert_eq!(scan_kind("/lib/a.pdf"), ScanKind::Supported);
    assert_eq!(scan_kind("/lib/a.EPUB"), ScanKind::Supported);
    assert_eq!(scan_kind("/lib/my-pdf.bak"), ScanKind::PdfByName);
    assert_eq!(scan_kind("/lib/my-epub.bak"), ScanKind::EpubByName);
    assert_eq!(scan_kind("/lib/pdf-and-epub.bak"), ScanKind::PdfByName);
    assert_eq!(scan_kind("/lib/image.png"), ScanKind::Skipped);
    assert_eq!(scan_kind("/lib/pdf"), ScanKind::Skipped);
    assert_eq!(scan_kind(""), ScanKind::Skipped);
    assert_eq!(scan_error(ScanKind::Supported, "/a", "gone"), "Failed to process /a: gone");
    assert_eq!(scan_error(ScanKind::PdfByName, "/a", "gone"), "Failed to process PDF /a: gone");
    assert_eq!(scan_error(ScanKind::EpubByName, "/a", "gone"), "Failed to process EPUB /a: gone");
}

#[test]
fn documents_are_listed_under_their_type() {
    assert_eq!(document_type("/lib/a.pdf"), DocumentType::PDF);
    assert_eq!(document_type("/lib/a.docx"), DocumentType::DOCX);
    assert_eq!(document_type("/lib/scan-pdf.bak"), DocumentType::PDF);
    assert_eq!(document_type("/lib/Book.EPUB.part"), DocumentType::EPUB);
    assert_eq!(document_type("/lib/notes_txt"), DocumentType::TXT);
    assert_eq!(document_type("/lib/readme-md"), DocumentType::MD);
    assert_eq!(document_type("/lib/page_htm"), DocumentType::HTML);
    assert_eq!(document_type("/lib/image.png"), DocumentType::Unknown);
}

#[test]
fn folder_counts_saturate() {
    let mut info = FolderInfo {
        path: s("/lib"),
        exists: true,
        document_count: 0,
        total_size: 0,
        last_scan: None,
    };
    count_document(&mut info, 10);
    count_document(&mut info, 32);
    assert_eq!((info.document_count, info.total_size), (2, 42));
    info.document_count = u32::MAX;
    count_document(&mut info, u64::MAX);
    assert_eq!((info.document_count, info.total_size), (u32::MAX, u64::MAX));
}

#[test]
fn import_takes_pdf_and_epub_up_to_200_mib() {
    assert_eq!(MAX_IMPORT_SIZE, 200 * 1024 * 1024);
    assert_eq!(check_import("/x/a.pdf", 0), Ok(ImportKind::Pdf));
    assert_eq!(check_import("/x/a.PDF", MAX_IMPORT_SIZE), Ok(ImportKind::Pdf));
    assert_eq!(check_import("/x/a.Epub", 1), Ok(ImportKind::Epub));
    assert_eq!(check_import("/x/a.pdf", MAX_IMPORT_SIZE + 1), Err(ImportError::TooLarge));
    assert_eq!(check_import("/x/a.txt", 1), Err(ImportError::NotAllowed));
    assert_eq!(check_import("/x/a.txt", MAX_IMPORT_SIZE + 1), Err(ImportError::NotAllowed));
    assert_eq!(check_import("/x/pdf", 1), Err(ImportError::NotAllowed));
}

#[test]
fn epub_entries_with_scripts_are_refused() {
    assert_eq!(check_epub_entry("OEBPS/app.JS", b""), Err(ImportError::HasJavaScript));
    assert_eq!(
        check_epub_entry("OEBPS/ch1.XHTML", b"<p><script src=x>"),
        Err(ImportError::HasScriptTags)
    );
    assert_eq!(check_epub_entry("content.opf", b"<script>"), Err(ImportError::HasScriptTags));
    assert_eq!(check_epub_entry("ch1.html", b"<SCRIPT>"), Ok(()));
    assert_eq!(check_epub_entry("style.css", b"<script>"), Ok(()));
    assert_eq!(check_epub_entry("ch1.html", b"<p>fine</p>"), Ok(()));
    assert_eq!(ImportError::NotAllowed.message(), "Only PDF and EPUB are allowed");
    assert_eq!(ImportError::TooLarge.message(), "File too large (>200MB)");
    assert_eq!(ImportError::HasJavaScript.message(), "EPUB contains JavaScript; rejected");
    assert_eq!(ImportError::HasScriptTags.message(), "EPUB contains script tags; rejected");
}

#[test]
fn preview_takes_files_up_to_50_mib() {
    assert_eq!(MAX_PREVIEW_SIZE, 50 * 1024 * 1024);
    assert_eq!(check_preview(MAX_PREVIEW_SIZE), Ok(()));
    assert_eq!(check_preview(MAX_PREVIEW_SIZE + 1), Err("File too large for preview (max 50MB)"));
}

#[test]
fn page_images_are_numbered_in_four_digits() {
    assert_eq!(page_file_name(1), "page-0001.png");
    assert_eq!(page_file_name(42), "page-0042.png");
    assert_eq!(page_file_name(999), "page-0999.png");
    assert_eq!(page_file_name(1000), "page-1000.png");
    assert_eq!(page_file_name(12345), "page-12345.png");
    assert_eq!(page_file_name(0), "page-0000.png");
}

#[test]
fn history_paths() {
    assert_eq!(get_search_history_path("/proj"), "/proj/cache/search_history.json");
    assert_eq!(get_index_info_path("/proj/index"), "/proj/index/index_info.json");
}

#[test]
fn history_keeps_the_latest_first_and_each_query_once() {
    let h = add_search_to_history(&vec![], s("a"));
    let h = add_search_to_history(&h, s("b"));
    let h = add_search_to_history(&h, s("a"));
    assert_eq!(h, vec![s("a"), s("b")]);
    let h = add_search_to_history(&h, s("c"));
    assert_eq!(h, vec![s("c"), s("a"), s("b")]);
    assert_eq!(get_search_history(&h, 2), vec![s("b"), s("a")]);
    assert_eq!(get_search_history(&h, 10), vec![s("b"), s("a"), s("c")]);
    assert_eq!(get_search_history(&h, 0), Vec::<String>::new());
}

#[test]
fn history_keeps_a_hundred_queries() {
    let mut h = vec![];
    for i in 0..150 {
        h = add_search_to_history(&h, format!("q{}", i));
    }
    assert_eq!(h.len(), 100);
    assert_eq!(h[0], "q149");
    assert_eq!(h[99], "q50");
}
