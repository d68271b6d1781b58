//! What is decided about the files of a library folder: which files count
//! as documents, of which type a document is, under which id it is known,
//! and which files may be imported or previewed.

use crate::strings::{
    decimal_chars,
    decimal_string,
    hex_chars,
    hex_string,
    lowercase,
    opt_view,
    to_lower,
    utf8_text,
};
use crate::text::{contains, contains_seq, ends_with, has_suffix};
use crate::type_detection::{
    extension_of,
    path_type,
    supported_extensions,
    DocumentType,
    TypeDetection,
};
use crate::index::{file_name, last_segment};
use crate::gossip::lossy_text;
use vstd::prelude::*;
use vstd::string::*;
use vstd::utf8::*;

verus! {

/// The greatest size of a file that is imported: 200 MiB.
pub const MAX_IMPORT_SIZE: u64 = 209715200;

/// The greatest size of a file that is previewed: 50 MiB.
pub const MAX_PREVIEW_SIZE: u64 = 52428800;

/// What is known of a folder of documents.
#[derive(Debug, PartialEq, Eq)]
pub struct FolderInfo {
    pub path: String,
    pub exists: bool,
    pub document_count: u32,
    pub total_size: u64,
    pub last_scan: Option<String>,
}

/// The MD5 digest that the `md5` crate computes of a byte string.
pub uninterp spec fn md5_digest(data: Seq<u8>) -> Seq<u8>;

/// Calls `md5::compute`; the digest is known by name only.
#[verifier::external_body]
pub(crate) fn md5_of(data: &[u8]) -> (r: Vec<u8>)
    ensures
        r@ == md5_digest(data@),
{
    md5::compute(data).0.to_vec()
}

/// The id of a document: the MD5 digest of its path in lower-case
/// hexadecimal.
pub fn document_id(file_path: &str) -> (r: String)
    ensures
        r@ == hex_chars(md5_digest(encode_utf8(file_path@))),
{
    let digest = md5_of(file_path.as_bytes());
    hex_string(digest.as_slice())
}

/// Whether a text in lower case holds the word.
pub open spec fn holds(lower: Seq<char>, word: Seq<char>) -> bool {
    contains_seq(encode_utf8(lower), encode_utf8(word))
}

fn has_word(lower: &str, word: &str) -> (r: bool)
    ensures
        r == holds(lower@, word@),
{
    contains(lower.as_bytes(), word.as_bytes())
}

/// Whether a file name in lower case hints at a document.
pub open spec fn hints_at_document(lower: Seq<char>) -> bool {
    ||| holds(lower, "pdf"@)
    ||| holds(lower, "epub"@)
    ||| holds(lower, "txt"@)
    ||| holds(lower, "md"@)
    ||| holds(lower, "html"@)
    ||| holds(lower, "htm"@)
}

/// The name of the file that a path names, as text.
pub open spec fn name_text(path: Seq<char>) -> Seq<char> {
    lossy_text(last_segment(encode_utf8(path)))
}

/// Whether a file counts as a document when a folder is summed up: its
/// extension is a supported one, or its name hints at a document.
pub open spec fn counts_as_document(path: Seq<char>) -> bool {
    (extension_of(path) is Some && supported_extensions().contains(
        lowercase(extension_of(path)->0),
    )) || hints_at_document(lowercase(name_text(path)))
}

fn name_of(path: &str) -> (r: String)
    ensures
        r@ == name_text(path@),
{
    let name = file_name(path.as_bytes());
    match utf8_text(name.as_slice()) {
        Some(t) => t,
        None => String::new(),
    }
}

/// Tests whether a file counts as a document when a folder is summed up.
pub fn is_document(path: &str) -> (r: bool)
    ensures
        r == counts_as_document(path@),
{
    let by_extension = match TypeDetection::extension(path) {
        Some(ext) => TypeDetection::is_supported_extension(ext.as_str()),
        None => false,
    };
    if by_extension {
        return true;
    }
    let name = name_of(path);
    let lower = to_lower(name.as_str());
    let l = lower.as_str();
    has_word(l, "pdf") || has_word(l, "epub") || has_word(l, "txt") || has_word(l, "md")
        || has_word(l, "html") || has_word(l, "htm")
}

/// Adds a document of the given size to what is known of a folder. A
/// count or a total that the counters cannot hold stays at their greatest
/// value.
pub fn count_document(info: &mut FolderInfo, size: u64)
    ensures
        final(info).document_count == if old(info).document_count < u32::MAX {
            (old(info).document_count + 1) as u32
        } else {
            u32::MAX
        },
        final(info).total_size == if old(info).total_size + size <= u64::MAX {
            (old(info).total_size + size) as u64
        } else {
            u64::MAX
        },
        final(info).path@ == old(info).path@,
        final(info).exists == old(info).exists,
        opt_view(final(info).last_scan) == opt_view(old(info).last_scan),
{
    info.document_count = info.document_count.saturating_add(1);
    info.total_size = info.total_size.saturating_add(size);
}

/// How a scan takes a file.
#[derive(Debug, Clone, Copy, PartialEq, Eq, Structural)]
pub enum ScanKind {
    /// Its extension is a supported one.
    Supported,
    /// Its name says PDF.
    PdfByName,
    /// Its name says EPUB.
    EpubByName,
    /// It is passed over.
    Skipped,
}

/// How a scan takes a file: a file without an extension is passed over;
/// one with a supported extension is taken; any other by what its name
/// says.
pub open spec fn scan_kind_of(path: Seq<char>) -> ScanKind {
    match extension_of(path) {
        None => ScanKind::Skipped,
        Some(ext) => if supported_extensions().contains(lowercase(ext)) {
            ScanKind::Supported
        } else if holds(lowercase(name_text(path)), "pdf"@) {
            ScanKind::PdfByName
        } else if holds(lowercase(name_text(path)), "epub"@) {
            ScanKind::EpubByName
        } else {
            ScanKind::Skipped
        },
    }
}

/// Decides how a scan takes a file.
pub fn scan_kind(path: &str) -> (r: ScanKind)
    ensures
        r == scan_kind_of(path@),
{
    match TypeDetection::extension(path) {
        None => ScanKind::Skipped,
        Some(ext) => {
            if TypeDetection::is_supported_extension(ext.as_str()) {
                ScanKind::Supported
            } else {
                let name = name_of(path);
                let lower = to_lower(name.as_str());
                if has_word(lower.as_str(), "pdf") {
                    ScanKind::PdfByName
                } else if has_word(lower.as_str(), "epub") {
                    ScanKind::EpubByName
                } else {
                    ScanKind::Skipped
                }
            }
        },
    }
}

/// The message of a scan that could not take a file.
pub fn scan_error(kind: ScanKind, path: &str, error: &str) -> (r: String)
    ensures
        r@ == (match kind {
            ScanKind::PdfByName => "Failed to process PDF "@,
            ScanKind::EpubByName => "Failed to process EPUB "@,
            _ => "Failed to process "@,
        }) + path@ + ": "@ + error@,
{
    let mut out = match kind {
        ScanKind::PdfByName => String::from_str("Failed to process PDF "),
        ScanKind::EpubByName => String::from_str("Failed to process EPUB "),
        _ => String::from_str("Failed to process "),
    };
    out.append(path);
    out.append(": ");
    out.append(error);
    out
}

/// The type that a file name in lower case hints at.
pub open spec fn hinted_type(lower: Seq<char>) -> DocumentType {
    if holds(lower, "pdf"@) {
        DocumentType::PDF
    } else if holds(lower, "epub"@) {
        DocumentType::EPUB
    } else if holds(lower, "txt"@) {
        DocumentType::TXT
    } else if holds(lower, "md"@) || holds(lower, "markdown"@) {
        DocumentType::MD
    } else if holds(lower, "html"@) || holds(lower, "htm"@) {
        DocumentType::HTML
    } else {
        DocumentType::Unknown
    }
}

/// The type under which a document is listed: by its extension, else by
/// what its name hints at.
pub open spec fn listed_type(path: Seq<char>) -> DocumentType {
    if path_type(path) != DocumentType::Unknown {
        path_type(path)
    } else {
        hinted_type(lowercase(name_text(path)))
    }
}

/// Tells the type under which a document is listed.
pub fn document_type(path: &str) -> (r: DocumentType)
    ensures
        r == listed_type(path@),
{
    let by_path = TypeDetection::detect_from_path(path);
    if by_path.is_supported() {
        return by_path;
    }
    let name = name_of(path);
    let lower = to_lower(name.as_str());
    let l = lower.as_str();
    if has_word(l, "pdf") {
        DocumentType::PDF
    } else if has_word(l, "epub") {
        DocumentType::EPUB
    } else if has_word(l, "txt") {
        DocumentType::TXT
    } else if has_word(l, "md") || has_word(l, "markdown") {
        DocumentType::MD
    } else if has_word(l, "html") || has_word(l, "htm") {
        DocumentType::HTML
    } else {
        DocumentType::Unknown
    }
}

/// What may be imported.
#[derive(Debug, Clone, Copy, PartialEq, Eq, Structural)]
pub enum ImportKind {
    Pdf,
    Epub,
}

/// Why a file is not imported.
#[derive(Debug, Clone, Copy, PartialEq, Eq, Structural)]
pub enum ImportError {
    /// It is neither PDF nor EPUB.
    NotAllowed,
    /// It is greater than 200 MiB.
    TooLarge,
    /// It is an EPUB with a script file in it.
    HasJavaScript,
    /// It is an EPUB with a script tag in one of its pages.
    HasScriptTags,
}

impl ImportError {
    /// The message under which the error is reported.
    pub fn message(&self) -> (r: &'static str)
        ensures
            r@ == match self {
                ImportError::NotAllowed => "Only PDF and EPUB are allowed"@,
                ImportError::TooLarge => "File too large (>200MB)"@,
                ImportError::HasJavaScript => "EPUB contains JavaScript; rejected"@,
                ImportError::HasScriptTags => "EPUB contains script tags; rejected"@,
            },
    {
        match self {
            ImportError::NotAllowed => "Only PDF and EPUB are allowed",
            ImportError::TooLarge => "File too large (>200MB)",
            ImportError::HasJavaScript => "EPUB contains JavaScript; rejected",
            ImportError::HasScriptTags => "EPUB contains script tags; rejected",
        }
    }
}

/// Whether a file with the given extension in lower case and size may be
/// imported, and as what. The extension is judged before the size.
pub open spec fn import_verdict(lower_ext: Seq<char>, size: u64) -> Result<
    ImportKind,
    ImportError,
> {
    if lower_ext != "pdf"@ && lower_ext != "epub"@ {
        Err(ImportError::NotAllowed)
    } else if size > MAX_IMPORT_SIZE {
        Err(ImportError::TooLarge)
    } else if lower_ext == "pdf"@ {
        Ok(ImportKind::Pdf)
    } else {
        Ok(ImportKind::Epub)
    }
}

/// Judges a file by its extension in lower case and its size.
pub fn check_import_lower(lower_ext: &str, size: u64) -> (r: Result<ImportKind, ImportError>)
    ensures
        r == import_verdict(lower_ext@, size),
{
    let pdf = crate::strings::same_text(lower_ext, "pdf");
    let epub = crate::strings::same_text(lower_ext, "epub");
    if !pdf && !epub {
        Err(ImportError::NotAllowed)
    } else if size > MAX_IMPORT_SIZE {
        Err(ImportError::TooLarge)
    } else if pdf {
        Ok(ImportKind::Pdf)
    } else {
        Ok(ImportKind::Epub)
    }
}

/// Judges whether the file at `path` with the given size may be imported:
/// only PDF and EPUB by extension, letter case set aside, and up to
/// 200 MiB.
pub fn check_import(path: &str, size: u64) -> (r: Result<ImportKind, ImportError>)
    ensures
        r == import_verdict(
            match extension_of(path@) {
                Some(e) => lowercase(e),
                None => lowercase(Seq::empty()),
            },
            size,
        ),
{
    let ext = match TypeDetection::extension(path) {
        Some(e) => e,
        None => String::new(),
    };
    let lower = to_lower(ext.as_str());
    check_import_lower(lower.as_str(), size)
}

/// Whether an entry of an EPUB, by its name in lower case, is a page whose
/// text is searched for script tags.
pub open spec fn is_page(lower_name: Seq<char>) -> bool {
    ||| has_suffix(encode_utf8(lower_name), encode_utf8(".html"@))
    ||| has_suffix(encode_utf8(lower_name), encode_utf8(".xhtml"@))
    ||| has_suffix(encode_utf8(lower_name), encode_utf8(".opf"@))
}

/// What speaks against an entry of an EPUB: a script file by its name, or
/// a script tag in the text of a page.
pub open spec fn entry_verdict(lower_name: Seq<char>, text: Seq<u8>) -> Result<(), ImportError> {
    if has_suffix(encode_utf8(lower_name), encode_utf8(".js"@)) {
        Err(ImportError::HasJavaScript)
    } else if is_page(lower_name) && contains_seq(text, encode_utf8("<script"@)) {
        Err(ImportError::HasScriptTags)
    } else {
        Ok(())
    }
}

/// Judges an entry of an EPUB by its name in lower case and its text.
pub fn check_epub_entry_lower(lower_name: &str, text: &[u8]) -> (r: Result<(), ImportError>)
    ensures
        r == entry_verdict(lower_name@, text@),
{
    let name = lower_name.as_bytes();
    if ends_with(name, ".js".as_bytes()) {
        return Err(ImportError::HasJavaScript);
    }
    let page = ends_with(name, ".html".as_bytes()) || ends_with(name, ".xhtml".as_bytes())
        || ends_with(name, ".opf".as_bytes());
    if page && contains(text, "<script".as_bytes()) {
        return Err(ImportError::HasScriptTags);
    }
    Ok(())
}

/// Judges an entry of an EPUB by its name, letter case set aside, and its
/// text.
pub fn check_epub_entry(name: &str, text: &[u8]) -> (r: Result<(), ImportError>)
    ensures
        r == entry_verdict(lowercase(name@), text@),
{
    let lower = to_lower(name);
    check_epub_entry_lower(lower.as_str(), text)
}

/// Whether a file of the given size is previewed: up to 50 MiB.
pub fn check_preview(size: u64) -> (r: Result<(), &'static str>)
    ensures
        r is Ok <==> size <= MAX_PREVIEW_SIZE,
        r is Err ==> r->Err_0@ == "File too large for preview (max 50MB)"@,
{
    if size > MAX_PREVIEW_SIZE {
        Err("File too large for preview (max 50MB)")
    } else {
        Ok(())
    }
}

/// The digits of `n`, with zeros before them up to four digits.
pub open spec fn four_digits(n: nat) -> Seq<char> {
    (if n < 10 {
        "000"@
    } else if n < 100 {
        "00"@
    } else if n < 1000 {
        "0"@
    } else {
        Seq::empty()
    }) + decimal_chars(n)
}

/// The name of the image of one page of an export: `page-` and the number
/// of the page in at least four digits, then `.png`.
pub fn page_file_name(page: u64) -> (r: String)
    ensures
        r@ == "page-"@ + four_digits(page as nat) + ".png"@,
{
    let mut out = String::from_str("page-");
    if page < 10 {
        out.append("000");
    } else if page < 100 {
        out.append("00");
    } else if page < 1000 {
        out.append("0");
    }
    let digits = decimal_string(page);
    out.append(digits.as_str());
    out.append(".png");
    assert(out@ =~= "page-"@ + four_digits(page as nat) + ".png"@);
    out
}

} // verus!
