//! Document types, and how a type is told from a path, an extension, a MIME
//! type or the first bytes of a file.

use crate::error::{AlLibraryError, ErrorKind};
use crate::index::{after_last, file_name, last_segment};
use crate::strings::{
    concat, lowercase, opt_view, same_text, text_of, to_lower, to_upper, uppercase, utf8_text,
};
use crate::text::{contains, contains_seq, has_prefix, slice_copy, starts_with};
use vstd::prelude::*;
use vstd::string::*;
use vstd::utf8::*;

verus! {

pub const DOT: u8 = 46;

/// The type of a document.
#[allow(clippy::upper_case_acronyms)]
#[derive(Debug, Clone, Copy, PartialEq, Eq, Structural)]
pub enum DocumentType {
    PDF,
    EPUB,
    TXT,
    MD,
    HTML,
    RTF,
    DOC,
    DOCX,
    Unknown,
}

/// The name of a document type.
pub open spec fn name_of_type(t: DocumentType) -> Seq<char> {
    match t {
        DocumentType::PDF => "PDF"@,
        DocumentType::EPUB => "EPUB"@,
        DocumentType::TXT => "TXT"@,
        DocumentType::MD => "MD"@,
        DocumentType::HTML => "HTML"@,
        DocumentType::RTF => "RTF"@,
        DocumentType::DOC => "DOC"@,
        DocumentType::DOCX => "DOCX"@,
        DocumentType::Unknown => "UNKNOWN"@,
    }
}

/// The type that a name in upper case stands for.
pub open spec fn type_named(upper: Seq<char>) -> DocumentType {
    if upper == "PDF"@ {
        DocumentType::PDF
    } else if upper == "EPUB"@ {
        DocumentType::EPUB
    } else if upper == "TXT"@ {
        DocumentType::TXT
    } else if upper == "MD"@ || upper == "MARKDOWN"@ {
        DocumentType::MD
    } else if upper == "HTML"@ || upper == "HTM"@ {
        DocumentType::HTML
    } else if upper == "RTF"@ {
        DocumentType::RTF
    } else if upper == "DOC"@ {
        DocumentType::DOC
    } else if upper == "DOCX"@ {
        DocumentType::DOCX
    } else {
        DocumentType::Unknown
    }
}

/// The type that an extension in lower case stands for.
pub open spec fn extension_type(lower: Seq<char>) -> DocumentType {
    if lower == "pdf"@ {
        DocumentType::PDF
    } else if lower == "epub"@ {
        DocumentType::EPUB
    } else if lower == "txt"@ {
        DocumentType::TXT
    } else if lower == "md"@ || lower == "markdown"@ {
        DocumentType::MD
    } else if lower == "html"@ || lower == "htm"@ {
        DocumentType::HTML
    } else if lower == "rtf"@ {
        DocumentType::RTF
    } else if lower == "doc"@ {
        DocumentType::DOC
    } else if lower == "docx"@ {
        DocumentType::DOCX
    } else {
        DocumentType::Unknown
    }
}

/// The type that a MIME type stands for.
pub open spec fn mime_type_of(mime: Seq<char>) -> DocumentType {
    if mime == "application/pdf"@ {
        DocumentType::PDF
    } else if mime == "application/epub+zip"@ {
        DocumentType::EPUB
    } else if mime == "text/plain"@ {
        DocumentType::TXT
    } else if mime == "text/markdown"@ {
        DocumentType::MD
    } else if mime == "text/html"@ {
        DocumentType::HTML
    } else if mime == "application/rtf"@ {
        DocumentType::RTF
    } else if mime == "application/msword"@ {
        DocumentType::DOC
    } else if mime == "application/vnd.openxmlformats-officedocument.wordprocessingml.document"@ {
        DocumentType::DOCX
    } else {
        DocumentType::Unknown
    }
}

impl DocumentType {
    /// The name of the type.
    pub fn to_string(&self) -> (r: String)
        ensures
            r@ == name_of_type(*self),
    {
        match self {
            DocumentType::PDF => String::from_str("PDF"),
            DocumentType::EPUB => String::from_str("EPUB"),
            DocumentType::TXT => String::from_str("TXT"),
            DocumentType::MD => String::from_str("MD"),
            DocumentType::HTML => String::from_str("HTML"),
            DocumentType::RTF => String::from_str("RTF"),
            DocumentType::DOC => String::from_str("DOC"),
            DocumentType::DOCX => String::from_str("DOCX"),
            DocumentType::Unknown => String::from_str("UNKNOWN"),
        }
    }

    /// The type that a name in upper case stands for.
    pub fn from_upper(upper: &str) -> (r: DocumentType)
        ensures
            r == type_named(upper@),
    {
        if same_text(upper, "PDF") {
            DocumentType::PDF
        } else if same_text(upper, "EPUB") {
            DocumentType::EPUB
        } else if same_text(upper, "TXT") {
            DocumentType::TXT
        } else if same_text(upper, "MD") || same_text(upper, "MARKDOWN") {
            DocumentType::MD
        } else if same_text(upper, "HTML") || same_text(upper, "HTM") {
            DocumentType::HTML
        } else if same_text(upper, "RTF") {
            DocumentType::RTF
        } else if same_text(upper, "DOC") {
            DocumentType::DOC
        } else if same_text(upper, "DOCX") {
            DocumentType::DOCX
        } else {
            DocumentType::Unknown
        }
    }

    /// The type that a name stands for, letter case set aside.
    pub fn from_string(s: &str) -> (r: DocumentType)
        ensures
            r == type_named(uppercase(s@)),
    {
        let upper = to_upper(s);
        DocumentType::from_upper(upper.as_str())
    }

    /// Whether the type is one that the library handles.
    pub fn is_supported(&self) -> (r: bool)
        ensures
            r == (*self != DocumentType::Unknown),
    {
        match self {
            DocumentType::Unknown => false,
            _ => true,
        }
    }
}

/// The MIME type that the `mime_guess` crate names first for an extension.
pub uninterp spec fn guessed_mime(extension: Seq<char>) -> Option<Seq<char>>;

/// Calls `mime_guess::from_ext` and takes the first guess; the guess is
/// known by name only.
#[verifier::external_body]
pub(crate) fn guess_mime(extension: &str) -> (r: Option<String>)
    ensures
        opt_view(r) == guessed_mime(extension@),
{
    mime_guess::from_ext(extension).first_raw().map(|m| m.to_string())
}

/// The extension of a file name: what follows its last dot, unless the
/// name has no dot, begins with its only dot, or is `..`.
pub open spec fn extension_of_name(name: Seq<u8>) -> Option<Seq<u8>> {
    let ext = after_last(name, DOT);
    if ext.len() == name.len() || name.len() - ext.len() <= 1 || name == seq![DOT, DOT] {
        None
    } else {
        Some(ext)
    }
}

/// The extension of a path, as text.
pub open spec fn extension_of(path: Seq<char>) -> Option<Seq<char>> {
    match extension_of_name(last_segment(encode_utf8(path))) {
        Some(ext) => text_of(ext),
        None => None,
    }
}

/// The zip signature.
pub open spec fn zip_magic() -> Seq<u8> {
    seq![0x50u8, 0x4bu8, 0x03u8, 0x04u8]
}

/// The signature of the compound file format of `.doc` files.
pub open spec fn doc_magic() -> Seq<u8> {
    seq![0xd0u8, 0xcfu8, 0x11u8, 0xe0u8, 0xa1u8, 0xb1u8, 0x1au8, 0xe1u8]
}

/// Whether the content begins like a zip archive.
pub open spec fn zip_like(content: Seq<u8>) -> bool {
    has_prefix(content, zip_magic())
}

/// Whether the content is text that holds one of the tags of an HTML
/// page, letter case set aside.
pub open spec fn html_like(content: Seq<u8>) -> bool {
    valid_utf8(content) && ({
        let low = encode_utf8(lowercase(decode_utf8(content)));
        ||| contains_seq(low, encode_utf8("<html"@))
        ||| contains_seq(low, encode_utf8("<!doctype html"@))
        ||| contains_seq(low, encode_utf8("<head>"@))
        ||| contains_seq(low, encode_utf8("<body>"@))
    })
}

/// Whether a byte is a control character other than tab, line feed and
/// carriage return.
pub open spec fn is_control(b: u8) -> bool {
    b < 32 && b != 9 && b != 10 && b != 13
}

/// How many such control characters the content holds.
pub open spec fn control_count(content: Seq<u8>) -> nat
    decreases content.len(),
{
    if content.len() == 0 {
        0
    } else {
        control_count(content.drop_last()) + if is_control(content.last()) {
            1nat
        } else {
            0nat
        }
    }
}

/// Whether the content reads as text: it is empty, or it is UTF-8 and
/// fewer than a tenth of its bytes are control characters.
pub open spec fn text_like(content: Seq<u8>) -> bool {
    content.len() == 0 || (valid_utf8(content) && control_count(content) < content.len() / 10)
}

/// The type that the content shows: by signature first, then by the tags
/// of an HTML page, then as plain text.
pub open spec fn content_type(content: Seq<u8>) -> DocumentType {
    if has_prefix(content, encode_utf8("%PDF"@)) {
        DocumentType::PDF
    } else if zip_like(content) {
        DocumentType::Unknown
    } else if html_like(content) {
        DocumentType::HTML
    } else if has_prefix(content, encode_utf8("{\\rtf"@)) {
        DocumentType::RTF
    } else if has_prefix(content, doc_magic()) {
        DocumentType::DOC
    } else if text_like(content) {
        DocumentType::TXT
    } else {
        DocumentType::Unknown
    }
}

/// The type that the path's extension shows.
pub open spec fn path_type(path: Seq<char>) -> DocumentType {
    match extension_of(path) {
        Some(ext) => extension_type(lowercase(ext)),
        None => DocumentType::Unknown,
    }
}

/// The type that the MIME guess for the path's extension shows.
pub open spec fn guessed_type(path: Seq<char>) -> DocumentType {
    match extension_of(path) {
        Some(ext) => match guessed_mime(ext) {
            Some(m) => mime_type_of(m),
            None => DocumentType::Unknown,
        },
        None => DocumentType::Unknown,
    }
}

/// The type of a file by all means: its content where that shows a
/// supported type, else its extension, else the MIME guess.
pub open spec fn comprehensive_type(path: Seq<char>, content: Seq<u8>) -> DocumentType {
    if content_type(content) != DocumentType::Unknown {
        content_type(content)
    } else if path_type(path) != DocumentType::Unknown {
        path_type(path)
    } else {
        guessed_type(path)
    }
}

/// The extensions of the supported types.
pub open spec fn supported_extensions() -> Seq<Seq<char>> {
    seq![
        "pdf"@,
        "epub"@,
        "txt"@,
        "md"@,
        "markdown"@,
        "html"@,
        "htm"@,
        "rtf"@,
        "doc"@,
        "docx"@,
    ]
}

/// The views of a list of texts.
pub open spec fn views(v: Seq<&'static str>) -> Seq<Seq<char>> {
    Seq::new(v.len(), |i: int| v[i]@)
}

/// Tells the type of a document.
#[derive(Debug)]
pub struct TypeDetection;

impl TypeDetection {
    /// The extension of a path.
    pub fn extension(file_path: &str) -> (r: Option<String>)
        ensures
            opt_view(r) == extension_of(file_path@),
    {
        let name = file_name(file_path.as_bytes());
        let mut start: usize = name.len();
        assert(name@.subrange(0, name@.len() as int) =~= name@);
        assert(after_last(name@, DOT) + name@.subrange(name@.len() as int, name@.len() as int)
            =~= after_last(name@, DOT));
        while start > 0 && name[start - 1] != DOT
            invariant
                start <= name.len(),
                after_last(name@, DOT) == after_last(name@.subrange(0, start as int), DOT)
                    + name@.subrange(start as int, name@.len() as int),
            decreases start,
        {
            let ghost head = name@.subrange(0, start as int);
            assert(head.drop_last() =~= name@.subrange(0, start - 1));
            assert(head.last() == name@[start - 1]);
            assert(after_last(head.drop_last(), DOT).push(head.last()) + name@.subrange(
                start as int,
                name@.len() as int,
            ) =~= after_last(head.drop_last(), DOT) + name@.subrange(
                start - 1,
                name@.len() as int,
            ));
            start -= 1;
        }
        assert(after_last(name@.subrange(0, start as int), DOT) =~= Seq::<u8>::empty());
        assert(Seq::<u8>::empty() + name@.subrange(start as int, name@.len() as int)
            =~= name@.subrange(start as int, name@.len() as int));
        let dots = name.len() == 2 && name[0] == DOT && name[1] == DOT;
        assert(dots == (name@ == seq![DOT, DOT])) by {
            if dots {
                assert(name@ =~= seq![DOT, DOT]);
            }
        }
        if start == 0 || start <= 1 || dots {
            return None;
        }
        let ext = slice_copy(name.as_slice(), start, name.len());
        utf8_text(ext.as_slice())
    }

    /// The type that a path shows by its extension.
    pub fn detect_from_path(file_path: &str) -> (r: DocumentType)
        ensures
            r == path_type(file_path@),
    {
        match TypeDetection::extension(file_path) {
            Some(ext) => TypeDetection::detect_from_extension(ext.as_str()),
            None => DocumentType::Unknown,
        }
    }

    /// The type that an extension in lower case stands for.
    pub fn detect_from_lower_extension(lower: &str) -> (r: DocumentType)
        ensures
            r == extension_type(lower@),
    {
        if same_text(lower, "pdf") {
            DocumentType::PDF
        } else if same_text(lower, "epub") {
            DocumentType::EPUB
        } else if same_text(lower, "txt") {
            DocumentType::TXT
        } else if same_text(lower, "md") || same_text(lower, "markdown") {
            DocumentType::MD
        } else if same_text(lower, "html") || same_text(lower, "htm") {
            DocumentType::HTML
        } else if same_text(lower, "rtf") {
            DocumentType::RTF
        } else if same_text(lower, "doc") {
            DocumentType::DOC
        } else if same_text(lower, "docx") {
            DocumentType::DOCX
        } else {
            DocumentType::Unknown
        }
    }

    /// The type that an extension stands for, letter case set aside.
    pub fn detect_from_extension(extension: &str) -> (r: DocumentType)
        ensures
            r == extension_type(lowercase(extension@)),
    {
        let lower = to_lower(extension);
        TypeDetection::detect_from_lower_extension(lower.as_str())
    }

    /// Whether the content begins like a zip archive.
    pub fn is_zip_like(content: &[u8]) -> (r: bool)
        ensures
            r == zip_like(content@),
    {
        let r = content.len() >= 4 && content[0] == 0x50 && content[1] == 0x4b && content[2]
            == 0x03 && content[3] == 0x04;
        assert(r == zip_like(content@)) by {
            if r {
                assert(content@.subrange(0, 4) =~= zip_magic());
            } else if content@.len() >= 4 {
                let p = content@.subrange(0, 4);
                assert(p[0] == content@[0] && p[1] == content@[1] && p[2] == content@[2] && p[3]
                    == content@[3]);
            }
        }
        r
    }

    fn is_doc_like(content: &[u8]) -> (r: bool)
        ensures
            r == has_prefix(content@, doc_magic()),
    {
        let r = content.len() >= 8 && content[0] == 0xd0 && content[1] == 0xcf && content[2]
            == 0x11 && content[3] == 0xe0 && content[4] == 0xa1 && content[5] == 0xb1
            && content[6] == 0x1a && content[7] == 0xe1;
        assert(r == has_prefix(content@, doc_magic())) by {
            if r {
                assert(content@.subrange(0, 8) =~= doc_magic());
            } else if content@.len() >= 8 {
                let p = content@.subrange(0, 8);
                assert(p[0] == content@[0] && p[1] == content@[1] && p[2] == content@[2] && p[3]
                    == content@[3] && p[4] == content@[4] && p[5] == content@[5] && p[6]
                    == content@[6] && p[7] == content@[7]);
            }
        }
        r
    }

    /// Whether a text in lower case holds one of the tags of an HTML page.
    pub fn has_html_tags(lower: &str) -> (r: bool)
        ensures
            r == ({
                let low = encode_utf8(lower@);
                ||| contains_seq(low, encode_utf8("<html"@))
                ||| contains_seq(low, encode_utf8("<!doctype html"@))
                ||| contains_seq(low, encode_utf8("<head>"@))
                ||| contains_seq(low, encode_utf8("<body>"@))
            }),
    {
        let low = lower.as_bytes();
        contains(low, "<html".as_bytes()) || contains(low, "<!doctype html".as_bytes())
            || contains(low, "<head>".as_bytes()) || contains(low, "<body>".as_bytes())
    }

    /// Whether the content is text that holds one of the tags of an HTML
    /// page, letter case set aside.
    pub fn contains_html_tags(content: &[u8]) -> (r: bool)
        ensures
            r == html_like(content@),
    {
        match utf8_text(content) {
            Some(text) => {
                let lower = to_lower(text.as_str());
                TypeDetection::has_html_tags(lower.as_str())
            },
            None => false,
        }
    }

    /// Whether the content reads as text.
    pub fn is_text_content(content: &[u8]) -> (r: bool)
        ensures
            r == text_like(content@),
    {
        if content.len() == 0 {
            return true;
        }
        if utf8_text(content).is_none() {
            return false;
        }
        let mut count: usize = 0;
        let mut i: usize = 0;
        assert(content@.subrange(0, 0) =~= Seq::<u8>::empty());
        while i < content.len()
            invariant
                i <= content.len(),
                count <= i,
                count == control_count(content@.subrange(0, i as int)),
            decreases content.len() - i,
        {
            let b = content[i];
            assert(content@.subrange(0, i + 1).drop_last() =~= content@.subrange(0, i as int));
            assert(content@.subrange(0, i + 1).last() == b);
            if b < 32 && b != 9 && b != 10 && b != 13 {
                count += 1;
            }
            i += 1;
        }
        assert(content@.subrange(0, content@.len() as int) =~= content@);
        count < content.len() / 10
    }

    /// The type that the content shows.
    pub fn detect_from_content(content: &[u8]) -> (r: DocumentType)
        ensures
            r == content_type(content@),
    {
        if starts_with(content, "%PDF".as_bytes()) {
            return DocumentType::PDF;
        }
        if TypeDetection::is_zip_like(content) {
            return DocumentType::Unknown;
        }
        if TypeDetection::contains_html_tags(content) {
            return DocumentType::HTML;
        }
        if starts_with(content, "{\\rtf".as_bytes()) {
            return DocumentType::RTF;
        }
        if TypeDetection::is_doc_like(content) {
            return DocumentType::DOC;
        }
        if TypeDetection::is_text_content(content) {
            return DocumentType::TXT;
        }
        DocumentType::Unknown
    }

    /// The type that a MIME type stands for.
    pub fn detect_from_mime(mime_type: &str) -> (r: DocumentType)
        ensures
            r == mime_type_of(mime_type@),
    {
        if same_text(mime_type, "application/pdf") {
            DocumentType::PDF
        } else if same_text(mime_type, "application/epub+zip") {
            DocumentType::EPUB
        } else if same_text(mime_type, "text/plain") {
            DocumentType::TXT
        } else if same_text(mime_type, "text/markdown") {
            DocumentType::MD
        } else if same_text(mime_type, "text/html") {
            DocumentType::HTML
        } else if same_text(mime_type, "application/rtf") {
            DocumentType::RTF
        } else if same_text(mime_type, "application/msword") {
            DocumentType::DOC
        } else if same_text(
            mime_type,
            "application/vnd.openxmlformats-officedocument.wordprocessingml.document",
        ) {
            DocumentType::DOCX
        } else {
            DocumentType::Unknown
        }
    }

    /// The type of a file by all means: its content where that shows a
    /// supported type, else its extension, else the MIME guess for its
    /// extension.
    pub fn detect_comprehensive(file_path: &str, content: &[u8]) -> (r: Result<
        DocumentType,
        AlLibraryError,
    >)
        ensures
            r is Ok,
            r->Ok_0 == comprehensive_type(file_path@, content@),
    {
        let by_content = TypeDetection::detect_from_content(content);
        if by_content.is_supported() {
            return Ok(by_content);
        }
        let by_path = TypeDetection::detect_from_path(file_path);
        if by_path.is_supported() {
            return Ok(by_path);
        }
        match TypeDetection::extension(file_path) {
            Some(ext) => match guess_mime(ext.as_str()) {
                Some(m) => Ok(TypeDetection::detect_from_mime(m.as_str())),
                None => Ok(DocumentType::Unknown),
            },
            None => Ok(DocumentType::Unknown),
        }
    }

    /// The extensions of the supported types.
    pub fn get_supported_extensions() -> (r: Vec<&'static str>)
        ensures
            views(r@) == supported_extensions(),
    {
        let mut out: Vec<&'static str> = Vec::new();
        out.push("pdf");
        out.push("epub");
        out.push("txt");
        out.push("md");
        out.push("markdown");
        out.push("html");
        out.push("htm");
        out.push("rtf");
        out.push("doc");
        out.push("docx");
        assert(views(out@) =~= supported_extensions());
        out
    }

    /// Whether an extension in lower case is one of the supported types.
    pub fn is_supported_lower(lower: &str) -> (r: bool)
        ensures
            r == supported_extensions().contains(lower@),
    {
        let list = TypeDetection::get_supported_extensions();
        let mut i: usize = 0;
        while i < list.len()
            invariant
                i <= list.len(),
                views(list@) == supported_extensions(),
                forall|j: int| 0 <= j < i ==> supported_extensions()[j] != lower@,
            decreases list.len() - i,
        {
            assert(views(list@)[i as int] == list[i as int]@);
            if same_text(list[i], lower) {
                return true;
            }
            i += 1;
        }
        false
    }

    /// Whether an extension is one of the supported types, letter case set
    /// aside.
    pub fn is_supported_extension(extension: &str) -> (r: bool)
        ensures
            r == supported_extensions().contains(lowercase(extension@)),
    {
        let lower = to_lower(extension);
        TypeDetection::is_supported_lower(lower.as_str())
    }

    /// Tests that a file is of a supported type.
    pub fn validate_document_type(file_path: &str, content: &[u8]) -> (r: Result<
        (),
        AlLibraryError,
    >)
        ensures
            r is Ok <==> comprehensive_type(file_path@, content@) != DocumentType::Unknown,
            r is Err ==> r->Err_0.spec_kind() == ErrorKind::InvalidInput && r->Err_0.detail()
                == "Unsupported document type for file: "@ + file_path@,
    {
        let detected = match TypeDetection::detect_comprehensive(file_path, content) {
            Ok(t) => t,
            Err(e) => {
                return Err(e);
            },
        };
        if !detected.is_supported() {
            return Err(
                AlLibraryError::invalid_input(
                    concat("Unsupported document type for file: ", file_path),
                ),
            );
        }
        Ok(())
    }
}

} // verus!
