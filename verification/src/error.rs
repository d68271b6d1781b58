//! The errors that the library reports.

use crate::strings::concat;
use vstd::prelude::*;
use vstd::string::*;

verus! {

/// An error, with what it concerns.
#[derive(Debug, PartialEq, Eq)]
pub enum AlLibraryError {
    FileOperation { message: String },
    DocumentProcessing { message: String },
    Network { message: String },
    Security { message: String },
    CulturalProtection { message: String },
    Configuration { message: String },
    NotFound { resource: String },
    InvalidInput { message: String },
    PermissionDenied { action: String },
    Internal { message: String },
}

/// The kind of an error.
#[derive(Debug, PartialEq, Eq, Clone, Copy, Structural)]
pub enum ErrorKind {
    FileOperation,
    DocumentProcessing,
    Network,
    Security,
    CulturalProtection,
    Configuration,
    NotFound,
    InvalidInput,
    PermissionDenied,
    Internal,
}

/// What stands before the detail in the description of an error.
pub open spec fn heading(kind: ErrorKind) -> Seq<char> {
    match kind {
        ErrorKind::FileOperation => "File operation error: "@,
        ErrorKind::DocumentProcessing => "Document processing error: "@,
        ErrorKind::Network => "Network error: "@,
        ErrorKind::Security => "Security error: "@,
        ErrorKind::CulturalProtection => "Cultural protection error: "@,
        ErrorKind::Configuration => "Configuration error: "@,
        ErrorKind::NotFound => "Not found: "@,
        ErrorKind::InvalidInput => "Invalid input: "@,
        ErrorKind::PermissionDenied => "Permission denied: "@,
        ErrorKind::Internal => "Internal error: "@,
    }
}

impl AlLibraryError {
    /// The kind of the error.
    pub open spec fn spec_kind(&self) -> ErrorKind {
        match self {
            AlLibraryError::FileOperation { .. } => ErrorKind::FileOperation,
            AlLibraryError::DocumentProcessing { .. } => ErrorKind::DocumentProcessing,
            AlLibraryError::Network { .. } => ErrorKind::Network,
            AlLibraryError::Security { .. } => ErrorKind::Security,
            AlLibraryError::CulturalProtection { .. } => ErrorKind::CulturalProtection,
            AlLibraryError::Configuration { .. } => ErrorKind::Configuration,
            AlLibraryError::NotFound { .. } => ErrorKind::NotFound,
            AlLibraryError::InvalidInput { .. } => ErrorKind::InvalidInput,
            AlLibraryError::PermissionDenied { .. } => ErrorKind::PermissionDenied,
            AlLibraryError::Internal { .. } => ErrorKind::Internal,
        }
    }

    /// What the error concerns.
    pub open spec fn detail(&self) -> Seq<char> {
        match self {
            AlLibraryError::FileOperation { message } => message@,
            AlLibraryError::DocumentProcessing { message } => message@,
            AlLibraryError::Network { message } => message@,
            AlLibraryError::Security { message } => message@,
            AlLibraryError::CulturalProtection { message } => message@,
            AlLibraryError::Configuration { message } => message@,
            AlLibraryError::NotFound { resource } => resource@,
            AlLibraryError::InvalidInput { message } => message@,
            AlLibraryError::PermissionDenied { action } => action@,
            AlLibraryError::Internal { message } => message@,
        }
    }

    /// The kind of the error.
    #[verifier::when_used_as_spec(spec_kind)]
    pub fn kind(&self) -> (r: ErrorKind)
        ensures
            r == self.spec_kind(),
    {
        match self {
            AlLibraryError::FileOperation { .. } => ErrorKind::FileOperation,
            AlLibraryError::DocumentProcessing { .. } => ErrorKind::DocumentProcessing,
            AlLibraryError::Network { .. } => ErrorKind::Network,
            AlLibraryError::Security { .. } => ErrorKind::Security,
            AlLibraryError::CulturalProtection { .. } => ErrorKind::CulturalProtection,
            AlLibraryError::Configuration { .. } => ErrorKind::Configuration,
            AlLibraryError::NotFound { .. } => ErrorKind::NotFound,
            AlLibraryError::InvalidInput { .. } => ErrorKind::InvalidInput,
            AlLibraryError::PermissionDenied { .. } => ErrorKind::PermissionDenied,
            AlLibraryError::Internal { .. } => ErrorKind::Internal,
        }
    }

    pub fn file_operation(message: String) -> (r: AlLibraryError)
        ensures
            r.spec_kind() == ErrorKind::FileOperation,
            r.detail() == message@,
    {
        AlLibraryError::FileOperation { message }
    }

    pub fn document_processing(message: String) -> (r: AlLibraryError)
        ensures
            r.spec_kind() == ErrorKind::DocumentProcessing,
            r.detail() == message@,
    {
        AlLibraryError::DocumentProcessing { message }
    }

    pub fn network(message: String) -> (r: AlLibraryError)
        ensures
            r.spec_kind() == ErrorKind::Network,
            r.detail() == message@,
    {
        AlLibraryError::Network { message }
    }

    pub fn security(message: String) -> (r: AlLibraryError)
        ensures
            r.spec_kind() == ErrorKind::Security,
            r.detail() == message@,
    {
        AlLibraryError::Security { message }
    }

    pub fn cultural_protection(message: String) -> (r: AlLibraryError)
        ensures
            r.spec_kind() == ErrorKind::CulturalProtection,
            r.detail() == message@,
    {
        AlLibraryError::CulturalProtection { message }
    }

    pub fn configuration(message: String) -> (r: AlLibraryError)
        ensures
            r.spec_kind() == ErrorKind::Configuration,
            r.detail() == message@,
    {
        AlLibraryError::Configuration { message }
    }

    pub fn not_found(resource: String) -> (r: AlLibraryError)
        ensures
            r.spec_kind() == ErrorKind::NotFound,
            r.detail() == resource@,
    {
        AlLibraryError::NotFound { resource }
    }

    pub fn invalid_input(message: String) -> (r: AlLibraryError)
        ensures
            r.spec_kind() == ErrorKind::InvalidInput,
            r.detail() == message@,
    {
        AlLibraryError::InvalidInput { message }
    }

    pub fn permission_denied(action: String) -> (r: AlLibraryError)
        ensures
            r.spec_kind() == ErrorKind::PermissionDenied,
            r.detail() == action@,
    {
        AlLibraryError::PermissionDenied { action }
    }

    pub fn internal(message: String) -> (r: AlLibraryError)
        ensures
            r.spec_kind() == ErrorKind::Internal,
            r.detail() == message@,
    {
        AlLibraryError::Internal { message }
    }

    /// The description of the error: its heading and its detail.
    pub fn describe(&self) -> (r: String)
        ensures
            r@ == heading(self.spec_kind()) + self.detail(),
    {
        match self {
            AlLibraryError::FileOperation { message } => concat(
                "File operation error: ",
                message.as_str(),
            ),
            AlLibraryError::DocumentProcessing { message } => concat(
                "Document processing error: ",
                message.as_str(),
            ),
            AlLibraryError::Network { message } => concat("Network error: ", message.as_str()),
            AlLibraryError::Security { message } => concat("Security error: ", message.as_str()),
            AlLibraryError::CulturalProtection { message } => concat(
                "Cultural protection error: ",
                message.as_str(),
            ),
            AlLibraryError::Configuration { message } => concat(
                "Configuration error: ",
                message.as_str(),
            ),
            AlLibraryError::NotFound { resource } => concat("Not found: ", resource.as_str()),
            AlLibraryError::InvalidInput { message } => concat(
                "Invalid input: ",
                message.as_str(),
            ),
            AlLibraryError::PermissionDenied { action } => concat(
                "Permission denied: ",
                action.as_str(),
            ),
            AlLibraryError::Internal { message } => concat("Internal error: ", message.as_str()),
        }
    }
}

} // verus!
