//! The failures of ingestion and retrieval, each with a stable kind.
use vstd::prelude::*;

verus! {

#[derive(Clone, Debug, PartialEq, Eq)]
pub enum IngestError {
    /// The request ended without a part named `file`.
    NoFileProvided,
    /// The chosen part lacks a file name or a declared content type.
    MissingField,
    /// The declared type is not accepted, or an image does not decode.
    UnsupportedFileType,
    /// No known storage extension can be derived.
    InvalidExtension,
    /// A non-directory occupies the target directory's path.
    DirectoryConflict,
    /// A directory could not be created, or bytes could not be written or read.
    IoFailure,
    /// The database refused the record; carries its message.
    PersistenceFailure(String),
    /// No stored asset answers the requested path.
    NotFound,
    /// The request carries no valid credential.
    Unauthorized,
}

impl IngestError {
    /// A stable, machine-checkable name of the error's kind.
    pub fn kind(&self) -> (r: &'static str)
        ensures
            r@ == match self {
                IngestError::NoFileProvided => "no_file_provided"@,
                IngestError::MissingField => "missing_field"@,
                IngestError::UnsupportedFileType => "unsupported_file_type"@,
                IngestError::InvalidExtension => "invalid_extension"@,
                IngestError::DirectoryConflict => "directory_conflict"@,
                IngestError::IoFailure => "io_failure"@,
                IngestError::PersistenceFailure(_) => "persistence_failure"@,
                IngestError::NotFound => "not_found"@,
                IngestError::Unauthorized => "unauthorized"@,
            },
    {
        match self {
            IngestError::NoFileProvided => "no_file_provided",
            IngestError::MissingField => "missing_field",
            IngestError::UnsupportedFileType => "unsupported_file_type",
            IngestError::InvalidExtension => "invalid_extension",
            IngestError::DirectoryConflict => "directory_conflict",
            IngestError::IoFailure => "io_failure",
            IngestError::PersistenceFailure(_) => "persistence_failure",
            IngestError::NotFound => "not_found",
            IngestError::Unauthorized => "unauthorized",
        }
    }
}

} // verus!
