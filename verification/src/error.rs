//! Error kinds reported by the library.

use vstd::prelude::*;

verus! {

/// Errors about the item database.
#[derive(Debug, Clone, PartialEq, Eq)]
pub enum DatabaseError {
    /// A database file could not be read: its path and the reason, if known.
    FileNotFound(String, Option<String>),
    /// A database file does not have the expected shape.
    InvalidFormat(String),
    /// No item carries the requested name.
    ItemNotFound(String),
    /// Loading the database failed.
    LoadError(String),
    /// Any other database failure.
    Other(String),
}

/// Errors of the text recognition stage.
#[derive(Debug, Clone, PartialEq, Eq)]
pub enum OcrError {
    InitializationError(String),
    ProcessingError(String),
    CaptureError(String),
    ImageProcessingError(String),
    Other(String),
}

/// Errors of the UI theme detection stage.
#[derive(Debug, Clone, PartialEq, Eq)]
pub enum ThemeError {
    DetectionError(String),
    UnsupportedTheme(String),
    Other(String),
}

} // verus!
