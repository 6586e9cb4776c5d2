//! The error taxonomy shared by every store operation.

use vstd::prelude::*;
use vstd::string::*;

verus! {

/// Machine-readable error class; the message carries the detail.
#[derive(Debug, Clone, Copy, PartialEq, Eq, Structural)]
pub enum ErrorCode {
    NotFound,
    AlreadyExists,
    PermissionDenied,
    IoError,
    InvalidJson,
    InvalidFormat,
    MigrationFailed,
    VaultNotFound,
    VaultAlreadyExists,
    InvalidVault,
    CanvasNotFound,
    CanvasAlreadyExists,
    InvalidCanvas,
    StateNotFound,
    StateSaveFailed,
    Unknown,
}

/// Unified error value for all store operations.
#[derive(Debug, Clone)]
pub struct MosaicError {
    /// Error code for programmatic handling.
    pub code: ErrorCode,
    /// Human-readable message.
    pub message: String,
    /// Optional context for debugging.
    pub context: Option<String>,
}

impl MosaicError {
    pub fn new(code: ErrorCode, message: &str) -> (r: Self)
        ensures
            r.code == code,
            r.message@ == message@,
            r.context is None,
    {
        MosaicError { code, message: message.to_owned(), context: None }
    }

    pub fn with_context(self, context: &str) -> (r: Self)
        ensures
            r.code == self.code,
            r.message@ == self.message@,
            r.context matches Some(c) && c@ == context@,
    {
        MosaicError { code: self.code, message: self.message, context: Some(context.to_owned()) }
    }

    pub fn not_found(item: &str) -> (r: Self)
        ensures
            r.code == ErrorCode::NotFound,
            r.message@ == item@ + " not found"@,
            r.context is None,
    {
        MosaicError {
            code: ErrorCode::NotFound,
            message: item.to_owned().concat(" not found"),
            context: None,
        }
    }

    pub fn already_exists(item: &str) -> (r: Self)
        ensures
            r.code == ErrorCode::AlreadyExists,
            r.message@ == item@ + " already exists"@,
            r.context is None,
    {
        MosaicError {
            code: ErrorCode::AlreadyExists,
            message: item.to_owned().concat(" already exists"),
            context: None,
        }
    }

    pub fn io_error(detail: &str) -> (r: Self)
        ensures
            r.code == ErrorCode::IoError,
            r.message@ == "I/O error: "@ + detail@,
            r.context is None,
    {
        MosaicError {
            code: ErrorCode::IoError,
            message: "I/O error: ".to_owned().concat(detail),
            context: None,
        }
    }

    pub fn json_error(detail: &str) -> (r: Self)
        ensures
            r.code == ErrorCode::InvalidJson,
            r.message@ == "JSON error: "@ + detail@,
            r.context is None,
    {
        MosaicError {
            code: ErrorCode::InvalidJson,
            message: "JSON error: ".to_owned().concat(detail),
            context: None,
        }
    }

    pub fn vault_not_found(path: &str) -> (r: Self)
        ensures
            r.code == ErrorCode::VaultNotFound,
            r.message@ == "Vault not found at: "@ + path@,
            r.context is None,
    {
        MosaicError {
            code: ErrorCode::VaultNotFound,
            message: "Vault not found at: ".to_owned().concat(path),
            context: None,
        }
    }

    pub fn canvas_not_found(path: &str) -> (r: Self)
        ensures
            r.code == ErrorCode::CanvasNotFound,
            r.message@ == "Canvas not found at: "@ + path@,
            r.context is None,
    {
        MosaicError {
            code: ErrorCode::CanvasNotFound,
            message: "Canvas not found at: ".to_owned().concat(path),
            context: None,
        }
    }
}

/// Result alias used across the store.
pub type MosaicResult<T> = Result<T, MosaicError>;

} // verus!
