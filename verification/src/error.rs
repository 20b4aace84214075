//! Error kinds reported by cache operations.

use vstd::prelude::*;

verus! {

/// Why a cache operation failed.
///
/// `NotFound`: the key is absent, or was present but expired and has been
/// evicted as a side effect of the lookup. `InvalidData`: the entry file is
/// shorter than the fixed 10-byte header (the offending file is deleted,
/// best effort). `WorkerClosed`: the operation could not be delivered to or
/// answered by its worker or janitor thread. `Io`: an underlying filesystem
/// failure. `LockAcquisition`: the process-exclusivity lock could not be
/// obtained at startup; this is the only startup-fatal kind.
#[derive(Clone, Copy, Debug, PartialEq, Eq, Structural)]
pub enum Error {
    Io,
    LockAcquisition,
    NotFound,
    InvalidData,
    WorkerClosed,
}

impl Error {
    /// A short description of the failure, one fixed sentence per kind.
    pub fn describe(&self) -> (r: String)
        ensures
            *self is Io ==> r@ == "filesystem operation failed"@,
            *self is LockAcquisition ==> r@ == "cache root is locked by another process"@,
            *self is NotFound ==> r@ == "cache not found or expired"@,
            *self is InvalidData ==> r@ == "cache data is invalid or corrupted"@,
            *self is WorkerClosed ==> r@ == "worker response channel closed"@,
    {
        match self {
            Error::Io => "filesystem operation failed".to_owned(),
            Error::LockAcquisition => "cache root is locked by another process".to_owned(),
            Error::NotFound => "cache not found or expired".to_owned(),
            Error::InvalidData => "cache data is invalid or corrupted".to_owned(),
            Error::WorkerClosed => "worker response channel closed".to_owned(),
        }
    }
}

} // verus!
