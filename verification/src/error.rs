//! The error taxonomy surfaced to callers.

use vstd::prelude::*;

verus! {

/// Errors surfaced by the audio tap core.
///
/// Every failure is returned as a typed value, never as a process abort; the
/// one deliberate exception is the spectral analyzer's capacity check, which
/// is a caller contract enforced by `requires` clauses instead of an error.
#[derive(Debug, Clone, PartialEq, Eq)]
pub enum Error {
    /// The audio backend could not be reached at startup.
    BackendUnavailable,
    /// No default capture device could be resolved.
    NoDefaultDeviceFound,
    /// The named device is absent from the last enumerated device set.
    DeviceNotFound(String),
    /// The device index lies outside the enumerated device list.
    InvalidDeviceIndex(usize),
    /// A consumer is already registered under this key.
    DuplicateListenerKey(String),
    /// The backend failed to construct the capture stream.
    StreamBuildFailed,
    /// The backend failed to start the capture stream.
    StreamPlaybackFailed,
}

} // verus!
