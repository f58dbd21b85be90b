//! The failures that end one record-upload-notify cycle.

use vstd::prelude::*;

verus! {

/// Why a cycle stopped.
#[derive(Debug, Clone, Copy, PartialEq, Eq, Structural)]
pub enum PipelineError {
    /// No audio input device, or a GPIO line, could be had.
    DeviceUnavailable,
    /// The device or the container cannot take the requested format.
    FormatRejected,
    /// The container could not be completed or stored.
    IoFailure,
    /// The sink was already finalized.
    AlreadyFinalized,
    /// The credential exchange failed.
    AuthFailure,
    /// The upload was refused, or its response is not well-formed JSON.
    UploadFailure,
    /// The upload response holds no usable object identifier.
    MissingObjectId,
    /// The telemetry transport failed to connect or publish.
    TelemetryFailure,
}

} // verus!
