//! Lifecycle supervision for a desktop application's auxiliary pieces: a
//! single-instance worker process (the tagger sidecar) and a single named
//! embedded browser surface composited into the host window, together with
//! the ordered teardown of both on application exit.

use vstd::prelude::*;

pub mod api;
pub mod archive;
pub mod codec;
pub mod overlay;
pub mod platform;
pub mod supervisor;
pub mod text;
pub mod urlcheck;

verus! {

/// The failures the lifecycle operations can report.
#[derive(Clone, Copy, Debug, PartialEq, Eq, Structural)]
pub enum LifecycleError {
    /// The worker executable was absent at both probe locations.
    WorkerNotFound,
    /// The operating system rejected process creation.
    SpawnFailure,
    /// The navigation target was malformed.
    InvalidUrl,
    /// The host window could not create the embedded surface.
    SurfaceCreationFailure,
    /// The host window could not move or resize the embedded surface.
    SurfacePositionFailure,
    /// The host window could not show or hide the embedded surface.
    SurfaceVisibilityFailure,
    /// The worker process could not be terminated.
    TerminationFailure,
}

pub open spec fn spec_error_message(e: LifecycleError) -> Seq<char> {
    match e {
        LifecycleError::WorkerNotFound => "tagger-server not found"@,
        LifecycleError::SpawnFailure => "Failed to spawn sidecar"@,
        LifecycleError::InvalidUrl => "Invalid URL"@,
        LifecycleError::SurfaceCreationFailure => "Failed to create embedded webview"@,
        LifecycleError::SurfacePositionFailure => "Failed to position embedded webview"@,
        LifecycleError::SurfaceVisibilityFailure => "Failed to change webview visibility"@,
        LifecycleError::TerminationFailure => "Failed to terminate worker"@,
    }
}

impl LifecycleError {
    /// A short description, fit for surfacing to the UI.
    pub fn message(&self) -> (r: String)
        ensures
            r@ == spec_error_message(*self),
    {
        match self {
            LifecycleError::WorkerNotFound => "tagger-server not found".to_owned(),
            LifecycleError::SpawnFailure => "Failed to spawn sidecar".to_owned(),
            LifecycleError::InvalidUrl => "Invalid URL".to_owned(),
            LifecycleError::SurfaceCreationFailure => "Failed to create embedded webview".to_owned(),
            LifecycleError::SurfacePositionFailure => "Failed to position embedded webview".to_owned(),
            LifecycleError::SurfaceVisibilityFailure => "Failed to change webview visibility".to_owned(),
            LifecycleError::TerminationFailure => "Failed to terminate worker".to_owned(),
        }
    }
}

} // verus!
