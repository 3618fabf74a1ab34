//! Platform distinctions that the supervisor cares about: how the worker
//! executable is named and how a worker process is put down on exit.

use vstd::prelude::*;

verus! {

/// The platforms the supervisor distinguishes. They differ in the worker
/// executable's file name and in their process-termination semantics.
#[derive(Clone, Copy, Debug, PartialEq, Eq, Structural)]
pub enum Platform {
    Windows,
    Unix,
}

/// How the worker process is terminated on application exit.
#[derive(Clone, Copy, Debug, PartialEq, Eq, Structural)]
pub enum TerminationStrategy {
    /// Forcefully end the worker together with every descendant process and
    /// wait for the request to complete before the host exits.
    RecursiveTreeKill,
    /// Signal the worker process directly; the platform reaps descendants on
    /// parent death.
    DirectSignal,
}

pub open spec fn spec_strategy_for(p: Platform) -> TerminationStrategy {
    match p {
        Platform::Windows => TerminationStrategy::RecursiveTreeKill,
        Platform::Unix => TerminationStrategy::DirectSignal,
    }
}

/// The teardown strategy fit for a platform: where the worker's descendants
/// are not reaped automatically the whole process tree is killed and the kill
/// awaited; elsewhere a direct signal to the one process suffices.
pub fn strategy_for(p: Platform) -> (r: TerminationStrategy)
    ensures
        r == spec_strategy_for(p),
{
    match p {
        Platform::Windows => TerminationStrategy::RecursiveTreeKill,
        Platform::Unix => TerminationStrategy::DirectSignal,
    }
}

pub open spec fn spec_worker_binary_name(p: Platform) -> Seq<char> {
    match p {
        Platform::Windows => "tagger-server.exe"@,
        Platform::Unix => "tagger-server"@,
    }
}

/// The file name of the worker executable as it is looked for on each
/// platform.
pub fn worker_binary_name(p: Platform) -> (r: String)
    ensures
        r@ == spec_worker_binary_name(p),
{
    match p {
        Platform::Windows => "tagger-server.exe".to_owned(),
        Platform::Unix => "tagger-server".to_owned(),
    }
}

} // verus!
