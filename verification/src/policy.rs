//! What the launcher does about a failure.

use crate::resolve::AssetError;
use crate::state::{LoadError, SaveError};
use crate::video::VideoError;
use vstd::prelude::*;

verus! {

/// Something that went wrong in a component.
#[derive(Clone, Copy, Debug, PartialEq, Eq, Hash, Structural)]
pub enum Failure {
    /// An asset could not be resolved.
    Asset(AssetError),
    /// A video could not be materialized.
    Video(VideoError),
    /// The saved state could not be loaded.
    Load(LoadError),
    /// The state could not be saved.
    Save(SaveError),
    /// A staged artifact could not be removed.
    Cleanup,
}

/// What the launcher does about a failure.
#[derive(Clone, Copy, Debug, PartialEq, Eq, Hash, Structural)]
pub enum Reaction {
    /// End the process with a diagnostic: the bundle is broken.
    Abort,
    /// Tell the user without blocking, and go on without the result.
    Report,
    /// Go on with the state of a fresh installation.
    UseDefault,
    /// Write it to the log and do nothing else.
    Log,
}

/// The reaction that a failure calls for. Only a broken bundle, one that
/// lacks a required asset, ends the process; a failed load falls back to the
/// default state; a failed cleanup is logged; everything else is reported
/// and the session goes on.
pub open spec fn reaction_spec(failure: Failure) -> Reaction {
    match failure {
        Failure::Asset(AssetError::Missing) => Reaction::Abort,
        Failure::Asset(_) => Reaction::Report,
        Failure::Video(_) => Reaction::Report,
        Failure::Load(_) => Reaction::UseDefault,
        Failure::Save(_) => Reaction::Report,
        Failure::Cleanup => Reaction::Log,
    }
}

/// The reaction that a failure calls for.
pub fn reaction_to(failure: Failure) -> (reaction: Reaction)
    ensures
        reaction == reaction_spec(failure),
        reaction is Abort <==> failure == Failure::Asset(AssetError::Missing),
{
    match failure {
        Failure::Asset(AssetError::Missing) => Reaction::Abort,
        Failure::Asset(_) => Reaction::Report,
        Failure::Video(_) => Reaction::Report,
        Failure::Load(_) => Reaction::UseDefault,
        Failure::Save(_) => Reaction::Report,
        Failure::Cleanup => Reaction::Log,
    }
}

} // verus!
