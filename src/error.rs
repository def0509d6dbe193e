use vstd::prelude::*;

verus! {

/// Every failure that the playback core reports to its caller.
#[derive(Clone, Copy, Debug, PartialEq, Eq, Structural)]
pub enum PlayerError {
    /// The native engine instance or its media player could not be constructed.
    Init,
    /// Internal synchronization could not be acquired.
    Lock,
    /// The display-surface handle has no binding strategy.
    UnsupportedPlatform,
    /// The display-surface handle exists but the host has not realized it yet.
    SurfaceUnavailable,
    /// The location could not be turned into a playable media resource.
    MediaCreation,
    /// The native engine refused to start playback.
    PlaybackStart,
    /// No external player executable was found on the search path.
    BinaryNotFound,
    /// The external player process could not be spawned.
    Spawn,
    /// The embedded engine is not present in its slot.
    EngineUnavailable,
    /// The discovery subscription could not be established.
    DiscoveryInit,
}

} // verus!
