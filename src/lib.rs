//! Playback-control core of a desktop media-remote client: display-surface
//! dispatch, track listing, the embedded-engine slot, the external player
//! supervisor and the local-network discovery session.
pub mod engine;
pub mod error;
pub mod discovery;
pub mod process;
pub mod surface;
pub mod tracks;

pub use discovery::{
    DiscoveryEvent, DiscoveryRecord, DiscoverySession, DEFAULT_TIMEOUT_MS, POLL_WAIT_MS, SERVICE_TYPE,
};
pub use error::PlayerError;
pub use surface::{surface_target, SurfaceHandle, SurfaceTarget};
pub use tracks::{
    tracks_from_descriptors, TrackDescriptor, TrackInfo, TrackOption, UNKNOWN_TRACK_NAME,
};
pub use engine::{first_play_step, next_play_step, toggle_pause, EngineSlot, PauseToggle, PlayStep};
pub use process::{
    first_located, launch_command, LaunchCommand, ProcessSlot, NO_TITLE_FLAG, PLAYER_BINARIES,
    PLAY_AND_EXIT_FLAG,
};
