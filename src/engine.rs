use vstd::prelude::*;
use crate::error::PlayerError;
use crate::surface::{surface_target, target_of, SurfaceHandle, SurfaceTarget};

verus! {

/// One step of starting playback on the embedded engine, in the order the
/// steps are taken.
#[derive(Clone, Copy, Debug, PartialEq, Eq, Structural)]
pub enum PlayStep {
    /// Build a media resource from the location.
    CreateMedia,
    /// Hand the media resource to the player.
    AttachMedia,
    /// Bind the player to the display surface through this call.
    BindSurface(SurfaceTarget),
    /// Ask the engine to start playing.
    StartPlayback,
    /// The sequence is over: playback started.
    Started,
    /// The sequence is over: it failed with this error.
    Failed(PlayerError),
}

/// The step that follows `step` once it has run and reported `succeeded`.
pub open spec fn step_after(step: PlayStep, surface: SurfaceHandle, succeeded: bool) -> PlayStep {
    match step {
        PlayStep::CreateMedia => if succeeded {
            PlayStep::AttachMedia
        } else {
            PlayStep::Failed(PlayerError::MediaCreation)
        },
        PlayStep::AttachMedia => match target_of(surface) {
            Ok(t) => PlayStep::BindSurface(t),
            Err(e) => PlayStep::Failed(e),
        },
        PlayStep::BindSurface(_) => PlayStep::StartPlayback,
        PlayStep::StartPlayback => if succeeded {
            PlayStep::Started
        } else {
            PlayStep::Failed(PlayerError::PlaybackStart)
        },
        PlayStep::Started => PlayStep::Started,
        PlayStep::Failed(e) => PlayStep::Failed(e),
    }
}

/// The first step of every play request.
pub fn first_play_step() -> (s: PlayStep)
    ensures
        s == PlayStep::CreateMedia,
{
    PlayStep::CreateMedia
}

/// Decides what comes after `step`: a media resource that could not be
/// built ends in `MediaCreation`; the surface is bound again on every play,
/// and a surface that cannot be bound ends the request with its error; a
/// refused start ends in `PlaybackStart`. Attaching and binding cannot fail.
pub fn next_play_step(step: PlayStep, surface: &SurfaceHandle, succeeded: bool) -> (s: PlayStep)
    ensures
        s == step_after(step, *surface, succeeded),
{
    match step {
        PlayStep::CreateMedia => if succeeded {
            PlayStep::AttachMedia
        } else {
            PlayStep::Failed(PlayerError::MediaCreation)
        },
        PlayStep::AttachMedia => match surface_target(surface) {
            Ok(t) => PlayStep::BindSurface(t),
            Err(e) => PlayStep::Failed(e),
        },
        PlayStep::BindSurface(_) => PlayStep::StartPlayback,
        PlayStep::StartPlayback => if succeeded {
            PlayStep::Started
        } else {
            PlayStep::Failed(PlayerError::PlaybackStart)
        },
        PlayStep::Started => PlayStep::Started,
        PlayStep::Failed(e) => PlayStep::Failed(e),
    }
}

/// On a surface that can be bound and with every native call succeeding,
/// a play request creates the media, attaches it, binds the surface, starts
/// playback and succeeds, in that order.
pub proof fn lemma_play_sequence_order(surface: SurfaceHandle, t: SurfaceTarget)
    requires
        target_of(surface) == Ok::<SurfaceTarget, PlayerError>(t),
    ensures
        step_after(PlayStep::CreateMedia, surface, true) == PlayStep::AttachMedia,
        step_after(PlayStep::AttachMedia, surface, true) == PlayStep::BindSurface(t),
        step_after(PlayStep::BindSurface(t), surface, true) == PlayStep::StartPlayback,
        step_after(PlayStep::StartPlayback, surface, true) == PlayStep::Started,
{
}

/// What toggling the pause state does: the pause flag to set and whether
/// the engine plays afterwards.
#[derive(Clone, Copy, Debug, PartialEq, Eq, Structural)]
pub struct PauseToggle {
    pub set_paused: bool,
    pub now_playing: bool,
}

/// Inverts the play state read under the engine's lock: a playing engine is
/// paused and reports `false`, a paused one resumes and reports `true`.
pub fn toggle_pause(playing: bool) -> (t: PauseToggle)
    ensures
        t.set_paused == playing,
        t.now_playing == !playing,
{
    PauseToggle { set_paused: playing, now_playing: !playing }
}

/// The single slot that holds the embedded engine once it has been built.
/// A failed construction is not remembered: the next access tries again.
pub struct EngineSlot<E> {
    engine: Option<E>,
}

/// The slot's content after one access whose construction, if one was
/// attempted, came out as `attempt`.
pub open spec fn slot_after<E>(slot: Option<E>, attempt: Result<E, PlayerError>) -> Option<E> {
    match slot {
        Some(e) => Some(e),
        None => match attempt {
            Ok(e) => Some(e),
            Err(_) => None,
        },
    }
}

impl<E> EngineSlot<E> {
    /// The engine held, if any.
    pub closed spec fn content(&self) -> Option<E> {
        self.engine
    }

    /// An empty slot.
    pub fn new() -> (s: Self)
        ensures
            s.content() is None,
    {
        EngineSlot { engine: None }
    }

    /// Makes sure an engine is present: when the slot is empty, `create` is
    /// called once and its engine kept if it succeeded; a filled slot is
    /// left as it is and `create` is not called. Returns whether an engine
    /// is present afterwards.
    pub fn ensure<F: FnOnce() -> Result<E, PlayerError>>(&mut self, create: F) -> (present: bool)
        requires
            old(self).content() is None ==> create.requires(()),
        ensures
            old(self).content() is Some ==> final(self).content() == old(self).content(),
            old(self).content() is None ==> exists|attempt: Result<E, PlayerError>|
                create.ensures((), attempt) && final(self).content() == slot_after(
                    old(self).content(),
                    attempt,
                ),
            present == final(self).content() is Some,
    {
        if self.engine.is_none() {
            let attempt = create();
            let ghost seen = attempt;
            match attempt {
                Ok(e) => {
                    self.engine = Some(e);
                },
                Err(_) => {},
            }
            assert(create.ensures((), seen) && self.engine == slot_after(None, seen));
        }
        self.engine.is_some()
    }

    /// The engine, or `EngineUnavailable` when the slot is empty.
    pub fn engine(&self) -> (r: Result<&E, PlayerError>)
        ensures
            match self.content() {
                Some(e) => r == Ok::<&E, PlayerError>(&e),
                None => r == Err::<&E, PlayerError>(PlayerError::EngineUnavailable),
            },
    {
        match &self.engine {
            Some(e) => Ok(e),
            None => Err(PlayerError::EngineUnavailable),
        }
    }
}

/// Once a construction has succeeded, a second access keeps that same
/// engine, whatever a construction attempted then would have returned.
pub proof fn lemma_second_access_same_engine<E>(
    e: E,
    first: Result<E, PlayerError>,
    second: Result<E, PlayerError>,
)
    requires
        first == Ok::<E, PlayerError>(e),
    ensures
        slot_after(slot_after(None, first), second) == Some(e),
{
}

} // verus!
