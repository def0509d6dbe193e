use vstd::prelude::*;
use crate::error::PlayerError;

verus! {

/// The player executables looked up on the search path, in order of preference.
pub const PLAYER_BINARIES: [&'static str; 2] = ["vlc", "cvlc"];

/// Makes the player exit once the single item has played.
pub const PLAY_AND_EXIT_FLAG: &'static str = "--play-and-exit";

/// Keeps the player from overlaying the media title on the video.
pub const NO_TITLE_FLAG: &'static str = "--no-video-title-show";

/// Whether no lookup before position `i` found anything.
pub open spec fn none_before(lookups: Seq<Option<String>>, i: int) -> bool {
    forall|j: int| 0 <= j < i ==> (#[trigger] lookups[j]) is None
}

/// Picks the first executable that the search-path lookup found, one lookup
/// per name of the preference list, or `BinaryNotFound` when none was.
pub fn first_located(lookups: Vec<Option<String>>) -> (r: Result<String, PlayerError>)
    ensures
        match r {
            Ok(path) => exists|i: int|
                0 <= i < lookups@.len() && #[trigger] lookups@[i] == Some(path) && none_before(
                    lookups@,
                    i,
                ),
            Err(e) => e == PlayerError::BinaryNotFound && none_before(lookups@, lookups@.len() as int),
        },
{
    let ghost all = lookups@;
    let n: usize = lookups.len();
    let mut rest = lookups;
    let mut k: usize = 0;
    while rest.len() > 0
        invariant
            k <= all.len(),
            k + rest@.len() == all.len(),
            all.len() == n,
            all == lookups@,
            rest@ == all.skip(k as int),
            forall|j: int| 0 <= j < k ==> (#[trigger] all[j]) is None,
        decreases rest.len(),
    {
        let found = rest.remove(0);
        assert(found == all[k as int]);
        match found {
            Some(path) => {
                assert(all[k as int] == Some(path));
                assert(0 <= k < all.len());
                assert(none_before(all, k as int));
                return Ok(path);
            },
            None => {},
        }
        k = k + 1;
        assert(rest@ =~= all.skip(k as int));
    }
    Err(PlayerError::BinaryNotFound)
}

/// An external player invocation: the executable and its arguments.
pub struct LaunchCommand {
    pub program: String,
    pub args: Vec<String>,
}

/// The arguments that play `url` once, without a title overlay.
pub open spec fn launch_args(url: Seq<char>) -> Seq<Seq<char>> {
    seq![PLAY_AND_EXIT_FLAG@, NO_TITLE_FLAG@, url]
}

/// Builds the invocation of `program` on `url`: the two fixed flags first,
/// the location last.
pub fn launch_command(program: String, url: &str) -> (c: LaunchCommand)
    ensures
        c.program@ == program@,
        c.args@.len() == 3,
        forall|i: int| 0 <= i < 3 ==> (#[trigger] c.args@[i])@ == launch_args(url@)[i],
{
    let mut args: Vec<String> = Vec::new();
    proof {
        reveal_strlit("--play-and-exit");
        reveal_strlit("--no-video-title-show");
    }
    args.push(PLAY_AND_EXIT_FLAG.to_owned());
    args.push(NO_TITLE_FLAG.to_owned());
    args.push(url.to_owned());
    LaunchCommand { program, args }
}

/// Supervises at most one external player process, whose handle is `H`.
pub struct ProcessSlot<H> {
    child: Option<H>,
}

impl<H> ProcessSlot<H> {
    /// The process handle held, if any.
    pub closed spec fn current(&self) -> Option<H> {
        self.child
    }

    /// A slot that tracks no process.
    pub fn new() -> (s: Self)
        ensures
            s.current() is None,
    {
        ProcessSlot { child: None }
    }

    /// Prepares a replacement: hands out the tracked process, to be
    /// terminated before the new one is spawned, and leaves the slot empty.
    pub fn release_for_replacement(&mut self) -> (old_handle: Option<H>)
        ensures
            old_handle == old(self).current(),
            final(self).current() is None,
    {
        self.child.take()
    }

    /// Tracks a newly spawned process. Anything still tracked is handed back
    /// to be terminated, so two processes are never tracked at once.
    pub fn track(&mut self, handle: H) -> (stray: Option<H>)
        ensures
            stray == old(self).current(),
            final(self).current() == Some(handle),
    {
        let stray = self.child.take();
        self.child = Some(handle);
        stray
    }

    /// Stops supervising: hands out the tracked process, if any, to be
    /// terminated, and leaves the slot empty.
    pub fn stop(&mut self) -> (old_handle: Option<H>)
        ensures
            old_handle == old(self).current(),
            final(self).current() is None,
    {
        self.child.take()
    }
}

} // verus!
