use vstd::prelude::*;

verus! {

/// The label given to a track that the engine reports without a name.
pub const UNKNOWN_TRACK_NAME: &'static str = "Unknown";

/// One node of the engine's native track-descriptor list.
pub struct TrackDescriptor {
    pub id: i32,
    pub name: Option<String>,
}

/// A selectable audio or subtitle track.
pub struct TrackOption {
    pub id: i32,
    pub name: String,
}

/// A snapshot of the tracks on offer and the ones in use.
pub struct TrackInfo {
    pub audio: Vec<TrackOption>,
    pub current_audio: i32,
    pub subtitles: Vec<TrackOption>,
    pub current_subtitle: i32,
}

/// The label shown for a descriptor's optional name.
pub open spec fn label_of(name: Option<String>) -> Seq<char> {
    match name {
        Some(n) => n@,
        None => UNKNOWN_TRACK_NAME@,
    }
}

/// Whether `t` lists the descriptors `d` one for one, in order.
pub open spec fn lists(t: Seq<TrackOption>, d: Seq<TrackDescriptor>) -> bool {
    &&& t.len() == d.len()
    &&& forall|i: int|
        0 <= i < d.len() ==> (#[trigger] t[i]).id == d[i].id && t[i].name@ == label_of(d[i].name)
}

/// Turns every node of a descriptor list, the last one included, into a
/// track option; a node without a name is labelled "Unknown".
pub fn tracks_from_descriptors(descriptors: Vec<TrackDescriptor>) -> (tracks: Vec<TrackOption>)
    ensures
        lists(tracks@, descriptors@),
{
    let ghost d = descriptors@;
    let mut tracks: Vec<TrackOption> = Vec::new();
    let mut rest = descriptors;
    while rest.len() > 0
        invariant
            tracks@.len() <= d.len(),
            rest@ == d.skip(tracks@.len() as int),
            forall|i: int|
                0 <= i < tracks@.len() ==> (#[trigger] tracks@[i]).id == d[i].id && tracks@[i].name@
                    == label_of(d[i].name),
        decreases rest.len(),
    {
        let ghost k = tracks@.len() as int;
        let node = rest.remove(0);
        assert(node == d[k]);
        let name = match node.name {
            Some(n) => n,
            None => {
                proof {
                    reveal_strlit("Unknown");
                }
                UNKNOWN_TRACK_NAME.to_owned()
            },
        };
        tracks.push(TrackOption { id: node.id, name });
        assert(rest@ =~= d.skip(tracks@.len() as int));
    }
    tracks
}

} // verus!
