//! A playlist of bare tracks.

use crate::purge::{first_hit, lemma_first_hit_is};
use vstd::prelude::*;

verus! {

/// A track: the path of its file.
#[derive(Debug, Eq)]
pub struct Track {
    pub path: String,
}

impl View for Track {
    type V = Seq<char>;

    open spec fn view(&self) -> Seq<char> {
        self.path@
    }
}

impl Clone for Track {
    fn clone(&self) -> (r: Self)
        ensures
            r == *self,
    {
        Track { path: self.path.clone() }
    }
}

impl PartialEq for Track {
    fn eq(&self, other: &Self) -> (r: bool) {
        self.path == other.path
    }
}

impl vstd::std_specs::cmp::PartialEqSpecImpl for Track {
    open spec fn obeys_eq_spec() -> bool {
        true
    }

    open spec fn eq_spec(&self, other: &Self) -> bool {
        self@ == other@
    }
}

/// Accepts the tracks at `path`.
pub open spec fn lies_at(path: Seq<char>) -> spec_fn(Track) -> bool {
    |t: Track| t@ == path
}

/// The paths of a sequence of tracks.
pub open spec fn track_paths(tracks: Seq<Track>) -> Seq<Seq<char>> {
    tracks.map_values(|t: Track| t@)
}

#[derive(Debug)]
pub struct Playlist {
    pub name: Option<String>,
    pub tracks: Vec<Track>,
    pub selected: Option<Track>,
}

impl Clone for Playlist {
    fn clone(&self) -> (r: Self)
        ensures
            r.name == self.name,
            r.tracks@ == self.tracks@,
            r.selected == self.selected,
    {
        let mut tracks: Vec<Track> = Vec::new();
        let mut i: usize = 0;
        while i < self.tracks.len()
            invariant
                i <= self.tracks.len(),
                tracks@ == self.tracks@.take(i as int),
            decreases self.tracks.len() - i,
        {
            tracks.push(self.tracks[i].clone());
            assert(self.tracks@.take(i + 1) == self.tracks@.take(i as int).push(
                self.tracks@[i as int],
            ));
            i += 1;
        }
        assert(self.tracks@.take(self.tracks.len() as int) == self.tracks@);
        let name = match &self.name {
            Some(name) => Some(name.clone()),
            None => None,
        };
        let selected = match &self.selected {
            Some(track) => Some(track.clone()),
            None => None,
        };
        Self { name, tracks, selected }
    }
}

impl Playlist {
    /// An empty playlist without a name.
    pub fn new() -> (r: Self)
        ensures
            r.name is None,
            r.tracks@ == Seq::<Track>::empty(),
            r.selected is None,
    {
        Self { name: None, tracks: vec![], selected: None }
    }

    pub fn set_name(&mut self, name: String)
        ensures
            final(self).name == Some(name),
            final(self).tracks == old(self).tracks,
            final(self).selected == old(self).selected,
    {
        self.name = Some(name);
    }

    pub fn get_name(&self) -> (r: Option<String>)
        ensures
            r == self.name,
    {
        match &self.name {
            Some(name) => Some(name.clone()),
            None => None,
        }
    }

    /// Adds a track at the end.
    pub fn add(&mut self, track: Track)
        ensures
            final(self).tracks@ == old(self).tracks@.push(track),
            final(self).name == old(self).name,
            final(self).selected == old(self).selected,
    {
        self.tracks.push(track);
    }

    /// Takes the track at `idx` out; the tracks behind it move up.
    pub fn remove(&mut self, idx: usize)
        requires
            idx < old(self).tracks.len(),
        ensures
            final(self).tracks@ == old(self).tracks@.remove(idx as int),
            final(self).name == old(self).name,
            final(self).selected == old(self).selected,
    {
        self.tracks.remove(idx);
    }

    /// Moves the track at `current_pos` so that it stands at
    /// `destination_pos`; the tracks in between shift by one.
    pub fn reorder(&mut self, current_pos: usize, destination_pos: usize)
        requires
            current_pos < old(self).tracks.len(),
            destination_pos < old(self).tracks.len(),
        ensures
            final(self).tracks@ == old(self).tracks@.remove(current_pos as int).insert(
                destination_pos as int,
                old(self).tracks@[current_pos as int],
            ),
            final(self).tracks@.len() == old(self).tracks@.len(),
            final(self).tracks@[destination_pos as int] == old(self).tracks@[current_pos as int],
            final(self).name == old(self).name,
            final(self).selected == old(self).selected,
    {
        let track = self.tracks.remove(current_pos);
        self.tracks.insert(destination_pos, track);
    }

    /// Selects the track at `idx`.
    pub fn select(&mut self, idx: usize)
        requires
            idx < old(self).tracks.len(),
        ensures
            final(self).selected == Some(old(self).tracks@[idx as int]),
            final(self).tracks == old(self).tracks,
            final(self).name == old(self).name,
    {
        self.selected = Some(self.tracks[idx].clone());
    }

    /// The position of the first track at the path of `track`, if there is
    /// one.
    pub fn get_pos(&self, track: &Track) -> (r: Option<usize>)
        ensures
            match r {
                Some(i) => i < self.tracks.len() && i == first_hit(self.tracks@, lies_at(track@)),
                None => first_hit(self.tracks@, lies_at(track@)) == self.tracks.len(),
            },
            r is Some <==> track_paths(self.tracks@).contains(track@),
    {
        let mut i: usize = 0;
        while i < self.tracks.len()
            invariant
                i <= self.tracks.len(),
                forall|j: int| 0 <= j < i ==> !lies_at(track@)(#[trigger] self.tracks@[j]),
            decreases self.tracks.len() - i,
        {
            if self.tracks[i] == *track {
                proof {
                    lemma_first_hit_is(self.tracks@, lies_at(track@), i as int);
                    assert(track_paths(self.tracks@)[i as int] == track@);
                }
                return Some(i);
            }
            i += 1;
        }
        proof {
            lemma_first_hit_is(self.tracks@, lies_at(track@), i as int);
            if track_paths(self.tracks@).contains(track@) {
                let k = choose|k: int|
                    0 <= k < track_paths(self.tracks@).len() && track_paths(self.tracks@)[k]
                        == track@;
                assert(lies_at(track@)(self.tracks@[k]));
            }
        }
        None
    }
}

} // verus!
