//! A playlist: a named, ordered list of library tracks, one of which may be
//! selected.

use crate::command::{AudioCommand, AudioCommandView};
use crate::library::{item_views, LibraryItem, LibraryItemView};
use crate::purge::{first_hit, lemma_first_hit_is};
use vstd::prelude::*;

verus! {

/// Accepts the tracks that equal `track`.
pub open spec fn equals(track: LibraryItemView) -> spec_fn(LibraryItem) -> bool {
    |t: LibraryItem| t@ == track
}

#[derive(Debug)]
pub struct Playlist {
    pub name: Option<String>,
    pub tracks: Vec<LibraryItem>,
    pub selected: Option<LibraryItem>,
}

impl Clone for Playlist {
    fn clone(&self) -> (r: Self)
        ensures
            r.name == self.name,
            r.tracks@ == self.tracks@,
            r.selected == self.selected,
    {
        let mut tracks: Vec<LibraryItem> = Vec::new();
        let mut i: usize = 0;
        while i < self.tracks.len()
            invariant
                i <= self.tracks.len(),
                tracks@ == self.tracks@.take(i as int),
            decreases self.tracks.len() - i,
        {
            tracks.push(self.tracks[i].clone());
            assert(self.tracks@.take(i + 1) == self.tracks@.take(i as int).push(
                self.tracks@[i as int],
            ));
            i += 1;
        }
        assert(self.tracks@.take(self.tracks.len() as int) == self.tracks@);
        let name = match &self.name {
            Some(name) => Some(name.clone()),
            None => None,
        };
        let selected = match &self.selected {
            Some(track) => Some(track.clone()),
            None => None,
        };
        Self { name, tracks, selected }
    }
}

impl Playlist {
    /// An empty playlist without a name.
    pub fn new() -> (r: Self)
        ensures
            r.name is None,
            r.tracks@ == Seq::<LibraryItem>::empty(),
            r.selected is None,
    {
        Self { name: None, tracks: vec![], selected: None }
    }

    pub fn set_name(&mut self, name: String)
        ensures
            final(self).name == Some(name),
            final(self).tracks == old(self).tracks,
            final(self).selected == old(self).selected,
    {
        self.name = Some(name);
    }

    pub fn get_name(&self) -> (r: Option<String>)
        ensures
            r == self.name,
    {
        match &self.name {
            Some(name) => Some(name.clone()),
            None => None,
        }
    }

    /// Adds a track at the end.
    pub fn add(&mut self, track: LibraryItem)
        ensures
            final(self).tracks@ == old(self).tracks@.push(track),
            final(self).name == old(self).name,
            final(self).selected == old(self).selected,
    {
        self.tracks.push(track);
    }

    /// Takes the track at `idx` out; the tracks behind it move up.
    pub fn remove(&mut self, idx: usize)
        requires
            idx < old(self).tracks.len(),
        ensures
            final(self).tracks@ == old(self).tracks@.remove(idx as int),
            final(self).name == old(self).name,
            final(self).selected == old(self).selected,
    {
        self.tracks.remove(idx);
    }

    /// Moves the track at `current_pos` so that it stands at
    /// `destination_pos`; the tracks in between shift by one.
    pub fn reorder(&mut self, current_pos: usize, destination_pos: usize)
        requires
            current_pos < old(self).tracks.len(),
            destination_pos < old(self).tracks.len(),
        ensures
            final(self).tracks@ == old(self).tracks@.remove(current_pos as int).insert(
                destination_pos as int,
                old(self).tracks@[current_pos as int],
            ),
            final(self).tracks@.len() == old(self).tracks@.len(),
            final(self).tracks@[destination_pos as int] == old(self).tracks@[current_pos as int],
            final(self).name == old(self).name,
            final(self).selected == old(self).selected,
    {
        let track = self.tracks.remove(current_pos);
        self.tracks.insert(destination_pos, track);
    }

    /// Selects the track at `idx` and returns the command that makes the audio
    /// engine load its file.
    pub fn select(&mut self, idx: usize) -> (command: AudioCommand)
        requires
            idx < old(self).tracks.len(),
        ensures
            command@ == AudioCommandView::LoadFile(old(self).tracks@[idx as int]@.path),
            final(self).selected == Some(old(self).tracks@[idx as int]),
            final(self).tracks == old(self).tracks,
            final(self).name == old(self).name,
    {
        let track = self.tracks[idx].clone();
        let path = track.path();
        self.selected = Some(track);
        AudioCommand::LoadFile(path)
    }

    /// The position of the first track that equals `track`, if there is one.
    pub fn get_pos(&self, track: &LibraryItem) -> (r: Option<usize>)
        ensures
            match r {
                Some(i) => i < self.tracks.len() && i == first_hit(self.tracks@, equals(track@)),
                None => first_hit(self.tracks@, equals(track@)) == self.tracks.len(),
            },
            r is Some <==> item_views(self.tracks@).contains(track@),
    {
        let mut i: usize = 0;
        while i < self.tracks.len()
            invariant
                i <= self.tracks.len(),
                forall|j: int| 0 <= j < i ==> !equals(track@)(#[trigger] self.tracks@[j]),
            decreases self.tracks.len() - i,
        {
            if self.tracks[i] == *track {
                proof {
                    lemma_first_hit_is(self.tracks@, equals(track@), i as int);
                    assert(item_views(self.tracks@)[i as int] == track@);
                }
                return Some(i);
            }
            i += 1;
        }
        proof {
            lemma_first_hit_is(self.tracks@, equals(track@), i as int);
            if item_views(self.tracks@).contains(track@) {
                let k = choose|k: int|
                    0 <= k < item_views(self.tracks@).len() && item_views(self.tracks@)[k]
                        == track@;
                assert(equals(track@)(self.tracks@[k]));
            }
        }
        None
    }
}

} // verus!
