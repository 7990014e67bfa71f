//! A library read from one directory.

use crate::library::{as_text, slice_text_of, text_of, ScannedFile};
use vstd::prelude::*;

verus! {

/// What a [`LibraryItem`] holds, as plain values.
pub struct LibraryItemView {
    pub path: Seq<char>,
    pub title: Option<Seq<char>>,
    pub artist: Option<Seq<char>>,
    pub album: Option<Seq<char>>,
    pub year: Option<i32>,
    pub genre: Option<Seq<char>>,
    pub track_number: Option<u32>,
}

/// One track of the library: where its file is and what its tags say.
#[derive(Debug, PartialEq, Eq)]
pub struct LibraryItem {
    path: String,
    title: Option<String>,
    artist: Option<String>,
    album: Option<String>,
    year: Option<i32>,
    genre: Option<String>,
    track_number: Option<u32>,
}

impl View for LibraryItem {
    type V = LibraryItemView;

    closed spec fn view(&self) -> LibraryItemView {
        LibraryItemView {
            path: self.path@,
            title: text_of(self.title),
            artist: text_of(self.artist),
            album: text_of(self.album),
            year: self.year,
            genre: text_of(self.genre),
            track_number: self.track_number,
        }
    }
}

fn clone_text(s: &Option<String>) -> (r: Option<String>)
    ensures
        r == *s,
{
    match s {
        Some(s) => Some(s.clone()),
        None => None,
    }
}

impl Clone for LibraryItem {
    fn clone(&self) -> (r: Self)
        ensures
            r == *self,
    {
        Self {
            path: self.path.clone(),
            title: clone_text(&self.title),
            artist: clone_text(&self.artist),
            album: clone_text(&self.album),
            year: self.year,
            genre: clone_text(&self.genre),
            track_number: self.track_number,
        }
    }
}

/// The track that a scanned file makes: it has what the tags say, and
/// nothing where the tags could not be read.
pub open spec fn scanned(file: ScannedFile) -> LibraryItemView {
    match file.tags {
        Some(tags) => LibraryItemView {
            path: file.path@,
            title: text_of(tags.title),
            artist: text_of(tags.artist),
            album: text_of(tags.album),
            year: tags.year,
            genre: text_of(tags.genre),
            track_number: tags.track_number,
        },
        None => LibraryItemView {
            path: file.path@,
            title: None,
            artist: None,
            album: None,
            year: None,
            genre: None,
            track_number: None,
        },
    }
}

impl LibraryItem {
    /// A track at `path` with no tags yet.
    pub fn new(path: String) -> (r: Self)
        ensures
            r@ == (LibraryItemView {
                path: path@,
                title: None,
                artist: None,
                album: None,
                year: None,
                genre: None,
                track_number: None,
            }),
    {
        Self {
            path,
            title: None,
            artist: None,
            album: None,
            year: None,
            genre: None,
            track_number: None,
        }
    }

    pub fn path(&self) -> (r: String)
        ensures
            r@ == self@.path,
    {
        self.path.clone()
    }

    /// Sets the title if one is given, keeps the old one otherwise, and
    /// returns a copy of the track as it then is.
    pub fn set_title(&mut self, title: Option<&str>) -> (r: Self)
        ensures
            final(self)@ == (LibraryItemView {
                title: if title is Some {
                    slice_text_of(title)
                } else {
                    old(self)@.title
                },
                ..old(self)@
            }),
            r == *final(self),
    {
        if let Some(title) = title {
            self.title = Some(title.to_owned());
        }
        self.clone()
    }

    pub fn title(&self) -> (r: Option<String>)
        ensures
            text_of(r) == self@.title,
    {
        clone_text(&self.title)
    }

    /// Sets the artist if one is given, keeps the old one otherwise, and
    /// returns a copy of the track as it then is.
    pub fn set_artist(&mut self, artist: Option<&str>) -> (r: Self)
        ensures
            final(self)@ == (LibraryItemView {
                artist: if artist is Some {
                    slice_text_of(artist)
                } else {
                    old(self)@.artist
                },
                ..old(self)@
            }),
            r == *final(self),
    {
        if let Some(artist) = artist {
            self.artist = Some(artist.to_owned());
        }
        self.clone()
    }

    pub fn artist(&self) -> (r: Option<String>)
        ensures
            text_of(r) == self@.artist,
    {
        clone_text(&self.artist)
    }

    /// Sets the album if one is given, keeps the old one otherwise, and
    /// returns a copy of the track as it then is.
    pub fn set_album(&mut self, album: Option<&str>) -> (r: Self)
        ensures
            final(self)@ == (LibraryItemView {
                album: if album is Some {
                    slice_text_of(album)
                } else {
                    old(self)@.album
                },
                ..old(self)@
            }),
            r == *final(self),
    {
        if let Some(album) = album {
            self.album = Some(album.to_owned());
        }
        self.clone()
    }

    pub fn album(&self) -> (r: Option<String>)
        ensures
            text_of(r) == self@.album,
    {
        clone_text(&self.album)
    }

    /// Replaces the year, also by none, and returns a copy of the track as
    /// it then is.
    pub fn set_year(&mut self, year: Option<i32>) -> (r: Self)
        ensures
            final(self)@ == (LibraryItemView { year, ..old(self)@ }),
            r == *final(self),
    {
        self.year = year;
        self.clone()
    }

    pub fn year(&self) -> (r: Option<i32>)
        ensures
            r == self@.year,
    {
        self.year
    }

    /// Sets the genre if one is given, keeps the old one otherwise, and
    /// returns a copy of the track as it then is.
    pub fn set_genre(&mut self, genre: Option<&str>) -> (r: Self)
        ensures
            final(self)@ == (LibraryItemView {
                genre: if genre is Some {
                    slice_text_of(genre)
                } else {
                    old(self)@.genre
                },
                ..old(self)@
            }),
            r == *final(self),
    {
        if let Some(genre) = genre {
            self.genre = Some(genre.to_owned());
        }
        self.clone()
    }

    pub fn genre(&self) -> (r: Option<String>)
        ensures
            text_of(r) == self@.genre,
    {
        clone_text(&self.genre)
    }

    /// Replaces the track number, also by none, and returns a copy of the
    /// track as it then is.
    pub fn set_track_number(&mut self, track_number: Option<u32>) -> (r: Self)
        ensures
            final(self)@ == (LibraryItemView { track_number, ..old(self)@ }),
            r == *final(self),
    {
        self.track_number = track_number;
        self.clone()
    }

    pub fn track_number(&self) -> (r: Option<u32>)
        ensures
            r == self@.track_number,
    {
        self.track_number
    }

    /// Makes the track of a scanned file.
    pub fn from_scan(file: &ScannedFile) -> (r: Self)
        ensures
            r@ == scanned(*file),
    {
        let mut item = LibraryItem::new(file.path.clone());
        match &file.tags {
            Some(tags) => {
                item.set_title(as_text(&tags.title));
                item.set_artist(as_text(&tags.artist));
                item.set_album(as_text(&tags.album));
                item.set_year(tags.year);
                item.set_genre(as_text(&tags.genre));
                item.set_track_number(tags.track_number)
            },
            None => item,
        }
    }
}

/// The tracks that scanned files make, in the order of the files.
pub open spec fn scanned_all(files: Seq<ScannedFile>) -> Seq<LibraryItemView> {
    files.map_values(|f: ScannedFile| scanned(f))
}

/// The views of a sequence of tracks.
pub open spec fn item_views(items: Seq<LibraryItem>) -> Seq<LibraryItemView> {
    items.map_values(|item: LibraryItem| item@)
}

#[derive(Debug)]
pub struct Library {
    root_path: String,
    items: Option<Vec<LibraryItem>>,
}

impl Library {
    /// The directory the library is read from.
    pub closed spec fn root(&self) -> Seq<char> {
        self.root_path@
    }

    /// The tracks of the library, once it has been built.
    pub closed spec fn item_seq(&self) -> Option<Seq<LibraryItem>> {
        match self.items {
            Some(items) => Some(items@),
            None => None,
        }
    }

    /// A library of the directory `root_path` that has not been built yet.
    pub fn new(root_path: String) -> (r: Self)
        ensures
            r.root() == root_path@,
            r.item_seq() is None,
    {
        Self { root_path, items: None }
    }

    /// Builds the library from the files that a scan of its directory found:
    /// one track for each, in their order. What the library held before is
    /// replaced.
    pub fn build(&mut self, files: &Vec<ScannedFile>)
        ensures
            final(self).root() == old(self).root(),
            final(self).item_seq() matches Some(items) && item_views(items) == scanned_all(
                files@,
            ),
    {
        let mut items: Vec<LibraryItem> = Vec::new();
        let mut i: usize = 0;
        while i < files.len()
            invariant
                i <= files.len(),
                items@.len() == i,
                forall|k: int| 0 <= k < i ==> (#[trigger] items@[k])@ == scanned(files@[k]),
            decreases files.len() - i,
        {
            let library_item = LibraryItem::from_scan(&files[i]);
            items.push(library_item);
            i += 1;
        }
        assert(item_views(items@) =~= scanned_all(files@));
        self.items = Some(items);
    }

    pub fn root_path(&self) -> (r: String)
        ensures
            r@ == self.root(),
    {
        self.root_path.clone()
    }

    /// A copy of the tracks of the library, once it has been built.
    pub fn items(&self) -> (r: Option<Vec<LibraryItem>>)
        ensures
            match (r, self.item_seq()) {
                (Some(copy), Some(items)) => copy@ == items,
                (None, None) => true,
                _ => false,
            },
    {
        match &self.items {
            Some(items) => {
                let mut copy: Vec<LibraryItem> = Vec::new();
                let mut i: usize = 0;
                while i < items.len()
                    invariant
                        i <= items.len(),
                        copy@ == items@.take(i as int),
                    decreases items.len() - i,
                {
                    copy.push(items[i].clone());
                    assert(items@.take(i + 1) == items@.take(i as int).push(items@[i as int]));
                    i += 1;
                }
                assert(items@.take(items.len() as int) == items@);
                Some(copy)
            },
            None => None,
        }
    }
}

} // verus!
