//! The track library: the directories it was built from, the tracks found in
//! them and the grouped view that the browser shows.

use crate::purge::{first_hit, lemma_first_hit_is, purged, swap_removed};
use rand::Rng;
use vstd::prelude::*;

verus! {

/// Identifies one library directory. Every track remembers the directory it
/// was imported from through this id.
#[derive(Debug, Clone, Copy, PartialEq, Eq, Hash, Structural)]
pub struct LibraryPathId(usize);

impl View for LibraryPathId {
    type V = usize;

    closed spec fn view(&self) -> usize {
        self.0
    }
}

impl LibraryPathId {
    /// The id of the number `id`. There is one id of each number.
    pub fn new(id: usize) -> (r: Self)
        ensures
            r@ == id,
            forall|other: Self| #[trigger] other@ == id ==> other == r,
    {
        Self(id)
    }

    /// The number this id was made from.
    pub fn value(&self) -> (v: usize)
        ensures
            v == self@,
    {
        self.0
    }

    /// An id is its number and nothing else: two ids are the same id
    /// exactly when they were made from the same number.
    pub proof fn lemma_same_number_same_id(a: Self, b: Self)
        ensures
            (a@ == b@) == (a == b),
    {
    }
}

/// Draws a fresh key from `rand::thread_rng().gen()`. The value is random, so
/// nothing is claimed of it.
#[verifier::external_body]
fn random_key() -> usize {
    rand::thread_rng().gen()
}

/// Whether the files under a library directory have been imported yet.
#[derive(Debug, Clone, Copy, PartialEq, Eq, Hash, Structural)]
pub enum LibraryPathStatus {
    NotImported,
    Imported,
}

/// The view of an optional string: the characters it holds, if any.
pub open spec fn text_of(s: Option<String>) -> Option<Seq<char>> {
    match s {
        Some(s) => Some(s@),
        None => None,
    }
}

/// The view of an optional string slice.
pub open spec fn slice_text_of(s: Option<&str>) -> Option<Seq<char>> {
    match s {
        Some(s) => Some(s@),
        None => None,
    }
}

fn clone_text(s: &Option<String>) -> (r: Option<String>)
    ensures
        r == *s,
{
    match s {
        Some(s) => Some(s.clone()),
        None => None,
    }
}

fn same_text(a: &Option<String>, b: &Option<String>) -> (r: bool)
    ensures
        r == (text_of(*a) == text_of(*b)),
{
    match (a, b) {
        (Some(a), Some(b)) => *a == *b,
        (None, None) => true,
        _ => false,
    }
}

/// What a [`LibraryPath`] holds, as plain values.
pub struct LibraryPathView {
    pub id: LibraryPathId,
    pub path: Seq<char>,
    pub status: LibraryPathStatus,
}

/// One directory of the library.
#[derive(Debug, PartialEq, Eq, Hash)]
pub struct LibraryPath {
    id: LibraryPathId,
    path: String,
    status: LibraryPathStatus,
}

impl View for LibraryPath {
    type V = LibraryPathView;

    closed spec fn view(&self) -> LibraryPathView {
        LibraryPathView { id: self.id, path: self.path@, status: self.status }
    }
}

impl Clone for LibraryPath {
    fn clone(&self) -> (r: Self)
        ensures
            r == *self,
    {
        Self { id: self.id, path: self.path.clone(), status: self.status }
    }
}

impl LibraryPath {
    /// A directory that has not been imported yet, under a fresh random id.
    pub fn new(path: String) -> (r: Self)
        ensures
            r@.path == path@,
            r@.status == LibraryPathStatus::NotImported,
    {
        Self { path, status: LibraryPathStatus::NotImported, id: LibraryPathId::new(random_key()) }
    }

    /// A directory under a given id and status, as read back from storage.
    pub fn from_parts(id: LibraryPathId, path: String, status: LibraryPathStatus) -> (r: Self)
        ensures
            r@ == (LibraryPathView { id, path: path@, status }),
    {
        Self { id, path, status }
    }

    pub fn id(&self) -> (r: LibraryPathId)
        ensures
            r == self@.id,
    {
        self.id
    }

    pub fn path(&self) -> (r: &String)
        ensures
            r@ == self@.path,
    {
        &self.path
    }

    pub fn status(&self) -> (r: LibraryPathStatus)
        ensures
            r == self@.status,
    {
        self.status
    }

    pub fn set_status(&mut self, status: LibraryPathStatus)
        ensures
            final(self)@ == (LibraryPathView { status, ..old(self)@ }),
    {
        self.status = status;
    }
}

/// What the tags of a file say, as far as the library keeps it.
#[derive(Debug, PartialEq, Eq)]
pub struct TrackTags {
    pub title: Option<String>,
    pub artist: Option<String>,
    pub album: Option<String>,
    pub year: Option<i32>,
    pub genre: Option<String>,
    pub track_number: Option<u32>,
}

/// A file that a scan of a directory found: its path, and its tags where
/// they could be read.
#[derive(Debug, PartialEq, Eq)]
pub struct ScannedFile {
    pub path: String,
    pub tags: Option<TrackTags>,
}

/// An optional string as an optional slice.
pub fn as_text(s: &Option<String>) -> (r: Option<&str>)
    ensures
        slice_text_of(r) == text_of(*s),
{
    match s {
        Some(s) => Some(s.as_str()),
        None => None,
    }
}

/// What a [`LibraryItem`] holds, as plain values.
pub struct LibraryItemView {
    pub library_id: LibraryPathId,
    pub path: Seq<char>,
    pub title: Option<Seq<char>>,
    pub artist: Option<Seq<char>>,
    pub album: Option<Seq<char>>,
    pub year: Option<i32>,
    pub genre: Option<Seq<char>>,
    pub track_number: Option<u32>,
    pub key: usize,
}

/// One track of the library: where its file is and what its tags say.
#[derive(Debug, Eq)]
pub struct LibraryItem {
    library_id: LibraryPathId,
    path: String,
    title: Option<String>,
    artist: Option<String>,
    album: Option<String>,
    year: Option<i32>,
    genre: Option<String>,
    track_number: Option<u32>,
    key: usize,
}

impl View for LibraryItem {
    type V = LibraryItemView;

    closed spec fn view(&self) -> LibraryItemView {
        LibraryItemView {
            library_id: self.library_id,
            path: self.path@,
            title: text_of(self.title),
            artist: text_of(self.artist),
            album: text_of(self.album),
            year: self.year,
            genre: text_of(self.genre),
            track_number: self.track_number,
            key: self.key,
        }
    }
}

impl Clone for LibraryItem {
    fn clone(&self) -> (r: Self)
        ensures
            r == *self,
    {
        Self {
            library_id: self.library_id,
            path: self.path.clone(),
            title: clone_text(&self.title),
            artist: clone_text(&self.artist),
            album: clone_text(&self.album),
            year: self.year,
            genre: clone_text(&self.genre),
            track_number: self.track_number,
            key: self.key,
        }
    }
}

impl PartialEq for LibraryItem {
    fn eq(&self, other: &Self) -> (r: bool) {
        let same_year = match (self.year, other.year) {
            (Some(a), Some(b)) => a == b,
            (None, None) => true,
            _ => false,
        };
        let same_number = match (self.track_number, other.track_number) {
            (Some(a), Some(b)) => a == b,
            (None, None) => true,
            _ => false,
        };
        self.library_id == other.library_id && self.path == other.path && same_text(
            &self.title,
            &other.title,
        ) && same_text(&self.artist, &other.artist) && same_text(&self.album, &other.album)
            && same_year && same_text(&self.genre, &other.genre) && same_number && self.key
            == other.key
    }
}

impl vstd::std_specs::cmp::PartialEqSpecImpl for LibraryItem {
    open spec fn obeys_eq_spec() -> bool {
        true
    }

    open spec fn eq_spec(&self, other: &Self) -> bool {
        self@ == other@
    }
}

impl LibraryItem {
    /// A track at `path` that belongs to the directory `library_id`, with no
    /// tags yet and a fresh random key.
    pub fn new(path: String, library_id: LibraryPathId) -> (r: Self)
        ensures
            r@ == (LibraryItemView {
                library_id,
                path: path@,
                title: None,
                artist: None,
                album: None,
                year: None,
                genre: None,
                track_number: None,
                key: r@.key,
            }),
    {
        Self {
            library_id,
            path,
            title: None,
            artist: None,
            album: None,
            year: None,
            genre: None,
            track_number: None,
            key: random_key(),
        }
    }

    /// The same track under a given key, as read back from storage.
    pub fn with_key(self, key: usize) -> (r: Self)
        ensures
            r@ == (LibraryItemView { key, ..self@ }),
    {
        let mut item = self;
        item.key = key;
        item
    }

    /// The track that a scanned file makes in the directory `library_id`
    /// under the key `key`: it has what the tags say, and nothing where the
    /// tags could not be read.
    pub open spec fn scanned(
        file: ScannedFile,
        library_id: LibraryPathId,
        key: usize,
    ) -> LibraryItemView {
        match file.tags {
            Some(tags) => LibraryItemView {
                library_id,
                path: file.path@,
                title: text_of(tags.title),
                artist: text_of(tags.artist),
                album: text_of(tags.album),
                year: tags.year,
                genre: text_of(tags.genre),
                track_number: tags.track_number,
                key,
            },
            None => LibraryItemView {
                library_id,
                path: file.path@,
                title: None,
                artist: None,
                album: None,
                year: None,
                genre: None,
                track_number: None,
                key,
            },
        }
    }

    /// Makes the track of a scanned file, under a fresh random key.
    pub fn from_scan(file: &ScannedFile, library_id: LibraryPathId) -> (r: Self)
        ensures
            r@ == Self::scanned(*file, library_id, r@.key),
    {
        let mut item = LibraryItem::new(file.path.clone(), library_id);
        match &file.tags {
            Some(tags) => {
                item.set_title(as_text(&tags.title));
                item.set_artist(as_text(&tags.artist));
                item.set_album(as_text(&tags.album));
                item.set_year(tags.year);
                item.set_genre(as_text(&tags.genre));
                item.set_track_number(tags.track_number)
            },
            None => item,
        }
    }

    pub fn library_id(&self) -> (r: LibraryPathId)
        ensures
            r == self@.library_id,
    {
        self.library_id
    }

    pub fn path(&self) -> (r: String)
        ensures
            r@ == self@.path,
    {
        self.path.clone()
    }

    pub fn key(&self) -> (r: usize)
        ensures
            r == self@.key,
    {
        self.key
    }

    /// Sets the title if one is given, keeps the old one otherwise, and
    /// returns a copy of the track as it then is.
    pub fn set_title(&mut self, title: Option<&str>) -> (r: Self)
        ensures
            final(self)@ == (LibraryItemView {
                title: if title is Some {
                    slice_text_of(title)
                } else {
                    old(self)@.title
                },
                ..old(self)@
            }),
            r == *final(self),
    {
        if let Some(title) = title {
            self.title = Some(title.to_owned());
        }
        self.clone()
    }

    pub fn title(&self) -> (r: Option<String>)
        ensures
            text_of(r) == self@.title,
    {
        clone_text(&self.title)
    }

    /// Sets the artist if one is given, keeps the old one otherwise, and
    /// returns a copy of the track as it then is.
    pub fn set_artist(&mut self, artist: Option<&str>) -> (r: Self)
        ensures
            final(self)@ == (LibraryItemView {
                artist: if artist is Some {
                    slice_text_of(artist)
                } else {
                    old(self)@.artist
                },
                ..old(self)@
            }),
            r == *final(self),
    {
        if let Some(artist) = artist {
            self.artist = Some(artist.to_owned());
        }
        self.clone()
    }

    pub fn artist(&self) -> (r: Option<String>)
        ensures
            text_of(r) == self@.artist,
    {
        clone_text(&self.artist)
    }

    /// Sets the album if one is given, keeps the old one otherwise, and
    /// returns a copy of the track as it then is.
    pub fn set_album(&mut self, album: Option<&str>) -> (r: Self)
        ensures
            final(self)@ == (LibraryItemView {
                album: if album is Some {
                    slice_text_of(album)
                } else {
                    old(self)@.album
                },
                ..old(self)@
            }),
            r == *final(self),
    {
        if let Some(album) = album {
            self.album = Some(album.to_owned());
        }
        self.clone()
    }

    pub fn album(&self) -> (r: Option<String>)
        ensures
            text_of(r) == self@.album,
    {
        clone_text(&self.album)
    }

    /// Replaces the year, also by none, and returns a copy of the track as it
    /// then is.
    pub fn set_year(&mut self, year: Option<i32>) -> (r: Self)
        ensures
            final(self)@ == (LibraryItemView { year, ..old(self)@ }),
            r == *final(self),
    {
        self.year = year;
        self.clone()
    }

    pub fn year(&self) -> (r: Option<i32>)
        ensures
            r == self@.year,
    {
        self.year
    }

    /// Sets the genre if one is given, keeps the old one otherwise, and
    /// returns a copy of the track as it then is.
    pub fn set_genre(&mut self, genre: Option<&str>) -> (r: Self)
        ensures
            final(self)@ == (LibraryItemView {
                genre: if genre is Some {
                    slice_text_of(genre)
                } else {
                    old(self)@.genre
                },
                ..old(self)@
            }),
            r == *final(self),
    {
        if let Some(genre) = genre {
            self.genre = Some(genre.to_owned());
        }
        self.clone()
    }

    pub fn genre(&self) -> (r: Option<String>)
        ensures
            text_of(r) == self@.genre,
    {
        clone_text(&self.genre)
    }

    /// Replaces the track number, also by none, and returns a copy of the
    /// track as it then is.
    pub fn set_track_number(&mut self, track_number: Option<u32>) -> (r: Self)
        ensures
            final(self)@ == (LibraryItemView { track_number, ..old(self)@ }),
            r == *final(self),
    {
        self.track_number = track_number;
        self.clone()
    }

    pub fn track_number(&self) -> (r: Option<u32>)
        ensures
            r == self@.track_number,
    {
        self.track_number
    }
}

/// By what the browser groups the tracks.
#[derive(Debug, Clone, Copy, PartialEq, Eq, Structural)]
pub enum ViewType {
    Album,
    Artist,
    Genre,
}

/// What a [`LibraryItemContainer`] holds, as plain values.
pub struct ContainerView {
    pub name: Seq<char>,
    pub items: Seq<LibraryItem>,
}

/// One group of the browser: a heading and the tracks under it.
#[derive(Debug, Eq)]
pub struct LibraryItemContainer {
    pub name: String,
    pub items: Vec<LibraryItem>,
}

impl View for LibraryItemContainer {
    type V = ContainerView;

    open spec fn view(&self) -> ContainerView {
        ContainerView { name: self.name@, items: self.items@ }
    }
}

/// The views of a sequence of tracks.
pub open spec fn item_views(items: Seq<LibraryItem>) -> Seq<LibraryItemView> {
    items.map_values(|item: LibraryItem| item@)
}

/// The views of a sequence of groups.
pub open spec fn container_views(containers: Seq<LibraryItemContainer>) -> Seq<ContainerView> {
    containers.map_values(|c: LibraryItemContainer| c@)
}

fn clone_items(items: &Vec<LibraryItem>) -> (r: Vec<LibraryItem>)
    ensures
        r@ == items@,
{
    let mut copy: Vec<LibraryItem> = Vec::new();
    let mut i: usize = 0;
    while i < items.len()
        invariant
            i <= items.len(),
            copy@ == items@.take(i as int),
        decreases items.len() - i,
    {
        copy.push(items[i].clone());
        assert(items@.take(i + 1) == items@.take(i as int).push(items@[i as int]));
        i += 1;
    }
    assert(items@.take(items.len() as int) == items@);
    copy
}

fn same_items(a: &Vec<LibraryItem>, b: &Vec<LibraryItem>) -> (r: bool)
    ensures
        r == (item_views(a@) == item_views(b@)),
{
    if a.len() != b.len() {
        assert(item_views(a@).len() != item_views(b@).len());
        return false;
    }
    let mut i: usize = 0;
    while i < a.len()
        invariant
            i <= a.len(),
            a.len() == b.len(),
            forall|k: int| 0 <= k < i ==> a@[k]@ == b@[k]@,
        decreases a.len() - i,
    {
        if a[i] != b[i] {
            assert(item_views(a@)[i as int] != item_views(b@)[i as int]);
            return false;
        }
        i += 1;
    }
    assert(item_views(a@) =~= item_views(b@));
    true
}

impl Clone for LibraryItemContainer {
    fn clone(&self) -> (r: Self)
        ensures
            r@ == self@,
    {
        Self { name: self.name.clone(), items: clone_items(&self.items) }
    }
}

impl PartialEq for LibraryItemContainer {
    fn eq(&self, other: &Self) -> (r: bool) {
        self.name == other.name && same_items(&self.items, &other.items)
    }
}

impl vstd::std_specs::cmp::PartialEqSpecImpl for LibraryItemContainer {
    open spec fn obeys_eq_spec() -> bool {
        true
    }

    open spec fn eq_spec(&self, other: &Self) -> bool {
        self.name@ == other.name@ && item_views(self.items@) == item_views(other.items@)
    }
}

/// The grouped view of the library that the browser shows.
#[derive(Debug, Eq)]
pub struct LibraryView {
    pub view_type: ViewType,
    pub containers: Vec<LibraryItemContainer>,
}

/// Whether two sequences of groups hold the same headings over the same
/// tracks.
pub open spec fn same_groups(a: Seq<LibraryItemContainer>, b: Seq<LibraryItemContainer>) -> bool {
    &&& a.len() == b.len()
    &&& forall|k: int|
        0 <= k < a.len() ==> (#[trigger] a[k]).name@ == b[k].name@ && item_views(a[k].items@)
            == item_views(b[k].items@)
}

impl Clone for LibraryView {
    fn clone(&self) -> (r: Self)
        ensures
            r.view_type == self.view_type,
            container_views(r.containers@) == container_views(self.containers@),
    {
        let mut containers: Vec<LibraryItemContainer> = Vec::new();
        let mut i: usize = 0;
        while i < self.containers.len()
            invariant
                i <= self.containers.len(),
                containers.len() == i,
                forall|k: int| 0 <= k < i ==> containers@[k]@ == self.containers@[k]@,
            decreases self.containers.len() - i,
        {
            containers.push(self.containers[i].clone());
            i += 1;
        }
        assert(container_views(containers@) =~= container_views(self.containers@));
        Self { view_type: self.view_type, containers }
    }
}

impl PartialEq for LibraryView {
    fn eq(&self, other: &Self) -> (r: bool) {
        if self.view_type != other.view_type || self.containers.len() != other.containers.len() {
            return false;
        }
        let mut i: usize = 0;
        while i < self.containers.len()
            invariant
                i <= self.containers.len(),
                self.containers.len() == other.containers.len(),
                self.view_type == other.view_type,
                forall|k: int|
                    0 <= k < i ==> (#[trigger] self.containers@[k]).name@
                        == other.containers@[k].name@ && item_views(self.containers@[k].items@)
                        == item_views(other.containers@[k].items@),
            decreases self.containers.len() - i,
        {
            if self.containers[i] != other.containers[i] {
                return false;
            }
            i += 1;
        }
        true
    }
}

impl vstd::std_specs::cmp::PartialEqSpecImpl for LibraryView {
    open spec fn obeys_eq_spec() -> bool {
        true
    }

    open spec fn eq_spec(&self, other: &Self) -> bool {
        self.view_type == other.view_type && same_groups(self.containers@, other.containers@)
    }
}

/// Accepts the tracks that were imported from the directory `id`.
pub open spec fn belongs_to(id: LibraryPathId) -> spec_fn(LibraryItem) -> bool {
    |item: LibraryItem| item@.library_id == id
}

/// Accepts the directory that goes by `id`.
pub open spec fn goes_by(id: LibraryPathId) -> spec_fn(LibraryPath) -> bool {
    |path: LibraryPath| path@.id == id
}

/// Accepts the groups that hold no track.
pub open spec fn holds_nothing() -> spec_fn(ContainerView) -> bool {
    |c: ContainerView| c.items.len() == 0
}

/// A group once the tracks of the directory `id` have been purged from it.
pub open spec fn without_tracks_of(id: LibraryPathId) -> spec_fn(ContainerView) -> ContainerView {
    |c: ContainerView| ContainerView { name: c.name, items: purged(c.items, belongs_to(id)) }
}

/// The paths once the first directory that goes by `id` has left.
pub open spec fn without_path(paths: Seq<LibraryPath>, id: LibraryPathId) -> Seq<LibraryPath> {
    let i = first_hit(paths, goes_by(id));
    if 0 <= i < paths.len() {
        paths.remove(i)
    } else {
        paths
    }
}

/// The groups once the tracks of the directory `id` have been purged from each
/// and the groups that this emptied, or that were empty before, have been
/// purged in turn.
pub open spec fn groups_without(groups: Seq<ContainerView>, id: LibraryPathId) -> Seq<
    ContainerView,
> {
    purged(groups.map_values(without_tracks_of(id)), holds_nothing())
}

/// The paths with every directory that goes by `id` marked as imported.
pub open spec fn marked_imported(paths: Seq<LibraryPathView>, id: LibraryPathId) -> Seq<
    LibraryPathView,
> {
    paths.map_values(
        |p: LibraryPathView|
            if p.id == id {
                LibraryPathView { status: LibraryPathStatus::Imported, ..p }
            } else {
                p
            },
    )
}

/// The views of a sequence of directories.
pub open spec fn path_views(paths: Seq<LibraryPath>) -> Seq<LibraryPathView> {
    paths.map_values(|p: LibraryPath| p@)
}

/// Whether some directory of `paths` lies at `path`.
pub open spec fn knows_path(paths: Seq<LibraryPath>, path: Seq<char>) -> bool {
    exists|k: int| 0 <= k < paths.len() && (#[trigger] paths[k])@.path == path
}

/// Finds the first directory that goes by `id`.
fn position_of_path(paths: &Vec<LibraryPath>, id: LibraryPathId) -> (r: Option<usize>)
    ensures
        match r {
            Some(i) => i < paths.len() && i == first_hit(paths@, goes_by(id)),
            None => first_hit(paths@, goes_by(id)) == paths.len(),
        },
{
    let mut i: usize = 0;
    while i < paths.len()
        invariant
            i <= paths.len(),
            forall|j: int| 0 <= j < i ==> !goes_by(id)(#[trigger] paths@[j]),
        decreases paths.len() - i,
    {
        if paths[i].id() == id {
            proof {
                lemma_first_hit_is(paths@, goes_by(id), i as int);
            }
            return Some(i);
        }
        i += 1;
    }
    proof {
        lemma_first_hit_is(paths@, goes_by(id), i as int);
    }
    None
}

/// Finds the first track that was imported from the directory `id`.
fn position_of_item(items: &Vec<LibraryItem>, id: LibraryPathId) -> (r: Option<usize>)
    ensures
        match r {
            Some(i) => i < items.len() && i == first_hit(items@, belongs_to(id)),
            None => first_hit(items@, belongs_to(id)) == items.len(),
        },
{
    let mut i: usize = 0;
    while i < items.len()
        invariant
            i <= items.len(),
            forall|j: int| 0 <= j < i ==> !belongs_to(id)(#[trigger] items@[j]),
        decreases items.len() - i,
    {
        if items[i].library_id() == id {
            proof {
                lemma_first_hit_is(items@, belongs_to(id), i as int);
            }
            return Some(i);
        }
        i += 1;
    }
    proof {
        lemma_first_hit_is(items@, belongs_to(id), i as int);
    }
    None
}

/// Finds the first group that holds no track.
fn position_of_empty(groups: &Vec<LibraryItemContainer>) -> (r: Option<usize>)
    ensures
        match r {
            Some(i) => i < groups.len() && i == first_hit(
                container_views(groups@),
                holds_nothing(),
            ),
            None => first_hit(container_views(groups@), holds_nothing()) == groups.len(),
        },
{
    let ghost views = container_views(groups@);
    let mut i: usize = 0;
    while i < groups.len()
        invariant
            i <= groups.len(),
            views == container_views(groups@),
            forall|j: int| 0 <= j < i ==> !holds_nothing()(#[trigger] views[j]),
        decreases groups.len() - i,
    {
        if groups[i].items.is_empty() {
            proof {
                lemma_first_hit_is(views, holds_nothing(), i as int);
            }
            return Some(i);
        }
        i += 1;
    }
    proof {
        lemma_first_hit_is(views, holds_nothing(), i as int);
    }
    None
}

/// Removes in place every track that was imported from the directory `id`.
fn purge_items(items: &mut Vec<LibraryItem>, id: LibraryPathId)
    ensures
        final(items)@ == purged(old(items)@, belongs_to(id)),
{
    loop
        invariant
            purged(items@, belongs_to(id)) == purged(old(items)@, belongs_to(id)),
        ensures
            items@ == purged(old(items)@, belongs_to(id)),
        decreases items.len(),
    {
        match position_of_item(items, id) {
            Some(idx) => {
                items.swap_remove(idx);
            },
            None => {
                break ;
            },
        }
    }
}

/// Removes in place every group that holds no track.
fn purge_empty(groups: &mut Vec<LibraryItemContainer>)
    ensures
        container_views(final(groups)@) == purged(container_views(old(groups)@), holds_nothing()),
{
    loop
        invariant
            purged(container_views(groups@), holds_nothing()) == purged(
                container_views(old(groups)@),
                holds_nothing(),
            ),
        ensures
            container_views(groups@) == purged(container_views(old(groups)@), holds_nothing()),
        decreases groups.len(),
    {
        match position_of_empty(groups) {
            Some(idx) => {
                let ghost before = groups@;
                groups.swap_remove(idx);
                assert(container_views(groups@) =~= swap_removed(
                    container_views(before),
                    idx as int,
                ));
            },
            None => {
                break ;
            },
        }
    }
}

/// The library: its directories, every track found in them, and the grouped
/// view of those tracks.
#[derive(Debug)]
pub struct Library {
    paths: Vec<LibraryPath>,
    items: Vec<LibraryItem>,
    library_view: LibraryView,
}

impl Library {
    /// The directories of the library, in the order they were added.
    pub closed spec fn path_seq(&self) -> Seq<LibraryPath> {
        self.paths@
    }

    /// The tracks of the library.
    pub closed spec fn item_seq(&self) -> Seq<LibraryItem> {
        self.items@
    }

    /// By what the grouped view groups.
    pub closed spec fn grouping(&self) -> ViewType {
        self.library_view.view_type
    }

    /// The groups of the grouped view.
    pub closed spec fn group_seq(&self) -> Seq<LibraryItemContainer> {
        self.library_view.containers@
    }

    /// An empty library whose view groups by album.
    pub fn new() -> (r: Self)
        ensures
            r.path_seq() == Seq::<LibraryPath>::empty(),
            r.item_seq() == Seq::<LibraryItem>::empty(),
            r.grouping() == ViewType::Album,
            r.group_seq() == Seq::<LibraryItemContainer>::empty(),
    {
        Self {
            paths: Vec::new(),
            items: Vec::new(),
            library_view: LibraryView { view_type: ViewType::Album, containers: Vec::new() },
        }
    }

    /// A library of these directories, tracks and groups, as read back
    /// from storage.
    pub fn from_parts(
        paths: Vec<LibraryPath>,
        items: Vec<LibraryItem>,
        library_view: LibraryView,
    ) -> (r: Self)
        ensures
            r.path_seq() == paths@,
            r.item_seq() == items@,
            r.grouping() == library_view.view_type,
            r.group_seq() == library_view.containers@,
    {
        Self { paths, items, library_view }
    }

    pub fn paths(&self) -> (r: &Vec<LibraryPath>)
        ensures
            r@ == self.path_seq(),
    {
        &self.paths
    }

    /// Adds the directory `path` under a fresh id, unless the library already
    /// has a directory at that path. Says whether it was added.
    pub fn add_path(&mut self, path: String) -> (added: bool)
        ensures
            added == !knows_path(old(self).path_seq(), path@),
            added ==> {
                let paths = final(self).path_seq();
                &&& paths.len() == old(self).path_seq().len() + 1
                &&& paths.drop_last() == old(self).path_seq()
                &&& paths.last()@.path == path@
                &&& paths.last()@.status == LibraryPathStatus::NotImported
            },
            !added ==> final(self).path_seq() == old(self).path_seq(),
            final(self).item_seq() == old(self).item_seq(),
            final(self).grouping() == old(self).grouping(),
            final(self).group_seq() == old(self).group_seq(),
    {
        let mut i: usize = 0;
        while i < self.paths.len()
            invariant
                i <= self.paths.len(),
                *self == *old(self),
                forall|k: int| 0 <= k < i ==> (#[trigger] self.paths@[k])@.path != path@,
            decreases self.paths.len() - i,
        {
            if *self.paths[i].path() == path {
                return false;
            }
            i += 1;
        }
        let new_path = LibraryPath::new(path);
        self.paths.push(new_path);
        assert(self.paths@.drop_last() == old(self).paths@);
        true
    }

    /// Forgets the directory `path_id` and everything that came from it: the
    /// first directory that goes by the id, every track imported from it, in
    /// the list and in each group of the view, and the groups left empty.
    pub fn remove_path(&mut self, path_id: LibraryPathId)
        ensures
            final(self).path_seq() == without_path(old(self).path_seq(), path_id),
            final(self).item_seq() == purged(old(self).item_seq(), belongs_to(path_id)),
            container_views(final(self).group_seq()) == groups_without(
                container_views(old(self).group_seq()),
                path_id,
            ),
            final(self).grouping() == old(self).grouping(),
    {
        if let Some(idx) = position_of_path(&self.paths, path_id) {
            self.paths.remove(idx);
        }
        purge_items(&mut self.items, path_id);

        let ghost before = self.library_view.containers@;
        let mut i: usize = 0;
        while i < self.library_view.containers.len()
            invariant
                i <= self.library_view.containers.len(),
                self.library_view.containers.len() == before.len(),
                self.library_view.view_type == old(self).library_view.view_type,
                self.paths@ == without_path(old(self).paths@, path_id),
                self.items@ == purged(old(self).items@, belongs_to(path_id)),
                forall|k: int|
                    0 <= k < i ==> (#[trigger] self.library_view.containers@[k])@
                        == without_tracks_of(path_id)(before[k]@),
                forall|k: int|
                    i <= k < before.len() ==> #[trigger] self.library_view.containers@[k]
                        == before[k],
            decreases self.library_view.containers.len() - i,
        {
            purge_items(&mut self.library_view.containers[i].items, path_id);
            i += 1;
        }
        assert(container_views(self.library_view.containers@) =~= container_views(
            before,
        ).map_values(without_tracks_of(path_id)));
        purge_empty(&mut self.library_view.containers);
    }

    /// Marks every directory that goes by `id` as imported.
    pub fn set_path_to_imported(&mut self, id: LibraryPathId)
        ensures
            path_views(final(self).path_seq()) == marked_imported(
                path_views(old(self).path_seq()),
                id,
            ),
            final(self).item_seq() == old(self).item_seq(),
            final(self).grouping() == old(self).grouping(),
            final(self).group_seq() == old(self).group_seq(),
    {
        let mut i: usize = 0;
        while i < self.paths.len()
            invariant
                i <= self.paths.len(),
                self.paths.len() == old(self).paths.len(),
                self.items == old(self).items,
                self.library_view == old(self).library_view,
                forall|k: int|
                    0 <= k < i ==> (#[trigger] self.paths@[k])@ == marked_imported(
                        path_views(old(self).paths@),
                        id,
                    )[k],
                forall|k: int|
                    i <= k < self.paths.len() ==> #[trigger] self.paths@[k] == old(self).paths@[k],
            decreases self.paths.len() - i,
        {
            if self.paths[i].id() == id {
                self.paths[i].set_status(LibraryPathStatus::Imported);
            }
            i += 1;
        }
        assert(path_views(self.paths@) =~= marked_imported(path_views(old(self).paths@), id));
    }

    pub fn items(&self) -> (r: &Vec<LibraryItem>)
        ensures
            r@ == self.item_seq(),
    {
        &self.items
    }

    pub fn view(&self) -> (r: &LibraryView)
        ensures
            r.view_type == self.grouping(),
            r.containers@ == self.group_seq(),
    {
        &self.library_view
    }

    /// Adds a track at the end of the list of tracks.
    pub fn add_item(&mut self, library_item: LibraryItem)
        ensures
            final(self).item_seq() == old(self).item_seq().push(library_item),
            final(self).path_seq() == old(self).path_seq(),
            final(self).grouping() == old(self).grouping(),
            final(self).group_seq() == old(self).group_seq(),
    {
        self.items.push(library_item);
    }

    /// Adds the groups of `library_view` after the groups that the view of
    /// the library already has. The grouping of the library stays.
    pub fn add_view(&mut self, library_view: LibraryView)
        ensures
            final(self).group_seq() == old(self).group_seq() + library_view.containers@,
            final(self).grouping() == old(self).grouping(),
            final(self).path_seq() == old(self).path_seq(),
            final(self).item_seq() == old(self).item_seq(),
    {
        let mut new = library_view.containers;
        self.library_view.containers.append(&mut new);
    }
}

/// What forgetting a directory leaves of the tracks: no track that came from
/// it, and every other track exactly as often as it stood in the list.
pub proof fn lemma_tracks_forgotten(items: Seq<LibraryItem>, id: LibraryPathId)
    ensures
        forall|k: int|
            0 <= k < purged(items, belongs_to(id)).len() ==> (#[trigger] purged(
                items,
                belongs_to(id),
            )[k])@.library_id != id,
        forall|item: LibraryItem|
            item@.library_id != id ==> #[trigger] purged(items, belongs_to(id)).to_multiset().count(
                item,
            ) == items.to_multiset().count(item),
{
    crate::purge::lemma_purged(items, belongs_to(id));
}

/// What forgetting a directory leaves of the groups: no group without
/// tracks, and in no group a track that came from the directory.
pub proof fn lemma_groups_forgotten(groups: Seq<ContainerView>, id: LibraryPathId)
    ensures
        forall|k: int|
            0 <= k < groups_without(groups, id).len() ==> (#[trigger] groups_without(
                groups,
                id,
            )[k]).items.len() > 0,
        forall|k: int, j: int|
            0 <= k < groups_without(groups, id).len() && 0 <= j < groups_without(
                groups,
                id,
            )[k].items.len() ==> (#[trigger] groups_without(groups, id)[k].items[j])@.library_id
                != id,
{
    let cleaned = groups.map_values(without_tracks_of(id));
    let left = groups_without(groups, id);
    crate::purge::lemma_purged(cleaned, holds_nothing());
    assert forall|k: int, j: int|
        0 <= k < left.len() && 0 <= j < left[k].items.len() implies !belongs_to(id)(
        #[trigger] left[k].items[j],
    ) by {
        let group = left[k];
        vstd::seq_lib::to_multiset_contains(left, group);
        assert(left.contains(group));
        assert(left.to_multiset().count(group) > 0);
        assert(cleaned.to_multiset().count(group) > 0);
        vstd::seq_lib::to_multiset_contains(cleaned, group);
        let from = choose|from: int| 0 <= from < cleaned.len() && cleaned[from] == group;
        crate::purge::lemma_purged(groups[from].items, belongs_to(id));
    }
}

} // verus!
