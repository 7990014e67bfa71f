//! What the interface decides: how the messages of the engine and the
//! importer change what is shown, and what each action of the user does to
//! the library, the playlists and the transport.
//!
//! Nothing here draws or sends anything. A method that has something to say
//! to the audio engine returns the commands, in the order in which they are
//! to be sent.

use crate::command::{command_views, sent, AudioCommand, AudioCommandView, UiCommand};
use crate::library::{
    belongs_to, container_views, groups_without, marked_imported, path_views, without_path,
    ContainerView, Library, LibraryItem, LibraryPath, LibraryPathId, LibraryPathStatus,
    LibraryPathView,
};
use crate::player::{step_commands, Player, TrackState};
use crate::playlist::Playlist;
use crate::purge::purged;
use std::collections::HashSet;
use vstd::prelude::*;
use vstd::std_specs::iter::IteratorSpec;
use vstd::string::{StrSliceExecFns, StringExecFns};

verus! {

/// Where the current playlist stands once the playlist at `removed` has
/// left: a playlist behind the removed one moves up by one, the first one
/// loses its standing when it is removed itself, and one before the removed
/// one stays.
pub open spec fn current_after_removal(current: Option<usize>, removed: usize) -> Option<usize> {
    match current {
        Some(c) => if c == 0 && removed == 0 {
            None
        } else if c >= removed {
            Some((c - 1) as usize)
        } else {
            Some(c)
        },
        None => None,
    }
}

/// Whether `text` begins with `prefix`.
pub open spec fn has_prefix(text: Seq<char>, prefix: Seq<char>) -> bool {
    prefix.len() <= text.len() && text.take(prefix.len() as int) == prefix
}

/// Tests whether `text` begins with `prefix`.
fn starts_with(text: &str, prefix: &str) -> (r: bool)
    ensures
        r == has_prefix(text@, prefix@),
{
    let n = prefix.unicode_len();
    if text.unicode_len() < n {
        return false;
    }
    let mut i: usize = 0;
    while i < n
        invariant
            i <= n,
            n == prefix@.len(),
            n <= text@.len(),
            forall|k: int| 0 <= k < i ==> text@[k] == prefix@[k],
        decreases n - i,
    {
        if text.get_char(i) != prefix.get_char(i) {
            assert(text@.take(n as int)[i as int] != prefix@[i as int]);
            return false;
        }
        i += 1;
    }
    assert(text@.take(n as int) =~= prefix@);
    true
}

/// The character of a digit.
pub open spec fn digit(d: nat) -> char {
    if d == 0 {
        '0'
    } else if d == 1 {
        '1'
    } else if d == 2 {
        '2'
    } else if d == 3 {
        '3'
    } else if d == 4 {
        '4'
    } else if d == 5 {
        '5'
    } else if d == 6 {
        '6'
    } else if d == 7 {
        '7'
    } else if d == 8 {
        '8'
    } else {
        '9'
    }
}

/// A number written in decimal, without a sign and without leading zeros.
pub open spec fn decimal(n: nat) -> Seq<char>
    decreases n,
{
    if n < 10 {
        seq![digit(n)]
    } else {
        decimal(n / 10).push(digit(n % 10))
    }
}

/// `format!` of a `usize` with `{}`: the number written in decimal.
#[verifier::external_body]
fn decimal_text(n: usize) -> (r: String)
    ensures
        r@ == decimal(n as nat),
{
    format!("{}", n)
}

/// Accepts the playlists whose name begins with the name that new playlists
/// get.
pub open spec fn named_by_default() -> spec_fn(Playlist) -> bool {
    |p: Playlist|
        match p.name {
            Some(name) => has_prefix(name@, "New Playlist"@),
            None => false,
        }
}

/// The name of a new playlist where `taken` playlists already go by the
/// default name: the default name itself for the first, and then the
/// default name with a number in brackets, counted from 0.
pub open spec fn new_playlist_name(taken: nat) -> Seq<char> {
    if taken == 0 {
        "New Playlist"@
    } else {
        "New Playlist ("@ + decimal((taken - 1) as nat) + ")"@
    }
}

/// What a text that may be missing shows as: itself, or a question mark.
pub open spec fn shown_text(text: Option<Seq<char>>) -> Seq<char> {
    match text {
        Some(text) => text,
        None => "?"@,
    }
}

/// The title of the window while `track` is selected.
pub open spec fn title_of(track: LibraryItem) -> Seq<char> {
    shown_text(track@.artist) + " - "@ + shown_text(track@.title) + " [ Music Player ]"@
}

/// A button of the transport.
#[derive(Debug, Clone, Copy, PartialEq, Eq, Structural)]
pub enum TransportButton {
    Play,
    Stop,
    Pause,
    Next,
    Previous,
}

/// Whether `after` and `commands` are what the press of `button` makes of a
/// transport `before` that has a track selected, with `playlist` shown.
pub open spec fn pressed(
    before: Player,
    playlist: Option<Playlist>,
    button: TransportButton,
    after: Player,
    commands: Seq<AudioCommand>,
) -> bool {
    match button {
        TransportButton::Play => {
            &&& after == (Player { track_state: TrackState::Playing, ..before })
            &&& command_views(commands) == seq![AudioCommandView::Play]
        },
        TransportButton::Stop => if before.track_state == TrackState::Playing
            || before.track_state == TrackState::Paused {
            &&& after == (Player { track_state: TrackState::Stopped, ..before })
            &&& command_views(commands) == seq![AudioCommandView::Stop]
        } else {
            after == before && commands.len() == 0
        },
        TransportButton::Pause => match before.track_state {
            TrackState::Playing => {
                &&& after == (Player { track_state: TrackState::Paused, ..before })
                &&& command_views(commands) == seq![AudioCommandView::Pause]
            },
            TrackState::Paused => {
                &&& after == (Player { track_state: TrackState::Playing, ..before })
                &&& command_views(commands) == seq![AudioCommandView::Play]
            },
            _ => after == before && commands.len() == 0,
        },
        TransportButton::Next => match playlist {
            Some(playlist) => match before.position_in(&playlist) {
                Some(i) if i + 1 < playlist.tracks@.len() => {
                    &&& after == (Player {
                        selected_track: Some(playlist.tracks@[i + 1]),
                        track_state: TrackState::Playing,
                        ..before
                    })
                    &&& command_views(commands) == step_commands(playlist.tracks@[i + 1])
                },
                _ => after == before && commands.len() == 0,
            },
            None => after == before && commands.len() == 0,
        },
        TransportButton::Previous => match playlist {
            Some(playlist) => match before.position_in(&playlist) {
                Some(i) if i > 0 => {
                    &&& after == (Player {
                        selected_track: Some(playlist.tracks@[i - 1]),
                        track_state: TrackState::Playing,
                        ..before
                    })
                    &&& command_views(commands) == step_commands(playlist.tracks@[i - 1])
                },
                _ => after == before && commands.len() == 0,
            },
            None => after == before && commands.len() == 0,
        },
    }
}

/// The state of the interface.
#[derive(Debug)]
pub struct App {
    pub library: Library,
    pub playlists: Vec<Playlist>,
    pub current_playlist_idx: Option<usize>,
    pub show_oscilloscope: bool,
    pub show_preferences_window: bool,
    pub player: Player,
    pub playlist_idx_to_remove: Option<usize>,
    pub quit: bool,
    /// The directories that are marked in the configuration of the library,
    /// by the numbers of their ids.
    pub lib_config_selections: HashSet<usize>,
    pub is_library_cfg_open: bool,
}

impl App {
    /// The playlist that is shown, if one is.
    pub open spec fn current_playlist(&self) -> Option<Playlist> {
        match self.current_playlist_idx {
            Some(i) if i < self.playlists@.len() => Some(self.playlists@[i as int]),
            _ => None,
        }
    }

    /// An interface with an empty library, no playlist and nothing selected.
    pub fn new() -> (r: Self)
        ensures
            r.library.path_seq().len() == 0,
            r.library.item_seq().len() == 0,
            r.library.group_seq().len() == 0,
            r.playlists@.len() == 0,
            r.current_playlist_idx is None,
            !r.show_oscilloscope,
            !r.show_preferences_window,
            r.player.track_state == TrackState::Unstarted,
            r.player.selected_track is None,
            r.playlist_idx_to_remove is None,
            !r.quit,
            r.lib_config_selections@ == Set::<usize>::empty(),
            !r.is_library_cfg_open,
    {
        Self {
            library: Library::new(),
            playlists: Vec::new(),
            current_playlist_idx: None,
            show_oscilloscope: false,
            show_preferences_window: false,
            player: Player::new(),
            playlist_idx_to_remove: None,
            quit: false,
            lib_config_selections: HashSet::new(),
            is_library_cfg_open: false,
        }
    }

    /// Asks for the window to close.
    pub fn quit(&mut self)
        ensures
            *final(self) == (App { quit: true, ..*old(self) }),
    {
        self.quit = true;
    }

    /// Takes a message of the importer or of the audio engine. The importer
    /// adds to the library; the engine moves the transport; and when a track
    /// has ended, the transport steps to the next track of the playlist that
    /// is shown, which is what the returned commands ask of the engine.
    pub fn handle_ui_command(&mut self, command: UiCommand) -> (commands: Vec<AudioCommand>)
        ensures
            final(self).playlists == old(self).playlists,
            final(self).current_playlist_idx == old(self).current_playlist_idx,
            final(self).lib_config_selections == old(self).lib_config_selections,
            final(self).quit == old(self).quit,
            match command {
                UiCommand::LibraryAddItem(item) => {
                    &&& final(self).library.item_seq() == old(self).library.item_seq().push(item)
                    &&& final(self).library.path_seq() == old(self).library.path_seq()
                    &&& final(self).library.group_seq() == old(self).library.group_seq()
                    &&& final(self).player == old(self).player
                    &&& commands@.len() == 0
                },
                UiCommand::LibraryAddView(view) => {
                    &&& final(self).library.group_seq() == old(self).library.group_seq()
                        + view.containers@
                    &&& final(self).library.item_seq() == old(self).library.item_seq()
                    &&& final(self).library.path_seq() == old(self).library.path_seq()
                    &&& final(self).player == old(self).player
                    &&& commands@.len() == 0
                },
                UiCommand::LibraryAddPathId(id) => {
                    &&& path_views(final(self).library.path_seq()) == marked_imported(
                        path_views(old(self).library.path_seq()),
                        id,
                    )
                    &&& final(self).library.item_seq() == old(self).library.item_seq()
                    &&& final(self).library.group_seq() == old(self).library.group_seq()
                    &&& final(self).player == old(self).player
                    &&& commands@.len() == 0
                },
                UiCommand::CurrentTimestamp(seek_to_timestamp) => {
                    &&& final(self).player == (Player { seek_to_timestamp, ..old(self).player })
                    &&& final(self).library == old(self).library
                    &&& commands@.len() == 0
                },
                UiCommand::TotalTrackDuration(duration) => {
                    &&& final(self).player == (Player { duration, ..old(self).player })
                    &&& final(self).library == old(self).library
                    &&& commands@.len() == 0
                },
                UiCommand::SampleRate(sample_rate) => {
                    &&& final(self).player == (Player { sample_rate, ..old(self).player })
                    &&& final(self).library == old(self).library
                    &&& commands@.len() == 0
                },
                UiCommand::AudioFinished => {
                    &&& final(self).library == old(self).library
                    &&& match old(self).current_playlist() {
                        Some(playlist) => match old(self).player.position_in(&playlist) {
                            Some(i) if i + 1 < playlist.tracks@.len() => {
                                &&& final(self).player == (Player {
                                    selected_track: Some(playlist.tracks@[i + 1]),
                                    track_state: TrackState::Playing,
                                    ..old(self).player
                                })
                                &&& command_views(commands@) == step_commands(
                                    playlist.tracks@[i + 1],
                                )
                            },
                            _ => final(self).player == old(self).player && commands@.len() == 0,
                        },
                        None => final(self).player == old(self).player && commands@.len() == 0,
                    }
                },
            },
    {
        match command {
            UiCommand::LibraryAddItem(lib_item) => {
                self.library.add_item(lib_item);
                Vec::new()
            },
            UiCommand::LibraryAddView(lib_view) => {
                self.library.add_view(lib_view);
                Vec::new()
            },
            UiCommand::LibraryAddPathId(path_id) => {
                self.library.set_path_to_imported(path_id);
                Vec::new()
            },
            UiCommand::CurrentTimestamp(seek_timestamp) => {
                self.player.set_seek_to_timestamp(seek_timestamp);
                Vec::new()
            },
            UiCommand::TotalTrackDuration(dur) => {
                self.player.set_duration(dur);
                Vec::new()
            },
            UiCommand::SampleRate(sr) => {
                self.player.set_sample_rate(sr);
                Vec::new()
            },
            UiCommand::AudioFinished => {
                match self.current_playlist_idx {
                    Some(idx) => {
                        if idx < self.playlists.len() {
                            self.player.next(&self.playlists[idx])
                        } else {
                            Vec::new()
                        }
                    },
                    None => Vec::new(),
                }
            },
        }
    }

    /// Adds an empty playlist under a name of its own and shows it.
    pub fn new_playlist(&mut self)
        ensures
            final(self).playlists@.len() == old(self).playlists@.len() + 1,
            final(self).playlists@.drop_last() == old(self).playlists@,
            final(self).playlists@.last().name matches Some(name) && name@ == new_playlist_name(
                old(self).playlists@.filter(named_by_default()).len(),
            ),
            final(self).playlists@.last().tracks@.len() == 0,
            final(self).playlists@.last().selected is None,
            final(self).current_playlist_idx == Some(old(self).playlists.len()),
            final(self).library == old(self).library,
            final(self).player == old(self).player,
    {
        let mut default_name_count: usize = 0;
        let mut i: usize = 0;
        while i < self.playlists.len()
            invariant
                i <= self.playlists.len(),
                *self == *old(self),
                default_name_count <= i,
                default_name_count == self.playlists@.take(i as int).filter(
                    named_by_default(),
                ).len(),
            decreases self.playlists.len() - i,
        {
            proof {
                assert(self.playlists@.take(i + 1) == self.playlists@.take(i as int).push(
                    self.playlists@[i as int],
                ));
                self.playlists@.take(i as int).lemma_filter_push(
                    self.playlists@[i as int],
                    named_by_default(),
                );
            }
            let counts = match &self.playlists[i].name {
                Some(name) => starts_with(name.as_str(), "New Playlist"),
                None => false,
            };
            if counts {
                default_name_count += 1;
            }
            i += 1;
        }
        assert(self.playlists@.take(self.playlists.len() as int) == self.playlists@);
        let playlist_name = if default_name_count == 0 {
            String::from_str("New Playlist")
        } else {
            let number = decimal_text(default_name_count - 1);
            String::from_str("New Playlist (").concat(number.as_str()).concat(")")
        };
        let mut new_playlist = Playlist::new();
        new_playlist.set_name(playlist_name);
        let ghost before = self.playlists@;
        self.playlists.push(new_playlist);
        assert(self.playlists@.drop_last() == before);
        self.current_playlist_idx = Some(self.playlists.len() - 1);
    }

    /// The title of the window: it names the selected track, if there is
    /// one.
    pub fn window_title(&self) -> (title: Option<String>)
        ensures
            match self.player.selected_track {
                Some(track) => title matches Some(text) && text@ == title_of(track),
                None => title is None,
            },
    {
        match &self.player.selected_track {
            Some(selected_track) => {
                let artist = match selected_track.artist() {
                    Some(artist) => artist,
                    None => String::from_str("?"),
                };
                let title = match selected_track.title() {
                    Some(title) => title,
                    None => String::from_str("?"),
                };
                Some(
                    artist.concat(" - ").concat(title.as_str()).concat(" [ Music Player ]"),
                )
            },
            None => None,
        }
    }

    /// Takes a new gain from the slider if it differs from the gain of the
    /// transport, as [`Player::set_volume`] does.
    pub fn change_volume(&mut self, volume: u32, is_processing_ui_change: &mut bool) -> (command:
        Option<AudioCommand>)
        ensures
            final(self).library == old(self).library,
            final(self).playlists == old(self).playlists,
            volume != old(self).player.volume && !*old(is_processing_ui_change) ==> {
                &&& final(self).player == (Player { volume, ..old(self).player })
                &&& *final(is_processing_ui_change)
                &&& sent(command) == Some(AudioCommandView::SetVolume(volume))
            },
            !(volume != old(self).player.volume && !*old(is_processing_ui_change)) ==> {
                &&& final(self).player == old(self).player
                &&& *final(is_processing_ui_change) == *old(is_processing_ui_change)
                &&& sent(command) is None
            },
    {
        if volume != self.player.volume {
            self.player.set_volume(volume, is_processing_ui_change)
        } else {
            None
        }
    }

    /// Takes the press of a button of the transport. Without a selected
    /// track no button does anything; stepping needs a playlist that is
    /// shown.
    pub fn press(&mut self, button: TransportButton) -> (commands: Vec<AudioCommand>)
        ensures
            final(self).library == old(self).library,
            final(self).playlists == old(self).playlists,
            final(self).current_playlist_idx == old(self).current_playlist_idx,
            old(self).player.selected_track is None ==> final(self).player == old(self).player
                && commands@.len() == 0,
            old(self).player.selected_track is Some ==> pressed(
                old(self).player,
                old(self).current_playlist(),
                button,
                final(self).player,
                commands@,
            ),
    {
        let mut commands: Vec<AudioCommand> = Vec::new();
        if self.player.selected_track.is_none() {
            return commands;
        }
        match button {
            TransportButton::Play => {
                if let Some(command) = self.player.play() {
                    let ghost view = command@;
                    commands.push(command);
                    assert(command_views(commands@) =~= seq![view]);
                }
            },
            TransportButton::Stop => {
                if let Some(command) = self.player.stop() {
                    let ghost view = command@;
                    commands.push(command);
                    assert(command_views(commands@) =~= seq![view]);
                }
            },
            TransportButton::Pause => {
                if let Some(command) = self.player.pause() {
                    let ghost view = command@;
                    commands.push(command);
                    assert(command_views(commands@) =~= seq![view]);
                }
            },
            TransportButton::Next => {
                if let Some(idx) = self.current_playlist_idx {
                    if idx < self.playlists.len() {
                        commands = self.player.next(&self.playlists[idx]);
                    }
                }
            },
            TransportButton::Previous => {
                if let Some(idx) = self.current_playlist_idx {
                    if idx < self.playlists.len() {
                        commands = self.player.previous(&self.playlists[idx]);
                    }
                }
            },
        }
        assert(command_views(commands@).len() == commands@.len());
        commands
    }

    /// Takes out the playlist that was marked for removal, if one was, and
    /// moves the standing of the current playlist along. A mark that points
    /// at no playlist is dropped.
    pub fn remove_marked_playlist(&mut self)
        ensures
            final(self).playlist_idx_to_remove is None,
            final(self).library == old(self).library,
            final(self).player == old(self).player,
            match old(self).playlist_idx_to_remove {
                Some(idx) if idx < old(self).playlists@.len() => {
                    &&& final(self).playlists@ == old(self).playlists@.remove(idx as int)
                    &&& final(self).current_playlist_idx == current_after_removal(
                        old(self).current_playlist_idx,
                        idx,
                    )
                },
                _ => {
                    &&& final(self).playlists@ == old(self).playlists@
                    &&& final(self).current_playlist_idx == old(self).current_playlist_idx
                },
            },
    {
        if let Some(idx) = self.playlist_idx_to_remove {
            self.playlist_idx_to_remove = None;
            if idx < self.playlists.len() {
                if let Some(current_playlist_idx) = self.current_playlist_idx {
                    if current_playlist_idx == 0 && idx == 0 {
                        self.current_playlist_idx = None;
                    } else if current_playlist_idx >= idx {
                        self.current_playlist_idx = Some(current_playlist_idx - 1);
                    }
                }
                self.playlists.remove(idx);
            }
        }
    }

    /// Selects the track at `idx` of the playlist that is shown and plays
    /// it. Where no playlist is shown, or it has no such track, nothing
    /// happens.
    pub fn play_track(&mut self, idx: usize) -> (commands: Vec<AudioCommand>)
        ensures
            final(self).library == old(self).library,
            final(self).playlists == old(self).playlists,
            final(self).current_playlist_idx == old(self).current_playlist_idx,
            match old(self).current_playlist() {
                Some(playlist) if idx < playlist.tracks@.len() => {
                    &&& final(self).player == (Player {
                        selected_track: Some(playlist.tracks@[idx as int]),
                        track_state: TrackState::Playing,
                        ..old(self).player
                    })
                    &&& command_views(commands@) == step_commands(playlist.tracks@[idx as int])
                },
                _ => final(self).player == old(self).player && commands@.len() == 0,
            },
    {
        let mut commands: Vec<AudioCommand> = Vec::new();
        if let Some(current) = self.current_playlist_idx {
            if current < self.playlists.len() {
                if idx < self.playlists[current].tracks.len() {
                    let track = self.playlists[current].tracks[idx].clone();
                    if let Some(load) = self.player.select_track(Some(track)) {
                        commands.push(load);
                    }
                    if let Some(play) = self.player.play() {
                        commands.push(play);
                    }
                    assert(command_views(commands@) =~= step_commands(
                        self.playlists@[current as int].tracks@[idx as int],
                    ));
                }
            }
        }
        commands
    }

    /// Adds a track of the library at the end of the playlist that is shown.
    /// Where no playlist is shown, nothing happens.
    pub fn add_to_current_playlist(&mut self, item: LibraryItem)
        ensures
            final(self).library == old(self).library,
            final(self).player == old(self).player,
            final(self).current_playlist_idx == old(self).current_playlist_idx,
            final(self).playlists@.len() == old(self).playlists@.len(),
            match old(self).current_playlist_idx {
                Some(current) if current < old(self).playlists@.len() => {
                    &&& final(self).playlists@[current as int].tracks@ == old(
                        self,
                    ).playlists@[current as int].tracks@.push(item)
                    &&& forall|k: int|
                        0 <= k < old(self).playlists@.len() && k != current
                            ==> #[trigger] final(self).playlists@[k] == old(self).playlists@[k]
                },
                _ => final(self).playlists@ == old(self).playlists@,
            },
    {
        if let Some(current) = self.current_playlist_idx {
            if current < self.playlists.len() {
                self.playlists[current].add(item);
            }
        }
    }

    /// Whether the directory `id` is marked in the configuration of the
    /// library.
    pub open spec fn is_marked(&self, id: LibraryPathId) -> bool {
        self.lib_config_selections@.contains(id@)
    }

    /// Tests whether the directory `id` is marked.
    pub fn is_selected(&self, id: LibraryPathId) -> (r: bool)
        ensures
            r == self.is_marked(id),
    {
        broadcast use vstd::std_specs::hash::group_hash_axioms;

        let number = id.value();
        self.lib_config_selections.contains(&number)
    }

    /// Marks the directory `id` if it is not marked, and takes its mark
    /// away if it is.
    pub fn toggle_selection(&mut self, id: LibraryPathId)
        ensures
            final(self).lib_config_selections@ == if old(self).is_marked(id) {
                old(self).lib_config_selections@.remove(id@)
            } else {
                old(self).lib_config_selections@.insert(id@)
            },
            final(self).library == old(self).library,
            final(self).player == old(self).player,
            final(self).playlists == old(self).playlists,
            final(self).current_playlist_idx == old(self).current_playlist_idx,
    {
        broadcast use vstd::std_specs::hash::group_hash_axioms;

        let number = id.value();
        if self.lib_config_selections.contains(&number) {
            self.lib_config_selections.remove(&number);
        } else {
            self.lib_config_selections.insert(number);
        }
    }

    /// The directories that are marked, each once, in the order in which
    /// the set hands them out. The order is the set's own and may differ
    /// from one call to the next.
    pub fn selected_paths(&self) -> (order: Vec<LibraryPathId>)
        ensures
            is_walk_of(order@, self.lib_config_selections@),
    {
        broadcast use vstd::std_specs::hash::group_hash_axioms;

        let mut order: Vec<LibraryPathId> = Vec::new();
        for number in it: self.lib_config_selections.iter()
            invariant
                order@.len() == it.index(),
                it.seq() == vstd::std_specs::hash::spec_hash_keys_iter(
                    &self.lib_config_selections,
                ).remaining(),
                forall|k: int| 0 <= k < order@.len() ==> (#[trigger] order@[k])@ == *it.seq()[k],
        {
            order.push(LibraryPathId::new(*number));
        }
        assert(numbers(order@) =~= vstd::std_specs::hash::spec_hash_keys_iter(
            &self.lib_config_selections,
        ).remaining().unref());
        order
    }

    /// Forgets, in the library, every directory that is marked, one after
    /// the other in the order in which the set of marks hands them out. The
    /// marks stay.
    pub fn remove_selected_paths(&mut self)
        ensures
            final(self).lib_config_selections == old(self).lib_config_selections,
            final(self).player == old(self).player,
            final(self).playlists == old(self).playlists,
            final(self).current_playlist_idx == old(self).current_playlist_idx,
            exists|order: Seq<LibraryPathId>|
                #![trigger is_walk_of(order, old(self).lib_config_selections@)]
                is_walk_of(order, old(self).lib_config_selections@) && forgot_all(
                    old(self).library,
                    final(self).library,
                    order,
                ),
    {
        let order = self.selected_paths();
        let mut i: usize = 0;
        while i < order.len()
            invariant
                i <= order.len(),
                self.lib_config_selections == old(self).lib_config_selections,
                self.player == old(self).player,
                self.playlists == old(self).playlists,
                self.current_playlist_idx == old(self).current_playlist_idx,
                forgot_all(old(self).library, self.library, order@.take(i as int)),
            decreases order.len() - i,
        {
            let path_id = order[i];
            self.library.remove_path(path_id);
            assert(order@.take(i + 1).drop_last() == order@.take(i as int));
            i += 1;
        }
        assert(order@.take(order.len() as int) == order@);
    }

    /// Closes the configuration of the library and hands out the
    /// directories that still have to be imported.
    pub fn save_library_config(&mut self) -> (pending: Vec<LibraryPath>)
        ensures
            *final(self) == (App { is_library_cfg_open: false, ..*old(self) }),
            path_views(pending@) == path_views(old(self).library.path_seq()).filter(
                awaits_import(),
            ),
    {
        let ghost wanted = awaits_import();
        let mut pending: Vec<LibraryPath> = Vec::new();
        let paths = self.library.paths();
        let ghost views = path_views(paths@);
        let mut i: usize = 0;
        while i < paths.len()
            invariant
                i <= paths.len(),
                views == path_views(paths@),
                wanted == awaits_import(),
                path_views(pending@) == views.take(i as int).filter(wanted),
            decreases paths.len() - i,
        {
            let ghost before = path_views(pending@);
            proof {
                assert(views.take(i + 1) == views.take(i as int).push(views[i as int]));
                assert(views[i as int] == paths@[i as int]@);
                views.take(i as int).lemma_filter_push(views[i as int], wanted);
            }
            if paths[i].status() == LibraryPathStatus::NotImported {
                pending.push(paths[i].clone());
                assert(path_views(pending@) =~= before.push(views[i as int]));
            }
            i += 1;
        }
        assert(views.take(paths.len() as int) == views);
        self.is_library_cfg_open = false;
        pending
    }
}

/// Accepts the directories that have not been imported yet.
pub open spec fn awaits_import() -> spec_fn(LibraryPathView) -> bool {
    |p: LibraryPathView| p.status == LibraryPathStatus::NotImported
}

/// The numbers of a sequence of ids.
pub open spec fn numbers(ids: Seq<LibraryPathId>) -> Seq<usize> {
    ids.map_values(|id: LibraryPathId| id@)
}

/// Whether `order` is one way to walk through the marks: it names every
/// marked directory, each once, and no other.
pub open spec fn is_walk_of(order: Seq<LibraryPathId>, marked: Set<usize>) -> bool {
    numbers(order).no_duplicates() && numbers(order).to_set() == marked
}

/// Whether `after` is the library `before` once each of `ids` has been
/// forgotten in turn.
pub open spec fn forgot_all(before: Library, after: Library, ids: Seq<LibraryPathId>) -> bool {
    &&& after.path_seq() == paths_without_all(before.path_seq(), ids)
    &&& after.item_seq() == items_without_all(before.item_seq(), ids)
    &&& container_views(after.group_seq()) == groups_without_all(
        container_views(before.group_seq()),
        ids,
    )
}

/// The directories once each of `ids` has been forgotten in turn.
pub open spec fn paths_without_all(paths: Seq<LibraryPath>, ids: Seq<LibraryPathId>) -> Seq<
    LibraryPath,
>
    decreases ids.len(),
{
    if ids.len() == 0 {
        paths
    } else {
        without_path(paths_without_all(paths, ids.drop_last()), ids.last())
    }
}

/// The tracks once each of `ids` has been forgotten in turn.
pub open spec fn items_without_all(items: Seq<LibraryItem>, ids: Seq<LibraryPathId>) -> Seq<
    LibraryItem,
>
    decreases ids.len(),
{
    if ids.len() == 0 {
        items
    } else {
        purged(items_without_all(items, ids.drop_last()), belongs_to(ids.last()))
    }
}

/// The groups once each of `ids` has been forgotten in turn.
pub open spec fn groups_without_all(
    groups: Seq<ContainerView>,
    ids: Seq<LibraryPathId>,
) -> Seq<ContainerView>
    decreases ids.len(),
{
    if ids.len() == 0 {
        groups
    } else {
        groups_without(groups_without_all(groups, ids.drop_last()), ids.last())
    }
}

} // verus!
