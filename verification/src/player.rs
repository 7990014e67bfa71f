//! The transport as the interface sees it: which track is selected, whether
//! it plays, and which commands each button press sends to the audio engine.
//!
//! Nothing here sends anything. Every method returns the commands that are
//! due, in the order in which they are to be sent.

use crate::command::{command_views, sent, AudioCommand, AudioCommandView};
use crate::library::LibraryItem;
use crate::playlist::{equals, Playlist};
use crate::purge::first_hit;
use vstd::prelude::*;
use vstd::string::StringExecFns;

verus! {

/// What the transport shows of the current track.
#[derive(Debug, Clone, Copy, PartialEq, Eq, Structural)]
pub enum TrackState {
    Unstarted,
    Stopped,
    Playing,
    Paused,
}

impl TrackState {
    /// The name of the state as the footer prints it.
    pub open spec fn label(self) -> Seq<char> {
        match self {
            TrackState::Unstarted => "Unstarted"@,
            TrackState::Stopped => "Stopped"@,
            TrackState::Playing => "Playing"@,
            TrackState::Paused => "Paused"@,
        }
    }

    pub fn to_string(&self) -> (r: String)
        ensures
            r@ == self.label(),
    {
        match self {
            TrackState::Unstarted => String::from_str("Unstarted"),
            TrackState::Stopped => String::from_str("Stopped"),
            TrackState::Playing => String::from_str("Playing"),
            TrackState::Paused => String::from_str("Paused"),
        }
    }
}

/// The gain of full volume: the bit pattern of 1.0.
pub const FULL_VOLUME: u32 = 0x3f80_0000;

/// The sample rate assumed until the engine reports one: the bit pattern of
/// 44100.0.
pub const DEFAULT_SAMPLE_RATE: u32 = 0x472c_4400;

#[derive(Debug)]
pub struct Player {
    pub track_state: TrackState,
    pub selected_track: Option<LibraryItem>,
    /// The gain, as a bit pattern.
    pub volume: u32,
    pub seek_to_timestamp: u64,
    pub duration: u64,
    /// The sample rate of the track, as a bit pattern.
    pub sample_rate: u32,
}

/// The commands that stepping from the selected track to a neighbour sends:
/// load the neighbour's file, then play.
pub open spec fn step_commands(neighbour: LibraryItem) -> Seq<AudioCommandView> {
    seq![AudioCommandView::LoadFile(neighbour@.path), AudioCommandView::Play]
}

impl Player {
    /// Where the selected track stands in `playlist`, if a track is selected
    /// and the playlist has it.
    pub open spec fn position_in(&self, playlist: &Playlist) -> Option<int> {
        match self.selected_track {
            Some(track) => {
                let i = first_hit(playlist.tracks@, equals(track@));
                if i < playlist.tracks@.len() {
                    Some(i)
                } else {
                    None
                }
            },
            None => None,
        }
    }

    /// A transport with nothing selected, at full volume.
    pub fn new() -> (r: Self)
        ensures
            r.track_state == TrackState::Unstarted,
            r.selected_track is None,
            r.volume == FULL_VOLUME,
            r.seek_to_timestamp == 0,
            r.duration == 0,
            r.sample_rate == DEFAULT_SAMPLE_RATE,
    {
        Self {
            track_state: TrackState::Unstarted,
            selected_track: None,
            volume: FULL_VOLUME,
            seek_to_timestamp: 0,
            duration: 0,
            sample_rate: DEFAULT_SAMPLE_RATE,
        }
    }

    /// Selects `track`, or nothing. For a track, the engine is to load its
    /// file.
    pub fn select_track(&mut self, track: Option<LibraryItem>) -> (command: Option<AudioCommand>)
        ensures
            *final(self) == (Player { selected_track: track, ..*old(self) }),
            match track {
                Some(t) => sent(command) == Some(AudioCommandView::LoadFile(t@.path)),
                None => sent(command) is None,
            },
    {
        self.selected_track = track;
        match &self.selected_track {
            Some(track) => Some(AudioCommand::LoadFile(track.path())),
            None => None,
        }
    }

    pub fn is_stopped(&self) -> (r: bool)
        ensures
            r == (self.track_state == TrackState::Stopped),
    {
        match self.track_state {
            TrackState::Stopped => true,
            _ => false,
        }
    }

    /// Moves the position to `seek_to_timestamp` and has the engine seek
    /// there.
    pub fn seek_to(&mut self, seek_to_timestamp: u64) -> (command: AudioCommand)
        ensures
            *final(self) == (Player { seek_to_timestamp, ..*old(self) }),
            command@ == AudioCommandView::Seek(seek_to_timestamp),
    {
        self.seek_to_timestamp = seek_to_timestamp;
        AudioCommand::Seek(seek_to_timestamp)
    }

    /// Stops a track that plays or is paused. In any other state nothing
    /// happens.
    pub fn stop(&mut self) -> (command: Option<AudioCommand>)
        ensures
            old(self).track_state == TrackState::Playing || old(self).track_state
                == TrackState::Paused ==> *final(self) == (Player {
                track_state: TrackState::Stopped,
                ..*old(self)
            }) && sent(command) == Some(AudioCommandView::Stop),
            !(old(self).track_state == TrackState::Playing || old(self).track_state
                == TrackState::Paused) ==> *final(self) == *old(self) && sent(command) is None,
    {
        match self.track_state {
            TrackState::Playing | TrackState::Paused => {
                self.track_state = TrackState::Stopped;
                Some(AudioCommand::Stop)
            },
            _ => None,
        }
    }

    /// Plays the selected track, whatever the state was. Without a selected
    /// track nothing happens.
    pub fn play(&mut self) -> (command: Option<AudioCommand>)
        ensures
            old(self).selected_track is Some ==> *final(self) == (Player {
                track_state: TrackState::Playing,
                ..*old(self)
            }) && sent(command) == Some(AudioCommandView::Play),
            old(self).selected_track is None ==> *final(self) == *old(self) && sent(command) is None,
    {
        if self.selected_track.is_some() {
            self.track_state = TrackState::Playing;
            Some(AudioCommand::Play)
        } else {
            None
        }
    }

    /// Toggles between playing and paused. In any other state nothing
    /// happens.
    pub fn pause(&mut self) -> (command: Option<AudioCommand>)
        ensures
            match old(self).track_state {
                TrackState::Playing => *final(self) == (Player {
                    track_state: TrackState::Paused,
                    ..*old(self)
                }) && sent(command) == Some(AudioCommandView::Pause),
                TrackState::Paused => *final(self) == (Player {
                    track_state: TrackState::Playing,
                    ..*old(self)
                }) && sent(command) == Some(AudioCommandView::Play),
                _ => *final(self) == *old(self) && sent(command) is None,
            },
    {
        match self.track_state {
            TrackState::Playing => {
                self.track_state = TrackState::Paused;
                Some(AudioCommand::Pause)
            },
            TrackState::Paused => {
                self.track_state = TrackState::Playing;
                Some(AudioCommand::Play)
            },
            _ => None,
        }
    }

    /// Steps to the track before the selected one in `playlist` and plays it.
    /// Nothing happens if no track is selected, if the playlist does not have
    /// it, or if it is the first.
    pub fn previous(&mut self, playlist: &Playlist) -> (commands: Vec<AudioCommand>)
        ensures
            match old(self).position_in(playlist) {
                Some(i) if i > 0 => {
                    &&& *final(self) == (Player {
                        selected_track: Some(playlist.tracks@[i - 1]),
                        track_state: TrackState::Playing,
                        ..*old(self)
                    })
                    &&& command_views(commands@) == step_commands(playlist.tracks@[i - 1])
                },
                _ => *final(self) == *old(self) && commands@.len() == 0,
            },
    {
        let mut commands: Vec<AudioCommand> = Vec::new();
        let position = match &self.selected_track {
            Some(selected_track) => playlist.get_pos(selected_track),
            None => None,
        };
        if let Some(current_track_position) = position {
            if current_track_position > 0 {
                let previous_track = playlist.tracks[current_track_position - 1].clone();
                if let Some(load) = self.select_track(Some(previous_track)) {
                    commands.push(load);
                }
                if let Some(play) = self.play() {
                    commands.push(play);
                }
                assert(command_views(commands@) =~= step_commands(
                    playlist.tracks@[current_track_position - 1],
                ));
            }
        }
        commands
    }

    /// Steps to the track after the selected one in `playlist` and plays it.
    /// Nothing happens if no track is selected, if the playlist does not have
    /// it, or if it is the last.
    pub fn next(&mut self, playlist: &Playlist) -> (commands: Vec<AudioCommand>)
        ensures
            match old(self).position_in(playlist) {
                Some(i) if i + 1 < playlist.tracks@.len() => {
                    &&& *final(self) == (Player {
                        selected_track: Some(playlist.tracks@[i + 1]),
                        track_state: TrackState::Playing,
                        ..*old(self)
                    })
                    &&& command_views(commands@) == step_commands(playlist.tracks@[i + 1])
                },
                _ => *final(self) == *old(self) && commands@.len() == 0,
            },
    {
        let mut commands: Vec<AudioCommand> = Vec::new();
        let position = match &self.selected_track {
            Some(selected_track) => playlist.get_pos(selected_track),
            None => None,
        };
        if let Some(current_track_position) = position {
            if current_track_position < playlist.tracks.len() - 1 {
                let next_track = playlist.tracks[current_track_position + 1].clone();
                if let Some(load) = self.select_track(Some(next_track)) {
                    commands.push(load);
                }
                if let Some(play) = self.play() {
                    commands.push(play);
                }
                assert(command_views(commands@) =~= step_commands(
                    playlist.tracks@[current_track_position + 1],
                ));
            }
        }
        commands
    }

    /// Takes a new gain from the slider, unless an earlier change is still in
    /// flight. A change that is taken raises the flag, sets the gain and is
    /// sent to the engine; one that is not changes nothing.
    pub fn set_volume(&mut self, volume: u32, is_processing_ui_change: &mut bool) -> (command:
        Option<AudioCommand>)
        ensures
            *final(is_processing_ui_change),
            !*old(is_processing_ui_change) ==> {
                &&& *final(self) == (Player { volume, ..*old(self) })
                &&& sent(command) == Some(AudioCommandView::SetVolume(volume))
            },
            *old(is_processing_ui_change) ==> *final(self) == *old(self) && sent(command) is None,
    {
        if !*is_processing_ui_change {
            *is_processing_ui_change = true;
            self.volume = volume;
            Some(AudioCommand::SetVolume(volume))
        } else {
            None
        }
    }

    /// Takes the position that the engine reports.
    pub fn set_seek_to_timestamp(&mut self, seek_to_timestamp: u64)
        ensures
            *final(self) == (Player { seek_to_timestamp, ..*old(self) }),
    {
        self.seek_to_timestamp = seek_to_timestamp;
    }

    /// Takes the length of the track that the engine reports.
    pub fn set_duration(&mut self, duration: u64)
        ensures
            *final(self) == (Player { duration, ..*old(self) }),
    {
        self.duration = duration;
    }

    /// Takes the sample rate that the engine reports.
    pub fn set_sample_rate(&mut self, sample_rate: u32)
        ensures
            *final(self) == (Player { sample_rate, ..*old(self) }),
    {
        self.sample_rate = sample_rate;
    }
}

} // verus!
