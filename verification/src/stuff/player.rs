//! A transport that drives an output sink directly. Every method returns
//! what is to be done to the sink, if anything.

use crate::player::FULL_VOLUME;
use crate::purge::first_hit;
use crate::stuff::playlist::{lies_at, Playlist, Track};
use vstd::prelude::*;
use vstd::string::StringExecFns;

verus! {

/// What the transport shows of the current track.
#[derive(Debug, Clone, Copy, PartialEq, Eq, Structural)]
pub enum TrackState {
    Unstarted,
    Stopped,
    Playing,
    Paused,
}

impl TrackState {
    /// The name of the state as it is printed.
    pub open spec fn label(self) -> Seq<char> {
        match self {
            TrackState::Unstarted => "Unstarted"@,
            TrackState::Stopped => "Stopped"@,
            TrackState::Playing => "Playing"@,
            TrackState::Paused => "Paused"@,
        }
    }

    pub fn to_string(&self) -> (r: String)
        ensures
            r@ == self.label(),
    {
        match self {
            TrackState::Unstarted => String::from_str("Unstarted"),
            TrackState::Stopped => String::from_str("Stopped"),
            TrackState::Playing => String::from_str("Playing"),
            TrackState::Paused => String::from_str("Paused"),
        }
    }
}

/// What is to be done to the output sink.
#[derive(Debug, PartialEq, Eq)]
pub enum SinkAction {
    /// Stop and drop what is queued.
    Stop,
    /// Open the file at this path, decode it and play it from the start.
    PlayFile(String),
    /// Go on where the sink was paused.
    Resume,
    Pause,
    /// Set the gain, given by its bit pattern.
    SetVolume(u32),
}

/// A [`SinkAction`] as plain values.
pub enum SinkActionView {
    Stop,
    PlayFile(Seq<char>),
    Resume,
    Pause,
    SetVolume(u32),
}

impl View for SinkAction {
    type V = SinkActionView;

    open spec fn view(&self) -> SinkActionView {
        match self {
            SinkAction::Stop => SinkActionView::Stop,
            SinkAction::PlayFile(path) => SinkActionView::PlayFile(path@),
            SinkAction::Resume => SinkActionView::Resume,
            SinkAction::Pause => SinkActionView::Pause,
            SinkAction::SetVolume(volume) => SinkActionView::SetVolume(*volume),
        }
    }
}

/// The view of an action that may be due.
pub open spec fn due(action: Option<SinkAction>) -> Option<SinkActionView> {
    match action {
        Some(a) => Some(a@),
        None => None,
    }
}

#[derive(Debug)]
pub struct Player {
    pub track_state: TrackState,
    pub selected_track: Option<Track>,
    /// The gain, as a bit pattern.
    pub volume: u32,
}

impl Default for Player {
    fn default() -> (r: Self)
        ensures
            r.track_state == TrackState::Unstarted,
            r.selected_track is None,
            r.volume == FULL_VOLUME,
    {
        Self { track_state: TrackState::Unstarted, selected_track: None, volume: FULL_VOLUME }
    }
}

impl Player {
    /// What playing the selected track does once the state has been looked
    /// at: a paused sink goes on, any other starts the file of the track.
    pub open spec fn play_action(state: TrackState, track: Track) -> SinkActionView {
        if state == TrackState::Paused {
            SinkActionView::Resume
        } else {
            SinkActionView::PlayFile(track@)
        }
    }

    /// Where the selected track stands in `playlist`, if a track is selected
    /// and the playlist has it.
    pub open spec fn position_in(&self, playlist: &Playlist) -> Option<int> {
        match self.selected_track {
            Some(track) => {
                let i = first_hit(playlist.tracks@, lies_at(track@));
                if i < playlist.tracks@.len() {
                    Some(i)
                } else {
                    None
                }
            },
            None => None,
        }
    }

    /// A transport with nothing selected, at full volume.
    pub fn new() -> (r: Self)
        ensures
            r.track_state == TrackState::Unstarted,
            r.selected_track is None,
            r.volume == FULL_VOLUME,
    {
        Self { track_state: TrackState::Unstarted, selected_track: None, volume: FULL_VOLUME }
    }

    pub fn is_stopped(&self) -> (r: bool)
        ensures
            r == (self.track_state == TrackState::Stopped),
    {
        match self.track_state {
            TrackState::Stopped => true,
            _ => false,
        }
    }

    /// Stops a track that plays or is paused. In any other state nothing
    /// happens.
    pub fn stop(&mut self) -> (action: Option<SinkAction>)
        ensures
            old(self).track_state == TrackState::Playing || old(self).track_state
                == TrackState::Paused ==> *final(self) == (Player {
                track_state: TrackState::Stopped,
                ..*old(self)
            }) && due(action) == Some(SinkActionView::Stop),
            !(old(self).track_state == TrackState::Playing || old(self).track_state
                == TrackState::Paused) ==> *final(self) == *old(self) && due(action) is None,
    {
        match self.track_state {
            TrackState::Playing | TrackState::Paused => {
                self.track_state = TrackState::Stopped;
                Some(SinkAction::Stop)
            },
            _ => None,
        }
    }

    /// Plays the selected track: a paused one goes on, any other starts
    /// from the beginning. Without a selected track nothing happens.
    pub fn play(&mut self) -> (action: Option<SinkAction>)
        ensures
            match old(self).selected_track {
                Some(track) => *final(self) == (Player {
                    track_state: TrackState::Playing,
                    ..*old(self)
                }) && due(action) == Some(Self::play_action(old(self).track_state, track)),
                None => *final(self) == *old(self) && due(action) is None,
            },
    {
        match &self.selected_track {
            Some(selected_track) => {
                let action = match self.track_state {
                    TrackState::Paused => SinkAction::Resume,
                    _ => SinkAction::PlayFile(selected_track.path.clone()),
                };
                self.track_state = TrackState::Playing;
                Some(action)
            },
            None => None,
        }
    }

    /// Toggles between playing and paused. In any other state nothing
    /// happens.
    pub fn pause(&mut self) -> (action: Option<SinkAction>)
        ensures
            match old(self).track_state {
                TrackState::Playing => *final(self) == (Player {
                    track_state: TrackState::Paused,
                    ..*old(self)
                }) && due(action) == Some(SinkActionView::Pause),
                TrackState::Paused => *final(self) == (Player {
                    track_state: TrackState::Playing,
                    ..*old(self)
                }) && due(action) == Some(SinkActionView::Resume),
                _ => *final(self) == *old(self) && due(action) is None,
            },
    {
        match self.track_state {
            TrackState::Playing => {
                self.track_state = TrackState::Paused;
                Some(SinkAction::Pause)
            },
            TrackState::Paused => {
                self.track_state = TrackState::Playing;
                Some(SinkAction::Resume)
            },
            _ => None,
        }
    }

    /// Steps to the track before the selected one in `playlist` and plays
    /// it. Nothing happens if no track is selected, if the playlist does not
    /// have it, or if it is the first.
    pub fn previous(&mut self, playlist: &Playlist) -> (action: Option<SinkAction>)
        ensures
            match old(self).position_in(playlist) {
                Some(i) if i > 0 => {
                    &&& *final(self) == (Player {
                        selected_track: Some(playlist.tracks@[i - 1]),
                        track_state: TrackState::Playing,
                        ..*old(self)
                    })
                    &&& due(action) == Some(
                        Self::play_action(old(self).track_state, playlist.tracks@[i - 1]),
                    )
                },
                _ => *final(self) == *old(self) && due(action) is None,
            },
    {
        let position = match &self.selected_track {
            Some(selected_track) => playlist.get_pos(selected_track),
            None => None,
        };
        if let Some(current_track_position) = position {
            if current_track_position > 0 {
                let previous_track = &playlist.tracks[current_track_position - 1];
                self.selected_track = Some(previous_track.clone());
                return self.play();
            }
        }
        None
    }

    /// Steps to the track after the selected one in `playlist` and plays it.
    /// Nothing happens if no track is selected, if the playlist does not
    /// have it, or if it is the last.
    pub fn next(&mut self, playlist: &Playlist) -> (action: Option<SinkAction>)
        ensures
            match old(self).position_in(playlist) {
                Some(i) if i + 1 < playlist.tracks@.len() => {
                    &&& *final(self) == (Player {
                        selected_track: Some(playlist.tracks@[i + 1]),
                        track_state: TrackState::Playing,
                        ..*old(self)
                    })
                    &&& due(action) == Some(
                        Self::play_action(old(self).track_state, playlist.tracks@[i + 1]),
                    )
                },
                _ => *final(self) == *old(self) && due(action) is None,
            },
    {
        let position = match &self.selected_track {
            Some(selected_track) => playlist.get_pos(selected_track),
            None => None,
        };
        if let Some(current_track_position) = position {
            if current_track_position < playlist.tracks.len() - 1 {
                let next_track = &playlist.tracks[current_track_position + 1];
                self.selected_track = Some(next_track.clone());
                return self.play();
            }
        }
        None
    }

    /// Sets the gain, here and at the sink.
    pub fn set_volume(&mut self, volume: u32) -> (action: SinkAction)
        ensures
            *final(self) == (Player { volume, ..*old(self) }),
            action@ == SinkActionView::SetVolume(volume),
    {
        self.volume = volume;
        SinkAction::SetVolume(volume)
    }
}

} // verus!
