//! The two message types between the interface and the audio engine. Each
//! travels on a queue of its own: commands one way, telemetry the other.
//!
//! Gains and sample rates are single-precision numbers; they are carried here
//! as their IEEE 754 bit patterns, which this crate passes on and never
//! computes with.

use crate::library::{LibraryItem, LibraryPathId, LibraryView};
use vstd::prelude::*;

verus! {

/// What the interface asks of the audio engine.
#[derive(Debug, PartialEq, Eq)]
pub enum AudioCommand {
    Stop,
    Play,
    Pause,
    /// Go to a timestamp, in the units of the decoder.
    Seek(u64),
    /// Open the file at this path and play it.
    LoadFile(String),
    Select(usize),
    /// Set the gain, given by its bit pattern.
    SetVolume(u32),
}

/// An [`AudioCommand`] as plain values.
pub enum AudioCommandView {
    Stop,
    Play,
    Pause,
    Seek(u64),
    LoadFile(Seq<char>),
    Select(usize),
    SetVolume(u32),
}

impl View for AudioCommand {
    type V = AudioCommandView;

    open spec fn view(&self) -> AudioCommandView {
        match self {
            AudioCommand::Stop => AudioCommandView::Stop,
            AudioCommand::Play => AudioCommandView::Play,
            AudioCommand::Pause => AudioCommandView::Pause,
            AudioCommand::Seek(ts) => AudioCommandView::Seek(*ts),
            AudioCommand::LoadFile(path) => AudioCommandView::LoadFile(path@),
            AudioCommand::Select(idx) => AudioCommandView::Select(*idx),
            AudioCommand::SetVolume(volume) => AudioCommandView::SetVolume(*volume),
        }
    }
}

impl Clone for AudioCommand {
    fn clone(&self) -> (r: Self)
        ensures
            r == *self,
    {
        match self {
            AudioCommand::Stop => AudioCommand::Stop,
            AudioCommand::Play => AudioCommand::Play,
            AudioCommand::Pause => AudioCommand::Pause,
            AudioCommand::Seek(ts) => AudioCommand::Seek(*ts),
            AudioCommand::LoadFile(path) => AudioCommand::LoadFile(path.clone()),
            AudioCommand::Select(idx) => AudioCommand::Select(*idx),
            AudioCommand::SetVolume(volume) => AudioCommand::SetVolume(*volume),
        }
    }
}

/// The view of a command that may be due.
pub open spec fn sent(command: Option<AudioCommand>) -> Option<AudioCommandView> {
    match command {
        Some(c) => Some(c@),
        None => None,
    }
}

/// The views of a sequence of commands.
pub open spec fn command_views(commands: Seq<AudioCommand>) -> Seq<AudioCommandView> {
    commands.map_values(|c: AudioCommand| c@)
}

/// What the interface is told: by the audio engine about playback, and by the
/// importer about the library.
#[derive(Debug, PartialEq, Eq)]
pub enum UiCommand {
    /// The track has ended.
    AudioFinished,
    /// The length of the loaded track, in the units of the decoder.
    TotalTrackDuration(u64),
    /// Where playback is, in the units of the decoder.
    CurrentTimestamp(u64),
    /// The sample rate of the output, given by its bit pattern.
    SampleRate(u32),
    LibraryAddView(LibraryView),
    LibraryAddItem(LibraryItem),
    LibraryAddPathId(LibraryPathId),
}

} // verus!
