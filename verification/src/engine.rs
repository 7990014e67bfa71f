//! The audio engine as a state machine. The engine decides; the thread that
//! owns the reader, the decoder and the output device does what it decides.
//!
//! One round of that thread goes: poll the command queue and hand the result
//! to [`AudioEngine::begin_round`]; do the task that comes back; hand what
//! the task came to back to the engine (`track_opened`, `packet_read`, ...),
//! which says what to send to the interface and what to do with the data.

use crate::command::{sent, AudioCommand, AudioCommandView, UiCommand};
use crate::pipeline::{
    is_end_of_stream, marks_end_of_stream, options_after, DecodeError, PlayTrackOptions,
    SeekResult, StreamError, StreamErrorView, TrackHandle, TrackInfo,
};
use crate::player::FULL_VOLUME;
use vstd::prelude::*;

verus! {

/// The state of the engine.
#[derive(Debug, PartialEq, Eq)]
pub enum PlayerState {
    Unstarted,
    Stopped,
    Playing,
    Paused,
    /// A file is to be loaded.
    LoadFile(String),
    /// Playback is to go to a timestamp.
    SeekTo(u64),
}

/// A [`PlayerState`] as plain values.
pub enum PlayerStateView {
    Unstarted,
    Stopped,
    Playing,
    Paused,
    LoadFile(Seq<char>),
    SeekTo(u64),
}

impl View for PlayerState {
    type V = PlayerStateView;

    open spec fn view(&self) -> PlayerStateView {
        match self {
            PlayerState::Unstarted => PlayerStateView::Unstarted,
            PlayerState::Stopped => PlayerStateView::Stopped,
            PlayerState::Playing => PlayerStateView::Playing,
            PlayerState::Paused => PlayerStateView::Paused,
            PlayerState::LoadFile(path) => PlayerStateView::LoadFile(path@),
            PlayerState::SeekTo(ts) => PlayerStateView::SeekTo(*ts),
        }
    }
}

/// The state that a command leaves. A seek, a stop, a pause, a play and a
/// load each set the state, whatever it was; anything else, and no command,
/// leaves it as it is.
pub open spec fn state_after(
    state: PlayerStateView,
    command: Option<AudioCommandView>,
) -> PlayerStateView {
    match command {
        Some(AudioCommandView::Seek(ts)) => PlayerStateView::SeekTo(ts),
        Some(AudioCommandView::Stop) => PlayerStateView::Stopped,
        Some(AudioCommandView::Pause) => PlayerStateView::Paused,
        Some(AudioCommandView::Play) => PlayerStateView::Playing,
        Some(AudioCommandView::LoadFile(path)) => PlayerStateView::LoadFile(path),
        _ => state,
    }
}

/// The gain that a command leaves.
pub open spec fn volume_after(volume: u32, command: Option<AudioCommandView>) -> u32 {
    match command {
        Some(AudioCommandView::SetVolume(v)) => v,
        _ => volume,
    }
}

/// Applies the command that the poll of the queue brought, if it brought
/// one, to the state and the gain of the engine.
pub fn process_audio_cmd(command: Option<AudioCommand>, state: &mut PlayerState, volume: &mut u32)
    ensures
        final(state)@ == state_after(old(state)@, sent(command)),
        *final(volume) == volume_after(*old(volume), sent(command)),
{
    match command {
        Some(AudioCommand::Seek(ts)) => {
            *state = PlayerState::SeekTo(ts);
        },
        Some(AudioCommand::Stop) => {
            *state = PlayerState::Stopped;
        },
        Some(AudioCommand::Pause) => {
            *state = PlayerState::Paused;
        },
        Some(AudioCommand::Play) => {
            *state = PlayerState::Playing;
        },
        Some(AudioCommand::LoadFile(path)) => {
            *state = PlayerState::LoadFile(path);
        },
        Some(AudioCommand::SetVolume(vol)) => {
            *volume = vol;
        },
        _ => {},
    }
}

/// What a packet says of itself.
#[derive(Debug, Clone, Copy, PartialEq, Eq, Structural)]
pub struct PacketInfo {
    pub track_id: u32,
    pub ts: u64,
}

/// What the engine wants done before it hears again.
#[derive(Debug, PartialEq, Eq)]
pub enum EngineTask {
    /// Nothing.
    Idle,
    /// Flush the output and close it, and drop the decoder. Then call
    /// [`AudioEngine::halted`].
    Halt,
    /// Flush the output and close it, drop the decoder, open the file at
    /// `path` and seek to `seek_ts`. Then call
    /// [`AudioEngine::track_opened`].
    Open { path: String, seek_ts: u64 },
    /// Flush the output and seek the open reader to `seek_ts`. Then call
    /// [`AudioEngine::track_reseeked`].
    Reseek { seek_ts: u64 },
    /// Read the next packet. Then call [`AudioEngine::packet_read`].
    ReadPacket,
}

/// An [`EngineTask`] as plain values.
pub enum EngineTaskView {
    Idle,
    Halt,
    Open { path: Seq<char>, seek_ts: u64 },
    Reseek { seek_ts: u64 },
    ReadPacket,
}

impl View for EngineTask {
    type V = EngineTaskView;

    open spec fn view(&self) -> EngineTaskView {
        match self {
            EngineTask::Idle => EngineTaskView::Idle,
            EngineTask::Halt => EngineTaskView::Halt,
            EngineTask::Open { path, seek_ts } => EngineTaskView::Open {
                path: path@,
                seek_ts: *seek_ts,
            },
            EngineTask::Reseek { seek_ts } => EngineTaskView::Reseek { seek_ts: *seek_ts },
            EngineTask::ReadPacket => EngineTaskView::ReadPacket,
        }
    }
}

/// What to do with a packet that was read.
#[derive(Debug, PartialEq, Eq)]
pub struct PacketPlan {
    /// Whether to decode the packet and call
    /// [`AudioEngine::packet_decoded`].
    pub decode: bool,
    /// What to tell the interface, if anything.
    pub report: Option<UiCommand>,
}

/// What to do with a block that was decoded.
#[derive(Debug, Clone, Copy, PartialEq, Eq, Structural)]
pub struct WritePlan {
    /// Whether the output has to be opened first.
    pub open_sink: bool,
    /// Whether the block goes to the output. A block that does not is
    /// dropped.
    pub forward: bool,
}

/// The least number of milliseconds between two reports of the position.
pub const REPORT_INTERVAL_MS: u64 = 500;

/// The engine as plain values.
pub struct EngineView {
    pub state: PlayerStateView,
    /// The gain, as a bit pattern.
    pub volume: u32,
    /// The file that was loaded last.
    pub current_track_path: Option<Seq<char>>,
    /// The open decode context, if there is one.
    pub track: Option<TrackHandle>,
    /// Whether the output is open.
    pub sink_open: bool,
    /// When the position was last reported.
    pub last_report_ms: u64,
}

impl EngineView {
    /// The engine once the command of a round, if there is one, has been
    /// applied.
    pub open spec fn after_command(self, command: Option<AudioCommandView>) -> EngineView {
        EngineView {
            state: state_after(self.state, command),
            volume: volume_after(self.volume, command),
            ..self
        }
    }

    /// What the engine wants done in its state.
    pub open spec fn task(self) -> EngineTaskView {
        match self.state {
            PlayerStateView::LoadFile(path) => EngineTaskView::Open { path, seek_ts: 0 },
            PlayerStateView::SeekTo(seek_ts) => match (self.track, self.current_track_path) {
                (Some(_), _) => EngineTaskView::Reseek { seek_ts },
                (None, Some(path)) => EngineTaskView::Open { path, seek_ts },
                (None, None) => EngineTaskView::Idle,
            },
            PlayerStateView::Playing => match (self.track, self.current_track_path) {
                (Some(_), _) => EngineTaskView::ReadPacket,
                (None, Some(path)) => EngineTaskView::Open { path, seek_ts: 0 },
                (None, None) => EngineTaskView::Idle,
            },
            PlayerStateView::Stopped => if self.track is Some || self.sink_open {
                EngineTaskView::Halt
            } else {
                EngineTaskView::Idle
            },
            PlayerStateView::Paused | PlayerStateView::Unstarted => EngineTaskView::Idle,
        }
    }

    /// Whether the engine is on its way to playing: loading, seeking or
    /// playing.
    pub open spec fn is_starting(self) -> bool {
        self.state is LoadFile || self.state is SeekTo || self.state is Playing
    }

    /// The engine once an attempt to open a file has ended. The output is
    /// closed by then. A success is played; a failure stops the engine. Where
    /// the engine was doing something else, its state stays.
    pub open spec fn after_open(self, outcome: Result<TrackHandle, DecodeError>) -> EngineView {
        EngineView {
            state: if !self.is_starting() {
                self.state
            } else if outcome is Ok {
                PlayerStateView::Playing
            } else {
                PlayerStateView::Stopped
            },
            current_track_path: match self.state {
                PlayerStateView::LoadFile(path) => Some(path),
                _ => self.current_track_path,
            },
            track: match outcome {
                Ok(handle) => Some(handle),
                Err(_) => None,
            },
            sink_open: false,
            ..self
        }
    }

    /// What the interface is told once an attempt to open a file has ended:
    /// the length of the track, if a load succeeded.
    pub open spec fn open_report(self, outcome: Result<TrackHandle, DecodeError>) -> Option<
        UiCommand,
    > {
        match (self.state, outcome) {
            (PlayerStateView::LoadFile(_), Ok(handle)) => Some(
                UiCommand::TotalTrackDuration(handle.duration),
            ),
            _ => None,
        }
    }

    /// The engine once a seek of the open reader has ended.
    pub open spec fn after_reseek(self, outcome: Result<PlayTrackOptions, DecodeError>) -> EngineView {
        EngineView {
            state: if !self.is_starting() {
                self.state
            } else if outcome is Ok && self.track is Some {
                PlayerStateView::Playing
            } else {
                PlayerStateView::Stopped
            },
            track: match (outcome, self.track) {
                (Ok(options), Some(handle)) => Some(
                    TrackHandle {
                        track_id: options.track_id,
                        seek_ts: options.seek_ts,
                        duration: handle.duration,
                    },
                ),
                _ => None,
            },
            ..self
        }
    }

    /// Whether the engine plays and the packet belongs to the track it
    /// plays.
    pub open spec fn wants(self, packet: PacketInfo) -> bool {
        self.state is Playing && match self.track {
            Some(handle) => handle.track_id == packet.track_id,
            None => false,
        }
    }

    /// Whether a report of the position is due at `now_ms`.
    pub open spec fn report_due(self, now_ms: u64) -> bool {
        now_ms - self.last_report_ms > REPORT_INTERVAL_MS
    }

    /// Whether the packet is at or behind the position that playback starts
    /// from. A packet before it is decoded and dropped, and is no position
    /// of the playback.
    pub open spec fn is_heard(self, packet: PacketInfo) -> bool {
        match self.track {
            Some(handle) => packet.ts >= handle.seek_ts,
            None => false,
        }
    }

    /// Whether the position of the packet is reported at `now_ms`: the
    /// engine plays the track of the packet, the packet is not before the
    /// position that playback starts from, and a report is due.
    pub open spec fn reports(self, packet: PacketInfo, now_ms: u64) -> bool {
        self.wants(packet) && self.is_heard(packet) && self.report_due(now_ms)
    }

    /// The engine once a read has ended. While it plays, a failed read stops
    /// it, and a report of the position restarts the interval.
    pub open spec fn after_read(
        self,
        outcome: Result<PacketInfo, StreamErrorView>,
        now_ms: u64,
    ) -> EngineView {
        match outcome {
            Err(_) if self.state is Playing => EngineView {
                state: PlayerStateView::Stopped,
                ..self
            },
            Ok(packet) if self.reports(packet, now_ms) => EngineView {
                last_report_ms: now_ms,
                ..self
            },
            _ => self,
        }
    }

    /// What to do once a read has ended. While the engine plays, a failed
    /// read ends the track, and a packet of the track is decoded, with a
    /// report of its timestamp where one is due and the packet is not before
    /// the position that playback starts from. Anything else is passed over.
    pub open spec fn read_plan(
        self,
        outcome: Result<PacketInfo, StreamErrorView>,
        now_ms: u64,
    ) -> PacketPlan {
        match outcome {
            Err(_) if self.state is Playing => PacketPlan {
                decode: false,
                report: Some(UiCommand::AudioFinished),
            },
            Ok(packet) if self.wants(packet) => PacketPlan {
                decode: true,
                report: if self.reports(packet, now_ms) {
                    Some(UiCommand::CurrentTimestamp(packet.ts))
                } else {
                    None
                },
            },
            _ => PacketPlan { decode: false, report: None },
        }
    }

    /// Whether an error of the decoder ends the track: any error but
    /// malformed data, which costs one packet, and the end of the stream.
    pub open spec fn is_fatal(error: StreamErrorView) -> bool {
        !(error is Decode) && !marks_end_of_stream(error)
    }

    /// The engine once a packet of its track has been decoded. While it
    /// plays, a block opens the output, and a fatal error stops the engine.
    pub open spec fn after_decode(self, outcome: Result<(), StreamErrorView>) -> EngineView {
        if !(self.state is Playing) {
            self
        } else {
            match outcome {
                Ok(_) => EngineView { sink_open: true, ..self },
                Err(e) => if Self::is_fatal(e) {
                    EngineView { state: PlayerStateView::Stopped, ..self }
                } else {
                    self
                },
            }
        }
    }

    /// What to do with the block of the packet at `packet_ts`. While the
    /// engine plays a track, a block goes to the output if its packet is not
    /// before the position the seek led to.
    pub open spec fn write_plan(self, packet_ts: u64, outcome: Result<(), StreamErrorView>) -> WritePlan {
        if self.state is Playing && outcome is Ok {
            WritePlan {
                open_sink: !self.sink_open,
                forward: match self.track {
                    Some(handle) => packet_ts >= handle.seek_ts,
                    None => false,
                },
            }
        } else {
            WritePlan { open_sink: false, forward: false }
        }
    }

    /// The engine once the output has been flushed and closed and the
    /// decoder dropped.
    pub open spec fn after_halt(self) -> EngineView {
        EngineView { track: None, sink_open: false, ..self }
    }
}

/// The view of the outcome of a read.
pub open spec fn read_view(outcome: Result<PacketInfo, StreamError>) -> Result<
    PacketInfo,
    StreamErrorView,
> {
    match outcome {
        Ok(packet) => Ok(packet),
        Err(e) => Err(e@),
    }
}

/// The view of the outcome of decoding a packet.
pub open spec fn decode_view(outcome: Result<(), StreamError>) -> Result<(), StreamErrorView> {
    match outcome {
        Ok(_) => Ok(()),
        Err(e) => Err(e@),
    }
}

/// The audio engine.
#[derive(Debug)]
pub struct AudioEngine {
    state: PlayerState,
    volume: u32,
    current_track_path: Option<String>,
    track: Option<TrackHandle>,
    sink_open: bool,
    last_report_ms: u64,
}

impl View for AudioEngine {
    type V = EngineView;

    closed spec fn view(&self) -> EngineView {
        EngineView {
            state: self.state@,
            volume: self.volume,
            current_track_path: match self.current_track_path {
                Some(path) => Some(path@),
                None => None,
            },
            track: self.track,
            sink_open: self.sink_open,
            last_report_ms: self.last_report_ms,
        }
    }
}

impl AudioEngine {
    /// An engine that has not started, at full volume, with nothing loaded
    /// and the output closed. The interval of the reports starts at `now_ms`.
    pub fn new(now_ms: u64) -> (r: Self)
        ensures
            r@ == (EngineView {
                state: PlayerStateView::Unstarted,
                volume: FULL_VOLUME,
                current_track_path: None,
                track: None,
                sink_open: false,
                last_report_ms: now_ms,
            }),
    {
        Self {
            state: PlayerState::Unstarted,
            volume: FULL_VOLUME,
            current_track_path: None,
            track: None,
            sink_open: false,
            last_report_ms: now_ms,
        }
    }

    pub fn state(&self) -> (r: &PlayerState)
        ensures
            r@ == self@.state,
    {
        &self.state
    }

    /// The gain, as a bit pattern.
    pub fn volume(&self) -> (r: u32)
        ensures
            r == self@.volume,
    {
        self.volume
    }

    /// The open decode context, if there is one.
    pub fn track(&self) -> (r: Option<TrackHandle>)
        ensures
            r == self@.track,
    {
        self.track
    }

    /// Starts a round: applies the command that the poll of the queue
    /// brought, if it brought one, and says what is to be done next.
    pub fn begin_round(&mut self, command: Option<AudioCommand>) -> (task: EngineTask)
        ensures
            final(self)@ == old(self)@.after_command(sent(command)),
            task@ == final(self)@.task(),
    {
        process_audio_cmd(command, &mut self.state, &mut self.volume);
        match &self.state {
            PlayerState::LoadFile(path) => EngineTask::Open { path: path.clone(), seek_ts: 0 },
            PlayerState::SeekTo(seek_ts) => match (&self.track, &self.current_track_path) {
                (Some(_), _) => EngineTask::Reseek { seek_ts: *seek_ts },
                (None, Some(path)) => EngineTask::Open { path: path.clone(), seek_ts: *seek_ts },
                (None, None) => EngineTask::Idle,
            },
            PlayerState::Playing => match (&self.track, &self.current_track_path) {
                (Some(_), _) => EngineTask::ReadPacket,
                (None, Some(path)) => EngineTask::Open { path: path.clone(), seek_ts: 0 },
                (None, None) => EngineTask::Idle,
            },
            PlayerState::Stopped => if self.track.is_some() || self.sink_open {
                EngineTask::Halt
            } else {
                EngineTask::Idle
            },
            PlayerState::Paused | PlayerState::Unstarted => EngineTask::Idle,
        }
    }

    /// Takes what an [`EngineTask::Open`] came to and says what to tell the
    /// interface.
    pub fn track_opened(&mut self, outcome: Result<TrackHandle, DecodeError>) -> (report: Option<
        UiCommand,
    >)
        ensures
            final(self)@ == old(self)@.after_open(outcome),
            report == old(self)@.open_report(outcome),
    {
        let starting = match &self.state {
            PlayerState::LoadFile(_) | PlayerState::SeekTo(_) | PlayerState::Playing => true,
            _ => false,
        };
        let mut report: Option<UiCommand> = None;
        if let PlayerState::LoadFile(path) = &self.state {
            self.current_track_path = Some(path.clone());
            if let Ok(handle) = outcome {
                report = Some(UiCommand::TotalTrackDuration(handle.duration));
            }
        }
        match outcome {
            Ok(handle) => {
                self.track = Some(handle);
                if starting {
                    self.state = PlayerState::Playing;
                }
            },
            Err(_) => {
                self.track = None;
                if starting {
                    self.state = PlayerState::Stopped;
                }
            },
        }
        self.sink_open = false;
        report
    }

    /// Takes what an [`EngineTask::Reseek`] came to.
    pub fn track_reseeked(&mut self, outcome: Result<PlayTrackOptions, DecodeError>)
        ensures
            final(self)@ == old(self)@.after_reseek(outcome),
    {
        let starting = match &self.state {
            PlayerState::LoadFile(_) | PlayerState::SeekTo(_) | PlayerState::Playing => true,
            _ => false,
        };
        match (outcome, self.track) {
            (Ok(options), Some(handle)) => {
                self.track = Some(
                    TrackHandle {
                        track_id: options.track_id,
                        seek_ts: options.seek_ts,
                        duration: handle.duration,
                    },
                );
                if starting {
                    self.state = PlayerState::Playing;
                }
            },
            _ => {
                self.track = None;
                if starting {
                    self.state = PlayerState::Stopped;
                }
            },
        }
    }

    /// Takes what an [`EngineTask::ReadPacket`] came to, at the time
    /// `now_ms`, and says what to do with the packet.
    pub fn packet_read(&mut self, outcome: &Result<PacketInfo, StreamError>, now_ms: u64) -> (plan:
        PacketPlan)
        ensures
            final(self)@ == old(self)@.after_read(read_view(*outcome), now_ms),
            plan == old(self)@.read_plan(read_view(*outcome), now_ms),
    {
        let playing = match &self.state {
            PlayerState::Playing => true,
            _ => false,
        };
        if !playing {
            return PacketPlan { decode: false, report: None };
        }
        match outcome {
            Err(_) => {
                self.state = PlayerState::Stopped;
                PacketPlan { decode: false, report: Some(UiCommand::AudioFinished) }
            },
            Ok(packet) => {
                let handle = match self.track {
                    Some(handle) => handle,
                    None => {
                        return PacketPlan { decode: false, report: None };
                    },
                };
                if handle.track_id != packet.track_id {
                    return PacketPlan { decode: false, report: None };
                }
                let due = now_ms > self.last_report_ms && now_ms - self.last_report_ms
                    > REPORT_INTERVAL_MS;
                if due && packet.ts >= handle.seek_ts {
                    self.last_report_ms = now_ms;
                    PacketPlan {
                        decode: true,
                        report: Some(UiCommand::CurrentTimestamp(packet.ts)),
                    }
                } else {
                    PacketPlan { decode: true, report: None }
                }
            },
        }
    }

    /// Takes what decoding the packet at `packet_ts` came to and says what to
    /// do with the block.
    pub fn packet_decoded(&mut self, packet_ts: u64, outcome: &Result<(), StreamError>) -> (plan:
        WritePlan)
        ensures
            final(self)@ == old(self)@.after_decode(decode_view(*outcome)),
            plan == old(self)@.write_plan(packet_ts, decode_view(*outcome)),
    {
        let playing = match &self.state {
            PlayerState::Playing => true,
            _ => false,
        };
        if !playing {
            return WritePlan { open_sink: false, forward: false };
        }
        match outcome {
            Ok(_) => {
                let open_sink = !self.sink_open;
                self.sink_open = true;
                let forward = match self.track {
                    Some(handle) => packet_ts >= handle.seek_ts,
                    None => false,
                };
                WritePlan { open_sink, forward }
            },
            Err(e) => {
                let recoverable = match e {
                    StreamError::Decode => true,
                    _ => is_end_of_stream(e),
                };
                if !recoverable {
                    self.state = PlayerState::Stopped;
                }
                WritePlan { open_sink: false, forward: false }
            },
        }
    }

    /// Takes note that an [`EngineTask::Halt`] was done and says what to tell
    /// the interface: that the position is back at the start.
    pub fn halted(&mut self) -> (report: UiCommand)
        ensures
            final(self)@ == old(self)@.after_halt(),
            report == UiCommand::CurrentTimestamp(0),
    {
        self.track = None;
        self.sink_open = false;
        UiCommand::CurrentTimestamp(0)
    }
}

/// A load that fails leaves the engine stopped, tells the interface nothing
/// and leaves nothing to be done until a command comes.
pub proof fn lemma_failed_load_stops(engine: EngineView, error: DecodeError)
    requires
        engine.state is LoadFile,
    ensures
        engine.after_open(Err(error)).state == PlayerStateView::Stopped,
        engine.open_report(Err(error)) is None,
        engine.after_open(Err(error)).task() == EngineTaskView::Idle,
        engine.after_open(Err(error)).after_command(None) == engine.after_open(Err(error)),
{
}

/// A load that succeeds plays, and tells the interface the length of the
/// track before any position: the position is only reported of an open
/// track, and the track is open only from here on.
pub proof fn lemma_load_reports_duration(engine: EngineView, handle: TrackHandle)
    requires
        engine.state is LoadFile,
    ensures
        engine.after_open(Ok(handle)).state == PlayerStateView::Playing,
        engine.after_open(Ok(handle)).track == Some(handle),
        engine.open_report(Ok(handle)) == Some(UiCommand::TotalTrackDuration(handle.duration)),
        forall|outcome: Result<PacketInfo, StreamErrorView>, now_ms: u64|
            engine.track is None ==> !(#[trigger] engine.read_plan(outcome, now_ms).report matches Some(
                UiCommand::CurrentTimestamp(_),
            )),
{
}

/// A stop silences the engine. Whatever the engine was doing, the command
/// leaves it stopped; if a track or the output is open, the next thing it
/// wants is the flush; while it is stopped no packet is decoded and no block
/// goes to the output; and once the flush is done, no command alone makes a
/// block go to the output again: a file has to be opened first, and the
/// output with it.
pub proof fn lemma_stop_silences(engine: EngineView)
    ensures
        ({
            let stopped = engine.after_command(Some(AudioCommandView::Stop));
            &&& stopped.state == PlayerStateView::Stopped
            &&& engine.track is Some || engine.sink_open ==> stopped.task() == EngineTaskView::Halt
            &&& forall|outcome: Result<PacketInfo, StreamErrorView>, now_ms: u64|
                !(#[trigger] stopped.read_plan(outcome, now_ms)).decode
            &&& forall|ts: u64, outcome: Result<(), StreamErrorView>|
                !(#[trigger] stopped.write_plan(ts, outcome)).forward
            &&& !stopped.after_halt().sink_open
            &&& forall|command: Option<AudioCommandView>, ts: u64, outcome: Result<(), StreamErrorView>|
                !(#[trigger] stopped.after_halt().after_command(command).write_plan(
                    ts,
                    outcome,
                )).forward
            &&& forall|command: Option<AudioCommandView>|
                !((#[trigger] stopped.after_halt().after_command(command)).task()
                    is ReadPacket)
        }),
{
}

/// After a seek, no block of a packet before the position that the reader
/// reported goes to the output.
pub proof fn lemma_forwards_from_seek_position(
    engine: EngineView,
    options: PlayTrackOptions,
    packet_ts: u64,
)
    requires
        engine.after_reseek(Ok(options)).write_plan(packet_ts, Ok(())).forward,
    ensures
        packet_ts >= options.seek_ts,
{
}

/// After a seek that landed, no block of a packet before the timestamp that
/// the reader reported as required goes to the output.
pub proof fn lemma_forwards_from_required_ts(
    engine: EngineView,
    tracks: Seq<TrackInfo>,
    track_num: Option<usize>,
    required_ts: u64,
    packet_ts: u64,
)
    requires
        engine.after_reseek(
            options_after(tracks, track_num, Some(SeekResult::SeekedTo(required_ts))),
        ).write_plan(packet_ts, Ok(())).forward,
    ensures
        packet_ts >= required_ts,
{
}

/// No position before the one that playback starts from is reported: the
/// engine reports the timestamp of a packet only of the track it plays, and
/// only of a packet at or behind the position that the handle of the track
/// names.
pub proof fn lemma_reports_from_start_position(
    engine: EngineView,
    outcome: Result<PacketInfo, StreamErrorView>,
    now_ms: u64,
    ts: u64,
)
    requires
        engine.read_plan(outcome, now_ms).report == Some(UiCommand::CurrentTimestamp(ts)),
    ensures
        engine.state is Playing,
        engine.track matches Some(handle) && ts >= handle.seek_ts,
        outcome matches Ok(packet) && packet.ts == ts,
        engine.write_plan(ts, Ok(())).forward,
{
}

/// After a seek, every position that is reported is at or behind the
/// position that the reader reported: a packet before it is decoded and
/// dropped without a word to the interface.
pub proof fn lemma_reports_from_seek_position(
    engine: EngineView,
    options: PlayTrackOptions,
    outcome: Result<PacketInfo, StreamErrorView>,
    now_ms: u64,
    ts: u64,
)
    requires
        engine.after_reseek(Ok(options)).read_plan(outcome, now_ms).report == Some(
            UiCommand::CurrentTimestamp(ts),
        ),
    ensures
        ts >= options.seek_ts,
{
}

/// Of a file that was opened at a position, every position that is reported
/// is at or behind that position.
pub proof fn lemma_reports_from_open_position(
    engine: EngineView,
    handle: TrackHandle,
    outcome: Result<PacketInfo, StreamErrorView>,
    now_ms: u64,
    ts: u64,
)
    requires
        engine.after_open(Ok(handle)).read_plan(outcome, now_ms).report == Some(
            UiCommand::CurrentTimestamp(ts),
        ),
    ensures
        ts >= handle.seek_ts,
{
}

/// The position is reported as soon as it can be: the first packet of the
/// played track that is not before the start of playback and comes more
/// than the interval after the last report is reported, with its own
/// timestamp, and restarts the interval.
pub proof fn lemma_report_when_due(engine: EngineView, packet: PacketInfo, now_ms: u64)
    requires
        engine.wants(packet),
        engine.is_heard(packet),
        now_ms - engine.last_report_ms > REPORT_INTERVAL_MS,
    ensures
        engine.read_plan(Ok(packet), now_ms).report == Some(
            UiCommand::CurrentTimestamp(packet.ts),
        ),
        engine.read_plan(Ok(packet), now_ms).decode,
        engine.after_read(Ok(packet), now_ms).last_report_ms == now_ms,
{
}

/// Of a file that was opened at a position, no block of a packet before
/// that position goes to the output.
pub proof fn lemma_forwards_from_open_position(
    engine: EngineView,
    handle: TrackHandle,
    packet_ts: u64,
)
    requires
        engine.after_open(Ok(handle)).write_plan(packet_ts, Ok(())).forward,
    ensures
        packet_ts >= handle.seek_ts,
{
}

/// The end of a track is reported only by an engine that played, and leaves
/// it stopped: nothing is read, and so nothing reported, until a command
/// comes.
pub proof fn lemma_finished_once(
    engine: EngineView,
    outcome: Result<PacketInfo, StreamErrorView>,
    now_ms: u64,
)
    requires
        engine.read_plan(outcome, now_ms).report == Some(UiCommand::AudioFinished),
    ensures
        engine.state is Playing,
        engine.after_read(outcome, now_ms).state == PlayerStateView::Stopped,
        !(engine.after_read(outcome, now_ms).task() is ReadPacket),
        forall|next: Result<PacketInfo, StreamErrorView>, later_ms: u64|
            (#[trigger] engine.after_read(outcome, now_ms).read_plan(next, later_ms)).report
                is None,
{
}

/// Two reports of the position are more than the interval apart.
pub proof fn lemma_reports_are_spaced(
    engine: EngineView,
    first: Result<PacketInfo, StreamErrorView>,
    first_ms: u64,
    second: Result<PacketInfo, StreamErrorView>,
    second_ms: u64,
)
    requires
        engine.read_plan(first, first_ms).report matches Some(UiCommand::CurrentTimestamp(_)),
        engine.after_read(first, first_ms).read_plan(second, second_ms).report matches Some(
            UiCommand::CurrentTimestamp(_),
        ),
    ensures
        second_ms - first_ms > REPORT_INTERVAL_MS,
{
}

} // verus!
