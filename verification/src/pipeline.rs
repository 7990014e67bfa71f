//! The decisions of the decode pipeline: which track of a file is played,
//! where playback starts after a seek, how long the track is, and which
//! errors of the decoder end a track.
//!
//! Reading and decoding happen elsewhere. What the container and the decoder
//! reported comes in here as plain values.

use crate::purge::{first_hit, lemma_first_hit_is};
use vstd::prelude::*;
use vstd::string::StringExecFns;

verus! {

/// What the container says of one of its tracks.
#[derive(Debug, Clone, Copy, PartialEq, Eq, Structural)]
pub struct TrackInfo {
    /// The id by which packets name the track.
    pub id: u32,
    /// Whether the codec of the track is the null codec, for which no decoder
    /// exists.
    pub codec_is_null: bool,
    /// The timestamp of the first frame.
    pub start_ts: u64,
    /// The number of frames, where the container reports it.
    pub n_frames: Option<u64>,
}

impl TrackInfo {
    /// The timestamp at which the track ends, where the container reports its
    /// number of frames.
    pub open spec fn end_ts(self) -> Option<int> {
        match self.n_frames {
            Some(frames) => Some(self.start_ts + frames),
            None => None,
        }
    }

    /// Whether the end of the track is a timestamp.
    pub open spec fn fits(self) -> bool {
        match self.end_ts() {
            Some(end) => end <= u64::MAX,
            None => true,
        }
    }

    /// Tests whether the end of the track is a timestamp.
    pub fn end_fits(&self) -> (r: bool)
        ensures
            r == self.fits(),
    {
        match self.n_frames {
            Some(frames) => frames <= u64::MAX - self.start_ts,
            None => true,
        }
    }
}

/// Accepts the tracks that can be played: those whose codec is not the null
/// codec.
pub open spec fn playable() -> spec_fn(TrackInfo) -> bool {
    |t: TrackInfo| !t.codec_is_null
}

/// Accepts the tracks that go by `id`.
pub open spec fn has_id(id: u32) -> spec_fn(TrackInfo) -> bool {
    |t: TrackInfo| t.id == id
}

/// The first element of `tracks` that `wanted` accepts.
pub open spec fn first_of(tracks: Seq<TrackInfo>, wanted: spec_fn(TrackInfo) -> bool) -> Option<
    TrackInfo,
> {
    let i = first_hit(tracks, wanted);
    if 0 <= i < tracks.len() {
        Some(tracks[i])
    } else {
        None
    }
}

/// The track that is played: the one at `track_num` if that position exists,
/// else the first playable one.
pub open spec fn selected(tracks: Seq<TrackInfo>, track_num: Option<usize>) -> Option<TrackInfo> {
    match track_num {
        Some(n) if n < tracks.len() => Some(tracks[n as int]),
        _ => first_of(tracks, playable()),
    }
}

/// Why a file could not be opened for playback.
#[derive(Debug, Clone, Copy, PartialEq, Eq, Structural)]
pub enum DecodeError {
    /// No reader claims the container format.
    UnsupportedFormat,
    /// The file has no track that can be played.
    NoPlayableTrack,
    /// No decoder could be built for the codec of the track.
    UnsupportedCodec,
}

/// How an accurate seek of the reader ended.
#[derive(Debug, Clone, Copy, PartialEq, Eq, Structural)]
pub enum SeekResult {
    /// The reader is positioned; packets from this timestamp on are wanted.
    SeekedTo(u64),
    /// The tracks of the stream have changed and the decoder has to be built
    /// anew.
    ResetRequired,
    /// The seek failed for another reason.
    Failed,
}

/// How one decode session plays its track.
#[derive(Debug, Clone, Copy, PartialEq, Eq, Structural)]
pub struct PlayTrackOptions {
    pub track_id: u32,
    /// The timestamp the reader positioned to. Packets before it are decoded
    /// and dropped.
    pub seek_ts: u64,
}

/// The open decode context, as far as the engine decides by it.
#[derive(Debug, Clone, Copy, PartialEq, Eq, Structural)]
pub struct TrackHandle {
    pub track_id: u32,
    pub seek_ts: u64,
    /// The length of the track in timestamps, or 0 where it is unknown.
    pub duration: u64,
}

/// The options that a seek leaves: the track stays unless a reset is
/// required, which falls back to the first playable track, and playback
/// starts where the reader positioned to, or at 0.
pub open spec fn options_after(
    tracks: Seq<TrackInfo>,
    track_num: Option<usize>,
    seek: Option<SeekResult>,
) -> Result<PlayTrackOptions, DecodeError> {
    match selected(tracks, track_num) {
        None => Err(DecodeError::NoPlayableTrack),
        Some(track) => match seek {
            Some(SeekResult::SeekedTo(required_ts)) => Ok(
                PlayTrackOptions { track_id: track.id, seek_ts: required_ts },
            ),
            Some(SeekResult::ResetRequired) => match first_of(tracks, playable()) {
                Some(first) => Ok(PlayTrackOptions { track_id: first.id, seek_ts: 0 }),
                None => Err(DecodeError::NoPlayableTrack),
            },
            _ => Ok(PlayTrackOptions { track_id: track.id, seek_ts: 0 }),
        },
    }
}

/// The track that is played, and whose length the handle takes: the first
/// one that goes by the id that the options name.
pub open spec fn played(
    tracks: Seq<TrackInfo>,
    track_num: Option<usize>,
    seek: Option<SeekResult>,
) -> Option<TrackInfo> {
    match options_after(tracks, track_num, seek) {
        Ok(options) => first_of(tracks, has_id(options.track_id)),
        Err(_) => None,
    }
}

/// The length of a track in timestamps: its end where the container reports
/// the number of frames, else 0.
pub open spec fn duration_of(track: TrackInfo) -> int {
    match track.end_ts() {
        Some(end) => end,
        None => 0,
    }
}

/// What opening a file comes to. `tracks` is none where no reader claimed the
/// format; `decoder_built` says whether a decoder could be made for the track
/// that the options name.
pub open spec fn opened(
    tracks: Option<Seq<TrackInfo>>,
    track_num: Option<usize>,
    seek: Option<SeekResult>,
    decoder_built: bool,
) -> Result<TrackHandle, DecodeError> {
    match tracks {
        None => Err(DecodeError::UnsupportedFormat),
        Some(tracks) => match options_after(tracks, track_num, seek) {
            Err(e) => Err(e),
            Ok(options) => match first_of(tracks, has_id(options.track_id)) {
                None => Err(DecodeError::NoPlayableTrack),
                Some(track) => if decoder_built {
                    Ok(
                        TrackHandle {
                            track_id: options.track_id,
                            seek_ts: options.seek_ts,
                            duration: duration_of(track) as u64,
                        },
                    )
                } else {
                    Err(DecodeError::UnsupportedCodec)
                },
            },
        },
    }
}

/// Where the reader lands at or before the timestamp that was asked for, so
/// does playback: the position it starts from is the one the reader
/// reported where the seek landed, and 0 where it did not.
pub proof fn lemma_start_not_behind_target(
    tracks: Seq<TrackInfo>,
    track_num: Option<usize>,
    seek: Option<SeekResult>,
    target: u64,
)
    requires
        seek matches Some(SeekResult::SeekedTo(required_ts)) ==> required_ts <= target,
    ensures
        options_after(tracks, track_num, seek) matches Ok(options) ==> options.seek_ts <= target,
{
}

/// The first track that can be played.
pub fn first_supported_track(tracks: &[TrackInfo]) -> (r: Option<&TrackInfo>)
    ensures
        match r {
            Some(t) => Some(*t),
            None => None,
        } == first_of(tracks@, playable()),
{
    let mut i: usize = 0;
    while i < tracks.len()
        invariant
            i <= tracks.len(),
            forall|j: int| 0 <= j < i ==> !playable()(#[trigger] tracks@[j]),
        decreases tracks.len() - i,
    {
        if !tracks[i].codec_is_null {
            proof {
                lemma_first_hit_is(tracks@, playable(), i as int);
            }
            return Some(&tracks[i]);
        }
        i += 1;
    }
    proof {
        lemma_first_hit_is(tracks@, playable(), i as int);
    }
    None
}

/// The first track that goes by `id`.
pub fn find_track(tracks: &[TrackInfo], id: u32) -> (r: Option<&TrackInfo>)
    ensures
        match r {
            Some(t) => Some(*t),
            None => None,
        } == first_of(tracks@, has_id(id)),
{
    let mut i: usize = 0;
    while i < tracks.len()
        invariant
            i <= tracks.len(),
            forall|j: int| 0 <= j < i ==> !has_id(id)(#[trigger] tracks@[j]),
        decreases tracks.len() - i,
    {
        if tracks[i].id == id {
            proof {
                lemma_first_hit_is(tracks@, has_id(id), i as int);
            }
            return Some(&tracks[i]);
        }
        i += 1;
    }
    proof {
        lemma_first_hit_is(tracks@, has_id(id), i as int);
    }
    None
}

/// The track that is played: the one at `track_num` if the file has that
/// many, else the first that can be played. This is the track a seek is made
/// relative to.
pub fn select_track(tracks: &[TrackInfo], track_num: Option<usize>) -> (r: Option<&TrackInfo>)
    ensures
        match r {
            Some(t) => Some(*t),
            None => None,
        } == selected(tracks@, track_num),
{
    match track_num {
        Some(n) if n < tracks.len() => Some(&tracks[n]),
        _ => first_supported_track(tracks),
    }
}

/// Settles how the track is played once the reader has been set up. `seek`
/// is none where no seek was asked for, else what the seek relative to
/// [`select_track`]'s track came to.
pub fn setup_audio_reader(
    tracks: &[TrackInfo],
    track_num: Option<usize>,
    seek: Option<SeekResult>,
) -> (r: Result<PlayTrackOptions, DecodeError>)
    ensures
        r == options_after(tracks@, track_num, seek),
{
    let track = match select_track(tracks, track_num) {
        Some(track) => track,
        None => {
            return Err(DecodeError::NoPlayableTrack);
        },
    };
    match seek {
        Some(SeekResult::SeekedTo(required_ts)) => Ok(
            PlayTrackOptions { track_id: track.id, seek_ts: required_ts },
        ),
        Some(SeekResult::ResetRequired) => match first_supported_track(tracks) {
            Some(first) => Ok(PlayTrackOptions { track_id: first.id, seek_ts: 0 }),
            None => Err(DecodeError::NoPlayableTrack),
        },
        _ => Ok(PlayTrackOptions { track_id: track.id, seek_ts: 0 }),
    }
}

/// The track that is played once the reader has been set up, if there is
/// one.
pub fn played_track<'a>(
    tracks: &'a [TrackInfo],
    track_num: Option<usize>,
    seek: Option<SeekResult>,
) -> (r: Option<&'a TrackInfo>)
    ensures
        match r {
            Some(t) => Some(*t),
            None => None,
        } == played(tracks@, track_num, seek),
{
    match setup_audio_reader(tracks, track_num, seek) {
        Ok(options) => find_track(tracks, options.track_id),
        Err(_) => None,
    }
}

/// Puts together what opening a file came to: the handle of the track to
/// play, or the reason why nothing can be played. The end of the track that
/// is played has to be a timestamp.
pub fn load_file(
    tracks: Option<&[TrackInfo]>,
    track_num: Option<usize>,
    seek: Option<SeekResult>,
    decoder_built: bool,
) -> (r: Result<TrackHandle, DecodeError>)
    requires
        tracks matches Some(t) ==> (played(t@, track_num, seek) matches Some(track)
            ==> track.fits()),
    ensures
        r == opened(
            match tracks {
                Some(t) => Some(t@),
                None => None,
            },
            track_num,
            seek,
            decoder_built,
        ),
{
    let tracks = match tracks {
        Some(tracks) => tracks,
        None => {
            return Err(DecodeError::UnsupportedFormat);
        },
    };
    let options = match setup_audio_reader(tracks, track_num, seek) {
        Ok(options) => options,
        Err(e) => {
            return Err(e);
        },
    };
    let track = match find_track(tracks, options.track_id) {
        Some(track) => track,
        None => {
            return Err(DecodeError::NoPlayableTrack);
        },
    };
    if !decoder_built {
        return Err(DecodeError::UnsupportedCodec);
    }
    proof {
        crate::purge::lemma_first_hit(tracks@, has_id(options.track_id));
    }
    let duration = match track.n_frames {
        Some(frames) => track.start_ts + frames,
        None => 0,
    };
    Ok(TrackHandle { track_id: options.track_id, seek_ts: options.seek_ts, duration })
}

/// An error of the decoder library, as plain values.
#[derive(Debug, PartialEq, Eq)]
pub enum StreamError {
    /// Reading the stream failed. `unexpected_eof` says whether the kind of
    /// the error is an unexpected end of file; `message` is its text.
    Io { unexpected_eof: bool, message: String },
    /// The stream holds malformed data.
    Decode,
    /// The stream could not be seeked.
    Seek,
    /// The container or the codec uses a feature that is not supported.
    Unsupported,
    /// A limit was reached.
    Limit,
    /// The decoder has to be built anew.
    ResetRequired,
}

/// A [`StreamError`] as plain values.
pub enum StreamErrorView {
    Io { unexpected_eof: bool, message: Seq<char> },
    Decode,
    Seek,
    Unsupported,
    Limit,
    ResetRequired,
}

impl View for StreamError {
    type V = StreamErrorView;

    open spec fn view(&self) -> StreamErrorView {
        match self {
            StreamError::Io { unexpected_eof, message } => StreamErrorView::Io {
                unexpected_eof: *unexpected_eof,
                message: message@,
            },
            StreamError::Decode => StreamErrorView::Decode,
            StreamError::Seek => StreamErrorView::Seek,
            StreamError::Unsupported => StreamErrorView::Unsupported,
            StreamError::Limit => StreamErrorView::Limit,
            StreamError::ResetRequired => StreamErrorView::ResetRequired,
        }
    }
}

/// Whether an error is the way a reader says that the media is complete: an
/// unexpected end of file whose text is "end of stream".
pub open spec fn marks_end_of_stream(error: StreamErrorView) -> bool {
    error matches StreamErrorView::Io { unexpected_eof, message } && unexpected_eof && message
        == "end of stream"@
}

/// Tests whether an error says that the media is complete.
pub fn is_end_of_stream(error: &StreamError) -> (r: bool)
    ensures
        r == marks_end_of_stream(error@),
{
    match error {
        StreamError::Io { unexpected_eof, message } => {
            let expected = String::from_str("end of stream");
            *unexpected_eof && *message == expected
        },
        _ => false,
    }
}

/// Whether a result is an error that says that the media is complete.
pub open spec fn ends_stream(result: Result<(), StreamError>) -> bool {
    match result {
        Ok(_) => false,
        Err(e) => marks_end_of_stream(e@),
    }
}

/// Lets the end of the stream pass as success and hands every other result
/// on as it is.
pub fn ignore_end_of_stream_error(result: Result<(), StreamError>) -> (r: Result<(), StreamError>)
    ensures
        ends_stream(result) ==> r is Ok,
        !ends_stream(result) ==> r == result,
{
    let ends = match &result {
        Err(e) => is_end_of_stream(e),
        Ok(_) => false,
    };
    if ends {
        Ok(())
    } else {
        result
    }
}

/// Turns what the decoder found when it verified the stream into an exit
/// code: 1 if the check ran and failed, else 0.
pub fn do_verification(verify_ok: Option<bool>) -> (r: Result<i32, StreamError>)
    ensures
        r matches Ok(code) && code == if verify_ok == Some(false) {
            1i32
        } else {
            0i32
        },
{
    match verify_ok {
        Some(is_ok) => Ok(
            if is_ok {
                0
            } else {
                1
            },
        ),
        _ => Ok(0),
    }
}

} // verus!
