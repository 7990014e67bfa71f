use music_player::pipeline::{
    do_verification, find_track, first_supported_track, ignore_end_of_stream_error,
    is_end_of_stream, load_file, played_track, select_track, setup_audio_reader, DecodeError, PlayTrackOptions,
    SeekResult, StreamError, TrackHandle, TrackInfo,
};

fn track(id: u32, codec_is_null: bool) -> TrackInfo {
    TrackInfo { id, codec_is_null, start_ts: 0, n_frames: None }
}

#[test]
fn first_supported_track_skips_null_codecs() {
    let tracks = [track(1, true), track(2, false), track(3, false)];
    assert_eq!(first_supported_track(&tracks), Some(&tracks[1]));
    assert_eq!(first_supported_track(&[track(1, true)]), None);
    assert_eq!(first_supported_track(&[]), None);
}

#[test]
fn find_track_goes_by_id() {
    let tracks = [track(1, true), track(2, false), track(2, true)];
    assert_eq!(find_track(&tracks, 2), Some(&tracks[1]));
    assert_eq!(find_track(&tracks, 9), None);
}

#[test]
fn select_track_prefers_the_asked_position() {
    let tracks = [track(1, true), track(2, false)];
    assert_eq!(select_track(&tracks, Some(0)), Some(&tracks[0]));
    assert_eq!(select_track(&tracks, Some(1)), Some(&tracks[1]));
    assert_eq!(select_track(&tracks, Some(2)), Some(&tracks[1]));
    assert_eq!(select_track(&tracks, None), Some(&tracks[1]));
    assert_eq!(select_track(&[track(1, true)], None), None);
}

#[test]
fn a_seek_that_lands_sets_the_start() {
    let tracks = [track(7, false)];
    let options = setup_audio_reader(&tracks, None, Some(SeekResult::SeekedTo(4096)));
    assert_eq!(options, Ok(PlayTrackOptions { track_id: 7, seek_ts: 4096 }));
}

#[test]
fn no_seek_and_a_failed_seek_start_at_zero() {
    let tracks = [track(7, false)];
    let expected = Ok(PlayTrackOptions { track_id: 7, seek_ts: 0 });
    assert_eq!(setup_audio_reader(&tracks, None, None), expected);
    assert_eq!(setup_audio_reader(&tracks, None, Some(SeekResult::Failed)), expected);
}

#[test]
fn a_reset_falls_back_to_the_first_playable_track() {
    let tracks = [track(1, true), track(2, false)];
    let options = setup_audio_reader(&tracks, Some(0), Some(SeekResult::ResetRequired));
    assert_eq!(options, Ok(PlayTrackOptions { track_id: 2, seek_ts: 0 }));
    let none = setup_audio_reader(&[track(1, true)], Some(0), Some(SeekResult::ResetRequired));
    assert_eq!(none, Err(DecodeError::NoPlayableTrack));
}

#[test]
fn no_track_to_play_is_an_error() {
    assert_eq!(setup_audio_reader(&[], None, None), Err(DecodeError::NoPlayableTrack));
    assert_eq!(
        setup_audio_reader(&[track(1, true)], None, Some(SeekResult::SeekedTo(3))),
        Err(DecodeError::NoPlayableTrack)
    );
}

#[test]
fn load_file_reports_each_failure() {
    let tracks = [track(1, false)];
    assert_eq!(load_file(None, None, None, true), Err(DecodeError::UnsupportedFormat));
    assert_eq!(
        load_file(Some(&[track(1, true)]), None, None, true),
        Err(DecodeError::NoPlayableTrack)
    );
    assert_eq!(load_file(Some(&tracks), None, None, false), Err(DecodeError::UnsupportedCodec));
}

#[test]
fn load_file_computes_the_duration() {
    let tracks = [TrackInfo { id: 5, codec_is_null: false, start_ts: 1000, n_frames: Some(7_938_000) }];
    assert!(tracks[0].end_fits());
    let handle = load_file(Some(&tracks), None, Some(SeekResult::SeekedTo(44100)), true);
    assert_eq!(handle, Ok(TrackHandle { track_id: 5, seek_ts: 44100, duration: 7_939_000 }));
}

#[test]
fn unknown_duration_is_zero() {
    let tracks = [track(5, false)];
    let handle = load_file(Some(&tracks), None, None, true);
    assert_eq!(handle, Ok(TrackHandle { track_id: 5, seek_ts: 0, duration: 0 }));
}

#[test]
fn end_fits_tells_overflow() {
    let fits = TrackInfo { id: 1, codec_is_null: false, start_ts: 1, n_frames: Some(u64::MAX - 1) };
    let over = TrackInfo { id: 1, codec_is_null: false, start_ts: 2, n_frames: Some(u64::MAX - 1) };
    assert!(fits.end_fits());
    assert!(!over.end_fits());
    assert!(track(1, false).end_fits());
}

fn io(unexpected_eof: bool, message: &str) -> StreamError {
    StreamError::Io { unexpected_eof, message: message.to_string() }
}

#[test]
fn only_the_exact_end_of_stream_error_marks_the_end() {
    assert!(is_end_of_stream(&io(true, "end of stream")));
    assert!(!is_end_of_stream(&io(false, "end of stream")));
    assert!(!is_end_of_stream(&io(true, "End of stream")));
    assert!(!is_end_of_stream(&io(true, "end of stream ")));
    assert!(!is_end_of_stream(&io(true, "out of bounds")));
    assert!(!is_end_of_stream(&io(true, "")));
    assert!(!is_end_of_stream(&StreamError::Decode));
    assert!(!is_end_of_stream(&StreamError::ResetRequired));
}

#[test]
fn the_end_of_the_stream_matches_what_the_decoder_library_reports() {
    let result: symphonia::core::errors::Result<()> = symphonia::core::errors::end_of_stream_error();
    match result {
        Err(symphonia::core::errors::Error::IoError(err)) => {
            let ours = StreamError::Io {
                unexpected_eof: err.kind() == std::io::ErrorKind::UnexpectedEof,
                message: err.to_string(),
            };
            assert!(is_end_of_stream(&ours));
        }
        _ => panic!("the library reports the end of a stream as an i/o error"),
    }
}

#[test]
fn ignore_end_of_stream_error_lets_only_the_end_pass() {
    assert_eq!(ignore_end_of_stream_error(Ok(())), Ok(()));
    assert_eq!(ignore_end_of_stream_error(Err(io(true, "end of stream"))), Ok(()));
    assert_eq!(
        ignore_end_of_stream_error(Err(io(true, "buffer underrun"))),
        Err(io(true, "buffer underrun"))
    );
    assert_eq!(ignore_end_of_stream_error(Err(StreamError::Decode)), Err(StreamError::Decode));
    assert_eq!(ignore_end_of_stream_error(Err(StreamError::Seek)), Err(StreamError::Seek));
    assert_eq!(
        ignore_end_of_stream_error(Err(StreamError::Unsupported)),
        Err(StreamError::Unsupported)
    );
    assert_eq!(ignore_end_of_stream_error(Err(StreamError::Limit)), Err(StreamError::Limit));
}

#[test]
fn do_verification_turns_the_check_into_an_exit_code() {
    assert_eq!(do_verification(Some(true)), Ok(0));
    assert_eq!(do_verification(Some(false)), Ok(1));
    assert_eq!(do_verification(None), Ok(0));
}

#[test]
fn only_the_end_of_the_played_track_has_to_fit() {
    let over = TrackInfo { id: 1, codec_is_null: true, start_ts: 2, n_frames: Some(u64::MAX) };
    let fits = TrackInfo { id: 2, codec_is_null: false, start_ts: 10, n_frames: Some(90) };
    let tracks = [over, fits];
    assert!(!over.end_fits());
    assert_eq!(played_track(&tracks, None, None), Some(&fits));
    assert_eq!(
        load_file(Some(&tracks), None, None, true),
        Ok(TrackHandle { track_id: 2, seek_ts: 0, duration: 100 })
    );
    assert_eq!(played_track(&tracks, Some(0), None), Some(&over));
    assert_eq!(played_track(&tracks, Some(0), Some(SeekResult::ResetRequired)), Some(&fits));
    assert_eq!(played_track(&[over], None, None), None);
}
