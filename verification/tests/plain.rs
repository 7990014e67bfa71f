use music_player::library::{ScannedFile, TrackTags};
use music_player::player::FULL_VOLUME;
use music_player::stuff::library::{Library, LibraryItem};
use music_player::stuff::player::{Player, SinkAction, TrackState};
use music_player::stuff::playlist::{Playlist, Track};

fn track(path: &str) -> Track {
    Track { path: path.to_string() }
}

fn three_tracks() -> Playlist {
    let mut playlist = Playlist::new();
    playlist.add(track("/1.mp3"));
    playlist.add(track("/2.mp3"));
    playlist.add(track("/3.mp3"));
    playlist
}

#[test]
fn plain_item_setters_and_getters() {
    let mut item = LibraryItem::new("/a.mp3".to_string());
    assert_eq!(item.path(), "/a.mp3");
    assert_eq!(item.title(), None);
    let copy = item.set_title(Some("T"));
    assert_eq!(copy, item);
    item.set_title(None);
    item.set_artist(Some("A"));
    item.set_artist(None);
    item.set_album(Some("L"));
    item.set_album(None);
    item.set_genre(Some("G"));
    item.set_genre(None);
    item.set_year(Some(1984));
    item.set_track_number(Some(2));
    assert_eq!(item.title(), Some("T".to_string()));
    assert_eq!(item.artist(), Some("A".to_string()));
    assert_eq!(item.album(), Some("L".to_string()));
    assert_eq!(item.genre(), Some("G".to_string()));
    assert_eq!(item.year(), Some(1984));
    assert_eq!(item.track_number(), Some(2));
    item.set_year(None);
    item.set_track_number(None);
    assert_eq!(item.year(), None);
    assert_eq!(item.track_number(), None);
    assert_eq!(item.clone(), item);
}

#[test]
fn plain_library_is_built_from_a_scan() {
    let mut library = Library::new("/music".to_string());
    assert_eq!(library.root_path(), "/music");
    assert_eq!(library.items(), None);
    let files = vec![
        ScannedFile {
            path: "/music/1.mp3".to_string(),
            tags: Some(TrackTags {
                title: Some("One".to_string()),
                artist: Some("Artist".to_string()),
                album: None,
                year: Some(2000),
                genre: None,
                track_number: Some(1),
            }),
        },
        ScannedFile { path: "/music/2.mp3".to_string(), tags: None },
    ];
    library.build(&files);
    let items = library.items().unwrap();
    assert_eq!(items.len(), 2);
    assert_eq!(items[0].path(), "/music/1.mp3");
    assert_eq!(items[0].title(), Some("One".to_string()));
    assert_eq!(items[0].artist(), Some("Artist".to_string()));
    assert_eq!(items[0].album(), None);
    assert_eq!(items[0].year(), Some(2000));
    assert_eq!(items[0].track_number(), Some(1));
    assert_eq!(items[1], LibraryItem::new("/music/2.mp3".to_string()));
    assert_eq!(LibraryItem::from_scan(&files[1]), items[1]);
    library.build(&vec![]);
    assert_eq!(library.items(), Some(vec![]));
    assert_eq!(library.root_path(), "/music");
}

#[test]
fn plain_player_starts_unstarted() {
    let player = Player::new();
    assert_eq!(player.track_state, TrackState::Unstarted);
    assert_eq!(player.selected_track, None);
    assert_eq!(player.volume, FULL_VOLUME);
    let default = Player::default();
    assert_eq!(default.track_state, TrackState::Unstarted);
    assert_eq!(default.volume, FULL_VOLUME);
    assert!(!player.is_stopped());
    assert_eq!(TrackState::Paused.to_string(), "Paused");
    assert_eq!(TrackState::Unstarted.to_string(), "Unstarted");
    assert_eq!(TrackState::Stopped.to_string(), "Stopped");
    assert_eq!(TrackState::Playing.to_string(), "Playing");
}

#[test]
fn plain_player_plays_stops_and_pauses() {
    let mut player = Player::new();
    assert_eq!(player.play(), None);
    assert_eq!(player.stop(), None);
    assert_eq!(player.pause(), None);
    player.selected_track = Some(track("/1.mp3"));
    assert_eq!(player.play(), Some(SinkAction::PlayFile("/1.mp3".to_string())));
    assert_eq!(player.track_state, TrackState::Playing);
    assert_eq!(player.play(), Some(SinkAction::PlayFile("/1.mp3".to_string())));
    assert_eq!(player.pause(), Some(SinkAction::Pause));
    assert_eq!(player.track_state, TrackState::Paused);
    assert_eq!(player.play(), Some(SinkAction::Resume));
    assert_eq!(player.pause(), Some(SinkAction::Pause));
    assert_eq!(player.pause(), Some(SinkAction::Resume));
    assert_eq!(player.track_state, TrackState::Playing);
    assert_eq!(player.stop(), Some(SinkAction::Stop));
    assert!(player.is_stopped());
    assert_eq!(player.stop(), None);
    assert_eq!(player.play(), Some(SinkAction::PlayFile("/1.mp3".to_string())));
}

#[test]
fn plain_player_steps_through_a_playlist() {
    let playlist = three_tracks();
    let mut player = Player::new();
    assert_eq!(player.next(&playlist), None);
    player.selected_track = Some(track("/2.mp3"));
    assert_eq!(player.next(&playlist), Some(SinkAction::PlayFile("/3.mp3".to_string())));
    assert_eq!(player.selected_track, Some(track("/3.mp3")));
    assert_eq!(player.next(&playlist), None);
    assert_eq!(player.previous(&playlist), Some(SinkAction::PlayFile("/2.mp3".to_string())));
    player.pause();
    assert_eq!(player.previous(&playlist), Some(SinkAction::Resume));
    assert_eq!(player.selected_track, Some(track("/1.mp3")));
    assert_eq!(player.previous(&playlist), None);
    player.selected_track = Some(track("/other.mp3"));
    assert_eq!(player.next(&playlist), None);
    assert_eq!(player.previous(&playlist), None);
}

#[test]
fn plain_player_sets_the_volume() {
    let mut player = Player::new();
    let half = 0.5f32.to_bits();
    assert_eq!(player.set_volume(half), SinkAction::SetVolume(half));
    assert_eq!(player.volume, half);
}

#[test]
fn plain_playlist_finds_the_first_track_at_a_path() {
    let mut playlist = three_tracks();
    playlist.add(track("/2.mp3"));
    assert_eq!(playlist.get_pos(&track("/2.mp3")), Some(1));
    assert_eq!(playlist.get_pos(&track("/4.mp3")), None);
    let copy = playlist.clone();
    assert_eq!(copy.tracks, playlist.tracks);
}
