use music_player::command::{AudioCommand, UiCommand};
use music_player::library::{
    LibraryItem, LibraryItemContainer, LibraryPathId, LibraryPathStatus, LibraryView, ViewType,
};
use music_player::player::TrackState;
use music_player::playlist::Playlist;
use music_player::session::{App, TransportButton};

fn item(path: &str) -> LibraryItem {
    LibraryItem::new(path.to_string(), LibraryPathId::new(0))
}

fn with_playlist() -> App {
    let mut app = App::new();
    app.new_playlist();
    app.add_to_current_playlist(item("/1.mp3"));
    app.add_to_current_playlist(item("/2.mp3"));
    app.add_to_current_playlist(item("/3.mp3"));
    app
}

fn names(app: &App) -> Vec<String> {
    app.playlists.iter().map(|p| p.get_name().unwrap()).collect()
}

#[test]
fn a_new_session_is_empty() {
    let app = App::new();
    assert!(app.playlists.is_empty());
    assert_eq!(app.current_playlist_idx, None);
    assert!(!app.quit);
    assert!(!app.show_oscilloscope);
    assert!(!app.is_library_cfg_open);
    assert!(app.library.items().is_empty());
    assert_eq!(app.player.track_state, TrackState::Unstarted);
    assert_eq!(app.window_title(), None);
}

#[test]
fn quit_raises_the_flag() {
    let mut app = App::new();
    app.quit();
    assert!(app.quit);
}

#[test]
fn new_playlists_are_numbered_from_the_second_on() {
    let mut app = App::new();
    app.new_playlist();
    assert_eq!(app.current_playlist_idx, Some(0));
    app.new_playlist();
    app.new_playlist();
    assert_eq!(app.current_playlist_idx, Some(2));
    assert_eq!(names(&app), vec!["New Playlist", "New Playlist (0)", "New Playlist (1)"]);
    for _ in 0..10 {
        app.new_playlist();
    }
    assert_eq!(names(&app)[11], "New Playlist (10)");
    assert_eq!(names(&app)[12], "New Playlist (11)");
}

#[test]
fn only_names_that_begin_like_the_default_count() {
    let mut app = App::new();
    let mut mine = Playlist::new();
    mine.set_name("My New Playlist".to_string());
    let mut short = Playlist::new();
    short.set_name("New Playlis".to_string());
    let mut longer = Playlist::new();
    longer.set_name("New Playlists of mine".to_string());
    app.playlists = vec![mine, Playlist::new(), short, longer];
    app.new_playlist();
    assert_eq!(app.playlists[4].get_name(), Some("New Playlist (0)".to_string()));
    assert_eq!(app.current_playlist_idx, Some(4));
}

#[test]
fn the_importer_fills_the_library() {
    let mut app = App::new();
    app.library.add_path("/music".to_string());
    let id = app.library.paths()[0].id();
    assert!(app.handle_ui_command(UiCommand::LibraryAddItem(item("/music/1.mp3"))).is_empty());
    let view = LibraryView {
        view_type: ViewType::Album,
        containers: vec![LibraryItemContainer { name: "a".to_string(), items: vec![item("/music/1.mp3")] }],
    };
    assert!(app.handle_ui_command(UiCommand::LibraryAddView(view)).is_empty());
    assert!(app.handle_ui_command(UiCommand::LibraryAddPathId(id)).is_empty());
    assert_eq!(app.library.items().len(), 1);
    assert_eq!(app.library.view().containers.len(), 1);
    assert_eq!(app.library.paths()[0].status(), LibraryPathStatus::Imported);
}

#[test]
fn the_engine_moves_the_transport() {
    let mut app = App::new();
    assert!(app.handle_ui_command(UiCommand::TotalTrackDuration(7_938_000)).is_empty());
    assert!(app.handle_ui_command(UiCommand::CurrentTimestamp(44_100)).is_empty());
    assert!(app.handle_ui_command(UiCommand::SampleRate(48000.0f32.to_bits())).is_empty());
    assert_eq!(app.player.duration, 7_938_000);
    assert_eq!(app.player.seek_to_timestamp, 44_100);
    assert_eq!(f32::from_bits(app.player.sample_rate), 48000.0);
}

#[test]
fn the_end_of_a_track_steps_to_the_next() {
    let mut app = with_playlist();
    app.play_track(0);
    let commands = app.handle_ui_command(UiCommand::AudioFinished);
    assert_eq!(commands, vec![AudioCommand::LoadFile("/2.mp3".to_string()), AudioCommand::Play]);
    app.handle_ui_command(UiCommand::AudioFinished);
    assert_eq!(app.player.selected_track, Some(app.playlists[0].tracks[2].clone()));
    assert!(app.handle_ui_command(UiCommand::AudioFinished).is_empty());
    app.current_playlist_idx = None;
    assert!(app.handle_ui_command(UiCommand::AudioFinished).is_empty());
    app.current_playlist_idx = Some(4);
    assert!(app.handle_ui_command(UiCommand::AudioFinished).is_empty());
}

#[test]
fn play_track_selects_and_plays() {
    let mut app = with_playlist();
    let commands = app.play_track(1);
    assert_eq!(commands, vec![AudioCommand::LoadFile("/2.mp3".to_string()), AudioCommand::Play]);
    assert_eq!(app.player.track_state, TrackState::Playing);
    assert_eq!(app.player.selected_track, Some(app.playlists[0].tracks[1].clone()));
    assert!(app.play_track(3).is_empty());
    app.current_playlist_idx = None;
    assert!(app.play_track(0).is_empty());
}

#[test]
fn the_buttons_need_a_selected_track() {
    let mut app = with_playlist();
    for button in [
        TransportButton::Play,
        TransportButton::Stop,
        TransportButton::Pause,
        TransportButton::Next,
        TransportButton::Previous,
    ] {
        assert!(app.press(button).is_empty());
    }
    assert_eq!(app.player.track_state, TrackState::Unstarted);
}

#[test]
fn the_buttons_drive_the_transport() {
    let mut app = with_playlist();
    app.play_track(1);
    assert_eq!(app.press(TransportButton::Pause), vec![AudioCommand::Pause]);
    assert_eq!(app.press(TransportButton::Pause), vec![AudioCommand::Play]);
    assert_eq!(app.press(TransportButton::Stop), vec![AudioCommand::Stop]);
    assert!(app.press(TransportButton::Stop).is_empty());
    assert!(app.press(TransportButton::Pause).is_empty());
    assert_eq!(app.press(TransportButton::Play), vec![AudioCommand::Play]);
    assert_eq!(
        app.press(TransportButton::Next),
        vec![AudioCommand::LoadFile("/3.mp3".to_string()), AudioCommand::Play]
    );
    assert!(app.press(TransportButton::Next).is_empty());
    assert_eq!(
        app.press(TransportButton::Previous),
        vec![AudioCommand::LoadFile("/2.mp3".to_string()), AudioCommand::Play]
    );
    app.current_playlist_idx = None;
    assert!(app.press(TransportButton::Previous).is_empty());
}

#[test]
fn the_title_names_the_selected_track() {
    let mut app = App::new();
    let mut track = item("/1.mp3");
    app.player.select_track(Some(track.clone()));
    assert_eq!(app.window_title(), Some("? - ? [ Music Player ]".to_string()));
    track.set_artist(Some("Artist"));
    track.set_title(Some("Title"));
    app.player.select_track(Some(track));
    assert_eq!(app.window_title(), Some("Artist - Title [ Music Player ]".to_string()));
}

#[test]
fn the_volume_changes_only_when_it_differs() {
    let mut app = App::new();
    let mut in_flight = false;
    let same = app.player.volume;
    assert_eq!(app.change_volume(same, &mut in_flight), None);
    assert!(!in_flight);
    let half = 0.5f32.to_bits();
    assert_eq!(app.change_volume(half, &mut in_flight), Some(AudioCommand::SetVolume(half)));
    assert!(in_flight);
    assert_eq!(app.change_volume(0.25f32.to_bits(), &mut in_flight), None);
    assert_eq!(app.player.volume, half);
}

#[test]
fn removing_a_playlist_moves_the_current_one_along() {
    let cases: [(Option<usize>, usize, Option<usize>); 7] = [
        (Some(0), 0, None),
        (Some(1), 0, Some(0)),
        (Some(2), 1, Some(1)),
        (Some(2), 2, Some(1)),
        (Some(0), 2, Some(0)),
        (Some(1), 2, Some(1)),
        (None, 1, None),
    ];
    for (current, removed, expected) in cases {
        let mut app = App::new();
        app.new_playlist();
        app.new_playlist();
        app.new_playlist();
        app.current_playlist_idx = current;
        app.playlist_idx_to_remove = Some(removed);
        app.remove_marked_playlist();
        assert_eq!(app.current_playlist_idx, expected);
        assert_eq!(app.playlist_idx_to_remove, None);
        assert_eq!(app.playlists.len(), 2);
        let mut left = vec!["New Playlist", "New Playlist (0)", "New Playlist (1)"];
        left.remove(removed);
        assert_eq!(names(&app), left);
    }
}

#[test]
fn a_mark_that_points_nowhere_is_dropped() {
    let mut app = App::new();
    app.new_playlist();
    app.playlist_idx_to_remove = Some(1);
    app.remove_marked_playlist();
    assert_eq!(app.playlists.len(), 1);
    assert_eq!(app.current_playlist_idx, Some(0));
    assert_eq!(app.playlist_idx_to_remove, None);
    app.remove_marked_playlist();
    assert_eq!(app.playlists.len(), 1);
}

#[test]
fn adding_to_the_current_playlist_needs_one() {
    let mut app = App::new();
    app.add_to_current_playlist(item("/1.mp3"));
    assert!(app.playlists.is_empty());
    app.new_playlist();
    app.new_playlist();
    app.current_playlist_idx = Some(0);
    app.add_to_current_playlist(item("/1.mp3"));
    assert_eq!(app.playlists[0].tracks.len(), 1);
    assert_eq!(app.playlists[1].tracks.len(), 0);
}

#[test]
fn selections_toggle() {
    let mut app = App::new();
    let a = LibraryPathId::new(1);
    let b = LibraryPathId::new(2);
    assert!(!app.is_selected(a));
    app.toggle_selection(a);
    app.toggle_selection(b);
    assert!(app.is_selected(a) && app.is_selected(b));
    app.toggle_selection(a);
    assert!(!app.is_selected(a) && app.is_selected(b));
    assert_eq!(app.lib_config_selections.len(), 1);
    assert!(app.lib_config_selections.contains(&2));
    app.toggle_selection(b);
    assert!(app.lib_config_selections.is_empty());
    assert!(app.selected_paths().is_empty());
}

#[test]
fn removing_the_selected_paths_forgets_them() {
    let mut app = App::new();
    app.library.add_path("/a".to_string());
    app.library.add_path("/b".to_string());
    app.library.add_path("/c".to_string());
    let a = app.library.paths()[0].id();
    let c = app.library.paths()[2].id();
    let b = app.library.paths()[1].id();
    if a == b || b == c || a == c {
        return;
    }
    app.library.add_item(LibraryItem::new("/a/1.mp3".to_string(), a));
    app.library.add_item(LibraryItem::new("/b/1.mp3".to_string(), b));
    app.library.add_item(LibraryItem::new("/c/1.mp3".to_string(), c));
    app.toggle_selection(a);
    app.toggle_selection(c);
    let mut walk: Vec<usize> = app.selected_paths().iter().map(|id| id.value()).collect();
    walk.sort();
    let mut marked = vec![a.value(), c.value()];
    marked.sort();
    assert_eq!(walk, marked);
    app.remove_selected_paths();
    assert_eq!(app.library.paths().len(), 1);
    assert_eq!(app.library.paths()[0].path(), "/b");
    assert_eq!(app.library.items().len(), 1);
    assert_eq!(app.library.items()[0].path(), "/b/1.mp3");
    assert!(app.is_selected(a) && app.is_selected(c));
}

#[test]
fn saving_hands_out_what_is_not_imported() {
    let mut app = App::new();
    app.library.add_path("/a".to_string());
    app.library.add_path("/b".to_string());
    app.library.add_path("/c".to_string());
    let b = app.library.paths()[1].id();
    let clash = app.library.paths().iter().filter(|p| p.id() == b).count() > 1;
    app.library.set_path_to_imported(b);
    app.is_library_cfg_open = true;
    let pending = app.save_library_config();
    assert!(!app.is_library_cfg_open);
    if !clash {
        let paths: Vec<&str> = pending.iter().map(|p| p.path().as_str()).collect();
        assert_eq!(paths, vec!["/a", "/c"]);
    }
    assert_eq!(app.library.paths().len(), 3);
}
