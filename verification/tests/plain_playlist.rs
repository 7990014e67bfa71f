use music_player::stuff::playlist::{Playlist, Track};

#[test]
fn playlist_create_playlist() {
    let playlist = Playlist::new();

    assert_eq!(playlist.name, None);
    assert_eq!(playlist.tracks.len(), 0);
    assert_eq!(playlist.selected, None);
}

#[test]
fn playlist_set_name() {
    let mut playlist = Playlist::new();
    playlist.set_name("Test".to_string());

    assert_eq!(playlist.name, playlist.get_name());
    assert_eq!(playlist.tracks.len(), 0);
    assert_eq!(playlist.selected, None);
}

#[test]
fn playlist_add_track_to_playlist() {
    let track = Track {
        path: String::from(r"C:\music\song.mp3"),
    };

    let mut playlist = Playlist::new();
    playlist.add(track);

    assert_eq!(playlist.tracks.len(), 1);
}

#[test]
fn playlist_remove_track_from_playlist() {
    let path1 = String::from(r"C:\music\song1.mp3");
    let path2 = String::from(r"C:\music\song2.mp3");
    let path3 = String::from(r"C:\music\song3.mp3");

    let mut playlist = Playlist {
        name: Some("test".to_string()),
        tracks: vec![
            Track {
                path: path1.clone(),
            },
            Track {
                path: path2.clone(),
            },
            Track {
                path: path3.clone(),
            },
        ],
        selected: None,
    };

    assert_eq!(playlist.tracks.len(), 3);

    playlist.remove(1);

    assert_eq!(playlist.tracks.len(), 2);
    assert_eq!(playlist.tracks.first().unwrap().path, path1);
    assert_eq!(playlist.tracks.last().unwrap().path, path3);
}

#[test]
fn playlist_reorder_track_in_playlist() {
    let path1 = String::from(r"C:\music\song1.mp3");
    let path2 = String::from(r"C:\music\song2.mp3");
    let path3 = String::from(r"C:\music\song3.mp3");

    let mut playlist = Playlist {
        name: Some("test".to_string()),
        tracks: vec![
            Track {
                path: path1.clone(),
            },
            Track {
                path: path2.clone(),
            },
            Track {
                path: path3.clone(),
            },
        ],
        selected: None,
    };

    assert_eq!(playlist.tracks.len(), 3);

    playlist.reorder(0, 2);

    assert_eq!(playlist.tracks.len(), 3);
    assert_eq!(playlist.tracks[0].path, path2);
    assert_eq!(playlist.tracks[1].path, path3);
    assert_eq!(playlist.tracks[2].path, path1);
}

#[test]
fn select_track() {
    let track1 = Track {
        path: String::from(r"C:\music\song1.mp3"),
    };
    let track2 = Track {
        path: String::from(r"C:\music\song2.mp3"),
    };
    let track3 = Track {
        path: String::from(r"C:\music\song3.mp3"),
    };

    let mut playlist = Playlist {
        name: Some("test".to_string()),
        tracks: vec![track1, track2, track3.clone()],
        selected: None,
    };

    assert_eq!(playlist.tracks.len(), 3);

    playlist.select(2);

    assert_eq!(playlist.selected, Some(track3));
}
