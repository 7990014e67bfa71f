use music_player::library::{
    Library, LibraryItem, LibraryItemContainer, LibraryPath, LibraryPathId, LibraryPathStatus,
    LibraryView, ScannedFile, TrackTags, ViewType,
};

fn item(path: &str, id: usize) -> LibraryItem {
    LibraryItem::new(path.to_string(), LibraryPathId::new(id))
}

fn paths_of(items: &[LibraryItem]) -> Vec<String> {
    items.iter().map(|i| i.path()).collect()
}

#[test]
fn new_library_is_empty_and_groups_by_album() {
    let library = Library::new();
    assert!(library.paths().is_empty());
    assert!(library.items().is_empty());
    assert_eq!(library.view().view_type, ViewType::Album);
    assert!(library.view().containers.is_empty());
}

#[test]
fn path_id_keeps_its_number() {
    assert_eq!(LibraryPathId::new(17).value(), 17);
    assert_eq!(LibraryPathId::new(17), LibraryPathId::new(17));
    assert_ne!(LibraryPathId::new(17), LibraryPathId::new(18));
}

#[test]
fn new_library_path_is_not_imported() {
    let path = LibraryPath::new("/music".to_string());
    assert_eq!(path.path(), "/music");
    assert_eq!(path.status(), LibraryPathStatus::NotImported);
}

#[test]
fn library_path_from_parts_keeps_every_part() {
    let mut path = LibraryPath::from_parts(
        LibraryPathId::new(3),
        "/music".to_string(),
        LibraryPathStatus::Imported,
    );
    assert_eq!(path.id(), LibraryPathId::new(3));
    assert_eq!(path.path(), "/music");
    assert_eq!(path.status(), LibraryPathStatus::Imported);
    path.set_status(LibraryPathStatus::NotImported);
    assert_eq!(path.status(), LibraryPathStatus::NotImported);
    assert_eq!(path.id(), LibraryPathId::new(3));
}

#[test]
fn add_path_refuses_a_path_it_has() {
    let mut library = Library::new();
    assert!(library.add_path("/music".to_string()));
    assert!(library.add_path("/more".to_string()));
    assert!(!library.add_path("/music".to_string()));
    assert_eq!(library.paths().len(), 2);
    assert_eq!(library.paths()[0].path(), "/music");
    assert_eq!(library.paths()[1].path(), "/more");
    assert_eq!(library.paths()[1].status(), LibraryPathStatus::NotImported);
}

#[test]
fn set_path_to_imported_marks_only_that_path() {
    let mut library = Library::new();
    library.add_path("/a".to_string());
    library.add_path("/b".to_string());
    let id = library.paths()[1].id();
    let other = library.paths()[0].id();
    library.set_path_to_imported(id);
    assert_eq!(library.paths()[1].status(), LibraryPathStatus::Imported);
    if other != id {
        assert_eq!(library.paths()[0].status(), LibraryPathStatus::NotImported);
    }
    assert_eq!(library.paths()[0].path(), "/a");
    assert_eq!(library.paths()[1].path(), "/b");
}

#[test]
fn new_item_has_no_tags() {
    let item = item("/music/a.mp3", 4);
    assert_eq!(item.path(), "/music/a.mp3");
    assert_eq!(item.library_id(), LibraryPathId::new(4));
    assert_eq!(item.title(), None);
    assert_eq!(item.artist(), None);
    assert_eq!(item.album(), None);
    assert_eq!(item.year(), None);
    assert_eq!(item.genre(), None);
    assert_eq!(item.track_number(), None);
}

#[test]
fn with_key_sets_only_the_key() {
    let item = item("/music/a.mp3", 4).with_key(99);
    assert_eq!(item.key(), 99);
    assert_eq!(item.path(), "/music/a.mp3");
    assert_eq!(item.library_id(), LibraryPathId::new(4));
}

#[test]
fn text_setters_keep_the_old_value_on_none() {
    let mut item = item("/music/a.mp3", 0);
    let copy = item.set_title(Some("Title"));
    assert_eq!(copy, item);
    assert_eq!(item.title(), Some("Title".to_string()));
    item.set_title(None);
    assert_eq!(item.title(), Some("Title".to_string()));

    item.set_artist(Some("Artist"));
    item.set_artist(None);
    assert_eq!(item.artist(), Some("Artist".to_string()));

    item.set_album(Some("Album"));
    item.set_album(None);
    assert_eq!(item.album(), Some("Album".to_string()));

    item.set_genre(Some("Genre"));
    item.set_genre(None);
    assert_eq!(item.genre(), Some("Genre".to_string()));
}

#[test]
fn number_setters_replace_also_by_none() {
    let mut item = item("/music/a.mp3", 0);
    item.set_year(Some(1999));
    assert_eq!(item.year(), Some(1999));
    let copy = item.set_year(None);
    assert_eq!(item.year(), None);
    assert_eq!(copy.year(), None);

    item.set_track_number(Some(7));
    assert_eq!(item.track_number(), Some(7));
    item.set_track_number(None);
    assert_eq!(item.track_number(), None);
}

#[test]
fn items_compare_by_every_field() {
    let a = item("/music/a.mp3", 0).with_key(1);
    let mut b = item("/music/a.mp3", 0).with_key(1);
    assert_eq!(a, b);
    assert_eq!(a.clone(), a);
    b.set_title(Some("x"));
    assert_ne!(a, b);
    assert_ne!(a, item("/music/a.mp3", 0).with_key(2));
    assert_ne!(a, item("/music/a.mp3", 5).with_key(1));
    assert_ne!(a, item("/music/b.mp3", 0).with_key(1));
}

#[test]
fn from_scan_takes_what_the_tags_say() {
    let file = ScannedFile {
        path: "/music/a.mp3".to_string(),
        tags: Some(TrackTags {
            title: Some("Title".to_string()),
            artist: None,
            album: Some("Album".to_string()),
            year: Some(2001),
            genre: None,
            track_number: Some(3),
        }),
    };
    let item = LibraryItem::from_scan(&file, LibraryPathId::new(8));
    assert_eq!(item.path(), "/music/a.mp3");
    assert_eq!(item.library_id(), LibraryPathId::new(8));
    assert_eq!(item.title(), Some("Title".to_string()));
    assert_eq!(item.artist(), None);
    assert_eq!(item.album(), Some("Album".to_string()));
    assert_eq!(item.year(), Some(2001));
    assert_eq!(item.genre(), None);
    assert_eq!(item.track_number(), Some(3));
}

#[test]
fn from_scan_without_tags_is_a_bare_track() {
    let file = ScannedFile { path: "/music/a.mp3".to_string(), tags: None };
    let scanned = LibraryItem::from_scan(&file, LibraryPathId::new(8));
    assert_eq!(scanned.with_key(0), item("/music/a.mp3", 8).with_key(0));
}

#[test]
fn add_item_appends() {
    let mut library = Library::new();
    library.add_item(item("/a.mp3", 1).with_key(1));
    library.add_item(item("/b.mp3", 1).with_key(2));
    assert_eq!(paths_of(library.items()), vec!["/a.mp3", "/b.mp3"]);
}

#[test]
fn add_view_appends_the_groups_and_keeps_the_grouping() {
    let mut library = Library::new();
    library.add_view(LibraryView {
        view_type: ViewType::Genre,
        containers: vec![LibraryItemContainer { name: "one".to_string(), items: vec![item("/a.mp3", 1)] }],
    });
    library.add_view(LibraryView {
        view_type: ViewType::Artist,
        containers: vec![LibraryItemContainer { name: "two".to_string(), items: vec![] }],
    });
    assert_eq!(library.view().view_type, ViewType::Album);
    let names: Vec<&str> = library.view().containers.iter().map(|c| c.name.as_str()).collect();
    assert_eq!(names, vec!["one", "two"]);
}

#[test]
fn remove_path_forgets_the_directory_and_what_came_from_it() {
    let mut library = Library::new();
    library.add_path("/a".to_string());
    library.add_path("/b".to_string());
    let a = library.paths()[0].id();
    let b = library.paths()[1].id();
    if a == b {
        return;
    }
    let of = |path: &str, id: LibraryPathId| LibraryItem::new(path.to_string(), id);
    library.add_item(of("/a/1.mp3", a));
    library.add_item(of("/b/1.mp3", b));
    library.add_item(of("/a/2.mp3", a));
    library.add_item(of("/b/2.mp3", b));
    library.add_item(of("/b/3.mp3", b));
    library.add_view(LibraryView {
        view_type: ViewType::Album,
        containers: vec![
            LibraryItemContainer { name: "only a".to_string(), items: vec![of("/a/1.mp3", a), of("/a/2.mp3", a)] },
            LibraryItemContainer { name: "mixed".to_string(), items: vec![of("/a/1.mp3", a), of("/b/1.mp3", b), of("/b/2.mp3", b)] },
            LibraryItemContainer { name: "only b".to_string(), items: vec![of("/b/3.mp3", b)] },
            LibraryItemContainer { name: "empty".to_string(), items: vec![] },
        ],
    });

    library.remove_path(a);

    assert_eq!(library.paths().len(), 1);
    assert_eq!(library.paths()[0].path(), "/b");
    // The first hit is overwritten by the last track, and so on.
    assert_eq!(paths_of(library.items()), vec!["/b/3.mp3", "/b/1.mp3", "/b/2.mp3"]);
    let groups: Vec<(String, Vec<String>)> = library
        .view()
        .containers
        .iter()
        .map(|c| (c.name.clone(), paths_of(&c.items)))
        .collect();
    assert_eq!(
        groups,
        vec![
            ("only b".to_string(), vec!["/b/3.mp3".to_string()]),
            ("mixed".to_string(), vec!["/b/2.mp3".to_string(), "/b/1.mp3".to_string()]),
        ]
    );
}

#[test]
fn remove_path_of_an_unknown_id_keeps_everything_but_empty_groups() {
    let mut library = Library::new();
    library.add_path("/a".to_string());
    let a = library.paths()[0].id();
    let unknown = LibraryPathId::new(a.value().wrapping_add(1));
    library.add_item(LibraryItem::new("/a/1.mp3".to_string(), a));
    library.add_view(LibraryView {
        view_type: ViewType::Album,
        containers: vec![
            LibraryItemContainer { name: "empty".to_string(), items: vec![] },
            LibraryItemContainer { name: "full".to_string(), items: vec![LibraryItem::new("/a/1.mp3".to_string(), a)] },
        ],
    });
    library.remove_path(unknown);
    assert_eq!(library.paths().len(), 1);
    assert_eq!(library.items().len(), 1);
    assert_eq!(library.view().containers.len(), 1);
    assert_eq!(library.view().containers[0].name, "full");
}

#[test]
fn views_and_groups_compare_by_what_they_hold() {
    let group = |name: &str| LibraryItemContainer {
        name: name.to_string(),
        items: vec![item("/a.mp3", 1).with_key(1)],
    };
    assert_eq!(group("x"), group("x"));
    assert_ne!(group("x"), group("y"));
    assert_eq!(group("x").clone(), group("x"));
    let view = |t: ViewType, name: &str| LibraryView { view_type: t, containers: vec![group(name)] };
    assert_eq!(view(ViewType::Album, "x"), view(ViewType::Album, "x"));
    assert_ne!(view(ViewType::Album, "x"), view(ViewType::Genre, "x"));
    assert_ne!(view(ViewType::Album, "x"), view(ViewType::Album, "y"));
    assert_eq!(view(ViewType::Artist, "x").clone(), view(ViewType::Artist, "x"));
}

#[test]
fn a_library_from_parts_holds_the_parts() {
    let library = Library::from_parts(
        vec![LibraryPath::from_parts(LibraryPathId::new(1), "/a".to_string(), LibraryPathStatus::Imported)],
        vec![item("/a/1.mp3", 1), item("/a/2.mp3", 1)],
        LibraryView {
            view_type: ViewType::Artist,
            containers: vec![LibraryItemContainer { name: "x".to_string(), items: vec![] }],
        },
    );
    assert_eq!(library.paths().len(), 1);
    assert_eq!(library.paths()[0].id(), LibraryPathId::new(1));
    assert_eq!(paths_of(library.items()), vec!["/a/1.mp3", "/a/2.mp3"]);
    assert_eq!(library.view().view_type, ViewType::Artist);
    assert_eq!(library.view().containers[0].name, "x");
}
