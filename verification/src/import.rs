//! Importing a directory into the library: one track for every file that the
//! scan found, and the view that groups the tracks by album.
//!
//! The scan itself, which walks the directory and reads the tags, happens
//! elsewhere. What it found comes in here as plain values, and what the
//! interface is to be told goes out as messages.

use crate::command::UiCommand;
use crate::library::{
    container_views, ContainerView, LibraryItem, LibraryItemContainer, LibraryItemView,
    LibraryPath, LibraryPathId, LibraryPathStatus, LibraryView, ScannedFile, ViewType,
};
use itertools::Itertools;
use vstd::prelude::*;
use vstd::string::{StrSliceExecFns, StringExecFns};

verus! {

/// Whether the text `a` does not come after the text `b` in the order of
/// strings: character by character, by code point, a prefix first.
pub open spec fn text_le(a: Seq<char>, b: Seq<char>) -> bool
    decreases a.len(),
{
    if a.len() == 0 {
        true
    } else if b.len() == 0 {
        false
    } else if a[0] != b[0] {
        (a[0] as u32) < (b[0] as u32)
    } else {
        text_le(a.drop_first(), b.drop_first())
    }
}

/// Whether the album `a` does not come after the album `b`: no album comes
/// first, then the albums in the order of strings.
pub open spec fn album_le(a: Option<Seq<char>>, b: Option<Seq<char>>) -> bool {
    match (a, b) {
        (None, _) => true,
        (Some(_), None) => false,
        (Some(a), Some(b)) => text_le(a, b),
    }
}

/// Whether some place of a rearranged sequence came from the place `source`.
pub open spec fn is_source(from: Seq<int>, source: int) -> bool {
    exists|i: int| 0 <= i < from.len() && #[trigger] from[i] == source
}

/// Whether `from` says where each place of a rearranged sequence of `len`
/// elements came from: every place from a place of its own, and no place
/// left out.
pub open spec fn is_rearrangement(from: Seq<int>, len: int) -> bool {
    &&& from.len() == len
    &&& forall|i: int| 0 <= i < len ==> 0 <= #[trigger] from[i] < len
    &&& forall|i: int, j: int| 0 <= i < j < len ==> #[trigger] from[i] != #[trigger] from[j]
    &&& forall|source: int| 0 <= source < len ==> #[trigger] is_source(from, source)
}

/// Whether `after` is `before` sorted by album, with `from` saying where
/// each track came from: the albums ascend, and tracks of one album keep the
/// order they had.
pub open spec fn sorts_by_album(
    from: Seq<int>,
    after: Seq<LibraryItem>,
    before: Seq<LibraryItem>,
) -> bool {
    &&& after.len() == before.len()
    &&& is_rearrangement(from, before.len() as int)
    &&& forall|i: int| 0 <= i < after.len() ==> #[trigger] after[i] == before[from[i]]
    &&& forall|i: int, j: int|
        0 <= i < j < after.len() ==> album_le(
            (#[trigger] after[i])@.album,
            (#[trigger] after[j])@.album,
        )
    &&& forall|i: int, j: int|
        0 <= i < j < after.len() && after[i]@.album == after[j]@.album ==> #[trigger] from[i]
            < #[trigger] from[j]
}

/// Whether `after` is `before` in the order of a stable sort by album.
pub open spec fn is_sorted_by_album(after: Seq<LibraryItem>, before: Seq<LibraryItem>) -> bool {
    exists|from: Seq<int>| sorts_by_album(from, after, before)
}

/// Two texts of which neither comes after the other are the same text.
pub proof fn lemma_text_le_antisymmetric(a: Seq<char>, b: Seq<char>)
    requires
        text_le(a, b),
        text_le(b, a),
    ensures
        a == b,
    decreases a.len(),
{
    if a.len() == 0 {
        assert(a =~= b);
    } else {
        lemma_text_le_antisymmetric(a.drop_first(), b.drop_first());
        assert(a =~= seq![a[0]] + a.drop_first());
        assert(b =~= seq![b[0]] + b.drop_first());
    }
}

/// Two albums of which neither comes after the other are the same album.
pub proof fn lemma_album_le_antisymmetric(a: Option<Seq<char>>, b: Option<Seq<char>>)
    requires
        album_le(a, b),
        album_le(b, a),
    ensures
        a == b,
{
    match (a, b) {
        (Some(a), Some(b)) => lemma_text_le_antisymmetric(a, b),
        _ => {},
    }
}

proof fn lemma_same_sources(
    from_first: Seq<int>,
    from_second: Seq<int>,
    first: Seq<LibraryItem>,
    second: Seq<LibraryItem>,
    items: Seq<LibraryItem>,
    upto: int,
)
    requires
        sorts_by_album(from_first, first, items),
        sorts_by_album(from_second, second, items),
        0 <= upto <= items.len(),
    ensures
        forall|k: int| 0 <= k < upto ==> from_first[k] == from_second[k],
    decreases upto,
{
    if upto > 0 {
        lemma_same_sources(from_first, from_second, first, second, items, upto - 1);
        let i = upto - 1;
        let x = from_first[i];
        let y = from_second[i];
        if x != y {
            assert(is_source(from_second, x));
            let j = choose|j: int| 0 <= j < from_second.len() && from_second[j] == x;
            if j < i {
                assert(from_first[j] == from_second[j]);
                assert(from_first[j] != from_first[i]);
            }
            assert(is_source(from_first, y));
            let k = choose|k: int| 0 <= k < from_first.len() && from_first[k] == y;
            if k < i {
                assert(from_first[k] == from_second[k]);
                assert(from_second[k] != from_second[i]);
            }
            assert(first[i] == items[x] && first[k] == items[y]);
            assert(second[i] == items[y] && second[j] == items[x]);
            assert(album_le(first[i]@.album, first[k]@.album));
            assert(album_le(second[i]@.album, second[j]@.album));
            lemma_album_le_antisymmetric(items[x]@.album, items[y]@.album);
            assert(from_first[i] < from_first[k]);
            assert(from_second[i] < from_second[j]);
        }
    }
}

/// There is one order of a stable sort by album and no other: two
/// sequences that both are the tracks in that order are the same.
pub proof fn lemma_album_order_is_unique(
    first: Seq<LibraryItem>,
    second: Seq<LibraryItem>,
    items: Seq<LibraryItem>,
)
    requires
        is_sorted_by_album(first, items),
        is_sorted_by_album(second, items),
    ensures
        first == second,
{
    let from_first = choose|from: Seq<int>| sorts_by_album(from, first, items);
    let from_second = choose|from: Seq<int>| sorts_by_album(from, second, items);
    lemma_same_sources(from_first, from_second, first, second, items, items.len() as int);
    assert forall|k: int| 0 <= k < first.len() implies first[k] == second[k] by {
        assert(from_first[k] == from_second[k]);
    }
    assert(first =~= second);
}

/// The view by album of a list of tracks is one view and no other: two
/// views that both are it hold the same groups.
pub proof fn lemma_album_view_is_unique(a: LibraryView, b: LibraryView, items: Seq<LibraryItem>)
    requires
        is_album_view_of(a, items),
        is_album_view_of(b, items),
    ensures
        a.view_type == b.view_type,
        container_views(a.containers@) == container_views(b.containers@),
{
    let first = choose|sorted: Seq<LibraryItem>|
        #![trigger is_sorted_by_album(sorted, items)]
        is_sorted_by_album(sorted, items) && container_views(a.containers@) == album_groups(
            sorted,
        );
    let second = choose|sorted: Seq<LibraryItem>|
        #![trigger is_sorted_by_album(sorted, items)]
        is_sorted_by_album(sorted, items) && container_views(b.containers@) == album_groups(
            sorted,
        );
    lemma_album_order_is_unique(first, second, items);
}

/// `slice::sort_by_key` with the album as the key. The sort is stable: it
/// rearranges the tracks so that the albums ascend in the order of
/// `Option<String>`, and keeps tracks of one album in the order they had.
#[verifier::external_body]
fn sort_by_album(items: &mut Vec<LibraryItem>)
    ensures
        is_sorted_by_album(final(items)@, old(items)@),
{
    items.sort_by_key(|item| item.album())
}

/// The lengths of the runs of `names`: of the stretches, as long as they
/// can be, of neighbours that are equal.
pub open spec fn run_lengths_of(names: Seq<Seq<char>>) -> Seq<nat>
    decreases names.len(),
{
    if names.len() == 0 {
        Seq::empty()
    } else {
        let before = run_lengths_of(names.drop_last());
        if names.len() >= 2 && names[names.len() - 2] == names.last() {
            before.update(before.len() - 1, before.last() + 1)
        } else {
            before.push(1)
        }
    }
}

/// The views of a sequence of strings.
pub open spec fn texts(names: Seq<String>) -> Seq<Seq<char>> {
    names.map_values(|s: String| s@)
}

/// A sequence of lengths as numbers.
pub open spec fn lengths(runs: Seq<usize>) -> Seq<nat> {
    runs.map_values(|n: usize| n as nat)
}

/// `Itertools::group_by` with the name itself as the key, each group
/// replaced by its length: neighbours that are equal fall into one group,
/// and the groups come in the order of the names.
#[verifier::external_body]
fn run_lengths(names: &Vec<String>) -> (runs: Vec<usize>)
    ensures
        lengths(runs@) == run_lengths_of(texts(names@)),
{
    names.iter().group_by(|name| *name).into_iter().map(|(_, group)| group.count()).collect()
}

/// The sum of a sequence of lengths.
pub open spec fn total(runs: Seq<nat>) -> nat
    decreases runs.len(),
{
    if runs.len() == 0 {
        0
    } else {
        runs[0] + total(runs.drop_first())
    }
}

proof fn lemma_total_push(runs: Seq<nat>, n: nat)
    ensures
        total(runs.push(n)) == total(runs) + n,
    decreases runs.len(),
{
    if runs.len() == 0 {
        assert(runs.push(n).drop_first() == Seq::<nat>::empty());
        assert(total(runs.push(n).drop_first()) == 0);
        assert(total(runs) == 0);
        assert(runs.push(n)[0] == n);
    } else {
        lemma_total_push(runs.drop_first(), n);
        assert(runs.push(n).drop_first() == runs.drop_first().push(n));
        assert(runs.push(n)[0] == runs[0]);
    }
}

proof fn lemma_total_grow_last(runs: Seq<nat>)
    requires
        runs.len() > 0,
    ensures
        total(runs.update(runs.len() - 1, runs.last() + 1)) == total(runs) + 1,
    decreases runs.len(),
{
    let grown = runs.update(runs.len() - 1, runs.last() + 1);
    if runs.len() == 1 {
        assert(grown.drop_first() == Seq::<nat>::empty());
        assert(runs.drop_first() == Seq::<nat>::empty());
        assert(total(grown.drop_first()) == 0);
        assert(total(runs.drop_first()) == 0);
    } else {
        lemma_total_grow_last(runs.drop_first());
        assert(grown.drop_first() == runs.drop_first().update(
            runs.len() - 2,
            runs.drop_first().last() + 1,
        ));
    }
}

/// The runs are not empty, and together they are as long as the names.
pub proof fn lemma_runs_cover(names: Seq<Seq<char>>)
    ensures
        total(run_lengths_of(names)) == names.len(),
        forall|k: int| 0 <= k < run_lengths_of(names).len() ==> #[trigger] run_lengths_of(names)[k] >= 1,
        names.len() > 0 ==> run_lengths_of(names).len() > 0,
    decreases names.len(),
{
    if names.len() > 0 {
        let before = run_lengths_of(names.drop_last());
        lemma_runs_cover(names.drop_last());
        if names.len() >= 2 && names[names.len() - 2] == names.last() {
            lemma_total_grow_last(before);
        } else {
            lemma_total_push(before, 1);
        }
    }
}

proof fn lemma_total_skip(runs: Seq<nat>, i: int)
    requires
        0 <= i < runs.len(),
    ensures
        total(runs.skip(i)) == runs[i] + total(runs.skip(i + 1)),
{
    assert(runs.skip(i).drop_first() == runs.skip(i + 1));
}

/// The heading under which a track is grouped: its album, or `<?>` where it
/// has none.
pub open spec fn group_name_of(item: LibraryItemView) -> Seq<char> {
    match item.album {
        Some(album) => album,
        None => "<?>"@,
    }
}

/// The headings of a sequence of tracks.
pub open spec fn group_names(items: Seq<LibraryItem>) -> Seq<Seq<char>> {
    items.map_values(|item: LibraryItem| group_name_of(item@))
}

/// The groups that cutting `items` into stretches of the lengths `runs`
/// gives, each under the heading of its first track.
pub open spec fn sliced(items: Seq<LibraryItem>, runs: Seq<nat>) -> Seq<ContainerView>
    decreases runs.len(),
{
    if runs.len() == 0 {
        Seq::empty()
    } else {
        seq![
            ContainerView {
                name: group_name_of(items[0]@),
                items: items.take(runs[0] as int),
            },
        ] + sliced(items.skip(runs[0] as int), runs.drop_first())
    }
}

/// The groups of tracks that stand in the order of their albums: one group
/// for each run of tracks under one heading.
pub open spec fn album_groups(sorted: Seq<LibraryItem>) -> Seq<ContainerView> {
    sliced(sorted, run_lengths_of(group_names(sorted)))
}

/// The heading under which a track is grouped.
pub fn group_name(item: &LibraryItem) -> (r: String)
    ensures
        r@ == group_name_of(item@),
{
    match item.album() {
        Some(album) => album,
        None => String::from_str("<?>"),
    }
}

/// Groups tracks that stand in the order of their albums: neighbours under
/// one heading make one group.
pub fn group_by_album(sorted: &Vec<LibraryItem>) -> (view: LibraryView)
    ensures
        view.view_type == ViewType::Album,
        container_views(view.containers@) == album_groups(sorted@),
{
    let mut names: Vec<String> = Vec::new();
    let mut k: usize = 0;
    while k < sorted.len()
        invariant
            k <= sorted.len(),
            names@.len() == k,
            forall|j: int| 0 <= j < k ==> (#[trigger] names@[j])@ == group_name_of(sorted@[j]@),
        decreases sorted.len() - k,
    {
        names.push(group_name(&sorted[k]));
        k += 1;
    }
    assert(texts(names@) =~= group_names(sorted@));
    let runs = run_lengths(&names);
    let ghost all = run_lengths_of(group_names(sorted@));
    proof {
        lemma_runs_cover(group_names(sorted@));
        assert(all.skip(0) == all);
        assert(sorted@.skip(0) == sorted@);
    }
    let mut containers: Vec<LibraryItemContainer> = Vec::new();
    let mut position: usize = 0;
    let mut i: usize = 0;
    while i < runs.len()
        invariant
            i <= runs.len(),
            lengths(runs@) == all,
            forall|j: int| 0 <= j < all.len() ==> #[trigger] all[j] >= 1,
            position <= sorted.len(),
            position + total(all.skip(i as int)) == sorted.len(),
            container_views(containers@) + sliced(sorted@.skip(position as int), all.skip(i as int))
                == sliced(sorted@, all),
        decreases runs.len() - i,
    {
        let run = runs[i];
        proof {
            assert(lengths(runs@)[i as int] == run);
            lemma_total_skip(all, i as int);
        }
        let name = group_name(&sorted[position]);
        let mut items: Vec<LibraryItem> = Vec::new();
        let mut taken: usize = 0;
        while taken < run
            invariant
                taken <= run,
                position + run <= sorted.len(),
                items@ == sorted@.skip(position as int).take(taken as int),
            decreases run - taken,
        {
            items.push(sorted[position + taken].clone());
            assert(sorted@.skip(position as int).take(taken + 1) == sorted@.skip(
                position as int,
            ).take(taken as int).push(sorted@[position + taken]));
            taken += 1;
        }
        let ghost rest = sorted@.skip(position as int);
        let ghost left = all.skip(i as int);
        let ghost before = container_views(containers@);
        containers.push(LibraryItemContainer { name, items });
        proof {
            let group = ContainerView { name: group_name_of(rest[0]@), items: rest.take(run as int) };
            assert(left[0] == run);
            assert(left.drop_first() == all.skip(i + 1));
            assert(rest.skip(run as int) == sorted@.skip(position + run));
            assert(sliced(rest, left) == seq![group] + sliced(
                sorted@.skip(position + run),
                all.skip(i + 1),
            ));
            assert(container_views(containers@) =~= before.push(group));
            assert(before.push(group) + sliced(sorted@.skip(position + run), all.skip(i + 1))
                =~= before + (seq![group] + sliced(
                sorted@.skip(position + run),
                all.skip(i + 1),
            )));
        }
        position += run;
        i += 1;
    }
    proof {
        assert(all.skip(i as int).len() == 0);
        assert(container_views(containers@) + Seq::<ContainerView>::empty() == container_views(
            containers@,
        ));
    }
    LibraryView { view_type: ViewType::Album, containers }
}

/// The tracks in the order of a stable sort by album.
pub fn sorted_by_album(items: &Vec<LibraryItem>) -> (sorted: Vec<LibraryItem>)
    ensures
        is_sorted_by_album(sorted@, items@),
{
    let mut sorted: Vec<LibraryItem> = Vec::new();
    let mut i: usize = 0;
    while i < items.len()
        invariant
            i <= items.len(),
            sorted@ == items@.take(i as int),
        decreases items.len() - i,
    {
        sorted.push(items[i].clone());
        assert(items@.take(i + 1) == items@.take(i as int).push(items@[i as int]));
        i += 1;
    }
    assert(items@.take(items.len() as int) == items@);
    sort_by_album(&mut sorted);
    sorted
}

/// Whether `view` is the view by album of `items`: the groups of the tracks
/// once a stable sort has put them in the order of their albums.
pub open spec fn is_album_view_of(view: LibraryView, items: Seq<LibraryItem>) -> bool {
    &&& view.view_type == ViewType::Album
    &&& exists|sorted: Seq<LibraryItem>|
        #![trigger is_sorted_by_album(sorted, items)]
        is_sorted_by_album(sorted, items) && container_views(view.containers@) == album_groups(
            sorted,
        )
}

/// The view that groups the tracks by album.
pub fn album_view(items: &Vec<LibraryItem>) -> (view: LibraryView)
    ensures
        is_album_view_of(view, items@),
{
    let sorted = sorted_by_album(items);
    group_by_album(&sorted)
}

/// Whether a file of this name is imported: its extension is `mp3`, which
/// is to say that the name ends in `.mp3` and has something before that.
pub open spec fn names_music(file_name: Seq<char>) -> bool {
    let n = file_name.len() as int;
    n > 4 && file_name[n - 4] == '.' && file_name[n - 3] == 'm' && file_name[n - 2] == 'p'
        && file_name[n - 1] == '3'
}

/// Tests whether a file of this name is imported.
pub fn is_music_file(file_name: &str) -> (r: bool)
    ensures
        r == names_music(file_name@),
{
    let n = file_name.unicode_len();
    if n <= 4 {
        return false;
    }
    file_name.get_char(n - 4) == '.' && file_name.get_char(n - 3) == 'm' && file_name.get_char(
        n - 2,
    ) == 'p' && file_name.get_char(n - 1) == '3'
}

/// What the interface is told of an import: of every track, then of the view
/// by album of all of them, then that the directory is done.
pub open spec fn announces(commands: Seq<UiCommand>, items: Seq<LibraryItem>, id: LibraryPathId) -> bool {
    &&& commands.len() == items.len() + 2
    &&& forall|k: int|
        0 <= k < items.len() ==> #[trigger] commands[k] == UiCommand::LibraryAddItem(items[k])
    &&& commands[items.len() as int] matches UiCommand::LibraryAddView(view) && is_album_view_of(
        view,
        items,
    )
    &&& commands[items.len() as int + 1] == UiCommand::LibraryAddPathId(id)
}

/// Whether `items` are the tracks of the files in their order, in the
/// directory `id`. Each track has a key of its own choosing.
pub open spec fn imports(items: Seq<LibraryItem>, files: Seq<ScannedFile>, id: LibraryPathId) -> bool {
    &&& items.len() == files.len()
    &&& forall|k: int|
        0 <= k < items.len() ==> (#[trigger] items[k])@ == LibraryItem::scanned(
            files[k],
            id,
            items[k]@.key,
        )
}

/// Imports the files that a scan of the directory `lib_path` found and says
/// what to tell the interface. Of a directory that has been imported before
/// there is nothing to tell.
pub fn import_library_paths(lib_path: &LibraryPath, files: &Vec<ScannedFile>) -> (commands: Vec<
    UiCommand,
>)
    ensures
        lib_path@.status == LibraryPathStatus::Imported ==> commands@.len() == 0,
        lib_path@.status != LibraryPathStatus::Imported ==> exists|items: Seq<LibraryItem>|
            #![trigger imports(items, files@, lib_path@.id)]
            imports(items, files@, lib_path@.id) && announces(commands@, items, lib_path@.id),
{
    let mut commands: Vec<UiCommand> = Vec::new();
    if lib_path.status() == LibraryPathStatus::Imported {
        return commands;
    }
    let path_id = lib_path.id();
    let mut items: Vec<LibraryItem> = Vec::new();
    let mut i: usize = 0;
    while i < files.len()
        invariant
            i <= files.len(),
            items@.len() == i,
            commands@.len() == i,
            forall|k: int|
                0 <= k < i ==> (#[trigger] items@[k])@ == LibraryItem::scanned(
                    files@[k],
                    path_id,
                    items@[k]@.key,
                ),
            forall|k: int| 0 <= k < i ==> #[trigger] commands@[k] == UiCommand::LibraryAddItem(items@[k]),
        decreases files.len() - i,
    {
        let item = LibraryItem::from_scan(&files[i], path_id);
        commands.push(UiCommand::LibraryAddItem(item.clone()));
        items.push(item);
        i += 1;
    }
    let library_view = album_view(&items);
    commands.push(UiCommand::LibraryAddView(library_view));
    commands.push(UiCommand::LibraryAddPathId(path_id));
    assert(imports(items@, files@, path_id));
    assert(announces(commands@, items@, path_id));
    commands
}

} // verus!
