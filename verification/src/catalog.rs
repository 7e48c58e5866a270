//! The catalog as a mathematical value: four tables of plain rows, and what
//! each operation of the store makes of them.

use crate::db::{GameView, LocationView, PlatformView, SaveView};
use crate::table::{find, lemma_below_next, ordered, replaced, within, without};
use vstd::prelude::*;

verus! {

/// The four tables of the catalog, each in the order of its identifiers,
/// and beside each the largest identifier that it ever gave to a row, 0
/// while it gave none. A row that was deleted has kept its identifier: no
/// later row gets it.
pub struct Catalog {
    pub games: Seq<GameView>,
    pub platforms: Seq<PlatformView>,
    pub locations: Seq<LocationView>,
    pub saves: Seq<SaveView>,
    pub last_game: int,
    pub last_platform: int,
    pub last_location: int,
    pub last_save: int,
}

/// No two platforms of the table share a name.
pub open spec fn distinct_names(platforms: Seq<PlatformView>) -> bool {
    forall|i: int, j: int|
        0 <= i < j < platforms.len() ==> (#[trigger] platforms[i]).platform_name != (
        #[trigger] platforms[j]).platform_name
}

/// Whether a platform of the table is named `name`.
pub open spec fn has_name(platforms: Seq<PlatformView>, name: Seq<char>) -> bool {
    exists|i: int| 0 <= i < platforms.len() && (#[trigger] platforms[i]).platform_name == name
}

/// The place of a platform named `name`, where there is one.
pub open spec fn name_position(platforms: Seq<PlatformView>, name: Seq<char>) -> int {
    choose|i: int| 0 <= i < platforms.len() && (#[trigger] platforms[i]).platform_name == name
}

/// Whether a save belongs to the game, the platform and the location that
/// are asked for; `None` asks for any.
pub open spec fn save_matches(
    save: SaveView,
    game_id: Option<int>,
    platform_id: Option<int>,
    location_id: Option<int>,
) -> bool {
    &&& game_id matches Some(g) ==> save.game_id == g
    &&& platform_id matches Some(p) ==> save.platform_id == p
    &&& location_id matches Some(l) ==> save.location_id == l
}

/// The free-form text of a save; the empty text where it has none.
pub open spec fn metadata_text(save: SaveView) -> Seq<char> {
    match save.metadata {
        Some(m) => m,
        None => Seq::empty(),
    }
}

impl Catalog {
    /// The catalog without any row.
    pub open spec fn empty() -> Catalog {
        Catalog {
            games: Seq::empty(),
            platforms: Seq::empty(),
            locations: Seq::empty(),
            saves: Seq::empty(),
            last_game: 0,
            last_platform: 0,
            last_location: 0,
            last_save: 0,
        }
    }

    /// Every table is in the order of its identifiers, which are positive
    /// and not above the largest that the table ever gave, and no two
    /// platforms share a name.
    pub open spec fn wf(self) -> bool {
        &&& ordered(self.games)
        &&& ordered(self.platforms)
        &&& ordered(self.locations)
        &&& ordered(self.saves)
        &&& within(self.games, self.last_game)
        &&& within(self.platforms, self.last_platform)
        &&& within(self.locations, self.last_location)
        &&& within(self.saves, self.last_save)
        &&& distinct_names(self.platforms)
    }

    /// The identifier that the next game gets: above every identifier that
    /// a game ever had.
    pub open spec fn next_game(self) -> int {
        self.last_game + 1
    }

    /// The identifier that the next new platform gets.
    pub open spec fn next_platform(self) -> int {
        self.last_platform + 1
    }

    /// The identifier that the next location gets.
    pub open spec fn next_location(self) -> int {
        self.last_location + 1
    }

    /// The identifier that the next save gets.
    pub open spec fn next_save(self) -> int {
        self.last_save + 1
    }

    /// The game with the identifier `id`, or `None`.
    pub open spec fn game(self, id: int) -> Option<GameView> {
        find(self.games, id)
    }

    /// The platform with the identifier `id`, or `None`.
    pub open spec fn platform(self, id: int) -> Option<PlatformView> {
        find(self.platforms, id)
    }

    /// The location with the identifier `id`, or `None`.
    pub open spec fn location(self, id: int) -> Option<LocationView> {
        find(self.locations, id)
    }

    /// The save with the identifier `id`, or `None`.
    pub open spec fn save(self, id: int) -> Option<SaveView> {
        find(self.saves, id)
    }

    /// The games whose title begins with `prefix`, in the order of the table.
    pub open spec fn games_titled(self, prefix: Seq<char>) -> Seq<GameView> {
        self.games.filter(|g: GameView| prefix.is_prefix_of(g.title))
    }

    /// The first game of the table whose title is `title`, or `None`.
    pub open spec fn game_called(self, title: Seq<char>) -> Option<GameView> {
        let called = self.games.filter(|g: GameView| g.title == title);
        if called.len() > 0 {
            Some(called[0])
        } else {
            None
        }
    }

    /// The platform named `name`, or `None`.
    pub open spec fn platform_named(self, name: Seq<char>) -> Option<PlatformView> {
        if has_name(self.platforms, name) {
            Some(self.platforms[name_position(self.platforms, name)])
        } else {
            None
        }
    }

    /// The saves that belong to the game, the platform and the location that
    /// are asked for, in the order of the table.
    pub open spec fn saves_matching(
        self,
        game_id: Option<int>,
        platform_id: Option<int>,
        location_id: Option<int>,
    ) -> Seq<SaveView> {
        self.saves.filter(|s: SaveView| save_matches(s, game_id, platform_id, location_id))
    }

    /// The saves of one game, in the order of the table.
    pub open spec fn saves_of(self, game_id: int) -> Seq<SaveView> {
        self.saves_matching(Some(game_id), None, None)
    }

    /// The catalog after a game with these fields was inserted: it is the
    /// last row of its table and has the next identifier, which no game had
    /// before.
    pub open spec fn with_game(
        self,
        title: Seq<char>,
        publisher: Seq<char>,
        release_date: Seq<char>,
    ) -> Catalog {
        Catalog {
            games: self.games.push(
                GameView { id: self.next_game(), title, publisher, release_date },
            ),
            last_game: self.next_game(),
            ..self
        }
    }

    /// The catalog after the three fields of the game `id` were overwritten;
    /// the catalog itself where there is no such game.
    pub open spec fn with_game_edited(
        self,
        id: int,
        title: Seq<char>,
        publisher: Seq<char>,
        release_date: Seq<char>,
    ) -> Catalog {
        Catalog {
            games: replaced(self.games, GameView { id, title, publisher, release_date }),
            ..self
        }
    }

    /// The catalog without the game `id`.
    pub open spec fn without_game(self, id: int) -> Catalog {
        Catalog { games: without(self.games, id), ..self }
    }

    /// The identifier that inserting a platform named `name` returns: that
    /// of the platform with this name, or the next one where there is none.
    pub open spec fn platform_id_for(self, name: Seq<char>) -> int {
        match self.platform_named(name) {
            Some(p) => p.id,
            None => self.next_platform(),
        }
    }

    /// The catalog after a platform named `name` was inserted: unchanged
    /// where a platform has this name, and with a new last row where none has.
    pub open spec fn with_platform(self, name: Seq<char>) -> Catalog {
        if has_name(self.platforms, name) {
            self
        } else {
            Catalog {
                platforms: self.platforms.push(
                    PlatformView { id: self.next_platform(), platform_name: name },
                ),
                last_platform: self.next_platform(),
                ..self
            }
        }
    }

    /// The catalog after a location with these fields was inserted.
    pub open spec fn with_location(self, location_path: Seq<char>, description: Seq<char>) -> Catalog {
        Catalog {
            locations: self.locations.push(
                LocationView { id: self.next_location(), location_path, description },
            ),
            last_location: self.next_location(),
            ..self
        }
    }

    /// The catalog without the location `id`.
    pub open spec fn without_location(self, id: int) -> Catalog {
        Catalog { locations: without(self.locations, id), ..self }
    }

    /// The catalog after a save with these fields was inserted.
    pub open spec fn with_save(
        self,
        game_id: int,
        location_id: int,
        metadata: Seq<char>,
        platform_id: int,
    ) -> Catalog {
        Catalog {
            saves: self.saves.push(
                SaveView {
                    id: self.next_save(),
                    game_id,
                    location_id,
                    metadata: Some(metadata),
                    platform_id,
                },
            ),
            last_save: self.next_save(),
            ..self
        }
    }

    /// The catalog without the save `id`.
    pub open spec fn without_save(self, id: int) -> Catalog {
        Catalog { saves: without(self.saves, id), ..self }
    }
}

/// In a table of distinct names the platform at place `i` is the one that
/// its name finds.
pub proof fn lemma_named_at(platforms: Seq<PlatformView>, i: int)
    requires
        distinct_names(platforms),
        0 <= i < platforms.len(),
    ensures
        has_name(platforms, platforms[i].platform_name),
        name_position(platforms, platforms[i].platform_name) == i,
{
}

/// A filter that every row passes keeps the whole table.
pub proof fn lemma_filter_all<T>(rows: Seq<T>, pred: spec_fn(T) -> bool)
    requires
        forall|i: int| 0 <= i < rows.len() ==> pred(#[trigger] rows[i]),
    ensures
        rows.filter(pred) == rows,
    decreases rows.len(),
{
    reveal(Seq::filter);
    if rows.len() > 0 {
        lemma_filter_all(rows.drop_last(), pred);
    }
}

/// A filter that no row passes keeps nothing.
pub proof fn lemma_filter_none<T>(rows: Seq<T>, pred: spec_fn(T) -> bool)
    requires
        forall|i: int| 0 <= i < rows.len() ==> !pred(#[trigger] rows[i]),
    ensures
        rows.filter(pred) == Seq::<T>::empty(),
    decreases rows.len(),
{
    reveal(Seq::filter);
    if rows.len() > 0 {
        lemma_filter_none(rows.drop_last(), pred);
    }
}

/// Filtering one row more: the filter of the first `i + 1` rows is that of
/// the first `i`, with row `i` behind it where it passes.
pub proof fn lemma_filter_step<T>(rows: Seq<T>, pred: spec_fn(T) -> bool, i: int)
    requires
        0 <= i < rows.len(),
    ensures
        rows.take(i + 1).filter(pred) == if pred(rows[i]) {
            rows.take(i).filter(pred).push(rows[i])
        } else {
            rows.take(i).filter(pred)
        },
{
    reveal(Seq::filter);
    assert(rows.take(i + 1).drop_last() =~= rows.take(i));
}

/// The empty prefix finds every game of the catalog.
pub proof fn lemma_empty_prefix_finds_all(c: Catalog)
    ensures
        c.games_titled(Seq::empty()) == c.games,
{
    let pred = |g: GameView| Seq::<char>::empty().is_prefix_of(g.title);
    lemma_filter_all(c.games, pred);
}

/// A prefix with which no title begins finds no game.
pub proof fn lemma_unused_prefix_finds_none(c: Catalog, prefix: Seq<char>)
    requires
        forall|i: int| 0 <= i < c.games.len() ==> !prefix.is_prefix_of((#[trigger] c.games[i]).title),
    ensures
        c.games_titled(prefix) == Seq::<GameView>::empty(),
{
    let pred = |g: GameView| prefix.is_prefix_of(g.title);
    lemma_filter_none(c.games, pred);
}

/// Inserting a platform keeps the catalog well formed, and afterwards the
/// name finds a platform with the identifier that was returned.
pub proof fn lemma_platform_inserted(c: Catalog, name: Seq<char>)
    requires
        c.wf(),
    ensures
        c.with_platform(name).wf(),
        c.with_platform(name).platform_named(name) matches Some(p) && p.id == c.platform_id_for(
            name,
        ) && p.platform_name == name,
{
    if !has_name(c.platforms, name) {
    }
}

/// The next identifier of a table is new: every row of the table has a
/// smaller one.
pub proof fn lemma_next_is_new(c: Catalog)
    requires
        c.wf(),
    ensures
        forall|i: int| 0 <= i < c.games.len() ==> (#[trigger] c.games[i]).id < c.next_game(),
        forall|i: int|
            0 <= i < c.platforms.len() ==> (#[trigger] c.platforms[i]).id < c.next_platform(),
        forall|i: int|
            0 <= i < c.locations.len() ==> (#[trigger] c.locations[i]).id < c.next_location(),
        forall|i: int| 0 <= i < c.saves.len() ==> (#[trigger] c.saves[i]).id < c.next_save(),
{
    assert forall|i: int| 0 <= i < c.games.len() implies (#[trigger] c.games[i]).id
        < c.next_game() by {
        lemma_below_next(c.games, i);
    }
    assert forall|i: int| 0 <= i < c.platforms.len() implies (#[trigger] c.platforms[i]).id
        < c.next_platform() by {
        lemma_below_next(c.platforms, i);
    }
    assert forall|i: int| 0 <= i < c.locations.len() implies (#[trigger] c.locations[i]).id
        < c.next_location() by {
        lemma_below_next(c.locations, i);
    }
    assert forall|i: int| 0 <= i < c.saves.len() implies (#[trigger] c.saves[i]).id
        < c.next_save() by {
        lemma_below_next(c.saves, i);
    }
}

/// An identifier is not given twice: once a game was inserted and deleted
/// again, the table is as it was, and yet the next game gets a larger
/// identifier than the deleted one had.
pub proof fn lemma_game_id_not_given_again(
    c: Catalog,
    title: Seq<char>,
    publisher: Seq<char>,
    release_date: Seq<char>,
)
    requires
        c.wf(),
    ensures
        ({
            let gone = c.with_game(title, publisher, release_date).without_game(c.next_game());
            &&& gone.wf()
            &&& gone.games == c.games
            &&& gone.next_game() == c.next_game() + 1
        }),
{
}

/// An identifier is not given twice: once a save was inserted and deleted
/// again, the table is as it was, and yet the next save gets a larger
/// identifier than the deleted one had, and with it a backup directory that
/// was never that of another save.
pub proof fn lemma_save_id_not_given_again(
    c: Catalog,
    game_id: int,
    location_id: int,
    metadata: Seq<char>,
    platform_id: int,
)
    requires
        c.wf(),
    ensures
        ({
            let gone = c.with_save(game_id, location_id, metadata, platform_id).without_save(
                c.next_save(),
            );
            &&& gone.wf()
            &&& gone.saves == c.saves
            &&& gone.next_save() == c.next_save() + 1
        }),
{
}

/// Inserting a platform of the same name twice returns the same identifier
/// both times, changes nothing the second time, and leaves exactly one
/// platform of that name.
pub proof fn lemma_insert_platform_twice(c: Catalog, name: Seq<char>)
    requires
        c.wf(),
    ensures
        c.with_platform(name).platform_id_for(name) == c.platform_id_for(name),
        c.with_platform(name).with_platform(name) == c.with_platform(name),
        c.with_platform(name).platforms.filter(|p: PlatformView| p.platform_name == name).len()
            == 1,
{
    lemma_platform_inserted(c, name);
    let once = c.with_platform(name);
    let at = name_position(once.platforms, name);
    lemma_single_name(once.platforms, at);
}

/// In a table of distinct names exactly one platform has the name of the
/// platform at place `i`.
pub proof fn lemma_single_name(platforms: Seq<PlatformView>, i: int)
    requires
        distinct_names(platforms),
        0 <= i < platforms.len(),
    ensures
        platforms.filter(|p: PlatformView| p.platform_name == platforms[i].platform_name).len()
            == 1,
    decreases platforms.len(),
{
    let name = platforms[i].platform_name;
    let pred = |p: PlatformView| p.platform_name == name;
    reveal(Seq::filter);
    let front = platforms.drop_last();
    if i == platforms.len() - 1 {
        lemma_filter_none(front, pred);
    } else {
        lemma_single_name(front, i);
    }
}

} // verus!
