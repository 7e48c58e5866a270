//! Referential integrity: what the saves of a catalog refer to exists, and
//! a location belongs to one save.
//!
//! The store itself does not enforce this: a save can be inserted for any
//! three identifiers, and any row can be deleted. The orchestrator keeps it,
//! because it only ever inserts a save together with what it refers to, and
//! only ever removes a location together with its save and a game after its
//! saves.

use crate::catalog::{has_name, name_position, save_matches, Catalog};
use crate::db::{GameView, LocationView, SaveView};
use crate::game_saves::{begun, lemma_first_match_is_stored, remove_round, removed, Entered};
use crate::table::{
    has_key, lemma_append, lemma_remove_at, lemma_replace_at, position, Keyed,
};
use vstd::prelude::*;

verus! {

/// Every save refers to a game, a platform and a location of the catalog,
/// and no two saves refer to the same location.
pub open spec fn bound(c: Catalog) -> bool {
    &&& forall|i: int|
        0 <= i < c.saves.len() ==> has_key(c.games, (#[trigger] c.saves[i]).game_id)
    &&& forall|i: int|
        0 <= i < c.saves.len() ==> has_key(c.platforms, (#[trigger] c.saves[i]).platform_id)
    &&& forall|i: int|
        0 <= i < c.saves.len() ==> has_key(c.locations, (#[trigger] c.saves[i]).location_id)
    &&& forall|i: int, j: int|
        0 <= i < j < c.saves.len() ==> (#[trigger] c.saves[i]).location_id != (
        #[trigger] c.saves[j]).location_id
}

/// Every step of adding a game save keeps the catalog bound.
pub proof fn lemma_add_keeps_bound(c: Catalog, e: Entered, steps: nat)
    requires
        c.wf(),
        bound(c),
    ensures
        bound(begun(c, e, steps)),
{
    let game = GameView {
        id: c.next_game(),
        title: e.title,
        publisher: e.publisher,
        release_date: e.release_date,
    };
    lemma_append(c.games, game);
    let c2 = begun(c, e, 2);
    let platform_id = c.platform_id_for(e.platform);
    if has_name(c.platforms, e.platform) {
        assert(c.platforms[name_position(c.platforms, e.platform)].key() == platform_id);
    } else {
        lemma_append(c.platforms, c2.platforms.last());
    }
    let location = LocationView {
        id: c.next_location(),
        location_path: e.location,
        description: Seq::empty(),
    };
    lemma_append(c.locations, location);
}

/// Overwriting the fields of a game keeps the catalog bound.
pub proof fn lemma_edit_keeps_bound(
    c: Catalog,
    id: int,
    title: Seq<char>,
    publisher: Seq<char>,
    release_date: Seq<char>,
)
    requires
        c.wf(),
        bound(c),
    ensures
        bound(c.with_game_edited(id, title, publisher, release_date)),
{
    if has_key(c.games, id) {
        lemma_replace_at(
            c.games,
            position(c.games, id),
            GameView { id, title, publisher, release_date },
        );
    }
}

/// Removing a save, and then its location, keeps the catalog bound.
pub proof fn lemma_unsave_keeps_bound(c: Catalog, save_id: int)
    requires
        c.wf(),
        bound(c),
    ensures
        bound(c.without_save(save_id)),
        c.save(save_id) matches Some(s) ==> bound(
            c.without_save(save_id).without_location(s.location_id),
        ),
{
    match c.save(save_id) {
        Some(s) => {
            if has_key(c.locations, s.location_id) {
                lemma_remove_at(c.locations, position(c.locations, s.location_id));
            }
        },
        None => {},
    }
}

/// Removing a game that has no save keeps the catalog bound.
pub proof fn lemma_ungame_keeps_bound(c: Catalog, game_id: int)
    requires
        c.wf(),
        bound(c),
        c.saves_of(game_id).len() == 0,
    ensures
        bound(c.without_game(game_id)),
{
    let pred = |s: SaveView| save_matches(s, Some(game_id), None, None);
    let after = c.without_game(game_id);
    if has_key(c.games, game_id) {
        lemma_remove_at(c.games, position(c.games, game_id));
    }
    assert forall|i: int| 0 <= i < after.saves.len() implies has_key(
        after.games,
        (#[trigger] after.saves[i]).game_id,
    ) by {
        if c.saves[i].game_id == game_id {
            c.saves.lemma_filter_contains(pred, i);
        }
    }
}

/// Every round of removing a game keeps the catalog bound, and so does
/// removing it for good.
pub proof fn lemma_remove_keeps_bound(c: Catalog, game_id: int)
    requires
        c.wf(),
        bound(c),
    ensures
        bound(remove_round(c, game_id)),
        bound(removed(c, game_id)),
    decreases c.saves.len(),
{
    if c.game(game_id) is None {
        // The round removes nothing.
    } else if c.saves_of(game_id).len() > 0 {
        lemma_first_match_is_stored(c, game_id);
        lemma_unsave_keeps_bound(c, c.saves_of(game_id)[0].id);
        lemma_remove_keeps_bound(remove_round(c, game_id), game_id);
    } else {
        lemma_ungame_keeps_bound(c, game_id);
    }
}

} // verus!
