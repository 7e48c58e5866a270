//! The backup orchestrator: adding, editing, removing and restoring a game
//! save as one operation on the catalog, with the work on disk that belongs
//! to it named for whoever holds the disk.
//!
//! Every operation stops at its first failing step and leaves what it has
//! done so far in place.

use crate::catalog::{has_name, name_position, save_matches, Catalog};
use crate::db::{Db, DbError, SaveView};
use crate::integrity::{
    bound, lemma_add_keeps_bound, lemma_edit_keeps_bound, lemma_ungame_keeps_bound,
    lemma_unsave_keeps_bound,
};
use crate::filesystem::{copy_plan, join, join_path, Entry, Filesystem, FsOp, Step};
use crate::table::{has_key, lemma_found_at, lemma_remove_at, position, views, Keyed};
use crate::text::{backup_dir, backup_path, same_text};
use vstd::prelude::*;
use vstd::string::StringExecFns;

verus! {

/// What is entered to add a game save, as plain values.
pub struct Entered {
    pub title: Seq<char>,
    pub publisher: Seq<char>,
    pub release_date: Seq<char>,
    pub platform: Seq<char>,
    pub location: Seq<char>,
}

/// A step of adding a game save.
#[derive(Debug, Clone, Copy, PartialEq, Eq)]
pub enum AddStep {
    Game,
    Platform,
    Location,
    Save,
}

/// Adding a game save failed at `step`, for the reason `cause`.
#[derive(Debug)]
pub struct AddError {
    pub step: AddStep,
    pub cause: DbError,
}

/// A game save that was added to the catalog, and the copy that is still
/// to be made on disk: the directory `source` into `backup_dir`.
#[derive(Debug, PartialEq, Eq)]
pub struct BackupJob {
    pub game_id: i32,
    pub platform_id: i32,
    pub location_id: i32,
    pub save_id: i32,
    pub source: String,
    pub backup_dir: String,
}

/// How editing a game ended.
#[derive(Debug, Clone, Copy, PartialEq, Eq)]
pub enum EditOutcome {
    /// There is no such game.
    GameNotFound,
    /// Nothing was entered, and nothing was changed.
    Unchanged,
    /// The game was updated.
    Updated,
}

/// How many steps come before `step`.
pub open spec fn steps_before(step: AddStep) -> nat {
    match step {
        AddStep::Game => 0,
        AddStep::Platform => 1,
        AddStep::Location => 2,
        AddStep::Save => 3,
    }
}

/// The catalog after the first `steps` steps of adding what was entered:
/// the game, then the platform unless one has that name, then the location
/// with an empty description, then the save with an empty text that binds
/// the three.
pub open spec fn begun(c: Catalog, e: Entered, steps: nat) -> Catalog {
    let with_game = c.with_game(e.title, e.publisher, e.release_date);
    let with_platform = with_game.with_platform(e.platform);
    let with_location = with_platform.with_location(e.location, Seq::empty());
    if steps == 0 {
        c
    } else if steps == 1 {
        with_game
    } else if steps == 2 {
        with_platform
    } else if steps == 3 {
        with_location
    } else {
        with_location.with_save(
            c.next_game(),
            c.next_location(),
            Seq::empty(),
            c.platform_id_for(e.platform),
        )
    }
}

/// Whether the table that `step` adds to has no identifier left for what
/// was entered.
pub open spec fn exhausted(c: Catalog, e: Entered, step: AddStep) -> bool {
    match step {
        AddStep::Game => c.next_game() > i32::MAX,
        AddStep::Platform => !has_name(c.platforms, e.platform) && c.next_platform() > i32::MAX,
        AddStep::Location => c.next_location() > i32::MAX,
        AddStep::Save => c.next_save() > i32::MAX,
    }
}

/// What is kept of two texts: the new one, and the old one where the new
/// one is empty.
pub open spec fn kept(new: Seq<char>, old: Seq<char>) -> Seq<char> {
    if new.len() == 0 {
        old
    } else {
        new
    }
}

impl AddError {
    /// A message that names the step that failed.
    pub fn message(&self) -> (r: String)
        ensures
            r@ == match self.step {
                AddStep::Game => "Failed to insert game"@,
                AddStep::Platform => "Failed to insert platform"@,
                AddStep::Location => "Failed to insert location"@,
                AddStep::Save => "Failed to insert save"@,
            },
    {
        match self.step {
            AddStep::Game => String::from_str("Failed to insert game"),
            AddStep::Platform => String::from_str("Failed to insert platform"),
            AddStep::Location => String::from_str("Failed to insert location"),
            AddStep::Save => String::from_str("Failed to insert save"),
        }
    }
}

/// The backup orchestrator. It owns the catalog store and the filesystem
/// mirror.
pub struct GameSaves {
    db: Db,
    fs: Filesystem,
}

impl View for GameSaves {
    type V = Catalog;

    closed spec fn view(&self) -> Catalog {
        self.db@
    }
}

impl GameSaves {
    /// The catalog is well formed.
    pub open spec fn wf(&self) -> bool {
        self@.wf()
    }

    /// An orchestrator over the catalog store `db` and the mirror `fs`.
    pub fn new(db: Db, fs: Filesystem) -> (r: Self)
        requires
            db.wf(),
        ensures
            r.wf(),
            r@ == db@,
    {
        GameSaves { db, fs }
    }

    /// The catalog store.
    pub fn db(&self) -> (r: &Db)
        ensures
            r@ == self@,
    {
        &self.db
    }

    /// The filesystem mirror.
    pub fn filesystem(&self) -> (r: &Filesystem)
        ensures
            *r == (Filesystem {  }),
    {
        &self.fs
    }

    /// Adds a game save: inserts the game, the platform unless one has that
    /// name, a new location with an empty description, and a save with an
    /// empty text that binds the three, in this order. The answer names the
    /// four rows and the copy that is then to be made on disk, from the
    /// location into the backup directory of the new save.
    ///
    /// Every text is stored as it is given, blanks included: whoever reads
    /// what a user typed takes the blanks around it away first.
    ///
    /// Fails at the first step that fails; the rows of the steps before it
    /// stay in the catalog. Whatever the outcome, a catalog whose saves refer
    /// to rows that exist, each to a location of its own, is still such a
    /// catalog afterwards.
    pub fn add_game_save(
        &mut self,
        title: &str,
        publisher: &str,
        release_date: &str,
        platform: &str,
        location: &str,
    ) -> (r: Result<BackupJob, AddError>)
        requires
            old(self).wf(),
        ensures
            final(self).wf(),
            ({
                let c = old(self)@;
                let e = Entered {
                    title: title@,
                    publisher: publisher@,
                    release_date: release_date@,
                    platform: platform@,
                    location: location@,
                };
                match r {
                    Ok(job) => {
                        &&& final(self)@ == begun(c, e, 4)
                        &&& job.game_id == c.next_game()
                        &&& job.platform_id == c.platform_id_for(platform@)
                        &&& job.location_id == c.next_location()
                        &&& job.save_id == c.next_save()
                        &&& job.source@ == location@
                        &&& job.backup_dir@ == backup_path(
                            job.game_id as int,
                            job.platform_id as int,
                            job.save_id as int,
                        )
                    },
                    Err(err) => {
                        &&& final(self)@ == begun(c, e, steps_before(err.step))
                        &&& !(err.cause is Corrupt)
                        &&& err.cause is IdsExhausted <==> exhausted(c, e, err.step)
                    },
                }
            }),
            bound(old(self)@) ==> bound(final(self)@),
    {
        proof {
            let e = Entered {
                title: title@,
                publisher: publisher@,
                release_date: release_date@,
                platform: platform@,
                location: location@,
            };
            if bound(self@) {
                lemma_add_keeps_bound(self@, e, 0);
                lemma_add_keeps_bound(self@, e, 1);
                lemma_add_keeps_bound(self@, e, 2);
                lemma_add_keeps_bound(self@, e, 3);
                lemma_add_keeps_bound(self@, e, 4);
            }
        }
        let game_id = match self.db.insert_game(title, publisher, release_date) {
            Ok(id) => id,
            Err(cause) => {
                return Err(AddError { step: AddStep::Game, cause });
            },
        };
        let platform_id = match self.db.insert_platform(platform) {
            Ok(id) => id,
            Err(cause) => {
                return Err(AddError { step: AddStep::Platform, cause });
            },
        };
        let location_id = match self.db.insert_location(location, "") {
            Ok(id) => id,
            Err(cause) => {
                return Err(AddError { step: AddStep::Location, cause });
            },
        };
        proof {
            reveal_strlit("");
            assert(""@ =~= Seq::<char>::empty());
        }
        let save_id = match self.db.insert_save(game_id, location_id, "", platform_id) {
            Ok(id) => id,
            Err(cause) => {
                return Err(AddError { step: AddStep::Save, cause });
            },
        };
        Ok(
            BackupJob {
                game_id,
                platform_id,
                location_id,
                save_id,
                source: String::from_str(location),
                backup_dir: backup_dir(game_id, platform_id, save_id),
            },
        )
    }

    /// Edits the game `game_id`: each of the three fields is overwritten by
    /// what was entered for it, and kept where nothing was entered. Where
    /// nothing was entered at all the catalog is not touched.
    ///
    /// Nothing was entered for a field where its text is empty. A text of
    /// blanks alone is a text that was entered, and is stored as it is:
    /// whoever reads what a user typed takes the blanks around it away
    /// first.
    ///
    /// Fails with SQLite's error where it could not store the change; the
    /// catalog is unchanged then. What the saves refer to is not touched.
    pub fn edit_game_save(
        &mut self,
        game_id: i32,
        new_title: &str,
        new_publisher: &str,
        new_release_date: &str,
    ) -> (r: Result<EditOutcome, DbError>)
        requires
            old(self).wf(),
        ensures
            final(self).wf(),
            ({
                let c = old(self)@;
                let after = final(self)@;
                let nothing = new_title@.len() == 0 && new_publisher@.len() == 0
                    && new_release_date@.len() == 0;
                match c.game(game_id as int) {
                    None => r == Ok::<EditOutcome, DbError>(EditOutcome::GameNotFound) && after
                        == c,
                    Some(g) => if nothing {
                        r == Ok::<EditOutcome, DbError>(EditOutcome::Unchanged) && after == c
                    } else {
                        match r {
                            Ok(outcome) => outcome == EditOutcome::Updated && after
                                == c.with_game_edited(
                                game_id as int,
                                kept(new_title@, g.title),
                                kept(new_publisher@, g.publisher),
                                kept(new_release_date@, g.release_date),
                            ),
                            Err(e) => e is Storage && after == c,
                        }
                    },
                }
            }),
            bound(old(self)@) ==> bound(final(self)@),
    {
        let game = match self.db.get_game(game_id) {
            Some(game) => game,
            None => {
                return Ok(EditOutcome::GameNotFound);
            },
        };
        proof {
            if bound(self@) {
                lemma_edit_keeps_bound(
                    self@,
                    game_id as int,
                    kept(new_title@, game@.title),
                    kept(new_publisher@, game@.publisher),
                    kept(new_release_date@, game@.release_date),
                );
            }
        }
        if new_title.is_empty() && new_publisher.is_empty() && new_release_date.is_empty() {
            return Ok(EditOutcome::Unchanged);
        }
        let title = if new_title.is_empty() {
            game.title.as_str()
        } else {
            new_title
        };
        let publisher = if new_publisher.is_empty() {
            game.publisher.as_str()
        } else {
            new_publisher
        };
        let release_date = if new_release_date.is_empty() {
            game.release_date.as_str()
        } else {
            new_release_date
        };
        match self.db.update_game(game_id, title, publisher, release_date) {
            Ok(()) => Ok(EditOutcome::Updated),
            Err(e) => Err(e),
        }
    }
}

/// What removing a game asks for next.
#[derive(Debug, PartialEq, Eq)]
pub enum RemoveStep {
    /// There is no such game; nothing is to be done.
    GameNotFound,
    /// The save `save_id` is the next to go: delete `backup_dir` with all
    /// that is in it, if it exists, and report how that went.
    DeleteBackup { save_id: i32, backup_dir: String },
    /// No save was left, and the game called `title` was removed.
    Removed { title: String },
}

/// How deleting a backup directory went.
#[derive(Debug, Clone, Copy, PartialEq, Eq)]
pub enum BackupOutcome {
    /// The directory was deleted.
    Deleted,
    /// There was no such directory.
    Missing,
}

/// What is reported of the backup of a game called `title`.
pub open spec fn removal_report(outcome: BackupOutcome, title: Seq<char>) -> Seq<char> {
    match outcome {
        BackupOutcome::Deleted => "Game save for '"@ + title + "' deleted"@,
        BackupOutcome::Missing => "No save files found for '"@ + title + "'"@,
    }
}

/// The title of the game `game_id`; the empty text where there is none.
pub open spec fn title_of(c: Catalog, game_id: int) -> Seq<char> {
    match c.game(game_id) {
        Some(g) => g.title,
        None => Seq::empty(),
    }
}

/// The catalog after one round of removing the game `game_id`: without the
/// first save of the game and the location of that save, or, where the game
/// has no save, without the game. Where there is no such game the catalog
/// is as it was.
pub open spec fn remove_round(c: Catalog, game_id: int) -> Catalog {
    if c.game(game_id) is None {
        c
    } else if c.saves_of(game_id).len() > 0 {
        let s = c.saves_of(game_id)[0];
        c.without_save(s.id).without_location(s.location_id)
    } else {
        c.without_game(game_id)
    }
}

/// The catalog after the game `game_id` was removed for good: round after
/// round, until there is no such game.
pub open spec fn removed(c: Catalog, game_id: int) -> Catalog
    decreases c.saves.len(),
    via removed_ends
{
    if c.game(game_id) is Some && c.saves_of(game_id).len() > 0 {
        removed(remove_round(c, game_id), game_id)
    } else {
        remove_round(c, game_id)
    }
}

/// A round that removes a save leaves fewer saves.
#[via_fn]
proof fn removed_ends(c: Catalog, game_id: int) {
    if c.game(game_id) is Some && c.saves_of(game_id).len() > 0 {
        let pred = |s: SaveView| save_matches(s, Some(game_id), None, None);
        let first = c.saves.filter(pred)[0];
        c.saves.lemma_filter_contains_rev(pred, first);
        let j = choose|j: int| 0 <= j < c.saves.len() && c.saves[j] == first;
        assert(c.saves[j].key() == first.id);
    }
}

/// The first save of a game is a save of the table, is found by its
/// identifier, and is a save of that game.
pub proof fn lemma_first_match_is_stored(c: Catalog, game_id: int)
    requires
        c.wf(),
        c.saves_of(game_id).len() > 0,
    ensures
        has_key(c.saves, c.saves_of(game_id)[0].id),
        c.save(c.saves_of(game_id)[0].id) == Some(c.saves_of(game_id)[0]),
        c.saves_of(game_id)[0].game_id == game_id,
{
    let pred = |s: SaveView| save_matches(s, Some(game_id), None, None);
    let mine = c.saves.filter(pred);
    c.saves.lemma_filter_contains_rev(pred, mine[0]);
    let j = choose|j: int| 0 <= j < c.saves.len() && c.saves[j] == mine[0];
    lemma_found_at(c.saves, j);
}

/// One round of removing a game keeps the catalog well formed.
pub proof fn lemma_round_keeps_wf(c: Catalog, game_id: int)
    requires
        c.wf(),
    ensures
        remove_round(c, game_id).wf(),
        remove_round(c, game_id).platforms == c.platforms,
        c.game(game_id) is Some && c.saves_of(game_id).len() > 0 ==> remove_round(
            c,
            game_id,
        ).games == c.games && remove_round(c, game_id).saves.len() == c.saves.len() - 1,
{
    if c.game(game_id) is Some && c.saves_of(game_id).len() > 0 {
        lemma_first_match_is_stored(c, game_id);
    }
}

/// A game that was removed is not found any more, the catalog is still well
/// formed, no platform has gone, and no identifier that was given once is
/// free again.
pub proof fn lemma_removed_game_is_gone(c: Catalog, game_id: int)
    requires
        c.wf(),
    ensures
        removed(c, game_id).wf(),
        removed(c, game_id).game(game_id) is None,
        removed(c, game_id).platforms == c.platforms,
        removed(c, game_id).next_game() == c.next_game(),
        removed(c, game_id).next_platform() == c.next_platform(),
        removed(c, game_id).next_location() == c.next_location(),
        removed(c, game_id).next_save() == c.next_save(),
    decreases c.saves.len(),
{
    if c.game(game_id) is Some && c.saves_of(game_id).len() > 0 {
        lemma_first_match_is_stored(c, game_id);
        lemma_removed_game_is_gone(remove_round(c, game_id), game_id);
    }
}

/// Once a game was removed, the catalog holds none of its saves and none of
/// the locations of these saves, and no location that it did not hold
/// before.
pub proof fn lemma_removed_takes_saves(c: Catalog, game_id: int)
    requires
        c.wf(),
        c.game(game_id) is Some,
    ensures
        forall|i: int|
            0 <= i < removed(c, game_id).saves.len() ==> (#[trigger] removed(
                c,
                game_id,
            ).saves[i]).game_id != game_id,
        forall|i: int|
            0 <= i < c.saves.len() && (#[trigger] c.saves[i]).game_id == game_id ==> !has_key(
                removed(c, game_id).locations,
                c.saves[i].location_id,
            ),
        forall|id: int|
            has_key(removed(c, game_id).locations, id) ==> has_key(c.locations, id),
    decreases c.saves.len(),
{
    let after = removed(c, game_id);
    if c.saves_of(game_id).len() > 0 {
        lemma_first_match_is_stored(c, game_id);
        let first = c.saves_of(game_id)[0];
        let at = position(c.saves, first.id);
        let round = remove_round(c, game_id);
        if has_key(c.locations, first.location_id) {
            lemma_remove_at(c.locations, position(c.locations, first.location_id));
        }
        lemma_removed_takes_saves(round, game_id);
        assert forall|i: int|
            0 <= i < c.saves.len() && (#[trigger] c.saves[i]).game_id == game_id implies !has_key(
            after.locations,
            c.saves[i].location_id,
        ) by {
            if i != at {
                let k = if i < at {
                    i
                } else {
                    i - 1
                };
                assert(round.saves[k] == c.saves[i]);
            }
        }
    } else {
        let pred = |s: SaveView| save_matches(s, Some(game_id), None, None);
        assert forall|i: int| 0 <= i < c.saves.len() implies (#[trigger] c.saves[i]).game_id
            != game_id by {
            if c.saves[i].game_id == game_id {
                c.saves.lemma_filter_contains(pred, i);
            }
        }
    }
}

/// Adding a game save and then removing the game leaves no game of that
/// identifier in the catalog.
pub proof fn lemma_add_then_remove(c: Catalog, e: Entered)
    requires
        c.wf(),
    ensures
        begun(c, e, 4).wf(),
        begun(c, e, 4).game(c.next_game()) is Some,
        removed(begun(c, e, 4), c.next_game()).game(c.next_game()) is None,
{
    lemma_removed_game_is_gone(begun(c, e, 4), c.next_game());
}

/// Adding a game save keeps the catalog well formed, and the new save
/// refers to rows that exist: the new game, the platform of the name that
/// was entered, and the new location with the path that was entered.
pub proof fn lemma_backup_is_bound(c: Catalog, e: Entered)
    requires
        c.wf(),
    ensures
        begun(c, e, 1).wf(),
        begun(c, e, 2).wf(),
        begun(c, e, 3).wf(),
        begun(c, e, 4).wf(),
        ({
            let after = begun(c, e, 4);
            &&& after.save(c.next_save()) matches Some(s) && s.game_id == c.next_game()
                && s.platform_id == c.platform_id_for(e.platform) && s.location_id == c.next_location()
            &&& after.game(c.next_game()) matches Some(g) && g.title == e.title
            &&& after.platform(c.platform_id_for(e.platform)) matches Some(p) && p.platform_name
                == e.platform
            &&& after.location(c.next_location()) matches Some(l) && l.location_path
                == e.location
        }),
{
    let c2 = begun(c, e, 2);
    lemma_found_at(c2.platforms, name_position(c2.platforms, e.platform));
}

/// One backup that can be restored, as plain values.
pub struct OfferView {
    pub save_id: int,
    pub platform_name: Option<Seq<char>>,
    pub live_path: Option<Seq<char>>,
    pub backup_dir: Seq<char>,
}

/// One backup that can be restored: the save, the name of its platform,
/// the directory that the save data was taken from, and the directory that
/// holds the backup. The name is `None` where the catalog holds no such
/// platform, and the directory is `None` where it holds no such location:
/// there is nowhere to restore to then.
#[derive(Debug, PartialEq, Eq)]
pub struct RestoreOffer {
    pub save_id: i32,
    pub platform_name: Option<String>,
    pub live_path: Option<String>,
    pub backup_dir: String,
}

/// A text that may be missing, as a plain value.
pub open spec fn text_view(text: Option<String>) -> Option<Seq<char>> {
    match text {
        Some(t) => Some(t@),
        None => None,
    }
}

impl View for RestoreOffer {
    type V = OfferView;

    open spec fn view(&self) -> OfferView {
        OfferView {
            save_id: self.save_id as int,
            platform_name: text_view(self.platform_name),
            live_path: text_view(self.live_path),
            backup_dir: self.backup_dir@,
        }
    }
}

/// What is offered for the save `s`: the name of its platform and the path
/// of its location, each `None` where the catalog holds no such row, and its
/// backup directory.
pub open spec fn offer_for(c: Catalog, s: SaveView) -> OfferView {
    OfferView {
        save_id: s.id,
        platform_name: match c.platform(s.platform_id) {
            Some(p) => Some(p.platform_name),
            None => None,
        },
        live_path: match c.location(s.location_id) {
            Some(l) => Some(l.location_path),
            None => None,
        },
        backup_dir: backup_path(s.game_id, s.platform_id, s.id),
    }
}

/// What to restore of one backup.
#[derive(Debug, Clone, Copy, PartialEq, Eq)]
pub enum RestoreChoice {
    /// Ask for each file of the backup directory, and take those that are
    /// confirmed.
    FileByFile,
    /// The backup directory with everything below it.
    WholeTree,
    /// Nothing.
    Nothing,
}

/// What an answer chooses: `Y`, or no answer at all, asks for each file,
/// `a` takes the whole tree, and anything else takes nothing.
pub open spec fn choice_of(answer: Seq<char>) -> RestoreChoice {
    if answer == seq!['Y'] || answer.len() == 0 {
        RestoreChoice::FileByFile
    } else if answer == seq!['a'] {
        RestoreChoice::WholeTree
    } else {
        RestoreChoice::Nothing
    }
}

/// Whether a file is restored: only where each file is asked for, and the
/// answer for this one is `y` or `Y`. No answer at all does not confirm it.
pub open spec fn file_is_wanted(choice: RestoreChoice, answer: Seq<char>) -> bool {
    choice == RestoreChoice::FileByFile && (answer == seq!['y'] || answer == seq!['Y'])
}

/// The steps that copy, of the first `n` named files of the directory
/// `from`, those that are wanted into the directory `to`. A file for which
/// nothing is said is not wanted.
pub open spec fn picked(
    names: Seq<Seq<char>>,
    wanted: Seq<bool>,
    n: nat,
    from: Seq<char>,
    to: Seq<char>,
) -> Seq<Step>
    decreases n,
{
    if n == 0 || n > names.len() {
        Seq::empty()
    } else {
        let before = picked(names, wanted, (n - 1) as nat, from, to);
        if n - 1 < wanted.len() && wanted[n - 1] {
            before.push(Step::CopyFile(join(from, names[n - 1]), join(to, names[n - 1])))
        } else {
            before
        }
    }
}

/// What an answer chooses.
pub fn restore_choice(answer: &str) -> (r: RestoreChoice)
    ensures
        r == choice_of(answer@),
{
    proof {
        reveal_strlit("Y");
        reveal_strlit("a");
        assert("Y"@ =~= seq!['Y']);
        assert("a"@ =~= seq!['a']);
    }
    if same_text(answer, "Y") || answer.is_empty() {
        RestoreChoice::FileByFile
    } else if same_text(answer, "a") {
        RestoreChoice::WholeTree
    } else {
        RestoreChoice::Nothing
    }
}

/// Whether a file is restored, given what was chosen for the backup and
/// what was answered for the file.
pub fn file_wanted(choice: RestoreChoice, answer: &str) -> (r: bool)
    ensures
        r == file_is_wanted(choice, answer@),
{
    proof {
        reveal_strlit("y");
        reveal_strlit("Y");
        assert("y"@ =~= seq!['y']);
        assert("Y"@ =~= seq!['Y']);
    }
    match choice {
        RestoreChoice::FileByFile => same_text(answer, "y") || same_text(answer, "Y"),
        RestoreChoice::WholeTree => false,
        RestoreChoice::Nothing => false,
    }
}

/// The steps that restore single files of a backup: of the files named in
/// `names`, those that are wanted are copied from the backup directory into
/// the directory that the save data was taken from, in the order of the
/// names, and no other file is touched. `None` where the offer names no such
/// directory.
pub fn restore_files(offer: &RestoreOffer, names: &Vec<String>, wanted: &Vec<bool>) -> (r: Option<
    Vec<FsOp>,
>)
    ensures
        match r {
            Some(ops) => offer@.live_path matches Some(to) && views(ops@) == picked(
                views(names@),
                wanted@,
                names.len() as nat,
                offer.backup_dir@,
                to,
            ),
            None => offer@.live_path is None,
        },
{
    let live_path = match &offer.live_path {
        Some(path) => path,
        None => {
            return None;
        },
    };
    let mut ops: Vec<FsOp> = Vec::new();
    let mut i: usize = 0;
    while i < names.len()
        invariant
            i <= names.len(),
            views(ops@) == picked(
                views(names@),
                wanted@,
                i as nat,
                offer.backup_dir@,
                live_path@,
            ),
        decreases names.len() - i,
    {
        if i < wanted.len() && wanted[i] {
            let from = join_path(offer.backup_dir.as_str(), names[i].as_str());
            let to = join_path(live_path.as_str(), names[i].as_str());
            let op = FsOp::CopyFile { from, to };
            ops.push(op);
        }
        i = i + 1;
    }
    Some(ops)
}

impl GameSaves {
    /// What removing the game `game_id` asks for next. While the game has a
    /// save, the backup directory of its first save is to be deleted, and
    /// the catalog waits for `backup_removed`; once it has none, the game is
    /// removed from the catalog. Platforms are never removed.
    ///
    /// Fails with SQLite's error where it could not remove the game; the
    /// catalog is unchanged then. A game is only removed once no save
    /// refers to it.
    pub fn remove_game_save(&mut self, game_id: i32) -> (r: Result<RemoveStep, DbError>)
        requires
            old(self).wf(),
        ensures
            final(self).wf(),
            ({
                let c = old(self)@;
                let after = final(self)@;
                match c.game(game_id as int) {
                    None => r matches Ok(RemoveStep::GameNotFound) && after == c,
                    Some(g) => if c.saves_of(game_id as int).len() > 0 {
                        let s = c.saves_of(game_id as int)[0];
                        &&& r matches Ok(RemoveStep::DeleteBackup { save_id, backup_dir })
                            && save_id == s.id && backup_dir@ == backup_path(
                            s.game_id,
                            s.platform_id,
                            s.id,
                        )
                        &&& after == c
                    } else {
                        match r {
                            Ok(step) => step matches RemoveStep::Removed { title } && title@
                                == g.title && after == remove_round(c, game_id as int),
                            Err(e) => e is Storage && after == c,
                        }
                    },
                }
            }),
            bound(old(self)@) ==> bound(final(self)@),
    {
        let game = match self.db.get_game(game_id) {
            Some(game) => game,
            None => {
                return Ok(RemoveStep::GameNotFound);
            },
        };
        proof {
            if bound(self@) && self@.saves_of(game_id as int).len() == 0 {
                lemma_ungame_keeps_bound(self@, game_id as int);
            }
        }
        let saves = self.db.get_saves_by_game_id(game_id);
        if saves.len() > 0 {
            let first = &saves[0];
            return Ok(
                RemoveStep::DeleteBackup {
                    save_id: first.id,
                    backup_dir: backup_dir(first.game_id, first.platform_id, first.id),
                },
            );
        }
        match self.db.delete_game(game_id) {
            Ok(()) => Ok(RemoveStep::Removed { title: game.title }),
            Err(e) => Err(e),
        }
    }

    /// Takes the save `save_id` out of the catalog once its backup directory
    /// is gone from the disk, or was never there: removes the save and then
    /// its location, and hands out what is to be reported of it. Where there
    /// is no such save nothing happens, and nothing is reported.
    ///
    /// Fails with SQLite's error where it could not remove a row. The
    /// catalog is then unchanged, or, where the location could not be
    /// removed, without the save only. Where no two saves refer to one
    /// location, no save is left without its location.
    pub fn backup_removed(&mut self, save_id: i32, outcome: BackupOutcome) -> (r: Result<
        Option<String>,
        DbError,
    >)
        requires
            old(self).wf(),
        ensures
            final(self).wf(),
            ({
                let c = old(self)@;
                let after = final(self)@;
                match c.save(save_id as int) {
                    None => r matches Ok(None) && after == c,
                    Some(s) => match r {
                        Ok(report) => report matches Some(text) && text@ == removal_report(
                            outcome,
                            title_of(c, s.game_id),
                        ) && after == c.without_save(save_id as int).without_location(
                            s.location_id,
                        ),
                        Err(e) => e is Storage && (after == c || (after == c.without_save(
                            save_id as int,
                        ) && has_key(c.locations, s.location_id))),
                    },
                }
            }),
            bound(old(self)@) ==> bound(final(self)@),
    {
        proof {
            if bound(self@) {
                lemma_unsave_keeps_bound(self@, save_id as int);
            }
        }
        let save = match self.db.get_save_row(save_id) {
            Some(save) => save,
            None => {
                return Ok(None);
            },
        };
        let mut report = match outcome {
            BackupOutcome::Deleted => String::from_str("Game save for '"),
            BackupOutcome::Missing => String::from_str("No save files found for '"),
        };
        match self.db.get_game(save.game_id) {
            Some(game) => {
                report.append(game.title.as_str());
            },
            None => {},
        }
        match outcome {
            BackupOutcome::Deleted => {
                report.append("' deleted");
            },
            BackupOutcome::Missing => {
                report.append("'");
            },
        }
        match self.db.delete_save(save_id) {
            Ok(()) => {},
            Err(e) => {
                return Err(e);
            },
        }
        match self.db.delete_location(save.location_id) {
            Ok(()) => {},
            Err(e) => {
                return Err(e);
            },
        }
        Ok(Some(report))
    }

    /// The backups of the game `game_id` that can be restored, one for each
    /// of its saves in the order of the table, or `None` where there is no
    /// such game.
    pub fn restore_game_save(&self, game_id: i32) -> (r: Option<Vec<RestoreOffer>>)
        requires
            self.wf(),
        ensures
            match r {
                None => self@.game(game_id as int) is None,
                Some(offers) => self@.game(game_id as int) is Some && views(offers@)
                    == self@.saves_of(game_id as int).map_values(
                    |s: SaveView| offer_for(self@, s),
                ),
            },
    {
        if self.db.get_game(game_id).is_none() {
            return None;
        }
        let saves = self.db.get_saves_by_game_id(game_id);
        let mut offers: Vec<RestoreOffer> = Vec::new();
        let mut i: usize = 0;
        while i < saves.len()
            invariant
                i <= saves.len(),
                self.wf(),
                offers.len() == i,
                forall|k: int| 0 <= k < i ==> (#[trigger] offers@[k])@ == offer_for(
                    self@,
                    saves@[k]@,
                ),
            decreases saves.len() - i,
        {
            let save = &saves[i];
            let platform_name = match self.db.get_platform(save.platform_id) {
                Some(p) => Some(p.platform_name),
                None => None,
            };
            let live_path = match self.db.get_location(save.location_id) {
                Some(l) => Some(l.location_path),
                None => None,
            };
            offers.push(
                RestoreOffer {
                    save_id: save.id,
                    platform_name,
                    live_path,
                    backup_dir: backup_dir(save.game_id, save.platform_id, save.id),
                },
            );
            i = i + 1;
        }
        Some(offers)
    }

    /// The steps that restore a whole backup: its directory, whose entries
    /// are listed in `entries`, is copied as a tree into the directory that
    /// the save data was taken from. `None` where the offer names no such
    /// directory.
    pub fn restore_all(&self, offer: &RestoreOffer, entries: &Vec<Entry>) -> (r: Option<Vec<FsOp>>)
        ensures
            match r {
                Some(ops) => offer@.live_path matches Some(to) && views(ops@) == copy_plan(
                    views(entries@),
                    offer.backup_dir@,
                    to,
                ),
                None => offer@.live_path is None,
            },
    {
        match &offer.live_path {
            Some(path) => Some(
                self.fs.copy_files(entries, offer.backup_dir.as_str(), path.as_str()),
            ),
            None => None,
        }
    }
}

} // verus!
