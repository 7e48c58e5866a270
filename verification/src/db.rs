//! The catalog store: games, platforms, save locations and saves.
//!
//! A `Db` holds the four tables in memory, in the order of their identifiers,
//! and a connection to the SQLite file that keeps them. Every lookup is
//! answered from the tables. Every change is first written to the file with
//! one statement and then, if that statement succeeded, made in the tables,
//! so that the tables never hold what the file does not.
//!
//! Each changing function therefore has two halves. The first picks the
//! statement and its arguments and hands them to SQLite. The second, named
//! after what was done (`game_stored`, `game_deleted`), takes SQLite's
//! outcome and says exactly what becomes of the catalog for each outcome.
//! The second half is meant for the outcome of the statement that the first
//! half ran: handed anything else, it parts the tables from the file.
//!
//! Identifiers are given by the store, in growing order, and never twice:
//! a row that is deleted takes its identifier with it.

use crate::catalog::{
    has_name, lemma_filter_step, lemma_named_at, metadata_text, save_matches, Catalog,
};
use crate::codec::{
    decode_games, decode_issued, decode_locations, decode_platforms, decode_saves, encode_game,
    encode_game_update, encode_id, encode_location, encode_platform, encode_save, games_of,
    issued_of, locations_of, platforms_of, readable_games, readable_locations,
    readable_platforms, readable_saves, saves_of,
};
use crate::sql::Statement;
use crate::storage::{fetch_rows, open_connection, run_statement, storage_message, SqlValue};
use crate::table::{
    duplicate_all, fetch, has_key, last_given, last_id, locate, next_id, row_view, views, Keyed,
    Row,
};
use crate::text::{same_text, starts_with};
use rusqlite::Connection;
use vstd::prelude::*;
use vstd::string::StringExecFns;

verus! {

/// A game title.
#[derive(Debug, PartialEq, Eq)]
pub struct Game {
    pub id: i32,
    pub title: String,
    pub publisher: String,
    pub release_date: String,
}

/// What a `Game` holds, as plain values.
pub struct GameView {
    pub id: int,
    pub title: Seq<char>,
    pub publisher: Seq<char>,
    pub release_date: Seq<char>,
}

/// A platform that games run on. No two platforms share a name.
#[derive(Debug, PartialEq, Eq)]
pub struct Platform {
    pub id: i32,
    pub platform_name: String,
}

/// What a `Platform` holds, as plain values.
pub struct PlatformView {
    pub id: int,
    pub platform_name: Seq<char>,
}

/// A directory in which a game keeps its save data.
#[derive(Debug, PartialEq, Eq)]
pub struct Location {
    pub id: i32,
    pub location_path: String,
    pub description: String,
}

/// What a `Location` holds, as plain values.
pub struct LocationView {
    pub id: int,
    pub location_path: Seq<char>,
    pub description: Seq<char>,
}

/// One backup: the save data of a game on a platform, taken from a location.
#[derive(Debug, PartialEq, Eq)]
pub struct Save {
    pub id: i32,
    pub game_id: i32,
    pub location_id: i32,
    pub metadata: Option<String>,
    pub platform_id: i32,
}

/// What a `Save` holds, as plain values.
pub struct SaveView {
    pub id: int,
    pub game_id: int,
    pub location_id: int,
    pub metadata: Option<Seq<char>>,
    pub platform_id: int,
}

impl View for Game {
    type V = GameView;

    open spec fn view(&self) -> GameView {
        GameView {
            id: self.id as int,
            title: self.title@,
            publisher: self.publisher@,
            release_date: self.release_date@,
        }
    }
}

impl View for Platform {
    type V = PlatformView;

    open spec fn view(&self) -> PlatformView {
        PlatformView { id: self.id as int, platform_name: self.platform_name@ }
    }
}

impl View for Location {
    type V = LocationView;

    open spec fn view(&self) -> LocationView {
        LocationView {
            id: self.id as int,
            location_path: self.location_path@,
            description: self.description@,
        }
    }
}

impl View for Save {
    type V = SaveView;

    open spec fn view(&self) -> SaveView {
        SaveView {
            id: self.id as int,
            game_id: self.game_id as int,
            location_id: self.location_id as int,
            metadata: match self.metadata {
                Some(m) => Some(m@),
                None => None,
            },
            platform_id: self.platform_id as int,
        }
    }
}

impl Keyed for GameView {
    open spec fn key(&self) -> int {
        self.id
    }
}

impl Keyed for PlatformView {
    open spec fn key(&self) -> int {
        self.id
    }
}

impl Keyed for LocationView {
    open spec fn key(&self) -> int {
        self.id
    }
}

impl Keyed for SaveView {
    open spec fn key(&self) -> int {
        self.id
    }
}

impl Row for Game {
    fn id(&self) -> (r: i32) {
        self.id
    }

    fn duplicate(&self) -> (r: Self) {
        Game {
            id: self.id,
            title: self.title.clone(),
            publisher: self.publisher.clone(),
            release_date: self.release_date.clone(),
        }
    }
}

impl Row for Platform {
    fn id(&self) -> (r: i32) {
        self.id
    }

    fn duplicate(&self) -> (r: Self) {
        Platform { id: self.id, platform_name: self.platform_name.clone() }
    }
}

impl Row for Location {
    fn id(&self) -> (r: i32) {
        self.id
    }

    fn duplicate(&self) -> (r: Self) {
        Location {
            id: self.id,
            location_path: self.location_path.clone(),
            description: self.description.clone(),
        }
    }
}

impl Row for Save {
    fn id(&self) -> (r: i32) {
        self.id
    }

    fn duplicate(&self) -> (r: Self) {
        let metadata = match &self.metadata {
            Some(m) => Some(m.clone()),
            None => None,
        };
        Save {
            id: self.id,
            game_id: self.game_id,
            location_id: self.location_id,
            metadata,
            platform_id: self.platform_id,
        }
    }
}

impl Clone for Game {
    fn clone(&self) -> (r: Self)
        ensures
            r@ == self@,
    {
        self.duplicate()
    }
}

impl Clone for Platform {
    fn clone(&self) -> (r: Self)
        ensures
            r@ == self@,
    {
        self.duplicate()
    }
}

impl Clone for Location {
    fn clone(&self) -> (r: Self)
        ensures
            r@ == self@,
    {
        self.duplicate()
    }
}

impl Clone for Save {
    fn clone(&self) -> (r: Self)
        ensures
            r@ == self@,
    {
        self.duplicate()
    }
}

/// Why an operation of the store did not succeed.
#[derive(Debug)]
pub enum DbError {
    /// SQLite could not open the file or run a statement.
    Storage(rusqlite::Error),
    /// The file holds rows that are no table of the catalog.
    Corrupt,
    /// The table already holds a row with the largest identifier there is.
    IdsExhausted,
}

impl DbError {
    /// A message that says what went wrong.
    pub fn message(&self) -> (r: String)
        ensures
            self is Corrupt ==> r@ == "the database holds rows that cannot be read"@,
            self is IdsExhausted ==> r@ == "the table has no identifier left"@,
    {
        match self {
            DbError::Storage(e) => storage_message(e),
            DbError::Corrupt => String::from_str("the database holds rows that cannot be read"),
            DbError::IdsExhausted => String::from_str("the table has no identifier left"),
        }
    }
}

/// What the store makes of the outcome of a statement: success if SQLite
/// ran it, and SQLite's own error if not.
pub fn stored(outcome: Result<usize, rusqlite::Error>) -> (r: Result<(), DbError>)
    ensures
        r is Ok <==> outcome is Ok,
        r matches Err(e) ==> e == DbError::Storage(outcome->Err_0),
{
    match outcome {
        Ok(_) => Ok(()),
        Err(e) => Err(DbError::Storage(e)),
    }
}

/// An identifier that is asked for, or `None` for any, as an integer.
pub open spec fn wanted(id: Option<i32>) -> Option<int> {
    match id {
        Some(i) => Some(i as int),
        None => None,
    }
}

/// The rows of the four tables as they were read from the file, and the
/// one row that counts the largest identifier each table ever held.
pub struct StoredRows {
    pub games: Vec<Vec<SqlValue>>,
    pub platforms: Vec<Vec<SqlValue>>,
    pub locations: Vec<Vec<SqlValue>>,
    pub saves: Vec<Vec<SqlValue>>,
    pub issued: Vec<Vec<SqlValue>>,
}

/// The stored rows are four tables of the catalog and their counts.
pub open spec fn readable(rows: StoredRows) -> bool {
    &&& readable_games(rows.games@)
    &&& readable_platforms(rows.platforms@)
    &&& readable_locations(rows.locations@)
    &&& readable_saves(rows.saves@)
    &&& issued_of(rows.issued@) is Some
}

/// The catalog in the stored rows. The largest identifier that a table ever
/// gave is the one counted for it, or that of its last row where that is
/// larger.
pub open spec fn catalog_of(rows: StoredRows) -> Catalog {
    let issued = issued_of(rows.issued@).unwrap();
    Catalog {
        games: games_of(rows.games@),
        platforms: platforms_of(rows.platforms@),
        locations: locations_of(rows.locations@),
        saves: saves_of(rows.saves@),
        last_game: last_given(games_of(rows.games@), issued.games as int),
        last_platform: last_given(platforms_of(rows.platforms@), issued.platforms as int),
        last_location: last_given(locations_of(rows.locations@), issued.locations as int),
        last_save: last_given(saves_of(rows.saves@), issued.saves as int),
    }
}

/// The catalog store.
pub struct Db {
    conn: Connection,
    games: Vec<Game>,
    platforms: Vec<Platform>,
    locations: Vec<Location>,
    saves: Vec<Save>,
    last_game: i32,
    last_platform: i32,
    last_location: i32,
    last_save: i32,
}

impl View for Db {
    type V = Catalog;

    closed spec fn view(&self) -> Catalog {
        Catalog {
            games: views(self.games@),
            platforms: views(self.platforms@),
            locations: views(self.locations@),
            saves: views(self.saves@),
            last_game: self.last_game as int,
            last_platform: self.last_platform as int,
            last_location: self.last_location as int,
            last_save: self.last_save as int,
        }
    }
}

/// Creates the four tables in the file where they are missing, one
/// statement after the other, and stops at the first that SQLite refuses.
fn create_schema(conn: &Connection) -> (r: Result<(), DbError>)
    ensures
        r matches Err(e) ==> e is Storage,
{
    let none: Vec<SqlValue> = Vec::new();
    match stored(run_statement(conn, Statement::CreateGames.sql(), &none)) {
        Ok(()) => {},
        Err(e) => {
            return Err(e);
        },
    }
    match stored(run_statement(conn, Statement::CreatePlatforms.sql(), &none)) {
        Ok(()) => {},
        Err(e) => {
            return Err(e);
        },
    }
    match stored(run_statement(conn, Statement::CreateLocations.sql(), &none)) {
        Ok(()) => {},
        Err(e) => {
            return Err(e);
        },
    }
    stored(run_statement(conn, Statement::CreateSaves.sql(), &none))
}

impl Db {
    /// The tables are in the order of their identifiers and no two
    /// platforms share a name.
    pub open spec fn wf(&self) -> bool {
        self@.wf()
    }

    /// Opens the catalog kept in the SQLite file `filename`: creates the file
    /// and the tables where they are missing, and reads every row, and for
    /// each table the largest identifier that it ever held.
    ///
    /// What the file holds decides the outcome. A catalog that is handed out
    /// is well formed; `Corrupt` says that some table could not be read.
    /// What is made of the rows that were read, `from_rows` says.
    pub fn new(filename: &str) -> (r: Result<Db, DbError>)
        ensures
            r matches Ok(db) ==> db.wf(),
            r matches Err(e) ==> !(e is IdsExhausted),
    {
        let conn = match open_connection(filename) {
            Ok(conn) => conn,
            Err(e) => {
                return Err(DbError::Storage(e));
            },
        };
        match create_schema(&conn) {
            Ok(()) => {},
            Err(e) => {
                return Err(e);
            },
        }
        let game_rows = match fetch_rows(&conn, Statement::ReadGames.sql()) {
            Ok(rows) => rows,
            Err(e) => {
                return Err(DbError::Storage(e));
            },
        };
        let platform_rows = match fetch_rows(&conn, Statement::ReadPlatforms.sql()) {
            Ok(rows) => rows,
            Err(e) => {
                return Err(DbError::Storage(e));
            },
        };
        let location_rows = match fetch_rows(&conn, Statement::ReadLocations.sql()) {
            Ok(rows) => rows,
            Err(e) => {
                return Err(DbError::Storage(e));
            },
        };
        let save_rows = match fetch_rows(&conn, Statement::ReadSaves.sql()) {
            Ok(rows) => rows,
            Err(e) => {
                return Err(DbError::Storage(e));
            },
        };
        let issued_rows = match fetch_rows(&conn, Statement::ReadIssued.sql()) {
            Ok(rows) => rows,
            Err(e) => {
                return Err(DbError::Storage(e));
            },
        };
        Db::from_rows(
            conn,
            &StoredRows {
                games: game_rows,
                platforms: platform_rows,
                locations: location_rows,
                saves: save_rows,
                issued: issued_rows,
            },
        )
    }

    /// The catalog that holds the rows read from the file behind `conn`,
    /// where these rows are four tables of the catalog and their counts, and
    /// `Corrupt` where they are not.
    pub fn from_rows(conn: Connection, rows: &StoredRows) -> (r: Result<Db, DbError>)
        ensures
            match r {
                Ok(db) => readable(*rows) && db@ == catalog_of(*rows) && db.wf(),
                Err(e) => !readable(*rows) && e is Corrupt,
            },
    {
        let games = match decode_games(&rows.games) {
            Some(games) => games,
            None => {
                return Err(DbError::Corrupt);
            },
        };
        let platforms = match decode_platforms(&rows.platforms) {
            Some(platforms) => platforms,
            None => {
                return Err(DbError::Corrupt);
            },
        };
        let locations = match decode_locations(&rows.locations) {
            Some(locations) => locations,
            None => {
                return Err(DbError::Corrupt);
            },
        };
        let saves = match decode_saves(&rows.saves) {
            Some(saves) => saves,
            None => {
                return Err(DbError::Corrupt);
            },
        };
        let issued = match decode_issued(&rows.issued) {
            Some(issued) => issued,
            None => {
                return Err(DbError::Corrupt);
            },
        };
        let last_game = last_id(&games, issued.games);
        let last_platform = last_id(&platforms, issued.platforms);
        let last_location = last_id(&locations, issued.locations);
        let last_save = last_id(&saves, issued.saves);
        Ok(
            Db {
                conn,
                games,
                platforms,
                locations,
                saves,
                last_game,
                last_platform,
                last_location,
                last_save,
            },
        )
    }

    /// Creates the four tables in the file where they are missing. The
    /// catalog stays as it is. What SQLite is handed are the four
    /// statements that create a table, `Statement::CreateGames` first; it
    /// fails with SQLite's error at the first that SQLite refuses.
    pub fn create_tables(&self) -> (r: Result<(), DbError>)
        ensures
            r matches Err(e) ==> e is Storage,
    {
        create_schema(&self.conn)
    }

    /// Inserts a game and returns its identifier, which no game had before.
    /// A game is always a new row, whatever the table holds already.
    ///
    /// Fails with `IdsExhausted` where the table has no identifier left, and
    /// with SQLite's error where it could not store the row; the catalog is
    /// unchanged then. What SQLite is handed is `Statement::InsertGame` with
    /// the arguments of `encode_game`; what is made of its outcome,
    /// `game_stored` says.
    pub fn insert_game(&mut self, title: &str, publisher: &str, release_date: &str) -> (r: Result<
        i32,
        DbError,
    >)
        requires
            old(self).wf(),
        ensures
            final(self).wf(),
            match r {
                Ok(id) => id as int == old(self)@.next_game() && final(self)@ == old(
                    self,
                )@.with_game(title@, publisher@, release_date@),
                Err(e) => final(self)@ == old(self)@ && !(e is Corrupt) && (e is IdsExhausted
                    <==> old(self)@.next_game() > i32::MAX),
            },
    {
        let id = match next_id(self.last_game) {
            Some(id) => id,
            None => {
                return Err(DbError::IdsExhausted);
            },
        };
        let args = encode_game(id, title, publisher, release_date);
        let outcome = run_statement(&self.conn, Statement::InsertGame.sql(), &args);
        self.game_stored(id, title, publisher, release_date, outcome)
    }

    /// What becomes of the catalog once SQLite was asked to store a game
    /// under the next identifier, `id`: where it stored the row, the game is
    /// the last row of the table and `id` is returned; where it refused, the
    /// catalog stays as it is and SQLite's error is returned.
    pub fn game_stored(
        &mut self,
        id: i32,
        title: &str,
        publisher: &str,
        release_date: &str,
        outcome: Result<usize, rusqlite::Error>,
    ) -> (r: Result<i32, DbError>)
        requires
            old(self).wf(),
            id as int == old(self)@.next_game(),
        ensures
            final(self).wf(),
            match outcome {
                Ok(_) => r == Ok::<i32, DbError>(id) && final(self)@ == old(self)@.with_game(
                    title@,
                    publisher@,
                    release_date@,
                ),
                Err(e) => r == Err::<i32, DbError>(DbError::Storage(e)) && final(self)@ == old(
                    self,
                )@,
            },
    {
        match outcome {
            Ok(_) => {
                let row = Game {
                    id,
                    title: String::from_str(title),
                    publisher: String::from_str(publisher),
                    release_date: String::from_str(release_date),
                };
                proof {
                    assert(views(self.games@.push(row)) =~= views(self.games@).push(row@));
                }
                self.games.push(row);
                self.last_game = id;
                Ok(id)
            },
            Err(e) => Err(DbError::Storage(e)),
        }
    }

    /// Inserts a platform named `platform_name`, unless one has that name
    /// already, and returns the identifier of the platform with that name.
    /// Names are compared as they are: a name in other letter case is
    /// another name.
    ///
    /// Fails, only where no platform has the name, with `IdsExhausted` where
    /// the table has no identifier left and with SQLite's error where it
    /// could not store the row; the catalog is unchanged then. What SQLite
    /// is handed is `Statement::InsertPlatform` with the arguments of
    /// `encode_platform`; what is made of its outcome, `platform_stored`
    /// says.
    pub fn insert_platform(&mut self, platform_name: &str) -> (r: Result<i32, DbError>)
        requires
            old(self).wf(),
        ensures
            final(self).wf(),
            match r {
                Ok(id) => id as int == old(self)@.platform_id_for(platform_name@) && final(self)@
                    == old(self)@.with_platform(platform_name@),
                Err(e) => final(self)@ == old(self)@ && !(e is Corrupt) && !has_name(
                    old(self)@.platforms,
                    platform_name@,
                ) && (e is IdsExhausted <==> old(self)@.next_platform() > i32::MAX),
            },
    {
        let mut i: usize = 0;
        while i < self.platforms.len()
            invariant
                i <= self.platforms.len(),
                *self == *old(self),
                self.wf(),
                forall|k: int|
                    0 <= k < i ==> (#[trigger] views(self.platforms@)[k]).platform_name
                        != platform_name@,
            decreases self.platforms.len() - i,
        {
            if same_text(self.platforms[i].platform_name.as_str(), platform_name) {
                proof {
                    lemma_named_at(views(self.platforms@), i as int);
                }
                return Ok(self.platforms[i].id);
            }
            i = i + 1;
        }
        let id = match next_id(self.last_platform) {
            Some(id) => id,
            None => {
                return Err(DbError::IdsExhausted);
            },
        };
        let args = encode_platform(id, platform_name);
        let outcome = run_statement(&self.conn, Statement::InsertPlatform.sql(), &args);
        self.platform_stored(id, platform_name, outcome)
    }

    /// What becomes of the catalog once SQLite was asked to store a platform
    /// of a new name under the next identifier, `id`: where it stored the
    /// row, the platform is the last row of the table and `id` is returned;
    /// where it refused, the catalog stays as it is and SQLite's error is
    /// returned.
    pub fn platform_stored(
        &mut self,
        id: i32,
        platform_name: &str,
        outcome: Result<usize, rusqlite::Error>,
    ) -> (r: Result<i32, DbError>)
        requires
            old(self).wf(),
            id as int == old(self)@.next_platform(),
            !has_name(old(self)@.platforms, platform_name@),
        ensures
            final(self).wf(),
            match outcome {
                Ok(_) => r == Ok::<i32, DbError>(id) && final(self)@ == old(self)@.with_platform(
                    platform_name@,
                ),
                Err(e) => r == Err::<i32, DbError>(DbError::Storage(e)) && final(self)@ == old(
                    self,
                )@,
            },
    {
        match outcome {
            Ok(_) => {
                let row = Platform { id, platform_name: String::from_str(platform_name) };
                proof {
                    assert(views(self.platforms@.push(row)) =~= views(self.platforms@).push(row@));
                }
                self.platforms.push(row);
                self.last_platform = id;
                Ok(id)
            },
            Err(e) => Err(DbError::Storage(e)),
        }
    }

    /// Inserts a location and returns its identifier, which no location had
    /// before.
    ///
    /// Fails with `IdsExhausted` where the table has no identifier left, and
    /// with SQLite's error where it could not store the row; the catalog is
    /// unchanged then. What SQLite is handed is `Statement::InsertLocation`
    /// with the arguments of `encode_location`; what is made of its outcome,
    /// `location_stored` says.
    pub fn insert_location(&mut self, location_path: &str, description: &str) -> (r: Result<
        i32,
        DbError,
    >)
        requires
            old(self).wf(),
        ensures
            final(self).wf(),
            match r {
                Ok(id) => id as int == old(self)@.next_location() && final(self)@ == old(
                    self,
                )@.with_location(location_path@, description@),
                Err(e) => final(self)@ == old(self)@ && !(e is Corrupt) && (e is IdsExhausted
                    <==> old(self)@.next_location() > i32::MAX),
            },
    {
        let id = match next_id(self.last_location) {
            Some(id) => id,
            None => {
                return Err(DbError::IdsExhausted);
            },
        };
        let args = encode_location(id, location_path, description);
        let outcome = run_statement(&self.conn, Statement::InsertLocation.sql(), &args);
        self.location_stored(id, location_path, description, outcome)
    }

    /// What becomes of the catalog once SQLite was asked to store a location
    /// under the next identifier, `id`: where it stored the row, the
    /// location is the last row of the table and `id` is returned; where it
    /// refused, the catalog stays as it is and SQLite's error is returned.
    pub fn location_stored(
        &mut self,
        id: i32,
        location_path: &str,
        description: &str,
        outcome: Result<usize, rusqlite::Error>,
    ) -> (r: Result<i32, DbError>)
        requires
            old(self).wf(),
            id as int == old(self)@.next_location(),
        ensures
            final(self).wf(),
            match outcome {
                Ok(_) => r == Ok::<i32, DbError>(id) && final(self)@ == old(self)@.with_location(
                    location_path@,
                    description@,
                ),
                Err(e) => r == Err::<i32, DbError>(DbError::Storage(e)) && final(self)@ == old(
                    self,
                )@,
            },
    {
        match outcome {
            Ok(_) => {
                let row = Location {
                    id,
                    location_path: String::from_str(location_path),
                    description: String::from_str(description),
                };
                proof {
                    assert(views(self.locations@.push(row)) =~= views(self.locations@).push(row@));
                }
                self.locations.push(row);
                self.last_location = id;
                Ok(id)
            },
            Err(e) => Err(DbError::Storage(e)),
        }
    }

    /// Inserts a save and returns its identifier, which no save had before,
    /// so that its backup directory was never that of another save. Whether
    /// the game, the location and the platform exist is for the caller to
    /// see to.
    ///
    /// Fails with `IdsExhausted` where the table has no identifier left, and
    /// with SQLite's error where it could not store the row; the catalog is
    /// unchanged then. What SQLite is handed is `Statement::InsertSave` with
    /// the arguments of `encode_save`; what is made of its outcome,
    /// `save_stored` says.
    pub fn insert_save(
        &mut self,
        game_id: i32,
        location_id: i32,
        metadata: &str,
        platform_id: i32,
    ) -> (r: Result<i32, DbError>)
        requires
            old(self).wf(),
        ensures
            final(self).wf(),
            match r {
                Ok(id) => id as int == old(self)@.next_save() && final(self)@ == old(
                    self,
                )@.with_save(game_id as int, location_id as int, metadata@, platform_id as int),
                Err(e) => final(self)@ == old(self)@ && !(e is Corrupt) && (e is IdsExhausted
                    <==> old(self)@.next_save() > i32::MAX),
            },
    {
        let id = match next_id(self.last_save) {
            Some(id) => id,
            None => {
                return Err(DbError::IdsExhausted);
            },
        };
        let args = encode_save(id, game_id, location_id, metadata, platform_id);
        let outcome = run_statement(&self.conn, Statement::InsertSave.sql(), &args);
        self.save_stored(id, game_id, location_id, metadata, platform_id, outcome)
    }

    /// What becomes of the catalog once SQLite was asked to store a save
    /// under the next identifier, `id`: where it stored the row, the save is
    /// the last row of the table and `id` is returned; where it refused, the
    /// catalog stays as it is and SQLite's error is returned.
    pub fn save_stored(
        &mut self,
        id: i32,
        game_id: i32,
        location_id: i32,
        metadata: &str,
        platform_id: i32,
        outcome: Result<usize, rusqlite::Error>,
    ) -> (r: Result<i32, DbError>)
        requires
            old(self).wf(),
            id as int == old(self)@.next_save(),
        ensures
            final(self).wf(),
            match outcome {
                Ok(_) => r == Ok::<i32, DbError>(id) && final(self)@ == old(self)@.with_save(
                    game_id as int,
                    location_id as int,
                    metadata@,
                    platform_id as int,
                ),
                Err(e) => r == Err::<i32, DbError>(DbError::Storage(e)) && final(self)@ == old(
                    self,
                )@,
            },
    {
        match outcome {
            Ok(_) => {
                let row = Save {
                    id,
                    game_id,
                    location_id,
                    metadata: Some(String::from_str(metadata)),
                    platform_id,
                };
                proof {
                    assert(views(self.saves@.push(row)) =~= views(self.saves@).push(row@));
                }
                self.saves.push(row);
                self.last_save = id;
                Ok(id)
            },
            Err(e) => Err(DbError::Storage(e)),
        }
    }

    /// Overwrites the title, the publisher and the release date of the game
    /// `game_id`, each as it is given: an empty text is stored as an empty
    /// text. Where there is no such game nothing happens, and that is no
    /// failure.
    ///
    /// Fails with SQLite's error where it could not store the change; the
    /// catalog is unchanged then. What SQLite is handed is
    /// `Statement::UpdateGame` with the arguments of `encode_game_update`;
    /// what is made of its outcome, `game_updated` says.
    pub fn update_game(
        &mut self,
        game_id: i32,
        title: &str,
        publisher: &str,
        release_date: &str,
    ) -> (r: Result<(), DbError>)
        requires
            old(self).wf(),
        ensures
            final(self).wf(),
            match r {
                Ok(()) => final(self)@ == old(self)@.with_game_edited(
                    game_id as int,
                    title@,
                    publisher@,
                    release_date@,
                ),
                Err(e) => final(self)@ == old(self)@ && e is Storage && has_key(
                    old(self)@.games,
                    game_id as int,
                ),
            },
    {
        if locate(&self.games, game_id).is_none() {
            return Ok(());
        }
        let args = encode_game_update(game_id, title, publisher, release_date);
        let outcome = run_statement(&self.conn, Statement::UpdateGame.sql(), &args);
        self.game_updated(game_id, title, publisher, release_date, outcome)
    }

    /// What becomes of the catalog once SQLite was asked to overwrite the
    /// game `game_id`: where it did, the game has the three new fields, and
    /// where there is no such game nothing has changed; where it refused,
    /// the catalog stays as it is and SQLite's error is returned.
    pub fn game_updated(
        &mut self,
        game_id: i32,
        title: &str,
        publisher: &str,
        release_date: &str,
        outcome: Result<usize, rusqlite::Error>,
    ) -> (r: Result<(), DbError>)
        requires
            old(self).wf(),
        ensures
            final(self).wf(),
            match outcome {
                Ok(_) => r == Ok::<(), DbError>(()) && final(self)@ == old(
                    self,
                )@.with_game_edited(game_id as int, title@, publisher@, release_date@),
                Err(e) => r == Err::<(), DbError>(DbError::Storage(e)) && final(self)@ == old(
                    self,
                )@,
            },
    {
        match outcome {
            Ok(_) => {
                match locate(&self.games, game_id) {
                    Some(at) => {
                        let row = Game {
                            id: game_id,
                            title: String::from_str(title),
                            publisher: String::from_str(publisher),
                            release_date: String::from_str(release_date),
                        };
                        proof {
                            assert(views(self.games@.update(at as int, row)) =~= views(
                                self.games@,
                            ).update(at as int, row@));
                        }
                        self.games.set(at, row);
                    },
                    None => {},
                }
                Ok(())
            },
            Err(e) => Err(DbError::Storage(e)),
        }
    }

    /// The game `game_id`, or `None` where there is none.
    pub fn get_game(&self, game_id: i32) -> (r: Option<Game>)
        requires
            self.wf(),
        ensures
            row_view(r) == self@.game(game_id as int),
    {
        fetch(&self.games, game_id)
    }

    /// The first game of the table whose title is exactly `title`, or `None`
    /// where there is none.
    pub fn get_game_by_title(&self, title: &str) -> (r: Option<Game>)
        ensures
            row_view(r) == self@.game_called(title@),
    {
        let ghost rows = views(self.games@);
        let ghost pred = |g: GameView| g.title == title@;
        let mut i: usize = 0;
        while i < self.games.len()
            invariant
                i <= self.games.len(),
                rows == views(self.games@),
                pred == |g: GameView| g.title == title@,
                rows.take(i as int).filter(pred).len() == 0,
            decreases self.games.len() - i,
        {
            proof {
                lemma_filter_step(rows, pred, i as int);
            }
            if same_text(self.games[i].title.as_str(), title) {
                proof {
                    rows.take(i as int + 1).lemma_filter_monotone(rows, pred);
                }
                return Some(self.games[i].duplicate());
            }
            i = i + 1;
        }
        assert(rows.take(i as int) =~= rows);
        None
    }

    /// The games whose title begins with `title`, in the order of the table.
    /// Case counts, and the empty prefix finds every game.
    pub fn get_games_by_title(&self, title: &str) -> (r: Vec<Game>)
        ensures
            views(r@) == self@.games_titled(title@),
    {
        let ghost rows = views(self.games@);
        let ghost pred = |g: GameView| title@.is_prefix_of(g.title);
        let mut out: Vec<Game> = Vec::new();
        let mut i: usize = 0;
        while i < self.games.len()
            invariant
                i <= self.games.len(),
                rows == views(self.games@),
                pred == |g: GameView| title@.is_prefix_of(g.title),
                views(out@) == rows.take(i as int).filter(pred),
            decreases self.games.len() - i,
        {
            proof {
                lemma_filter_step(rows, pred, i as int);
            }
            if starts_with(self.games[i].title.as_str(), title) {
                let row = self.games[i].duplicate();
                out.push(row);
            }
            i = i + 1;
        }
        assert(rows.take(i as int) =~= rows);
        out
    }

    /// The platform `platform_id`, or `None` where there is none.
    pub fn get_platform(&self, platform_id: i32) -> (r: Option<Platform>)
        requires
            self.wf(),
        ensures
            row_view(r) == self@.platform(platform_id as int),
    {
        fetch(&self.platforms, platform_id)
    }

    /// The location `location_id`, or `None` where there is none.
    pub fn get_location(&self, location_id: i32) -> (r: Option<Location>)
        requires
            self.wf(),
        ensures
            row_view(r) == self@.location(location_id as int),
    {
        fetch(&self.locations, location_id)
    }

    /// The free-form text of the save `save_id`, or `None` where there is no
    /// such save. A save without a text gives the empty text.
    pub fn get_save(&self, save_id: i32) -> (r: Option<String>)
        requires
            self.wf(),
        ensures
            match self@.save(save_id as int) {
                Some(save) => r matches Some(text) && text@ == metadata_text(save),
                None => r is None,
            },
    {
        match locate(&self.saves, save_id) {
            Some(at) => {
                Some(text_of(&self.saves[at]))
            },
            None => None,
        }
    }

    /// The save `save_id`, or `None` where there is none.
    pub fn get_save_row(&self, save_id: i32) -> (r: Option<Save>)
        requires
            self.wf(),
        ensures
            row_view(r) == self@.save(save_id as int),
    {
        fetch(&self.saves, save_id)
    }

    /// The saves that belong to the game, the platform and the location that
    /// are asked for, in the order of the table.
    fn select_saves(
        &self,
        game_id: Option<i32>,
        platform_id: Option<i32>,
        location_id: Option<i32>,
    ) -> (r: Vec<Save>)
        ensures
            views(r@) == self@.saves_matching(
                wanted(game_id),
                wanted(platform_id),
                wanted(location_id),
            ),
    {
        let ghost rows = views(self.saves@);
        let ghost pred = |s: SaveView|
            save_matches(s, wanted(game_id), wanted(platform_id), wanted(location_id));
        let mut out: Vec<Save> = Vec::new();
        let mut i: usize = 0;
        while i < self.saves.len()
            invariant
                i <= self.saves.len(),
                rows == views(self.saves@),
                pred == |s: SaveView|
                    save_matches(s, wanted(game_id), wanted(platform_id), wanted(location_id)),
                views(out@) == rows.take(i as int).filter(pred),
            decreases self.saves.len() - i,
        {
            proof {
                lemma_filter_step(rows, pred, i as int);
            }
            let save = &self.saves[i];
            let game_fits = match game_id {
                Some(g) => save.game_id == g,
                None => true,
            };
            let platform_fits = match platform_id {
                Some(p) => save.platform_id == p,
                None => true,
            };
            let location_fits = match location_id {
                Some(l) => save.location_id == l,
                None => true,
            };
            if game_fits && platform_fits && location_fits {
                let row = save.duplicate();
                out.push(row);
            }
            i = i + 1;
        }
        assert(rows.take(i as int) =~= rows);
        out
    }

    /// The free-form texts of the saves that belong to the game, the
    /// platform and the location that are asked for.
    fn select_texts(
        &self,
        game_id: Option<i32>,
        platform_id: Option<i32>,
        location_id: Option<i32>,
    ) -> (r: Vec<String>)
        ensures
            views(r@) == self@.saves_matching(
                wanted(game_id),
                wanted(platform_id),
                wanted(location_id),
            ).map_values(|s: SaveView| metadata_text(s)),
    {
        let saves = self.select_saves(game_id, platform_id, location_id);
        let mut out: Vec<String> = Vec::new();
        let mut i: usize = 0;
        while i < saves.len()
            invariant
                i <= saves.len(),
                out.len() == i,
                forall|k: int| 0 <= k < i ==> (#[trigger] out@[k])@ == metadata_text(saves@[k]@),
            decreases saves.len() - i,
        {
            out.push(text_of(&saves[i]));
            i = i + 1;
        }
        out
    }

    /// The saves of the game `game_id`, in the order of the table.
    pub fn get_saves_by_game_id(&self, game_id: i32) -> (r: Vec<Save>)
        ensures
            views(r@) == self@.saves_of(game_id as int),
    {
        self.select_saves(Some(game_id), None, None)
    }

    /// Every game, in the order of the table.
    pub fn get_all_games(&self) -> (r: Vec<Game>)
        ensures
            views(r@) == self@.games,
    {
        duplicate_all(&self.games)
    }

    /// Every platform, in the order of the table.
    pub fn get_all_platforms(&self) -> (r: Vec<Platform>)
        ensures
            views(r@) == self@.platforms,
    {
        duplicate_all(&self.platforms)
    }

    /// Every location, in the order of the table.
    pub fn get_all_locations(&self) -> (r: Vec<Location>)
        ensures
            views(r@) == self@.locations,
    {
        duplicate_all(&self.locations)
    }

    /// The free-form text of every save, in the order of the table.
    pub fn get_all_saves(&self) -> (r: Vec<String>)
        ensures
            views(r@) == self@.saves_matching(None, None, None).map_values(
                |s: SaveView| metadata_text(s),
            ),
    {
        self.select_texts(None, None, None)
    }

    /// The saves of the game `game_id`, in the order of the table.
    pub fn get_all_saves_by_id(&self, game_id: i32) -> (r: Vec<Save>)
        ensures
            views(r@) == self@.saves_of(game_id as int),
    {
        self.select_saves(Some(game_id), None, None)
    }

    /// The free-form texts of the saves on the platform `platform_id`.
    pub fn get_all_saves_for_platform(&self, platform_id: i32) -> (r: Vec<String>)
        ensures
            views(r@) == self@.saves_matching(None, Some(platform_id as int), None).map_values(
                |s: SaveView| metadata_text(s),
            ),
    {
        self.select_texts(None, Some(platform_id), None)
    }

    /// The free-form texts of the saves taken from the location
    /// `location_id`.
    pub fn get_all_saves_for_location(&self, location_id: i32) -> (r: Vec<String>)
        ensures
            views(r@) == self@.saves_matching(None, None, Some(location_id as int)).map_values(
                |s: SaveView| metadata_text(s),
            ),
    {
        self.select_texts(None, None, Some(location_id))
    }

    /// The free-form texts of the saves of the game `game_id` on the platform
    /// `platform_id`.
    pub fn get_all_saves_for_game_and_platform(&self, game_id: i32, platform_id: i32) -> (r: Vec<
        String,
    >)
        ensures
            views(r@) == self@.saves_matching(
                Some(game_id as int),
                Some(platform_id as int),
                None,
            ).map_values(|s: SaveView| metadata_text(s)),
    {
        self.select_texts(Some(game_id), Some(platform_id), None)
    }

    /// The free-form texts of the saves of the game `game_id` taken from the
    /// location `location_id`.
    pub fn get_all_saves_for_game_and_location(&self, game_id: i32, location_id: i32) -> (r: Vec<
        String,
    >)
        ensures
            views(r@) == self@.saves_matching(
                Some(game_id as int),
                None,
                Some(location_id as int),
            ).map_values(|s: SaveView| metadata_text(s)),
    {
        self.select_texts(Some(game_id), None, Some(location_id))
    }

    /// The free-form texts of the saves on the platform `platform_id` taken
    /// from the location `location_id`.
    pub fn get_all_saves_for_platform_and_location(
        &self,
        platform_id: i32,
        location_id: i32,
    ) -> (r: Vec<String>)
        ensures
            views(r@) == self@.saves_matching(
                None,
                Some(platform_id as int),
                Some(location_id as int),
            ).map_values(|s: SaveView| metadata_text(s)),
    {
        self.select_texts(None, Some(platform_id), Some(location_id))
    }

    /// The free-form texts of the saves of the game `game_id` on the platform
    /// `platform_id` taken from the location `location_id`.
    pub fn get_all_saves_for_game_and_platform_and_location(
        &self,
        game_id: i32,
        platform_id: i32,
        location_id: i32,
    ) -> (r: Vec<String>)
        ensures
            views(r@) == self@.saves_matching(
                Some(game_id as int),
                Some(platform_id as int),
                Some(location_id as int),
            ).map_values(|s: SaveView| metadata_text(s)),
    {
        self.select_texts(Some(game_id), Some(platform_id), Some(location_id))
    }

    /// Removes the game `game_id`. Where there is no such game nothing
    /// happens, and that is no failure. The identifier is not given to
    /// another game afterwards.
    ///
    /// Fails with SQLite's error where it could not remove the row; the
    /// catalog is unchanged then. What SQLite is handed is
    /// `Statement::DeleteGame` with the identifier; what is made of its
    /// outcome, `game_deleted` says.
    pub fn delete_game(&mut self, game_id: i32) -> (r: Result<(), DbError>)
        requires
            old(self).wf(),
        ensures
            final(self).wf(),
            match r {
                Ok(()) => final(self)@ == old(self)@.without_game(game_id as int),
                Err(e) => final(self)@ == old(self)@ && e is Storage && has_key(
                    old(self)@.games,
                    game_id as int,
                ),
            },
    {
        if locate(&self.games, game_id).is_none() {
            return Ok(());
        }
        let args = encode_id(game_id);
        let outcome = run_statement(&self.conn, Statement::DeleteGame.sql(), &args);
        self.game_deleted(game_id, outcome)
    }

    /// What becomes of the catalog once SQLite was asked to delete the game
    /// `game_id`: where it did, the catalog is without that game; where it
    /// refused, the catalog stays as it is and SQLite's error is returned.
    pub fn game_deleted(&mut self, game_id: i32, outcome: Result<usize, rusqlite::Error>) -> (r:
        Result<(), DbError>)
        requires
            old(self).wf(),
        ensures
            final(self).wf(),
            match outcome {
                Ok(_) => r == Ok::<(), DbError>(()) && final(self)@ == old(self)@.without_game(
                    game_id as int,
                ),
                Err(e) => r == Err::<(), DbError>(DbError::Storage(e)) && final(self)@ == old(
                    self,
                )@,
            },
    {
        match outcome {
            Ok(_) => {
                match locate(&self.games, game_id) {
                    Some(at) => {
                        proof {
                            assert(views(self.games@.remove(at as int)) =~= views(
                                self.games@,
                            ).remove(at as int));
                        }
                        self.games.remove(at);
                    },
                    None => {},
                }
                Ok(())
            },
            Err(e) => Err(DbError::Storage(e)),
        }
    }

    /// Removes the save `save_id`. Where there is no such save nothing
    /// happens, and that is no failure. The identifier is not given to
    /// another save afterwards.
    ///
    /// Fails with SQLite's error where it could not remove the row; the
    /// catalog is unchanged then. What SQLite is handed is
    /// `Statement::DeleteSave` with the identifier; what is made of its
    /// outcome, `save_deleted` says.
    pub fn delete_save(&mut self, save_id: i32) -> (r: Result<(), DbError>)
        requires
            old(self).wf(),
        ensures
            final(self).wf(),
            match r {
                Ok(()) => final(self)@ == old(self)@.without_save(save_id as int),
                Err(e) => final(self)@ == old(self)@ && e is Storage && has_key(
                    old(self)@.saves,
                    save_id as int,
                ),
            },
    {
        if locate(&self.saves, save_id).is_none() {
            return Ok(());
        }
        let args = encode_id(save_id);
        let outcome = run_statement(&self.conn, Statement::DeleteSave.sql(), &args);
        self.save_deleted(save_id, outcome)
    }

    /// What becomes of the catalog once SQLite was asked to delete the save
    /// `save_id`: where it did, the catalog is without that save; where it
    /// refused, the catalog stays as it is and SQLite's error is returned.
    pub fn save_deleted(&mut self, save_id: i32, outcome: Result<usize, rusqlite::Error>) -> (r:
        Result<(), DbError>)
        requires
            old(self).wf(),
        ensures
            final(self).wf(),
            match outcome {
                Ok(_) => r == Ok::<(), DbError>(()) && final(self)@ == old(self)@.without_save(
                    save_id as int,
                ),
                Err(e) => r == Err::<(), DbError>(DbError::Storage(e)) && final(self)@ == old(
                    self,
                )@,
            },
    {
        match outcome {
            Ok(_) => {
                match locate(&self.saves, save_id) {
                    Some(at) => {
                        proof {
                            assert(views(self.saves@.remove(at as int)) =~= views(
                                self.saves@,
                            ).remove(at as int));
                        }
                        self.saves.remove(at);
                    },
                    None => {},
                }
                Ok(())
            },
            Err(e) => Err(DbError::Storage(e)),
        }
    }

    /// Removes the location `location_id`. Where there is no such location
    /// nothing happens, and that is no failure. The identifier is not given
    /// to another location afterwards.
    ///
    /// Fails with SQLite's error where it could not remove the row; the
    /// catalog is unchanged then. What SQLite is handed is
    /// `Statement::DeleteLocation` with the identifier; what is made of its
    /// outcome, `location_deleted` says.
    pub fn delete_location(&mut self, location_id: i32) -> (r: Result<(), DbError>)
        requires
            old(self).wf(),
        ensures
            final(self).wf(),
            match r {
                Ok(()) => final(self)@ == old(self)@.without_location(location_id as int),
                Err(e) => final(self)@ == old(self)@ && e is Storage && has_key(
                    old(self)@.locations,
                    location_id as int,
                ),
            },
    {
        if locate(&self.locations, location_id).is_none() {
            return Ok(());
        }
        let args = encode_id(location_id);
        let outcome = run_statement(&self.conn, Statement::DeleteLocation.sql(), &args);
        self.location_deleted(location_id, outcome)
    }

    /// What becomes of the catalog once SQLite was asked to delete the
    /// location `location_id`: where it did, the catalog is without that
    /// location; where it refused, the catalog stays as it is and SQLite's
    /// error is returned.
    pub fn location_deleted(
        &mut self,
        location_id: i32,
        outcome: Result<usize, rusqlite::Error>,
    ) -> (r: Result<(), DbError>)
        requires
            old(self).wf(),
        ensures
            final(self).wf(),
            match outcome {
                Ok(_) => r == Ok::<(), DbError>(()) && final(self)@ == old(
                    self,
                )@.without_location(location_id as int),
                Err(e) => r == Err::<(), DbError>(DbError::Storage(e)) && final(self)@ == old(
                    self,
                )@,
            },
    {
        match outcome {
            Ok(_) => {
                match locate(&self.locations, location_id) {
                    Some(at) => {
                        proof {
                            assert(views(self.locations@.remove(at as int)) =~= views(
                                self.locations@,
                            ).remove(at as int));
                        }
                        self.locations.remove(at);
                    },
                    None => {},
                }
                Ok(())
            },
            Err(e) => Err(DbError::Storage(e)),
        }
    }
}

/// The free-form text of a save; the empty text where it has none.
fn text_of(save: &Save) -> (r: String)
    ensures
        r@ == metadata_text(save@),
{
    match &save.metadata {
        Some(m) => m.clone(),
        None => String::new(),
    }
}

} // verus!
