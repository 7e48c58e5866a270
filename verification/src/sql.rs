//! The statements that the store hands to SQLite, each under a name.
//!
//! The store computes every identifier itself and inserts it with the row.
//! The tables are declared `AUTOINCREMENT` all the same: SQLite then keeps,
//! in its table `sqlite_sequence`, the largest identifier that each table
//! ever held, and that is what the store reads back when it opens a file, so
//! that the identifier of a deleted row is not given again in a later run.

use vstd::prelude::*;

verus! {

/// A statement of the store.
#[derive(Debug, Clone, Copy, PartialEq, Eq)]
pub enum Statement {
    /// Creates the table of games where it is missing.
    CreateGames,
    /// Creates the table of platforms where it is missing.
    CreatePlatforms,
    /// Creates the table of locations where it is missing.
    CreateLocations,
    /// Creates the table of saves where it is missing.
    CreateSaves,
    /// Reads every game, in the order of the identifiers.
    ReadGames,
    /// Reads every platform, in the order of the identifiers.
    ReadPlatforms,
    /// Reads every location, in the order of the identifiers.
    ReadLocations,
    /// Reads every save, in the order of the identifiers.
    ReadSaves,
    /// Reads, as one row of four columns, the largest identifier that the
    /// tables of games, platforms, locations and saves ever held, 0 for a
    /// table that SQLite keeps no count of.
    ReadIssued,
    /// Inserts a game: identifier, title, publisher, release date.
    InsertGame,
    /// Inserts a platform: identifier, name.
    InsertPlatform,
    /// Inserts a location: identifier, path, description.
    InsertLocation,
    /// Inserts a save: identifier, game, location, text, platform.
    InsertSave,
    /// Overwrites a game: title, publisher, release date, identifier.
    UpdateGame,
    /// Deletes the game with an identifier.
    DeleteGame,
    /// Deletes the save with an identifier.
    DeleteSave,
    /// Deletes the location with an identifier.
    DeleteLocation,
}

impl Statement {
    /// The text of the statement.
    pub open spec fn text(self) -> Seq<char> {
        match self {
            Statement::CreateGames => "CREATE TABLE IF NOT EXISTS Game (id INTEGER PRIMARY KEY AUTOINCREMENT, title TEXT, publisher TEXT, release_date TEXT)"@,
            Statement::CreatePlatforms => "CREATE TABLE IF NOT EXISTS Platform (id INTEGER PRIMARY KEY AUTOINCREMENT, platform_name TEXT NOT NULL UNIQUE)"@,
            Statement::CreateLocations => "CREATE TABLE IF NOT EXISTS Location (id INTEGER PRIMARY KEY AUTOINCREMENT, location_path TEXT, description TEXT)"@,
            Statement::CreateSaves => "CREATE TABLE IF NOT EXISTS Save (id INTEGER PRIMARY KEY AUTOINCREMENT, game_id INTEGER, location_id INTEGER, metadata TEXT, platform_id INTEGER, FOREIGN KEY (game_id) REFERENCES Game(id), FOREIGN KEY (location_id) REFERENCES Location(id), FOREIGN KEY (platform_id) REFERENCES Platform(id))"@,
            Statement::ReadGames => "SELECT id, title, publisher, release_date FROM Game ORDER BY id"@,
            Statement::ReadPlatforms => "SELECT id, platform_name FROM Platform ORDER BY id"@,
            Statement::ReadLocations => "SELECT id, location_path, description FROM Location ORDER BY id"@,
            Statement::ReadSaves => "SELECT id, game_id, location_id, metadata, platform_id FROM Save ORDER BY id"@,
            Statement::ReadIssued => "SELECT (SELECT coalesce(max(seq), 0) FROM sqlite_sequence WHERE name = 'Game'), (SELECT coalesce(max(seq), 0) FROM sqlite_sequence WHERE name = 'Platform'), (SELECT coalesce(max(seq), 0) FROM sqlite_sequence WHERE name = 'Location'), (SELECT coalesce(max(seq), 0) FROM sqlite_sequence WHERE name = 'Save')"@,
            Statement::InsertGame => "INSERT INTO Game (id, title, publisher, release_date) VALUES (?1, ?2, ?3, ?4)"@,
            Statement::InsertPlatform => "INSERT INTO Platform (id, platform_name) VALUES (?1, ?2)"@,
            Statement::InsertLocation => "INSERT INTO Location (id, location_path, description) VALUES (?1, ?2, ?3)"@,
            Statement::InsertSave => "INSERT INTO Save (id, game_id, location_id, metadata, platform_id) VALUES (?1, ?2, ?3, ?4, ?5)"@,
            Statement::UpdateGame => "UPDATE Game SET title = ?1, publisher = ?2, release_date = ?3 WHERE id = ?4"@,
            Statement::DeleteGame => "DELETE FROM Game WHERE id = ?1"@,
            Statement::DeleteSave => "DELETE FROM Save WHERE id = ?1"@,
            Statement::DeleteLocation => "DELETE FROM Location WHERE id = ?1"@,
        }
    }

    /// The text of the statement, as it is handed to SQLite.
    pub fn sql(&self) -> (r: &'static str)
        ensures
            r@ == self.text(),
    {
        match self {
            Statement::CreateGames => "CREATE TABLE IF NOT EXISTS Game (id INTEGER PRIMARY KEY AUTOINCREMENT, title TEXT, publisher TEXT, release_date TEXT)",
            Statement::CreatePlatforms => "CREATE TABLE IF NOT EXISTS Platform (id INTEGER PRIMARY KEY AUTOINCREMENT, platform_name TEXT NOT NULL UNIQUE)",
            Statement::CreateLocations => "CREATE TABLE IF NOT EXISTS Location (id INTEGER PRIMARY KEY AUTOINCREMENT, location_path TEXT, description TEXT)",
            Statement::CreateSaves => "CREATE TABLE IF NOT EXISTS Save (id INTEGER PRIMARY KEY AUTOINCREMENT, game_id INTEGER, location_id INTEGER, metadata TEXT, platform_id INTEGER, FOREIGN KEY (game_id) REFERENCES Game(id), FOREIGN KEY (location_id) REFERENCES Location(id), FOREIGN KEY (platform_id) REFERENCES Platform(id))",
            Statement::ReadGames => "SELECT id, title, publisher, release_date FROM Game ORDER BY id",
            Statement::ReadPlatforms => "SELECT id, platform_name FROM Platform ORDER BY id",
            Statement::ReadLocations => "SELECT id, location_path, description FROM Location ORDER BY id",
            Statement::ReadSaves => "SELECT id, game_id, location_id, metadata, platform_id FROM Save ORDER BY id",
            Statement::ReadIssued => "SELECT (SELECT coalesce(max(seq), 0) FROM sqlite_sequence WHERE name = 'Game'), (SELECT coalesce(max(seq), 0) FROM sqlite_sequence WHERE name = 'Platform'), (SELECT coalesce(max(seq), 0) FROM sqlite_sequence WHERE name = 'Location'), (SELECT coalesce(max(seq), 0) FROM sqlite_sequence WHERE name = 'Save')",
            Statement::InsertGame => "INSERT INTO Game (id, title, publisher, release_date) VALUES (?1, ?2, ?3, ?4)",
            Statement::InsertPlatform => "INSERT INTO Platform (id, platform_name) VALUES (?1, ?2)",
            Statement::InsertLocation => "INSERT INTO Location (id, location_path, description) VALUES (?1, ?2, ?3)",
            Statement::InsertSave => "INSERT INTO Save (id, game_id, location_id, metadata, platform_id) VALUES (?1, ?2, ?3, ?4, ?5)",
            Statement::UpdateGame => "UPDATE Game SET title = ?1, publisher = ?2, release_date = ?3 WHERE id = ?4",
            Statement::DeleteGame => "DELETE FROM Game WHERE id = ?1",
            Statement::DeleteSave => "DELETE FROM Save WHERE id = ?1",
            Statement::DeleteLocation => "DELETE FROM Location WHERE id = ?1",
        }
    }
}

} // verus!
