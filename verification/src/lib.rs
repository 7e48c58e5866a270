//! Shark's Safe Haven: a catalog of game saves and of their backups.
//!
//! The catalog ties a game to a platform and to the directory in which the
//! game keeps its save data, and every such tie has a backup directory of
//! its own under `backups/`. Three parts work together:
//!
//! - [`db`] is the catalog store. It holds the four tables and keeps them in
//!   an SQLite file; [`catalog`] says what each of its operations makes of
//!   the tables, [`table`] holds what the tables have in common, and
//!   [`codec`], [`sql`] and [`storage`] stand between the tables and the
//!   file.
//! - [`filesystem`] is the mirror. It turns the listing of a directory tree
//!   into the steps that copy or delete the tree.
//! - [`game_saves`] is the orchestrator. It adds, edits, removes and restores
//!   a game save as one operation; [`integrity`] shows that it keeps what the
//!   saves refer to in existence, and [`text`] builds the backup paths.
//!
//! [`shark_gui`] holds what the application's window shows.
//!
//! The library opens no file but the SQLite file and touches no directory:
//! the steps on disk are handed to the caller, who carries them out.

pub mod catalog;
pub mod codec;
pub mod db;
pub mod filesystem;
pub mod game_saves;
pub mod integrity;
pub mod shark_gui;
pub mod sql;
pub mod storage;
pub mod table;
pub mod text;
