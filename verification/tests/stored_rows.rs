use sharks_safe_haven::codec::{
    decode_game, decode_games, decode_issued, decode_location, decode_platform, decode_platforms,
    decode_save, decode_saves, encode_game, encode_game_update, encode_id, encode_location,
    encode_platform, encode_save, Issued,
};
use sharks_safe_haven::sql::Statement;
use sharks_safe_haven::db::{stored, Db, DbError, Game, Location, Platform, Save, StoredRows};
use sharks_safe_haven::storage::SqlValue;

fn text(s: &str) -> SqlValue {
    SqlValue::Text(s.to_string())
}

fn counts(games: i64, platforms: i64, locations: i64, saves: i64) -> Vec<Vec<SqlValue>> {
    vec![vec![
        SqlValue::Integer(games),
        SqlValue::Integer(platforms),
        SqlValue::Integer(locations),
        SqlValue::Integer(saves),
    ]]
}

fn refusal() -> Result<usize, rusqlite::Error> {
    Err(rusqlite::Error::InvalidQuery)
}

fn is_refused<T>(outcome: Result<T, DbError>) -> bool {
    matches!(outcome, Err(DbError::Storage(rusqlite::Error::InvalidQuery)))
}

#[test]
fn a_game_row_has_four_columns_and_a_positive_id() {
    let row = vec![SqlValue::Integer(3), text("Doom"), text("id Software"), text("1993-12-10")];
    assert_eq!(
        decode_game(&row),
        Some(Game {
            id: 3,
            title: "Doom".to_string(),
            publisher: "id Software".to_string(),
            release_date: "1993-12-10".to_string(),
        })
    );
    assert_eq!(decode_game(&vec![SqlValue::Integer(3), text("Doom"), text("id Software")]), None);
    assert_eq!(decode_game(&vec![SqlValue::Integer(0), text("a"), text("b"), text("c")]), None);
    assert_eq!(decode_game(&vec![SqlValue::Integer(-3), text("a"), text("b"), text("c")]), None);
    assert_eq!(
        decode_game(&vec![SqlValue::Integer(2147483648), text("a"), text("b"), text("c")]),
        None
    );
    assert_eq!(decode_game(&vec![text("3"), text("a"), text("b"), text("c")]), None);
    assert_eq!(decode_game(&vec![SqlValue::Null, text("a"), text("b"), text("c")]), None);
    assert_eq!(decode_game(&Vec::new()), None);
}

#[test]
fn columns_that_hold_no_text_are_read_as_empty() {
    let row = vec![SqlValue::Integer(2147483647), SqlValue::Null, SqlValue::Blob, SqlValue::Real];
    assert_eq!(
        decode_game(&row),
        Some(Game {
            id: 2147483647,
            title: String::new(),
            publisher: String::new(),
            release_date: String::new(),
        })
    );
}

#[test]
fn a_release_date_that_is_stored_as_a_number_is_read_in_decimal() {
    let row = vec![SqlValue::Integer(1), text("t"), SqlValue::Integer(5), SqlValue::Integer(-19950311)];
    let game = decode_game(&row).unwrap();
    assert_eq!(game.publisher, "");
    assert_eq!(game.release_date, "-19950311");
}

#[test]
fn platform_location_and_save_rows_are_decoded() {
    assert_eq!(
        decode_platform(&vec![SqlValue::Integer(2), text("SNES")]),
        Some(Platform { id: 2, platform_name: "SNES".to_string() })
    );
    assert_eq!(decode_platform(&vec![SqlValue::Integer(2)]), None);
    assert_eq!(
        decode_location(&vec![SqlValue::Integer(4), text("/saves"), SqlValue::Null]),
        Some(Location { id: 4, location_path: "/saves".to_string(), description: String::new() })
    );
    assert_eq!(decode_location(&vec![SqlValue::Real, text("/saves"), text("")]), None);
    let save = vec![
        SqlValue::Integer(9),
        SqlValue::Integer(1),
        SqlValue::Integer(-2),
        text("notes"),
        SqlValue::Integer(3),
    ];
    assert_eq!(
        decode_save(&save),
        Some(Save {
            id: 9,
            game_id: 1,
            location_id: -2,
            metadata: Some("notes".to_string()),
            platform_id: 3,
        })
    );
    let foreign = vec![
        SqlValue::Integer(9),
        SqlValue::Integer(1),
        SqlValue::Null,
        text("notes"),
        SqlValue::Integer(3),
    ];
    assert_eq!(decode_save(&foreign), None);
    let far = vec![
        SqlValue::Integer(9),
        SqlValue::Integer(1),
        SqlValue::Integer(2),
        SqlValue::Integer(7),
        SqlValue::Integer(-2147483649),
    ];
    assert_eq!(decode_save(&far), None);
}

#[test]
fn a_table_must_come_in_the_order_of_its_ids() {
    let row = |id: i64| vec![SqlValue::Integer(id), text("t"), text("p"), text("d")];
    let ids = |rows: Vec<Vec<SqlValue>>| {
        decode_games(&rows).map(|games| games.iter().map(|g| g.id).collect::<Vec<i32>>())
    };
    assert_eq!(ids(vec![row(1), row(2), row(5)]), Some(vec![1, 2, 5]));
    assert_eq!(ids(Vec::new()), Some(Vec::new()));
    assert_eq!(ids(vec![row(2), row(1)]), None);
    assert_eq!(ids(vec![row(1), row(1)]), None);
    assert_eq!(ids(vec![row(1), row(0)]), None);
    assert_eq!(ids(vec![row(1), vec![SqlValue::Integer(2)]]), None);
}

#[test]
fn a_table_of_platforms_must_not_repeat_a_name() {
    let row = |id: i64, name: &str| vec![SqlValue::Integer(id), text(name)];
    assert!(decode_platforms(&vec![row(1, "PC"), row(2, "Mac"), row(3, "pc")]).is_some());
    assert!(decode_platforms(&vec![row(1, "PC"), row(2, "Mac"), row(3, "PC")]).is_none());
    assert!(decode_platforms(&vec![row(2, "PC"), row(1, "Mac")]).is_none());
}

#[test]
fn a_table_of_saves_is_decoded_row_by_row() {
    let row = |id: i64| {
        vec![
            SqlValue::Integer(id),
            SqlValue::Integer(1),
            SqlValue::Integer(1),
            SqlValue::Null,
            SqlValue::Integer(1),
        ]
    };
    assert_eq!(decode_saves(&vec![row(1), row(3)]).unwrap().len(), 2);
    assert!(decode_saves(&vec![row(3), row(1)]).is_none());
}

#[test]
fn what_is_encoded_is_decoded_to_the_same_row() {
    assert_eq!(
        decode_game(&encode_game(7, "Doom", "id Software", "1993-12-10")),
        Some(Game {
            id: 7,
            title: "Doom".to_string(),
            publisher: "id Software".to_string(),
            release_date: "1993-12-10".to_string(),
        })
    );
    assert_eq!(
        decode_platform(&encode_platform(1, "SNES")),
        Some(Platform { id: 1, platform_name: "SNES".to_string() })
    );
    assert_eq!(
        decode_location(&encode_location(2, "/saves", "disk")),
        Some(Location { id: 2, location_path: "/saves".to_string(), description: "disk".to_string() })
    );
    assert_eq!(
        decode_save(&encode_save(3, 7, 2, "", 1)),
        Some(Save { id: 3, game_id: 7, location_id: 2, metadata: Some(String::new()), platform_id: 1 })
    );
    assert!(matches!(encode_id(12).as_slice(), [SqlValue::Integer(12)]));
}

#[test]
fn the_outcome_of_a_statement_decides_success() {
    assert!(stored(Ok(0)).is_ok());
    assert!(stored(Ok(3)).is_ok());
    let refused = stored(Err(rusqlite::Error::InvalidQuery));
    assert!(matches!(refused, Err(DbError::Storage(rusqlite::Error::InvalidQuery))));
}

#[test]
fn a_catalog_is_made_of_four_readable_tables() {
    let rows = StoredRows {
        games: vec![vec![SqlValue::Integer(4), text("Doom"), text("id Software"), text("1993")]],
        platforms: vec![vec![SqlValue::Integer(1), text("PC")]],
        locations: Vec::new(),
        saves: Vec::new(),
        issued: counts(0, 0, 0, 0),
    };
    let conn = rusqlite::Connection::open_in_memory().unwrap();
    let db = Db::from_rows(conn, &rows).unwrap();
    assert_eq!(db.get_game(4).unwrap().title, "Doom");
    assert_eq!(db.get_all_platforms().len(), 1);
    assert!(db.get_all_saves().is_empty());

    let broken = StoredRows {
        games: Vec::new(),
        platforms: Vec::new(),
        locations: vec![vec![SqlValue::Integer(1)]],
        saves: Vec::new(),
        issued: counts(0, 0, 0, 0),
    };
    let conn = rusqlite::Connection::open_in_memory().unwrap();
    assert!(matches!(Db::from_rows(conn, &broken), Err(DbError::Corrupt)));
}

fn empty_rows(issued: Vec<Vec<SqlValue>>) -> StoredRows {
    StoredRows {
        games: Vec::new(),
        platforms: Vec::new(),
        locations: Vec::new(),
        saves: Vec::new(),
        issued,
    }
}

fn catalog_with(issued: Vec<Vec<SqlValue>>) -> Db {
    Db::from_rows(rusqlite::Connection::open_in_memory().unwrap(), &empty_rows(issued)).unwrap()
}

#[test]
fn the_counts_are_one_row_of_four_counts() {
    assert_eq!(
        decode_issued(&counts(7, 0, 2147483647, 3)),
        Some(Issued { games: 7, platforms: 0, locations: 2147483647, saves: 3 })
    );
    assert_eq!(decode_issued(&Vec::new()), None);
    assert_eq!(decode_issued(&vec![vec![SqlValue::Integer(1)]]), None);
    assert_eq!(decode_issued(&counts(-1, 0, 0, 0)), None);
    assert_eq!(decode_issued(&counts(0, 2147483648, 0, 0)), None);
    assert_eq!(decode_issued(&vec![vec![SqlValue::Null, SqlValue::Null, SqlValue::Null, SqlValue::Null]]), None);
    let mut twice = counts(1, 1, 1, 1);
    twice.extend(counts(1, 1, 1, 1));
    assert_eq!(decode_issued(&twice), None);
}

#[test]
fn a_catalog_without_its_counts_is_corrupt() {
    let conn = rusqlite::Connection::open_in_memory().unwrap();
    assert!(matches!(Db::from_rows(conn, &empty_rows(Vec::new())), Err(DbError::Corrupt)));
}

#[test]
fn the_next_identifier_is_above_the_count_and_above_the_last_row() {
    let rows = StoredRows {
        games: vec![vec![SqlValue::Integer(4), text("Doom"), text("id Software"), text("1993")]],
        platforms: vec![vec![SqlValue::Integer(6), text("PC")]],
        locations: Vec::new(),
        saves: Vec::new(),
        issued: counts(9, 2, 5, 0),
    };
    let mut db = Db::from_rows(rusqlite::Connection::open_in_memory().unwrap(), &rows).unwrap();
    assert_eq!(db.game_stored(10, "Quake", "id Software", "1996", Ok(1)).unwrap(), 10);
    assert_eq!(db.platform_stored(7, "SNES", Ok(1)).unwrap(), 7);
    assert_eq!(db.location_stored(6, "/saves", "", Ok(1)).unwrap(), 6);
    assert_eq!(db.save_stored(1, 10, 6, "", 7, Ok(1)).unwrap(), 1);
    assert_eq!(db.get_game(10).unwrap().title, "Quake");
    assert_eq!(db.get_platform(7).unwrap().platform_name, "SNES");
    assert_eq!(db.get_location(6).unwrap().location_path, "/saves");
    assert_eq!(db.get_save_row(1).unwrap().game_id, 10);
}

#[test]
fn a_stored_row_is_in_the_catalog_and_a_refused_one_is_not() {
    let mut db = catalog_with(counts(0, 0, 0, 0));
    assert!(is_refused(db.game_stored(1, "Doom", "id Software", "1993", refusal())));
    assert!(db.get_all_games().is_empty());
    assert_eq!(db.game_stored(1, "Doom", "id Software", "1993", Ok(1)).unwrap(), 1);
    assert_eq!(
        db.get_all_games(),
        vec![Game {
            id: 1,
            title: "Doom".to_string(),
            publisher: "id Software".to_string(),
            release_date: "1993".to_string(),
        }]
    );

    assert!(is_refused(db.platform_stored(1, "PC", refusal())));
    assert!(db.get_all_platforms().is_empty());
    assert_eq!(db.platform_stored(1, "PC", Ok(1)).unwrap(), 1);
    assert_eq!(db.get_all_platforms(), vec![Platform { id: 1, platform_name: "PC".to_string() }]);

    assert!(is_refused(db.location_stored(1, "/saves/doom", "disk", refusal())));
    assert!(db.get_all_locations().is_empty());
    assert_eq!(db.location_stored(1, "/saves/doom", "disk", Ok(1)).unwrap(), 1);
    assert_eq!(
        db.get_all_locations(),
        vec![Location {
            id: 1,
            location_path: "/saves/doom".to_string(),
            description: "disk".to_string(),
        }]
    );

    assert!(is_refused(db.save_stored(1, 1, 1, "first", 1, refusal())));
    assert!(db.get_save_row(1).is_none());
    assert_eq!(db.save_stored(1, 1, 1, "first", 1, Ok(1)).unwrap(), 1);
    assert_eq!(
        db.get_save_row(1),
        Some(Save {
            id: 1,
            game_id: 1,
            location_id: 1,
            metadata: Some("first".to_string()),
            platform_id: 1,
        })
    );
}

#[test]
fn an_accepted_update_overwrites_the_game_and_a_refused_one_does_not() {
    let mut db = catalog_with(counts(0, 0, 0, 0));
    db.game_stored(1, "Doom", "id Software", "1993", Ok(1)).unwrap();
    assert!(is_refused(db.game_updated(1, "Doom II", "", "1994", refusal())));
    assert_eq!(db.get_game(1).unwrap().title, "Doom");
    assert!(db.game_updated(1, "Doom II", "", "1994", Ok(1)).is_ok());
    assert_eq!(
        db.get_game(1),
        Some(Game {
            id: 1,
            title: "Doom II".to_string(),
            publisher: String::new(),
            release_date: "1994".to_string(),
        })
    );
    assert!(db.game_updated(2, "Quake", "", "", Ok(0)).is_ok());
    assert_eq!(db.get_all_games().len(), 1);
}

#[test]
fn an_accepted_delete_removes_the_row_and_a_refused_one_does_not() {
    let mut db = catalog_with(counts(0, 0, 0, 0));
    db.game_stored(1, "Doom", "id Software", "1993", Ok(1)).unwrap();
    db.location_stored(1, "/saves/doom", "", Ok(1)).unwrap();
    db.save_stored(1, 1, 1, "", 1, Ok(1)).unwrap();

    assert!(is_refused(db.save_deleted(1, refusal())));
    assert!(db.get_save_row(1).is_some());
    assert!(db.save_deleted(1, Ok(1)).is_ok());
    assert!(db.get_save_row(1).is_none());

    assert!(is_refused(db.location_deleted(1, refusal())));
    assert!(db.get_location(1).is_some());
    assert!(db.location_deleted(1, Ok(1)).is_ok());
    assert!(db.get_location(1).is_none());

    assert!(is_refused(db.game_deleted(1, refusal())));
    assert!(db.get_game(1).is_some());
    assert!(db.game_deleted(1, Ok(1)).is_ok());
    assert!(db.get_game(1).is_none());
    assert!(db.game_deleted(1, Ok(0)).is_ok());
}

#[test]
fn the_arguments_of_an_update_end_with_the_identifier() {
    let args = encode_game_update(3, "Doom", "id Software", "1993-12-10");
    assert_eq!(args, vec![text("Doom"), text("id Software"), text("1993-12-10"), SqlValue::Integer(3)]);
}

#[test]
fn every_statement_is_one_that_sqlite_prepares() {
    let conn = rusqlite::Connection::open_in_memory().unwrap();
    let all = [
        Statement::CreateGames,
        Statement::CreatePlatforms,
        Statement::CreateLocations,
        Statement::CreateSaves,
        Statement::ReadGames,
        Statement::ReadPlatforms,
        Statement::ReadLocations,
        Statement::ReadSaves,
        Statement::ReadIssued,
        Statement::InsertGame,
        Statement::InsertPlatform,
        Statement::InsertLocation,
        Statement::InsertSave,
        Statement::UpdateGame,
        Statement::DeleteGame,
        Statement::DeleteSave,
        Statement::DeleteLocation,
    ];
    for statement in all {
        if statement.sql().starts_with("CREATE") {
            conn.execute(statement.sql(), ()).unwrap();
        } else {
            conn.prepare(statement.sql()).unwrap();
        }
    }
    assert_eq!(
        Statement::DeleteGame.sql(),
        "DELETE FROM Game WHERE id = ?1"
    );
    assert_eq!(
        Statement::UpdateGame.sql(),
        "UPDATE Game SET title = ?1, publisher = ?2, release_date = ?3 WHERE id = ?4"
    );
}
