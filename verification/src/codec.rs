//! Rows as the file keeps them, and rows as the catalog holds them.
//!
//! A stored row is a list of columns. Decoding is strict: a row of the wrong
//! width, or with an identifier that is no positive 32-bit integer, makes the
//! whole table unreadable, and so does a table whose rows do not come in the
//! order of their identifiers. Beside the tables the file keeps, for each,
//! the largest identifier that it ever held.

use crate::catalog::distinct_names;
use crate::db::{Game, GameView, Location, LocationView, Platform, PlatformView, Save, SaveView};
use crate::storage::{bindable, SqlValue};
use crate::table::{ordered, views, Keyed};
use crate::text::{int_string, int_text, same_text};
use vstd::prelude::*;
use vstd::string::StringExecFns;

verus! {

/// The identifier in a column: an integer from 1 to the largest `i32`.
pub open spec fn as_id(value: SqlValue) -> Option<int> {
    match value {
        SqlValue::Integer(i) => if 1 <= i <= i32::MAX {
            Some(i as int)
        } else {
            None
        },
        _ => None,
    }
}

/// The reference to another row in a column: an integer that fits an `i32`.
pub open spec fn as_reference(value: SqlValue) -> Option<int> {
    match value {
        SqlValue::Integer(i) => if i32::MIN <= i <= i32::MAX {
            Some(i as int)
        } else {
            None
        },
        _ => None,
    }
}

/// The count in a column: an integer from 0 to the largest `i32`.
pub open spec fn as_count(value: SqlValue) -> Option<int> {
    match value {
        SqlValue::Integer(i) => if 0 <= i <= i32::MAX {
            Some(i as int)
        } else {
            None
        },
        _ => None,
    }
}

/// The text in a column; the empty text where the column holds no text.
pub open spec fn as_text(value: SqlValue) -> Seq<char> {
    match value {
        SqlValue::Text(s) => s@,
        _ => Seq::empty(),
    }
}

/// The release date in a column: a text as it is, an integer in decimal,
/// and the empty text for anything else.
pub open spec fn as_date(value: SqlValue) -> Seq<char> {
    match value {
        SqlValue::Text(s) => s@,
        SqlValue::Integer(i) => int_text(i as int),
        _ => Seq::empty(),
    }
}

/// The optional text in a column: `None` where the column holds no text.
pub open spec fn as_optional_text(value: SqlValue) -> Option<Seq<char>> {
    match value {
        SqlValue::Text(s) => Some(s@),
        _ => None,
    }
}

/// The game in a stored row of four columns: identifier, title, publisher
/// and release date.
pub open spec fn game_of(row: Seq<SqlValue>) -> Option<GameView> {
    if row.len() == 4 && as_id(row[0]) is Some {
        Some(
            GameView {
                id: as_id(row[0]).unwrap(),
                title: as_text(row[1]),
                publisher: as_text(row[2]),
                release_date: as_date(row[3]),
            },
        )
    } else {
        None
    }
}

/// The platform in a stored row of two columns: identifier and name.
pub open spec fn platform_of(row: Seq<SqlValue>) -> Option<PlatformView> {
    if row.len() == 2 && as_id(row[0]) is Some {
        Some(PlatformView { id: as_id(row[0]).unwrap(), platform_name: as_text(row[1]) })
    } else {
        None
    }
}

/// The location in a stored row of three columns: identifier, path and
/// description.
pub open spec fn location_of(row: Seq<SqlValue>) -> Option<LocationView> {
    if row.len() == 3 && as_id(row[0]) is Some {
        Some(
            LocationView {
                id: as_id(row[0]).unwrap(),
                location_path: as_text(row[1]),
                description: as_text(row[2]),
            },
        )
    } else {
        None
    }
}

/// The save in a stored row of five columns: identifier, game, location,
/// metadata and platform.
pub open spec fn save_of(row: Seq<SqlValue>) -> Option<SaveView> {
    if row.len() == 5 && as_id(row[0]) is Some && as_reference(row[1]) is Some && as_reference(
        row[2],
    ) is Some && as_reference(row[4]) is Some {
        Some(
            SaveView {
                id: as_id(row[0]).unwrap(),
                game_id: as_reference(row[1]).unwrap(),
                location_id: as_reference(row[2]).unwrap(),
                metadata: as_optional_text(row[3]),
                platform_id: as_reference(row[4]).unwrap(),
            },
        )
    } else {
        None
    }
}

/// The largest identifier that each table ever held, as SQLite counted it.
#[derive(Debug, Clone, Copy, PartialEq, Eq)]
pub struct Issued {
    pub games: i32,
    pub platforms: i32,
    pub locations: i32,
    pub saves: i32,
}

/// The counts in the stored rows: there is one row, of four counts, for the
/// games, the platforms, the locations and the saves.
pub open spec fn issued_of(rows: Seq<Vec<SqlValue>>) -> Option<Issued> {
    if rows.len() == 1 && rows[0]@.len() == 4 && as_count(rows[0]@[0]) is Some && as_count(
        rows[0]@[1],
    ) is Some && as_count(rows[0]@[2]) is Some && as_count(rows[0]@[3]) is Some {
        Some(
            Issued {
                games: as_count(rows[0]@[0]).unwrap() as i32,
                platforms: as_count(rows[0]@[1]).unwrap() as i32,
                locations: as_count(rows[0]@[2]).unwrap() as i32,
                saves: as_count(rows[0]@[3]).unwrap() as i32,
            },
        )
    } else {
        None
    }
}

/// The games in the stored rows, where every row holds one.
pub open spec fn games_of(rows: Seq<Vec<SqlValue>>) -> Seq<GameView> {
    Seq::new(rows.len(), |i: int| game_of(rows[i]@).unwrap())
}

/// The platforms in the stored rows, where every row holds one.
pub open spec fn platforms_of(rows: Seq<Vec<SqlValue>>) -> Seq<PlatformView> {
    Seq::new(rows.len(), |i: int| platform_of(rows[i]@).unwrap())
}

/// The locations in the stored rows, where every row holds one.
pub open spec fn locations_of(rows: Seq<Vec<SqlValue>>) -> Seq<LocationView> {
    Seq::new(rows.len(), |i: int| location_of(rows[i]@).unwrap())
}

/// The saves in the stored rows, where every row holds one.
pub open spec fn saves_of(rows: Seq<Vec<SqlValue>>) -> Seq<SaveView> {
    Seq::new(rows.len(), |i: int| save_of(rows[i]@).unwrap())
}

/// The stored rows are a table of games: each holds a game, and they come
/// in the order of their identifiers.
pub open spec fn readable_games(rows: Seq<Vec<SqlValue>>) -> bool {
    &&& forall|i: int| 0 <= i < rows.len() ==> game_of(#[trigger] rows[i]@) is Some
    &&& ordered(games_of(rows))
}

/// The stored rows are a table of platforms: each holds a platform, they
/// come in the order of their identifiers, and no two share a name.
pub open spec fn readable_platforms(rows: Seq<Vec<SqlValue>>) -> bool {
    &&& forall|i: int| 0 <= i < rows.len() ==> platform_of(#[trigger] rows[i]@) is Some
    &&& ordered(platforms_of(rows))
    &&& distinct_names(platforms_of(rows))
}

/// The stored rows are a table of locations.
pub open spec fn readable_locations(rows: Seq<Vec<SqlValue>>) -> bool {
    &&& forall|i: int| 0 <= i < rows.len() ==> location_of(#[trigger] rows[i]@) is Some
    &&& ordered(locations_of(rows))
}

/// The stored rows are a table of saves.
pub open spec fn readable_saves(rows: Seq<Vec<SqlValue>>) -> bool {
    &&& forall|i: int| 0 <= i < rows.len() ==> save_of(#[trigger] rows[i]@) is Some
    &&& ordered(saves_of(rows))
}

/// The count in a column.
fn read_count(value: &SqlValue) -> (r: Option<i32>)
    ensures
        match r {
            Some(n) => as_count(*value) == Some(n as int),
            None => as_count(*value) is None,
        },
{
    match value {
        SqlValue::Integer(i) => {
            if 0 <= *i && *i <= 2147483647 {
                Some(*i as i32)
            } else {
                None
            }
        },
        _ => None,
    }
}

/// The identifier in a column.
fn read_id(value: &SqlValue) -> (r: Option<i32>)
    ensures
        match r {
            Some(id) => as_id(*value) == Some(id as int),
            None => as_id(*value) is None,
        },
{
    match value {
        SqlValue::Integer(i) => {
            if 1 <= *i && *i <= 2147483647 {
                Some(*i as i32)
            } else {
                None
            }
        },
        _ => None,
    }
}

/// The reference to another row in a column.
fn read_reference(value: &SqlValue) -> (r: Option<i32>)
    ensures
        match r {
            Some(id) => as_reference(*value) == Some(id as int),
            None => as_reference(*value) is None,
        },
{
    match value {
        SqlValue::Integer(i) => {
            if -2147483648 <= *i && *i <= 2147483647 {
                Some(*i as i32)
            } else {
                None
            }
        },
        _ => None,
    }
}

/// The text in a column.
fn read_text(value: &SqlValue) -> (r: String)
    ensures
        r@ == as_text(*value),
{
    match value {
        SqlValue::Text(s) => s.clone(),
        _ => String::new(),
    }
}

/// The release date in a column.
fn read_date(value: &SqlValue) -> (r: String)
    ensures
        r@ == as_date(*value),
{
    match value {
        SqlValue::Text(s) => s.clone(),
        SqlValue::Integer(i) => int_string(*i),
        _ => String::new(),
    }
}

/// The optional text in a column.
fn read_optional_text(value: &SqlValue) -> (r: Option<String>)
    ensures
        match r {
            Some(s) => as_optional_text(*value) == Some(s@),
            None => as_optional_text(*value) is None,
        },
{
    match value {
        SqlValue::Text(s) => Some(s.clone()),
        _ => None,
    }
}

/// The game in a stored row, or `None` where the row holds none.
pub fn decode_game(row: &Vec<SqlValue>) -> (r: Option<Game>)
    ensures
        match r {
            Some(g) => game_of(row@) == Some(g@),
            None => game_of(row@) is None,
        },
{
    if row.len() != 4 {
        return None;
    }
    match read_id(&row[0]) {
        Some(id) => Some(
            Game {
                id,
                title: read_text(&row[1]),
                publisher: read_text(&row[2]),
                release_date: read_date(&row[3]),
            },
        ),
        None => None,
    }
}

/// The platform in a stored row, or `None` where the row holds none.
pub fn decode_platform(row: &Vec<SqlValue>) -> (r: Option<Platform>)
    ensures
        match r {
            Some(p) => platform_of(row@) == Some(p@),
            None => platform_of(row@) is None,
        },
{
    if row.len() != 2 {
        return None;
    }
    match read_id(&row[0]) {
        Some(id) => Some(Platform { id, platform_name: read_text(&row[1]) }),
        None => None,
    }
}

/// The location in a stored row, or `None` where the row holds none.
pub fn decode_location(row: &Vec<SqlValue>) -> (r: Option<Location>)
    ensures
        match r {
            Some(l) => location_of(row@) == Some(l@),
            None => location_of(row@) is None,
        },
{
    if row.len() != 3 {
        return None;
    }
    match read_id(&row[0]) {
        Some(id) => Some(
            Location { id, location_path: read_text(&row[1]), description: read_text(&row[2]) },
        ),
        None => None,
    }
}

/// The save in a stored row, or `None` where the row holds none.
pub fn decode_save(row: &Vec<SqlValue>) -> (r: Option<Save>)
    ensures
        match r {
            Some(s) => save_of(row@) == Some(s@),
            None => save_of(row@) is None,
        },
{
    if row.len() != 5 {
        return None;
    }
    let id = match read_id(&row[0]) {
        Some(id) => id,
        None => { return None; },
    };
    let game_id = match read_reference(&row[1]) {
        Some(id) => id,
        None => { return None; },
    };
    let location_id = match read_reference(&row[2]) {
        Some(id) => id,
        None => { return None; },
    };
    let platform_id = match read_reference(&row[4]) {
        Some(id) => id,
        None => { return None; },
    };
    Some(Save { id, game_id, location_id, metadata: read_optional_text(&row[3]), platform_id })
}

/// The table of games in the stored rows, or `None` where they are none.
pub fn decode_games(rows: &Vec<Vec<SqlValue>>) -> (r: Option<Vec<Game>>)
    ensures
        r is Some <==> readable_games(rows@),
        r matches Some(games) ==> views(games@) == games_of(rows@),
{
    let mut out: Vec<Game> = Vec::new();
    let mut i: usize = 0;
    while i < rows.len()
        invariant
            i <= rows.len(),
            out.len() == i,
            forall|k: int| 0 <= k < i ==> game_of(#[trigger] rows@[k]@) == Some(out@[k]@),
            forall|a: int, b: int| 0 <= a < b < i ==> (#[trigger] out@[a]).id < (#[trigger] out@[b]).id,
        decreases rows.len() - i,
    {
        match decode_game(&rows[i]) {
            Some(game) => {
                if i > 0 && out[i - 1].id >= game.id {
                    proof {
                        if readable_games(rows@) {
                            let t = games_of(rows@);
                            assert(t[i - 1].key() < t[i as int].key());
                        }
                    }
                    return None;
                }
                out.push(game);
            },
            None => {
                return None;
            },
        }
        i = i + 1;
    }
    Some(out)
}

/// The table of platforms in the stored rows, or `None` where they are none.
pub fn decode_platforms(rows: &Vec<Vec<SqlValue>>) -> (r: Option<Vec<Platform>>)
    ensures
        r is Some <==> readable_platforms(rows@),
        r matches Some(platforms) ==> views(platforms@) == platforms_of(rows@),
{
    let mut out: Vec<Platform> = Vec::new();
    let mut i: usize = 0;
    while i < rows.len()
        invariant
            i <= rows.len(),
            out.len() == i,
            forall|k: int| 0 <= k < i ==> platform_of(#[trigger] rows@[k]@) == Some(out@[k]@),
            forall|a: int, b: int| 0 <= a < b < i ==> (#[trigger] out@[a]).id < (#[trigger] out@[b]).id,
            forall|a: int, b: int|
                0 <= a < b < i ==> (#[trigger] out@[a]).platform_name@ != (
                #[trigger] out@[b]).platform_name@,
        decreases rows.len() - i,
    {
        match decode_platform(&rows[i]) {
            Some(platform) => {
                if i > 0 && out[i - 1].id >= platform.id {
                    proof {
                        if readable_platforms(rows@) {
                            let t = platforms_of(rows@);
                            assert(t[i - 1].key() < t[i as int].key());
                        }
                    }
                    return None;
                }
                let mut k: usize = 0;
                while k < i
                    invariant
                        k <= i,
                        i < rows.len(),
                        out.len() == i,
                        platform_of(rows@[i as int]@) == Some(platform@),
                        forall|j: int|
                            0 <= j < i ==> platform_of(#[trigger] rows@[j]@) == Some(out@[j]@),
                        forall|j: int|
                            0 <= j < k ==> (#[trigger] out@[j]).platform_name@
                                != platform.platform_name@,
                    decreases i - k,
                {
                    if same_text(out[k].platform_name.as_str(), platform.platform_name.as_str()) {
                        proof {
                            if readable_platforms(rows@) {
                                let t = platforms_of(rows@);
                                assert(t[k as int].platform_name != t[i as int].platform_name);
                            }
                        }
                        return None;
                    }
                    k = k + 1;
                }
                out.push(platform);
            },
            None => {
                return None;
            },
        }
        i = i + 1;
    }
    Some(out)
}

/// The table of locations in the stored rows, or `None` where they are none.
pub fn decode_locations(rows: &Vec<Vec<SqlValue>>) -> (r: Option<Vec<Location>>)
    ensures
        r is Some <==> readable_locations(rows@),
        r matches Some(locations) ==> views(locations@) == locations_of(rows@),
{
    let mut out: Vec<Location> = Vec::new();
    let mut i: usize = 0;
    while i < rows.len()
        invariant
            i <= rows.len(),
            out.len() == i,
            forall|k: int| 0 <= k < i ==> location_of(#[trigger] rows@[k]@) == Some(out@[k]@),
            forall|a: int, b: int| 0 <= a < b < i ==> (#[trigger] out@[a]).id < (#[trigger] out@[b]).id,
        decreases rows.len() - i,
    {
        match decode_location(&rows[i]) {
            Some(location) => {
                if i > 0 && out[i - 1].id >= location.id {
                    proof {
                        if readable_locations(rows@) {
                            let t = locations_of(rows@);
                            assert(t[i - 1].key() < t[i as int].key());
                        }
                    }
                    return None;
                }
                out.push(location);
            },
            None => {
                return None;
            },
        }
        i = i + 1;
    }
    Some(out)
}

/// The table of saves in the stored rows, or `None` where they are none.
pub fn decode_saves(rows: &Vec<Vec<SqlValue>>) -> (r: Option<Vec<Save>>)
    ensures
        r is Some <==> readable_saves(rows@),
        r matches Some(saves) ==> views(saves@) == saves_of(rows@),
{
    let mut out: Vec<Save> = Vec::new();
    let mut i: usize = 0;
    while i < rows.len()
        invariant
            i <= rows.len(),
            out.len() == i,
            forall|k: int| 0 <= k < i ==> save_of(#[trigger] rows@[k]@) == Some(out@[k]@),
            forall|a: int, b: int| 0 <= a < b < i ==> (#[trigger] out@[a]).id < (#[trigger] out@[b]).id,
        decreases rows.len() - i,
    {
        match decode_save(&rows[i]) {
            Some(save) => {
                if i > 0 && out[i - 1].id >= save.id {
                    proof {
                        if readable_saves(rows@) {
                            let t = saves_of(rows@);
                            assert(t[i - 1].key() < t[i as int].key());
                        }
                    }
                    return None;
                }
                out.push(save);
            },
            None => {
                return None;
            },
        }
        i = i + 1;
    }
    Some(out)
}

/// The counts in the stored rows, or `None` where they hold none.
pub fn decode_issued(rows: &Vec<Vec<SqlValue>>) -> (r: Option<Issued>)
    ensures
        r == issued_of(rows@),
        r matches Some(issued) ==> 0 <= issued.games && 0 <= issued.platforms && 0
            <= issued.locations && 0 <= issued.saves,
{
    if rows.len() != 1 || rows[0].len() != 4 {
        return None;
    }
    let row = &rows[0];
    let games = match read_count(&row[0]) {
        Some(n) => n,
        None => {
            return None;
        },
    };
    let platforms = match read_count(&row[1]) {
        Some(n) => n,
        None => {
            return None;
        },
    };
    let locations = match read_count(&row[2]) {
        Some(n) => n,
        None => {
            return None;
        },
    };
    let saves = match read_count(&row[3]) {
        Some(n) => n,
        None => {
            return None;
        },
    };
    Some(Issued { games, platforms, locations, saves })
}

/// The column holds the integer `i`.
pub open spec fn holds_int(value: SqlValue, i: int) -> bool {
    value matches SqlValue::Integer(held) && held == i
}

/// The column holds the text `t`.
pub open spec fn holds_text(value: SqlValue, t: Seq<char>) -> bool {
    value matches SqlValue::Text(held) && held@ == t
}

/// The arguments that store a game: identifier, title, publisher and
/// release date. With an identifier that a game can have they are a stored
/// row that holds this game.
pub fn encode_game(id: i32, title: &str, publisher: &str, release_date: &str) -> (args: Vec<
    SqlValue,
>)
    ensures
        args@.len() == 4,
        holds_int(args@[0], id as int),
        holds_text(args@[1], title@),
        holds_text(args@[2], publisher@),
        holds_text(args@[3], release_date@),
        forall|i: int| 0 <= i < args.len() ==> bindable(#[trigger] args[i]),
        1 <= id ==> game_of(args@) == Some(
            GameView {
                id: id as int,
                title: title@,
                publisher: publisher@,
                release_date: release_date@,
            },
        ),
{
    let mut args: Vec<SqlValue> = Vec::new();
    args.push(SqlValue::Integer(id as i64));
    args.push(SqlValue::Text(String::from_str(title)));
    args.push(SqlValue::Text(String::from_str(publisher)));
    args.push(SqlValue::Text(String::from_str(release_date)));
    args
}

/// The arguments that store a platform: identifier and name.
pub fn encode_platform(id: i32, platform_name: &str) -> (args: Vec<SqlValue>)
    ensures
        args@.len() == 2,
        holds_int(args@[0], id as int),
        holds_text(args@[1], platform_name@),
        forall|i: int| 0 <= i < args.len() ==> bindable(#[trigger] args[i]),
        1 <= id ==> platform_of(args@) == Some(
            PlatformView { id: id as int, platform_name: platform_name@ },
        ),
{
    let mut args: Vec<SqlValue> = Vec::new();
    args.push(SqlValue::Integer(id as i64));
    args.push(SqlValue::Text(String::from_str(platform_name)));
    args
}

/// The arguments that store a location: identifier, path and description.
pub fn encode_location(id: i32, location_path: &str, description: &str) -> (args: Vec<SqlValue>)
    ensures
        args@.len() == 3,
        holds_int(args@[0], id as int),
        holds_text(args@[1], location_path@),
        holds_text(args@[2], description@),
        forall|i: int| 0 <= i < args.len() ==> bindable(#[trigger] args[i]),
        1 <= id ==> location_of(args@) == Some(
            LocationView {
                id: id as int,
                location_path: location_path@,
                description: description@,
            },
        ),
{
    let mut args: Vec<SqlValue> = Vec::new();
    args.push(SqlValue::Integer(id as i64));
    args.push(SqlValue::Text(String::from_str(location_path)));
    args.push(SqlValue::Text(String::from_str(description)));
    args
}

/// The arguments that store a save: identifier, game, location, metadata
/// and platform.
pub fn encode_save(id: i32, game_id: i32, location_id: i32, metadata: &str, platform_id: i32) -> (args:
    Vec<SqlValue>)
    ensures
        args@.len() == 5,
        holds_int(args@[0], id as int),
        holds_int(args@[1], game_id as int),
        holds_int(args@[2], location_id as int),
        holds_text(args@[3], metadata@),
        holds_int(args@[4], platform_id as int),
        forall|i: int| 0 <= i < args.len() ==> bindable(#[trigger] args[i]),
        1 <= id ==> save_of(args@) == Some(
            SaveView {
                id: id as int,
                game_id: game_id as int,
                location_id: location_id as int,
                metadata: Some(metadata@),
                platform_id: platform_id as int,
            },
        ),
{
    let mut args: Vec<SqlValue> = Vec::new();
    args.push(SqlValue::Integer(id as i64));
    args.push(SqlValue::Integer(game_id as i64));
    args.push(SqlValue::Integer(location_id as i64));
    args.push(SqlValue::Text(String::from_str(metadata)));
    args.push(SqlValue::Integer(platform_id as i64));
    args
}

/// The arguments that overwrite a game: title, publisher, release date,
/// and the identifier of the game last.
pub fn encode_game_update(id: i32, title: &str, publisher: &str, release_date: &str) -> (args: Vec<
    SqlValue,
>)
    ensures
        args@.len() == 4,
        holds_text(args@[0], title@),
        holds_text(args@[1], publisher@),
        holds_text(args@[2], release_date@),
        holds_int(args@[3], id as int),
        forall|i: int| 0 <= i < args.len() ==> bindable(#[trigger] args[i]),
{
    let mut args: Vec<SqlValue> = Vec::new();
    args.push(SqlValue::Text(String::from_str(title)));
    args.push(SqlValue::Text(String::from_str(publisher)));
    args.push(SqlValue::Text(String::from_str(release_date)));
    args.push(SqlValue::Integer(id as i64));
    args
}

/// The one argument that names a row: its identifier.
pub fn encode_id(id: i32) -> (args: Vec<SqlValue>)
    ensures
        args@.len() == 1,
        holds_int(args@[0], id as int),
        forall|i: int| 0 <= i < args.len() ==> bindable(#[trigger] args[i]),
{
    let mut args: Vec<SqlValue> = Vec::new();
    args.push(SqlValue::Integer(id as i64));
    args
}

} // verus!
