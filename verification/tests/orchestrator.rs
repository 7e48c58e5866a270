use sharks_safe_haven::db::{Db, DbError, Game, Location, Platform, Save};
use sharks_safe_haven::filesystem::{Entry, Filesystem, FsOp};
use sharks_safe_haven::game_saves::{
    file_wanted, restore_choice, restore_files, AddError, AddStep, BackupJob, BackupOutcome,
    EditOutcome, GameSaves, RemoveStep, RestoreChoice, RestoreOffer,
};

fn fresh() -> GameSaves {
    GameSaves::new(Db::new(":memory:").unwrap(), Filesystem::new())
}

fn with_chrono_trigger() -> (GameSaves, BackupJob) {
    let mut saves = fresh();
    let job = saves
        .add_game_save("Chrono Trigger", "Square", "1995-03-11", "SNES", "/saves/ct")
        .unwrap();
    (saves, job)
}

#[test]
fn add_creates_the_four_rows_and_names_the_backup() {
    let (saves, job) = with_chrono_trigger();
    assert_eq!(
        job,
        BackupJob {
            game_id: 1,
            platform_id: 1,
            location_id: 1,
            save_id: 1,
            source: "/saves/ct".to_string(),
            backup_dir: "backups/1/1/1/".to_string(),
        }
    );
    let db = saves.db();
    assert_eq!(
        db.get_all_games(),
        vec![Game {
            id: 1,
            title: "Chrono Trigger".to_string(),
            publisher: "Square".to_string(),
            release_date: "1995-03-11".to_string(),
        }]
    );
    assert_eq!(db.get_all_platforms(), vec![Platform { id: 1, platform_name: "SNES".to_string() }]);
    assert_eq!(
        db.get_all_locations(),
        vec![Location {
            id: 1,
            location_path: "/saves/ct".to_string(),
            description: String::new(),
        }]
    );
    assert_eq!(
        db.get_saves_by_game_id(1),
        vec![Save {
            id: 1,
            game_id: 1,
            location_id: 1,
            metadata: Some(String::new()),
            platform_id: 1,
        }]
    );
}

#[test]
fn the_backup_of_an_added_save_copies_every_file_of_its_location() {
    let (saves, job) = with_chrono_trigger();
    let found = vec![
        Entry::File { name: "slot1.sav".to_string() },
        Entry::Dir {
            name: "extra".to_string(),
            entries: vec![Entry::File { name: "slot2.sav".to_string() }],
        },
    ];
    let ops = saves.filesystem().copy_files(&found, &job.source, &job.backup_dir);
    assert_eq!(
        ops,
        vec![
            FsOp::EnsureDir { path: "backups/1/1/1/".to_string() },
            FsOp::CopyFile {
                from: "/saves/ct/slot1.sav".to_string(),
                to: "backups/1/1/1/slot1.sav".to_string(),
            },
            FsOp::EnsureDir { path: "backups/1/1/1/extra".to_string() },
            FsOp::CopyFile {
                from: "/saves/ct/extra/slot2.sav".to_string(),
                to: "backups/1/1/1/extra/slot2.sav".to_string(),
            },
        ]
    );
}

#[test]
fn a_second_save_on_the_same_platform_shares_the_platform_only() {
    let (mut saves, _) = with_chrono_trigger();
    let job = saves.add_game_save("Secret of Mana", "Square", "1993-08-06", "SNES", "/saves/som").unwrap();
    assert_eq!((job.game_id, job.platform_id, job.location_id, job.save_id), (2, 1, 2, 2));
    assert_eq!(job.backup_dir, "backups/2/1/2/");
    assert_eq!(saves.db().get_all_platforms().len(), 1);
    assert_eq!(saves.db().get_all_locations().len(), 2);
}

#[test]
fn add_stops_at_the_step_that_fails_and_keeps_what_was_done() {
    let name = "file:addstops?mode=memory&cache=shared";
    let mut saves = GameSaves::new(Db::new(name).unwrap(), Filesystem::new());
    let raw = rusqlite::Connection::open(name).unwrap();
    raw.execute("INSERT INTO Location (id, location_path) VALUES (1, 'behind the back')", ())
        .unwrap();
    let outcome: Result<BackupJob, AddError> =
        saves.add_game_save("Doom", "id Software", "1993-12-10", "PC", "/saves/doom");
    let error = outcome.err().unwrap();
    assert_eq!(error.step, AddStep::Location);
    assert!(matches!(error.cause, DbError::Storage(_)));
    assert_eq!(error.message(), "Failed to insert location");
    assert_eq!(saves.db().get_all_games().len(), 1);
    assert_eq!(saves.db().get_all_platforms().len(), 1);
    assert!(saves.db().get_all_locations().is_empty());
    assert!(saves.db().get_all_saves().is_empty());
}

#[test]
fn each_failed_step_has_its_message() {
    let at = |step| AddError { step, cause: DbError::IdsExhausted }.message();
    assert_eq!(at(AddStep::Game), "Failed to insert game");
    assert_eq!(at(AddStep::Platform), "Failed to insert platform");
    assert_eq!(at(AddStep::Location), "Failed to insert location");
    assert_eq!(at(AddStep::Save), "Failed to insert save");
}

#[test]
fn edit_with_only_a_publisher_updates_only_the_publisher() {
    let (mut saves, job) = with_chrono_trigger();
    let outcome = saves.edit_game_save(job.game_id, "", "Squaresoft", "").unwrap();
    assert_eq!(outcome, EditOutcome::Updated);
    assert_eq!(
        saves.db().get_game(job.game_id),
        Some(Game {
            id: 1,
            title: "Chrono Trigger".to_string(),
            publisher: "Squaresoft".to_string(),
            release_date: "1995-03-11".to_string(),
        })
    );
}

#[test]
fn edit_with_every_field_replaces_every_field() {
    let (mut saves, _) = with_chrono_trigger();
    let outcome = saves.edit_game_save(1, "Chrono Cross", "Square Enix", "1999-11-18").unwrap();
    assert_eq!(outcome, EditOutcome::Updated);
    let game = saves.db().get_game(1).unwrap();
    assert_eq!(
        (game.title.as_str(), game.publisher.as_str(), game.release_date.as_str()),
        ("Chrono Cross", "Square Enix", "1999-11-18")
    );
}

#[test]
fn edit_without_any_input_changes_nothing() {
    let (mut saves, _) = with_chrono_trigger();
    let before = saves.db().get_all_games();
    assert_eq!(saves.edit_game_save(1, "", "", "").unwrap(), EditOutcome::Unchanged);
    assert_eq!(saves.db().get_all_games(), before);
}

#[test]
fn edit_of_a_missing_game_says_so() {
    let (mut saves, _) = with_chrono_trigger();
    assert_eq!(saves.edit_game_save(5, "x", "y", "z").unwrap(), EditOutcome::GameNotFound);
    assert_eq!(saves.db().get_all_games().len(), 1);
}

/// Runs the removal of a game to its end; `present` says for each save, in
/// turn, whether its backup directory exists.
fn remove(saves: &mut GameSaves, game_id: i32, present: &[bool]) -> (Vec<String>, RemoveStep) {
    let mut reports = Vec::new();
    let mut asked = 0;
    loop {
        match saves.remove_game_save(game_id).unwrap() {
            RemoveStep::DeleteBackup { save_id, backup_dir } => {
                let outcome = if present[asked] { BackupOutcome::Deleted } else { BackupOutcome::Missing };
                asked += 1;
                reports.push(backup_dir);
                reports.push(saves.backup_removed(save_id, outcome).unwrap().unwrap());
            }
            last => return (reports, last),
        }
    }
}

#[test]
fn remove_after_add_leaves_no_game() {
    let (mut saves, job) = with_chrono_trigger();
    let (reports, last) = remove(&mut saves, job.game_id, &[true]);
    assert_eq!(
        reports,
        vec!["backups/1/1/1/".to_string(), "Game save for 'Chrono Trigger' deleted".to_string()]
    );
    assert_eq!(last, RemoveStep::Removed { title: "Chrono Trigger".to_string() });
    assert_eq!(saves.db().get_game(job.game_id), None);
    assert!(saves.db().get_all_saves().is_empty());
    assert!(saves.db().get_all_locations().is_empty());
    assert_eq!(saves.db().get_all_platforms().len(), 1);
}

#[test]
fn remove_without_a_backup_directory_reports_it_and_still_deletes_the_rows() {
    let (mut saves, job) = with_chrono_trigger();
    saves.add_game_save("Secret of Mana", "Square", "1993-08-06", "SNES", "/saves/som").unwrap();
    let db_save = saves.db().get_saves_by_game_id(job.game_id);
    assert_eq!(db_save.len(), 1);
    let (reports, last) = remove(&mut saves, job.game_id, &[false]);
    assert_eq!(
        reports,
        vec!["backups/1/1/1/".to_string(), "No save files found for 'Chrono Trigger'".to_string()]
    );
    assert_eq!(last, RemoveStep::Removed { title: "Chrono Trigger".to_string() });
    assert_eq!(saves.db().get_game(1), None);
    assert_eq!(saves.db().get_save_row(1), None);
    assert_eq!(saves.db().get_location(1), None);
    assert_eq!(saves.db().get_game(2).unwrap().title, "Secret of Mana");
    assert_eq!(saves.db().get_save_row(2).unwrap().game_id, 2);
    assert_eq!(saves.db().get_location(2).unwrap().location_path, "/saves/som");
}

#[test]
fn remove_takes_the_saves_of_a_game_one_by_one() {
    let mut saves = fresh();
    let mut db = Db::new(":memory:").unwrap();
    let game = db.insert_game("Doom", "id Software", "1993-12-10").unwrap();
    let pc = db.insert_platform("PC").unwrap();
    let mac = db.insert_platform("Mac").unwrap();
    let here = db.insert_location("/here", "").unwrap();
    let there = db.insert_location("/there", "").unwrap();
    db.insert_save(game, here, "", pc).unwrap();
    db.insert_save(game, there, "", mac).unwrap();
    assert!(saves.db().get_all_games().is_empty());
    let mut saves = GameSaves::new(db, Filesystem::new());
    let (reports, last) = remove(&mut saves, game, &[true, false]);
    assert_eq!(
        reports,
        vec![
            "backups/1/1/1/".to_string(),
            "Game save for 'Doom' deleted".to_string(),
            "backups/1/2/2/".to_string(),
            "No save files found for 'Doom'".to_string(),
        ]
    );
    assert_eq!(last, RemoveStep::Removed { title: "Doom".to_string() });
    assert!(saves.db().get_all_games().is_empty());
    assert!(saves.db().get_all_saves().is_empty());
    assert!(saves.db().get_all_locations().is_empty());
    assert_eq!(saves.db().get_all_platforms().len(), 2);
}

#[test]
fn remove_of_a_missing_game_does_nothing() {
    let (mut saves, _) = with_chrono_trigger();
    assert_eq!(saves.remove_game_save(9).unwrap(), RemoveStep::GameNotFound);
    assert_eq!(saves.db().get_all_games().len(), 1);
    assert_eq!(saves.db().get_all_saves().len(), 1);
}

#[test]
fn backup_removed_of_a_missing_save_reports_nothing() {
    let (mut saves, _) = with_chrono_trigger();
    assert_eq!(saves.backup_removed(9, BackupOutcome::Deleted).unwrap(), None);
    assert_eq!(saves.db().get_all_saves().len(), 1);
    assert_eq!(saves.db().get_all_locations().len(), 1);
}

#[test]
fn a_failed_backup_deletion_leaves_the_catalog_to_try_again() {
    let (mut saves, job) = with_chrono_trigger();
    let first = saves.remove_game_save(job.game_id).unwrap();
    let again = saves.remove_game_save(job.game_id).unwrap();
    assert_eq!(first, again);
    assert_eq!(
        first,
        RemoveStep::DeleteBackup { save_id: 1, backup_dir: "backups/1/1/1/".to_string() }
    );
    assert!(saves.db().get_game(job.game_id).is_some());
    assert_eq!(saves.db().get_all_saves().len(), 1);
}

#[test]
fn restore_offers_one_backup_for_each_save() {
    let (mut saves, _) = with_chrono_trigger();
    saves.add_game_save("Doom", "id Software", "1993-12-10", "PC", "/saves/doom").unwrap();
    assert_eq!(
        saves.restore_game_save(2),
        Some(vec![RestoreOffer {
            save_id: 2,
            platform_name: Some("PC".to_string()),
            live_path: Some("/saves/doom".to_string()),
            backup_dir: "backups/2/2/2/".to_string(),
        }])
    );
    assert_eq!(saves.restore_game_save(3), None);
}

#[test]
fn restore_offers_no_name_and_no_path_for_rows_that_are_gone() {
    let mut db = Db::new(":memory:").unwrap();
    db.insert_game("Doom", "id Software", "1993-12-10").unwrap();
    db.insert_save(1, 4, "", 5).unwrap();
    let saves = GameSaves::new(db, Filesystem::new());
    let offers = saves.restore_game_save(1).unwrap();
    assert_eq!(
        offers,
        vec![RestoreOffer {
            save_id: 1,
            platform_name: None,
            live_path: None,
            backup_dir: "backups/1/5/1/".to_string(),
        }]
    );
    let names = vec!["a.sav".to_string()];
    assert_eq!(restore_files(&offers[0], &names, &vec![true]), None);
    let found = vec![Entry::File { name: "a.sav".to_string() }];
    assert_eq!(saves.restore_all(&offers[0], &found), None);
}

#[test]
fn restore_of_a_game_without_saves_offers_nothing() {
    let mut db = Db::new(":memory:").unwrap();
    db.insert_game("Doom", "id Software", "1993-12-10").unwrap();
    let saves = GameSaves::new(db, Filesystem::new());
    assert_eq!(saves.restore_game_save(1), Some(Vec::new()));
}

#[test]
fn answers_choose_what_to_restore() {
    assert_eq!(restore_choice("Y"), RestoreChoice::FileByFile);
    assert_eq!(restore_choice(""), RestoreChoice::FileByFile);
    assert_eq!(restore_choice("a"), RestoreChoice::WholeTree);
    assert_eq!(restore_choice("n"), RestoreChoice::Nothing);
    assert_eq!(restore_choice("y"), RestoreChoice::Nothing);
    assert_eq!(restore_choice("A"), RestoreChoice::Nothing);
    assert_eq!(restore_choice("Yes"), RestoreChoice::Nothing);
}

#[test]
fn a_file_is_wanted_only_where_it_is_confirmed() {
    assert!(file_wanted(RestoreChoice::FileByFile, "y"));
    assert!(file_wanted(RestoreChoice::FileByFile, "Y"));
    assert!(!file_wanted(RestoreChoice::FileByFile, ""));
    assert!(!file_wanted(RestoreChoice::FileByFile, "n"));
    assert!(!file_wanted(RestoreChoice::FileByFile, "yes"));
    assert!(!file_wanted(restore_choice(""), "n"));
    assert!(!file_wanted(restore_choice(""), ""));
    assert!(file_wanted(restore_choice(""), "y"));
    assert!(!file_wanted(RestoreChoice::WholeTree, "y"));
    assert!(!file_wanted(RestoreChoice::Nothing, "y"));
}

fn offer() -> RestoreOffer {
    RestoreOffer {
        save_id: 1,
        platform_name: Some("SNES".to_string()),
        live_path: Some("/saves/ct".to_string()),
        backup_dir: "backups/1/1/1/".to_string(),
    }
}

#[test]
fn restore_files_copies_only_the_confirmed_files() {
    let names = vec!["a.sav".to_string(), "b.sav".to_string(), "c.sav".to_string()];
    let ops = restore_files(&offer(), &names, &vec![true, false, true]);
    assert_eq!(
        ops,
        Some(vec![
            FsOp::CopyFile {
                from: "backups/1/1/1/a.sav".to_string(),
                to: "/saves/ct/a.sav".to_string(),
            },
            FsOp::CopyFile {
                from: "backups/1/1/1/c.sav".to_string(),
                to: "/saves/ct/c.sav".to_string(),
            },
        ])
    );
}

#[test]
fn the_default_answer_copies_only_the_confirmed_files() {
    let choice = restore_choice("");
    let names = vec!["a.sav".to_string(), "b.sav".to_string(), "c.sav".to_string()];
    let wanted: Vec<bool> = ["n", "y", ""].iter().map(|answer| file_wanted(choice, answer)).collect();
    assert_eq!(wanted, vec![false, true, false]);
    assert_eq!(
        restore_files(&offer(), &names, &wanted),
        Some(vec![FsOp::CopyFile {
            from: "backups/1/1/1/b.sav".to_string(),
            to: "/saves/ct/b.sav".to_string(),
        }])
    );
}

#[test]
fn restore_files_takes_a_missing_answer_for_no() {
    let names = vec!["a.sav".to_string(), "b.sav".to_string()];
    assert_eq!(restore_files(&offer(), &names, &vec![false]), Some(Vec::new()));
    assert_eq!(restore_files(&offer(), &names, &Vec::new()), Some(Vec::new()));
    assert_eq!(restore_files(&offer(), &Vec::new(), &vec![true, true]), Some(Vec::new()));
    assert_eq!(restore_files(&offer(), &names, &vec![false, true, true]).unwrap().len(), 1);
}

#[test]
fn restore_all_copies_the_backup_tree_into_the_live_path() {
    let (saves, _) = with_chrono_trigger();
    let found = vec![
        Entry::Dir { name: "empty".to_string(), entries: Vec::new() },
        Entry::File { name: "slot1.sav".to_string() },
    ];
    assert_eq!(
        saves.restore_all(&offer(), &found),
        Some(vec![
            FsOp::EnsureDir { path: "/saves/ct".to_string() },
            FsOp::EnsureDir { path: "/saves/ct/empty".to_string() },
            FsOp::CopyFile {
                from: "backups/1/1/1/slot1.sav".to_string(),
                to: "/saves/ct/slot1.sav".to_string(),
            },
        ])
    );
}
