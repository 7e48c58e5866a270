use sharks_safe_haven::filesystem::{Entry, Filesystem, FsOp};
use std::collections::BTreeMap;

fn file(name: &str) -> Entry {
    Entry::File { name: name.to_string() }
}

fn dir(name: &str, entries: Vec<Entry>) -> Entry {
    Entry::Dir { name: name.to_string(), entries }
}

fn other(name: &str) -> Entry {
    Entry::Other { name: name.to_string() }
}

fn ensure(path: &str) -> FsOp {
    FsOp::EnsureDir { path: path.to_string() }
}

fn copy(from: &str, to: &str) -> FsOp {
    FsOp::CopyFile { from: from.to_string(), to: to.to_string() }
}

fn remove_file(path: &str) -> FsOp {
    FsOp::RemoveFile { path: path.to_string() }
}

fn remove_dir(path: &str) -> FsOp {
    FsOp::RemoveDir { path: path.to_string() }
}

/// A listing with nested directories, an empty directory and an entry that
/// is neither file nor directory.
fn listing() -> Vec<Entry> {
    vec![
        file("slot1.sav"),
        dir("profiles", vec![file("a.cfg"), dir("old", vec![file("b.cfg")]), dir("empty", vec![])]),
        other("socket"),
        file("slot2.sav"),
    ]
}

#[derive(Clone, Debug, PartialEq, Eq)]
enum Node {
    Dir,
    File(String),
}

/// A disk that holds what the listing describes below `root`; the content of
/// each file is its path below `root`.
fn disk_with(root: &str, entries: &[Entry], prefix: &str, disk: &mut BTreeMap<String, Node>) {
    disk.insert(format!("{root}{prefix}"), Node::Dir);
    for entry in entries {
        match entry {
            Entry::File { name } => {
                disk.insert(format!("{root}{prefix}/{name}"), Node::File(format!("{prefix}/{name}")));
            }
            Entry::Dir { name, entries } => {
                disk_with(root, entries, &format!("{prefix}/{name}"), disk);
            }
            Entry::Other { .. } => {}
        }
    }
}

fn run(ops: &[FsOp], disk: &mut BTreeMap<String, Node>) {
    for op in ops {
        match op {
            FsOp::EnsureDir { path } => {
                disk.insert(path.clone(), Node::Dir);
            }
            FsOp::CopyFile { from, to } => {
                let parent = &to[..to.rfind('/').unwrap()];
                assert_eq!(disk.get(parent), Some(&Node::Dir), "no directory for {to}");
                let content = disk.get(from).cloned().expect("the source file exists");
                assert!(matches!(content, Node::File(_)));
                disk.insert(to.clone(), content);
            }
            FsOp::RemoveFile { path } => {
                assert!(disk.remove(path).is_some(), "nothing to remove at {path}");
            }
            FsOp::RemoveDir { path } => {
                let below = format!("{path}/");
                assert!(!disk.keys().any(|k| k.starts_with(&below)), "{path} is not empty");
                assert_eq!(disk.remove(path), Some(Node::Dir));
            }
        }
    }
}

fn below(root: &str, disk: &BTreeMap<String, Node>) -> BTreeMap<String, Node> {
    disk.iter()
        .filter(|(path, _)| path.starts_with(root))
        .map(|(path, node)| (path[root.len()..].to_string(), node.clone()))
        .collect()
}

#[test]
fn new_mirrors_are_all_alike() {
    assert_eq!(Filesystem::new(), Filesystem::new());
}

#[test]
fn copy_files_lists_the_steps_in_order() {
    let ops = Filesystem::new().copy_files(&listing(), "/saves/ct", "backups/1/1/1/");
    assert_eq!(
        ops,
        vec![
            ensure("backups/1/1/1/"),
            copy("/saves/ct/slot1.sav", "backups/1/1/1/slot1.sav"),
            ensure("backups/1/1/1/profiles"),
            copy("/saves/ct/profiles/a.cfg", "backups/1/1/1/profiles/a.cfg"),
            ensure("backups/1/1/1/profiles/old"),
            copy("/saves/ct/profiles/old/b.cfg", "backups/1/1/1/profiles/old/b.cfg"),
            ensure("backups/1/1/1/profiles/empty"),
            copy("/saves/ct/slot2.sav", "backups/1/1/1/slot2.sav"),
        ]
    );
}

#[test]
fn copy_files_of_an_empty_directory_only_makes_the_destination() {
    let ops = Filesystem::new().copy_files(&Vec::new(), "/saves/none", "/backup/none");
    assert_eq!(ops, vec![ensure("/backup/none")]);
}

#[test]
fn a_copied_tree_equals_its_source() {
    let mut disk = BTreeMap::new();
    disk_with("/src", &listing(), "", &mut disk);
    let before = below("/src", &disk);
    let ops = Filesystem::new().copy_files(&listing(), "/src", "/dst");
    run(&ops, &mut disk);
    assert_eq!(below("/dst", &disk), before);
    assert_eq!(below("/src", &disk), before);
    assert_eq!(disk.get("/dst/profiles/empty"), Some(&Node::Dir));
    assert_eq!(
        disk.get("/dst/profiles/old/b.cfg"),
        Some(&Node::File("/profiles/old/b.cfg".to_string()))
    );
}

#[test]
fn delete_files_removes_what_a_directory_holds_before_the_directory() {
    let ops = Filesystem::new().delete_files(&listing(), "backups/1/1/1/");
    assert_eq!(
        ops,
        vec![
            remove_file("backups/1/1/1/slot1.sav"),
            remove_file("backups/1/1/1/profiles/a.cfg"),
            remove_file("backups/1/1/1/profiles/old/b.cfg"),
            remove_dir("backups/1/1/1/profiles/old"),
            remove_dir("backups/1/1/1/profiles/empty"),
            remove_dir("backups/1/1/1/profiles"),
            remove_file("backups/1/1/1/socket"),
            remove_file("backups/1/1/1/slot2.sav"),
            remove_dir("backups/1/1/1/"),
        ]
    );
}

#[test]
fn a_deleted_tree_is_gone_with_its_root() {
    let entries =
        vec![file("a"), dir("d", vec![file("b"), dir("e", vec![])]), dir("f", vec![file("c")])];
    let mut disk = BTreeMap::new();
    disk_with("/gone", &entries, "", &mut disk);
    disk.insert("/stays".to_string(), Node::Dir);
    let ops = Filesystem::new().delete_files(&entries, "/gone");
    run(&ops, &mut disk);
    assert_eq!(disk.keys().collect::<Vec<_>>(), vec!["/stays"]);
}

#[test]
fn delete_files_of_an_empty_directory_removes_the_directory() {
    let ops = Filesystem::new().delete_files(&Vec::new(), "/backup/none");
    assert_eq!(ops, vec![remove_dir("/backup/none")]);
}
