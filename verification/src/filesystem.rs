//! The filesystem mirror: what to do on disk to copy a directory tree, and
//! what to do to delete one.
//!
//! The mirror itself touches no file. It is handed the listing of a
//! directory tree and answers with the steps, in order, that copy or delete
//! it; whoever holds the disk carries them out and stops at the first that
//! fails.

use crate::table::views;
use vstd::prelude::*;
use vstd::std_specs::iter::IteratorSpec;
use vstd::string::StringExecFns;

verus! {

/// One entry of a listed directory, with everything below it.
#[derive(Debug, PartialEq, Eq)]
pub enum Entry {
    /// A regular file.
    File { name: String },
    /// A directory and its entries.
    Dir { name: String, entries: Vec<Entry> },
    /// Anything else: a link that leads nowhere, a socket, a device.
    Other { name: String },
}

/// An `Entry` as a plain value.
pub enum Tree {
    File(Seq<char>),
    Dir(Seq<char>, Seq<Tree>),
    Other(Seq<char>),
}

/// One step on disk.
#[derive(Debug, PartialEq, Eq)]
pub enum FsOp {
    /// Create the directory and its missing parents, unless it exists.
    EnsureDir { path: String },
    /// Copy the content of the file `from` into the file `to`.
    CopyFile { from: String, to: String },
    /// Remove the file, or the entry that is no directory.
    RemoveFile { path: String },
    /// Remove the directory, which is empty by then.
    RemoveDir { path: String },
}

/// An `FsOp` as a plain value.
pub enum Step {
    EnsureDir(Seq<char>),
    CopyFile(Seq<char>, Seq<char>),
    RemoveFile(Seq<char>),
    RemoveDir(Seq<char>),
}

/// The entry as a plain value, with everything below it.
pub open spec fn tree_of(entry: Entry) -> Tree
    decreases entry,
{
    match entry {
        Entry::File { name } => Tree::File(name@),
        Entry::Dir { name, entries } => Tree::Dir(
            name@,
            Seq::new(
                entries@.len(),
                |i: int|
                    if 0 <= i < entries@.len() {
                        tree_of(entries@[i])
                    } else {
                        Tree::Other(Seq::empty())
                    },
            ),
        ),
        Entry::Other { name } => Tree::Other(name@),
    }
}

impl View for Entry {
    type V = Tree;

    open spec fn view(&self) -> Tree {
        tree_of(*self)
    }
}

impl View for FsOp {
    type V = Step;

    open spec fn view(&self) -> Step {
        match self {
            FsOp::EnsureDir { path } => Step::EnsureDir(path@),
            FsOp::CopyFile { from, to } => Step::CopyFile(from@, to@),
            FsOp::RemoveFile { path } => Step::RemoveFile(path@),
            FsOp::RemoveDir { path } => Step::RemoveDir(path@),
        }
    }
}

/// The path of the entry `name` of the directory `dir`: the two with one
/// slash between them, and `name` alone in the empty directory path.
pub open spec fn join(dir: Seq<char>, name: Seq<char>) -> Seq<char> {
    if dir.len() == 0 {
        name
    } else if dir.last() == '/' {
        dir + name
    } else {
        dir + seq!['/'] + name
    }
}

/// The path that the names in `rel` lead to, one after the other, from
/// `base`.
pub open spec fn under(base: Seq<char>, rel: Seq<Seq<char>>) -> Seq<char>
    decreases rel.len(),
{
    if rel.len() == 0 {
        base
    } else {
        under(join(base, rel[0]), rel.drop_first())
    }
}

/// The steps that copy the listed entries of `source` into `dest`: first
/// `dest` is made sure of, then each entry is copied, in the order of the
/// listing.
pub open spec fn copy_plan(entries: Seq<Tree>, source: Seq<char>, dest: Seq<char>) -> Seq<Step>
    decreases entries, entries.len() + 1,
{
    seq![Step::EnsureDir(dest)] + copy_first(entries, entries.len(), source, dest)
}

/// The steps that copy the first `n` listed entries of `source` into `dest`.
pub open spec fn copy_first(entries: Seq<Tree>, n: nat, source: Seq<char>, dest: Seq<char>) -> Seq<
    Step,
>
    decreases entries, n,
{
    if n == 0 || n > entries.len() {
        Seq::empty()
    } else {
        copy_first(entries, (n - 1) as nat, source, dest) + copy_entry(
            entries[n - 1],
            source,
            dest,
        )
    }
}

/// The steps that copy one entry of `source` into `dest`: a file is copied
/// under its name, a directory is copied as a tree of its own, and anything
/// else is passed over.
pub open spec fn copy_entry(entry: Tree, source: Seq<char>, dest: Seq<char>) -> Seq<Step>
    decreases entry,
{
    match entry {
        Tree::File(name) => seq![Step::CopyFile(join(source, name), join(dest, name))],
        Tree::Dir(name, entries) => copy_plan(entries, join(source, name), join(dest, name)),
        Tree::Other(_) => Seq::empty(),
    }
}

/// The steps that delete the directory `dir` with the listed entries: each
/// entry is deleted, in the order of the listing, and then `dir` itself.
pub open spec fn delete_plan(entries: Seq<Tree>, dir: Seq<char>) -> Seq<Step>
    decreases entries, entries.len() + 1,
{
    delete_first(entries, entries.len(), dir) + seq![Step::RemoveDir(dir)]
}

/// The steps that delete the first `n` listed entries of `dir`.
pub open spec fn delete_first(entries: Seq<Tree>, n: nat, dir: Seq<char>) -> Seq<Step>
    decreases entries, n,
{
    if n == 0 || n > entries.len() {
        Seq::empty()
    } else {
        delete_first(entries, (n - 1) as nat, dir) + delete_entry(entries[n - 1], dir)
    }
}

/// The steps that delete one entry of `dir`: a directory is deleted as a
/// tree of its own, and anything else is removed as a file.
pub open spec fn delete_entry(entry: Tree, dir: Seq<char>) -> Seq<Step>
    decreases entry,
{
    match entry {
        Tree::File(name) => seq![Step::RemoveFile(join(dir, name))],
        Tree::Dir(name, entries) => delete_plan(entries, join(dir, name)),
        Tree::Other(name) => seq![Step::RemoveFile(join(dir, name))],
    }
}

/// What an entry is.
pub enum Kind {
    File,
    Dir,
    Other,
}

/// What the entry is.
pub open spec fn kind_of(entry: Tree) -> Kind {
    match entry {
        Tree::File(_) => Kind::File,
        Tree::Dir(_, _) => Kind::Dir,
        Tree::Other(_) => Kind::Other,
    }
}

/// The name of the entry.
pub open spec fn name_of(entry: Tree) -> Seq<char> {
    match entry {
        Tree::File(name) => name,
        Tree::Dir(name, _) => name,
        Tree::Other(name) => name,
    }
}

/// Whether the names in `rel` lead, from the listed directory, to an entry
/// of the kind `kind`.
pub open spec fn leads_to(entries: Seq<Tree>, rel: Seq<Seq<char>>, kind: Kind) -> bool
    decreases entries, entries.len() + 1,
{
    leads_among(entries, entries.len(), rel, kind)
}

/// Whether the names in `rel` lead to an entry of the kind `kind` through
/// one of the first `n` listed entries.
pub open spec fn leads_among(entries: Seq<Tree>, n: nat, rel: Seq<Seq<char>>, kind: Kind) -> bool
    decreases entries, n,
{
    if n == 0 || n > entries.len() {
        false
    } else {
        leads_among(entries, (n - 1) as nat, rel, kind) || leads_through(
            entries[n - 1],
            rel,
            kind,
        )
    }
}

/// Whether the names in `rel` lead to an entry of the kind `kind` that is
/// `entry` or lies below it: the first name is that of `entry`, and the
/// others lead on from there.
pub open spec fn leads_through(entry: Tree, rel: Seq<Seq<char>>, kind: Kind) -> bool
    decreases entry,
{
    rel.len() > 0 && rel[0] == name_of(entry) && if rel.len() == 1 {
        kind_of(entry) == kind
    } else {
        match entry {
            Tree::Dir(_, entries) => leads_to(entries, rel.drop_first(), kind),
            _ => false,
        }
    }
}

/// The names lead somewhere through the listing exactly if they lead there
/// through one of its entries.
pub proof fn lemma_leads_among(entries: Seq<Tree>, n: nat, rel: Seq<Seq<char>>, kind: Kind)
    requires
        n <= entries.len(),
    ensures
        leads_among(entries, n, rel, kind) <==> exists|i: int|
            0 <= i < n && #[trigger] leads_through(entries[i], rel, kind),
    decreases n,
{
    if n > 0 {
        lemma_leads_among(entries, (n - 1) as nat, rel, kind);
        assert(leads_among(entries, n, rel, kind) == (leads_among(
            entries,
            (n - 1) as nat,
            rel,
            kind,
        ) || leads_through(entries[n - 1], rel, kind)));
    }
}

/// A path that names lead to from `base` begins with `base`: every path in
/// the steps of a copy begins with the source or with the destination, and
/// every path in the steps of a deletion with the directory to delete.
pub proof fn lemma_under_begins_with_base(base: Seq<char>, rel: Seq<Seq<char>>)
    ensures
        base.is_prefix_of(under(base, rel)),
    decreases rel.len(),
{
    if rel.len() > 0 {
        lemma_under_begins_with_base(join(base, rel[0]), rel.drop_first());
    }
}

/// A single name leads to the entry of that name.
pub proof fn lemma_under_one(base: Seq<char>, name: Seq<char>)
    ensures
        under(base, seq![name]) == join(base, name),
{
    reveal_with_fuel(under, 2);
}

/// The steps for the first `n` entries hold the steps for each of them.
proof fn lemma_copy_first_holds(
    entries: Seq<Tree>,
    n: nat,
    source: Seq<char>,
    dest: Seq<char>,
    i: int,
    step: Step,
)
    requires
        0 <= i < n <= entries.len(),
        copy_entry(entries[i], source, dest).contains(step),
    ensures
        copy_first(entries, n, source, dest).contains(step),
    decreases n,
{
    let front = copy_first(entries, (n - 1) as nat, source, dest);
    let back = copy_entry(entries[n - 1], source, dest);
    if i == n - 1 {
        let k = choose|k: int| 0 <= k < back.len() && back[k] == step;
        assert((front + back)[front.len() + k] == step);
    } else {
        lemma_copy_first_holds(entries, (n - 1) as nat, source, dest, i, step);
        let k = choose|k: int| 0 <= k < front.len() && front[k] == step;
        assert((front + back)[k] == step);
    }
}

/// A step of the steps for the first `n` entries is a step for one of them.
proof fn lemma_copy_first_from(
    entries: Seq<Tree>,
    n: nat,
    source: Seq<char>,
    dest: Seq<char>,
    k: int,
) -> (i: int)
    requires
        n <= entries.len(),
        0 <= k < copy_first(entries, n, source, dest).len(),
    ensures
        0 <= i < n,
        copy_entry(entries[i], source, dest).contains(copy_first(entries, n, source, dest)[k]),
    decreases n,
{
    let front = copy_first(entries, (n - 1) as nat, source, dest);
    if k < front.len() {
        lemma_copy_first_from(entries, (n - 1) as nat, source, dest, k)
    } else {
        n - 1
    }
}

/// The step that a copy holds for an entry of the kind `kind` at the place
/// `rel`: a file is copied there, and a directory is made sure of.
pub open spec fn copy_step(
    source: Seq<char>,
    dest: Seq<char>,
    rel: Seq<Seq<char>>,
    kind: Kind,
) -> Step {
    match kind {
        Kind::File => Step::CopyFile(under(source, rel), under(dest, rel)),
        _ => Step::EnsureDir(under(dest, rel)),
    }
}

/// Every regular file of the listing is copied from its place under
/// `source` to the same place under `dest`, and every directory of the
/// listing is made sure of at the same place under `dest`.
pub proof fn lemma_copy_takes_all(
    entries: Seq<Tree>,
    source: Seq<char>,
    dest: Seq<char>,
    rel: Seq<Seq<char>>,
    kind: Kind,
)
    requires
        leads_to(entries, rel, kind),
        kind != Kind::Other,
    ensures
        copy_plan(entries, source, dest).contains(copy_step(source, dest, rel, kind)),
    decreases entries, 1nat,
{
    lemma_leads_among(entries, entries.len(), rel, kind);
    let i = choose|i: int|
        0 <= i < entries.len() && #[trigger] leads_through(entries[i], rel, kind);
    let step = copy_step(source, dest, rel, kind);
    let part = copy_entry(entries[i], source, dest);
    if rel.len() == 1 {
        assert(rel =~= seq![rel[0]]);
        lemma_under_one(source, rel[0]);
        lemma_under_one(dest, rel[0]);
        assert(part[0] == step);
    } else {
        match entries[i] {
            Tree::Dir(name, inner) => {
                lemma_copy_takes_all(
                    inner,
                    join(source, name),
                    join(dest, name),
                    rel.drop_first(),
                    kind,
                );
            },
            _ => {},
        }
    }
    lemma_copy_first_holds(entries, entries.len(), source, dest, i, step);
    let rest = copy_first(entries, entries.len(), source, dest);
    let k = choose|k: int| 0 <= k < rest.len() && rest[k] == step;
    assert(copy_plan(entries, source, dest)[k + 1] == step);
}

/// Where step `k` of a copy comes from. The first step makes sure of `dest`
/// itself. For every other the names that are returned lead to a regular
/// file of the listing, which the step copies from its place under `source`
/// to the same place under `dest`, or to a directory of the listing, of
/// which the step makes sure at the same place under `dest`.
pub proof fn lemma_copy_step_origin(
    entries: Seq<Tree>,
    source: Seq<char>,
    dest: Seq<char>,
    k: int,
) -> (rel: Seq<Seq<char>>)
    requires
        0 <= k < copy_plan(entries, source, dest).len(),
    ensures
        k == 0 ==> rel.len() == 0 && copy_plan(entries, source, dest)[k] == Step::EnsureDir(dest),
        k > 0 ==> (leads_to(entries, rel, Kind::File) && copy_plan(entries, source, dest)[k]
            == copy_step(source, dest, rel, Kind::File)) || (leads_to(entries, rel, Kind::Dir)
            && copy_plan(entries, source, dest)[k] == copy_step(source, dest, rel, Kind::Dir)),
    decreases entries, 1nat,
{
    if k == 0 {
        Seq::empty()
    } else {
        let rest = copy_first(entries, entries.len(), source, dest);
        let i = lemma_copy_first_from(entries, entries.len(), source, dest, k - 1);
        let part = copy_entry(entries[i], source, dest);
        let j = choose|j: int| 0 <= j < part.len() && part[j] == rest[k - 1];
        match entries[i] {
            Tree::File(name) => {
                let rel = seq![name];
                lemma_under_one(source, name);
                lemma_under_one(dest, name);
                assert(leads_through(entries[i], rel, Kind::File));
                lemma_leads_among(entries, entries.len(), rel, Kind::File);
                rel
            },
            Tree::Dir(name, inner) => {
                let tail = lemma_copy_step_origin(inner, join(source, name), join(dest, name), j);
                let rel = seq![name] + tail;
                assert(rel.drop_first() =~= tail);
                if j == 0 {
                    assert(leads_through(entries[i], rel, Kind::Dir));
                    lemma_leads_among(entries, entries.len(), rel, Kind::Dir);
                } else if leads_to(inner, tail, Kind::File) && part[j] == copy_step(
                    join(source, name),
                    join(dest, name),
                    tail,
                    Kind::File,
                ) {
                    lemma_leads_nowhere_without_names(inner, inner.len(), tail, Kind::File);
                    assert(leads_through(entries[i], rel, Kind::File));
                    lemma_leads_among(entries, entries.len(), rel, Kind::File);
                } else {
                    assert(leads_through(entries[i], rel, Kind::Dir));
                    lemma_leads_among(entries, entries.len(), rel, Kind::Dir);
                }
                rel
            },
            Tree::Other(_) => Seq::empty(),
        }
    }
}

/// Where step `k` of the steps for the first `n` entries lies: in the steps
/// for the entry that is returned, which begin after the steps for the
/// entries before it.
proof fn lemma_copy_first_at(
    entries: Seq<Tree>,
    n: nat,
    source: Seq<char>,
    dest: Seq<char>,
    k: int,
) -> (i: int)
    requires
        n <= entries.len(),
        0 <= k < copy_first(entries, n, source, dest).len(),
    ensures
        0 <= i < n,
        copy_first(entries, i as nat, source, dest).len() <= k < copy_first(
            entries,
            i as nat,
            source,
            dest,
        ).len() + copy_entry(entries[i], source, dest).len(),
        copy_first(entries, n, source, dest)[k] == copy_entry(entries[i], source, dest)[k
            - copy_first(entries, i as nat, source, dest).len()],
    decreases n,
{
    let front = copy_first(entries, (n - 1) as nat, source, dest);
    if k < front.len() {
        lemma_copy_first_at(entries, (n - 1) as nat, source, dest, k)
    } else {
        n - 1
    }
}

/// Before a file is copied its directory is made sure of: for a step `k`
/// that copies a file, an earlier step, which is returned with the name of
/// the file, makes sure of a directory, and the file is copied to its name
/// in that directory.
pub proof fn lemma_copy_makes_room_first(
    entries: Seq<Tree>,
    source: Seq<char>,
    dest: Seq<char>,
    k: int,
) -> (found: (int, Seq<char>))
    requires
        0 <= k < copy_plan(entries, source, dest).len(),
        copy_plan(entries, source, dest)[k] is CopyFile,
    ensures
        0 <= found.0 < k,
        copy_plan(entries, source, dest)[found.0] matches Step::EnsureDir(dir)
            && copy_plan(entries, source, dest)[k]->CopyFile_1 == join(dir, found.1),
    decreases entries, 1nat,
{
    let i = lemma_copy_first_at(entries, entries.len(), source, dest, k - 1);
    let start = copy_first(entries, i as nat, source, dest).len();
    match entries[i] {
        Tree::File(name) => (0, name),
        Tree::Dir(name, inner) => {
            let below = lemma_copy_makes_room_first(
                inner,
                join(source, name),
                join(dest, name),
                k - 1 - start,
            );
            assert(copy_plan(entries, source, dest)[1 + start + below.0] == copy_entry(
                entries[i],
                source,
                dest,
            )[below.0]) by {
                lemma_copy_first_whole(entries, i, entries.len(), source, dest, below.0);
            }
            (1 + start + below.0, below.1)
        },
        Tree::Other(_) => (0, Seq::empty()),
    }
}

/// The steps for the first `m` entries are the beginning of the steps for
/// the first `n`, where `m` is at most `n`.
proof fn lemma_copy_first_prefix(
    entries: Seq<Tree>,
    m: nat,
    n: nat,
    source: Seq<char>,
    dest: Seq<char>,
)
    requires
        m <= n <= entries.len(),
    ensures
        copy_first(entries, m, source, dest).is_prefix_of(copy_first(entries, n, source, dest)),
    decreases n,
{
    if m < n {
        lemma_copy_first_prefix(entries, m, (n - 1) as nat, source, dest);
    }
}

/// The steps for entry `i` stand in the steps for the first `n` entries
/// right after the steps for the entries before it.
proof fn lemma_copy_first_whole(
    entries: Seq<Tree>,
    i: int,
    n: nat,
    source: Seq<char>,
    dest: Seq<char>,
    j: int,
)
    requires
        0 <= i < n <= entries.len(),
        0 <= j < copy_entry(entries[i], source, dest).len(),
    ensures
        copy_first(entries, i as nat, source, dest).len() + j < copy_first(
            entries,
            n,
            source,
            dest,
        ).len(),
        copy_first(entries, n, source, dest)[copy_first(entries, i as nat, source, dest).len() + j]
            == copy_entry(entries[i], source, dest)[j],
{
    lemma_copy_first_prefix(entries, (i + 1) as nat, n, source, dest);
    let upto = copy_first(entries, (i + 1) as nat, source, dest);
    let whole = copy_first(entries, n, source, dest);
    let at = copy_first(entries, i as nat, source, dest).len() + j;
    assert(whole.subrange(0, upto.len() as int)[at] == whole[at]);
}

/// Names that lead to an entry are one name at least.
pub proof fn lemma_leads_nowhere_without_names(
    entries: Seq<Tree>,
    n: nat,
    rel: Seq<Seq<char>>,
    kind: Kind,
)
    requires
        leads_among(entries, n, rel, kind),
    ensures
        rel.len() > 0,
    decreases n,
{
    if n > 0 && n <= entries.len() {
        if leads_among(entries, (n - 1) as nat, rel, kind) {
            lemma_leads_nowhere_without_names(entries, (n - 1) as nat, rel, kind);
        } else {
            assert(leads_through(entries[n - 1], rel, kind));
        }
    }
}

/// The steps for the first `n` entries hold the steps for each of them.
proof fn lemma_delete_first_holds(entries: Seq<Tree>, n: nat, dir: Seq<char>, i: int, step: Step)
    requires
        0 <= i < n <= entries.len(),
        delete_entry(entries[i], dir).contains(step),
    ensures
        delete_first(entries, n, dir).contains(step),
    decreases n,
{
    let front = delete_first(entries, (n - 1) as nat, dir);
    let back = delete_entry(entries[n - 1], dir);
    if i == n - 1 {
        let k = choose|k: int| 0 <= k < back.len() && back[k] == step;
        assert((front + back)[front.len() + k] == step);
    } else {
        lemma_delete_first_holds(entries, (n - 1) as nat, dir, i, step);
        let k = choose|k: int| 0 <= k < front.len() && front[k] == step;
        assert((front + back)[k] == step);
    }
}

/// The step that a deletion holds for an entry of the kind `kind` at the
/// place `rel`: a directory is removed as one, anything else as a file.
pub open spec fn delete_step(dir: Seq<char>, rel: Seq<Seq<char>>, kind: Kind) -> Step {
    match kind {
        Kind::Dir => Step::RemoveDir(under(dir, rel)),
        _ => Step::RemoveFile(under(dir, rel)),
    }
}

/// Every entry of the listing is removed, and the listed directory itself
/// is removed last.
pub proof fn lemma_delete_takes_all(
    entries: Seq<Tree>,
    dir: Seq<char>,
    rel: Seq<Seq<char>>,
    kind: Kind,
)
    requires
        leads_to(entries, rel, kind),
    ensures
        delete_plan(entries, dir).contains(delete_step(dir, rel, kind)),
        delete_plan(entries, dir).last() == Step::RemoveDir(dir),
    decreases entries, 1nat,
{
    lemma_leads_among(entries, entries.len(), rel, kind);
    let i = choose|i: int|
        0 <= i < entries.len() && #[trigger] leads_through(entries[i], rel, kind);
    let step = delete_step(dir, rel, kind);
    let part = delete_entry(entries[i], dir);
    if rel.len() == 1 {
        assert(rel =~= seq![rel[0]]);
        lemma_under_one(dir, rel[0]);
        match entries[i] {
            Tree::Dir(name, inner) => {
                assert(part[part.len() - 1] == step);
            },
            _ => {},
        }
    } else {
        match entries[i] {
            Tree::Dir(name, inner) => {
                lemma_delete_takes_all(inner, join(dir, name), rel.drop_first(), kind);
            },
            _ => {},
        }
    }
    lemma_delete_first_holds(entries, entries.len(), dir, i, step);
    let rest = delete_first(entries, entries.len(), dir);
    let k = choose|k: int| 0 <= k < rest.len() && rest[k] == step;
    assert(delete_plan(entries, dir)[k] == step);
}

/// A step of the steps for the first `n` entries is a step for one of them.
proof fn lemma_delete_first_from(entries: Seq<Tree>, n: nat, dir: Seq<char>, k: int) -> (i: int)
    requires
        n <= entries.len(),
        0 <= k < delete_first(entries, n, dir).len(),
    ensures
        0 <= i < n,
        delete_entry(entries[i], dir).contains(delete_first(entries, n, dir)[k]),
    decreases n,
{
    let front = delete_first(entries, (n - 1) as nat, dir);
    if k < front.len() {
        lemma_delete_first_from(entries, (n - 1) as nat, dir, k)
    } else {
        n - 1
    }
}

/// Where step `k` of a deletion comes from. The last step removes `dir`
/// itself. For every other the names that are returned lead to an entry of
/// the listing, of a kind that is returned with them, and the step removes
/// that entry at its place under `dir`. So a deletion removes nothing but
/// the listed directory and what is listed below it.
pub proof fn lemma_delete_step_origin(entries: Seq<Tree>, dir: Seq<char>, k: int) -> (found: (
    Seq<Seq<char>>,
    Kind,
))
    requires
        0 <= k < delete_plan(entries, dir).len(),
    ensures
        k == delete_plan(entries, dir).len() - 1 ==> found.0.len() == 0 && delete_plan(
            entries,
            dir,
        )[k] == Step::RemoveDir(dir),
        k < delete_plan(entries, dir).len() - 1 ==> leads_to(entries, found.0, found.1)
            && delete_plan(entries, dir)[k] == delete_step(dir, found.0, found.1),
    decreases entries, 1nat,
{
    let rest = delete_first(entries, entries.len(), dir);
    if k == rest.len() {
        (Seq::empty(), Kind::Dir)
    } else {
        let i = lemma_delete_first_from(entries, entries.len(), dir, k);
        let part = delete_entry(entries[i], dir);
        let j = choose|j: int| 0 <= j < part.len() && part[j] == rest[k];
        match entries[i] {
            Tree::Dir(name, inner) => {
                let below = lemma_delete_step_origin(inner, join(dir, name), j);
                let rel = seq![name] + below.0;
                assert(rel.drop_first() =~= below.0);
                if j == part.len() - 1 {
                    assert(leads_through(entries[i], rel, Kind::Dir));
                    lemma_leads_among(entries, entries.len(), rel, Kind::Dir);
                    (rel, Kind::Dir)
                } else {
                    lemma_leads_nowhere_without_names(inner, inner.len(), below.0, below.1);
                    assert(leads_through(entries[i], rel, below.1));
                    lemma_leads_among(entries, entries.len(), rel, below.1);
                    (rel, below.1)
                }
            },
            _ => {
                let rel = seq![name_of(entries[i])];
                lemma_under_one(dir, name_of(entries[i]));
                assert(leads_through(entries[i], rel, kind_of(entries[i])));
                lemma_leads_among(entries, entries.len(), rel, kind_of(entries[i]));
                (rel, kind_of(entries[i]))
            },
        }
    }
}

/// The last character of a text, or `None` for the empty text.
fn last_char(text: &str) -> (r: Option<char>)
    ensures
        match r {
            Some(c) => text@.len() > 0 && c == text@.last(),
            None => text@.len() == 0,
        },
{
    broadcast use vstd::string::group_string_axioms;

    let mut rest = text.chars();
    let mut last: Option<char> = None;
    let ghost mut seen: int = 0;
    loop
        invariant
            0 <= seen <= text@.len(),
            rest.remaining() == text@.skip(seen),
            match last {
                Some(c) => seen > 0 && c == text@[seen - 1],
                None => seen == 0,
            },
        decreases text@.len() - seen,
    {
        match rest.next() {
            Some(c) => {
                last = Some(c);
                proof {
                    seen = seen + 1;
                }
            },
            None => {
                return last;
            },
        }
    }
}

/// The path of the entry `name` of the directory `dir`.
pub fn join_path(dir: &str, name: &str) -> (path: String)
    ensures
        path@ == join(dir@, name@),
{
    let mut path = String::from_str(dir);
    match last_char(dir) {
        Some(c) => {
            if c != '/' {
                proof {
                    reveal_strlit("/");
                }
                path.append("/");
            }
            path.append(name);
        },
        None => {
            path.append(name);
        },
    }
    path
}

/// Appends to `out` the steps that copy the listed entries of `source` into
/// `dest`.
fn plan_copy(entries: &Vec<Entry>, source: &str, dest: &str, out: &mut Vec<FsOp>)
    ensures
        views(final(out)@) == views(old(out)@) + copy_plan(views(entries@), source@, dest@),
    decreases entries,
{
    let ghost listing = views(entries@);
    let ghost before = views(out@);
    out.push(FsOp::EnsureDir { path: String::from_str(dest) });
    let mut i: usize = 0;
    while i < entries.len()
        invariant
            i <= entries.len(),
            listing == views(entries@),
            views(out@) == before + seq![Step::EnsureDir(dest@)] + copy_first(
                listing,
                i as nat,
                source@,
                dest@,
            ),
        decreases entries.len() - i,
    {
        let ghost so_far = views(out@);
        match &entries[i] {
            Entry::File { name } => {
                let from = join_path(source, name.as_str());
                let to = join_path(dest, name.as_str());
                out.push(FsOp::CopyFile { from, to });
                assert(views(out@) =~= so_far + copy_entry(listing[i as int], source@, dest@));
            },
            Entry::Dir { name, entries: inner } => {
                let from = join_path(source, name.as_str());
                let to = join_path(dest, name.as_str());
                plan_copy(inner, from.as_str(), to.as_str(), out);
                assert(views(inner@) =~= listing[i as int]->Dir_1);
            },
            Entry::Other { name } => {},
        }
        i = i + 1;
    }
}

/// Appends to `out` the steps that delete the directory `dir` with the
/// listed entries.
fn plan_delete(entries: &Vec<Entry>, dir: &str, out: &mut Vec<FsOp>)
    ensures
        views(final(out)@) == views(old(out)@) + delete_plan(views(entries@), dir@),
    decreases entries,
{
    let ghost listing = views(entries@);
    let ghost before = views(out@);
    let mut i: usize = 0;
    while i < entries.len()
        invariant
            i <= entries.len(),
            listing == views(entries@),
            views(out@) == before + delete_first(listing, i as nat, dir@),
        decreases entries.len() - i,
    {
        let ghost so_far = views(out@);
        match &entries[i] {
            Entry::File { name } => {
                out.push(FsOp::RemoveFile { path: join_path(dir, name.as_str()) });
                assert(views(out@) =~= so_far + delete_entry(listing[i as int], dir@));
            },
            Entry::Dir { name, entries: inner } => {
                let path = join_path(dir, name.as_str());
                plan_delete(inner, path.as_str(), out);
                assert(views(inner@) =~= listing[i as int]->Dir_1);
            },
            Entry::Other { name } => {
                out.push(FsOp::RemoveFile { path: join_path(dir, name.as_str()) });
                assert(views(out@) =~= so_far + delete_entry(listing[i as int], dir@));
            },
        }
        i = i + 1;
    }
    let ghost removed = views(out@);
    out.push(FsOp::RemoveDir { path: String::from_str(dir) });
    assert(views(out@) =~= removed + seq![Step::RemoveDir(dir@)]);
}

/// The filesystem mirror.
#[derive(Debug, Clone, Copy, PartialEq, Eq)]
pub struct Filesystem {}

impl Filesystem {
    /// A mirror.
    pub fn new() -> (r: Self)
        ensures
            r == (Filesystem {  }),
    {
        Filesystem {  }
    }

    /// The steps that copy the directory `source_dir`, whose entries are
    /// listed in `entries`, into `dest_dir`. `dest_dir` and every directory
    /// below it is made sure of before anything is copied into it, every
    /// regular file is copied under its own name, and entries that are
    /// neither file nor directory are passed over.
    pub fn copy_files(&self, entries: &Vec<Entry>, source_dir: &str, dest_dir: &str) -> (ops: Vec<
        FsOp,
    >)
        ensures
            views(ops@) == copy_plan(views(entries@), source_dir@, dest_dir@),
    {
        let mut ops: Vec<FsOp> = Vec::new();
        plan_copy(entries, source_dir, dest_dir, &mut ops);
        ops
    }

    /// The steps that delete the directory `dir`, whose entries are listed
    /// in `entries`: everything below it and then `dir` itself, each
    /// directory after what it holds.
    pub fn delete_files(&self, entries: &Vec<Entry>, dir: &str) -> (ops: Vec<FsOp>)
        ensures
            views(ops@) == delete_plan(views(entries@), dir@),
    {
        let mut ops: Vec<FsOp> = Vec::new();
        plan_delete(entries, dir, &mut ops);
        ops
    }
}

} // verus!

