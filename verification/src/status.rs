//! The status of changed files, as git reports it, and the kind of change
//! the lists show for each file.

use vstd::prelude::*;

verus! {

/// The flags of a git status word that the views read.
#[derive(Debug, Clone, Copy, PartialEq, Eq, Structural)]
pub struct StatusFlags {
    pub index_new: bool,
    pub index_modified: bool,
    pub index_deleted: bool,
    pub index_renamed: bool,
    pub wt_new: bool,
    pub wt_modified: bool,
    pub wt_deleted: bool,
    pub wt_renamed: bool,
    pub conflicted: bool,
}

/// The flags of a status word, by libgit2's bit positions: index new 0,
/// modified 1, deleted 2, renamed 3; working tree new 7, modified 8,
/// deleted 9, renamed 11; conflicted 15.
pub open spec fn flags_of(bits: u32) -> StatusFlags {
    StatusFlags {
        index_new: bits & 0x1 != 0,
        index_modified: bits & 0x2 != 0,
        index_deleted: bits & 0x4 != 0,
        index_renamed: bits & 0x8 != 0,
        wt_new: bits & 0x80 != 0,
        wt_modified: bits & 0x100 != 0,
        wt_deleted: bits & 0x200 != 0,
        wt_renamed: bits & 0x800 != 0,
        conflicted: bits & 0x8000 != 0,
    }
}

/// The flags git2 reads from a status word
/// (`git2::Status::from_bits_retain(bits)` and its `is_*` tests), each the
/// bit libgit2 assigns to it.
#[verifier::external_body]
fn status_flags(bits: u32) -> (res: StatusFlags)
    ensures
        res == flags_of(bits),
{
    let s = git2::Status::from_bits_retain(bits);
    StatusFlags {
        index_new: s.is_index_new(),
        index_modified: s.is_index_modified(),
        index_deleted: s.is_index_deleted(),
        index_renamed: s.is_index_renamed(),
        wt_new: s.is_wt_new(),
        wt_modified: s.is_wt_modified(),
        wt_deleted: s.is_wt_deleted(),
        wt_renamed: s.is_wt_renamed(),
        conflicted: s.is_conflicted(),
    }
}

/// The kind of change a list shows for a file.
#[derive(Debug, Clone, Copy, PartialEq, Eq, Structural)]
pub enum FileStatusKind {
    Staged,
    NewStaged,
    Modified,
    Deleted,
    Untracked,
    Renamed,
    Conflicted,
}

/// A changed file: its path and its git status word.
#[derive(Debug, Clone)]
pub struct StatusEntry {
    pub path: String,
    pub status: u32,
}

/// The kind of change of a file, the first that applies: a conflict, a
/// file new in the index, another change in the index, a file unknown to
/// git, one deleted or renamed in the working tree, else a modification.
pub open spec fn kind_of(f: StatusFlags) -> FileStatusKind {
    if f.conflicted {
        FileStatusKind::Conflicted
    } else if f.index_new {
        FileStatusKind::NewStaged
    } else if f.index_modified || f.index_deleted || f.index_renamed {
        FileStatusKind::Staged
    } else if f.wt_new {
        FileStatusKind::Untracked
    } else if f.wt_deleted {
        FileStatusKind::Deleted
    } else if f.wt_renamed {
        FileStatusKind::Renamed
    } else {
        FileStatusKind::Modified
    }
}

impl StatusEntry {
    /// The kind of change of the file (see `kind_of`).
    pub fn status_kind(&self) -> (res: FileStatusKind)
        ensures
            res == kind_of(flags_of(self.status)),
    {
        let f = status_flags(self.status);
        if f.conflicted {
            FileStatusKind::Conflicted
        } else if f.index_new {
            FileStatusKind::NewStaged
        } else if f.index_modified || f.index_deleted || f.index_renamed {
            FileStatusKind::Staged
        } else if f.wt_new {
            FileStatusKind::Untracked
        } else if f.wt_deleted {
            FileStatusKind::Deleted
        } else if f.wt_renamed {
            FileStatusKind::Renamed
        } else {
            FileStatusKind::Modified
        }
    }
}

/// Whether a file counts as modified in the working tree (modified or
/// deleted there).
pub open spec fn counts_modified(f: StatusFlags) -> bool {
    f.wt_modified || f.wt_deleted
}

/// Whether a file counts as staged (new, modified or deleted in the index).
pub open spec fn counts_staged(f: StatusFlags) -> bool {
    f.index_new || f.index_modified || f.index_deleted
}

/// Whether a file counts as untracked.
pub open spec fn counts_untracked(f: StatusFlags) -> bool {
    f.wt_new
}

/// How many of the entries satisfy a property of their flags.
pub open spec fn count_where(entries: Seq<StatusEntry>, p: spec_fn(StatusFlags) -> bool) -> nat
    decreases entries.len(),
{
    if entries.len() == 0 {
        0
    } else {
        count_where(entries.drop_last(), p) + if p(flags_of(entries.last().status)) { 1nat } else { 0nat }
    }
}

/// A count never exceeds the number of entries.
pub proof fn lemma_count_bounded(entries: Seq<StatusEntry>, p: spec_fn(StatusFlags) -> bool)
    ensures
        count_where(entries, p) <= entries.len(),
    decreases entries.len(),
{
    if entries.len() > 0 {
        lemma_count_bounded(entries.drop_last(), p);
    }
}

/// The numbers of modified, staged and untracked files; a file may count
/// in several.
pub fn count_status(entries: &Vec<StatusEntry>) -> (res: (usize, usize, usize))
    ensures
        res.0 == count_where(entries@, |f: StatusFlags| counts_modified(f)),
        res.1 == count_where(entries@, |f: StatusFlags| counts_staged(f)),
        res.2 == count_where(entries@, |f: StatusFlags| counts_untracked(f)),
{
    let ghost pm = |f: StatusFlags| counts_modified(f);
    let ghost ps = |f: StatusFlags| counts_staged(f);
    let ghost pu = |f: StatusFlags| counts_untracked(f);
    let mut modified: usize = 0;
    let mut staged: usize = 0;
    let mut untracked: usize = 0;
    let mut i: usize = 0;
    while i < entries.len()
        invariant
            i <= entries@.len(),
            modified == count_where(entries@.take(i as int), pm),
            staged == count_where(entries@.take(i as int), ps),
            untracked == count_where(entries@.take(i as int), pu),
            pm == (|f: StatusFlags| counts_modified(f)),
            ps == (|f: StatusFlags| counts_staged(f)),
            pu == (|f: StatusFlags| counts_untracked(f)),
        decreases entries@.len() - i,
    {
        proof {
            let next = entries@.take(i + 1);
            assert(next.drop_last() =~= entries@.take(i as int));
            lemma_count_bounded(entries@.take(i as int), pm);
            lemma_count_bounded(entries@.take(i as int), ps);
            lemma_count_bounded(entries@.take(i as int), pu);
        }
        let f = status_flags(entries[i].status);
        if f.wt_modified || f.wt_deleted {
            modified = modified + 1;
        }
        if f.index_new || f.index_modified || f.index_deleted {
            staged = staged + 1;
        }
        if f.wt_new {
            untracked = untracked + 1;
        }
        i = i + 1;
    }
    assert(entries@.take(i as int) =~= entries@);
    (modified, staged, untracked)
}

} // verus!
