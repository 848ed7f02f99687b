//! Repository change detection by polling.
//!
//! The watcher keeps the modification times of the key files of the `.git`
//! directory (HEAD, index, refs/heads, packed-refs) and a snapshot of the
//! working tree's status. Git metadata is polled every 2 seconds, the
//! working tree every 5 seconds; a detected change asks for a refresh once
//! 500 ms have passed since the first detection, so a burst of changes
//! gives one refresh that is not pushed back by later changes.
//!
//! Reading the file system is left to the caller: `check_changed` says what
//! to read, and `record_observation` takes what was read. Times are
//! nanoseconds of a monotonic clock chosen by the caller.

use vstd::prelude::*;

verus! {

/// Interval between two polls of the git metadata, in nanoseconds (2 s).
pub const GIT_CHECK_INTERVAL: u64 = 2_000_000_000;

/// Interval between two scans of the working tree, in nanoseconds (5 s).
pub const WORKTREE_CHECK_INTERVAL: u64 = 5_000_000_000;

/// Delay between a detected change and the refresh, in nanoseconds (500 ms).
pub const DEBOUNCE_DELAY: u64 = 500_000_000;

/// A file modification time, as its distance from the UNIX epoch.
#[derive(Debug, Clone, Copy, PartialEq, Eq, Structural)]
pub struct FileStamp {
    /// Whether the time lies before the epoch.
    pub before_epoch: bool,
    /// Distance from the epoch, in nanoseconds.
    pub nanos: u128,
}

/// Modification times of the watched git files; `None` for a file that
/// could not be read.
#[derive(Debug, Clone, Copy, PartialEq, Eq, Structural)]
pub struct GitStamps {
    pub head: Option<FileStamp>,
    pub index: Option<FileStamp>,
    pub refs: Option<FileStamp>,
    pub packed_refs: Option<FileStamp>,
}

/// The observable state of one changed or untracked file of the working
/// tree.
#[derive(Debug, Clone)]
pub struct WorktreeEntry {
    pub path: String,
    pub status: u32,
    pub modified: Option<FileStamp>,
    pub size: Option<u64>,
}

/// A working tree entry as a mathematical value.
pub struct WorktreeEntryView {
    pub path: Seq<char>,
    pub status: u32,
    pub modified: Option<FileStamp>,
    pub size: Option<u64>,
}

impl View for WorktreeEntry {
    type V = WorktreeEntryView;

    open spec fn view(&self) -> WorktreeEntryView {
        WorktreeEntryView {
            path: self.path@,
            status: self.status,
            modified: self.modified,
            size: self.size,
        }
    }
}

/// The views of a working tree snapshot.
pub open spec fn snapshot_view(s: Seq<WorktreeEntry>) -> Seq<WorktreeEntryView> {
    s.map_values(|e: WorktreeEntry| e@)
}

/// What the caller does after a call of `check_changed`.
#[derive(Debug, Clone, Copy, PartialEq, Eq, Structural)]
pub enum WatchStep {
    /// A change was detected long enough ago: refresh now.
    Refresh,
    /// Nothing is due.
    Idle,
    /// Read the git metadata and/or scan the working tree, then hand the
    /// results to `record_observation`.
    Observe { git: bool, worktree: bool },
}

/// Change watcher of a repository.
pub struct GitWatcher {
    last_git_check: u64,
    last_worktree_check: u64,
    last_change_detected: Option<u64>,
    stamps: GitStamps,
    worktree_snapshot: Vec<WorktreeEntry>,
}

/// The state of a watcher as a mathematical value.
pub struct WatcherView {
    /// When the git metadata was last polled.
    pub last_git_check: u64,
    /// When the working tree was last scanned.
    pub last_worktree_check: u64,
    /// When the pending change was first detected, if one is pending.
    pub last_change_detected: Option<u64>,
    pub stamps: GitStamps,
    pub worktree_snapshot: Seq<WorktreeEntryView>,
}

impl View for GitWatcher {
    type V = WatcherView;

    closed spec fn view(&self) -> WatcherView {
        WatcherView {
            last_git_check: self.last_git_check,
            last_worktree_check: self.last_worktree_check,
            last_change_detected: self.last_change_detected,
            stamps: self.stamps,
            worktree_snapshot: snapshot_view(self.worktree_snapshot@),
        }
    }
}

/// Time from `since` to `now`, zero if `now` is earlier.
pub open spec fn elapsed(now: u64, since: u64) -> int {
    if now >= since {
        now - since
    } else {
        0
    }
}

/// The outcome of a check at `now`: a pending change old enough gives a
/// refresh and is cleared; otherwise the polls that are due are asked for
/// (and their time recorded), or nothing is due.
pub open spec fn check_spec(w: WatcherView, now: u64) -> (WatchStep, WatcherView) {
    if w.last_change_detected is Some && elapsed(now, w.last_change_detected->0)
        >= DEBOUNCE_DELAY {
        (WatchStep::Refresh, WatcherView { last_change_detected: None, ..w })
    } else {
        let git = elapsed(now, w.last_git_check) >= GIT_CHECK_INTERVAL;
        let worktree = elapsed(now, w.last_worktree_check) >= WORKTREE_CHECK_INTERVAL;
        if !git && !worktree {
            (WatchStep::Idle, w)
        } else {
            (
                WatchStep::Observe { git, worktree },
                WatcherView {
                    last_git_check: if git {
                        now
                    } else {
                        w.last_git_check
                    },
                    last_worktree_check: if worktree {
                        now
                    } else {
                        w.last_worktree_check
                    },
                    ..w
                },
            )
        }
    }
}

/// Whether an observation differs from what the watcher holds.
pub open spec fn observation_changes(
    w: WatcherView,
    git: Option<GitStamps>,
    worktree: Option<Seq<WorktreeEntryView>>,
) -> bool {
    (git is Some && git->0 != w.stamps) || (worktree is Some && worktree->0 != w.worktree_snapshot)
}

/// The state after an observation at `now`: the observed values replace the
/// held ones, and a difference starts a pending change at `now` unless one
/// is already pending.
pub open spec fn observe_spec(
    w: WatcherView,
    now: u64,
    git: Option<GitStamps>,
    worktree: Option<Seq<WorktreeEntryView>>,
) -> WatcherView {
    WatcherView {
        stamps: if git is Some {
            git->0
        } else {
            w.stamps
        },
        worktree_snapshot: if worktree is Some {
            worktree->0
        } else {
            w.worktree_snapshot
        },
        last_change_detected: if observation_changes(w, git, worktree)
            && w.last_change_detected is None {
            Some(now)
        } else {
            w.last_change_detected
        },
        ..w
    }
}

/// Nanoseconds to wait before the next check has something to do: the rest
/// of the debounce delay when a change is pending, else the nearest of the
/// two polling deadlines.
pub open spec fn next_check_spec(w: WatcherView, now: u64) -> int {
    if w.last_change_detected is Some {
        sat_sub_int(DEBOUNCE_DELAY as int, elapsed(now, w.last_change_detected->0))
    } else {
        let git = sat_sub_int(GIT_CHECK_INTERVAL as int, elapsed(now, w.last_git_check));
        let worktree = sat_sub_int(
            WORKTREE_CHECK_INTERVAL as int,
            elapsed(now, w.last_worktree_check),
        );
        if git < worktree {
            git
        } else {
            worktree
        }
    }
}

/// `a - b`, held at zero.
pub open spec fn sat_sub_int(a: int, b: int) -> int {
    if a > b {
        a - b
    } else {
        0
    }
}

fn same_snapshot(a: &Vec<WorktreeEntry>, b: &Vec<WorktreeEntry>) -> (res: bool)
    ensures
        res == (snapshot_view(a@) == snapshot_view(b@)),
{
    if a.len() != b.len() {
        assert(snapshot_view(a@).len() != snapshot_view(b@).len());
        return false;
    }
    let mut i: usize = 0;
    while i < a.len()
        invariant
            a@.len() == b@.len(),
            i <= a@.len(),
            forall|j: int| 0 <= j < i ==> a@[j]@ == b@[j]@,
        decreases a@.len() - i,
    {
        let x = &a[i];
        let y = &b[i];
        if !(x.path == y.path && x.status == y.status && x.modified == y.modified && x.size
            == y.size) {
            assert(snapshot_view(a@)[i as int] != snapshot_view(b@)[i as int]);
            return false;
        }
        assert(x@ == y@);
        i = i + 1;
    }
    assert(snapshot_view(a@) =~= snapshot_view(b@));
    true
}

impl GitWatcher {
    /// A watcher whose polls and scan are dated `now`, holding the given git
    /// metadata times and working tree snapshot (empty when the scan
    /// failed).
    pub fn new(now: u64, stamps: GitStamps, worktree: Option<Vec<WorktreeEntry>>) -> (res: Self)
        ensures
            res@ == (WatcherView {
                last_git_check: now,
                last_worktree_check: now,
                last_change_detected: None,
                stamps,
                worktree_snapshot: match worktree {
                    Some(s) => snapshot_view(s@),
                    None => Seq::empty(),
                },
            }),
    {
        let snapshot = match worktree {
            Some(s) => s,
            None => Vec::new(),
        };
        let res = GitWatcher {
            last_git_check: now,
            last_worktree_check: now,
            last_change_detected: None,
            stamps,
            worktree_snapshot: snapshot,
        };
        assert(res@.worktree_snapshot =~= match worktree {
            Some(s) => snapshot_view(s@),
            None => Seq::<WorktreeEntryView>::empty(),
        });
        res
    }

    /// Decides what a check at `now` does (see `check_spec`).
    pub fn check_changed(&mut self, now: u64) -> (res: WatchStep)
        ensures
            (res, final(self)@) == check_spec(old(self)@, now),
    {
        match self.last_change_detected {
            Some(t) => {
                if now >= t && now - t >= DEBOUNCE_DELAY {
                    self.last_change_detected = None;
                    return WatchStep::Refresh;
                }
            },
            None => {},
        }
        let git = now >= self.last_git_check && now - self.last_git_check >= GIT_CHECK_INTERVAL;
        let worktree = now >= self.last_worktree_check && now - self.last_worktree_check
            >= WORKTREE_CHECK_INTERVAL;
        if !git && !worktree {
            return WatchStep::Idle;
        }
        if git {
            self.last_git_check = now;
        }
        if worktree {
            self.last_worktree_check = now;
        }
        WatchStep::Observe { git, worktree }
    }

    /// Takes the results of the reads asked for by `check_changed`, made at
    /// `now`: the new git metadata times when they were read, and the new
    /// working tree snapshot when the scan succeeded (see `observe_spec`).
    pub fn record_observation(
        &mut self,
        now: u64,
        git: Option<GitStamps>,
        worktree: Option<Vec<WorktreeEntry>>,
    )
        ensures
            final(self)@ == observe_spec(
                old(self)@,
                now,
                git,
                match worktree {
                    Some(s) => Some(snapshot_view(s@)),
                    None => None,
                },
            ),
    {
        let mut changed = false;
        match git {
            Some(stamps) => {
                changed = stamps != self.stamps;
                self.stamps = stamps;
            },
            None => {},
        }
        match worktree {
            Some(snapshot) => {
                if !same_snapshot(&snapshot, &self.worktree_snapshot) {
                    changed = true;
                }
                self.worktree_snapshot = snapshot;
            },
            None => {},
        }
        if changed && self.last_change_detected.is_none() {
            self.last_change_detected = Some(now);
        }
    }

    /// Forgets any pending change and dates both polls `now`, taking the
    /// git metadata times and working tree snapshot just read (the snapshot
    /// is kept when the scan failed).
    pub fn reset(&mut self, now: u64, stamps: GitStamps, worktree: Option<Vec<WorktreeEntry>>)
        ensures
            final(self)@ == (WatcherView {
                last_git_check: now,
                last_worktree_check: now,
                last_change_detected: None,
                stamps,
                worktree_snapshot: match worktree {
                    Some(s) => snapshot_view(s@),
                    None => old(self)@.worktree_snapshot,
                },
            }),
    {
        self.last_git_check = now;
        self.last_worktree_check = now;
        self.last_change_detected = None;
        self.stamps = stamps;
        match worktree {
            Some(snapshot) => {
                self.worktree_snapshot = snapshot;
            },
            None => {},
        }
    }

    /// Nanoseconds before the next check has something to do (see
    /// `next_check_spec`).
    pub fn next_check_in(&self, now: u64) -> (res: u64)
        ensures
            res == next_check_spec(self@, now),
    {
        match self.last_change_detected {
            Some(t) => {
                let e = if now >= t {
                    now - t
                } else {
                    0
                };
                DEBOUNCE_DELAY.saturating_sub(e)
            },
            None => {
                let eg = if now >= self.last_git_check {
                    now - self.last_git_check
                } else {
                    0
                };
                let ew = if now >= self.last_worktree_check {
                    now - self.last_worktree_check
                } else {
                    0
                };
                let git = GIT_CHECK_INTERVAL.saturating_sub(eg);
                let worktree = WORKTREE_CHECK_INTERVAL.saturating_sub(ew);
                if git < worktree {
                    git
                } else {
                    worktree
                }
            },
        }
    }
}

/// A pending change is never pushed back: an observation keeps the time of
/// the first detection, whatever it finds.
pub proof fn law_debounce_not_postponed(
    w: WatcherView,
    now: u64,
    git: Option<GitStamps>,
    worktree: Option<Seq<WorktreeEntryView>>,
)
    requires
        w.last_change_detected is Some,
    ensures
        observe_spec(w, now, git, worktree).last_change_detected == w.last_change_detected,
{
}

/// A change found by an observation gives a refresh at the first check at
/// least 500 ms later, and that check clears it.
pub proof fn law_change_refreshes_after_debounce(
    w: WatcherView,
    now: u64,
    git: Option<GitStamps>,
    worktree: Option<Seq<WorktreeEntryView>>,
    later: u64,
)
    requires
        w.last_change_detected is None,
        observation_changes(w, git, worktree),
        later >= now + DEBOUNCE_DELAY,
    ensures
        check_spec(observe_spec(w, now, git, worktree), later).0 == WatchStep::Refresh,
        check_spec(observe_spec(w, now, git, worktree), later).1.last_change_detected is None,
{
}

/// No refresh comes before the debounce delay: a check gives a refresh only
/// when a change is pending since at least 500 ms.
pub proof fn law_no_early_refresh(w: WatcherView, now: u64)
    requires
        check_spec(w, now).0 == WatchStep::Refresh,
    ensures
        w.last_change_detected is Some,
        elapsed(now, w.last_change_detected->0) >= DEBOUNCE_DELAY,
{
}

/// A check with nothing due changes nothing.
pub proof fn law_idle_check_changes_nothing(w: WatcherView, now: u64)
    requires
        check_spec(w, now).0 == WatchStep::Idle,
    ensures
        check_spec(w, now).1 == w,
{
}

/// When the announced delay has run out, the check has work to do; and
/// while a change is pending the delay never exceeds the debounce delay.
pub proof fn law_next_check_is_accurate(w: WatcherView, now: u64)
    ensures
        next_check_spec(w, now) == 0 ==> check_spec(w, now).0 != WatchStep::Idle,
        w.last_change_detected is Some ==> next_check_spec(w, now) <= DEBOUNCE_DELAY,
        next_check_spec(w, now) <= GIT_CHECK_INTERVAL,
{
}

/// An observation that finds nothing new starts no pending change.
pub proof fn law_unchanged_observation_is_quiet(
    w: WatcherView,
    now: u64,
    git: Option<GitStamps>,
    worktree: Option<Seq<WorktreeEntryView>>,
)
    requires
        !observation_changes(w, git, worktree),
    ensures
        observe_spec(w, now, git, worktree).last_change_detected == w.last_change_detected,
        observe_spec(w, now, git, worktree).stamps == w.stamps,
        observe_spec(w, now, git, worktree).worktree_snapshot == w.worktree_snapshot,
{
}

/// Whether two sets of git metadata times differ in any of the watched
/// files: HEAD, the index, the branch references or the packed references.
pub open spec fn stamps_differ(a: GitStamps, b: GitStamps) -> bool {
    a.head != b.head || a.index != b.index || a.refs != b.refs || a.packed_refs != b.packed_refs
}

/// An observation takes what it read: after it, the watcher holds the git
/// metadata times and the working tree snapshot that were handed to it,
/// and keeps the ones that were not read.
pub proof fn law_observation_is_held(
    w: WatcherView,
    now: u64,
    git: Option<GitStamps>,
    worktree: Option<Seq<WorktreeEntryView>>,
)
    ensures
        git matches Some(g) ==> observe_spec(w, now, git, worktree).stamps == g,
        git is None ==> observe_spec(w, now, git, worktree).stamps == w.stamps,
        worktree matches Some(t) ==> observe_spec(w, now, git, worktree).worktree_snapshot == t,
        worktree is None ==> observe_spec(w, now, git, worktree).worktree_snapshot
            == w.worktree_snapshot,
{
}

/// A change of any watched git file (HEAD, the index, a branch reference or
/// the packed references), or of the working tree, starts a pending change
/// at the time of the observation when none is pending; the check a
/// debounce delay later then asks for a refresh.
pub proof fn law_any_change_is_detected(
    w: WatcherView,
    now: u64,
    git: Option<GitStamps>,
    worktree: Option<Seq<WorktreeEntryView>>,
    later: u64,
)
    requires
        w.last_change_detected is None,
        (git matches Some(g) && stamps_differ(g, w.stamps)) || (worktree matches Some(t) && t
            != w.worktree_snapshot),
        later >= now + DEBOUNCE_DELAY,
    ensures
        observe_spec(w, now, git, worktree).last_change_detected == Some(now),
        check_spec(observe_spec(w, now, git, worktree), later).0 == WatchStep::Refresh,
{
}

} // verus!
