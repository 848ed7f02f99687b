use git_sv::watcher::{
    FileStamp, GitStamps, GitWatcher, WatchStep, WorktreeEntry, DEBOUNCE_DELAY,
    GIT_CHECK_INTERVAL, WORKTREE_CHECK_INTERVAL,
};

fn stamp(n: u128) -> Option<FileStamp> {
    Some(FileStamp { before_epoch: false, nanos: n })
}

fn stamps(head: u128) -> GitStamps {
    GitStamps { head: stamp(head), index: stamp(2), refs: stamp(3), packed_refs: None }
}

fn entry(path: &str, size: u64) -> WorktreeEntry {
    WorktreeEntry { path: path.to_string(), status: 256, modified: stamp(7), size: Some(size) }
}

#[test]
fn nothing_is_due_right_after_creation() {
    let mut watcher = GitWatcher::new(1_000, stamps(1), Some(vec![entry("a.txt", 1)]));
    assert_eq!(watcher.check_changed(1_000), WatchStep::Idle);
    assert_eq!(watcher.check_changed(1_000 + GIT_CHECK_INTERVAL - 1), WatchStep::Idle);
    assert_eq!(watcher.next_check_in(1_000), GIT_CHECK_INTERVAL);
}

#[test]
fn git_metadata_is_polled_before_the_worktree() {
    let mut watcher = GitWatcher::new(0, stamps(1), None);
    assert_eq!(
        watcher.check_changed(GIT_CHECK_INTERVAL),
        WatchStep::Observe { git: true, worktree: false }
    );
    assert_eq!(
        watcher.check_changed(WORKTREE_CHECK_INTERVAL),
        WatchStep::Observe { git: true, worktree: true }
    );
}

#[test]
fn unchanged_observation_starts_no_refresh() {
    let mut watcher = GitWatcher::new(0, stamps(1), Some(vec![entry("a.txt", 1)]));
    let now = WORKTREE_CHECK_INTERVAL;
    assert_eq!(watcher.check_changed(now), WatchStep::Observe { git: true, worktree: true });
    watcher.record_observation(now, Some(stamps(1)), Some(vec![entry("a.txt", 1)]));
    assert_eq!(watcher.check_changed(now + DEBOUNCE_DELAY), WatchStep::Idle);
}

#[test]
fn worktree_change_refreshes_after_the_debounce_delay() {
    let mut watcher = GitWatcher::new(0, stamps(1), Some(vec![entry("a.txt", 1)]));
    let now = WORKTREE_CHECK_INTERVAL;
    watcher.check_changed(now);
    watcher.record_observation(now, Some(stamps(1)), Some(vec![entry("a.txt", 2)]));
    assert_eq!(watcher.check_changed(now + DEBOUNCE_DELAY - 1), WatchStep::Idle);
    assert_eq!(watcher.next_check_in(now + 100), DEBOUNCE_DELAY - 100);
    assert_eq!(watcher.check_changed(now + DEBOUNCE_DELAY), WatchStep::Refresh);
    assert_eq!(watcher.check_changed(now + DEBOUNCE_DELAY), WatchStep::Idle);
}

#[test]
fn head_change_is_detected() {
    let mut watcher = GitWatcher::new(0, stamps(1), None);
    watcher.check_changed(GIT_CHECK_INTERVAL);
    watcher.record_observation(GIT_CHECK_INTERVAL, Some(stamps(9)), None);
    assert_eq!(
        watcher.check_changed(GIT_CHECK_INTERVAL + DEBOUNCE_DELAY),
        WatchStep::Refresh
    );
}

#[test]
fn debounce_is_not_postponed_by_later_changes() {
    let mut watcher = GitWatcher::new(0, stamps(1), None);
    let first = GIT_CHECK_INTERVAL;
    watcher.check_changed(first);
    watcher.record_observation(first, Some(stamps(2)), None);
    let second = first + 400_000_000;
    watcher.record_observation(second, Some(stamps(3)), None);
    assert_eq!(watcher.check_changed(first + DEBOUNCE_DELAY), WatchStep::Refresh);
}

#[test]
fn pending_change_bounds_the_next_check() {
    let mut watcher = GitWatcher::new(0, stamps(1), None);
    watcher.check_changed(GIT_CHECK_INTERVAL);
    watcher.record_observation(GIT_CHECK_INTERVAL, Some(stamps(2)), None);
    assert!(watcher.next_check_in(GIT_CHECK_INTERVAL + 400_000_000) <= 100_000_000);
}

#[test]
fn reset_forgets_pending_changes() {
    let mut watcher = GitWatcher::new(0, stamps(1), None);
    watcher.check_changed(GIT_CHECK_INTERVAL);
    watcher.record_observation(GIT_CHECK_INTERVAL, Some(stamps(2)), None);
    watcher.reset(GIT_CHECK_INTERVAL + 1, stamps(2), None);
    assert_eq!(watcher.check_changed(GIT_CHECK_INTERVAL + DEBOUNCE_DELAY + 10), WatchStep::Idle);
}
