use fswatch_core::engine::{emissions, process_cycle, PathInfo, RawEvent};
use fswatch_core::{Event, IgnoreFilter, WatcherBuilder};

fn file(path: &str) -> PathInfo {
    PathInfo { path: path.to_string(), is_file: true, is_dir: false }
}

fn gone(path: &str) -> PathInfo {
    PathInfo { path: path.to_string(), is_file: false, is_dir: false }
}

fn filter_with(root: &str, patterns: &[&str]) -> IgnoreFilter {
    let pats: Vec<String> = patterns.iter().map(|p| p.to_string()).collect();
    IgnoreFilter::new(root.to_string(), pats).expect("patterns must compile")
}

fn paths_of(ev: &Event) -> Vec<String> {
    let mut v = ev.paths().clone();
    v.sort();
    v
}

#[test]
fn log_writes_filtered_txt_coalesced() {
    let filter = filter_with("/tmp/proj", &["*.log"]);
    let events = vec![
        RawEvent::Write(file("/tmp/proj/a.log")),
        RawEvent::Write(file("/tmp/proj/a.txt")),
        RawEvent::Write(file("/tmp/proj/a.txt")),
    ];
    let cycle = process_cycle(&filter, &events);
    assert!(!cycle.stop);
    let out = emissions(cycle);
    assert_eq!(out.len(), 1);
    assert_eq!(out[0].kind(), "modified");
    assert_eq!(paths_of(&out[0]), vec!["/tmp/proj/a.txt".to_string()]);
}

#[test]
fn remove_and_write_emit_deleted_before_modified() {
    let filter = filter_with("/tmp/proj", &[]);
    let events = vec![
        RawEvent::Remove(gone("/tmp/proj/old.txt")),
        RawEvent::Write(file("/tmp/proj/new.txt")),
    ];
    let out = emissions(process_cycle(&filter, &events));
    assert_eq!(out.len(), 2);
    assert_eq!(out[0].kind(), "deleted");
    assert_eq!(paths_of(&out[0]), vec!["/tmp/proj/old.txt".to_string()]);
    assert_eq!(out[1].kind(), "modified");
    assert_eq!(paths_of(&out[1]), vec!["/tmp/proj/new.txt".to_string()]);
}

#[test]
fn transient_error_cycle_survives_and_later_cycle_reports() {
    let filter = filter_with("/tmp/proj", &[]);
    let error_cycle = process_cycle(
        &filter,
        &vec![RawEvent::Error("disk unavailable".to_string())],
    );
    assert!(!error_cycle.stop);
    let out = emissions(error_cycle);
    assert!(out.is_empty());

    let later = process_cycle(&filter, &vec![RawEvent::Write(file("/tmp/proj/f.txt"))]);
    assert!(!later.stop);
    let out = emissions(later);
    assert_eq!(out.len(), 1);
    assert_eq!(out[0].kind(), "modified");
    assert_eq!(paths_of(&out[0]), vec!["/tmp/proj/f.txt".to_string()]);
}

#[test]
fn write_burst_yields_single_modified_entry() {
    let filter = filter_with("/tmp/proj", &[]);
    let events: Vec<RawEvent> =
        (0..5).map(|_| RawEvent::Write(file("/tmp/proj/burst.rs"))).collect();
    let cycle = process_cycle(&filter, &events);
    assert_eq!(cycle.modified, vec!["/tmp/proj/burst.rs".to_string()]);
    assert!(cycle.deleted.is_empty());
}

#[test]
fn excluded_path_never_contributes() {
    let filter = filter_with("/tmp/proj", &["*.log"]);
    let events = vec![
        RawEvent::Create(file("/tmp/proj/a.log")),
        RawEvent::Write(file("/tmp/proj/a.log")),
        RawEvent::Remove(gone("/tmp/proj/a.log")),
        RawEvent::Rename(file("/tmp/proj/keep.txt"), file("/tmp/proj/a.log")),
    ];
    let cycle = process_cycle(&filter, &events);
    assert!(cycle.modified.is_empty());
    assert!(cycle.deleted.is_empty());
    assert!(emissions(cycle).is_empty());
}

#[test]
fn rename_reports_source_deleted_and_target_modified() {
    let filter = filter_with("/tmp/proj", &[]);
    let events =
        vec![RawEvent::Rename(gone("/tmp/proj/a.txt"), file("/tmp/proj/b.txt"))];
    let out = emissions(process_cycle(&filter, &events));
    assert_eq!(out.len(), 2);
    assert_eq!(out[0].kind(), "deleted");
    assert_eq!(paths_of(&out[0]), vec!["/tmp/proj/a.txt".to_string()]);
    assert_eq!(out[1].kind(), "modified");
    assert_eq!(paths_of(&out[1]), vec!["/tmp/proj/b.txt".to_string()]);
}

#[test]
fn rename_from_excluded_source_only_reports_target() {
    let filter = filter_with("/tmp/proj", &["*.log"]);
    let events =
        vec![RawEvent::Rename(gone("/tmp/proj/a.log"), file("/tmp/proj/b.txt"))];
    let cycle = process_cycle(&filter, &events);
    assert!(cycle.deleted.is_empty());
    assert_eq!(cycle.modified, vec!["/tmp/proj/b.txt".to_string()]);
}

#[test]
fn rename_into_ignored_target_is_dropped_entirely() {
    let filter = filter_with("/tmp/proj", &["*.log"]);
    let events =
        vec![RawEvent::Rename(gone("/tmp/proj/a.txt"), file("/tmp/proj/b.log"))];
    let cycle = process_cycle(&filter, &events);
    assert!(cycle.modified.is_empty());
    assert!(cycle.deleted.is_empty());
}

#[test]
fn rename_onto_non_file_target_is_dropped_entirely() {
    let filter = filter_with("/tmp/proj", &[]);
    let dir = PathInfo { path: "/tmp/proj/d".to_string(), is_file: false, is_dir: true };
    let events = vec![RawEvent::Rename(gone("/tmp/proj/a.txt"), dir)];
    let cycle = process_cycle(&filter, &events);
    assert!(cycle.modified.is_empty());
    assert!(cycle.deleted.is_empty());
}

#[test]
fn non_file_write_is_not_reported() {
    let filter = filter_with("/tmp/proj", &[]);
    let dir = PathInfo { path: "/tmp/proj/d".to_string(), is_file: false, is_dir: true };
    let cycle = process_cycle(&filter, &vec![RawEvent::Write(dir)]);
    assert!(cycle.modified.is_empty());
    assert!(cycle.deleted.is_empty());
}

#[test]
fn informational_notifications_contribute_nothing() {
    let filter = filter_with("/tmp/proj", &[]);
    let events = vec![
        RawEvent::NoticeWrite(file("/tmp/proj/a.txt")),
        RawEvent::NoticeRemove(file("/tmp/proj/a.txt")),
        RawEvent::Chmod(file("/tmp/proj/a.txt")),
    ];
    let cycle = process_cycle(&filter, &events);
    assert!(cycle.modified.is_empty());
    assert!(cycle.deleted.is_empty());
    assert!(!cycle.stop);
}

#[test]
fn stop_sentinel_ends_cycle_and_marks_stop() {
    let filter = filter_with("/tmp/proj", &[]);
    let events = vec![
        RawEvent::Write(file("/tmp/proj/a.txt")),
        RawEvent::Stop,
        RawEvent::Write(file("/tmp/proj/after.txt")),
    ];
    let cycle = process_cycle(&filter, &events);
    assert!(cycle.stop);
    assert_eq!(cycle.modified, vec!["/tmp/proj/a.txt".to_string()]);
}

#[test]
fn error_cuts_the_cycle_short_but_keeps_the_batch() {
    let filter = filter_with("/tmp/proj", &[]);
    let events = vec![
        RawEvent::Write(file("/tmp/proj/a.txt")),
        RawEvent::Error("transient".to_string()),
        RawEvent::Write(file("/tmp/proj/after.txt")),
    ];
    let cycle = process_cycle(&filter, &events);
    assert!(!cycle.stop);
    assert_eq!(cycle.modified, vec!["/tmp/proj/a.txt".to_string()]);
}

#[test]
fn no_empty_event_is_ever_emitted() {
    let filter = filter_with("/tmp/proj", &[]);
    let out = emissions(process_cycle(&filter, &Vec::new()));
    assert!(out.is_empty());

    let only_modified =
        process_cycle(&filter, &vec![RawEvent::Write(file("/tmp/proj/a.txt"))]);
    let out = emissions(only_modified);
    assert_eq!(out.len(), 1);
    assert_eq!(out[0].kind(), "modified");
    for ev in &out {
        assert!(!ev.paths().is_empty());
    }
}

#[test]
fn path_can_end_in_both_sets_and_deleted_comes_first() {
    let filter = filter_with("/tmp/proj", &[]);
    let events = vec![
        RawEvent::Write(file("/tmp/proj/a.txt")),
        RawEvent::Remove(gone("/tmp/proj/a.txt")),
    ];
    let cycle = process_cycle(&filter, &events);
    assert_eq!(cycle.modified, vec!["/tmp/proj/a.txt".to_string()]);
    assert_eq!(cycle.deleted, vec!["/tmp/proj/a.txt".to_string()]);
    let out = emissions(cycle);
    assert_eq!(out.len(), 2);
    assert_eq!(out[0].kind(), "deleted");
    assert_eq!(out[1].kind(), "modified");
}

#[test]
fn event_kind_tags_are_stable() {
    assert_eq!(Event::Modified(vec!["/a".to_string()]).kind(), "modified");
    assert_eq!(Event::Deleted(vec!["/a".to_string()]).kind(), "deleted");
    assert_eq!(Event::RootChanged("/a".to_string()).kind(), "rootChanged");
    assert_eq!(Event::Error.kind(), "error");
}

#[test]
fn directory_only_pattern_excludes_only_directories() {
    let filter = filter_with("/tmp/proj", &["target/"]);
    assert!(filter.is_excluded(&"/tmp/proj/target".to_string(), true));
    assert!(!filter.is_excluded(&"/tmp/proj/target".to_string(), false));
}

#[test]
fn builder_patterns_reach_the_filter() {
    let mut b = WatcherBuilder::new("/tmp/proj".to_string());
    b.add_pattern("*.log");
    b.add_patterns(&vec!["*.tmp".to_string(), "*.bak".to_string()]);
    assert_eq!(b.patterns, vec!["*.log", "*.tmp", "*.bak"]);
    let core = b.build().ok().expect("all patterns compile");
    let f = core.filter();
    assert!(f.is_excluded(&"/tmp/proj/x.log".to_string(), false));
    assert!(f.is_excluded(&"/tmp/proj/x.tmp".to_string(), false));
    assert!(f.is_excluded(&"/tmp/proj/x.bak".to_string(), false));
    assert!(!f.is_excluded(&"/tmp/proj/x.txt".to_string(), false));
}
