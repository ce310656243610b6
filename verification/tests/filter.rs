use fwatch::fwatch::{Classification, Runtime};
use fwatch::watch::{RawEvent, Registration, SubEvent, WalkStep, WatchTable};

fn runtime() -> Runtime {
    let mut runtime = Runtime::new(vec!["echo".to_string(), "{}".to_string()]).ok().unwrap();
    let failed = runtime.watch_directories(&vec![
        Registration { dir: "/work".to_string(), handle: Some(1) },
        Registration { dir: "/work/src/".to_string(), handle: Some(2) },
    ]);
    assert!(failed.is_empty());
    runtime
}

fn event(handle: u64, name: &str, is_dir: bool, sub: SubEvent) -> RawEvent {
    RawEvent { handle, name: Some(name.to_string()), is_dir, sub }
}

fn written(handle: u64, name: &str) -> RawEvent {
    event(handle, name, false, SubEvent::CloseWrite)
}

fn trigger(path: &str) -> Classification {
    Classification::Trigger(path.to_string())
}

#[test]
fn extension_filter_triggers_on_exact_extension_only() {
    let mut rt = runtime();
    rt.set_extension("rs".to_string());
    assert_eq!(rt.classify(&written(1, "main.rs")), trigger("/work/main.rs"));
    assert_eq!(rt.classify(&written(2, "lib.rs")), trigger("/work/src/lib.rs"));
    assert_eq!(rt.classify(&written(1, "main.rs.bak")), Classification::Ignore);
    assert_eq!(rt.classify(&written(1, "main.r")), Classification::Ignore);
    assert_eq!(rt.classify(&written(1, "main.rss")), Classification::Ignore);
    assert_eq!(rt.classify(&written(1, "rs")), Classification::Ignore);
    assert_eq!(rt.classify(&written(1, ".rs")), Classification::Ignore);
    assert_eq!(rt.classify(&written(1, "a.b.rs")), trigger("/work/a.b.rs"));
}

#[test]
fn extension_filter_is_case_sensitive() {
    let mut rt = runtime();
    rt.set_extension("rs".to_string());
    assert_eq!(rt.classify(&written(1, "main.RS")), Classification::Ignore);
    assert_eq!(rt.classify(&written(1, "main.Rs")), Classification::Ignore);
    rt.set_extension("RS".to_string());
    assert_eq!(rt.classify(&written(1, "main.rs")), Classification::Ignore);
    assert_eq!(rt.classify(&written(1, "main.RS")), trigger("/work/main.RS"));
}

#[test]
fn extension_match_triggers_whatever_the_regex_says() {
    let mut rt = runtime();
    rt.set_extension("rs".to_string());
    rt.set_regex(regex::Regex::new("^never matches this$").unwrap());
    assert_eq!(rt.classify(&written(1, "main.rs")), trigger("/work/main.rs"));
    assert_eq!(rt.decide(&written(1, "main.rs"), false), trigger("/work/main.rs"));
    assert_eq!(rt.decide(&written(1, "main.rs"), true), trigger("/work/main.rs"));
}

#[test]
fn extension_filter_decides_alone_where_it_is_set() {
    let mut rt = runtime();
    rt.set_extension("rs".to_string());
    rt.set_regex(regex::Regex::new("txt").unwrap());
    assert_eq!(rt.classify(&written(1, "notes.txt")), Classification::Ignore);
    assert_eq!(rt.decide(&written(1, "notes.txt"), true), Classification::Ignore);
}

#[test]
fn regex_filter_decides_without_an_extension_filter() {
    let mut rt = runtime();
    rt.set_regex(regex::Regex::new(r"src/.*\.rs$").unwrap());
    assert_eq!(rt.classify(&written(2, "lib.rs")), trigger("/work/src/lib.rs"));
    assert_eq!(rt.classify(&written(1, "lib.rs")), Classification::Ignore);
    assert_eq!(rt.classify(&written(2, "lib.rs.orig")), Classification::Ignore);
    assert_eq!(rt.is_executable_event(&written(2, "lib.rs")), Some("/work/src/lib.rs".to_string()));
    assert_eq!(rt.is_executable_event(&written(1, "lib.rs")), None);
}

#[test]
fn regex_is_matched_against_the_whole_path() {
    let mut rt = runtime();
    rt.set_regex(regex::Regex::new("^/work/a$").unwrap());
    assert_eq!(rt.classify(&written(1, "a")), trigger("/work/a"));
    assert_eq!(rt.classify(&written(2, "a")), Classification::Ignore);
}

#[test]
fn decide_follows_the_answer_it_is_given() {
    let mut rt = runtime();
    rt.set_regex(regex::Regex::new("x").unwrap());
    assert_eq!(rt.decide(&written(1, "a"), true), trigger("/work/a"));
    assert_eq!(rt.decide(&written(1, "a"), false), Classification::Ignore);
    assert!(rt.admits("/work/a", true));
    assert!(!rt.admits("/work/a", false));
}

#[test]
fn without_a_filter_every_written_file_triggers() {
    let rt = runtime();
    for name in ["a", "a.rs", ".hidden", "Makefile", "x.tar.gz", "ü.txt"] {
        assert_eq!(rt.classify(&written(1, name)), trigger(&format!("/work/{}", name)));
        assert_eq!(rt.decide(&written(1, name), false), trigger(&format!("/work/{}", name)));
    }
}

#[test]
fn directories_never_trigger() {
    let mut rt = runtime();
    for sub in [
        SubEvent::CloseWrite,
        SubEvent::Create,
        SubEvent::MovedTo,
        SubEvent::MovedFrom,
        SubEvent::Other,
    ] {
        let dir_event = event(1, "dir.rs", true, sub);
        assert!(!matches!(rt.classify(&dir_event), Classification::Trigger(_)));
        assert!(!matches!(rt.decide(&dir_event, true), Classification::Trigger(_)));
        assert_eq!(rt.is_executable_event(&dir_event), None);
    }
    rt.set_extension("rs".to_string());
    assert_eq!(rt.classify(&event(1, "dir.rs", true, SubEvent::CloseWrite)), Classification::Ignore);
}

#[test]
fn created_or_moved_in_directories_are_to_be_watched() {
    let rt = runtime();
    assert_eq!(
        rt.classify(&event(1, "sub", true, SubEvent::Create)),
        Classification::WatchDir("/work/sub".to_string())
    );
    assert_eq!(
        rt.classify(&event(1, "sub", true, SubEvent::MovedTo)),
        Classification::WatchDir("/work/sub".to_string())
    );
    assert_eq!(rt.is_watchable_dir(&event(1, "sub", true, SubEvent::Create)), Some("/work/sub".to_string()));
    assert_eq!(rt.classify(&event(1, "sub", true, SubEvent::MovedFrom)), Classification::Ignore);
    assert_eq!(rt.classify(&event(1, "sub", true, SubEvent::Other)), Classification::Ignore);
    assert_eq!(rt.is_watchable_dir(&event(1, "sub", false, SubEvent::Create)), None);
    assert_eq!(rt.is_watchable_dir(&written(1, "sub")), None);
}

#[test]
fn other_file_events_are_ignored() {
    let rt = runtime();
    for sub in [SubEvent::Create, SubEvent::MovedTo, SubEvent::MovedFrom, SubEvent::Other] {
        assert_eq!(rt.classify(&event(1, "a.rs", false, sub)), Classification::Ignore);
    }
}

#[test]
fn events_without_a_path_are_dropped() {
    let rt = runtime();
    assert_eq!(rt.classify(&written(99, "a.rs")), Classification::Ignore);
    assert_eq!(rt.classify(&event(99, "sub", true, SubEvent::Create)), Classification::Ignore);
    let nameless = RawEvent { handle: 1, name: None, is_dir: false, sub: SubEvent::CloseWrite };
    assert_eq!(rt.classify(&nameless), Classification::Ignore);
    assert_eq!(rt.get_event_path(&nameless), None);
    assert_eq!(rt.get_event_path(&written(1, "a")), Some("/work/a".to_string()));
}

#[test]
fn new_subdirectory_is_watched_without_a_restart() {
    let mut rt = runtime();
    let in_sub = written(3, "file.txt");
    assert_eq!(rt.classify(&in_sub), Classification::Ignore);
    let appeared = rt.classify(&event(1, "sub", true, SubEvent::Create));
    let dir = match appeared {
        Classification::WatchDir(dir) => dir,
        other => panic!("not a directory to watch: {:?}", other),
    };
    assert_eq!(dir, "/work/sub");
    let failed = rt.watch_directories(&vec![Registration { dir, handle: Some(3) }]);
    assert!(failed.is_empty());
    assert_eq!(rt.classify(&in_sub), trigger("/work/sub/file.txt"));
}

#[test]
fn one_bad_directory_does_not_stop_the_others() {
    let (table, failed) = WatchTable::initialize(&vec![
        Registration { dir: "/a".to_string(), handle: Some(1) },
        Registration { dir: "/a/locked".to_string(), handle: None },
        Registration { dir: "/a/b".to_string(), handle: Some(2) },
        Registration { dir: "/a/gone".to_string(), handle: None },
    ]);
    assert_eq!(failed, vec!["/a/locked".to_string(), "/a/gone".to_string()]);
    assert_eq!(table.len(), 2);
    assert_eq!(table.resolve(1, "x"), Some("/a/x".to_string()));
    assert_eq!(table.resolve(2, "x"), Some("/a/b/x".to_string()));
}

#[test]
fn a_handle_stands_for_its_latest_directory() {
    let mut table = WatchTable::new();
    assert_eq!(table.resolve(1, "x"), None);
    table.record(1, "/old".to_string());
    table.record(1, "/new".to_string());
    assert_eq!(table.len(), 1);
    assert_eq!(table.resolve(1, "x"), Some("/new/x".to_string()));
    let failed = table.extend(&vec![
        Registration { dir: "/newer".to_string(), handle: Some(1) },
        Registration { dir: "/other".to_string(), handle: Some(2) },
    ]);
    assert!(failed.is_empty());
    assert_eq!(table.resolve(1, "x"), Some("/newer/x".to_string()));
    assert_eq!(table.len(), 2);
}

#[test]
fn a_watched_directory_is_found_by_its_path() {
    let rt = runtime();
    assert_eq!(rt.watches().handle_of("/work"), Some(1));
    assert_eq!(rt.watches().handle_of("/work/src/"), Some(2));
    assert_eq!(rt.watches().handle_of("/work/src"), None);
    assert_eq!(rt.watches().handle_of("/Work"), None);
    assert_eq!(WatchTable::new().handle_of("/work"), None);
    let mut twice = WatchTable::new();
    twice.record(5, "/d".to_string());
    twice.record(6, "/d".to_string());
    assert!(matches!(twice.handle_of("/d"), Some(5) | Some(6)));
}

#[test]
fn the_walk_watches_each_directory_once_and_skips_ignored_ones() {
    let rt = runtime();
    assert_eq!(rt.watches().visit("/work/new", false), WalkStep::Watch);
    assert_eq!(rt.watches().visit("/work", false), WalkStep::Enter);
    assert_eq!(rt.watches().visit("/work/.git", true), WalkStep::Skip);
    assert_eq!(rt.watches().visit("/work", true), WalkStep::Skip);
    assert_eq!(WatchTable::new().visit("/", false), WalkStep::Watch);
}
