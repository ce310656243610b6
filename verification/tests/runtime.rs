use fwatch::command::{substitute, CommandLine};
use fwatch::fwatch::{Reaction, Runtime};
use fwatch::supervisor::Supervisor;
use fwatch::watch::{RawEvent, Registration, SubEvent};

fn strings(items: &[&str]) -> Vec<String> {
    items.iter().map(|s| s.to_string()).collect()
}

#[test]
fn construction() {
    assert_eq!(Runtime::new(vec![]).err().unwrap(), "Empty template string!");
    assert!(Runtime::new(vec!["echo", "{}"].into_iter().map(str::to_string).collect()).is_ok());
}

#[test]
fn fresh_runtime_has_no_filter_and_nothing_running() {
    let runtime = Runtime::new(strings(&["echo", "{}"])).ok().unwrap();
    assert_eq!(runtime.extension(), &None);
    assert!(!runtime.paging());
    assert_eq!(runtime.running(), None);
    assert_eq!(runtime.watches().len(), 0);
}

#[test]
fn placeholder_is_replaced_in_the_argument_vector() {
    let runtime = Runtime::new(strings(&["echo", "Test", "{}"])).ok().unwrap();
    let command = runtime.get_command("Hello.txt");
    assert_eq!(command.program, "echo");
    assert_eq!(command.args, strings(&["Test", "Hello.txt"]));
    assert_eq!(command.argv(), strings(&["echo", "Test", "Hello.txt"]));
    assert_eq!(command.argv().join(" ") + "\n", "echo Test Hello.txt\n");
}

#[test]
fn program_is_never_substituted() {
    let runtime = Runtime::new(strings(&["{}", "{}"])).ok().unwrap();
    let command = runtime.get_command("x");
    assert_eq!(command, CommandLine { program: "{}".to_string(), args: strings(&["x"]) });
}

#[test]
fn every_occurrence_is_replaced() {
    assert_eq!(substitute("{}", "a.rs"), "a.rs");
    assert_eq!(substitute("--in={} --out={}.o", "a.rs"), "--in=a.rs --out=a.rs.o");
    assert_eq!(substitute("{}{}", "ab"), "abab");
    assert_eq!(substitute("{{}}", "p"), "{p}");
    assert_eq!(substitute("}{", "p"), "}{");
    assert_eq!(substitute("{", "p"), "{");
    assert_eq!(substitute("", "p"), "");
}

#[test]
fn path_is_put_in_verbatim() {
    assert_eq!(substitute("cat {}", "my file; rm -rf $HOME"), "cat my file; rm -rf $HOME");
    assert_eq!(substitute("{}", "{}"), "{}");
    assert_eq!(substitute("x{}y", ""), "xy");
    assert_eq!(substitute("é{}ü", "ß"), "éßü");
}

#[test]
fn arguments_without_placeholder_pass_unchanged() {
    for arg in ["plain", "-v", "{ }", "}", "a{b}c", "ünïcödé"] {
        assert_eq!(substitute(arg, "/some/path"), arg);
    }
}

#[test]
fn builders_set_what_they_name() {
    let mut runtime = Runtime::new(strings(&["echo"])).ok().unwrap();
    runtime.set_extension("rs".to_string()).use_pager(true);
    assert_eq!(runtime.extension(), &Some("rs".to_string()));
    assert!(runtime.paging());
    runtime.use_pager(false);
    assert!(!runtime.paging());
    assert_eq!(runtime.extension(), &Some("rs".to_string()));
}

#[test]
fn first_start_has_nothing_to_kill() {
    let mut runtime = Runtime::new(strings(&["echo"])).ok().unwrap();
    assert_eq!(runtime.start(Ok(100)), Ok(None));
    assert_eq!(runtime.running(), Some(100));
}

#[test]
fn each_start_supersedes_the_previous_process() {
    let mut runtime = Runtime::new(strings(&["echo"])).ok().unwrap();
    let mut killed = Vec::new();
    for pid in [11u32, 12, 13, 14, 15] {
        if let Some(stale) = runtime.start(Ok(pid)).unwrap() {
            killed.push(stale);
        }
    }
    assert_eq!(runtime.running(), Some(15));
    assert_eq!(killed, vec![11, 12, 13, 14]);
}

#[test]
fn failed_start_leaves_the_running_process() {
    let mut runtime = Runtime::new(strings(&["echo"])).ok().unwrap();
    assert_eq!(runtime.start(Ok(7)), Ok(None));
    assert_eq!(
        runtime.start(Err("No such file or directory (os error 2)".to_string())),
        Err("Spawn error: No such file or directory (os error 2)".to_string())
    );
    assert_eq!(runtime.running(), Some(7));
    assert_eq!(runtime.start(Ok(8)), Ok(Some(7)));
}

#[test]
fn failed_start_on_idle_runtime_stays_idle() {
    let mut runtime = Runtime::new(strings(&["echo"])).ok().unwrap();
    assert_eq!(runtime.start(Err("".to_string())), Err("Spawn error: ".to_string()));
    assert_eq!(runtime.running(), None);
}

#[test]
fn supervisor_tracks_exactly_one_process() {
    let mut supervisor = Supervisor::new();
    assert_eq!(supervisor.current(), None);
    assert_eq!(supervisor.started(1), None);
    assert_eq!(supervisor.started(2), Some(1));
    assert_eq!(supervisor.started(2), Some(2));
    assert_eq!(supervisor.current(), Some(2));
}

#[test]
fn trigger_launches_the_command_on_the_path() {
    let mut runtime = Runtime::new(strings(&["echo", "Test", "{}"])).ok().unwrap();
    let failed = runtime.watch_directories(&vec![Registration {
        dir: "/work".to_string(),
        handle: Some(1),
    }]);
    assert!(failed.is_empty());
    let event = RawEvent {
        handle: 1,
        name: Some("Hello.txt".to_string()),
        is_dir: false,
        sub: SubEvent::CloseWrite,
    };
    assert_eq!(
        runtime.process_event(&event),
        Reaction::Launch {
            reset_pager: false,
            command: CommandLine {
                program: "echo".to_string(),
                args: strings(&["Test", "/work/Hello.txt"]),
            },
        }
    );
    runtime.use_pager(true);
    match runtime.process_event(&event) {
        Reaction::Launch { reset_pager, .. } => assert!(reset_pager),
        other => panic!("not a launch: {:?}", other),
    }
}

#[test]
fn new_directory_asks_for_a_watch_and_other_events_for_nothing() {
    let mut runtime = Runtime::new(strings(&["echo"])).ok().unwrap();
    runtime.watch_directories(&vec![Registration { dir: "/work".to_string(), handle: Some(1) }]);
    let created = RawEvent {
        handle: 1,
        name: Some("sub".to_string()),
        is_dir: true,
        sub: SubEvent::Create,
    };
    assert_eq!(runtime.process_event(&created), Reaction::Watch("/work/sub".to_string()));
    let file_created = RawEvent {
        handle: 1,
        name: Some("a.txt".to_string()),
        is_dir: false,
        sub: SubEvent::Create,
    };
    assert_eq!(runtime.process_event(&file_created), Reaction::Nothing);
}
