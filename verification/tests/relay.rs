use fwatch::pager::Pager;
use fwatch::relay::{relay, ReadOutcome};

const SIZE: (u16, u16) = (20, 3);

#[test]
fn lines_are_relayed_as_they_come() {
    let mut pager = Pager::new();
    assert!(relay(&mut pager, &ReadOutcome::Line("Test Hello.txt\n".to_string()), SIZE));
    assert!(relay(&mut pager, &ReadOutcome::Line("".to_string()), SIZE));
    assert_eq!(pager.lines(), &vec!["Test Hello.txt\n".to_string(), "".to_string()]);
}

#[test]
fn end_of_stream_adds_the_marker_and_stops() {
    let mut pager = Pager::new();
    assert!(relay(&mut pager, &ReadOutcome::Line("out\n".to_string()), SIZE));
    assert!(!relay(&mut pager, &ReadOutcome::End, SIZE));
    assert_eq!(pager.lines(), &vec!["out\n".to_string(), "ZzzEOF".to_string()]);
}

#[test]
fn read_failure_adds_an_error_line_and_stops() {
    let mut pager = Pager::new();
    assert!(!relay(&mut pager, &ReadOutcome::Failed("stream did not contain valid UTF-8".to_string()), SIZE));
    assert_eq!(pager.lines(), &vec!["Error: stream did not contain valid UTF-8".to_string()]);
}

#[test]
fn relayed_lines_are_followed_like_added_ones() {
    let mut pager = Pager::new();
    for i in 0..5 {
        assert!(relay(&mut pager, &ReadOutcome::Line(format!("{}\n", i)), SIZE));
    }
    assert_eq!(pager.offset(), (0, 3));
    pager.slide((0, -2), SIZE);
    assert!(!relay(&mut pager, &ReadOutcome::End, SIZE));
    assert_eq!(pager.offset(), (0, 1));
    assert_eq!(pager.line_count(), 6);
}

#[test]
fn reset_before_a_new_run_drops_the_old_output() {
    let mut pager = Pager::new();
    assert!(relay(&mut pager, &ReadOutcome::Line("old\n".to_string()), SIZE));
    assert!(!relay(&mut pager, &ReadOutcome::End, SIZE));
    pager.reset();
    assert!(relay(&mut pager, &ReadOutcome::Line("new\n".to_string()), SIZE));
    assert_eq!(pager.lines(), &vec!["new\n".to_string()]);
}
