use fwatch::pager::input::Key;
use fwatch::pager2::{InputState, Pager2};

const SIZE: (u16, u16) = (20, 3);

fn filled(lines: usize) -> Pager2 {
    let mut pager = Pager2::new();
    for i in 0..lines {
        pager.add(&format!("{}", i), SIZE);
    }
    pager
}

#[test]
fn plain_pager_starts_empty_in_free_mode() {
    let pager = Pager2::new();
    assert!(pager.lines().is_empty());
    assert_eq!(pager.offset(), (0, 0));
    assert_eq!(pager.state(), &InputState::Free);
}

#[test]
fn plain_pager_follows_and_clamps() {
    let mut pager = filled(10);
    assert_eq!(pager.offset(), (0, 8));
    pager.slide((0, 5), SIZE);
    assert_eq!(pager.offset(), (0, 8));
    pager.slide((0, -20), SIZE);
    assert_eq!(pager.offset(), (0, 0));
    pager.page(false, SIZE);
    assert_eq!(pager.offset(), (0, 1));
    pager.page(true, SIZE);
    assert_eq!(pager.offset(), (0, 0));
    pager.add("more", SIZE);
    assert_eq!(pager.offset(), (0, 0));
}

#[test]
fn plain_pager_reset_clears_everything() {
    let mut pager = filled(10);
    pager.reset();
    assert!(pager.lines().is_empty());
    assert_eq!(pager.offset(), (0, 0));
    assert_eq!(pager.state(), &InputState::Free);
}

#[test]
fn plain_pager_keys() {
    let mut pager = filled(10);
    assert!(pager.press(&Key::Char('k'), SIZE));
    assert_eq!(pager.offset(), (0, 7));
    assert!(pager.press(&Key::Up, SIZE));
    assert_eq!(pager.offset(), (0, 6));
    assert!(pager.press(&Key::Char('j'), SIZE));
    assert!(pager.press(&Key::Down, SIZE));
    assert_eq!(pager.offset(), (0, 8));
    assert!(pager.press(&Key::PageUp, SIZE));
    assert_eq!(pager.offset(), (0, 7));
    assert!(pager.press(&Key::PageDown, SIZE));
    assert_eq!(pager.offset(), (0, 8));
    assert!(pager.press(&Key::Char('/'), SIZE));
    assert!(pager.press(&Key::Esc, SIZE));
    assert!(pager.press(&Key::Ctrl('x'), SIZE));
    assert_eq!(pager.offset(), (0, 8));
    assert_eq!(pager.state(), &InputState::Free);
    assert!(!pager.press(&Key::Char('q'), SIZE));
    assert!(!pager.press(&Key::Ctrl('c'), SIZE));
    assert_eq!(pager.state(), &InputState::Free);
    assert_eq!(pager.free_handler(&Key::Char('q'), SIZE), InputState::Exit);
    assert_eq!(pager.free_handler(&Key::Char('z'), SIZE), InputState::Free);
}

#[test]
fn plain_pager_frame() {
    let mut pager = filled(3);
    assert_eq!(
        pager.draw(SIZE),
        "\x1b[1;1H\x1b[2J1\r2\r\x1b[3;18H\x1b[38;2;0;0;0m\x1b[48;2;255;255;0m1/3\x1b[39m\x1b[49m\x1b[3;1H"
    );
    assert_eq!(pager.draw_base(SIZE), pager.draw(SIZE));
    pager.reset();
    assert_eq!(
        pager.draw(SIZE),
        "\x1b[1;1H\x1b[2J\x1b[3;18H\x1b[38;2;0;0;0m\x1b[48;2;255;255;0m0/0\x1b[39m\x1b[49m\x1b[3;1H"
    );
}
