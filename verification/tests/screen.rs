use termvid::position::Position;
use termvid::screen::{Screen, BLANK};

#[test]
fn test_buffer() {
    let mut screen = Screen::default();
    screen.write(&(0, 1).into(), 'h');
    screen.write(&(1, 2).into(), 'i');

    assert_eq!(screen.read(&(0, 1).into()), ' ');
    assert_eq!(screen.read(&(1, 2).into()), ' ');

    let out = screen.flush();
    assert_eq!(out.len(), 2);

    assert_eq!(screen.read(&(0, 1).into()), 'h');
    assert_eq!(screen.read(&(1, 2).into()), 'i');
}

#[test]
fn test_second_flush_is_empty() {
    let mut screen = Screen::with_size(Position::new(4, 3));
    screen.write(&Position::new(0, 0), 'q');
    screen.write(&Position::new(3, 2), 'z');
    screen.write(&Position::new(1, 1), BLANK);
    let first = screen.flush();
    assert_eq!(first.len(), 3);
    let second = screen.flush();
    assert!(second.is_empty());
}

#[test]
fn test_write_flush_read_returns_written_char() {
    let mut screen = Screen::with_size(Position::new(7, 7));
    for (col, row, ch) in [(0, 0, 'a'), (6, 6, 'b'), (3, 5, ' '), (5, 3, '8')] {
        screen.write(&Position::new(col, row), ch);
        screen.flush();
        assert_eq!(screen.read(&Position::new(col, row)), ch);
    }
}

#[test]
fn test_out_of_bounds_write_is_dropped() {
    let mut screen = Screen::with_size(Position::new(2, 2));
    for pos in [
        Position::new(2, 0),
        Position::new(0, 2),
        Position::new(-1, 0),
        Position::new(0, -1),
        Position::new(1000, 1000),
    ] {
        let prev = screen.write(&pos, 'X');
        assert_eq!(prev, BLANK);
        let diff = screen.flush();
        assert!(diff.is_empty());
        assert_eq!(screen.read(&pos), BLANK);
    }
}

#[test]
fn test_end_to_end_diffing() {
    let mut screen = Screen::with_size(Position::new(2, 2));
    screen.write(&Position::new(0, 0), 'a');
    screen.write(&Position::new(1, 1), 'b');

    let mut first = screen.flush();
    first.sort_by_key(|(p, _)| (p.row, p.col));
    assert_eq!(first, vec![(Position::new(0, 0), 'a'), (Position::new(1, 1), 'b')]);

    screen.write(&Position::new(0, 0), 'a');
    let second = screen.flush();
    assert_eq!(second, vec![]);

    screen.write(&Position::new(0, 0), 'c');
    let third = screen.flush();
    assert_eq!(third, vec![(Position::new(0, 0), 'c')]);
}

#[test]
fn test_write_returns_previously_pending() {
    let mut screen = Screen::with_size(Position::new(3, 3));
    assert_eq!(screen.write(&Position::new(1, 1), 'a'), BLANK);
    assert_eq!(screen.write(&Position::new(1, 1), 'b'), 'a');
    screen.flush();
    // The pending overlay is kept across flushes.
    assert_eq!(screen.write(&Position::new(1, 1), 'c'), 'b');
}

#[test]
fn test_writing_blank_is_a_normal_write() {
    let mut screen = Screen::with_size(Position::new(2, 1));
    screen.write(&Position::new(0, 0), 'a');
    screen.flush();
    screen.write(&Position::new(0, 0), BLANK);
    let diff = screen.flush();
    assert_eq!(diff, vec![(Position::new(0, 0), BLANK)]);
    assert_eq!(screen.read(&Position::new(0, 0)), BLANK);
}

#[test]
fn test_clear_forgets_both_surfaces() {
    let mut screen = Screen::with_size(Position::new(3, 2));
    screen.write(&Position::new(1, 0), 'm');
    screen.flush();
    screen.clear();
    assert_eq!(screen.read(&Position::new(1, 0)), BLANK);
    assert!(screen.flush().is_empty());
}

#[test]
fn test_zero_sized_screen_renders_nothing() {
    let mut screen = Screen::with_size(Position::new(0, 0));
    screen.write(&Position::new(0, 0), 'a');
    assert!(screen.flush().is_empty());
}

#[test]
fn test_screen_clamp_and_clip() {
    let screen = Screen::with_size(Position::new(10, 5));
    assert_eq!(screen.clamp(&Position::new(-3, 99)), Position::new(0, 5));
    assert_eq!(screen.clamp(&Position::new(10, 5)), Position::new(10, 5));
    assert_eq!(screen.clip(&Position::new(-3, 4)), (0, 4));
    assert_eq!(screen.width(), 10);
    assert_eq!(screen.height(), 5);
}
