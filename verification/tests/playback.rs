use termvid::glyph::gray_to_char;
use termvid::pacer::Pacer;
use termvid::plane::{plane_position, real_cols, valid_plane_dims};
use termvid::position::Position;
use termvid::render::{
    process_audio_frame, validate_config, video_frame_step, ConfigError, WAVE_MARK,
};
use termvid::ringer::Ringer;
use termvid::screen::{Screen, BLANK};

#[test]
fn test_gray_text() {
    assert_eq!(gray_to_char(0), ' ');
    assert_eq!(gray_to_char(1), ' ');

    assert_eq!(gray_to_char(63), '-');

    assert_eq!(gray_to_char(255), '8');
}

#[test]
fn test_gray_text_bucket_boundaries() {
    assert_eq!(gray_to_char(30), ' ');
    assert_eq!(gray_to_char(31), '·');
    assert_eq!(gray_to_char(61), '·');
    assert_eq!(gray_to_char(62), '-');
    assert_eq!(gray_to_char(92), '-');
    assert_eq!(gray_to_char(93), ' ');
    assert_eq!(gray_to_char(123), ' ');
    assert_eq!(gray_to_char(124), 'x');
    assert_eq!(gray_to_char(154), 'x');
    assert_eq!(gray_to_char(155), '━');
    assert_eq!(gray_to_char(185), '━');
    assert_eq!(gray_to_char(186), '✖');
    assert_eq!(gray_to_char(216), '✖');
    assert_eq!(gray_to_char(217), '8');
}

#[test]
fn test_plane_mapper_stride_correction() {
    // A 5x2 target fed a 12-sample plane: two padding samples, one per
    // row, so the padded row is 6 wide.
    assert!(valid_plane_dims(12, 5, 2));
    let rc = real_cols(12, 5, 2);
    assert_eq!(rc, 6);

    // Sample 5 is padding: it lands on column 5, outside a 5-wide grid.
    assert_eq!(plane_position(5, rc), Position::new(5, 0));
    // Sample 6 starts the second row at the left edge.
    assert_eq!(plane_position(6, rc), Position::new(0, 1));

    let mut screen = Screen::with_size(Position::new(5, 2));
    screen.write(&plane_position(5, rc), '8');
    assert!(screen.flush().is_empty());
    assert_eq!(screen.read(&Position::new(5, 0)), BLANK);
}

#[test]
fn test_plane_mapper_exact_fit() {
    // plane_length == cols * rows: no padding, real row == target row.
    assert!(valid_plane_dims(10, 5, 2));
    assert_eq!(real_cols(10, 5, 2), 5);
    assert_eq!(plane_position(9, 5), Position::new(4, 1));
}

#[test]
fn test_plane_dims_validation_rejects_bad_shapes() {
    // Too few samples for the grid.
    assert!(!valid_plane_dims(9, 5, 2));
    // Padding that does not divide evenly across the rows.
    assert!(!valid_plane_dims(13, 5, 2));
    // Degenerate grids.
    assert!(!valid_plane_dims(12, 0, 2));
    assert!(!valid_plane_dims(12, 5, 0));
    assert!(!valid_plane_dims(12, -5, 2));
}

#[test]
fn test_pacer_sleep_schedule() {
    // 30 fps, 30 frames in: one second is owed.
    let pacer = Pacer {
        fps_num: 30,
        fps_den: 1,
        frame_count: 30,
    };
    // A second and a half already passed: ahead of schedule, no sleep.
    assert_eq!(pacer.sleep_nanos(1_500_000_000), 0);
    // Only half a second passed: sleep the other half.
    assert_eq!(pacer.sleep_nanos(500_000_000), 500_000_000);
    // Exactly on schedule: no sleep.
    assert_eq!(pacer.sleep_nanos(1_000_000_000), 0);
}

#[test]
fn test_pacer_counts_frames_forward() {
    let mut pacer = Pacer::new(24, 1);
    assert_eq!(pacer.frame_count, 0);
    pacer.count_frame();
    pacer.count_frame();
    assert_eq!(pacer.frame_count, 2);
    assert_eq!(pacer.fps_num, 24);
    assert_eq!(pacer.fps_den, 1);
}

#[test]
fn test_pacer_rational_rate() {
    // NTSC-style 30000/1001: after 30 frames, 1.001 seconds are owed.
    let pacer = Pacer {
        fps_num: 30000,
        fps_den: 1001,
        frame_count: 30,
    };
    assert_eq!(pacer.sleep_nanos(1_000_000_000), 1_000_000);
}

#[test]
fn test_ringer_debounces_within_window() {
    let mut ringer = Ringer::new();
    // Three rings inside one 500ms window queue exactly one event.
    ringer.ring(0);
    ringer.ring(100_000_000);
    ringer.ring(200_000_000);
    assert!(ringer.flush());
    assert!(!ringer.flush());
    // Still inside the window: nothing new can latch.
    ringer.ring(499_999_999);
    assert!(!ringer.flush());
    // The window has elapsed: the next ring qualifies again.
    ringer.ring(500_000_000);
    assert!(ringer.flush());
    assert!(!ringer.flush());
}

#[test]
fn test_config_validation() {
    let ok = validate_config(80, 24, 30, 1).unwrap();
    assert_eq!(ok.cols, 80);
    assert_eq!(ok.rows, 24);
    assert_eq!(ok.fps_num, 30);
    assert_eq!(ok.fps_den, 1);

    assert_eq!(validate_config(0, 24, 30, 1), Err(ConfigError::EmptyDimensions));
    assert_eq!(validate_config(80, -1, 30, 1), Err(ConfigError::EmptyDimensions));
    assert_eq!(validate_config(80, 24, 0, 1), Err(ConfigError::MissingFrameRate));
    assert_eq!(validate_config(80, 24, 30, 0), Err(ConfigError::MissingFrameRate));
}

#[test]
fn test_video_frame_step_renders_paces_and_diffs() {
    // The stride scenario again, end to end: 5x2 grid, 12-sample plane
    // with a 6-wide padded row.
    let mut screen = Screen::with_size(Position::new(5, 2));
    let mut pacer = Pacer::new(30, 1);
    let plane: Vec<u8> = vec![
        0, 0, 0, 0, 0, 255, // row 0, last sample is padding
        255, 0, 0, 0, 0, 0, // row 1 starts with a bright sample
    ];

    let (wait, diff) = video_frame_step(&mut screen, &mut pacer, &plane, 6, 0, 0);
    assert_eq!(pacer.frame_count, 1);
    // One frame at 30fps: a 33.33ms schedule against zero elapsed.
    assert_eq!(wait, 33_333_333);

    // The padding sample at (5,0) was dropped; (0,1) got the bright
    // glyph; every in-bounds dark sample committed a space.
    assert!(diff.iter().all(|(p, _)| p.col < 5 && p.row < 2));
    assert!(diff.contains(&(Position::new(0, 1), '8')));
    assert!(!diff.iter().any(|(p, _)| *p == Position::new(5, 0)));
    assert_eq!(diff.len(), 10);
    assert_eq!(screen.read(&Position::new(0, 1)), '8');
    assert_eq!(screen.read(&Position::new(0, 0)), ' ');

    // The same frame again: nothing changed, nothing re-emitted.
    let (_, second) = video_frame_step(&mut screen, &mut pacer, &plane, 6, 0, 0);
    assert!(second.is_empty());
}

#[test]
fn test_video_frame_step_with_waveform_offset() {
    // With the waveform shown, the video shifts five columns right.
    let mut screen = Screen::with_size(Position::new(8, 1));
    let mut pacer = Pacer::new(30, 1);
    let plane: Vec<u8> = vec![255, 255, 255];
    let (_, diff) = video_frame_step(&mut screen, &mut pacer, &plane, 3, 5, 0);
    let mut cols: Vec<i32> = diff.iter().map(|(p, _)| p.col).collect();
    cols.sort();
    assert_eq!(cols, vec![5, 6, 7]);
}

#[test]
fn test_audio_frame_rings_and_plots() {
    let mut wave = Screen::with_size(Position::new(5, 10));
    let mut ringer = Ringer::new();

    // A quiet frame never rings.
    process_audio_frame(&mut wave, &mut ringer, 0, false, 3, 1);
    assert!(!ringer.flush());
    let diff = wave.flush();
    assert_eq!(diff, vec![(Position::new(1, 3), WAVE_MARK)]);

    // A loud frame rings, and the level column cycles with the count.
    process_audio_frame(&mut wave, &mut ringer, 0, true, 9, 2);
    assert!(ringer.flush());
    let diff = wave.flush();
    assert_eq!(diff, vec![(Position::new(2, 9), WAVE_MARK)]);

    // An out-of-range level row plots nothing.
    process_audio_frame(&mut wave, &mut ringer, 0, false, 42, 3);
    assert!(wave.flush().is_empty());

    // Every fifth frame wipes the sub-grid before plotting.
    process_audio_frame(&mut wave, &mut ringer, 0, false, 0, 5);
    let diff = wave.flush();
    assert_eq!(diff, vec![(Position::new(0, 0), WAVE_MARK)]);
    assert_eq!(wave.read(&Position::new(1, 3)), BLANK);
    assert_eq!(wave.read(&Position::new(2, 9)), BLANK);
}
