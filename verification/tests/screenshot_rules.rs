use fps_paintball_wildwest::screenshot::{FrameCounter, ScreenshotAction, ScreenshotConfig};

fn args(list: &[&str]) -> Vec<String> {
    list.iter().map(|s| s.to_string()).collect()
}

#[test]
fn no_arguments() {
    let cfg = ScreenshotConfig::from_args(&args(&["game"]));
    assert_eq!(cfg.path, None);
    assert_eq!(cfg.frames, 90);
    let cfg = ScreenshotConfig::from_args(&args(&[]));
    assert_eq!((cfg.path, cfg.frames), (None, 90));
}

#[test]
fn path_and_frames() {
    let cfg = ScreenshotConfig::from_args(&args(&["game", "--screenshot", "/tmp/a.png", "--frames", "12"]));
    assert_eq!(cfg.path.as_deref(), Some("/tmp/a.png"));
    assert_eq!(cfg.frames, 12);
}

#[test]
fn bad_frames_fall_back() {
    let cfg = ScreenshotConfig::from_args(&args(&["game", "--frames", "many"]));
    assert_eq!(cfg.frames, 90);
    let cfg = ScreenshotConfig::from_args(&args(&["game", "--frames"]));
    assert_eq!(cfg.frames, 90);
    let cfg = ScreenshotConfig::from_args(&args(&["game", "--frames", "5", "--frames", "-3"]));
    assert_eq!(cfg.frames, 90);
}

#[test]
fn screenshot_flag_at_the_end() {
    let cfg = ScreenshotConfig::from_args(&args(&["game", "--screenshot", "x.png", "--screenshot"]));
    assert_eq!(cfg.path, None);
    // The value of a flag is consumed even when it looks like a flag.
    let cfg = ScreenshotConfig::from_args(&args(&["game", "--screenshot", "--frames", "7"]));
    assert_eq!(cfg.path.as_deref(), Some("--frames"));
    assert_eq!(cfg.frames, 90);
    // The program name is never read as a flag.
    let cfg = ScreenshotConfig::from_args(&args(&["--frames", "3"]));
    assert_eq!(cfg.frames, 90);
}

#[test]
fn default_config() {
    let cfg = ScreenshotConfig::default();
    assert_eq!((cfg.path, cfg.frames), (None, 0));
}

#[test]
fn frame_sequence() {
    let mut c = FrameCounter::new();
    for _ in 0..2 {
        assert_eq!(c.frame(3, true, true), ScreenshotAction::Wait);
    }
    assert_eq!(c.frame(3, true, true), ScreenshotAction::Capture);
    assert!(c.shot_triggered);
    for _ in 0..30 {
        assert_eq!(c.frame(3, true, true), ScreenshotAction::Wait);
    }
    assert_eq!(c.frame(3, true, true), ScreenshotAction::Exit);
    assert_eq!(c.frame(3, true, true), ScreenshotAction::Exit);
    assert_eq!(c.frames_seen, 3);
}

#[test]
fn no_window_no_capture() {
    let mut c = FrameCounter::new();
    assert_eq!(c.frame(1, true, false), ScreenshotAction::Wait);
    assert_eq!(c.frame(1, false, true), ScreenshotAction::Wait);
    assert_eq!(c.frame(1, true, true), ScreenshotAction::Capture);
    assert_eq!(c.frames_seen, 3);
}

#[test]
fn screenshot_run_with_missing_window() {
    // Window missing on frames 3 and 4: the capture waits for frame 5 and is
    // never repeated; exit comes 31 frames later, on every frame from then on.
    let mut c = FrameCounter::new();
    let mut actions = Vec::new();
    for i in 0..60u32 {
        let window = !(i == 2 || i == 3);
        actions.push(c.frame(3, true, window));
    }
    for (i, a) in actions.iter().enumerate() {
        let expected = if i < 4 {
            ScreenshotAction::Wait
        } else if i == 4 {
            ScreenshotAction::Capture
        } else if i - 4 <= 30 {
            ScreenshotAction::Wait
        } else {
            ScreenshotAction::Exit
        };
        assert_eq!(*a, expected, "frame {}", i);
    }
    assert_eq!(c.frames_seen, 5);
}
