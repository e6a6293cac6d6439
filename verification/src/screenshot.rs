//! The screenshot helper: its command line and its per-frame decisions.
//!
//! With `--screenshot <path>` the game waits `--frames <n>` frames (90 by
//! default), asks for one screenshot of the window, waits 30 more frames
//! and then exits.
use vstd::prelude::*;
use crate::text::{parse_u32, spec_parse_u32, str_equal};

verus! {

/// Frames waited before the screenshot when `--frames` is absent or unreadable.
pub const DEFAULT_FRAMES: u32 = 90;

/// Frames waited after the screenshot before the game exits.
pub const EXIT_AFTER_FRAMES: u32 = 30;

/// Where to save the screenshot and after how many frames.
#[derive(Debug, Clone)]
pub struct ScreenshotConfig {
    pub path: Option<String>,
    pub frames: u32,
}

/// The path of a configuration as characters.
pub open spec fn path_view(p: Option<String>) -> Option<Seq<char>> {
    match p {
        Some(s) => Some(s@),
        None => None,
    }
}

/// The frame count that a `--frames` value gives.
pub open spec fn frames_value(s: Seq<char>) -> u32 {
    match spec_parse_u32(s) {
        Some(n) => n,
        None => DEFAULT_FRAMES,
    }
}

/// Reads the arguments from index `i` on, starting from `path` and `frames`.
/// `--screenshot` takes the next argument as the path (none if it is the
/// last); `--frames` takes the next argument as the frame count; every other
/// argument is skipped.
pub open spec fn scan_args(args: Seq<Seq<char>>, i: int, path: Option<Seq<char>>, frames: u32) -> (
    Option<Seq<char>>,
    u32,
)
    decreases args.len() - i,
{
    if i < 0 || i >= args.len() {
        (path, frames)
    } else if args[i] == "--screenshot"@ {
        if i + 1 < args.len() {
            scan_args(args, i + 2, Some(args[i + 1]), frames)
        } else {
            scan_args(args, i + 1, None, frames)
        }
    } else if args[i] == "--frames"@ {
        if i + 1 < args.len() {
            scan_args(args, i + 2, path, frames_value(args[i + 1]))
        } else {
            scan_args(args, i + 1, path, frames)
        }
    } else {
        scan_args(args, i + 1, path, frames)
    }
}

/// The configuration that the command line `args` (program name first) gives.
pub open spec fn spec_from_args(args: Seq<Seq<char>>) -> (Option<Seq<char>>, u32) {
    scan_args(args, 1, None, DEFAULT_FRAMES)
}

pub open spec fn arg_views(args: Seq<String>) -> Seq<Seq<char>> {
    args.map_values(|s: String| s@)
}

impl ScreenshotConfig {
    /// Reads the configuration from the command line; `args` holds the
    /// program name and then the arguments.
    pub fn from_args(args: &Vec<String>) -> (cfg: Self)
        ensures
            (path_view(cfg.path), cfg.frames) == spec_from_args(arg_views(args@)),
    {
        let ghost av = arg_views(args@);
        let n = args.len();
        let mut path: Option<String> = None;
        let mut frames: u32 = DEFAULT_FRAMES;
        let mut i: usize = 1;
        while i < n
            invariant
                n == args@.len(),
                av == arg_views(args@),
                av.len() == n,
                1 <= i,
                spec_from_args(av) == scan_args(av, i as int, path_view(path), frames),
            decreases n - i,
        {
            assert(av[i as int] == args@[i as int]@);
            if str_equal(args[i].as_str(), "--screenshot") {
                if i + 1 < n {
                    assert(av[i + 1] == args@[i + 1]@);
                    path = Some(args[i + 1].clone());
                    i = i + 2;
                } else {
                    path = None;
                    i = i + 1;
                }
            } else if str_equal(args[i].as_str(), "--frames") {
                if i + 1 < n {
                    assert(av[i + 1] == args@[i + 1]@);
                    frames = match parse_u32(args[i + 1].as_str()) {
                        Some(v) => v,
                        None => DEFAULT_FRAMES,
                    };
                    i = i + 2;
                } else {
                    i = i + 1;
                }
            } else {
                i = i + 1;
            }
        }
        ScreenshotConfig { path, frames }
    }
}

impl Default for ScreenshotConfig {
    fn default() -> (cfg: Self)
        ensures
            cfg.path is None,
            cfg.frames == 0,
    {
        ScreenshotConfig { path: None, frames: 0 }
    }
}

/// No argument from index `i` on is `--frames`.
pub open spec fn no_frames_flag_from(args: Seq<Seq<char>>, i: int) -> bool {
    forall|j: int| i <= j < args.len() ==> args[j] != "--frames"@
}

/// Without a `--frames` argument the frame count is left as it is, whatever
/// else the arguments hold (`--screenshot` and its path included), and the
/// path does not depend on the frame count.
pub proof fn lemma_frames_kept_without_frames_flag(
    args: Seq<Seq<char>>,
    i: int,
    path: Option<Seq<char>>,
    frames: u32,
)
    requires
        i >= 0,
        no_frames_flag_from(args, i),
    ensures
        scan_args(args, i, path, frames).1 == frames,
        forall|f: u32| #[trigger] scan_args(args, i, path, f).0 == scan_args(args, i, path, frames).0,
    decreases args.len() - i,
{
    if i < args.len() {
        if args[i] == "--screenshot"@ && i + 1 < args.len() {
            lemma_frames_kept_without_frames_flag(args, i + 2, Some(args[i + 1]), frames);
            assert forall|f: u32| #[trigger] scan_args(args, i, path, f).0 == scan_args(
                args,
                i,
                path,
                frames,
            ).0 by {
                lemma_frames_kept_without_frames_flag(args, i + 2, Some(args[i + 1]), f);
            }
        } else if args[i] == "--screenshot"@ {
            lemma_frames_kept_without_frames_flag(args, i + 1, None, frames);
            assert forall|f: u32| #[trigger] scan_args(args, i, path, f).0 == scan_args(
                args,
                i,
                path,
                frames,
            ).0 by {
                lemma_frames_kept_without_frames_flag(args, i + 1, None, f);
            }
        } else {
            lemma_frames_kept_without_frames_flag(args, i + 1, path, frames);
            assert forall|f: u32| #[trigger] scan_args(args, i, path, f).0 == scan_args(
                args,
                i,
                path,
                frames,
            ).0 by {
                lemma_frames_kept_without_frames_flag(args, i + 1, path, f);
            }
        }
    }
}

/// The last `--frames` with a value decides the frame count: after
/// `--frames <n>` and no later `--frames`, the count is `n` read as a `u32`
/// (90 when it does not read), however many other flags come before or after.
pub proof fn lemma_last_frames_flag_wins(args: Seq<Seq<char>>, i: int, path: Option<Seq<char>>, frames: u32)
    requires
        0 <= i,
        i + 1 < args.len(),
        args[i] == "--frames"@,
        no_frames_flag_from(args, i + 2),
    ensures
        scan_args(args, i, path, frames).1 == match spec_parse_u32(args[i + 1]) {
            Some(n) => n,
            None => DEFAULT_FRAMES,
        },
{
    reveal_strlit("--frames");
    reveal_strlit("--screenshot");
    assert(args[i] != "--screenshot"@) by {
        assert("--frames"@[2] != "--screenshot"@[2]);
    }
    lemma_frames_kept_without_frames_flag(args, i + 2, path, frames_value(args[i + 1]));
}

/// On a whole command line: `game --frames <n>` followed by any arguments
/// without another `--frames` gives the frame count `n` (90 when `n` does
/// not read as a `u32`); a command line without `--frames` gives 90.
pub proof fn lemma_command_line_frames(args: Seq<Seq<char>>)
    ensures
        args.len() >= 3 && args[1] == "--frames"@ && no_frames_flag_from(args, 3)
            ==> spec_from_args(args).1 == match spec_parse_u32(args[2]) {
            Some(n) => n,
            None => DEFAULT_FRAMES,
        },
        no_frames_flag_from(args, 1) ==> spec_from_args(args).1 == DEFAULT_FRAMES,
{
    if args.len() >= 3 && args[1] == "--frames"@ && no_frames_flag_from(args, 3) {
        lemma_last_frames_flag_wins(args, 1, None, DEFAULT_FRAMES);
    }
    if no_frames_flag_from(args, 1) {
        lemma_frames_kept_without_frames_flag(args, 1, None, DEFAULT_FRAMES);
    }
}

/// What the screenshot helper does in a frame.
#[derive(Debug, Clone, Copy, PartialEq, Eq, Structural)]
pub enum ScreenshotAction {
    /// Nothing this frame.
    Wait,
    /// Ask for a screenshot of the window now.
    Capture,
    /// Ask the game to exit.
    Exit,
}

/// Frames seen so far, and whether the screenshot has been asked for.
#[derive(Debug, Clone, Copy, PartialEq, Eq, Structural)]
pub struct FrameCounter {
    pub frames_seen: u32,
    pub shot_triggered: bool,
    pub shot_done_frames: u32,
}

/// One frame of the screenshot helper. `target` is the configured frame
/// count; `has_path` says whether a path was given, `has_window` whether the
/// window was found. Once the screenshot was asked for (successfully or not)
/// the helper only counts frames and exits after 30 of them.
pub open spec fn spec_frame(c: FrameCounter, target: u32, has_path: bool, has_window: bool) -> (
    FrameCounter,
    ScreenshotAction,
) {
    if c.shot_triggered {
        let done = (c.shot_done_frames + 1) as u32;
        (
            FrameCounter { shot_done_frames: done, ..c },
            if done > EXIT_AFTER_FRAMES {
                ScreenshotAction::Exit
            } else {
                ScreenshotAction::Wait
            },
        )
    } else {
        let seen = (c.frames_seen + 1) as u32;
        if seen < target || !has_path || !has_window {
            (FrameCounter { frames_seen: seen, ..c }, ScreenshotAction::Wait)
        } else {
            (
                FrameCounter { frames_seen: seen, shot_triggered: true, ..c },
                ScreenshotAction::Capture,
            )
        }
    }
}

impl FrameCounter {
    /// A counter before the first frame.
    pub fn new() -> (c: Self)
        ensures
            c == (FrameCounter { frames_seen: 0, shot_triggered: false, shot_done_frames: 0 }),
    {
        FrameCounter { frames_seen: 0, shot_triggered: false, shot_done_frames: 0 }
    }

    /// Whether the next frame can be counted without running past `u32::MAX`.
    pub open spec fn can_step(self) -> bool {
        if self.shot_triggered {
            self.shot_done_frames < u32::MAX
        } else {
            self.frames_seen < u32::MAX
        }
    }

    /// Counts a frame and decides what to do in it.
    pub fn frame(&mut self, target: u32, has_path: bool, has_window: bool) -> (a: ScreenshotAction)
        requires
            old(self).can_step(),
        ensures
            (*final(self), a) == spec_frame(*old(self), target, has_path, has_window),
    {
        if self.shot_triggered {
            self.shot_done_frames = self.shot_done_frames + 1;
            if self.shot_done_frames > EXIT_AFTER_FRAMES {
                return ScreenshotAction::Exit;
            }
            return ScreenshotAction::Wait;
        }
        self.frames_seen = self.frames_seen + 1;
        if self.frames_seen < target {
            return ScreenshotAction::Wait;
        }
        if !has_path {
            return ScreenshotAction::Wait;
        }
        if !has_window {
            return ScreenshotAction::Wait;
        }
        self.shot_triggered = true;
        ScreenshotAction::Capture
    }
}


/// The screenshot is asked for at most once: once it was, the helper never
/// asks again, and it never exits before.
pub proof fn lemma_capture_once(c: FrameCounter, target: u32, has_path: bool, has_window: bool)
    ensures
        ({
            let (c1, a) = spec_frame(c, target, has_path, has_window);
            &&& c.shot_triggered ==> c1.shot_triggered && a != ScreenshotAction::Capture
                && c1.frames_seen == c.frames_seen
            &&& a == ScreenshotAction::Capture ==> !c.shot_triggered && c1.shot_triggered
            &&& a == ScreenshotAction::Exit ==> c.shot_triggered
        }),
{
}

/// The screenshot is taken only once the configured number of frames has
/// been seen, with a path and a window; the game exits only more than 30
/// frames after it.
pub proof fn lemma_capture_and_exit_timing(
    c: FrameCounter,
    target: u32,
    has_path: bool,
    has_window: bool,
)
    requires
        c.can_step(),
    ensures
        ({
            let (c1, a) = spec_frame(c, target, has_path, has_window);
            &&& a == ScreenshotAction::Capture ==> c1.frames_seen >= target && has_path
                && has_window && c1.frames_seen == c.frames_seen + 1
            &&& a == ScreenshotAction::Exit ==> c1.shot_done_frames > EXIT_AFTER_FRAMES
            &&& c.shot_triggered ==> c1.shot_done_frames == c.shot_done_frames + 1
        }),
{
}

/// The actions of the helper over a run of frames from counter `c`, with a
/// fixed configuration; `windows[i]` says whether the window was found in
/// frame `i`.
pub open spec fn run_frames(c: FrameCounter, target: u32, has_path: bool, windows: Seq<bool>) -> Seq<
    ScreenshotAction,
>
    decreases windows.len(),
{
    if windows.len() == 0 {
        Seq::empty()
    } else {
        let (c1, a) = spec_frame(c, target, has_path, windows[0]);
        seq![a] + run_frames(c1, target, has_path, windows.drop_first())
    }
}

/// The counter after a run of frames from counter `c`.
pub open spec fn counter_after(c: FrameCounter, target: u32, has_path: bool, windows: Seq<bool>) -> FrameCounter
    decreases windows.len(),
{
    if windows.len() == 0 {
        c
    } else {
        let (c1, _a) = spec_frame(c, target, has_path, windows[0]);
        counter_after(c1, target, has_path, windows.drop_first())
    }
}

/// The first frame of `windows` (counting from a counter that has seen
/// `seen` frames) in which the screenshot can be taken: a path is given, the
/// count of frames has reached the target, and the window is there.
pub open spec fn first_ready(seen: int, target: u32, has_path: bool, windows: Seq<bool>) -> Option<int>
    decreases windows.len(),
{
    if windows.len() == 0 {
        None
    } else if has_path && seen + 1 >= target && windows[0] {
        Some(0)
    } else {
        match first_ready(seen + 1, target, has_path, windows.drop_first()) {
            Some(t) => Some(t + 1),
            None => None,
        }
    }
}

/// Action of frame `i` when the screenshot was taken in frame `t`.
pub open spec fn action_after_capture_at(t: int, i: int) -> ScreenshotAction {
    if i < t {
        ScreenshotAction::Wait
    } else if i == t {
        ScreenshotAction::Capture
    } else if i - t <= EXIT_AFTER_FRAMES {
        ScreenshotAction::Wait
    } else {
        ScreenshotAction::Exit
    }
}

proof fn lemma_run_after_capture(c: FrameCounter, target: u32, has_path: bool, windows: Seq<bool>)
    requires
        c.shot_triggered,
        c.shot_done_frames + windows.len() < u32::MAX,
    ensures
        run_frames(c, target, has_path, windows).len() == windows.len(),
        forall|i: int|
            0 <= i < windows.len() ==> #[trigger] run_frames(c, target, has_path, windows)[i] == if c.shot_done_frames + i
                + 1 > EXIT_AFTER_FRAMES {
                ScreenshotAction::Exit
            } else {
                ScreenshotAction::Wait
            },
        counter_after(c, target, has_path, windows) == (FrameCounter {
            shot_done_frames: (c.shot_done_frames + windows.len()) as u32,
            ..c
        }),
    decreases windows.len(),
{
    if windows.len() > 0 {
        let (c1, a) = spec_frame(c, target, has_path, windows[0]);
        lemma_run_after_capture(c1, target, has_path, windows.drop_first());
        let rest = run_frames(c1, target, has_path, windows.drop_first());
        assert forall|i: int| 0 < i < windows.len() implies run_frames(c, target, has_path, windows)[i]
            == rest[i - 1] by {}
    }
}

proof fn lemma_run_before_capture(c: FrameCounter, target: u32, has_path: bool, windows: Seq<bool>)
    requires
        !c.shot_triggered,
        c.shot_done_frames == 0,
        c.frames_seen + windows.len() < u32::MAX,
    ensures
        run_frames(c, target, has_path, windows).len() == windows.len(),
        match first_ready(c.frames_seen as int, target, has_path, windows) {
            None => (forall|i: int|
                0 <= i < windows.len() ==> #[trigger] run_frames(c, target, has_path, windows)[i]
                    == ScreenshotAction::Wait) && counter_after(c, target, has_path, windows) == (
            FrameCounter { frames_seen: (c.frames_seen + windows.len()) as u32, ..c }),
            Some(t) => 0 <= t < windows.len() && windows[t] && c.frames_seen + t + 1 >= target
                && (forall|i: int|
                0 <= i < windows.len() ==> #[trigger] run_frames(c, target, has_path, windows)[i]
                    == action_after_capture_at(t, i)) && counter_after(c, target, has_path, windows)
                == (FrameCounter {
                frames_seen: (c.frames_seen + t + 1) as u32,
                shot_triggered: true,
                shot_done_frames: (windows.len() - t - 1) as u32,
            }),
        },
    decreases windows.len(),
{
    if windows.len() > 0 {
        let (c1, a) = spec_frame(c, target, has_path, windows[0]);
        let rest_w = windows.drop_first();
        let rest = run_frames(c1, target, has_path, rest_w);
        let all = run_frames(c, target, has_path, windows);
        assert(all == seq![a] + rest);
        if has_path && c.frames_seen + 1 >= target && windows[0] {
            lemma_run_after_capture(c1, target, has_path, rest_w);
            assert forall|i: int| 0 <= i < windows.len() implies #[trigger] all[i]
                == action_after_capture_at(0, i) by {
                if i > 0 {
                    assert(all[i] == rest[i - 1]);
                }
            }
        } else {
            lemma_run_before_capture(c1, target, has_path, rest_w);
            match first_ready(c1.frames_seen as int, target, has_path, rest_w) {
                Some(t) => {
                    assert(rest_w[t] == windows[t + 1]);
                    assert forall|i: int| 0 <= i < windows.len() implies #[trigger] all[i]
                        == action_after_capture_at(t + 1, i) by {
                        if i > 0 {
                            assert(all[i] == rest[i - 1]);
                        }
                    }
                },
                None => {
                    assert forall|i: int| 0 <= i < windows.len() implies #[trigger] all[i]
                        == ScreenshotAction::Wait by {
                        if i > 0 {
                            assert(all[i] == rest[i - 1]);
                        }
                    }
                },
            }
        }
    }
}

/// Over any run of frames from a fresh counter, with a fixed configuration:
/// the screenshot is taken exactly once, in the first frame where a path is
/// given, the configured number of frames has been seen and the window is
/// there (also when taking it fails, it is not retried); the 30 frames after
/// it do nothing, and every frame after those asks the game to exit. After
/// the run the counter remembers the capture and has stopped counting seen
/// frames at the capture frame. Without such a frame nothing happens at all.
/// (A run of `u32::MAX` frames or more would overflow the frame counter.)
pub proof fn lemma_screenshot_run(target: u32, has_path: bool, windows: Seq<bool>)
    requires
        windows.len() < u32::MAX,
    ensures
        ({
            let c0 = FrameCounter { frames_seen: 0, shot_triggered: false, shot_done_frames: 0 };
            let acts = run_frames(c0, target, has_path, windows);
            &&& acts.len() == windows.len()
            &&& match first_ready(0, target, has_path, windows) {
                None => {
                    &&& forall|i: int| 0 <= i < windows.len() ==> #[trigger] acts[i] == ScreenshotAction::Wait
                    &&& !counter_after(c0, target, has_path, windows).shot_triggered
                },
                Some(t) => {
                    &&& counter_after(c0, target, has_path, windows).shot_triggered
                    &&& counter_after(c0, target, has_path, windows).frames_seen == t + 1
                    &&& counter_after(c0, target, has_path, windows).shot_done_frames == windows.len() - t - 1
                    &&& 0 <= t < windows.len()
                    &&& has_path && windows[t] && t + 1 >= target
                    &&& forall|i: int| 0 <= i < t ==> !(has_path && i + 1 >= target && windows[i])
                    &&& forall|i: int| 0 <= i < windows.len() ==> #[trigger] acts[i] == action_after_capture_at(t, i)
                },
            }
        }),
{
    let c0 = FrameCounter { frames_seen: 0, shot_triggered: false, shot_done_frames: 0 };
    lemma_run_before_capture(c0, target, has_path, windows);
    lemma_first_ready_is_first(0, target, has_path, windows);
}

proof fn lemma_first_ready_is_first(seen: int, target: u32, has_path: bool, windows: Seq<bool>)
    ensures
        match first_ready(seen, target, has_path, windows) {
            Some(t) => 0 <= t < windows.len() && has_path && windows[t] && seen + t + 1 >= target
                && forall|i: int|
                0 <= i < t ==> !(has_path && seen + i + 1 >= target && #[trigger] windows[i]),
            None => forall|i: int|
                0 <= i < windows.len() ==> !(has_path && seen + i + 1 >= target && #[trigger] windows[i]),
        },
    decreases windows.len(),
{
    if windows.len() > 0 {
        let rest = windows.drop_first();
        lemma_first_ready_is_first(seen + 1, target, has_path, rest);
        assert(forall|i: int| 0 < i < windows.len() ==> windows[i] == rest[i - 1]);
    }
}

} // verus!
