//! Decisions of the first-person controller: input axes, movement mode,
//! sliding, jumping and the pose the eye height moves to. Speeds, heights
//! and timers (seconds and metres) are applied by the caller.
use vstd::prelude::*;

verus! {

pub open spec fn spec_axis(positive: bool, negative: bool) -> int {
    (if positive { 1int } else { 0int }) - (if negative { 1int } else { 0int })
}

/// One input axis from two keys: +1, -1, or 0 when both or none are held.
pub fn axis(positive: bool, negative: bool) -> (a: i8)
    ensures
        a == spec_axis(positive, negative),
{
    let mut a: i8 = 0;
    if positive {
        a = a + 1;
    }
    if negative {
        a = a - 1;
    }
    a
}

/// Which speed limit applies when not sliding.
#[derive(Debug, Clone, Copy, PartialEq, Eq, Structural)]
pub enum MoveMode {
    Walk,
    Sprint,
    Crouch,
}

pub open spec fn spec_move_mode(ctrl: bool, shift: bool) -> MoveMode {
    if ctrl {
        MoveMode::Crouch
    } else if shift {
        MoveMode::Sprint
    } else {
        MoveMode::Walk
    }
}

/// Crouching (Ctrl) wins over sprinting (Shift); otherwise walk.
pub fn move_mode(ctrl: bool, shift: bool) -> (m: MoveMode)
    ensures
        m == spec_move_mode(ctrl, shift),
{
    if ctrl {
        MoveMode::Crouch
    } else if shift {
        MoveMode::Sprint
    } else {
        MoveMode::Walk
    }
}

pub open spec fn spec_slide_starts(
    sliding: bool,
    slide_armed: bool,
    shift: bool,
    ctrl: bool,
    on_ground: bool,
    has_input: bool,
) -> bool {
    !sliding && slide_armed && shift && ctrl && on_ground && has_input
}

/// A slide starts only when the player is not already sliding, Ctrl has
/// been released since the last slide began (`slide_armed`), both Shift and
/// Ctrl are held, the player stands on the ground and wants to move.
pub fn slide_starts(
    sliding: bool,
    slide_armed: bool,
    shift: bool,
    ctrl: bool,
    on_ground: bool,
    has_input: bool,
) -> (r: bool)
    ensures
        r == spec_slide_starts(sliding, slide_armed, shift, ctrl, on_ground, has_input),
{
    !sliding && slide_armed && shift && ctrl && on_ground && has_input
}

/// A slide needs every one of its conditions: Ctrl and Shift held, ground
/// under the feet, a wish to move, no slide running and the trigger armed.
/// Without Ctrl (plain sprinting), without Shift (plain crouching), in the
/// air, standing still or while sliding, no slide starts; with all of them
/// one does.
pub proof fn lemma_slide_needs_all_conditions(
    sliding: bool,
    slide_armed: bool,
    shift: bool,
    ctrl: bool,
    on_ground: bool,
    has_input: bool,
)
    ensures
        !ctrl ==> !spec_slide_starts(sliding, slide_armed, shift, false, on_ground, has_input),
        !shift ==> !spec_slide_starts(sliding, slide_armed, false, ctrl, on_ground, has_input),
        !spec_slide_starts(sliding, slide_armed, shift, ctrl, false, has_input),
        !spec_slide_starts(sliding, slide_armed, shift, ctrl, on_ground, false),
        !spec_slide_starts(true, slide_armed, shift, ctrl, on_ground, has_input),
        !spec_slide_starts(sliding, false, shift, ctrl, on_ground, has_input),
        spec_slide_starts(false, true, true, true, true, true),
{
}

pub open spec fn spec_slide_ends(time_up: bool, ctrl: bool, min_done: bool, on_ground: bool) -> bool {
    time_up || (!ctrl && min_done) || !on_ground
}

/// A slide ends when its time is up, when Ctrl is released after the
/// minimum duration, or when the player leaves the ground.
pub fn slide_ends(time_up: bool, ctrl: bool, min_done: bool, on_ground: bool) -> (r: bool)
    ensures
        r == spec_slide_ends(time_up, ctrl, min_done, on_ground),
{
    time_up || (!ctrl && min_done) || !on_ground
}

/// The held keys as body state: crouching follows Ctrl; sprinting follows
/// Shift except while sliding; a new slide is armed once Ctrl is released
/// and disarmed when a slide starts.
#[derive(Debug, Clone, Copy, PartialEq, Eq, Structural)]
pub struct StanceFlags {
    pub crouched: bool,
    pub sprinting: bool,
    pub sliding: bool,
    pub slide_armed: bool,
}

/// Whether a slide may be triggered after this frame: a slide that started
/// this frame disarms it, a frame without Ctrl arms it, otherwise it stays.
pub open spec fn spec_slide_armed(armed_before: bool, ctrl: bool, started: bool) -> bool {
    !ctrl || (armed_before && !started)
}

/// The body state after the movement step of a frame. `armed_before` is the
/// previous frame's `slide_armed`, `started` whether a slide started this frame.
pub fn stance_flags(ctrl: bool, shift: bool, sliding: bool, armed_before: bool, started: bool) -> (f:
    StanceFlags)
    ensures
        f == (StanceFlags {
            crouched: ctrl,
            sprinting: shift && !sliding,
            sliding,
            slide_armed: spec_slide_armed(armed_before, ctrl, started),
        }),
{
    StanceFlags {
        crouched: ctrl,
        sprinting: shift && !sliding,
        sliding,
        slide_armed: !ctrl || (armed_before && !started),
    }
}

/// The stance at spawn: standing, nothing held, a slide may be triggered.
pub fn initial_stance() -> (f: StanceFlags)
    ensures
        f == (StanceFlags { crouched: false, sprinting: false, sliding: false, slide_armed: true }),
{
    StanceFlags { crouched: false, sprinting: false, sliding: false, slide_armed: true }
}

/// The keys and body state of one frame, apart from Ctrl.
#[derive(Debug, Clone, Copy, PartialEq, Eq, Structural)]
pub struct FrameKeys {
    pub sliding: bool,
    pub shift: bool,
    pub on_ground: bool,
    pub has_input: bool,
}

/// Whether a slide starts in any of `frames`, all with Ctrl held, when the
/// trigger is `armed` before the first of them.
pub open spec fn slide_starts_while_held(armed: bool, frames: Seq<FrameKeys>) -> bool
    decreases frames.len(),
{
    if frames.len() == 0 {
        false
    } else {
        let k = frames[0];
        let started = spec_slide_starts(k.sliding, armed, k.shift, true, k.on_ground, k.has_input);
        started || slide_starts_while_held(
            spec_slide_armed(armed, true, started),
            frames.drop_first(),
        )
    }
}

/// Holding Ctrl through a slide never starts another one: after the frame
/// in which a slide started, no run of frames with Ctrl held, whatever else
/// happens in them, starts a slide; a frame without Ctrl arms the trigger again.
pub proof fn lemma_no_second_slide_while_ctrl_held(
    armed_before: bool,
    first: FrameKeys,
    later: Seq<FrameKeys>,
)
    requires
        spec_slide_starts(first.sliding, armed_before, first.shift, true, first.on_ground, first.has_input),
    ensures
        !spec_slide_armed(armed_before, true, true),
        !slide_starts_while_held(spec_slide_armed(armed_before, true, true), later),
        spec_slide_armed(armed_before, false, false),
{
    lemma_disarmed_stays_disarmed(later);
}

proof fn lemma_disarmed_stays_disarmed(frames: Seq<FrameKeys>)
    ensures
        !slide_starts_while_held(false, frames),
    decreases frames.len(),
{
    if frames.len() > 0 {
        lemma_disarmed_stays_disarmed(frames.drop_first());
    }
}

pub open spec fn spec_may_jump(jump_pressed: bool, on_ground: bool, sliding: bool) -> bool {
    jump_pressed && on_ground && !sliding
}

/// A jump needs the jump key pressed this frame, ground under the feet and
/// no slide in progress.
pub fn may_jump(jump_pressed: bool, on_ground: bool, sliding: bool) -> (r: bool)
    ensures
        r == spec_may_jump(jump_pressed, on_ground, sliding),
{
    jump_pressed && on_ground && !sliding
}

/// The eye height the player moves towards.
#[derive(Debug, Clone, Copy, PartialEq, Eq, Structural)]
pub enum Pose {
    Stand,
    Crouch,
    Slide,
}

pub open spec fn spec_pose_target(sliding: bool, crouched: bool) -> Pose {
    if sliding {
        Pose::Slide
    } else if crouched {
        Pose::Crouch
    } else {
        Pose::Stand
    }
}

/// Sliding is lowest, then crouching; otherwise standing.
pub fn pose_target(sliding: bool, crouched: bool) -> (p: Pose)
    ensures
        p == spec_pose_target(sliding, crouched),
{
    if sliding {
        Pose::Slide
    } else if crouched {
        Pose::Crouch
    } else {
        Pose::Stand
    }
}

/// The axes: one key alone gives +1 or -1, both or neither give 0, and
/// swapping the keys flips the sign.
pub proof fn lemma_axis(positive: bool, negative: bool)
    ensures
        spec_axis(true, false) == 1,
        spec_axis(false, true) == -1,
        spec_axis(positive, positive) == 0,
        spec_axis(negative, positive) == -spec_axis(positive, negative),
{
}

/// Movement decisions: Ctrl always crouches (even with Shift), Shift alone
/// sprints, neither walks; a running slide stops when its time is up or the
/// player leaves the ground, and otherwise continues while Ctrl is held or
/// the minimum duration is not over; a jump needs the key, the ground and
/// no slide, and crouching does not prevent it; the eye height goes lowest
/// for a slide, then for a crouch.
pub proof fn lemma_movement_decisions(
    shift: bool,
    ctrl: bool,
    time_up: bool,
    min_done: bool,
    on_ground: bool,
    jump: bool,
    sliding: bool,
    crouched: bool,
)
    ensures
        spec_move_mode(true, shift) == MoveMode::Crouch,
        spec_move_mode(false, true) == MoveMode::Sprint,
        spec_move_mode(false, false) == MoveMode::Walk,
        time_up ==> spec_slide_ends(time_up, ctrl, min_done, on_ground),
        !on_ground ==> spec_slide_ends(time_up, ctrl, min_done, on_ground),
        !time_up && on_ground && (ctrl || !min_done) ==> !spec_slide_ends(
            time_up,
            ctrl,
            min_done,
            on_ground,
        ),
        !time_up && on_ground && !ctrl && min_done ==> spec_slide_ends(time_up, ctrl, min_done, on_ground),
        spec_may_jump(jump, on_ground, sliding) ==> jump && on_ground && !sliding,
        jump && on_ground && !sliding ==> spec_may_jump(jump, on_ground, sliding),
        spec_pose_target(true, crouched) == Pose::Slide,
        spec_pose_target(false, true) == Pose::Crouch,
        spec_pose_target(false, false) == Pose::Stand,
{
}

/// After the movement step crouching mirrors Ctrl, sprinting needs Shift
/// and no slide, and the slide flag is passed through.
pub proof fn lemma_stance_flags(ctrl: bool, shift: bool, sliding: bool, armed: bool, started: bool)
    ensures
        ({
            let f = StanceFlags {
                crouched: ctrl,
                sprinting: shift && !sliding,
                sliding,
                slide_armed: spec_slide_armed(armed, ctrl, started),
            };
            &&& f.crouched == ctrl
            &&& f.sprinting ==> shift && !f.sliding
            &&& f.sliding == sliding
        }),
        !ctrl ==> spec_slide_armed(armed, ctrl, started),
        started ==> (spec_slide_armed(armed, ctrl, started) <==> !ctrl),
        !started ==> (spec_slide_armed(armed, ctrl, started) <==> (armed || !ctrl)),
{
}

} // verus!
