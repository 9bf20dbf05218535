use rand::Rng;
use vstd::prelude::*;

use crate::types::{AppMode, ClickButton, ClickInfo, ClickPosition, ClickType};

verus! {

/// Shortest hold between press and release in human-like mode, in ms.
pub const DURATION_CLICK_MIN: u64 = 20;

/// Bound (exclusive) on the hold between press and release, in ms.
pub const DURATION_CLICK_MAX: u64 = 40;

/// Shortest gap between the two halves of a human-like double click, in ms.
pub const DURATION_DOUBLE_CLICK_MIN: u64 = 30;

/// Bound (exclusive) on the gap between the two halves of a double click, in ms.
pub const DURATION_DOUBLE_CLICK_MAX: u64 = 60;

/// Largest distance the cursor moves on either axis in one glide step.
pub const MOUSE_STEP: i64 = 10;

/// One thing the event injector is asked to do, or a pause between two of them.
#[derive(PartialEq, Eq, Structural, Clone, Copy, Debug)]
pub enum Step {
    MoveTo { x: i64, y: i64 },
    Press(ClickButton),
    Release(ClickButton),
    Sleep(u64),
}

/// The random durations of one human-like fire, in ms.
#[derive(PartialEq, Eq, Structural, Clone, Copy, Debug)]
pub struct HumanTiming {
    /// Pause before the second half of a double click.
    pub gap_ms: u64,
    /// Hold between press and release of the first click.
    pub first_hold_ms: u64,
    /// Hold between press and release of the second click.
    pub second_hold_ms: u64,
}

impl HumanTiming {
    /// Each duration lies in the range it is drawn from.
    pub open spec fn in_range(self) -> bool {
        &&& DURATION_DOUBLE_CLICK_MIN <= self.gap_ms < DURATION_DOUBLE_CLICK_MAX
        &&& DURATION_CLICK_MIN <= self.first_hold_ms < DURATION_CLICK_MAX
        &&& DURATION_CLICK_MIN <= self.second_hold_ms < DURATION_CLICK_MAX
    }
}

/// One axis of a glide step: toward `t` by at most `MOUSE_STEP`.
pub open spec fn step_toward(c: int, t: int) -> int {
    if c < t {
        if t - c < MOUSE_STEP { t } else { c + MOUSE_STEP }
    } else if c > t {
        if c - t < MOUSE_STEP { t } else { c - MOUSE_STEP }
    } else {
        c
    }
}

/// Sum of the distances to go on both axes.
pub open spec fn glide_measure(from: (int, int), to: (int, int)) -> nat {
    (if from.0 >= to.0 { from.0 - to.0 } else { to.0 - from.0 }) as nat + (if from.1 >= to.1 {
        from.1 - to.1
    } else {
        to.1 - from.1
    }) as nat
}

/// The stepped movement from `from` to `to`: each step moves both axes toward
/// the target by at most `MOUSE_STEP`, then pauses `pause` ms, until the cursor
/// stands on the target.
pub open spec fn glide(from: (int, int), to: (int, int), pause: u64) -> Seq<Step>
    decreases glide_measure(from, to),
{
    if from == to {
        seq![]
    } else {
        let next = (step_toward(from.0, to.0), step_toward(from.1, to.1));
        seq![Step::MoveTo { x: next.0 as i64, y: next.1 as i64 }, Step::Sleep(pause)] + glide(
            next,
            to,
            pause,
        )
    }
}

/// One press/release pair in bot mode, after a jump to the coordinate if one is used.
pub open spec fn bot_round(info: ClickInfo) -> Seq<Step> {
    (if info.click_position == ClickPosition::Coord {
        seq![Step::MoveTo { x: info.click_coord.0, y: info.click_coord.1 }]
    } else {
        seq![]
    }) + seq![Step::Press(info.click_btn), Step::Release(info.click_btn)]
}

/// The target of the click as a point.
pub open spec fn coord_of(info: ClickInfo) -> (int, int) {
    (info.click_coord.0 as int, info.click_coord.1 as int)
}

/// One press/release pair in human-like mode, starting with the cursor at
/// `from`: a glide to the coordinate if one is used, then press, hold, release.
pub open spec fn human_round(info: ClickInfo, from: (int, int), pause: u64, hold: u64) -> Seq<
    Step,
> {
    (if info.click_position == ClickPosition::Coord {
        glide(from, coord_of(info), pause)
    } else {
        seq![]
    }) + seq![Step::Press(info.click_btn), Step::Sleep(hold), Step::Release(info.click_btn)]
}

/// Every step of one fire, with the cursor at `mouse` when it starts.
pub open spec fn fire_steps(
    mode: AppMode,
    info: ClickInfo,
    mouse: (i64, i64),
    pause: u64,
    timing: HumanTiming,
) -> Seq<Step> {
    match mode {
        AppMode::Bot => match info.click_type {
            ClickType::Single => bot_round(info),
            ClickType::Double => bot_round(info) + bot_round(info),
        },
        AppMode::Humanlike => {
            let from = (mouse.0 as int, mouse.1 as int);
            let first = human_round(info, from, pause, timing.first_hold_ms);
            match info.click_type {
                ClickType::Single => first,
                ClickType::Double => {
                    let after = if info.click_position == ClickPosition::Coord {
                        coord_of(info)
                    } else {
                        from
                    };
                    first + seq![Step::Sleep(timing.gap_ms)] + human_round(
                        info,
                        after,
                        pause,
                        timing.second_hold_ms,
                    )
                },
            }
        },
    }
}

fn step_axis(c: i64, t: i64) -> (r: i64)
    ensures
        r == step_toward(c as int, t as int),
{
    let d: i128 = t as i128 - c as i128;
    if d > 0 {
        if d < MOUSE_STEP as i128 {
            t
        } else {
            c + MOUSE_STEP
        }
    } else if d < 0 {
        if d > -(MOUSE_STEP as i128) {
            t
        } else {
            c - MOUSE_STEP
        }
    } else {
        c
    }
}

/// Appends the glide from `from` to `to` to `steps`.
fn push_glide(steps: &mut Vec<Step>, from: (i64, i64), to: (i64, i64), pause: u64)
    ensures
        final(steps)@ == old(steps)@ + glide(
            (from.0 as int, from.1 as int),
            (to.0 as int, to.1 as int),
            pause,
        ),
{
    let ghost start = old(steps)@;
    let ghost target = (to.0 as int, to.1 as int);
    let mut cur = from;
    while cur.0 != to.0 || cur.1 != to.1
        invariant
            target == (to.0 as int, to.1 as int),
            steps@ + glide((cur.0 as int, cur.1 as int), target, pause) == start + glide(
                (from.0 as int, from.1 as int),
                target,
                pause,
            ),
        decreases glide_measure((cur.0 as int, cur.1 as int), target),
    {
        let ghost before = steps@;
        let ghost here = (cur.0 as int, cur.1 as int);
        let x = step_axis(cur.0, to.0);
        let y = step_axis(cur.1, to.1);
        steps.push(Step::MoveTo { x, y });
        steps.push(Step::Sleep(pause));
        cur = (x, y);
        proof {
            assert(here != target);
            assert(glide_measure((x as int, y as int), target) < glide_measure(here, target));
            assert(glide(here, target, pause) == seq![
                Step::MoveTo { x, y },
                Step::Sleep(pause),
            ] + glide((x as int, y as int), target, pause));
            assert(steps@ == before + seq![Step::MoveTo { x, y }, Step::Sleep(pause)]);
            vstd::seq_lib::lemma_concat_associative(
                before,
                seq![Step::MoveTo { x, y }, Step::Sleep(pause)],
                glide((x as int, y as int), target, pause),
            );
        }
    }
    proof {
        assert(glide((cur.0 as int, cur.1 as int), target, pause) == Seq::<Step>::empty());
        assert(steps@ + Seq::<Step>::empty() == steps@);
    }
}

fn push_bot_round(steps: &mut Vec<Step>, info: &ClickInfo)
    ensures
        final(steps)@ == old(steps)@ + bot_round(*info),
{
    let ghost start = old(steps)@;
    if info.click_position == ClickPosition::Coord {
        steps.push(Step::MoveTo { x: info.click_coord.0, y: info.click_coord.1 });
    }
    steps.push(Step::Press(info.click_btn));
    steps.push(Step::Release(info.click_btn));
    assert(steps@ == start + bot_round(*info));
}

fn push_human_round(
    steps: &mut Vec<Step>,
    info: &ClickInfo,
    from: (i64, i64),
    pause: u64,
    hold: u64,
)
    ensures
        final(steps)@ == old(steps)@ + human_round(
            *info,
            (from.0 as int, from.1 as int),
            pause,
            hold,
        ),
{
    let ghost start = old(steps)@;
    let ghost moved = if info.click_position == ClickPosition::Coord {
        glide((from.0 as int, from.1 as int), coord_of(*info), pause)
    } else {
        seq![]
    };
    if info.click_position == ClickPosition::Coord {
        push_glide(steps, from, info.click_coord, pause);
    }
    assert(steps@ == start + moved);
    steps.push(Step::Press(info.click_btn));
    steps.push(Step::Sleep(hold));
    steps.push(Step::Release(info.click_btn));
    assert(steps@ == start + human_round(*info, (from.0 as int, from.1 as int), pause, hold));
}

/// Plans one fire as the steps the injector carries out: one or two
/// press/release pairs of `click_info.click_btn`. Bot mode jumps to the
/// coordinate (if one is used) and clicks at once; human-like mode glides
/// there from `mouse_coord` in steps of at most `MOUSE_STEP`, pausing
/// `movement_delay_in_ms` after each, holds each press for the drawn time and
/// waits the drawn gap before the second click of a double click.
pub fn autoclick(
    app_mode: AppMode,
    click_info: &ClickInfo,
    mouse_coord: (i64, i64),
    movement_delay_in_ms: u64,
    timing: &HumanTiming,
) -> (r: Vec<Step>)
    ensures
        r@ == fire_steps(app_mode, *click_info, mouse_coord, movement_delay_in_ms, *timing),
{
    let mut steps: Vec<Step> = Vec::new();
    match app_mode {
        AppMode::Bot => {
            push_bot_round(&mut steps, click_info);
            if click_info.click_type == ClickType::Double {
                push_bot_round(&mut steps, click_info);
            }
            assert(steps@ == Seq::<Step>::empty() + fire_steps(
                app_mode,
                *click_info,
                mouse_coord,
                movement_delay_in_ms,
                *timing,
            ));
        },
        AppMode::Humanlike => {
            push_human_round(
                &mut steps,
                click_info,
                mouse_coord,
                movement_delay_in_ms,
                timing.first_hold_ms,
            );
            if click_info.click_type == ClickType::Double {
                let after = if click_info.click_position == ClickPosition::Coord {
                    click_info.click_coord
                } else {
                    mouse_coord
                };
                steps.push(Step::Sleep(timing.gap_ms));
                push_human_round(
                    &mut steps,
                    click_info,
                    after,
                    movement_delay_in_ms,
                    timing.second_hold_ms,
                );
            }
            assert(steps@ == Seq::<Step>::empty() + fire_steps(
                app_mode,
                *click_info,
                mouse_coord,
                movement_delay_in_ms,
                *timing,
            ));
        },
    }
    steps
}

/// rand's per-thread generator, used for the durations of human-like clicks.
#[verifier::external_type_specification]
#[verifier::external_body]
pub struct ExThreadRng(rand::rngs::ThreadRng);

/// Relies on rand::rng: a handle on the thread-local generator, which rand
/// seeds from the operating system and reseeds from time to time; nothing is
/// known of what it will yield.
#[verifier::external_body]
pub(crate) fn fresh_rng() -> rand::rngs::ThreadRng {
    rand::rng()
}

/// Relies on rand::Rng::random_range: a value in `low..high`; it panics only
/// on an empty range, which `requires` leaves out.
#[verifier::external_body]
fn draw_between(rng: &mut rand::rngs::ThreadRng, low: u64, high: u64) -> (r: u64)
    requires
        low < high,
    ensures
        low <= r < high,
{
    rng.random_range(low..high)
}

/// Draws the durations of one human-like fire.
pub(crate) fn draw_timing(rng: &mut rand::rngs::ThreadRng) -> (t: HumanTiming)
    ensures
        t.in_range(),
{
    let first_hold_ms = draw_between(rng, DURATION_CLICK_MIN, DURATION_CLICK_MAX);
    let gap_ms = draw_between(rng, DURATION_DOUBLE_CLICK_MIN, DURATION_DOUBLE_CLICK_MAX);
    let second_hold_ms = draw_between(rng, DURATION_CLICK_MIN, DURATION_CLICK_MAX);
    HumanTiming { gap_ms, first_hold_ms, second_hold_ms }
}

} // verus!
