use vstd::prelude::*;

use crate::controller::{activities, ControllerModel, Event, InputModel, RunState};
use crate::edge::{edge_of, KeyCode, KeyEdge};

verus! {

proof fn lemma_step_keeps_wf(c: ControllerModel, event: Event)
    requires
        c.wf(),
    ensures
        c.step(event).wf(),
{
    match event {
        Event::Tick(input, now) => {
            let d = c.after_dismiss(input);
            let t = d.after_toggle(input, now);
            let a = t.after_action(input, now);
            assert(t.interval.fits());
            assert(t.run_state == RunState::Autoclicking ==> t.key_autoclick is Some
                && t.key_set_coord is Some);
            assert(a.run_state == RunState::Autoclicking ==> a.key_autoclick is Some
                && a.key_set_coord is Some);
        },
        _ => {},
    }
}

/// Whatever commands and ticks the controller goes through from its start,
/// at most one of hotkey capture (of either hotkey), coordinate capture and
/// autoclicking is under way at any time, and the invariant holds: an unbound
/// hotkey keeps the hotkey window open, autoclicking runs only with both
/// hotkeys bound, and a hotkey is unbound while it is being captured.
pub proof fn lemma_one_activity_at_a_time(dismiss_key: Option<KeyCode>, events: Seq<Event>)
    ensures
        ControllerModel::initial(dismiss_key).run(events).wf(),
        activities(ControllerModel::initial(dismiss_key).run(events).run_state) <= 1,
{
    lemma_run_keeps_wf(ControllerModel::initial(dismiss_key), events);
}

proof fn lemma_run_keeps_wf(c: ControllerModel, events: Seq<Event>)
    requires
        c.wf(),
    ensures
        c.run(events).wf(),
    decreases events.len(),
{
    if events.len() > 0 {
        lemma_step_keeps_wf(c, events[0]);
        lemma_run_keeps_wf(c.step(events[0]), events.drop_first());
    }
}

/// Once autoclicking has started at `now`, the next tick fires, however soon
/// it comes (unless that tick releases the toggle hotkey, which stops it).
pub proof fn lemma_first_fire_at_once(c: ControllerModel, now: u64, input: InputModel, later: u64)
    requires
        c.wf(),
        c.can_start(),
        now <= later,
        edge_of(c.keys_pressed, input.keys, c.key_autoclick) != KeyEdge::KeyJustReleased,
    ensures
        c.start_at(now).tick_fires(input, later),
        c.start_at(now).ticked(input, later).click_counter == 1,
{
    let s = c.start_at(now);
    assert(s.after_dismiss(input) == s);
}

/// A tick fires at most once, however much time has passed since the last
/// fire: the counter moves by at most one (by exactly one below `u64::MAX`)
/// and the last fire becomes this tick's time, so the next tick fires only a
/// whole interval later.
pub proof fn lemma_no_catch_up(
    c: ControllerModel,
    input: InputModel,
    now: u64,
    next: InputModel,
    later: u64,
)
    requires
        c.wf(),
        c.tick_fires(input, now),
        c.ticked(input, now).run_state == RunState::Autoclicking,
        now <= later < now + c.interval_ms(),
    ensures
        c.ticked(input, now).click_counter <= c.before_action(input, now).click_counter + 1,
        c.before_action(input, now).click_counter < u64::MAX ==> c.ticked(input, now).click_counter
            == c.before_action(input, now).click_counter + 1,
        c.ticked(input, now).last_fire_ms == now,
        !c.ticked(input, now).tick_fires(next, later),
{
}

/// While the coordinate is being captured, every tick sets it to the mouse
/// position; the capture goes on until the left button is held or the confirm
/// hotkey is released, and then ends with clicks going to that position.
pub proof fn lemma_capture_follows_mouse(c: ControllerModel, input: InputModel, now: u64)
    requires
        c.wf(),
        c.run_state == RunState::CapturingCoordinate,
    ensures
        c.ticked(input, now).click_coord == input.mouse,
        (input.mouse == c.click_coord) ==> c.ticked(input, now).click_coord == c.click_coord,
        (!input.left_button && edge_of(c.keys_pressed, input.keys, c.key_set_coord)
            != KeyEdge::KeyJustReleased) ==> c.ticked(input, now).run_state
            == RunState::CapturingCoordinate,
        input.left_button ==> c.ticked(input, now).run_state == RunState::Idle
            && c.ticked(input, now).click_position == crate::types::ClickPosition::Coord,
{
    assert(c.before_action(input, now) == c);
}

/// With a click amount set, each fire counts one, and autoclicking stops
/// exactly when the count reaches the amount.
pub proof fn lemma_click_amount_stops(c: ControllerModel, input: InputModel, now: u64)
    requires
        c.wf(),
        c.tick_fires(input, now),
        c.click_amount != 0,
        c.before_action(input, now).click_counter < c.click_amount,
    ensures
        c.ticked(input, now).click_counter == c.before_action(input, now).click_counter + 1,
        (c.ticked(input, now).run_state == RunState::Idle) <==> (c.ticked(input, now).click_counter
            == c.click_amount),
{
}

/// A run of ticks, each at least `interval` ms after the fire before it (the
/// first after `last`), none of which holds `toggle`.
pub open spec fn due_ticks(
    last: int,
    interval: int,
    toggle: Option<KeyCode>,
    events: Seq<Event>,
) -> bool
    decreases events.len(),
{
    if events.len() == 0 {
        true
    } else {
        match events[0] {
            Event::Tick(input, now) => now - last >= interval && (toggle is Some
                ==> !input.keys.contains(toggle->0)) && due_ticks(
                now as int,
                interval,
                toggle,
                events.drop_first(),
            ),
            _ => false,
        }
    }
}

/// Started with a click amount of `n` and fed ticks that each find a fire
/// due, the controller fires on every tick and keeps autoclicking until the
/// `n`-th fire, which stops it with the counter at `n`.
pub proof fn lemma_click_amount_run(c: ControllerModel, events: Seq<Event>)
    requires
        c.wf(),
        c.run_state == RunState::Autoclicking,
        c.click_amount != 0,
        c.click_counter + events.len() == c.click_amount,
        due_ticks(c.last_fire_ms, c.interval_ms(), c.key_autoclick, events),
        c.keys_pressed is Some ==> !c.keys_pressed->0.contains(c.key_autoclick->0),
    ensures
        forall|j: int|
            0 <= j < events.len() ==> #[trigger] c.run(events.take(j)).run_state
                == RunState::Autoclicking && c.run(events.take(j)).click_counter == c.click_counter
                + j,
        events.len() > 0 ==> c.run(events).run_state == RunState::Idle && c.run(events).click_counter
            == c.click_amount,
    decreases events.len(),
{
    if events.len() > 0 {
        let e = events[0];
        let rest = events.drop_first();
        match e {
            Event::Tick(input, now) => {
                let k = c.key_autoclick->0;
                assert(!input.keys.contains(k));
                assert(c.after_dismiss(input) == c);
                assert(c.before_action(input, now) == c);
                assert(c.fire_due(now));
                let n = c.ticked(input, now);
                assert(n.click_counter == c.click_counter + 1);
                assert(c.step(e) == n);
                lemma_step_keeps_wf(c, e);
                assert(c.run(events) == n.run(rest));
                if rest.len() > 0 {
                    assert(n.run_state == RunState::Autoclicking);
                    lemma_click_amount_run(n, rest);
                    assert forall|j: int|
                        0 <= j < events.len() implies #[trigger] c.run(events.take(j)).run_state
                            == RunState::Autoclicking && c.run(events.take(j)).click_counter
                            == c.click_counter + j by {
                        if j > 0 {
                            assert(events.take(j)[0] == e);
                            assert(events.take(j).drop_first() == rest.take(j - 1));
                            assert(c.run(events.take(j)) == n.run(rest.take(j - 1)));
                            assert(n.run(rest.take(j - 1)).run_state == RunState::Autoclicking);
                        } else {
                            assert(events.take(0).len() == 0);
                        }
                    }
                } else {
                    assert(rest.len() == 0);
                    assert forall|j: int|
                        0 <= j < events.len() implies #[trigger] c.run(events.take(j)).run_state
                            == RunState::Autoclicking && c.run(events.take(j)).click_counter
                            == c.click_counter + j by {
                        assert(j == 0);
                        assert(events.take(j).len() == 0);
                    }
                }
            },
            _ => {},
        }
    }
}

} // verus!
