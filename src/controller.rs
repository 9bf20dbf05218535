use vstd::prelude::*;

use crate::edge::{detect_edge, edge_of, holds_key, snapshot_view, KeyCode, KeyEdge};
use crate::interval::IntervalSpec;
use crate::scheduler::{
    draw_timing, fire_steps, fresh_rng, autoclick, HumanTiming, Step, DURATION_CLICK_MIN,
    DURATION_DOUBLE_CLICK_MIN,
};
use crate::types::{AppMode, ClickButton, ClickInfo, ClickPosition, ClickType, MouseButton};

verus! {

/// What the controller is doing; exactly one at a time.
#[derive(PartialEq, Eq, Structural, Clone, Copy, Debug)]
pub enum RunState {
    Idle,
    CapturingAutoclickHotkey,
    CapturingCoordHotkey,
    CapturingCoordinate,
    Autoclicking,
}

/// One poll of the input sensor.
#[derive(Debug)]
pub struct InputSnapshot {
    /// The keys held right now.
    pub keys: Vec<KeyCode>,
    /// The mouse position.
    pub mouse: (i64, i64),
    /// Whether the left mouse button is held.
    pub left_button: bool,
}

/// An input snapshot with its keys as a sequence.
pub struct InputModel {
    pub keys: Seq<KeyCode>,
    pub mouse: (i64, i64),
    pub left_button: bool,
}

impl View for InputSnapshot {
    type V = InputModel;

    open spec fn view(&self) -> InputModel {
        InputModel { keys: self.keys@, mouse: self.mouse, left_button: self.left_button }
    }
}

/// The controller's configuration and state, as values.
pub struct ControllerModel {
    pub interval: IntervalSpec,
    /// Number of fires after which autoclicking stops; 0 for no limit.
    pub click_amount: u64,
    /// Pause between two glide steps in human-like mode, in ms.
    pub movement_delay_ms: u64,
    pub app_mode: AppMode,
    pub click_btn: ClickButton,
    pub click_type: ClickType,
    pub click_position: ClickPosition,
    pub click_coord: (i64, i64),
    /// The hotkey that starts and stops autoclicking.
    pub key_autoclick: Option<KeyCode>,
    /// The hotkey that confirms a coordinate being captured.
    pub key_set_coord: Option<KeyCode>,
    /// The key that dismisses the hotkey window.
    pub dismiss_key: Option<KeyCode>,
    pub run_state: RunState,
    /// The hotkey window is open; while it is, autoclicking cannot start.
    pub hotkey_window_open: bool,
    /// Fires since autoclicking last started.
    pub click_counter: u64,
    /// When the last fire happened, in ms on the host's clock.
    pub last_fire_ms: int,
    /// The keys held on the previous tick, if there was one.
    pub keys_pressed: Option<Seq<KeyCode>>,
}

/// Something that happens to the controller: a tick or a command.
pub enum Event {
    Tick(InputModel, u64),
    Start(u64),
    Stop,
    RebindToggle,
    RebindCoord,
    EnterCoord,
    ExitCoord,
    OpenWindow,
}

/// The number of activities under way in `state`: hotkey capture, coordinate
/// capture, autoclicking.
pub open spec fn activities(state: RunState) -> nat {
    (if state == RunState::CapturingAutoclickHotkey { 1nat } else { 0nat }) + (if state
        == RunState::CapturingCoordHotkey {
        1nat
    } else {
        0nat
    }) + (if state == RunState::CapturingCoordinate { 1nat } else { 0nat }) + (if state
        == RunState::Autoclicking {
        1nat
    } else {
        0nat
    })
}

/// The first key of `current` that is not in `previous`.
pub open spec fn first_fresh(previous: Seq<KeyCode>, current: Seq<KeyCode>) -> Option<KeyCode>
    decreases current.len(),
{
    if current.len() == 0 {
        None
    } else if !previous.contains(current[0]) {
        Some(current[0])
    } else {
        first_fresh(previous, current.drop_first())
    }
}

/// Milliseconds from `last` to `now`, or 0 where the clock went backward.
pub open spec fn elapsed_ms(now: u64, last: int) -> int {
    if now >= last {
        now - last
    } else {
        0
    }
}

impl ControllerModel {
    /// The invariant the controller keeps between calls: the interval fits in
    /// a `u64`; an unbound hotkey keeps the hotkey window open; autoclicking
    /// runs only with both hotkeys bound; a hotkey being captured is unbound.
    pub open spec fn wf(self) -> bool {
        &&& self.interval.fits()
        &&& -(u64::MAX as int) <= self.last_fire_ms <= u64::MAX
        &&& (self.hotkey_window_open || (self.key_autoclick is Some && self.key_set_coord is Some))
        &&& (self.run_state == RunState::Autoclicking ==> self.key_autoclick is Some
            && self.key_set_coord is Some)
        &&& (self.run_state == RunState::CapturingAutoclickHotkey ==> self.key_autoclick is None)
        &&& (self.run_state == RunState::CapturingCoordHotkey ==> self.key_set_coord is None)
    }

    /// The state at program start.
    pub open spec fn initial(dismiss_key: Option<KeyCode>) -> ControllerModel {
        ControllerModel {
            interval: IntervalSpec { hr: 0, min: 0, sec: 0, ms: 100 },
            click_amount: 0,
            movement_delay_ms: 20,
            app_mode: AppMode::Bot,
            click_btn: ClickButton::Mouse(MouseButton::Left),
            click_type: ClickType::Single,
            click_position: ClickPosition::Mouse,
            click_coord: (0, 0),
            key_autoclick: None,
            key_set_coord: None,
            dismiss_key,
            run_state: RunState::Idle,
            hotkey_window_open: true,
            click_counter: 0,
            last_fire_ms: 0,
            keys_pressed: None,
        }
    }

    /// The click interval in ms.
    pub open spec fn interval_ms(self) -> int {
        self.interval.total_ms()
    }

    /// What one fire clicks, and where.
    pub open spec fn click_info(self) -> ClickInfo {
        ClickInfo {
            click_btn: self.click_btn,
            click_coord: self.click_coord,
            click_position: self.click_position,
            click_type: self.click_type,
        }
    }

    /// The keys held on the previous tick; none before the first tick.
    pub open spec fn previous_keys(self) -> Seq<KeyCode> {
        match self.keys_pressed {
            Some(k) => k,
            None => seq![],
        }
    }

    /// Autoclicking may start: nothing else is going on and the hotkey
    /// window is closed.
    pub open spec fn can_start(self) -> bool {
        self.run_state == RunState::Idle && !self.hotkey_window_open
    }

    /// Autoclicking started at `now`: the counter is reset and the last fire
    /// is put one interval back, so that the first fire is due at once.
    pub open spec fn started(self, now: u64) -> ControllerModel {
        ControllerModel {
            run_state: RunState::Autoclicking,
            click_counter: 0,
            last_fire_ms: now - self.interval_ms(),
            ..self
        }
    }

    /// A fire is due at `now`.
    pub open spec fn fire_due(self, now: u64) -> bool {
        self.run_state == RunState::Autoclicking && elapsed_ms(now, self.last_fire_ms)
            >= self.interval_ms()
    }

    /// The state after a fire at `now`: the counter goes up by one (it stays
    /// at `u64::MAX` there) and autoclicking stops once a nonzero click amount
    /// is reached.
    pub open spec fn fired(self, now: u64) -> ControllerModel {
        let count = if self.click_counter < u64::MAX {
            (self.click_counter + 1) as u64
        } else {
            self.click_counter
        };
        ControllerModel {
            last_fire_ms: now as int,
            click_counter: count,
            run_state: if self.click_amount != 0 && count >= self.click_amount {
                RunState::Idle
            } else {
                RunState::Autoclicking
            },
            ..self
        }
    }

    /// Coordinate capture ends: the target is now the stored coordinate.
    pub open spec fn coordinate_set(self) -> ControllerModel {
        ControllerModel {
            run_state: RunState::Idle,
            click_position: ClickPosition::Coord,
            ..self
        }
    }

    /// The start command at `now`: autoclicking starts where it may.
    pub open spec fn start_at(self, now: u64) -> ControllerModel {
        if self.can_start() {
            self.started(now)
        } else {
            self
        }
    }

    /// The stop command: autoclicking stops; nothing else changes.
    pub open spec fn stop(self) -> ControllerModel {
        if self.run_state == RunState::Autoclicking {
            ControllerModel { run_state: RunState::Idle, ..self }
        } else {
            self
        }
    }

    /// The command to rebind the toggle hotkey: from idle, the hotkey is
    /// unbound, the window opens and the next fresh key press is awaited.
    pub open spec fn rebind_toggle(self) -> ControllerModel {
        if self.run_state == RunState::Idle {
            ControllerModel {
                run_state: RunState::CapturingAutoclickHotkey,
                key_autoclick: None,
                hotkey_window_open: true,
                ..self
            }
        } else {
            self
        }
    }

    /// The command to rebind the coordinate-confirm hotkey, as `rebind_toggle`.
    pub open spec fn rebind_coord(self) -> ControllerModel {
        if self.run_state == RunState::Idle {
            ControllerModel {
                run_state: RunState::CapturingCoordHotkey,
                key_set_coord: None,
                hotkey_window_open: true,
                ..self
            }
        } else {
            self
        }
    }

    /// The command to capture the click coordinate: from idle only.
    pub open spec fn enter_coord(self) -> ControllerModel {
        if self.run_state == RunState::Idle {
            ControllerModel { run_state: RunState::CapturingCoordinate, ..self }
        } else {
            self
        }
    }

    /// The command that ends coordinate capture.
    pub open spec fn exit_coord(self) -> ControllerModel {
        if self.run_state == RunState::CapturingCoordinate {
            self.coordinate_set()
        } else {
            self
        }
    }

    /// The command that opens the hotkey window, refused while autoclicking.
    pub open spec fn open_window(self) -> ControllerModel {
        if self.run_state != RunState::Autoclicking {
            ControllerModel { hotkey_window_open: true, ..self }
        } else {
            self
        }
    }

    /// The state after `event`.
    pub open spec fn step(self, event: Event) -> ControllerModel {
        match event {
            Event::Tick(input, now) => self.ticked(input, now),
            Event::Start(now) => self.start_at(now),
            Event::Stop => self.stop(),
            Event::RebindToggle => self.rebind_toggle(),
            Event::RebindCoord => self.rebind_coord(),
            Event::EnterCoord => self.enter_coord(),
            Event::ExitCoord => self.exit_coord(),
            Event::OpenWindow => self.open_window(),
        }
    }

    /// The state after `events`, in order.
    pub open spec fn run(self, events: Seq<Event>) -> ControllerModel
        decreases events.len(),
    {
        if events.len() == 0 {
            self
        } else {
            self.step(events[0]).run(events.drop_first())
        }
    }

    /// A tick's first phase: a release of the dismiss key closes the hotkey
    /// window when nothing else is going on and both hotkeys are bound.
    pub open spec fn after_dismiss(self, input: InputModel) -> ControllerModel {
        if self.hotkey_window_open && self.run_state == RunState::Idle
            && self.key_autoclick is Some && self.key_set_coord is Some && edge_of(
            self.keys_pressed,
            input.keys,
            self.dismiss_key,
        ) == KeyEdge::KeyJustReleased {
            ControllerModel { hotkey_window_open: false, ..self }
        } else {
            self
        }
    }

    /// A tick's second phase: a release of the toggle hotkey stops
    /// autoclicking, or starts it where it may start.
    pub open spec fn after_toggle(self, input: InputModel, now: u64) -> ControllerModel {
        if edge_of(self.keys_pressed, input.keys, self.key_autoclick) == KeyEdge::KeyJustReleased {
            if self.run_state == RunState::Autoclicking {
                ControllerModel { run_state: RunState::Idle, ..self }
            } else if self.can_start() {
                self.started(now)
            } else {
                self
            }
        } else {
            self
        }
    }

    /// A tick's third phase: what the current state does with the input.
    pub open spec fn after_action(self, input: InputModel, now: u64) -> ControllerModel {
        match self.run_state {
            RunState::Autoclicking => if self.fire_due(now) {
                self.fired(now)
            } else {
                self
            },
            RunState::CapturingAutoclickHotkey => match first_fresh(
                self.previous_keys(),
                input.keys,
            ) {
                Some(k) => ControllerModel {
                    key_autoclick: Some(k),
                    run_state: RunState::Idle,
                    ..self
                },
                None => self,
            },
            RunState::CapturingCoordHotkey => match first_fresh(self.previous_keys(), input.keys) {
                Some(k) => ControllerModel {
                    key_set_coord: Some(k),
                    run_state: RunState::Idle,
                    ..self
                },
                None => self,
            },
            RunState::CapturingCoordinate => {
                let followed = ControllerModel { click_coord: input.mouse, ..self };
                if input.left_button || edge_of(self.keys_pressed, input.keys, self.key_set_coord)
                    == KeyEdge::KeyJustReleased {
                    followed.coordinate_set()
                } else {
                    followed
                }
            },
            RunState::Idle => self,
        }
    }

    /// A tick's last phase: the keys are remembered for the next tick, and an
    /// unbound hotkey opens the hotkey window.
    pub open spec fn after_guard(self, input: InputModel) -> ControllerModel {
        ControllerModel {
            keys_pressed: Some(input.keys),
            hotkey_window_open: self.hotkey_window_open || self.key_autoclick is None
                || self.key_set_coord is None,
            ..self
        }
    }

    /// The state before the action phase of a tick.
    pub open spec fn before_action(self, input: InputModel, now: u64) -> ControllerModel {
        self.after_dismiss(input).after_toggle(input, now)
    }

    /// The state after a tick.
    pub open spec fn ticked(self, input: InputModel, now: u64) -> ControllerModel {
        self.before_action(input, now).after_action(input, now).after_guard(input)
    }

    /// The tick fires.
    pub open spec fn tick_fires(self, input: InputModel, now: u64) -> bool {
        self.before_action(input, now).fire_due(now)
    }

    /// The steps a tick hands to the injector: those of one fire, or none.
    pub open spec fn tick_steps(self, input: InputModel, now: u64, timing: HumanTiming) -> Seq<
        Step,
    > {
        if self.tick_fires(input, now) {
            fire_steps(
                self.app_mode,
                self.click_info(),
                input.mouse,
                self.movement_delay_ms,
                timing,
            )
        } else {
            seq![]
        }
    }
}

/// The autoclicker's controller: the single owner of its configuration and
/// run state, driven once per frame by `tick`.
pub struct RustyAutoClickerApp {
    interval: IntervalSpec,
    click_amount: u64,
    movement_delay_ms: u64,
    app_mode: AppMode,
    click_btn: ClickButton,
    click_type: ClickType,
    click_position: ClickPosition,
    click_coord: (i64, i64),
    key_autoclick: Option<KeyCode>,
    key_set_coord: Option<KeyCode>,
    dismiss_key: Option<KeyCode>,
    run_state: RunState,
    hotkey_window_open: bool,
    click_counter: u64,
    last_fire_ms: i128,
    keys_pressed: Option<Vec<KeyCode>>,
    rng: rand::rngs::ThreadRng,
}

impl View for RustyAutoClickerApp {
    type V = ControllerModel;

    closed spec fn view(&self) -> ControllerModel {
        ControllerModel {
            interval: self.interval,
            click_amount: self.click_amount,
            movement_delay_ms: self.movement_delay_ms,
            app_mode: self.app_mode,
            click_btn: self.click_btn,
            click_type: self.click_type,
            click_position: self.click_position,
            click_coord: self.click_coord,
            key_autoclick: self.key_autoclick,
            key_set_coord: self.key_set_coord,
            dismiss_key: self.dismiss_key,
            run_state: self.run_state,
            hotkey_window_open: self.hotkey_window_open,
            click_counter: self.click_counter,
            last_fire_ms: self.last_fire_ms as int,
            keys_pressed: snapshot_view(self.keys_pressed),
        }
    }
}

/// The first key of `current` that is not in `previous` (none before the first tick).
fn first_fresh_key(previous: &Option<Vec<KeyCode>>, current: &Vec<KeyCode>) -> (r: Option<KeyCode>)
    ensures
        r == first_fresh(
            match snapshot_view(*previous) {
                Some(k) => k,
                None => seq![],
            },
            current@,
        ),
{
    let ghost prev = match snapshot_view(*previous) {
        Some(k) => k,
        None => seq![],
    };
    let n = current.len();
    let mut i: usize = 0;
    assert(current@.subrange(0, n as int) == current@);
    while i < n
        invariant
            n == current@.len(),
            i <= n,
            prev == match snapshot_view(*previous) {
                Some(k) => k,
                None => seq![],
            },
            first_fresh(prev, current@.subrange(i as int, n as int)) == first_fresh(
                prev,
                current@,
            ),
        decreases n - i,
    {
        let k = current[i];
        let seen = match previous {
            Some(p) => holds_key(p, k),
            None => false,
        };
        if !seen {
            return Some(k);
        }
        assert(current@.subrange(i as int, n as int).drop_first() == current@.subrange(
            i + 1,
            n as int,
        ));
        i = i + 1;
    }
    None
}

impl RustyAutoClickerApp {
    /// A controller with the default configuration: 100 ms interval, single
    /// left clicks where the mouse is, bot mode, no click limit, and both
    /// hotkeys unbound, so the hotkey window starts open. `dismiss_key` closes
    /// the hotkey window when released.
    pub fn new(dismiss_key: Option<KeyCode>) -> (r: Self)
        ensures
            r@ == ControllerModel::initial(dismiss_key),
            r@.wf(),
    {
        RustyAutoClickerApp {
            interval: IntervalSpec { hr: 0, min: 0, sec: 0, ms: 100 },
            click_amount: 0,
            movement_delay_ms: 20,
            app_mode: AppMode::Bot,
            click_btn: ClickButton::Mouse(MouseButton::Left),
            click_type: ClickType::Single,
            click_position: ClickPosition::Mouse,
            click_coord: (0, 0),
            key_autoclick: None,
            key_set_coord: None,
            dismiss_key,
            run_state: RunState::Idle,
            hotkey_window_open: true,
            click_counter: 0,
            last_fire_ms: 0,
            keys_pressed: None,
            rng: fresh_rng(),
        }
    }

    /// Starts autoclicking at `now_ms` where it may start (nothing else going
    /// on, hotkey window closed): the counter is reset, a fresh handle on the
    /// random generator taken, and the last fire put one interval back so that
    /// the next tick fires at once. Otherwise nothing changes.
    pub fn start_autoclick(&mut self, now_ms: u64)
        requires
            old(self)@.wf(),
        ensures
            final(self)@ == old(self)@.start_at(now_ms),
            final(self)@.wf(),
    {
        if self.run_state == RunState::Idle && !self.hotkey_window_open {
            let interval = self.interval.interval_ms();
            self.run_state = RunState::Autoclicking;
            self.click_counter = 0;
            self.last_fire_ms = now_ms as i128 - interval as i128;
            self.rng = fresh_rng();
        }
    }

    /// Stops autoclicking; in any other state nothing changes.
    pub fn stop_autoclick(&mut self)
        requires
            old(self)@.wf(),
        ensures
            final(self)@ == old(self)@.stop(),
            final(self)@.wf(),
    {
        if self.run_state == RunState::Autoclicking {
            self.run_state = RunState::Idle;
        }
    }

    /// From idle, waits for a new toggle hotkey: the old one is unbound and
    /// the hotkey window opens. In any other state nothing changes.
    pub fn begin_rebind_toggle_hotkey(&mut self)
        requires
            old(self)@.wf(),
        ensures
            final(self)@ == old(self)@.rebind_toggle(),
            final(self)@.wf(),
    {
        if self.run_state == RunState::Idle {
            self.run_state = RunState::CapturingAutoclickHotkey;
            self.key_autoclick = None;
            self.hotkey_window_open = true;
        }
    }

    /// From idle, waits for a new coordinate-confirm hotkey: the old one is
    /// unbound and the hotkey window opens. In any other state nothing changes.
    pub fn begin_rebind_coord_hotkey(&mut self)
        requires
            old(self)@.wf(),
        ensures
            final(self)@ == old(self)@.rebind_coord(),
            final(self)@.wf(),
    {
        if self.run_state == RunState::Idle {
            self.run_state = RunState::CapturingCoordHotkey;
            self.key_set_coord = None;
            self.hotkey_window_open = true;
        }
    }

    /// From idle, starts capturing the click coordinate from the mouse. In
    /// any other state nothing changes.
    pub fn enter_coordinate_setting(&mut self)
        requires
            old(self)@.wf(),
        ensures
            final(self)@ == old(self)@.enter_coord(),
            final(self)@.wf(),
    {
        if self.run_state == RunState::Idle {
            self.run_state = RunState::CapturingCoordinate;
        }
    }

    /// Ends coordinate capture: clicks now go to the captured coordinate. In
    /// any other state nothing changes.
    pub fn exit_coordinate_setting(&mut self)
        requires
            old(self)@.wf(),
        ensures
            final(self)@ == old(self)@.exit_coord(),
            final(self)@.wf(),
    {
        if self.run_state == RunState::CapturingCoordinate {
            self.run_state = RunState::Idle;
            self.click_position = ClickPosition::Coord;
        }
    }

    /// Opens the hotkey window, unless autoclicking is on.
    pub fn open_hotkey_window(&mut self)
        requires
            old(self)@.wf(),
        ensures
            final(self)@ == old(self)@.open_window(),
            final(self)@.wf(),
    {
        if self.run_state != RunState::Autoclicking {
            self.hotkey_window_open = true;
        }
    }

    /// One frame of the controller, with the durations a human-like fire
    /// would use given: dismiss-key and toggle-hotkey edges, then the state's
    /// own work (a fire when one is due, a hotkey or coordinate capture), then
    /// the keys are remembered and an unbound hotkey opens the hotkey window.
    /// Returns the steps of the fire, or none.
    pub fn tick_with_timing(
        &mut self,
        input: &InputSnapshot,
        now_ms: u64,
        timing: &HumanTiming,
    ) -> (r: Vec<Step>)
        requires
            old(self)@.wf(),
        ensures
            final(self)@ == old(self)@.ticked(input@, now_ms),
            final(self)@.wf(),
            r@ == old(self)@.tick_steps(input@, now_ms, *timing),
    {
        let ghost s0 = self@;
        // Dismiss key.
        if self.hotkey_window_open && self.run_state == RunState::Idle
            && self.key_autoclick.is_some() && self.key_set_coord.is_some() && detect_edge(
            &self.keys_pressed,
            &input.keys,
            self.dismiss_key,
        ) == KeyEdge::KeyJustReleased {
            self.hotkey_window_open = false;
        }
        assert(self@ == s0.after_dismiss(input@));
        // Toggle hotkey.
        let interval = self.interval.interval_ms();
        if detect_edge(&self.keys_pressed, &input.keys, self.key_autoclick)
            == KeyEdge::KeyJustReleased {
            if self.run_state == RunState::Autoclicking {
                self.stop_autoclick();
            } else {
                self.start_autoclick(now_ms);
            }
        }
        let ghost s1 = self@;
        assert(s1 == s0.before_action(input@, now_ms));
        // The state's own work.
        let mut steps: Vec<Step> = Vec::new();
        match self.run_state {
            RunState::Autoclicking => {
                let now = now_ms as i128;
                let elapsed: i128 = if now >= self.last_fire_ms {
                    now - self.last_fire_ms
                } else {
                    0
                };
                if elapsed >= interval as i128 {
                    let info = ClickInfo {
                        click_btn: self.click_btn,
                        click_coord: self.click_coord,
                        click_position: self.click_position,
                        click_type: self.click_type,
                    };
                    steps = autoclick(
                        self.app_mode,
                        &info,
                        input.mouse,
                        self.movement_delay_ms,
                        timing,
                    );
                    self.last_fire_ms = now;
                    if self.click_counter < u64::MAX {
                        self.click_counter = self.click_counter + 1;
                    }
                    if self.click_amount != 0 && self.click_counter >= self.click_amount {
                        self.run_state = RunState::Idle;
                    }
                }
            },
            RunState::CapturingAutoclickHotkey => {
                match first_fresh_key(&self.keys_pressed, &input.keys) {
                    Some(k) => {
                        self.key_autoclick = Some(k);
                        self.run_state = RunState::Idle;
                    },
                    None => {},
                }
            },
            RunState::CapturingCoordHotkey => {
                match first_fresh_key(&self.keys_pressed, &input.keys) {
                    Some(k) => {
                        self.key_set_coord = Some(k);
                        self.run_state = RunState::Idle;
                    },
                    None => {},
                }
            },
            RunState::CapturingCoordinate => {
                self.click_coord = input.mouse;
                if input.left_button || detect_edge(
                    &self.keys_pressed,
                    &input.keys,
                    self.key_set_coord,
                ) == KeyEdge::KeyJustReleased {
                    self.exit_coordinate_setting();
                }
            },
            RunState::Idle => {},
        }
        assert(self@ == s1.after_action(input@, now_ms));
        // Remember the keys; an unbound hotkey opens the hotkey window.
        let held = input.keys.clone();
        assert(held@ =~= input.keys@);
        self.keys_pressed = Some(held);
        if self.key_autoclick.is_none() || self.key_set_coord.is_none() {
            self.hotkey_window_open = true;
        }
        steps
    }

    /// One frame of the controller, as `tick_with_timing`, with the durations
    /// of a human-like fire drawn from the controller's random generator.
    pub fn tick(&mut self, input: &InputSnapshot, now_ms: u64) -> (r: Vec<Step>)
        requires
            old(self)@.wf(),
        ensures
            final(self)@ == old(self)@.ticked(input@, now_ms),
            final(self)@.wf(),
            exists|timing: HumanTiming|
                timing.in_range() && r@ == old(self)@.tick_steps(input@, now_ms, timing),
    {
        let timing = if self.app_mode == AppMode::Humanlike {
            draw_timing(&mut self.rng)
        } else {
            HumanTiming {
                gap_ms: DURATION_DOUBLE_CLICK_MIN,
                first_hold_ms: DURATION_CLICK_MIN,
                second_hold_ms: DURATION_CLICK_MIN,
            }
        };
        let ghost before = self@;
        let steps = self.tick_with_timing(input, now_ms, &timing);
        assert(timing.in_range() && steps@ == before.tick_steps(input@, now_ms, timing));
        steps
    }
}

impl RustyAutoClickerApp {
    /// The click interval as entered.
    pub fn interval(&self) -> (r: IntervalSpec)
        ensures
            r == self@.interval,
    {
        self.interval
    }

    /// Number of fires after which autoclicking stops; 0 for no limit.
    pub fn click_amount(&self) -> (r: u64)
        ensures
            r == self@.click_amount,
    {
        self.click_amount
    }

    /// Pause between two glide steps in human-like mode, in ms.
    pub fn movement_delay_ms(&self) -> (r: u64)
        ensures
            r == self@.movement_delay_ms,
    {
        self.movement_delay_ms
    }

    /// How clicks are executed.
    pub fn app_mode(&self) -> (r: AppMode)
        ensures
            r == self@.app_mode,
    {
        self.app_mode
    }

    /// What a click presses.
    pub fn click_btn(&self) -> (r: ClickButton)
        ensures
            r == self@.click_btn,
    {
        self.click_btn
    }

    /// Single or double clicks.
    pub fn click_type(&self) -> (r: ClickType)
        ensures
            r == self@.click_type,
    {
        self.click_type
    }

    /// Where clicks land.
    pub fn click_position(&self) -> (r: ClickPosition)
        ensures
            r == self@.click_position,
    {
        self.click_position
    }

    /// The stored click coordinate.
    pub fn click_coord(&self) -> (r: (i64, i64))
        ensures
            r == self@.click_coord,
    {
        self.click_coord
    }

    /// The toggle hotkey, if bound.
    pub fn key_autoclick(&self) -> (r: Option<KeyCode>)
        ensures
            r == self@.key_autoclick,
    {
        self.key_autoclick
    }

    /// The coordinate-confirm hotkey, if bound.
    pub fn key_set_coord(&self) -> (r: Option<KeyCode>)
        ensures
            r == self@.key_set_coord,
    {
        self.key_set_coord
    }

    /// What the controller is doing.
    pub fn run_state(&self) -> (r: RunState)
        ensures
            r == self@.run_state,
    {
        self.run_state
    }

    /// Fires since autoclicking last started.
    pub fn click_counter(&self) -> (r: u64)
        ensures
            r == self@.click_counter,
    {
        self.click_counter
    }

    /// Whether the hotkey window is open, which keeps autoclicking from starting.
    pub fn is_start_blocked(&self) -> (r: bool)
        ensures
            r == self@.hotkey_window_open,
    {
        self.hotkey_window_open
    }

    /// Sets the click interval; it must fit in a `u64` as milliseconds.
    pub fn set_interval(&mut self, interval: IntervalSpec)
        requires
            old(self)@.wf(),
            interval.fits(),
        ensures
            final(self)@ == (ControllerModel { interval, ..old(self)@ }),
            final(self)@.wf(),
    {
        self.interval = interval;
    }

    /// Sets the number of fires after which autoclicking stops; 0 for no limit.
    pub fn set_click_amount(&mut self, click_amount: u64)
        requires
            old(self)@.wf(),
        ensures
            final(self)@ == (ControllerModel { click_amount, ..old(self)@ }),
            final(self)@.wf(),
    {
        self.click_amount = click_amount;
    }

    /// Sets the pause between two glide steps in human-like mode, in ms.
    pub fn set_movement_delay_ms(&mut self, movement_delay_ms: u64)
        requires
            old(self)@.wf(),
        ensures
            final(self)@ == (ControllerModel { movement_delay_ms, ..old(self)@ }),
            final(self)@.wf(),
    {
        self.movement_delay_ms = movement_delay_ms;
    }

    /// Sets how clicks are executed.
    pub fn set_app_mode(&mut self, app_mode: AppMode)
        requires
            old(self)@.wf(),
        ensures
            final(self)@ == (ControllerModel { app_mode, ..old(self)@ }),
            final(self)@.wf(),
    {
        self.app_mode = app_mode;
    }

    /// Sets what a click presses.
    pub fn set_click_btn(&mut self, click_btn: ClickButton)
        requires
            old(self)@.wf(),
        ensures
            final(self)@ == (ControllerModel { click_btn, ..old(self)@ }),
            final(self)@.wf(),
    {
        self.click_btn = click_btn;
    }

    /// Sets single or double clicks.
    pub fn set_click_type(&mut self, click_type: ClickType)
        requires
            old(self)@.wf(),
        ensures
            final(self)@ == (ControllerModel { click_type, ..old(self)@ }),
            final(self)@.wf(),
    {
        self.click_type = click_type;
    }

    /// Sets where clicks land.
    pub fn set_click_position(&mut self, click_position: ClickPosition)
        requires
            old(self)@.wf(),
        ensures
            final(self)@ == (ControllerModel { click_position, ..old(self)@ }),
            final(self)@.wf(),
    {
        self.click_position = click_position;
    }

    /// Sets the stored click coordinate.
    pub fn set_click_coord(&mut self, click_coord: (i64, i64))
        requires
            old(self)@.wf(),
        ensures
            final(self)@ == (ControllerModel { click_coord, ..old(self)@ }),
            final(self)@.wf(),
    {
        self.click_coord = click_coord;
    }
}

} // verus!
