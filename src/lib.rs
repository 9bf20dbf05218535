//! The decision engine of a desktop autoclicker: hotkey edge detection, the
//! run-state controller, click-interval arithmetic, the click scheduler and
//! the sanitising of the numeric text fields the user edits.
//!
//! The host polls the keyboard and mouse once per frame, hands the snapshot
//! to [`RustyAutoClickerApp::tick`], and carries out the [`Step`]s it returns.

mod controller;
mod edge;
mod fields;
mod guarantees;
mod interval;
mod sanitize;
mod scheduler;
mod types;

pub use controller::{
    activities, elapsed_ms, first_fresh, ControllerModel, Event, InputModel, InputSnapshot,
    RunState, RustyAutoClickerApp,
};
pub use edge::{
    detect_edge, edge_at, edge_of, held_at, holds_key, lemma_toggle_once_per_cycle,
    snapshot_view, KeyCode, KeyEdge,
};
pub use fields::{FieldTexts, COORD_FIELD_LEN, NUMERIC_FIELD_LEN};
pub use guarantees::{
    due_ticks, lemma_capture_follows_mouse, lemma_click_amount_run, lemma_click_amount_stops,
    lemma_first_fire_at_once,
    lemma_no_catch_up, lemma_one_activity_at_a_time,
};
pub use interval::IntervalSpec;
pub use sanitize::{
    all_digits, ascii_digits, bounded_digits, clamp_len, decimal_text, digit_char, digit_value,
    digits_value, i64_or_zero, is_digit, is_space, lemma_sanitized_is_decimal, nat_text,
    numeric_part, parse_i64_or_zero, parse_i64_text, parse_u64_or_zero, parse_u64_text, pow10,
    sanitize_i64_string, sanitize_string, sanitized, sanitized_i64, strip_zeros, trim_end,
    trim_start, trimmed, truncate_string, u64_or_zero, unsigned_body,
};
pub use scheduler::{
    autoclick, bot_round, coord_of, fire_steps, glide, glide_measure, human_round, step_toward,
    HumanTiming, Step, DURATION_CLICK_MAX, DURATION_CLICK_MIN, DURATION_DOUBLE_CLICK_MAX,
    DURATION_DOUBLE_CLICK_MIN, MOUSE_STEP,
};
pub use types::{AppMode, ClickButton, ClickInfo, ClickPosition, ClickType, MouseButton};
