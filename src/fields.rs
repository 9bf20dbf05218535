use vstd::prelude::*;

use crate::controller::{ControllerModel, RustyAutoClickerApp};
use crate::interval::IntervalSpec;
use crate::sanitize::{
    decimal_string, decimal_text, i64_or_zero, parse_i64_or_zero, parse_u64_or_zero,
    sanitize_i64_string, sanitize_string, sanitized, sanitized_i64, u64_or_zero,
};

verus! {

/// Most characters of a numeric field.
pub const NUMERIC_FIELD_LEN: usize = 5;

/// Most characters of a coordinate field.
pub const COORD_FIELD_LEN: usize = 7;

/// The text the user types into the settings fields.
pub struct FieldTexts {
    pub hr_str: String,
    pub min_str: String,
    pub sec_str: String,
    pub ms_str: String,
    pub click_amount_str: String,
    pub click_x_str: String,
    pub click_y_str: String,
    pub movement_sec_str: String,
    pub movement_ms_str: String,
}

impl FieldTexts {
    /// The interval the four time fields spell, 0 for a field that spells no number.
    pub open spec fn interval_value(&self) -> IntervalSpec {
        IntervalSpec {
            hr: u64_or_zero(self.hr_str@),
            min: u64_or_zero(self.min_str@),
            sec: u64_or_zero(self.sec_str@),
            ms: u64_or_zero(self.ms_str@),
        }
    }

    /// The movement delay the two movement fields spell, in ms, held at `u64::MAX`.
    pub open spec fn movement_delay_value(&self) -> u64 {
        let total = u64_or_zero(self.movement_sec_str@) * 1000 + u64_or_zero(self.movement_ms_str@);
        if total <= u64::MAX {
            total as u64
        } else {
            u64::MAX
        }
    }

    /// The fields as they first appear: a 100 ms interval, no click limit,
    /// coordinate 0/0 and a 20 ms movement delay.
    pub fn new() -> (r: Self)
        ensures
            r.hr_str@ == seq!['0'],
            r.min_str@ == seq!['0'],
            r.sec_str@ == seq!['0'],
            r.ms_str@ == seq!['1', '0', '0'],
            r.click_amount_str@ == seq!['0'],
            r.click_x_str@ == seq!['0'],
            r.click_y_str@ == seq!['0'],
            r.movement_sec_str@ == seq!['0'],
            r.movement_ms_str@ == seq!['2', '0'],
    {
        proof {
            reveal_strlit("0");
            reveal_strlit("100");
            reveal_strlit("20");
        }
        FieldTexts {
            hr_str: String::from_str("0"),
            min_str: String::from_str("0"),
            sec_str: String::from_str("0"),
            ms_str: String::from_str("100"),
            click_amount_str: String::from_str("0"),
            click_x_str: String::from_str("0"),
            click_y_str: String::from_str("0"),
            movement_sec_str: String::from_str("0"),
            movement_ms_str: String::from_str("20"),
        }
    }

    /// Sanitises every field in place: the numeric ones to at most
    /// `NUMERIC_FIELD_LEN` digits, the coordinates to a base-ten `i64` of at
    /// most `COORD_FIELD_LEN` characters.
    pub fn sanitize(&mut self)
        ensures
            final(self).hr_str@ == sanitized(old(self).hr_str@, NUMERIC_FIELD_LEN as nat),
            final(self).min_str@ == sanitized(old(self).min_str@, NUMERIC_FIELD_LEN as nat),
            final(self).sec_str@ == sanitized(old(self).sec_str@, NUMERIC_FIELD_LEN as nat),
            final(self).ms_str@ == sanitized(old(self).ms_str@, NUMERIC_FIELD_LEN as nat),
            final(self).click_amount_str@ == sanitized(
                old(self).click_amount_str@,
                NUMERIC_FIELD_LEN as nat,
            ),
            final(self).click_x_str@ == sanitized_i64(
                old(self).click_x_str@,
                COORD_FIELD_LEN as nat,
            ),
            final(self).click_y_str@ == sanitized_i64(
                old(self).click_y_str@,
                COORD_FIELD_LEN as nat,
            ),
            final(self).movement_sec_str@ == sanitized(
                old(self).movement_sec_str@,
                NUMERIC_FIELD_LEN as nat,
            ),
            final(self).movement_ms_str@ == sanitized(
                old(self).movement_ms_str@,
                NUMERIC_FIELD_LEN as nat,
            ),
    {
        sanitize_string(&mut self.hr_str, NUMERIC_FIELD_LEN);
        sanitize_string(&mut self.min_str, NUMERIC_FIELD_LEN);
        sanitize_string(&mut self.sec_str, NUMERIC_FIELD_LEN);
        sanitize_string(&mut self.ms_str, NUMERIC_FIELD_LEN);
        sanitize_string(&mut self.click_amount_str, NUMERIC_FIELD_LEN);
        sanitize_i64_string(&mut self.click_x_str, COORD_FIELD_LEN);
        sanitize_i64_string(&mut self.click_y_str, COORD_FIELD_LEN);
        sanitize_string(&mut self.movement_sec_str, NUMERIC_FIELD_LEN);
        sanitize_string(&mut self.movement_ms_str, NUMERIC_FIELD_LEN);
    }

    /// The interval the four time fields give; a field that spells no
    /// number counts as 0.
    pub fn interval(&self) -> (r: IntervalSpec)
        ensures
            r == self.interval_value(),
    {
        IntervalSpec {
            hr: parse_u64_or_zero(self.hr_str.as_str()),
            min: parse_u64_or_zero(self.min_str.as_str()),
            sec: parse_u64_or_zero(self.sec_str.as_str()),
            ms: parse_u64_or_zero(self.ms_str.as_str()),
        }
    }

    /// The click amount; a field that spells no number counts as 0.
    pub fn click_amount(&self) -> (r: u64)
        ensures
            r == u64_or_zero(self.click_amount_str@),
    {
        parse_u64_or_zero(self.click_amount_str.as_str())
    }

    /// The movement delay in ms, `sec * 1000 + ms`, held at `u64::MAX` where
    /// it would pass it.
    pub fn movement_delay_ms(&self) -> (r: u64)
        ensures
            r == self.movement_delay_value(),
    {
        let sec = parse_u64_or_zero(self.movement_sec_str.as_str());
        let ms = parse_u64_or_zero(self.movement_ms_str.as_str());
        match sec.checked_mul(1000) {
            Some(s) => s.saturating_add(ms),
            None => u64::MAX,
        }
    }

    /// The click coordinate; a field that spells no number counts as 0.
    pub fn click_coord(&self) -> (r: (i64, i64))
        ensures
            r == (i64_or_zero(self.click_x_str@), i64_or_zero(self.click_y_str@)),
    {
        (parse_i64_or_zero(self.click_x_str.as_str()), parse_i64_or_zero(self.click_y_str.as_str()))
    }

    /// Writes a coordinate into the two coordinate fields, in base ten.
    pub fn show_coord(&mut self, coord: (i64, i64))
        ensures
            final(self).click_x_str@ == decimal_text(coord.0 as int),
            final(self).click_y_str@ == decimal_text(coord.1 as int),
            final(self).hr_str == old(self).hr_str,
            final(self).min_str == old(self).min_str,
            final(self).sec_str == old(self).sec_str,
            final(self).ms_str == old(self).ms_str,
            final(self).click_amount_str == old(self).click_amount_str,
            final(self).movement_sec_str == old(self).movement_sec_str,
            final(self).movement_ms_str == old(self).movement_ms_str,
    {
        self.click_x_str = decimal_string(coord.0);
        self.click_y_str = decimal_string(coord.1);
    }

    /// Hands the values of the fields to the controller: interval, click
    /// amount, movement delay and coordinate. An interval too long for a `u64`
    /// is not taken, and then the result is false.
    pub fn apply_to(&self, app: &mut RustyAutoClickerApp) -> (r: bool)
        requires
            old(app)@.wf(),
        ensures
            r == self.interval_value().fits(),
            final(app)@.wf(),
            final(app)@ == (ControllerModel {
                interval: if r { self.interval_value() } else { old(app)@.interval },
                click_amount: u64_or_zero(self.click_amount_str@),
                movement_delay_ms: self.movement_delay_value(),
                click_coord: (i64_or_zero(self.click_x_str@), i64_or_zero(self.click_y_str@)),
                ..old(app)@
            }),
    {
        let interval = self.interval();
        let fits = interval.checked_interval_ms().is_some();
        if fits {
            app.set_interval(interval);
        }
        app.set_click_amount(self.click_amount());
        app.set_movement_delay_ms(self.movement_delay_ms());
        app.set_click_coord(self.click_coord());
        fits
    }
}

} // verus!
