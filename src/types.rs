use vstd::prelude::*;

verus! {

/// A mouse button the injector can press; `Unknown` carries the platform's number.
#[derive(PartialEq, Eq, Structural, Clone, Copy, Debug)]
pub enum MouseButton {
    Left,
    Right,
    Middle,
    Unknown(u8),
}

/// How a click is executed: as fast as possible, or paced like a person.
#[derive(PartialEq, Eq, Structural, Clone, Copy, Debug)]
pub enum AppMode {
    Bot,
    Humanlike,
}

/// Where a click lands: wherever the mouse is, or on the stored coordinate.
#[derive(PartialEq, Eq, Structural, Clone, Copy, Debug)]
pub enum ClickPosition {
    Mouse,
    Coord,
}

/// How many press/release pairs make up one fire.
#[derive(PartialEq, Eq, Structural, Clone, Copy, Debug)]
pub enum ClickType {
    Single,
    Double,
}

/// The physical input a click simulates: a mouse button, or a keyboard key given
/// by the injector's key number.
#[derive(PartialEq, Eq, Structural, Clone, Copy, Debug)]
pub enum ClickButton {
    Mouse(MouseButton),
    Key(u32),
}

/// Everything the scheduler needs to know about one fire.
#[derive(Clone, Copy, Debug)]
pub struct ClickInfo {
    pub click_btn: ClickButton,
    pub click_coord: (i64, i64),
    pub click_position: ClickPosition,
    pub click_type: ClickType,
}

} // verus!
