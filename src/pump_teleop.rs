use vstd::prelude::*;
use crate::teleop::UNTOUCHED;

verus! {

/// The latest values read from the pump robot's controller.
#[derive(Debug, Clone, Copy, PartialEq, Eq, Structural)]
pub struct ControllerEvents {
    pub left_motor_value: i32,
    pub right_motor_value: i32,
    pub suck_fluid_button_value: i32,
    pub pump_fluid_button_value: i32,
    pub suck_trash_button_value: i32,
    pub pump_trash_button_value: i32,
    pub triangle_button_value: i32,
    pub should_continue_reading: bool,
}

impl ControllerEvents {
    /// Every input untouched, and reading goes on.
    pub open spec fn spec_new() -> ControllerEvents {
        (ControllerEvents {
            left_motor_value: UNTOUCHED,
            right_motor_value: UNTOUCHED,
            suck_fluid_button_value: UNTOUCHED,
            pump_fluid_button_value: UNTOUCHED,
            suck_trash_button_value: UNTOUCHED,
            pump_trash_button_value: UNTOUCHED,
            triangle_button_value: UNTOUCHED,
            should_continue_reading: true,
        })
    }

    /// No input seen yet; keep reading.
    pub fn new() -> (r: ControllerEvents)
        ensures
            r == ControllerEvents::spec_new(),
    {
        ControllerEvents {
            left_motor_value: UNTOUCHED,
            right_motor_value: UNTOUCHED,
            suck_fluid_button_value: UNTOUCHED,
            pump_fluid_button_value: UNTOUCHED,
            suck_trash_button_value: UNTOUCHED,
            pump_trash_button_value: UNTOUCHED,
            triangle_button_value: UNTOUCHED,
            should_continue_reading: true,
        }
    }
}

impl Default for ControllerEvents {
    fn default() -> (r: Self)
        ensures
            r == ControllerEvents::spec_new(),
    {
        Self::new()
    }
}

} // verus!
