use vstd::prelude::*;

verus! {

/// Marks a controller input that has not been touched since it was last read.
pub const UNTOUCHED: i32 = 6969;

/// The latest values read from the wireless controller, shared between the reader
/// and the driving loop.
#[derive(Debug, Clone, Copy, PartialEq, Eq, Structural)]
pub struct ControllerEvents {
    pub left_motor_bank_value: i32,
    pub right_motor_bank_value: i32,
    pub insert_rack_button_value: i32,
    pub extract_rack_button_value: i32,
    pub beer_me_button_value: i32,
    pub light_led_button_value: i32,
    pub extinguish_led_button_value: i32,
    pub continue_control_button_value: i32,
    pub strafe_left_button_value: i32,
    pub strafe_right_button_value: i32,
    pub lane_seek_button_value: i32,
    pub quit_after_controller: bool,
    pub should_continue: bool,
}

impl ControllerEvents {
    /// Every input untouched, and reading goes on.
    pub open spec fn spec_new() -> ControllerEvents {
        (ControllerEvents {
            left_motor_bank_value: UNTOUCHED,
            right_motor_bank_value: UNTOUCHED,
            insert_rack_button_value: UNTOUCHED,
            extract_rack_button_value: UNTOUCHED,
            beer_me_button_value: UNTOUCHED,
            light_led_button_value: UNTOUCHED,
            extinguish_led_button_value: UNTOUCHED,
            continue_control_button_value: UNTOUCHED,
            strafe_left_button_value: UNTOUCHED,
            strafe_right_button_value: UNTOUCHED,
            lane_seek_button_value: UNTOUCHED,
            quit_after_controller: false,
            should_continue: true,
        })
    }

    /// No input seen yet; keep reading.
    pub fn new() -> (r: ControllerEvents)
        ensures
            r == ControllerEvents::spec_new(),
    {
        ControllerEvents {
            left_motor_bank_value: UNTOUCHED,
            right_motor_bank_value: UNTOUCHED,
            insert_rack_button_value: UNTOUCHED,
            extract_rack_button_value: UNTOUCHED,
            beer_me_button_value: UNTOUCHED,
            light_led_button_value: UNTOUCHED,
            extinguish_led_button_value: UNTOUCHED,
            continue_control_button_value: UNTOUCHED,
            strafe_left_button_value: UNTOUCHED,
            strafe_right_button_value: UNTOUCHED,
            lane_seek_button_value: UNTOUCHED,
            quit_after_controller: false,
            should_continue: true,
        }
    }
}

impl Default for ControllerEvents {
    fn default() -> (r: Self)
        ensures
            r == ControllerEvents::spec_new(),
    {
        Self::new()
    }
}

} // verus!
