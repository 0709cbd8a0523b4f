//! The read-only settings snapshot the engine consumes once per tick.
//!
//! Fractional quantities are held as exact integer fixed-point values so that
//! every downstream computation is exact: the response gain in thousandths
//! (`1000` is a gain of one) and the deadzone as a fraction of the full axis
//! range in basis points, that is ten-thousandths (`750` is 7.5%).

use vstd::prelude::*;

verus! {

/// Which hardware polling mechanism the engine should drive.
#[derive(Clone, Copy, Debug, PartialEq, Eq, Structural)]
pub enum InputType {
    XInput,
    DirectInputSingle,
    DirectInputDual,
}

impl InputType {
    /// Human-readable name, shown by the configuration UI.
    pub fn label(&self) -> (r: &'static str)
        ensures
            *self is XInput ==> r@ == "XInput (Xbox)"@,
            *self is DirectInputSingle ==> r@ == "DirectInput (Single)"@,
            *self is DirectInputDual ==> r@ == "DirectInput (Dual)"@,
    {
        match self {
            InputType::XInput => "XInput (Xbox)",
            InputType::DirectInputSingle => "DirectInput (Single)",
            InputType::DirectInputDual => "DirectInput (Dual)",
        }
    }
}

impl Default for InputType {
    fn default() -> (r: Self)
        ensures
            r == InputType::XInput,
    {
        InputType::XInput
    }
}

/// How two simultaneous stick readings are combined into one vector.
#[derive(Clone, Copy, Debug, PartialEq, Eq, Structural)]
pub enum DualStickPriority {
    Stick1First,
    Stick2First,
    LargestMagnitude,
    CombineAdditive,
}

impl DualStickPriority {
    /// Human-readable name, shown by the configuration UI.
    pub fn label(&self) -> (r: &'static str)
        ensures
            *self is Stick1First ==> r@ == "Stick 1 Priority"@,
            *self is Stick2First ==> r@ == "Stick 2 Priority"@,
            *self is LargestMagnitude ==> r@ == "Largest Movement"@,
            *self is CombineAdditive ==> r@ == "Combine (Additive)"@,
    {
        match self {
            DualStickPriority::Stick1First => "Stick 1 Priority",
            DualStickPriority::Stick2First => "Stick 2 Priority",
            DualStickPriority::LargestMagnitude => "Largest Movement",
            DualStickPriority::CombineAdditive => "Combine (Additive)",
        }
    }
}

impl Default for DualStickPriority {
    fn default() -> (r: Self)
        ensures
            r == DualStickPriority::Stick1First,
    {
        DualStickPriority::Stick1First
    }
}

/// One immutable configuration snapshot, read at the top of every tick.
#[derive(Clone, Copy, Debug, PartialEq, Eq, Structural)]
pub struct Settings {
    /// When false the whole pipeline idles.
    pub enabled: bool,
    /// Negate the vertical component before emission.
    pub invert_y: bool,
    /// Negate the horizontal component before emission.
    pub invert_x: bool,
    /// Exchange the two components after inversion.
    pub swap_axes: bool,
    /// Pointer gain in thousandths; `1000` means shaped units pass unscaled.
    pub sensitivity_milli: u32,
    /// Deadzone as a fraction of the full axis range, in basis points
    /// (ten-thousandths); must stay below `10000`, that is below 100%.
    pub deadzone_bp: u32,
    /// Which backend(s) the session manager should drive.
    pub input_type: InputType,
    /// Combine policy used when two devices are sampled.
    pub dual_stick_priority: DualStickPriority,
}

impl Settings {
    /// The documented ranges: a strictly positive gain and a deadzone
    /// fraction strictly below the whole range.
    pub open spec fn well_formed(self) -> bool {
        &&& self.sensitivity_milli > 0
        &&& self.deadzone_bp < 10000
    }
}

impl Default for Settings {
    fn default() -> (r: Self)
        ensures
            r.enabled,
            r.invert_y,
            !r.invert_x,
            !r.swap_axes,
            r.sensitivity_milli == 1000,
            r.deadzone_bp == 750,
            r.input_type == InputType::XInput,
            r.dual_stick_priority == DualStickPriority::Stick1First,
            r.well_formed(),
    {
        Settings {
            enabled: true,
            invert_y: true,
            invert_x: false,
            swap_axes: false,
            sensitivity_milli: 1000,
            deadzone_bp: 750,
            input_type: InputType::XInput,
            dual_stick_priority: DualStickPriority::Stick1First,
        }
    }
}

} // verus!
