use vstd::prelude::*;
use crate::types::ControllerDef;

verus! {

/// The handle of an open SDL gamepad, held as its address; 0 when no
/// gamepad is open.
#[derive(Debug, Clone, Copy)]
pub struct SafePtr(pub usize);

impl SafePtr {
    /// The handle's address.
    pub fn as_ptr(&self) -> (r: usize)
        ensures
            r == self.0,
    {
        self.0
    }
}

/// The handle of an open SDL joystick, held as its address; 0 when no
/// joystick is open.
#[derive(Debug, Clone, Copy)]
pub struct SafeJoystickPtr(pub usize);

impl SafeJoystickPtr {
    /// The handle's address.
    pub fn as_ptr(&self) -> (r: usize)
        ensures
            r == self.0,
    {
        self.0
    }
}

/// A loaded profile as the frontend receives it: the definition, the mode
/// detected for the connected device, and the paint color to start with.
#[derive(Debug, Clone)]
pub struct LoadedDef {
    pub def: ControllerDef,
    pub mode: Option<String>,
    pub color: String,
}

impl LoadedDef {
    /// The frontend's view of a profile: its paint color is the profile's
    /// own `[controller] color`.
    pub fn new(def: ControllerDef, mode: Option<String>) -> (r: LoadedDef)
        ensures
            r.def == def,
            r.mode == mode,
            r.color == def.controller.color,
    {
        let color = def.controller.color.clone();
        LoadedDef { def, mode, color }
    }
}

} // verus!
