use std::collections::HashMap;
use vstd::prelude::*;

verus! {

// Numbers that the profile format gives as `f32` (travel, transparency,
// touchpad geometry, trigger thresholds) are held here as the IEEE-754 bit
// pattern of that `f32` (`f32::to_bits`). The library only carries and
// defaults them; it never computes with them.

/// `[controller]`: top-level metadata of a profile.
#[derive(Debug, Clone)]
pub struct ControllerInfo {
    pub name: String,
    pub base: String,
    pub icon: String,
    pub paint_hold_ms: u64,
    pub color: String,
    pub vendor: Option<String>,
    pub product: Option<String>,
}

/// `[defaults]`: per-profile defaults for buttons.
#[derive(Debug, Clone)]
pub struct ButtonDefaults {
    /// Bit pattern of the default stick travel.
    pub travel: u32,
    pub paint: String,
    /// Bit pattern of the default paint opacity.
    pub transparency: u32,
}

/// The input binding of a button.
#[derive(Debug)]
pub enum InputDef {
    Button { index: u32 },
    /// `threshold` is the bit pattern of an `f32`.
    Trigger { axis: u32, threshold: Option<u32> },
    Stick { axis_x: u32, axis_y: u32, press_button: Option<u32> },
    Touchpad { index: u32, press_button: Option<u32> },
    Keyboard { key: u16 },
    Mouse { button: u8 },
    MouseMove,
    ScrollWheel,
    Hat { index: u32, direction: u32 },
    Multi { indices: Vec<u32> },
    /// No binding (`type = "none"`).
    Unbound,
}

/// The mathematical value of an `InputDef`.
pub enum InputView {
    Button { index: u32 },
    Trigger { axis: u32, threshold: Option<u32> },
    Stick { axis_x: u32, axis_y: u32, press_button: Option<u32> },
    Touchpad { index: u32, press_button: Option<u32> },
    Keyboard { key: u16 },
    Mouse { button: u8 },
    MouseMove,
    ScrollWheel,
    Hat { index: u32, direction: u32 },
    Multi { indices: Seq<u32> },
    Unbound,
}

impl View for InputDef {
    type V = InputView;

    open spec fn view(&self) -> InputView {
        match self {
            InputDef::Button { index } => InputView::Button { index: *index },
            InputDef::Trigger { axis, threshold } => InputView::Trigger {
                axis: *axis,
                threshold: *threshold,
            },
            InputDef::Stick { axis_x, axis_y, press_button } => InputView::Stick {
                axis_x: *axis_x,
                axis_y: *axis_y,
                press_button: *press_button,
            },
            InputDef::Touchpad { index, press_button } => InputView::Touchpad {
                index: *index,
                press_button: *press_button,
            },
            InputDef::Keyboard { key } => InputView::Keyboard { key: *key },
            InputDef::Mouse { button } => InputView::Mouse { button: *button },
            InputDef::MouseMove => InputView::MouseMove,
            InputDef::ScrollWheel => InputView::ScrollWheel,
            InputDef::Hat { index, direction } => InputView::Hat {
                index: *index,
                direction: *direction,
            },
            InputDef::Multi { indices } => InputView::Multi { indices: indices@ },
            InputDef::Unbound => InputView::Unbound,
        }
    }
}

impl Clone for InputDef {
    fn clone(&self) -> (r: Self)
        ensures
            r@ == self@,
    {
        match self {
            InputDef::Button { index } => InputDef::Button { index: *index },
            InputDef::Trigger { axis, threshold } => InputDef::Trigger {
                axis: *axis,
                threshold: *threshold,
            },
            InputDef::Stick { axis_x, axis_y, press_button } => InputDef::Stick {
                axis_x: *axis_x,
                axis_y: *axis_y,
                press_button: *press_button,
            },
            InputDef::Touchpad { index, press_button } => InputDef::Touchpad {
                index: *index,
                press_button: *press_button,
            },
            InputDef::Keyboard { key } => InputDef::Keyboard { key: *key },
            InputDef::Mouse { button } => InputDef::Mouse { button: *button },
            InputDef::MouseMove => InputDef::MouseMove,
            InputDef::ScrollWheel => InputDef::ScrollWheel,
            InputDef::Hat { index, direction } => InputDef::Hat {
                index: *index,
                direction: *direction,
            },
            InputDef::Multi { indices } => {
                let mut copy: Vec<u32> = Vec::new();
                let mut k: usize = 0;
                while k < indices.len()
                    invariant
                        k <= indices@.len(),
                        copy@ == indices@.take(k as int),
                    decreases indices@.len() - k,
                {
                    copy.push(indices[k]);
                    assert(indices@.take(k + 1) =~= indices@.take(k as int).push(indices@[k as int]));
                    k = k + 1;
                }
                assert(indices@.take(k as int) =~= indices@);
                InputDef::Multi { indices: copy }
            },
            InputDef::Unbound => InputDef::Unbound,
        }
    }
}

impl InputDef {
    /// The `type` tag that names this variant in a profile (`input = { type = ".." }`).
    pub fn tag(&self) -> (t: &'static str)
        ensures
            t@ == input_tag(self@),
    {
        match self {
            InputDef::Button { .. } => "button",
            InputDef::Trigger { .. } => "trigger",
            InputDef::Stick { .. } => "stick",
            InputDef::Touchpad { .. } => "touchpad",
            InputDef::Keyboard { .. } => "keyboard",
            InputDef::Mouse { .. } => "mouse",
            InputDef::MouseMove => "mouse_move",
            InputDef::ScrollWheel => "scroll_wheel",
            InputDef::Hat { .. } => "hat",
            InputDef::Multi { .. } => "multi",
            InputDef::Unbound => "none",
        }
    }
}

/// The tag of each input variant.
pub open spec fn input_tag(i: InputView) -> Seq<char> {
    match i {
        InputView::Button { .. } => "button"@,
        InputView::Trigger { .. } => "trigger"@,
        InputView::Stick { .. } => "stick"@,
        InputView::Touchpad { .. } => "touchpad"@,
        InputView::Keyboard { .. } => "keyboard"@,
        InputView::Mouse { .. } => "mouse"@,
        InputView::MouseMove => "mouse_move"@,
        InputView::ScrollWheel => "scroll_wheel"@,
        InputView::Hat { .. } => "hat"@,
        InputView::Multi { .. } => "multi"@,
        InputView::Unbound => "none"@,
    }
}

/// A `[[buttons]]` entry as written in the profile, before defaults and
/// references are applied.
#[derive(Debug, Clone)]
pub struct RawButtonDef {
    pub id: String,
    pub image: Option<String>,
    pub image_up: Option<String>,
    pub image_down: Option<String>,
    pub input: Option<InputDef>,
    pub travel: Option<u32>,
    pub paint: Option<String>,
    pub transparency: Option<u32>,
    pub capsense: Option<u32>,
    pub reference: Option<String>,
    pub pad_size_x: Option<u32>,
    pub pad_size_y: Option<u32>,
    pub pad_angle: Option<u32>,
    pub pad_shape: Option<String>,
    pub pad_center_x: Option<u32>,
    pub pad_center_y: Option<u32>,
    pub pad_sensitivity: Option<u32>,
}

/// A resolved button: every default applied and every reference followed.
#[derive(Debug, Clone)]
pub struct ButtonDef {
    pub id: String,
    pub image: String,
    pub image_up: Option<String>,
    pub image_down: Option<String>,
    pub input: InputDef,
    pub travel: u32,
    pub paint: String,
    pub transparency: u32,
    pub capsense: Option<u32>,
    pub reference: Option<String>,
    pub pad_size_x: Option<u32>,
    pub pad_size_y: Option<u32>,
    pub pad_angle: Option<u32>,
    pub pad_shape: Option<String>,
    pub pad_center_x: Option<u32>,
    pub pad_center_y: Option<u32>,
    pub pad_sensitivity: Option<u32>,
}

/// The mathematical value of a `ButtonDef`.
pub struct ButtonView {
    pub id: Seq<char>,
    pub image: Seq<char>,
    pub image_up: Option<Seq<char>>,
    pub image_down: Option<Seq<char>>,
    pub input: InputView,
    pub travel: u32,
    pub paint: Seq<char>,
    pub transparency: u32,
    pub capsense: Option<u32>,
    pub reference: Option<Seq<char>>,
    pub pad_size_x: Option<u32>,
    pub pad_size_y: Option<u32>,
    pub pad_angle: Option<u32>,
    pub pad_shape: Option<Seq<char>>,
    pub pad_center_x: Option<u32>,
    pub pad_center_y: Option<u32>,
    pub pad_sensitivity: Option<u32>,
}

/// The characters of an optional string.
pub open spec fn opt_view(o: Option<String>) -> Option<Seq<char>> {
    match o {
        Some(s) => Some(s@),
        None => None,
    }
}

impl View for ButtonDef {
    type V = ButtonView;

    open spec fn view(&self) -> ButtonView {
        ButtonView {
            id: self.id@,
            image: self.image@,
            image_up: opt_view(self.image_up),
            image_down: opt_view(self.image_down),
            input: self.input@,
            travel: self.travel,
            paint: self.paint@,
            transparency: self.transparency,
            capsense: self.capsense,
            reference: opt_view(self.reference),
            pad_size_x: self.pad_size_x,
            pad_size_y: self.pad_size_y,
            pad_angle: self.pad_angle,
            pad_shape: opt_view(self.pad_shape),
            pad_center_x: self.pad_center_x,
            pad_center_y: self.pad_center_y,
            pad_sensitivity: self.pad_sensitivity,
        }
    }
}

/// `[[modes]]`: one input protocol of a controller and the hardware ids
/// that select it.
#[derive(Debug, Clone)]
pub struct ModeDef {
    pub name: String,
    pub vendor: Option<String>,
    pub product: Option<String>,
}

/// `[mode_overrides.<mode>]`: per-mode changes to buttons, keyed by button id.
#[derive(Debug, Clone)]
pub struct ModeOverride {
    pub buttons: HashMap<String, ButtonRemap>,
}

/// A per-mode remap of one button.
#[derive(Debug, Clone)]
pub struct ButtonRemap {
    pub index: Option<u32>,
    pub axis: Option<u32>,
    pub image: Option<String>,
}

/// A profile as the TOML file states it.
#[derive(Debug, Clone)]
pub struct RawControllerDef {
    pub controller: ControllerInfo,
    pub defaults: ButtonDefaults,
    pub buttons: Vec<RawButtonDef>,
    pub modes: Vec<ModeDef>,
    pub mode_overrides: HashMap<String, ModeOverride>,
}

/// A loaded profile: buttons resolved, everything else as stated.
#[derive(Debug, Clone)]
pub struct ControllerDef {
    pub controller: ControllerInfo,
    pub defaults: ButtonDefaults,
    pub buttons: Vec<ButtonDef>,
    pub modes: Vec<ModeDef>,
    pub mode_overrides: HashMap<String, ModeOverride>,
}

/// Default `paint_hold_ms` of `[controller]`.
pub fn default_hold_ms() -> (r: u64)
    ensures
        r == 100,
{
    100
}

/// Default paint tint of `[controller]`.
pub fn default_paint_color() -> (r: String)
    ensures
        r@ == "#00c8ff"@,
{
    String::from_str("#00c8ff")
}

/// Default stick travel (15.0), as the bit pattern of that `f32`.
pub fn default_travel() -> (r: u32)
    ensures
        r == 0x4170_0000,
{
    0x4170_0000
}

/// Default paint type of a button.
pub fn default_paint() -> (r: String)
    ensures
        r@ == "standard"@,
{
    String::from_str("standard")
}

/// Default paint opacity (1.0), as the bit pattern of that `f32`.
pub fn default_transparency() -> (r: u32)
    ensures
        r == 0x3F80_0000,
{
    0x3F80_0000
}

impl Default for ButtonDefaults {
    fn default() -> (r: Self)
        ensures
            r.travel == 0x4170_0000,
            r.paint@ == "standard"@,
            r.transparency == 0x3F80_0000,
    {
        ButtonDefaults {
            travel: default_travel(),
            paint: default_paint(),
            transparency: default_transparency(),
        }
    }
}

} // verus!
