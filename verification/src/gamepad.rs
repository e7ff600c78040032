use vstd::prelude::*;
use crate::text::{occurs_in, str_contains};

verus! {

// Analog values (axes, touchpad coordinates and pressure, capacitive
// sense, mouse position) are `f32` in the frontend; here they are held as
// the IEEE-754 bit pattern of that `f32` (`f32::to_bits`). Zero bits are 0.0.

/// The first finger on one touchpad.
#[derive(Debug, Clone, Copy)]
pub struct TouchpadFinger {
    pub down: bool,
    pub x: u32,
    pub y: u32,
    pub pressure: u32,
}

/// Everything the overlay shows of one device at one moment.
#[derive(Debug)]
pub struct GamepadState {
    pub connected: bool,
    pub vendor: u16,
    pub product: u16,
    pub name: String,
    pub is_gamepad: bool,
    pub num_buttons: u32,
    pub num_axes: u32,
    pub buttons: [bool; 32],
    pub axes: [u32; 8],
    pub touchpads: Vec<TouchpadFinger>,
    pub cap_sense: Option<[u32; 4]>,
    pub hats: Vec<u8>,
    pub keyboard: Vec<u16>,
    pub mouse_buttons: Vec<u8>,
    pub mouse: Option<[u32; 2]>,
    pub scroll: Option<[i32; 2]>,
}

/// Whether `s` is the state of no device: nothing connected, every field
/// zero, false or empty.
pub open spec fn is_blank(s: GamepadState) -> bool {
    &&& !s.connected
    &&& s.vendor == 0
    &&& s.product == 0
    &&& s.name@ == Seq::<char>::empty()
    &&& !s.is_gamepad
    &&& s.num_buttons == 0
    &&& s.num_axes == 0
    &&& forall|i: int| 0 <= i < 32 ==> !(#[trigger] s.buttons@[i])
    &&& forall|i: int| 0 <= i < 8 ==> #[trigger] s.axes@[i] == 0
    &&& s.touchpads@.len() == 0
    &&& s.cap_sense is None
    &&& s.hats@.len() == 0
    &&& s.keyboard@.len() == 0
    &&& s.mouse_buttons@.len() == 0
    &&& s.mouse is None
    &&& s.scroll is None
}

impl Default for GamepadState {
    fn default() -> (r: Self)
        ensures
            is_blank(r),
    {
        GamepadState {
            connected: false,
            vendor: 0,
            product: 0,
            name: String::new(),
            is_gamepad: false,
            num_buttons: 0,
            num_axes: 0,
            buttons: [false; 32],
            axes: [0u32; 8],
            touchpads: Vec::new(),
            cap_sense: None,
            hats: Vec::new(),
            keyboard: Vec::new(),
            mouse_buttons: Vec::new(),
            mouse: None,
            scroll: None,
        }
    }
}

/// The positions of the `true` entries of `s`, in order.
pub open spec fn pressed_positions(s: Seq<bool>) -> Seq<int>
    decreases s.len(),
{
    if s.len() == 0 {
        Seq::empty()
    } else {
        let rest = pressed_positions(s.drop_last());
        if s.last() {
            rest.push(s.len() - 1)
        } else {
            rest
        }
    }
}

/// The positions of the `true` entries of `s`, as `u16` (`as` truncates).
fn pressed_u16(s: &[bool]) -> (r: Vec<u16>)
    ensures
        r@ == pressed_positions(s@).map_values(|p: int| p as u16),
{
    let mut out: Vec<u16> = Vec::new();
    let mut i: usize = 0;
    while i < s.len()
        invariant
            i <= s@.len(),
            out@ == pressed_positions(s@.take(i as int)).map_values(|p: int| p as u16),
        decreases s@.len() - i,
    {
        assert(s@.take(i + 1).drop_last() =~= s@.take(i as int));
        if s[i] {
            out.push(i as u16);
        }
        assert(out@ =~= pressed_positions(s@.take(i + 1)).map_values(|p: int| p as u16));
        i = i + 1;
    }
    assert(s@.take(i as int) =~= s@);
    out
}

/// The positions of the `true` entries of `s`, as `u8` (`as` truncates).
fn pressed_u8(s: &[bool]) -> (r: Vec<u8>)
    ensures
        r@ == pressed_positions(s@).map_values(|p: int| p as u8),
{
    let mut out: Vec<u8> = Vec::new();
    let mut i: usize = 0;
    while i < s.len()
        invariant
            i <= s@.len(),
            out@ == pressed_positions(s@.take(i as int)).map_values(|p: int| p as u8),
        decreases s@.len() - i,
    {
        assert(s@.take(i + 1).drop_last() =~= s@.take(i as int));
        if s[i] {
            out.push(i as u8);
        }
        assert(out@ =~= pressed_positions(s@.take(i + 1)).map_values(|p: int| p as u8));
        i = i + 1;
    }
    assert(s@.take(i as int) =~= s@);
    out
}

/// Fills the keyboard-and-mouse part of a state: the codes of the pressed
/// keys, the indices of the pressed mouse buttons, and the scroll counts
/// when there was any scrolling.
pub fn fill_kbm(
    state: &mut GamepadState,
    keyboard: &[bool],
    mouse: &[bool],
    scroll_up: i32,
    scroll_down: i32,
)
    ensures
        final(state).keyboard@ == pressed_positions(keyboard@).map_values(|p: int| p as u16),
        final(state).mouse_buttons@ == pressed_positions(mouse@).map_values(|p: int| p as u8),
        final(state).scroll == (if scroll_up > 0 || scroll_down > 0 {
            Some([scroll_up, scroll_down])
        } else {
            old(state).scroll
        }),
        final(state).connected == old(state).connected,
        final(state).vendor == old(state).vendor,
        final(state).product == old(state).product,
        final(state).name == old(state).name,
        final(state).is_gamepad == old(state).is_gamepad,
        final(state).num_buttons == old(state).num_buttons,
        final(state).num_axes == old(state).num_axes,
        final(state).buttons == old(state).buttons,
        final(state).axes == old(state).axes,
        final(state).touchpads == old(state).touchpads,
        final(state).cap_sense == old(state).cap_sense,
        final(state).hats == old(state).hats,
        final(state).mouse == old(state).mouse,
{
    state.keyboard = pressed_u16(keyboard);
    state.mouse_buttons = pressed_u8(mouse);
    if scroll_up > 0 || scroll_down > 0 {
        state.scroll = Some([scroll_up, scroll_down]);
    }
}

/// The state that the debug view shows for keyboard and mouse: connected,
/// named "Keyboard & Mouse", with the pressed keys, the pressed mouse
/// buttons, the scroll counts when there was scrolling, and the pointer
/// position (`f32` bit patterns); everything else blank.
pub fn kbm_state(
    keyboard: &[bool],
    mouse: &[bool],
    pointer: [u32; 2],
    scroll_up: i32,
    scroll_down: i32,
) -> (s: GamepadState)
    ensures
        s.connected,
        s.name@ == "Keyboard & Mouse"@,
        s.keyboard@ == pressed_positions(keyboard@).map_values(|p: int| p as u16),
        s.mouse_buttons@ == pressed_positions(mouse@).map_values(|p: int| p as u8),
        s.scroll == (if scroll_up > 0 || scroll_down > 0 {
            Some([scroll_up, scroll_down])
        } else {
            None::<[i32; 2]>
        }),
        s.mouse == Some(pointer),
        !s.is_gamepad,
        s.vendor == 0,
        s.product == 0,
        s.num_buttons == 0,
        s.num_axes == 0,
        forall|i: int| 0 <= i < 32 ==> !(#[trigger] s.buttons@[i]),
        forall|i: int| 0 <= i < 8 ==> #[trigger] s.axes@[i] == 0,
        s.touchpads@.len() == 0,
        s.cap_sense is None,
        s.hats@.len() == 0,
{
    let mut s = GamepadState::default();
    s.connected = true;
    s.name = String::from_str("Keyboard & Mouse");
    fill_kbm(&mut s, keyboard, mouse, scroll_up, scroll_down);
    s.mouse = Some(pointer);
    s
}

/// The button count of a gamepad: the count that SDL reports, raised to one
/// past the highest pressed button when that lies at or above it.
pub fn effective_button_count(reported: u32, buttons: &[bool; 32]) -> (r: u32)
    ensures
        r >= reported,
        forall|i: int| 0 <= i < 32 && #[trigger] buttons@[i] ==> i < r,
        r == reported || (r <= 32 && buttons@[r - 1]),
{
    let mut i: usize = 32;
    while i > 0 && (i - 1) as u32 >= reported
        invariant
            i <= 32,
            forall|k: int| i <= k < 32 ==> !(#[trigger] buttons@[k]),
            i < 32 ==> i >= reported,
        decreases i,
    {
        if buttons[i - 1] {
            return i as u32;
        }
        i = i - 1;
    }
    reported
}

/// What the app reads from an open SDL gamepad at one moment. Axes are
/// already normalised to [-1, 1] and given as `f32` bit patterns.
#[derive(Debug)]
pub struct GamepadReading {
    pub vendor: u16,
    pub product: u16,
    pub name: String,
    /// `SDL_GetNumJoystickButtons` of the gamepad's joystick.
    pub reported_buttons: i32,
    /// `SDL_GetNumJoystickAxes` of the gamepad's joystick.
    pub reported_axes: i32,
    pub buttons: [bool; 32],
    pub axes: [u32; 8],
    pub hats: Vec<u8>,
    pub touchpads: Vec<TouchpadFinger>,
    pub cap_sense: [u32; 4],
}

/// What the app reads from an open SDL joystick (without a gamepad mapping):
/// every one of the 32 button slots and 8 axis slots, whatever the device
/// reports as its counts.
#[derive(Debug)]
pub struct JoystickReading {
    pub vendor: u16,
    pub product: u16,
    pub name: String,
    pub reported_buttons: i32,
    pub reported_axes: i32,
    pub buttons: [bool; 32],
    pub axes: [u32; 8],
    pub hats: Vec<u8>,
}

impl GamepadState {
    /// The state of a connected gamepad.
    pub fn from_gamepad(r: GamepadReading) -> (s: GamepadState)
        ensures
            s.connected,
            s.is_gamepad,
            s.vendor == r.vendor,
            s.product == r.product,
            s.name == r.name,
            s.num_buttons >= r.reported_buttons as u32,
            forall|i: int| 0 <= i < 32 && #[trigger] r.buttons@[i] ==> i < s.num_buttons,
            s.num_buttons == r.reported_buttons as u32 || (s.num_buttons <= 32
                && r.buttons@[s.num_buttons - 1]),
            s.num_axes == r.reported_axes as u32,
            s.buttons == r.buttons,
            s.axes == r.axes,
            s.hats == r.hats,
            s.touchpads == r.touchpads,
            s.cap_sense == Some(r.cap_sense),
            s.keyboard@.len() == 0,
            s.mouse_buttons@.len() == 0,
            s.mouse is None,
            s.scroll is None,
    {
        let reported = r.reported_buttons as u32;
        let num_buttons = effective_button_count(reported, &r.buttons);
        GamepadState {
            connected: true,
            vendor: r.vendor,
            product: r.product,
            name: r.name,
            is_gamepad: true,
            num_buttons,
            num_axes: r.reported_axes as u32,
            buttons: r.buttons,
            axes: r.axes,
            touchpads: r.touchpads,
            cap_sense: Some(r.cap_sense),
            hats: r.hats,
            keyboard: Vec::new(),
            mouse_buttons: Vec::new(),
            mouse: None,
            scroll: None,
        }
    }

    /// The state of a connected joystick: only the buttons and axes below the
    /// counts it reports (and below 32 and 8) are taken.
    pub fn from_joystick(r: JoystickReading) -> (s: GamepadState)
        ensures
            s.connected,
            !s.is_gamepad,
            s.vendor == r.vendor,
            s.product == r.product,
            s.name == r.name,
            s.num_buttons == r.reported_buttons as u32,
            s.num_axes == r.reported_axes as u32,
            forall|i: int|
                0 <= i < 32 ==> #[trigger] s.buttons@[i] == (i < (r.reported_buttons as u32)
                    && r.buttons@[i]),
            forall|i: int|
                0 <= i < 8 ==> #[trigger] s.axes@[i] == (if i < (r.reported_axes as u32) {
                    r.axes@[i]
                } else {
                    0
                }),
            s.hats == r.hats,
            s.touchpads@.len() == 0,
            s.cap_sense is None,
            s.keyboard@.len() == 0,
            s.mouse_buttons@.len() == 0,
            s.mouse is None,
            s.scroll is None,
    {
        let nb = r.reported_buttons as u32;
        let na = r.reported_axes as u32;
        let mut buttons = [false; 32];
        let mut i: usize = 0;
        while i < 32
            invariant
                i <= 32,
                nb == r.reported_buttons as u32,
                forall|k: int| 0 <= k < i ==> #[trigger] buttons@[k] == (k < nb && r.buttons@[k]),
                forall|k: int| i <= k < 32 ==> !(#[trigger] buttons@[k]),
            decreases 32 - i,
        {
            if (i as u32) < nb {
                buttons.set(i, r.buttons[i]);
            }
            i = i + 1;
        }
        let mut axes = [0u32; 8];
        let mut j: usize = 0;
        while j < 8
            invariant
                j <= 8,
                na == r.reported_axes as u32,
                forall|k: int| 0 <= k < j ==> #[trigger] axes@[k] == (if k < na { r.axes@[k] } else { 0 }),
                forall|k: int| j <= k < 8 ==> #[trigger] axes@[k] == 0,
            decreases 8 - j,
        {
            if (j as u32) < na {
                axes.set(j, r.axes[j]);
            }
            j = j + 1;
        }
        GamepadState {
            connected: true,
            vendor: r.vendor,
            product: r.product,
            name: r.name,
            is_gamepad: false,
            num_buttons: nb,
            num_axes: na,
            buttons,
            axes,
            touchpads: Vec::new(),
            cap_sense: None,
            hats: r.hats,
            keyboard: Vec::new(),
            mouse_buttons: Vec::new(),
            mouse: None,
            scroll: None,
        }
    }
}

/// The keys of an SDL gamepad mapping string, in the order of the gamepad
/// button indices 0 to 25 (south, east, west, north, back, guide, start,
/// sticks, shoulders, d-pad, misc1, paddles, touchpad, misc2 to misc6).
pub open spec fn mapping_button_keys() -> Seq<Seq<char>> {
    seq![
        "a"@, "b"@, "x"@, "y"@, "back"@, "guide"@, "start"@, "leftstick"@, "rightstick"@,
        "leftshoulder"@, "rightshoulder"@, "dpup"@, "dpdown"@, "dpleft"@, "dpright"@, "misc1"@,
        "paddle1"@, "paddle2"@, "paddle3"@, "paddle4"@, "touchpad"@, "misc2"@, "misc3"@,
        "misc4"@, "misc5"@, "misc6"@,
    ]
}

/// Whether the mapping binds button `j`: it holds `,<key>:` for its key.
pub open spec fn mapping_binds(mapping: Seq<char>, j: int) -> bool {
    occurs_in(mapping, ","@ + mapping_button_keys()[j] + ":"@)
}

/// The mapping keys are SDL's: the key that a gamepad mapping string uses
/// for each `SDL_GamepadButton` is the one listed here against that
/// button's index (the index of `SDL_GAMEPAD_BUTTON_*`), so a mapping binds
/// button `j` exactly when it holds `,<key>:` for that key.
pub proof fn lemma_mapping_keys_are_sdl_buttons(mapping: Seq<char>)
    ensures
        mapping_binds(mapping, 0) == occurs_in(mapping, ","@ + "a"@ + ":"@), // SOUTH
        mapping_binds(mapping, 1) == occurs_in(mapping, ","@ + "b"@ + ":"@), // EAST
        mapping_binds(mapping, 2) == occurs_in(mapping, ","@ + "x"@ + ":"@), // WEST
        mapping_binds(mapping, 3) == occurs_in(mapping, ","@ + "y"@ + ":"@), // NORTH
        mapping_binds(mapping, 4) == occurs_in(mapping, ","@ + "back"@ + ":"@), // BACK
        mapping_binds(mapping, 5) == occurs_in(mapping, ","@ + "guide"@ + ":"@), // GUIDE
        mapping_binds(mapping, 6) == occurs_in(mapping, ","@ + "start"@ + ":"@), // START
        mapping_binds(mapping, 7) == occurs_in(mapping, ","@ + "leftstick"@ + ":"@), // LEFT_STICK
        mapping_binds(mapping, 8) == occurs_in(mapping, ","@ + "rightstick"@ + ":"@), // RIGHT_STICK
        mapping_binds(mapping, 9) == occurs_in(mapping, ","@ + "leftshoulder"@ + ":"@), // LEFT_SHOULDER
        mapping_binds(mapping, 10) == occurs_in(mapping, ","@ + "rightshoulder"@ + ":"@), // RIGHT_SHOULDER
        mapping_binds(mapping, 11) == occurs_in(mapping, ","@ + "dpup"@ + ":"@), // DPAD_UP
        mapping_binds(mapping, 12) == occurs_in(mapping, ","@ + "dpdown"@ + ":"@), // DPAD_DOWN
        mapping_binds(mapping, 13) == occurs_in(mapping, ","@ + "dpleft"@ + ":"@), // DPAD_LEFT
        mapping_binds(mapping, 14) == occurs_in(mapping, ","@ + "dpright"@ + ":"@), // DPAD_RIGHT
        mapping_binds(mapping, 15) == occurs_in(mapping, ","@ + "misc1"@ + ":"@), // MISC1
        mapping_binds(mapping, 16) == occurs_in(mapping, ","@ + "paddle1"@ + ":"@), // RIGHT_PADDLE1
        mapping_binds(mapping, 17) == occurs_in(mapping, ","@ + "paddle2"@ + ":"@), // LEFT_PADDLE1
        mapping_binds(mapping, 18) == occurs_in(mapping, ","@ + "paddle3"@ + ":"@), // RIGHT_PADDLE2
        mapping_binds(mapping, 19) == occurs_in(mapping, ","@ + "paddle4"@ + ":"@), // LEFT_PADDLE2
        mapping_binds(mapping, 20) == occurs_in(mapping, ","@ + "touchpad"@ + ":"@), // TOUCHPAD
        mapping_binds(mapping, 21) == occurs_in(mapping, ","@ + "misc2"@ + ":"@), // MISC2
        mapping_binds(mapping, 22) == occurs_in(mapping, ","@ + "misc3"@ + ":"@), // MISC3
        mapping_binds(mapping, 23) == occurs_in(mapping, ","@ + "misc4"@ + ":"@), // MISC4
        mapping_binds(mapping, 24) == occurs_in(mapping, ","@ + "misc5"@ + ":"@), // MISC5
        mapping_binds(mapping, 25) == occurs_in(mapping, ","@ + "misc6"@ + ":"@), // MISC6
{
}

/// The number of buttons that an SDL gamepad mapping string binds: one past
/// the highest button index it binds, or 0 when it binds none above index 0.
pub fn button_count_from_mapping(mapping: &str) -> (r: u32)
    ensures
        r == 0 ==> forall|j: int| 0 < j < 26 ==> !#[trigger] mapping_binds(mapping@, j),
        r > 0 ==> 1 < r <= 26 && mapping_binds(mapping@, r - 1) && forall|j: int|
            r <= j < 26 ==> !#[trigger] mapping_binds(mapping@, j),
{
    let keys: [&str; 26] = [
        "a", "b", "x", "y", "back", "guide", "start", "leftstick", "rightstick",
        "leftshoulder", "rightshoulder", "dpup", "dpdown", "dpleft", "dpright", "misc1",
        "paddle1", "paddle2", "paddle3", "paddle4", "touchpad", "misc2", "misc3", "misc4",
        "misc5", "misc6",
    ];
    assert(keys@.map_values(|k: &str| k@) =~= mapping_button_keys());
    let mut max_idx: u32 = 0;
    let mut j: usize = 0;
    while j < 26
        invariant
            j <= 26,
            keys@.map_values(|k: &str| k@) == mapping_button_keys(),
            max_idx < 26,
            max_idx as int <= j,
            max_idx > 0 ==> mapping_binds(mapping@, max_idx as int),
            forall|k: int| max_idx < k < j ==> !#[trigger] mapping_binds(mapping@, k),
        decreases 26 - j,
    {
        let mut needle = String::from_str(",");
        needle.append(keys[j]);
        needle.append(":");
        assert(keys@[j as int]@ == mapping_button_keys()[j as int]);
        assert(needle@ == ","@ + mapping_button_keys()[j as int] + ":"@);
        if str_contains(mapping, needle.as_str()) {
            max_idx = j as u32;
        }
        j = j + 1;
    }
    if max_idx > 0 {
        max_idx + 1
    } else {
        0
    }
}

} // verus!
