use vstd::prelude::*;
use crate::input::{button_slot, button_to_idx, evdev_code, key_to_evdev, Key, MouseButton, BTN_CNT, BTN_LEFT, KEY_CNT};

verus! {

/// Whether an evdev key code is one of the three mouse buttons (left,
/// right, middle); those go to the mouse slots, not to the keyboard.
pub open spec fn is_mouse_code(c: int) -> bool {
    BTN_LEFT <= c <= BTN_LEFT + 2
}

/// The evdev code of the mouse button in slot `b`: profiles number mouse
/// buttons 0 = left, 1 = middle, 2 = right.
pub open spec fn slot_code(b: int) -> int {
    if b == 0 {
        BTN_LEFT as int
    } else if b == 1 {
        BTN_LEFT + 2
    } else {
        BTN_LEFT + 1
    }
}

/// The slot of a mouse button's evdev code.
fn mouse_slot(code: usize) -> (r: usize)
    requires
        BTN_LEFT <= code <= BTN_LEFT + 2,
    ensures
        r < 3,
        slot_code(r as int) == code,
{
    if code == 0x110 {
        0
    } else if code == 0x112 {
        1
    } else {
        2
    }
}

/// Whether `codes` holds the code of the mouse button in slot `b`.
pub open spec fn holds_button(codes: Seq<u16>, b: int) -> bool {
    codes.contains(slot_code(b) as u16)
}

/// A vector of `n` `false`s.
fn all_false(n: usize) -> (r: Vec<bool>)
    ensures
        r@.len() == n,
        forall|i: int| 0 <= i < n ==> !(#[trigger] r@[i]),
{
    let mut v: Vec<bool> = Vec::new();
    let mut i: usize = 0;
    while i < n
        invariant
            i <= n,
            v@.len() == i,
            forall|k: int| 0 <= k < i ==> !(#[trigger] v@[k]),
        decreases n - i,
    {
        v.push(false);
        i = i + 1;
    }
    v
}

/// Sets every entry of `v` to `false`.
fn clear(v: &mut Vec<bool>)
    ensures
        final(v)@.len() == old(v)@.len(),
        forall|i: int| 0 <= i < final(v)@.len() ==> !(#[trigger] final(v)@[i]),
{
    let mut i: usize = 0;
    while i < v.len()
        invariant
            i <= v@.len(),
            v@.len() == old(v)@.len(),
            forall|k: int| 0 <= k < i ==> !(#[trigger] v@[k]),
        decreases v@.len() - i,
    {
        v.set(i, false);
        i = i + 1;
    }
}

/// The key table after one key event `(key, pressed)`: the key's scancode
/// entry becomes `pressed`; a key without a scancode changes nothing.
pub open spec fn key_step(table: Seq<bool>, e: (Key, bool)) -> Seq<bool> {
    match evdev_code(e.0) {
        Some(c) => table.update(c as int, e.1),
        None => table,
    }
}

/// The key table after the key events `events`, in order.
pub open spec fn key_table_after(table: Seq<bool>, events: Seq<(Key, bool)>) -> Seq<bool>
    decreases events.len(),
{
    if events.len() == 0 {
        table
    } else {
        key_step(key_table_after(table, events.drop_last()), events.last())
    }
}

/// Whether the last of `events` whose key has scancode `c` is a press
/// (false when there is none).
pub open spec fn last_event_presses(events: Seq<(Key, bool)>, c: int) -> bool
    decreases events.len(),
{
    if events.len() == 0 {
        false
    } else if evdev_code(events.last().0) == Some(c as u16) {
        events.last().1
    } else {
        last_event_presses(events.drop_last(), c)
    }
}

/// The key table as a function of the whole history: starting from nothing
/// held, after any sequence of key presses and releases, a scancode is held
/// exactly when the last event on its key was a press. Polls, mouse-button
/// events and wheel steps leave the key table as it is (see
/// `ListenerKeyState`), so this holds across polls.
pub proof fn lemma_key_table_history(events: Seq<(Key, bool)>, c: int)
    requires
        0 <= c < KEY_CNT,
    ensures
        key_table_after(Seq::new(KEY_CNT as nat, |i: int| false), events).len() == KEY_CNT,
        key_table_after(Seq::new(KEY_CNT as nat, |i: int| false), events)[c] == last_event_presses(
            events,
            c,
        ),
    decreases events.len(),
{
    if events.len() > 0 {
        lemma_key_table_history(events.drop_last(), c);
        crate::input::lemma_evdev_codes_distinct(events.last().0, events.last().0);
    }
}

/// Keyboard and mouse state fed by a global input listener (key and button
/// press and release events, wheel steps). Keys stay held from press to
/// release; scroll counts start over at each poll.
#[derive(Debug)]
pub struct ListenerKeyState {
    pub keyboard_state: Vec<bool>,
    pub mouse_state: Vec<bool>,
    pub scroll_up: i32,
    pub scroll_down: i32,
}

impl ListenerKeyState {
    pub open spec fn wf(&self) -> bool {
        &&& self.keyboard_state@.len() == KEY_CNT
        &&& self.mouse_state@.len() == BTN_CNT
    }

    /// Nothing held, no scrolling.
    pub fn new() -> (r: Self)
        ensures
            r.wf(),
            forall|i: int| 0 <= i < KEY_CNT ==> !(#[trigger] r.keyboard_state@[i]),
            forall|i: int| 0 <= i < BTN_CNT ==> !(#[trigger] r.mouse_state@[i]),
            r.scroll_up == 0,
            r.scroll_down == 0,
    {
        ListenerKeyState {
            keyboard_state: all_false(KEY_CNT),
            mouse_state: all_false(BTN_CNT),
            scroll_up: 0,
            scroll_down: 0,
        }
    }

    /// Starts a poll: scroll counts go back to zero; held keys stay.
    pub fn begin_poll(&mut self)
        requires
            old(self).wf(),
        ensures
            final(self).wf(),
            final(self).keyboard_state == old(self).keyboard_state,
            final(self).mouse_state == old(self).mouse_state,
            final(self).scroll_up == 0,
            final(self).scroll_down == 0,
    {
        self.scroll_up = 0;
        self.scroll_down = 0;
    }

    /// A key went down (`pressed`) or up. Keys without a scancode are ignored.
    pub fn key_event(&mut self, key: &Key, pressed: bool)
        requires
            old(self).wf(),
        ensures
            final(self).wf(),
            final(self).keyboard_state@ == key_step(old(self).keyboard_state@, (*key, pressed)),
            final(self).mouse_state == old(self).mouse_state,
            final(self).scroll_up == old(self).scroll_up,
            final(self).scroll_down == old(self).scroll_down,
    {
        if let Some(code) = key_to_evdev(key) {
            proof {
                crate::input::lemma_evdev_codes_distinct(*key, *key);
            }
            if (code as usize) < KEY_CNT {
                self.keyboard_state.set(code as usize, pressed);
            }
        }
    }

    /// A mouse button went down (`pressed`) or up. Unknown buttons are ignored.
    pub fn button_event(&mut self, button: &MouseButton, pressed: bool)
        requires
            old(self).wf(),
        ensures
            final(self).wf(),
            final(self).mouse_state@ == (match button_slot(*button) {
                Some(b) => old(self).mouse_state@.update(b as int, pressed),
                None => old(self).mouse_state@,
            }),
            final(self).keyboard_state == old(self).keyboard_state,
            final(self).scroll_up == old(self).scroll_up,
            final(self).scroll_down == old(self).scroll_down,
    {
        if let Some(idx) = button_to_idx(button) {
            self.mouse_state.set(idx, pressed);
        }
    }

    /// A wheel step: upward steps add to `scroll_up`, the others' size to
    /// `scroll_down` (the step is cut to 32 bits as `as i32` does).
    pub fn wheel(&mut self, delta_y: i64)
        requires
            delta_y > 0 ==> old(self).scroll_up + (delta_y as i32) <= i32::MAX,
            delta_y <= 0 ==> delta_y > i64::MIN && old(self).scroll_down + ((-delta_y) as i32)
                <= i32::MAX && old(self).scroll_down + ((-delta_y) as i32) >= i32::MIN,
            delta_y > 0 ==> old(self).scroll_up + (delta_y as i32) >= i32::MIN,
        ensures
            final(self).keyboard_state == old(self).keyboard_state,
            final(self).mouse_state == old(self).mouse_state,
            delta_y > 0 ==> final(self).scroll_up == old(self).scroll_up + (delta_y as i32)
                && final(self).scroll_down == old(self).scroll_down,
            delta_y <= 0 ==> final(self).scroll_down == old(self).scroll_down + ((-delta_y) as i32)
                && final(self).scroll_up == old(self).scroll_up,
    {
        if delta_y > 0 {
            self.scroll_up = self.scroll_up + delta_y as i32;
        } else {
            self.scroll_down = self.scroll_down + (-delta_y) as i32;
        }
    }
}

/// The per-device key rows of a set of devices, as sequences.
pub open spec fn rows_view(rows: Seq<Vec<bool>>) -> Seq<Seq<bool>> {
    rows.map_values(|r: Vec<bool>| r@)
}

/// The key rows after key event `(dev, code, value)` of device `dev`:
/// value 1 (press) and 2 (repeat) mean down, anything else up; codes
/// beyond the table and unknown devices change nothing.
pub open spec fn rows_step(rows: Seq<Seq<bool>>, e: (usize, u16, i32)) -> Seq<Seq<bool>> {
    if (e.0 as int) < rows.len() && (e.1 as int) < KEY_CNT {
        rows.update(e.0 as int, rows[e.0 as int].update(e.1 as int, e.2 == 1 || e.2 == 2))
    } else {
        rows
    }
}

/// The key rows after the key events `events`, in order.
pub open spec fn rows_after(rows: Seq<Seq<bool>>, events: Seq<(usize, u16, i32)>) -> Seq<Seq<bool>>
    decreases events.len(),
{
    if events.len() == 0 {
        rows
    } else {
        rows_step(rows_after(rows, events.drop_last()), events.last())
    }
}

/// The value of the last of `events` that device `d` reported for code `c`.
pub open spec fn last_value(events: Seq<(usize, u16, i32)>, d: int, c: int) -> Option<i32>
    decreases events.len(),
{
    if events.len() == 0 {
        None
    } else if events.last().0 as int == d && events.last().1 as int == c {
        Some(events.last().2)
    } else {
        last_value(events.drop_last(), d, c)
    }
}

/// Rows for `n` devices with nothing held.
pub open spec fn no_rows_held(n: nat) -> Seq<Seq<bool>> {
    Seq::new(n, |i: int| Seq::new(KEY_CNT as nat, |c: int| false))
}

/// The key rows as a function of the whole history: starting from nothing
/// held on `n` devices, after any sequence of key events, device `d` holds
/// code `c` exactly when the last value it reported for `c` was 1 (press)
/// or 2 (repeat). Polls and merging leave the rows as they are (see
/// `DeviceKeyStates`), so this holds across polls.
pub proof fn lemma_device_rows_history(n: nat, events: Seq<(usize, u16, i32)>, d: int, c: int)
    requires
        0 <= d < n,
        0 <= c < KEY_CNT,
    ensures
        rows_after(no_rows_held(n), events).len() == n,
        rows_after(no_rows_held(n), events)[d].len() == KEY_CNT,
        rows_after(no_rows_held(n), events)[d][c] == (last_value(events, d, c) matches Some(v) && (v
            == 1 || v == 2)),
    decreases events.len(),
{
    if events.len() > 0 {
        lemma_device_rows_history(n, events.drop_last(), d, c);
        let e = events.last();
        if (e.0 as int) < n && (e.1 as int) < KEY_CNT {
            lemma_device_rows_history(n, events.drop_last(), e.0 as int, e.1 as int);
        }
    }
}

/// The keyboard table after merging one device's row into `kb`: a code
/// held on the row is set, unless it is one of the three mouse buttons.
pub open spec fn merge_keys(kb: Seq<bool>, row: Seq<bool>) -> Seq<bool> {
    Seq::new(kb.len(), |c: int| kb[c] || (row[c] && !is_mouse_code(c)))
}

/// The keyboard table after merging the first `k` rows, in order, into `kb`.
pub open spec fn merged_keys(kb: Seq<bool>, rows: Seq<Seq<bool>>, k: int) -> Seq<bool>
    decreases k,
{
    if k <= 0 {
        kb
    } else {
        merge_keys(merged_keys(kb, rows, k - 1), rows[k - 1])
    }
}

/// What a poll gives as the keyboard: it clears the table and merges every
/// device's row in turn, so a code is down exactly when some device's row
/// holds it and it is not one of the three mouse buttons (those go to the
/// mouse slots).
pub proof fn lemma_merged_keyboard(rows: Seq<Seq<bool>>, c: int)
    requires
        0 <= c < KEY_CNT,
        forall|d: int| 0 <= d < rows.len() ==> (#[trigger] rows[d]).len() == KEY_CNT,
    ensures
        merged_keys(Seq::new(KEY_CNT as nat, |i: int| false), rows, rows.len() as int).len() == KEY_CNT,
        merged_keys(Seq::new(KEY_CNT as nat, |i: int| false), rows, rows.len() as int)[c] == ((
        exists|d: int| 0 <= d < rows.len() && (#[trigger] rows[d])[c]) && !is_mouse_code(c)),
{
    lemma_merged_prefix(rows, c, rows.len() as int);
}

proof fn lemma_merged_prefix(rows: Seq<Seq<bool>>, c: int, k: int)
    requires
        0 <= c < KEY_CNT,
        0 <= k <= rows.len(),
    ensures
        merged_keys(Seq::new(KEY_CNT as nat, |i: int| false), rows, k).len() == KEY_CNT,
        merged_keys(Seq::new(KEY_CNT as nat, |i: int| false), rows, k)[c] == ((exists|d: int|
            0 <= d < k && (#[trigger] rows[d])[c]) && !is_mouse_code(c)),
    decreases k,
{
    if k > 0 {
        lemma_merged_prefix(rows, c, k - 1);
        if (exists|d: int| 0 <= d < k && (#[trigger] rows[d])[c]) && !is_mouse_code(c) {
            let d = choose|d: int| 0 <= d < k && (#[trigger] rows[d])[c];
            if d < k - 1 {
                assert(0 <= d < k - 1 && rows[d][c]);
            }
        }
    }
}

/// Keyboard and mouse state read from evdev devices. For each device the
/// keys that its own events say are down are kept between polls; each poll
/// merges all devices into one keyboard and one mouse-button table.
#[derive(Debug)]
pub struct DeviceKeyStates {
    /// Per device, per key code: down according to that device's events.
    pub fallback_key_state: Vec<Vec<bool>>,
    pub keyboard_state: Vec<bool>,
    pub mouse_state: Vec<bool>,
    pub scroll_up: i32,
    pub scroll_down: i32,
}

impl DeviceKeyStates {
    pub open spec fn wf(&self) -> bool {
        &&& self.keyboard_state@.len() == KEY_CNT
        &&& self.mouse_state@.len() == BTN_CNT
        &&& forall|d: int|
            0 <= d < self.fallback_key_state@.len() ==> (#[trigger] self.fallback_key_state@[d])@.len()
                == KEY_CNT
    }

    /// Nothing held on any of `devices` devices, no scrolling.
    pub fn new(devices: usize) -> (r: Self)
        ensures
            r.wf(),
            r.fallback_key_state@.len() == devices,
            forall|d: int, c: int|
                0 <= d < devices && 0 <= c < KEY_CNT ==> !(#[trigger] r.fallback_key_state@[d]@[c]),
            forall|i: int| 0 <= i < KEY_CNT ==> !(#[trigger] r.keyboard_state@[i]),
            forall|i: int| 0 <= i < BTN_CNT ==> !(#[trigger] r.mouse_state@[i]),
            r.scroll_up == 0,
            r.scroll_down == 0,
    {
        let mut rows: Vec<Vec<bool>> = Vec::new();
        let mut d: usize = 0;
        while d < devices
            invariant
                d <= devices,
                rows@.len() == d,
                forall|k: int| 0 <= k < d ==> (#[trigger] rows@[k])@.len() == KEY_CNT,
                forall|k: int, c: int| 0 <= k < d && 0 <= c < KEY_CNT ==> !(#[trigger] rows@[k]@[c]),
            decreases devices - d,
        {
            rows.push(all_false(KEY_CNT));
            d = d + 1;
        }
        DeviceKeyStates {
            fallback_key_state: rows,
            keyboard_state: all_false(KEY_CNT),
            mouse_state: all_false(BTN_CNT),
            scroll_up: 0,
            scroll_down: 0,
        }
    }

    /// Starts a poll: the merged tables are cleared and scroll counts go back
    /// to zero; each device's own key state stays.
    pub fn begin_poll(&mut self)
        requires
            old(self).wf(),
        ensures
            final(self).wf(),
            final(self).fallback_key_state == old(self).fallback_key_state,
            forall|i: int| 0 <= i < KEY_CNT ==> !(#[trigger] final(self).keyboard_state@[i]),
            forall|i: int| 0 <= i < BTN_CNT ==> !(#[trigger] final(self).mouse_state@[i]),
            final(self).scroll_up == 0,
            final(self).scroll_down == 0,
    {
        clear(&mut self.keyboard_state);
        clear(&mut self.mouse_state);
        self.scroll_up = 0;
        self.scroll_down = 0;
    }

    /// A key event of device `dev`: value 1 (press) and 2 (repeat) mean down,
    /// anything else up. Codes beyond the table are ignored.
    pub fn key_event(&mut self, dev: usize, code: u16, value: i32)
        requires
            old(self).wf(),
            dev < old(self).fallback_key_state@.len(),
        ensures
            final(self).wf(),
            final(self).fallback_key_state@.len() == old(self).fallback_key_state@.len(),
            forall|d: int|
                0 <= d < final(self).fallback_key_state@.len() && d != dev ==> (
                #[trigger] final(self).fallback_key_state@[d])@ == old(self).fallback_key_state@[d]@,
            final(self).fallback_key_state@[dev as int]@ == (if (code as int) < KEY_CNT {
                old(self).fallback_key_state@[dev as int]@.update(code as int, value == 1 || value == 2)
            } else {
                old(self).fallback_key_state@[dev as int]@
            }),
            rows_view(final(self).fallback_key_state@) == rows_step(
                rows_view(old(self).fallback_key_state@),
                (dev, code, value),
            ),
            final(self).keyboard_state == old(self).keyboard_state,
            final(self).mouse_state == old(self).mouse_state,
            final(self).scroll_up == old(self).scroll_up,
            final(self).scroll_down == old(self).scroll_down,
    {
        let c = code as usize;
        if c < KEY_CNT {
            let mut row = Vec::new();
            std::mem::swap(&mut row, &mut self.fallback_key_state[dev]);
            row.set(c, value == 1 || value == 2);
            self.fallback_key_state.set(dev, row);
        }
        proof {
            assert(rows_view(self.fallback_key_state@) =~= rows_step(
                rows_view(old(self).fallback_key_state@),
                (dev, code, value),
            ));
        }
    }

    /// A wheel step: positive values add to `scroll_up`, the others' size
    /// to `scroll_down`.
    pub fn wheel(&mut self, value: i32)
        requires
            value > 0 ==> old(self).scroll_up + value <= i32::MAX,
            value <= 0 ==> value > i32::MIN && old(self).scroll_down - value <= i32::MAX,
        ensures
            final(self).fallback_key_state == old(self).fallback_key_state,
            final(self).keyboard_state == old(self).keyboard_state,
            final(self).mouse_state == old(self).mouse_state,
            value > 0 ==> final(self).scroll_up == old(self).scroll_up + value
                && final(self).scroll_down == old(self).scroll_down,
            value <= 0 ==> final(self).scroll_down == old(self).scroll_down - value
                && final(self).scroll_up == old(self).scroll_up,
    {
        if value > 0 {
            self.scroll_up = self.scroll_up + value;
        } else {
            self.scroll_down = self.scroll_down + (-value);
        }
    }

    /// Merges device `dev` into the keyboard and mouse tables: every key its
    /// events hold goes to the keyboard, except the three mouse buttons,
    /// which go to the mouse slots (0 left, 1 middle, 2 right); so do those
    /// mouse buttons among `held`, the codes that the device itself reports
    /// as down.
    pub fn merge_device(&mut self, dev: usize, held: &[u16])
        requires
            old(self).wf(),
            dev < old(self).fallback_key_state@.len(),
        ensures
            final(self).wf(),
            final(self).fallback_key_state == old(self).fallback_key_state,
            final(self).scroll_up == old(self).scroll_up,
            final(self).scroll_down == old(self).scroll_down,
            forall|c: int|
                0 <= c < KEY_CNT ==> #[trigger] final(self).keyboard_state@[c] == (
                old(self).keyboard_state@[c] || (old(self).fallback_key_state@[dev as int]@[c]
                    && !is_mouse_code(c))),
            final(self).keyboard_state@ == merge_keys(
                old(self).keyboard_state@,
                old(self).fallback_key_state@[dev as int]@,
            ),
            forall|b: int|
                0 <= b < BTN_CNT ==> #[trigger] final(self).mouse_state@[b] == (
                old(self).mouse_state@[b] || (b < 3 && (old(
                    self,
                ).fallback_key_state@[dev as int]@[slot_code(b)] || holds_button(held@, b)))),
    {
        let ghost row = self.fallback_key_state@[dev as int]@;
        let ghost kb0 = self.keyboard_state@;
        let ghost ms0 = self.mouse_state@;
        let mut c: usize = 0;
        while c < KEY_CNT
            invariant
                c <= KEY_CNT,
                self.wf(),
                self.fallback_key_state == old(self).fallback_key_state,
                self.scroll_up == old(self).scroll_up,
                self.scroll_down == old(self).scroll_down,
                dev < self.fallback_key_state@.len(),
                row == self.fallback_key_state@[dev as int]@,
                kb0 == old(self).keyboard_state@,
                ms0 == old(self).mouse_state@,
                forall|k: int|
                    0 <= k < KEY_CNT ==> #[trigger] self.keyboard_state@[k] == (kb0[k] || (k < c
                        && row[k] && !is_mouse_code(k))),
                forall|b: int|
                    0 <= b < BTN_CNT ==> #[trigger] self.mouse_state@[b] == (ms0[b] || (b < 3 && slot_code(b) < c
                        && row[slot_code(b)])),
            decreases KEY_CNT - c,
        {
            if self.fallback_key_state[dev][c] {
                if c >= 0x110 && c <= 0x112 {
                    self.mouse_state.set(mouse_slot(c), true);
                } else {
                    self.keyboard_state.set(c, true);
                }
            }
            c = c + 1;
        }
        let ghost ms1 = self.mouse_state@;
        let mut h: usize = 0;
        while h < held.len()
            invariant
                h <= held@.len(),
                self.wf(),
                self.fallback_key_state == old(self).fallback_key_state,
                self.scroll_up == old(self).scroll_up,
                self.scroll_down == old(self).scroll_down,
                forall|k: int|
                    0 <= k < KEY_CNT ==> #[trigger] self.keyboard_state@[k] == (kb0[k] || (row[k]
                        && !is_mouse_code(k))),
                forall|b: int|
                    0 <= b < BTN_CNT ==> #[trigger] self.mouse_state@[b] == (ms1[b] || (b < 3
                        && holds_button(held@.take(h as int), b))),
                forall|b: int|
                    0 <= b < BTN_CNT ==> #[trigger] ms1[b] == (ms0[b] || (b < 3 && row[slot_code(b)])),
            decreases held@.len() - h,
        {
            let code = held[h] as usize;
            if code < KEY_CNT && code >= 0x110 && code <= 0x112 {
                self.mouse_state.set(mouse_slot(code), true);
            }
            proof {
                assert forall|b: int| 0 <= b < 3 implies #[trigger] holds_button(held@.take(h + 1), b)
                    == (holds_button(held@.take(h as int), b) || held@[h as int]
                    == slot_code(b) as u16) by {
                    let t = held@.take(h + 1);
                    let x = slot_code(b) as u16;
                    if held@.take(h as int).contains(x) {
                        let m = choose|m: int| 0 <= m < h && held@.take(h as int)[m] == x;
                        assert(t[m] == x);
                    }
                    if held@[h as int] == x {
                        assert(t[h as int] == x);
                    }
                    if t.contains(x) {
                        let m = choose|m: int| 0 <= m < h + 1 && t[m] == x;
                        if m < h {
                            assert(held@.take(h as int)[m] == x);
                        }
                    }
                }
            }
            h = h + 1;
        }
        assert(held@.take(held@.len() as int) =~= held@);
        assert(self.keyboard_state@ =~= merge_keys(kb0, row));
    }
}

/// evdev code of the `A` key.
pub const KEY_A: u16 = 30;

/// evdev code of the `1` key.
pub const KEY_1: u16 = 2;

/// evdev code of the horizontal relative axis.
pub const REL_X: u16 = 0;

/// What the app reads of an evdev device when it opens it: its name (empty
/// when it has none), the key codes it supports and the relative axes it
/// supports (each `None` when the device reports no such capability).
#[derive(Debug, Clone)]
pub struct InputDeviceInfo {
    pub name: String,
    pub keys: Option<Vec<u16>>,
    pub relative_axes: Option<Vec<u16>>,
}

/// A keyboard (it has `A` or `1`) or a mouse by its buttons (it has the
/// left, right or middle button).
pub open spec fn is_kbm(d: InputDeviceInfo) -> bool {
    match d.keys {
        Some(k) => k@.contains(KEY_A) || k@.contains(KEY_1) || k@.contains(BTN_LEFT) || k@.contains(
            (BTN_LEFT + 1) as u16,
        ) || k@.contains((BTN_LEFT + 2) as u16),
        None => false,
    }
}

/// A device that moves a pointer: it has the horizontal relative axis.
pub open spec fn moves_pointer(d: InputDeviceInfo) -> bool {
    match d.relative_axes {
        Some(a) => a@.contains(REL_X),
        None => false,
    }
}

/// Whether `v` holds `x`.
fn contains_code(v: &Vec<u16>, x: u16) -> (r: bool)
    ensures
        r == v@.contains(x),
{
    let mut i: usize = 0;
    while i < v.len()
        invariant
            i <= v@.len(),
            forall|k: int| 0 <= k < i ==> v@[k] != x,
        decreases v@.len() - i,
    {
        if v[i] == x {
            assert(v@[i as int] == x);
            return true;
        }
        i = i + 1;
    }
    false
}

/// Whether a device is a keyboard or a mouse by its keys.
pub fn is_kbm_device(d: &InputDeviceInfo) -> (r: bool)
    ensures
        r == is_kbm(*d),
{
    match &d.keys {
        Some(k) => {
            let has_keyboard = contains_code(k, KEY_A) || contains_code(k, KEY_1);
            let has_mouse = contains_code(k, BTN_LEFT) || contains_code(k, BTN_LEFT + 1)
                || contains_code(k, BTN_LEFT + 2);
            has_keyboard || has_mouse
        },
        None => false,
    }
}

/// Whether a device moves a pointer.
pub fn has_relative_axes(d: &InputDeviceInfo) -> (r: bool)
    ensures
        r == moves_pointer(*d),
{
    match &d.relative_axes {
        Some(a) => contains_code(a, REL_X),
        None => false,
    }
}

/// Whether device `i` is the first of `c` with its name.
pub open spec fn first_with_name(c: Seq<InputDeviceInfo>, i: int) -> bool {
    forall|j: int| 0 <= j < i ==> (#[trigger] c[j]).name@ != c[i].name@
}

/// The positions of the devices to use among the first `n`: a device is
/// used when no earlier device has its name (whether or not that one was
/// used) and it is a keyboard, a mouse, or moves a pointer.
pub open spec fn selected_devices(c: Seq<InputDeviceInfo>, n: int) -> Seq<usize>
    decreases n,
{
    if n <= 0 {
        Seq::empty()
    } else {
        let rest = selected_devices(c, n - 1);
        if first_with_name(c, n - 1) && (is_kbm(c[n - 1]) || moves_pointer(c[n - 1])) {
            rest.push((n - 1) as usize)
        } else {
            rest
        }
    }
}

/// The positions of the devices to keep, in order, among those that could
/// be opened.
pub fn select_input_devices(candidates: &Vec<InputDeviceInfo>) -> (r: Vec<usize>)
    ensures
        r@ == selected_devices(candidates@, candidates@.len() as int),
{
    let mut out: Vec<usize> = Vec::new();
    let mut i: usize = 0;
    while i < candidates.len()
        invariant
            i <= candidates@.len(),
            out@ == selected_devices(candidates@, i as int),
        decreases candidates@.len() - i,
    {
        let mut seen = false;
        let mut j: usize = 0;
        while j < i
            invariant
                i < candidates@.len(),
                j <= i,
                seen == !forall|k: int| 0 <= k < j ==> (#[trigger] candidates@[k]).name@ != candidates@[i as int].name@,
            decreases i - j,
        {
            if candidates[j].name == candidates[i].name {
                seen = true;
            }
            j = j + 1;
        }
        if !seen {
            if is_kbm_device(&candidates[i]) || has_relative_axes(&candidates[i]) {
                out.push(i);
            }
        }
        i = i + 1;
    }
    out
}

} // verus!
