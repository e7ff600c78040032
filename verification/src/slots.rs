use vstd::prelude::*;
use crate::devices::{ids_declared, OpenAttempts};
use crate::state::{SafeJoystickPtr, SafePtr};

verus! {

/// The device handles of one overlay view: a gamepad, and a joystick used
/// only while no gamepad is open. An address of 0 means none. Beside each
/// handle stand the (vendor, product) ids of the device it was opened for,
/// when it was opened from a profile's list of devices to try.
#[derive(Debug, Clone, Copy)]
pub struct DeviceSlots {
    pub gamepad: SafePtr,
    pub joystick: SafeJoystickPtr,
    pub gamepad_ids: Option<(u16, u16)>,
    pub joystick_ids: Option<(u16, u16)>,
}

/// Which device a poll reads.
#[derive(Debug, Clone, Copy)]
pub enum PollSource {
    /// The open gamepad.
    Gamepad(SafePtr),
    /// The joystick handle (0 when none is open; reading it gives a blank state).
    Joystick(SafeJoystickPtr),
}

/// Strict matching of what the slots hold: each open handle belongs to a
/// device whose ids are one of `pairs`.
pub open spec fn holds_declared(s: DeviceSlots, pairs: Seq<(Seq<char>, Seq<char>)>) -> bool {
    &&& s.gamepad.0 != 0 ==> (s.gamepad_ids matches Some(ids) && ids_declared(pairs, ids))
    &&& s.joystick.0 != 0 ==> (s.joystick_ids matches Some(ids) && ids_declared(pairs, ids))
}

impl DeviceSlots {
    /// No device open.
    pub fn empty() -> (r: Self)
        ensures
            r.gamepad.0 == 0,
            r.joystick.0 == 0,
            r.gamepad_ids is None,
            r.joystick_ids is None,
    {
        DeviceSlots { gamepad: SafePtr(0), joystick: SafeJoystickPtr(0), gamepad_ids: None, joystick_ids: None }
    }

    /// Whether a gamepad is open.
    pub fn has_gamepad(&self) -> (r: bool)
        ensures
            r == (self.gamepad.0 != 0),
    {
        self.gamepad.0 != 0
    }

    /// Whether a joystick is open.
    pub fn has_joystick(&self) -> (r: bool)
        ensures
            r == (self.joystick.0 != 0),
    {
        self.joystick.0 != 0
    }

    /// Forgets the gamepad when SDL no longer reports it connected, and
    /// gives back the handle to close.
    pub fn drop_lost_gamepad(&mut self, connected: bool) -> (r: Option<SafePtr>)
        ensures
            old(self).gamepad.0 != 0 && !connected ==> r == Some(old(self).gamepad)
                && final(self).gamepad.0 == 0 && final(self).gamepad_ids is None
                && final(self).joystick == old(self).joystick
                && final(self).joystick_ids == old(self).joystick_ids,
            !(old(self).gamepad.0 != 0 && !connected) ==> r is None && *final(self) == *old(self),
            forall|p: Seq<(Seq<char>, Seq<char>)>|
                holds_declared(*old(self), p) ==> #[trigger] holds_declared(*final(self), p),
    {
        if self.gamepad.0 != 0 && !connected {
            let lost = self.gamepad;
            self.gamepad = SafePtr(0);
            self.gamepad_ids = None;
            Some(lost)
        } else {
            None
        }
    }

    /// Forgets the joystick when SDL no longer reports it connected, and
    /// gives back the handle to close.
    pub fn drop_lost_joystick(&mut self, connected: bool) -> (r: Option<SafeJoystickPtr>)
        ensures
            old(self).joystick.0 != 0 && !connected ==> r == Some(old(self).joystick)
                && final(self).joystick.0 == 0 && final(self).joystick_ids is None
                && final(self).gamepad == old(self).gamepad
                && final(self).gamepad_ids == old(self).gamepad_ids,
            !(old(self).joystick.0 != 0 && !connected) ==> r is None && *final(self) == *old(self),
            forall|p: Seq<(Seq<char>, Seq<char>)>|
                holds_declared(*old(self), p) ==> #[trigger] holds_declared(*final(self), p),
    {
        if self.joystick.0 != 0 && !connected {
            let lost = self.joystick;
            self.joystick = SafeJoystickPtr(0);
            self.joystick_ids = None;
            Some(lost)
        } else {
            None
        }
    }

    /// Records the outcome of opening a gamepad by instance id while none
    /// was open (ids unknown): a gamepad that did open replaces the
    /// joystick, whose handle (if any) is given back to close.
    pub fn gamepad_opened(&mut self, opened: SafePtr) -> (r: Option<SafeJoystickPtr>)
        requires
            old(self).gamepad.0 == 0,
        ensures
            opened.0 == 0 ==> r is None && *final(self) == *old(self),
            opened.0 != 0 ==> final(self).gamepad == opened && final(self).gamepad_ids is None
                && final(self).joystick.0 == 0 && final(self).joystick_ids is None && r == (
            if old(self).joystick.0 != 0 {
                Some(old(self).joystick)
            } else {
                None
            }),
    {
        if opened.0 == 0 {
            return None;
        }
        self.gamepad = opened;
        self.gamepad_ids = None;
        let js = self.joystick;
        self.joystick = SafeJoystickPtr(0);
        self.joystick_ids = None;
        if js.0 != 0 {
            Some(js)
        } else {
            None
        }
    }

    /// Records the outcome of trying, in the order `attempts` hands them
    /// out, to open a gamepad for a profile while none was open: `opened` is
    /// the handle of the device handed out last (0 when none opened). A
    /// gamepad that did open is held with that device's ids and replaces the
    /// joystick, whose handle (if any) is given back to close.
    pub fn gamepad_opened_from(&mut self, opened: SafePtr, attempts: &OpenAttempts) -> (r: Option<SafeJoystickPtr>)
        requires
            old(self).gamepad.0 == 0,
            opened.0 != 0 ==> attempts.last_ids() is Some,
        ensures
            opened.0 == 0 ==> r is None && *final(self) == *old(self),
            opened.0 != 0 ==> final(self).gamepad == opened && final(self).gamepad_ids
                == attempts.last_ids() && final(self).joystick.0 == 0
                && final(self).joystick_ids is None && r == (if old(self).joystick.0 != 0 {
                Some(old(self).joystick)
            } else {
                None
            }),
            attempts.pairs().len() > 0 && holds_declared(*old(self), attempts.pairs())
                ==> holds_declared(*final(self), attempts.pairs()),
    {
        if opened.0 == 0 {
            return None;
        }
        self.gamepad = opened;
        self.gamepad_ids = attempts.last_device_ids();
        let js = self.joystick;
        self.joystick = SafeJoystickPtr(0);
        self.joystick_ids = None;
        if js.0 != 0 {
            Some(js)
        } else {
            None
        }
    }

    /// Records the outcome of opening a joystick by instance id while none
    /// was open (ids unknown).
    pub fn joystick_opened(&mut self, opened: SafeJoystickPtr)
        requires
            old(self).joystick.0 == 0,
        ensures
            final(self).gamepad == old(self).gamepad,
            final(self).gamepad_ids == old(self).gamepad_ids,
            final(self).joystick == opened,
            final(self).joystick_ids is None,
    {
        self.joystick = opened;
        self.joystick_ids = None;
    }

    /// Records the outcome of trying, in the order `attempts` hands them
    /// out, to open a joystick for a profile while none was open: `opened` is
    /// the handle of the device handed out last (0 when none opened); a
    /// joystick that did open is held with that device's ids.
    pub fn joystick_opened_from(&mut self, opened: SafeJoystickPtr, attempts: &OpenAttempts)
        requires
            old(self).joystick.0 == 0,
            opened.0 != 0 ==> attempts.last_ids() is Some,
        ensures
            final(self).gamepad == old(self).gamepad,
            final(self).gamepad_ids == old(self).gamepad_ids,
            final(self).joystick == opened,
            final(self).joystick_ids == (if opened.0 != 0 {
                attempts.last_ids()
            } else {
                old(self).joystick_ids
            }),
            attempts.pairs().len() > 0 && holds_declared(*old(self), attempts.pairs())
                ==> holds_declared(*final(self), attempts.pairs()),
    {
        self.joystick = opened;
        if opened.0 != 0 {
            self.joystick_ids = attempts.last_device_ids();
        }
    }

    /// Forgets both devices, giving back the handles to close.
    pub fn take_all(&mut self) -> (r: (Option<SafePtr>, Option<SafeJoystickPtr>))
        ensures
            final(self).gamepad.0 == 0,
            final(self).joystick.0 == 0,
            final(self).gamepad_ids is None,
            final(self).joystick_ids is None,
            r.0 == (if old(self).gamepad.0 != 0 { Some(old(self).gamepad) } else { None }),
            r.1 == (if old(self).joystick.0 != 0 { Some(old(self).joystick) } else { None }),
            forall|p: Seq<(Seq<char>, Seq<char>)>| #[trigger] holds_declared(*final(self), p),
    {
        let gp = if self.gamepad.0 != 0 { Some(self.gamepad) } else { None };
        let js = if self.joystick.0 != 0 { Some(self.joystick) } else { None };
        self.gamepad = SafePtr(0);
        self.joystick = SafeJoystickPtr(0);
        self.gamepad_ids = None;
        self.joystick_ids = None;
        (gp, js)
    }

    /// The device to read: the gamepad whenever one is open, else the
    /// joystick.
    pub fn source(&self) -> (r: PollSource)
        ensures
            self.gamepad.0 != 0 ==> r == PollSource::Gamepad(self.gamepad),
            self.gamepad.0 == 0 ==> r == PollSource::Joystick(self.joystick),
    {
        if self.gamepad.0 != 0 {
            PollSource::Gamepad(self.gamepad)
        } else {
            PollSource::Joystick(self.joystick)
        }
    }
}

/// What a poll reads is declared hardware. Every slot operation keeps
/// `holds_declared` for the profile's pairs (forgetting a lost device,
/// emptying the slots, and opening from that profile's `OpenAttempts`), and
/// loading a profile starts from empty slots; so whenever a poll reads an
/// open gamepad, or else an open joystick, its ids are one of the pairs.
pub proof fn lemma_poll_reads_declared(s: DeviceSlots, pairs: Seq<(Seq<char>, Seq<char>)>)
    requires
        holds_declared(s, pairs),
    ensures
        s.gamepad.0 != 0 ==> ids_declared(pairs, s.gamepad_ids.unwrap()),
        s.gamepad.0 == 0 && s.joystick.0 != 0 ==> ids_declared(pairs, s.joystick_ids.unwrap()),
{
}

} // verus!
