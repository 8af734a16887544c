//! The virtual mouse: which buttons it holds, and the input events it emits.

use vstd::prelude::*;
use crate::buttons::BTN_LEFT;

verus! {

/// Event type: synchronisation.
pub const EV_SYN: u16 = 0x00;
/// Event type: key or button.
pub const EV_KEY: u16 = 0x01;
/// Event type: relative axis.
pub const EV_REL: u16 = 0x02;
/// Synchronisation code that ends a group of events.
pub const SYN_REPORT: u16 = 0x00;
/// Relative axis: horizontal.
pub const REL_X: u16 = 0x00;
/// Relative axis: vertical.
pub const REL_Y: u16 = 0x01;

/// One input event for the virtual device (without its time stamp).
#[derive(Clone, Copy, Debug, PartialEq, Eq, Structural)]
pub struct InputEventData {
    pub event_type: u16,
    pub code: u16,
    pub value: i32,
}

/// The events of a key press or release: the key event and a sync.
pub open spec fn spec_key_events(code: u16, pressed: bool) -> Seq<InputEventData> {
    seq![
        InputEventData { event_type: EV_KEY, code, value: if pressed { 1 } else { 0 } },
        InputEventData { event_type: EV_SYN, code: SYN_REPORT, value: 0 },
    ]
}

/// The events of a relative motion: nothing for no motion; otherwise the
/// non-zero axes, x before y, and a sync.
pub open spec fn spec_rel_motion_events(dx: i32, dy: i32) -> Seq<InputEventData> {
    if dx == 0 && dy == 0 {
        Seq::empty()
    } else {
        let xs = if dx != 0 {
            seq![InputEventData { event_type: EV_REL, code: REL_X, value: dx }]
        } else {
            Seq::empty()
        };
        let ys = if dy != 0 {
            seq![InputEventData { event_type: EV_REL, code: REL_Y, value: dy }]
        } else {
            Seq::empty()
        };
        xs + ys + seq![InputEventData { event_type: EV_SYN, code: SYN_REPORT, value: 0 }]
    }
}

/// The events that press (`pressed`) or release a key.
pub fn key_events(code: u16, pressed: bool) -> (events: Vec<InputEventData>)
    ensures
        events@ == spec_key_events(code, pressed),
{
    let mut events: Vec<InputEventData> = Vec::new();
    events.push(InputEventData { event_type: EV_KEY, code, value: if pressed { 1 } else { 0 } });
    events.push(InputEventData { event_type: EV_SYN, code: SYN_REPORT, value: 0 });
    assert(events@ =~= spec_key_events(code, pressed));
    events
}

/// The events of a relative pointer motion.
pub fn rel_motion_events(dx: i32, dy: i32) -> (events: Vec<InputEventData>)
    ensures
        events@ == spec_rel_motion_events(dx, dy),
{
    let mut events: Vec<InputEventData> = Vec::new();
    if dx == 0 && dy == 0 {
        assert(events@ =~= spec_rel_motion_events(dx, dy));
        return events;
    }
    if dx != 0 {
        events.push(InputEventData { event_type: EV_REL, code: REL_X, value: dx });
    }
    if dy != 0 {
        events.push(InputEventData { event_type: EV_REL, code: REL_Y, value: dy });
    }
    events.push(InputEventData { event_type: EV_SYN, code: SYN_REPORT, value: 0 });
    assert(events@ =~= spec_rel_motion_events(dx, dy));
    events
}

/// The buttons the virtual mouse holds. `enabled` tells whether the virtual
/// device exists; without it no button is ever pressed.
#[derive(Clone, Copy, Debug, PartialEq, Eq, Structural)]
pub struct MouseButtons {
    pub enabled: bool,
    pub normal_button: Option<u16>,
    pub force_button: Option<u16>,
    pub force_button_down: Option<u16>,
}

/// The consistency of the held buttons that every operation keeps: buttons
/// are held only on an existing device, the held force button is the
/// configured one, and a force button held together with a normal button
/// only happens over a left click, with a force button other than left.
pub open spec fn mouse_wf(m: MouseButtons) -> bool {
    &&& (m.normal_button is Some || m.force_button_down is Some) ==> m.enabled
    &&& m.force_button_down is Some ==> m.force_button_down == m.force_button
    &&& (m.normal_button is Some && m.force_button_down is Some) ==> {
        &&& m.normal_button == Some(BTN_LEFT)
        &&& m.force_button_down != Some(BTN_LEFT)
    }
}

/// The key that a normal click presses: its button, when the device exists
/// and no button is held.
pub open spec fn spec_normal_down_key(m: MouseButtons, button: u16) -> Option<u16> {
    if m.enabled && m.normal_button is None && m.force_button_down is None {
        Some(button)
    } else {
        None
    }
}

/// The key that a force click presses: the configured force button, when
/// the device exists, it is not held yet, and no normal button other than a
/// left click (with a force button other than left) is held.
pub open spec fn spec_force_down_key(m: MouseButtons) -> Option<u16> {
    match m.force_button {
        None => None,
        Some(fb) => if !m.enabled || m.force_button_down is Some {
            None
        } else if m.normal_button == Some(BTN_LEFT) {
            if fb == BTN_LEFT {
                None
            } else {
                Some(fb)
            }
        } else if m.normal_button is Some {
            None
        } else {
            Some(fb)
        },
    }
}

impl MouseButtons {
    /// A virtual mouse that holds no button.
    pub fn new(enabled: bool, force_button: Option<u16>) -> (m: MouseButtons)
        ensures
            m == (MouseButtons { enabled, normal_button: None, force_button, force_button_down: None }),
            mouse_wf(m),
    {
        MouseButtons { enabled, normal_button: None, force_button, force_button_down: None }
    }

    /// The key to press for a normal click, if any.
    pub fn normal_down_key(&self, button: u16) -> (key: Option<u16>)
        ensures
            key == spec_normal_down_key(*self, button),
    {
        if self.enabled && self.normal_button.is_none() && self.force_button_down.is_none() {
            Some(button)
        } else {
            None
        }
    }

    /// Records that the normal click's key was pressed.
    pub fn mark_normal_down(&mut self, button: u16)
        requires
            spec_normal_down_key(*old(self), button) == Some(button),
        ensures
            *final(self) == (MouseButtons { normal_button: Some(button), ..*old(self) }),
    {
        self.normal_button = Some(button);
    }

    /// Releases the held normal button: the key to release, if one was held.
    pub fn normal_up(&mut self) -> (key: Option<u16>)
        ensures
            key == old(self).normal_button,
            *final(self) == (MouseButtons { normal_button: None, ..*old(self) }),
    {
        let key = self.normal_button;
        self.normal_button = None;
        key
    }

    /// The key to press for a force click, if any.
    pub fn force_down_key(&self) -> (key: Option<u16>)
        ensures
            key == spec_force_down_key(*self),
    {
        let fb = match self.force_button {
            Some(b) => b,
            None => {
                return None;
            },
        };
        if !self.enabled || self.force_button_down.is_some() {
            return None;
        }
        match self.normal_button {
            Some(nb) => {
                if nb == BTN_LEFT {
                    if fb == BTN_LEFT {
                        return None;
                    }
                } else {
                    return None;
                }
            },
            None => {},
        }
        Some(fb)
    }

    /// Records that the force click's key was pressed.
    pub fn mark_force_down(&mut self, button: u16)
        requires
            spec_force_down_key(*old(self)) == Some(button),
        ensures
            *final(self) == (MouseButtons { force_button_down: Some(button), ..*old(self) }),
    {
        self.force_button_down = Some(button);
    }

    /// Releases the held force button: the key to release, if one was held.
    pub fn force_up(&mut self) -> (key: Option<u16>)
        ensures
            key == old(self).force_button_down,
            *final(self) == (MouseButtons { force_button_down: None, ..*old(self) }),
    {
        let key = self.force_button_down;
        self.force_button_down = None;
        key
    }
}

/// Pressing and releasing keep the consistency of the held buttons, and a
/// button that is held is never pressed again before it is released.
pub proof fn lemma_mouse_ops_keep_wf(m: MouseButtons, button: u16)
    requires
        mouse_wf(m),
    ensures
        spec_normal_down_key(m, button) == Some(button) ==> mouse_wf(
            MouseButtons { normal_button: Some(button), ..m },
        ),
        spec_force_down_key(m) matches Some(fb) ==> mouse_wf(MouseButtons { force_button_down: Some(fb), ..m }),
        mouse_wf(MouseButtons { normal_button: None, ..m }),
        mouse_wf(MouseButtons { force_button_down: None, ..m }),
        m.normal_button is Some ==> spec_normal_down_key(m, button) is None,
        m.force_button_down is Some ==> spec_force_down_key(m) is None,
{
}

/// Releasing a button that was just pressed releases that same key and
/// gives back the buttons held before the press.
pub proof fn lemma_release_undoes_press(m: MouseButtons, button: u16)
    ensures
        spec_normal_down_key(m, button) == Some(button) ==> {
            let pressed = MouseButtons { normal_button: Some(button), ..m };
            &&& pressed.normal_button == Some(button)
            &&& (MouseButtons { normal_button: None, ..pressed }) == m
        },
        spec_force_down_key(m) matches Some(fb) ==> {
            let pressed = MouseButtons { force_button_down: Some(fb), ..m };
            &&& pressed.force_button_down == Some(fb)
            &&& (MouseButtons { force_button_down: None, ..pressed }) == m
        },
{
}

} // verus!
