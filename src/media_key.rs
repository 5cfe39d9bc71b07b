//! The once-a-second media-key report: what the RTC handler does on each
//! tick, given whether the device is configured.
use vstd::prelude::*;

verus! {

/// Usage id of the media key while held down.
pub const KEY_DOWN_USAGE: u16 = 0x00e2;

/// Usage id that reports the key released.
pub const KEY_UP_USAGE: u16 = 0x0000;

/// The HID input report: one 16-bit consumer-control usage id.
#[derive(Clone, Copy, PartialEq, Eq, Debug, Structural)]
pub struct MediaKeyboardReport {
    pub usage_id: u16,
}

/// What the RTC handler does on a tick.
#[derive(Clone, Copy, PartialEq, Eq, Debug, Structural)]
pub struct RtcAction {
    /// Drive the status indicator on (or off).
    pub indicator_on: bool,
    /// The report to push to the HID class, if any.
    pub report: Option<MediaKeyboardReport>,
    /// Pend the USB interrupt so the report leaves promptly.
    pub pend_usb: bool,
}

/// The usage id sent when the latch has just become `pressed`.
pub open spec fn usage_for(pressed: bool) -> u16 {
    if pressed {
        KEY_DOWN_USAGE
    } else {
        KEY_UP_USAGE
    }
}

/// The action of a tick that finds the device configured (or not), with the
/// latch having become `pressed`.
pub open spec fn tick_action(configured: bool, pressed: bool) -> RtcAction {
    if configured {
        RtcAction {
            indicator_on: true,
            report: Some(MediaKeyboardReport { usage_id: usage_for(pressed) }),
            pend_usb: true,
        }
    } else {
        RtcAction { indicator_on: false, report: None, pend_usb: false }
    }
}

/// The latch flipped on every tick that finds the device configured.
#[derive(Clone, Copy, PartialEq, Eq, Debug, Structural)]
pub struct KeyLatch {
    pressed: bool,
}

impl KeyLatch {
    pub closed spec fn spec_pressed(self) -> bool {
        self.pressed
    }

    pub fn new() -> (r: Self)
        ensures
            !r.spec_pressed(),
    {
        KeyLatch { pressed: false }
    }

    pub fn is_pressed(&self) -> (r: bool)
        ensures
            r == self.spec_pressed(),
    {
        self.pressed
    }

    /// One RTC tick. Not configured: the indicator goes off and nothing is
    /// sent. Configured: the latch flips, the indicator goes on, and a report
    /// goes out with the key-down usage when the latch became set and the
    /// key-up usage when it became clear.
    pub fn on_rtc_tick(&mut self, configured: bool) -> (r: RtcAction)
        ensures
            configured ==> final(self).spec_pressed() == !old(self).spec_pressed(),
            !configured ==> *final(self) == *old(self),
            r == tick_action(configured, final(self).spec_pressed()),
    {
        if !configured {
            return RtcAction { indicator_on: false, report: None, pend_usb: false };
        }
        self.pressed = !self.pressed;
        let usage_id = if self.pressed {
            KEY_DOWN_USAGE
        } else {
            KEY_UP_USAGE
        };
        RtcAction {
            indicator_on: true,
            report: Some(MediaKeyboardReport { usage_id }),
            pend_usb: true,
        }
    }
}

/// From a fresh latch, consecutive configured ticks send key-down, then
/// key-up, then key-down again.
pub proof fn lemma_reports_alternate(l: KeyLatch)
    requires
        !l.spec_pressed(),
    ensures
        tick_action(true, !l.spec_pressed()).report == Some(MediaKeyboardReport { usage_id: 0x00e2 }),
        tick_action(true, !!l.spec_pressed()).report == Some(MediaKeyboardReport { usage_id: 0x0000 }),
        tick_action(true, !!!l.spec_pressed()).report == Some(MediaKeyboardReport { usage_id: 0x00e2 }),
{
}

} // verus!
