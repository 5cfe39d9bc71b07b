use media_key::media_key::{KeyLatch, MediaKeyboardReport, KEY_DOWN_USAGE};
use media_key::usb::bus::{EndpointAddress, PollResult, UsbDirection, QUIRK_SET_ADDRESS_BEFORE_STATUS, USB};
use media_key::usb::registers::{FIFO_LEN_ITEMS, GINTSTS_USBRST};

#[test]
fn unconfigured_tick_sends_nothing() {
    let mut latch = KeyLatch::new();
    let a = latch.on_rtc_tick(false);
    assert!(!a.indicator_on);
    assert!(a.report.is_none());
    assert!(!a.pend_usb);
    assert!(!latch.is_pressed());
}

#[test]
fn configured_ticks_alternate() {
    let mut latch = KeyLatch::new();
    let a = latch.on_rtc_tick(true);
    assert_eq!(a.report, Some(MediaKeyboardReport { usage_id: 0x00e2 }));
    assert!(a.indicator_on && a.pend_usb);
    let b = latch.on_rtc_tick(true);
    assert_eq!(b.report, Some(MediaKeyboardReport { usage_id: 0x0000 }));
    let c = latch.on_rtc_tick(true);
    assert_eq!(c.report.unwrap().usage_id, KEY_DOWN_USAGE);
}

#[test]
fn end_to_end_enumeration_then_reports() {
    let mut usb = USB::new();
    usb.alloc_ep(UsbDirection::Out, Some(EndpointAddress::from_parts(0, UsbDirection::Out))).unwrap();
    usb.alloc_ep(UsbDirection::In, Some(EndpointAddress::from_parts(0, UsbDirection::In))).unwrap();
    usb.alloc_ep(UsbDirection::In, None).unwrap();
    let mut latch = KeyLatch::new();
    assert!(latch.on_rtc_tick(false).report.is_none());
    assert_eq!(usb.poll(GINTSTS_USBRST), PollResult::Reset);
    assert!(QUIRK_SET_ADDRESS_BEFORE_STATUS);
    let dcfg = usb.set_device_address(0, 5);
    assert_eq!((dcfg >> 4) & 0x7f, 5);
    let mut fifo = vec![0u32; FIFO_LEN_ITEMS];
    assert_eq!(usb.write(EndpointAddress::from_parts(0, UsbDirection::In), &[], &mut fifo).is_err(), true);
    assert_eq!(usb.poll(0), PollResult::NoEvent);
    let first = latch.on_rtc_tick(true);
    assert_eq!(first.report, Some(MediaKeyboardReport { usage_id: 0x00e2 }));
    let second = latch.on_rtc_tick(true);
    assert_eq!(second.report, Some(MediaKeyboardReport { usage_id: 0x0000 }));
}
