use media_key::usb::bus::{
    EndpointAddress, PollResult, UsbDirection, UsbError, QUIRK_SET_ADDRESS_BEFORE_STATUS, USB,
};
use media_key::usb::registers::{FIFO_LEN_ITEMS, GINTSTS_ENUMDONE, GINTSTS_USBRST};

fn ctrl(dir: UsbDirection) -> Option<EndpointAddress> {
    Some(EndpointAddress::from_parts(0, dir))
}

#[test]
fn control_endpoint_allocates_once() {
    let mut usb = USB::new();
    let a = usb.alloc_ep(UsbDirection::In, ctrl(UsbDirection::In)).unwrap();
    assert_eq!(a.index(), 0);
    assert!(a.is_in());
    assert_eq!(usb.alloc_ep(UsbDirection::In, ctrl(UsbDirection::In)), Err(UsbError::AlreadyAllocated));
    let b = usb.alloc_ep(UsbDirection::Out, ctrl(UsbDirection::Out)).unwrap();
    assert!(b.is_out());
    assert_eq!(usb.alloc_ep(UsbDirection::Out, ctrl(UsbDirection::Out)), Err(UsbError::AlreadyAllocated));
}

#[test]
fn interface_endpoints_run_out_after_three() {
    let mut usb = USB::new();
    for expected in 1..=3u8 {
        let a = usb.alloc_ep(UsbDirection::In, None).unwrap();
        assert_eq!(a.index(), expected);
        assert_eq!(a.direction(), UsbDirection::In);
    }
    assert_eq!(usb.alloc_ep(UsbDirection::In, None), Err(UsbError::EndpointOverflow));
    let o = usb.alloc_ep(UsbDirection::Out, Some(EndpointAddress::from_parts(2, UsbDirection::Out))).unwrap();
    assert_eq!(o.index(), 1);
}

fn ready_usb() -> USB {
    let mut usb = USB::new();
    usb.alloc_ep(UsbDirection::In, ctrl(UsbDirection::In)).unwrap();
    usb.alloc_ep(UsbDirection::Out, ctrl(UsbDirection::Out)).unwrap();
    usb
}

#[test]
fn write_packs_tail_into_low_bytes() {
    let mut usb = ready_usb();
    let mut fifo = vec![0xdead_beefu32; FIFO_LEN_ITEMS];
    let n = usb.write(EndpointAddress::from_parts(0, UsbDirection::In), &[1, 2, 3, 4, 5, 6], &mut fifo);
    assert_eq!(n, Ok(6));
    assert_eq!(fifo[0], 0x0403_0201);
    assert_eq!(fifo[1], 0x0000_0605);
    assert_eq!(fifo[2], 0xdead_beef);
}

#[test]
fn write_tail_of_one_and_three() {
    let mut usb = ready_usb();
    let mut fifo = vec![0u32; FIFO_LEN_ITEMS];
    assert_eq!(usb.write(EndpointAddress::from_parts(0, UsbDirection::In), &[0xaa], &mut fifo), Ok(1));
    assert_eq!(fifo[0], 0x0000_00aa);
    assert_eq!(usb.write(EndpointAddress::from_parts(0, UsbDirection::In), &[1, 2, 3, 4, 7, 8, 9], &mut fifo), Ok(7));
    assert_eq!(fifo[1], 0x0009_0807);
}

#[test]
fn write_truncates_to_fifo() {
    let mut usb = ready_usb();
    let mut fifo = vec![0u32; FIFO_LEN_ITEMS];
    let buf = vec![0x11u8; 2000];
    assert_eq!(usb.write(EndpointAddress::from_parts(0, UsbDirection::In), &buf, &mut fifo), Ok(1536));
    assert!(fifo.iter().all(|w| *w == 0x1111_1111));
}

#[test]
fn write_errors() {
    let mut usb = USB::new();
    let mut fifo = vec![0u32; FIFO_LEN_ITEMS];
    let in0 = EndpointAddress::from_parts(0, UsbDirection::In);
    assert_eq!(usb.write(in0, &[1], &mut fifo), Err(UsbError::InvalidEndpoint));
    usb.alloc_ep(UsbDirection::In, Some(in0)).unwrap();
    assert_eq!(usb.write(in0, &[], &mut fifo), Err(UsbError::WouldBlock));
    assert_eq!(usb.write(EndpointAddress::from_parts(0, UsbDirection::Out), &[1], &mut fifo), Err(UsbError::InvalidEndpoint));
    usb.alloc_ep(UsbDirection::In, None).unwrap();
    assert_eq!(usb.write(EndpointAddress::from_parts(1, UsbDirection::In), &[1], &mut fifo), Err(UsbError::InvalidEndpoint));
    assert!(fifo.iter().all(|w| *w == 0));
}

#[test]
fn read_unpacks_words() {
    let usb = ready_usb();
    let mut fifo = vec![0u32; FIFO_LEN_ITEMS];
    fifo[0] = 0x0403_0201;
    fifo[1] = 0x0807_0605;
    let mut buf = [0xffu8; 6];
    assert_eq!(usb.read(EndpointAddress::from_parts(0, UsbDirection::Out), &mut buf, &fifo), Ok(6));
    assert_eq!(buf, [1, 2, 3, 4, 5, 6]);
    let mut small = [0u8; 3];
    assert_eq!(usb.read(EndpointAddress::from_parts(0, UsbDirection::Out), &mut small, &fifo), Ok(3));
    assert_eq!(small, [1, 2, 3]);
    assert_eq!(usb.read(EndpointAddress::from_parts(0, UsbDirection::In), &mut small, &fifo), Err(UsbError::InvalidEndpoint));
}

#[test]
fn stall_bits() {
    let usb = ready_usb();
    let in0 = EndpointAddress::from_parts(0, UsbDirection::In);
    let ctl = usb.set_stalled(in0, true, 0x8000_0040).unwrap();
    assert_eq!(ctl, 0x8020_0040);
    assert!(usb.is_stalled(in0, ctl));
    let ctl = usb.set_stalled(in0, false, ctl).unwrap();
    assert_eq!(ctl, 0x8000_0040);
    assert!(!usb.is_stalled(in0, ctl));
    let in1 = EndpointAddress::from_parts(1, UsbDirection::In);
    assert_eq!(usb.set_stalled(in1, true, 0), None);
    assert!(usb.is_stalled(in1, 0));
}

#[test]
fn device_address_field() {
    let usb = USB::new();
    assert_eq!(usb.set_device_address(0x0000_0003, 5), 0x0000_0053);
    assert_eq!(usb.set_device_address(0xffff_ffff, 0), 0xffff_f80f);
    assert_eq!(usb.set_device_address(0, 0xff), 0x0000_07f0);
}

#[test]
fn poll_reports_reset_and_clears_pending() {
    let mut usb = ready_usb();
    assert_eq!(usb.poll(GINTSTS_USBRST), PollResult::Reset);
    assert_eq!(usb.poll(GINTSTS_ENUMDONE | 0x10), PollResult::Reset);
    assert_eq!(usb.poll_acknowledge(0xffff_ffff), GINTSTS_USBRST | GINTSTS_ENUMDONE);
    let mut fifo = vec![0u32; FIFO_LEN_ITEMS];
    usb.write(EndpointAddress::from_parts(0, UsbDirection::In), &[1], &mut fifo).unwrap();
    assert_eq!(usb.poll(0), PollResult::NoEvent);
}

#[test]
fn available_space() {
    let usb = USB::new();
    let in0 = EndpointAddress::from_parts(0, UsbDirection::In);
    let out0 = EndpointAddress::from_parts(0, UsbDirection::Out);
    assert_eq!(usb.get_available_tx_space(in0, 0xffff_fff2), 2);
    assert_eq!(usb.get_available_rx_space(out0, 0x0008_0010), 64);
    assert_eq!(usb.get_available_tx_space(EndpointAddress::from_parts(1, UsbDirection::In), 3), 0);
    assert_eq!(usb.get_available_rx_space(EndpointAddress::from_parts(2, UsbDirection::Out), 3), 0);
}

#[test]
fn quirk_is_advertised() {
    assert!(QUIRK_SET_ADDRESS_BEFORE_STATUS);
}
