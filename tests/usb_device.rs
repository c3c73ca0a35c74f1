use ofs_support::descriptors::{
    config1_descriptor, descriptor_list, device_descriptor, find_descriptor, lookup_descriptor,
    product_descriptor, Descriptor, PRODUCT_ID, VENDOR_ID,
};
use ofs_support::fightstick::FightstickDescriptor;
use ofs_support::usb::{
    configure_endpoints, gamepad_endpoints, ControlAction, ControlInTransfer, ControlWait,
    EndpointConfig, EndpointSetup, PushStep, RequestType, SetupPacket, UsbDevice, WaitStep,
};

fn setup(request_type: u8, request: u8, value: u16, index: u16, length: u16) -> SetupPacket {
    SetupPacket { request_type, request, value, index, length }
}

fn all_packets(mut t: ControlInTransfer) -> Vec<Vec<u8>> {
    let mut packets = Vec::new();
    while let Some(p) = t.next_packet(false) {
        packets.push(p);
    }
    assert!(t.finished());
    packets
}

#[test]
fn request_table() {
    assert_eq!(RequestType::from_u8(0x80, 8, 7), RequestType::GetConfiguration);
    assert_eq!(RequestType::from_u8(0, 9, 3), RequestType::SetConfiguration);
    assert_eq!(RequestType::from_u8(0xA1, 1, 0), RequestType::HidGetReport);
    assert_eq!(RequestType::from_u8(0xA1, 2, 0), RequestType::HidGetIdle);
    assert_eq!(RequestType::from_u8(0xA1, 3, 0), RequestType::HidGetProtocol);
    assert_eq!(RequestType::from_u8(0x21, 9, 0), RequestType::HidSetReport);
    assert_eq!(RequestType::from_u8(0x21, 10, 0), RequestType::HidSetIdle);
    assert_eq!(RequestType::from_u8(0x21, 11, 0), RequestType::HidSetProtocol);
    assert_eq!(RequestType::from_u8(0x80, 0, 0), RequestType::GetStatus);
    assert_eq!(RequestType::from_u8(0x00, 5, 0), RequestType::SetAddress);
    assert_eq!(RequestType::from_u8(0x80, 6, 0), RequestType::GetDescriptor);
    assert_eq!(RequestType::from_u8(0x81, 6, 0), RequestType::GetDescriptor);
}

#[test]
fn unmatched_requests_stall() {
    assert_eq!(RequestType::from_u8(0x80, 1, 0), RequestType::Stall);
    assert_eq!(RequestType::from_u8(0x00, 3, 0), RequestType::Stall);
    assert_eq!(RequestType::from_u8(0x81, 10, 0), RequestType::Stall);
    assert_eq!(RequestType::from_u8(0xA1, 1, 1), RequestType::Stall);
    assert_eq!(RequestType::from_u8(0x21, 10, 2), RequestType::Stall);
    assert_eq!(RequestType::from_u8(0x80, 9, 0), RequestType::Stall);
    assert_eq!(RequestType::from_u8(0x01, 8, 0), RequestType::Stall);
    assert_eq!(RequestType::from_u8(0xFF, 0xFF, 0xFF), RequestType::Stall);
}

#[test]
fn setup_packet_is_little_endian() {
    let p = SetupPacket::parse(&[0x80, 6, 0x00, 0x01, 0x09, 0x04, 0xFF, 0x00]);
    assert_eq!(p, setup(0x80, 6, 0x0100, 0x0409, 0x00FF));
}

#[test]
fn device_descriptor_bytes() {
    let d = device_descriptor();
    assert_eq!(d.len(), 18);
    assert_eq!(&d[8..12], &[0xC0, 0x10, 0xC0, 0x82]);
    assert_eq!(d[8] as u16 | (d[9] as u16) << 8, VENDOR_ID);
    assert_eq!(d[10] as u16 | (d[11] as u16) << 8, PRODUCT_ID);
    assert_eq!(d[7], 64);
}

#[test]
fn get_device_descriptor_with_enough_length() {
    for length in [18u16, 64, 255, 0xFFFF] {
        let mut dev = UsbDevice::new();
        match dev.handle_setup(&setup(0x80, 6, 0x0100, 0x0000, length)) {
            ControlAction::SendDescriptor(t) => {
                let packets = all_packets(t);
                assert_eq!(packets, vec![device_descriptor()]);
            },
            _ => panic!("expected a descriptor"),
        }
        assert_eq!(dev, UsbDevice::new());
    }
}

#[test]
fn get_descriptor_truncated_to_length() {
    let mut dev = UsbDevice::new();
    match dev.handle_setup(&setup(0x80, 6, 0x0200, 0x0000, 9)) {
        ControlAction::SendDescriptor(t) => {
            assert_eq!(all_packets(t), vec![config1_descriptor()[..9].to_vec()]);
        },
        _ => panic!("expected a descriptor"),
    }
}

#[test]
fn get_unknown_descriptor_stalls() {
    let mut dev = UsbDevice::new();
    assert!(matches!(dev.handle_setup(&setup(0x80, 6, 0x0303, 0x0409, 64)), ControlAction::Stall));
    assert!(matches!(dev.handle_setup(&setup(0x80, 6, 0x0301, 0x0000, 64)), ControlAction::Stall));
    assert!(lookup_descriptor(0x0600, 0).is_none());
}

#[test]
fn descriptor_table_lookup() {
    let list = descriptor_list();
    assert_eq!(list.len(), 6);
    assert_eq!(find_descriptor(&list, 0x0302, 0x0409), Some(5));
    assert_eq!(find_descriptor(&list, 0x0302, 0x0000), None);
    assert_eq!(lookup_descriptor(0x0302, 0x0409), Some(product_descriptor()));
    assert_eq!(lookup_descriptor(0x0300, 0), Some(vec![4, 3, 0x09, 0x04]));
    let own = vec![Descriptor::new(1, 2, vec![9]), Descriptor::new(1, 2, vec![8])];
    assert_eq!(find_descriptor(&own, 1, 2), Some(0));
}

#[test]
fn long_descriptor_goes_in_packets() {
    let data: Vec<u8> = (0..150u8).collect();
    let packets = all_packets(ControlInTransfer::new(data.clone()));
    assert_eq!(packets.len(), 3);
    assert_eq!(packets[0], data[..64].to_vec());
    assert_eq!(packets[1], data[64..128].to_vec());
    assert_eq!(packets[2], data[128..].to_vec());
}

#[test]
fn full_last_packet_is_followed_by_empty_one() {
    let data: Vec<u8> = vec![7; 64];
    let packets = all_packets(ControlInTransfer::new(data.clone()));
    assert_eq!(packets, vec![data, Vec::new()]);
    assert_eq!(all_packets(ControlInTransfer::new(Vec::new())), vec![Vec::<u8>::new()]);
}

#[test]
fn host_out_ends_the_transfer() {
    let mut t = ControlInTransfer::new(vec![1; 100]);
    assert_eq!(t.next_packet(false).map(|p| p.len()), Some(64));
    assert_eq!(t.next_packet(true), None);
    assert!(t.finished());
    assert_eq!(t.next_packet(false), None);
}

#[test]
fn set_and_get_configuration() {
    let mut dev = UsbDevice::new();
    assert!(!dev.is_configured());
    match dev.handle_setup(&setup(0, 9, 1, 0, 0)) {
        ControlAction::Configure(eps) => assert_eq!(eps, gamepad_endpoints()),
        _ => panic!("expected configure"),
    }
    assert_eq!(dev.configuration, 1);
    assert!(dev.is_configured());
    match dev.handle_setup(&setup(0x80, 8, 0, 0, 1)) {
        ControlAction::Reply(v) => assert_eq!(v, vec![1]),
        _ => panic!("expected reply"),
    }
    dev.on_bus_reset();
    assert_eq!(dev, UsbDevice { configuration: 0, idle_rate: 0, protocol: 1 });
}

#[test]
fn set_address_keeps_seven_bits() {
    let mut dev = UsbDevice::new();
    assert!(matches!(dev.handle_setup(&setup(0, 5, 0x0012, 0, 0)), ControlAction::SetAddress(0x12)));
    assert!(matches!(dev.handle_setup(&setup(0, 5, 0x0085, 0, 0)), ControlAction::SetAddress(0x05)));
}

#[test]
fn status_idle_and_protocol() {
    let mut dev = UsbDevice::new();
    match dev.handle_setup(&setup(0x80, 0, 0, 0, 2)) {
        ControlAction::Reply(v) => assert_eq!(v, vec![0, 0]),
        _ => panic!("expected reply"),
    }
    assert!(matches!(dev.handle_setup(&setup(0x21, 10, 0x7D00, 0, 0)), ControlAction::Acknowledge));
    assert_eq!(dev.idle_rate, 0x7D);
    assert!(matches!(dev.handle_setup(&setup(0x21, 11, 0x0000, 0, 0)), ControlAction::Acknowledge));
    assert_eq!(dev.protocol, 0);
    match dev.handle_setup(&setup(0xA1, 2, 0, 0, 1)) {
        ControlAction::Reply(v) => assert_eq!(v, vec![0x7D]),
        _ => panic!("expected reply"),
    }
    match dev.handle_setup(&setup(0xA1, 3, 0, 0, 1)) {
        ControlAction::Reply(v) => assert_eq!(v, vec![0]),
        _ => panic!("expected reply"),
    }
    assert!(matches!(
        dev.handle_setup(&setup(0x21, 9, 0x0200, 0, 8)),
        ControlAction::ReceiveAndAcknowledge
    ));
    assert!(matches!(dev.handle_setup(&setup(0x80, 1, 0, 0, 0)), ControlAction::Stall));
}

#[test]
fn endpoint_table_parsing() {
    let eps = gamepad_endpoints();
    assert_eq!(
        eps,
        vec![
            EndpointSetup { number: 1, enable: 1, config: Some(EndpointConfig { cfg0: 0xC1, cfg1: 0x32 }) },
            EndpointSetup { number: 2, enable: 0, config: None },
            EndpointSetup { number: 3, enable: 0, config: None },
            EndpointSetup { number: 4, enable: 0, config: None },
        ]
    );
    assert_eq!(configure_endpoints(&vec![1, 0xC1, 0x32, 0, 0]), None);
    assert_eq!(configure_endpoints(&vec![0, 0, 0, 1, 2]), None);
    let two = configure_endpoints(&vec![0, 1, 5, 6, 1, 7, 8, 0]).unwrap();
    assert_eq!(two[1], EndpointSetup { number: 2, enable: 1, config: Some(EndpointConfig { cfg0: 5, cfg1: 6 }) });
    assert_eq!(two[2], EndpointSetup { number: 3, enable: 1, config: Some(EndpointConfig { cfg0: 7, cfg1: 8 }) });
}

#[test]
fn report_push_waits_until_deadline() {
    let report = FightstickDescriptor([1, 2, 3, 4]);
    let mut dev = UsbDevice::new();
    assert!(dev.begin_report(100).is_none());
    dev.handle_setup(&setup(0, 9, 1, 0, 0));
    let push = dev.begin_report(100).unwrap();
    assert_eq!(dev.poll_report(&push, false, 100, &report), PushStep::Wait);
    assert_eq!(dev.poll_report(&push, false, 149, &report), PushStep::Wait);
    assert_eq!(dev.poll_report(&push, false, 150, &report), PushStep::Abort);
    assert_eq!(dev.poll_report(&push, true, 120, &report), PushStep::Send(report));
    dev.on_bus_reset();
    assert_eq!(dev.poll_report(&push, false, 120, &report), PushStep::Abort);
}

#[test]
fn control_wait_gives_up() {
    let mut w = ControlWait::new(2);
    assert_eq!(w.poll(false), WaitStep::Pending);
    assert_eq!(w.poll(false), WaitStep::Pending);
    assert_eq!(w.poll(false), WaitStep::Expired);
    assert_eq!(w.poll(true), WaitStep::Ready);
    let mut w = ControlWait::new(0);
    assert_eq!(w.poll(true), WaitStep::Ready);
    assert_eq!(w.poll(false), WaitStep::Expired);
}

#[test]
fn report_deadline_counts_across_frame_wrap() {
    let report = FightstickDescriptor([1, 2, 3, 4]);
    let mut dev = UsbDevice::new();
    dev.handle_setup(&setup(0, 9, 1, 0, 0));
    let push = dev.begin_report(2000).unwrap();
    assert_eq!(dev.poll_report(&push, false, 2047, &report), PushStep::Wait);
    assert_eq!(dev.poll_report(&push, false, 0, &report), PushStep::Wait);
    assert_eq!(dev.poll_report(&push, false, 1, &report), PushStep::Wait);
    assert_eq!(dev.poll_report(&push, false, 2, &report), PushStep::Abort);
    assert_eq!(dev.poll_report(&push, false, 30, &report), PushStep::Abort);
    assert_eq!(dev.poll_report(&push, true, 2, &report), PushStep::Send(report));
}

#[test]
fn hid_get_report_answers_the_init_bytes() {
    let mut dev = UsbDevice::new();
    match dev.handle_setup(&setup(0xA1, 1, 0x0300, 0, 8)) {
        ControlAction::Reply(v) => assert_eq!(v, vec![0x21, 0x26, 0x01, 0x07, 0x00, 0x00, 0x00, 0x00]),
        _ => panic!("expected reply"),
    }
    assert_eq!(dev, UsbDevice::new());
}
