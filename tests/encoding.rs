use ofs_support::controller::{build_fightstick_data, determine_axis, select_lines};
use ofs_support::fightstick::{decode_axis, encode_axis, Fightstick, FightstickDescriptor};
use ofs_support::usart::{UsartCommand, INTRODUCTION, SEND_DATA, UNKNOWN};

fn stick_from_bits(x: i8, y: i8, bits: u16) -> Fightstick {
    let b = |i: u16| bits & (1 << i) != 0;
    Fightstick {
        x,
        y,
        button_0: b(0),
        button_1: b(1),
        button_2: b(2),
        button_3: b(3),
        button_4: b(4),
        button_5: b(5),
        button_6: b(6),
        button_7: b(7),
        button_8: b(8),
        button_9: b(9),
        button_10: b(10),
    }
}

#[test]
fn axis_encoding_exact_values() {
    assert_eq!(encode_axis(0), 127);
    assert_eq!(encode_axis(127), 254);
    assert_eq!(encode_axis(-127), 0);
    assert_eq!(encode_axis(-100), 27);
    assert_eq!(encode_axis(-128), 255);
    assert_eq!(decode_axis(127), 0);
    assert_eq!(decode_axis(254), 127);
    assert_eq!(decode_axis(0), -127);
    assert_eq!(decode_axis(255), -128);
}

#[test]
fn axis_round_trip_over_the_range() {
    for v in -127i8..=127 {
        assert_eq!(decode_axis(encode_axis(v)), v);
        assert_eq!(encode_axis(v) as i16, v as i16 + 127);
    }
}

#[test]
fn button_packing_round_trip_all_vectors() {
    for bits in 0u16..(1 << 11) {
        let stick = stick_from_bits(0, 0, bits);
        let lo = stick.get_descriptor_index(2).unwrap();
        let hi = stick.get_descriptor_index(3).unwrap();
        assert_eq!(lo as u16 | (hi as u16) << 8, bits);
        assert_eq!(hi & 0xF8, 0);
        let back = Fightstick::from_descriptor(&stick.to_descriptor());
        assert_eq!(back, stick);
    }
}

#[test]
fn descriptor_index_past_the_end_is_none() {
    let stick = stick_from_bits(5, -5, 0x7FF);
    assert_eq!(stick.get_descriptor_index(4), None);
    assert_eq!(stick.get_descriptor_index(255), None);
    assert_eq!(stick.get_descriptor_index(0), Some(132));
    assert_eq!(stick.get_descriptor_index(1), Some(122));
    assert_eq!(stick.get_descriptor_index(2), Some(0xFF));
    assert_eq!(stick.get_descriptor_index(3), Some(0x07));
}

#[test]
fn frame_encoding_example() {
    let stick = Fightstick {
        x: -100,
        y: 0,
        button_0: true,
        button_1: true,
        button_2: true,
        button_3: false,
        button_4: false,
        button_5: true,
        button_6: true,
        button_7: true,
        button_8: true,
        button_9: false,
        button_10: true,
    };
    let d: FightstickDescriptor = stick.into();
    assert_eq!(d.0, [27, 127, 0b1110_0111, 0b0000_0101]);
    assert_eq!(Fightstick::from_descriptor(&d), stick);
}

#[test]
fn idle_and_default_descriptors() {
    assert_eq!(FightstickDescriptor::idle().0, [127, 127, 0, 0]);
    assert_eq!(FightstickDescriptor::default().0, [0, 0, 0, 0]);
    let idle: FightstickDescriptor = Fightstick::default().into();
    assert_eq!(idle, FightstickDescriptor::idle());
}

#[test]
fn send_data_message_prefixes_the_command() {
    let d = FightstickDescriptor([1, 2, 3, 4]);
    assert_eq!(d.build_send_data_message(), [SEND_DATA, 1, 2, 3, 4]);
}

#[test]
fn command_codes() {
    assert_eq!(UsartCommand::from(0x30u8), UsartCommand::Introduction);
    assert_eq!(UsartCommand::from(0x31u8), UsartCommand::SendData);
    assert_eq!(UsartCommand::from(0x00u8), UsartCommand::Unknown);
    assert_eq!(UsartCommand::from(0x32u8), UsartCommand::Unknown);
    let b: u8 = UsartCommand::Introduction.into();
    assert_eq!(b, INTRODUCTION);
    let b: u8 = UsartCommand::SendData.into();
    assert_eq!(b, SEND_DATA);
    let b: u8 = UsartCommand::Unknown.into();
    assert_eq!(b, UNKNOWN);
}

#[test]
fn axis_from_opposite_switches() {
    assert_eq!(determine_axis(true, false), 127);
    assert_eq!(determine_axis(false, true), -127);
    assert_eq!(determine_axis(true, true), 0);
    assert_eq!(determine_axis(false, false), 0);
}

#[test]
fn select_lines_of_each_group() {
    assert_eq!(select_lines(0), (false, false));
    assert_eq!(select_lines(1), (true, false));
    assert_eq!(select_lines(2), (false, true));
    assert_eq!(select_lines(3), (true, true));
}

#[test]
fn matrix_scan_with_nothing_pressed() {
    // Buttons read high when released; joystick lines read low when released.
    let groups = [[true, true, false, true]; 4];
    let stick = build_fightstick_data(Some(groups));
    assert_eq!(stick, Fightstick::default());
}

#[test]
fn matrix_scan_maps_each_line() {
    let mut groups = [[true, true, false, true]; 4];
    groups[2][2] = true; // joystick left
    groups[0][2] = true; // joystick up
    groups[0][1] = false; // button 0
    groups[1][1] = false; // button 9
    groups[0][3] = false; // start, button 8
    let stick = build_fightstick_data(Some(groups));
    assert_eq!(stick.x, 127);
    assert_eq!(stick.y, 127);
    assert!(stick.button_0 && stick.button_9 && stick.button_8);
    assert!(!stick.button_1 && !stick.button_2 && !stick.button_3 && !stick.button_4);
    assert!(!stick.button_5 && !stick.button_6 && !stick.button_7 && !stick.button_10);
}

#[test]
fn matrix_scan_without_port() {
    let stick = build_fightstick_data(None);
    let mut expected = Fightstick::default();
    expected.button_1 = true;
    assert_eq!(stick, expected);
}
