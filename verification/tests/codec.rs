use gcadapter::input::{Input, PAYLOAD_SIZE, REPORT_TAG};
use gcadapter::port::Port;

fn empty_report() -> [u8; PAYLOAD_SIZE] {
    let mut payload = [0u8; PAYLOAD_SIZE];
    payload[0] = REPORT_TAG;
    payload
}

#[test]
fn decode_same_buffer_twice_is_identical() {
    let mut payload = empty_report();
    // Port one: wired, a few buttons, distinctive analog bytes.
    payload[1] = 0x10;
    payload[2] = 0b0000_0101; // A and X
    payload[3] = 0b0000_1010; // Z and L
    payload[4] = 0x85;
    payload[5] = 0x7B;
    payload[6] = 0x80;
    payload[7] = 0x81;
    payload[8] = 0x02;
    payload[9] = 0xFE;

    let first = Input::parse(&payload, Port::One);
    let second = Input::parse(&payload, Port::One);
    assert_eq!(first, second);
}

#[test]
fn decode_bit_layout_of_first_status_byte() {
    let mut payload = empty_report();
    payload[1] = 0x10;
    payload[2] = 0b1010_0101; // A, X, D-right, D-up

    let input = Input::parse(&payload, Port::One);
    assert!(input.button_a);
    assert!(!input.button_b);
    assert!(input.button_x);
    assert!(!input.button_y);
    assert!(!input.button_left);
    assert!(input.button_right);
    assert!(!input.button_down);
    assert!(input.button_up);
}

#[test]
fn decode_bit_layout_of_second_status_byte() {
    let mut payload = empty_report();
    payload[1] = 0x10;
    payload[3] = 0b0000_0110; // Z and digital R

    let input = Input::parse(&payload, Port::One);
    assert!(!input.button_start);
    assert!(input.button_z);
    assert!(input.button_r);
    assert!(!input.button_l);
}

#[test]
fn decode_analog_bytes_per_port_stride() {
    let mut payload = empty_report();
    // Port three starts at offset 1 + 9 * 2 = 19.
    payload[19] = 0x20;
    payload[22] = 0x11;
    payload[23] = 0x22;
    payload[24] = 0x33;
    payload[25] = 0x44;
    payload[26] = 0x55;
    payload[27] = 0x66;

    let input = Input::parse(&payload, Port::Three);
    assert_eq!(input.stick_x, 0x11);
    assert_eq!(input.stick_y, 0x22);
    assert_eq!(input.substick_x, 0x33);
    assert_eq!(input.substick_y, 0x44);
    assert_eq!(input.trigger_left, 0x55);
    assert_eq!(input.trigger_right, 0x66);
}

#[test]
fn default_input_is_resting_state() {
    let input = Input::default();
    assert!(!input.button_a);
    assert!(!input.button_b);
    assert!(!input.button_x);
    assert!(!input.button_y);
    assert!(!input.button_left);
    assert!(!input.button_right);
    assert!(!input.button_down);
    assert!(!input.button_up);
    assert!(!input.button_start);
    assert!(!input.button_z);
    assert!(!input.button_r);
    assert!(!input.button_l);
    assert_eq!(input.stick_x, 0x80);
    assert_eq!(input.stick_y, 0x80);
    assert_eq!(input.substick_x, 0x80);
    assert_eq!(input.substick_y, 0x80);
    assert_eq!(input.trigger_left, 0x00);
    assert_eq!(input.trigger_right, 0x00);
}

#[test]
fn ports_enumerate_their_channels() {
    assert_eq!(Port::One.channel(), 0);
    assert_eq!(Port::Two.channel(), 1);
    assert_eq!(Port::Three.channel(), 2);
    assert_eq!(Port::Four.channel(), 3);

    let all = Port::all();
    assert_eq!(all.len(), 4);
    for (i, port) in all.iter().enumerate() {
        assert_eq!(port.channel(), i);
    }
}
