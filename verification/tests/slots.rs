use gcadapter::adapter::{Adapter, DriverError};
use gcadapter::input::{PAYLOAD_SIZE, REPORT_TAG};
use gcadapter::slots::CalibrationSlots;

fn report_with_port_one(status: u8, stick_x: u8) -> [u8; PAYLOAD_SIZE] {
    let mut payload = [0u8; PAYLOAD_SIZE];
    payload[0] = REPORT_TAG;
    payload[1] = status;
    payload[4] = stick_x;
    payload[5] = 0x80;
    payload[6] = 0x80;
    payload[7] = 0x80;
    payload
}

#[test]
fn connected_port_is_baselined_from_first_sample() {
    let mut slots = CalibrationSlots::new();

    // Connection poll: raw stick 0x85 becomes the baseline, so the
    // first corrected sample lands exactly on the nominal center.
    let first = slots.process(&report_with_port_one(0x10, 0x85));
    let input = first[0].expect("port one is connected");
    assert_eq!(input.stick_x, 0x80);
    assert!(first[1].is_none());
    assert!(first[2].is_none());
    assert!(first[3].is_none());

    // Later poll: raw 0x90 with delta -5 corrects to 0x8B.
    let second = slots.process(&report_with_port_one(0x10, 0x90));
    let input = second[0].expect("port one is still connected");
    assert_eq!(input.stick_x, 0x8B);
}

#[test]
fn wireless_status_counts_as_connected() {
    let mut slots = CalibrationSlots::new();
    let inputs = slots.process(&report_with_port_one(0x20, 0x80));
    assert!(inputs[0].is_some());
}

#[test]
fn disconnected_ports_yield_nothing() {
    let mut slots = CalibrationSlots::new();
    let mut payload = [0u8; PAYLOAD_SIZE];
    payload[0] = REPORT_TAG;
    let inputs = slots.process(&payload);
    assert!(inputs.iter().all(|input| input.is_none()));
}

#[test]
fn disconnect_clears_calibration_and_reconnect_rebaselines() {
    let mut slots = CalibrationSlots::new();

    // First session: baseline raw 0x85 (delta -5).
    let inputs = slots.process(&report_with_port_one(0x10, 0x85));
    assert_eq!(inputs[0].unwrap().stick_x, 0x80);
    let inputs = slots.process(&report_with_port_one(0x10, 0x90));
    assert_eq!(inputs[0].unwrap().stick_x, 0x8B);

    // The port reports disconnected: its calibration is dropped.
    let inputs = slots.process(&report_with_port_one(0x00, 0x90));
    assert!(inputs[0].is_none());

    // Second session: a different baseline raw 0x70 (delta +16), so the
    // same later raw 0x90 now corrects differently: 0x90 + 16 = 0xA0.
    let inputs = slots.process(&report_with_port_one(0x10, 0x70));
    assert_eq!(inputs[0].unwrap().stick_x, 0x80);
    let inputs = slots.process(&report_with_port_one(0x10, 0x90));
    assert_eq!(inputs[0].unwrap().stick_x, 0xA0);
}

#[test]
fn repeated_identical_report_yields_identical_state() {
    let mut slots = CalibrationSlots::new();
    let mut payload = report_with_port_one(0x10, 0x8A);
    payload[2] = 0b0000_1001; // A and Y
    payload[8] = 0x33;

    let first = slots.process(&payload);
    let second = slots.process(&payload);
    assert_eq!(first[0].unwrap(), second[0].unwrap());
}

#[test]
fn short_read_is_a_payload_error() {
    let mut payload = [0u8; PAYLOAD_SIZE];
    payload[0] = REPORT_TAG;
    let result = Adapter::check_payload(PAYLOAD_SIZE - 1, payload);
    assert!(matches!(result, Err(DriverError::Payload)));
}

#[test]
fn wrong_leading_tag_is_a_payload_error() {
    let mut payload = [0u8; PAYLOAD_SIZE];
    payload[0] = REPORT_TAG + 1;
    let result = Adapter::check_payload(PAYLOAD_SIZE, payload);
    assert!(matches!(result, Err(DriverError::Payload)));
}

#[test]
fn well_shaped_report_is_accepted_unchanged() {
    let payload = report_with_port_one(0x10, 0x85);
    let result = Adapter::check_payload(PAYLOAD_SIZE, payload);
    assert_eq!(result.unwrap(), payload);
}
