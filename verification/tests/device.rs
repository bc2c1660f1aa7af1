use gcadapter::rumble::Rumbler;

#[test]
fn rumble_command_carries_one_status_byte_per_port() {
    assert_eq!(Rumbler::command([false, false, false, false]), [0x11, 0, 0, 0, 0]);
    assert_eq!(Rumbler::command([true, false, true, false]), [0x11, 1, 0, 1, 0]);
    assert_eq!(Rumbler::command([true, true, true, true]), [0x11, 1, 1, 1, 1]);
}
