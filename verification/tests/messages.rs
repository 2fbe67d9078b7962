use mocha::ui::WM;

#[test]
fn crack_create_keeps_lparam() {
    assert_eq!(WM::crack(0x0001, 5, 1234), WM::Create(1234));
}

#[test]
fn crack_destroy() {
    assert_eq!(WM::crack(0x0002, 5, 6), WM::Destroy);
}

#[test]
fn crack_command_splits_wparam() {
    assert_eq!(WM::crack(0x0111, 0x0003_0002, 77), WM::Command(3, 2, 77));
}

#[test]
fn crack_command_id_is_signed_low_word() {
    assert_eq!(WM::crack(0x0111, 0x0000_FFFF, 0), WM::Command(0, -1, 0));
    assert_eq!(WM::crack(0x0111, 0x0000_8000, 0), WM::Command(0, i16::MIN, 0));
}

#[test]
fn crack_command_code_is_truncated_to_a_word() {
    let wp: usize = 0x0012_3456_0001usize;
    assert_eq!(WM::crack(0x0111, wp, 0), WM::Command(0x3456, 1, 0));
}

#[test]
fn crack_timer_keeps_id() {
    assert_eq!(WM::crack(0x0113, 42, 0), WM::Timer(42));
}

#[test]
fn crack_user_range_bounds() {
    assert_eq!(WM::crack(0x0400, 1, 2), WM::User(0x0400, 1, 2));
    assert_eq!(WM::crack(0x7FFF, 1, 2), WM::User(0x7FFF, 1, 2));
}

#[test]
fn crack_app_range_bounds() {
    assert_eq!(WM::crack(0x8000, 1, 2), WM::App(0x8000, 1, 2));
    assert_eq!(WM::crack(0xBFFF, 1, 2), WM::App(0xBFFF, 1, 2));
}

#[test]
fn crack_registered_range_bounds() {
    assert_eq!(WM::crack(0xC000, 1, 2), WM::Registered(0xC000, 1, 2));
    assert_eq!(WM::crack(0xFFFF, 1, 2), WM::Registered(0xFFFF, 1, 2));
}

#[test]
fn crack_other_messages_are_unknown() {
    assert_eq!(WM::crack(0x0000, 1, 2), WM::Unknown(0, 1, 2));
    assert_eq!(WM::crack(0x0081, 1, 2), WM::Unknown(0x0081, 1, 2));
    assert_eq!(WM::crack(0x03FF, 1, 2), WM::Unknown(0x03FF, 1, 2));
    assert_eq!(WM::crack(0x1_0000, 1, 2), WM::Unknown(0x1_0000, 1, 2));
}

#[test]
fn command_wparam_round_trips() {
    for (code, id) in [(0u16, 0i16), (1, 2), (0xFFFF, -1), (0x8000, i16::MAX)] {
        let wp = (((code as u32) << 16) | (id as u16 as u32)) as usize;
        assert_eq!(WM::crack(0x0111, wp, 9), WM::Command(code, id, 9));
    }
}
