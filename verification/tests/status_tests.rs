use pet4032::status::{Flag, StatusRegister};

#[test]
fn test_status_new_has_interrupts_disabled() {
    let st = StatusRegister::new();
    assert!(st.get(Flag::InterruptDisable));
    assert!(!st.get(Flag::Carry));
    assert!(!st.get(Flag::Zero));
    assert!(!st.get(Flag::Decimal));
    assert!(!st.get(Flag::Break));
    assert!(!st.get(Flag::Overflow));
    assert!(!st.get(Flag::Negative));
    assert_eq!(st.to_byte(), 0x24);
}

#[test]
fn test_status_byte_always_has_bit5() {
    let mut st = StatusRegister::from_byte(0x00);
    assert_eq!(st.to_byte() & 0x20, 0x20);
    st.set(Flag::Negative, true);
    st.set(Flag::Carry, true);
    assert_eq!(st.to_byte() & 0x20, 0x20);
    assert_eq!(StatusRegister::from_byte(0xFF).to_byte() & 0x20, 0x20);
}

#[test]
fn test_status_round_trip_forces_bit5() {
    // For every byte b, from_byte(b).to_byte() == b | 0x20.
    for b in 0..=255u8 {
        assert_eq!(StatusRegister::from_byte(b).to_byte(), b | 0x20);
    }
}

#[test]
fn test_status_set_and_get() {
    let mut st = StatusRegister::from_byte(0);
    st.set(Flag::Zero, true);
    assert!(st.get(Flag::Zero));
    assert!(!st.get(Flag::Carry));
    st.set(Flag::Zero, false);
    assert!(!st.get(Flag::Zero));
    st.set(Flag::Overflow, true);
    assert_eq!(st.to_byte(), 0x60);
}
