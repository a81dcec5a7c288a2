use razer_control_gui::{bho_to_byte, byte_to_bho};

#[test]
fn byte_to_bho_splits_flag_and_threshold() {
    assert_eq!(byte_to_bho(0x85), (true, 5));
    assert_eq!(byte_to_bho(0x50), (false, 80));
    assert_eq!(byte_to_bho(0xff), (true, 127));
    assert_eq!(byte_to_bho(0x00), (false, 0));
}

#[test]
fn bho_to_byte_sets_top_bit_when_on() {
    assert_eq!(bho_to_byte(true, 80), 0xd0);
    assert_eq!(bho_to_byte(false, 80), 80);
    assert_eq!(bho_to_byte(true, 200), 200);
}

#[test]
fn bho_roundtrip_for_seven_bit_thresholds() {
    for t in 0u8..128 {
        for on in [false, true] {
            assert_eq!(byte_to_bho(bho_to_byte(on, t)), (on, t));
        }
    }
}

#[test]
fn bho_roundtrip_fails_above_seven_bits() {
    assert_eq!(byte_to_bho(bho_to_byte(false, 200)), (true, 72));
}

#[test]
fn bho_byte_roundtrip_for_every_byte() {
    for u in 0u8..=255 {
        let (on, t) = byte_to_bho(u);
        assert_eq!(bho_to_byte(on, t), u);
    }
}
