use mcp23s17::codec::apply_bit;
use mcp23s17::codec::plan_update;
use mcp23s17::codec::decode_bit;
use mcp23s17::codec::GPIOA;
use mcp23s17::codec::GPIOB;
use mcp23s17::codec::GPPUB;
use mcp23s17::codec::IODIRA;
use mcp23s17::codec::IODIRB;
use mcp23s17::model::load;
use mcp23s17::model::run_init;
use mcp23s17::model::set_pin;
use mcp23s17::model::store;
use mcp23s17::render::port_desc;
use mcp23s17::render::render_snapshot;
use mcp23s17::render::u8_decimal;
use mcp23s17::model::ChipState;
use mcp23s17::read_cmd;
use mcp23s17::write_cmd;
use mcp23s17::Expander;
use mcp23s17::ExpanderError;
use mcp23s17::IoValue;
use mcp23s17::PortLabel;

#[test]
fn command_bytes_for_hardware_address_zero() {
    assert_eq!(write_cmd(), 0x40);
    assert_eq!(read_cmd(), 0x41);
}

#[test]
fn register_addresses_match_the_datasheet() {
    assert_eq!(IODIRA, 0x00);
    assert_eq!(IODIRB, 0x01);
    assert_eq!(GPPUB, 0x0D);
    assert_eq!(GPIOA, 0x12);
    assert_eq!(GPIOB, 0x13);
    assert_eq!(PortLabel::Out.address(), 0x12);
    assert_eq!(PortLabel::In.address(), 0x13);
}

#[test]
fn decode_bit_masks_out_a_single_line() {
    assert_eq!(decode_bit(0b0000_0100, 2), IoValue::High);
    assert_eq!(decode_bit(0b1111_1011, 2), IoValue::Low);
    assert_eq!(decode_bit(0x00, 0), IoValue::Low);
    assert_eq!(decode_bit(0x80, 7), IoValue::High);
}

#[test]
fn apply_bit_computes_exact_bytes() {
    assert_eq!(apply_bit(0x00, 0, IoValue::High), 0x01);
    assert_eq!(apply_bit(0xFF, 7, IoValue::Low), 0x7F);
    assert_eq!(apply_bit(0b0101_0101, 1, IoValue::High), 0b0101_0111);
    assert_eq!(apply_bit(0b0101_0101, 0, IoValue::Low), 0b0101_0100);
}

#[test]
fn set_then_read_returns_the_value_set() {
    let samples: [u8; 4] = [0x00, 0xFF, 0xA5, 0x3C];
    for num in 0..8u8 {
        for &value in &[IoValue::Low, IoValue::High] {
            for &byte in &samples {
                assert_eq!(decode_bit(apply_bit(byte, num, value), num), value);
            }
        }
    }
}

#[test]
fn setting_one_line_leaves_the_others_alone() {
    let samples: [u8; 4] = [0x00, 0xFF, 0xA5, 0x3C];
    for i in 0..8u8 {
        for &value in &[IoValue::Low, IoValue::High] {
            for &byte in &samples {
                let after = apply_bit(byte, i, value);
                for j in 0..8u8 {
                    if j != i {
                        assert_eq!(decode_bit(after, j), decode_bit(byte, j));
                    }
                }
            }
        }
    }
}

#[test]
fn second_identical_update_issues_no_write() {
    let s = ChipState { iodir_a: 0, iodir_b: 0xFF, gppu_b: 0xFF, gpio_a: 0, gpio_b: 0 };
    let (s1, wrote1) = set_pin(s, PortLabel::Out, 3, IoValue::High);
    assert!(wrote1);
    assert_eq!(s1.gpio_a, 0b0000_1000);
    let (s2, wrote2) = set_pin(s1, PortLabel::Out, 3, IoValue::High);
    assert!(!wrote2);
    assert_eq!(s2, s1);
}

#[test]
fn update_to_the_held_value_issues_no_write_at_all() {
    let s = ChipState { iodir_a: 0, iodir_b: 0xFF, gppu_b: 0xFF, gpio_a: 0, gpio_b: 0 };
    let (s1, wrote) = set_pin(s, PortLabel::Out, 5, IoValue::Low);
    assert!(!wrote);
    assert_eq!(s1, s);
}

#[test]
fn initialization_clears_the_output_port() {
    let s = ChipState { iodir_a: 0x12, iodir_b: 0x34, gppu_b: 0x56, gpio_a: 0x78, gpio_b: 0x9A };
    let r = run_init(s);
    assert_eq!(load(r, GPIOA), 0);
    assert_eq!(r.gpio_a, 0);
    assert_eq!(r.iodir_a, 0x00);
    assert_eq!(r.iodir_b, 0xFF);
    assert_eq!(r.gppu_b, 0xFF);
    assert_eq!(r.gpio_b, 0x9A);
}

#[test]
fn serialized_updates_of_two_lines_both_land() {
    let s = ChipState { iodir_a: 0, iodir_b: 0xFF, gppu_b: 0xFF, gpio_a: 0, gpio_b: 0 };
    let (s1, _) = set_pin(s, PortLabel::Out, 0, IoValue::High);
    let (s2, _) = set_pin(s1, PortLabel::Out, 1, IoValue::High);
    assert_eq!(s2.gpio_a, 0b0000_0011);
    let (t1, _) = set_pin(s, PortLabel::Out, 1, IoValue::High);
    let (t2, _) = set_pin(t1, PortLabel::Out, 0, IoValue::High);
    assert_eq!(t2.gpio_a, 0b0000_0011);
}

#[test]
fn updates_touch_only_their_own_port() {
    let s = ChipState { iodir_a: 0, iodir_b: 0xFF, gppu_b: 0xFF, gpio_a: 0, gpio_b: 0x55 };
    let (s1, _) = set_pin(s, PortLabel::Out, 2, IoValue::High);
    assert_eq!(s1.gpio_b, 0x55);
    let (s2, _) = set_pin(s, PortLabel::In, 2, IoValue::High);
    assert_eq!(s2.gpio_a, 0);
}

#[test]
fn store_then_load_returns_the_stored_byte() {
    let s = ChipState { iodir_a: 0, iodir_b: 0, gppu_b: 0, gpio_a: 0, gpio_b: 0 };
    for &addr in &[IODIRA, IODIRB, GPPUB, GPIOA, GPIOB] {
        let r = store(s, addr, 0xC3);
        assert_eq!(load(r, addr), 0xC3);
    }
}

#[test]
fn opening_a_missing_device_fails_with_open() {
    let r = Expander::new("/definitely/not/a/spi/device");
    assert!(matches!(r, Err(ExpanderError::Open)));
}

#[test]
fn configuring_a_non_spi_device_fails_with_configure() {
    let r = Expander::new("/dev/null");
    assert!(matches!(r, Err(ExpanderError::Configure)));
}

#[test]
fn plan_update_decides_write_iff_byte_changes() {
    assert_eq!(plan_update(0b0000_0000, 3, IoValue::High), Some(0b0000_1000));
    assert_eq!(plan_update(0b0000_1000, 3, IoValue::High), None);
    assert_eq!(plan_update(0b0000_1000, 3, IoValue::Low), Some(0b0000_0000));
    assert_eq!(plan_update(0b0000_0000, 3, IoValue::Low), None);
    assert_eq!(plan_update(0xFF, 0, IoValue::Low), Some(0xFE));
    assert_eq!(plan_update(0xFF, 7, IoValue::High), None);
}

#[test]
fn decimal_rendering_is_exact() {
    assert_eq!(u8_decimal(0), "0");
    assert_eq!(u8_decimal(7), "7");
    assert_eq!(u8_decimal(10), "10");
    assert_eq!(u8_decimal(42), "42");
    assert_eq!(u8_decimal(99), "99");
    assert_eq!(u8_decimal(100), "100");
    assert_eq!(u8_decimal(255), "255");
}

#[test]
fn port_description_substitutes_the_sentinel() {
    assert_eq!(port_desc(Ok(13)), "13");
    assert_eq!(port_desc(Err(ExpanderError::Transaction)), "NONE");
}

#[test]
fn snapshot_frame_is_exact() {
    let in_part = port_desc(Ok(5));
    let out_part = port_desc(Err(ExpanderError::Transaction));
    assert_eq!(render_snapshot(&in_part, &out_part), "{ In: 5, Out: NONE }");
}
