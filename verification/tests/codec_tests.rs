use modbus_logger::codec::{decode, float_bits, integer_value, SampleValue};
use modbus_logger::config::{ModbusValueType, RegisterBank};

fn as_float(value: SampleValue) -> f32 {
    match value {
        SampleValue::FloatBits(bits) => f32::from_bits(bits),
        SampleValue::Integer(n) => panic!("expected a float, got the integer {n}"),
    }
}

#[test]
fn float_bits_puts_the_first_register_on_top() {
    assert_eq!(float_bits(0x4049, 0x0FDB), 0x4049_0FDB);
    assert_eq!(float_bits(0x0001, 0x0000), 0x0001_0000);
    assert_eq!(float_bits(0x0000, 0x0001), 0x0000_0001);
    assert_eq!(float_bits(0xFFFF, 0xFFFF), 0xFFFF_FFFF);
    assert_eq!(float_bits(0, 0), 0);
}

#[test]
fn float_bits_of_pi_registers_read_as_pi() {
    let value = f32::from_bits(float_bits(0x4049, 0x0FDB));
    assert_eq!(value, std::f32::consts::PI);
    assert!((value - 3.14159).abs() < 1e-5);
}

#[test]
fn float_bits_is_a_reinterpretation_not_a_conversion() {
    // 0x3F80_0000 is the encoding of 1.0; the number 1065353216 is not the result.
    assert_eq!(f32::from_bits(float_bits(0x3F80, 0x0000)), 1.0);
    assert_eq!(f32::from_bits(float_bits(0x4000, 0x0000)), 2.0);
    assert_eq!(f32::from_bits(float_bits(0xBF80, 0x0000)), -1.0);
    assert!(f32::from_bits(float_bits(0x7FC0, 0x0000)).is_nan());
    assert_eq!(f32::from_bits(float_bits(0x7F80, 0x0000)), f32::INFINITY);
}

#[test]
fn float_bits_agrees_with_byte_reassembly_everywhere_sampled() {
    let mut hi: u32 = 0;
    while hi <= 0xFFFF {
        let mut lo: u32 = 0;
        while lo <= 0xFFFF {
            let word = float_bits(hi as u16, lo as u16);
            assert_eq!(word, (hi << 16) | lo);
            assert_eq!(word.to_ne_bytes(), f32::from_bits(word).to_ne_bytes());
            lo += 0x0F0F;
        }
        hi += 0x0101;
    }
}

#[test]
fn decode_is_deterministic() {
    let raw = [0x4049u16, 0x0FDB];
    let first = decode(ModbusValueType::RealHolding, &raw);
    let second = decode(ModbusValueType::RealHolding, &raw);
    assert_eq!(first, second);
    assert_eq!(first, SampleValue::FloatBits(0x4049_0FDB));
}

#[test]
fn decode_float_kinds_take_two_registers() {
    assert_eq!(as_float(decode(ModbusValueType::RealHolding, &[0x3F80, 0x0000])), 1.0);
    assert_eq!(as_float(decode(ModbusValueType::RealInput, &[0x4000, 0x0000])), 2.0);
    assert_eq!(
        decode(ModbusValueType::RealInput, &[0x1234, 0xABCD]),
        SampleValue::FloatBits(0x1234_ABCD)
    );
}

#[test]
fn decode_integer_is_unsigned() {
    assert_eq!(decode(ModbusValueType::IntHolding, &[0xFFFF]), SampleValue::Integer(65535));
    assert_eq!(decode(ModbusValueType::IntInput, &[0xFFFF]), SampleValue::Integer(65535));
    assert_eq!(decode(ModbusValueType::IntHolding, &[0x8000]), SampleValue::Integer(32768));
    assert_eq!(decode(ModbusValueType::IntHolding, &[0]), SampleValue::Integer(0));
    assert_eq!(decode(ModbusValueType::IntInput, &[1234]), SampleValue::Integer(1234));
}

#[test]
fn integer_value_widens_every_register() {
    let mut register: u32 = 0;
    while register <= 0xFFFF {
        assert_eq!(integer_value(register as u16), register as i64);
        register += 1;
    }
    assert_ne!(integer_value(0xFFFF), -1);
}

#[test]
fn decode_coil_yields_zero_or_one() {
    assert_eq!(decode(ModbusValueType::Coil, &[0]), SampleValue::Integer(0));
    assert_eq!(decode(ModbusValueType::Coil, &[1]), SampleValue::Integer(1));
    assert_eq!(decode(ModbusValueType::Coil, &[0xFF00]), SampleValue::Integer(1));
}

#[test]
fn register_count_is_two_for_floats_only() {
    assert_eq!(ModbusValueType::IntInput.register_count(), 1);
    assert_eq!(ModbusValueType::IntHolding.register_count(), 1);
    assert_eq!(ModbusValueType::Coil.register_count(), 1);
    assert_eq!(ModbusValueType::RealInput.register_count(), 2);
    assert_eq!(ModbusValueType::RealHolding.register_count(), 2);
}

#[test]
fn bank_follows_the_value_kind() {
    assert_eq!(ModbusValueType::IntInput.bank(), RegisterBank::Input);
    assert_eq!(ModbusValueType::RealInput.bank(), RegisterBank::Input);
    assert_eq!(ModbusValueType::IntHolding.bank(), RegisterBank::Holding);
    assert_eq!(ModbusValueType::RealHolding.bank(), RegisterBank::Holding);
    assert_eq!(ModbusValueType::Coil.bank(), RegisterBank::Coil);
}
