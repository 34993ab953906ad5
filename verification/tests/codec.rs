use wasmcore::codec::{push_u32, push_u64, read_args, read_slot, read_u32, read_u64, write_value, SLOT_SIZE};
use wasmcore::error::HostError;
use wasmcore::value::{Value, ValueType};

#[test]
fn slot_size_is_eight() {
    assert_eq!(SLOT_SIZE, 8);
}

#[test]
fn reads_little_endian_words() {
    let buf = [0x39u8, 0x05, 0x00, 0x00, 0x01, 0x02, 0x03, 0x04, 0xff];
    assert_eq!(read_u32(&buf, 0), 1337);
    assert_eq!(read_u32(&buf, 4), 0x0403_0201);
    assert_eq!(read_u32(&buf, 5), 0xff04_0302);
    assert_eq!(read_u64(&buf, 0), 0x0403_0201_0000_0539);
    assert_eq!(read_u64(&buf, 1), 0xff04_0302_0100_0005);
}

#[test]
fn writes_little_endian_words() {
    let mut out = vec![9u8];
    push_u32(&mut out, 0x0403_0201);
    assert_eq!(out, vec![9, 1, 2, 3, 4]);
    push_u64(&mut out, 0x0807_0605_0403_0201);
    assert_eq!(out, vec![9, 1, 2, 3, 4, 1, 2, 3, 4, 5, 6, 7, 8]);
}

#[test]
fn a_result_is_written_in_its_own_width() {
    assert_eq!(write_value(Value::I32(1337)), vec![0x39, 0x05, 0x00, 0x00]);
    assert_eq!(write_value(Value::I32(-5)), vec![0xfb, 0xff, 0xff, 0xff]);
    assert_eq!(write_value(Value::I32(i32::MIN)), vec![0x00, 0x00, 0x00, 0x80]);
    assert_eq!(write_value(Value::I64(-2)), vec![0xfe, 0xff, 0xff, 0xff, 0xff, 0xff, 0xff, 0xff]);
    assert_eq!(
        write_value(Value::I64(0x0102_0304_0506_0708)),
        vec![0x08, 0x07, 0x06, 0x05, 0x04, 0x03, 0x02, 0x01]
    );
    assert_eq!(write_value(Value::F32(1.5f32.to_bits())), 1.5f32.to_le_bytes().to_vec());
    assert_eq!(write_value(Value::F64((-0.25f64).to_bits())), (-0.25f64).to_le_bytes().to_vec());
}

#[test]
fn a_slot_is_read_at_the_type_asked_for() {
    let slot = [0xfbu8, 0xff, 0xff, 0xff, 0x11, 0x22, 0x33, 0x44];
    assert_eq!(read_slot(ValueType::I32, &slot, 0), Value::I32(-5));
    assert_eq!(read_slot(ValueType::F32, &slot, 0), Value::F32(0xffff_fffb));
    assert_eq!(read_slot(ValueType::I64, &slot, 0), Value::I64(0x4433_2211_ffff_fffb));
    assert_eq!(read_slot(ValueType::F64, &slot, 0), Value::F64(0x4433_2211_ffff_fffb));
}

#[test]
fn padding_of_a_narrow_slot_is_ignored() {
    let clean = [7u8, 0, 0, 0, 0, 0, 0, 0];
    let dirty = [7u8, 0, 0, 0, 0xde, 0xad, 0xbe, 0xef];
    assert_eq!(read_slot(ValueType::I32, &clean, 0), read_slot(ValueType::I32, &dirty, 0));
    assert_eq!(read_slot(ValueType::F32, &clean, 0), read_slot(ValueType::F32, &dirty, 0));
    assert_ne!(read_slot(ValueType::I64, &clean, 0), read_slot(ValueType::I64, &dirty, 0));
}

#[test]
fn arguments_follow_the_parameter_list() {
    let mut buf = Vec::new();
    buf.extend_from_slice(&132u64.to_le_bytes());
    buf.extend_from_slice(&120u64.to_le_bytes());
    let args = read_args(&vec![ValueType::I32, ValueType::I32], &buf).unwrap();
    assert_eq!(args, vec![Value::I32(132), Value::I32(120)]);

    let mut mixed = Vec::new();
    mixed.extend_from_slice(&(-1i64).to_le_bytes());
    mixed.extend_from_slice(&2.5f64.to_le_bytes());
    mixed.extend_from_slice(&(-7i64).to_le_bytes());
    mixed.extend_from_slice(&[0, 0, 0x80, 0x3f, 1, 1, 1, 1]);
    let types = vec![ValueType::I32, ValueType::F64, ValueType::I64, ValueType::F32];
    assert_eq!(
        read_args(&types, &mixed).unwrap(),
        vec![
            Value::I32(-1),
            Value::F64(2.5f64.to_bits()),
            Value::I64(-7),
            Value::F32(1.0f32.to_bits())
        ]
    );
}

#[test]
fn no_parameters_need_no_buffer() {
    assert_eq!(read_args(&vec![], &[]).unwrap(), vec![]);
    assert_eq!(read_args(&vec![], &[1, 2, 3]).unwrap(), vec![]);
}

#[test]
fn slots_beyond_the_parameters_are_ignored() {
    let mut buf = Vec::new();
    buf.extend_from_slice(&5u64.to_le_bytes());
    buf.extend_from_slice(&6u64.to_le_bytes());
    buf.extend_from_slice(&[1, 2, 3]);
    assert_eq!(read_args(&vec![ValueType::I64], &buf).unwrap(), vec![Value::I64(5)]);
}

#[test]
fn too_few_slots_are_an_arity_underflow() {
    let one = 1u64.to_le_bytes();
    assert_eq!(read_args(&vec![ValueType::I32, ValueType::I32], &one), Err(HostError::ArityUnderflow));
    assert_eq!(read_args(&vec![ValueType::I32], &one[..7]), Err(HostError::ArityUnderflow));
    assert_eq!(read_args(&vec![ValueType::I32], &one[..4]), Err(HostError::ArityUnderflow));
    assert_eq!(read_args(&vec![ValueType::I64], &[]), Err(HostError::ArityUnderflow));
    assert!(read_args(&vec![ValueType::I32], &one).is_ok());
}

#[test]
fn what_is_written_reads_back() {
    let values = [
        Value::I32(0),
        Value::I32(-1),
        Value::I32(i32::MAX),
        Value::I32(i32::MIN),
        Value::I64(i64::MIN),
        Value::I64(0x1234_5678_9abc_def0),
        Value::F32(f32::NAN.to_bits()),
        Value::F32(0x7fc0_0001),
        Value::F64(f64::NEG_INFINITY.to_bits()),
        Value::F64(0x7ff8_0000_0000_0001),
    ];
    for v in values {
        let mut slot = write_value(v);
        assert_eq!(slot.len(), v.value_type().width());
        while slot.len() < 8 {
            slot.push(0xaa);
        }
        assert_eq!(read_slot(v.value_type(), &slot, 0), v);
    }
}

#[test]
fn widths_are_four_and_eight() {
    assert_eq!(ValueType::I32.width(), 4);
    assert_eq!(ValueType::F32.width(), 4);
    assert_eq!(ValueType::I64.width(), 8);
    assert_eq!(ValueType::F64.width(), 8);
    assert_eq!(Value::I32(1).value_type(), ValueType::I32);
    assert_eq!(Value::I64(1).value_type(), ValueType::I64);
    assert_eq!(Value::F32(1).value_type(), ValueType::F32);
    assert_eq!(Value::F64(1).value_type(), ValueType::F64);
}
