use envsensor::rydason::{
    decode_query_rsp, scale_request, type_request, unit_request, QueryReq, Rydason, Value,
    FUNC_READ_REGISTERS, RYDASON_DEFAULT_ADDR,
};
use envsensor::sensor::{SensorDriver, SensorError, SensorType, Unit};
use envsensor::textfmt::scaled_string;

const CRC16: crc::Crc<u16> = crc::Crc::<u16>::new(&crc::CRC_16_MODBUS);

/// A response body with its little-endian CRC-16/MODBUS appended.
fn with_crc(body: &[u8]) -> Vec<u8> {
    let crc = CRC16.checksum(body);
    let mut v = body.to_vec();
    v.push((crc & 0xFF) as u8);
    v.push((crc >> 8) as u8);
    v
}

fn u16_response(addr: u8, value: u16) -> Vec<u8> {
    with_crc(&[addr, 0x03, 0x02, (value >> 8) as u8, (value & 0xFF) as u8])
}

fn u32_response(addr: u8, value: u32) -> Vec<u8> {
    with_crc(&[
        addr,
        0x03,
        0x04,
        (value >> 24) as u8,
        ((value >> 16) & 0xFF) as u8,
        ((value >> 8) & 0xFF) as u8,
        (value & 0xFF) as u8,
    ])
}

#[test]
fn request_checksum_matches_crc16_modbus() {
    let req = QueryReq { addr: 1, func: FUNC_READ_REGISTERS, reg: 0x0101, value: 0x0001 };
    let frame = req.encode();
    assert_eq!(frame.len(), 8);
    assert_eq!(&frame[..6], &[0x01, 0x03, 0x01, 0x01, 0x00, 0x01]);
    let crc = CRC16.checksum(&frame[..6]);
    assert_eq!(frame[6], (crc & 0xFF) as u8);
    assert_eq!(frame[7], (crc >> 8) as u8);
}

#[test]
fn register_request_frames() {
    let t = type_request(1);
    assert_eq!(&t[..6], &[0x01, 0x03, 0x01, 0x01, 0x00, 0x01]);
    let u = unit_request(1);
    assert_eq!(&u[..6], &[0x01, 0x03, 0x01, 0x02, 0x00, 0x01]);
    let s = scale_request(1);
    assert_eq!(&s[..6], &[0x01, 0x03, 0x01, 0x03, 0x00, 0x01]);
    for frame in [t, u, s] {
        let crc = CRC16.checksum(&frame[..6]);
        assert_eq!(frame[6], (crc & 0xFF) as u8);
        assert_eq!(frame[7], (crc >> 8) as u8);
    }
}

#[test]
fn response_roundtrip_u16_and_u32() {
    let rsp = u16_response(1, 0x0203);
    assert_eq!(decode_query_rsp(&rsp, 1), Ok(Value::U16(0x0203)));

    let rsp = u32_response(1, 0x01020304);
    assert_eq!(decode_query_rsp(&rsp, 1), Ok(Value::U32(0x01020304)));
}

#[test]
fn flipping_any_byte_is_a_crc_mismatch() {
    let rsp = u16_response(1, 0x1234);
    for i in 0..rsp.len() {
        let mut bad = rsp.clone();
        bad[i] ^= 0xFF;
        assert_eq!(
            decode_query_rsp(&bad, 1),
            Err(SensorError::CrcMismatch),
            "flipped byte {i}"
        );
    }
}

#[test]
fn response_shape_errors() {
    assert_eq!(decode_query_rsp(&[0x01, 0x03], 1), Err(SensorError::BadFrameLength));

    let other_addr = u16_response(2, 7);
    assert_eq!(decode_query_rsp(&other_addr, 1), Err(SensorError::BadAddress));

    let bad_len_field = with_crc(&[0x01, 0x03, 0x03, 0x00, 0x07]);
    assert_eq!(decode_query_rsp(&bad_len_field, 1), Err(SensorError::UnexpectedReply));
}

#[test]
fn value_width_accessors() {
    assert_eq!(Value::U16(7).as_u16(), Ok(7));
    assert_eq!(Value::U16(7).as_u32(), Err(SensorError::WrongValueWidth));
    assert_eq!(Value::U32(9).as_u32(), Ok(9));
    assert_eq!(Value::U32(9).as_u16(), Err(SensorError::WrongValueWidth));
}

#[test]
fn initialization_builds_the_driver() {
    let d = Rydason::from_responses(
        1,
        &u16_response(1, 1), // sensor type: CO
        &u16_response(1, 2), // unit: ppm
        &u16_response(1, 3), // scale exponent: divisor 1000
    )
    .unwrap();
    assert!(matches!(d.sensor_type, SensorType::CO));
    assert_eq!(d.scale, 1000);
    assert_eq!(d.scale_exp, 3);
    let meta = d.get_metadata();
    assert_eq!(meta.len(), 1);
    assert!(matches!(meta[0].sensor_type, SensorType::CO));
    assert!(matches!(meta[0].unit, Unit::PPM));

    let ppb = Rydason::from_responses(1, &u16_response(1, 1), &u16_response(1, 1), &u16_response(1, 0))
        .unwrap();
    assert!(matches!(ppb.get_metadata()[0].unit, Unit::PPB));
    assert_eq!(ppb.scale, 1);
}

#[test]
fn initialization_register_errors() {
    let t = u16_response(1, 1);
    let u = u16_response(1, 2);
    let s = u16_response(1, 3);

    let bad_type = Rydason::from_responses(1, &u16_response(1, 5), &u, &s);
    assert_eq!(bad_type.err(), Some(SensorError::UnknownTypeCode));

    let bad_unit = Rydason::from_responses(1, &t, &u16_response(1, 9), &s);
    assert_eq!(bad_unit.err(), Some(SensorError::UnknownUnitCode));

    let bad_scale = Rydason::from_responses(1, &t, &u, &u16_response(1, 10));
    assert_eq!(bad_scale.err(), Some(SensorError::ScaleOutOfRange));

    let wide_type = Rydason::from_responses(1, &u32_response(1, 1), &u, &s);
    assert_eq!(wide_type.err(), Some(SensorError::WrongValueWidth));
}

#[test]
fn raw_4500_with_divisor_1000_reads_4_5() {
    let d = Rydason::from_responses(
        1,
        &u16_response(1, 1),
        &u16_response(1, 2),
        &u16_response(1, 3),
    )
    .unwrap();
    let value = d.decode_measured_value(&u32_response(1, 4500)).unwrap();
    assert_eq!(value.raw, 4500);
    assert_eq!(value.exp, 3);
    assert_eq!(scaled_string(value.raw, value.exp), "4.5");
}

#[test]
fn measurement_needs_the_wide_value() {
    let d = Rydason::from_responses(
        1,
        &u16_response(1, 1),
        &u16_response(1, 2),
        &u16_response(1, 0),
    )
    .unwrap();
    assert_eq!(
        d.decode_measured_value(&u16_response(1, 4500)),
        Err(SensorError::WrongValueWidth)
    );
}

#[test]
fn rydason_driver_surface() {
    let d = Rydason::from_responses(
        RYDASON_DEFAULT_ADDR,
        &u16_response(RYDASON_DEFAULT_ADDR, 1),
        &u16_response(RYDASON_DEFAULT_ADDR, 2),
        &u16_response(RYDASON_DEFAULT_ADDR, 3),
    )
    .unwrap();
    assert!(matches!(Rydason::model(), envsensor::sensor::SensorModel::RYDASON));
    assert_eq!(d.response_len(), 9);
    assert_eq!(d.pacing_delay_ms(), 1000);
    assert!(d.initialize_request().is_none());
    let req = d.read_request().unwrap();
    assert_eq!(&req[..6], &[0x01, 0x03, 0x01, 0x08, 0x00, 0x02]);

    let readings = d.decode_sample(&u32_response(RYDASON_DEFAULT_ADDR, 12345)).unwrap();
    assert_eq!(readings.len(), d.get_metadata().len());
    assert_eq!(readings[0].value.raw, 12345);
    assert_eq!(scaled_string(readings[0].value.raw, readings[0].value.exp), "12.345");
}
