use envsensor::nextpm::NextPM;
use envsensor::sensor::{SensorDriver, SensorError, SensorType, Unit};
use envsensor::textfmt::scaled_string;

fn reading_frame(pm1: u16, pm2_5: u16, pm10: u16) -> [u8; 16] {
    let mut f = [0u8; 16];
    f[0] = 0x81;
    f[1] = 0x11;
    f[9] = (pm1 >> 8) as u8;
    f[10] = (pm1 & 0xFF) as u8;
    f[11] = (pm2_5 >> 8) as u8;
    f[12] = (pm2_5 & 0xFF) as u8;
    f[13] = (pm10 >> 8) as u8;
    f[14] = (pm10 & 0xFF) as u8;
    f
}

#[test]
fn nextpm_metadata_is_three_particulate_channels() {
    let d = NextPM::assemble();
    let meta = d.get_metadata();
    assert_eq!(meta.len(), 3);
    assert!(matches!(meta[0].sensor_type, SensorType::PM1));
    assert!(matches!(meta[1].sensor_type, SensorType::PM2_5));
    assert!(matches!(meta[2].sensor_type, SensorType::PM10));
    for ch in meta {
        assert!(matches!(ch.unit, Unit::UgPerM3));
    }
}

#[test]
fn nextpm_decodes_three_fields_in_tenths() {
    let d = NextPM::assemble();
    let readings = d.decode_sample(&reading_frame(123, 456, 789)).unwrap();
    assert_eq!(readings.len(), d.get_metadata().len());
    assert_eq!(readings[0].value.raw, 123);
    assert_eq!(readings[0].value.exp, 1);
    assert_eq!(scaled_string(readings[0].value.raw, readings[0].value.exp), "12.3");
    assert_eq!(scaled_string(readings[1].value.raw, readings[1].value.exp), "45.6");
    assert_eq!(scaled_string(readings[2].value.raw, readings[2].value.exp), "78.9");
}

#[test]
fn nextpm_frame_errors() {
    let d = NextPM::assemble();
    assert_eq!(d.decode_sample(&[0x81, 0x11]), Err(SensorError::BadFrameLength));

    let mut bad_addr = reading_frame(1, 2, 3);
    bad_addr[0] = 0x82;
    assert_eq!(d.decode_sample(&bad_addr), Err(SensorError::BadAddress));

    let mut bad_cmd = reading_frame(1, 2, 3);
    bad_cmd[1] = 0x12;
    assert_eq!(d.decode_sample(&bad_cmd), Err(SensorError::UnexpectedReply));
}

#[test]
fn nextpm_driver_surface() {
    let d = NextPM::assemble();
    assert!(matches!(NextPM::model(), envsensor::sensor::SensorModel::TERA_NextPM));
    assert_eq!(d.response_len(), 16);
    assert_eq!(d.pacing_delay_ms(), 1000);
    assert!(d.initialize_request().is_none());
    assert_eq!(d.read_request().unwrap(), vec![0x81, 0x11, 0x6E]);
    assert_eq!(NextPM::read_command(), vec![0x81, 0x11, 0x6E]);
}
