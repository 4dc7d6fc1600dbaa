use std::sync::atomic::Ordering;

use envsensor::clock::Timestamp;
use envsensor::csvlog::{csv_header, csv_row, log_filename, log_line, sample_wf};
use envsensor::registry::{build_driver, init_plan, transport_config, Driver, Parity};
use envsensor::sensor::{
    AppMsg, SampleData, Scaled, SensorChannel, SensorData, SensorError, SensorModel, SensorType,
    Unit,
};
use envsensor::session::{
    acquisition_step, create_failed_status, init_failed_status, init_status, read_failed_status,
    Sensor,
};
use envsensor::textfmt::{scaled_string, u32_string};

const CRC16: crc::Crc<u16> = crc::Crc::<u16>::new(&crc::CRC_16_MODBUS);

fn with_crc(body: &[u8]) -> Vec<u8> {
    let crc = CRC16.checksum(body);
    let mut v = body.to_vec();
    v.push((crc & 0xFF) as u8);
    v.push((crc >> 8) as u8);
    v
}

fn tb600bc_driver() -> Driver {
    let param = vec![0xFF, 0xD7, 0x19, 0x00, 0x00, 0x02, 0x30, 0x00, 0x00];
    build_driver(SensorModel::EC_TB600BC, &vec![Vec::new(), param]).unwrap()
}

#[test]
fn catalog_lists_every_model() {
    let all = SensorModel::all();
    assert_eq!(all.len(), 3);
    assert_eq!(all[0].name(), "EC_TB600BC");
    assert_eq!(all[1].name(), "RYDASON");
    assert_eq!(all[2].name(), "TERA_NextPM");
}

#[test]
fn init_plans_follow_the_model() {
    let plan = init_plan(SensorModel::EC_TB600BC);
    assert_eq!(plan.len(), 2);
    assert_eq!(plan[0].send, vec![0xFF, 0x01, 0x78, 0x41, 0x00, 0x00, 0x00, 0x00, 0x46]);
    assert_eq!(plan[0].read_len, 0);
    assert_eq!(plan[0].delay_after_ms, 1000);
    assert_eq!(plan[1].send, vec![0xD7]);
    assert_eq!(plan[1].read_len, 9);

    let plan = init_plan(SensorModel::RYDASON);
    assert_eq!(plan.len(), 3);
    for step in &plan {
        assert_eq!(step.read_len, 7);
        let crc = CRC16.checksum(&step.send[..6]);
        assert_eq!(step.send[6], (crc & 0xFF) as u8);
        assert_eq!(step.send[7], (crc >> 8) as u8);
    }
    assert_eq!(&plan[0].send[..6], &[0x01, 0x03, 0x01, 0x01, 0x00, 0x01]);
    assert_eq!(&plan[1].send[..6], &[0x01, 0x03, 0x01, 0x02, 0x00, 0x01]);
    assert_eq!(&plan[2].send[..6], &[0x01, 0x03, 0x01, 0x03, 0x00, 0x01]);

    assert_eq!(init_plan(SensorModel::TERA_NextPM).len(), 0);
}

#[test]
fn registry_constructs_each_model() {
    let d = tb600bc_driver();
    assert!(matches!(d.model(), SensorModel::EC_TB600BC));
    assert_eq!(d.response_len(), 9);

    let t = with_crc(&[0x01, 0x03, 0x02, 0x00, 0x01]);
    let u = with_crc(&[0x01, 0x03, 0x02, 0x00, 0x02]);
    let s = with_crc(&[0x01, 0x03, 0x02, 0x00, 0x03]);
    let d = build_driver(SensorModel::RYDASON, &vec![t, u, s]).unwrap();
    assert!(matches!(d.model(), SensorModel::RYDASON));
    assert_eq!(d.response_len(), 9);
    assert_eq!(d.pacing_delay_ms(), 1000);

    let d = build_driver(SensorModel::TERA_NextPM, &vec![]).unwrap();
    assert!(matches!(d.model(), SensorModel::TERA_NextPM));
    assert_eq!(d.response_len(), 16);
}

#[test]
fn registry_rejects_a_wrong_reply_count() {
    let r = build_driver(SensorModel::EC_TB600BC, &vec![Vec::new()]);
    assert!(matches!(r, Err(SensorError::UnexpectedReply)));
    let r = build_driver(SensorModel::TERA_NextPM, &vec![Vec::new()]);
    assert!(matches!(r, Err(SensorError::UnexpectedReply)));
}

/// Every driver emits exactly one reading per metadata channel, with the
/// channel's type and unit, on every accepted sample.
#[test]
fn every_driver_matches_readings_to_metadata() {
    let cases: Vec<(Driver, Vec<u8>)> = vec![
        (tb600bc_driver(), b"\xFF\x86\x25\xBC\x03\xE8\x20\xD0\xBE".to_vec()),
        (
            build_driver(
                SensorModel::RYDASON,
                &vec![
                    with_crc(&[0x01, 0x03, 0x02, 0x00, 0x01]),
                    with_crc(&[0x01, 0x03, 0x02, 0x00, 0x02]),
                    with_crc(&[0x01, 0x03, 0x02, 0x00, 0x03]),
                ],
            )
            .unwrap(),
            with_crc(&[0x01, 0x03, 0x04, 0x00, 0x00, 0x11, 0x94]),
        ),
        (build_driver(SensorModel::TERA_NextPM, &vec![]).unwrap(), {
            let mut f = vec![0u8; 16];
            f[0] = 0x81;
            f[1] = 0x11;
            f[10] = 123;
            f
        }),
    ];
    for (driver, frame) in cases {
        let readings = driver.decode_sample(&frame).unwrap();
        let meta = driver.get_metadata();
        assert_eq!(readings.len(), meta.len());
        for (r, ch) in readings.iter().zip(meta.iter()) {
            assert_eq!(r.ty, ch.sensor_type);
            assert_eq!(r.unit, ch.unit);
        }
    }
}

#[test]
fn transport_parameters_are_fixed_per_model() {
    let c = transport_config(SensorModel::EC_TB600BC);
    assert_eq!((c.baud, c.data_bits, c.stop_bits, c.timeout_secs), (9600, 8, 1, 5));
    assert!(matches!(c.parity, Parity::Disabled));

    let c = transport_config(SensorModel::RYDASON);
    assert_eq!(c.baud, 9600);
    assert!(matches!(c.parity, Parity::Even));

    let c = transport_config(SensorModel::TERA_NextPM);
    assert_eq!(c.baud, 115200);
    assert!(matches!(c.parity, Parity::Even));
}

#[test]
fn session_rejects_a_double_start() {
    let mut bus = bus::Bus::<AppMsg>::new(10);
    let rx = bus.add_rx();
    let mut sensor = Sensor::new(&SensorModel::EC_TB600BC, "port0", rx).unwrap();
    assert!(!sensor.active);
    assert!(sensor.start().is_ok());
    assert!(sensor.active);
    assert_eq!(sensor.start(), Err(SensorError::SessionActive));
    sensor.stop();
    assert!(!sensor.active);
    assert!(sensor.start().is_ok());
}

#[test]
fn stop_raises_the_cancellation_flag_once() {
    let mut bus = bus::Bus::<AppMsg>::new(10);
    let rx = bus.add_rx();
    let mut sensor = Sensor::new(&SensorModel::RYDASON, "port1", rx).unwrap();
    sensor.start().unwrap();
    assert!(!sensor.stop_flag.load(Ordering::SeqCst));
    sensor.stop();
    assert!(sensor.stop_flag.load(Ordering::SeqCst));
    // The flag stays raised until the next start resets it.
    assert!(sensor.stop_flag.load(Ordering::SeqCst));
    sensor.start().unwrap();
    assert!(!sensor.stop_flag.load(Ordering::SeqCst));
}

/// A cooperative loop that checks the flag once per iteration publishes
/// nothing more once stop() has been observed.
#[test]
fn no_message_after_stop_is_observed() {
    let mut bus = bus::Bus::<AppMsg>::new(10);
    let rx = bus.add_rx();
    let mut sensor = Sensor::new(&SensorModel::EC_TB600BC, "port2", rx).unwrap();
    sensor.start().unwrap();

    let driver = tb600bc_driver();
    let frame = b"\xFF\x86\x25\xBC\x03\xE8\x20\xD0\xBE";
    let mut published = 0usize;
    for i in 0..5 {
        if sensor.stop_flag.load(Ordering::SeqCst) {
            break;
        }
        let (msg, go) = acquisition_step(&driver, frame);
        bus.broadcast(msg);
        published += 1;
        assert!(go);
        if i == 1 {
            sensor.stop();
        }
    }
    assert_eq!(published, 2);
}

/// Two subscribers that join before the session starts see the same
/// messages in the same order.
#[test]
fn two_subscribers_see_identical_sequences() {
    let mut bus = bus::Bus::<AppMsg>::new(10);
    let mut rx1 = bus.add_rx();
    let mut rx2 = bus.add_rx();

    let driver = tb600bc_driver();
    bus.broadcast(AppMsg::Status(init_status(SensorModel::EC_TB600BC)));
    let (msg, _) = acquisition_step(&driver, b"\xFF\x86\x25\xBC\x03\xE8\x20\xD0\xBE");
    bus.broadcast(msg);
    let (msg, _) = acquisition_step(&driver, b"\xFF\x86\x00\x0A\x03\xE8\x00\x14\xBE");
    bus.broadcast(msg);

    let mut seen1 = Vec::new();
    while let Ok(m) = rx1.try_recv() {
        seen1.push(m);
    }
    let mut seen2 = Vec::new();
    while let Ok(m) = rx2.try_recv() {
        seen2.push(m);
    }
    assert_eq!(seen1.len(), 3);
    assert_eq!(seen1, seen2);
    assert!(matches!(seen1[0], AppMsg::Status(_)));
    assert!(matches!(seen1[1], AppMsg::Sample(_)));
}

#[test]
fn try_recv_returns_at_most_one_pending_message() {
    let mut bus = bus::Bus::<AppMsg>::new(10);
    let rx = bus.add_rx();
    let mut sensor = Sensor::new(&SensorModel::EC_TB600BC, "port3", rx).unwrap();
    assert!(sensor.try_recv().is_none());
    bus.broadcast(AppMsg::Status(init_status(SensorModel::EC_TB600BC)));
    bus.broadcast(AppMsg::Status(read_failed_status(SensorError::CrcMismatch)));
    match sensor.try_recv() {
        Some(AppMsg::Status(s)) => assert_eq!(s, "EC_TB600BC init"),
        other => panic!("expected the first status, got {other:?}"),
    }
    match sensor.try_recv() {
        Some(AppMsg::Status(s)) => assert_eq!(s, "Failed to read data: CRC mismatch"),
        other => panic!("expected the second status, got {other:?}"),
    }
    assert!(sensor.try_recv().is_none());
}

#[test]
fn status_texts() {
    assert_eq!(init_status(SensorModel::TERA_NextPM), "TERA_NextPM init");
    assert_eq!(
        create_failed_status(SensorModel::RYDASON, SensorError::BadAddress),
        "Failed to create RYDASON sensor: address mismatch"
    );
    assert_eq!(
        init_failed_status(SensorModel::EC_TB600BC, SensorError::BadMagic),
        "Failed to initialize EC_TB600BC: bad magic prefix"
    );
    assert_eq!(
        read_failed_status(SensorError::BadFrameLength),
        "Failed to read data: frame has the wrong length"
    );
}

#[test]
fn acquisition_step_fails_fast_on_a_bad_frame() {
    let driver = tb600bc_driver();
    let (msg, go) = acquisition_step(&driver, b"\xFF\x99\x25\xBC\x03\xE8\x20\xD0\xBE");
    assert!(!go);
    match msg {
        AppMsg::Status(s) => assert_eq!(s, "Failed to read data: bad magic prefix"),
        AppMsg::Sample(_) => panic!("a bad frame must not produce a sample"),
    }
}

fn two_channel_sample(ts: Timestamp, a: (u32, u8), b: (u32, u8)) -> SampleData {
    SampleData {
        timestamp: ts,
        data: vec![
            SensorData {
                ty: SensorType::CO,
                value: Scaled { raw: a.0, exp: a.1 },
                unit: Unit::PPM,
            },
            SensorData {
                ty: SensorType::CO,
                value: Scaled { raw: b.0, exp: b.1 },
                unit: Unit::MgPerM3,
            },
        ],
    }
}

/// Three two-channel samples yield one header line and three data lines
/// in arrival order, each with one value field per channel.
#[test]
fn three_samples_make_four_csv_lines() {
    let channels = vec![
        SensorChannel::new(SensorType::CO, Unit::PPM),
        SensorChannel::new(SensorType::CO, Unit::MgPerM3),
    ];
    let ts = Timestamp::new(2024, 1, 2, 3, 4, 5);
    let samples = vec![
        two_channel_sample(ts, (4500, 3), (100, 2)),
        two_channel_sample(ts, (9660, 3), (200, 2)),
        two_channel_sample(ts, (20, 0), (300, 2)),
    ];

    let mut content = csv_header(&channels);
    content.push('\n');
    for s in &samples {
        let line = log_line(&AppMsg::Sample(s.clone())).unwrap();
        content.push_str(&line);
        content.push('\n');
    }

    let lines: Vec<&str> = content.lines().collect();
    assert_eq!(lines.len(), 4);
    assert_eq!(lines[0], "Timestamp,CO(ppm),CO(mg/m3)");
    for line in &lines {
        assert_eq!(line.split(',').count(), 3);
    }
    assert_eq!(lines[1], "01/02/2024 03:04:05,4.5,1");
    assert_eq!(lines[2], "01/02/2024 03:04:05,9.66,2");
    assert_eq!(lines[3], "01/02/2024 03:04:05,20,3");
}

#[test]
fn log_line_ignores_status_messages() {
    assert!(log_line(&AppMsg::Status(String::from("EC_TB600BC init"))).is_none());
    let s = two_channel_sample(Timestamp::new(2024, 1, 2, 3, 4, 5), (1, 0), (2, 0));
    assert!(sample_wf(&s));
    assert!(log_line(&AppMsg::Sample(s)).is_some());
}

#[test]
fn log_line_drops_an_out_of_range_exponent() {
    let s = two_channel_sample(Timestamp::new(2024, 1, 2, 3, 4, 5), (1, 10), (2, 0));
    assert!(!sample_wf(&s));
    assert!(log_line(&AppMsg::Sample(s)).is_none());
}

#[test]
fn csv_row_renders_timestamp_and_values() {
    let s = two_channel_sample(Timestamp::new(2026, 12, 31, 23, 59, 58), (250, 2), (0, 3));
    assert_eq!(csv_row(&s), "12/31/2026 23:59:58,2.5,0");
}

#[test]
fn log_filename_stamps_session_start_and_model() {
    let ts = Timestamp::new(2024, 1, 2, 3, 4, 5);
    assert_eq!(
        log_filename(&ts, SensorModel::EC_TB600BC),
        "2024-01-02-03-04-05_EC_TB600BC.csv"
    );
    assert_eq!(
        log_filename(&ts, SensorModel::TERA_NextPM),
        "2024-01-02-03-04-05_TERA_NextPM.csv"
    );
}

#[test]
fn decimal_renderings() {
    assert_eq!(scaled_string(4500, 3), "4.5");
    assert_eq!(scaled_string(4500, 0), "4500");
    assert_eq!(scaled_string(9660, 3), "9.66");
    assert_eq!(scaled_string(250, 2), "2.5");
    assert_eq!(scaled_string(0, 3), "0");
    assert_eq!(scaled_string(1, 3), "0.001");
    assert_eq!(scaled_string(123, 1), "12.3");
    assert_eq!(scaled_string(4294967295, 9), "4.294967295");
    assert_eq!(u32_string(0), "0");
    assert_eq!(u32_string(1234), "1234");
}

#[test]
fn error_messages_name_each_failure() {
    assert_eq!(SensorError::BadFrameLength.message(), "frame has the wrong length");
    assert_eq!(SensorError::BadMagic.message(), "bad magic prefix");
    assert_eq!(SensorError::BadAddress.message(), "address mismatch");
    assert_eq!(SensorError::CrcMismatch.message(), "CRC mismatch");
    assert_eq!(SensorError::UnknownTypeCode.message(), "unrecognized sensor type code");
    assert_eq!(SensorError::UnknownUnitCode.message(), "unrecognized unit code");
    assert_eq!(SensorError::ScaleOutOfRange.message(), "scale exponent out of range");
    assert_eq!(SensorError::UnexpectedReply.message(), "unexpected reply shape");
    assert_eq!(SensorError::WrongValueWidth.message(), "unexpected register value width");
    assert_eq!(SensorError::SessionActive.message(), "session already active");
}

#[test]
fn timestamp_now_is_well_formed() {
    let ts = envsensor::clock::now_timestamp();
    assert!((1..=12).contains(&ts.month));
    assert!((1..=31).contains(&ts.day));
    assert!(ts.hour <= 23 && ts.minute <= 59 && ts.second <= 59);
    assert!(ts.year <= 9999);
}
