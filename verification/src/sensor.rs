//! Data model shared by every driver: measured quantities, units, channel
//! descriptors, the supported hardware catalog, readings, samples, bus
//! messages, and the error taxonomy.

use vstd::prelude::*;

use crate::clock::Timestamp;

verus! {

/// A measured quantity.
#[allow(non_camel_case_types)]
#[derive(Clone, Copy, Debug, PartialEq, Eq, Structural)]
pub enum SensorType {
    CO,
    NO2,
    PM1,
    PM2_5,
    PM10,
}

impl SensorType {
    /// Label used in CSV headers.
    pub open spec fn spec_name(self) -> Seq<char> {
        match self {
            SensorType::CO => "CO"@,
            SensorType::NO2 => "NO2"@,
            SensorType::PM1 => "PM1"@,
            SensorType::PM2_5 => "PM2_5"@,
            SensorType::PM10 => "PM10"@,
        }
    }

    pub fn name(self) -> (r: &'static str)
        ensures
            r@ == self.spec_name(),
    {
        match self {
            SensorType::CO => "CO",
            SensorType::NO2 => "NO2",
            SensorType::PM1 => "PM1",
            SensorType::PM2_5 => "PM2_5",
            SensorType::PM10 => "PM10",
        }
    }
}

/// A physical unit.
#[derive(Clone, Copy, Debug, PartialEq, Eq, Structural)]
pub enum Unit {
    PPM,
    PPB,
    MgPerM3,
    UgPerM3,
    PercentVol,
    TenGPerM3,
}

impl Unit {
    /// Label used in CSV headers.
    pub open spec fn spec_name(self) -> Seq<char> {
        match self {
            Unit::PPM => "ppm"@,
            Unit::PPB => "ppb"@,
            Unit::MgPerM3 => "mg/m3"@,
            Unit::UgPerM3 => "ug/m3"@,
            Unit::PercentVol => "%vol"@,
            Unit::TenGPerM3 => "10g/m3"@,
        }
    }

    pub fn name(self) -> (r: &'static str)
        ensures
            r@ == self.spec_name(),
    {
        match self {
            Unit::PPM => "ppm",
            Unit::PPB => "ppb",
            Unit::MgPerM3 => "mg/m3",
            Unit::UgPerM3 => "ug/m3",
            Unit::PercentVol => "%vol",
            Unit::TenGPerM3 => "10g/m3",
        }
    }
}

/// Metadata for a single sensor channel (type and unit).
#[derive(Clone, Copy, Debug, PartialEq, Eq, Structural)]
pub struct SensorChannel {
    pub sensor_type: SensorType,
    pub unit: Unit,
}

impl SensorChannel {
    pub fn new(sensor_type: SensorType, unit: Unit) -> (r: Self)
        ensures
            r == (SensorChannel { sensor_type, unit }),
    {
        SensorChannel { sensor_type, unit }
    }
}

/// Catalog tag of a supported hardware profile.
#[allow(non_camel_case_types)]
#[derive(Clone, Copy, Debug, PartialEq, Eq, Structural)]
pub enum SensorModel {
    EC_TB600BC,
    RYDASON,
    TERA_NextPM,
}

impl SensorModel {
    /// Label used in status messages and log file names.
    pub open spec fn spec_name(self) -> Seq<char> {
        match self {
            SensorModel::EC_TB600BC => "EC_TB600BC"@,
            SensorModel::RYDASON => "RYDASON"@,
            SensorModel::TERA_NextPM => "TERA_NextPM"@,
        }
    }

    pub fn name(self) -> (r: &'static str)
        ensures
            r@ == self.spec_name(),
    {
        match self {
            SensorModel::EC_TB600BC => "EC_TB600BC",
            SensorModel::RYDASON => "RYDASON",
            SensorModel::TERA_NextPM => "TERA_NextPM",
        }
    }

    /// Every catalog entry, in a fixed order.
    pub fn all() -> (r: Vec<SensorModel>)
        ensures
            r@ == seq![SensorModel::EC_TB600BC, SensorModel::RYDASON, SensorModel::TERA_NextPM],
    {
        let mut v: Vec<SensorModel> = Vec::new();
        v.push(SensorModel::EC_TB600BC);
        v.push(SensorModel::RYDASON);
        v.push(SensorModel::TERA_NextPM);
        proof {
            assert(v@ =~= seq![
                SensorModel::EC_TB600BC,
                SensorModel::RYDASON,
                SensorModel::TERA_NextPM,
            ]);
        }
        v
    }
}

/// Why a frame or a register value was rejected, or a session call refused.
#[derive(Clone, Copy, Debug, PartialEq, Eq, Structural)]
pub enum SensorError {
    /// Frame error: the buffer is not the expected frame size.
    BadFrameLength,
    /// Frame error: the magic prefix does not match.
    BadMagic,
    /// Frame error: the address byte does not match.
    BadAddress,
    /// Frame error: the appended CRC does not match the frame contents.
    CrcMismatch,
    /// Decode error: unrecognized sensor type code.
    UnknownTypeCode,
    /// Decode error: unrecognized unit code.
    UnknownUnitCode,
    /// Decode error: scale exponent too large for a 32-bit divisor.
    ScaleOutOfRange,
    /// Protocol error: the reply has an unexpected shape.
    UnexpectedReply,
    /// Protocol error: a register value of the other width was required.
    WrongValueWidth,
    /// Lifecycle error: the session is already running.
    SessionActive,
}

impl SensorError {
    /// Text of this error, as carried in status messages.
    pub open spec fn spec_message(self) -> Seq<char> {
        match self {
            SensorError::BadFrameLength => "frame has the wrong length"@,
            SensorError::BadMagic => "bad magic prefix"@,
            SensorError::BadAddress => "address mismatch"@,
            SensorError::CrcMismatch => "CRC mismatch"@,
            SensorError::UnknownTypeCode => "unrecognized sensor type code"@,
            SensorError::UnknownUnitCode => "unrecognized unit code"@,
            SensorError::ScaleOutOfRange => "scale exponent out of range"@,
            SensorError::UnexpectedReply => "unexpected reply shape"@,
            SensorError::WrongValueWidth => "unexpected register value width"@,
            SensorError::SessionActive => "session already active"@,
        }
    }

    pub fn message(self) -> (r: &'static str)
        ensures
            r@ == self.spec_message(),
    {
        match self {
            SensorError::BadFrameLength => "frame has the wrong length",
            SensorError::BadMagic => "bad magic prefix",
            SensorError::BadAddress => "address mismatch",
            SensorError::CrcMismatch => "CRC mismatch",
            SensorError::UnknownTypeCode => "unrecognized sensor type code",
            SensorError::UnknownUnitCode => "unrecognized unit code",
            SensorError::ScaleOutOfRange => "scale exponent out of range",
            SensorError::UnexpectedReply => "unexpected reply shape",
            SensorError::WrongValueWidth => "unexpected register value width",
            SensorError::SessionActive => "session already active",
        }
    }
}

/// A physical value as the exact scaled decimal `raw / 10^exp`.
#[derive(Clone, Copy, Debug, PartialEq, Eq, Structural)]
pub struct Scaled {
    pub raw: u32,
    pub exp: u8,
}

impl Scaled {
    /// The divisor `10^exp` fits in a `u32`.
    pub open spec fn wf(self) -> bool {
        self.exp <= 9
    }
}

/// One measurement of one channel.
#[derive(Clone, Copy, Debug, PartialEq, Eq, Structural)]
pub struct SensorData {
    pub ty: SensorType,
    pub value: Scaled,
    pub unit: Unit,
}

impl SensorData {
    pub open spec fn wf(self) -> bool {
        self.value.wf()
    }
}

/// One full poll result: every channel's reading, in metadata order.
#[derive(Clone, Debug, PartialEq)]
pub struct SampleData {
    pub timestamp: Timestamp,
    pub data: Vec<SensorData>,
}

impl SampleData {
    pub open spec fn wf(self) -> bool {
        forall|i: int| 0 <= i < self.data@.len() ==> (#[trigger] self.data@[i]).wf()
    }
}

/// A message carried on the broadcast bus.
#[derive(Clone, Debug, PartialEq)]
pub enum AppMsg {
    Status(String),
    Sample(SampleData),
}

/// A driver for one hardware model, seen through a uniform surface.
///
/// Transport I/O stays with the caller: the driver names the bytes to
/// send, the reply size to read, and decodes the reply bytes.
pub trait SensorDriver: Sized {
    /// Internal consistency, established by construction.
    spec fn wf(&self) -> bool;

    /// The channels this driver reports, fixed after construction.
    spec fn spec_channels(&self) -> Seq<SensorChannel>;

    /// The catalog entry this driver implements.
    spec fn spec_model() -> SensorModel;

    /// Exact contract of `read_request` for this model.
    spec fn read_request_ens(&self, r: Option<Vec<u8>>) -> bool;

    /// Exact contract of `initialize_request` for this model.
    spec fn initialize_request_ens(&self, r: Option<Vec<u8>>) -> bool;

    /// Exact contract of `decode_sample` for this model.
    spec fn decode_ens(&self, buf: Seq<u8>, r: Result<Vec<SensorData>, SensorError>) -> bool;

    /// Exact size of one steady-state reply frame for this model.
    spec fn spec_response_len(&self) -> usize;

    /// Delay to keep between polls for this model, in milliseconds.
    spec fn spec_pacing_ms(&self) -> u64;

    fn model() -> (r: SensorModel)
        ensures
            r == Self::spec_model(),
    ;

    /// Channel metadata, in reading order.
    fn get_metadata(&self) -> (r: &Vec<SensorChannel>)
        requires
            self.wf(),
        ensures
            r@ == self.spec_channels(),
    ;

    /// Command to switch the device into its steady reporting mode, if any.
    fn initialize_request(&self) -> (r: Option<Vec<u8>>)
        requires
            self.wf(),
        ensures
            self.initialize_request_ens(r),
    ;

    /// Command to send before each read, if the model is query-driven.
    fn read_request(&self) -> (r: Option<Vec<u8>>)
        requires
            self.wf(),
        ensures
            self.read_request_ens(r),
    ;

    /// Exact size of one steady-state reply frame.
    fn response_len(&self) -> (r: usize)
        requires
            self.wf(),
        ensures
            r == self.spec_response_len(),
    ;

    /// Delay to keep between polls, in milliseconds.
    fn pacing_delay_ms(&self) -> (r: u64)
        requires
            self.wf(),
        ensures
            r == self.spec_pacing_ms(),
    ;

    /// Decodes one steady-state reply into readings.
    ///
    /// Every accepted sample has exactly one reading per metadata channel,
    /// in metadata order and with the channel's type and unit.
    fn decode_sample(&self, buf: &[u8]) -> (r: Result<Vec<SensorData>, SensorError>)
        requires
            self.wf(),
        ensures
            self.decode_ens(buf@, r),
            r matches Ok(d) ==> {
                &&& d@.len() == self.spec_channels().len()
                &&& forall|i: int|
                    0 <= i < d@.len() ==> {
                        &&& (#[trigger] d@[i]).ty == self.spec_channels()[i].sensor_type
                        &&& d@[i].unit == self.spec_channels()[i].unit
                        &&& d@[i].wf()
                    }
            },
    ;
}

} // verus!
