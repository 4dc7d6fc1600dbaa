//! High-baud particulate sensor codec (NextPM-like).
//!
//! A fixed 3-byte command yields a fixed 16-byte big-endian reply with
//! three independent 16-bit particulate fields, each scaled by a fixed
//! divisor of 10. The driver enforces a settle delay between reads.

use vstd::prelude::*;

use crate::sensor::Scaled;
use crate::sensor::SensorChannel;
use crate::sensor::SensorData;
use crate::sensor::SensorDriver;
use crate::sensor::SensorError;
use crate::sensor::SensorModel;
use crate::sensor::SensorType;
use crate::sensor::Unit;
use crate::wire::be16;
use crate::wire::read_be16;

verus! {

/// The device address every frame carries.
pub const NEXTPM_ADDR: u8 = 0x81;

/// The read-measurement command code.
pub const NEXTPM_READ_CMD: u8 = 0x11;

/// The fixed divisor exponent: every field is tenths of a unit.
pub const NEXTPM_SCALE_EXP: u8 = 1;

/// The three channels this model always reports, in frame order.
pub open spec fn spec_nextpm_channels() -> Seq<SensorChannel> {
    seq![
        SensorChannel { sensor_type: SensorType::PM1, unit: Unit::UgPerM3 },
        SensorChannel { sensor_type: SensorType::PM2_5, unit: Unit::UgPerM3 },
        SensorChannel { sensor_type: SensorType::PM10, unit: Unit::UgPerM3 },
    ]
}

/// A reading reply is 16 bytes echoing the address and the command.
pub open spec fn spec_reading_ok(b: Seq<u8>) -> bool {
    b.len() == 16 && b[0] == NEXTPM_ADDR && b[1] == NEXTPM_READ_CMD
}

/// The error for a rejected reading reply.
pub open spec fn spec_reading_err(b: Seq<u8>) -> SensorError {
    if b.len() != 16 {
        SensorError::BadFrameLength
    } else if b[0] != NEXTPM_ADDR {
        SensorError::BadAddress
    } else {
        SensorError::UnexpectedReply
    }
}

/// Driver state for one NextPM device: the three fixed channels.
#[derive(Debug, PartialEq)]
pub struct NextPM {
    pub channels: Vec<SensorChannel>,
}

impl NextPM {
    /// The ready driver; this model needs no initialization queries.
    pub fn assemble() -> (r: NextPM)
        ensures
            r.wf(),
            r.channels@ == spec_nextpm_channels(),
    {
        let mut channels: Vec<SensorChannel> = Vec::new();
        channels.push(SensorChannel { sensor_type: SensorType::PM1, unit: Unit::UgPerM3 });
        channels.push(SensorChannel { sensor_type: SensorType::PM2_5, unit: Unit::UgPerM3 });
        channels.push(SensorChannel { sensor_type: SensorType::PM10, unit: Unit::UgPerM3 });
        proof {
            assert(channels@ =~= spec_nextpm_channels());
        }
        NextPM { channels }
    }

    /// The fixed 3-byte read command.
    pub fn read_command() -> (r: Vec<u8>)
        ensures
            r@ == seq![0x81u8, 0x11, 0x6E],
    {
        let mut v: Vec<u8> = Vec::new();
        v.push(0x81);
        v.push(0x11);
        v.push(0x6E);
        proof {
            assert(v@ =~= seq![0x81u8, 0x11, 0x6E]);
        }
        v
    }

    /// Decodes one reading reply into the three particulate values, in
    /// channel order, each in tenths.
    pub fn read_measured_value(&self, buf: &[u8]) -> (r: Result<
        (Scaled, Scaled, Scaled),
        SensorError,
    >)
        ensures
            r is Ok <==> spec_reading_ok(buf@),
            r matches Ok(p) ==> p == (
                Scaled { raw: be16(buf@[9], buf@[10]) as u32, exp: NEXTPM_SCALE_EXP },
                Scaled { raw: be16(buf@[11], buf@[12]) as u32, exp: NEXTPM_SCALE_EXP },
                Scaled { raw: be16(buf@[13], buf@[14]) as u32, exp: NEXTPM_SCALE_EXP },
            ),
            r matches Err(e) ==> e == spec_reading_err(buf@),
    {
        if buf.len() != 16 {
            return Err(SensorError::BadFrameLength);
        }
        if buf[0] != NEXTPM_ADDR {
            return Err(SensorError::BadAddress);
        }
        if buf[1] != NEXTPM_READ_CMD {
            return Err(SensorError::UnexpectedReply);
        }
        Ok((
            Scaled { raw: read_be16(buf[9], buf[10]) as u32, exp: NEXTPM_SCALE_EXP },
            Scaled { raw: read_be16(buf[11], buf[12]) as u32, exp: NEXTPM_SCALE_EXP },
            Scaled { raw: read_be16(buf[13], buf[14]) as u32, exp: NEXTPM_SCALE_EXP },
        ))
    }
}

impl SensorDriver for NextPM {
    open spec fn wf(&self) -> bool {
        self.channels@ == spec_nextpm_channels()
    }

    open spec fn spec_channels(&self) -> Seq<SensorChannel> {
        self.channels@
    }

    open spec fn spec_model() -> SensorModel {
        SensorModel::TERA_NextPM
    }

    open spec fn read_request_ens(&self, r: Option<Vec<u8>>) -> bool {
        r matches Some(v) && v@ == seq![0x81u8, 0x11, 0x6E]
    }

    open spec fn initialize_request_ens(&self, r: Option<Vec<u8>>) -> bool {
        r is None
    }

    open spec fn decode_ens(&self, buf: Seq<u8>, r: Result<Vec<SensorData>, SensorError>) -> bool {
        match r {
            Ok(d) => {
                &&& spec_reading_ok(buf)
                &&& d@ == seq![
                    SensorData {
                        ty: SensorType::PM1,
                        value: Scaled { raw: be16(buf[9], buf[10]) as u32, exp: NEXTPM_SCALE_EXP },
                        unit: Unit::UgPerM3,
                    },
                    SensorData {
                        ty: SensorType::PM2_5,
                        value: Scaled {
                            raw: be16(buf[11], buf[12]) as u32,
                            exp: NEXTPM_SCALE_EXP,
                        },
                        unit: Unit::UgPerM3,
                    },
                    SensorData {
                        ty: SensorType::PM10,
                        value: Scaled {
                            raw: be16(buf[13], buf[14]) as u32,
                            exp: NEXTPM_SCALE_EXP,
                        },
                        unit: Unit::UgPerM3,
                    },
                ]
            },
            Err(e) => !spec_reading_ok(buf) && e == spec_reading_err(buf),
        }
    }

    open spec fn spec_response_len(&self) -> usize {
        16
    }

    open spec fn spec_pacing_ms(&self) -> u64 {
        1000
    }

    fn model() -> SensorModel {
        SensorModel::TERA_NextPM
    }

    fn get_metadata(&self) -> &Vec<SensorChannel> {
        &self.channels
    }

    fn initialize_request(&self) -> Option<Vec<u8>> {
        None
    }

    fn read_request(&self) -> Option<Vec<u8>> {
        Some(NextPM::read_command())
    }

    fn response_len(&self) -> usize {
        16
    }

    fn pacing_delay_ms(&self) -> u64 {
        1000
    }

    fn decode_sample(&self, buf: &[u8]) -> Result<Vec<SensorData>, SensorError> {
        let triple = match self.read_measured_value(buf) {
            Ok(p) => p,
            Err(e) => {
                return Err(e);
            },
        };
        let ch0 = self.channels[0];
        let ch1 = self.channels[1];
        let ch2 = self.channels[2];
        let mut d: Vec<SensorData> = Vec::new();
        d.push(SensorData { ty: ch0.sensor_type, value: triple.0, unit: ch0.unit });
        d.push(SensorData { ty: ch1.sensor_type, value: triple.1, unit: ch1.unit });
        d.push(SensorData { ty: ch2.sensor_type, value: triple.2, unit: ch2.unit });
        proof {
            assert(d@ =~= seq![
                SensorData { ty: ch0.sensor_type, value: triple.0, unit: ch0.unit },
                SensorData { ty: ch1.sensor_type, value: triple.1, unit: ch1.unit },
                SensorData { ty: ch2.sensor_type, value: triple.2, unit: ch2.unit },
            ]);
        }
        Ok(d)
    }
}

} // verus!
