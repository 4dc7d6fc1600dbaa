//! Push-style electrochemical gas sensor codec (TB600B/C family).
//!
//! Construction decodes a 9-byte parameter frame (magic `FF D7`) giving the
//! gas type, the unit pair and the scale exponent; steady state decodes
//! 9-byte auto-report frames (magic `FF 86`) holding two big-endian
//! concentrations that share the derived divisor.

use vstd::prelude::*;

use crate::sensor::Scaled;
use crate::sensor::SensorChannel;
use crate::sensor::SensorData;
use crate::sensor::SensorDriver;
use crate::sensor::SensorError;
use crate::sensor::SensorModel;
use crate::sensor::SensorType;
use crate::sensor::Unit;
use crate::textfmt::pow10;
use crate::textfmt::pow10_u32;
use crate::wire::be16;
use crate::wire::read_be16;

verus! {

/// Gas type of a parameter frame's type byte.
pub open spec fn spec_ec_type(code: u8) -> Option<SensorType> {
    if code == 0x19 {
        Some(SensorType::CO)
    } else if code == 0x21 {
        Some(SensorType::NO2)
    } else {
        None
    }
}

/// Unit pair of a parameter frame's unit-selector byte. The device always
/// reports the same gas in both units of the pair.
pub open spec fn spec_ec_units(code: u8) -> Option<(Unit, Unit)> {
    if code == 0x02 {
        Some((Unit::PPM, Unit::MgPerM3))
    } else if code == 0x04 {
        Some((Unit::PPB, Unit::UgPerM3))
    } else if code == 0x08 {
        Some((Unit::PercentVol, Unit::TenGPerM3))
    } else {
        None
    }
}

fn ec_type(code: u8) -> (r: Option<SensorType>)
    ensures
        r == spec_ec_type(code),
{
    if code == 0x19 {
        Some(SensorType::CO)
    } else if code == 0x21 {
        Some(SensorType::NO2)
    } else {
        None
    }
}

fn ec_units(code: u8) -> (r: Option<(Unit, Unit)>)
    ensures
        r == spec_ec_units(code),
{
    if code == 0x02 {
        Some((Unit::PPM, Unit::MgPerM3))
    } else if code == 0x04 {
        Some((Unit::PPB, Unit::UgPerM3))
    } else if code == 0x08 {
        Some((Unit::PercentVol, Unit::TenGPerM3))
    } else {
        None
    }
}

/// The mode-switch command: `auto` selects continuous reporting, `!auto`
/// the query-response mode used during construction.
pub open spec fn spec_switch_mode(auto: bool) -> Seq<u8> {
    if auto {
        seq![0xFFu8, 0x01, 0x78, 0x40, 0x00, 0x00, 0x00, 0x00, 0x47]
    } else {
        seq![0xFFu8, 0x01, 0x78, 0x41, 0x00, 0x00, 0x00, 0x00, 0x46]
    }
}

/// A parameter frame is 9 bytes with magic `FF D7`, a known type code, a
/// known unit-selector code, and a scale nibble no larger than 9.
pub open spec fn spec_param_ok(b: Seq<u8>) -> bool {
    &&& b.len() == 9
    &&& b[0] == 0xFF
    &&& b[1] == 0xD7
    &&& spec_ec_type(b[2]) is Some
    &&& spec_ec_units(b[5]) is Some
    &&& b[6] as int / 16 <= 9
}

/// The error for a rejected parameter frame, checks in frame order.
pub open spec fn spec_param_err(b: Seq<u8>) -> SensorError {
    if b.len() != 9 {
        SensorError::BadFrameLength
    } else if !(b[0] == 0xFF && b[1] == 0xD7) {
        SensorError::BadMagic
    } else if spec_ec_type(b[2]) is None {
        SensorError::UnknownTypeCode
    } else if spec_ec_units(b[5]) is None {
        SensorError::UnknownUnitCode
    } else {
        SensorError::ScaleOutOfRange
    }
}

/// The two channels a valid parameter frame declares.
pub open spec fn spec_param_channels(b: Seq<u8>) -> Seq<SensorChannel> {
    match (spec_ec_type(b[2]), spec_ec_units(b[5])) {
        (Some(ty), Some((u0, u1))) => seq![
            SensorChannel { sensor_type: ty, unit: u0 },
            SensorChannel { sensor_type: ty, unit: u1 },
        ],
        _ => Seq::<SensorChannel>::empty(),
    }
}

/// An auto-report frame is 9 bytes with magic `FF 86`.
pub open spec fn spec_report_ok(b: Seq<u8>) -> bool {
    b.len() == 9 && b[0] == 0xFF && b[1] == 0x86
}

/// The error for a rejected auto-report frame.
pub open spec fn spec_report_err(b: Seq<u8>) -> SensorError {
    if b.len() != 9 {
        SensorError::BadFrameLength
    } else {
        SensorError::BadMagic
    }
}

/// One decoded auto-report frame, fields in wire order.
#[derive(Clone, Copy, Debug, PartialEq, Eq, Structural)]
pub struct AutoReport {
    pub concentration2: u16,
    pub range: u16,
    pub concentration1: u16,
    pub checksum: u8,
}

impl AutoReport {
    /// Decodes one auto-report frame.
    pub fn read(buf: &[u8]) -> (r: Result<AutoReport, SensorError>)
        ensures
            r is Ok <==> spec_report_ok(buf@),
            r matches Ok(a) ==> a == (AutoReport {
                concentration2: be16(buf@[2], buf@[3]) as u16,
                range: be16(buf@[4], buf@[5]) as u16,
                concentration1: be16(buf@[6], buf@[7]) as u16,
                checksum: buf@[8],
            }),
            r matches Err(e) ==> e == spec_report_err(buf@),
    {
        if buf.len() != 9 {
            return Err(SensorError::BadFrameLength);
        }
        if !(buf[0] == 0xFF && buf[1] == 0x86) {
            return Err(SensorError::BadMagic);
        }
        Ok(AutoReport {
            concentration2: read_be16(buf[2], buf[3]),
            range: read_be16(buf[4], buf[5]),
            concentration1: read_be16(buf[6], buf[7]),
            checksum: buf[8],
        })
    }
}

/// Driver state for one TB600B/C device: the divisor derived at
/// construction and the two declared channels.
#[derive(Debug, PartialEq)]
pub struct TB600BC {
    pub scale: u32,
    pub scale_exp: u8,
    pub channels: Vec<SensorChannel>,
}

impl TB600BC {
    /// The one-byte parameter query sent during construction.
    pub fn param_query_command() -> (r: Vec<u8>)
        ensures
            r@ == seq![0xD7u8],
    {
        let mut v: Vec<u8> = Vec::new();
        v.push(0xD7);
        proof {
            assert(v@ =~= seq![0xD7u8]);
        }
        v
    }

    /// The mode-switch command frame.
    pub fn switch_mode_command(auto: bool) -> (r: Vec<u8>)
        ensures
            r@ == spec_switch_mode(auto),
    {
        let mut v: Vec<u8> = Vec::new();
        v.push(0xFF);
        v.push(0x01);
        v.push(0x78);
        if auto {
            v.push(0x40);
        } else {
            v.push(0x41);
        }
        v.push(0x00);
        v.push(0x00);
        v.push(0x00);
        v.push(0x00);
        if auto {
            v.push(0x47);
        } else {
            v.push(0x46);
        }
        proof {
            assert(v@ =~= spec_switch_mode(auto));
        }
        v
    }

    /// Builds the driver from the 9-byte parameter frame the device
    /// returns during construction.
    pub fn from_param_frame(buf: &[u8]) -> (r: Result<TB600BC, SensorError>)
        ensures
            r is Ok <==> spec_param_ok(buf@),
            r matches Ok(d) ==> {
                &&& d.wf()
                &&& d.scale_exp == buf@[6] as int / 16
                &&& d.scale == pow10((buf@[6] as int / 16) as nat)
                &&& d.channels@ == spec_param_channels(buf@)
            },
            r matches Err(e) ==> e == spec_param_err(buf@),
    {
        if buf.len() != 9 {
            return Err(SensorError::BadFrameLength);
        }
        if !(buf[0] == 0xFF && buf[1] == 0xD7) {
            return Err(SensorError::BadMagic);
        }
        let ty = match ec_type(buf[2]) {
            Some(t) => t,
            None => {
                return Err(SensorError::UnknownTypeCode);
            },
        };
        let units = match ec_units(buf[5]) {
            Some(u) => u,
            None => {
                return Err(SensorError::UnknownUnitCode);
            },
        };
        let exp: u8 = buf[6] / 16;
        if exp > 9 {
            return Err(SensorError::ScaleOutOfRange);
        }
        let scale = pow10_u32(exp);
        let mut channels: Vec<SensorChannel> = Vec::new();
        channels.push(SensorChannel { sensor_type: ty, unit: units.0 });
        channels.push(SensorChannel { sensor_type: ty, unit: units.1 });
        proof {
            assert(channels@ =~= spec_param_channels(buf@));
        }
        Ok(TB600BC { scale, scale_exp: exp, channels })
    }

    /// Decodes one auto-report frame into the two concentrations, in
    /// channel order, scaled by the divisor derived at construction.
    pub fn read_auto_report_data(&self, buf: &[u8]) -> (r: Result<(Scaled, Scaled), SensorError>)
        requires
            self.wf(),
        ensures
            r is Ok <==> spec_report_ok(buf@),
            r matches Ok(p) ==> p == (
                Scaled { raw: be16(buf@[6], buf@[7]) as u32, exp: self.scale_exp },
                Scaled { raw: be16(buf@[2], buf@[3]) as u32, exp: self.scale_exp },
            ),
            r matches Err(e) ==> e == spec_report_err(buf@),
    {
        let report = match AutoReport::read(buf) {
            Ok(a) => a,
            Err(e) => {
                return Err(e);
            },
        };
        Ok((
            Scaled { raw: report.concentration1 as u32, exp: self.scale_exp },
            Scaled { raw: report.concentration2 as u32, exp: self.scale_exp },
        ))
    }
}

impl SensorDriver for TB600BC {
    open spec fn wf(&self) -> bool {
        &&& self.scale_exp <= 9
        &&& self.scale == pow10(self.scale_exp as nat)
        &&& self.channels@.len() == 2
    }

    open spec fn spec_channels(&self) -> Seq<SensorChannel> {
        self.channels@
    }

    open spec fn spec_model() -> SensorModel {
        SensorModel::EC_TB600BC
    }

    open spec fn read_request_ens(&self, r: Option<Vec<u8>>) -> bool {
        r is None
    }

    open spec fn initialize_request_ens(&self, r: Option<Vec<u8>>) -> bool {
        r matches Some(v) && v@ == spec_switch_mode(true)
    }

    open spec fn decode_ens(&self, buf: Seq<u8>, r: Result<Vec<SensorData>, SensorError>) -> bool {
        match r {
            Ok(d) => {
                &&& spec_report_ok(buf)
                &&& d@ == seq![
                    SensorData {
                        ty: self.channels@[0].sensor_type,
                        value: Scaled { raw: be16(buf[6], buf[7]) as u32, exp: self.scale_exp },
                        unit: self.channels@[0].unit,
                    },
                    SensorData {
                        ty: self.channels@[1].sensor_type,
                        value: Scaled { raw: be16(buf[2], buf[3]) as u32, exp: self.scale_exp },
                        unit: self.channels@[1].unit,
                    },
                ]
            },
            Err(e) => !spec_report_ok(buf) && e == spec_report_err(buf),
        }
    }

    open spec fn spec_response_len(&self) -> usize {
        9
    }

    open spec fn spec_pacing_ms(&self) -> u64 {
        0
    }

    fn model() -> SensorModel {
        SensorModel::EC_TB600BC
    }

    fn get_metadata(&self) -> &Vec<SensorChannel> {
        &self.channels
    }

    fn initialize_request(&self) -> Option<Vec<u8>> {
        Some(TB600BC::switch_mode_command(true))
    }

    fn read_request(&self) -> Option<Vec<u8>> {
        None
    }

    fn response_len(&self) -> usize {
        9
    }

    fn pacing_delay_ms(&self) -> u64 {
        0
    }

    fn decode_sample(&self, buf: &[u8]) -> Result<Vec<SensorData>, SensorError> {
        let pair = match self.read_auto_report_data(buf) {
            Ok(p) => p,
            Err(e) => {
                return Err(e);
            },
        };
        let ch0 = self.channels[0];
        let ch1 = self.channels[1];
        let mut d: Vec<SensorData> = Vec::new();
        d.push(SensorData { ty: ch0.sensor_type, value: pair.0, unit: ch0.unit });
        d.push(SensorData { ty: ch1.sensor_type, value: pair.1, unit: ch1.unit });
        proof {
            assert(d@ =~= seq![
                SensorData { ty: ch0.sensor_type, value: pair.0, unit: ch0.unit },
                SensorData { ty: ch1.sensor_type, value: pair.1, unit: ch1.unit },
            ]);
        }
        Ok(d)
    }
}

} // verus!
