//! Register-query gas sensor codec (Modbus-style RTU framing).
//!
//! Requests are an address byte, a read-registers function code, a 16-bit
//! register address and a 16-bit register count, trailed by a little-endian
//! CRC-16/MODBUS over the preceding bytes. Responses echo the address,
//! declare a value width, carry the big-endian value, and are trailed by
//! their own CRC; any CRC mismatch is a hard decode failure.

use vstd::prelude::*;
use vstd::slice::slice_subrange;

use crate::sensor::Scaled;
use crate::sensor::SensorChannel;
use crate::sensor::SensorData;
use crate::sensor::SensorDriver;
use crate::sensor::SensorError;
use crate::sensor::SensorModel;
use crate::sensor::SensorType;
use crate::sensor::Unit;
use crate::textfmt::pow10;
use crate::textfmt::pow10_u32;
use crate::wire::be16;
use crate::wire::be32;
use crate::wire::read_be16;
use crate::wire::read_be32;

verus! {

/// CRC-16/MODBUS of a byte sequence: the checksum that the `crc` crate
/// computes for the `CRC_16_MODBUS` algorithm, a function of the bytes
/// alone.
pub uninterp spec fn crc16_modbus(data: Seq<u8>) -> u16;

/// Relies on `crc::Crc::<u16>::checksum` with the `crc::CRC_16_MODBUS`
/// algorithm: a table-driven pure function of the input bytes.
#[verifier::external_body]
fn crc16_modbus_of(data: &[u8]) -> (r: u16)
    ensures
        r == crc16_modbus(data@),
{
    crc::Crc::<u16>::new(&crc::CRC_16_MODBUS).checksum(data)
}

/// The read-registers function code every query uses.
pub const FUNC_READ_REGISTERS: u8 = 0x03;

/// Register holding the sensor-type code.
pub const REG_SENSOR_TYPE: u16 = 0x0101;

/// Register holding the unit code.
pub const REG_UNIT: u16 = 0x0102;

/// Register holding the scale exponent.
pub const REG_SCALE: u16 = 0x0103;

/// First register of the 32-bit measurement pair.
pub const REG_MEASUREMENT: u16 = 0x0108;

/// Address byte used when no other is configured.
pub const RYDASON_DEFAULT_ADDR: u8 = 1;

/// One register query, before framing.
#[derive(Clone, Copy, Debug, PartialEq, Eq, Structural)]
pub struct QueryReq {
    pub addr: u8,
    pub func: u8,
    pub reg: u16,
    pub value: u16,
}

impl QueryReq {
    /// The six body bytes: address, function, then register and count in
    /// big-endian order.
    pub open spec fn spec_body(self) -> Seq<u8> {
        seq![
            self.addr,
            self.func,
            (self.reg as int / 256) as u8,
            (self.reg as int % 256) as u8,
            (self.value as int / 256) as u8,
            (self.value as int % 256) as u8,
        ]
    }

    /// The full 8-byte frame: the body, then its CRC-16/MODBUS with the
    /// low byte first.
    pub open spec fn spec_frame(self) -> Seq<u8> {
        self.spec_body() + seq![
            (crc16_modbus(self.spec_body()) as int % 256) as u8,
            (crc16_modbus(self.spec_body()) as int / 256) as u8,
        ]
    }

    /// Encodes the query with its appended checksum.
    pub fn encode(&self) -> (r: Vec<u8>)
        ensures
            r@ == self.spec_frame(),
    {
        let mut v: Vec<u8> = Vec::new();
        v.push(self.addr);
        v.push(self.func);
        v.push((self.reg / 256) as u8);
        v.push((self.reg % 256) as u8);
        v.push((self.value / 256) as u8);
        v.push((self.value % 256) as u8);
        proof {
            assert(v@ =~= self.spec_body());
        }
        let crc = crc16_modbus_of(v.as_slice());
        v.push((crc % 256) as u8);
        v.push((crc / 256) as u8);
        proof {
            assert(v@ =~= self.spec_frame());
        }
        v
    }
}

/// The query that reads `count` registers starting at `reg`.
pub open spec fn spec_read_req(addr: u8, reg: u16, count: u16) -> QueryReq {
    QueryReq { addr, func: FUNC_READ_REGISTERS, reg, value: count }
}

/// A response's little-endian CRC trailer matches the CRC-16/MODBUS of
/// all preceding bytes.
pub open spec fn spec_rsp_crc_ok(b: Seq<u8>) -> bool
    recommends
        b.len() >= 2,
{
    &&& b[b.len() - 2] == crc16_modbus(b.take(b.len() - 2)) as int % 256
    &&& b[b.len() - 1] == crc16_modbus(b.take(b.len() - 2)) as int / 256
}

/// A response passes when it is long enough, its CRC matches, it echoes
/// the queried address, and it declares one of the two valid widths with
/// the matching total length.
pub open spec fn spec_rsp_ok(b: Seq<u8>, addr: u8) -> bool {
    &&& b.len() >= 7
    &&& spec_rsp_crc_ok(b)
    &&& b[0] == addr
    &&& ((b[2] == 2 && b.len() == 7) || (b[2] == 4 && b.len() == 9))
}

/// The error for a rejected response; the CRC is judged before any field.
pub open spec fn spec_rsp_err(b: Seq<u8>, addr: u8) -> SensorError {
    if b.len() < 7 {
        SensorError::BadFrameLength
    } else if !spec_rsp_crc_ok(b) {
        SensorError::CrcMismatch
    } else if b[0] != addr {
        SensorError::BadAddress
    } else {
        SensorError::UnexpectedReply
    }
}

/// The register value a valid response carries.
pub open spec fn spec_rsp_value(b: Seq<u8>) -> Value
    recommends
        b.len() >= 7,
{
    if b[2] == 2 {
        Value::U16(be16(b[3], b[4]) as u16)
    } else {
        Value::U32(be32(b[3], b[4], b[5], b[6]) as u32)
    }
}

/// A register value, 16 or 32 bits wide as the response declared.
#[derive(Clone, Copy, Debug, PartialEq, Eq, Structural)]
pub enum Value {
    U16(u16),
    U32(u32),
}

impl Value {
    pub fn as_u32(&self) -> (r: Result<u32, SensorError>)
        ensures
            match *self {
                Value::U32(v) => r == Ok::<u32, SensorError>(v),
                Value::U16(_) => r == Err::<u32, SensorError>(SensorError::WrongValueWidth),
            },
    {
        match self {
            Value::U32(v) => Ok(*v),
            Value::U16(_) => Err(SensorError::WrongValueWidth),
        }
    }

    pub fn as_u16(&self) -> (r: Result<u16, SensorError>)
        ensures
            match *self {
                Value::U16(v) => r == Ok::<u16, SensorError>(v),
                Value::U32(_) => r == Err::<u16, SensorError>(SensorError::WrongValueWidth),
            },
    {
        match self {
            Value::U16(v) => Ok(*v),
            Value::U32(_) => Err(SensorError::WrongValueWidth),
        }
    }
}

/// Decodes one query response addressed to `addr`.
pub fn decode_query_rsp(buf: &[u8], addr: u8) -> (r: Result<Value, SensorError>)
    ensures
        r is Ok <==> spec_rsp_ok(buf@, addr),
        r matches Ok(v) ==> v == spec_rsp_value(buf@),
        r matches Err(e) ==> e == spec_rsp_err(buf@, addr),
{
    let n = buf.len();
    if n < 7 {
        return Err(SensorError::BadFrameLength);
    }
    let body = slice_subrange(buf, 0, n - 2);
    let crc = crc16_modbus_of(body);
    if !(buf[n - 2] == (crc % 256) as u8 && buf[n - 1] == (crc / 256) as u8) {
        return Err(SensorError::CrcMismatch);
    }
    if buf[0] != addr {
        return Err(SensorError::BadAddress);
    }
    if buf[2] == 2 && n == 7 {
        Ok(Value::U16(read_be16(buf[3], buf[4])))
    } else if buf[2] == 4 && n == 9 {
        Ok(Value::U32(read_be32(buf[3], buf[4], buf[5], buf[6])))
    } else {
        Err(SensorError::UnexpectedReply)
    }
}

/// Gas type of the sensor-type register's value.
pub open spec fn spec_rydason_type(v: u16) -> Option<SensorType> {
    if v == 1 {
        Some(SensorType::CO)
    } else {
        None
    }
}

/// Unit of the unit register's value.
pub open spec fn spec_rydason_unit(v: u16) -> Option<Unit> {
    if v == 1 {
        Some(Unit::PPB)
    } else if v == 2 {
        Some(Unit::PPM)
    } else {
        None
    }
}

/// What decoding the sensor-type response yields.
pub open spec fn spec_type_result(b: Seq<u8>, addr: u8) -> Result<SensorType, SensorError> {
    if !spec_rsp_ok(b, addr) {
        Err(spec_rsp_err(b, addr))
    } else {
        match spec_rsp_value(b) {
            Value::U16(v) => match spec_rydason_type(v) {
                Some(t) => Ok(t),
                None => Err(SensorError::UnknownTypeCode),
            },
            Value::U32(_) => Err(SensorError::WrongValueWidth),
        }
    }
}

/// What decoding the unit response yields.
pub open spec fn spec_unit_result(b: Seq<u8>, addr: u8) -> Result<Unit, SensorError> {
    if !spec_rsp_ok(b, addr) {
        Err(spec_rsp_err(b, addr))
    } else {
        match spec_rsp_value(b) {
            Value::U16(v) => match spec_rydason_unit(v) {
                Some(u) => Ok(u),
                None => Err(SensorError::UnknownUnitCode),
            },
            Value::U32(_) => Err(SensorError::WrongValueWidth),
        }
    }
}

/// What decoding the scale response yields: the exponent of the divisor.
pub open spec fn spec_scale_result(b: Seq<u8>, addr: u8) -> Result<u8, SensorError> {
    if !spec_rsp_ok(b, addr) {
        Err(spec_rsp_err(b, addr))
    } else {
        match spec_rsp_value(b) {
            Value::U16(v) => if v > 9 {
                Err(SensorError::ScaleOutOfRange)
            } else {
                Ok(v as u8)
            },
            Value::U32(_) => Err(SensorError::WrongValueWidth),
        }
    }
}

/// What decoding a measurement response yields, scaled by `10^exp`.
pub open spec fn spec_measure_result(b: Seq<u8>, addr: u8, exp: u8) -> Result<
    Scaled,
    SensorError,
> {
    if !spec_rsp_ok(b, addr) {
        Err(spec_rsp_err(b, addr))
    } else {
        match spec_rsp_value(b) {
            Value::U32(v) => Ok(Scaled { raw: v, exp }),
            Value::U16(_) => Err(SensorError::WrongValueWidth),
        }
    }
}

/// What the three initialization responses together yield.
pub open spec fn spec_init_result(t: Seq<u8>, u: Seq<u8>, s: Seq<u8>, addr: u8) -> Result<
    (SensorType, Unit, u8),
    SensorError,
> {
    match spec_type_result(t, addr) {
        Err(e) => Err(e),
        Ok(ty) => match spec_unit_result(u, addr) {
            Err(e) => Err(e),
            Ok(un) => match spec_scale_result(s, addr) {
                Err(e) => Err(e),
                Ok(exp) => Ok((ty, un, exp)),
            },
        },
    }
}

/// The sensor-type query frame.
pub fn type_request(addr: u8) -> (r: Vec<u8>)
    ensures
        r@ == spec_read_req(addr, REG_SENSOR_TYPE, 1).spec_frame(),
{
    QueryReq { addr, func: FUNC_READ_REGISTERS, reg: REG_SENSOR_TYPE, value: 1 }.encode()
}

/// The unit query frame.
pub fn unit_request(addr: u8) -> (r: Vec<u8>)
    ensures
        r@ == spec_read_req(addr, REG_UNIT, 1).spec_frame(),
{
    QueryReq { addr, func: FUNC_READ_REGISTERS, reg: REG_UNIT, value: 1 }.encode()
}

/// The scale query frame.
pub fn scale_request(addr: u8) -> (r: Vec<u8>)
    ensures
        r@ == spec_read_req(addr, REG_SCALE, 1).spec_frame(),
{
    QueryReq { addr, func: FUNC_READ_REGISTERS, reg: REG_SCALE, value: 1 }.encode()
}

/// Decodes the sensor-type response.
pub fn decode_type_response(buf: &[u8], addr: u8) -> (r: Result<SensorType, SensorError>)
    ensures
        r == spec_type_result(buf@, addr),
{
    let v = match decode_query_rsp(buf, addr) {
        Ok(v) => v,
        Err(e) => {
            return Err(e);
        },
    };
    let code = match v.as_u16() {
        Ok(c) => c,
        Err(e) => {
            return Err(e);
        },
    };
    if code == 1 {
        Ok(SensorType::CO)
    } else {
        Err(SensorError::UnknownTypeCode)
    }
}

/// Decodes the unit response.
pub fn decode_unit_response(buf: &[u8], addr: u8) -> (r: Result<Unit, SensorError>)
    ensures
        r == spec_unit_result(buf@, addr),
{
    let v = match decode_query_rsp(buf, addr) {
        Ok(v) => v,
        Err(e) => {
            return Err(e);
        },
    };
    let code = match v.as_u16() {
        Ok(c) => c,
        Err(e) => {
            return Err(e);
        },
    };
    if code == 1 {
        Ok(Unit::PPB)
    } else if code == 2 {
        Ok(Unit::PPM)
    } else {
        Err(SensorError::UnknownUnitCode)
    }
}

/// Decodes the scale response into the divisor's exponent.
pub fn decode_scale_response(buf: &[u8], addr: u8) -> (r: Result<u8, SensorError>)
    ensures
        r == spec_scale_result(buf@, addr),
{
    let v = match decode_query_rsp(buf, addr) {
        Ok(v) => v,
        Err(e) => {
            return Err(e);
        },
    };
    let code = match v.as_u16() {
        Ok(c) => c,
        Err(e) => {
            return Err(e);
        },
    };
    if code > 9 {
        Err(SensorError::ScaleOutOfRange)
    } else {
        Ok(code as u8)
    }
}

/// Driver state for one Rydason device: its address, the type, unit and
/// divisor read at initialization, and the one declared channel.
#[derive(Debug, PartialEq)]
pub struct Rydason {
    pub addr: u8,
    pub sensor_type: SensorType,
    pub scale: u32,
    pub scale_exp: u8,
    pub channels: Vec<SensorChannel>,
}

impl Rydason {
    /// Builds the driver from the three initialization responses, in
    /// query order: sensor type, unit, scale.
    pub fn from_responses(addr: u8, type_rsp: &[u8], unit_rsp: &[u8], scale_rsp: &[u8]) -> (r:
        Result<Rydason, SensorError>)
        ensures
            r is Ok <==> spec_init_result(type_rsp@, unit_rsp@, scale_rsp@, addr) is Ok,
            r matches Ok(d) ==> {
                &&& spec_init_result(type_rsp@, unit_rsp@, scale_rsp@, addr) matches Ok(p)
                    && d.sensor_type == p.0 && d.scale_exp == p.2
                    && d.channels@ == seq![SensorChannel { sensor_type: p.0, unit: p.1 }]
                &&& d.addr == addr
                &&& d.scale == pow10(d.scale_exp as nat)
                &&& d.wf()
            },
            r matches Err(e) ==> spec_init_result(type_rsp@, unit_rsp@, scale_rsp@, addr)
                matches Err(e2) && e == e2,
    {
        let ty = match decode_type_response(type_rsp, addr) {
            Ok(t) => t,
            Err(e) => {
                return Err(e);
            },
        };
        let unit = match decode_unit_response(unit_rsp, addr) {
            Ok(u) => u,
            Err(e) => {
                return Err(e);
            },
        };
        let exp = match decode_scale_response(scale_rsp, addr) {
            Ok(s) => s,
            Err(e) => {
                return Err(e);
            },
        };
        let scale = pow10_u32(exp);
        let mut channels: Vec<SensorChannel> = Vec::new();
        channels.push(SensorChannel { sensor_type: ty, unit });
        proof {
            assert(channels@ =~= seq![SensorChannel { sensor_type: ty, unit }]);
        }
        Ok(Rydason { addr, sensor_type: ty, scale, scale_exp: exp, channels })
    }

    /// The measurement query frame for this device.
    pub fn measure_request(&self) -> (r: Vec<u8>)
        ensures
            r@ == spec_read_req(self.addr, REG_MEASUREMENT, 2).spec_frame(),
    {
        QueryReq { addr: self.addr, func: FUNC_READ_REGISTERS, reg: REG_MEASUREMENT, value: 2 }
            .encode()
    }

    /// Decodes one measurement response into a scaled reading.
    pub fn decode_measured_value(&self, buf: &[u8]) -> (r: Result<Scaled, SensorError>)
        ensures
            r == spec_measure_result(buf@, self.addr, self.scale_exp),
    {
        let v = match decode_query_rsp(buf, self.addr) {
            Ok(v) => v,
            Err(e) => {
                return Err(e);
            },
        };
        let raw = match v.as_u32() {
            Ok(w) => w,
            Err(e) => {
                return Err(e);
            },
        };
        Ok(Scaled { raw, exp: self.scale_exp })
    }
}

impl SensorDriver for Rydason {
    open spec fn wf(&self) -> bool {
        &&& self.scale_exp <= 9
        &&& self.scale == pow10(self.scale_exp as nat)
        &&& self.channels@.len() == 1
        &&& self.channels@[0].sensor_type == self.sensor_type
    }

    open spec fn spec_channels(&self) -> Seq<SensorChannel> {
        self.channels@
    }

    open spec fn spec_model() -> SensorModel {
        SensorModel::RYDASON
    }

    open spec fn read_request_ens(&self, r: Option<Vec<u8>>) -> bool {
        r matches Some(v) && v@ == spec_read_req(self.addr, REG_MEASUREMENT, 2).spec_frame()
    }

    open spec fn initialize_request_ens(&self, r: Option<Vec<u8>>) -> bool {
        r is None
    }

    open spec fn decode_ens(&self, buf: Seq<u8>, r: Result<Vec<SensorData>, SensorError>) -> bool {
        match r {
            Ok(d) => {
                &&& spec_measure_result(buf, self.addr, self.scale_exp) matches Ok(val)
                    && d@ == seq![
                    SensorData {
                        ty: self.channels@[0].sensor_type,
                        value: val,
                        unit: self.channels@[0].unit,
                    },
                ]
            },
            Err(e) => spec_measure_result(buf, self.addr, self.scale_exp) matches Err(e2) && e
                == e2,
        }
    }

    open spec fn spec_response_len(&self) -> usize {
        9
    }

    open spec fn spec_pacing_ms(&self) -> u64 {
        1000
    }

    fn model() -> SensorModel {
        SensorModel::RYDASON
    }

    fn get_metadata(&self) -> &Vec<SensorChannel> {
        &self.channels
    }

    fn initialize_request(&self) -> Option<Vec<u8>> {
        None
    }

    fn read_request(&self) -> Option<Vec<u8>> {
        Some(self.measure_request())
    }

    fn response_len(&self) -> usize {
        9
    }

    fn pacing_delay_ms(&self) -> u64 {
        1000
    }

    fn decode_sample(&self, buf: &[u8]) -> Result<Vec<SensorData>, SensorError> {
        let val = match self.decode_measured_value(buf) {
            Ok(v) => v,
            Err(e) => {
                return Err(e);
            },
        };
        let ch = self.channels[0];
        let mut d: Vec<SensorData> = Vec::new();
        d.push(SensorData { ty: ch.sensor_type, value: val, unit: ch.unit });
        proof {
            assert(d@ =~= seq![SensorData { ty: ch.sensor_type, value: val, unit: ch.unit }]);
        }
        Ok(d)
    }
}

} // verus!
