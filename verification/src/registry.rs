//! The driver registry: a closed mapping from a catalog tag to its
//! initialization plan and its constructor, and uniform dispatch over the
//! constructed driver.

use vstd::prelude::*;

use crate::nextpm::NextPM;
use crate::rydason::spec_init_result;
use crate::rydason::spec_read_req;
use crate::rydason::Rydason;
use crate::rydason::REG_SCALE;
use crate::rydason::REG_SENSOR_TYPE;
use crate::rydason::REG_UNIT;
use crate::rydason::RYDASON_DEFAULT_ADDR;
use crate::sensor::SensorChannel;
use crate::sensor::SensorData;
use crate::sensor::SensorDriver;
use crate::sensor::SensorError;
use crate::sensor::SensorModel;
use crate::tb600b_c::spec_param_channels;
use crate::tb600b_c::spec_param_err;
use crate::tb600b_c::spec_param_ok;
use crate::tb600b_c::spec_switch_mode;
use crate::tb600b_c::TB600BC;

verus! {

/// Parity of a model's serial transport.
#[derive(Clone, Copy, Debug, PartialEq, Eq, Structural)]
pub enum Parity {
    Disabled,
    Even,
}

/// Fixed transport parameters of one hardware model; not user-tunable.
#[derive(Clone, Copy, Debug, PartialEq, Eq, Structural)]
pub struct TransportConfig {
    pub baud: u32,
    pub data_bits: u8,
    pub stop_bits: u8,
    pub parity: Parity,
    pub timeout_secs: u64,
}

/// The transport parameters of each model.
pub fn transport_config(model: SensorModel) -> (r: TransportConfig)
    ensures
        model == SensorModel::EC_TB600BC ==> r == (TransportConfig {
            baud: 9600u32,
            data_bits: 8u8,
            stop_bits: 1u8,
            parity: Parity::Disabled,
            timeout_secs: 5u64,
        }),
        model == SensorModel::RYDASON ==> r == (TransportConfig {
            baud: 9600u32,
            data_bits: 8u8,
            stop_bits: 1u8,
            parity: Parity::Even,
            timeout_secs: 5u64,
        }),
        model == SensorModel::TERA_NextPM ==> r == (TransportConfig {
            baud: 115200u32,
            data_bits: 8u8,
            stop_bits: 1u8,
            parity: Parity::Even,
            timeout_secs: 5u64,
        }),
{
    match model {
        SensorModel::EC_TB600BC => TransportConfig {
            baud: 9600,
            data_bits: 8,
            stop_bits: 1,
            parity: Parity::Disabled,
            timeout_secs: 5,
        },
        SensorModel::RYDASON => TransportConfig {
            baud: 9600,
            data_bits: 8,
            stop_bits: 1,
            parity: Parity::Even,
            timeout_secs: 5,
        },
        SensorModel::TERA_NextPM => TransportConfig {
            baud: 115200,
            data_bits: 8,
            stop_bits: 1,
            parity: Parity::Even,
            timeout_secs: 5,
        },
    }
}

/// One step of a model's initialization: bytes to send, the exact reply
/// size to read back (0 for none), and a delay to hold afterwards.
#[derive(Debug, PartialEq)]
pub struct InitStep {
    pub send: Vec<u8>,
    pub read_len: usize,
    pub delay_after_ms: u64,
}

/// The initialization exchanges of `model`, in order. The caller performs
/// each send/read and hands the collected replies to `build_driver`; a
/// step that reads nothing contributes an empty reply.
pub fn init_plan(model: SensorModel) -> (r: Vec<InitStep>)
    ensures
        model == SensorModel::EC_TB600BC ==> {
            &&& r@.len() == 2
            &&& r@[0].send@ == spec_switch_mode(false) && r@[0].read_len == 0
                && r@[0].delay_after_ms == 1000
            &&& r@[1].send@ == seq![0xD7u8] && r@[1].read_len == 9 && r@[1].delay_after_ms == 0
        },
        model == SensorModel::RYDASON ==> {
            &&& r@.len() == 3
            &&& r@[0].send@ == spec_read_req(RYDASON_DEFAULT_ADDR, REG_SENSOR_TYPE, 1).spec_frame()
            &&& r@[1].send@ == spec_read_req(RYDASON_DEFAULT_ADDR, REG_UNIT, 1).spec_frame()
            &&& r@[2].send@ == spec_read_req(RYDASON_DEFAULT_ADDR, REG_SCALE, 1).spec_frame()
            &&& forall|i: int|
                0 <= i < 3 ==> (#[trigger] r@[i]).read_len == 7 && r@[i].delay_after_ms == 0
        },
        model == SensorModel::TERA_NextPM ==> r@.len() == 0,
{
    let mut plan: Vec<InitStep> = Vec::new();
    match model {
        SensorModel::EC_TB600BC => {
            plan.push(InitStep {
                send: TB600BC::switch_mode_command(false),
                read_len: 0,
                delay_after_ms: 1000,
            });
            plan.push(InitStep {
                send: TB600BC::param_query_command(),
                read_len: 9,
                delay_after_ms: 0,
            });
        },
        SensorModel::RYDASON => {
            plan.push(InitStep {
                send: crate::rydason::type_request(RYDASON_DEFAULT_ADDR),
                read_len: 7,
                delay_after_ms: 0,
            });
            plan.push(InitStep {
                send: crate::rydason::unit_request(RYDASON_DEFAULT_ADDR),
                read_len: 7,
                delay_after_ms: 0,
            });
            plan.push(InitStep {
                send: crate::rydason::scale_request(RYDASON_DEFAULT_ADDR),
                read_len: 7,
                delay_after_ms: 0,
            });
        },
        SensorModel::TERA_NextPM => {},
    }
    plan
}

/// A constructed driver of one of the catalog's models.
#[derive(Debug, PartialEq)]
pub enum Driver {
    Tb600bc(TB600BC),
    Rydason(Rydason),
    NextPm(NextPM),
}

/// What constructing a TB600B/C driver from the collected replies yields.
pub open spec fn spec_build_tb600bc(resp: Seq<Vec<u8>>, r: Result<Driver, SensorError>) -> bool {
    match r {
        Ok(d) => {
            &&& resp.len() == 2
            &&& spec_param_ok(resp[1]@)
            &&& d matches Driver::Tb600bc(t) && t.wf() && t.scale_exp == resp[1]@[6] as int / 16
                && t.channels@ == spec_param_channels(resp[1]@)
        },
        Err(e) => {
            &&& (resp.len() == 2 ==> !spec_param_ok(resp[1]@) && e == spec_param_err(resp[1]@))
            &&& (resp.len() != 2 ==> e == SensorError::UnexpectedReply)
        },
    }
}

/// What constructing a Rydason driver from the collected replies yields.
pub open spec fn spec_build_rydason(resp: Seq<Vec<u8>>, r: Result<Driver, SensorError>) -> bool {
    match r {
        Ok(d) => {
            &&& resp.len() == 3
            &&& spec_init_result(resp[0]@, resp[1]@, resp[2]@, RYDASON_DEFAULT_ADDR) matches Ok(p)
                && (d matches Driver::Rydason(t) && t.wf() && t.addr == RYDASON_DEFAULT_ADDR
                && t.sensor_type == p.0 && t.scale_exp == p.2 && t.channels@ == seq![
                SensorChannel { sensor_type: p.0, unit: p.1 },
            ])
        },
        Err(e) => {
            &&& (resp.len() == 3 ==> (spec_init_result(
                resp[0]@,
                resp[1]@,
                resp[2]@,
                RYDASON_DEFAULT_ADDR,
            ) matches Err(e2) && e == e2))
            &&& (resp.len() != 3 ==> e == SensorError::UnexpectedReply)
        },
    }
}

/// What constructing a NextPM driver from the collected replies yields.
pub open spec fn spec_build_nextpm(resp: Seq<Vec<u8>>, r: Result<Driver, SensorError>) -> bool {
    match r {
        Ok(d) => resp.len() == 0 && (d matches Driver::NextPm(t) && t.wf()),
        Err(e) => resp.len() != 0 && e == SensorError::UnexpectedReply,
    }
}

/// Constructs the driver of `model` from the replies that its `init_plan`
/// collected, one reply per step, in step order.
pub fn build_driver(model: SensorModel, responses: &Vec<Vec<u8>>) -> (r: Result<
    Driver,
    SensorError,
>)
    ensures
        r matches Ok(d) ==> d.wf() && d.spec_model_tag() == model,
        model == SensorModel::EC_TB600BC ==> spec_build_tb600bc(responses@, r),
        model == SensorModel::RYDASON ==> spec_build_rydason(responses@, r),
        model == SensorModel::TERA_NextPM ==> spec_build_nextpm(responses@, r),
{
    match model {
        SensorModel::EC_TB600BC => {
            if responses.len() != 2 {
                return Err(SensorError::UnexpectedReply);
            }
            match TB600BC::from_param_frame(responses[1].as_slice()) {
                Ok(t) => Ok(Driver::Tb600bc(t)),
                Err(e) => Err(e),
            }
        },
        SensorModel::RYDASON => {
            if responses.len() != 3 {
                return Err(SensorError::UnexpectedReply);
            }
            match Rydason::from_responses(
                RYDASON_DEFAULT_ADDR,
                responses[0].as_slice(),
                responses[1].as_slice(),
                responses[2].as_slice(),
            ) {
                Ok(t) => Ok(Driver::Rydason(t)),
                Err(e) => Err(e),
            }
        },
        SensorModel::TERA_NextPM => {
            if responses.len() != 0 {
                return Err(SensorError::UnexpectedReply);
            }
            Ok(Driver::NextPm(NextPM::assemble()))
        },
    }
}

impl Driver {
    /// Internal consistency, established by `build_driver`.
    pub open spec fn wf(&self) -> bool {
        match self {
            Driver::Tb600bc(d) => d.wf(),
            Driver::Rydason(d) => d.wf(),
            Driver::NextPm(d) => d.wf(),
        }
    }

    /// The catalog tag of the held driver.
    pub open spec fn spec_model_tag(&self) -> SensorModel {
        match self {
            Driver::Tb600bc(_) => SensorModel::EC_TB600BC,
            Driver::Rydason(_) => SensorModel::RYDASON,
            Driver::NextPm(_) => SensorModel::TERA_NextPM,
        }
    }

    /// The channels the held driver reports.
    pub open spec fn spec_channels(&self) -> Seq<SensorChannel> {
        match self {
            Driver::Tb600bc(d) => d.spec_channels(),
            Driver::Rydason(d) => d.spec_channels(),
            Driver::NextPm(d) => d.spec_channels(),
        }
    }

    /// Exact contract of `read_request`, per model.
    pub open spec fn read_request_ens(&self, r: Option<Vec<u8>>) -> bool {
        match self {
            Driver::Tb600bc(d) => d.read_request_ens(r),
            Driver::Rydason(d) => d.read_request_ens(r),
            Driver::NextPm(d) => d.read_request_ens(r),
        }
    }

    /// Exact contract of `initialize_request`, per model.
    pub open spec fn initialize_request_ens(&self, r: Option<Vec<u8>>) -> bool {
        match self {
            Driver::Tb600bc(d) => d.initialize_request_ens(r),
            Driver::Rydason(d) => d.initialize_request_ens(r),
            Driver::NextPm(d) => d.initialize_request_ens(r),
        }
    }

    /// Exact contract of `decode_sample`, per model.
    pub open spec fn decode_ens(
        &self,
        buf: Seq<u8>,
        r: Result<Vec<SensorData>, SensorError>,
    ) -> bool {
        match self {
            Driver::Tb600bc(d) => d.decode_ens(buf, r),
            Driver::Rydason(d) => d.decode_ens(buf, r),
            Driver::NextPm(d) => d.decode_ens(buf, r),
        }
    }

    pub fn model(&self) -> (r: SensorModel)
        ensures
            r == self.spec_model_tag(),
    {
        match self {
            Driver::Tb600bc(_) => SensorModel::EC_TB600BC,
            Driver::Rydason(_) => SensorModel::RYDASON,
            Driver::NextPm(_) => SensorModel::TERA_NextPM,
        }
    }

    /// Channel metadata, in reading order.
    pub fn get_metadata(&self) -> (r: &Vec<SensorChannel>)
        requires
            self.wf(),
        ensures
            r@ == self.spec_channels(),
    {
        match self {
            Driver::Tb600bc(d) => d.get_metadata(),
            Driver::Rydason(d) => d.get_metadata(),
            Driver::NextPm(d) => d.get_metadata(),
        }
    }

    /// Command to switch the device to its steady reporting mode, if any.
    pub fn initialize_request(&self) -> (r: Option<Vec<u8>>)
        requires
            self.wf(),
        ensures
            self.initialize_request_ens(r),
    {
        match self {
            Driver::Tb600bc(d) => d.initialize_request(),
            Driver::Rydason(d) => d.initialize_request(),
            Driver::NextPm(d) => d.initialize_request(),
        }
    }

    /// Command to send before each read, if the model is query-driven.
    pub fn read_request(&self) -> (r: Option<Vec<u8>>)
        requires
            self.wf(),
        ensures
            self.read_request_ens(r),
    {
        match self {
            Driver::Tb600bc(d) => d.read_request(),
            Driver::Rydason(d) => d.read_request(),
            Driver::NextPm(d) => d.read_request(),
        }
    }

    /// Exact size of one steady-state reply frame.
    pub fn response_len(&self) -> (r: usize)
        requires
            self.wf(),
        ensures
            r == match self {
                Driver::Tb600bc(_) => 9int,
                Driver::Rydason(_) => 9int,
                Driver::NextPm(_) => 16int,
            },
    {
        match self {
            Driver::Tb600bc(d) => d.response_len(),
            Driver::Rydason(d) => d.response_len(),
            Driver::NextPm(d) => d.response_len(),
        }
    }

    /// Delay to keep between polls, in milliseconds.
    pub fn pacing_delay_ms(&self) -> (r: u64)
        requires
            self.wf(),
        ensures
            r == match self {
                Driver::Tb600bc(_) => 0int,
                Driver::Rydason(_) => 1000int,
                Driver::NextPm(_) => 1000int,
            },
    {
        match self {
            Driver::Tb600bc(d) => d.pacing_delay_ms(),
            Driver::Rydason(d) => d.pacing_delay_ms(),
            Driver::NextPm(d) => d.pacing_delay_ms(),
        }
    }

    /// Decodes one steady-state reply into readings, one per channel, in
    /// metadata order and with the channel's type and unit.
    pub fn decode_sample(&self, buf: &[u8]) -> (r: Result<Vec<SensorData>, SensorError>)
        requires
            self.wf(),
        ensures
            self.decode_ens(buf@, r),
            r matches Ok(d) ==> {
                &&& d@.len() == self.spec_channels().len()
                &&& forall|i: int|
                    0 <= i < d@.len() ==> {
                        &&& (#[trigger] d@[i]).ty == self.spec_channels()[i].sensor_type
                        &&& d@[i].unit == self.spec_channels()[i].unit
                        &&& d@[i].wf()
                    }
            },
    {
        match self {
            Driver::Tb600bc(d) => d.decode_sample(buf),
            Driver::Rydason(d) => d.decode_sample(buf),
            Driver::NextPm(d) => d.decode_sample(buf),
        }
    }
}

} // verus!
