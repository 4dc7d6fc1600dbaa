//! The session controller and the acquisition loop's decisions.
//!
//! A `Sensor` handle owns the cancellation flag and this handle's bus
//! subscription. Starting rejects a second session on the same handle and
//! resets the flag; stopping raises the flag and returns at once, so
//! shutdown is asynchronous. The transport I/O of the loops stays with
//! the caller; `acquisition_step` makes the per-poll decision.
//!
//! Failure policy: `start` fails synchronously only for a double start;
//! hardware construction and initialization failures are reported
//! asynchronously, as status messages published by the acquisition loop.

use vstd::prelude::*;
use vstd::string::StringExecFns;

use core::sync::atomic::AtomicBool;
use core::sync::atomic::Ordering;
use std::sync::Arc;

use crate::clock::now_timestamp;
use crate::registry::Driver;
use crate::sensor::AppMsg;
use crate::sensor::SampleData;
use crate::sensor::SensorError;
use crate::sensor::SensorModel;

verus! {

#[verifier::external_type_specification]
#[verifier::external_body]
#[verifier::reject_recursive_types(T)]
pub struct ExBusReader<T>(bus::BusReader<T>);

/// Relies on `bus::BusReader::try_recv`: returns one pending broadcast if
/// one is immediately available, and never blocks. What arrives depends
/// on the producer thread, so nothing is promised of the result.
#[verifier::external_body]
fn bus_try_recv(rx: &mut bus::BusReader<AppMsg>) -> (r: Option<AppMsg>) {
    match rx.try_recv() {
        Ok(m) => Some(m),
        Err(_) => None,
    }
}

/// One acquisition session handle: the configured model and transport
/// endpoint, whether a session is running, the shared cancellation flag,
/// and this handle's own bus subscription.
pub struct Sensor {
    pub model: SensorModel,
    pub port: String,
    pub active: bool,
    pub stop_flag: Arc<AtomicBool>,
    pub rx: bus::BusReader<AppMsg>,
}

impl Sensor {
    /// A fresh, inactive handle; construction itself cannot fail.
    pub fn new(model: &SensorModel, port: &str, rx: bus::BusReader<AppMsg>) -> (r: Result<
        Sensor,
        SensorError,
    >)
        ensures
            r matches Ok(s) && s.model == *model && s.port@ == port@ && !s.active,
    {
        Ok(
            Sensor {
                model: *model,
                port: port.to_owned(),
                active: false,
                stop_flag: Arc::new(AtomicBool::new(false)),
                rx,
            },
        )
    }

    /// Begins a session: refused while one is already active; otherwise
    /// lowers the cancellation flag and marks the handle active. The
    /// caller then spawns the acquisition loop.
    pub fn start(&mut self) -> (r: Result<(), SensorError>)
        ensures
            old(self).active ==> r == Err::<(), SensorError>(SensorError::SessionActive)
                && *final(self) == *old(self),
            !old(self).active ==> {
                &&& r == Ok::<(), SensorError>(())
                &&& final(self).active
                &&& final(self).model == old(self).model
                &&& final(self).port == old(self).port
                &&& final(self).stop_flag == old(self).stop_flag
            },
    {
        if self.active {
            return Err(SensorError::SessionActive);
        }
        self.stop_flag.store(false, Ordering::SeqCst);
        self.active = true;
        Ok(())
    }

    /// Ends the session: raises the cancellation flag and returns at
    /// once, without waiting for the loops to observe it.
    pub fn stop(&mut self)
        ensures
            !final(self).active,
            final(self).model == old(self).model,
            final(self).port == old(self).port,
            final(self).stop_flag == old(self).stop_flag,
    {
        self.stop_flag.store(true, Ordering::SeqCst);
        self.active = false;
    }

    /// Non-blocking poll of this handle's subscription: at most one
    /// pending message per call.
    pub fn try_recv(&mut self) -> (r: Option<AppMsg>)
        ensures
            final(self).model == old(self).model,
            final(self).port == old(self).port,
            final(self).active == old(self).active,
            final(self).stop_flag == old(self).stop_flag,
    {
        bus_try_recv(&mut self.rx)
    }
}

/// `<model> init`.
pub open spec fn spec_init_status(model: SensorModel) -> Seq<char> {
    model.spec_name() + " init"@
}

pub fn init_status(model: SensorModel) -> (r: String)
    ensures
        r@ == spec_init_status(model),
{
    let mut s = String::from_str(model.name());
    s.append(" init");
    proof {
        assert(s@ =~= spec_init_status(model));
    }
    s
}

/// `Failed to create <model> sensor: <error>`.
pub open spec fn spec_create_failed(model: SensorModel, e: SensorError) -> Seq<char> {
    "Failed to create "@ + model.spec_name() + " sensor: "@ + e.spec_message()
}

pub fn create_failed_status(model: SensorModel, e: SensorError) -> (r: String)
    ensures
        r@ == spec_create_failed(model, e),
{
    let mut s = String::from_str("Failed to create ");
    s.append(model.name());
    s.append(" sensor: ");
    s.append(e.message());
    proof {
        assert(s@ =~= spec_create_failed(model, e));
    }
    s
}

/// `Failed to initialize <model>: <error>`.
pub open spec fn spec_init_failed(model: SensorModel, e: SensorError) -> Seq<char> {
    "Failed to initialize "@ + model.spec_name() + ": "@ + e.spec_message()
}

pub fn init_failed_status(model: SensorModel, e: SensorError) -> (r: String)
    ensures
        r@ == spec_init_failed(model, e),
{
    let mut s = String::from_str("Failed to initialize ");
    s.append(model.name());
    s.append(": ");
    s.append(e.message());
    proof {
        assert(s@ =~= spec_init_failed(model, e));
    }
    s
}

/// `Failed to read data: <error>`.
pub open spec fn spec_read_failed(e: SensorError) -> Seq<char> {
    "Failed to read data: "@ + e.spec_message()
}

pub fn read_failed_status(e: SensorError) -> (r: String)
    ensures
        r@ == spec_read_failed(e),
{
    let mut s = String::from_str("Failed to read data: ");
    s.append(e.message());
    proof {
        assert(s@ =~= spec_read_failed(e));
    }
    s
}

/// One decision step of the acquisition loop, on the reply bytes just
/// read for this driver: on a clean decode, a sample message stamped with
/// the time now and the signal to go on; on any decode failure, the
/// terminal status message (fail-fast, no retry).
pub fn acquisition_step(driver: &Driver, buf: &[u8]) -> (r: (AppMsg, bool))
    requires
        driver.wf(),
    ensures
        r.1 ==> (r.0 matches AppMsg::Sample(s) && {
            &&& driver.decode_ens(buf@, Ok(s.data))
            &&& s.wf()
            &&& s.timestamp.wf()
            &&& s.data@.len() == driver.spec_channels().len()
            &&& forall|i: int|
                0 <= i < s.data@.len() ==> {
                    &&& (#[trigger] s.data@[i]).ty == driver.spec_channels()[i].sensor_type
                    &&& s.data@[i].unit == driver.spec_channels()[i].unit
                }
        }),
        !r.1 ==> (r.0 matches AppMsg::Status(m) && exists|e: SensorError|
            #[trigger] driver.decode_ens(buf@, Err(e)) && m@ == spec_read_failed(e)),
{
    match driver.decode_sample(buf) {
        Ok(data) => {
            let ts = now_timestamp();
            (AppMsg::Sample(SampleData { timestamp: ts, data }), true)
        },
        Err(e) => (AppMsg::Status(read_failed_status(e)), false),
    }
}

} // verus!
