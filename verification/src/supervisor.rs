//! What a run starts with: the destinations to create, and for each
//! configured device what is launched for it.

use crate::config::{Config, DeviceConfig, DeviceType};
use crate::model::PollerView;
use crate::poller::{
    PollSettings, Poller, DEFAULT_CONNECT_TIMEOUT_SECS, DEFAULT_RECONNECT_DELAY_SECS,
};
use crate::sink::{create_table_statement, create_table_text};
use vstd::prelude::*;

verus! {

/// What is done for one configured device when a run starts.
#[derive(Debug)]
pub enum Launch {
    /// A stream-socket device: this poller is driven in an execution
    /// context of its own, for as long as the process lives.
    Poll(Poller),
    /// A serial device: it is announced with its tags, and not polled.
    Announce,
    /// A device of a protocol without an engine: nothing is done.
    Skip,
}

/// The timing that a run derives from the global poll period.
pub open spec fn run_settings(poll_period: u32) -> PollSettings {
    PollSettings {
        poll_period,
        reconnect_delay: DEFAULT_RECONNECT_DELAY_SECS,
        connect_timeout: DEFAULT_CONNECT_TIMEOUT_SECS,
    }
}

/// Whether `launch` is what a run with the given timing starts for
/// `device`: for a stream-socket device a fresh poller of that device, for
/// a serial device an announcement, for any other nothing.
pub open spec fn launches(device: DeviceConfig, settings: PollSettings, launch: Launch) -> bool {
    match device.device_type {
        DeviceType::ModbusTcp(endpoint) => {
            &&& launch matches Launch::Poll(poller)
            &&& poller@ == (PollerView {
                device_name: device.name@,
                ip: endpoint.ip@,
                port: endpoint.port,
                tags: endpoint.tags@,
                settings,
                state: PollerView::initial_state(),
            })
        },
        DeviceType::ModbusRtu(_) => launch is Announce,
        _ => launch is Skip,
    }
}

/// What a run starts for one device.
pub fn launch_for(device: &DeviceConfig, settings: PollSettings) -> (launch: Launch)
    ensures
        launches(*device, settings, launch),
{
    match &device.device_type {
        DeviceType::ModbusTcp(endpoint) => Launch::Poll(
            Poller::new(device.name.as_str(), endpoint, settings),
        ),
        DeviceType::ModbusRtu(_) => Launch::Announce,
        _ => Launch::Skip,
    }
}

/// What a run starts, device by device in configured order: one entry for
/// each device, every poller timed by the global poll period and the
/// default reconnect delay and connection timeout.
pub fn launch_plan(config: &Config) -> (plan: Vec<Launch>)
    ensures
        plan@.len() == config.devices@.len(),
        forall|i: int|
            0 <= i < plan@.len() ==> launches(
                config.devices@[i],
                run_settings(config.poll_period),
                #[trigger] plan@[i],
            ),
{
    let settings = PollSettings::new(config.poll_period);
    let mut plan: Vec<Launch> = Vec::new();
    let mut i: usize = 0;
    while i < config.devices.len()
        invariant
            i <= config.devices.len(),
            plan@.len() == i,
            settings == run_settings(config.poll_period),
            forall|j: int|
                0 <= j < i ==> launches(config.devices@[j], settings, #[trigger] plan@[j]),
        decreases config.devices.len() - i,
    {
        plan.push(launch_for(&config.devices[i], settings));
        i += 1;
    }
    plan
}

/// The statements that create the destinations of a run, one for each
/// configured device of whatever transport, in configured order. Each may
/// be executed any number of times.
pub fn schema_statements(config: &Config) -> (statements: Vec<String>)
    ensures
        statements@.len() == config.devices@.len(),
        forall|i: int|
            0 <= i < statements@.len() ==> (#[trigger] statements@[i])@ == create_table_text(
                config.devices@[i].name@,
            ),
{
    let mut statements: Vec<String> = Vec::new();
    let mut i: usize = 0;
    while i < config.devices.len()
        invariant
            i <= config.devices.len(),
            statements@.len() == i,
            forall|j: int|
                0 <= j < i ==> (#[trigger] statements@[j])@ == create_table_text(
                    config.devices@[j].name@,
                ),
        decreases config.devices.len() - i,
    {
        statements.push(create_table_statement(config.devices[i].name.as_str()));
        i += 1;
    }
    statements
}

} // verus!
