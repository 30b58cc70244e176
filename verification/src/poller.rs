//! The poll loop of one device, driven event by event.
//!
//! A [`Poller`] holds the lifecycle of its device's session and the
//! schedule of its read cycles, and never touches a socket, the store or a
//! timer. It names the action that is due; its driver performs the action
//! and reports the outcome as an [`Event`], on which the poller names the
//! next action.
//!
//! A loop starts disconnected and attempts connections, one reconnect
//! delay apart, until one is made. Each cycle then takes one timestamp and
//! reads the tags in configured order; every sample goes to the store as
//! soon as it is read. A read that fails disconnects the session: one
//! connection attempt follows at once, and the cycle goes on with the next
//! tag, over the new session if the attempt gave one, over the old one if
//! not. After the last tag the loop sleeps the poll period; the next cycle
//! begins over a connected session, and where there is none the loop is
//! back at attempting connections.

use crate::clock::wall_clock_seconds;
use crate::codec::{decode, SampleValue};
use crate::config::{clone_tags, ModbusTag, ModbusTcpConfig, RegisterBank};
use crate::model::{ActionView, PollerView};
use crate::sink::Sample;
use vstd::prelude::*;

verus! {

/// Seconds between two connection attempts, unless configured otherwise.
pub const DEFAULT_RECONNECT_DELAY_SECS: u64 = 5;

/// Seconds after which one connection attempt is given up, unless
/// configured otherwise.
pub const DEFAULT_CONNECT_TIMEOUT_SECS: u64 = 5;

/// The timing of a poll loop, in seconds.
#[derive(Debug, Clone, Copy, PartialEq, Eq)]
pub struct PollSettings {
    /// Pause between two read cycles.
    pub poll_period: u32,
    /// Pause after a refused connection, before the next attempt.
    pub reconnect_delay: u64,
    /// Bound on one connection attempt.
    pub connect_timeout: u64,
}

impl PollSettings {
    /// Settings with the given poll period and the default delay and
    /// timeout.
    pub fn new(poll_period: u32) -> (settings: PollSettings)
        ensures
            settings == (PollSettings {
                poll_period,
                reconnect_delay: DEFAULT_RECONNECT_DELAY_SECS,
                connect_timeout: DEFAULT_CONNECT_TIMEOUT_SECS,
            }),
    {
        PollSettings {
            poll_period,
            reconnect_delay: DEFAULT_RECONNECT_DELAY_SECS,
            connect_timeout: DEFAULT_CONNECT_TIMEOUT_SECS,
        }
    }
}

/// Where a poll loop stands: which outcome it waits for.
#[derive(Debug, Clone, Copy, PartialEq, Eq)]
pub enum Phase {
    /// A connection attempt is due: the device has no live session.
    Connecting,
    /// The last connection attempt was refused; the reconnect delay is due.
    Backoff,
    /// The read of tag `tag` is due.
    Reading { tag: usize },
    /// The sample read for tag `tag` is to be recorded.
    Recording { tag: usize, value: SampleValue },
    /// The read of tag `tag` failed; one connection attempt is due.
    Reconnecting { tag: usize },
    /// The cycle is over; the poll period is due.
    Sleeping,
    /// The driver broke the protocol; the loop has stopped for good.
    Halted,
}

/// The part of a poller that moves.
#[derive(Debug, Clone, Copy, PartialEq, Eq)]
pub struct PollState {
    pub phase: Phase,
    /// Whether the session is connected: a connection was made, and no
    /// read has failed since. A failed read disconnects it at once, and
    /// only a connection attempt that succeeds connects it again.
    pub live: bool,
    /// Epoch seconds at which the current cycle began.
    pub timestamp: i64,
}

/// The outcome of an action, as the driver reports it.
#[derive(Debug, PartialEq, Eq)]
pub enum Event {
    /// A connection attempt gave a session.
    Connected,
    /// A connection attempt was refused or timed out.
    ConnectFailed,
    /// A read returned these registers; a coil counts as 0 or 1.
    Registers(Vec<u16>),
    /// A read failed: the device answered with an exception, timed out, or
    /// the transport broke.
    ReadFailed,
    /// The store kept the sample.
    Recorded,
    /// The store rejected the sample.
    RecordFailed,
    /// A sleep has ended.
    Woke,
}

/// What the driver is to do next.
#[derive(Debug, PartialEq, Eq)]
pub enum Action {
    /// Attempt a connection to the device, bounded by the timeout.
    Connect { timeout_secs: u64 },
    /// The read of tag `tag` failed: report it, then attempt one connection
    /// and, if it succeeds, let the new session replace the old one.
    Reconnect { tag: usize, timeout_secs: u64 },
    /// Read `count` consecutive registers of `bank` from `address` on.
    Read { bank: RegisterBank, address: u16, count: u16 },
    /// Hand the sample to the store.
    Record(Sample),
    /// Sleep.
    Sleep { seconds: u64 },
    /// Stop driving this poller and fail loudly: it was handed an event
    /// that no correct driver produces.
    Halt,
}

impl View for Action {
    type V = ActionView;

    open spec fn view(&self) -> ActionView {
        match *self {
            Action::Connect { timeout_secs } => ActionView::Connect { timeout_secs },
            Action::Reconnect { tag, timeout_secs } => ActionView::Reconnect { tag, timeout_secs },
            Action::Read { bank, address, count } => ActionView::Read { bank, address, count },
            Action::Record(sample) => ActionView::Record(sample@),
            Action::Sleep { seconds } => ActionView::Sleep { seconds },
            Action::Halt => ActionView::Halt,
        }
    }
}

/// The poll loop of one stream-socket device.
#[derive(Debug)]
pub struct Poller {
    device_name: String,
    ip: String,
    port: u16,
    tags: Vec<ModbusTag>,
    settings: PollSettings,
    state: PollState,
}

impl View for Poller {
    type V = PollerView;

    closed spec fn view(&self) -> PollerView {
        PollerView {
            device_name: self.device_name@,
            ip: self.ip@,
            port: self.port,
            tags: self.tags@,
            settings: self.settings,
            state: self.state,
        }
    }
}

impl Poller {
    #[verifier::type_invariant]
    spec fn inv(&self) -> bool {
        self@.wf()
    }

    /// A poller for the device `device_name` at the endpoint and with the
    /// tags of `endpoint`. It starts without a session: a connection
    /// attempt is due.
    pub fn new(device_name: &str, endpoint: &ModbusTcpConfig, settings: PollSettings) -> (poller:
        Poller)
        ensures
            poller@ == (PollerView {
                device_name: device_name@,
                ip: endpoint.ip@,
                port: endpoint.port,
                tags: endpoint.tags@,
                settings,
                state: PollerView::initial_state(),
            }),
            poller@.wf(),
    {
        let tags = clone_tags(&endpoint.tags);
        assert(tags@.len() == tags.len());
        Poller {
            device_name: device_name.to_owned(),
            ip: endpoint.ip.clone(),
            port: endpoint.port,
            tags,
            settings,
            state: PollState { phase: Phase::Connecting, live: false, timestamp: 0 },
        }
    }

    /// Name of the device.
    pub fn device_name(&self) -> (name: &str)
        ensures
            name@ == self@.device_name,
    {
        self.device_name.as_str()
    }

    /// Host of the device's endpoint.
    pub fn ip(&self) -> (ip: &str)
        ensures
            ip@ == self@.ip,
    {
        self.ip.as_str()
    }

    /// The TCP port of the endpoint.
    pub fn port(&self) -> (port: u16)
        ensures
            port == self@.port,
    {
        self.port
    }

    /// The tags of the device, in the order in which a cycle reads them.
    pub fn tags(&self) -> (tags: &Vec<ModbusTag>)
        ensures
            tags@ == self@.tags,
    {
        &self.tags
    }

    /// The timing of the loop.
    pub fn settings(&self) -> (settings: PollSettings)
        ensures
            settings == self@.settings,
    {
        self.settings
    }

    /// Where the loop stands.
    pub fn state(&self) -> (state: PollState)
        ensures
            state == self@.state,
            self@.wf(),
    {
        proof {
            use_type_invariant(self);
        }
        self.state
    }

    fn cycle_start(&self, now: i64) -> (state: PollState)
        ensures
            state == self@.cycle_start(now),
    {
        let phase = if self.tags.len() > 0 {
            Phase::Reading { tag: 0 }
        } else {
            Phase::Sleeping
        };
        PollState { phase, live: true, timestamp: now }
    }

    fn after_tag(&self, tag: usize, live: bool) -> (state: PollState)
        requires
            tag < self@.tags.len(),
        ensures
            state == self@.after_tag(tag, live),
    {
        let count: usize = self.tags.len();
        let phase = if tag + 1 < count {
            Phase::Reading { tag: tag + 1 }
        } else {
            Phase::Sleeping
        };
        PollState { phase, live, timestamp: self.state.timestamp }
    }

    fn in_phase(&self, phase: Phase) -> (state: PollState)
        ensures
            state == self@.in_phase(phase),
    {
        PollState { phase, live: self.state.live, timestamp: self.state.timestamp }
    }

    /// The action that is due in the present state.
    pub fn pending(&self) -> (action: Action)
        ensures
            action@ == self@.pending(),
    {
        proof {
            use_type_invariant(self);
        }
        match self.state.phase {
            Phase::Connecting => Action::Connect { timeout_secs: self.settings.connect_timeout },
            Phase::Backoff => Action::Sleep { seconds: self.settings.reconnect_delay },
            Phase::Reading { tag } => {
                let kind = self.tags[tag].value;
                Action::Read {
                    bank: kind.bank(),
                    address: self.tags[tag].address,
                    count: kind.register_count(),
                }
            },
            Phase::Recording { tag, value } => Action::Record(
                Sample {
                    device_name: self.device_name.clone(),
                    tag_name: self.tags[tag].name.clone(),
                    tag_description: self.tags[tag].description.clone(),
                    timestamp: self.state.timestamp,
                    value,
                },
            ),
            Phase::Reconnecting { tag } => Action::Reconnect {
                tag,
                timeout_secs: self.settings.connect_timeout,
            },
            Phase::Sleeping => Action::Sleep { seconds: self.settings.poll_period as u64 },
            Phase::Halted => Action::Halt,
        }
    }

    /// Whether `event` makes a new cycle begin, so that the clock is read.
    pub fn begins_cycle(&self, event: &Event) -> (begins: bool)
        ensures
            begins == self@.begins_cycle(*event),
    {
        match self.state.phase {
            Phase::Connecting => matches!(event, Event::Connected),
            Phase::Sleeping => self.state.live && matches!(event, Event::Woke),
            _ => false,
        }
    }

    /// Takes the outcome of the pending action, with the clock's reading
    /// `now`, moves to the next state and returns the action that is due
    /// there.
    pub fn advance(&mut self, event: Event, now: i64) -> (action: Action)
        ensures
            final(self)@ == old(self)@.next(event, now),
            final(self)@.wf(),
            action@ == final(self)@.pending(),
    {
        proof {
            use_type_invariant(&*self);
        }
        let state = match self.state.phase {
            Phase::Connecting => match event {
                Event::Connected => self.cycle_start(now),
                Event::ConnectFailed => self.in_phase(Phase::Backoff),
                _ => self.in_phase(Phase::Halted),
            },
            Phase::Backoff => match event {
                Event::Woke => self.in_phase(Phase::Connecting),
                _ => self.in_phase(Phase::Halted),
            },
            Phase::Reading { tag } => match event {
                Event::Registers(raw) => {
                    let kind = self.tags[tag].value;
                    if raw.len() == kind.register_count() as usize {
                        self.in_phase(Phase::Recording { tag, value: decode(kind, raw.as_slice()) })
                    } else {
                        self.in_phase(Phase::Halted)
                    }
                },
                Event::ReadFailed => PollState {
                    phase: Phase::Reconnecting { tag },
                    live: false,
                    timestamp: self.state.timestamp,
                },
                _ => self.in_phase(Phase::Halted),
            },
            Phase::Recording { tag, value } => match event {
                Event::Recorded => self.after_tag(tag, self.state.live),
                Event::RecordFailed => self.after_tag(tag, self.state.live),
                _ => self.in_phase(Phase::Halted),
            },
            Phase::Reconnecting { tag } => match event {
                Event::Connected => self.after_tag(tag, true),
                Event::ConnectFailed => self.after_tag(tag, false),
                _ => self.in_phase(Phase::Halted),
            },
            Phase::Sleeping => match event {
                Event::Woke => if self.state.live {
                    self.cycle_start(now)
                } else {
                    self.in_phase(Phase::Connecting)
                },
                _ => self.in_phase(Phase::Halted),
            },
            Phase::Halted => self.in_phase(Phase::Halted),
        };
        self.state = state;
        self.pending()
    }

    /// Takes the outcome of the pending action and returns the action that
    /// is due next. Where the outcome makes a new cycle begin, the cycle's
    /// timestamp is read from the wall clock.
    pub fn step(&mut self, event: Event) -> (action: Action)
        ensures
            exists|now: i64| final(self)@ == old(self)@.next(event, now),
            !old(self)@.begins_cycle(event) ==> final(self)@ == old(self)@.next(
                event,
                old(self)@.state.timestamp,
            ),
            final(self)@.wf(),
            action@ == final(self)@.pending(),
    {
        let now = if self.begins_cycle(&event) {
            wall_clock_seconds()
        } else {
            self.state.timestamp
        };
        self.advance(event, now)
    }
}

} // verus!
