//! The poll loop of one device as a transition system over plain values.

use crate::codec::{decoded, SampleValue};
use crate::config::{ModbusTag, RegisterBank};
use crate::poller::{Event, Phase, PollSettings, PollState};
use crate::sink::SampleView;
use vstd::prelude::*;

verus! {

/// What a poller asks its driver to do, as plain values.
pub enum ActionView {
    Connect { timeout_secs: u64 },
    Reconnect { tag: usize, timeout_secs: u64 },
    Read { bank: RegisterBank, address: u16, count: u16 },
    Record(SampleView),
    Sleep { seconds: u64 },
    Halt,
}

/// A poller as plain values: the device it polls and where its loop stands.
pub struct PollerView {
    pub device_name: Seq<char>,
    pub ip: Seq<char>,
    pub port: u16,
    /// The tags of the device, in the order in which a cycle reads them.
    pub tags: Seq<ModbusTag>,
    pub settings: PollSettings,
    pub state: PollState,
}

impl PollerView {
    /// The tags can be counted by the machine, and a phase that works on a
    /// tag names a tag of the device.
    pub open spec fn wf(self) -> bool {
        &&& self.tags.len() <= usize::MAX
        &&& match self.state.phase {
            Phase::Reading { tag } => tag < self.tags.len(),
            Phase::Recording { tag, value } => tag < self.tags.len(),
            Phase::Reconnecting { tag } => tag < self.tags.len(),
            _ => true,
        }
    }

    /// The state in which a poller starts: no session yet, and a first
    /// connection attempt to make.
    pub open spec fn initial_state() -> PollState {
        PollState { phase: Phase::Connecting, live: false, timestamp: 0 }
    }

    /// The same loop in another phase.
    pub open spec fn in_phase(self, phase: Phase) -> PollState {
        PollState { phase, live: self.state.live, timestamp: self.state.timestamp }
    }

    /// The first state of a cycle that begins at `now` over a live session:
    /// the cycle's timestamp is `now`, and the first tag is to be read, or,
    /// with no tag at all, the poll period is to be slept.
    pub open spec fn cycle_start(self, now: i64) -> PollState {
        PollState {
            phase: if self.tags.len() > 0 {
                Phase::Reading { tag: 0 }
            } else {
                Phase::Sleeping
            },
            live: true,
            timestamp: now,
        }
    }

    /// The state after the work on tag `tag` has ended, whichever way: the
    /// next tag of the cycle is to be read, or, after the last tag, the
    /// poll period is to be slept. The cycle's timestamp stays.
    pub open spec fn after_tag(self, tag: usize, live: bool) -> PollState {
        PollState {
            phase: if tag + 1 < self.tags.len() {
                Phase::Reading { tag: (tag + 1) as usize }
            } else {
                Phase::Sleeping
            },
            live,
            timestamp: self.state.timestamp,
        }
    }

    /// Whether `event` makes a new cycle begin: a first connection was
    /// made, or the poll period has passed over a live session.
    pub open spec fn begins_cycle(self, event: Event) -> bool {
        ||| self.state.phase == Phase::Connecting && event == Event::Connected
        ||| self.state.phase == Phase::Sleeping && event == Event::Woke && self.state.live
    }

    /// The state that follows when `event` arrives while the clock reads
    /// `now`.
    ///
    /// An event that does not answer the action that is pending halts the
    /// loop, and so does a register reply of the wrong length.
    pub open spec fn next_state(self, event: Event, now: i64) -> PollState {
        match self.state.phase {
            Phase::Connecting => match event {
                Event::Connected => self.cycle_start(now),
                Event::ConnectFailed => self.in_phase(Phase::Backoff),
                _ => self.in_phase(Phase::Halted),
            },
            Phase::Backoff => match event {
                Event::Woke => self.in_phase(Phase::Connecting),
                _ => self.in_phase(Phase::Halted),
            },
            Phase::Reading { tag } => match event {
                Event::Registers(raw) => if raw@.len()
                    == self.tags[tag as int].value.register_count() {
                    self.in_phase(
                        Phase::Recording {
                            tag,
                            value: decoded(self.tags[tag as int].value, raw@),
                        },
                    )
                } else {
                    self.in_phase(Phase::Halted)
                },
                Event::ReadFailed => PollState {
                    phase: Phase::Reconnecting { tag },
                    live: false,
                    timestamp: self.state.timestamp,
                },
                _ => self.in_phase(Phase::Halted),
            },
            Phase::Recording { tag, value } => match event {
                Event::Recorded => self.after_tag(tag, self.state.live),
                Event::RecordFailed => self.after_tag(tag, self.state.live),
                _ => self.in_phase(Phase::Halted),
            },
            Phase::Reconnecting { tag } => match event {
                Event::Connected => self.after_tag(tag, true),
                Event::ConnectFailed => self.after_tag(tag, false),
                _ => self.in_phase(Phase::Halted),
            },
            Phase::Sleeping => match event {
                Event::Woke => if self.state.live {
                    self.cycle_start(now)
                } else {
                    self.in_phase(Phase::Connecting)
                },
                _ => self.in_phase(Phase::Halted),
            },
            Phase::Halted => self.in_phase(Phase::Halted),
        }
    }

    /// The poller after `event`: the device stays, the state moves on.
    pub open spec fn next(self, event: Event, now: i64) -> PollerView {
        PollerView {
            device_name: self.device_name,
            ip: self.ip,
            port: self.port,
            tags: self.tags,
            settings: self.settings,
            state: self.next_state(event, now),
        }
    }

    /// The read of tag `tag`: as many registers as the tag's kind asks for,
    /// from the tag's address on, in the bank of that kind.
    pub open spec fn read_of(self, tag: int) -> ActionView {
        ActionView::Read {
            bank: self.tags[tag].value.bank(),
            address: self.tags[tag].address,
            count: self.tags[tag].value.register_count(),
        }
    }

    /// The sample of tag `tag` with value `value` in the current cycle.
    pub open spec fn sample(self, tag: int, value: SampleValue) -> SampleView {
        SampleView {
            device_name: self.device_name,
            tag_name: self.tags[tag].name@,
            tag_description: self.tags[tag].description@,
            timestamp: self.state.timestamp,
            value,
        }
    }

    /// The action that is due in the present state.
    pub open spec fn pending(self) -> ActionView {
        match self.state.phase {
            Phase::Connecting => ActionView::Connect {
                timeout_secs: self.settings.connect_timeout,
            },
            Phase::Backoff => ActionView::Sleep { seconds: self.settings.reconnect_delay },
            Phase::Reading { tag } => self.read_of(tag as int),
            Phase::Recording { tag, value } => ActionView::Record(self.sample(tag as int, value)),
            Phase::Reconnecting { tag } => ActionView::Reconnect {
                tag,
                timeout_secs: self.settings.connect_timeout,
            },
            Phase::Sleeping => ActionView::Sleep { seconds: self.settings.poll_period as u64 },
            Phase::Halted => ActionView::Halt,
        }
    }
}

} // verus!
