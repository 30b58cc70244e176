//! What holds of every poll loop: runs of events, and the laws of the
//! transition system.

use crate::codec::{decoded, SampleValue};
use crate::config::ModbusTag;
use crate::model::{ActionView, PollerView};
use crate::poller::{Event, Phase};
use crate::sink::SampleView;
use vstd::prelude::*;

verus! {

/// One event with the clock's reading at its arrival.
pub type Tick = (Event, i64);

impl PollerView {
    /// The poller after the events of `ticks`, taken in order.
    pub open spec fn run(self, ticks: Seq<Tick>) -> PollerView
        decreases ticks.len(),
    {
        if ticks.len() == 0 {
            self
        } else {
            self.run(ticks.drop_last()).next(ticks.last().0, ticks.last().1)
        }
    }

    /// The sample of tag `tag` in the current cycle when its registers
    /// read `raw`.
    pub open spec fn sample_of(self, tag: int, raw: Seq<u16>) -> SampleView {
        self.sample(tag, decoded(self.tags[tag].value, raw))
    }

    /// What is due once the work on tag `tag` has ended: the read of the
    /// next tag, or after the last tag the poll period.
    pub open spec fn due_after(self, tag: int) -> ActionView {
        if tag + 1 < self.tags.len() {
            self.read_of(tag + 1)
        } else {
            ActionView::Sleep { seconds: self.settings.poll_period as u64 }
        }
    }
}

/// No event changes the device of a poller, and a well-formed poller stays
/// well-formed.
pub proof fn lemma_next_keeps_the_device(p: PollerView, event: Event, now: i64)
    requires
        p.wf(),
    ensures
        p.next(event, now).wf(),
        p.next(event, now).device_name == p.device_name,
        p.next(event, now).ip == p.ip,
        p.next(event, now).port == p.port,
        p.next(event, now).tags == p.tags,
        p.next(event, now).settings == p.settings,
{
}

/// The timestamp of a poller changes only when a cycle begins, and is then
/// the clock's reading: all samples of one cycle carry one timestamp,
/// whatever fails and is reconnected in between.
pub proof fn lemma_timestamp_is_fixed_within_a_cycle(p: PollerView, event: Event, now: i64)
    requires
        p.wf(),
    ensures
        p.next(event, now).state.timestamp == if p.begins_cycle(event) {
            now
        } else {
            p.state.timestamp
        },
{
}

/// Registers of the length that the tag asks for become one sample: of the
/// tag that was read, under the poller's device, with the value that the
/// codec gives and the timestamp of the cycle. That sample is what is to
/// be recorded next.
pub proof fn lemma_registers_become_one_sample(p: PollerView, tag: usize, raw: Vec<u16>, now: i64)
    requires
        p.wf(),
        p.state.phase == (Phase::Reading { tag }),
        raw@.len() == p.tags[tag as int].value.register_count(),
    ensures
        p.next(Event::Registers(raw), now).pending() == ActionView::Record(
            p.sample_of(tag as int, raw@),
        ),
        p.next(Event::Registers(raw), now).state.timestamp == p.state.timestamp,
        p.next(Event::Registers(raw), now).state.live == p.state.live,
{
}

/// Whether the store kept the sample of a tag or rejected it, the cycle
/// goes on with the next tag, under the same timestamp.
pub proof fn lemma_cycle_goes_on_after_recording(
    p: PollerView,
    tag: usize,
    value: SampleValue,
    outcome: Event,
    now: i64,
)
    requires
        p.wf(),
        p.state.phase == (Phase::Recording { tag, value }),
        outcome == Event::Recorded || outcome == Event::RecordFailed,
    ensures
        p.next(outcome, now).pending() == p.due_after(tag as int),
        p.next(outcome, now).state.timestamp == p.state.timestamp,
        p.next(outcome, now).state.live == p.state.live,
{
}

/// A failed read is answered by one connection attempt, after which the
/// cycle goes on.
///
/// When the read of a tag fails, the action that is due names the tag, so
/// that the failure is reported, and asks for one connection attempt.
/// Whatever comes of that attempt, what is due after it is no further
/// attempt but the read of the next tag of the same cycle, or the poll
/// period after the last tag. The timestamp of the cycle stays through
/// both steps, and the session counts as live exactly if the attempt
/// succeeded.
pub proof fn lemma_failed_read_costs_one_connection_attempt(
    p: PollerView,
    tag: usize,
    outcome: Event,
    failed_at: i64,
    resumed_at: i64,
)
    requires
        p.wf(),
        p.state.phase == (Phase::Reading { tag }),
        outcome == Event::Connected || outcome == Event::ConnectFailed,
    ensures
        ({
            let failed = p.next(Event::ReadFailed, failed_at);
            let resumed = failed.next(outcome, resumed_at);
            &&& failed.pending() == ActionView::Reconnect {
                tag,
                timeout_secs: p.settings.connect_timeout,
            }
            &&& !failed.state.live
            &&& failed.state.timestamp == p.state.timestamp
            &&& resumed.pending() == p.due_after(tag as int)
            &&& resumed.state.timestamp == p.state.timestamp
            &&& resumed.state.live == (outcome == Event::Connected)
        }),
{
}

/// A first connection begins the first cycle: its timestamp is the clock's
/// reading at the connection, and the first tag is to be read, or with no
/// tag the poll period is due.
pub proof fn lemma_connection_begins_a_cycle(p: PollerView, now: i64)
    requires
        p.wf(),
        p.state.phase == Phase::Connecting,
    ensures
        p.next(Event::Connected, now).state == p.cycle_start(now),
        p.next(Event::Connected, now).state.timestamp == now,
        p.next(Event::Connected, now).state.live,
        p.next(Event::Connected, now).pending() == if p.tags.len() > 0 {
            p.read_of(0)
        } else {
            ActionView::Sleep { seconds: p.settings.poll_period as u64 }
        },
{
}

/// After the poll period a live session begins the next cycle at once,
/// under the clock's reading; without a live session a connection is
/// attempted first.
pub proof fn lemma_poll_period_ends(p: PollerView, now: i64)
    requires
        p.wf(),
        p.state.phase == Phase::Sleeping,
    ensures
        p.state.live ==> p.next(Event::Woke, now).state == p.cycle_start(now),
        !p.state.live ==> p.next(Event::Woke, now).pending() == (ActionView::Connect {
            timeout_secs: p.settings.connect_timeout,
        }) && p.next(Event::Woke, now).state.timestamp == p.state.timestamp,
{
}

/// The `i`-th event while a connection is refused over and over: a
/// refusal, the end of the sleep that follows it, the next refusal, and so
/// on.
pub open spec fn refusal_at(i: int) -> Event {
    if i % 2 == 0 {
        Event::ConnectFailed
    } else {
        Event::Woke
    }
}

/// Whether `ticks` tell of a connection that is refused over and over.
pub open spec fn refused_in_turn(ticks: Seq<Tick>) -> bool {
    forall|i: int| 0 <= i < ticks.len() ==> (#[trigger] ticks[i]).0 == refusal_at(i)
}

/// A refused connection is tried again after the reconnect delay, however
/// often it is refused.
///
/// While connections are refused, the poller only ever asks for a
/// connection attempt or, after each refusal, for a sleep of the reconnect
/// delay: after any number of such events, and so at every point on the
/// way, nothing else is due. No read is asked for before a connection is
/// made, the attempts are as many as the refusals and one more, and
/// between two attempts lies one reconnect delay.
pub proof fn lemma_refused_connection_is_retried(p: PollerView, ticks: Seq<Tick>)
    requires
        p.state.phase == Phase::Connecting,
        refused_in_turn(ticks),
    ensures
        p.run(ticks).state == p.in_phase(
            if ticks.len() % 2 == 0 {
                Phase::Connecting
            } else {
                Phase::Backoff
            },
        ),
        p.run(ticks).pending() == if ticks.len() % 2 == 0 {
            ActionView::Connect { timeout_secs: p.settings.connect_timeout }
        } else {
            ActionView::Sleep { seconds: p.settings.reconnect_delay }
        },
    decreases ticks.len(),
{
    if ticks.len() > 0 {
        let before = ticks.drop_last();
        assert(refused_in_turn(before)) by {
            assert forall|i: int| 0 <= i < before.len() implies (#[trigger] before[i]).0
                == refusal_at(i) by {
                assert(before[i] == ticks[i]);
            }
        }
        lemma_refused_connection_is_retried(p, before);
        lemma_run_keeps_the_device(p, before);
        assert(ticks.last() == ticks[ticks.len() - 1]);
    }
    lemma_run_keeps_the_device(p, ticks);
}

/// No sequence of events changes the device of a poller, and a well-formed
/// poller stays well-formed throughout.
pub proof fn lemma_run_keeps_the_device(p: PollerView, ticks: Seq<Tick>)
    ensures
        p.wf() ==> p.run(ticks).wf(),
        p.run(ticks).device_name == p.device_name,
        p.run(ticks).ip == p.ip,
        p.run(ticks).port == p.port,
        p.run(ticks).tags == p.tags,
        p.run(ticks).settings == p.settings,
    decreases ticks.len(),
{
    if ticks.len() > 0 {
        lemma_run_keeps_the_device(p, ticks.drop_last());
    }
}

/// Whether `event` is an outcome of reading `tag`: the read failed, or it
/// brought registers of the length that the tag asks for.
pub open spec fn read_outcome(tag: ModbusTag, event: Event) -> bool {
    ||| event == Event::ReadFailed
    ||| event matches Event::Registers(raw) && raw@.len() == tag.value.register_count()
}

/// Whether `event` is an outcome of what a read with outcome `read` leads
/// to: after a failed read the connection attempt succeeded or failed,
/// after registers the store kept or rejected the sample.
pub open spec fn settles(read: Event, event: Event) -> bool {
    if read == Event::ReadFailed {
        event == Event::Connected || event == Event::ConnectFailed
    } else {
        event == Event::Recorded || event == Event::RecordFailed
    }
}

/// Whether `ticks` tell of a stretch of a cycle from the read of tag
/// `first` on: for one tag after the other the outcome of its read, and
/// then the outcome of what that led to.
pub open spec fn stretch(tags: Seq<ModbusTag>, first: int, ticks: Seq<Tick>) -> bool {
    &&& 0 <= first
    &&& first + (ticks.len() + 1) / 2 <= tags.len()
    &&& forall|i: int|
        0 <= i < ticks.len() ==> if i % 2 == 0 {
            read_outcome(tags[first + i / 2], (#[trigger] ticks[i]).0)
        } else {
            settles(ticks[i - 1].0, ticks[i].0)
        }
}

/// The registers that `event` brought, if it brought any.
pub open spec fn registers_of(event: Event) -> Seq<u16> {
    match event {
        Event::Registers(raw) => raw@,
        _ => Seq::empty(),
    }
}

/// Whatever fails, a cycle takes every tag once, in configured order, and
/// under one timestamp.
///
/// From the read of tag `first` on, after `k` tags were read and what each
/// read led to has ended, the read of tag `first + k` is due, or the poll
/// period if that was the last tag. After the read of one more tag, its
/// sample is to be recorded, with the value decoded from the registers
/// that came, or, if the read failed, one connection attempt is due that
/// names the tag. The timestamp is throughout the one under which the
/// stretch began.
pub proof fn lemma_stretch_takes_tags_in_order(p: PollerView, first: usize, ticks: Seq<Tick>)
    requires
        p.wf(),
        p.state.phase == (Phase::Reading { tag: first }),
        stretch(p.tags, first as int, ticks),
    ensures
        p.run(ticks).state.timestamp == p.state.timestamp,
        ticks.len() % 2 == 0 ==> p.run(ticks).pending() == if first + ticks.len() / 2
            < p.tags.len() {
            p.read_of(first + ticks.len() / 2)
        } else {
            ActionView::Sleep { seconds: p.settings.poll_period as u64 }
        },
        ticks.len() % 2 == 1 ==> p.run(ticks).pending() == if ticks.last().0
            == Event::ReadFailed {
            ActionView::Reconnect {
                tag: (first + ticks.len() / 2) as usize,
                timeout_secs: p.settings.connect_timeout,
            }
        } else {
            ActionView::Record(
                p.sample_of(first + ticks.len() / 2, registers_of(ticks.last().0)),
            )
        },
{
    lemma_stretch_state(p, first, ticks);
    lemma_run_keeps_the_device(p, ticks);
}

/// The state at the end of a stretch.
proof fn lemma_stretch_state(p: PollerView, first: usize, ticks: Seq<Tick>)
    requires
        p.wf(),
        p.state.phase == (Phase::Reading { tag: first }),
        stretch(p.tags, first as int, ticks),
    ensures
        p.run(ticks).state.timestamp == p.state.timestamp,
        ticks.len() % 2 == 0 ==> p.run(ticks).state.phase == if first + ticks.len() / 2
            < p.tags.len() {
            Phase::Reading { tag: (first + ticks.len() / 2) as usize }
        } else {
            Phase::Sleeping
        },
        ticks.len() % 2 == 1 ==> p.run(ticks).state.phase == if ticks.last().0
            == Event::ReadFailed {
            Phase::Reconnecting { tag: (first + ticks.len() / 2) as usize }
        } else {
            Phase::Recording {
                tag: (first + ticks.len() / 2) as usize,
                value: decoded(
                    p.tags[first + ticks.len() / 2].value,
                    registers_of(ticks.last().0),
                ),
            }
        },
    decreases ticks.len(),
{
    if ticks.len() > 0 {
        let before = ticks.drop_last();
        assert(stretch(p.tags, first as int, before)) by {
            assert forall|i: int| 0 <= i < before.len() implies if i % 2 == 0 {
                read_outcome(p.tags[first + i / 2], (#[trigger] before[i]).0)
            } else {
                settles(before[i - 1].0, before[i].0)
            } by {
                assert(before[i] == ticks[i]);
                if i > 0 {
                    assert(before[i - 1] == ticks[i - 1]);
                }
            }
        }
        lemma_stretch_state(p, first, before);
        lemma_run_keeps_the_device(p, before);
        let n = ticks.len() - 1;
        assert(ticks.last() == ticks[n]);
        if n > 0 {
            assert(before.last() == ticks[n - 1]);
        }
    }
}

/// Whether `event` is a possible outcome of `action`.
pub open spec fn answers(action: ActionView, event: Event) -> bool {
    match action {
        ActionView::Connect { .. } | ActionView::Reconnect { .. } => {
            ||| event == Event::Connected
            ||| event == Event::ConnectFailed
        },
        ActionView::Read { count, .. } => {
            ||| event == Event::ReadFailed
            ||| event matches Event::Registers(raw) && raw@.len() == count
        },
        ActionView::Record(_) => {
            ||| event == Event::Recorded
            ||| event == Event::RecordFailed
        },
        ActionView::Sleep { .. } => event == Event::Woke,
        ActionView::Halt => false,
    }
}

/// A poll loop halts on exactly those events that are no outcome of the
/// action that was due, registers of another length than the read asked
/// for among them: no sample is ever made of such registers. A driver that
/// reports what came of each action never halts the loop, which then runs
/// for as long as it is driven.
pub proof fn lemma_halts_only_on_a_broken_protocol(p: PollerView, event: Event, now: i64)
    requires
        p.wf(),
    ensures
        p.next(event, now).state.phase == Phase::Halted <==> !answers(p.pending(), event),
        p.next(event, now).pending() == ActionView::Halt <==> !answers(p.pending(), event),
{
}

} // verus!
