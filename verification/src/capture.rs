//! The capture loop: the interrupt-context handler that reports each
//! received packet and immediately re-arms reception, together with the
//! packet buffer model and the laws of the loop.
//!
//! The hardware raises an "end of packet" event once a full packet,
//! address- and CRC-matched by the hardware framing rules, has landed in
//! the buffer. The handler clears the event, reports the buffer's first
//! `length` bytes under a monotonic counter label, and re-issues the start
//! task so capture never stalls.

use vstd::prelude::*;

use crate::config::RegisterBlock;
use crate::handoff::Slot;
use crate::report::report_line;
use crate::report::report_line_spec;

verus! {

/// Capacity in bytes of the packet buffer's payload.
pub const BUFFER_CAPACITY: usize = 255;

/// The fixed-capacity packet buffer the hardware fills between the start
/// and end events. Bytes at offsets at or beyond `length` are stale from
/// earlier captures and are never part of a report.
pub struct Packet {
    /// Length of the most recently received payload.
    pub length: u8,
    /// The payload bytes, valid below `length` only.
    pub payload: Vec<u8>,
}

impl Packet {
    /// The buffer keeps its full fixed capacity, so every length a byte
    /// can express is in bounds.
    pub open spec fn wf(self) -> bool {
        self.payload@.len() == BUFFER_CAPACITY
    }

    /// The bytes of the capture the buffer currently holds: the first
    /// `length` bytes and nothing beyond them.
    pub open spec fn received(self) -> Seq<u8> {
        self.payload@.take(self.length as int)
    }

    /// An empty buffer of full capacity, all bytes zero.
    pub fn empty() -> (p: Packet)
        ensures
            p.wf(),
            p.length == 0,
            p.payload@ == Seq::new(BUFFER_CAPACITY as nat, |i: int| 0u8),
    {
        let mut payload: Vec<u8> = Vec::new();
        let mut i: usize = 0;
        while i < BUFFER_CAPACITY
            invariant
                i <= BUFFER_CAPACITY,
                payload@ == Seq::new(i as nat, |j: int| 0u8),
            decreases BUFFER_CAPACITY - i,
        {
            payload.push(0);
            proof {
                assert(payload@ =~= Seq::new((i + 1) as nat, |j: int| 0u8));
            }
            i = i + 1;
        }
        Packet { length: 0, payload }
    }

    /// Lands a received payload in the buffer, as the hardware does between
    /// the start and end events: the bytes go in from offset zero, the
    /// length field takes their count, and the rest of the buffer keeps its
    /// stale contents.
    pub fn load(&mut self, bytes: &Vec<u8>)
        requires
            old(self).wf(),
            bytes@.len() <= BUFFER_CAPACITY,
        ensures
            final(self).wf(),
            final(self).length == bytes@.len(),
            final(self).received() == bytes@,
            forall|i: int|
                bytes@.len() <= i < BUFFER_CAPACITY ==> final(self).payload@[i] == old(
                    self,
                ).payload@[i],
    {
        let mut i: usize = 0;
        while i < bytes.len()
            invariant
                i <= bytes@.len(),
                bytes@.len() <= BUFFER_CAPACITY,
                self.wf(),
                self.length == old(self).length,
                self.payload@.take(i as int) == bytes@.take(i as int),
                forall|j: int| i <= j < BUFFER_CAPACITY ==> self.payload@[j] == old(
                    self,
                ).payload@[j],
            decreases bytes.len() - i,
        {
            self.payload.set(i, bytes[i]);
            proof {
                assert(self.payload@.take(i + 1) =~= bytes@.take(i + 1));
            }
            i = i + 1;
        }
        self.length = bytes.len() as u8;
        proof {
            assert(self.received() =~= bytes@);
        }
    }
}

/// The two states of the capture loop: nothing pending, or a complete
/// packet landed and its end event awaiting the handler.
#[derive(Clone, Copy, Debug, PartialEq, Eq, Structural)]
pub enum CaptureState {
    Idle,
    ReceivedEnd,
}

/// The register operations one handler invocation performs, in order. A
/// caller replays them onto the memory-mapped registers: clearing the end
/// event flag, then issuing the start task.
#[derive(Clone, Copy, Debug, PartialEq, Eq, Structural)]
pub enum RadioAction {
    ClearEndEvent,
    Start,
}

/// The interrupt-driven capture loop: its state and the monotonic counter
/// that labels reports.
pub struct CaptureLoop {
    pub state: CaptureState,
    pub counter: u32,
}

/// The counter label a handler invocation reports: the count of packets
/// handled before it.
pub open spec fn report_index(counter: nat) -> nat {
    counter
}

/// The counter a handler invocation leaves behind: one more than it found.
pub open spec fn next_counter(counter: nat) -> nat {
    counter + 1
}

/// The register block after one handler invocation: end event cleared,
/// start task issued, everything else untouched.
pub open spec fn end_handled_spec(rb: RegisterBlock) -> RegisterBlock {
    RegisterBlock { events_end: 0u32, tasks_start: 1u32, ..rb }
}

/// One take-and-restore cycle of the handler on the handoff slot: a taken
/// handle always comes back, with the end event cleared and the start task
/// issued; an empty slot stays empty and no register is touched.
pub open spec fn cycle_spec(s: Option<RegisterBlock>) -> Option<RegisterBlock> {
    match s {
        Option::None => Option::None,
        Option::Some(rb) => Option::Some(end_handled_spec(rb)),
    }
}

/// The actions one invocation performs: exactly one event clear followed by
/// exactly one start when the handler holds the registers; none at all on
/// the degraded path where the slot was empty.
pub open spec fn handler_actions_spec(s: Option<RegisterBlock>) -> Seq<RadioAction> {
    match s {
        Option::None => Seq::empty(),
        Option::Some(rb) => seq![RadioAction::ClearEndEvent, RadioAction::Start],
    }
}

impl CaptureLoop {
    /// A fresh capture loop: idle, no packet reported yet.
    pub fn new() -> (c: CaptureLoop)
        ensures
            c.state == CaptureState::Idle,
            c.counter == 0,
    {
        CaptureLoop { state: CaptureState::Idle, counter: 0 }
    }

    /// Records the hardware's end-of-packet event. Events arrive strictly
    /// one at a time: a new one only once the previous one was handled.
    pub fn on_end_event(&mut self)
        requires
            old(self).state == CaptureState::Idle,
        ensures
            final(self).state == CaptureState::ReceivedEnd,
            final(self).counter == old(self).counter,
    {
        self.state = CaptureState::ReceivedEnd;
    }

    /// Handles one end-of-packet event: reports the buffer's first
    /// `length` bytes under the current counter label, advances the
    /// counter, and — when the slot yields the register handle — clears
    /// the end event and re-issues start, restoring the handle before
    /// returning. An empty slot is the silent degraded path: the packet is
    /// still reported, no register operation happens.
    pub fn handle_end(&mut self, slot: &mut Slot, packet: &Packet) -> (r: (Vec<u8>, Vec<
        RadioAction,
    >))
        requires
            old(self).state == CaptureState::ReceivedEnd,
            old(self).counter < u32::MAX,
            packet.wf(),
        ensures
            final(self).state == CaptureState::Idle,
            final(self).counter as nat == next_counter(old(self).counter as nat),
            r.0@ == report_line_spec(report_index(old(self).counter as nat), packet.received()),
            final(slot)@ == cycle_spec(old(slot)@),
            r.1@ == handler_actions_spec(old(slot)@),
    {
        let line = report_line(self.counter, &packet.payload, packet.length as usize);
        self.counter = self.counter + 1;
        self.state = CaptureState::Idle;
        let mut actions: Vec<RadioAction> = Vec::new();
        match slot.take() {
            Some(rb) => {
                let mut rb = rb;
                rb.events_end = 0;
                actions.push(RadioAction::ClearEndEvent);
                rb.tasks_start = 1;
                actions.push(RadioAction::Start);
                slot.restore(rb);
                proof {
                    assert(actions@ =~= handler_actions_spec(old(slot)@));
                }
            },
            None => {
                proof {
                    assert(actions@ =~= handler_actions_spec(old(slot)@));
                }
            },
        }
        (line, actions)
    }
}

/// The counter labels of a run of consecutive end events, first handled at
/// the given counter: each invocation reports its label and hands the next
/// one on.
pub open spec fn run_indices(counter: nat, n: nat) -> Seq<nat>
    decreases n,
{
    if n == 0 {
        Seq::empty()
    } else {
        seq![report_index(counter)] + run_indices(next_counter(counter), (n - 1) as nat)
    }
}

/// Over a run of `n` events the labels count up one by one from where the
/// counter started.
pub proof fn lemma_run_indices(counter: nat, n: nat)
    ensures
        run_indices(counter, n).len() == n,
        forall|i: int| 0 <= i < n ==> run_indices(counter, n)[i] == counter + i,
    decreases n,
{
    if n > 0 {
        lemma_run_indices(counter + 1, (n - 1) as nat);
        assert forall|i: int| 0 <= i < n implies run_indices(counter, n)[i] == counter + i by {
            if i > 0 {
                assert(run_indices(counter, n)[i] == run_indices(counter + 1, (n - 1) as nat)[i
                    - 1]);
            }
        }
    }
}

/// For any `n` consecutive end events handled from a fresh capture loop,
/// the reported counter labels are exactly `0, 1, ..., n - 1`: no repeats,
/// no gaps, no resets.
pub proof fn lemma_counter_labels(n: nat)
    ensures
        run_indices(0, n).len() == n,
        forall|i: int| 0 <= i < n ==> run_indices(0, n)[i] == i,
{
    lemma_run_indices(0, n);
}

/// Iterated take-and-restore cycles on the handoff slot.
pub open spec fn cycles_spec(s: Option<RegisterBlock>, n: nat) -> Option<RegisterBlock>
    decreases n,
{
    if n == 0 {
        s
    } else {
        cycles_spec(cycle_spec(s), (n - 1) as nat)
    }
}

/// After a publish, any number of handler cycles leaves the slot
/// non-empty: the restore always happens, however often the handle was
/// taken.
pub proof fn lemma_publish_then_cycles(rb: RegisterBlock, n: nat)
    ensures
        cycles_spec(Some(rb), n) is Some,
    decreases n,
{
    if n > 0 {
        lemma_publish_then_cycles(end_handled_spec(rb), (n - 1) as nat);
    }
}

/// A report shows nothing from beyond the packet's length: two buffers
/// that agree on their length and on every byte below it produce the same
/// report line, whatever stale bytes they hold at or beyond it.
pub proof fn lemma_report_excludes_stale(counter: nat, p: Packet, q: Packet)
    requires
        p.wf(),
        q.wf(),
        p.length == q.length,
        forall|i: int| 0 <= i < p.length ==> p.payload@[i] == q.payload@[i],
    ensures
        report_line_spec(counter, p.received()) == report_line_spec(counter, q.received()),
{
    assert(p.received() =~= q.received());
}

} // verus!
