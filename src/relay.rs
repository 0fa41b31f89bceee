//! The bidirectional relay engine, as a state machine.
//!
//! Each direction of a relay is a [`Pump`]: it reads from its source, writes
//! what it read to its destination, and on end of stream shuts down the
//! destination's write side. The driver performs the [`Action`] that a step
//! returns and reports back the [`Event`] that came of it.
use vstd::prelude::*;

use crate::error::ProxyError;

verus! {

/// What one direction of a relay is doing.
enum Phase {
    /// Waiting for the source to yield bytes.
    Reading,
    /// Bytes read from the source, not yet written downstream.
    Writing(Vec<u8>),
    /// The source ended; the destination's write side is being shut down.
    Closing,
    /// Half-closed and finished.
    Done,
    /// An unrecoverable error ended this direction.
    Failed,
}

/// What the driver observed after performing an action.
pub enum Event {
    /// A read returned these bytes; no bytes means end of stream.
    Data(Vec<u8>),
    /// The pending bytes were written downstream in full.
    Written,
    /// The destination's write side was shut down.
    ShutDown,
    /// A read, write or shutdown failed.
    Fault,
}

/// What the driver must do next for one direction.
#[derive(Clone, Copy, Debug, PartialEq, Eq, Structural)]
pub enum Action {
    /// Read from the source.
    Read,
    /// Write the pending bytes to the destination.
    Write,
    /// Shut down the destination's write side.
    Shutdown,
    /// Nothing more is to be done in this direction.
    Stop,
}

/// The phase of a direction, as the proofs see it.
pub enum PhaseState {
    Reading,
    Writing(Seq<u8>),
    Closing,
    Done,
    Failed,
}

/// One direction of a relay, as the proofs see it.
pub struct PumpState {
    pub phase: PhaseState,
    /// The counter: bytes written downstream.
    pub count: u64,
    /// Every byte read from the source so far, in order.
    pub received: Seq<u8>,
    /// Every byte written to the destination so far, in order.
    pub delivered: Seq<u8>,
}

impl PumpState {
    /// Bytes read but not yet written downstream.
    pub open spec fn pending(self) -> Seq<u8> {
        match self.phase {
            PhaseState::Writing(v) => v,
            _ => Seq::empty(),
        }
    }

    pub open spec fn finished(self) -> bool {
        self.phase is Done || self.phase is Failed
    }

    /// Written bytes are counted, and, unless the direction failed, what was
    /// received is what was delivered followed by what is pending.
    pub open spec fn wf(self) -> bool {
        &&& self.count == self.delivered.len()
        &&& !(self.phase is Failed) ==> self.received == self.delivered + self.pending()
        &&& self.phase is Writing ==> self.pending().len() > 0
    }

    /// The state after `ev`, and the action that it calls for.
    ///
    /// A finished direction ignores every event. An event that the phase does
    /// not expect is treated as a failure, as is a counter that would pass
    /// `u64::MAX`.
    pub open spec fn next(self, ev: Event) -> (PumpState, Action) {
        let failed = PumpState { phase: PhaseState::Failed, ..self };
        if self.finished() {
            (self, Action::Stop)
        } else {
            match (self.phase, ev) {
                (PhaseState::Reading, Event::Data(b)) => if b@.len() == 0 {
                    (PumpState { phase: PhaseState::Closing, ..self }, Action::Shutdown)
                } else {
                    (
                        PumpState {
                            phase: PhaseState::Writing(b@),
                            received: self.received + b@,
                            ..self
                        },
                        Action::Write,
                    )
                },
                (PhaseState::Writing(v), Event::Written) => if self.count + v.len() <= u64::MAX {
                    (
                        PumpState {
                            phase: PhaseState::Reading,
                            count: (self.count + v.len()) as u64,
                            delivered: self.delivered + v,
                            ..self
                        },
                        Action::Read,
                    )
                } else {
                    (failed, Action::Stop)
                },
                (PhaseState::Closing, Event::ShutDown) =>
                    (PumpState { phase: PhaseState::Done, ..self }, Action::Stop),
                _ => (failed, Action::Stop),
            }
        }
    }
}

/// One direction of a relay.
pub struct Pump {
    phase: Phase,
    count: u64,
    received: Ghost<Seq<u8>>,
    delivered: Ghost<Seq<u8>>,
}

impl View for Pump {
    type V = PumpState;

    closed spec fn view(&self) -> PumpState {
        PumpState {
            phase: match self.phase {
                Phase::Reading => PhaseState::Reading,
                Phase::Writing(v) => PhaseState::Writing(v@),
                Phase::Closing => PhaseState::Closing,
                Phase::Done => PhaseState::Done,
                Phase::Failed => PhaseState::Failed,
            },
            count: self.count,
            received: self.received@,
            delivered: self.delivered@,
        }
    }
}

impl Pump {
    /// A direction that has moved nothing yet and is about to read.
    pub fn new() -> (p: Pump)
        ensures
            p@ == (PumpState {
                phase: PhaseState::Reading,
                count: 0,
                received: Seq::empty(),
                delivered: Seq::empty(),
            }),
    {
        Pump { phase: Phase::Reading, count: 0, received: Ghost(Seq::empty()), delivered: Ghost(Seq::empty()) }
    }

    /// Bytes written downstream so far.
    pub fn count(&self) -> (r: u64)
        ensures
            r == self@.count,
    {
        self.count
    }

    pub fn is_finished(&self) -> (r: bool)
        ensures
            r == self@.finished(),
    {
        match self.phase {
            Phase::Done | Phase::Failed => true,
            _ => false,
        }
    }

    pub fn is_done(&self) -> (r: bool)
        ensures
            r == self@.phase is Done,
    {
        match self.phase {
            Phase::Done => true,
            _ => false,
        }
    }

    pub fn is_failed(&self) -> (r: bool)
        ensures
            r == self@.phase is Failed,
    {
        match self.phase {
            Phase::Failed => true,
            _ => false,
        }
    }

    /// The bytes to write downstream, while the direction is writing.
    pub fn pending(&self) -> (r: Option<&[u8]>)
        ensures
            r is Some <==> self@.phase is Writing,
            r is Some ==> r.unwrap()@ == self@.pending(),
    {
        match &self.phase {
            Phase::Writing(v) => Some(v.as_slice()),
            _ => None,
        }
    }

    /// Takes one event and says what to do next.
    pub fn step(&mut self, ev: Event) -> (act: Action)
        requires
            old(self)@.wf(),
        ensures
            (final(self)@, act) == old(self)@.next(ev),
            final(self)@.wf(),
    {
        if self.is_finished() {
            return Action::Stop;
        }
        let mut phase = Phase::Failed;
        std::mem::swap(&mut phase, &mut self.phase);
        match (phase, ev) {
            (Phase::Reading, Event::Data(b)) => {
                if b.len() == 0 {
                    self.phase = Phase::Closing;
                    Action::Shutdown
                } else {
                    self.received = Ghost(self.received@ + b@);
                    self.phase = Phase::Writing(b);
                    Action::Write
                }
            },
            (Phase::Writing(v), Event::Written) => {
                let n = v.len() as u64;
                if n <= u64::MAX - self.count {
                    self.count = self.count + n;
                    self.delivered = Ghost(self.delivered@ + v@);
                    self.phase = Phase::Reading;
                    Action::Read
                } else {
                    Action::Stop
                }
            },
            (Phase::Closing, Event::ShutDown) => {
                self.phase = Phase::Done;
                Action::Stop
            },
            _ => Action::Stop,
        }
    }
}

/// The two directions of a relay.
#[derive(Clone, Copy, Debug, PartialEq, Eq, Structural)]
pub enum Dir {
    /// From the inbound peer to the outbound peer.
    InToOut,
    /// From the outbound peer back to the inbound peer.
    OutToIn,
}

/// How bytes are moved: through a buffer in the process, or spliced
/// through a kernel pipe.
#[derive(Clone, Copy, Debug, PartialEq, Eq, Structural)]
pub enum Strategy {
    Buffered,
    ZeroCopy,
}

/// Zero-copy is used only where it was asked for and the platform can splice.
pub fn select_strategy(zero_copy: bool, splice_supported: bool) -> (s: Strategy)
    ensures
        s == (if zero_copy && splice_supported { Strategy::ZeroCopy } else { Strategy::Buffered }),
{
    if zero_copy && splice_supported {
        Strategy::ZeroCopy
    } else {
        Strategy::Buffered
    }
}

/// A relay, as the proofs see it.
pub struct RelayState {
    pub strategy: Strategy,
    /// From the inbound peer to the outbound peer.
    pub forward: PumpState,
    /// From the outbound peer back to the inbound peer.
    pub backward: PumpState,
}

impl RelayState {
    pub open spec fn pump(self, d: Dir) -> PumpState {
        match d {
            Dir::InToOut => self.forward,
            Dir::OutToIn => self.backward,
        }
    }

    pub open spec fn wf(self) -> bool {
        self.forward.wf() && self.backward.wf()
    }

    /// The relay after `ev` in direction `d`; the other direction is untouched.
    pub open spec fn next(self, d: Dir, ev: Event) -> (RelayState, Action) {
        let (p, a) = self.pump(d).next(ev);
        match d {
            Dir::InToOut => (RelayState { forward: p, ..self }, a),
            Dir::OutToIn => (RelayState { backward: p, ..self }, a),
        }
    }

    /// A failure in either direction ends the relay with a transfer error;
    /// it succeeds, with both counters, once both directions are done.
    pub open spec fn result(self) -> Option<Result<(u64, u64), ProxyError>> {
        if self.forward.phase is Failed || self.backward.phase is Failed {
            Some(Err(ProxyError::Transfer))
        } else if self.forward.phase is Done && self.backward.phase is Done {
            Some(Ok((self.forward.count, self.backward.count)))
        } else {
            None
        }
    }
}

/// Both directions of one relay, with the strategy chosen for it.
pub struct Relay {
    strategy: Strategy,
    forward: Pump,
    backward: Pump,
}

impl View for Relay {
    type V = RelayState;

    closed spec fn view(&self) -> RelayState {
        RelayState { strategy: self.strategy, forward: self.forward@, backward: self.backward@ }
    }
}

impl Relay {
    /// A relay that has moved nothing yet; both directions are about to read.
    pub fn new(strategy: Strategy) -> (r: Relay)
        ensures
            r@.strategy == strategy,
            r@.forward == (PumpState {
                phase: PhaseState::Reading,
                count: 0,
                received: Seq::empty(),
                delivered: Seq::empty(),
            }),
            r@.backward == r@.forward,
    {
        Relay { strategy, forward: Pump::new(), backward: Pump::new() }
    }

    pub fn strategy(&self) -> (s: Strategy)
        ensures
            s == self@.strategy,
    {
        self.strategy
    }

    /// Takes one event of direction `d` and says what to do next there.
    pub fn step(&mut self, d: Dir, ev: Event) -> (act: Action)
        requires
            old(self)@.wf(),
        ensures
            (final(self)@, act) == old(self)@.next(d, ev),
            final(self)@.wf(),
    {
        match d {
            Dir::InToOut => self.forward.step(ev),
            Dir::OutToIn => self.backward.step(ev),
        }
    }

    /// The bytes to write downstream in direction `d`, while it is writing.
    pub fn pending(&self, d: Dir) -> (r: Option<&[u8]>)
        ensures
            r is Some <==> self@.pump(d).phase is Writing,
            r is Some ==> r.unwrap()@ == self@.pump(d).pending(),
    {
        match d {
            Dir::InToOut => self.forward.pending(),
            Dir::OutToIn => self.backward.pending(),
        }
    }

    /// Whether direction `d` has finished, by success or failure.
    pub fn is_finished(&self, d: Dir) -> (r: bool)
        ensures
            r == self@.pump(d).finished(),
    {
        match d {
            Dir::InToOut => self.forward.is_finished(),
            Dir::OutToIn => self.backward.is_finished(),
        }
    }

    /// `None` while the relay is active; then the counters, or the error.
    pub fn outcome(&self) -> (r: Option<Result<(u64, u64), ProxyError>>)
        ensures
            r == self@.result(),
    {
        if self.forward.is_failed() || self.backward.is_failed() {
            Some(Err(ProxyError::Transfer))
        } else if self.forward.is_done() && self.backward.is_done() {
            Some(Ok((self.forward.count(), self.backward.count())))
        } else {
            None
        }
    }
}

/// The relay after each of `evs` in turn.
pub open spec fn run(r: RelayState, evs: Seq<(Dir, Event)>) -> RelayState
    decreases evs.len(),
{
    if evs.len() == 0 {
        r
    } else {
        run(r.next(evs[0].0, evs[0].1).0, evs.drop_first())
    }
}

/// Every step keeps a direction well formed.
pub proof fn lemma_next_wf(p: PumpState, ev: Event)
    requires
        p.wf(),
    ensures
        p.next(ev).0.wf(),
{
}

/// Every run keeps a relay well formed.
pub proof fn lemma_run_wf(r: RelayState, evs: Seq<(Dir, Event)>)
    requires
        r.wf(),
    ensures
        run(r, evs).wf(),
    decreases evs.len(),
{
    if evs.len() > 0 {
        let (d, ev) = evs[0];
        lemma_next_wf(r.pump(d), ev);
        lemma_run_wf(r.next(d, ev).0, evs.drop_first());
    }
}

/// Counters never go down.
pub proof fn lemma_counter_monotone(p: PumpState, ev: Event)
    ensures
        p.next(ev).0.count >= p.count,
{
}

/// The strategy of a relay is the one it was made with, whatever happens.
pub proof fn lemma_strategy_fixed(r: RelayState, evs: Seq<(Dir, Event)>)
    ensures
        run(r, evs).strategy == r.strategy,
    decreases evs.len(),
{
    if evs.len() > 0 {
        lemma_strategy_fixed(r.next(evs[0].0, evs[0].1).0, evs.drop_first());
    }
}

/// The bytes handed to direction `d` by the `Data` events of `evs`, while
/// that direction had not finished.
pub open spec fn fed(r: RelayState, evs: Seq<(Dir, Event)>, d: Dir) -> Seq<u8>
    decreases evs.len(),
{
    if evs.len() == 0 {
        Seq::empty()
    } else {
        let (e, ev) = evs[0];
        let here = if e == d && !r.pump(d).finished() {
            match ev {
                Event::Data(b) => b@,
                _ => Seq::empty(),
            }
        } else {
            Seq::empty()
        };
        here + fed(r.next(e, ev).0, evs.drop_first(), d)
    }
}

/// A failed direction stays failed.
pub proof fn lemma_failed_stays(r: RelayState, evs: Seq<(Dir, Event)>, d: Dir)
    requires
        r.pump(d).phase is Failed,
    ensures
        run(r, evs).pump(d).phase is Failed,
    decreases evs.len(),
{
    if evs.len() > 0 {
        lemma_failed_stays(r.next(evs[0].0, evs[0].1).0, evs.drop_first(), d);
    }
}

/// What a direction that has not failed has read is exactly what the events
/// fed it while it was live.
pub proof fn lemma_received_is_fed(r: RelayState, evs: Seq<(Dir, Event)>, d: Dir)
    requires
        r.wf(),
    ensures
        !(run(r, evs).pump(d).phase is Failed) ==> run(r, evs).pump(d).received == r.pump(d).received
            + fed(r, evs, d),
    decreases evs.len(),
{
    if evs.len() == 0 {
        assert(r.pump(d).received + Seq::<u8>::empty() =~= r.pump(d).received);
    } else {
        let (e, ev) = evs[0];
        let q = r.next(e, ev).0;
        let rest = evs.drop_first();
        lemma_next_wf(r.pump(e), ev);
        lemma_received_is_fed(q, rest, d);
        if q.pump(d).phase is Failed {
            lemma_failed_stays(q, rest, d);
        } else {
            let here = if e == d && !r.pump(d).finished() {
                match ev {
                    Event::Data(b) => b@,
                    _ => Seq::empty(),
                }
            } else {
                Seq::empty()
            };
            assert(q.pump(d).received =~= r.pump(d).received + here);
            assert(fed(r, evs, d) == here + fed(q, rest, d));
            assert(r.pump(d).received + here + fed(q, rest, d) =~= r.pump(d).received + (here + fed(q, rest, d)));
        }
    }
}

/// Byte fidelity: whatever the events, each direction that has not failed
/// has written downstream a prefix of what it read, in order; once the relay
/// has succeeded it has written exactly what it read, in both directions,
/// and, from a fresh relay, that is exactly what the events fed it.
pub proof fn lemma_byte_fidelity(r: RelayState, evs: Seq<(Dir, Event)>)
    requires
        r.wf(),
    ensures
        ({
            let q = run(r, evs);
            &&& !(q.forward.phase is Failed) ==> q.forward.delivered.is_prefix_of(q.forward.received)
            &&& !(q.backward.phase is Failed) ==> q.backward.delivered.is_prefix_of(q.backward.received)
            &&& q.result() matches Some(Ok(_)) ==> {
                &&& q.forward.delivered == q.forward.received
                &&& q.backward.delivered == q.backward.received
            }
            &&& (q.result() matches Some(Ok(_)) && r.forward.received.len() == 0
                && r.backward.received.len() == 0) ==> {
                &&& q.forward.delivered == fed(r, evs, Dir::InToOut)
                &&& q.backward.delivered == fed(r, evs, Dir::OutToIn)
            }
        }),
{
    lemma_run_wf(r, evs);
    lemma_received_is_fed(r, evs, Dir::InToOut);
    lemma_received_is_fed(r, evs, Dir::OutToIn);
    assert(r.forward.received.len() == 0 ==> r.forward.received + fed(r, evs, Dir::InToOut) =~= fed(r, evs, Dir::InToOut));
    assert(r.backward.received.len() == 0 ==> r.backward.received + fed(r, evs, Dir::OutToIn) =~= fed(r, evs, Dir::OutToIn));
    let q = run(r, evs);
    assert(!(q.forward.phase is Failed) ==> q.forward.delivered.is_prefix_of(q.forward.received));
    assert(!(q.backward.phase is Failed) ==> q.backward.delivered.is_prefix_of(q.backward.received));
}

/// Counters: on success the relay reports, for each direction, the number of
/// bytes read from its source and written to its destination, which from a
/// fresh relay is the number of bytes the events fed it.
pub proof fn lemma_counters_exact(r: RelayState, evs: Seq<(Dir, Event)>)
    requires
        r.wf(),
    ensures
        run(r, evs).result() matches Some(Ok((a, b))) ==> {
            &&& a == run(r, evs).forward.received.len()
            &&& a == run(r, evs).forward.delivered.len()
            &&& b == run(r, evs).backward.received.len()
            &&& b == run(r, evs).backward.delivered.len()
            &&& r.forward.received.len() == 0 ==> a == fed(r, evs, Dir::InToOut).len()
            &&& r.backward.received.len() == 0 ==> b == fed(r, evs, Dir::OutToIn).len()
        },
{
    lemma_run_wf(r, evs);
    lemma_received_is_fed(r, evs, Dir::InToOut);
    lemma_received_is_fed(r, evs, Dir::OutToIn);
    assert(r.forward.received.len() == 0 ==> r.forward.received + fed(r, evs, Dir::InToOut) =~= fed(r, evs, Dir::InToOut));
    assert(r.backward.received.len() == 0 ==> r.backward.received + fed(r, evs, Dir::OutToIn) =~= fed(r, evs, Dir::OutToIn));
}

/// Half-close: end of stream on a reading direction is passed on as a
/// shutdown of its destination only after all it read has been written, the
/// other direction goes on untouched, and the relay does not succeed until
/// the shutdown is done.
pub proof fn lemma_half_close(r: RelayState, d: Dir, eof: Vec<u8>)
    requires
        r.wf(),
        r.pump(d).phase is Reading,
        eof@.len() == 0,
    ensures
        ({
            let (q, a) = r.next(d, Event::Data(eof));
            let other = if d == Dir::InToOut { Dir::OutToIn } else { Dir::InToOut };
            &&& a == Action::Shutdown
            &&& q.pump(d).phase is Closing
            &&& q.pump(d).delivered == q.pump(d).received
            &&& q.pump(other) == r.pump(other)
            &&& !(q.result() matches Some(Ok(_)))
        }),
{
}

/// Strategy equivalence: two relays that differ only in their strategy go
/// through the same states and reach the same result on the same events.
pub proof fn lemma_strategy_equivalence(r1: RelayState, r2: RelayState, evs: Seq<(Dir, Event)>)
    requires
        r1.forward == r2.forward,
        r1.backward == r2.backward,
    ensures
        run(r1, evs).forward == run(r2, evs).forward,
        run(r1, evs).backward == run(r2, evs).backward,
        run(r1, evs).result() == run(r2, evs).result(),
    decreases evs.len(),
{
    if evs.len() > 0 {
        let (d, ev) = evs[0];
        lemma_strategy_equivalence(r1.next(d, ev).0, r2.next(d, ev).0, evs.drop_first());
    }
}

} // verus!
