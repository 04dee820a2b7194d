//! The buffered copy engine.
//!
//! The engine moves a byte stream from a source to a sink one chunk at a
//! time. It performs no I/O itself: it tells its driver what to do next (an
//! [`Action`]) and is told what happened (an [`Event`]). Between two chunks it
//! asks for the abort flag, so a stop request is honoured at a chunk boundary
//! and never in the middle of a chunk.
//!
//! The behaviour is fixed by the spec function [`step`]; [`run`] folds it over
//! a whole trace of events, and the lemmas at the end of this module state
//! what holds of every trace.

use vstd::prelude::*;

verus! {

/// Chunk size of the default configuration, in bytes.
pub const DEFAULT_CHUNK_SIZE: usize = 20000;

/// Number of chunks that the default buffer holds.
pub const DEFAULT_BATCH_FACTOR: usize = 40;

/// What kind of failure a stream reported.
#[derive(Clone, Copy, Debug, PartialEq, Eq)]
pub enum FaultKind {
    /// The operating system refused a read, a write or a flush.
    Io,
    /// The descrambling stage could not decode its input.
    Decode,
}

/// A failure reported by the source or by the sink.
#[derive(Clone, Copy, Debug, PartialEq, Eq)]
pub struct Fault {
    pub kind: FaultKind,
    /// The raw operating-system code, where there is one.
    pub code: Option<i32>,
}

/// The end of the pipeline that failed.
#[derive(Clone, Copy, Debug, PartialEq, Eq)]
pub enum Side {
    /// The source, together with a descrambling stage in front of it.
    Source,
    Sink,
}

/// Why a copy failed.
#[derive(Clone, Copy, Debug, PartialEq, Eq)]
pub struct TransferError {
    pub side: Side,
    pub fault: Fault,
}

/// How a copy ended.
#[derive(Clone, Copy, Debug, PartialEq, Eq)]
pub enum PipelineOutcome {
    /// The source reached its end; the count is the number of bytes written.
    Completed(u64),
    /// A stop was requested; the count is the number of bytes written.
    Aborted(u64),
    /// The source or the sink failed.
    Failed(TransferError),
}

/// Size of the buffer between source and sink.
#[derive(Clone, Copy, Debug, PartialEq, Eq)]
pub struct CopyConfig {
    chunk_size: usize,
    batch_factor: usize,
    capacity: usize,
}

impl CopyConfig {
    #[verifier::type_invariant]
    spec fn well_formed(self) -> bool {
        &&& self.chunk_size >= 1
        &&& self.batch_factor >= 1
        &&& self.capacity == self.chunk_size * self.batch_factor
    }

    /// The chunk size the configuration was made with.
    pub closed spec fn spec_chunk_size(self) -> usize {
        self.chunk_size
    }

    /// The batch factor the configuration was made with.
    pub closed spec fn spec_batch_factor(self) -> usize {
        self.batch_factor
    }

    /// The buffer capacity in bytes.
    pub closed spec fn spec_capacity(self) -> usize {
        self.capacity
    }

    /// A buffer of `batch_factor` chunks of `chunk_size` bytes each, or `None`
    /// where either is zero or the product does not fit in `usize`.
    pub fn new(chunk_size: usize, batch_factor: usize) -> (config: Option<CopyConfig>)
        ensures
            config.is_some() <==> chunk_size >= 1 && batch_factor >= 1 && chunk_size
                * batch_factor <= usize::MAX,
            config matches Some(c) ==> c.spec_chunk_size() == chunk_size && c.spec_batch_factor()
                == batch_factor && c.spec_capacity() == chunk_size * batch_factor,
    {
        if chunk_size == 0 || batch_factor == 0 {
            return None;
        }
        match chunk_size.checked_mul(batch_factor) {
            Some(capacity) => Some(CopyConfig { chunk_size, batch_factor, capacity }),
            None => None,
        }
    }

    /// The default buffer as a value.
    pub closed spec fn spec_standard() -> CopyConfig {
        CopyConfig {
            chunk_size: DEFAULT_CHUNK_SIZE,
            batch_factor: DEFAULT_BATCH_FACTOR,
            capacity: 800_000,
        }
    }

    /// The default buffer: forty chunks of twenty thousand bytes.
    pub fn standard() -> (config: CopyConfig)
        ensures
            config == CopyConfig::spec_standard(),
            config.spec_chunk_size() == DEFAULT_CHUNK_SIZE,
            config.spec_batch_factor() == DEFAULT_BATCH_FACTOR,
            config.spec_capacity() == 800_000,
    {
        CopyConfig {
            chunk_size: DEFAULT_CHUNK_SIZE,
            batch_factor: DEFAULT_BATCH_FACTOR,
            capacity: 800_000,
        }
    }

    pub fn chunk_size(&self) -> (n: usize)
        ensures
            n == self.spec_chunk_size(),
            n >= 1,
    {
        proof {
            use_type_invariant(self);
        }
        self.chunk_size
    }

    pub fn batch_factor(&self) -> (n: usize)
        ensures
            n == self.spec_batch_factor(),
            n >= 1,
    {
        proof {
            use_type_invariant(self);
        }
        self.batch_factor
    }

    /// The buffer capacity: the most that one read may return.
    pub fn capacity(&self) -> (n: usize)
        ensures
            n == self.spec_capacity(),
            n == self.spec_chunk_size() * self.spec_batch_factor(),
            n >= 1,
    {
        proof {
            use_type_invariant(self);
            assert(self.chunk_size * self.batch_factor >= 1) by (nonlinear_arith)
                requires
                    self.chunk_size >= 1,
                    self.batch_factor >= 1,
            ;
        }
        self.capacity
    }
}

/// Where the engine stands in its cycle.
#[derive(Clone, Copy, Debug, PartialEq, Eq)]
pub enum Phase {
    /// Between two chunks: the abort flag must be looked at.
    Boundary,
    /// A read from the source is outstanding.
    Reading,
    /// A chunk of `pending` bytes was read and must be written in full.
    Writing { pending: usize },
    /// No more chunks will be moved; the sink must be flushed.
    Flushing { aborted: bool },
    /// The copy is over.
    Done(PipelineOutcome),
}

/// What the driver must do next.
#[derive(Clone, Copy, Debug, PartialEq, Eq)]
pub enum Action {
    /// Look at the abort flag and report it with [`Event::AbortChecked`].
    CheckAbort,
    /// Read at most `max` bytes from the source and report the result with
    /// [`Event::Read`] or [`Event::SourceFailed`].
    Read { max: usize },
    /// Write all `len` bytes of the chunk just read and report the result with
    /// [`Event::ChunkWritten`] or [`Event::SinkFailed`].
    Write { len: usize },
    /// Flush the sink and report the result with [`Event::Flushed`] or
    /// [`Event::SinkFailed`].
    Flush,
    /// Nothing more: the copy ended with this outcome.
    Stop(PipelineOutcome),
}

/// What the driver observed.
#[derive(Clone, Copy, Debug, PartialEq, Eq)]
pub enum Event {
    /// The abort flag was looked at.
    AbortChecked { requested: bool },
    /// The source returned `len` bytes; zero means that it reached its end.
    Read { len: usize },
    /// The source, or the descrambling stage in front of it, failed.
    SourceFailed(Fault),
    /// The whole chunk reached the sink.
    ChunkWritten,
    /// The sink refused a write or a flush.
    SinkFailed(Fault),
    /// The sink was flushed.
    Flushed,
}

/// The engine as a value: buffer capacity, bytes written so far, and phase.
pub struct EngineState {
    pub capacity: usize,
    pub moved: u64,
    pub phase: Phase,
}

/// The state a fresh engine starts in.
pub open spec fn initial(capacity: usize) -> EngineState {
    EngineState { capacity, moved: 0, phase: Phase::Boundary }
}

/// The action that a state is waiting for.
pub open spec fn pending_action(s: EngineState) -> Action {
    match s.phase {
        Phase::Boundary => Action::CheckAbort,
        Phase::Reading => Action::Read { max: s.capacity },
        Phase::Writing { pending } => Action::Write { len: pending },
        Phase::Flushing { .. } => Action::Flush,
        Phase::Done(outcome) => Action::Stop(outcome),
    }
}

/// Whether `e` reports the result of the action that `s` is waiting for.
///
/// A read that claims more bytes than the buffer holds is no answer.
pub open spec fn answers(s: EngineState, e: Event) -> bool {
    match (s.phase, e) {
        (Phase::Boundary, Event::AbortChecked { .. }) => true,
        (Phase::Reading, Event::Read { len }) => len <= s.capacity,
        (Phase::Reading, Event::SourceFailed(_)) => true,
        (Phase::Writing { .. }, Event::ChunkWritten) => true,
        (Phase::Writing { .. }, Event::SinkFailed(_)) => true,
        (Phase::Flushing { .. }, Event::Flushed) => true,
        (Phase::Flushing { .. }, Event::SinkFailed(_)) => true,
        _ => false,
    }
}

/// A byte count as the engine reports it: capped at `u64::MAX`.
pub open spec fn saturated(total: int) -> u64 {
    if total >= u64::MAX {
        u64::MAX
    } else if total <= 0 {
        0
    } else {
        total as u64
    }
}

/// The state after `e`. An event that does not answer the pending action
/// changes nothing.
pub open spec fn step(s: EngineState, e: Event) -> EngineState {
    match (s.phase, e) {
        (Phase::Boundary, Event::AbortChecked { requested }) => EngineState {
            phase: if requested {
                Phase::Flushing { aborted: true }
            } else {
                Phase::Reading
            },
            ..s
        },
        (Phase::Reading, Event::Read { len }) => if len > s.capacity {
            s
        } else if len == 0 {
            EngineState { phase: Phase::Flushing { aborted: false }, ..s }
        } else {
            EngineState { phase: Phase::Writing { pending: len }, ..s }
        },
        (Phase::Reading, Event::SourceFailed(fault)) => EngineState {
            phase: Phase::Done(
                PipelineOutcome::Failed(TransferError { side: Side::Source, fault }),
            ),
            ..s
        },
        (Phase::Writing { pending }, Event::ChunkWritten) => EngineState {
            moved: saturated(s.moved + pending),
            phase: Phase::Boundary,
            ..s
        },
        (Phase::Writing { .. }, Event::SinkFailed(fault)) => EngineState {
            phase: Phase::Done(PipelineOutcome::Failed(TransferError { side: Side::Sink, fault })),
            ..s
        },
        (Phase::Flushing { aborted }, Event::Flushed) => EngineState {
            phase: Phase::Done(
                if aborted {
                    PipelineOutcome::Aborted(s.moved)
                } else {
                    PipelineOutcome::Completed(s.moved)
                },
            ),
            ..s
        },
        (Phase::Flushing { .. }, Event::SinkFailed(fault)) => EngineState {
            phase: Phase::Done(PipelineOutcome::Failed(TransferError { side: Side::Sink, fault })),
            ..s
        },
        _ => s,
    }
}

/// The state after a whole trace of events, taken in order.
pub open spec fn run(s: EngineState, events: Seq<Event>) -> EngineState
    decreases events.len(),
{
    if events.len() == 0 {
        s
    } else {
        step(run(s, events.drop_last()), events.last())
    }
}

/// The bytes that the last event of a trace took from the source: the length
/// of a read that the engine was waiting for.
pub open spec fn taken_by(before: EngineState, e: Event) -> nat {
    match (before.phase, e) {
        (Phase::Reading, Event::Read { len }) => if len <= before.capacity {
            len as nat
        } else {
            0
        },
        _ => 0,
    }
}

/// The bytes that the last event of a trace confirmed as written: the length
/// of the chunk whose write the engine was waiting for.
pub open spec fn confirmed_by(before: EngineState, e: Event) -> nat {
    match (before.phase, e) {
        (Phase::Writing { pending }, Event::ChunkWritten) => pending as nat,
        _ => 0,
    }
}

/// All bytes that the source handed over during a trace.
pub open spec fn delivered(s: EngineState, events: Seq<Event>) -> nat
    decreases events.len(),
{
    if events.len() == 0 {
        0
    } else {
        delivered(s, events.drop_last()) + taken_by(run(s, events.drop_last()), events.last())
    }
}

/// All bytes that the sink confirmed during a trace.
pub open spec fn committed(s: EngineState, events: Seq<Event>) -> nat
    decreases events.len(),
{
    if events.len() == 0 {
        0
    } else {
        committed(s, events.drop_last()) + confirmed_by(
            run(s, events.drop_last()),
            events.last(),
        )
    }
}

/// The outcome of a state, once it has one.
pub open spec fn outcome_of(s: EngineState) -> Option<PipelineOutcome> {
    match s.phase {
        Phase::Done(outcome) => Some(outcome),
        _ => None,
    }
}

/// The copy engine: a state machine that a driver feeds with events.
pub struct CopyEngine {
    capacity: usize,
    moved: u64,
    phase: Phase,
}

impl View for CopyEngine {
    type V = EngineState;

    closed spec fn view(&self) -> EngineState {
        EngineState { capacity: self.capacity, moved: self.moved, phase: self.phase }
    }
}

impl CopyEngine {
    /// A fresh engine at the first chunk boundary, with nothing moved.
    pub fn new(config: &CopyConfig) -> (engine: CopyEngine)
        ensures
            engine@ == initial(config.spec_capacity()),
    {
        CopyEngine { capacity: config.capacity(), moved: 0, phase: Phase::Boundary }
    }

    /// The action the engine is waiting for.
    pub fn pending(&self) -> (action: Action)
        ensures
            action == pending_action(self@),
    {
        match self.phase {
            Phase::Boundary => Action::CheckAbort,
            Phase::Reading => Action::Read { max: self.capacity },
            Phase::Writing { pending } => Action::Write { len: pending },
            Phase::Flushing { .. } => Action::Flush,
            Phase::Done(outcome) => Action::Stop(outcome),
        }
    }

    /// Takes in one event and returns the action to perform next.
    pub fn handle(&mut self, event: Event) -> (action: Action)
        ensures
            final(self)@ == step(old(self)@, event),
            action == pending_action(final(self)@),
    {
        match (self.phase, event) {
            (Phase::Boundary, Event::AbortChecked { requested }) => {
                if requested {
                    self.phase = Phase::Flushing { aborted: true };
                } else {
                    self.phase = Phase::Reading;
                }
            },
            (Phase::Reading, Event::Read { len }) => {
                if len > self.capacity {
                } else if len == 0 {
                    self.phase = Phase::Flushing { aborted: false };
                } else {
                    self.phase = Phase::Writing { pending: len };
                }
            },
            (Phase::Reading, Event::SourceFailed(fault)) => {
                self.phase = Phase::Done(
                    PipelineOutcome::Failed(TransferError { side: Side::Source, fault }),
                );
            },
            (Phase::Writing { pending }, Event::ChunkWritten) => {
                self.moved = self.moved.saturating_add(pending as u64);
                self.phase = Phase::Boundary;
            },
            (Phase::Writing { .. }, Event::SinkFailed(fault)) => {
                self.phase = Phase::Done(
                    PipelineOutcome::Failed(TransferError { side: Side::Sink, fault }),
                );
            },
            (Phase::Flushing { aborted }, Event::Flushed) => {
                if aborted {
                    self.phase = Phase::Done(PipelineOutcome::Aborted(self.moved));
                } else {
                    self.phase = Phase::Done(PipelineOutcome::Completed(self.moved));
                }
            },
            (Phase::Flushing { .. }, Event::SinkFailed(fault)) => {
                self.phase = Phase::Done(
                    PipelineOutcome::Failed(TransferError { side: Side::Sink, fault }),
                );
            },
            _ => {},
        }
        self.pending()
    }

    /// Takes in a whole trace of events, in order, and returns the action to
    /// perform after the last of them.
    pub fn replay(&mut self, events: &Vec<Event>) -> (action: Action)
        ensures
            final(self)@ == run(old(self)@, events@),
            action == pending_action(final(self)@),
    {
        let mut i: usize = 0;
        while i < events.len()
            invariant
                i <= events.len(),
                self@ == run(old(self)@, events@.take(i as int)),
            decreases events.len() - i,
        {
            let event = events[i];
            proof {
                let next = events@.take(i + 1);
                assert(next.drop_last() == events@.take(i as int));
                assert(next.last() == events@[i as int]);
            }
            self.handle(event);
            i = i + 1;
        }
        proof {
            assert(events@.take(i as int) == events@);
        }
        self.pending()
    }

    /// The number of bytes written to the sink so far, capped at `u64::MAX`.
    pub fn bytes_moved(&self) -> (n: u64)
        ensures
            n == self@.moved,
    {
        self.moved
    }

    /// The outcome, once the copy is over.
    pub fn outcome(&self) -> (outcome: Option<PipelineOutcome>)
        ensures
            outcome == outcome_of(self@),
    {
        match self.phase {
            Phase::Done(outcome) => Some(outcome),
            _ => None,
        }
    }
}


/// Running a trace in two parts is running it whole.
pub proof fn run_splits(s: EngineState, first: Seq<Event>, second: Seq<Event>)
    ensures
        run(s, first + second) == run(run(s, first), second),
        delivered(s, first + second) == delivered(s, first) + delivered(run(s, first), second),
        committed(s, first + second) == committed(s, first) + committed(run(s, first), second),
    decreases second.len(),
{
    if second.len() == 0 {
        assert(first + second == first);
    } else {
        let whole = first + second;
        assert(whole.drop_last() == first + second.drop_last());
        assert(whole.last() == second.last());
        run_splits(s, first, second.drop_last());
    }
}

/// Only an answer moves the engine: an event that does not report the result
/// of the pending action leaves the state as it is, and one that does always
/// takes the engine to another phase.
pub proof fn only_answers_move_the_engine(s: EngineState, e: Event)
    ensures
        !answers(s, e) ==> step(s, e) == s,
        answers(s, e) ==> step(s, e).phase != s.phase,
        step(s, e).capacity == s.capacity,
{
}

/// A chunk is offered to the sink whole: after a read of `len` bytes, with
/// `len` between one and the buffer capacity, the next action is one write of
/// exactly `len` bytes, and the byte count has not changed yet.
pub proof fn chunk_is_written_whole(s: EngineState, len: usize)
    requires
        s.phase is Reading,
        1 <= len <= s.capacity,
    ensures
        pending_action(step(s, Event::Read { len })) == (Action::Write { len }),
        step(s, Event::Read { len }).moved == s.moved,
        step(step(s, Event::Read { len }), Event::ChunkWritten).moved == saturated(s.moved + len),
{
}

/// The byte count never exceeds what the source supplied, and it counts only
/// bytes whose write the sink confirmed.
///
/// For every buffer capacity and every trace of events, a stop request at any
/// point included: the count is the number of confirmed bytes (capped at
/// `u64::MAX`), which is at most the number of bytes taken from the source.
/// The two differ only by a chunk that is still waiting to be written or
/// whose write failed; once the copy has completed or was aborted they are
/// equal, and the reported count is that number.
pub proof fn count_never_exceeds_source(capacity: usize, events: Seq<Event>)
    ensures
        ({
            let start = initial(capacity);
            let end = run(start, events);
            let taken = delivered(start, events);
            let written = committed(start, events);
            &&& end.capacity == capacity
            &&& end.moved == saturated(written as int)
            &&& end.moved <= written <= taken
            &&& match end.phase {
                Phase::Writing { pending } => 1 <= pending <= capacity && taken == written
                    + pending,
                Phase::Done(PipelineOutcome::Failed(_)) => taken - written <= capacity,
                Phase::Done(PipelineOutcome::Completed(n)) => n == end.moved && taken == written,
                Phase::Done(PipelineOutcome::Aborted(n)) => n == end.moved && taken == written,
                _ => taken == written,
            }
        }),
    decreases events.len(),
{
    if events.len() > 0 {
        count_never_exceeds_source(capacity, events.drop_last());
    }
}

/// Once a stop request was seen at a chunk boundary, nothing more is read or
/// written: whatever events follow, the engine only asks for a flush and then
/// stops, and the byte count stays what it was at the boundary.
pub proof fn nothing_moves_after_abort(s: EngineState, rest: Seq<Event>)
    requires
        s.phase is Boundary,
    ensures
        ({
            let stopping = step(s, Event::AbortChecked { requested: true });
            let end = run(stopping, rest);
            &&& delivered(stopping, rest) == 0
            &&& committed(stopping, rest) == 0
            &&& end.moved == s.moved
            &&& match end.phase {
                Phase::Flushing { aborted } => aborted,
                Phase::Done(PipelineOutcome::Aborted(n)) => n == s.moved,
                Phase::Done(PipelineOutcome::Failed(error)) => error.side == Side::Sink,
                _ => false,
            }
        }),
    decreases rest.len(),
{
    if rest.len() > 0 {
        nothing_moves_after_abort(s, rest.drop_last());
    }
}

/// A failure ends the copy at once: the event that reports it is answered
/// with `Stop`, and the byte count is what the sink had confirmed before.
pub proof fn failure_stops_at_once(s: EngineState, fault: Fault)
    ensures
        s.phase is Reading ==> step(s, Event::SourceFailed(fault)) == (EngineState {
            phase: Phase::Done(
                PipelineOutcome::Failed(TransferError { side: Side::Source, fault }),
            ),
            ..s
        }),
        s.phase is Writing || s.phase is Flushing ==> step(s, Event::SinkFailed(fault)) == (
        EngineState {
            phase: Phase::Done(PipelineOutcome::Failed(TransferError { side: Side::Sink, fault })),
            ..s
        }),
{
}

/// How many times the engine went from running to finished during a trace.
pub open spec fn stops(s: EngineState, events: Seq<Event>) -> nat
    decreases events.len(),
{
    if events.len() == 0 {
        0
    } else {
        let before = run(s, events.drop_last());
        let earlier = stops(s, events.drop_last());
        if !(before.phase is Done) && step(before, events.last()).phase is Done {
            earlier + 1
        } else {
            earlier
        }
    }
}

/// The engine stops at most once, however often a stop is requested and
/// whatever else is reported: over any trace it goes from running to finished
/// exactly once if it ends finished, and not at all otherwise.
pub proof fn stops_exactly_once(s: EngineState, events: Seq<Event>)
    requires
        !(s.phase is Done),
    ensures
        stops(s, events) == if run(s, events).phase is Done {
            1nat
        } else {
            0nat
        },
    decreases events.len(),
{
    if events.len() > 0 {
        stops_exactly_once(s, events.drop_last());
        let before = run(s, events.drop_last());
        if before.phase is Done {
            done_is_final(before, seq![events.last()]);
            assert(seq![events.last()].drop_last() == Seq::<Event>::empty());
            assert(run(before, seq![events.last()]) == step(before, events.last()));
        }
    }
}

/// The engine stops once: a finished engine ignores every further event. Its
/// outcome and its byte count stay as they are, and nothing more is taken
/// from the source or written to the sink.
pub proof fn done_is_final(s: EngineState, rest: Seq<Event>)
    requires
        s.phase is Done,
    ensures
        run(s, rest) == s,
        delivered(s, rest) == 0,
        committed(s, rest) == 0,
    decreases rest.len(),
{
    if rest.len() > 0 {
        done_is_final(s, rest.drop_last());
    }
}

} // verus!
