//! Read side of a transfer: numbers the chunks and keeps the sends in
//! flight within the configured limit.
//!
//! The pipeline decides; its caller does the work. The caller performs the
//! [`PipelineAction`] it was handed, reports what happened as a
//! [`PipelineEvent`], and is handed the next action.

use crate::types::SftpError;
use vstd::prelude::*;

verus! {

/// Where the read side stands.
#[derive(Debug, Clone, Copy, PartialEq, Eq, Structural)]
pub enum Phase {
    /// Waiting for the next chunk from the source, or for cancellation.
    Reading,
    /// As many sends in flight as allowed: waiting for one to complete
    /// before the next read.
    Backpressure,
    /// Reading is over: waiting for the sends still in flight.
    Draining,
    /// Every send completed and the queue is closed: waiting for the
    /// writing side to flush.
    Flushing,
    /// The transfer is over.
    Finished,
}

/// What the caller observed.
#[derive(Debug, PartialEq, Eq)]
pub enum PipelineEvent {
    /// The caller's cancellation signal fired before the read completed.
    CancelRequested,
    /// The source yielded this chunk.
    ChunkRead(Vec<u8>),
    /// The source is exhausted.
    EndOfSource,
    /// Reading the source failed.
    ReadFailed(SftpError),
    /// One send in flight handed its chunk to the queue.
    SendFinished,
    /// One send in flight failed.
    SendFailed(SftpError),
    /// The writing side wrote everything it received.
    WriterFinished,
    /// The writing side failed.
    WriterFailed(SftpError),
}

/// What the caller is to do next.
#[derive(Debug, PartialEq, Eq)]
pub enum PipelineAction {
    /// Read the next chunk, unless cancellation fires first.
    Read,
    /// Start a send of this chunk under this sequence number; then, if
    /// `then_wait`, wait for any one send in flight to complete, else read on.
    Send { sequence: usize, payload: Vec<u8>, then_wait: bool },
    /// Wait for any one send in flight to complete.
    AwaitSend,
    /// Close the sending end of the queue and wait for the writing side.
    AwaitWriter,
    /// Nothing is left to do: the outcome is settled.
    Finish,
}

/// A [`PipelineEvent`] in mathematical terms.
pub enum Event {
    CancelRequested,
    ChunkRead(Seq<u8>),
    EndOfSource,
    ReadFailed(SftpError),
    SendFinished,
    SendFailed(SftpError),
    WriterFinished,
    WriterFailed(SftpError),
}

/// A [`PipelineAction`] in mathematical terms.
pub enum Action {
    Read,
    Send { sequence: nat, payload: Seq<u8>, then_wait: bool },
    AwaitSend,
    AwaitWriter,
    Finish,
}

impl View for PipelineEvent {
    type V = Event;

    open spec fn view(&self) -> Event {
        match *self {
            PipelineEvent::CancelRequested => Event::CancelRequested,
            PipelineEvent::ChunkRead(payload) => Event::ChunkRead(payload@),
            PipelineEvent::EndOfSource => Event::EndOfSource,
            PipelineEvent::ReadFailed(error) => Event::ReadFailed(error),
            PipelineEvent::SendFinished => Event::SendFinished,
            PipelineEvent::SendFailed(error) => Event::SendFailed(error),
            PipelineEvent::WriterFinished => Event::WriterFinished,
            PipelineEvent::WriterFailed(error) => Event::WriterFailed(error),
        }
    }
}

impl View for PipelineAction {
    type V = Action;

    open spec fn view(&self) -> Action {
        match *self {
            PipelineAction::Read => Action::Read,
            PipelineAction::Send { sequence, payload, then_wait } => Action::Send {
                sequence: sequence as nat,
                payload: payload@,
                then_wait,
            },
            PipelineAction::AwaitSend => Action::AwaitSend,
            PipelineAction::AwaitWriter => Action::AwaitWriter,
            PipelineAction::Finish => Action::Finish,
        }
    }
}

/// How a finished transfer ended.
#[derive(Debug, PartialEq, Eq)]
pub enum Outcome {
    Completed,
    Cancelled,
    Failed(SftpError),
}

/// The read side in mathematical terms.
pub struct PipelineState {
    /// Most sends that may be in flight at once.
    pub concurrency: nat,
    /// Sequence number of the next chunk; also the number of chunks sent.
    pub next_sequence: nat,
    /// Sends started and not yet reported complete.
    pub in_flight: nat,
    pub phase: Phase,
    /// Whether the caller's cancellation ended the reading.
    pub cancelled: bool,
    /// The first error observed, if any.
    pub failure: Option<SftpError>,
}

impl PipelineState {
    /// A transfer before its first read.
    pub open spec fn initial(concurrency: nat) -> PipelineState {
        PipelineState {
            concurrency,
            next_sequence: 0,
            in_flight: 0,
            phase: Phase::Reading,
            cancelled: false,
            failure: None,
        }
    }

    /// What holds of every state that a transfer can reach.
    pub open spec fn wf(self) -> bool {
        &&& self.concurrency > 0
        &&& self.in_flight <= self.concurrency
        &&& self.in_flight <= self.next_sequence
        &&& match self.phase {
            Phase::Reading => self.in_flight < self.concurrency && !self.cancelled
                && self.failure is None,
            Phase::Backpressure => self.in_flight == self.concurrency && !self.cancelled
                && self.failure is None,
            Phase::Draining => self.in_flight > 0,
            Phase::Flushing => self.in_flight == 0,
            Phase::Finished => true,
        }
    }

    /// The state once reading has ended, for whatever reason: sends still in
    /// flight are waited for, then the writing side.
    pub open spec fn reading_over(self) -> PipelineState {
        PipelineState {
            phase: if self.in_flight == 0 {
                Phase::Flushing
            } else {
                Phase::Draining
            },
            ..self
        }
    }

    /// The state with `error` recorded, unless an earlier error stands.
    pub open spec fn failed_with(self, error: SftpError) -> PipelineState {
        PipelineState {
            failure: if self.failure is Some {
                self.failure
            } else {
                Some(error)
            },
            ..self
        }
    }

    /// The state after `event`. An event that the phase does not wait for
    /// changes nothing.
    pub open spec fn step(self, event: Event) -> PipelineState {
        match (self.phase, event) {
            (Phase::Reading, Event::CancelRequested) => PipelineState {
                cancelled: true,
                ..self
            }.reading_over(),
            (Phase::Reading, Event::EndOfSource) => self.reading_over(),
            (Phase::Reading, Event::ReadFailed(error)) => self.failed_with(
                error,
            ).reading_over(),
            (Phase::Reading, Event::ChunkRead(_)) => PipelineState {
                next_sequence: self.next_sequence + 1,
                in_flight: self.in_flight + 1,
                phase: if self.in_flight + 1 >= self.concurrency {
                    Phase::Backpressure
                } else {
                    Phase::Reading
                },
                ..self
            },
            (Phase::Backpressure, Event::SendFinished) => PipelineState {
                in_flight: (self.in_flight - 1) as nat,
                phase: Phase::Reading,
                ..self
            },
            (Phase::Draining, Event::SendFinished) => PipelineState {
                in_flight: (self.in_flight - 1) as nat,
                ..self
            }.reading_over(),
            (Phase::Backpressure, Event::SendFailed(error))
            | (Phase::Draining, Event::SendFailed(error)) => PipelineState {
                in_flight: (self.in_flight - 1) as nat,
                phase: Phase::Finished,
                ..self.failed_with(error)
            },
            (Phase::Flushing, Event::WriterFinished) => PipelineState {
                phase: Phase::Finished,
                ..self
            },
            (Phase::Flushing, Event::WriterFailed(error)) => PipelineState {
                phase: Phase::Finished,
                ..self.failed_with(error)
            },
            _ => self,
        }
    }

    /// What a state waits for.
    pub open spec fn awaited(self) -> Action {
        match self.phase {
            Phase::Reading => Action::Read,
            Phase::Backpressure | Phase::Draining => Action::AwaitSend,
            Phase::Flushing => Action::AwaitWriter,
            Phase::Finished => Action::Finish,
        }
    }

    /// The action that answers `event`: a chunk read while reading is sent
    /// under the next sequence number; otherwise the caller is told what the
    /// state after the event waits for.
    pub open spec fn respond(self, event: Event) -> Action {
        match (self.phase, event) {
            (Phase::Reading, Event::ChunkRead(payload)) => Action::Send {
                sequence: self.next_sequence,
                payload,
                then_wait: self.in_flight + 1 >= self.concurrency,
            },
            _ => self.step(event).awaited(),
        }
    }

    /// How the transfer ended, once it has: the first error if there was
    /// one, else cancelled if the caller asked, else completed.
    pub open spec fn outcome(self) -> Option<Outcome> {
        if self.phase != Phase::Finished {
            None
        } else {
            Some(
                match self.failure {
                    Some(error) => Outcome::Failed(error),
                    None => if self.cancelled {
                        Outcome::Cancelled
                    } else {
                        Outcome::Completed
                    },
                },
            )
        }
    }

    /// The state after a series of events, oldest first.
    pub open spec fn run(self, events: Seq<Event>) -> PipelineState
        decreases events.len(),
    {
        if events.len() == 0 {
            self
        } else {
            self.run(events.drop_last()).step(events.last())
        }
    }

    /// The chunks sent during a series of events, each with the sequence
    /// number it was sent under, in the order of sending.
    pub open spec fn sent(self, events: Seq<Event>) -> Seq<(nat, Seq<u8>)>
        decreases events.len(),
    {
        if events.len() == 0 {
            Seq::empty()
        } else {
            let before = self.run(events.drop_last());
            let earlier = self.sent(events.drop_last());
            match (before.phase, events.last()) {
                (Phase::Reading, Event::ChunkRead(payload)) => earlier.push(
                    (before.next_sequence, payload),
                ),
                _ => earlier,
            }
        }
    }
}

/// Drives the read side of one transfer.
pub struct ChunkPipeline {
    concurrency: usize,
    next_sequence: usize,
    in_flight: usize,
    phase: Phase,
    cancelled: bool,
    failure: Option<SftpError>,
}

impl View for ChunkPipeline {
    type V = PipelineState;

    closed spec fn view(&self) -> PipelineState {
        PipelineState {
            concurrency: self.concurrency as nat,
            next_sequence: self.next_sequence as nat,
            in_flight: self.in_flight as nat,
            phase: self.phase,
            cancelled: self.cancelled,
            failure: self.failure,
        }
    }
}

impl ChunkPipeline {
    /// A pipeline before its first read, allowing `concurrency` sends in
    /// flight.
    pub fn new(concurrency: usize) -> (pipeline: Self)
        requires
            concurrency > 0,
        ensures
            pipeline@ == PipelineState::initial(concurrency as nat),
            pipeline@.wf(),
    {
        ChunkPipeline {
            concurrency,
            next_sequence: 0,
            in_flight: 0,
            phase: Phase::Reading,
            cancelled: false,
            failure: None,
        }
    }

    /// The phase the pipeline is in.
    pub fn phase(&self) -> (phase: Phase)
        ensures
            phase == self@.phase,
    {
        self.phase
    }

    /// Sends started and not yet reported complete.
    pub fn in_flight(&self) -> (count: usize)
        ensures
            count == self@.in_flight,
    {
        self.in_flight
    }

    /// Sequence number that the next chunk will be sent under.
    pub fn next_sequence(&self) -> (next: usize)
        ensures
            next == self@.next_sequence,
    {
        self.next_sequence
    }

    /// Capacity of the queue between the reading and the writing side.
    pub fn queue_capacity(&self) -> (capacity: usize)
        ensures
            capacity == self@.concurrency,
    {
        self.concurrency
    }

    fn record(&mut self, error: SftpError)
        ensures
            final(self)@ == old(self)@.failed_with(error),
    {
        if self.failure.is_none() {
            self.failure = Some(error);
        }
    }

    fn end_reading(&mut self)
        ensures
            final(self)@ == old(self)@.reading_over(),
    {
        self.phase = if self.in_flight == 0 {
            Phase::Flushing
        } else {
            Phase::Draining
        };
    }

    /// What the pipeline waits for: what the caller is to do when it has
    /// started a send, or has lost track.
    pub fn awaited(&self) -> (action: PipelineAction)
        ensures
            action@ == self@.awaited(),
    {
        match self.phase {
            Phase::Reading => PipelineAction::Read,
            Phase::Backpressure | Phase::Draining => PipelineAction::AwaitSend,
            Phase::Flushing => PipelineAction::AwaitWriter,
            Phase::Finished => PipelineAction::Finish,
        }
    }

    /// Takes what the caller observed and says what to do next.
    ///
    /// A chunk can be numbered only while the machine can count one further.
    pub fn step(&mut self, event: PipelineEvent) -> (action: PipelineAction)
        requires
            old(self)@.wf(),
            old(self)@.phase == Phase::Reading && event is ChunkRead ==> old(self)@.next_sequence
                < usize::MAX,
        ensures
            final(self)@ == old(self)@.step(event@),
            action@ == old(self)@.respond(event@),
            final(self)@.wf(),
    {
        match (self.phase, event) {
            (Phase::Reading, PipelineEvent::CancelRequested) => {
                self.cancelled = true;
                self.end_reading();
                self.awaited()
            },
            (Phase::Reading, PipelineEvent::EndOfSource) => {
                self.end_reading();
                self.awaited()
            },
            (Phase::Reading, PipelineEvent::ReadFailed(error)) => {
                self.record(error);
                self.end_reading();
                self.awaited()
            },
            (Phase::Reading, PipelineEvent::ChunkRead(payload)) => {
                let sequence = self.next_sequence;
                self.next_sequence = self.next_sequence + 1;
                self.in_flight = self.in_flight + 1;
                let then_wait = self.in_flight >= self.concurrency;
                if then_wait {
                    self.phase = Phase::Backpressure;
                }
                PipelineAction::Send { sequence, payload, then_wait }
            },
            (Phase::Backpressure, PipelineEvent::SendFinished) => {
                self.in_flight = self.in_flight - 1;
                self.phase = Phase::Reading;
                self.awaited()
            },
            (Phase::Draining, PipelineEvent::SendFinished) => {
                self.in_flight = self.in_flight - 1;
                self.end_reading();
                self.awaited()
            },
            (Phase::Backpressure, PipelineEvent::SendFailed(error))
            | (Phase::Draining, PipelineEvent::SendFailed(error)) => {
                self.record(error);
                self.in_flight = self.in_flight - 1;
                self.phase = Phase::Finished;
                self.awaited()
            },
            (Phase::Flushing, PipelineEvent::WriterFinished) => {
                self.phase = Phase::Finished;
                self.awaited()
            },
            (Phase::Flushing, PipelineEvent::WriterFailed(error)) => {
                self.record(error);
                self.phase = Phase::Finished;
                self.awaited()
            },
            _ => self.awaited(),
        }
    }

    /// How the transfer ended; `None` while it is still under way.
    pub fn outcome(self) -> (outcome: Option<Outcome>)
        ensures
            outcome == self@.outcome(),
    {
        if self.phase != Phase::Finished {
            None
        } else {
            match self.failure {
                Some(error) => Some(Outcome::Failed(error)),
                None => if self.cancelled {
                    Some(Outcome::Cancelled)
                } else {
                    Some(Outcome::Completed)
                },
            }
        }
    }
}

/// A step leads from a reachable state to a reachable state.
pub proof fn lemma_step_keeps_wf(state: PipelineState, event: Event)
    requires
        state.wf(),
    ensures
        state.step(event).wf(),
        state.step(event).concurrency == state.concurrency,
{
}

/// The first error observed stands: no later event replaces it.
pub proof fn lemma_first_error_stands(state: PipelineState, event: Event)
    requires
        state.failure is Some,
    ensures
        state.step(event).failure == state.failure,
{
}

/// Whatever happens, and in whatever order the caller reports it, at no
/// point of a transfer are more sends in flight than the configured limit.
pub proof fn lemma_in_flight_within_limit(concurrency: nat, events: Seq<Event>)
    requires
        concurrency > 0,
    ensures
        forall|n: int|
            0 <= n <= events.len() ==> (#[trigger] PipelineState::initial(concurrency).run(
                events.take(n),
            )).in_flight <= concurrency,
{
    assert forall|n: int| 0 <= n <= events.len() implies (#[trigger] PipelineState::initial(
        concurrency,
    ).run(events.take(n))).in_flight <= concurrency by {
        lemma_run_keeps_wf(PipelineState::initial(concurrency), events.take(n));
    }
}

/// A series of steps leads from a reachable state to a reachable state.
pub proof fn lemma_run_keeps_wf(state: PipelineState, events: Seq<Event>)
    requires
        state.wf(),
    ensures
        state.run(events).wf(),
        state.run(events).concurrency == state.concurrency,
    decreases events.len(),
{
    if events.len() > 0 {
        lemma_run_keeps_wf(state, events.drop_last());
        lemma_step_keeps_wf(state.run(events.drop_last()), events.last());
    }
}

/// Chunks are numbered from 0 in the order in which the source yielded
/// them, without a gap: the chunk sent as the `i`-th carries number `i`.
pub proof fn lemma_sequence_numbers_dense(concurrency: nat, events: Seq<Event>)
    ensures
        PipelineState::initial(concurrency).sent(events).len() == PipelineState::initial(
            concurrency,
        ).run(events).next_sequence,
        forall|i: int|
            0 <= i < PipelineState::initial(concurrency).sent(events).len() ==> (
            #[trigger] PipelineState::initial(concurrency).sent(events)[i]).0 == i,
    decreases events.len(),
{
    if events.len() > 0 {
        lemma_sequence_numbers_dense(concurrency, events.drop_last());
    }
}

} // verus!
