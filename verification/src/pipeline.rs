//! The pipeline of one record kind, as a state machine.
//!
//! The pipeline itself does no input or output. Its driver performs each
//! action that the pipeline asks for (open the cursor, pull a record, write a
//! batch) and hands back what came of it as an event. The pipeline decides
//! what happens next: records are buffered until a batch is full, a full
//! batch is projected and written, progress is reported after each write, and
//! the records left over when the cursor is exhausted are written as a last,
//! shorter batch. Any failure ends the pipeline at once.

use vstd::prelude::*;
use crate::batch::{
    batch_at, batch_count, batches, full_batches, leftover, lemma_batches_shape,
    BatchAccumulator, BATCH_CAPACITY,
};
use crate::error::SyncError;
use crate::progress::{progress_text, Progress, ProgressReporter};
use crate::record::{project_all, project_batch, Record};

verus! {

/// Where the pipeline stands.
#[derive(Clone, Copy, Debug, PartialEq, Eq, Structural)]
pub enum Phase {
    /// The cursor is being opened and the records counted.
    Init,
    /// Records are pulled from the cursor, one at a time.
    Streaming,
    /// A full batch is being written.
    Flush,
    /// The cursor is exhausted and the last, shorter batch is being written.
    Drain,
    /// Every record that the cursor yielded is written.
    Done,
    /// A failure ended the pipeline.
    Failed,
}

/// What came of the action that the pipeline asked for.
#[derive(Debug, PartialEq, Eq)]
pub enum Event<R> {
    /// The cursor is open, and the store counted `total` records.
    Opened { total: u64 },
    /// The cursor yielded a record.
    Record(R),
    /// The cursor has no more records.
    Exhausted,
    /// The search service took the batch.
    Written,
    /// The action failed.
    Failed(SyncError),
}

/// What the pipeline asks its driver to do next.
#[derive(Debug, PartialEq, Eq)]
pub enum Action<P> {
    /// Count the records of the collection and open a cursor over all of them.
    Open { collection: &'static str },
    /// Pull the next record from the cursor.
    Pull,
    /// Add the projections of `batch` to the index in one bulk write, each
    /// one replacing the document that has its identifier.
    Write { index: &'static str, batch: Vec<P> },
    /// The kind is synchronised: nothing is left to do.
    Finish,
    /// End the run with this failure.
    Abort(SyncError),
}

/// An action as a mathematical value.
pub enum ActionView<P> {
    Open { collection: Seq<char> },
    Pull,
    Write { index: Seq<char>, batch: Seq<P> },
    Finish,
    Abort(SyncError),
}

impl<P> View for Action<P> {
    type V = ActionView<P>;

    open spec fn view(&self) -> ActionView<P> {
        match *self {
            Action::Open { collection } => ActionView::Open { collection: collection@ },
            Action::Pull => ActionView::Pull,
            Action::Write { index, batch } => ActionView::Write { index: index@, batch: batch@ },
            Action::Finish => ActionView::Finish,
            Action::Abort(error) => ActionView::Abort(error),
        }
    }
}

/// The pipeline's answer to an event: a progress notification to emit, if a
/// batch has just been written, and the next action.
#[derive(Debug, PartialEq, Eq)]
pub struct Step<P> {
    pub notification: Option<String>,
    pub action: Action<P>,
}

/// A step as a mathematical value.
pub struct StepView<P> {
    pub notification: Option<Seq<char>>,
    pub action: ActionView<P>,
}

impl<P> View for Step<P> {
    type V = StepView<P>;

    open spec fn view(&self) -> StepView<P> {
        StepView {
            notification: match self.notification {
                Some(text) => Some(text@),
                None => None,
            },
            action: self.action@,
        }
    }
}

/// The pipeline as a mathematical value: its state, and the history of what
/// it has consumed and written.
pub struct PipelineView<R: Record> {
    pub phase: Phase,
    /// The records in the buffer: consumed, and not yet handed to a write.
    pub buffered: Seq<R>,
    /// The count of indexed records and the total that the store reported.
    pub progress: Progress,
    /// Every record that the cursor has yielded so far, in order.
    pub consumed: Seq<R>,
    /// The batch that is being written, while one is.
    pub in_flight: Seq<R::Projection>,
    /// The batches that the search service took, in order.
    pub written: Seq<Seq<R::Projection>>,
}

impl<R: Record> PipelineView<R> {
    /// The pipeline before anything has happened.
    pub open spec fn initial() -> Self {
        PipelineView {
            phase: Phase::Init,
            buffered: Seq::empty(),
            progress: Progress { indexed: 0, total: 0 },
            consumed: Seq::empty(),
            in_flight: Seq::empty(),
            written: Seq::empty(),
        }
    }

    /// The events that may follow in this state: the possible outcomes of
    /// the action that the pipeline asked for last. After `Finish` and after
    /// `Abort` there are none. A record is taken only while the count of
    /// consumed records fits in 64 bits.
    pub open spec fn accepts(self, event: Event<R>) -> bool {
        match self.phase {
            Phase::Init => event is Opened || event is Failed,
            Phase::Streaming => (event is Record && self.consumed.len() < u64::MAX)
                || event is Exhausted || event is Failed,
            Phase::Flush | Phase::Drain => event is Written || event is Failed,
            Phase::Done | Phase::Failed => false,
        }
    }

    /// The state after a write of the batch in flight has succeeded.
    pub open spec fn after_write(self, phase: Phase) -> Self {
        PipelineView {
            phase,
            progress: Progress {
                indexed: self.progress.indexed + self.in_flight.len(),
                total: self.progress.total,
            },
            in_flight: Seq::empty(),
            written: self.written.push(self.in_flight),
            ..self
        }
    }

    /// The state that follows `event`.
    pub open spec fn next(self, event: Event<R>) -> Self
        recommends
            self.accepts(event),
    {
        match (self.phase, event) {
            (_, Event::Failed(_)) => PipelineView { phase: Phase::Failed, ..self },
            (Phase::Init, Event::Opened { total }) => PipelineView {
                phase: Phase::Streaming,
                progress: Progress { indexed: 0, total: total as nat },
                ..self
            },
            (Phase::Streaming, Event::Record(record)) => {
                if self.buffered.len() + 1 == BATCH_CAPACITY {
                    PipelineView {
                        phase: Phase::Flush,
                        buffered: Seq::empty(),
                        consumed: self.consumed.push(record),
                        in_flight: project_all(self.buffered.push(record)),
                        ..self
                    }
                } else {
                    PipelineView {
                        buffered: self.buffered.push(record),
                        consumed: self.consumed.push(record),
                        ..self
                    }
                }
            },
            (Phase::Streaming, Event::Exhausted) => {
                if self.buffered.len() == 0 {
                    PipelineView { phase: Phase::Done, ..self }
                } else {
                    PipelineView {
                        phase: Phase::Drain,
                        buffered: Seq::empty(),
                        in_flight: project_all(self.buffered),
                        ..self
                    }
                }
            },
            (Phase::Flush, Event::Written) => self.after_write(Phase::Streaming),
            (Phase::Drain, Event::Written) => self.after_write(Phase::Done),
            _ => self,
        }
    }

    /// The pipeline's answer to `event`.
    pub open spec fn reaction(self, event: Event<R>) -> StepView<R::Projection>
        recommends
            self.accepts(event),
    {
        match (self.phase, event) {
            (_, Event::Failed(error)) => StepView {
                notification: None,
                action: ActionView::Abort(error),
            },
            (Phase::Init, Event::Opened { .. }) => StepView {
                notification: None,
                action: ActionView::Pull,
            },
            (Phase::Streaming, Event::Record(record)) => {
                if self.buffered.len() + 1 == BATCH_CAPACITY {
                    StepView {
                        notification: None,
                        action: ActionView::Write {
                            index: R::spec_index_name(),
                            batch: project_all(self.buffered.push(record)),
                        },
                    }
                } else {
                    StepView { notification: None, action: ActionView::Pull }
                }
            },
            (Phase::Streaming, Event::Exhausted) => {
                if self.buffered.len() == 0 {
                    StepView { notification: None, action: ActionView::Finish }
                } else {
                    StepView {
                        notification: None,
                        action: ActionView::Write {
                            index: R::spec_index_name(),
                            batch: project_all(self.buffered),
                        },
                    }
                }
            },
            (Phase::Flush, Event::Written) => StepView {
                notification: Some(
                    progress_text(
                        self.progress.indexed + self.in_flight.len(),
                        self.progress.total,
                    ),
                ),
                action: ActionView::Pull,
            },
            (Phase::Drain, Event::Written) => StepView {
                notification: Some(
                    progress_text(
                        self.progress.indexed + self.in_flight.len(),
                        self.progress.total,
                    ),
                ),
                action: ActionView::Finish,
            },
            _ => StepView { notification: None, action: ActionView::Pull },
        }
    }

    /// The state after the cursor has yielded `record` and, if the record
    /// filled a batch, after the batch has been written.
    pub open spec fn feed(self, record: R) -> Self {
        let taken = self.next(Event::Record(record));
        if taken.phase == Phase::Flush {
            taken.next(Event::Written)
        } else {
            taken
        }
    }

    /// The state after the cursor has yielded `records`, one after the
    /// other, and every full batch among them has been written.
    pub open spec fn feed_all(self, records: Seq<R>) -> Self
        decreases records.len(),
    {
        if records.len() == 0 {
            self
        } else {
            self.feed_all(records.drop_last()).feed(records.last())
        }
    }

    /// The state after the cursor is found exhausted and the records left
    /// in the buffer, if there are any, have been written.
    pub open spec fn finish(self) -> Self {
        let exhausted = self.next(Event::Exhausted);
        if exhausted.phase == Phase::Drain {
            exhausted.next(Event::Written)
        } else {
            exhausted
        }
    }

    /// The state at the end of a run in which nothing fails: the store
    /// counts `total` records, the cursor yields `source`, and the search
    /// service takes every batch.
    pub open spec fn complete_run(source: Seq<R>, total: u64) -> Self {
        Self::initial().next(Event::Opened { total }).feed_all(source).finish()
    }

    /// What holds of the pipeline at every moment.
    ///
    /// Each record consumed is in exactly one place: counted as indexed, in
    /// the buffer, or in the batch in flight. The batches written so far are
    /// the first batches of the projected stream, so each of them is full but
    /// the one written from `Drain`. While records are streaming every full
    /// batch of what has been consumed is written, and the buffer holds what
    /// is left over. When the pipeline is done, every batch of the stream is
    /// written, the last, shorter one included.
    pub open spec fn well_formed(self) -> bool {
        let n = self.consumed.len();
        let k = self.written.len();
        let stream = project_all(self.consumed);
        &&& n <= u64::MAX
        &&& self.progress.indexed + self.buffered.len() + self.in_flight.len() == n
        &&& forall|i: int| 0 <= i < k ==> #[trigger] self.written[i] == batch_at(stream, i)
        &&& match self.phase {
            Phase::Init => n == 0 && k == 0 && self.buffered.len() == 0 && self.in_flight.len()
                == 0,
            Phase::Streaming => {
                &&& k == full_batches(n)
                &&& self.buffered == self.consumed.skip(k * BATCH_CAPACITY)
                &&& self.in_flight.len() == 0
            },
            Phase::Flush => {
                &&& n == (k + 1) * BATCH_CAPACITY
                &&& self.buffered.len() == 0
                &&& self.in_flight == batch_at(stream, k as int)
            },
            Phase::Drain => {
                &&& k == full_batches(n)
                &&& leftover(n) != 0
                &&& self.buffered.len() == 0
                &&& self.in_flight == batch_at(stream, k as int)
            },
            Phase::Done => {
                &&& k == batch_count(n)
                &&& self.buffered.len() == 0
                &&& self.in_flight.len() == 0
            },
            Phase::Failed => k * BATCH_CAPACITY <= n,
        }
    }
}

/// The pipeline is well formed at the start.
pub proof fn lemma_initial_well_formed<R: Record>()
    ensures
        PipelineView::<R>::initial().well_formed(),
{
}

/// Every step keeps the pipeline well formed.
pub proof fn lemma_step_keeps_well_formed<R: Record>(state: PipelineView<R>, event: Event<R>)
    requires
        state.well_formed(),
        state.accepts(event),
    ensures
        state.next(event).well_formed(),
{
    let after = state.next(event);
    let n = state.consumed.len();
    let k = state.written.len();
    let stream = project_all(state.consumed);
    match (state.phase, event) {
        (_, Event::Failed(_)) => {},
        (Phase::Init, Event::Opened { total }) => {
            assert(after.buffered =~= after.consumed.skip(0));
        },
        (Phase::Streaming, Event::Record(record)) => {
            let consumed = state.consumed.push(record);
            let buffered = state.buffered.push(record);
            let stream_after = project_all(consumed);
            assert(buffered =~= consumed.skip(k * BATCH_CAPACITY));
            assert forall|i: int| 0 <= i < k implies #[trigger] after.written[i] == batch_at(
                stream_after,
                i,
            ) by {
                assert(batch_at(stream_after, i) =~= batch_at(stream, i));
            }
            if state.buffered.len() + 1 == BATCH_CAPACITY {
                assert(project_all(buffered) =~= batch_at(stream_after, k as int));
            }
        },
        (Phase::Streaming, Event::Exhausted) => {
            if state.buffered.len() != 0 {
                assert(project_all(state.buffered) =~= batch_at(stream, k as int));
            }
        },
        (Phase::Flush, Event::Written) => {
            assert(after.buffered =~= after.consumed.skip((k + 1) * BATCH_CAPACITY));
        },
        (Phase::Drain, Event::Written) => {},
        _ => {},
    }
}

/// The batches written so far are the first batches of the projected stream
/// of the records consumed so far, and until the pipeline is done each of
/// them is full.
pub proof fn lemma_written_is_prefix_of_batches<R: Record>(state: PipelineView<R>)
    requires
        state.well_formed(),
    ensures
        state.written.len() <= batches(project_all(state.consumed)).len(),
        forall|i: int|
            0 <= i < state.written.len() ==> #[trigger] state.written[i] == batches(
                project_all(state.consumed),
            )[i],
        forall|i: int|
            0 <= i < state.written.len() && state.phase != Phase::Done ==> (
            #[trigger] state.written[i]).len() == BATCH_CAPACITY,
{
}

/// When the pipeline is done, it has written every batch of the projected
/// stream of the records that the cursor yielded: each full batch, and the
/// last, shorter one if the count of records is no multiple of the capacity.
pub proof fn lemma_done_wrote_every_batch<R: Record>(state: PipelineView<R>)
    requires
        state.well_formed(),
        state.phase == Phase::Done,
    ensures
        state.written == batches(project_all(state.consumed)),
        state.progress.indexed == state.consumed.len(),
{
    assert(state.written =~= batches(project_all(state.consumed)));
}

/// While nothing fails the pipeline keeps up with the cursor: after the
/// cursor has yielded `records` the pipeline is streaming, it has written
/// every full batch of what it has consumed, and it holds the rest, less than
/// a batch, in its buffer.
pub proof fn lemma_feed_all<R: Record>(state: PipelineView<R>, records: Seq<R>)
    requires
        state.well_formed(),
        state.phase == Phase::Streaming,
        state.consumed.len() + records.len() <= u64::MAX,
    ensures
        state.feed_all(records).well_formed(),
        state.feed_all(records).phase == Phase::Streaming,
        state.feed_all(records).consumed == state.consumed + records,
        state.feed_all(records).progress.total == state.progress.total,
        state.feed_all(records).written.len() == full_batches(
            state.consumed.len() + records.len(),
        ),
        state.feed_all(records).buffered.len() == leftover(state.consumed.len() + records.len()),
    decreases records.len(),
{
    if records.len() == 0 {
        assert(state.consumed + records =~= state.consumed);
    } else {
        let front = records.drop_last();
        let before = state.feed_all(front);
        lemma_feed_all(state, front);
        let taken = before.next(Event::Record(records.last()));
        lemma_step_keeps_well_formed(before, Event::Record(records.last()));
        if taken.phase == Phase::Flush {
            lemma_step_keeps_well_formed(taken, Event::Written);
        }
        assert(state.consumed + records =~= (state.consumed + front).push(records.last()));
    }
}

/// A run in which nothing fails ends done. It has consumed the whole source
/// and written every batch of its projections, in order: a full batch for
/// each `BATCH_CAPACITY` records, and a last batch for the records left over,
/// if there are any. Every record is counted as indexed.
pub proof fn lemma_complete_run<R: Record>(source: Seq<R>, total: u64)
    requires
        source.len() <= u64::MAX,
    ensures
        ({
            let end = PipelineView::<R>::complete_run(source, total);
            &&& end.well_formed()
            &&& end.phase == Phase::Done
            &&& end.consumed == source
            &&& end.written == batches(project_all(source))
            &&& end.written.len() == batch_count(source.len())
            &&& forall|i: int|
                0 <= i < full_batches(source.len()) ==> (#[trigger] end.written[i]).len()
                    == BATCH_CAPACITY
            &&& leftover(source.len()) != 0 ==> end.written.last().len() == leftover(
                source.len(),
            )
            &&& end.progress == (Progress { indexed: source.len(), total: total as nat })
        }),
{
    lemma_batches_shape(project_all(source));
    let initial = PipelineView::<R>::initial();
    let opened = initial.next(Event::Opened { total });
    lemma_step_keeps_well_formed(initial, Event::Opened { total });
    lemma_feed_all(opened, source);
    let streamed = opened.feed_all(source);
    assert(streamed.consumed =~= source);
    let exhausted = streamed.next(Event::Exhausted);
    lemma_step_keeps_well_formed(streamed, Event::Exhausted);
    if exhausted.phase == Phase::Drain {
        lemma_step_keeps_well_formed(exhausted, Event::Written);
    }
    lemma_done_wrote_every_batch(streamed.finish());
}

/// A run that fails while records are streaming, after the cursor has
/// yielded `records`, ends failed. It has written the full batches of those
/// records and nothing else: the records left in the buffer are not written.
/// It asks for the run to be aborted with the failure, and it takes no
/// further event.
pub proof fn lemma_interrupted_run<R: Record>(records: Seq<R>, total: u64, error: SyncError)
    requires
        records.len() <= u64::MAX,
    ensures
        ({
            let streamed = PipelineView::<R>::initial().next(Event::Opened { total }).feed_all(
                records,
            );
            let end = streamed.next(Event::Failed(error));
            let full = full_batches(records.len());
            &&& streamed.accepts(Event::Failed(error))
            &&& streamed.reaction(Event::Failed(error)).action == ActionView::<
                R::Projection,
            >::Abort(error)
            &&& end.well_formed()
            &&& end.phase == Phase::Failed
            &&& end.written == batches(project_all(records)).take(full as int)
            &&& end.progress.indexed == full * BATCH_CAPACITY
            &&& forall|event: Event<R>| !end.accepts(event)
        }),
{
    let initial = PipelineView::<R>::initial();
    let opened = initial.next(Event::Opened { total });
    lemma_step_keeps_well_formed(initial, Event::Opened { total });
    lemma_feed_all(opened, records);
    let streamed = opened.feed_all(records);
    assert(streamed.consumed =~= records);
    lemma_step_keeps_well_formed(streamed, Event::Failed(error));
    let end = streamed.next(Event::Failed(error));
    let full = full_batches(records.len());
    assert(end.written =~= batches(project_all(records)).take(full as int));
}

/// The pipeline of the record kind `R`.
pub struct Pipeline<R: Record> {
    phase: Phase,
    accumulator: BatchAccumulator<R>,
    reporter: ProgressReporter,
    /// Number of projections in the batch that is being written.
    in_flight: usize,
    /// Number of records consumed.
    seen: u64,
    consumed: Ghost<Seq<R>>,
    pending: Ghost<Seq<R::Projection>>,
    written: Ghost<Seq<Seq<R::Projection>>>,
}

impl<R: Record> View for Pipeline<R> {
    type V = PipelineView<R>;

    closed spec fn view(&self) -> PipelineView<R> {
        PipelineView {
            phase: self.phase,
            buffered: self.accumulator@,
            progress: self.reporter@,
            consumed: self.consumed@,
            in_flight: self.pending@,
            written: self.written@,
        }
    }
}

impl<R: Record> Pipeline<R> {
    #[verifier::type_invariant]
    spec fn sound(self) -> bool {
        &&& self@.well_formed()
        &&& self.in_flight == self.pending@.len()
        &&& self.seen == self.consumed@.len()
    }

    /// A pipeline at its start, and its first action: to open the cursor
    /// over the collection of the kind.
    pub fn start() -> (out: (Self, Action<R::Projection>))
        ensures
            out.0@ == PipelineView::<R>::initial(),
            out.0@.well_formed(),
            out.1@ == (ActionView::<R::Projection>::Open {
                collection: R::spec_collection_name(),
            }),
    {
        let pipeline = Pipeline {
            phase: Phase::Init,
            accumulator: BatchAccumulator::new(),
            reporter: ProgressReporter::new(0),
            in_flight: 0,
            seen: 0,
            consumed: Ghost(Seq::empty()),
            pending: Ghost(Seq::empty()),
            written: Ghost(Seq::empty()),
        };
        (pipeline, Action::Open { collection: R::collection_name() })
    }

    /// Whether `event` may follow in this state.
    pub fn accepts(&self, event: &Event<R>) -> (accepted: bool)
        ensures
            accepted == self@.accepts(*event),
    {
        proof {
            use_type_invariant(self);
        }
        match self.phase {
            Phase::Init => match event {
                Event::Opened { .. } | Event::Failed(_) => true,
                _ => false,
            },
            Phase::Streaming => match event {
                Event::Record(_) => self.seen < u64::MAX,
                Event::Exhausted | Event::Failed(_) => true,
                _ => false,
            },
            Phase::Flush | Phase::Drain => match event {
                Event::Written | Event::Failed(_) => true,
                _ => false,
            },
            Phase::Done | Phase::Failed => false,
        }
    }

    /// Takes the outcome of the last action and decides what happens next.
    ///
    /// A record goes to the buffer; the record that fills the buffer sends
    /// the whole batch, projected, to be written. When the cursor is
    /// exhausted the records left in the buffer are written as a last batch,
    /// and with an empty buffer the pipeline finishes at once. After each
    /// write the batch is counted as indexed and the progress notification is
    /// worded. A failure ends the pipeline: it asks for the run to be
    /// aborted and takes no further event.
    pub fn step(self, event: Event<R>) -> (out: (Self, Step<R::Projection>))
        requires
            self@.accepts(event),
        ensures
            out.0@ == self@.next(event),
            out.1@ == self@.reaction(event),
            out.0@.well_formed(),
            (out.1@.action matches ActionView::Write { batch, .. } ==> 0 < batch.len()
                <= BATCH_CAPACITY),
    {
        proof {
            use_type_invariant(&self);
            lemma_step_keeps_well_formed(self@, event);
        }
        match event {
            Event::Failed(error) => {
                let pipeline = Pipeline { phase: Phase::Failed, ..self };
                (pipeline, Step { notification: None, action: Action::Abort(error) })
            },
            Event::Opened { total } => {
                let pipeline = Pipeline {
                    phase: Phase::Streaming,
                    reporter: ProgressReporter::new(total),
                    ..self
                };
                (pipeline, Step { notification: None, action: Action::Pull })
            },
            Event::Record(record) => {
                let ghost consumed = self.consumed@.push(record);
                let mut accumulator = self.accumulator;
                if accumulator.push(record) {
                    let batch = project_batch(accumulator.take());
                    let pipeline = Pipeline {
                        phase: Phase::Flush,
                        accumulator,
                        in_flight: batch.len(),
                        seen: self.seen + 1,
                        consumed: Ghost(consumed),
                        pending: Ghost(batch@),
                        ..self
                    };
                    let action = Action::Write { index: R::index_name(), batch };
                    (pipeline, Step { notification: None, action })
                } else {
                    let pipeline = Pipeline {
                        accumulator,
                        seen: self.seen + 1,
                        consumed: Ghost(consumed),
                        ..self
                    };
                    (pipeline, Step { notification: None, action: Action::Pull })
                }
            },
            Event::Exhausted => {
                if self.accumulator.is_empty() {
                    let pipeline = Pipeline { phase: Phase::Done, ..self };
                    (pipeline, Step { notification: None, action: Action::Finish })
                } else {
                    let mut accumulator = self.accumulator;
                    let batch = project_batch(accumulator.take());
                    let pipeline = Pipeline {
                        phase: Phase::Drain,
                        accumulator,
                        in_flight: batch.len(),
                        pending: Ghost(batch@),
                        ..self
                    };
                    let action = Action::Write { index: R::index_name(), batch };
                    (pipeline, Step { notification: None, action })
                }
            },
            Event::Written => {
                let draining = self.phase == Phase::Drain;
                let mut reporter = self.reporter;
                let notification = reporter.record(self.in_flight);
                let pipeline = Pipeline {
                    phase: if draining {
                        Phase::Done
                    } else {
                        Phase::Streaming
                    },
                    reporter,
                    in_flight: 0,
                    pending: Ghost(Seq::empty()),
                    written: Ghost(self.written@.push(self.pending@)),
                    ..self
                };
                let action = if draining {
                    Action::Finish
                } else {
                    Action::Pull
                };
                (pipeline, Step { notification: Some(notification), action })
            },
        }
    }

    /// Where the pipeline stands.
    pub fn phase(&self) -> (phase: Phase)
        ensures
            phase == self@.phase,
    {
        self.phase
    }

    /// Number of records counted as indexed.
    pub fn indexed(&self) -> (indexed: u64)
        ensures
            indexed == self@.progress.indexed,
    {
        self.reporter.indexed()
    }

    /// Number of records that the store counted when the cursor was opened.
    pub fn total(&self) -> (total: u64)
        ensures
            total == self@.progress.total,
    {
        self.reporter.total()
    }

    /// Number of records that the cursor has yielded.
    pub fn consumed(&self) -> (consumed: u64)
        ensures
            consumed == self@.consumed.len(),
    {
        proof {
            use_type_invariant(self);
        }
        self.seen
    }

    /// Number of records in the buffer.
    pub fn buffered(&self) -> (buffered: usize)
        ensures
            buffered == self@.buffered.len(),
    {
        self.accumulator.len()
    }
}

} // verus!
