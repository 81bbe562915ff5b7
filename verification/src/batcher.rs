//! The batcher's decisions: events are gathered into a buffer and flushed
//! as one batch when the buffer reaches the batch size, when the flush timer
//! elapses, or when the event channel closes.
//!
//! Receiving, sleeping and sending happen around these functions: each one
//! takes the event that happened and says what is to be done next.

use vstd::prelude::*;
use crate::config::PipelineConfig;
use crate::models::EventInput;

verus! {

/// The batcher's settings: the batch size and the flush period.
pub struct Batcher {
    pub capacity: usize,
    pub timeout_ms: u64,
}

/// The events gathered since the last flush.
pub struct BatcherState {
    pub buffer: Vec<EventInput>,
}

/// What caused a flush.
#[derive(Debug, Clone, Copy, PartialEq, Eq, Structural)]
pub enum FlushOrigin {
    /// The buffer reached the batch size.
    Receive,
    /// The event channel closed.
    Close,
    /// The flush timer elapsed.
    Timeout,
}

/// What the loop does next when there is nothing to send.
#[derive(Debug, Clone, Copy, PartialEq, Eq, Structural)]
pub enum Control {
    /// Restart the flush timer and keep going.
    ResetTimer,
    /// Keep going with the flush timer as it is.
    KeepTimer,
    /// End the loop.
    Stop,
}

/// What the loop does after an event.
pub enum Step {
    Proceed(Control),
    /// Send this batch to the sink, then report the outcome to
    /// [`Batcher::after_flush`].
    Flush(Vec<EventInput>, FlushOrigin),
}

/// The buffer after one received event, and the batch that it flushes.
pub open spec fn recv_step(buffer: Seq<EventInput>, capacity: nat, input: EventInput) -> (Seq<EventInput>, Option<Seq<EventInput>>) {
    let grown = buffer.push(input);
    if grown.len() >= capacity {
        (Seq::empty(), Some(grown))
    } else {
        (grown, None)
    }
}

/// A received event is appended to the buffer; the buffer is flushed, with
/// the new event last, exactly when it has reached the batch size, and a
/// buffer that was below the batch size then flushes a full batch.
pub proof fn lemma_recv_step(buffer: Seq<EventInput>, capacity: nat, input: EventInput)
    ensures
        recv_step(buffer, capacity, input).1 is Some <==> buffer.len() + 1 >= capacity,
        recv_step(buffer, capacity, input).1 matches Some(batch) ==> {
            &&& batch == buffer.push(input)
            &&& recv_step(buffer, capacity, input).0.len() == 0
            &&& (buffer.len() == 0 || buffer.len() < capacity) ==> batch.len() == if capacity == 0 { 1 } else { capacity }
        },
        recv_step(buffer, capacity, input).1 is None ==> recv_step(buffer, capacity, input).0 == buffer.push(input)
            && recv_step(buffer, capacity, input).0.len() < capacity,
{
}

/// The buffer after the flush timer elapsed, and the batch that it flushes.
pub open spec fn timeout_step(buffer: Seq<EventInput>) -> (Seq<EventInput>, Option<Seq<EventInput>>) {
    if buffer.len() == 0 {
        (buffer, None)
    } else {
        (Seq::empty(), Some(buffer))
    }
}

/// What happens to the batcher while its channel is open: an event is
/// received, or the flush timer elapses. Each carries whether the sink took
/// the batch that it flushed, if it flushed one.
pub enum RunEvent {
    Received(EventInput, bool),
    TimerElapsed(bool),
}

/// The buffer after one event of the loop, and the batch that it flushes;
/// a batch that the sink refused is dropped and the buffer cleared.
pub open spec fn run_step(buffer: Seq<EventInput>, capacity: nat, event: RunEvent) -> (Seq<EventInput>, Option<Seq<EventInput>>) {
    let (after, flushed, succeeded) = match event {
        RunEvent::Received(input, ok) => {
            let (after, flushed) = recv_step(buffer, capacity, input);
            (after, flushed, ok)
        },
        RunEvent::TimerElapsed(ok) => {
            let (after, flushed) = timeout_step(buffer);
            (after, flushed, ok)
        },
    };
    if flushed is Some && !succeeded {
        (Seq::empty(), flushed)
    } else {
        (after, flushed)
    }
}

/// The buffer after the sink's outcome for a flushed batch was reported:
/// cleared where the sink refused it.
pub open spec fn after_flush_buffer(buffer: Seq<EventInput>, succeeded: bool) -> Seq<EventInput> {
    if succeeded { buffer } else { Seq::empty() }
}

/// One step of the run model is what the loop does with one event: the
/// buffer that [`Batcher::handle_recv`] or [`Batcher::handle_timeout`]
/// leaves, then, where they flushed a batch, the buffer that
/// [`Batcher::after_flush`] leaves for the sink's outcome.
pub proof fn lemma_steps_follow_run_step(buffer: Seq<EventInput>, capacity: nat, event: RunEvent)
    ensures
        match event {
            RunEvent::Received(input, ok) => {
                let (after, flushed) = recv_step(buffer, capacity, input);
                run_step(buffer, capacity, event)
                    == (if flushed is Some { after_flush_buffer(after, ok) } else { after }, flushed)
            },
            RunEvent::TimerElapsed(ok) => {
                let (after, flushed) = timeout_step(buffer);
                run_step(buffer, capacity, event)
                    == (if flushed is Some { after_flush_buffer(after, ok) } else { after }, flushed)
            },
        },
{
}

/// The events received in a run, in order.
pub open spec fn received(events: Seq<RunEvent>) -> Seq<EventInput>
    decreases events.len(),
{
    if events.len() == 0 {
        Seq::empty()
    } else {
        match events.last() {
            RunEvent::Received(input, _) => received(events.drop_last()).push(input),
            RunEvent::TimerElapsed(_) => received(events.drop_last()),
        }
    }
}

/// The buffer after a run of events, and the batches flushed on the way, in
/// the order in which they go to the sink.
pub open spec fn run_all(buffer: Seq<EventInput>, capacity: nat, events: Seq<RunEvent>) -> (Seq<EventInput>, Seq<Seq<EventInput>>)
    decreases events.len(),
{
    if events.len() == 0 {
        (buffer, Seq::empty())
    } else {
        let (before, batches) = run_all(buffer, capacity, events.drop_last());
        let (after, flushed) = run_step(before, capacity, events.last());
        match flushed {
            Some(batch) => (after, batches.push(batch)),
            None => (after, batches),
        }
    }
}

/// All events of a sequence of batches, in order.
pub open spec fn concat_batches(batches: Seq<Seq<EventInput>>) -> Seq<EventInput>
    decreases batches.len(),
{
    if batches.len() == 0 {
        Seq::empty()
    } else {
        concat_batches(batches.drop_last()) + batches.last()
    }
}

/// A buffer that the batcher can hold between events: one below the batch
/// size at most (empty where the batch size is 0).
pub open spec fn buffer_below_capacity(buffer: Seq<EventInput>, capacity: nat) -> bool {
    buffer.len() == 0 || buffer.len() < capacity
}

/// The largest batch: the batch size, or one event where the size is 0.
pub open spec fn max_batch(capacity: nat) -> nat {
    if capacity == 0 { 1 } else { capacity }
}

/// No event is lost, duplicated or reordered by a run, whether the sink
/// takes or refuses its batches: the batches flushed, followed by what stays
/// buffered, are the events buffered before followed by the received ones.
pub proof fn lemma_run_keeps_every_event(buffer: Seq<EventInput>, capacity: nat, events: Seq<RunEvent>)
    ensures
        concat_batches(run_all(buffer, capacity, events).1) + run_all(buffer, capacity, events).0
            =~= buffer + received(events),
    decreases events.len(),
{
    if events.len() > 0 {
        lemma_run_keeps_every_event(buffer, capacity, events.drop_last());
        let (before, batches) = run_all(buffer, capacity, events.drop_last());
        let (after, flushed) = run_step(before, capacity, events.last());
        match events.last() {
            RunEvent::Received(input, _) => {
                assert(buffer + received(events) =~= (buffer + received(events.drop_last())).push(input));
            },
            RunEvent::TimerElapsed(_) => {},
        }
        match flushed {
            Some(batch) => {
                assert(concat_batches(batches.push(batch)) =~= concat_batches(batches) + batch) by {
                    assert(batches.push(batch).drop_last() =~= batches);
                }
            },
            None => {},
        }
    }
}

/// A run keeps the buffer below the batch size, and every batch that it
/// flushes holds at least one event and at most the batch size (one event
/// where the size is 0); a batch flushed on receive holds exactly that.
pub proof fn lemma_run_batch_sizes(buffer: Seq<EventInput>, capacity: nat, events: Seq<RunEvent>)
    requires
        buffer_below_capacity(buffer, capacity),
    ensures
        buffer_below_capacity(run_all(buffer, capacity, events).0, capacity),
        forall|i: int| 0 <= i < run_all(buffer, capacity, events).1.len()
            ==> 1 <= #[trigger] run_all(buffer, capacity, events).1[i].len() <= max_batch(capacity),
    decreases events.len(),
{
    if events.len() > 0 {
        lemma_run_batch_sizes(buffer, capacity, events.drop_last());
        let (before, batches) = run_all(buffer, capacity, events.drop_last());
        let (after, flushed) = run_step(before, capacity, events.last());
        match flushed {
            Some(batch) => {
                assert(1 <= batch.len() <= max_batch(capacity));
                assert forall|i: int| 0 <= i < batches.push(batch).len()
                    implies 1 <= #[trigger] batches.push(batch)[i].len() <= max_batch(capacity) by {
                    if i < batches.len() {
                        assert(batches.push(batch)[i] == batches[i]);
                    }
                }
            },
            None => {},
        }
    }
}

/// The batches that a run from an empty buffer flushes, followed by the
/// batch that closing the channel then flushes (none when nothing is left).
pub open spec fn batches_until_close(capacity: nat, events: Seq<RunEvent>) -> Seq<Seq<EventInput>> {
    let (rest, batches) = run_all(Seq::empty(), capacity, events);
    if rest.len() == 0 { batches } else { batches.push(rest) }
}

/// Every event received before the channel closes is handed to the sink in
/// exactly one batch, in the order in which it came, whether or not the
/// sink takes its batches; no batch is empty or larger than the batch size.
pub proof fn lemma_close_delivers_every_event(capacity: nat, events: Seq<RunEvent>)
    ensures
        concat_batches(batches_until_close(capacity, events)) =~= received(events),
        forall|i: int| 0 <= i < batches_until_close(capacity, events).len()
            ==> 1 <= #[trigger] batches_until_close(capacity, events)[i].len() <= max_batch(capacity),
{
    let empty = Seq::<EventInput>::empty();
    lemma_run_keeps_every_event(empty, capacity, events);
    lemma_run_batch_sizes(empty, capacity, events);
    let (rest, batches) = run_all(empty, capacity, events);
    assert(empty + received(events) =~= received(events));
    if rest.len() != 0 {
        assert(batches.push(rest).drop_last() =~= batches);
        assert forall|i: int| 0 <= i < batches.push(rest).len()
            implies 1 <= #[trigger] batches.push(rest)[i].len() <= max_batch(capacity) by {
            if i < batches.len() {
                assert(batches.push(rest)[i] == batches[i]);
            }
        }
    } else {
        assert(concat_batches(batches) + rest =~= concat_batches(batches));
    }
}

impl BatcherState {
    /// An empty buffer, with room reserved for one batch.
    pub fn new(batcher: &Batcher) -> (s: BatcherState)
        ensures
            s.buffer@ == Seq::<EventInput>::empty(),
    {
        BatcherState { buffer: Vec::with_capacity(batcher.capacity) }
    }
}

impl Batcher {
    /// Takes the batch size and the flush period from the configuration.
    pub fn new(pipeline_config: &PipelineConfig) -> (b: Batcher)
        ensures
            b.capacity == pipeline_config.batch_size,
            b.timeout_ms == pipeline_config.flush_timeout_ms,
    {
        Batcher { capacity: pipeline_config.batch_size, timeout_ms: pipeline_config.flush_timeout_ms }
    }

    /// Takes every buffered event out as one batch, leaving an empty buffer.
    pub fn flush(&self, state: &mut BatcherState) -> (batch: Vec<EventInput>)
        ensures
            batch@ == old(state).buffer@,
            final(state).buffer@ == Seq::<EventInput>::empty(),
    {
        let mut batch = Vec::with_capacity(self.capacity);
        std::mem::swap(&mut batch, &mut state.buffer);
        batch
    }

    /// A received event is buffered, and the buffer is flushed when it
    /// reaches the batch size; a closed channel flushes what is buffered
    /// and ends the loop.
    pub fn handle_recv(&self, state: &mut BatcherState, msg: Option<EventInput>) -> (step: Step)
        ensures
            msg matches Some(input) ==> {
                &&& (step is Flush <==> old(state).buffer@.len() + 1 >= self.capacity)
                &&& step matches Step::Flush(b, _) ==> b@ == old(state).buffer@.push(input)
                    && final(state).buffer@.len() == 0
                &&& step is Proceed ==> step == Step::Proceed(Control::ResetTimer)
                    && final(state).buffer@ == old(state).buffer@.push(input)
            },
            match msg {
                Some(input) => {
                    let (after, flushed) = recv_step(old(state).buffer@, self.capacity as nat, input);
                    &&& final(state).buffer@ == after
                    &&& match flushed {
                        Some(batch) => step matches Step::Flush(b, FlushOrigin::Receive) && b@ == batch,
                        None => step == Step::Proceed(Control::ResetTimer),
                    }
                },
                None => {
                    &&& final(state).buffer@ == Seq::<EventInput>::empty()
                    &&& if old(state).buffer@.len() == 0 {
                        step == Step::Proceed(Control::Stop)
                    } else {
                        step matches Step::Flush(b, FlushOrigin::Close) && b@ == old(state).buffer@
                    }
                },
            },
    {
        match msg {
            Some(input) => {
                state.buffer.push(input);
                if state.buffer.len() >= self.capacity {
                    let batch = self.flush(state);
                    Step::Flush(batch, FlushOrigin::Receive)
                } else {
                    Step::Proceed(Control::ResetTimer)
                }
            },
            None => {
                if state.buffer.len() != 0 {
                    let batch = self.flush(state);
                    Step::Flush(batch, FlushOrigin::Close)
                } else {
                    Step::Proceed(Control::Stop)
                }
            },
        }
    }

    /// The flush timer elapsed: whatever is buffered is flushed.
    pub fn handle_timeout(&self, state: &mut BatcherState) -> (step: Step)
        ensures
            final(state).buffer@ == timeout_step(old(state).buffer@).0,
            final(state).buffer@ == Seq::<EventInput>::empty(),
            if old(state).buffer@.len() == 0 {
                step == Step::Proceed(Control::ResetTimer)
            } else {
                step matches Step::Flush(b, FlushOrigin::Timeout) && b@ == old(state).buffer@
            },
    {
        if state.buffer.len() != 0 {
            let batch = self.flush(state);
            Step::Flush(batch, FlushOrigin::Timeout)
        } else {
            Step::Proceed(Control::ResetTimer)
        }
    }

    /// What follows a flush. A failed batch is dropped, the buffer cleared,
    /// and the loop goes on; a flush on close that succeeded ends the loop.
    /// After a failed flush on timeout the timer is left as it is.
    pub fn after_flush(&self, state: &mut BatcherState, origin: FlushOrigin, succeeded: bool) -> (c: Control)
        ensures
            final(state).buffer@ == after_flush_buffer(old(state).buffer@, succeeded),
            c == match (origin, succeeded) {
                (FlushOrigin::Close, true) => Control::Stop,
                (FlushOrigin::Timeout, false) => Control::KeepTimer,
                _ => Control::ResetTimer,
            },
    {
        if !succeeded {
            state.buffer.clear();
        }
        match origin {
            FlushOrigin::Receive => Control::ResetTimer,
            FlushOrigin::Close => if succeeded { Control::Stop } else { Control::ResetTimer },
            FlushOrigin::Timeout => if succeeded { Control::ResetTimer } else { Control::KeepTimer },
        }
    }
}

} // verus!
