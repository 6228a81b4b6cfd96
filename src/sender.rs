pub use crate::error::PacketSenderError;
use crate::settings::{NANOS_PER_SEC, Nanos};
use crossbeam_channel::Sender;
use rayon::iter::{IndexedParallelIterator, IntoParallelRefIterator, ParallelIterator};
use vstd::prelude::*;

verus! {

/// Frames in one batch handed through the queue.
pub const BATCH_SIZE: usize = 1;

/// Capacity of the bounded queue, in batches.
pub const QUEUE_CAPACITY: usize = 100;

/// Progress is reported at most once every that many frames.
pub const PROGRESS_INTERVAL: usize = 100000;

/// Least time between two progress reports.
pub const PROGRESS_MIN_GAP: Nanos = NANOS_PER_SEC;

/// How the generation task ended, as seen when it is joined.
#[derive(Debug, Clone, Copy, PartialEq, Eq, Structural)]
pub enum GeneratorOutcome {
    /// Every batch was handed to the queue.
    Finished,
    /// The queue was closed before every batch was handed over.
    QueueClosed,
    /// The task terminated abnormally.
    Aborted,
}

/// The result of a run whose generation task ended with `o`.
pub open spec fn outcome_result(o: GeneratorOutcome) -> Result<(), PacketSenderError> {
    match o {
        GeneratorOutcome::Finished => Ok(()),
        GeneratorOutcome::QueueClosed => Err(PacketSenderError::ChannelSendError),
        GeneratorOutcome::Aborted => Err(PacketSenderError::ThreadJoinError),
    }
}

/// Maps the generation task's end to the run's result.
pub fn generator_result(o: GeneratorOutcome) -> (r: Result<(), PacketSenderError>)
    ensures
        r == outcome_result(o),
{
    match o {
        GeneratorOutcome::Finished => Ok(()),
        GeneratorOutcome::QueueClosed => Err(PacketSenderError::ChannelSendError),
        GeneratorOutcome::Aborted => Err(PacketSenderError::ThreadJoinError),
    }
}

/// Where the drain loop stands.
#[derive(Debug, Clone, Copy, PartialEq, Eq, Structural)]
pub enum DrainPhase {
    /// Waiting for the next batch from the queue.
    Receiving,
    /// Writing the frames of the current batch to the device.
    Writing,
    /// Every frame is sent; waiting for the generation task to end.
    Joining,
    /// The run ended with every frame sent.
    Completed,
    /// The run ended with an error.
    Failed(PacketSenderError),
}

/// What happened since the last action.
#[derive(Debug, Clone, Copy, PartialEq, Eq, Structural)]
pub enum DrainEvent {
    /// A batch of that many frames was taken from the queue.
    BatchReceived(usize),
    /// The queue is closed and empty.
    ReceiveFailed,
    /// The device accepted the frame.
    WriteSucceeded,
    /// The device refused the frame.
    WriteFailed,
    /// The generation task ended so.
    GeneratorJoined(GeneratorOutcome),
}

/// What the loop is to do next.
#[derive(Debug, Clone, Copy, PartialEq, Eq, Structural)]
pub enum DrainAction {
    /// Take the next batch from the queue.
    Receive,
    /// Write the frame at this index of the current batch to the device
    /// (then, in a paced run, pause for the interval).
    Write(usize),
    /// Wait for the generation task to end.
    Join,
    /// Stop: the run succeeded.
    Done,
    /// Stop: the run failed with this error.
    Abort(PacketSenderError),
}

/// The decisions of the drain loop: which frame to write, when to take the
/// next batch, when to stop. The loop that performs the actions feeds the
/// outcome of each back as an event.
pub struct DrainLoop {
    /// Frames to send in all.
    pub target: usize,
    /// Frames the device has accepted so far.
    pub sent: usize,
    /// Length of the current batch.
    pub batch_len: usize,
    /// Index of the next frame to write in the current batch.
    pub pos: usize,
    pub phase: DrainPhase,
    /// The lengths of the batches received so far, in order.
    pub received: Ghost<Seq<nat>>,
}

/// The state of a loop that is to send `target` frames, before any event.
pub open spec fn initial(target: usize) -> DrainLoop {
    DrainLoop {
        target,
        sent: 0,
        batch_len: 0,
        pos: 0,
        phase: if target == 0 { DrainPhase::Joining } else { DrainPhase::Receiving },
        received: Ghost(Seq::empty()),
    }
}

/// Number of frames in the batches of `lens`.
pub open spec fn total(lens: Seq<nat>) -> nat
    decreases lens.len(),
{
    if lens.len() == 0 {
        0
    } else {
        total(lens.drop_last()) + lens.last()
    }
}

proof fn lemma_total_push(lens: Seq<nat>, n: nat)
    ensures
        total(lens.push(n)) == total(lens) + n,
{
    assert(lens.push(n).drop_last() =~= lens);
}

impl DrainLoop {
    /// The state is one that the loop can reach.
    pub open spec fn wf(self) -> bool {
        &&& self.sent <= self.target
        &&& self.pos <= self.batch_len
        &&& match self.phase {
            DrainPhase::Receiving => {
                &&& self.sent < self.target
                &&& total(self.received@) == self.sent
            },
            DrainPhase::Writing => {
                &&& self.sent < self.target
                &&& self.pos < self.batch_len
                &&& self.received@.len() > 0
                &&& self.received@.last() == self.batch_len
                &&& total(self.received@.drop_last()) + self.pos == self.sent
            },
            DrainPhase::Joining => self.sent == self.target,
            DrainPhase::Completed => self.sent == self.target,
            DrainPhase::Failed(_) => true,
        }
    }

    /// The action called for in state `self`.
    pub open spec fn action(self) -> DrainAction {
        match self.phase {
            DrainPhase::Receiving => DrainAction::Receive,
            DrainPhase::Writing => DrainAction::Write(self.pos),
            DrainPhase::Joining => DrainAction::Join,
            DrainPhase::Completed => DrainAction::Done,
            DrainPhase::Failed(e) => DrainAction::Abort(e),
        }
    }

    /// The state after event `ev`. An event that the phase does not
    /// expect leaves the state as it is.
    pub open spec fn step(self, ev: DrainEvent) -> DrainLoop {
        match (self.phase, ev) {
            (DrainPhase::Receiving, DrainEvent::BatchReceived(n)) => DrainLoop {
                batch_len: n,
                pos: 0,
                phase: if n == 0 { DrainPhase::Receiving } else { DrainPhase::Writing },
                received: Ghost(self.received@.push(n as nat)),
                ..self
            },
            (DrainPhase::Receiving, DrainEvent::ReceiveFailed) => DrainLoop {
                phase: DrainPhase::Failed(PacketSenderError::ChannelReceiveError),
                ..self
            },
            (DrainPhase::Writing, DrainEvent::WriteSucceeded) => DrainLoop {
                sent: (self.sent + 1) as usize,
                pos: (self.pos + 1) as usize,
                phase: if self.sent + 1 == self.target {
                    DrainPhase::Joining
                } else if self.pos + 1 == self.batch_len {
                    DrainPhase::Receiving
                } else {
                    DrainPhase::Writing
                },
                ..self
            },
            (DrainPhase::Writing, DrainEvent::WriteFailed) => DrainLoop {
                phase: DrainPhase::Failed(PacketSenderError::PacketSendError),
                ..self
            },
            (DrainPhase::Joining, DrainEvent::GeneratorJoined(o)) => DrainLoop {
                phase: match outcome_result(o) {
                    Ok(_) => DrainPhase::Completed,
                    Err(e) => DrainPhase::Failed(e),
                },
                ..self
            },
            _ => self,
        }
    }

    /// The state after the events of `evs`, in order.
    pub open spec fn run(self, evs: Seq<DrainEvent>) -> DrainLoop
        decreases evs.len(),
    {
        if evs.len() == 0 {
            self
        } else {
            self.run(evs.drop_last()).step(evs.last())
        }
    }

    /// A loop that is to send `target` frames. With a target of zero it
    /// writes nothing and only waits for the generation task.
    pub fn new(target: usize) -> (r: DrainLoop)
        ensures
            r == initial(target),
            r.wf(),
    {
        DrainLoop {
            target,
            sent: 0,
            batch_len: 0,
            pos: 0,
            phase: if target == 0 { DrainPhase::Joining } else { DrainPhase::Receiving },
            received: Ghost(Seq::empty()),
        }
    }

    /// Frames the device has accepted so far.
    pub fn sent(&self) -> (r: usize)
        ensures
            r == self.sent,
    {
        self.sent
    }

    /// The action to perform next.
    pub fn next_action(&self) -> (r: DrainAction)
        ensures
            r == self.action(),
    {
        match self.phase {
            DrainPhase::Receiving => DrainAction::Receive,
            DrainPhase::Writing => DrainAction::Write(self.pos),
            DrainPhase::Joining => DrainAction::Join,
            DrainPhase::Completed => DrainAction::Done,
            DrainPhase::Failed(e) => DrainAction::Abort(e),
        }
    }

    /// Takes in the outcome of the last action.
    pub fn handle(&mut self, ev: DrainEvent)
        requires
            old(self).wf(),
        ensures
            *final(self) == old(self).step(ev),
            final(self).wf(),
    {
        proof {
            lemma_step_wf(*self, ev);
        }
        match (self.phase, ev) {
            (DrainPhase::Receiving, DrainEvent::BatchReceived(n)) => {
                self.batch_len = n;
                self.pos = 0;
                self.phase = if n == 0 { DrainPhase::Receiving } else { DrainPhase::Writing };
                self.received = Ghost(self.received@.push(n as nat));
            },
            (DrainPhase::Receiving, DrainEvent::ReceiveFailed) => {
                self.phase = DrainPhase::Failed(PacketSenderError::ChannelReceiveError);
            },
            (DrainPhase::Writing, DrainEvent::WriteSucceeded) => {
                self.sent = self.sent + 1;
                self.pos = self.pos + 1;
                self.phase = if self.sent == self.target {
                    DrainPhase::Joining
                } else if self.pos == self.batch_len {
                    DrainPhase::Receiving
                } else {
                    DrainPhase::Writing
                };
            },
            (DrainPhase::Writing, DrainEvent::WriteFailed) => {
                self.phase = DrainPhase::Failed(PacketSenderError::PacketSendError);
            },
            (DrainPhase::Joining, DrainEvent::GeneratorJoined(o)) => {
                self.phase = match generator_result(o) {
                    Ok(_) => DrainPhase::Completed,
                    Err(e) => DrainPhase::Failed(e),
                };
            },
            _ => {},
        }
    }
}

/// One step keeps the state reachable.
pub proof fn lemma_step_wf(s: DrainLoop, ev: DrainEvent)
    requires
        s.wf(),
    ensures
        s.step(ev).wf(),
{
    if let (DrainPhase::Receiving, DrainEvent::BatchReceived(n)) = (s.phase, ev) {
        lemma_total_push(s.received@, n as nat);
        assert(s.received@.push(n as nat).drop_last() =~= s.received@);
    }
    if let (DrainPhase::Writing, DrainEvent::WriteSucceeded) = (s.phase, ev) {
        lemma_total_push(s.received@.drop_last(), s.batch_len as nat);
        assert(s.received@.drop_last().push(s.received@.last()) =~= s.received@);
    }
}

/// Any sequence of events keeps the state reachable.
pub proof fn lemma_run_wf(s: DrainLoop, evs: Seq<DrainEvent>)
    requires
        s.wf(),
    ensures
        s.run(evs).wf(),
    decreases evs.len(),
{
    if evs.len() > 0 {
        lemma_run_wf(s, evs.drop_last());
        lemma_step_wf(s.run(evs.drop_last()), evs.last());
    }
}

/// Whatever the queue and the device do, the loop never has more than
/// `target` frames accepted, asks for a write only while fewer have been,
/// and completes only with exactly `target` accepted. A target of zero is
/// a run that writes nothing.
pub proof fn lemma_sends_exactly_count(target: usize, evs: Seq<DrainEvent>)
    ensures
        ({
            let s = initial(target).run(evs);
            &&& s.sent <= target
            &&& s.action() is Write ==> s.sent < target
            &&& s.phase == DrainPhase::Completed ==> s.sent == target
            &&& target == 0 ==> s.sent == 0
        }),
{
    lemma_run_wf(initial(target), evs);
    lemma_run_keeps_target(initial(target), evs);
}

proof fn lemma_run_keeps_target(s: DrainLoop, evs: Seq<DrainEvent>)
    ensures
        s.run(evs).target == s.target,
    decreases evs.len(),
{
    if evs.len() > 0 {
        lemma_run_keeps_target(s, evs.drop_last());
    }
}

/// Frames go to the device in the order they came off the queue: the next
/// write is of the frame right after the `sent` frames already written, in
/// the stream that the received batches make end to end, and it lies in
/// the latest batch.
pub proof fn lemma_writes_in_stream_order(s: DrainLoop)
    requires
        s.wf(),
        s.action() is Write,
    ensures
        s.received@.len() > 0,
        s.action()->Write_0 < s.received@.last(),
        total(s.received@.drop_last()) + s.action()->Write_0 == s.sent,
{
}

/// A failed run stays failed: no event changes it.
proof fn lemma_failed_absorbs(s: DrainLoop, evs: Seq<DrainEvent>)
    requires
        s.phase is Failed,
    ensures
        s.run(evs) == s,
    decreases evs.len(),
{
    if evs.len() > 0 {
        lemma_failed_absorbs(s, evs.drop_last());
    }
}

/// One refused write ends the run at once: the loop fails with
/// `PacketSendError`, short of its target, and whatever happens after,
/// writes nothing more.
pub proof fn lemma_write_failure_is_fatal(s: DrainLoop, evs: Seq<DrainEvent>)
    requires
        s.wf(),
        s.phase == DrainPhase::Writing,
    ensures
        ({
            let f = s.step(DrainEvent::WriteFailed);
            &&& f.phase == DrainPhase::Failed(PacketSenderError::PacketSendError)
            &&& f.sent == s.sent
            &&& f.sent < f.target
            &&& f.run(evs) == f
            &&& f.action() == DrainAction::Abort(PacketSenderError::PacketSendError)
        }),
{
    lemma_failed_absorbs(s.step(DrainEvent::WriteFailed), evs);
}

/// Whether to report progress after `sent` frames at time `now`, the last
/// report having been at `last_report`: on every `PROGRESS_INTERVAL`-th
/// frame, and only once `PROGRESS_MIN_GAP` has passed since.
pub fn progress_due(sent: usize, now: Nanos, last_report: Nanos) -> (r: bool)
    ensures
        r == (sent % PROGRESS_INTERVAL == 0 && now >= last_report + PROGRESS_MIN_GAP),
{
    sent % PROGRESS_INTERVAL == 0 && now >= last_report && now - last_report >= PROGRESS_MIN_GAP
}

/// The lengths of the next batches to generate when `remaining` frames are
/// still to be generated, at most `max_batches` of them: each batch takes
/// `batch_size` frames, but the last of all takes what is left.
pub fn plan_batches(remaining: usize, batch_size: usize, max_batches: usize) -> (r: Vec<usize>)
    requires
        batch_size > 0,
    ensures
        r@.len() <= max_batches,
        forall|i: int| 0 <= i < r@.len() ==> 0 < #[trigger] r@[i] <= batch_size,
        forall|i: int| 0 <= i < r@.len() - 1 ==> #[trigger] r@[i] == batch_size,
        total(r@.map_values(|n: usize| n as nat)) <= remaining,
        r@.len() < max_batches ==> total(r@.map_values(|n: usize| n as nat)) == remaining,
        r@.len() > 0 && r@.last() < batch_size ==> total(r@.map_values(|n: usize| n as nat)) == remaining,
{
    let mut r: Vec<usize> = Vec::new();
    let mut left: usize = remaining;
    while left > 0 && r.len() < max_batches
        invariant
            batch_size > 0,
            r@.len() <= max_batches,
            left <= remaining,
            total(r@.map_values(|n: usize| n as nat)) + left == remaining,
            forall|i: int| 0 <= i < r@.len() ==> 0 < #[trigger] r@[i] <= batch_size,
            forall|i: int| 0 <= i < r@.len() - 1 ==> #[trigger] r@[i] == batch_size,
            r@.len() > 0 && r@.last() < batch_size ==> left == 0,
        decreases left,
    {
        let n = if left < batch_size { left } else { batch_size };
        proof {
            lemma_total_push(r@.map_values(|n: usize| n as nat), n as nat);
            assert(r@.push(n).map_values(|n: usize| n as nat) =~= r@.map_values(|n: usize| n as nat).push(n as nat));
        }
        r.push(n);
        left = left - n;
    }
    r
}

/// A batch of `len` copies of `template`.
pub fn make_batch(template: &Vec<u8>, len: usize) -> (r: Vec<Vec<u8>>)
    ensures
        r@.len() == len,
        forall|i: int| 0 <= i < len ==> #[trigger] r@[i]@ == template@,
{
    let mut r: Vec<Vec<u8>> = Vec::with_capacity(len);
    let mut i: usize = 0;
    while i < len
        invariant
            i <= len,
            r@.len() == i,
            forall|j: int| 0 <= j < i ==> #[trigger] r@[j]@ == template@,
        decreases len - i,
    {
        let copy = template.clone();
        proof {
            assert(copy@ =~= template@);
        }
        r.push(copy);
        i = i + 1;
    }
    r
}

/// A group of frames moved through the queue together.
pub type Batch = Vec<Vec<u8>>;

#[verifier::external_type_specification]
#[verifier::external_body]
#[verifier::reject_recursive_types(T)]
pub struct ExSender<T>(Sender<T>);

/// A prefix holds no more frames than the whole.
proof fn lemma_total_prefix_bound(lens: Seq<nat>, k: int)
    requires
        0 <= k <= lens.len(),
    ensures
        total(lens.subrange(0, k)) <= total(lens),
    decreases lens.len(),
{
    if k < lens.len() {
        assert(lens.drop_last().subrange(0, k) =~= lens.subrange(0, k));
        lemma_total_prefix_bound(lens.drop_last(), k);
    } else {
        assert(lens.subrange(0, k) =~= lens);
    }
}

/// Relies on rayon's indexed parallel map and `collect_into_vec`: each
/// batch is built by `make_batch` on some worker, and the results are
/// collected in the order of `lens`.
#[verifier::external_body]
fn make_batches(template: &Vec<u8>, lens: &Vec<usize>) -> (r: Vec<Batch>)
    ensures
        r@.len() == lens@.len(),
        forall|i: int| 0 <= i < lens@.len() ==> #[trigger] r@[i]@.len() == lens@[i],
        forall|i: int, j: int|
            0 <= i < lens@.len() && 0 <= j < lens@[i] ==> #[trigger] r@[i]@[j]@ == template@,
{
    let mut r = Vec::new();
    lens.par_iter().map(|n| make_batch(template, *n)).collect_into_vec(&mut r);
    r
}

/// Relies on crossbeam_channel::Sender::send: it blocks while the bounded
/// queue is full, and fails only once every receiver is gone.
#[verifier::external_body]
fn send_batch(tx: &Sender<Batch>, batch: Batch) -> (r: bool) {
    tx.send(batch).is_ok()
}

/// The progress of the generation task: how many frames are still to be
/// handed to the queue, and the lengths of the batches handed so far.
pub struct Generation {
    /// Frames to hand over in all.
    pub target: usize,
    /// Frames not yet handed over.
    pub remaining: usize,
    /// The lengths of the batches handed to the queue, in order.
    pub handed: Ghost<Seq<nat>>,
}

impl Generation {
    /// The batches handed so far account for every frame not remaining;
    /// each holds `BATCH_SIZE` frames, but a last one may hold fewer, and
    /// only once nothing remains.
    pub open spec fn wf(self) -> bool {
        &&& total(self.handed@) + self.remaining == self.target
        &&& forall|i: int| 0 <= i < self.handed@.len() ==> 0 < #[trigger] self.handed@[i] <= BATCH_SIZE
        &&& forall|i: int| 0 <= i < self.handed@.len() - 1 ==> #[trigger] self.handed@[i] == BATCH_SIZE
        &&& self.handed@.len() > 0 && self.handed@.last() < BATCH_SIZE ==> self.remaining == 0
    }

    /// Generation of `target` frames, none handed over yet.
    pub fn new(target: usize) -> (r: Generation)
        ensures
            r.target == target,
            r.remaining == target,
            r.handed@ == Seq::<nat>::empty(),
            r.wf(),
    {
        Generation { target, remaining: target, handed: Ghost(Seq::empty()) }
    }

    /// Frames not yet handed over.
    pub fn remaining(&self) -> (r: usize)
        ensures
            r == self.remaining,
    {
        self.remaining
    }

    /// Records that a batch of `len` frames was handed to the queue.
    pub fn batch_handed(&mut self, len: usize)
        requires
            old(self).wf(),
            0 < len <= BATCH_SIZE,
            len <= old(self).remaining,
            len < BATCH_SIZE ==> len == old(self).remaining,
        ensures
            final(self).target == old(self).target,
            final(self).remaining == old(self).remaining - len,
            final(self).handed@ == old(self).handed@.push(len as nat),
            final(self).wf(),
    {
        proof {
            lemma_total_push(self.handed@, len as nat);
        }
        self.remaining = self.remaining - len;
        self.handed = Ghost(self.handed@.push(len as nat));
    }
}

/// A finished generation handed over exactly `target` frames, in batches
/// of `BATCH_SIZE` but for a shorter last one.
pub proof fn lemma_generation_hands_all(g: Generation)
    requires
        g.wf(),
        g.remaining == 0,
    ensures
        total(g.handed@) == g.target,
        forall|i: int| 0 <= i < g.handed@.len() - 1 ==> #[trigger] g.handed@[i] == BATCH_SIZE,
        forall|i: int| 0 <= i < g.handed@.len() ==> 0 < #[trigger] g.handed@[i] <= BATCH_SIZE,
{
}

/// The generation task: hands the frames that `gen` still has to hand
/// over, each a copy of `template`, to the queue in batches of
/// `BATCH_SIZE`, building up to `QUEUE_CAPACITY` batches at a time in
/// parallel and sending them in order, and records each batch in `gen`
/// once the queue took it. It ends `Finished` exactly when every frame was
/// handed over, and `QueueClosed` as soon as the queue refuses a batch.
pub fn generate(template: &Vec<u8>, gen: &mut Generation, tx: &Sender<Batch>) -> (r: GeneratorOutcome)
    requires
        old(gen).wf(),
    ensures
        final(gen).wf(),
        final(gen).target == old(gen).target,
        final(gen).handed@.len() >= old(gen).handed@.len(),
        final(gen).handed@.subrange(0, old(gen).handed@.len() as int) == old(gen).handed@,
        r == GeneratorOutcome::Finished || r == GeneratorOutcome::QueueClosed,
        r == GeneratorOutcome::Finished <==> final(gen).remaining == 0,
        old(gen).remaining == 0 ==> r == GeneratorOutcome::Finished,
{
    let ghost start = gen.handed@;
    while gen.remaining() > 0
        invariant
            gen.wf(),
            gen.target == old(gen).target,
            gen.handed@.len() >= start.len(),
            gen.handed@.subrange(0, start.len() as int) == start,
            start == old(gen).handed@,
            gen.remaining <= old(gen).remaining,
        decreases gen.remaining,
    {
        let round_start = gen.remaining();
        let lens = plan_batches(round_start, BATCH_SIZE, QUEUE_CAPACITY);
        let ghost all = lens@.map_values(|n: usize| n as nat);
        assert(all.len() > 0) by {
            if all.len() == 0 {
                assert(all =~= Seq::<nat>::empty());
            }
        }
        let mut batches = make_batches(template, &lens);
        let mut i: usize = 0;
        while i < lens.len()
            invariant
                gen.wf(),
                gen.target == old(gen).target,
                gen.handed@.len() >= start.len(),
                gen.handed@.subrange(0, start.len() as int) == start,
            start == old(gen).handed@,
            gen.remaining <= old(gen).remaining,
                all == lens@.map_values(|n: usize| n as nat),
                all.len() > 0,
                i <= lens@.len(),
                batches@.len() == lens@.len() - i,
                round_start > 0,
                total(all) <= round_start,
                lens@.len() < QUEUE_CAPACITY ==> total(all) == round_start,
                lens@.len() > 0 && lens@.last() < BATCH_SIZE ==> total(all) == round_start,
                forall|k: int| 0 <= k < lens@.len() ==> 0 < #[trigger] lens@[k] <= BATCH_SIZE,
                forall|k: int| 0 <= k < lens@.len() - 1 ==> #[trigger] lens@[k] == BATCH_SIZE,
                gen.remaining + total(all.subrange(0, i as int)) == round_start,
            decreases lens@.len() - i,
        {
            proof {
                assert(all.subrange(0, i + 1).drop_last() =~= all.subrange(0, i as int));
                lemma_total_prefix_bound(all, i + 1);
                assert(gen.remaining >= lens@[i as int] > 0);
            }
            let batch = batches.remove(0);
            if !send_batch(tx, batch) {
                return GeneratorOutcome::QueueClosed;
            }
            proof {
                assert(gen.handed@.push(lens@[i as int] as nat).subrange(0, start.len() as int)
                    =~= gen.handed@.subrange(0, start.len() as int));
            }
            gen.batch_handed(lens[i]);
            i = i + 1;
        }
        proof {
            assert(all.subrange(0, i as int) =~= all);
            lemma_total_positive(all);
        }
    }
    GeneratorOutcome::Finished
}

/// Batches whose first has frames hold frames.
proof fn lemma_total_positive(lens: Seq<nat>)
    requires
        lens.len() > 0,
        lens[0] > 0,
    ensures
        total(lens) > 0,
    decreases lens.len(),
{
    if lens.len() > 1 {
        lemma_total_positive(lens.drop_last());
    }
}

/// `m` accepted writes in a row.
pub open spec fn accepted_writes(m: nat) -> Seq<DrainEvent> {
    Seq::new(m, |i: int| DrainEvent::WriteSucceeded)
}

/// A batch of `n` frames taken from the queue, then each of its frames
/// accepted by the device.
pub open spec fn clean_batch_events(n: nat) -> Seq<DrainEvent> {
    seq![DrainEvent::BatchReceived(n as usize)] + accepted_writes(n)
}

/// The events of a run in which the batches of `lens` come off the queue
/// in order and the device accepts every frame.
pub open spec fn clean_events(lens: Seq<nat>) -> Seq<DrainEvent>
    decreases lens.len(),
{
    if lens.len() == 0 {
        Seq::empty()
    } else {
        clean_events(lens.drop_last()) + clean_batch_events(lens.last())
    }
}

proof fn lemma_run_append(s: DrainLoop, a: Seq<DrainEvent>, b: Seq<DrainEvent>)
    ensures
        s.run(a + b) == s.run(a).run(b),
    decreases b.len(),
{
    if b.len() == 0 {
        assert(a + b =~= a);
    } else {
        assert((a + b).drop_last() =~= a + b.drop_last());
        lemma_run_append(s, a, b.drop_last());
    }
}

proof fn lemma_joining_ignores_traffic(s: DrainLoop, evs: Seq<DrainEvent>)
    requires
        s.phase == DrainPhase::Joining,
        forall|i: int| 0 <= i < evs.len() ==> #[trigger] evs[i] is BatchReceived || evs[i] is WriteSucceeded,
    ensures
        s.run(evs) == s,
    decreases evs.len(),
{
    if evs.len() > 0 {
        lemma_joining_ignores_traffic(s, evs.drop_last());
    }
}

proof fn lemma_accepted_writes(s: DrainLoop, m: nat)
    requires
        s.wf(),
        s.phase == DrainPhase::Writing,
        m <= s.batch_len - s.pos,
    ensures
        ({
            let t = s.run(accepted_writes(m));
            &&& t.target == s.target
            &&& if s.sent + m >= s.target {
                t.phase == DrainPhase::Joining && t.sent == s.target
            } else if m == s.batch_len - s.pos {
                t.phase == DrainPhase::Receiving && t.sent == s.sent + m
            } else {
                &&& t.phase == DrainPhase::Writing
                &&& t.sent == s.sent + m
                &&& t.pos == s.pos + m
                &&& t.batch_len == s.batch_len
            }
        }),
    decreases m,
{
    if m > 0 {
        assert(accepted_writes(m).drop_last() =~= accepted_writes((m - 1) as nat));
        lemma_accepted_writes(s, (m - 1) as nat);
    } else {
        assert(accepted_writes(0) =~= Seq::<DrainEvent>::empty());
    }
}

proof fn lemma_clean_batch(s: DrainLoop, n: nat)
    requires
        s.wf(),
        s.phase == DrainPhase::Receiving,
        0 < n <= usize::MAX,
    ensures
        ({
            let t = s.run(clean_batch_events(n));
            &&& t.target == s.target
            &&& if s.sent + n >= s.target {
                t.phase == DrainPhase::Joining && t.sent == s.target
            } else {
                t.phase == DrainPhase::Receiving && t.sent == s.sent + n
            }
        }),
{
    let first = seq![DrainEvent::BatchReceived(n as usize)];
    lemma_run_append(s, first, accepted_writes(n));
    assert(first.drop_last() =~= Seq::<DrainEvent>::empty());
    let s1 = s.step(DrainEvent::BatchReceived(n as usize));
    assert(s.run(first.drop_last()) == s);
    assert(first.last() == DrainEvent::BatchReceived(n as usize));
    assert(s.run(first) == s1);
    lemma_step_wf(s, DrainEvent::BatchReceived(n as usize));
    lemma_accepted_writes(s1, n);
}

proof fn lemma_clean_events(target: usize, lens: Seq<nat>)
    requires
        forall|i: int| 0 <= i < lens.len() ==> 0 < #[trigger] lens[i] <= usize::MAX,
    ensures
        ({
            let t = initial(target).run(clean_events(lens));
            &&& t.target == target
            &&& t.wf()
            &&& if total(lens) >= target {
                t.phase == DrainPhase::Joining && t.sent == target
            } else {
                t.phase == DrainPhase::Receiving && t.sent == total(lens)
            }
        }),
    decreases lens.len(),
{
    lemma_run_wf(initial(target), clean_events(lens));
    if lens.len() > 0 {
        let rest = lens.drop_last();
        let n = lens.last();
        lemma_clean_events(target, rest);
        let t0 = initial(target).run(clean_events(rest));
        lemma_run_append(initial(target), clean_events(rest), clean_batch_events(n));
        if total(rest) >= target {
            let evs = clean_batch_events(n);
            assert forall|i: int| 0 <= i < evs.len() implies #[trigger] evs[i] is BatchReceived
                || evs[i] is WriteSucceeded by {
                if i > 0 {
                    assert(evs[i] == accepted_writes(n)[i - 1]);
                }
            }
            lemma_joining_ignores_traffic(t0, evs);
        } else {
            lemma_clean_batch(t0, n);
        }
    }
}

/// When nothing fails, a run sends exactly its count: a finished
/// generation hands over batches whose lengths are `g.handed`; if they come
/// off the queue in that order, the device accepts every frame and the
/// generation task then ends `Finished`, the drain loop of `g.target`
/// frames completes with exactly `g.target` frames sent. With a count of
/// zero no batch is handed over and nothing is written.
pub proof fn lemma_clean_run_completes(g: Generation)
    requires
        g.wf(),
        g.remaining == 0,
    ensures
        ({
            let t = initial(g.target).run(
                clean_events(g.handed@).push(DrainEvent::GeneratorJoined(GeneratorOutcome::Finished)),
            );
            &&& t.phase == DrainPhase::Completed
            &&& t.sent == g.target
            &&& t.action() == DrainAction::Done
        }),
        g.target == 0 ==> g.handed@.len() == 0,
{
    lemma_clean_events(g.target, g.handed@);
    let evs = clean_events(g.handed@).push(DrainEvent::GeneratorJoined(GeneratorOutcome::Finished));
    assert(evs.drop_last() =~= clean_events(g.handed@));
    if g.target == 0 && g.handed@.len() > 0 {
        assert(g.handed@.drop_last().push(g.handed@.last()) =~= g.handed@);
        assert(g.handed@[g.handed@.len() - 1] > 0);
    }
}

} // verus!
