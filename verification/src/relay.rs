//! The byte-copy engine.
//!
//! A `RelayPipe` tracks one direction of a relayed connection: bytes flow from
//! a source into an internal buffer and from there into a sink until the
//! source reports end-of-data, at which point the sink is flushed and the
//! total byte count is reported. The pipe itself is a state machine over the
//! outcomes of the individual reads, writes and flushes; the code that touches
//! real sockets performs each operation and feeds the result back in. The
//! model `PipeModel` records the exact sequence of bytes the sink has
//! accepted, so the contracts pin down that nothing is lost, duplicated or
//! reordered and that the reported count is exact.

use vstd::prelude::*;

verus! {

/// Why a relay direction failed.
#[derive(Clone, Copy, Debug, PartialEq, Eq, Structural)]
pub enum RelayError {
    /// The sink accepted a write of zero bytes while data remained buffered.
    WriteZero,
    /// A read, write or flush reported an error of its own.
    Io,
}

/// Where a relay direction stands.
#[derive(Clone, Copy, Debug, PartialEq, Eq, Structural)]
pub enum RelayStatus {
    /// Moving bytes: the source has not yet reported end-of-data.
    Running,
    /// The source is exhausted; the sink still has to be flushed.
    Draining,
    /// Flushed and finished; the byte count has been reported.
    Done,
    /// Terminated by a fault; no byte count is reported.
    Failed(RelayError),
}

/// The mathematical state of one relay direction: its status and the exact
/// bytes the sink has accepted so far, in order.
pub struct PipeModel {
    pub status: RelayStatus,
    pub delivered: Seq<u8>,
}

/// The state of a fresh pipe: running, nothing delivered.
pub open spec fn pipe_init() -> PipeModel {
    PipeModel { status: RelayStatus::Running, delivered: Seq::empty() }
}

/// A write handed `chunk` to the sink and the sink accepted `written` bytes
/// of it. Accepting zero bytes of a non-empty chunk is the write-zero fault;
/// otherwise exactly the accepted prefix is appended to the delivered bytes.
pub open spec fn pipe_write(m: PipeModel, chunk: Seq<u8>, written: int) -> PipeModel
    recommends
        m.status is Running,
        chunk.len() > 0,
        0 <= written <= chunk.len(),
{
    if written == 0 {
        PipeModel { status: RelayStatus::Failed(RelayError::WriteZero), delivered: m.delivered }
    } else {
        PipeModel { status: m.status, delivered: m.delivered + chunk.take(written) }
    }
}

/// The source reported end-of-data: nothing more will be written, and the
/// sink must be flushed before the count is reported.
pub open spec fn pipe_source_end(m: PipeModel) -> PipeModel
    recommends
        m.status is Running,
{
    PipeModel { status: RelayStatus::Draining, delivered: m.delivered }
}

/// The final flush succeeded: the transfer is complete.
pub open spec fn pipe_flush_ok(m: PipeModel) -> PipeModel
    recommends
        m.status is Draining,
{
    PipeModel { status: RelayStatus::Done, delivered: m.delivered }
}

/// A read, write or flush reported an error: the transfer stops at once and
/// the bytes delivered so far stand as they are.
pub open spec fn pipe_io_error(m: PipeModel) -> PipeModel
    recommends
        m.status is Running || m.status is Draining,
{
    PipeModel { status: RelayStatus::Failed(RelayError::Io), delivered: m.delivered }
}

/// One outcome reported to a pipe: a write that the sink accepted `written`
/// bytes of, the end of the source, a successful final flush, or an error.
pub enum PipeEvent {
    Write { chunk: Seq<u8>, written: int },
    SourceEnd,
    FlushOk,
    IoError,
}

/// One step of the pipe. An event that its status does not admit leaves the
/// model unchanged: in particular nothing moves a failed pipe.
pub open spec fn pipe_step(m: PipeModel, event: PipeEvent) -> PipeModel {
    match event {
        PipeEvent::Write { chunk, written } => {
            if m.status is Running && chunk.len() > 0 && 0 <= written <= chunk.len() {
                pipe_write(m, chunk, written)
            } else {
                m
            }
        },
        PipeEvent::SourceEnd => {
            if m.status is Running {
                pipe_source_end(m)
            } else {
                m
            }
        },
        PipeEvent::FlushOk => {
            if m.status is Draining {
                pipe_flush_ok(m)
            } else {
                m
            }
        },
        PipeEvent::IoError => {
            if m.status is Running || m.status is Draining {
                pipe_io_error(m)
            } else {
                m
            }
        },
    }
}

/// The pipe after a whole sequence of events.
pub open spec fn pipe_run(m: PipeModel, events: Seq<PipeEvent>) -> PipeModel
    decreases events.len(),
{
    if events.len() == 0 {
        m
    } else {
        pipe_run(pipe_step(m, events[0]), events.skip(1))
    }
}

/// Law: delivered bytes are never retracted, reordered or rewritten. Whatever
/// events follow, the bytes already delivered to the sink stand unchanged as
/// a prefix of the bytes eventually delivered; a transfer only appends.
pub proof fn lemma_delivered_only_grows(m: PipeModel, events: Seq<PipeEvent>)
    ensures
        m.delivered.len() <= pipe_run(m, events).delivered.len(),
        pipe_run(m, events).delivered.take(m.delivered.len() as int) == m.delivered,
    decreases events.len(),
{
    if events.len() == 0 {
    } else {
        let m1 = pipe_step(m, events[0]);
        let end = pipe_run(m, events);
        lemma_delivered_only_grows(m1, events.skip(1));
        assert(m1.delivered.take(m.delivered.len() as int) =~= m.delivered);
        assert(end.delivered.take(m.delivered.len() as int) =~= end.delivered.take(
            m1.delivered.len() as int,
        ).take(m.delivered.len() as int));
    }
}

/// Law: a source that ends before any data yields a completed transfer with
/// a byte count of zero and no error.
pub proof fn lemma_empty_transfer()
    ensures
        pipe_flush_ok(pipe_source_end(pipe_init())).status is Done,
        pipe_flush_ok(pipe_source_end(pipe_init())).delivered.len() == 0,
{
}

/// Law: a sink that accepts zero bytes of a non-empty chunk fails the pipe at
/// once with the write-zero fault, delivering nothing further.
pub proof fn lemma_write_zero_is_fatal(m: PipeModel, chunk: Seq<u8>)
    requires
        m.status is Running,
        chunk.len() > 0,
    ensures
        pipe_write(m, chunk, 0).status == RelayStatus::Failed(RelayError::WriteZero),
        pipe_write(m, chunk, 0).delivered == m.delivered,
{
}

/// Law: failure is terminal. A failed pipe admits no further step, so no loop
/// can spin on a failed direction: in particular the write-zero fault cannot
/// be retried indefinitely.
pub proof fn lemma_failure_is_terminal(m: PipeModel, events: Seq<PipeEvent>)
    requires
        m.status is Failed,
    ensures
        pipe_run(m, events) == m,
    decreases events.len(),
{
    if events.len() > 0 {
        lemma_failure_is_terminal(m, events.skip(1));
    }
}

/// One relay direction. The runtime around it reads from the source, offers
/// each buffered chunk to the sink, and reports every outcome here; the pipe
/// decides whether to go on, finish, or fail, and accounts for every byte.
pub struct RelayPipe {
    count: u64,
    status: RelayStatus,
    delivered: Ghost<Seq<u8>>,
}

impl View for RelayPipe {
    type V = PipeModel;

    closed spec fn view(&self) -> PipeModel {
        PipeModel { status: self.status, delivered: self.delivered@ }
    }
}

impl RelayPipe {
    /// The byte counter equals the number of bytes delivered to the sink.
    pub closed spec fn wf(&self) -> bool {
        self.count as nat == self.delivered@.len()
    }

    /// A fresh pipe: running, zero bytes delivered.
    pub fn new() -> (pipe: Self)
        ensures
            pipe.wf(),
            pipe@ == pipe_init(),
    {
        RelayPipe { count: 0, status: RelayStatus::Running, delivered: Ghost(Seq::empty()) }
    }

    /// The current status.
    pub fn status(&self) -> (s: RelayStatus)
        ensures
            s == self@.status,
    {
        self.status
    }

    /// The bytes delivered to the sink so far, as counted by the pipe.
    pub fn transferred(&self) -> (n: u64)
        requires
            self.wf(),
        ensures
            n as nat == self@.delivered.len(),
    {
        self.count
    }

    /// A non-empty `chunk` was offered to the sink and the sink accepted its
    /// first `written` bytes. A zero-byte acceptance is the unrecoverable
    /// write-zero fault; any other acceptance extends the delivered bytes by
    /// exactly the accepted prefix.
    pub fn on_write(&mut self, chunk: &[u8], written: usize) -> (fault: Option<RelayError>)
        requires
            old(self).wf(),
            old(self)@.status is Running,
            chunk@.len() > 0,
            written <= chunk@.len(),
            old(self)@.delivered.len() + written <= u64::MAX,
        ensures
            final(self).wf(),
            final(self)@ == pipe_write(old(self)@, chunk@, written as int),
            fault == (if written == 0 {
                Some(RelayError::WriteZero)
            } else {
                None::<RelayError>
            }),
    {
        if written == 0 {
            self.status = RelayStatus::Failed(RelayError::WriteZero);
            Some(RelayError::WriteZero)
        } else {
            self.count = self.count + written as u64;
            proof {
                self.delivered@ = self.delivered@ + chunk@.take(written as int);
            }
            None
        }
    }

    /// The source reported end-of-data; the caller must now flush the sink.
    pub fn on_source_end(&mut self)
        requires
            old(self).wf(),
            old(self)@.status is Running,
        ensures
            final(self).wf(),
            final(self)@ == pipe_source_end(old(self)@),
    {
        self.status = RelayStatus::Draining;
    }

    /// The final flush succeeded: the transfer is complete, and the reported
    /// total is exactly the number of bytes the sink received.
    pub fn on_flush_ok(&mut self) -> (total: u64)
        requires
            old(self).wf(),
            old(self)@.status is Draining,
        ensures
            final(self).wf(),
            final(self)@ == pipe_flush_ok(old(self)@),
            total as nat == final(self)@.delivered.len(),
    {
        self.status = RelayStatus::Done;
        self.count
    }

    /// A read, write or flush failed with an error of its own: the transfer
    /// stops at once and no total is reported.
    pub fn on_io_error(&mut self)
        requires
            old(self).wf(),
            old(self)@.status is Running || old(self)@.status is Draining,
        ensures
            final(self).wf(),
            final(self)@ == pipe_io_error(old(self)@),
    {
        self.status = RelayStatus::Failed(RelayError::Io);
    }
}

/// Size of the internal read buffer: reads are chunked, never byte-at-a-time.
pub const RELAY_BUFFER_SIZE: usize = 16384;

/// An in-memory byte sink. Each write accepts at most `accept_per_write`
/// bytes of the chunk it is offered, so a sink can model partial writes, and
/// one with `accept_per_write == 0` models the write-zero fault. It buffers
/// nothing, so a flush succeeds and changes nothing.
pub struct ChunkSink {
    pub data: Vec<u8>,
    pub accept_per_write: usize,
}

impl ChunkSink {
    /// An empty sink accepting at most `accept_per_write` bytes per write.
    pub fn new(accept_per_write: usize) -> (sink: Self)
        ensures
            sink.data@ == Seq::<u8>::empty(),
            sink.accept_per_write == accept_per_write,
    {
        ChunkSink { data: Vec::new(), accept_per_write }
    }

    /// Accept the first `min(chunk.len(), accept_per_write)` bytes of `chunk`.
    pub fn write(&mut self, chunk: &[u8]) -> (n: usize)
        ensures
            n == vstd::math::min(chunk@.len() as int, old(self).accept_per_write as int),
            final(self).data@ == old(self).data@ + chunk@.take(n as int),
            final(self).accept_per_write == old(self).accept_per_write,
    {
        let n = if chunk.len() <= self.accept_per_write {
            chunk.len()
        } else {
            self.accept_per_write
        };
        let mut i: usize = 0;
        while i < n
            invariant
                i <= n,
                n <= chunk@.len(),
                self.data@ == old(self).data@ + chunk@.take(i as int),
                self.accept_per_write == old(self).accept_per_write,
            decreases n - i,
        {
            self.data.push(chunk[i]);
            assert(self.data@ =~= old(self).data@ + chunk@.take(i + 1));
            i = i + 1;
        }
        n
    }

    /// Flush the sink: it buffers nothing, so this succeeds without effect.
    pub fn flush(&mut self)
        ensures
            *final(self) == *old(self),
    {
    }
}

/// Copy every byte of `source` into `sink` through a `RelayPipe`, reading the
/// source in chunks of at most `RELAY_BUFFER_SIZE` bytes, then flush the sink
/// and report the total. The sink receives exactly the bytes of the source,
/// in order, appended to what it already held, and the reported count is
/// exact. A sink that accepts zero bytes per write fails the transfer with
/// the write-zero fault before anything is delivered — unless the source is
/// empty, in which case nothing is ever offered to it.
pub fn copy(source: &Vec<u8>, sink: &mut ChunkSink) -> (r: Result<u64, RelayError>)
    ensures
        final(sink).accept_per_write == old(sink).accept_per_write,
        (source@.len() == 0 || old(sink).accept_per_write > 0) ==> (r
            == Ok::<u64, RelayError>(source@.len() as u64) && final(sink).data@ == old(
            sink,
        ).data@ + source@),
        (source@.len() > 0 && old(sink).accept_per_write == 0) ==> (r == Err::<
            u64,
            RelayError,
        >(RelayError::WriteZero) && final(sink).data@ == old(sink).data@),
{
    let ghost sink_start: Seq<u8> = sink.data@;
    let mut pipe = RelayPipe::new();
    let mut pos: usize = 0;
    assert(source@.take(0) =~= Seq::<u8>::empty());
    assert(sink.data@ =~= sink_start + source@.take(0));
    while pos < source.len()
        invariant
            pipe.wf(),
            pipe@.status is Running,
            pos <= source@.len(),
            pipe@.delivered == source@.take(pos as int),
            sink_start == old(sink).data@,
            sink.data@ == sink_start + source@.take(pos as int),
            sink.accept_per_write == old(sink).accept_per_write,
            pos > 0 ==> sink.accept_per_write > 0,
        decreases source@.len() - pos,
    {
        let end = if source.len() - pos <= RELAY_BUFFER_SIZE {
            source.len()
        } else {
            pos + RELAY_BUFFER_SIZE
        };
        let chunk = vstd::slice::slice_subrange(source.as_slice(), pos, end);
        let accepted = sink.write(chunk);
        let fault = pipe.on_write(chunk, accepted);
        if let Some(err) = fault {
            assert(sink.data@ =~= sink_start);
            return Err(err);
        }
        assert(source@.take(pos as int) + chunk@.take(accepted as int) =~= source@.take(
            pos + accepted,
        ));
        pos = pos + accepted;
    }
    pipe.on_source_end();
    sink.flush();
    let total = pipe.on_flush_ok();
    assert(source@.take(pos as int) =~= source@);
    Ok(total)
}

} // verus!

