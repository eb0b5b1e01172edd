//! PTY host and output pump.
//!
//! The session is a process-lifetime singleton: it owns the child shell, the
//! duplex byte stream, and the last geometry. Writer access is serialized —
//! a scoped acquisition gates every write and resize — so this model treats
//! each write as one atomic append to the input stream; `lemma_resize_write_commute`
//! states what that discipline buys. The output pump is the session's one
//! reader: it polls at a short fixed interval and pushes whatever bytes are
//! available to the UI, preserving arrival order; chunk boundaries carry no
//! meaning. The pseudo-terminal pair and the child process themselves are
//! driven by the unverified shell, which feeds each poll's bytes into `poll`
//! and performs the emitted pushes.

use vstd::prelude::*;

verus! {

/// What a write leaves behind: the whole chunk appended, nothing else moved.
pub open spec fn write_post(a: TerminalSession, b: TerminalSession, data: Seq<u8>) -> bool {
    &&& b.written@ == a.written@ + data
    &&& b.rows == a.rows
    &&& b.cols == a.cols
    &&& b.alive == a.alive
}

/// What a resize leaves behind: the new geometry recorded, the input stream
/// untouched.
pub open spec fn resize_post(a: TerminalSession, b: TerminalSession, rows: u16, cols: u16) -> bool {
    &&& b.rows == rows
    &&& b.cols == cols
    &&& b.written@ == a.written@
    &&& b.alive == a.alive
}

/// The interactive shell session: child process, input stream, geometry.
#[derive(Debug)]
pub struct TerminalSession {
    /// Rows of the last geometry applied.
    pub rows: u16,
    /// Columns of the last geometry applied.
    pub cols: u16,
    /// Whether the child shell is still running. The one-shot session is
    /// reaped on exit and never respawned.
    pub alive: bool,
    /// Every byte accepted by the writer so far, in order.
    pub written: Vec<u8>,
}

impl TerminalSession {
    /// Open a pseudo-terminal at the given geometry and bind the platform
    /// shell to its secondary side. The input stream starts empty.
    pub fn spawn(rows: u16, cols: u16) -> (s: TerminalSession)
        ensures
            s.rows == rows,
            s.cols == cols,
            s.alive,
            s.written@ == Seq::<u8>::empty(),
    {
        let s = TerminalSession { rows, cols, alive: true, written: Vec::new() };
        proof {
            assert(s.written@ =~= Seq::<u8>::empty());
        }
        s
    }

    /// Accept one write. The whole chunk lands at the end of the input
    /// stream in one step — the serialized-writer discipline admits no
    /// partial append — and the geometry is untouched.
    pub fn write(&mut self, data: &Vec<u8>)
        ensures
            write_post(*old(self), *final(self), data@),
    {
        self.written.extend_from_slice(data.as_slice());
        proof {
            assert(self.written@ =~= old(self).written@ + data@);
        }
    }

    /// Apply a new geometry. It takes effect immediately — the recorded
    /// geometry is the requested one when the call returns — and the input
    /// stream is untouched, so a resize never corrupts a write.
    pub fn resize(&mut self, rows: u16, cols: u16)
        ensures
            resize_post(*old(self), *final(self), rows, cols),
    {
        self.rows = rows;
        self.cols = cols;
    }

    /// Record that the child exited. The watcher reaps it once; the session
    /// is never respawned.
    pub fn mark_exited(&mut self)
        ensures
            !final(self).alive,
            final(self).rows == old(self).rows,
            final(self).cols == old(self).cols,
            final(self).written@ == old(self).written@,
    {
        self.alive = false;
    }
}

/// The serialized write/resize discipline corrupts nothing: a resize landing
/// right before or right after a write yields sessions with the same input
/// stream — the write intact, byte for byte — and the same final geometry.
pub proof fn lemma_resize_write_commute(
    s0: TerminalSession,
    after_write: TerminalSession,
    write_then_resize: TerminalSession,
    after_resize: TerminalSession,
    resize_then_write: TerminalSession,
    data: Seq<u8>,
    rows: u16,
    cols: u16,
)
    requires
        write_post(s0, after_write, data),
        resize_post(after_write, write_then_resize, rows, cols),
        resize_post(s0, after_resize, rows, cols),
        write_post(after_resize, resize_then_write, data),
    ensures
        write_then_resize.written@ == resize_then_write.written@,
        write_then_resize.rows == resize_then_write.rows,
        write_then_resize.cols == resize_then_write.cols,
        write_then_resize.alive == resize_then_write.alive,
{
}

/// The output pump's transcript: every byte pushed to the UI so far.
#[derive(Debug)]
pub struct OutputPump {
    /// All bytes forwarded to the UI, in arrival order.
    pub forwarded: Vec<u8>,
}

impl OutputPump {
    /// A pump that has forwarded nothing yet.
    pub fn new() -> (p: OutputPump)
        ensures
            p.forwarded@ == Seq::<u8>::empty(),
    {
        let p = OutputPump { forwarded: Vec::new() };
        proof {
            assert(p.forwarded@ =~= Seq::<u8>::empty());
        }
        p
    }

    /// One poll tick; `chunk` is whatever the read handle had available.
    ///
    /// An empty poll is a no-op and pushes nothing to the UI; otherwise the
    /// chunk is pushed verbatim as one opaque event. Either way, after the
    /// call every byte drained so far has been forwarded in arrival order.
    pub fn poll(&mut self, chunk: Vec<u8>) -> (emit: Option<Vec<u8>>)
        ensures
            final(self).forwarded@ == old(self).forwarded@ + chunk@,
            chunk@.len() == 0 ==> emit is None,
            chunk@.len() > 0 ==> (emit matches Some(e) && e@ == chunk@),
    {
        if chunk.len() == 0 {
            proof {
                assert(self.forwarded@ =~= self.forwarded@ + chunk@);
            }
            None
        } else {
            self.forwarded.extend_from_slice(chunk.as_slice());
            proof {
                assert(self.forwarded@ =~= old(self).forwarded@ + chunk@);
            }
            Some(chunk)
        }
    }
}

/// The bytes of a run of polls, in arrival order.
pub open spec fn concat_chunks(chunks: Seq<Seq<u8>>) -> Seq<u8>
    decreases chunks.len(),
{
    if chunks.len() == 0 {
        Seq::<u8>::empty()
    } else {
        concat_chunks(chunks.drop_last()) + chunks.last()
    }
}

/// Skipping the empty polls loses no byte and reorders nothing: over any run
/// of polls, the chunks the pump emits concatenate to exactly the bytes the
/// read handle produced, in arrival order.
pub proof fn lemma_pump_preserves_byte_order(chunks: Seq<Seq<u8>>)
    ensures
        concat_chunks(chunks.filter(|c: Seq<u8>| c.len() > 0)) == concat_chunks(chunks),
    decreases chunks.len(),
{
    reveal(Seq::filter);
    let pred = |c: Seq<u8>| c.len() > 0;
    if chunks.len() > 0 {
        lemma_pump_preserves_byte_order(chunks.drop_last());
        let kept = chunks.drop_last().filter(pred);
        if pred(chunks.last()) {
            assert(chunks.filter(pred) == kept.push(chunks.last()));
            assert(kept.push(chunks.last()).drop_last() =~~= kept);
            assert(kept.push(chunks.last()).last() == chunks.last());
            assert(concat_chunks(chunks.filter(pred)) == concat_chunks(kept) + chunks.last());
        } else {
            assert(chunks.filter(pred) == kept);
            assert(chunks.last().len() == 0);
            assert(concat_chunks(chunks.drop_last()) + chunks.last() =~= concat_chunks(
                chunks.drop_last(),
            ));
        }
    }
}

} // verus!
