//! The log stream: what each read from the cursor means for the sequence of
//! operations. The stream does not read; its owner reads one outcome from the
//! cursor, hands it over, and acts on the answer.
use vstd::prelude::*;
use crate::entry::RawLogEntry;
use crate::operation::{decode, decode_spec, DecodeError, Operation};

verus! {

/// Why a stream stopped.
#[derive(Clone, Copy, Debug, PartialEq, Eq, Structural)]
pub enum StopReason {
    /// The cursor reported a fault.
    ReadError,
    /// An entry could not be decoded.
    Undecodable(DecodeError),
}

/// The state of a stream. `Terminated` is final.
#[derive(Clone, Copy, Debug, PartialEq, Eq, Structural)]
pub enum StreamState {
    Active,
    Terminated(StopReason),
}

/// What one read from the cursor gave.
pub enum ReadOutcome {
    /// An entry of the log.
    Entry(RawLogEntry),
    /// The server's await window passed with no new entry.
    Pending,
    /// The cursor reported a fault.
    Failed,
}

/// What the stream's owner does after handing over a read.
#[derive(Debug, PartialEq)]
pub enum Pull {
    /// Hand this operation to the consumer.
    Yield(Operation),
    /// Read from the cursor again; the consumer sees nothing of it.
    ReadAgain,
    /// Signal end-of-stream to the consumer.
    End,
}

/// One step of a stream in state `s` on read outcome `o`: the next state and
/// what to do.
pub open spec fn step(s: StreamState, o: ReadOutcome) -> (StreamState, Pull) {
    match s {
        StreamState::Terminated(_) => (s, Pull::End),
        StreamState::Active => match o {
            ReadOutcome::Failed => (StreamState::Terminated(StopReason::ReadError), Pull::End),
            ReadOutcome::Pending => (StreamState::Active, Pull::ReadAgain),
            ReadOutcome::Entry(e) => match decode_spec(e) {
                Ok(op) => (StreamState::Active, Pull::Yield(op)),
                Err(d) => (StreamState::Terminated(StopReason::Undecodable(d)), Pull::End),
            },
        },
    }
}

/// A stream in state `s` fed the outcomes `outs` in order: the state it ends
/// in and the operations it yields, in order.
pub open spec fn run(s: StreamState, outs: Seq<ReadOutcome>) -> (StreamState, Seq<Operation>)
    decreases outs.len(),
{
    if outs.len() == 0 {
        (s, Seq::empty())
    } else {
        let (s1, p) = step(s, outs[0]);
        let (s2, ops) = run(s1, outs.drop_first());
        (
            s2,
            match p {
                Pull::Yield(op) => seq![op] + ops,
                _ => ops,
            },
        )
    }
}

/// The decision state of one stream over one cursor.
pub struct LogStream {
    state: StreamState,
}

impl View for LogStream {
    type V = StreamState;

    closed spec fn view(&self) -> StreamState {
        self.state
    }
}

impl LogStream {
    /// A stream over a freshly opened cursor.
    pub fn new() -> (r: LogStream)
        ensures
            r@ == StreamState::Active,
    {
        LogStream { state: StreamState::Active }
    }

    /// Whether the stream may still yield operations.
    pub fn is_active(&self) -> (r: bool)
        ensures
            r == (self@ is Active),
    {
        match self.state {
            StreamState::Active => true,
            StreamState::Terminated(_) => false,
        }
    }

    /// Why the stream stopped, once it has.
    pub fn stop_reason(&self) -> (r: Option<StopReason>)
        ensures
            r == match self@ {
                StreamState::Active => None,
                StreamState::Terminated(why) => Some(why),
            },
    {
        match self.state {
            StreamState::Active => None,
            StreamState::Terminated(why) => Some(why),
        }
    }

    /// Takes one read outcome: a fault or an undecodable entry ends the
    /// stream, an empty await asks for another read, an entry is decoded and
    /// yielded. A terminated stream ends on every outcome.
    pub fn on_read(&mut self, outcome: ReadOutcome) -> (r: Pull)
        ensures
            (final(self)@, r) == step(old(self)@, outcome),
    {
        match self.state {
            StreamState::Terminated(_) => Pull::End,
            StreamState::Active => match outcome {
                ReadOutcome::Failed => {
                    self.state = StreamState::Terminated(StopReason::ReadError);
                    Pull::End
                },
                ReadOutcome::Pending => Pull::ReadAgain,
                ReadOutcome::Entry(e) => match decode(e) {
                    Ok(op) => Pull::Yield(op),
                    Err(d) => {
                        self.state = StreamState::Terminated(StopReason::Undecodable(d));
                        Pull::End
                    },
                },
            },
        }
    }

    /// Feeds a batch of read outcomes in order and returns the operations
    /// yielded, in order.
    pub fn feed_all(&mut self, outcomes: Vec<ReadOutcome>) -> (r: Vec<Operation>)
        ensures
            (final(self)@, r@) == run(old(self)@, outcomes@),
    {
        let ghost all = outcomes@;
        let ghost start = self@;
        let mut out: Vec<Operation> = Vec::new();
        let mut rest = outcomes;
        while rest.len() > 0
            invariant
                all.len() >= rest@.len(),
                rest@ == all.subrange(all.len() - rest@.len(), all.len() as int),
                run(start, all) == (run(self@, rest@).0, out@ + run(self@, rest@).1),
            decreases rest.len(),
        {
            let ghost before = self@;
            let ghost tail = rest@;
            let ghost out_before = out@;
            let o = rest.remove(0);
            assert(tail.drop_first() =~= rest@);
            let p = self.on_read(o);
            match p {
                Pull::Yield(op) => {
                    out.push(op);
                    assert(out_before + run(before, tail).1 =~= out@ + run(self@, rest@).1);
                },
                _ => {},
            }
            assert(rest@ =~= all.subrange(all.len() - rest@.len(), all.len() as int));
        }
        assert(out@ + Seq::<Operation>::empty() =~= out@);
        out
    }
}

/// Once a stream has ended it stays ended: whatever the cursor reports
/// afterwards, it yields nothing more and keeps its state.
pub proof fn lemma_end_is_final(s: StreamState, outs: Seq<ReadOutcome>)
    requires
        s is Terminated,
    ensures
        run(s, outs) == (s, Seq::<Operation>::empty()),
    decreases outs.len(),
{
    if outs.len() > 0 {
        lemma_end_is_final(s, outs.drop_first());
    }
}

/// Operations come out in the order of the reads they were decoded from:
/// what reads `a` yield precedes what the later reads `b` yield, and a read
/// of a decodable entry on an active stream yields exactly that entry's
/// operation.
pub proof fn lemma_yield_order(s: StreamState, a: Seq<ReadOutcome>, b: Seq<ReadOutcome>)
    ensures
        run(s, a + b) == (run(run(s, a).0, b).0, run(s, a).1 + run(run(s, a).0, b).1),
    decreases a.len(),
{
    if a.len() > 0 {
        assert((a + b).drop_first() =~= a.drop_first() + b);
        assert((a + b)[0] == a[0]);
        lemma_yield_order(step(s, a[0]).0, a.drop_first(), b);
        let (s1, p) = step(s, a[0]);
        let ra = run(s1, a.drop_first());
        let rb = run(ra.0, b);
        match p {
            Pull::Yield(op) => {
                assert(seq![op] + (ra.1 + rb.1) =~= (seq![op] + ra.1) + rb.1);
            },
            _ => {},
        }
    }
}

/// A single read of a decodable entry on an active stream yields that
/// entry's operation and leaves the stream active.
pub proof fn lemma_entry_yields(e: RawLogEntry)
    requires
        decode_spec(e) is Ok,
    ensures
        run(StreamState::Active, seq![ReadOutcome::Entry(e)]) == (
            StreamState::Active,
            seq![decode_spec(e)->Ok_0],
        ),
{
    let outs = seq![ReadOutcome::Entry(e)];
    assert(outs.drop_first() =~= Seq::<ReadOutcome>::empty());
    assert(outs[0] == ReadOutcome::Entry(e));
    assert(run(StreamState::Active, Seq::<ReadOutcome>::empty()) == (StreamState::Active, Seq::<Operation>::empty()));
    assert(seq![decode_spec(e)->Ok_0] + Seq::<Operation>::empty() =~= seq![decode_spec(e)->Ok_0]);
}

} // verus!
