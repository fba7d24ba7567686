//! One forwarding exchange: send the input, half-close, read the response.

use vstd::prelude::*;
use crate::source::Source;

verus! {

/// Where one forwarding exchange stands.
#[derive(Clone, Copy, Debug, PartialEq, Eq)]
pub enum Exchange {
    /// Input is being read and sent to the daemon.
    Sending,
    /// The send side is closed; the daemon's response is being read.
    Receiving,
    /// The daemon closed its side: the exchange is complete.
    Finished,
}

/// What to do with the chunk just read.
#[derive(Clone, Copy, Debug, PartialEq, Eq)]
pub enum Transfer {
    /// Send the input chunk to the daemon, then read more input.
    SendChunk,
    /// Input is exhausted: half-close the send side, then read the response.
    CloseSend,
    /// Write the response chunk to the console, then read more response.
    EchoChunk,
    /// The response is complete.
    Complete,
}

/// The transition for a chunk of `len` bytes read in phase `e`: a
/// non-empty chunk is passed on, an empty one ends the current direction.
pub open spec fn transfer(e: Exchange, len: nat) -> (Exchange, Transfer) {
    match e {
        Exchange::Sending => if len > 0 {
            (Exchange::Sending, Transfer::SendChunk)
        } else {
            (Exchange::Receiving, Transfer::CloseSend)
        },
        Exchange::Receiving => if len > 0 {
            (Exchange::Receiving, Transfer::EchoChunk)
        } else {
            (Exchange::Finished, Transfer::Complete)
        },
        Exchange::Finished => (Exchange::Finished, Transfer::Complete),
    }
}

impl Exchange {
    /// An exchange starts by sending.
    pub fn new() -> (e: Exchange)
        ensures
            e == Exchange::Sending,
    {
        Exchange::Sending
    }

    /// Takes in the length of the chunk just read (from the input while
    /// sending, from the daemon while receiving) and says what to do.
    pub fn on_chunk(&mut self, len: usize) -> (t: Transfer)
        ensures
            (*final(self), t) == transfer(*old(self), len as nat),
    {
        let (e, t) = match *self {
            Exchange::Sending => if len > 0 {
                (Exchange::Sending, Transfer::SendChunk)
            } else {
                (Exchange::Receiving, Transfer::CloseSend)
            },
            Exchange::Receiving => if len > 0 {
                (Exchange::Receiving, Transfer::EchoChunk)
            } else {
                (Exchange::Finished, Transfer::Complete)
            },
            Exchange::Finished => (Exchange::Finished, Transfer::Complete),
        };
        *self = e;
        t
    }

    /// Runs the sending half of an exchange with the daemon's side taken as
    /// the byte sink `sink`: reads `input` in chunks of at most `max` bytes,
    /// passes each non-empty chunk on, and at the first empty one closes the
    /// send side. Nothing is dropped or repeated: `sink` gains exactly the
    /// input's contents, in order.
    pub fn send_input(&mut self, input: &mut Source, max: usize, sink: &mut Vec<u8>)
        requires
            *old(self) == Exchange::Sending,
            old(input).wf(),
            max > 0,
        ensures
            *final(self) == Exchange::Receiving,
            final(input).wf(),
            final(input).contents().len() == 0,
            final(sink)@ == old(sink)@ + old(input).contents(),
    {
        loop
            invariant_except_break
                *self == Exchange::Sending,
            invariant
                input.wf(),
                max > 0,
                sink@ + input.contents() == old(sink)@ + old(input).contents(),
            ensures
                *self == Exchange::Receiving,
                input.wf(),
                input.contents().len() == 0,
                sink@ == old(sink)@ + old(input).contents(),
            decreases input.contents().len(),
        {
            let chunk = input.read_chunk(max);
            match self.on_chunk(chunk.len()) {
                Transfer::SendChunk => {
                    let ghost before = sink@;
                    let mut i: usize = 0;
                    while i < chunk.len()
                        invariant
                            i <= chunk@.len(),
                            sink@ == before + chunk@.subrange(0, i as int),
                        decreases chunk@.len() - i,
                    {
                        sink.push(chunk[i]);
                        i = i + 1;
                        assert(sink@ =~= before + chunk@.subrange(0, i as int));
                    }
                    assert(chunk@.subrange(0, chunk@.len() as int) =~= chunk@);
                    assert(before + chunk@ + input.contents() =~= before + (chunk@
                        + input.contents()));
                },
                _ => {
                    assert(sink@ =~= sink@ + input.contents());
                    break;
                },
            }
        }
    }

    /// Whether the exchange is over.
    pub fn is_finished(&self) -> (r: bool)
        ensures
            r == (*self == Exchange::Finished),
    {
        match self {
            Exchange::Finished => true,
            _ => false,
        }
    }
}

} // verus!
