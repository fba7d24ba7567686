//! Byte sources that a request is read from: in-memory text and composites.

use vstd::prelude::*;

verus! {

/// An in-memory byte stream: `data`, of which the bytes before `pos` have
/// already been read.
pub struct TextSource {
    data: Vec<u8>,
    pos: usize,
}

impl TextSource {
    pub closed spec fn wf(&self) -> bool {
        self.pos <= self.data.len()
    }

    /// The bytes that have not been read yet.
    pub closed spec fn remaining(&self) -> Seq<u8> {
        self.data@.subrange(self.pos as int, self.data.len() as int)
    }

    /// A stream positioned at the start of `data`.
    pub fn new(data: Vec<u8>) -> (s: TextSource)
        ensures
            s.wf(),
            s.remaining() == data@,
    {
        let s = TextSource { data, pos: 0 };
        assert(s.remaining() =~= s.data@);
        s
    }

    /// Reads the next chunk of at most `max` bytes; an empty chunk means the
    /// stream is exhausted.
    pub fn read_chunk(&mut self, max: usize) -> (chunk: Vec<u8>)
        requires
            old(self).wf(),
            max > 0,
        ensures
            final(self).wf(),
            chunk@.len() == if old(self).remaining().len() < max {
                old(self).remaining().len()
            } else {
                max as nat
            },
            chunk@ + final(self).remaining() == old(self).remaining(),
            chunk@.len() == 0 <==> old(self).remaining().len() == 0,
    {
        let avail = self.data.len() - self.pos;
        let n: usize = if avail < max { avail } else { max };
        let mut chunk: Vec<u8> = Vec::with_capacity(n);
        let start = self.pos;
        let mut i: usize = 0;
        while i < n
            invariant
                start + n <= self.data.len(),
                i <= n,
                chunk@ == self.data@.subrange(start as int, (start + i) as int),
            decreases n - i,
        {
            chunk.push(self.data[start + i]);
            i = i + 1;
            assert(chunk@ =~= self.data@.subrange(start as int, (start + i) as int));
        }
        self.pos = start + n;
        assert(chunk@ + self.remaining() =~= self.data@.subrange(start as int, self.data.len() as int));
        chunk
    }
}

/// A readable input: in-memory text, or two inputs read one after the other.
pub enum Source {
    Text(TextSource),
    Chain(Box<Source>, Box<Source>),
}

impl Source {
    pub closed spec fn wf(&self) -> bool
        decreases self,
    {
        match self {
            Source::Text(t) => t.wf(),
            Source::Chain(a, b) => a.wf() && b.wf(),
        }
    }

    /// Everything the source will still produce, in order.
    pub closed spec fn contents(&self) -> Seq<u8>
        decreases self,
    {
        match self {
            Source::Text(t) => t.remaining(),
            Source::Chain(a, b) => a.contents() + b.contents(),
        }
    }

    /// How deeply composites are nested.
    pub closed spec fn depth(&self) -> nat
        decreases self,
    {
        match self {
            Source::Text(_) => 0,
            Source::Chain(a, b) => 1 + a.depth() + b.depth(),
        }
    }

    pub open spec fn is_chain(&self) -> bool {
        self is Chain
    }

    /// The first part of a composite.
    pub open spec fn first(&self) -> Source
        recommends
            self is Chain,
    {
        match self {
            Source::Chain(a, b) => **a,
            Source::Text(_) => *self,
        }
    }

    /// The second part of a composite.
    pub open spec fn second(&self) -> Source
        recommends
            self is Chain,
    {
        match self {
            Source::Chain(a, b) => **b,
            Source::Text(_) => *self,
        }
    }

    /// A source producing exactly the bytes of `data`.
    pub fn text(data: Vec<u8>) -> (s: Source)
        ensures
            s.wf(),
            s.contents() == data@,
            !s.is_chain(),
    {
        Source::Text(TextSource::new(data))
    }

    /// A source producing `a`'s bytes, then `b`'s.
    pub fn chain(a: Source, b: Source) -> (s: Source)
        requires
            a.wf(),
            b.wf(),
        ensures
            s.wf(),
            s.contents() == a.contents() + b.contents(),
            s.is_chain(),
            s.first() == a,
            s.second() == b,
    {
        Source::Chain(Box::new(a), Box::new(b))
    }

    /// Reads the next chunk of at most `max` bytes; an empty chunk means the
    /// source is exhausted. A composite leaves its second part untouched
    /// until the first is exhausted.
    pub fn read_chunk(&mut self, max: usize) -> (chunk: Vec<u8>)
        requires
            old(self).wf(),
            max > 0,
        ensures
            final(self).wf(),
            chunk@.len() <= max,
            chunk@ + final(self).contents() == old(self).contents(),
            chunk@.len() == 0 <==> old(self).contents().len() == 0,
            !old(self).is_chain() ==> chunk@.len() == if old(self).contents().len() < max {
                old(self).contents().len()
            } else {
                max as nat
            },
            old(self).is_chain() ==> final(self).is_chain(),
            old(self).is_chain() && old(self).first().contents().len() > 0 ==> {
                &&& final(self).second() == old(self).second()
                &&& chunk@ + final(self).first().contents() == old(self).first().contents()
            },
        decreases old(self).depth(),
    {
        match self {
            Source::Text(t) => t.read_chunk(max),
            Source::Chain(a, b) => {
                let chunk = a.read_chunk(max);
                if chunk.len() > 0 {
                    chunk
                } else {
                    b.read_chunk(max)
                }
            },
        }
    }
}

/// A composite produces its first part's bytes followed by its second's.
pub proof fn lemma_chain_concatenates(s: Source)
    requires
        s.is_chain(),
    ensures
        s.contents() == s.first().contents() + s.second().contents(),
{
}

} // verus!
