//! The body of a response, as far as it lies in memory.

use std::collections::VecDeque;
use vstd::prelude::*;

verus! {

/// The body of a response.
///
/// `B` is a body that arrives piece by piece from elsewhere; what is known
/// of it is only that it is there.
#[derive(Debug, PartialEq, Eq)]
#[non_exhaustive]
pub enum ResBody<B> {
    /// No body.
    Empty,
    /// A body of one piece.
    Once(Vec<u8>),
    /// A body of several pieces, which are sent in their order.
    Chunks(VecDeque<Vec<u8>>),
    /// A body that is passed on from an upstream connection.
    Hyper(B),
    /// A body behind a pointer.
    Boxed(B),
    /// A body that is streamed.
    Stream(B),
    /// An error that is still to be written out, told by its status.
    Error(u16),
}

/// What a body in memory yields when asked for its next piece.
#[derive(Debug, PartialEq, Eq)]
pub enum Polled {
    /// The next piece.
    Piece(Vec<u8>),
    /// The body has ended.
    End,
    /// The body does not lie in memory: whoever streams it has to be asked.
    Elsewhere,
}

/// The lengths of `chunks`, added up.
pub open spec fn spec_total_len(chunks: Seq<Vec<u8>>) -> nat
    decreases chunks.len(),
{
    if chunks.len() == 0 {
        0
    } else {
        spec_total_len(chunks.drop_last()) + chunks.last()@.len()
    }
}

/// The lengths of the pieces only grow as pieces are added.
pub proof fn lemma_total_len_grows(chunks: Seq<Vec<u8>>, k: int)
    requires
        0 <= k <= chunks.len(),
    ensures
        spec_total_len(chunks.take(k)) <= spec_total_len(chunks),
    decreases chunks.len() - k,
{
    if k < chunks.len() {
        lemma_total_len_grows(chunks, k + 1);
        assert(chunks.take(k + 1).drop_last() =~= chunks.take(k));
    } else {
        assert(chunks.take(k) =~= chunks);
    }
}

impl<B> ResBody<B> {
    /// Whether there is no body.
    pub fn is_none(&self) -> (none: bool)
        ensures
            none == (self is Empty),
    {
        match self {
            ResBody::Empty => true,
            _ => false,
        }
    }

    /// Whether the body is of one piece.
    pub fn is_once(&self) -> (once: bool)
        ensures
            once == (self is Once),
    {
        match self {
            ResBody::Once(_) => true,
            _ => false,
        }
    }

    /// Whether the body is of several pieces.
    pub fn is_chunks(&self) -> (chunks: bool)
        ensures
            chunks == (self is Chunks),
    {
        match self {
            ResBody::Chunks(_) => true,
            _ => false,
        }
    }

    /// Whether the body is behind a pointer.
    pub fn is_boxed(&self) -> (boxed: bool)
        ensures
            boxed == (self is Boxed),
    {
        match self {
            ResBody::Boxed(_) => true,
            _ => false,
        }
    }

    /// Whether the body is streamed.
    pub fn is_stream(&self) -> (stream: bool)
        ensures
            stream == (self is Stream),
    {
        match self {
            ResBody::Stream(_) => true,
            _ => false,
        }
    }

    /// Whether the body is an error that is still to be written out.
    pub fn is_error(&self) -> (error: bool)
        ensures
            error == (self is Error),
    {
        match self {
            ResBody::Error(_) => true,
            _ => false,
        }
    }

    /// The size of the body in bytes, where it is known.
    pub open spec fn spec_size(&self) -> Option<nat> {
        match self {
            ResBody::Empty => Some(0),
            ResBody::Once(bytes) => Some(bytes@.len()),
            ResBody::Chunks(chunks) => Some(spec_total_len(chunks@)),
            _ => None,
        }
    }

    /// The size of the body in bytes: nothing for no body, the sum of the
    /// pieces for a body in memory. It is unknown for every other body, and
    /// for one whose size is beyond what the number can hold.
    pub fn size(&self) -> (size: Option<u64>)
        ensures
            match size {
                Some(bytes) => self.spec_size() == Some(bytes as nat),
                None => self.spec_size() is None || self.spec_size()->0 > u64::MAX,
            },
    {
        match self {
            ResBody::Empty => Some(0),
            ResBody::Once(bytes) => Some(bytes.len() as u64),
            ResBody::Chunks(chunks) => {
                let mut total: u64 = 0;
                let mut i: usize = 0;
                while i < chunks.len()
                    invariant
                        i <= chunks.len(),
                        *self == ResBody::<B>::Chunks(*chunks),
                        total == spec_total_len(chunks@.take(i as int)),
                    decreases chunks.len() - i,
                {
                    assert(chunks@.take(i + 1).drop_last() =~= chunks@.take(i as int));
                    assert(chunks@.take(i + 1).last() == chunks@[i as int]);
                    let len = chunks[i].len() as u64;
                    if len > u64::MAX - total {
                        proof {
                            lemma_total_len_grows(chunks@, i + 1);
                        }
                        return None;
                    }
                    total = total + len;
                    i += 1;
                }
                assert(chunks@.take(chunks@.len() as int) =~= chunks@);
                Some(total)
            },
            _ => None,
        }
    }

    /// Takes the body and leaves none.
    pub fn take(&mut self) -> (body: ResBody<B>)
        ensures
            body == *old(self),
            *final(self) == ResBody::<B>::Empty,
    {
        let mut body = ResBody::Empty;
        core::mem::swap(self, &mut body);
        body
    }

    /// What the body yields next, and what is left of it: one piece after
    /// the other of a body in memory, and the end after the last. An empty
    /// body of one piece, no body and an error yield nothing.
    pub fn poll_next(&mut self) -> (polled: Polled)
        ensures
            match *old(self) {
                ResBody::Empty => polled == Polled::End && *final(self) == *old(self),
                ResBody::Error(_) => polled == Polled::End && *final(self) == *old(self),
                ResBody::Once(bytes) => if bytes@.len() == 0 {
                    polled == Polled::End && *final(self) == *old(self)
                } else {
                    &&& polled == Polled::Piece(bytes)
                    &&& *final(self) matches ResBody::Once(left) && left@.len() == 0
                },
                ResBody::Chunks(chunks) => if chunks@.len() == 0 {
                    polled == Polled::End && *final(self) == *old(self)
                } else {
                    &&& polled == Polled::Piece(chunks@[0])
                    &&& *final(self) matches ResBody::Chunks(left) && left@ == chunks@.drop_first()
                },
                _ => polled == Polled::Elsewhere && *final(self) == *old(self),
            },
    {
        let body = self.take();
        match body {
            ResBody::Empty => Polled::End,
            ResBody::Error(status) => {
                *self = ResBody::Error(status);
                Polled::End
            },
            ResBody::Once(bytes) => {
                if bytes.len() == 0 {
                    *self = ResBody::Once(bytes);
                    Polled::End
                } else {
                    *self = ResBody::Once(Vec::new());
                    Polled::Piece(bytes)
                }
            },
            ResBody::Chunks(chunks) => {
                let mut chunks = chunks;
                if chunks.len() == 0 {
                    *self = ResBody::Chunks(chunks);
                    Polled::End
                } else {
                    let first = chunks.pop_front();
                    assert(chunks@ =~= old(self)->Chunks_0@.drop_first());
                    *self = ResBody::Chunks(chunks);
                    match first {
                        Some(piece) => Polled::Piece(piece),
                        None => Polled::End,
                    }
                }
            },
            other => {
                *self = other;
                Polled::Elsewhere
            },
        }
    }

    /// Whether the body has nothing more to yield, as far as that is known.
    pub fn is_end_stream(&self) -> (ended: bool)
        ensures
            ended == match self {
                ResBody::Empty => true,
                ResBody::Error(_) => true,
                ResBody::Once(bytes) => bytes@.len() == 0,
                ResBody::Chunks(chunks) => chunks@.len() == 0,
                _ => false,
            },
    {
        match self {
            ResBody::Empty => true,
            ResBody::Error(_) => true,
            ResBody::Once(bytes) => bytes.len() == 0,
            ResBody::Chunks(chunks) => chunks.len() == 0,
            _ => false,
        }
    }
}

} // verus!
