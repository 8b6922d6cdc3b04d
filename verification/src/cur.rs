use vstd::prelude::*;
use vstd::slice::slice_subrange;
use crate::error::DecodeError;

verus! {

/// A forward-only cursor over a byte buffer.
///
/// A read that would run past the end of the buffer fails and leaves the
/// cursor where it was.
#[derive(Clone, Copy)]
pub struct Cur<'a> {
    buf: &'a [u8],
    pos: usize,
}

impl<'a> Cur<'a> {
    #[verifier::type_invariant]
    spec fn in_bounds(self) -> bool {
        self.pos <= self.buf@.len()
    }

    /// The whole buffer, read and unread bytes alike.
    pub closed spec fn bytes(&self) -> Seq<u8> {
        self.buf@
    }

    /// How many bytes have been read.
    pub closed spec fn offset(&self) -> nat {
        self.pos as nat
    }

    /// The bytes not yet read.
    pub open spec fn rest(&self) -> Seq<u8> {
        self.bytes().skip(self.offset() as int)
    }

    /// A cursor at the start of `buf`.
    pub fn new(buf: &'a [u8]) -> (cur: Cur<'a>)
        ensures
            cur.bytes() == buf@,
            cur.offset() == 0,
    {
        Cur { buf, pos: 0 }
    }

    /// The number of bytes read so far.
    pub fn pos(&self) -> (pos: usize)
        ensures
            pos == self.offset(),
            pos <= self.bytes().len(),
    {
        proof {
            use_type_invariant(self);
        }
        self.pos
    }

    /// The number of bytes still unread.
    pub fn bytes_remaining(&self) -> (n: usize)
        ensures
            n == self.rest().len(),
            n == self.bytes().len() - self.offset(),
    {
        proof {
            use_type_invariant(self);
        }
        self.buf.len() - self.pos
    }

    /// The next `n` bytes, without advancing.
    pub fn peek_n_u8s(&self, n: usize) -> (r: Result<&'a [u8], DecodeError>)
        ensures
            match r {
                Ok(bytes) => n <= self.rest().len() && bytes@ == self.rest().take(n as int),
                Err(e) => n > self.rest().len() && e == DecodeError::UnexpectedEndOfStream,
            },
    {
        proof {
            use_type_invariant(self);
        }
        if n > self.buf.len() - self.pos {
            return Err(DecodeError::UnexpectedEndOfStream);
        }
        let bytes = slice_subrange(self.buf, self.pos, self.pos + n);
        assert(bytes@ =~= self.rest().take(n as int));
        Ok(bytes)
    }

    /// Reads the next `n` bytes and advances past them.
    pub fn next_n_u8s(&mut self, n: usize) -> (r: Result<&'a [u8], DecodeError>)
        ensures
            final(self).bytes() == old(self).bytes(),
            match r {
                Ok(bytes) => {
                    &&& n <= old(self).rest().len()
                    &&& bytes@ == old(self).rest().take(n as int)
                    &&& final(self).offset() == old(self).offset() + n
                    &&& final(self).rest() == old(self).rest().skip(n as int)
                },
                Err(e) => {
                    &&& n > old(self).rest().len()
                    &&& e == DecodeError::UnexpectedEndOfStream
                    &&& *final(self) == *old(self)
                },
            },
    {
        proof {
            use_type_invariant(&*self);
        }
        if n > self.buf.len() - self.pos {
            return Err(DecodeError::UnexpectedEndOfStream);
        }
        let bytes = slice_subrange(self.buf, self.pos, self.pos + n);
        assert(bytes@ =~= self.rest().take(n as int));
        self.pos = self.pos + n;
        assert(self.rest() =~= old(self).rest().skip(n as int));
        Ok(bytes)
    }

    /// Reads the next byte and advances past it.
    pub fn next_u8(&mut self) -> (r: Result<u8, DecodeError>)
        ensures
            final(self).bytes() == old(self).bytes(),
            match r {
                Ok(byte) => {
                    &&& old(self).rest().len() > 0
                    &&& byte == old(self).rest()[0]
                    &&& final(self).offset() == old(self).offset() + 1
                    &&& final(self).rest() == old(self).rest().skip(1)
                },
                Err(e) => {
                    &&& old(self).rest().len() == 0
                    &&& e == DecodeError::UnexpectedEndOfStream
                    &&& *final(self) == *old(self)
                },
            },
    {
        proof {
            use_type_invariant(&*self);
        }
        if self.pos >= self.buf.len() {
            return Err(DecodeError::UnexpectedEndOfStream);
        }
        let byte = self.buf[self.pos];
        self.pos = self.pos + 1;
        assert(self.rest() =~= old(self).rest().skip(1));
        Ok(byte)
    }
}

} // verus!
