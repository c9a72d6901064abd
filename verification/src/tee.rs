//! Writing to two destinations at once: a buffer that keeps every byte, and
//! an inner sink that the same bytes are passed on to.
//!
//! The tee owns the sink and does the keeping. Passing on is output, which is
//! the caller's part: each write hands the sink out for it.

use vstd::prelude::*;

verus! {

/// A writer that keeps a copy of every byte written through it, in front of
/// an inner sink.
pub struct Tee<Inner> {
    accum: Vec<u8>,
    inner: Inner,
}

impl<Inner> Tee<Inner> {
    /// All bytes written through the tee so far, in the order written.
    pub closed spec fn captured(&self) -> Seq<u8> {
        self.accum@
    }

    /// The inner sink.
    pub closed spec fn sink(&self) -> Inner {
        self.inner
    }

    /// Puts a tee in front of `inner`. Nothing is captured yet.
    pub fn new(inner: Inner) -> (tee: Self)
        ensures
            tee.captured() == Seq::<u8>::empty(),
            tee.sink() == inner,
    {
        Tee { accum: Vec::new(), inner }
    }

    /// Takes the tee apart into the captured bytes and the inner sink.
    pub fn into_inner(self) -> (parts: (Vec<u8>, Inner))
        ensures
            parts.0@ == self.captured(),
            parts.1 == self.sink(),
    {
        (self.accum, self.inner)
    }

    /// Captures `bytes` and hands out the inner sink, for the caller to pass
    /// the same bytes on to it. The bytes are captured whatever becomes of
    /// them there.
    pub fn write(&mut self, bytes: &[u8]) -> (inner: &mut Inner)
        ensures
            final(self).captured() == old(self).captured() + bytes@,
            *inner == old(self).sink(),
            final(self).sink() == *final(inner),
    {
        self.accum.extend_from_slice(bytes);
        assert(self.accum@ =~= old(self).accum@ + bytes@);
        &mut self.inner
    }

    /// Hands out the inner sink without capturing anything.
    pub fn get_mut(&mut self) -> (inner: &mut Inner)
        ensures
            final(self).captured() == old(self).captured(),
            *inner == old(self).sink(),
            final(self).sink() == *final(inner),
    {
        &mut self.inner
    }
}

} // verus!
