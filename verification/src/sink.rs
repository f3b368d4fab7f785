//! The byte-sink capability the raw-mode session wraps: any destination that
//! accepts byte buffers and supports an explicit flush.

use vstd::prelude::*;

verus! {

/// A write or flush request was rejected by the destination.
#[derive(Clone, Copy, Debug)]
pub struct SinkError {
    /// The destination's last reported fault code.
    pub code: u32,
}

/// A destination for bytes. The session is generic over this capability and
/// assumes no particular transport: a console, a file, or a pipe all fit.
///
/// `sent` is the sequence of bytes the destination has accepted so far; a
/// successful `write` extends it by exactly the bytes it reports written.
pub trait ByteSink: Sized {
    /// The bytes this sink has accepted so far.
    spec fn sent(&self) -> Seq<u8>;

    /// Hand `buf` to the destination; on success, the returned count says how
    /// many of its leading bytes were accepted, verbatim and in order.
    fn write(&mut self, buf: &[u8]) -> (r: Result<usize, SinkError>)
        ensures
            r matches Ok(n) ==> n <= buf@.len()
                && final(self).sent() == old(self).sent() + buf@.subrange(0, n as int),
    ;

    /// Push any buffered bytes through to the destination. Changes nothing
    /// about which bytes were accepted.
    fn flush(&mut self) -> (r: Result<(), SinkError>)
        ensures
            r is Ok ==> final(self).sent() == old(self).sent(),
    ;
}

/// An in-memory sink that accepts every byte: the simplest [`ByteSink`],
/// useful as the wrapped destination when exercising the session logic.
pub struct VecSink {
    data: Vec<u8>,
}

impl VecSink {
    /// An empty sink.
    pub fn new() -> (r: VecSink)
        ensures
            r.sent() == Seq::<u8>::empty(),
    {
        VecSink { data: Vec::new() }
    }

    /// The bytes accepted so far.
    pub fn bytes(&self) -> (r: &Vec<u8>)
        ensures
            r@ == self.sent(),
    {
        &self.data
    }

    /// Give up the sink and keep the bytes it accepted.
    pub fn into_bytes(self) -> (r: Vec<u8>)
        ensures
            r@ == self.sent(),
    {
        self.data
    }
}

impl ByteSink for VecSink {
    closed spec fn sent(&self) -> Seq<u8> {
        self.data@
    }

    fn write(&mut self, buf: &[u8]) -> (r: Result<usize, SinkError>)
        ensures
            r matches Ok(n) ==> n == buf@.len(),
    {
        assert(old(self).data@ + buf@.subrange(0, 0) =~= old(self).data@);
        let mut i: usize = 0;
        while i < buf.len()
            invariant
                i <= buf.len(),
                self.data@ == old(self).data@ + buf@.subrange(0, i as int),
            decreases buf.len() - i,
        {
            self.data.push(buf[i]);
            assert(old(self).data@ + buf@.subrange(0, (i + 1) as int) =~= (old(self).data@
                + buf@.subrange(0, i as int)).push(buf@[i as int]));
            i = i + 1;
        }
        assert(buf@.subrange(0, buf@.len() as int) =~= buf@);
        Ok(buf.len())
    }

    fn flush(&mut self) -> (r: Result<(), SinkError>) {
        Ok(())
    }
}

} // verus!
