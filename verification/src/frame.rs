//! Writing frames: where the bytes of an atom body go.
//!
//! A frame takes bytes at its end and nowhere else. It has room for a number
//! of bytes that only shrinks; a write that does not fit is refused as a
//! whole and changes nothing.
use vstd::prelude::*;

verus! {

/// The frame had no room for what was to be written.
#[derive(Clone, Copy, Debug, PartialEq, Eq, Structural)]
pub struct FrameFull;

/// An append-only destination for bytes with a hard limit.
///
/// The codec writes through this trait alone. What it proves of the bytes
/// that arrive holds of a frame as far as the frame keeps the contract of
/// `write_raw`: `Buffer` does, and is verified to.
pub trait WritingFrame {
    /// The bytes written so far, oldest first.
    spec fn written(&self) -> Seq<u8>;

    /// The number of bytes that still fit.
    spec fn room(&self) -> nat;

    /// Appends `data` in one piece. If `data` is longer than the room that
    /// is left, nothing is written and the frame stays as it was.
    fn write_raw(&mut self, data: &[u8]) -> (r: Result<(), FrameFull>)
        ensures
            r is Ok <==> data@.len() <= old(self).room(),
            r is Ok ==> final(self).written() == old(self).written() + data@,
            r is Ok ==> final(self).room() == old(self).room() - data@.len(),
            r is Err ==> final(self).written() == old(self).written(),
            r is Err ==> final(self).room() == old(self).room(),
    ;

    /// Appends the one byte `value`.
    fn write_sized(&mut self, value: u8) -> (r: Result<(), FrameFull>)
        ensures
            r is Ok <==> 1 <= old(self).room(),
            r is Ok ==> final(self).written() == old(self).written().push(value),
            r is Ok ==> final(self).room() == old(self).room() - 1,
            r is Err ==> final(self).written() == old(self).written(),
            r is Err ==> final(self).room() == old(self).room(),
    {
        let one: [u8; 1] = [value];
        self.write_raw(one.as_slice())
    }
}

/// A frame in memory that takes a fixed number of bytes.
pub struct Buffer {
    bytes: Vec<u8>,
    free: usize,
}

impl View for Buffer {
    type V = Seq<u8>;

    closed spec fn view(&self) -> Seq<u8> {
        self.bytes@
    }
}

impl Buffer {
    /// The number of bytes that the buffer takes in all: those written and
    /// those that still fit.
    pub open spec fn capacity(self) -> nat {
        self@.len() + self.room()
    }

    /// An empty buffer that takes up to `capacity` bytes.
    pub fn new(capacity: usize) -> (buffer: Buffer)
        ensures
            buffer@ == Seq::<u8>::empty(),
            buffer.room() == capacity,
    {
        Buffer { bytes: Vec::new(), free: capacity }
    }

    /// The number of bytes written.
    pub fn len(&self) -> (n: usize)
        ensures
            n == self@.len(),
    {
        self.bytes.len()
    }

    /// The number of bytes that still fit.
    pub fn remaining(&self) -> (n: usize)
        ensures
            n == self.room(),
    {
        self.free
    }

    /// The bytes written, oldest first.
    pub fn as_slice(&self) -> (bytes: &[u8])
        ensures
            bytes@ == self@,
    {
        self.bytes.as_slice()
    }
}

impl WritingFrame for Buffer {
    open spec fn written(&self) -> Seq<u8> {
        self@
    }

    closed spec fn room(&self) -> nat {
        self.free as nat
    }

    fn write_raw(&mut self, data: &[u8]) -> (r: Result<(), FrameFull>) {
        if data.len() <= self.free {
            self.bytes.extend_from_slice(data);
            self.free = self.free - data.len();
            Ok(())
        } else {
            Err(FrameFull)
        }
    }
}

} // verus!
