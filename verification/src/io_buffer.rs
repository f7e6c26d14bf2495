//! The two directions in which bytes move between the driver and a region
//! that it does not control: a reader takes bytes out of the region, a writer
//! puts bytes into it.
//!
//! Every transfer moves exactly the bytes asked for, or fails with
//! [`Error::Fault`]. A transfer that faults is not undone: the bytes moved
//! before the fault stay moved, and the cursor stands behind them.

use vstd::prelude::*;
use vstd::bytes::{spec_u64_from_le_bytes, spec_u64_to_le_bytes, u64_from_le_bytes, u64_to_le_bytes};

use crate::error::Error;
use crate::iov_iter::{least, zeros};

verus! {

/// The width in bytes of a `u64` payload.
pub const U64_BYTES: usize = 8;

/// What a transfer of `len` bytes returns where `movable` can be moved.
pub open spec fn transfer_result(len: nat, movable: nat) -> Result<(), Error> {
    if len <= movable {
        Ok(())
    } else {
        Err(Error::Fault)
    }
}

/// What a writer shows of itself.
#[verifier::ext_equal]
pub struct WriterView {
    /// The bytes of the region behind the writer.
    pub passed: Seq<u8>,
    /// How many bytes the writer may still take.
    pub unwritten: nat,
    /// How many bytes the region accepts from here before it faults.
    pub writable: nat,
}

impl WriterView {
    /// The region accepts no more bytes than the writer may take.
    pub open spec fn inv(self) -> bool {
        self.writable <= self.unwritten
    }

    /// The writer after an attempt to write all of `data`: the bytes that
    /// the region accepted stand behind it, and it can take that many fewer.
    pub open spec fn written(self, data: Seq<u8>) -> WriterView {
        let moved = least(data.len(), self.writable);
        WriterView {
            passed: self.passed + data.take(moved as int),
            unwritten: (self.unwritten - moved) as nat,
            writable: (self.writable - moved) as nat,
        }
    }
}

/// What a reader shows of itself.
#[verifier::ext_equal]
pub struct ReaderView {
    /// The bytes ahead of the reader: all that it may still give.
    pub ahead: Seq<u8>,
    /// How many of them the region gives before it faults.
    pub readable: nat,
}

impl ReaderView {
    /// The region gives no more bytes than are ahead.
    pub open spec fn inv(self) -> bool {
        self.readable <= self.ahead.len()
    }

    /// The bytes that an attempt to read `len` bytes gets.
    pub open spec fn taken(self, len: nat) -> Seq<u8> {
        self.ahead.take(least(len, self.readable) as int)
    }

    /// The reader after an attempt to read `len` bytes.
    pub open spec fn skipped(self, len: nat) -> ReaderView {
        let moved = least(len, self.readable);
        ReaderView { ahead: self.ahead.skip(moved as int), readable: (self.readable - moved) as nat }
    }
}

/// A destination for bytes.
pub trait IoBufferWriter: Sized {
    /// What the writer shows of itself.
    spec fn writer(&self) -> WriterView;

    /// How many bytes the writer may still take. It only falls.
    fn len(&self) -> (n: usize)
        ensures
            n == self.writer().unwritten,
            self.writer().inv(),
    ;

    /// Whether the writer can take no further byte.
    fn is_empty(&self) -> (b: bool)
        ensures
            b == (self.writer().unwritten == 0),
            self.writer().inv(),
    {
        self.len() == 0
    }

    /// Fills the next `len` bytes of the region with zero. Where the region
    /// faults first, the bytes before the fault are zero and the result is
    /// [`Error::Fault`].
    fn clear(&mut self, len: usize) -> (r: Result<(), Error>)
        ensures
            final(self).writer() == old(self).writer().written(zeros(len as nat)),
            r == transfer_result(len as nat, old(self).writer().writable),
            old(self).writer().inv(),
            final(self).writer().inv(),
    ;

    /// Writes the first `len` bytes of `data`. Where the region faults
    /// first, the bytes before the fault are written and the result is
    /// [`Error::Fault`].
    fn write_raw(&mut self, data: &[u8], len: usize) -> (r: Result<(), Error>)
        requires
            len <= data@.len(),
        ensures
            final(self).writer() == old(self).writer().written(data@.take(len as int)),
            r == transfer_result(len as nat, old(self).writer().writable),
            old(self).writer().inv(),
            final(self).writer().inv(),
    ;

    /// Writes all of `data`, or fails with [`Error::Fault`] behind the bytes
    /// that the region accepted.
    fn write_slice(&mut self, data: &[u8]) -> (r: Result<(), Error>)
        ensures
            final(self).writer() == old(self).writer().written(data@),
            r == transfer_result(data@.len(), old(self).writer().writable),
            old(self).writer().inv(),
            final(self).writer().inv(),
    {
        assert(data@.take(data@.len() as int) =~= data@);
        self.write_raw(data, data.len())
    }

    /// Writes `value` as eight bytes, lowest first.
    fn write_u64(&mut self, value: u64) -> (r: Result<(), Error>)
        ensures
            final(self).writer() == old(self).writer().written(spec_u64_to_le_bytes(value)),
            r == transfer_result(8, old(self).writer().writable),
            old(self).writer().inv(),
            final(self).writer().inv(),
    {
        let bytes = u64_to_le_bytes(value);
        assert(bytes@.take(8) =~= bytes@);
        self.write_raw(bytes.as_slice(), U64_BYTES)
    }
}

/// A source of bytes.
pub trait IoBufferReader: Sized {
    /// What the reader shows of itself.
    spec fn reader(&self) -> ReaderView;

    /// How many bytes the reader may still give. It only falls.
    fn len(&self) -> (n: usize)
        ensures
            n == self.reader().ahead.len(),
            self.reader().inv(),
    ;

    /// Whether the reader can give no further byte.
    fn is_empty(&self) -> (b: bool)
        ensures
            b == (self.reader().ahead.len() == 0),
            self.reader().inv(),
    {
        self.len() == 0
    }

    /// Reads the next `len` bytes and puts them at the end of `out`. Where
    /// the region faults first, `out` gets the bytes before the fault and
    /// the result is [`Error::Fault`].
    fn read_raw(&mut self, out: &mut Vec<u8>, len: usize) -> (r: Result<(), Error>)
        ensures
            final(self).reader() == old(self).reader().skipped(len as nat),
            final(out)@ == old(out)@ + old(self).reader().taken(len as nat),
            r == transfer_result(len as nat, old(self).reader().readable),
            old(self).reader().inv(),
            final(self).reader().inv(),
    ;

    /// Reads every byte that is left.
    fn read_all(&mut self) -> (r: Result<Vec<u8>, Error>)
        ensures
            final(self).reader() == old(self).reader().skipped(old(self).reader().ahead.len()),
            match r {
                Ok(bytes) => old(self).reader().readable == old(self).reader().ahead.len()
                    && bytes@ == old(self).reader().ahead,
                Err(e) => old(self).reader().readable < old(self).reader().ahead.len() && e
                    == Error::Fault,
            },
    {
        let len = self.len();
        let mut bytes: Vec<u8> = Vec::new();
        match self.read_raw(&mut bytes, len) {
            Ok(()) => {
                assert(bytes@ =~= old(self).reader().ahead);
                Ok(bytes)
            },
            Err(e) => Err(e),
        }
    }

    /// Reads eight bytes as a `u64`, lowest byte first.
    fn read_u64(&mut self) -> (r: Result<u64, Error>)
        ensures
            final(self).reader() == old(self).reader().skipped(8),
            match r {
                Ok(value) => old(self).reader().readable >= 8 && value == spec_u64_from_le_bytes(
                    old(self).reader().ahead.take(8),
                ),
                Err(e) => old(self).reader().readable < 8 && e == Error::Fault,
            },
    {
        let mut bytes: Vec<u8> = Vec::new();
        match self.read_raw(&mut bytes, U64_BYTES) {
            Ok(()) => {
                assert(bytes@ =~= old(self).reader().ahead.take(8));
                Ok(u64_from_le_bytes(bytes.as_slice()))
            },
            Err(e) => Err(e),
        }
    }
}

} // verus!
