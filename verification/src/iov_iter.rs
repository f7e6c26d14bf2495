//! A cursor over a byte region that the driver does not control.
//!
//! The region is a run of bytes handed in segment by segment. A segment is
//! either mapped, and then its bytes can be read and written, or unmapped,
//! and then every access to it faults. The cursor walks the region once,
//! front to back, and never goes back: the count of bytes that it may still
//! pass only falls.
//!
//! Copying bytes in or out goes across segments until it is done or the
//! region faults. Filling with zero goes one step at a time, and a step
//! ends with the segment at the cursor: to fill more, the steps are
//! repeated until all is filled or a step fills nothing.

use vstd::prelude::*;
use vstd::bytes::{spec_u64_from_le_bytes, spec_u64_to_le_bytes, u64_from_le_bytes, u64_to_le_bytes};

use crate::error::Error;
use crate::io_buffer::{IoBufferReader, IoBufferWriter, ReaderView, WriterView, U64_BYTES};

verus! {

/// The mathematical state of a cursor and the region under it.
#[verifier::ext_equal]
pub struct IovIterView {
    /// Every byte of the region, passed or not.
    pub bytes: Seq<u8>,
    /// For every byte of the region, whether an access to it succeeds.
    pub mapped: Seq<bool>,
    /// For every byte of the region, whether it is the last of its segment.
    pub ends: Seq<bool>,
    /// The index of the next byte.
    pub pos: nat,
    /// How many bytes the cursor may still pass.
    pub count: nat,
}

/// How many bytes, starting at `from` and no more than `limit`, can be
/// accessed before the first unmapped one.
pub open spec fn mapped_run(mapped: Seq<bool>, from: int, limit: nat) -> nat
    decreases limit,
{
    if limit == 0 || from < 0 || from >= mapped.len() || !mapped[from] {
        0
    } else {
        1 + mapped_run(mapped, from + 1, (limit - 1) as nat)
    }
}

/// How many bytes one step takes from `from` on: up to the end of the segment
/// that holds `from`, and no more than `limit`.
pub open spec fn segment_run(ends: Seq<bool>, from: int, limit: nat) -> nat
    decreases limit,
{
    if limit == 0 || from < 0 || from >= ends.len() {
        0
    } else if ends[from] {
        1
    } else {
        1 + segment_run(ends, from + 1, (limit - 1) as nat)
    }
}

/// `k` zero bytes.
pub open spec fn zeros(k: nat) -> Seq<u8> {
    Seq::new(k, |i: int| 0u8)
}

/// The smaller of two numbers.
pub open spec fn least(a: nat, b: nat) -> nat {
    if a <= b {
        a
    } else {
        b
    }
}

impl IovIterView {
    /// Every byte has its flag, and the cursor cannot leave the region.
    pub open spec fn inv(self) -> bool {
        &&& self.bytes.len() == self.mapped.len()
        &&& self.bytes.len() == self.ends.len()
        &&& self.pos + self.count <= self.bytes.len()
    }

    /// How many bytes can be moved from here before the region faults or the
    /// cursor has passed all it may.
    pub open spec fn transferable(self) -> nat {
        mapped_run(self.mapped, self.pos as int, self.count)
    }

    /// How many of `len` bytes one step moves: as many as can be moved, but
    /// not beyond the end of the segment at the cursor. A step moves at least
    /// one byte where one can be moved.
    pub open spec fn steppable(self, len: nat) -> nat {
        segment_run(self.ends, self.pos as int, least(len, self.transferable()))
    }

    /// The bytes behind the cursor.
    pub open spec fn passed(self) -> Seq<u8> {
        self.bytes.take(self.pos as int)
    }

    /// The next `k` bytes.
    pub open spec fn window(self, k: nat) -> Seq<u8> {
        self.bytes.subrange(self.pos as int, (self.pos + k) as int)
    }

    /// The cursor `k` bytes further on, the region untouched.
    pub open spec fn advance(self, k: nat) -> IovIterView {
        IovIterView { pos: self.pos + k, count: (self.count - k) as nat, ..self }
    }

    /// The state after `data` has been written at the cursor: those bytes
    /// replace what the region held there, and the cursor stands behind them.
    pub open spec fn overwrite(self, data: Seq<u8>) -> IovIterView {
        IovIterView {
            bytes: self.bytes.take(self.pos as int) + data + self.bytes.skip(
                (self.pos + data.len()) as int,
            ),
            pos: self.pos + data.len(),
            count: (self.count - data.len()) as nat,
            ..self
        }
    }

    /// What a writer at this cursor shows of itself.
    pub open spec fn as_writer(self) -> WriterView {
        WriterView {
            passed: self.passed(),
            unwritten: self.count,
            writable: self.transferable(),
        }
    }

    /// What a reader at this cursor shows of itself.
    pub open spec fn as_reader(self) -> ReaderView {
        ReaderView { ahead: self.window(self.count), readable: self.transferable() }
    }

    /// The state after an attempt to write all of `data`: as much of it is
    /// written as can be moved.
    pub open spec fn written(self, data: Seq<u8>) -> IovIterView {
        self.overwrite(data.take(least(data.len(), self.transferable()) as int))
    }

    /// The state after an attempt to read `len` bytes: the cursor has passed
    /// as many of them as can be moved.
    pub open spec fn skipped(self, len: nat) -> IovIterView {
        self.advance(least(len, self.transferable()))
    }

    /// The state after the cursor has been held to at most `limit` bytes.
    pub open spec fn truncate(self, limit: nat) -> IovIterView {
        IovIterView { count: least(self.count, limit), ..self }
    }

    /// The state after a segment has been added behind the region's end.
    pub open spec fn push_segment(self, data: Seq<u8>, mapped: bool) -> IovIterView {
        IovIterView {
            bytes: self.bytes + data,
            mapped: self.mapped + Seq::new(data.len(), |i: int| mapped),
            ends: self.ends + Seq::new(data.len(), |i: int| i == data.len() - 1),
            pos: self.pos,
            count: self.count + data.len(),
        }
    }
}

/// One byte of the region, with its access flag and whether its segment
/// ends with it.
#[derive(Clone, Copy, Debug)]
struct Cell {
    byte: u8,
    mapped: bool,
    last: bool,
}

/// A cursor over a segmented byte region.
#[derive(Debug)]
pub struct IovIter {
    cells: Vec<Cell>,
    pos: usize,
    count: usize,
}

/// The state that a cursor with these parts stands for.
spec fn view_of(cells: Seq<Cell>, pos: usize, count: usize) -> IovIterView {
    IovIterView {
        bytes: Seq::new(cells.len(), |i: int| cells[i].byte),
        mapped: Seq::new(cells.len(), |i: int| cells[i].mapped),
        ends: Seq::new(cells.len(), |i: int| cells[i].last),
        pos: pos as nat,
        count: count as nat,
    }
}

impl View for IovIter {
    type V = IovIterView;

    closed spec fn view(&self) -> IovIterView {
        view_of(self.cells@, self.pos, self.count)
    }
}

/// Behind `k` bytes of a run of mapped bytes, the run is `k` shorter.
pub proof fn lemma_run_advance(mapped: Seq<bool>, from: int, limit: nat, k: nat)
    requires
        k <= mapped_run(mapped, from, limit),
    ensures
        k <= limit,
        mapped_run(mapped, from + k, (limit - k) as nat) == mapped_run(mapped, from, limit) - k,
    decreases k,
{
    if k > 0 {
        lemma_run_advance(mapped, from + 1, (limit - 1) as nat, (k - 1) as nat);
    }
}

/// Writing `first` and then `second` is writing the two as one.
pub proof fn lemma_overwrite_twice(v: IovIterView, first: Seq<u8>, second: Seq<u8>)
    requires
        v.inv(),
        first.len() + second.len() <= v.count,
    ensures
        v.overwrite(first).inv(),
        v.overwrite(first).overwrite(second) == v.overwrite(first + second),
{
    let once = v.overwrite(first).overwrite(second);
    let both = v.overwrite(first + second);
    assert(once.bytes =~= both.bytes);
}

/// A step takes no more bytes than its limit.
pub proof fn lemma_segment_run_bounded(ends: Seq<bool>, from: int, limit: nat)
    ensures
        segment_run(ends, from, limit) <= limit,
    decreases limit,
{
    if limit > 0 {
        lemma_segment_run_bounded(ends, from + 1, (limit - 1) as nat);
    }
}

/// No more bytes can be moved than the cursor may pass.
pub proof fn lemma_transferable_bounded(mapped: Seq<bool>, from: int, limit: nat)
    ensures
        mapped_run(mapped, from, limit) <= limit,
    decreases limit,
{
    if limit > 0 {
        lemma_transferable_bounded(mapped, from + 1, (limit - 1) as nat);
    }
}

/// Once `data` has been written, the bytes behind the cursor are those that
/// were behind it before and then `data`, and the run of mapped bytes ahead
/// is as much shorter.
pub proof fn lemma_passed_after_overwrite(v: IovIterView, data: Seq<u8>)
    requires
        v.inv(),
        data.len() <= v.transferable(),
    ensures
        v.overwrite(data).inv(),
        v.overwrite(data).passed() == v.passed() + data,
        v.overwrite(data).transferable() == v.transferable() - data.len(),
{
    lemma_run_advance(v.mapped, v.pos as int, v.count, data.len());
    assert(v.overwrite(data).passed() =~= v.passed() + data);
}

/// The count of bytes that the cursor may still pass only falls: no attempt
/// to write, to read or to hold the cursor back raises it.
pub proof fn lemma_count_only_falls(v: IovIterView, data: Seq<u8>, len: nat)
    requires
        v.inv(),
    ensures
        v.written(data).count <= v.count,
        v.skipped(len).count <= v.count,
        v.truncate(len).count <= v.count,
        v.written(data).inv(),
        v.skipped(len).inv(),
        v.truncate(len).inv(),
{
    lemma_transferable_bounded(v.mapped, v.pos as int, v.count);
}

impl IovIter {
    #[verifier::type_invariant]
    spec fn well_formed(self) -> bool {
        self.pos + self.count <= self.cells@.len()
    }

    /// A cursor over an empty region.
    pub fn new() -> (it: IovIter)
        ensures
            it@.inv(),
            it@.bytes.len() == 0,
            it@.pos == 0,
            it@.count == 0,
    {
        IovIter { cells: Vec::new(), pos: 0, count: 0 }
    }

    /// Adds a segment holding `data` behind the end of the region, and lets
    /// the cursor go that much further. An unmapped segment still counts
    /// towards the length, but no byte of it can be moved.
    pub fn push_segment(&mut self, data: &[u8], mapped: bool)
        ensures
            final(self)@ == old(self)@.push_segment(data@, mapped),
            final(self)@.inv(),
    {
        let mut taken = IovIter::new();
        core::mem::swap(self, &mut taken);
        proof {
            use_type_invariant(&taken);
        }
        let ghost start = taken@;
        let IovIter { mut cells, pos, count } = taken;
        let ghost before = cells@;
        let mut i: usize = 0;
        while i < data.len()
            invariant
                i <= data@.len(),
                pos + count <= before.len(),
                cells@.len() == before.len() + i,
                forall|j: int| 0 <= j < before.len() ==> cells@[j] == before[j],
                forall|j: int|
                    0 <= j < i ==> (#[trigger] cells@[before.len() + j]).byte == data@[j]
                        && cells@[before.len() + j].mapped == mapped && cells@[before.len()
                        + j].last == (j == data@.len() - 1),
            decreases data@.len() - i,
        {
            cells.push(Cell { byte: data[i], mapped, last: i + 1 == data.len() });
            i = i + 1;
        }
        assert(cells@.len() == cells.len());
        let count = count + data.len();
        proof {
            let grown = start.push_segment(data@, mapped);
            let now = view_of(cells@, pos, count);
            assert forall|j: int| 0 <= j < now.bytes.len() implies now.bytes[j] == grown.bytes[j]
                && now.mapped[j] == grown.mapped[j] && now.ends[j] == grown.ends[j] by {
                if j >= before.len() {
                    assert(cells@[before.len() + (j - before.len())].byte == data@[j
                        - before.len()]);
                }
            }
            assert(now.bytes =~= grown.bytes);
            assert(now.mapped =~= grown.mapped);
            assert(now.ends =~= grown.ends);
        }
        *self = IovIter { cells, pos, count };
    }

    /// How many bytes the cursor may still pass.
    pub fn common_len(&self) -> (n: usize)
        ensures
            n == self@.count,
            self@.inv(),
    {
        proof {
            use_type_invariant(self);
        }
        self.count
    }

    /// The index of the next byte in the region.
    pub fn position(&self) -> (n: usize)
        ensures
            n == self@.pos,
            self@.inv(),
    {
        proof {
            use_type_invariant(self);
        }
        self.pos
    }

    /// The bytes of the whole region as it is now.
    pub fn to_vec(&self) -> (bytes: Vec<u8>)
        ensures
            bytes@ == self@.bytes,
            self@.inv(),
    {
        proof {
            use_type_invariant(self);
        }
        let mut bytes: Vec<u8> = Vec::new();
        let mut i: usize = 0;
        while i < self.cells.len()
            invariant
                i <= self.cells@.len(),
                bytes@.len() == i,
                forall|j: int| 0 <= j < i ==> bytes@[j] == self.cells@[j].byte,
            decreases self.cells@.len() - i,
        {
            bytes.push(self.cells[i].byte);
            i = i + 1;
        }
        assert(bytes@ =~= self@.bytes);
        bytes
    }

    /// Holds the cursor to at most `limit` further bytes.
    pub fn truncate(&mut self, limit: usize)
        ensures
            final(self)@ == old(self)@.truncate(limit as nat),
            final(self)@.inv(),
    {
        proof {
            use_type_invariant(&*self);
        }
        if limit < self.count {
            self.count = limit;
        }
    }

    /// How many of `len` bytes can be moved before the region faults or the
    /// cursor has passed all it may.
    pub fn movable(&self, len: usize) -> (k: usize)
        ensures
            k == least(len as nat, self@.transferable()),
            k <= self@.count,
            self@.inv(),
    {
        proof {
            use_type_invariant(self);
        }
        let mut k: usize = 0;
        while k < len && k < self.count && self.cells[self.pos + k].mapped
            invariant
                self.cells@.len() == self.cells.len(),
                k <= len,
                k <= self.count,
                self.pos + self.count <= self.cells@.len(),
                self@.transferable() == k + mapped_run(
                    self@.mapped,
                    self.pos + k,
                    (self.count - k) as nat,
                ),
            decreases len - k,
        {
            k = k + 1;
        }
        k
    }

    /// Copies bytes of `data`, from its start, into the region at the
    /// cursor, until `len` bytes are copied or the region faults, and returns
    /// how many were copied. What was copied before a fault stays copied.
    pub fn copy_to(&mut self, data: &[u8], len: usize) -> (moved: usize)
        requires
            len <= data@.len(),
        ensures
            moved == least(len as nat, old(self)@.transferable()),
            final(self)@ == old(self)@.overwrite(data@.take(moved as int)),
            final(self)@.inv(),
    {
        let moved = self.movable(len);
        let mut taken = IovIter::new();
        core::mem::swap(self, &mut taken);
        let ghost start = taken@;
        let IovIter { mut cells, pos, count } = taken;
        let ghost before = cells@;
        let mut j: usize = 0;
        while j < moved
            invariant
                cells@.len() == cells.len(),
                j <= moved <= count,
                moved <= data@.len(),
                pos + count <= cells@.len(),
                cells@.len() == before.len(),
                forall|i: int|
                    0 <= i < cells@.len() ==> cells@[i].mapped == before[i].mapped && cells@[i].last
                        == before[i].last,
                forall|i: int|
                    0 <= i < cells@.len() && !(pos <= i < pos + j) ==> cells@[i].byte
                        == before[i].byte,
                forall|i: int| pos <= i < pos + j ==> cells@[i].byte == data@[i - pos],
            decreases moved - j,
        {
            let Cell { byte: _, mapped, last } = cells[pos + j];
            cells.set(pos + j, Cell { byte: data[j], mapped, last });
            j = j + 1;
        }
        proof {
            let target = start.overwrite(data@.take(moved as int));
            let now = view_of(cells@, (pos + moved) as usize, (count - moved) as usize);
            assert(now.bytes =~= target.bytes);
            assert(now.mapped =~= target.mapped);
            assert(now.ends =~= target.ends);
        }
        *self = IovIter { cells, pos: pos + moved, count: count - moved };
        moved
    }

    /// How many of `len` bytes one step moves: as many as can be moved, but
    /// not beyond the end of the segment at the cursor.
    pub fn step_len(&self, len: usize) -> (k: usize)
        ensures
            k == self@.steppable(len as nat),
            k <= least(len as nat, self@.transferable()),
            k <= self@.count,
            least(len as nat, self@.transferable()) > 0 ==> k > 0,
            self@.inv(),
    {
        let limit = self.movable(len);
        proof {
            use_type_invariant(self);
            lemma_segment_run_bounded(self@.ends, self@.pos as int, limit as nat);
        }
        let mut k: usize = 0;
        let mut stop = false;
        while k < limit && !stop
            invariant
                self.cells@.len() == self.cells.len(),
                k <= limit <= self.count,
                self.pos + self.count <= self.cells@.len(),
                self@.ends.len() == self.cells@.len(),
                limit > 0 ==> k > 0 || !stop,
                segment_run(self@.ends, self.pos as int, limit as nat) == k + if stop {
                    0
                } else {
                    segment_run(self@.ends, self.pos + k, (limit - k) as nat)
                },
            decreases limit - k,
        {
            assert(self@.ends[self.pos + k] == self.cells@[self.pos + k].last);
            stop = self.cells[self.pos + k].last;
            k = k + 1;
        }
        k
    }

    /// Fills the region at the cursor with zero bytes in one step, and
    /// returns how many were filled. A step fills no more than `len` bytes,
    /// stops where the region faults, and stops at the end of the segment at
    /// the cursor: whoever wants more bytes filled takes another step.
    pub fn zero(&mut self, len: usize) -> (moved: usize)
        ensures
            moved == old(self)@.steppable(len as nat),
            moved <= least(len as nat, old(self)@.transferable()),
            least(len as nat, old(self)@.transferable()) > 0 ==> moved > 0,
            final(self)@ == old(self)@.overwrite(zeros(moved as nat)),
            final(self)@.inv(),
    {
        let moved = self.step_len(len);
        let mut taken = IovIter::new();
        core::mem::swap(self, &mut taken);
        let ghost start = taken@;
        let IovIter { mut cells, pos, count } = taken;
        let ghost before = cells@;
        let mut j: usize = 0;
        while j < moved
            invariant
                cells@.len() == cells.len(),
                j <= moved <= count,
                pos + count <= cells@.len(),
                cells@.len() == before.len(),
                forall|i: int|
                    0 <= i < cells@.len() ==> cells@[i].mapped == before[i].mapped && cells@[i].last
                        == before[i].last,
                forall|i: int|
                    0 <= i < cells@.len() && !(pos <= i < pos + j) ==> cells@[i].byte
                        == before[i].byte,
                forall|i: int| pos <= i < pos + j ==> cells@[i].byte == 0u8,
            decreases moved - j,
        {
            let Cell { byte: _, mapped, last } = cells[pos + j];
            cells.set(pos + j, Cell { byte: 0u8, mapped, last });
            j = j + 1;
        }
        proof {
            let target = start.overwrite(zeros(moved as nat));
            let now = view_of(cells@, (pos + moved) as usize, (count - moved) as usize);
            assert(now.bytes =~= target.bytes);
            assert(now.mapped =~= target.mapped);
            assert(now.ends =~= target.ends);
        }
        *self = IovIter { cells, pos: pos + moved, count: count - moved };
        moved
    }

    /// Copies bytes from the region at the cursor to the end of `out`, until
    /// `len` bytes are copied or the region faults, and returns how many were
    /// copied. The region keeps its bytes; the cursor moves behind them.
    pub fn copy_from(&mut self, out: &mut Vec<u8>, len: usize) -> (moved: usize)
        ensures
            moved == least(len as nat, old(self)@.transferable()),
            final(out)@ == old(out)@ + old(self)@.window(moved as nat),
            final(self)@ == old(self)@.advance(moved as nat),
            final(self)@.inv(),
    {
        let moved = self.movable(len);
        proof {
            use_type_invariant(&*self);
        }
        let ghost start = self@;
        let ghost had = out@;
        let mut j: usize = 0;
        while j < moved
            invariant
                self.cells@.len() == self.cells.len(),
                j <= moved <= self.count,
                self.pos + self.count <= self.cells@.len(),
                self@ == start,
                out@.len() == had.len() + j,
                forall|i: int| 0 <= i < had.len() ==> out@[i] == had[i],
                forall|i: int|
                    had.len() <= i < had.len() + j ==> out@[i] == start.bytes[start.pos + i
                        - had.len()],
            decreases moved - j,
        {
            out.push(self.cells[self.pos + j].byte);
            j = j + 1;
        }
        assert(out@ =~= had + start.window(moved as nat));
        self.count = self.count - moved;
        self.pos = self.pos + moved;
        moved
    }
}

impl IoBufferWriter for IovIter {
    open spec fn writer(&self) -> WriterView {
        self@.as_writer()
    }

    fn len(&self) -> (n: usize) {
        proof {
            lemma_transferable_bounded(self@.mapped, self@.pos as int, self@.count);
        }
        self.common_len()
    }

    fn clear(&mut self, len: usize) -> (r: Result<(), Error>)
        ensures
            final(self)@ == old(self)@.written(zeros(len as nat)),
            old(self)@.inv(),
            final(self)@.inv(),
    {
        let ghost start = self@;
        let ghost wanted = least(len as nat, start.transferable());
        let mut left = len;
        proof {
            use_type_invariant(&*self);
            lemma_transferable_bounded(start.mapped, start.pos as int, start.count);
            assert(start.overwrite(zeros(0)).bytes =~= start.bytes);
        }
        while left > 0
            invariant
                left <= len,
                start == old(self)@,
                start.inv(),
                wanted == least(len as nat, start.transferable()),
                len - left <= start.transferable() <= start.count,
                self@ == start.overwrite(zeros((len - left) as nat)),
                self@.transferable() == start.transferable() - (len - left),
            decreases left,
        {
            let ghost done = (len - left) as nat;
            let written = self.zero(left);
            proof {
                lemma_overwrite_twice(start, zeros(done), zeros(written as nat));
                assert(zeros(done) + zeros(written as nat) =~= zeros(done + written as nat));
                lemma_run_advance(start.mapped, start.pos as int, start.count, done + written as nat);
            }
            if written == 0 {
                proof {
                    lemma_passed_after_overwrite(start, zeros(wanted));
                }
                return Err(Error::Fault);
            }
            left = left - written;
        }
        proof {
            lemma_passed_after_overwrite(start, zeros(wanted));
        }
        Ok(())
    }

    fn write_raw(&mut self, data: &[u8], len: usize) -> (r: Result<(), Error>)
        ensures
            final(self)@ == old(self)@.written(data@.take(len as int)),
            old(self)@.inv(),
            final(self)@.inv(),
    {
        let ghost start = self@;
        proof {
            use_type_invariant(&*self);
            lemma_transferable_bounded(start.mapped, start.pos as int, start.count);
        }
        let res = self.copy_to(data, len);
        proof {
            lemma_run_advance(start.mapped, start.pos as int, start.count, res as nat);
            lemma_passed_after_overwrite(start, data@.take(res as int));
        }
        if res != len {
            Err(Error::Fault)
        } else {
            Ok(())
        }
    }

    fn write_slice(&mut self, data: &[u8]) -> (r: Result<(), Error>)
        ensures
            final(self)@ == old(self)@.written(data@),
            old(self)@.inv(),
            final(self)@.inv(),
    {
        self.write_raw(data, data.len())
    }

    fn write_u64(&mut self, value: u64) -> (r: Result<(), Error>)
        ensures
            final(self)@ == old(self)@.written(spec_u64_to_le_bytes(value)),
            old(self)@.inv(),
            final(self)@.inv(),
    {
        let bytes = u64_to_le_bytes(value);
        self.write_raw(bytes.as_slice(), U64_BYTES)
    }
}

impl IoBufferReader for IovIter {
    open spec fn reader(&self) -> ReaderView {
        self@.as_reader()
    }

    fn len(&self) -> (n: usize) {
        proof {
            lemma_transferable_bounded(self@.mapped, self@.pos as int, self@.count);
        }
        self.common_len()
    }

    fn read_raw(&mut self, out: &mut Vec<u8>, len: usize) -> (r: Result<(), Error>)
        ensures
            final(self)@ == old(self)@.skipped(len as nat),
            final(out)@ == old(out)@ + old(self)@.window(
                least(len as nat, old(self)@.transferable()),
            ),
            old(self)@.inv(),
            final(self)@.inv(),
    {
        let ghost start = self@;
        proof {
            use_type_invariant(&*self);
            lemma_transferable_bounded(start.mapped, start.pos as int, start.count);
        }
        let res = self.copy_from(out, len);
        proof {
            lemma_run_advance(start.mapped, start.pos as int, start.count, res as nat);
            assert(start.window(res as nat) =~= start.window(start.count).take(res as int));
            assert(start.advance(res as nat).window((start.count - res) as nat)
                =~= start.window(start.count).skip(res as int));
        }
        if res != len {
            Err(Error::Fault)
        } else {
            Ok(())
        }
    }

    fn read_u64(&mut self) -> (r: Result<u64, Error>)
        ensures
            final(self)@ == old(self)@.skipped(8),
            r matches Ok(value) ==> value == spec_u64_from_le_bytes(old(self)@.window(8)),
            old(self)@.inv(),
            final(self)@.inv(),
    {
        let mut bytes: Vec<u8> = Vec::new();
        match self.read_raw(&mut bytes, U64_BYTES) {
            Ok(()) => {
                assert(bytes@ =~= old(self)@.window(8));
                assert(old(self)@.window(8) =~= old(self)@.window(old(self)@.count).take(8));
                Ok(u64_from_le_bytes(bytes.as_slice()))
            },
            Err(e) => Err(e),
        }
    }
}

} // verus!
