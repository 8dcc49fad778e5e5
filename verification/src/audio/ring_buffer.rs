//! A windowed ring buffer with one reader and one writer.
//!
//! The reader sees a window of cells starting at its cursor, the writer a window starting at its
//! own cursor, ahead of the reader's. Either cursor may advance only as far as keeps the two
//! windows apart: the reader never catches up with the writer's window, and the writer never comes
//! round to the reader's window. Cells entering the writer's window are reset to a blank value.

use vstd::prelude::*;

verus! {

/// `x` brought back into `0..capacity`, for `0 <= x < 2 * capacity`.
pub open spec fn wrap(x: int, capacity: int) -> int {
    if x < capacity {
        x
    } else {
        x - capacity
    }
}

/// What a ring buffer holds, seen from the reader's cursor.
#[verifier::ext_equal]
pub struct RingModel<T> {
    /// Every cell once round, starting at the reader's cursor.
    pub contents: Seq<T>,
    /// How far the writer's cursor is ahead of the reader's.
    pub filled: nat,
    /// How many cells the reader sees.
    pub read_window: nat,
    /// How many cells the writer sees.
    pub write_window: nat,
    /// The value that cells entering the writer's window are reset to.
    pub blank: T,
}

impl<T> RingModel<T> {
    pub open spec fn capacity(self) -> nat {
        self.contents.len()
    }

    /// Both windows lie inside the buffer, the reader's before the writer's, without overlap.
    pub open spec fn wf(self) -> bool {
        &&& self.capacity() > 0
        &&& self.read_window <= self.filled
        &&& self.filled + self.write_window <= self.capacity()
    }

    /// The cells the reader sees.
    pub open spec fn read_view(self) -> Seq<T> {
        self.contents.subrange(0, self.read_window as int)
    }

    /// The cells the writer sees.
    pub open spec fn write_view(self) -> Seq<T> {
        self.contents.subrange(self.filled as int, (self.filled + self.write_window) as int)
    }

    /// The buffer after `value` is written at `index` of the writer's window.
    pub open spec fn written(self, index: int, value: T) -> Self {
        RingModel { contents: self.contents.update(self.filled + index, value), ..self }
    }

    /// Cells `from..to` reset to the blank value.
    pub open spec fn blanked(self, from: int, to: int) -> Seq<T> {
        Seq::new(
            self.capacity(),
            |i: int|
                if from <= i < to {
                    self.blank
                } else {
                    self.contents[i]
                },
        )
    }

    /// Whether the writer may advance by `count` without coming round to the reader's window.
    pub open spec fn writer_may_advance(self, count: int) -> bool {
        self.filled + count + self.write_window <= self.capacity()
    }

    /// The buffer after the writer advanced by `count`: the cells entering its window are blank.
    pub open spec fn writer_advanced(self, count: nat) -> Self {
        RingModel {
            contents: self.blanked(
                (self.filled + self.write_window) as int,
                (self.filled + self.write_window + count) as int,
            ),
            filled: self.filled + count,
            ..self
        }
    }

    /// Whether the writer's window may become `size` cells long.
    pub open spec fn writer_may_resize(self, size: int) -> bool {
        self.filled + size <= self.capacity()
    }

    /// The buffer after the writer's window became `size` cells long: cells that enter it are
    /// blank.
    pub open spec fn writer_resized(self, size: nat) -> Self {
        RingModel {
            contents: if size > self.write_window {
                self.blanked((self.filled + self.write_window) as int, (self.filled + size) as int)
            } else {
                self.contents
            },
            write_window: size,
            ..self
        }
    }

    /// Whether the reader may advance by `count` without reaching the writer's window.
    pub open spec fn reader_may_advance(self, count: int) -> bool {
        count + self.read_window <= self.filled
    }

    /// The buffer after the reader advanced by `count`: the same cells, seen from further on.
    pub open spec fn reader_advanced(self, count: nat) -> Self {
        RingModel {
            contents: Seq::new(
                self.capacity(),
                |i: int| self.contents[wrap(i + count, self.capacity() as int)],
            ),
            filled: (self.filled - count) as nat,
            ..self
        }
    }

    /// The buffer after the reader took the `count` cells at its cursor: they are blanked, and
    /// the reader advanced past them.
    pub open spec fn reader_took(self, count: nat) -> Self {
        RingModel { contents: self.blanked(0, count as int), ..self }.reader_advanced(count)
    }

    /// Whether the reader's window may become `size` cells long.
    pub open spec fn reader_may_resize(self, size: int) -> bool {
        size <= self.filled
    }

    /// The buffer after the reader's window became `size` cells long.
    pub open spec fn reader_resized(self, size: nat) -> Self {
        RingModel { read_window: size, ..self }
    }
}

/// A windowed ring buffer with one reader and one writer.
pub struct RingBuffer<T> {
    buffer: Vec<T>,
    /// Where the reader's cursor is in `buffer`.
    read_start: usize,
    /// How far the writer's cursor is ahead of the reader's.
    filled: usize,
    read_window: usize,
    write_window: usize,
    blank: T,
}

impl<T> View for RingBuffer<T> {
    type V = RingModel<T>;

    closed spec fn view(&self) -> RingModel<T> {
        RingModel {
            contents: Seq::new(
                self.buffer@.len(),
                |i: int| self.buffer@[wrap(self.read_start + i, self.buffer@.len() as int)],
            ),
            filled: self.filled as nat,
            read_window: self.read_window as nat,
            write_window: self.write_window as nat,
            blank: self.blank,
        }
    }
}

impl<T: Copy> RingBuffer<T> {
    /// What the representation keeps true.
    pub closed spec fn inv(&self) -> bool {
        &&& 0 < self.buffer@.len() <= usize::MAX
        &&& self.read_start < self.buffer@.len()
        &&& self.read_window <= self.filled
        &&& self.filled + self.write_window <= self.buffer@.len()
    }

    /// Whatever calls made the buffer, its two windows lie inside it and apart: every
    /// operation keeps `inv`, and `inv` gives a well-formed model.
    pub proof fn lemma_windows_in_buffer(&self)
        requires
            self.inv(),
        ensures
            self@.wf(),
            self@.capacity() > 0,
            self@.read_window <= self@.filled,
            self@.filled + self@.write_window <= self@.capacity(),
    {
    }

    /// Where the cell `offset` cells on from the reader's cursor is in `buffer`.
    fn index_of(&self, offset: usize) -> (index: usize)
        requires
            self.inv(),
            offset <= self.buffer@.len(),
        ensures
            index < self.buffer@.len(),
            index == wrap(self.read_start + offset, self.buffer@.len() as int),
    {
        let capacity = self.buffer.len();
        if offset < capacity - self.read_start {
            self.read_start + offset
        } else {
            offset - (capacity - self.read_start)
        }
    }

    /// The cells `from..to` of the model, reset to the blank value.
    fn blank_cells(&mut self, from: usize, to: usize)
        requires
            old(self).inv(),
            from <= to <= old(self).buffer@.len(),
        ensures
            final(self).inv(),
            final(self)@ == (RingModel { contents: old(self)@.blanked(from as int, to as int), ..old(self)@ }),
    {
        let ghost start = self@;
        let mut offset = from;
        while offset < to
            invariant
                self.inv(),
                from <= offset <= to <= self.buffer@.len(),
                self.read_start == old(self).read_start,
                self.filled == old(self).filled,
                self.read_window == old(self).read_window,
                self.write_window == old(self).write_window,
                self.blank == old(self).blank,
                self.buffer@.len() == old(self).buffer@.len(),
                start == old(self)@,
                self@.contents == start.blanked(from as int, offset as int),
            decreases to - offset,
        {
            let index = self.index_of(offset);
            let blank = self.blank;
            let ghost before = self@.contents;
            self.buffer.set(index, blank);
            proof {
                let cap = self.buffer@.len() as int;
                assert forall|i: int| 0 <= i < cap implies #[trigger] self@.contents[i] == (
                if i == offset {
                    blank
                } else {
                    before[i]
                }) by {
                    if i != offset {
                        assert(wrap(self.read_start + i, cap) != wrap(
                            self.read_start + offset,
                            cap,
                        ));
                    }
                }
                assert(self@.contents =~= start.blanked(from as int, offset + 1));
            }
            offset = offset + 1;
        }
        assert(self@ =~= (RingModel { contents: start.blanked(from as int, to as int), ..start }));
    }

    /// The buffer's size.
    pub fn capacity(&self) -> (n: usize)
        requires
            self.inv(),
        ensures
            n == self@.capacity(),
    {
        self.buffer.len()
    }

    /// The cells the writer sees, in order.
    pub fn write_window(&self) -> (cells: Vec<T>)
        requires
            self.inv(),
        ensures
            cells@ == self@.write_view(),
            cells@.len() == self@.write_window,
    {
        let mut cells: Vec<T> = Vec::new();
        let mut k: usize = 0;
        while k < self.write_window
            invariant
                self.inv(),
                k <= self.write_window,
                cells@ == self@.write_view().subrange(0, k as int),
            decreases self.write_window - k,
        {
            let index = self.index_of(self.filled + k);
            cells.push(self.buffer[index]);
            k = k + 1;
            assert(cells@ =~= self@.write_view().subrange(0, k as int));
        }
        assert(self@.write_view().subrange(0, k as int) =~= self@.write_view());
        cells
    }

    /// Writes `value` at `index` of the writer's window.
    pub fn write(&mut self, index: usize, value: T)
        requires
            old(self).inv(),
            index < old(self)@.write_window,
        ensures
            final(self).inv(),
            final(self)@ == old(self)@.written(index as int, value),
    {
        let at = self.index_of(self.filled + index);
        let ghost before = self@;
        self.buffer.set(at, value);
        proof {
            let cap = self.buffer@.len() as int;
            let offset = self.filled + index;
            assert forall|i: int| 0 <= i < cap implies #[trigger] self@.contents[i] == (if i
                == offset {
                value
            } else {
                before.contents[i]
            }) by {
                if i != offset {
                    assert(wrap(self.read_start + i, cap) != wrap(self.read_start + offset, cap));
                }
            }
            assert(self@ =~= before.written(index as int, value));
        }
    }

    /// Advances the writer by `count` cells, if that leaves it clear of the reader's window.
    /// The cells entering the writer's window are blank. Returns whether it advanced.
    pub fn writer_next(&mut self, count: usize) -> (advanced: bool)
        requires
            old(self).inv(),
        ensures
            final(self).inv(),
            advanced == old(self)@.writer_may_advance(count as int),
            advanced ==> final(self)@ == old(self)@.writer_advanced(count as nat),
            !advanced ==> final(self)@ == old(self)@,
    {
        let capacity = self.buffer.len();
        if count > capacity - self.filled - self.write_window {
            return false;
        }
        let from = self.filled + self.write_window;
        self.blank_cells(from, from + count);
        self.filled = self.filled + count;
        proof {
            assert(self@.contents =~= old(self)@.writer_advanced(count as nat).contents);
        }
        true
    }

    /// How many cells the writer sees.
    pub fn writer_window_size(&self) -> (n: usize)
        ensures
            n == self@.write_window,
    {
        self.write_window
    }

    /// Makes the writer's window `size` cells long, if it then stays clear of the reader's
    /// window. Cells that enter it are blank. Returns whether it changed.
    pub fn set_writer_window_size(&mut self, size: usize) -> (resized: bool)
        requires
            old(self).inv(),
        ensures
            final(self).inv(),
            resized == old(self)@.writer_may_resize(size as int),
            resized ==> final(self)@ == old(self)@.writer_resized(size as nat),
            !resized ==> final(self)@ == old(self)@,
    {
        let capacity = self.buffer.len();
        if size > capacity - self.filled {
            return false;
        }
        if size > self.write_window {
            let from = self.filled + self.write_window;
            self.blank_cells(from, self.filled + size);
        }
        self.write_window = size;
        proof {
            assert(self@.contents =~= old(self)@.writer_resized(size as nat).contents);
        }
        true
    }

    /// The cells the reader sees, in order.
    pub fn read_window(&self) -> (cells: Vec<T>)
        requires
            self.inv(),
        ensures
            cells@ == self@.read_view(),
            cells@.len() == self@.read_window,
    {
        let mut cells: Vec<T> = Vec::new();
        let mut k: usize = 0;
        while k < self.read_window
            invariant
                self.inv(),
                k <= self.read_window,
                cells@ == self@.read_view().subrange(0, k as int),
            decreases self.read_window - k,
        {
            let index = self.index_of(k);
            cells.push(self.buffer[index]);
            k = k + 1;
            assert(cells@ =~= self@.read_view().subrange(0, k as int));
        }
        assert(self@.read_view().subrange(0, k as int) =~= self@.read_view());
        cells
    }

    /// Advances the reader by `count` cells, if that keeps it clear of the writer's window.
    /// Returns whether it advanced.
    pub fn reader_next(&mut self, count: usize) -> (advanced: bool)
        requires
            old(self).inv(),
        ensures
            final(self).inv(),
            advanced == old(self)@.reader_may_advance(count as int),
            advanced ==> final(self)@ == old(self)@.reader_advanced(count as nat),
            !advanced ==> final(self)@ == old(self)@,
    {
        if count > self.filled - self.read_window {
            return false;
        }
        let ghost before = self@;
        let start = self.index_of(count);
        self.read_start = start;
        self.filled = self.filled - count;
        proof {
            let cap = self.buffer@.len() as int;
            assert forall|i: int| 0 <= i < cap implies #[trigger] self@.contents[i]
                == before.reader_advanced(count as nat).contents[i] by {
                assert(wrap(self.read_start + i, cap) == wrap(
                    old(self).read_start + wrap(i + count, cap),
                    cap,
                ));
            }
            assert(self@ =~= before.reader_advanced(count as nat));
        }
        true
    }

    /// Takes the `count` cells at the reader's cursor, if that keeps the reader clear of the
    /// writer's window: gives them in order, blanks them, and advances the reader past them.
    /// `None`, with nothing changed, when the reader may not advance that far.
    pub fn read_into(&mut self, count: usize) -> (out: Option<Vec<T>>)
        requires
            old(self).inv(),
        ensures
            final(self).inv(),
            out is Some <==> old(self)@.reader_may_advance(count as int),
            out matches Some(cells) ==> cells@ == old(self)@.contents.subrange(0, count as int)
                && final(self)@ == old(self)@.reader_took(count as nat),
            out is None ==> final(self)@ == old(self)@,
    {
        if count > self.filled - self.read_window {
            return None;
        }
        let mut cells: Vec<T> = Vec::new();
        let mut k: usize = 0;
        while k < count
            invariant
                self.inv(),
                self@ == old(self)@,
                k <= count,
                count + self.read_window <= self.filled,
                cells@ == self@.contents.subrange(0, k as int),
            decreases count - k,
        {
            let index = self.index_of(k);
            cells.push(self.buffer[index]);
            k = k + 1;
            assert(cells@ =~= self@.contents.subrange(0, k as int));
        }
        self.blank_cells(0, count);
        let ghost blanked = self@;
        let advanced = self.reader_next(count);
        assert(advanced);
        assert(blanked == (RingModel { contents: old(self)@.blanked(0, count as int), ..old(self)@ }));
        Some(cells)
    }

    /// How many cells the reader sees.
    pub fn reader_window_size(&self) -> (n: usize)
        ensures
            n == self@.read_window,
    {
        self.read_window
    }

    /// Makes the reader's window `size` cells long, if it then stays clear of the writer's
    /// window. Returns whether it changed.
    pub fn set_reader_window_size(&mut self, size: usize) -> (resized: bool)
        requires
            old(self).inv(),
        ensures
            final(self).inv(),
            resized == old(self)@.reader_may_resize(size as int),
            resized ==> final(self)@ == old(self)@.reader_resized(size as nat),
            !resized ==> final(self)@ == old(self)@,
    {
        if size > self.filled {
            return false;
        }
        self.read_window = size;
        true
    }
}

/// A ring buffer of `capacity` cells, all blank, whose writer sees `write_window_size` cells and
/// whose reader sees `read_window_size` cells. The reader's window starts at the first cell and
/// the writer's window right after it, so a reader can read a blank window before anything is
/// written.
pub fn ring_buffer<T: Copy>(
    capacity: usize,
    write_window_size: usize,
    read_window_size: usize,
    blank: T,
) -> (ring: RingBuffer<T>)
    requires
        capacity > 0,
        write_window_size + read_window_size <= capacity,
    ensures
        ring.inv(),
        ring@.wf(),
        ring@ == (RingModel {
            contents: Seq::new(capacity as nat, |i: int| blank),
            filled: read_window_size as nat,
            read_window: read_window_size as nat,
            write_window: write_window_size as nat,
            blank,
        }),
{
    let mut buffer: Vec<T> = Vec::new();
    let mut k: usize = 0;
    while k < capacity
        invariant
            k <= capacity,
            buffer@ == Seq::new(k as nat, |i: int| blank),
        decreases capacity - k,
    {
        buffer.push(blank);
        k = k + 1;
        assert(buffer@ =~= Seq::new(k as nat, |i: int| blank));
    }
    let ring = RingBuffer {
        buffer,
        read_start: 0,
        filled: read_window_size,
        read_window: read_window_size,
        write_window: write_window_size,
        blank,
    };
    assert(ring@.contents =~= Seq::new(capacity as nat, |i: int| blank));
    ring
}

/// Writing into the writer's window never changes what the reader sees.
pub proof fn lemma_write_keeps_read_window<T>(m: RingModel<T>, index: int, value: T)
    requires
        m.wf(),
        0 <= index < m.write_window,
    ensures
        m.written(index, value).read_view() == m.read_view(),
{
    assert(m.written(index, value).read_view() =~= m.read_view());
}

/// Advancing or resizing the writer never changes what the reader sees.
pub proof fn lemma_writer_keeps_read_window<T>(m: RingModel<T>, count: nat, size: nat)
    requires
        m.wf(),
    ensures
        m.writer_may_advance(count as int) ==> m.writer_advanced(count).read_view()
            == m.read_view(),
        m.writer_may_resize(size as int) ==> m.writer_resized(size).read_view() == m.read_view(),
{
    assert(m.writer_advanced(count).read_view() =~= m.read_view());
    assert(m.writer_resized(size).read_view() =~= m.read_view());
}

/// Every operation keeps both windows inside the buffer and apart.
pub proof fn lemma_operations_keep_windows_apart<T>(
    m: RingModel<T>,
    index: int,
    value: T,
    count: nat,
    size: nat,
)
    requires
        m.wf(),
    ensures
        0 <= index < m.write_window ==> m.written(index, value).wf(),
        m.writer_may_advance(count as int) ==> m.writer_advanced(count).wf(),
        m.writer_may_resize(size as int) ==> m.writer_resized(size).wf(),
        m.reader_may_advance(count as int) ==> m.reader_advanced(count).wf(),
        m.reader_may_resize(size as int) ==> m.reader_resized(size).wf(),
{
}

/// What the writer writes, the reader reads back in order: a value written at `index` of the
/// writer's window, once the writer has moved past it and the reader has advanced to it, is the
/// first cell of the reader's window.
pub proof fn lemma_reader_reads_what_writer_wrote<T>(
    m: RingModel<T>,
    index: nat,
    value: T,
    count: nat,
)
    requires
        m.wf(),
        index < m.write_window,
        m.read_window > 0,
        index + m.read_window <= count,
        m.writer_may_advance(count as int),
    ensures
        ({
            let after_write = m.written(index as int, value).writer_advanced(count);
            &&& after_write.reader_may_advance((m.filled + index) as int)
            &&& after_write.reader_advanced(m.filled + index).read_view()[0] == value
        }),
{
}

} // verus!
