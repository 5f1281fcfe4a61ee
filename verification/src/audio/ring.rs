//! A ring buffer that is addressed by absolute positions.
//!
//! Samples are numbered from the first one ever written. The last ones, as many
//! as the buffer holds, can be read by their numbers.
use vstd::prelude::*;

verus! {

/// The buffer, and everything that was ever written to it.
pub struct RingBuffer<T> {
    pub buf: Vec<T>,
    pub capacity: u64,
    pub write_pos: u64,
    pub history: Ghost<Seq<T>>,
}

/// The number of the oldest of `written` samples that a buffer still holds.
pub open spec fn oldest(written: nat, capacity: nat) -> nat {
    if written < capacity {
        0
    } else {
        (written - capacity) as nat
    }
}

/// The samples that a time in milliseconds takes.
pub open spec fn samples_for(duration_ms: u64) -> nat {
    (duration_ms * 16_000 / 1000) as nat
}

impl<T: Copy> RingBuffer<T> {
    /// Each of the last samples stands at its number modulo the capacity.
    pub open spec fn wf(self) -> bool {
        &&& self.buf@.len() == self.capacity
        &&& self.write_pos == self.history@.len()
        &&& forall|i: int|
            oldest(self.history@.len(), self.capacity as nat) <= i < self.history@.len()
                ==> self.buf@[i % (self.capacity as int)] == #[trigger] self.history@[i]
    }

    /// A buffer for a time in milliseconds, at sixteen thousand samples a second.
    pub fn new(duration_ms: u64, silence: T) -> (r: Self)
        requires
            duration_ms * 16_000 <= u64::MAX,
            samples_for(duration_ms) <= usize::MAX,
        ensures
            r.wf(),
            r.capacity == samples_for(duration_ms),
            r.history@.len() == 0,
    {
        let capacity: u64 = duration_ms * 16_000 / 1000;
        let mut buf: Vec<T> = Vec::new();
        let n: usize = capacity as usize;
        for i in 0..n
            invariant
                buf@.len() == i,
        {
            buf.push(silence);
        }
        RingBuffer { buf, capacity, write_pos: 0, history: Ghost(Seq::empty()) }
    }

    /// Writes samples; the number of the next one comes back.
    pub fn write(&mut self, samples: &[T]) -> (r: u64)
        requires
            old(self).wf(),
            samples@.len() > 0 ==> old(self).capacity > 0,
            old(self).history@.len() + samples@.len() <= u64::MAX,
        ensures
            final(self).wf(),
            final(self).capacity == old(self).capacity,
            final(self).history@ == old(self).history@ + samples@,
            r == final(self).history@.len(),
    {
        let ghost before = self.history@;
        for k in 0..samples.len()
            invariant
                self.wf(),
                samples@.len() > 0 ==> self.capacity > 0,
                self.capacity == old(self).capacity,
                self.history@ == before + samples@.take(k as int),
                before.len() + samples@.len() <= u64::MAX,
        {
            let ghost past = self.history@;
            let ghost cells = self.buf@;
            let cap: u64 = self.capacity;
            let pos: u64 = self.write_pos;
            let n: usize = self.buf.len();
            let cell: u64 = pos % cap;
            assert(cell < cap == n);
            let at: usize = cell as usize;
            self.buf.set(at, samples[k]);
            self.write_pos = pos + 1;
            self.history = Ghost(past.push(samples@[k as int]));
            proof {
                let all = self.history@;
                let c = cap as int;
                assert forall|i: int| oldest(all.len(), cap as nat) <= i < all.len() implies
                    self.buf@[i % c] == #[trigger] all[i] by {
                    if i < past.len() {
                        lemma_distinct_cells(i, past.len() as int, c);
                        assert(all[i] == past[i]);
                        assert(cells[i % c] == past[i]);
                    }
                }
                assert(samples@.take(k + 1) == samples@.take(k as int).push(samples@[k as int]));
                assert(all =~= before + samples@.take(k + 1));
            }
        }
        assert(samples@.take(samples@.len() as int) == samples@);
        self.write_pos
    }

    /// The number of the next sample.
    pub fn position(&self) -> (r: u64)
        requires
            self.wf(),
        ensures
            r == self.history@.len(),
    {
        self.write_pos
    }

    /// The samples from `start` up to `end` can be read: they were written and
    /// have not been overwritten.
    pub open spec fn holds(self, start: u64, end: u64) -> bool {
        start <= end <= self.history@.len() && start >= oldest(
            self.history@.len(),
            self.capacity as nat,
        )
    }

    /// The samples from `start` up to `end`, where the buffer still holds them.
    pub fn read(&self, start: u64, end: u64) -> (r: Option<Vec<T>>)
        requires
            self.wf(),
        ensures
            r is Some <==> self.holds(start, end),
            r is Some ==> r->0@ == self.history@.subrange(start as int, end as int),
    {
        let current: u64 = self.write_pos;
        if end > current || start > end {
            return None;
        }
        let old_end: u64 = if current < self.capacity {
            0
        } else {
            current - self.capacity
        };
        if start < old_end {
            return None;
        }
        let mut out: Vec<T> = Vec::new();
        let mut i: u64 = start;
        while i < end
            invariant
                self.wf(),
                self.holds(start, end),
                start <= i <= end,
                out@ == self.history@.subrange(start as int, i as int),
            decreases end - i,
        {
            proof {
                assert(self.capacity > 0);
                vstd::arithmetic::div_mod::lemma_mod_bound(i as int, self.capacity as int);
                assert(self.buf@[i as int % (self.capacity as int)] == self.history@[i as int]);
            }
            let n: usize = self.buf.len();
            let cell: u64 = i % self.capacity;
            assert(cell < self.capacity == n);
            let at: usize = cell as usize;
            out.push(self.buf[at]);
            assert(self.history@.subrange(start as int, i + 1) =~= self.history@.subrange(
                start as int,
                i as int,
            ).push(self.history@[i as int]));
            i += 1;
        }
        Some(out)
    }
}

/// Two numbers that are less than the capacity apart stand in different cells.
proof fn lemma_distinct_cells(i: int, j: int, c: int)
    requires
        0 <= i < j,
        j - i < c,
    ensures
        i % c != j % c,
        0 <= i % c < c,
{
    vstd::arithmetic::div_mod::lemma_mod_bound(i, c);
    vstd::arithmetic::div_mod::lemma_mod_bound(j, c);
    vstd::arithmetic::div_mod::lemma_fundamental_div_mod(i, c);
    vstd::arithmetic::div_mod::lemma_fundamental_div_mod(j, c);
    if i % c == j % c {
        let p = i / c;
        let q = j / c;
        assert(c * q - c * p == j - i);
        assert(c * (q - p) == c * q - c * p) by (nonlinear_arith);
        assert(q - p >= 1 ==> c * (q - p) >= c) by (nonlinear_arith)
            requires
                c > 0,
        ;
        assert(q - p <= 0 ==> c * (q - p) <= 0) by (nonlinear_arith)
            requires
                c > 0,
        ;
    }
}

// ---------------------------------------------------------------------------
// Following the buffer
// ---------------------------------------------------------------------------

/// Reads what was written since it last read.
#[derive(Debug, Clone, Copy, PartialEq, Eq, Structural)]
pub struct TailReader {
    pub next_read: u64,
}

impl TailReader {
    pub fn new(from: u64) -> (r: Self)
        ensures
            r.next_read == from,
    {
        TailReader { next_read: from }
    }

    /// Where a reader goes on: behind everything that it could read.
    pub open spec fn next_after<T: Copy>(self, b: RingBuffer<T>) -> int {
        let current = b.history@.len();
        if self.next_read >= current {
            self.next_read as int
        } else {
            current as int
        }
    }

    /// Everything from where the reader stands, or from the oldest sample
    /// there is, whichever is later.
    pub open spec fn available<T: Copy>(self, b: RingBuffer<T>) -> Seq<T> {
        let current = b.history@.len();
        let from = oldest(current, b.capacity as nat);
        if self.next_read >= current {
            Seq::empty()
        } else if self.next_read >= from {
            b.history@.subrange(self.next_read as int, current as int)
        } else {
            b.history@.subrange(from as int, current as int)
        }
    }

    pub fn read_available<T: Copy>(&mut self, buffer: &RingBuffer<T>) -> (r: Vec<T>)
        requires
            buffer.wf(),
        ensures
            r@ == old(self).available(*buffer),
            final(self).next_read == old(self).next_after(*buffer),
    {
        let current: u64 = buffer.position();
        if self.next_read >= current {
            return Vec::new();
        }
        match buffer.read(self.next_read, current) {
            Some(samples) => {
                self.next_read = current;
                samples
            },
            None => {
                let from: u64 = if current < buffer.capacity {
                    0
                } else {
                    current - buffer.capacity
                };
                self.next_read = current;
                match buffer.read(from, current) {
                    Some(samples) => samples,
                    None => Vec::new(),
                }
            },
        }
    }
}

// ---------------------------------------------------------------------------
// Laws
// ---------------------------------------------------------------------------

/// What is written can be read back, as long as it fits the buffer.
pub proof fn law_written_samples_are_read_back<T: Copy>(
    before: RingBuffer<T>,
    after: RingBuffer<T>,
    samples: Seq<T>,
    start: u64,
    end: u64,
)
    requires
        before.wf(),
        after.wf(),
        after.capacity == before.capacity,
        after.history@ == before.history@ + samples,
        samples.len() <= before.capacity,
        start == before.history@.len(),
        end == after.history@.len(),
    ensures
        after.holds(start, end),
        after.history@.subrange(start as int, end as int) == samples,
{
    assert(after.history@.subrange(start as int, end as int) =~= samples);
}

/// A reader that keeps up gets every sample once: what two reads yield, before
/// and after a write, is together everything from where it began.
pub proof fn law_tail_reader_misses_nothing<T: Copy>(
    r: TailReader,
    first: RingBuffer<T>,
    second: RingBuffer<T>,
)
    requires
        first.wf(),
        second.wf(),
        first.history@.len() <= second.history@.len(),
        second.history@.take(first.history@.len() as int) == first.history@,
        r.next_read >= oldest(first.history@.len(), first.capacity as nat),
        r.next_after(first) >= oldest(second.history@.len(), second.capacity as nat),
        r.next_read <= second.history@.len(),
    ensures
        ({
            let mid = TailReader { next_read: r.next_after(first) as u64 };
            r.available(first) + mid.available(second) == second.history@.subrange(
                r.next_read as int,
                second.history@.len() as int,
            )
        }),
{
    let mid = TailReader { next_read: r.next_after(first) as u64 };
    let a = r.available(first) + mid.available(second);
    let b = second.history@.subrange(r.next_read as int, second.history@.len() as int);
    lemma_kept_history(first, second);
    assert(a =~= b);
}

/// No sample is read twice, whether the reader keeps up or not: what a read
/// yields ends where the next one begins at the earliest, and without a write
/// in between the next one yields nothing.
pub proof fn law_tail_reader_reads_nothing_twice<T: Copy>(
    r: TailReader,
    first: RingBuffer<T>,
    second: RingBuffer<T>,
)
    requires
        first.wf(),
        second.wf(),
        first.history@.len() <= second.history@.len(),
        second.history@.take(first.history@.len() as int) == first.history@,
    ensures
        ({
            let mid = TailReader { next_read: r.next_after(first) as u64 };
            let n = first.history@.len() as int;
            let m = second.history@.len() as int;
            let one = r.available(first);
            let two = mid.available(second);
            &&& one == second.history@.subrange(n - one.len(), n)
            &&& two == second.history@.subrange(m - two.len(), m)
            &&& m - two.len() >= n
            &&& mid.available(first).len() == 0
        }),
{
    let mid = TailReader { next_read: r.next_after(first) as u64 };
    let n = first.history@.len() as int;
    let one = r.available(first);
    lemma_kept_history(first, second);
    assert(one =~= second.history@.subrange(n - one.len(), n));
}

proof fn lemma_kept_history<T: Copy>(first: RingBuffer<T>, second: RingBuffer<T>)
    requires
        second.history@.take(first.history@.len() as int) == first.history@,
        first.history@.len() <= second.history@.len(),
    ensures
        forall|i: int|
            0 <= i < first.history@.len() ==> #[trigger] first.history@[i] == second.history@[i],
{
    assert forall|i: int| 0 <= i < first.history@.len() implies #[trigger] first.history@[i]
        == second.history@[i] by {
        assert(second.history@.take(first.history@.len() as int)[i] == second.history@[i]);
    }
}

/// A buffer holds the last samples, as many as fit it, and all of them until it
/// is full.
pub proof fn law_the_last_samples_are_held<T: Copy>(b: RingBuffer<T>, start: u64)
    requires
        b.wf(),
    ensures
        b.history@.len() <= b.capacity ==> (b.holds(start, b.write_pos) <==> start
            <= b.history@.len()),
        b.history@.len() > b.capacity ==> (b.holds(start, b.write_pos) <==> b.history@.len()
            - b.capacity <= start <= b.history@.len()),
        samples_for(1000) == 16_000,
{
}

/// A reader that has lagged behind gets everything that the buffer still holds;
/// one that has not gets what it has not read; either goes on at the end.
pub proof fn law_readers_get_what_there_is<T: Copy>(r: TailReader, b: RingBuffer<T>)
    requires
        b.wf(),
    ensures
        ({
            let n = b.history@.len() as int;
            &&& r.next_read + b.capacity < n ==> r.available(b) == b.history@.skip(n - b.capacity)
            &&& r.next_read + b.capacity >= n && r.next_read <= n ==> r.available(b)
                == b.history@.skip(r.next_read as int)
            &&& r.next_read <= n ==> r.next_after(b) == n
            &&& r.next_read > n ==> r.available(b).len() == 0 && r.next_after(b) == r.next_read
        }),
{
    let n = b.history@.len() as int;
    if r.next_read + b.capacity < n {
        assert(r.available(b) =~= b.history@.skip(n - b.capacity));
    } else if r.next_read <= n {
        assert(r.available(b) =~= b.history@.skip(r.next_read as int));
    }
}

/// A time takes sixteen samples for each of its milliseconds.
pub proof fn law_times_take_samples(ms: u64)
    ensures
        samples_for(ms) == 16 * ms,
{
}

} // verus!
