//! Single-producer single-consumer ring of interleaved audio samples. The
//! writer never blocks: when the ring is full the oldest samples are dropped.
//! Indices are monotonic sample counters; the slot of index `i` is
//! `i % capacity`.

use vstd::prelude::*;
use vstd::arithmetic::div_mod::{lemma_mod_equivalence, lemma_small_mod};

verus! {

/// Two indices closer than `m` fall in different slots.
pub proof fn lemma_mod_distinct(x: int, y: int, m: int)
    requires
        0 < m,
        0 < y - x < m,
    ensures
        x % m != y % m,
{
    lemma_mod_equivalence(y, x, m);
    lemma_small_mod((y - x) as nat, m as nat);
}

/// The unread samples after writing `data` into a ring of `cap` slots that
/// held `unread`: the newest `cap` samples of the two together.
pub open spec fn ring_after_push<T>(unread: Seq<T>, data: Seq<T>, cap: int) -> Seq<T> {
    let all = unread + data;
    if all.len() <= cap {
        all
    } else {
        all.skip(all.len() - cap)
    }
}

/// How many of the oldest samples a write of `n` samples drops.
pub open spec fn ring_dropped(unread_len: int, n: int, cap: int) -> int {
    if unread_len + n > cap && n > 0 {
        unread_len + n - cap
    } else {
        0
    }
}

/// The ring `new` after `data` (of `channels` channels, at `sample_rate`,
/// captured at `timestamp_ns`) was written into `old`.
pub open spec fn ring_pushed<T: Copy>(
    old: SampleRingBuffer<T>,
    data: Seq<T>,
    channels: u16,
    sample_rate: u32,
    timestamp_ns: u64,
    new: SampleRingBuffer<T>,
) -> bool {
    &&& new.wf()
    &&& new.unread() == ring_after_push(old.unread(), data, old.capacity())
    &&& new.capacity() == old.capacity()
    &&& new.written() == old.written() + data.len()
    &&& new.spec_channels() == if channels == 0 {
        1
    } else {
        channels as int
    }
    &&& new.spec_sample_rate() == sample_rate
    &&& new.spec_last_timestamp_ns() == timestamp_ns
}

/// The ring `new` and buffer `new_out` after reading from `old` into a buffer
/// holding `old_out`, with result `r`: the oldest unread samples fill the
/// front of the buffer, `fill` the rest, and `r` counts the whole frames of
/// `requested_channels` channels (at least one) read.
pub open spec fn ring_popped<T: Copy>(
    old: SampleRingBuffer<T>,
    old_out: Seq<T>,
    requested_channels: u16,
    fill: T,
    r: usize,
    new: SampleRingBuffer<T>,
    new_out: Seq<T>,
) -> bool {
    let n = if old_out.len() < old.unread().len() {
        old_out.len() as int
    } else {
        old.unread().len() as int
    };
    &&& new.wf()
    &&& new_out.len() == old_out.len()
    &&& new_out.take(n) == old.unread().take(n)
    &&& forall|k: int| n <= k < new_out.len() ==> new_out[k] == fill
    &&& new.unread() == old.unread().skip(n)
    &&& r == n / (if requested_channels == 0 {
        1
    } else {
        requested_channels as int
    })
    &&& new.capacity() == old.capacity()
    &&& new.written() == old.written()
    &&& new.spec_channels() == old.spec_channels()
    &&& new.spec_sample_rate() == old.spec_sample_rate()
    &&& new.spec_last_timestamp_ns() == old.spec_last_timestamp_ns()
}

/// A ring of interleaved samples with its format metadata.
#[derive(Debug)]
pub struct SampleRingBuffer<T> {
    channels: u32,
    sample_rate: u32,
    capacity_samples: usize,
    buffer: Vec<T>,
    write_index: u64,
    read_index: u64,
    last_timestamp_ns: u64,
}

impl<T: Copy> SampleRingBuffer<T> {
    /// The ring invariant: the buffer has `capacity_samples > 0` slots and at
    /// most that many samples are unread.
    pub closed spec fn wf(&self) -> bool {
        &&& self.capacity_samples > 0
        &&& self.buffer@.len() == self.capacity_samples
        &&& self.read_index <= self.write_index
        &&& self.write_index - self.read_index <= self.capacity_samples
        &&& self.channels >= 1
    }

    /// The samples written but not yet read, oldest first.
    pub closed spec fn unread(&self) -> Seq<T> {
        Seq::new(
            (self.write_index - self.read_index) as nat,
            |k: int| self.buffer@[((self.read_index + k) % (self.capacity_samples as int))],
        )
    }

    /// The number of sample slots.
    pub closed spec fn capacity(&self) -> int {
        self.capacity_samples as int
    }

    /// The total number of samples ever written.
    pub closed spec fn written(&self) -> int {
        self.write_index as int
    }

    /// The channel count of the latest frame (at least 1).
    pub closed spec fn spec_channels(&self) -> int {
        self.channels as int
    }

    /// The sample rate of the latest frame.
    pub closed spec fn spec_sample_rate(&self) -> u32 {
        self.sample_rate
    }

    /// The timestamp of the latest frame.
    pub closed spec fn spec_last_timestamp_ns(&self) -> u64 {
        self.last_timestamp_ns
    }

    /// A ring of `capacity_frames` frames of `channels` channels (at least one
    /// slot, at least one channel), with every slot holding `fill`.
    pub fn new(capacity_frames: usize, channels: u16, sample_rate: u32, fill: T) -> (r: Self)
        ensures
            r.wf(),
            r.unread().len() == 0,
            r.written() == 0,
            r.spec_channels() == if channels == 0 {
                1
            } else {
                channels as int
            },
            r.capacity() == if capacity_frames * (if channels == 0 {
                1
            } else {
                channels as int
            }) > usize::MAX {
                usize::MAX as int
            } else if capacity_frames * (if channels == 0 {
                1
            } else {
                channels as int
            }) == 0 {
                1
            } else {
                capacity_frames * (if channels == 0 {
                    1
                } else {
                    channels as int
                })
            },
            r.spec_sample_rate() == sample_rate,
            r.spec_last_timestamp_ns() == 0,
    {
        let ch: u16 = if channels == 0 {
            1
        } else {
            channels
        };
        let prod = match capacity_frames.checked_mul(ch as usize) {
            Some(p) => p,
            None => usize::MAX,
        };
        let capacity_samples = if prod == 0 {
            1
        } else {
            prod
        };
        let mut buffer: Vec<T> = Vec::new();
        let mut i: usize = 0;
        while i < capacity_samples
            invariant
                i <= capacity_samples,
                buffer@.len() == i,
            decreases capacity_samples - i,
        {
            buffer.push(fill);
            i += 1;
        }
        let r = SampleRingBuffer {
            channels: ch as u32,
            sample_rate,
            capacity_samples,
            buffer,
            write_index: 0,
            read_index: 0,
            last_timestamp_ns: 0,
        };
        assert(r.unread() =~= Seq::<T>::empty());
        r
    }

    /// Writes interleaved samples, dropping the oldest unread ones when the
    /// ring is full, and records the frame's format and timestamp (even when
    /// `data` is empty). Returns how many samples were dropped.
    pub fn push_frame(&mut self, data: &[T], channels: u16, sample_rate: u32, timestamp_ns: u64) -> (r:
        usize)
        requires
            old(self).wf(),
            old(self).written() + data@.len() <= u64::MAX,
        ensures
            ring_pushed(*old(self), data@, channels, sample_rate, timestamp_ns, *final(self)),
            r == ring_dropped(old(self).unread().len() as int, data@.len() as int, old(self).capacity()),
    {
        let ghost old_unread = self.unread();
        let ghost cap = self.capacity_samples as int;
        self.channels = if channels == 0 {
            1
        } else {
            channels as u32
        };
        self.sample_rate = sample_rate;
        self.last_timestamp_ns = timestamp_ns;
        let to_write = data.len();
        if to_write == 0 {
            assert(old_unread + data@ =~= old_unread);
            assert(self.unread() =~= old_unread);
            return 0;
        }
        let write_idx = self.write_index;
        let read_idx = self.read_index;
        let available = (write_idx - read_idx) as usize;
        let space = self.capacity_samples - available;
        let dropped = if to_write > space {
            let d = to_write - space;
            self.read_index = self.read_index + d as u64;
            d
        } else {
            0
        };
        let cap_u64 = self.capacity_samples as u64;
        let ghost old_buf = self.buffer@;
        let ghost r_new = self.read_index as int;
        let ghost w = write_idx as int;
        let ghost n = to_write as int;
        assert(r_new >= w + n - cap);
        assert(r_new >= read_idx);
        let mut i: usize = 0;
        while i < to_write
            invariant
                i <= to_write,
                to_write == data@.len(),
                cap == self.capacity_samples,
                cap > 0,
                cap_u64 == cap,
                self.buffer@.len() == cap,
                w == write_idx,
                n == to_write,
                w + n <= u64::MAX,
                old_buf.len() == cap,
                self.read_index as int == r_new,
                self.write_index == write_idx,
                self.channels >= 1,
                self.channels == (if channels == 0 { 1 } else { channels as u32 }),
                self.sample_rate == sample_rate,
                self.last_timestamp_ns == timestamp_ns,
                forall|x: int|
                    w <= x < w + i && x >= w + i - cap ==> #[trigger] self.buffer@[x % cap] == data@[x
                        - w],
                forall|x: int|
                    read_idx <= x < w && x >= w + i - cap ==> #[trigger] self.buffer@[x % cap]
                        == old_buf[x % cap],
            decreases to_write - i,
        {
            let slot = ((write_idx + i as u64) % cap_u64) as usize;
            let ghost j = w + i;
            self.buffer.set(slot, data[i]);
            assert forall|x: int| w <= x < w + i + 1 && x >= w + i + 1 - cap implies #[trigger] self.buffer@[x
                % cap] == data@[x - w] by {
                if x != j {
                    lemma_mod_distinct(x, j, cap);
                }
            }
            assert forall|x: int| read_idx <= x < w && x >= w + i + 1 - cap implies #[trigger] self.buffer@[x
                % cap] == old_buf[x % cap] by {
                lemma_mod_distinct(x, j, cap);
            }
            i += 1;
        }
        self.write_index = write_idx + to_write as u64;
        let ghost all = old_unread + data@;
        let ghost expect = ring_after_push(old_unread, data@, cap);
        assert(expect.len() == self.write_index - self.read_index);
        assert forall|k: int| 0 <= k < expect.len() implies #[trigger] self.unread()[k] == expect[k] by {
            let x = r_new + k;
            let off = all.len() - expect.len();
            assert(expect[k] == all[off + k]);
            assert(off + k == x - read_idx);
            if x >= w {
                assert(all[off + k] == data@[x - w]);
            } else {
                assert(all[off + k] == old_unread[x - read_idx]);
                assert(old_unread[x - read_idx] == old_buf[(read_idx + (x - read_idx)) % cap]);
            }
        }
        assert(self.unread() =~= expect);
        dropped
    }

    /// Reads up to `out.len()` unread samples into `out`, fills the rest of
    /// `out` with `fill`, and returns the number of whole frames of
    /// `requested_channels` channels (at least one) that were read.
    pub fn pop_into(&mut self, out: &mut [T], requested_channels: u16, fill: T) -> (r: usize)
        requires
            old(self).wf(),
        ensures
            ring_popped(*old(self), old(out)@, requested_channels, fill, r, *final(self), final(out)@),
    {
        let ghost old_unread = self.unread();
        let req_ch: usize = if requested_channels == 0 {
            1
        } else {
            requested_channels as usize
        };
        let requested_samples = out.len();
        if requested_samples == 0 {
            assert(old_unread.skip(0) =~= old_unread);
            assert(out@.take(0) =~= old_unread.take(0));
            return 0;
        }
        let read_idx = self.read_index;
        let available = (self.write_index - read_idx) as usize;
        let to_read = if requested_samples < available {
            requested_samples
        } else {
            available
        };
        let cap_u64 = self.capacity_samples as u64;
        let mut k: usize = 0;
        while k < to_read
            invariant
                k <= to_read,
                to_read <= out@.len(),
                to_read <= old_unread.len(),
                old_unread == self.unread(),
                self.wf(),
                self.read_index == read_idx,
                cap_u64 == self.capacity_samples,
                out@.len() == requested_samples,
                forall|m: int| 0 <= m < k ==> out@[m] == old_unread[m],
            decreases to_read - k,
        {
            let slot = ((read_idx + k as u64) % cap_u64) as usize;
            out[k] = self.buffer[slot];
            k += 1;
        }
        let mut m: usize = to_read;
        while m < requested_samples
            invariant
                to_read <= m <= requested_samples,
                out@.len() == requested_samples,
                forall|q: int| 0 <= q < to_read ==> out@[q] == old_unread[q],
                forall|q: int| to_read <= q < m ==> out@[q] == fill,
            decreases requested_samples - m,
        {
            out[m] = fill;
            m += 1;
        }
        self.read_index = read_idx + to_read as u64;
        assert(out@.take(to_read as int) =~= old_unread.take(to_read as int));
        assert(self.unread() =~= old_unread.skip(to_read as int));
        to_read / req_ch
    }

    /// At most a full ring is unread, and the channel count is positive.
    pub proof fn lemma_unread_bounded(&self)
        requires
            self.wf(),
        ensures
            self.unread().len() <= self.capacity(),
            self.capacity() > 0,
            self.spec_channels() >= 1,
    {
    }

    /// The number of whole unread frames of the latest channel count.
    pub fn available_frames(&self) -> (r: usize)
        requires
            self.wf(),
        ensures
            r == (self.unread().len() as int) / self.spec_channels(),
    {
        let samples = (self.write_index - self.read_index) as usize;
        samples / (self.channels as usize)
    }

    /// The total number of samples ever written.
    pub fn written_samples(&self) -> (r: u64)
        ensures
            r == self.written(),
    {
        self.write_index
    }

    /// The timestamp of the latest frame.
    pub fn last_timestamp_ns(&self) -> (r: u64)
        ensures
            r == self.spec_last_timestamp_ns(),
    {
        self.last_timestamp_ns
    }

    /// The sample rate of the latest frame.
    pub fn sample_rate(&self) -> (r: u32)
        ensures
            r == self.spec_sample_rate(),
    {
        self.sample_rate
    }
}

/// What a reader gets back of a write: samples written into a ring with
/// room for them are read back in order after the ones already waiting; when
/// there is no room, exactly the oldest samples are lost and the newest
/// `cap` remain.
pub proof fn lemma_ring_fifo<T>(unread: Seq<T>, data: Seq<T>, cap: int)
    requires
        cap > 0,
        unread.len() <= cap,
    ensures
        unread.len() + data.len() <= cap ==> ring_after_push(unread, data, cap) == unread + data,
        ring_after_push(unread, data, cap).len() == if unread.len() + data.len() <= cap {
            (unread.len() + data.len()) as int
        } else {
            cap
        },
        ring_after_push(unread, data, cap) == (unread + data).skip(
            ring_dropped(unread.len() as int, data.len() as int, cap),
        ),
{
    if unread.len() + data.len() <= cap || data.len() == 0 {
        assert((unread + data).skip(0) =~= unread + data);
    }
}

/// What a push does to a ring: with `u` samples unread and `n` pushed, the
/// drop count is 0 for an empty push and otherwise the excess of `u + n` over
/// the capacity; afterwards `min(cap, u + n)` samples are unread, and they
/// are the last ones of the old unread samples followed by the pushed ones,
/// in order; the format and timestamp are those of the frame, and the
/// available frames are the unread samples over the channel count.
pub proof fn lemma_push_frame_law<T: Copy>(
    old: SampleRingBuffer<T>,
    data: Seq<T>,
    channels: u16,
    sample_rate: u32,
    timestamp_ns: u64,
    dropped: usize,
    new: SampleRingBuffer<T>,
)
    requires
        old.wf(),
        ring_pushed(old, data, channels, sample_rate, timestamp_ns, new),
        dropped == ring_dropped(old.unread().len() as int, data.len() as int, old.capacity()),
    ensures
        dropped == (if data.len() == 0 {
            0
        } else if old.unread().len() + data.len() > old.capacity() {
            old.unread().len() + data.len() - old.capacity()
        } else {
            0
        }),
        new.unread().len() == (if old.unread().len() + data.len() <= old.capacity() {
            (old.unread().len() + data.len()) as int
        } else {
            old.capacity()
        }),
        new.unread().len() <= new.capacity(),
        new.unread() == (old.unread() + data).skip(
            (old.unread() + data).len() - new.unread().len(),
        ),
        new.spec_last_timestamp_ns() == timestamp_ns,
        new.spec_sample_rate() == sample_rate,
        new.spec_channels() == (if channels == 0 { 1 } else { channels as int }),
{
    let u = old.unread();
    lemma_ring_fifo(u, data, old.capacity());
    assert(u.len() <= old.capacity());
}

} // verus!
