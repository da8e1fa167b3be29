//! The shared output buffer read by the virtual microphone driver: a frame
//! ring with a fixed 48-byte little-endian header. The host keeps the bytes
//! in a file; this module holds the ring logic and the header layout.

use vstd::prelude::*;
use crate::config::EngineError;
use crate::ring::lemma_mod_distinct;

verus! {

/// Identifies the shared buffer layout (`TVM1` read little-endian).
pub const SHARED_BUFFER_MAGIC: u32 = 0x314D_5654;

/// The layout version.
pub const SHARED_BUFFER_VERSION: u32 = 1;

/// Where the host keeps the shared buffer.
pub const SHARED_BUFFER_FILE_PATH: &'static str = "/tmp/translator_virtual_mic/shared_output.bin";

/// The header of the shared buffer.
#[derive(Clone, Copy, Debug)]
pub struct SharedBufferHeader {
    pub magic: u32,
    pub version: u32,
    pub channel_count: u32,
    pub sample_rate: u32,
    pub capacity_frames: u32,
    pub reserved: u32,
    pub write_index_frames: u64,
    pub read_index_frames: u64,
    pub last_timestamp_ns: u64,
}

/// The byte length of the header: six `u32` and three `u64` fields.
pub fn header_byte_len() -> (r: usize)
    ensures
        r == 48,
{
    48
}

/// The byte length of the header followed by `sample_count` four-byte samples
/// (the sample part saturates at `usize::MAX`).
pub fn total_bytes(sample_count: usize) -> (r: usize)
    ensures
        r == if sample_count * 4 > usize::MAX - 48 {
            usize::MAX as int
        } else {
            48 + sample_count * 4
        },
{
    let body = match sample_count.checked_mul(4) {
        Some(b) => b,
        None => usize::MAX,
    };
    header_byte_len().saturating_add(body)
}

/// The little-endian bytes of a `u32`.
pub open spec fn le_bytes_u32(v: u32) -> Seq<u8> {
    seq![v as u8, (v >> 8) as u8, (v >> 16) as u8, (v >> 24) as u8]
}

/// The little-endian bytes of a `u64`.
pub open spec fn le_bytes_u64(v: u64) -> Seq<u8> {
    seq![
        v as u8,
        (v >> 8) as u8,
        (v >> 16) as u8,
        (v >> 24) as u8,
        (v >> 32) as u8,
        (v >> 40) as u8,
        (v >> 48) as u8,
        (v >> 56) as u8,
    ]
}

/// The `u32` that four little-endian bytes at `at` encode.
pub open spec fn le_u32_at(b: Seq<u8>, at: int) -> u32 {
    (b[at] as u32) | ((b[at + 1] as u32) << 8) | ((b[at + 2] as u32) << 16) | ((b[at + 3] as u32)
        << 24)
}

/// The `u64` that eight little-endian bytes at `at` encode.
pub open spec fn le_u64_at(b: Seq<u8>, at: int) -> u64 {
    (b[at] as u64) | ((b[at + 1] as u64) << 8) | ((b[at + 2] as u64) << 16) | ((b[at + 3] as u64)
        << 24) | ((b[at + 4] as u64) << 32) | ((b[at + 5] as u64) << 40) | ((b[at + 6] as u64)
        << 48) | ((b[at + 7] as u64) << 56)
}

/// Appends the little-endian bytes of `value`.
pub fn push_u32(bytes: &mut Vec<u8>, value: u32)
    ensures
        final(bytes)@ == old(bytes)@ + le_bytes_u32(value),
{
    bytes.push(value as u8);
    bytes.push((value >> 8) as u8);
    bytes.push((value >> 16) as u8);
    bytes.push((value >> 24) as u8);
    assert(bytes@ =~= old(bytes)@ + le_bytes_u32(value));
}

/// Appends the little-endian bytes of `value`.
pub fn push_u64(bytes: &mut Vec<u8>, value: u64)
    ensures
        final(bytes)@ == old(bytes)@ + le_bytes_u64(value),
{
    bytes.push(value as u8);
    bytes.push((value >> 8) as u8);
    bytes.push((value >> 16) as u8);
    bytes.push((value >> 24) as u8);
    bytes.push((value >> 32) as u8);
    bytes.push((value >> 40) as u8);
    bytes.push((value >> 48) as u8);
    bytes.push((value >> 56) as u8);
    assert(bytes@ =~= old(bytes)@ + le_bytes_u64(value));
}

/// Reads a little-endian `u32` at `*cursor` and moves the cursor past it.
pub fn read_u32(bytes: &[u8], cursor: &mut usize) -> (r: u32)
    requires
        *old(cursor) + 4 <= bytes@.len(),
    ensures
        r == le_u32_at(bytes@, *old(cursor) as int),
        *final(cursor) == *old(cursor) + 4,
{
    let s = *cursor;
    let r = (bytes[s] as u32) | ((bytes[s + 1] as u32) << 8) | ((bytes[s + 2] as u32) << 16) | ((
    bytes[s + 3] as u32) << 24);
    *cursor = s + 4;
    r
}

/// Reads a little-endian `u64` at `*cursor` and moves the cursor past it.
pub fn read_u64(bytes: &[u8], cursor: &mut usize) -> (r: u64)
    requires
        *old(cursor) + 8 <= bytes@.len(),
    ensures
        r == le_u64_at(bytes@, *old(cursor) as int),
        *final(cursor) == *old(cursor) + 8,
{
    let s = *cursor;
    let r = (bytes[s] as u64) | ((bytes[s + 1] as u64) << 8) | ((bytes[s + 2] as u64) << 16) | ((
    bytes[s + 3] as u64) << 24) | ((bytes[s + 4] as u64) << 32) | ((bytes[s + 5] as u64) << 40)
        | ((bytes[s + 6] as u64) << 48) | ((bytes[s + 7] as u64) << 56);
    *cursor = s + 8;
    r
}

/// The 48 header bytes of `h`, fields in declaration order.
pub open spec fn header_bytes(h: SharedBufferHeader) -> Seq<u8> {
    le_bytes_u32(h.magic) + le_bytes_u32(h.version) + le_bytes_u32(h.channel_count) + le_bytes_u32(
        h.sample_rate,
    ) + le_bytes_u32(h.capacity_frames) + le_bytes_u32(h.reserved) + le_bytes_u64(
        h.write_index_frames,
    ) + le_bytes_u64(h.read_index_frames) + le_bytes_u64(h.last_timestamp_ns)
}

/// The header that the first 48 bytes of `b` encode.
pub open spec fn header_from_bytes(b: Seq<u8>) -> SharedBufferHeader {
    SharedBufferHeader {
        magic: le_u32_at(b, 0),
        version: le_u32_at(b, 4),
        channel_count: le_u32_at(b, 8),
        sample_rate: le_u32_at(b, 12),
        capacity_frames: le_u32_at(b, 16),
        reserved: le_u32_at(b, 20),
        write_index_frames: le_u64_at(b, 24),
        read_index_frames: le_u64_at(b, 32),
        last_timestamp_ns: le_u64_at(b, 40),
    }
}

/// Encodes the header.
pub fn encode_header(h: &SharedBufferHeader) -> (r: Vec<u8>)
    ensures
        r@ == header_bytes(*h),
{
    let mut bytes: Vec<u8> = Vec::new();
    push_u32(&mut bytes, h.magic);
    push_u32(&mut bytes, h.version);
    push_u32(&mut bytes, h.channel_count);
    push_u32(&mut bytes, h.sample_rate);
    push_u32(&mut bytes, h.capacity_frames);
    push_u32(&mut bytes, h.reserved);
    push_u64(&mut bytes, h.write_index_frames);
    push_u64(&mut bytes, h.read_index_frames);
    push_u64(&mut bytes, h.last_timestamp_ns);
    assert(bytes@ =~= header_bytes(*h));
    bytes
}

/// Decodes the header from the first 48 bytes.
pub fn decode_header(bytes: &[u8]) -> (r: SharedBufferHeader)
    requires
        bytes@.len() >= 48,
    ensures
        r == header_from_bytes(bytes@),
{
    let mut cursor: usize = 0;
    let magic = read_u32(bytes, &mut cursor);
    let version = read_u32(bytes, &mut cursor);
    let channel_count = read_u32(bytes, &mut cursor);
    let sample_rate = read_u32(bytes, &mut cursor);
    let capacity_frames = read_u32(bytes, &mut cursor);
    let reserved = read_u32(bytes, &mut cursor);
    let write_index_frames = read_u64(bytes, &mut cursor);
    let read_index_frames = read_u64(bytes, &mut cursor);
    let last_timestamp_ns = read_u64(bytes, &mut cursor);
    SharedBufferHeader {
        magic,
        version,
        channel_count,
        sample_rate,
        capacity_frames,
        reserved,
        write_index_frames,
        read_index_frames,
        last_timestamp_ns,
    }
}

proof fn lemma_u32_round_trip(v: u32)
    ensures
        le_u32_at(le_bytes_u32(v), 0) == v,
{
    let b = le_bytes_u32(v);
    assert(b[0] == v as u8 && b[1] == (v >> 8) as u8 && b[2] == (v >> 16) as u8 && b[3] == (v
        >> 24) as u8);
    assert(((v as u8) as u32) | ((((v >> 8) as u8) as u32) << 8) | ((((v >> 16) as u8) as u32)
        << 16) | ((((v >> 24) as u8) as u32) << 24) == v) by (bit_vector);
}

proof fn lemma_u64_round_trip(v: u64)
    ensures
        le_u64_at(le_bytes_u64(v), 0) == v,
{
    let b = le_bytes_u64(v);
    assert(b[0] == v as u8 && b[1] == (v >> 8) as u8 && b[2] == (v >> 16) as u8 && b[3] == (v
        >> 24) as u8 && b[4] == (v >> 32) as u8 && b[5] == (v >> 40) as u8 && b[6] == (v >> 48) as u8
        && b[7] == (v >> 56) as u8);
    assert(((v as u8) as u64) | ((((v >> 8) as u8) as u64) << 8) | ((((v >> 16) as u8) as u64)
        << 16) | ((((v >> 24) as u8) as u64) << 24) | ((((v >> 32) as u8) as u64) << 32) | ((((v
        >> 40) as u8) as u64) << 40) | ((((v >> 48) as u8) as u64) << 48) | ((((v >> 56) as u8)
        as u64) << 56) == v) by (bit_vector);
}

proof fn lemma_u32_at(b: Seq<u8>, at: int, v: u32)
    requires
        0 <= at,
        at + 4 <= b.len(),
        b.subrange(at, at + 4) == le_bytes_u32(v),
    ensures
        le_u32_at(b, at) == v,
{
    lemma_u32_round_trip(v);
    let e = le_bytes_u32(v);
    assert(b[at] == e[0] && b[at + 1] == e[1] && b[at + 2] == e[2] && b[at + 3] == e[3]) by {
        assert(b.subrange(at, at + 4)[0] == b[at]);
        assert(b.subrange(at, at + 4)[1] == b[at + 1]);
        assert(b.subrange(at, at + 4)[2] == b[at + 2]);
        assert(b.subrange(at, at + 4)[3] == b[at + 3]);
    }
}

proof fn lemma_u64_at(b: Seq<u8>, at: int, v: u64)
    requires
        0 <= at,
        at + 8 <= b.len(),
        b.subrange(at, at + 8) == le_bytes_u64(v),
    ensures
        le_u64_at(b, at) == v,
{
    lemma_u64_round_trip(v);
    let e = le_bytes_u64(v);
    assert forall|k: int| 0 <= k < 8 implies b[at + k] == e[k] by {
        assert(b.subrange(at, at + 8)[k] == b[at + k]);
    }
}

/// Decoding the encoded header gives the header back.
pub proof fn lemma_header_round_trip(h: SharedBufferHeader)
    ensures
        header_bytes(h).len() == 48,
        header_from_bytes(header_bytes(h)) == h,
{
    let b = header_bytes(h);
    assert(b.len() == 48);
    assert(b.subrange(0, 4) =~= le_bytes_u32(h.magic));
    assert(b.subrange(4, 8) =~= le_bytes_u32(h.version));
    assert(b.subrange(8, 12) =~= le_bytes_u32(h.channel_count));
    assert(b.subrange(12, 16) =~= le_bytes_u32(h.sample_rate));
    assert(b.subrange(16, 20) =~= le_bytes_u32(h.capacity_frames));
    assert(b.subrange(20, 24) =~= le_bytes_u32(h.reserved));
    assert(b.subrange(24, 32) =~= le_bytes_u64(h.write_index_frames));
    assert(b.subrange(32, 40) =~= le_bytes_u64(h.read_index_frames));
    assert(b.subrange(40, 48) =~= le_bytes_u64(h.last_timestamp_ns));
    lemma_u32_at(b, 0, h.magic);
    lemma_u32_at(b, 4, h.version);
    lemma_u32_at(b, 8, h.channel_count);
    lemma_u32_at(b, 12, h.sample_rate);
    lemma_u32_at(b, 16, h.capacity_frames);
    lemma_u32_at(b, 20, h.reserved);
    lemma_u64_at(b, 24, h.write_index_frames);
    lemma_u64_at(b, 32, h.read_index_frames);
    lemma_u64_at(b, 40, h.last_timestamp_ns);
}


proof fn lemma_slot_bound(x: int, c: int, ch: int, cap: int)
    requires
        0 <= x < cap,
        0 <= c < ch,
    ensures
        0 <= x * ch + c < cap * ch,
{
    assert(x * ch + c < cap * ch) by (nonlinear_arith)
        requires
            0 <= x < cap,
            0 <= c < ch,
    ;
    assert(0 <= x * ch) by (nonlinear_arith)
        requires
            0 <= x,
            0 <= ch,
    ;
}

proof fn lemma_frame_of(k: int, ch: int, n: int)
    requires
        0 <= k < n * ch,
        ch > 0,
    ensures
        0 <= k / ch < n,
        0 <= k % ch < ch,
{
    assert(k / ch < n) by (nonlinear_arith)
        requires
            0 <= k < n * ch,
            ch > 0,
    ;
    assert(0 <= k / ch) by (nonlinear_arith)
        requires
            0 <= k,
            ch > 0,
    ;
}

/// The slot of sample `idx` of a write that starts at frame `start`.
pub open spec fn write_slot(start: int, idx: int, ch: int, cap: int) -> int {
    ((start + idx / ch) % cap) * ch + idx % ch
}

/// The ring samples after the first `k` samples of `src` were written from
/// frame `start`, each into its slot, later samples over earlier ones.
pub open spec fn written_samples<T>(s: Seq<T>, src: Seq<T>, start: int, ch: int, cap: int, k: int) -> Seq<T>
    decreases k,
{
    if k <= 0 {
        s
    } else {
        written_samples(s, src, start, ch, cap, k - 1).update(write_slot(start, k - 1, ch, cap), src[k - 1])
    }
}

/// `a - b`, or 0 when `b > a`.
pub open spec fn sat_sub(a: u64, b: u64) -> u64 {
    if a >= b {
        (a - b) as u64
    } else {
        0
    }
}

/// `a + b`, or `u64::MAX` when that overflows.
pub open spec fn sat_add(a: u64, b: u64) -> u64 {
    if a + b > u64::MAX {
        u64::MAX
    } else {
        (a + b) as u64
    }
}

/// The shared output ring: header and interleaved samples
/// (`capacity_frames * channel_count` of them).
#[derive(Debug)]
pub struct SharedOutputBuffer<T> {
    header: SharedBufferHeader,
    samples: Vec<T>,
}

/// The outcome of writing `data` (interleaved, `channels` channels, at
/// `sample_rate`) into the ring `old`, giving result `r` and ring `new`.
pub open spec fn shared_write_outcome<T: Copy>(
    old: SharedOutputBuffer<T>,
    data: Seq<T>,
    channels: u16,
    sample_rate: u32,
    timestamp_ns: u64,
    r: Result<(), EngineError>,
    new: SharedOutputBuffer<T>,
) -> bool {
        let h = old.spec_header();
        let ch = h.channel_count as int;
        let cap = h.capacity_frames as int;
        if channels as int != ch {
            r is Err && r->Err_0.spec_message() == "shared output channel mismatch"@
                && new == old
        } else if sample_rate != h.sample_rate {
            r is Err && r->Err_0.spec_message() == "shared output sample rate mismatch"@
                && new == old
        } else {
            let frames = data.len() as int / ch;
            let off = if frames > cap {
                frames - cap
            } else {
                0
            };
            let src = data.skip(off * ch);
            let w = sat_add(h.write_index_frames, (src.len() / ch as nat) as u64);
            r is Ok && new.spec_samples() == written_samples(
                old.spec_samples(),
                src,
                (h.write_index_frames % (cap as u64)) as int,
                ch,
                cap,
                src.len() as int,
            ) && new.spec_header() == (SharedBufferHeader {
                write_index_frames: w,
                last_timestamp_ns: timestamp_ns,
                read_index_frames: if sat_sub(w, h.read_index_frames) > cap {
                    sat_sub(w, cap as u64)
                } else {
                    h.read_index_frames
                },
                ..h
            })
        }
}

/// The outcome of reading from the ring `old` into a buffer holding
/// `old_out`, asking for `channels` channels, giving result `r`, ring `new`
/// and buffer `new_out`.
pub open spec fn shared_read_outcome<T: Copy>(
    old: SharedOutputBuffer<T>,
    old_out: Seq<T>,
    channels: u16,
    fill: T,
    r: Result<(usize, u64), EngineError>,
    new: SharedOutputBuffer<T>,
    new_out: Seq<T>,
) -> bool {
    &&& new.spec_samples() == old.spec_samples()
    &&& {
        let h = old.spec_header();
        let ch = h.channel_count as int;
        let cap = h.capacity_frames as int;
        if channels as int != ch {
            r is Err && r->Err_0.spec_message() == "shared output read channel mismatch"@
                && new == old && new_out == old_out
        } else if old_out.len() == 0 {
            r == Ok::<(usize, u64), EngineError>((0, h.last_timestamp_ns)) && new == old
                && new_out == old_out
        } else {
            let unread = sat_sub(h.write_index_frames, h.read_index_frames) as int;
            let avail = if cap < unread {
                cap
            } else {
                unread
            };
            let requested = old_out.len() as int / ch;
            let n = if avail < requested {
                avail
            } else {
                requested
            };
            let start = (h.read_index_frames % (cap as u64)) as int;
            &&& r == Ok::<(usize, u64), EngineError>((n as usize, h.last_timestamp_ns))
            &&& new_out.len() == old_out.len()
            &&& forall|k: int|
                0 <= k < n * ch ==> #[trigger] new_out[k] == old.spec_samples()[
                    write_slot(start, k, ch, cap)]
            &&& forall|k: int| n * ch <= k < new_out.len() ==> #[trigger] new_out[k] == fill
            &&& new.spec_header() == (SharedBufferHeader {
                read_index_frames: sat_add(h.read_index_frames, n as u64),
                ..h
            })
        }
    }
}

impl<T: Copy> SharedOutputBuffer<T> {
    /// Channel count and capacity are positive and the sample store matches them.
    pub closed spec fn wf(&self) -> bool {
        &&& self.header.channel_count >= 1
        &&& self.header.capacity_frames >= 1
        &&& self.samples@.len() == self.header.capacity_frames * self.header.channel_count
    }

    /// The header.
    pub closed spec fn spec_header(&self) -> SharedBufferHeader {
        self.header
    }

    /// The interleaved samples of all slots.
    pub closed spec fn spec_samples(&self) -> Seq<T> {
        self.samples@
    }

    /// A ring of `capacity_frames` frames of `channels` channels filled with
    /// `fill`; refused when any of the three is zero.
    pub fn new(capacity_frames: usize, channels: u16, sample_rate: u32, fill: T) -> (r: Result<
        Self,
        EngineError,
    >)
        requires
            capacity_frames <= u32::MAX,
            capacity_frames * channels <= usize::MAX,
        ensures
            match r {
                Ok(ring) => capacity_frames != 0 && channels != 0 && sample_rate != 0 && ring.wf()
                    && ring.spec_header() == (SharedBufferHeader {
                    magic: SHARED_BUFFER_MAGIC,
                    version: SHARED_BUFFER_VERSION,
                    channel_count: channels as u32,
                    sample_rate,
                    capacity_frames: capacity_frames as u32,
                    reserved: 0,
                    write_index_frames: 0,
                    read_index_frames: 0,
                    last_timestamp_ns: 0,
                }) && ring.spec_samples() == Seq::new(
                    (capacity_frames * channels) as nat,
                    |i: int| fill,
                ),
                Err(e) => (capacity_frames == 0 || channels == 0 || sample_rate == 0)
                    && e.spec_message() == "invalid shared output buffer format"@,
            },
    {
        if capacity_frames == 0 || channels == 0 || sample_rate == 0 {
            return Err(EngineError::from_text("invalid shared output buffer format"));
        }
        let n = capacity_frames * channels as usize;
        let mut samples: Vec<T> = Vec::new();
        let mut i: usize = 0;
        while i < n
            invariant
                i <= n,
                samples@ == Seq::new(i as nat, |j: int| fill),
            decreases n - i,
        {
            samples.push(fill);
            assert(samples@ =~= Seq::new((i + 1) as nat, |j: int| fill));
            i += 1;
        }
        let header = SharedBufferHeader {
            magic: SHARED_BUFFER_MAGIC,
            version: SHARED_BUFFER_VERSION,
            channel_count: channels as u32,
            sample_rate,
            capacity_frames: capacity_frames as u32,
            reserved: 0,
            write_index_frames: 0,
            read_index_frames: 0,
            last_timestamp_ns: 0,
        };
        Ok(SharedOutputBuffer { header, samples })
    }

    /// The header.
    pub fn header(&self) -> (r: SharedBufferHeader)
        ensures
            r == self.spec_header(),
    {
        self.header
    }

    /// A copy of the interleaved samples of all slots.
    pub fn samples(&self) -> (r: Vec<T>)
        ensures
            r@ == self.spec_samples(),
    {
        let mut v: Vec<T> = Vec::new();
        let mut i: usize = 0;
        while i < self.samples.len()
            invariant
                i <= self.samples@.len(),
                v@ == self.samples@.take(i as int),
            decreases self.samples@.len() - i,
        {
            v.push(self.samples[i]);
            assert(v@ =~= self.samples@.take(i + 1));
            i += 1;
        }
        assert(self.samples@.take(self.samples@.len() as int) =~= self.samples@);
        v
    }

    /// Replaces header and samples with what was read back from storage.
    pub fn restore(&mut self, header: SharedBufferHeader, samples: Vec<T>) -> (r: Result<(), EngineError>)
        ensures
            match r {
                Ok(()) => final(self).spec_header() == header && final(self).spec_samples() == samples@
                    && final(self).wf(),
                Err(e) => *final(self) == *old(self) && e.spec_message() == "invalid shared output buffer format"@
                    && !(header.channel_count >= 1 && header.capacity_frames >= 1 && samples@.len()
                    == header.capacity_frames * header.channel_count),
            },
    {
        if header.channel_count == 0 || header.capacity_frames == 0 {
            return Err(EngineError::from_text("invalid shared output buffer format"));
        }
        assert((header.capacity_frames as u64) * (header.channel_count as u64) <= u64::MAX)
            by (nonlinear_arith)
            requires
                header.capacity_frames <= u32::MAX,
                header.channel_count <= u32::MAX,
        ;
        let want = (header.capacity_frames as u64).checked_mul(header.channel_count as u64);
        match want {
            Some(w) => {
                if samples.len() as u64 != w {
                    return Err(EngineError::from_text("invalid shared output buffer format"));
                }
                assert(samples@.len() == header.capacity_frames * header.channel_count);
            },
            None => {
                return Err(EngineError::from_text("invalid shared output buffer format"));
            },
        }
        self.header = header;
        self.samples = samples;
        Ok(())
    }

    /// Writes the frames of `data` (interleaved, `channels` channels): when
    /// more frames arrive than the ring holds only the newest are kept; the
    /// write index advances by the whole frames written, the timestamp is
    /// recorded, and the read index is pulled forward so that at most a full
    /// ring is unread. Refused when the format differs from the ring's.
    pub fn write_frame(&mut self, data: &[T], channels: u16, sample_rate: u32, timestamp_ns: u64) -> (r:
        Result<(), EngineError>)
        requires
            old(self).wf(),
        ensures
            final(self).wf(),
            shared_write_outcome(*old(self), data@, channels, sample_rate, timestamp_ns, r, *final(self)),
    {
        let ch = self.header.channel_count as usize;
        if channels as usize != ch {
            return Err(EngineError::from_text("shared output channel mismatch"));
        }
        if sample_rate != self.header.sample_rate {
            return Err(EngineError::from_text("shared output sample rate mismatch"));
        }
        let cap = self.header.capacity_frames as usize;
        let frame_count = data.len() / ch;
        let src_offset_frames = if frame_count > cap {
            frame_count - cap
        } else {
            0
        };
        proof {
            assert(src_offset_frames * ch <= data@.len()) by (nonlinear_arith)
                requires
                    src_offset_frames <= frame_count,
                    frame_count == (data@.len() as int) / (ch as int),
                    ch > 0,
            ;
        }
        let start_offset = src_offset_frames * ch;
        let ghost src = data@.skip(start_offset as int);
        let src_len = data.len() - start_offset;
        let start_frame = self.header.write_index_frames % (cap as u64);
        let ghost s0 = self.samples@;
        let ghost h0 = self.header;
        proof {
            assert((src_len as int) / (ch as int) <= cap) by (nonlinear_arith)
                requires
                    src_len == data@.len() - src_offset_frames * ch,
                    frame_count == (data@.len() as int) / (ch as int),
                    src_offset_frames == if frame_count > cap { frame_count - cap } else { 0 },
                    ch > 0,
            ;
        }
        let slen = self.samples.len();
        assert(slen == cap * ch);
        let dlen = data.len();
        let mut index: usize = 0;
        while index < src_len
            invariant
                index <= src_len,
                dlen == data@.len(),
                cap * ch <= usize::MAX,
                src_len == src.len(),
                src == data@.skip(start_offset as int),
                start_offset + src_len == data@.len(),
                ch == self.header.channel_count,
                cap == self.header.capacity_frames,
                ch >= 1,
                cap >= 1,
                start_frame < cap,
                start_frame == h0.write_index_frames % (cap as u64),
                (src_len as int) / (ch as int) <= cap,
                self.header == h0,
                self.samples@.len() == cap * ch,
                self.samples@ == written_samples(s0, src, start_frame as int, ch as int, cap as int, index as int),
            decreases src_len - index,
        {
            let frame_offset = index / ch;
            let channel_offset = index % ch;
            proof {
                assert(frame_offset <= cap) by (nonlinear_arith)
                    requires
                        index < src_len,
                        frame_offset == index / ch,
                        (src_len as int) / (ch as int) <= cap,
                        ch > 0,
                ;
            }
            let dst_frame = ((start_frame + frame_offset as u64) % (cap as u64)) as usize;
            proof {
                lemma_slot_bound(dst_frame as int, channel_offset as int, ch as int, cap as int);
            }
            let dst_index = dst_frame * ch + channel_offset;
            let v = data[start_offset + index];
            assert(v == src[index as int]);
            self.samples.set(dst_index, v);
            index += 1;
        }
        let whole = (src_len / ch) as u64;
        let w = self.header.write_index_frames.saturating_add(whole);
        self.header.write_index_frames = w;
        self.header.last_timestamp_ns = timestamp_ns;
        let unread = w.saturating_sub(self.header.read_index_frames);
        if unread > cap as u64 {
            self.header.read_index_frames = w.saturating_sub(cap as u64);
        }
        Ok(())
    }

    /// Reads up to `out.len() / channels` whole unread frames (at most a full
    /// ring) into `out`, fills the rest of `out` with `fill`, advances the read
    /// index, and returns the frames read with the latest timestamp. Refused
    /// when the channel count differs from the ring's.
    pub fn read_into(&mut self, out: &mut [T], channels: u16, fill: T) -> (r: Result<
        (usize, u64),
        EngineError,
    >)
        requires
            old(self).wf(),
        ensures
            final(self).wf(),
            shared_read_outcome(*old(self), old(out)@, channels, fill, r, *final(self), final(out)@),
    {
        let ch = self.header.channel_count as usize;
        if channels as usize != ch {
            return Err(EngineError::from_text("shared output read channel mismatch"));
        }
        if out.len() == 0 {
            return Ok((0, self.header.last_timestamp_ns));
        }
        let cap = self.header.capacity_frames as usize;
        let unread = self.header.write_index_frames.saturating_sub(self.header.read_index_frames);
        let available_frames: usize = if (cap as u64) < unread {
            cap
        } else {
            unread as usize
        };
        let requested_frames = out.len() / ch;
        let frames_to_read = if available_frames < requested_frames {
            available_frames
        } else {
            requested_frames
        };
        let start_frame = self.header.read_index_frames % (cap as u64);
        proof {
            assert(frames_to_read * ch <= out@.len()) by (nonlinear_arith)
                requires
                    frames_to_read <= requested_frames,
                    requested_frames == (out@.len() as int) / (ch as int),
                    ch > 0,
            ;
        }
        let total = frames_to_read * ch;
        let slen = self.samples.len();
        assert(slen == cap * ch);
        let ghost h0 = self.header;
        let mut k: usize = 0;
        while k < total
            invariant
                k <= total,
                cap * ch <= usize::MAX,
                self.header == h0,
                total == frames_to_read * ch,
                total <= out@.len(),
                out@.len() == old(out)@.len(),
                ch == self.header.channel_count,
                cap == self.header.capacity_frames,
                ch >= 1,
                cap >= 1,
                frames_to_read <= cap,
                start_frame < cap,
                self.samples@.len() == cap * ch,
                forall|m: int|
                    0 <= m < k ==> #[trigger] out@[m] == self.samples@[write_slot(
                        start_frame as int,
                        m,
                        ch as int,
                        cap as int,
                    )],
            decreases total - k,
        {
            proof {
                lemma_frame_of(k as int, ch as int, frames_to_read as int);
            }
            let f = k / ch;
            let c = k % ch;
            let src_frame = ((start_frame + f as u64) % (cap as u64)) as usize;
            proof {
                lemma_slot_bound(src_frame as int, c as int, ch as int, cap as int);
            }
            out[k] = self.samples[src_frame * ch + c];
            k += 1;
        }
        let mut m: usize = total;
        let ghost s0 = self.samples@;
        while m < out.len()
            invariant
                total <= m <= out@.len(),
                out@.len() == old(out)@.len(),
                self.samples@ == s0,
                self.header == h0,
                forall|q: int|
                    0 <= q < total ==> #[trigger] out@[q] == self.samples@[write_slot(
                        start_frame as int,
                        q,
                        ch as int,
                        cap as int,
                    )],
                forall|q: int| total <= q < m ==> #[trigger] out@[q] == fill,
            decreases out@.len() - m,
        {
            out[m] = fill;
            m += 1;
        }
        self.header.read_index_frames = self.header.read_index_frames.saturating_add(
            frames_to_read as u64,
        );
        Ok((frames_to_read, self.header.last_timestamp_ns))
    }
}

/// Every sample of a write lands inside the ring.
proof fn lemma_write_slot_bound(start: int, idx: int, ch: int, cap: int)
    requires
        0 <= start,
        0 < ch,
        0 < cap,
        0 <= idx,
    ensures
        0 <= write_slot(start, idx, ch, cap) < cap * ch,
{
    vstd::arithmetic::div_mod::lemma_mod_pos_bound(start + idx / ch, cap);
    vstd::arithmetic::div_mod::lemma_mod_pos_bound(idx, ch);
    lemma_slot_bound((start + idx / ch) % cap, idx % ch, ch, cap);
}

/// Two samples of one write of at most a whole ring land in different slots.
proof fn lemma_write_slots_distinct(start: int, a: int, b: int, ch: int, cap: int)
    requires
        0 < ch,
        0 < cap,
        0 <= a < b < cap * ch,
    ensures
        write_slot(start, a, ch, cap) != write_slot(start, b, ch, cap),
{
    lemma_frame_of(a, ch, cap);
    lemma_frame_of(b, ch, cap);
    vstd::arithmetic::div_mod::lemma_fundamental_div_mod(a, ch);
    vstd::arithmetic::div_mod::lemma_fundamental_div_mod(b, ch);
    let qa = a / ch;
    let qb = b / ch;
    let ra = a % ch;
    let rb = b % ch;
    let xa = (start + qa) % cap;
    let xb = (start + qb) % cap;
    assert(xa * ch + ra == xb * ch + rb ==> xa == xb && ra == rb) by (nonlinear_arith)
        requires
            0 <= ra < ch,
            0 <= rb < ch,
    {
        if xa * ch + ra == xb * ch + rb && xa != xb {
            if xa < xb {
                assert((xb - xa) * ch >= ch);
            } else {
                assert((xa - xb) * ch >= ch);
            }
        }
    }
    if ra == rb {
        assert(qa < qb) by (nonlinear_arith)
            requires
                a == ch * qa + ra,
                b == ch * qb + rb,
                ra == rb,
                a < b,
                ch > 0,
        ;
        lemma_mod_distinct(start + qa, start + qb, cap);
    }
}

/// The ring after a write keeps its length.
proof fn lemma_written_len<T>(s: Seq<T>, src: Seq<T>, start: int, ch: int, cap: int, k: int)
    requires
        0 <= start,
        0 < ch,
        0 < cap,
        s.len() == cap * ch,
    ensures
        written_samples(s, src, start, ch, cap, k).len() == s.len(),
    decreases k,
{
    if k > 0 {
        lemma_written_len(s, src, start, ch, cap, k - 1);
        lemma_write_slot_bound(start, k - 1, ch, cap);
    }
}

/// After writing `k` samples (at most a whole ring), sample `j` of the write
/// sits in its slot.
proof fn lemma_written_at<T>(s: Seq<T>, src: Seq<T>, start: int, ch: int, cap: int, k: int, j: int)
    requires
        0 <= start,
        0 < ch,
        0 < cap,
        s.len() == cap * ch,
        0 <= j < k <= cap * ch,
    ensures
        written_samples(s, src, start, ch, cap, k)[write_slot(start, j, ch, cap)] == src[j],
    decreases k,
{
    lemma_written_len(s, src, start, ch, cap, k - 1);
    lemma_write_slot_bound(start, k - 1, ch, cap);
    lemma_write_slot_bound(start, j, ch, cap);
    if j < k - 1 {
        lemma_written_at(s, src, start, ch, cap, k - 1, j);
        lemma_write_slots_distinct(start, j, k - 1, ch, cap);
    }
}

/// What a reader gets back of a write: whole frames written, no more than
/// the ring holds, into a shared ring with nothing unread are read back
/// exactly and in order into a buffer of their size, with the write's
/// timestamp, and nothing is left unread.
pub proof fn lemma_shared_write_then_read<T: Copy>(
    ring: SharedOutputBuffer<T>,
    data: Seq<T>,
    channels: u16,
    timestamp_ns: u64,
    w: Result<(), EngineError>,
    written: SharedOutputBuffer<T>,
    out: Seq<T>,
    fill: T,
    rd: Result<(usize, u64), EngineError>,
    after: SharedOutputBuffer<T>,
    got: Seq<T>,
)
    requires
        ring.wf(),
        channels as int == ring.spec_header().channel_count,
        ring.spec_header().read_index_frames == ring.spec_header().write_index_frames,
        data.len() > 0,
        (data.len() as int) % (channels as int) == 0,
        (data.len() as int) / (channels as int) <= ring.spec_header().capacity_frames,
        ring.spec_header().write_index_frames + (data.len() as int) / (channels as int) <= u64::MAX,
        shared_write_outcome(ring, data, channels, ring.spec_header().sample_rate, timestamp_ns, w, written),
        out.len() == data.len(),
        shared_read_outcome(written, out, channels, fill, rd, after, got),
    ensures
        w is Ok,
        rd == Ok::<(usize, u64), EngineError>((((data.len() as int) / (channels as int)) as usize, timestamp_ns)),
        got == data,
        after.spec_header().read_index_frames == after.spec_header().write_index_frames,
{
    let h = ring.spec_header();
    let ch = h.channel_count as int;
    let cap = h.capacity_frames as int;
    let frames = data.len() as int / ch;
    vstd::arithmetic::div_mod::lemma_fundamental_div_mod(data.len() as int, ch);
    assert(frames * ch == data.len()) by (nonlinear_arith)
        requires
            data.len() == ch * frames + 0,
    ;
    assert(data.skip(0) =~= data);
    let start = (h.write_index_frames % (cap as u64)) as int;
    assert(data.len() <= cap * ch) by (nonlinear_arith)
        requires
            frames * ch == data.len(),
            frames <= cap,
            ch > 0,
    ;
    lemma_written_len(ring.spec_samples(), data, start, ch, cap, data.len() as int);
    assert forall|k: int| 0 <= k < data.len() implies #[trigger] got[k] == data[k] by {
        lemma_written_at(ring.spec_samples(), data, start, ch, cap, data.len() as int, k);
    }
    assert(got =~= data);
}

/// The value of four little-endian bytes.
pub open spec fn le_value4(b0: u8, b1: u8, b2: u8, b3: u8) -> int {
    b0 + b1 * 256 + b2 * 65536 + b3 * 16777216
}

proof fn lemma_le_bytes_u32_value(v: u32)
    ensures
        le_value4(le_bytes_u32(v)[0], le_bytes_u32(v)[1], le_bytes_u32(v)[2], le_bytes_u32(v)[3]) == v,
{
    let b0 = v as u8;
    let b1 = (v >> 8) as u8;
    let b2 = (v >> 16) as u8;
    let b3 = (v >> 24) as u8;
    assert(b0 + b1 * 256 + b2 * 65536 + b3 * 16777216 == v) by (bit_vector)
        requires
            b0 == v as u8,
            b1 == (v >> 8) as u8,
            b2 == (v >> 16) as u8,
            b3 == (v >> 24) as u8,
    ;
}

proof fn lemma_le_u32_at_value(b0: u8, b1: u8, b2: u8, b3: u8)
    ensures
        ((b0 as u32) | ((b1 as u32) << 8) | ((b2 as u32) << 16) | ((b3 as u32) << 24)) == le_value4(
            b0,
            b1,
            b2,
            b3,
        ),
{
    assert(((b0 as u32) | ((b1 as u32) << 8) | ((b2 as u32) << 16) | ((b3 as u32) << 24)) == b0 + b1
        * 256 + b2 * 65536 + b3 * 16777216) by (bit_vector);
}

/// The header's layout, field by field: each `u32` field is the
/// little-endian number in its four bytes at its declared offset (magic at
/// 0, version at 4, channel count at 8, sample rate at 12, capacity at 16,
/// reserved at 20), and the `u64` indices and timestamp follow at 24, 32 and
/// 40; encoding writes exactly that layout and decoding reads it back from
/// the same offsets.
pub proof fn lemma_header_layout(h: SharedBufferHeader, b: Seq<u8>)
    requires
        b.len() >= 48,
    ensures
        header_bytes(h).len() == 48,
        le_value4(header_bytes(h)[0], header_bytes(h)[1], header_bytes(h)[2], header_bytes(h)[3]) == h.magic,
        le_value4(header_bytes(h)[4], header_bytes(h)[5], header_bytes(h)[6], header_bytes(h)[7]) == h.version,
        le_value4(header_bytes(h)[8], header_bytes(h)[9], header_bytes(h)[10], header_bytes(h)[11])
            == h.channel_count,
        le_value4(header_bytes(h)[12], header_bytes(h)[13], header_bytes(h)[14], header_bytes(h)[15])
            == h.sample_rate,
        le_value4(header_bytes(h)[16], header_bytes(h)[17], header_bytes(h)[18], header_bytes(h)[19])
            == h.capacity_frames,
        le_value4(header_bytes(h)[20], header_bytes(h)[21], header_bytes(h)[22], header_bytes(h)[23])
            == h.reserved,
        header_bytes(h).subrange(24, 32) == le_bytes_u64(h.write_index_frames),
        header_bytes(h).subrange(32, 40) == le_bytes_u64(h.read_index_frames),
        header_bytes(h).subrange(40, 48) == le_bytes_u64(h.last_timestamp_ns),
        header_from_bytes(b).magic == le_value4(b[0], b[1], b[2], b[3]),
        header_from_bytes(b).version == le_value4(b[4], b[5], b[6], b[7]),
        header_from_bytes(b).channel_count == le_value4(b[8], b[9], b[10], b[11]),
        header_from_bytes(b).sample_rate == le_value4(b[12], b[13], b[14], b[15]),
        header_from_bytes(b).capacity_frames == le_value4(b[16], b[17], b[18], b[19]),
        header_from_bytes(b).reserved == le_value4(b[20], b[21], b[22], b[23]),
{
    let e = header_bytes(h);
    lemma_le_bytes_u32_value(h.magic);
    lemma_le_bytes_u32_value(h.version);
    lemma_le_bytes_u32_value(h.channel_count);
    lemma_le_bytes_u32_value(h.sample_rate);
    lemma_le_bytes_u32_value(h.capacity_frames);
    lemma_le_bytes_u32_value(h.reserved);
    assert(e.subrange(0, 4) =~= le_bytes_u32(h.magic));
    assert(e.subrange(4, 8) =~= le_bytes_u32(h.version));
    assert(e.subrange(8, 12) =~= le_bytes_u32(h.channel_count));
    assert(e.subrange(12, 16) =~= le_bytes_u32(h.sample_rate));
    assert(e.subrange(16, 20) =~= le_bytes_u32(h.capacity_frames));
    assert(e.subrange(20, 24) =~= le_bytes_u32(h.reserved));
    assert(e.subrange(24, 32) =~= le_bytes_u64(h.write_index_frames));
    assert(e.subrange(32, 40) =~= le_bytes_u64(h.read_index_frames));
    assert(e.subrange(40, 48) =~= le_bytes_u64(h.last_timestamp_ns));
    assert(e[0] == e.subrange(0, 4)[0] && e[1] == e.subrange(0, 4)[1] && e[2] == e.subrange(0, 4)[2] && e[3] == e.subrange(0, 4)[3]);
    assert(e[4] == e.subrange(4, 8)[0] && e[5] == e.subrange(4, 8)[1] && e[6] == e.subrange(4, 8)[2] && e[7] == e.subrange(4, 8)[3]);
    assert(e[8] == e.subrange(8, 12)[0] && e[9] == e.subrange(8, 12)[1] && e[10] == e.subrange(8, 12)[2] && e[11] == e.subrange(8, 12)[3]);
    assert(e[12] == e.subrange(12, 16)[0] && e[13] == e.subrange(12, 16)[1] && e[14] == e.subrange(12, 16)[2] && e[15] == e.subrange(12, 16)[3]);
    assert(e[16] == e.subrange(16, 20)[0] && e[17] == e.subrange(16, 20)[1] && e[18] == e.subrange(16, 20)[2] && e[19] == e.subrange(16, 20)[3]);
    assert(e[20] == e.subrange(20, 24)[0] && e[21] == e.subrange(20, 24)[1] && e[22] == e.subrange(20, 24)[2] && e[23] == e.subrange(20, 24)[3]);
    lemma_le_u32_at_value(b[0], b[1], b[2], b[3]);
    lemma_le_u32_at_value(b[4], b[5], b[6], b[7]);
    lemma_le_u32_at_value(b[8], b[9], b[10], b[11]);
    lemma_le_u32_at_value(b[12], b[13], b[14], b[15]);
    lemma_le_u32_at_value(b[16], b[17], b[18], b[19]);
    lemma_le_u32_at_value(b[20], b[21], b[22], b[23]);
}

} // verus!
