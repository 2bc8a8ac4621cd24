//! The byte-level semantics of reads and writes at an offset.
//!
//! `read_result` and `write_result` are the mathematical meaning of the two
//! operations; `read_at` and `write_at` are the executable implementations,
//! each proved to return exactly its mathematical counterpart.

use vstd::prelude::*;

verus! {

/// The buffer contents after writing `src` at position `off` into `s`:
/// the buffer grows to `max(s.len(), off + src.len())`, any gap between the
/// old end and `off` is zero-filled, and `src` occupies `[off, off + src.len())`.
pub open spec fn write_result(s: Seq<u8>, off: int, src: Seq<u8>) -> Seq<u8> {
    Seq::new(
        if off + src.len() > s.len() {
            (off + src.len()) as nat
        } else {
            s.len()
        },
        |i: int|
            if off <= i < off + src.len() {
                src[i - off]
            } else if i < s.len() {
                s[i]
            } else {
                0u8
            },
    )
}

/// The bytes a read at position `off` with capacity `cap` returns out of `s`:
/// empty at or past the end of `s`, otherwise the next `min(cap, s.len() - off)`
/// bytes.
pub open spec fn read_result(s: Seq<u8>, off: int, cap: int) -> Seq<u8>
    recommends
        0 <= off,
        0 <= cap,
{
    if off >= s.len() {
        Seq::empty()
    } else if cap <= s.len() - off {
        s.subrange(off, off + cap)
    } else {
        s.subrange(off, s.len() as int)
    }
}

/// Copy up to `capacity` bytes out of `data` starting at `offset`.
/// An offset at or past the end yields an empty result (end of data, not an
/// error); otherwise the result is truncated to the bytes available.
pub fn read_at(data: &Vec<u8>, offset: usize, capacity: usize) -> (out: Vec<u8>)
    ensures
        out@ == read_result(data@, offset as int, capacity as int),
        out@.len() <= capacity,
{
    if offset >= data.len() {
        return Vec::new();
    }
    let available: usize = data.len() - offset;
    let n: usize = if capacity < available {
        capacity
    } else {
        available
    };
    let mut out: Vec<u8> = Vec::new();
    let mut i: usize = 0;
    while i < n
        invariant
            i <= n,
            offset + n <= usize::MAX,
            offset + n <= data@.len(),
            out@ == data@.subrange(offset as int, offset + i),
        decreases n - i,
    {
        out.push(data[offset + i]);
        assert(out@ =~= data@.subrange(offset as int, offset + i + 1));
        i = i + 1;
    }
    assert(out@ =~= read_result(data@, offset as int, capacity as int));
    out
}

/// Copy all of `src` into `data` at `offset`, growing `data` to
/// `offset + src.len()` with zero fill if it is shorter than that.
/// Returns the number of bytes written, which is always `src.len()`.
pub fn write_at(data: &mut Vec<u8>, offset: usize, src: &Vec<u8>) -> (n: usize)
    requires
        offset + src@.len() <= usize::MAX,
    ensures
        final(data)@ == write_result(old(data)@, offset as int, src@),
        n == src@.len(),
{
    let n: usize = src.len();
    let ghost s0 = data@;
    if offset + n > data.len() {
        data.resize(offset + n, 0u8);
        assert forall|i: int| s0.len() <= i < data@.len() implies data@[i] == 0u8 by {
            assert(cloned::<u8>(0u8, data@[i]));
        }
    }
    let mut i: usize = 0;
    while i < n
        invariant
            i <= n,
            n == src@.len(),
            offset + n <= usize::MAX,
            offset + n <= data@.len(),
            data@.len() == write_result(s0, offset as int, src@).len(),
            forall|j: int|
                0 <= j < data@.len() && !(offset + i <= j < offset + n) ==> data@[j]
                    == write_result(s0, offset as int, src@)[j],
        decreases n - i,
    {
        data.set(offset + i, src[i]);
        i = i + 1;
    }
    assert(data@ =~= write_result(s0, offset as int, src@));
    n
}

/// Growth law: after any write, the buffer length is exactly
/// `max(length_before, offset + src.len())` — it never shrinks.
pub proof fn lemma_write_growth(s: Seq<u8>, off: int, src: Seq<u8>)
    requires
        0 <= off,
    ensures
        write_result(s, off, src).len() == if off + src.len() > s.len() {
            off + src.len()
        } else {
            s.len() as int
        },
        write_result(s, off, src).len() >= s.len(),
{
}

/// Zero-fill law: a write that starts beyond the old end leaves every byte
/// of the gap between the old end and the write offset equal to 0.
pub proof fn lemma_write_zero_fill(s: Seq<u8>, off: int, src: Seq<u8>)
    requires
        0 <= off,
    ensures
        forall|i: int| s.len() <= i < off ==> write_result(s, off, src)[i] == 0u8,
{
}

/// Read-truncation law: a read returns `min(capacity, length - offset)`
/// bytes when `offset < length`, and 0 bytes otherwise; the bytes returned
/// are exactly the buffer's bytes starting at `offset`.
pub proof fn lemma_read_truncation(s: Seq<u8>, off: int, cap: int)
    requires
        0 <= off,
        0 <= cap,
    ensures
        read_result(s, off, cap).len() == if off < s.len() {
            if cap <= s.len() - off {
                cap
            } else {
                s.len() - off
            }
        } else {
            0
        },
        forall|i: int|
            0 <= i < read_result(s, off, cap).len() ==> read_result(s, off, cap)[i] == s[off + i],
{
}

/// A write followed by a read of the same range returns exactly the bytes
/// written.
pub proof fn lemma_write_then_read(s: Seq<u8>, off: int, src: Seq<u8>)
    requires
        0 <= off,
    ensures
        read_result(write_result(s, off, src), off, src.len() as int) == src,
{
    assert(read_result(write_result(s, off, src), off, src.len() as int) =~= src);
}

/// Serialization law for disjoint writers: two writes to non-overlapping
/// ranges yield the same buffer in either order, and in that buffer each
/// range holds exactly the bytes its write put there.
pub proof fn lemma_disjoint_writes_commute(s: Seq<u8>, off1: int, src1: Seq<u8>, off2: int, src2: Seq<u8>)
    requires
        0 <= off1,
        0 <= off2,
        off1 + src1.len() <= off2 || off2 + src2.len() <= off1,
    ensures
        write_result(write_result(s, off1, src1), off2, src2) == write_result(
            write_result(s, off2, src2),
            off1,
            src1,
        ),
        forall|i: int|
            off1 <= i < off1 + src1.len() ==> write_result(
                write_result(s, off1, src1),
                off2,
                src2,
            )[i] == src1[i - off1],
        forall|i: int|
            off2 <= i < off2 + src2.len() ==> write_result(
                write_result(s, off1, src1),
                off2,
                src2,
            )[i] == src2[i - off2],
{
    assert(write_result(write_result(s, off1, src1), off2, src2) =~= write_result(
        write_result(s, off2, src2),
        off1,
        src1,
    ));
}

} // verus!
