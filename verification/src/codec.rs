//! Byte-level primitives of the wire codec: fixed-width integers,
//! length-prefixed chunks, and lists of chunks.
//!
//! Every exec reader is specified against a `spec_take_*` function over the
//! byte sequence, and every writer against the matching encoder, so that
//! round trips can be proved once at the spec level and reused everywhere.

use vstd::prelude::*;

verus! {

use vstd::bytes::lemma_auto_spec_u64_to_from_le_bytes;
use vstd::bytes::spec_u64_from_le_bytes;
use vstd::bytes::spec_u64_to_le_bytes;
use vstd::bytes::u64_from_le_bytes;
use vstd::bytes::u64_to_le_bytes;
use vstd::slice::slice_index_get;
use vstd::slice::slice_subrange;
use vstd::slice::slice_to_vec;

/// Append every byte of `data` to `out`.
pub fn push_bytes(out: &mut Vec<u8>, data: &[u8])
    ensures
        final(out)@ == old(out)@ + data@,
{
    let n = data.len();
    let mut i: usize = 0;
    while i < n
        invariant
            i <= n,
            n == data@.len(),
            out@ == old(out)@ + data@.subrange(0, i as int),
        decreases n - i,
    {
        out.push(*slice_index_get(data, i));
        proof {
            assert((old(out)@ + data@.subrange(0, i as int)).push(data@[i as int]) =~= old(out)@
                + data@.subrange(0, i as int + 1));
        }
        i = i + 1;
    }
    proof {
        assert(data@.subrange(0, n as int) =~= data@);
    }
}

/// What reading one byte at `pos` yields.
pub open spec fn spec_take_u8(b: Seq<u8>, pos: int) -> Option<(u8, int)> {
    if 0 <= pos && pos + 1 <= b.len() {
        Some((b[pos], pos + 1))
    } else {
        None
    }
}

/// Append one byte.
pub fn write_u8(out: &mut Vec<u8>, x: u8)
    ensures
        final(out)@ == old(out)@ + seq![x],
{
    out.push(x);
    proof {
        assert(old(out)@.push(x) =~= old(out)@ + seq![x]);
    }
}

/// Read one byte and advance.
pub fn read_u8(buf: &[u8], pos: &mut usize) -> (r: Option<u8>)
    ensures
        match spec_take_u8(buf@, *old(pos) as int) {
            Some(vp) => r == Some(vp.0) && *final(pos) == vp.1,
            None => r == None::<u8> && *final(pos) == *old(pos),
        },
{
    if *pos < buf.len() {
        let x = *slice_index_get(buf, *pos);
        *pos = *pos + 1;
        Some(x)
    } else {
        None
    }
}

pub proof fn lemma_take_u8_of_encoded(pre: Seq<u8>, x: u8, rest: Seq<u8>)
    ensures
        spec_take_u8(pre + seq![x] + rest, pre.len() as int) == Some((x, pre.len() as int + 1)),
{
    let b = pre + seq![x] + rest;
    assert(b[pre.len() as int] == x);
}

/// What reading a little-endian `u64` at `pos` yields.
pub open spec fn spec_take_u64(b: Seq<u8>, pos: int) -> Option<(u64, int)> {
    if 0 <= pos && pos + 8 <= b.len() {
        Some((spec_u64_from_le_bytes(b.subrange(pos, pos + 8)), pos + 8))
    } else {
        None
    }
}

/// Append a `u64` as eight little-endian bytes.
pub fn write_u64(out: &mut Vec<u8>, x: u64)
    ensures
        final(out)@ == old(out)@ + spec_u64_to_le_bytes(x),
{
    let mut b = u64_to_le_bytes(x);
    out.append(&mut b);
}

/// Read a little-endian `u64` and advance.
pub fn read_u64(buf: &[u8], pos: &mut usize) -> (r: Option<u64>)
    ensures
        match spec_take_u64(buf@, *old(pos) as int) {
            Some(vp) => r == Some(vp.0) && *final(pos) == vp.1,
            None => r == None::<u64> && *final(pos) == *old(pos),
        },
{
    if buf.len() >= 8 && *pos <= buf.len() - 8 {
        let s = slice_subrange(buf, *pos, *pos + 8);
        let x = u64_from_le_bytes(s);
        *pos = *pos + 8;
        Some(x)
    } else {
        None
    }
}

pub proof fn lemma_take_u64_of_encoded(pre: Seq<u8>, x: u64, rest: Seq<u8>)
    ensures
        spec_take_u64(pre + spec_u64_to_le_bytes(x) + rest, pre.len() as int) == Some(
            (x, pre.len() as int + 8),
        ),
{
    lemma_auto_spec_u64_to_from_le_bytes();
    let b = pre + spec_u64_to_le_bytes(x) + rest;
    assert(b.subrange(pre.len() as int, pre.len() as int + 8) =~= spec_u64_to_le_bytes(x));
}

/// A chunk framed by its length: eight length bytes, then the payload.
pub open spec fn spec_lp(data: Seq<u8>) -> Seq<u8> {
    spec_u64_to_le_bytes(data.len() as u64) + data
}

/// What reading a length-prefixed chunk at `pos` yields.
pub open spec fn spec_take_lp(b: Seq<u8>, pos: int) -> Option<(Seq<u8>, int)> {
    match spec_take_u64(b, pos) {
        Some(np) => {
            let n = np.0 as int;
            let p = np.1;
            if p + n <= b.len() {
                Some((b.subrange(p, p + n), p + n))
            } else {
                None
            }
        },
        None => None,
    }
}

/// Append a chunk with its length prefix.
pub fn write_lp(out: &mut Vec<u8>, data: &[u8])
    ensures
        final(out)@ == old(out)@ + spec_lp(data@),
{
    write_u64(out, data.len() as u64);
    push_bytes(out, data);
    proof {
        assert(old(out)@ + spec_u64_to_le_bytes(data@.len() as u64) + data@ =~= old(out)@
            + spec_lp(data@));
    }
}

/// Read a length-prefixed chunk and advance.
pub fn read_lp(buf: &[u8], pos: &mut usize) -> (r: Option<Vec<u8>>)
    ensures
        match spec_take_lp(buf@, *old(pos) as int) {
            Some(vp) => r matches Some(v) && v@ == vp.0 && *final(pos) == vp.1,
            None => r is None && *final(pos) == *old(pos),
        },
{
    let start = *pos;
    match read_u64(buf, pos) {
        Some(n) => {
            if n <= (buf.len() - *pos) as u64 {
                let nn = n as usize;
                let s = slice_subrange(buf, *pos, *pos + nn);
                let v = slice_to_vec(s);
                *pos = *pos + nn;
                Some(v)
            } else {
                *pos = start;
                None
            }
        },
        None => None,
    }
}

pub proof fn lemma_take_lp_of_encoded(pre: Seq<u8>, data: Seq<u8>, rest: Seq<u8>)
    requires
        data.len() <= 0xffff_ffff_ffff_ffff,
    ensures
        spec_take_lp(pre + spec_lp(data) + rest, pre.len() as int) == Some(
            (data, pre.len() as int + 8 + data.len()),
        ),
{
    lemma_auto_spec_u64_to_from_le_bytes();
    let b = pre + spec_lp(data) + rest;
    assert(b =~= pre + spec_u64_to_le_bytes(data.len() as u64) + (data + rest));
    lemma_take_u64_of_encoded(pre, data.len() as u64, data + rest);
    assert(b.subrange(pre.len() as int + 8, pre.len() as int + 8 + data.len() as int) =~= data);
}

/// Concatenation of a list of chunks, each with its length prefix.
pub open spec fn spec_cat_lp(bufs: Seq<Seq<u8>>) -> Seq<u8>
    decreases bufs.len(),
{
    if bufs.len() == 0 {
        Seq::<u8>::empty()
    } else {
        spec_lp(bufs[0]) + spec_cat_lp(bufs.drop_first())
    }
}

/// A whole list of chunks: the count, then each chunk length-prefixed.
pub open spec fn spec_encode_bufs(bufs: Seq<Seq<u8>>) -> Seq<u8> {
    spec_u64_to_le_bytes(bufs.len() as u64) + spec_cat_lp(bufs)
}

/// Every chunk short enough for its length prefix, and the count in range.
pub open spec fn wf_bufs(bufs: Seq<Seq<u8>>) -> bool {
    &&& bufs.len() <= 0xffff_ffff_ffff_ffff
    &&& forall|i: int| 0 <= i < bufs.len() ==> (#[trigger] bufs[i]).len() <= 0xffff_ffff_ffff_ffff
}

pub proof fn lemma_cat_lp_push(bufs: Seq<Seq<u8>>, data: Seq<u8>)
    ensures
        spec_cat_lp(bufs.push(data)) == spec_cat_lp(bufs) + spec_lp(data),
    decreases bufs.len(),
{
    if bufs.len() == 0 {
        assert(bufs.push(data)[0] == data);
        assert(bufs.push(data).drop_first() =~= Seq::<Seq<u8>>::empty());
        assert(spec_cat_lp(Seq::<Seq<u8>>::empty()) == Seq::<u8>::empty());
        assert(bufs =~= Seq::<Seq<u8>>::empty());
        assert(spec_cat_lp(bufs.push(data)) =~= spec_cat_lp(bufs) + spec_lp(data));
    } else {
        assert(bufs.push(data).drop_first() =~= bufs.drop_first().push(data));
        lemma_cat_lp_push(bufs.drop_first(), data);
        assert(spec_cat_lp(bufs.push(data)) == spec_lp(bufs[0]) + spec_cat_lp(
            bufs.drop_first().push(data),
        ));
        assert(spec_lp(bufs[0]) + (spec_cat_lp(bufs.drop_first()) + spec_lp(data)) =~= spec_cat_lp(
            bufs,
        ) + spec_lp(data));
    }
}

/// What reading `count` length-prefixed chunks at `pos` yields.
pub open spec fn spec_take_bufs(b: Seq<u8>, pos: int, count: nat) -> Option<(Seq<Seq<u8>>, int)>
    decreases count,
{
    if count == 0 {
        Some((Seq::<Seq<u8>>::empty(), pos))
    } else {
        match spec_take_lp(b, pos) {
            Some(vp) => match spec_take_bufs(b, vp.1, (count - 1) as nat) {
                Some(rp) => Some((seq![vp.0] + rp.0, rp.1)),
                None => None,
            },
            None => None,
        }
    }
}

pub proof fn lemma_take_bufs_of_encoded(pre: Seq<u8>, bufs: Seq<Seq<u8>>, rest: Seq<u8>)
    requires
        wf_bufs(bufs),
    ensures
        spec_take_bufs(pre + spec_cat_lp(bufs) + rest, pre.len() as int, bufs.len()) == Some(
            (bufs, pre.len() as int + spec_cat_lp(bufs).len()),
        ),
    decreases bufs.len(),
{
    lemma_auto_spec_u64_to_from_le_bytes();
    let b = pre + spec_cat_lp(bufs) + rest;
    if bufs.len() == 0 {
        assert(bufs =~= Seq::<Seq<u8>>::empty());
    } else {
        let head = bufs[0];
        let tail = bufs.drop_first();
        assert(b =~= pre + spec_lp(head) + (spec_cat_lp(tail) + rest));
        lemma_take_lp_of_encoded(pre, head, spec_cat_lp(tail) + rest);
        let p1 = pre.len() as int + 8 + head.len();
        assert(spec_take_lp(b, pre.len() as int) == Some((head, p1)));
        let pre1 = pre + spec_lp(head);
        assert(pre1.len() as int == p1);
        assert(b =~= pre1 + spec_cat_lp(tail) + rest);
        assert(wf_bufs(tail)) by {
            assert(forall|i: int|
                0 <= i < tail.len() ==> #[trigger] tail[i] == bufs[i + 1]);
        }
        lemma_take_bufs_of_encoded(pre1, tail, rest);
        assert(seq![head] + tail =~= bufs);
        assert(spec_cat_lp(bufs).len() == spec_lp(head).len() + spec_cat_lp(tail).len());
    }
}

} // verus!
