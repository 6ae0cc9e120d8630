//! The value codec of the fabric: a compact, JSON-compatible byte encoding
//! for the leaf values that cross the wire, with proved round trips.
//!
//! Strings become a quoted byte string (quote and backslash escaped with a
//! backslash) over their UTF-8 encoding; integers become decimal digits with
//! an optional leading minus.

use vstd::prelude::*;

verus! {

use vstd::slice::slice_index_get;
use vstd::slice::slice_subrange;
use vstd::utf8::decode_utf8;
use vstd::utf8::encode_utf8;
use vstd::utf8::encode_utf8_decode_utf8;
use vstd::utf8::encode_utf8_valid_utf8;
use vstd::utf8::valid_utf8;
use crate::errors::RpcError;
use crate::errors::RpcErrorV;

/// Marker for the types the value codec carries.
pub trait HostcallValue {

}

impl HostcallValue for String {

}

impl HostcallValue for i32 {

}

/// The codec context. The scheme is fixed, so the context carries no state;
/// it exists so that every layer routes values through one pair of
/// operations.
pub struct SerializeCtx;

// --- quoted byte strings ---
/// The escape of one byte: quote and backslash get a backslash prefix.
pub open spec fn spec_esc1(c: u8) -> Seq<u8> {
    if c == 34 || c == 92 {
        seq![92u8, c]
    } else {
        seq![c]
    }
}

/// The escape of a whole byte string.
pub open spec fn spec_escape(b: Seq<u8>) -> Seq<u8>
    decreases b.len(),
{
    if b.len() == 0 {
        Seq::<u8>::empty()
    } else {
        spec_esc1(b[0]) + spec_escape(b.drop_first())
    }
}

pub proof fn lemma_escape_concat(s: Seq<u8>, t: Seq<u8>)
    ensures
        spec_escape(s + t) == spec_escape(s) + spec_escape(t),
    decreases s.len(),
{
    if s.len() == 0 {
        assert(s + t =~= t);
        assert(spec_escape(s) =~= Seq::<u8>::empty());
        assert(spec_escape(s) + spec_escape(t) =~= spec_escape(t));
    } else {
        assert((s + t).drop_first() =~= s.drop_first() + t);
        lemma_escape_concat(s.drop_first(), t);
        assert((s + t)[0] == s[0]);
        assert(spec_esc1(s[0]) + (spec_escape(s.drop_first()) + spec_escape(t)) =~= spec_escape(s)
            + spec_escape(t));
    }
}

pub proof fn lemma_escape_push(s: Seq<u8>, c: u8)
    ensures
        spec_escape(s.push(c)) == spec_escape(s) + spec_esc1(c),
{
    assert(s.push(c) =~= s + seq![c]);
    lemma_escape_concat(s, seq![c]);
    assert(seq![c].drop_first() =~= Seq::<u8>::empty());
    assert(spec_escape(Seq::<u8>::empty()) == Seq::<u8>::empty());
    assert(spec_esc1(c) + Seq::<u8>::empty() =~= spec_esc1(c));
    assert(spec_escape(seq![c]) =~= spec_esc1(c));
}

/// A quoted byte string: quote, escaped payload, quote.
pub open spec fn spec_quote(data: Seq<u8>) -> Seq<u8> {
    seq![34u8] + spec_escape(data) + seq![34u8]
}

/// Append `data` as a quoted byte string.
pub fn write_quoted(out: &mut Vec<u8>, data: &[u8])
    ensures
        final(out)@ == old(out)@ + spec_quote(data@),
{
    out.push(34);
    let n = data.len();
    let mut i: usize = 0;
    while i < n
        invariant
            i <= n,
            n == data@.len(),
            out@ == old(out)@ + seq![34u8] + spec_escape(data@.subrange(0, i as int)),
        decreases n - i,
    {
        let c = *slice_index_get(data, i);
        if c == 34 || c == 92 {
            out.push(92);
        }
        out.push(c);
        proof {
            let pref = data@.subrange(0, i as int);
            lemma_escape_push(pref, data@[i as int]);
            assert(pref.push(data@[i as int]) =~= data@.subrange(0, i as int + 1));
            if c == 34 || c == 92 {
                assert((old(out)@ + seq![34u8] + spec_escape(pref)).push(92u8).push(c) =~= old(
                    out,
                )@ + seq![34u8] + spec_escape(data@.subrange(0, i as int + 1)));
            } else {
                assert((old(out)@ + seq![34u8] + spec_escape(pref)).push(c) =~= old(out)@
                    + seq![34u8] + spec_escape(data@.subrange(0, i as int + 1)));
            }
        }
        i = i + 1;
    }
    out.push(34);
    proof {
        assert(data@.subrange(0, n as int) =~= data@);
        assert((old(out)@ + seq![34u8] + spec_escape(data@)).push(34u8) =~= old(out)@ + spec_quote(
            data@,
        ));
    }
}

/// Scanning the escaped payload of a quoted byte string from `pos` until the
/// closing quote: the unescaped payload and the position after the quote.
pub open spec fn spec_scan_quoted(b: Seq<u8>, pos: int) -> Option<(Seq<u8>, int)>
    decreases b.len() - pos,
{
    if pos < 0 || pos >= b.len() {
        None
    } else if b[pos] == 34 {
        Some((Seq::<u8>::empty(), pos + 1))
    } else if b[pos] == 92 {
        if pos + 1 < b.len() {
            match spec_scan_quoted(b, pos + 2) {
                Some(rp) => Some((seq![b[pos + 1]] + rp.0, rp.1)),
                None => None,
            }
        } else {
            None
        }
    } else {
        match spec_scan_quoted(b, pos + 1) {
            Some(rp) => Some((seq![b[pos]] + rp.0, rp.1)),
            None => None,
        }
    }
}

/// What reading a quoted byte string at `pos` yields.
pub open spec fn spec_take_quoted(b: Seq<u8>, pos: int) -> Option<(Seq<u8>, int)> {
    if 0 <= pos && pos < b.len() && b[pos] == 34 {
        spec_scan_quoted(b, pos + 1)
    } else {
        None
    }
}

proof fn lemma_scan_of_escaped(pre: Seq<u8>, data: Seq<u8>, rest: Seq<u8>)
    ensures
        spec_scan_quoted(pre + spec_escape(data) + seq![34u8] + rest, pre.len() as int) == Some(
            (data, pre.len() as int + spec_escape(data).len() + 1),
        ),
    decreases data.len(),
{
    let b = pre + spec_escape(data) + seq![34u8] + rest;
    if data.len() == 0 {
        assert(b[pre.len() as int] == 34);
        assert(data =~= Seq::<u8>::empty());
    } else {
        let c = data[0];
        let tail = data.drop_first();
        assert(spec_escape(data) == spec_esc1(c) + spec_escape(tail));
        if c == 34 || c == 92 {
            let pre1 = pre + seq![92u8, c];
            assert(b =~= pre1 + spec_escape(tail) + seq![34u8] + rest);
            lemma_scan_of_escaped(pre1, tail, rest);
            assert(b[pre.len() as int] == 92);
            assert(b[pre.len() as int + 1] == c);
            assert(pre.len() as int + 1 < b.len());
            assert(seq![c] + tail =~= data);
        } else {
            let pre1 = pre + seq![c];
            assert(b =~= pre1 + spec_escape(tail) + seq![34u8] + rest);
            lemma_scan_of_escaped(pre1, tail, rest);
            assert(b[pre.len() as int] == c);
            assert(seq![c] + tail =~= data);
        }
    }
}

pub proof fn lemma_take_quoted_of_encoded(pre: Seq<u8>, data: Seq<u8>, rest: Seq<u8>)
    ensures
        spec_take_quoted(pre + spec_quote(data) + rest, pre.len() as int) == Some(
            (data, pre.len() as int + spec_quote(data).len()),
        ),
{
    let b = pre + spec_quote(data) + rest;
    assert(b[pre.len() as int] == 34);
    let pre1 = pre + seq![34u8];
    assert(b =~= pre1 + spec_escape(data) + seq![34u8] + rest);
    lemma_scan_of_escaped(pre1, data, rest);
}

/// Read a quoted byte string and advance.
pub fn read_quoted(buf: &[u8], pos: &mut usize) -> (r: Option<Vec<u8>>)
    ensures
        match spec_take_quoted(buf@, *old(pos) as int) {
            Some(vp) => r matches Some(v) && v@ == vp.0 && *final(pos) == vp.1,
            None => r is None && *final(pos) == *old(pos),
        },
{
    let start = *pos;
    if start >= buf.len() || *slice_index_get(buf, start) != 34 {
        return None;
    }
    let mut cur = start + 1;
    let mut acc: Vec<u8> = Vec::new();
    loop
        invariant
            start == *old(pos),
            start < buf@.len(),
            buf@[start as int] == 34,
            start as int + 1 <= cur as int,
            cur as int <= buf@.len(),
            *pos == start,
            match spec_scan_quoted(buf@, cur as int) {
                Some(rp) => spec_scan_quoted(buf@, start as int + 1) == Some(
                    (acc@ + rp.0, rp.1),
                ),
                None => spec_scan_quoted(buf@, start as int + 1) is None,
            },
        decreases buf@.len() - cur,
    {
        if cur >= buf.len() {
            return None;
        }
        let c = *slice_index_get(buf, cur);
        if c == 34 {
            *pos = cur + 1;
            proof {
                assert(acc@ + Seq::<u8>::empty() =~= acc@);
            }
            return Some(acc);
        } else if c == 92 {
            if cur + 1 >= buf.len() {
                return None;
            }
            let e = *slice_index_get(buf, cur + 1);
            acc.push(e);
            proof {
                match spec_scan_quoted(buf@, cur as int + 2) {
                    Some(rp) => {
                        assert(acc@.push(e) + rp.0 =~= acc@ + (seq![e] + rp.0));
                    },
                    None => {},
                }
            }
            cur = cur + 2;
        } else {
            acc.push(c);
            proof {
                match spec_scan_quoted(buf@, cur as int + 1) {
                    Some(rp) => {
                        assert(acc@.push(c) + rp.0 =~= acc@ + (seq![c] + rp.0));
                    },
                    None => {},
                }
            }
            cur = cur + 1;
        }
    }
}

// --- decimal integers ---
/// The decimal digits of `n`, most significant first.
pub open spec fn spec_dec_digits(n: nat) -> Seq<u8>
    decreases n,
{
    if n < 10 {
        seq![(48 + n) as u8]
    } else {
        spec_dec_digits(n / 10) + seq![(48 + n % 10) as u8]
    }
}

/// A nonempty run of ASCII digits.
pub open spec fn spec_is_digits(b: Seq<u8>) -> bool {
    b.len() >= 1 && forall|i: int| 0 <= i < b.len() ==> 48 <= #[trigger] b[i] <= 57
}

/// The value of a run of ASCII digits.
pub open spec fn spec_dec_value(b: Seq<u8>) -> nat
    decreases b.len(),
{
    if b.len() == 0 {
        0
    } else {
        spec_dec_value(b.drop_last()) * 10 + (b.last() - 48) as nat
    }
}

pub proof fn lemma_dec_digits_value(n: nat)
    ensures
        spec_is_digits(spec_dec_digits(n)),
        spec_dec_value(spec_dec_digits(n)) == n,
    decreases n,
{
    if n < 10 {
        let d = spec_dec_digits(n);
        assert(d.drop_last() =~= Seq::<u8>::empty());
        assert(spec_dec_value(Seq::<u8>::empty()) == 0);
    } else {
        lemma_dec_digits_value(n / 10);
        let h = spec_dec_digits(n / 10);
        let d = spec_dec_digits(n);
        assert(d.drop_last() =~= h);
        assert(d.last() == (48 + n % 10) as u8);
        assert(spec_dec_value(d) == (n / 10) * 10 + n % 10);
        assert(forall|i: int| 0 <= i < d.len() ==> 48 <= #[trigger] d[i] <= 57) by {
            assert(forall|i: int| 0 <= i < h.len() ==> d[i] == h[i]);
        }
    }
}

proof fn lemma_dec_value_step(b: Seq<u8>, i: int)
    requires
        0 <= i < b.len(),
    ensures
        spec_dec_value(b.subrange(0, i + 1)) == spec_dec_value(b.subrange(0, i)) * 10 + (b[i]
            - 48) as nat,
{
    let s = b.subrange(0, i + 1);
    assert(s.drop_last() =~= b.subrange(0, i));
    assert(s.last() == b[i]);
}

proof fn lemma_dec_value_mono(b: Seq<u8>, i: int, j: int)
    requires
        0 <= i <= j <= b.len(),
    ensures
        spec_dec_value(b.subrange(0, i)) <= spec_dec_value(b.subrange(0, j)),
    decreases j - i,
{
    if i < j {
        lemma_dec_value_mono(b, i, j - 1);
        lemma_dec_value_step(b, j - 1);
    }
}

/// Read the value of a run of ASCII digits; fails on a non-digit or on a
/// value past `u64::MAX`.
pub fn parse_dec(b: &[u8]) -> (r: Option<u64>)
    ensures
        match r {
            Some(v) => spec_is_digits(b@) && spec_dec_value(b@) == v as nat,
            None => !(spec_is_digits(b@) && spec_dec_value(b@) <= 0xffff_ffff_ffff_ffff),
        },
{
    if b.len() == 0 {
        return None;
    }
    let mut acc: u64 = 0;
    let mut i: usize = 0;
    while i < b.len()
        invariant
            0 <= i <= b@.len(),
            b@.len() >= 1,
            forall|j: int| 0 <= j < i ==> 48 <= #[trigger] b@[j] <= 57,
            acc as nat == spec_dec_value(b@.subrange(0, i as int)),
        decreases b@.len() - i,
    {
        let c = *slice_index_get(b, i);
        if c < 48 || c > 57 {
            proof {
                assert(!(48 <= b@[i as int] <= 57));
            }
            return None;
        }
        let d = (c - 48) as u64;
        proof {
            lemma_dec_value_step(b@, i as int);
        }
        if acc > (0xffff_ffff_ffff_ffffu64 - d) / 10 {
            proof {
                let m: int = 0xffff_ffff_ffff_ffff;
                assert(acc as int * 10 + d as int > m) by (nonlinear_arith)
                    requires
                        acc as int > (m - d as int) / 10,
                        0 <= d as int <= 9,
                        0 <= acc as int,
                ;
                lemma_dec_value_mono(b@, i as int + 1, b@.len() as int);
                assert(b@.subrange(0, b@.len() as int) =~= b@);
            }
            return None;
        }
        proof {
            let m: int = 0xffff_ffff_ffff_ffff;
            assert(acc as int * 10 + d as int <= m) by (nonlinear_arith)
                requires
                    acc as int <= (m - d as int) / 10,
                    0 <= d as int <= 9,
                    0 <= acc as int,
            ;
        }
        acc = acc * 10 + d;
        i = i + 1;
    }
    proof {
        assert(b@.subrange(0, b@.len() as int) =~= b@);
    }
    Some(acc)
}

/// Append the decimal digits of `n`.
pub fn write_dec(out: &mut Vec<u8>, n: u64)
    ensures
        final(out)@ == old(out)@ + spec_dec_digits(n as nat),
    decreases n,
{
    if n < 10 {
        out.push(48 + n as u8);
        proof {
            assert(old(out)@.push((48 + n as nat) as u8) =~= old(out)@ + spec_dec_digits(n as nat));
        }
    } else {
        write_dec(out, n / 10);
        out.push(48 + (n % 10) as u8);
        proof {
            assert((old(out)@ + spec_dec_digits((n / 10) as nat)).push((48 + (n % 10) as nat) as u8)
                =~= old(out)@ + spec_dec_digits(n as nat));
        }
    }
}

// --- typed entry points ---
/// The wire bytes of a string value.
pub open spec fn spec_json_str(s: Seq<char>) -> Seq<u8> {
    spec_quote(encode_utf8(s))
}

/// What a byte string parses to as a string value: the quoted payload must
/// span the whole input and be valid UTF-8.
pub open spec fn spec_parse_json_str(b: Seq<u8>) -> Option<Seq<char>> {
    match spec_take_quoted(b, 0) {
        Some(vp) => if vp.1 == b.len() && valid_utf8(vp.0) {
            Some(decode_utf8(vp.0))
        } else {
            None
        },
        None => None,
    }
}

/// The wire bytes of an `i32` value.
pub open spec fn spec_i32_digits(v: i32) -> Seq<u8> {
    if v >= 0 {
        spec_dec_digits(v as nat)
    } else {
        seq![45u8] + spec_dec_digits((-(v as int)) as nat)
    }
}

/// What a byte string parses to as an `i32` value.
pub open spec fn spec_parse_i32(b: Seq<u8>) -> Option<i32> {
    if b.len() >= 1 && b[0] == 45 {
        let rest = b.drop_first();
        if spec_is_digits(rest) && spec_dec_value(rest) <= 0x8000_0000 {
            Some((-(spec_dec_value(rest) as int)) as i32)
        } else {
            None
        }
    } else if spec_is_digits(b) && spec_dec_value(b) <= 0x7fff_ffff {
        Some(spec_dec_value(b) as i32)
    } else {
        None
    }
}

/// Relies on `String::from_utf8`: it succeeds exactly on valid UTF-8 and
/// returns the string whose UTF-8 encoding is the input.
#[verifier::external_body]
pub(crate) fn bytes_to_string(v: Vec<u8>) -> (r: Option<String>)
    ensures
        r is Some <==> valid_utf8(v@),
        r matches Some(s) ==> s@ == decode_utf8(v@),
{
    match String::from_utf8(v) {
        Ok(s) => Some(s),
        Err(_) => None,
    }
}

impl SerializeCtx {
    /// A fresh codec context.
    pub fn new() -> (r: Self) {
        SerializeCtx
    }

    /// Encode a string value.
    pub fn serialize_str(&self, value: &str) -> (r: Result<Vec<u8>, RpcError>)
        ensures
            r matches Ok(v) && v@ == spec_json_str(value@),
    {
        let mut out: Vec<u8> = Vec::new();
        write_quoted(&mut out, value.as_bytes());
        Ok(out)
    }

    /// Decode a string value; the input must be exactly one encoded string.
    pub fn deserialize_str(&self, bytes: &[u8]) -> (r: Result<String, RpcError>)
        ensures
            match spec_parse_json_str(bytes@) {
                Some(s) => r matches Ok(v) && v@ == s,
                None => r matches Err(e) && e@ == RpcErrorV::SerializationFailed,
            },
    {
        let mut pos: usize = 0;
        match read_quoted(bytes, &mut pos) {
            Some(data) => {
                if pos == bytes.len() {
                    match bytes_to_string(data) {
                        Some(s) => Ok(s),
                        None => Err(RpcError::SerializationFailed),
                    }
                } else {
                    Err(RpcError::SerializationFailed)
                }
            },
            None => Err(RpcError::SerializationFailed),
        }
    }

    /// Encode an `i32` value.
    pub fn serialize_i32(&self, value: i32) -> (r: Result<Vec<u8>, RpcError>)
        ensures
            r matches Ok(v) && v@ == spec_i32_digits(value),
    {
        let mut out: Vec<u8> = Vec::new();
        if value < 0 {
            out.push(45);
            let m: u64 = (-(value as i64)) as u64;
            write_dec(&mut out, m);
            proof {
                assert(seq![45u8] + spec_dec_digits(m as nat) =~= spec_i32_digits(value));
            }
        } else {
            write_dec(&mut out, value as u64);
        }
        Ok(out)
    }

    /// Decode an `i32` value; the input must be exactly one encoded integer.
    pub fn deserialize_i32(&self, bytes: &[u8]) -> (r: Result<i32, RpcError>)
        ensures
            match spec_parse_i32(bytes@) {
                Some(v) => r matches Ok(x) && x == v,
                None => r matches Err(e) && e@ == RpcErrorV::SerializationFailed,
            },
    {
        if bytes.len() >= 1 && *slice_index_get(bytes, 0) == 45 {
            let rest = slice_subrange(bytes, 1, bytes.len());
            proof {
                assert(rest@ =~= bytes@.drop_first());
            }
            match parse_dec(rest) {
                Some(v) => {
                    if v <= 0x8000_0000 {
                        Ok((-(v as i64)) as i32)
                    } else {
                        Err(RpcError::SerializationFailed)
                    }
                },
                None => Err(RpcError::SerializationFailed),
            }
        } else {
            match parse_dec(bytes) {
                Some(v) => {
                    if v <= 0x7fff_ffff {
                        Ok(v as i32)
                    } else {
                        Err(RpcError::SerializationFailed)
                    }
                },
                None => Err(RpcError::SerializationFailed),
            }
        }
    }
}

/// Round trip of the string codec: decoding an encoded string gives back
/// exactly the original character sequence.
pub proof fn lemma_str_round_trip(s: Seq<char>)
    ensures
        spec_parse_json_str(spec_json_str(s)) == Some(s),
{
    broadcast use encode_utf8_valid_utf8;
    broadcast use encode_utf8_decode_utf8;

    let data = encode_utf8(s);
    lemma_take_quoted_of_encoded(Seq::<u8>::empty(), data, Seq::<u8>::empty());
    assert(Seq::<u8>::empty() + spec_quote(data) + Seq::<u8>::empty() =~= spec_json_str(s));
}

/// Round trip of the integer codec.
pub proof fn lemma_i32_round_trip(v: i32)
    ensures
        spec_parse_i32(spec_i32_digits(v)) == Some(v),
{
    if v >= 0 {
        lemma_dec_digits_value(v as nat);
        let b = spec_i32_digits(v);
        assert(48 <= b[0] <= 57);
    } else {
        let n = (-(v as int)) as nat;
        lemma_dec_digits_value(n);
        let b = spec_i32_digits(v);
        assert(b[0] == 45);
        assert(b.drop_first() =~= spec_dec_digits(n));
    }
}

} // verus!
