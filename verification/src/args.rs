//! Packing and unpacking of call arguments: an ordered sequence of
//! independently encoded buffers, framed as one byte string.

use vstd::prelude::*;

verus! {

use crate::codec::lemma_cat_lp_push;
use crate::codec::lemma_take_bufs_of_encoded;
use crate::codec::lemma_take_u64_of_encoded;
use vstd::bytes::lemma_auto_spec_u64_to_from_le_bytes;
use crate::codec::read_lp;
use crate::codec::read_u64;
use crate::codec::spec_cat_lp;
use crate::codec::spec_encode_bufs;
use crate::codec::spec_take_bufs;
use crate::codec::spec_take_u64;
use crate::codec::wf_bufs;
use crate::codec::write_lp;
use crate::codec::write_u64;
use crate::errors::RpcError;
use crate::errors::RpcErrorV;
use crate::serialize::spec_i32_digits;
use crate::serialize::spec_json_str;
use crate::serialize::spec_parse_i32;
use crate::serialize::spec_parse_json_str;
use crate::serialize::SerializeCtx;
use vstd::bytes::spec_u64_to_le_bytes;

/// The views of a vector of byte buffers.
pub open spec fn bufs_view(v: Seq<Vec<u8>>) -> Seq<Seq<u8>> {
    Seq::new(v.len(), |i: int| v[i]@)
}

/// Accumulates the encoded buffers of the arguments of one call and emits
/// the packed byte string.
pub struct ArgsBuilder<'a> {
    ctx: &'a SerializeCtx,
    bufs: Vec<Vec<u8>>,
}

impl<'a> View for ArgsBuilder<'a> {
    type V = Seq<Seq<u8>>;

    closed spec fn view(&self) -> Seq<Seq<u8>> {
        bufs_view(self.bufs@)
    }
}

impl<'a> ArgsBuilder<'a> {
    /// An empty builder over the given codec context.
    pub fn new(ctx: &'a SerializeCtx) -> (r: Self)
        ensures
            r@ == Seq::<Seq<u8>>::empty(),
    {
        let r = ArgsBuilder { ctx, bufs: Vec::new() };
        proof {
            assert(r@ =~= Seq::<Seq<u8>>::empty());
        }
        r
    }

    /// Append one string argument.
    pub fn push_str(&mut self, value: &str)
        ensures
            final(self)@ == old(self)@.push(spec_json_str(value@)),
    {
        match self.ctx.serialize_str(value) {
            Ok(b) => {
                self.bufs.push(b);
                proof {
                    assert(final(self)@ =~= old(self)@.push(spec_json_str(value@)));
                }
            },
            Err(_) => {},
        }
    }

    /// Append one `i32` argument.
    pub fn push_i32(&mut self, value: i32)
        ensures
            final(self)@ == old(self)@.push(spec_i32_digits(value)),
    {
        match self.ctx.serialize_i32(value) {
            Ok(b) => {
                self.bufs.push(b);
                proof {
                    assert(final(self)@ =~= old(self)@.push(spec_i32_digits(value)));
                }
            },
            Err(_) => {},
        }
    }

    /// Emit the packed argument byte string.
    pub fn build(&self) -> (r: Result<Vec<u8>, RpcError>)
        ensures
            r matches Ok(v) && v@ == spec_encode_bufs(self@),
    {
        let mut out: Vec<u8> = Vec::new();
        let n = self.bufs.len();
        write_u64(&mut out, n as u64);
        let mut i: usize = 0;
        while i < n
            invariant
                i <= n,
                n == self.bufs@.len(),
                out@ == spec_u64_to_le_bytes(n as u64) + spec_cat_lp(self@.subrange(0, i as int)),
            decreases n - i,
        {
            write_lp(&mut out, self.bufs[i].as_slice());
            proof {
                let pref = self@.subrange(0, i as int);
                lemma_cat_lp_push(pref, self@[i as int]);
                assert(pref.push(self@[i as int]) =~= self@.subrange(0, i as int + 1));
            }
            i = i + 1;
        }
        proof {
            assert(self@.subrange(0, n as int) =~= self@);
        }
        Ok(out)
    }
}

/// What a packed argument byte string parses to: the count, then that many
/// length-prefixed buffers, spanning the whole input.
pub open spec fn spec_parse_args(b: Seq<u8>) -> Option<Seq<Seq<u8>>> {
    match spec_take_u64(b, 0) {
        Some(np) => match spec_take_bufs(b, np.1, np.0 as nat) {
            Some(rp) => if rp.1 == b.len() {
                Some(rp.0)
            } else {
                None
            },
            None => None,
        },
        None => None,
    }
}

/// A decoded set of packed arguments, offering index-typed accessors.
pub struct Args {
    bufs: Vec<Vec<u8>>,
}

impl View for Args {
    type V = Seq<Seq<u8>>;

    closed spec fn view(&self) -> Seq<Seq<u8>> {
        bufs_view(self.bufs@)
    }
}

impl Args {
    /// Decode a packed argument byte string.
    pub fn from_bytes(bytes: &[u8]) -> (r: Result<Args, RpcError>)
        ensures
            match spec_parse_args(bytes@) {
                Some(bufs) => r matches Ok(a) && a@ == bufs,
                None => r matches Err(e) && e@ == RpcErrorV::SerializationFailed,
            },
    {
        let mut pos: usize = 0;
        let n = match read_u64(bytes, &mut pos) {
            Some(n) => n,
            None => {
                return Err(RpcError::SerializationFailed);
            },
        };
        let ghost p0 = pos as int;
        let mut acc: Vec<Vec<u8>> = Vec::new();
        let mut i: u64 = 0;
        proof {
            assert(bufs_view(acc@) =~= Seq::<Seq<u8>>::empty());
        }
        while i < n
            invariant
                i <= n,
                bufs_view(acc@).len() == i as nat,
                pos <= bytes@.len(),
                spec_take_u64(bytes@, 0) == Some((n, p0)),
                match spec_take_bufs(bytes@, pos as int, (n - i) as nat) {
                    Some(rp) => spec_take_bufs(bytes@, p0, n as nat) == Some(
                        (bufs_view(acc@) + rp.0, rp.1),
                    ),
                    None => spec_take_bufs(bytes@, p0, n as nat) is None,
                },
            decreases n - i,
        {
            match read_lp(bytes, &mut pos) {
                Some(v) => {
                    proof {
                        match spec_take_bufs(bytes@, pos as int, (n - i - 1) as nat) {
                            Some(rp) => {
                                assert(bufs_view(acc@.push(v)) + rp.0 =~= bufs_view(acc@) + (
                                seq![v@] + rp.0));
                            },
                            None => {},
                        }
                    }
                    acc.push(v);
                    proof {
                        assert(bufs_view(acc@) =~= bufs_view(acc@.drop_last()).push(
                            acc@.last()@,
                        ));
                    }
                },
                None => {
                    return Err(RpcError::SerializationFailed);
                },
            }
            i = i + 1;
        }
        if pos == bytes.len() {
            proof {
                assert(spec_take_bufs(bytes@, pos as int, 0) == Some(
                    (Seq::<Seq<u8>>::empty(), pos as int),
                ));
                assert(bufs_view(acc@) + Seq::<Seq<u8>>::empty() =~= bufs_view(acc@));
            }
            Ok(Args { bufs: acc })
        } else {
            Err(RpcError::SerializationFailed)
        }
    }

    /// The number of packed arguments.
    pub fn len(&self) -> (r: usize)
        ensures
            r == self@.len(),
    {
        self.bufs.len()
    }

    /// Decode the `index`-th argument as a string; an out-of-range index is
    /// an error, not a panic.
    pub fn get_str(&self, ctx: &SerializeCtx, index: usize) -> (r: Result<String, RpcError>)
        ensures
            index < self@.len() ==> match spec_parse_json_str(self@[index as int]) {
                Some(s) => r matches Ok(v) && v@ == s,
                None => r matches Err(e) && e@ == RpcErrorV::SerializationFailed,
            },
            index >= self@.len() ==> (r matches Err(e) && e@ == RpcErrorV::SerializationFailed),
    {
        if index < self.bufs.len() {
            ctx.deserialize_str(self.bufs[index].as_slice())
        } else {
            Err(RpcError::SerializationFailed)
        }
    }

    /// Decode the `index`-th argument as an `i32`; an out-of-range index is
    /// an error, not a panic.
    pub fn get_i32(&self, ctx: &SerializeCtx, index: usize) -> (r: Result<i32, RpcError>)
        ensures
            index < self@.len() ==> match spec_parse_i32(self@[index as int]) {
                Some(v) => r matches Ok(x) && x == v,
                None => r matches Err(e) && e@ == RpcErrorV::SerializationFailed,
            },
            index >= self@.len() ==> (r matches Err(e) && e@ == RpcErrorV::SerializationFailed),
    {
        if index < self.bufs.len() {
            ctx.deserialize_i32(self.bufs[index].as_slice())
        } else {
            Err(RpcError::SerializationFailed)
        }
    }
}

/// Round trip of the argument packer: parsing a packed byte string gives
/// back exactly the packed buffers, in order.
pub proof fn lemma_args_round_trip(bufs: Seq<Seq<u8>>)
    requires
        wf_bufs(bufs),
    ensures
        spec_parse_args(spec_encode_bufs(bufs)) == Some(bufs),
{
    lemma_auto_spec_u64_to_from_le_bytes();
    let b = spec_encode_bufs(bufs);
    assert(b =~= Seq::<u8>::empty() + spec_u64_to_le_bytes(bufs.len() as u64) + spec_cat_lp(bufs));
    lemma_take_u64_of_encoded(Seq::<u8>::empty(), bufs.len() as u64, spec_cat_lp(bufs));
    let pre = spec_u64_to_le_bytes(bufs.len() as u64);
    assert(b =~= pre + spec_cat_lp(bufs) + Seq::<u8>::empty());
    lemma_take_bufs_of_encoded(pre, bufs, Seq::<u8>::empty());
}

/// The packer round trip on typed string values: packing a sequence of
/// strings and unpacking gives, at each index, exactly the original
/// string, provided each encoded value fits its length prefix.
pub proof fn lemma_args_get_str(vals: Seq<Seq<char>>, i: int)
    requires
        0 <= i < vals.len(),
        vals.len() <= 0xffff_ffff_ffff_ffff,
        forall|j: int|
            0 <= j < vals.len() ==> (#[trigger] spec_json_str(vals[j])).len()
                <= 0xffff_ffff_ffff_ffff,
    ensures
        spec_parse_args(spec_encode_bufs(Seq::new(vals.len(), |j: int| spec_json_str(vals[j]))))
            == Some(Seq::new(vals.len(), |j: int| spec_json_str(vals[j]))),
        spec_parse_json_str(Seq::new(vals.len(), |j: int| spec_json_str(vals[j]))[i]) == Some(
            vals[i],
        ),
{
    let bufs = Seq::new(vals.len(), |j: int| spec_json_str(vals[j]));
    lemma_args_round_trip(bufs);
    crate::serialize::lemma_str_round_trip(vals[i]);
}

} // verus!
