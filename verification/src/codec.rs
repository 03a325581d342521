//! The token record codec.
//!
//! The store persists a `BuilderIdToken` as one opaque byte record:
//! length-prefixed fields with 64-bit big-endian prefixes, a one-byte
//! presence tag for the optional refresh token, and a counted list for the
//! scopes. Decoding is strict — a record with trailing or missing bytes is
//! corrupt, never silently truncated — and decoding is proved to invert
//! encoding exactly, so a saved token always loads back equal in all fields.

use vstd::prelude::*;

use crate::token::BuilderIdToken;
use crate::token::TokenView;

verus! {

/// A view is encodable when every field fits its 64-bit length prefix.
/// Every token built from in-memory vectors satisfies this.
pub open spec fn spec_token_wf(v: TokenView) -> bool {
    &&& v.access_token.len() <= u64::MAX
    &&& match v.refresh_token {
        Option::Some(rt) => rt.len() <= u64::MAX,
        Option::None => true,
    }
    &&& v.region.len() <= u64::MAX
    &&& v.start_url.len() <= u64::MAX
    &&& v.scopes.len() <= u64::MAX
    &&& forall|i: int| 0 <= i < v.scopes.len() ==> #[trigger] v.scopes[i].len() <= u64::MAX
}

/// The eight big-endian bytes of a 64-bit number.
pub open spec fn enc_u64(x: u64) -> Seq<u8> {
    seq![
        (x >> 56) as u8,
        (x >> 48) as u8,
        (x >> 40) as u8,
        (x >> 32) as u8,
        (x >> 24) as u8,
        (x >> 16) as u8,
        (x >> 8) as u8,
        x as u8,
    ]
}

/// The number read back from eight big-endian bytes at the head of `s`.
pub open spec fn dec_u64_at(s: Seq<u8>) -> u64
    recommends
        s.len() >= 8,
{
    ((s[0] as u64) << 56) | ((s[1] as u64) << 48) | ((s[2] as u64) << 40) | ((s[3] as u64) << 32)
        | ((s[4] as u64) << 24) | ((s[5] as u64) << 16) | ((s[6] as u64) << 8) | (s[7] as u64)
}

/// A byte field: its length, then its bytes.
pub open spec fn enc_bytes(b: Seq<u8>) -> Seq<u8> {
    enc_u64(b.len() as u64) + b
}

/// An optional byte field: a presence tag, then the field when present.
pub open spec fn enc_opt_bytes(o: Option<Seq<u8>>) -> Seq<u8> {
    match o {
        Option::None => seq![0u8],
        Option::Some(b) => seq![1u8] + enc_bytes(b),
    }
}

/// A list of byte fields, one after the other.
pub open spec fn enc_list(bs: Seq<Seq<u8>>) -> Seq<u8>
    decreases bs.len(),
{
    if bs.len() == 0 {
        Seq::empty()
    } else {
        enc_bytes(bs[0]) + enc_list(bs.skip(1))
    }
}

/// The whole record: access token, refresh token, expiry, region, start
/// URL, then the counted scopes.
pub open spec fn spec_encode(v: TokenView) -> Seq<u8> {
    enc_bytes(v.access_token) + enc_opt_bytes(v.refresh_token) + enc_u64(v.expires_at_epoch_s)
        + enc_bytes(v.region) + enc_bytes(v.start_url) + enc_u64(v.scopes.len() as u64)
        + enc_list(v.scopes)
}

/// Read a 64-bit number off the head of `s`; what remains follows.
pub open spec fn p_u64(s: Seq<u8>) -> Option<(u64, Seq<u8>)> {
    if s.len() >= 8 {
        Option::Some((dec_u64_at(s), s.skip(8)))
    } else {
        Option::None
    }
}

/// Read a length-prefixed byte field off the head of `s`.
pub open spec fn p_bytes(s: Seq<u8>) -> Option<(Seq<u8>, Seq<u8>)> {
    match p_u64(s) {
        Option::None => Option::None,
        Option::Some((n, rest)) => {
            if n <= rest.len() {
                Option::Some((rest.take(n as int), rest.skip(n as int)))
            } else {
                Option::None
            }
        },
    }
}

/// Read a tagged optional byte field off the head of `s`.
pub open spec fn p_opt_bytes(s: Seq<u8>) -> Option<(Option<Seq<u8>>, Seq<u8>)> {
    if s.len() < 1 {
        Option::None
    } else if s[0] == 0 {
        Option::Some((Option::None, s.skip(1)))
    } else if s[0] == 1 {
        match p_bytes(s.skip(1)) {
            Option::None => Option::None,
            Option::Some((b, rest)) => Option::Some((Option::Some(b), rest)),
        }
    } else {
        Option::None
    }
}

/// Read exactly `n` byte fields off the head of `s`.
pub open spec fn p_list(s: Seq<u8>, n: nat) -> Option<(Seq<Seq<u8>>, Seq<u8>)>
    decreases n,
{
    if n == 0 {
        Option::Some((Seq::empty(), s))
    } else {
        match p_bytes(s) {
            Option::None => Option::None,
            Option::Some((b, rest)) => {
                match p_list(rest, (n - 1) as nat) {
                    Option::None => Option::None,
                    Option::Some((bs, rest2)) => Option::Some((seq![b] + bs, rest2)),
                }
            },
        }
    }
}

/// The strict record decoder: every field in order, and nothing after.
pub open spec fn spec_decode(s: Seq<u8>) -> Option<TokenView> {
    match p_bytes(s) {
        Option::None => Option::None,
        Option::Some((access_token, s)) => match p_opt_bytes(s) {
            Option::None => Option::None,
            Option::Some((refresh_token, s)) => match p_u64(s) {
                Option::None => Option::None,
                Option::Some((expires_at_epoch_s, s)) => match p_bytes(s) {
                    Option::None => Option::None,
                    Option::Some((region, s)) => match p_bytes(s) {
                        Option::None => Option::None,
                        Option::Some((start_url, s)) => match p_u64(s) {
                            Option::None => Option::None,
                            Option::Some((count, s)) => match p_list(s, count as nat) {
                                Option::None => Option::None,
                                Option::Some((scopes, s)) => {
                                    if s.len() == 0 {
                                        Option::Some(TokenView {
                                            access_token,
                                            refresh_token,
                                            expires_at_epoch_s,
                                            region,
                                            start_url,
                                            scopes,
                                        })
                                    } else {
                                        Option::None
                                    }
                                },
                            },
                        },
                    },
                },
            },
        },
    }
}

/// Reading a 64-bit number off its own encoding yields the number back and
/// leaves exactly what followed it.
pub proof fn lemma_p_u64(x: u64, rest: Seq<u8>)
    ensures
        p_u64(enc_u64(x) + rest) == Option::Some((x, rest)),
{
    let s = enc_u64(x) + rest;
    assert(s.len() >= 8);
    assert(s[0] == (x >> 56) as u8);
    assert(s[1] == (x >> 48) as u8);
    assert(s[2] == (x >> 40) as u8);
    assert(s[3] == (x >> 32) as u8);
    assert(s[4] == (x >> 24) as u8);
    assert(s[5] == (x >> 16) as u8);
    assert(s[6] == (x >> 8) as u8);
    assert(s[7] == x as u8);
    assert((((x >> 56) as u8) as u64) << 56 | (((x >> 48) as u8) as u64) << 48
        | (((x >> 40) as u8) as u64) << 40 | (((x >> 32) as u8) as u64) << 32
        | (((x >> 24) as u8) as u64) << 24 | (((x >> 16) as u8) as u64) << 16
        | (((x >> 8) as u8) as u64) << 8 | ((x as u8) as u64) == x) by (bit_vector);
    assert(dec_u64_at(s) == x);
    assert(s.skip(8) =~= rest);
}

/// Reading a byte field off its own encoding yields the field back.
pub proof fn lemma_p_bytes(b: Seq<u8>, rest: Seq<u8>)
    requires
        b.len() <= u64::MAX,
    ensures
        p_bytes(enc_bytes(b) + rest) == Option::Some((b, rest)),
{
    let n = b.len() as u64;
    assert(enc_bytes(b) + rest =~= enc_u64(n) + (b + rest));
    lemma_p_u64(n, b + rest);
    assert((b + rest).take(n as int) =~= b);
    assert((b + rest).skip(n as int) =~= rest);
}

/// Reading an optional byte field off its own encoding yields it back.
pub proof fn lemma_p_opt_bytes(o: Option<Seq<u8>>, rest: Seq<u8>)
    requires
        match o {
            Option::Some(b) => b.len() <= u64::MAX,
            Option::None => true,
        },
    ensures
        p_opt_bytes(enc_opt_bytes(o) + rest) == Option::Some((o, rest)),
{
    match o {
        Option::None => {
            assert((enc_opt_bytes(o) + rest).skip(1) =~= rest);
        },
        Option::Some(b) => {
            let s = enc_opt_bytes(o) + rest;
            assert(s[0] == 1);
            assert(s.skip(1) =~= enc_bytes(b) + rest);
            lemma_p_bytes(b, rest);
        },
    }
}

/// Reading a counted list off its own encoding yields every element back,
/// in order.
pub proof fn lemma_p_list(bs: Seq<Seq<u8>>, rest: Seq<u8>)
    requires
        forall|i: int| 0 <= i < bs.len() ==> #[trigger] bs[i].len() <= u64::MAX,
    ensures
        p_list(enc_list(bs) + rest, bs.len()) == Option::Some((bs, rest)),
    decreases bs.len(),
{
    if bs.len() == 0 {
        assert(enc_list(bs) + rest =~= rest);
    } else {
        let tail = bs.skip(1);
        assert(enc_list(bs) + rest =~= enc_bytes(bs[0]) + (enc_list(tail) + rest));
        lemma_p_bytes(bs[0], enc_list(tail) + rest);
        assert(forall|i: int| 0 <= i < tail.len() ==> #[trigger] tail[i].len() <= u64::MAX);
        lemma_p_list(tail, rest);
        assert(seq![bs[0]] + tail =~= bs);
    }
}

/// The record round trip: decoding an encoded token yields the very same
/// token, in all fields.
#[verifier::rlimit(50)]
pub proof fn lemma_record_round_trip(v: TokenView)
    requires
        spec_token_wf(v),
    ensures
        spec_decode(spec_encode(v)) == Option::Some(v),
{
    let count = v.scopes.len() as u64;
    let s6 = enc_list(v.scopes);
    let s5 = enc_u64(count) + s6;
    let s4 = enc_bytes(v.start_url) + s5;
    let s3 = enc_bytes(v.region) + s4;
    let s2 = enc_u64(v.expires_at_epoch_s) + s3;
    let s1 = enc_opt_bytes(v.refresh_token) + s2;
    let s0 = spec_encode(v);
    assert(s0 =~= enc_bytes(v.access_token) + s1);
    lemma_p_bytes(v.access_token, s1);
    assert(p_bytes(s0) == Option::Some((v.access_token, s1)));
    lemma_p_opt_bytes(v.refresh_token, s2);
    assert(p_opt_bytes(s1) == Option::Some((v.refresh_token, s2)));
    lemma_p_u64(v.expires_at_epoch_s, s3);
    assert(p_u64(s2) == Option::Some((v.expires_at_epoch_s, s3)));
    lemma_p_bytes(v.region, s4);
    assert(p_bytes(s3) == Option::Some((v.region, s4)));
    lemma_p_bytes(v.start_url, s5);
    assert(p_bytes(s4) == Option::Some((v.start_url, s5)));
    lemma_p_u64(count, s6);
    assert(p_u64(s5) == Option::Some((count, s6)));
    lemma_p_list(v.scopes, Seq::empty());
    assert(s6 + Seq::<u8>::empty() =~= s6);
    assert(p_list(s6, count as nat) == Option::Some((v.scopes, Seq::<u8>::empty())));
    assert(spec_decode(s0) == Option::Some(v));
}

/// Appending one more element to a list encoding appends its field encoding.
pub proof fn lemma_enc_list_push(bs: Seq<Seq<u8>>, x: Seq<u8>)
    ensures
        enc_list(bs.push(x)) == enc_list(bs) + enc_bytes(x),
    decreases bs.len(),
{
    assert(bs.push(x).len() == bs.len() + 1);
    if bs.len() == 0 {
        assert(bs.push(x)[0] == x);
        assert(bs.push(x).skip(1) =~= Seq::<Seq<u8>>::empty());
        assert(enc_list(bs.push(x)) == enc_bytes(x) + enc_list(Seq::<Seq<u8>>::empty()));
        assert(enc_list(bs.push(x)) =~= enc_list(bs) + enc_bytes(x));
    } else {
        assert(bs.push(x)[0] == bs[0]);
        assert(bs.push(x).skip(1) =~= bs.skip(1).push(x));
        assert(enc_list(bs.push(x)) == enc_bytes(bs[0]) + enc_list(bs.skip(1).push(x)));
        lemma_enc_list_push(bs.skip(1), x);
        assert(enc_list(bs.push(x)) =~= enc_list(bs) + enc_bytes(x));
    }
}

/// Append the eight big-endian bytes of `x`.
fn push_u64(out: &mut Vec<u8>, x: u64)
    ensures
        final(out)@ == old(out)@ + enc_u64(x),
{
    out.push(#[verifier::truncate] ((x >> 56) as u8));
    out.push(#[verifier::truncate] ((x >> 48) as u8));
    out.push(#[verifier::truncate] ((x >> 40) as u8));
    out.push(#[verifier::truncate] ((x >> 32) as u8));
    out.push(#[verifier::truncate] ((x >> 24) as u8));
    out.push(#[verifier::truncate] ((x >> 16) as u8));
    out.push(#[verifier::truncate] ((x >> 8) as u8));
    out.push(#[verifier::truncate] (x as u8));
    proof {
        assert(out@ =~= old(out)@ + enc_u64(x));
    }
}

/// Append a length-prefixed byte field.
fn push_bytes_field(out: &mut Vec<u8>, b: &Vec<u8>)
    ensures
        final(out)@ == old(out)@ + enc_bytes(b@),
{
    let n = b.len();
    push_u64(out, n as u64);
    let ghost mid = out@;
    let mut i: usize = 0;
    while i < n
        invariant
            i <= n,
            n == b@.len(),
            out@ == mid + b@.take(i as int),
        decreases n - i,
    {
        out.push(b[i]);
        proof {
            assert(mid + b@.take(i as int) + seq![b@[i as int]] =~= mid + b@.take(i + 1));
        }
        i += 1;
    }
    proof {
        assert(b@.take(n as int) =~= b@);
        assert(out@ =~= old(out)@ + enc_bytes(b@));
    }
}

/// Encode a token as one record, exactly as `spec_encode` lays it out.
pub fn encode_token(t: &BuilderIdToken) -> (r: Vec<u8>)
    ensures
        r@ == spec_encode(t@),
{
    let mut out: Vec<u8> = Vec::new();
    push_bytes_field(&mut out, &t.access_token);
    match &t.refresh_token {
        Option::None => {
            out.push(0);
        },
        Option::Some(rt) => {
            out.push(1);
            push_bytes_field(&mut out, rt);
        },
    }
    proof {
        assert(out@ =~= enc_bytes(t@.access_token) + enc_opt_bytes(t@.refresh_token));
    }
    push_u64(&mut out, t.expires_at_epoch_s);
    push_bytes_field(&mut out, &t.region);
    push_bytes_field(&mut out, &t.start_url);
    let count = t.scopes.len();
    push_u64(&mut out, count as u64);
    let ghost head = out@;
    let mut i: usize = 0;
    while i < count
        invariant
            i <= count,
            count == t.scopes@.len(),
            t@.scopes == t.scopes.deep_view(),
            out@ == head + enc_list(t.scopes.deep_view().take(i as int)),
        decreases count - i,
    {
        proof {
            assert(t.scopes.deep_view().take(i as int).push(t.scopes.deep_view()[i as int])
                =~= t.scopes.deep_view().take(i + 1));
            lemma_enc_list_push(t.scopes.deep_view().take(i as int), t.scopes.deep_view()[i as int]);
            assert(t.scopes.deep_view()[i as int] == t.scopes@[i as int]@);
        }
        push_bytes_field(&mut out, &t.scopes[i]);
        i += 1;
    }
    proof {
        assert(t.scopes.deep_view().take(count as int) =~= t.scopes.deep_view());
        assert(out@ =~= spec_encode(t@));
    }
    out
}

/// Read a 64-bit number at `pos`, mirroring `p_u64` on the remainder.
fn read_u64(data: &Vec<u8>, pos: usize) -> (r: Option<(u64, usize)>)
    requires
        pos <= data@.len(),
    ensures
        match r {
            Option::Some((x, p2)) => {
                &&& p2 <= data@.len()
                &&& p_u64(data@.skip(pos as int)) == Option::Some((x, data@.skip(p2 as int)))
            },
            Option::None => p_u64(data@.skip(pos as int)) is None,
        },
{
    if data.len() - pos >= 8 {
        let x = ((data[pos] as u64) << 56) | ((data[pos + 1] as u64) << 48)
            | ((data[pos + 2] as u64) << 40) | ((data[pos + 3] as u64) << 32)
            | ((data[pos + 4] as u64) << 24) | ((data[pos + 5] as u64) << 16)
            | ((data[pos + 6] as u64) << 8) | (data[pos + 7] as u64);
        proof {
            assert(dec_u64_at(data@.skip(pos as int)) == x);
            assert(data@.skip(pos as int).skip(8) =~= data@.skip(pos as int + 8));
        }
        Option::Some((x, pos + 8))
    } else {
        Option::None
    }
}

/// Read a length-prefixed byte field at `pos`, mirroring `p_bytes`.
fn read_bytes(data: &Vec<u8>, pos: usize) -> (r: Option<(Vec<u8>, usize)>)
    requires
        pos <= data@.len(),
    ensures
        match r {
            Option::Some((b, p2)) => {
                &&& p2 <= data@.len()
                &&& p_bytes(data@.skip(pos as int)) == Option::Some((b@, data@.skip(p2 as int)))
            },
            Option::None => p_bytes(data@.skip(pos as int)) is None,
        },
{
    let (n, p) = match read_u64(data, pos) {
        Option::None => {
            return Option::None;
        },
        Option::Some(v) => v,
    };
    if n > (data.len() - p) as u64 {
        proof {
            assert(data@.skip(p as int).len() == data@.len() - p);
        }
        return Option::None;
    }
    let len = n as usize;
    let n_data = data.len();
    let mut b: Vec<u8> = Vec::new();
    let mut i: usize = 0;
    while i < len
        invariant
            i <= len,
            p + len <= n_data,
            n_data == data@.len(),
            b@ == data@.subrange(p as int, p as int + i as int),
        decreases len - i,
    {
        b.push(data[p + i]);
        proof {
            assert(data@.subrange(p as int, p as int + i as int).push(data@[p + i])
                =~= data@.subrange(p as int, p as int + i + 1));
        }
        i += 1;
    }
    proof {
        assert(data@.skip(p as int).take(n as int) =~= data@.subrange(
            p as int,
            p as int + len as int,
        ));
        assert(data@.skip(p as int).skip(n as int) =~= data@.skip(p as int + len as int));
    }
    Option::Some((b, p + len))
}

/// Glue for the scopes loop: a parse result with already-read fields in
/// front of it.
pub open spec fn with_prefix(pre: Seq<Seq<u8>>, r: Option<(Seq<Seq<u8>>, Seq<u8>)>) -> Option<
    (Seq<Seq<u8>>, Seq<u8>),
> {
    match r {
        Option::None => Option::None,
        Option::Some((bs, rest)) => Option::Some((pre + bs, rest)),
    }
}

/// Read `count` byte fields at `pos`, mirroring `p_list`.
fn read_scope_list(data: &Vec<u8>, pos: usize, count: u64) -> (r: Option<(Vec<Vec<u8>>, usize)>)
    requires
        pos <= data@.len(),
    ensures
        match r {
            Option::Some((ss, p2)) => {
                &&& p2 <= data@.len()
                &&& p_list(data@.skip(pos as int), count as nat) == Option::Some(
                    (ss.deep_view(), data@.skip(p2 as int)),
                )
            },
            Option::None => p_list(data@.skip(pos as int), count as nat) is None,
        },
{
    let mut scopes: Vec<Vec<u8>> = Vec::new();
    let mut read: u64 = 0;
    let mut cur = pos;
    while read < count
        invariant
            read <= count,
            cur <= data@.len(),
            scopes.deep_view().len() == read,
            p_list(data@.skip(pos as int), count as nat) == with_prefix(
                scopes.deep_view(),
                p_list(data@.skip(cur as int), (count - read) as nat),
            ),
        decreases count - read,
    {
        match read_bytes(data, cur) {
            Option::None => {
                proof {
                    assert(p_list(data@.skip(cur as int), (count - read) as nat) is None);
                    assert(p_list(data@.skip(pos as int), count as nat) is None);
                }
                return Option::None;
            },
            Option::Some((b, p2)) => {
                let ghost pre = scopes.deep_view();
                let ghost tail = p_list(data@.skip(p2 as int), (count - read - 1) as nat);
                proof {
                    assert(pre + (seq![b@] + tail->Some_0.0) =~= pre.push(b@) + tail->Some_0.0);
                    assert(b.deep_view() =~= b@);
                }
                scopes.push(b);
                proof {
                    assert(scopes.deep_view() =~~= pre.push(b@));
                }
                cur = p2;
                read += 1;
            },
        }
    }
    proof {
        assert(scopes.deep_view() + Seq::<Seq<u8>>::empty() =~= scopes.deep_view());
    }
    Option::Some((scopes, cur))
}

/// Decode one record strictly, mirroring `spec_decode`: `None` exactly on
/// the records `spec_decode` rejects.
#[verifier::rlimit(100)]
pub fn decode_record(data: &Vec<u8>) -> (r: Option<BuilderIdToken>)
    ensures
        r is Some <==> spec_decode(data@) is Some,
        match r {
            Option::Some(t) => spec_decode(data@) == Option::Some(t@),
            Option::None => true,
        },
{
    proof {
        assert(data@.skip(0) =~= data@);
    }
    let (access_token, pos) = match read_bytes(data, 0) {
        Option::None => {
            proof {
                assert(spec_decode(data@) is None);
            }
            return Option::None;
        },
        Option::Some(v) => v,
    };
    if pos >= data.len() {
        proof {
            assert(data@.skip(pos as int).len() == 0);
            assert(spec_decode(data@) is None);
        }
        return Option::None;
    }
    let tag = data[pos];
    let (refresh_token, pos): (Option<Vec<u8>>, usize) = if tag == 0 {
        proof {
            assert(data@.skip(pos as int).skip(1) =~= data@.skip(pos as int + 1));
        }
        (Option::None, pos + 1)
    } else if tag == 1 {
        proof {
            assert(data@.skip(pos as int).skip(1) =~= data@.skip(pos as int + 1));
        }
        match read_bytes(data, pos + 1) {
            Option::None => {
                return Option::None;
            },
            Option::Some((b, p2)) => (Option::Some(b), p2),
        }
    } else {
        proof {
            assert(spec_decode(data@) is None);
        }
        return Option::None;
    };
    let (expires_at_epoch_s, pos) = match read_u64(data, pos) {
        Option::None => {
            proof {
                assert(spec_decode(data@) is None);
            }
            return Option::None;
        },
        Option::Some(v) => v,
    };
    let (region, pos) = match read_bytes(data, pos) {
        Option::None => {
            proof {
                assert(spec_decode(data@) is None);
            }
            return Option::None;
        },
        Option::Some(v) => v,
    };
    let (start_url, pos) = match read_bytes(data, pos) {
        Option::None => {
            proof {
                assert(spec_decode(data@) is None);
            }
            return Option::None;
        },
        Option::Some(v) => v,
    };
    let (count, pos) = match read_u64(data, pos) {
        Option::None => {
            proof {
                assert(spec_decode(data@) is None);
            }
            return Option::None;
        },
        Option::Some(v) => v,
    };
    let (scopes, pos) = match read_scope_list(data, pos, count) {
        Option::None => {
            proof {
                assert(spec_decode(data@) is None);
            }
            return Option::None;
        },
        Option::Some(v) => v,
    };
    if pos != data.len() {
        proof {
            assert(data@.skip(pos as int).len() != 0);
            assert(spec_decode(data@) is None);
        }
        return Option::None;
    }
    proof {
        assert(data@.skip(pos as int).len() == 0);
    }
    let token = BuilderIdToken {
        access_token,
        refresh_token,
        expires_at_epoch_s,
        region,
        start_url,
        scopes,
    };
    proof {
        assert(spec_decode(data@) == Option::Some(token@));
    }
    Option::Some(token)
}

} // verus!
