//! Canonical, length-prefixed byte encoding of a receipt's signed fields.
use vstd::prelude::*;
use vstd::string::StringSliceAdditionalSpecFns;
use vstd::utf8::{encode_utf8, encode_utf8_decode_utf8};

verus! {

/// Eight bytes, most significant first.
pub open spec fn u64_be(n: u64) -> Seq<u8> {
    seq![
        (n >> 56u64) as u8,
        (n >> 48u64) as u8,
        (n >> 40u64) as u8,
        (n >> 32u64) as u8,
        (n >> 24u64) as u8,
        (n >> 16u64) as u8,
        (n >> 8u64) as u8,
        n as u8,
    ]
}

/// Sixteen bytes, most significant first.
pub open spec fn u128_be(n: u128) -> Seq<u8> {
    u64_be((n >> 64u128) as u64) + u64_be(n as u64)
}

/// A variable-length field: its length as eight bytes, then its bytes.
pub open spec fn length_prefixed(b: Seq<u8>) -> Seq<u8> {
    u64_be(b.len() as u64) + b
}

/// The signed content of a receipt, in its fixed order.
pub struct SignedFields {
    pub id: u128,
    pub tenant: Seq<char>,
    pub subject: Seq<char>,
    pub shard: Seq<char>,
    pub query_hash: Seq<char>,
    pub result_hash: Seq<char>,
    pub nonce: u128,
    pub expires_at: i64,
}

/// A text field is encoded as its UTF-8 bytes, length-prefixed.
pub open spec fn text_field(s: Seq<char>) -> Seq<u8> {
    length_prefixed(encode_utf8(s))
}

/// The canonical encoding: id, tenant, subject, shard, query hash, result hash,
/// nonce and expiry, each integer fixed-width and each text length-prefixed.
pub open spec fn encode_fields(f: SignedFields) -> Seq<u8> {
    u128_be(f.id) + (text_field(f.tenant) + (text_field(f.subject) + (text_field(f.shard) + (
    text_field(f.query_hash) + (text_field(f.result_hash) + (u128_be(f.nonce) + u64_be(
        f.expires_at as u64,
    )))))))
}

/// Every text field of `f` has a byte length that a length prefix can hold.
pub open spec fn encodable(f: SignedFields) -> bool {
    &&& encode_utf8(f.tenant).len() <= u64::MAX
    &&& encode_utf8(f.subject).len() <= u64::MAX
    &&& encode_utf8(f.shard).len() <= u64::MAX
    &&& encode_utf8(f.query_hash).len() <= u64::MAX
    &&& encode_utf8(f.result_hash).len() <= u64::MAX
}

proof fn lemma_u64_be_injective(a: u64, b: u64)
    requires
        u64_be(a) == u64_be(b),
    ensures
        a == b,
{
    assert(u64_be(a)[0] == u64_be(b)[0]);
    assert(u64_be(a)[1] == u64_be(b)[1]);
    assert(u64_be(a)[2] == u64_be(b)[2]);
    assert(u64_be(a)[3] == u64_be(b)[3]);
    assert(u64_be(a)[4] == u64_be(b)[4]);
    assert(u64_be(a)[5] == u64_be(b)[5]);
    assert(u64_be(a)[6] == u64_be(b)[6]);
    assert(u64_be(a)[7] == u64_be(b)[7]);
    assert(a == b) by (bit_vector)
        requires
            (a >> 56u64) as u8 == (b >> 56u64) as u8,
            (a >> 48u64) as u8 == (b >> 48u64) as u8,
            (a >> 40u64) as u8 == (b >> 40u64) as u8,
            (a >> 32u64) as u8 == (b >> 32u64) as u8,
            (a >> 24u64) as u8 == (b >> 24u64) as u8,
            (a >> 16u64) as u8 == (b >> 16u64) as u8,
            (a >> 8u64) as u8 == (b >> 8u64) as u8,
            a as u8 == b as u8,
    ;
}

/// Splits `x + rest` where the first eight bytes of both sides are known.
proof fn lemma_split_prefix(x: Seq<u8>, xr: Seq<u8>, y: Seq<u8>, yr: Seq<u8>)
    requires
        x.len() == y.len(),
        x + xr == y + yr,
    ensures
        x == y,
        xr == yr,
{
    assert(x =~= (x + xr).subrange(0, x.len() as int));
    assert(y =~= (y + yr).subrange(0, y.len() as int));
    assert(xr =~= (x + xr).subrange(x.len() as int, (x + xr).len() as int));
    assert(yr =~= (y + yr).subrange(y.len() as int, (y + yr).len() as int));
}

proof fn lemma_u128_be_split(a: u128, ar: Seq<u8>, b: u128, br: Seq<u8>)
    requires
        u128_be(a) + ar == u128_be(b) + br,
    ensures
        a == b,
        ar == br,
{
    lemma_split_prefix(u128_be(a), ar, u128_be(b), br);
    lemma_split_prefix(u64_be((a >> 64u128) as u64), u64_be(a as u64), u64_be((b >> 64u128) as u64), u64_be(b as u64));
    lemma_u64_be_injective((a >> 64u128) as u64, (b >> 64u128) as u64);
    lemma_u64_be_injective(a as u64, b as u64);
    assert(a == b) by (bit_vector)
        requires
            (a >> 64u128) as u64 == (b >> 64u128) as u64,
            a as u64 == b as u64,
    ;
}

proof fn lemma_text_split(s: Seq<char>, sr: Seq<u8>, t: Seq<char>, tr: Seq<u8>)
    requires
        encode_utf8(s).len() <= u64::MAX,
        encode_utf8(t).len() <= u64::MAX,
        text_field(s) + sr == text_field(t) + tr,
    ensures
        s == t,
        sr == tr,
{
    let bs = encode_utf8(s);
    let bt = encode_utf8(t);
    assert(text_field(s) + sr =~= u64_be(bs.len() as u64) + (bs + sr));
    assert(text_field(t) + tr =~= u64_be(bt.len() as u64) + (bt + tr));
    lemma_split_prefix(u64_be(bs.len() as u64), bs + sr, u64_be(bt.len() as u64), bt + tr);
    lemma_u64_be_injective(bs.len() as u64, bt.len() as u64);
    lemma_split_prefix(bs, sr, bt, tr);
    encode_utf8_decode_utf8(s);
    encode_utf8_decode_utf8(t);
}

/// The canonical encoding is injective: distinct field tuples never share an
/// encoding, so a change to any signed field changes the signed bytes.
pub proof fn lemma_encoding_injective(f: SignedFields, g: SignedFields)
    requires
        encodable(f),
        encodable(g),
        encode_fields(f) == encode_fields(g),
    ensures
        f == g,
{
    let tail_f = u128_be(f.nonce) + u64_be(f.expires_at as u64);
    let tail_g = u128_be(g.nonce) + u64_be(g.expires_at as u64);
    let rf5 = text_field(f.result_hash) + tail_f;
    let rg5 = text_field(g.result_hash) + tail_g;
    let rf4 = text_field(f.query_hash) + rf5;
    let rg4 = text_field(g.query_hash) + rg5;
    let rf3 = text_field(f.shard) + rf4;
    let rg3 = text_field(g.shard) + rg4;
    let rf2 = text_field(f.subject) + rf3;
    let rg2 = text_field(g.subject) + rg3;
    let rf1 = text_field(f.tenant) + rf2;
    let rg1 = text_field(g.tenant) + rg2;
    lemma_u128_be_split(f.id, rf1, g.id, rg1);
    lemma_text_split(f.tenant, rf2, g.tenant, rg2);
    lemma_text_split(f.subject, rf3, g.subject, rg3);
    lemma_text_split(f.shard, rf4, g.shard, rg4);
    lemma_text_split(f.query_hash, rf5, g.query_hash, rg5);
    lemma_text_split(f.result_hash, tail_f, g.result_hash, tail_g);
    lemma_u128_be_split(f.nonce, u64_be(f.expires_at as u64), g.nonce, u64_be(g.expires_at as u64));
    lemma_u64_be_injective(f.expires_at as u64, g.expires_at as u64);
    let (x, y) = (f.expires_at, g.expires_at);
    assert(x == y) by (bit_vector)
        requires
            x as u64 == y as u64,
    ;
}

fn push_u64_be(out: &mut Vec<u8>, n: u64)
    ensures
        final(out)@ == old(out)@ + u64_be(n),
{
    out.push((n >> 56u64) as u8);
    out.push((n >> 48u64) as u8);
    out.push((n >> 40u64) as u8);
    out.push((n >> 32u64) as u8);
    out.push((n >> 24u64) as u8);
    out.push((n >> 16u64) as u8);
    out.push((n >> 8u64) as u8);
    out.push(n as u8);
    assert(final(out)@ =~= old(out)@ + u64_be(n));
}

fn push_u128_be(out: &mut Vec<u8>, n: u128)
    ensures
        final(out)@ == old(out)@ + u128_be(n),
{
    push_u64_be(out, (n >> 64u128) as u64);
    push_u64_be(out, n as u64);
    assert(final(out)@ =~= old(out)@ + u128_be(n));
}

fn push_text(out: &mut Vec<u8>, s: &str)
    ensures
        final(out)@ == old(out)@ + text_field(s@),
        encode_utf8(s@).len() <= u64::MAX,
{
    let bytes = s.as_bytes();
    let n: usize = bytes.len();
    assert(bytes@ == encode_utf8(s@));
    push_u64_be(out, n as u64);
    let mut i: usize = 0;
    let ghost start = out@;
    while i < n
        invariant
            n == bytes@.len(),
            i <= n,
            out@ == start + bytes@.subrange(0, i as int),
        decreases n - i,
    {
        out.push(bytes[i]);
        assert(bytes@.subrange(0, (i + 1) as int) =~= bytes@.subrange(0, i as int).push(bytes@[i as int]));
        i = i + 1;
    }
    assert(bytes@.subrange(0, n as int) =~= bytes@);
    assert(final(out)@ =~= old(out)@ + text_field(s@));
}

/// Builds the canonical encoding of the given fields.
pub fn encode_receipt_fields(
    id: u128,
    tenant: &str,
    subject: &str,
    shard: &str,
    query_hash: &str,
    result_hash: &str,
    nonce: u128,
    expires_at: i64,
) -> (r: Vec<u8>)
    ensures
        r@ == encode_fields(
            SignedFields {
                id,
                tenant: tenant@,
                subject: subject@,
                shard: shard@,
                query_hash: query_hash@,
                result_hash: result_hash@,
                nonce,
                expires_at,
            },
        ),
        encodable(
            SignedFields {
                id,
                tenant: tenant@,
                subject: subject@,
                shard: shard@,
                query_hash: query_hash@,
                result_hash: result_hash@,
                nonce,
                expires_at,
            },
        ),
{
    let mut out: Vec<u8> = Vec::new();
    push_u128_be(&mut out, id);
    push_text(&mut out, tenant);
    push_text(&mut out, subject);
    push_text(&mut out, shard);
    push_text(&mut out, query_hash);
    push_text(&mut out, result_hash);
    push_u128_be(&mut out, nonce);
    push_u64_be(&mut out, expires_at as u64);
    assert(out@ =~= encode_fields(
        SignedFields {
            id,
            tenant: tenant@,
            subject: subject@,
            shard: shard@,
            query_hash: query_hash@,
            result_hash: result_hash@,
            nonce,
            expires_at,
        },
    ));
    out
}

} // verus!
