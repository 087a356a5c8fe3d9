//! Byte-level codec for the harness: 32-byte big-endian words and the
//! standard revert payload that carries a revert reason string.
//!
//! A revert payload is the 4-byte selector of `Error(string)` followed by the
//! ABI encoding of a single string argument: a 32-byte offset word, a 32-byte
//! length word at that offset, and the string bytes padded with zeros to a
//! multiple of 32.  Decoding is best-effort: anything that does not fit this
//! shape yields `None` rather than an error.

use vstd::prelude::*;

verus! {

/// The value of a byte sequence read as a big-endian integer.
pub open spec fn be_bytes_value(s: Seq<u8>) -> nat
    decreases s.len(),
{
    if s.len() == 0 {
        0
    } else {
        be_bytes_value(s.drop_last()) * 256 + (s.last() as nat)
    }
}

/// 256 to the power `k` (1 for `k <= 0`).
pub open spec fn pow256(k: int) -> nat
    decreases k,
{
    if k <= 0 {
        1
    } else {
        256 * pow256(k - 1)
    }
}

/// The `k`-byte big-endian encoding of `n`; faithful when `n < pow256(k)`.
pub open spec fn spec_be_bytes(n: nat, k: nat) -> Seq<u8>
    decreases k,
{
    if k == 0 {
        Seq::empty()
    } else {
        spec_be_bytes(n / 256, (k - 1) as nat).push((n % 256) as u8)
    }
}

/// A 32-byte word fits the address space when its 24 high bytes are zero,
/// so that its value is at most the largest 8-byte integer.
pub open spec fn spec_word_fits(w: Seq<u8>) -> bool {
    forall|i: int| 0 <= i < 24 ==> w[i] == 0
}

/// The value of a 32-byte word whose 24 high bytes are zero.
pub open spec fn spec_word_value(w: Seq<u8>) -> nat {
    be_bytes_value(w.skip(24))
}

/// Selector prefix of the standard revert payload `Error(string)`.
pub open spec fn spec_error_selector() -> Seq<u8> {
    seq![0x08u8, 0xc3u8, 0x79u8, 0xa0u8]
}

/// `n` rounded up to a multiple of 32.
pub open spec fn spec_padded_len(n: nat) -> nat {
    ((n + 31) / 32) * 32
}

/// The full revert payload carrying the reason string `s`.
pub open spec fn spec_encode_revert(s: Seq<u8>) -> Seq<u8> {
    spec_error_selector() + spec_be_bytes(32, 32) + spec_be_bytes(s.len(), 32) + s + Seq::new(
        (spec_padded_len(s.len()) - s.len()) as nat,
        |i: int| 0u8,
    )
}

/// Decoding of a single ABI string argument from `body`:
/// an offset word, a length word at the offset, then the string bytes.
pub open spec fn spec_decode_string_arg(body: Seq<u8>) -> Option<Seq<u8>> {
    if body.len() < 32 {
        None
    } else if !spec_word_fits(body.take(32)) {
        None
    } else {
        let off = spec_word_value(body.take(32)) as int;
        if off + 32 <= body.len() && spec_word_fits(body.subrange(off, off + 32)) {
            let l = spec_word_value(body.subrange(off, off + 32)) as int;
            if off + 32 + l <= body.len() {
                Some(body.subrange(off + 32, off + 32 + l))
            } else {
                None
            }
        } else {
            None
        }
    }
}

/// Decoding of a revert reason: skip the 4-byte selector prefix, then
/// decode the remainder as a single ABI string argument.
pub open spec fn spec_decode_revert_reason(data: Seq<u8>) -> Option<Seq<u8>> {
    if data.len() < 4 {
        None
    } else {
        spec_decode_string_arg(data.skip(4))
    }
}

pub broadcast proof fn lemma_be_bytes_len(n: nat, k: nat)
    ensures
        #[trigger] spec_be_bytes(n, k).len() == k,
    decreases k,
{
    if k > 0 {
        lemma_be_bytes_len(n / 256, (k - 1) as nat);
    }
}

pub proof fn lemma_pow256_values()
    ensures
        pow256(7) == 0x100_0000_0000_0000,
        pow256(8) == 0x1_0000_0000_0000_0000,
{
    assert(pow256(0) == 1);
    assert(pow256(1) == 256);
    assert(pow256(2) == 0x1_0000);
    assert(pow256(3) == 0x100_0000);
    assert(pow256(4) == 0x1_0000_0000);
    assert(pow256(5) == 0x100_0000_0000);
    assert(pow256(6) == 0x1_0000_0000_0000);
    assert(pow256(7) == 0x100_0000_0000_0000);
    assert(pow256(8) == 0x1_0000_0000_0000_0000);
}

/// Big-endian encodings of values below `pow256(k - 1)` start with a zero byte.
pub proof fn lemma_be_bytes_drop_leading_zero(n: nat, k: nat)
    requires
        k >= 1,
        n < pow256(k as int - 1),
    ensures
        spec_be_bytes(n, k) =~= seq![0u8] + spec_be_bytes(n, (k - 1) as nat),
    decreases k,
{
    broadcast use lemma_be_bytes_len;

    if k == 1 {
        assert(n == 0);
        assert(spec_be_bytes(0, 1) =~= seq![0u8] + spec_be_bytes(0, 0));
    } else {
        assert(n / 256 < pow256(k as int - 2)) by {
            vstd::arithmetic::div_mod::lemma_fundamental_div_mod(n as int, 256);
        }
        lemma_be_bytes_drop_leading_zero(n / 256, (k - 1) as nat);
    }
}

/// A value below `pow256(j)` has a `k`-byte encoding that is `k - j`
/// zero bytes followed by its `j`-byte encoding.
pub proof fn lemma_be_bytes_zero_prefix(n: nat, k: nat, j: nat)
    requires
        j <= k,
        n < pow256(j as int),
    ensures
        spec_be_bytes(n, k) =~= Seq::new((k - j) as nat, |i: int| 0u8) + spec_be_bytes(n, j),
    decreases k - j,
{
    broadcast use lemma_be_bytes_len;

    if k == j {
    } else {
        assert(n < pow256(k as int - 1)) by {
            lemma_pow256_increases(j as int, k as int - 1);
        }
        lemma_be_bytes_drop_leading_zero(n, k);
        lemma_be_bytes_zero_prefix(n, (k - 1) as nat, j);
    }
}

pub proof fn lemma_pow256_increases(a: int, b: int)
    requires
        a <= b,
    ensures
        pow256(a) <= pow256(b),
    decreases b - a,
{
    if a < b {
        lemma_pow256_increases(a, b - 1);
    }
}

/// Reading back the `k`-byte big-endian encoding of `n < pow256(k)` gives `n`.
pub proof fn lemma_be_bytes_value_of_encoding(n: nat, k: nat)
    requires
        n < pow256(k as int),
    ensures
        be_bytes_value(spec_be_bytes(n, k)) == n,
    decreases k,
{
    if k == 0 {
    } else {
        assert(n / 256 < pow256(k as int - 1)) by {
            vstd::arithmetic::div_mod::lemma_fundamental_div_mod(n as int, 256);
        }
        lemma_be_bytes_value_of_encoding(n / 256, (k - 1) as nat);
        let s = spec_be_bytes(n / 256, (k - 1) as nat);
        let b = (n % 256) as u8;
        assert(s.push(b).drop_last() =~= s);
        assert(s.push(b).last() == b);
        assert(n / 256 * 256 + n % 256 == n) by {
            vstd::arithmetic::div_mod::lemma_fundamental_div_mod(n as int, 256);
        }
    }
}

/// The value of a fitting word is the value of its low 8 bytes, so for a
/// small `n` the 32-byte word for `n` fits and reads back as `n`.
pub proof fn lemma_small_word(n: nat)
    requires
        n < 0x1_0000_0000_0000_0000,
    ensures
        spec_word_fits(spec_be_bytes(n, 32)),
        spec_word_value(spec_be_bytes(n, 32)) == n,
{
    broadcast use lemma_be_bytes_len;

    lemma_pow256_values();
    lemma_be_bytes_zero_prefix(n, 32, 8);
    lemma_be_bytes_value_of_encoding(n, 8);
    assert(spec_be_bytes(n, 32).skip(24) =~= spec_be_bytes(n, 8));
}

/// Appends the `k`-byte big-endian encoding of `n` to `out`.
fn push_be_bytes(out: &mut Vec<u8>, n: u64, k: usize)
    ensures
        final(out)@ == old(out)@ + spec_be_bytes(n as nat, k as nat),
    decreases k,
{
    if k == 0 {
        assert(final(out)@ =~= old(out)@ + spec_be_bytes(n as nat, 0));
    } else {
        push_be_bytes(out, n / 256, k - 1);
        out.push((n % 256) as u8);
        proof {
            let pre = spec_be_bytes(n as nat / 256, (k - 1) as nat);
            assert((old(out)@ + pre).push((n as nat % 256) as u8) =~= old(out)@ + pre.push(
                (n as nat % 256) as u8,
            ));
        }
    }
}

/// Builds the revert payload that carries `reason`.
pub fn encode_revert_payload(reason: &Vec<u8>) -> (out: Vec<u8>)
    requires
        reason@.len() + 100 <= usize::MAX,
    ensures
        out@ == spec_encode_revert(reason@),
{
    proof {
        broadcast use lemma_be_bytes_len;

    }
    let n = reason.len();
    let mut out: Vec<u8> = Vec::new();
    out.push(0x08);
    out.push(0xc3);
    out.push(0x79);
    out.push(0xa0);
    assert(out@ =~= spec_error_selector());
    push_be_bytes(&mut out, 32, 32);
    push_be_bytes(&mut out, n as u64, 32);
    let ghost head = spec_error_selector() + spec_be_bytes(32, 32) + spec_be_bytes(
        reason@.len(),
        32,
    );
    assert(out@ =~= head);
    let mut i: usize = 0;
    while i < n
        invariant
            n == reason@.len(),
            i <= n,
            out@ =~= head + reason@.take(i as int),
        decreases n - i,
    {
        out.push(reason[i]);
        assert(out@ =~= head + reason@.take(i + 1));
        i = i + 1;
    }
    assert(out@ =~= head + reason@);
    let padded = ((n + 31) / 32) * 32;
    proof {
        vstd::arithmetic::div_mod::lemma_fundamental_div_mod(n as int + 31, 32);
    }
    let mut pad = padded - n;
    assert(pad == spec_padded_len(reason@.len()) - reason@.len());
    let ghost total_pad = pad as nat;
    while pad > 0
        invariant
            out@ =~= head + reason@ + Seq::new((total_pad - pad) as nat, |j: int| 0u8),
            pad <= total_pad,
        decreases pad,
    {
        out.push(0);
        assert(out@ =~= head + reason@ + Seq::new((total_pad - (pad - 1)) as nat, |j: int| 0u8));
        pad = pad - 1;
    }
    assert(out@ =~= spec_encode_revert(reason@));
    out
}

/// Reads the 32-byte word at `pos`; `None` when the word does not fit
/// in 8 bytes.
fn read_word(data: &Vec<u8>, pos: usize) -> (r: Option<u64>)
    requires
        pos + 32 <= data@.len(),
    ensures
        match r {
            Some(v) => spec_word_fits(data@.subrange(pos as int, pos as int + 32)) && v as nat
                == spec_word_value(data@.subrange(pos as int, pos as int + 32)),
            None => !spec_word_fits(data@.subrange(pos as int, pos as int + 32)),
        },
{
    let dlen = data.len();
    let ghost w = data@.subrange(pos as int, pos as int + 32);
    let mut i: usize = 0;
    while i < 24
        invariant
            i <= 24,
            pos + 32 <= dlen,
            dlen == data@.len(),
            w == data@.subrange(pos as int, pos as int + 32),
            forall|j: int| 0 <= j < i ==> w[j] == 0,
        decreases 24 - i,
    {
        if data[pos + i] != 0 {
            assert(w[i as int] != 0);
            return None;
        }
        i = i + 1;
    }
    assert(spec_word_fits(w));
    let ghost low = w.skip(24);
    proof {
        lemma_pow256_values();
    }
    let mut v: u64 = 0;
    let mut j: usize = 0;
    while j < 8
        invariant
            j <= 8,
            pos + 32 <= dlen,
            dlen == data@.len(),
            w == data@.subrange(pos as int, pos as int + 32),
            low == w.skip(24),
            v as nat == be_bytes_value(low.take(j as int)),
            (v as nat) < pow256(j as int),
            pow256(7) == 0x100_0000_0000_0000,
            pow256(8) == 0x1_0000_0000_0000_0000,
        decreases 8 - j,
    {
        proof {
            lemma_pow256_increases(j as int, 7);
        }
        let b = data[pos + 24 + j];
        assert(low[j as int] == b);
        let next = v * 256 + (b as u64);
        proof {
            assert(low.take(j + 1).drop_last() =~= low.take(j as int));
            assert(low.take(j + 1).last() == low[j as int]);
        }
        v = next;
        j = j + 1;
    }
    assert(low.take(8) =~= low);
    Some(v)
}

/// Decodes the revert reason out of a raw revert payload: the 4-byte
/// selector prefix is skipped and the rest must ABI-decode as a single
/// string argument.  Returns `None` on anything malformed.
pub fn decode_revert_reason(data: &Vec<u8>) -> (r: Option<Vec<u8>>)
    ensures
        match r {
            Some(v) => spec_decode_revert_reason(data@) == Some(v@),
            None => spec_decode_revert_reason(data@) is None,
        },
{
    let total = data.len();
    if total < 4 {
        return None;
    }
    let ghost body = data@.skip(4);
    if total - 4 < 32 {
        return None;
    }
    assert(body.take(32) =~= data@.subrange(4, 36));
    let off64 = match read_word(data, 4) {
        Some(v) => v,
        None => {
            return None;
        },
    };
    let body_len = total - 4;
    if off64 > (body_len as u64) - 32 {
        return None;
    }
    let off = off64 as usize;
    assert(off as nat == off64 as nat);
    assert(body.subrange(off as int, off as int + 32) =~= data@.subrange(
        4 + off as int,
        4 + off as int + 32,
    ));
    let l64 = match read_word(data, 4 + off) {
        Some(v) => v,
        None => {
            return None;
        },
    };
    if l64 > ((body_len - 32 - off) as u64) {
        return None;
    }
    let l = l64 as usize;
    assert(l as nat == l64 as nat);
    let start = 4 + off + 32;
    assert(start + l <= data@.len());
    let mut res: Vec<u8> = Vec::new();
    let mut i: usize = 0;
    let dlen = data.len();
    while i < l
        invariant
            i <= l,
            start + l <= dlen,
            dlen == data@.len(),
            res@ =~= data@.subrange(start as int, start as int + i as int),
        decreases l - i,
    {
        res.push(data[start + i]);
        assert(res@ =~= data@.subrange(start as int, start as int + i + 1));
        i = i + 1;
    }
    assert(res@ =~= body.subrange(off as int + 32, off as int + 32 + l as int));
    Some(res)
}

/// A fresh vector holding the same bytes as `src`.
pub fn copy_bytes(src: &Vec<u8>) -> (r: Vec<u8>)
    ensures
        r@ == src@,
{
    let mut r: Vec<u8> = Vec::new();
    let n = src.len();
    let mut i: usize = 0;
    while i < n
        invariant
            i <= n,
            n == src@.len(),
            r@ =~= src@.take(i as int),
        decreases n - i,
    {
        r.push(src[i]);
        assert(r@ =~= src@.take(i + 1));
        i = i + 1;
    }
    assert(r@ =~= src@);
    r
}

/// The lowercase hex digit for a nibble.
pub open spec fn spec_hex_char(n: u8) -> char {
    if n < 10 {
        (('0' as u8) + n) as char
    } else {
        (('a' as u8) + (n - 10)) as char
    }
}

/// The lowercase hex spelling of a byte sequence, high nibble of each byte
/// first.
pub open spec fn spec_hex(data: Seq<u8>) -> Seq<char>
    decreases data.len(),
{
    if data.len() == 0 {
        Seq::empty()
    } else {
        spec_hex(data.drop_last()) + seq![
            spec_hex_char(data.last() / 16),
            spec_hex_char(data.last() % 16),
        ]
    }
}

/// Relies on hex::encode: each input byte becomes two lowercase hex digits,
/// high nibble first, in input order.
#[verifier::external_body]
fn hex_encode(data: &Vec<u8>) -> (r: String)
    ensures
        r@ == spec_hex(data@),
{
    hex::encode(data)
}

/// The lowercase hex spelling of `data`.
pub fn hex_string(data: &Vec<u8>) -> (r: String)
    ensures
        r@ == spec_hex(data@),
{
    hex_encode(data)
}

/// The revert-reason decoder inverts the encoder: the payload built for a
/// reason string always decodes back to exactly that string.
pub proof fn lemma_revert_round_trip(s: Seq<u8>)
    requires
        s.len() + 100 < 0x1_0000_0000_0000_0000,
    ensures
        spec_decode_revert_reason(spec_encode_revert(s)) == Some(s),
{
    broadcast use lemma_be_bytes_len;

    let data = spec_encode_revert(s);
    let pad = (spec_padded_len(s.len()) - s.len()) as nat;
    assert(spec_padded_len(s.len()) >= s.len()) by {
        vstd::arithmetic::div_mod::lemma_fundamental_div_mod(s.len() as int + 31, 32);
    }
    let body = data.skip(4);
    assert(body =~= spec_be_bytes(32, 32) + spec_be_bytes(s.len(), 32) + s + Seq::new(
        pad,
        |i: int| 0u8,
    ));
    lemma_small_word(32);
    lemma_small_word(s.len());
    assert(body.take(32) =~= spec_be_bytes(32, 32));
    assert(body.subrange(32, 64) =~= spec_be_bytes(s.len(), 32));
    assert(body.subrange(64, 64 + s.len() as int) =~= s);
    assert(spec_decode_string_arg(body) == Some(s));
}

} // verus!
