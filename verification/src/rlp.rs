//! The recursive-length-prefix encoding of the values a commitment is made of.

use vstd::prelude::*;

verus! {

/// The big-endian bytes of `n` without leading zeros; none for zero.
pub open spec fn be_bytes(n: nat) -> Seq<u8>
    decreases n,
{
    if n == 0 {
        Seq::empty()
    } else {
        be_bytes(n / 256).push((n % 256) as u8)
    }
}

/// The big-endian bytes of `n`, cut or padded with zeros on the left to
/// `width` bytes.
pub open spec fn be_fixed(n: nat, width: nat) -> Seq<u8>
    decreases width,
{
    if width == 0 {
        Seq::empty()
    } else {
        be_fixed(n / 256, (width - 1) as nat).push((n % 256) as u8)
    }
}

/// The header that precedes a payload of `payload_len` bytes: of a list where
/// `list` holds, of a byte string otherwise.
pub open spec fn rlp_header(list: bool, payload_len: nat) -> Seq<u8> {
    let base: nat = if list { 0xc0 } else { 0x80 };
    if payload_len <= 55 {
        seq![(base + payload_len) as u8]
    } else {
        seq![(base + 55 + be_bytes(payload_len).len()) as u8] + be_bytes(payload_len)
    }
}

/// The encoding of a byte string.
pub open spec fn rlp_bytes(data: Seq<u8>) -> Seq<u8> {
    if data.len() == 1 && data[0] < 0x80 {
        data
    } else {
        rlp_header(false, data.len()) + data
    }
}

/// The encoding of an unsigned integer: the byte string of its big-endian
/// bytes without leading zeros.
pub open spec fn rlp_u64(n: u64) -> Seq<u8> {
    rlp_bytes(be_bytes(n as nat))
}

/// The encoding of a list whose items, already encoded, are `payload`.
pub open spec fn rlp_list(payload: Seq<u8>) -> Seq<u8> {
    rlp_header(true, payload.len()) + payload
}

/// A number below 2^64 has at most eight big-endian bytes.
pub proof fn lemma_be_bytes_len(n: u64)
    ensures
        be_bytes(n as nat).len() <= 8,
        n == 0 <==> be_bytes(n as nat).len() == 0,
        n >= 256 ==> be_bytes(n as nat).len() >= 2,
        n < 256 ==> be_bytes(n as nat) =~= (if n == 0 {
            Seq::<u8>::empty()
        } else {
            seq![n as u8]
        }),
{
    let n0 = n as nat;
    let n1 = n0 / 256;
    let n2 = n1 / 256;
    let n3 = n2 / 256;
    let n4 = n3 / 256;
    let n5 = n4 / 256;
    let n6 = n5 / 256;
    let n7 = n6 / 256;
    let n8 = n7 / 256;
    assert(n8 == 0);
    assert(be_bytes(n8).len() == 0);
    assert(be_bytes(n7).len() <= 1);
    assert(be_bytes(n6).len() <= 2);
    assert(be_bytes(n5).len() <= 3);
    assert(be_bytes(n4).len() <= 4);
    assert(be_bytes(n3).len() <= 5);
    assert(be_bytes(n2).len() <= 6);
    assert(be_bytes(n1).len() <= 7);
    if n < 256 {
        assert(n1 == 0);
        assert(be_bytes(n1) =~= Seq::<u8>::empty());
    }
}

/// The width of a fixed-width number is the width asked for.
pub proof fn lemma_be_fixed_len(n: nat, width: nat)
    ensures
        be_fixed(n, width).len() == width,
    decreases width,
{
    if width > 0 {
        lemma_be_fixed_len(n / 256, (width - 1) as nat);
    }
}

/// Appends the big-endian bytes of `n`, without leading zeros.
fn push_be(n: u64, out: &mut Vec<u8>)
    ensures
        final(out)@ == old(out)@ + be_bytes(n as nat),
    decreases n,
{
    if n > 0 {
        push_be(n / 256, out);
        out.push((n % 256) as u8);
        assert(out@ =~= old(out)@ + be_bytes(n as nat));
    } else {
        assert(out@ =~= old(out)@ + be_bytes(0));
    }
}

/// The number of big-endian bytes of `n`, without leading zeros.
fn be_len(n: u64) -> (len: u8)
    ensures
        len == be_bytes(n as nat).len(),
        len <= 8,
    decreases n,
{
    proof {
        lemma_be_bytes_len(n);
    }
    if n > 0 {
        let rest = be_len(n / 256);
        proof {
            lemma_be_bytes_len(n / 256);
        }
        rest + 1
    } else {
        0
    }
}

/// Appends the big-endian bytes of `n`, padded with zeros on the left to
/// `width` bytes.
pub fn push_be_fixed(n: u64, width: usize, out: &mut Vec<u8>)
    ensures
        final(out)@ == old(out)@ + be_fixed(n as nat, width as nat),
    decreases width,
{
    if width > 0 {
        push_be_fixed(n / 256, width - 1, out);
        out.push((n % 256) as u8);
        assert(out@ =~= old(out)@ + be_fixed(n as nat, width as nat));
    } else {
        assert(out@ =~= old(out)@ + be_fixed(n as nat, 0));
    }
}

/// Appends the header of a payload of `payload_len` bytes.
pub fn encode_header(list: bool, payload_len: usize, out: &mut Vec<u8>)
    ensures
        final(out)@ == old(out)@ + rlp_header(list, payload_len as nat),
{
    let base: u8 = if list { 0xc0 } else { 0x80 };
    if payload_len <= 55 {
        out.push(base + payload_len as u8);
        assert(out@ =~= old(out)@ + rlp_header(list, payload_len as nat));
    } else {
        let len_of_len = be_len(payload_len as u64);
        out.push(base + 55 + len_of_len);
        push_be(payload_len as u64, out);
        assert(out@ =~= old(out)@ + rlp_header(list, payload_len as nat));
    }
}

/// Appends the encoding of a byte string.
pub fn encode_bytes(data: &[u8], out: &mut Vec<u8>)
    ensures
        final(out)@ == old(out)@ + rlp_bytes(data@),
{
    if data.len() == 1 && data[0] < 0x80 {
        out.push(data[0]);
        assert(out@ =~= old(out)@ + rlp_bytes(data@));
    } else {
        encode_header(false, data.len(), out);
        out.extend_from_slice(data);
        assert(out@ =~= old(out)@ + rlp_bytes(data@));
    }
}

/// Appends the encoding of an unsigned integer.
pub fn encode_u64(n: u64, out: &mut Vec<u8>)
    ensures
        final(out)@ == old(out)@ + rlp_u64(n),
{
    proof {
        lemma_be_bytes_len(n);
    }
    if n == 0 {
        out.push(0x80);
        assert(out@ =~= old(out)@ + rlp_u64(n));
    } else if n < 0x80 {
        out.push(n as u8);
        assert(be_bytes(n as nat)[0] == n as u8);
        assert(out@ =~= old(out)@ + rlp_u64(n));
    } else {
        let len = be_len(n);
        out.push(0x80 + len);
        push_be(n, out);
        assert(be_bytes(n as nat).len() == 1 ==> be_bytes(n as nat)[0] >= 0x80);
        assert(out@ =~= old(out)@ + rlp_u64(n));
    }
}

/// Appends the encoding of a list whose items, already encoded, are
/// `payload`.
pub fn encode_list(payload: &[u8], out: &mut Vec<u8>)
    ensures
        final(out)@ == old(out)@ + rlp_list(payload@),
{
    encode_header(true, payload.len(), out);
    out.extend_from_slice(payload);
    assert(out@ =~= old(out)@ + rlp_list(payload@));
}

} // verus!
