//! Base-128 variable-length integers, as protobuf writes them.
//!
//! The format is stated here as two spec functions, [`varint`] and
//! [`parse_varint`], and their round trip is proved. The executable encoder
//! and decoder are those of `prost`: [`put_varint`] and [`take_varint`] call
//! them, and what is claimed of them there is believed, not proved.

use vstd::prelude::*;

verus! {

/// The longest varint that is read: ten bytes carry 64 bits.
pub const MAX_VARINT_LEN: usize = 10;

/// The bytes of `v`: seven bits a byte, lowest group first, the top bit of a
/// byte set where another byte follows.
pub open spec fn varint(v: nat) -> Seq<u8>
    decreases v,
{
    if v < 128 {
        seq![v as u8]
    } else {
        seq![(v % 128 + 128) as u8] + varint(v / 128)
    }
}

/// Reads a varint of at most `room` bytes from the front of `bytes`: its
/// value and the number of bytes it takes.
pub open spec fn parse_varint_within(bytes: Seq<u8>, room: nat) -> Option<(nat, nat)>
    decreases room,
{
    if room == 0 || bytes.len() == 0 {
        None
    } else if bytes[0] < 128 {
        Some((bytes[0] as nat, 1))
    } else {
        match parse_varint_within(bytes.skip(1), (room - 1) as nat) {
            Some((v, n)) => Some(((bytes[0] - 128) as nat + 128 * v, n + 1)),
            None => None,
        }
    }
}

/// Reads a 64-bit varint from the front of `bytes`. It is refused where the
/// bytes end before the varint does, where it runs past ten bytes, and where
/// its value does not fit 64 bits (a tenth byte above 1).
pub open spec fn parse_varint(bytes: Seq<u8>) -> Option<(u64, nat)> {
    match parse_varint_within(bytes, MAX_VARINT_LEN as nat) {
        Some((v, n)) => if v <= u64::MAX {
            Some((v as u64, n))
        } else {
            None
        },
        None => None,
    }
}

/// The number of bytes that the varint in front of `bytes` takes, 0 where
/// none stands there.
pub open spec fn varint_span(bytes: Seq<u8>) -> nat {
    match parse_varint(bytes) {
        Some((_, n)) => n,
        None => 0,
    }
}

/// The number of bytes that `varint(v)` has.
pub open spec fn varint_len(v: nat) -> nat
    decreases v,
{
    if v < 128 {
        1
    } else {
        1 + varint_len(v / 128)
    }
}

/// `varint_len` is the length of `varint`.
pub proof fn lemma_varint_len(v: nat)
    ensures
        varint(v).len() == varint_len(v),
        varint_len(v) >= 1,
    decreases v,
{
    if v >= 128 {
        lemma_varint_len(v / 128);
    }
}

/// A value below `128^k` takes at most `k` bytes.
pub proof fn lemma_varint_len_bound(v: nat, k: nat)
    requires
        k >= 1,
        v < pow128(k),
    ensures
        varint_len(v) <= k,
    decreases k,
{
    if v >= 128 {
        assert(k >= 2) by {
            if k == 1 {
                assert(pow128(1) == 128 * pow128(0));
            }
        }
        assert(pow128(k) == 128 * pow128((k - 1) as nat));
        assert(v / 128 < pow128((k - 1) as nat)) by (nonlinear_arith)
            requires
                v < 128 * pow128((k - 1) as nat),
        ;
        lemma_varint_len_bound(v / 128, (k - 1) as nat);
    }
}

/// `128^k`.
pub open spec fn pow128(k: nat) -> nat
    decreases k,
{
    if k == 0 {
        1
    } else {
        128 * pow128((k - 1) as nat)
    }
}

/// Every 64-bit value takes at most ten bytes.
pub proof fn lemma_varint_len_u64(v: u64)
    ensures
        1 <= varint(v as nat).len() <= MAX_VARINT_LEN,
{
    lemma_varint_len(v as nat);
    reveal_with_fuel(pow128, 11);
    assert(pow128(10) == 0x40_0000_0000_0000_0000nat);
    lemma_varint_len_bound(v as nat, 10);
}

/// Reading what was written gives the value back, whatever follows it, as
/// long as the reader has room for all of its bytes.
pub proof fn lemma_parse_varint_within(v: nat, rest: Seq<u8>, room: nat)
    requires
        varint_len(v) <= room,
    ensures
        parse_varint_within(varint(v) + rest, room) == Some((v, varint_len(v))),
    decreases v,
{
    let bytes = varint(v) + rest;
    if v < 128 {
        assert(bytes[0] == v as u8);
    } else {
        let tail = varint(v / 128);
        assert(bytes[0] == (v % 128 + 128) as u8);
        assert(bytes.skip(1) =~= tail + rest);
        lemma_parse_varint_within(v / 128, rest, (room - 1) as nat);
        assert((v % 128 + 128 - 128) as nat + 128 * (v / 128) == v);
    }
}

/// The round trip of a 64-bit varint in front of any other bytes.
pub proof fn lemma_parse_varint(v: u64, rest: Seq<u8>)
    ensures
        parse_varint(varint(v as nat) + rest) == Some((v, varint(v as nat).len())),
{
    lemma_varint_len(v as nat);
    lemma_varint_len_u64(v);
    lemma_parse_varint_within(v as nat, rest, MAX_VARINT_LEN as nat);
}

/// What `parse_varint_within` reads lies inside the bytes and is not empty.
pub proof fn lemma_parse_varint_within_len(bytes: Seq<u8>, room: nat)
    ensures
        parse_varint_within(bytes, room) matches Some((_, n)) ==> 1 <= n <= bytes.len() && n
            <= room,
    decreases room,
{
    if room != 0 && bytes.len() != 0 && bytes[0] >= 128 {
        lemma_parse_varint_within_len(bytes.skip(1), (room - 1) as nat);
    }
}

/// What `parse_varint` reads lies inside the bytes and is not empty.
pub proof fn lemma_parse_varint_len(bytes: Seq<u8>)
    ensures
        parse_varint(bytes) matches Some((_, n)) ==> 1 <= n <= bytes.len() && n
            <= MAX_VARINT_LEN,
{
    lemma_parse_varint_within_len(bytes, MAX_VARINT_LEN as nat);
}

/// What a varint that is read looks like: its last byte has the top bit
/// clear, and its value is that byte, shifted to its place, over a rest that
/// lies below it.
pub proof fn lemma_parse_varint_shape(bytes: Seq<u8>, room: nat)
    ensures
        parse_varint_within(bytes, room) matches Some((v, n)) ==> {
            &&& 1 <= n <= bytes.len()
            &&& bytes[n - 1] < 128
            &&& v >= bytes[n - 1] * pow128((n - 1) as nat)
            &&& v - bytes[n - 1] * pow128((n - 1) as nat) < pow128((n - 1) as nat)
        },
    decreases room,
{
    if room != 0 && bytes.len() != 0 {
        if bytes[0] < 128 {
            assert(pow128(0) == 1);
            assert(bytes[0] * pow128(0) == bytes[0]) by (nonlinear_arith)
                requires
                    pow128(0) == 1,
            ;
        } else {
            let tail = bytes.skip(1);
            lemma_parse_varint_shape(tail, (room - 1) as nat);
            if let Some((w, m)) = parse_varint_within(tail, (room - 1) as nat) {
                let last = tail[m - 1] as int;
                let place = pow128((m - 1) as nat) as int;
                let below = w - last * place;
                let v = (bytes[0] - 128) + 128 * w;
                assert(bytes[m as int] == tail[m - 1]);
                assert(pow128(m) == 128 * place);
                assert(last * (128 * place) == 128 * (last * place)) by (nonlinear_arith);
                assert(v - last * (128 * place) == (bytes[0] - 128) + 128 * below);
                assert(parse_varint_within(bytes, room) == Some((v as nat, m + 1)));
                assert(bytes[(m + 1) - 1] * pow128(((m + 1) - 1) as nat) == last * (128 * place));
            }
        }
    }
}

/// The limit of 64 bits, said of the bytes: a varint of fewer than ten bytes
/// always fits, and one of ten bytes fits exactly where its tenth byte is 0
/// or 1.
pub proof fn lemma_parse_varint_limit(bytes: Seq<u8>)
    ensures
        parse_varint_within(bytes, MAX_VARINT_LEN as nat) matches Some((v, n)) ==> (
        parse_varint(bytes) is Some <==> n < 10 || bytes[9] <= 1),
{
    lemma_parse_varint_shape(bytes, MAX_VARINT_LEN as nat);
    lemma_parse_varint_within_len(bytes, MAX_VARINT_LEN as nat);
    reveal_with_fuel(pow128, 11);
    if let Some((v, n)) = parse_varint_within(bytes, MAX_VARINT_LEN as nat) {
        let last = bytes[n - 1];
        let place = pow128((n - 1) as nat);
        assert(pow128(9) == 0x8000_0000_0000_0000nat);
        if n < 10 {
            assert(place <= pow128(8)) by {
                lemma_pow128_grows((n - 1) as nat, 8);
            }
            assert(last * place <= 127 * place) by (nonlinear_arith)
                requires
                    last <= 127,
            ;
        } else {
            assert(n == 10);
            if last <= 1 {
                assert(last * place <= place) by (nonlinear_arith)
                    requires
                        last <= 1,
                ;
            } else {
                assert(last * place >= 2 * place) by (nonlinear_arith)
                    requires
                        last >= 2,
                ;
            }
        }
    }
}

proof fn lemma_pow128_grows(a: nat, b: nat)
    requires
        a <= b,
    ensures
        pow128(a) <= pow128(b),
        pow128(a) >= 1,
    decreases b,
{
    if a < b {
        lemma_pow128_grows(a, (b - 1) as nat);
    } else if a > 0 {
        lemma_pow128_grows((a - 1) as nat, (a - 1) as nat);
    }
}

/// Appends the varint of `value` to `buf`.
///
/// Calls `prost::encoding::encode_varint`, which puts `value & 0x7f | 0x80`
/// and shifts by seven while `value` is 128 or more, then puts the last
/// group: the bytes that [`varint`] states. On a `Vec<u8>` each put appends.
#[verifier::external_body]
pub(crate) fn put_varint(buf: &mut Vec<u8>, value: u64)
    ensures
        final(buf)@ == old(buf)@ + varint(value as nat),
{
    prost::encoding::encode_varint(value, buf);
}

/// Reads a varint from the front of `bytes` and hands back its value with
/// the bytes behind it.
///
/// Calls `prost::encoding::decode_varint`, which fails on an empty buffer,
/// on a varint that the buffer's end cuts short, on a tenth byte with its
/// top bit set and on a tenth byte of 2 or more, and which otherwise adds up
/// the seven-bit groups and advances the buffer past the byte that ends the
/// varint: what [`parse_varint`] states. [`lemma_parse_varint_limit`] shows
/// that its limit of 64 bits is that test of the tenth byte.
#[verifier::external_body]
pub(crate) fn take_varint<'a>(bytes: &'a [u8]) -> (r: Option<(u64, &'a [u8])>)
    ensures
        match r {
            Some((v, rest)) => parse_varint(bytes@) matches Some((value, n)) && value == v
                && n <= bytes@.len() && rest@ == bytes@.skip(n as int),
            None => parse_varint(bytes@) is None,
        },
{
    let mut rest = bytes;
    match prost::encoding::decode_varint(&mut rest) {
        Ok(v) => Some((v, rest)),
        Err(_) => None,
    }
}

} // verus!
