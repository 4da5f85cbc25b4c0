//! Primitive wire encodings of the protocol: the `VarInt` (a 32-bit integer
//! written as little-endian groups of seven bits), single bytes, and
//! big-endian 32-bit integers.
use vstd::prelude::*;

verus! {

/// Why a byte buffer could not be decoded.
#[derive(Clone, Copy, Debug, PartialEq, Eq)]
pub enum DecodeError {
    /// The buffer ended in the middle of a value.
    UnexpectedEof,
    /// A `VarInt` ran past its five bytes.
    VarIntTooLarge,
    /// An enum's tag named no variant.
    InvalidTag,
}

/// A 32-bit integer that travels as a `VarInt`.
#[derive(Clone, Copy, Debug, PartialEq, Eq, Hash, Default, Structural)]
pub struct VarInt(pub i32);

/// The largest number of bytes a `VarInt` occupies.
pub const VARINT_MAX_SIZE: usize = 5;

/// `128` raised to the power `n`.
pub open spec fn pow128(n: nat) -> nat
    decreases n,
{
    if n == 0 {
        1
    } else {
        128 * pow128((n - 1) as nat)
    }
}

/// The shortest little-endian base-128 encoding of `v`: every byte but the
/// last has its high bit set and carries seven bits of `v`.
pub open spec fn leb128_bytes(v: nat) -> Seq<u8>
    decreases v,
{
    if v < 128 {
        seq![v as u8]
    } else {
        seq![(v % 128 + 128) as u8] + leb128_bytes(v / 128)
    }
}

/// The bytes of a `VarInt`: the base-128 encoding of the value's 32 bits.
pub open spec fn varint_bytes(x: i32) -> Seq<u8> {
    leb128_bytes(x as u32 as nat)
}

/// Reads base-128 groups from `b` at index `i`, where at most `budget` more
/// bytes may belong to the value. On success, gives the number the groups
/// spell and the index just past the last byte read.
pub open spec fn read_groups(b: Seq<u8>, i: nat, budget: nat) -> Result<(nat, nat), DecodeError>
    decreases budget,
{
    if budget == 0 {
        Err(DecodeError::VarIntTooLarge)
    } else if i >= b.len() {
        Err(DecodeError::UnexpectedEof)
    } else if b[i as int] < 128 {
        Ok((b[i as int] as nat, i + 1))
    } else {
        match read_groups(b, i + 1, (budget - 1) as nat) {
            Ok((v, end)) => Ok(((b[i as int] - 128) as nat + 128 * v, end)),
            Err(e) => Err(e),
        }
    }
}

/// What decoding a `VarInt` at index `start` of `b` gives: the value (its
/// bits beyond the 32nd dropped) and the index just past it.
pub open spec fn varint_at(b: Seq<u8>, start: nat) -> Result<(i32, nat), DecodeError> {
    match read_groups(b, start, 5) {
        Ok((v, end)) => Ok(((v % 0x1_0000_0000) as u32 as i32, end)),
        Err(e) => Err(e),
    }
}

/// The value of the four bytes of `b` from `start`, read big-endian as an
/// unsigned number.
pub open spec fn be_u32_at(b: Seq<u8>, start: int) -> nat {
    (b[start] as nat) * 0x100_0000 + (b[start + 1] as nat) * 0x1_0000 + (b[start + 2] as nat)
        * 0x100 + (b[start + 3] as nat)
}

/// The four big-endian bytes of an `i32`.
pub open spec fn i32_be_bytes(x: i32) -> Seq<u8> {
    let u = x as u32 as nat;
    seq![(u / 0x100_0000) as u8, (u / 0x1_0000 % 0x100) as u8, (u / 0x100 % 0x100) as u8, (u % 0x100) as u8]
}

/// A decoded value as the library returns it: the value and the index just
/// past it, or the error.
pub open spec fn decoded<T>(r: Result<(T, usize), DecodeError>, s: Result<(T, nat), DecodeError>) -> bool {
    match s {
        Ok((v, end)) => r matches Ok((w, e)) && w == v && e as nat == end,
        Err(err) => r == Err::<(T, usize), DecodeError>(err),
    }
}

proof fn lemma_pow128_facts()
    ensures
        pow128(0) == 1,
        pow128(1) == 128,
        pow128(2) == 0x4000,
        pow128(3) == 0x20_0000,
        pow128(4) == 0x1000_0000,
        pow128(5) == 0x8_0000_0000,
{
    reveal_with_fuel(pow128, 6);
}

proof fn lemma_pow128_positive(n: nat)
    ensures
        pow128(n) >= 1,
    decreases n,
{
    if n > 0 {
        lemma_pow128_positive((n - 1) as nat);
    }
}

/// A number below `128^k`, with `k` at least one, takes at most `k` bytes.
proof fn lemma_leb128_len(v: nat, k: nat)
    requires
        1 <= k,
        v < pow128(k),
    ensures
        1 <= leb128_bytes(v).len() <= k,
    decreases v,
{
    if v >= 128 {
        assert(k >= 2) by {
            if k == 1 {
                reveal_with_fuel(pow128, 2);
            }
        }
        assert(v / 128 < pow128((k - 1) as nat));
        lemma_leb128_len(v / 128, (k - 1) as nat);
    }
}

/// The encoding is canonical: every byte but the last has its high bit set,
/// and the last has it clear.
proof fn lemma_leb128_shape(v: nat)
    ensures
        leb128_bytes(v).len() >= 1,
        leb128_bytes(v).last() < 128,
        forall|j: int| 0 <= j < leb128_bytes(v).len() - 1 ==> leb128_bytes(v)[j] >= 128,
    decreases v,
{
    if v >= 128 {
        lemma_leb128_shape(v / 128);
        let rest = leb128_bytes(v / 128);
        assert(leb128_bytes(v) == seq![(v % 128 + 128) as u8] + rest);
        assert forall|j: int| 0 <= j < leb128_bytes(v).len() - 1 implies leb128_bytes(v)[j] >= 128 by {
            if j > 0 {
                assert(leb128_bytes(v)[j] == rest[j - 1]);
            }
        }
    }
}

/// Reading the groups back from a buffer that holds the encoding of `v` at
/// index `i` gives `v` and the index just past the encoding.
proof fn lemma_read_groups_leb128(b: Seq<u8>, i: nat, v: nat, budget: nat)
    requires
        i + leb128_bytes(v).len() <= b.len(),
        b.subrange(i as int, (i + leb128_bytes(v).len()) as int) == leb128_bytes(v),
        leb128_bytes(v).len() <= budget,
    ensures
        read_groups(b, i, budget) == Ok::<(nat, nat), DecodeError>((v, i + leb128_bytes(v).len())),
    decreases v,
{
    let enc = leb128_bytes(v);
    assert(b[i as int] == b.subrange(i as int, (i + enc.len()) as int)[0]);
    if v < 128 {
        assert(enc == seq![v as u8]);
    } else {
        let rest = leb128_bytes(v / 128);
        assert(enc == seq![(v % 128 + 128) as u8] + rest);
        assert(b.subrange((i + 1) as int, (i + 1 + rest.len()) as int) == rest) by {
            assert forall|j: int| 0 <= j < rest.len() implies b.subrange((i + 1) as int, (i + 1 + rest.len()) as int)[j]
                == rest[j] by {
                assert(b.subrange(i as int, (i + enc.len()) as int)[j + 1] == enc[j + 1]);
            }
        }
        lemma_read_groups_leb128(b, i + 1, v / 128, (budget - 1) as nat);
    }
}

/// Bounds the number read from at most `budget` groups.
proof fn lemma_read_groups_bound(b: Seq<u8>, i: nat, budget: nat)
    ensures
        read_groups(b, i, budget) matches Ok((v, end)) ==> v < pow128(budget) && i < end <= b.len(),
    decreases budget,
{
    if budget > 0 && i < b.len() {
        let p = pow128((budget - 1) as nat);
        lemma_pow128_positive((budget - 1) as nat);
        assert(pow128(budget) == 128 * p);
        if b[i as int] >= 128 {
            lemma_read_groups_bound(b, i + 1, (budget - 1) as nat);
            if let Ok((w, end)) = read_groups(b, i + 1, (budget - 1) as nat) {
                let d = (b[i as int] - 128) as nat;
                assert(d + 128 * w < 128 * p) by (nonlinear_arith)
                    requires
                        d < 128,
                        w < p,
                ;
            }
        }
    }
}

/// Reads the groups of a `VarInt` from `b` at index `i`, with room for
/// `budget` more bytes.
fn read_groups_exec(b: &[u8], i: usize, budget: usize) -> (r: Result<(u64, usize), DecodeError>)
    requires
        budget <= VARINT_MAX_SIZE,
    ensures
        decoded(
            match r {
                Ok((v, end)) => Ok::<(nat, usize), DecodeError>((v as nat, end)),
                Err(e) => Err(e),
            },
            read_groups(b@, i as nat, budget as nat),
        ),
        r matches Ok((v, end)) ==> v < pow128(budget as nat),
    decreases budget,
{
    proof {
        lemma_pow128_facts();
        lemma_read_groups_bound(b@, i as nat, budget as nat);
    }
    if budget == 0 {
        Err(DecodeError::VarIntTooLarge)
    } else if i >= b.len() {
        Err(DecodeError::UnexpectedEof)
    } else if b[i] < 128 {
        Ok((b[i] as u64, i + 1))
    } else {
        match read_groups_exec(b, i + 1, budget - 1) {
            Ok((v, end)) => {
                assert(pow128(budget as nat) == 128 * pow128((budget - 1) as nat));
                assert(pow128((budget - 1) as nat) <= 0x1000_0000) by {
                    if budget - 1 == 0 {
                    } else if budget - 1 == 1 {
                    } else if budget - 1 == 2 {
                    } else if budget - 1 == 3 {
                    } else {
                    }
                }
                Ok(((b[i] - 128) as u64 + 128 * v, end))
            },
            Err(e) => Err(e),
        }
    }
}

/// Decodes the `VarInt` that starts at index `start` of `b`. Gives the value
/// and the index just past it; a value whose fifth byte still has its high
/// bit set is refused, and bits beyond the 32nd are dropped.
pub fn decode_varint(b: &[u8], start: usize) -> (r: Result<(i32, usize), DecodeError>)
    ensures
        decoded(r, varint_at(b@, start as nat)),
{
    match read_groups_exec(b, start, VARINT_MAX_SIZE) {
        Ok((v, end)) => {
            let low: u32 = (v % 0x1_0000_0000) as u32;
            Ok((low as i32, end))
        },
        Err(e) => Err(e),
    }
}

/// Appends the `VarInt` encoding of `x` to `out`.
pub fn encode_varint(x: i32, out: &mut Vec<u8>)
    ensures
        final(out)@ == old(out)@ + varint_bytes(x),
{
    let mut v: u32 = x as u32;
    while v >= 128
        invariant
            out@ + leb128_bytes(v as nat) == old(out)@ + varint_bytes(x),
        decreases v,
    {
        let byte: u8 = (v % 128 + 128) as u8;
        assert(leb128_bytes(v as nat) == seq![byte] + leb128_bytes((v / 128) as nat));
        assert(out@.push(byte) + leb128_bytes((v / 128) as nat) == out@ + leb128_bytes(v as nat));
        out.push(byte);
        v = v / 128;
    }
    assert(leb128_bytes(v as nat) == seq![v as u8]);
    out.push(v as u8);
}

/// The number of bytes `encode_varint` writes for `x`.
pub fn varint_written_size(x: i32) -> (n: usize)
    ensures
        n == varint_bytes(x).len(),
        1 <= n <= VARINT_MAX_SIZE,
{
    proof {
        lemma_pow128_facts();
        lemma_leb128_len(x as u32 as nat, 5);
    }
    let mut v: u32 = x as u32;
    let mut n: usize = 1;
    while v >= 128
        invariant
            n + leb128_bytes(v as nat).len() == varint_bytes(x).len() + 1,
            1 <= n <= varint_bytes(x).len(),
            varint_bytes(x).len() <= 5,
        decreases v,
    {
        assert(leb128_bytes(v as nat) == seq![(v % 128 + 128) as u8] + leb128_bytes((v / 128) as nat));
        v = v / 128;
        n = n + 1;
    }
    n
}

/// What decoding one byte at index `start` of `b` gives.
pub open spec fn u8_at(b: Seq<u8>, start: nat) -> Result<(u8, nat), DecodeError> {
    if start < b.len() {
        Ok((b[start as int], start + 1))
    } else {
        Err(DecodeError::UnexpectedEof)
    }
}

/// What decoding a big-endian `i32` at index `start` of `b` gives.
pub open spec fn i32_be_at(b: Seq<u8>, start: nat) -> Result<(i32, nat), DecodeError> {
    if start + 4 <= b.len() {
        Ok((be_u32_at(b, start as int) as u32 as i32, start + 4))
    } else {
        Err(DecodeError::UnexpectedEof)
    }
}

/// Decodes the byte at index `start` of `b`.
pub fn decode_u8(b: &[u8], start: usize) -> (r: Result<(u8, usize), DecodeError>)
    ensures
        decoded(r, u8_at(b@, start as nat)),
{
    if start < b.len() {
        Ok((b[start], start + 1))
    } else {
        Err(DecodeError::UnexpectedEof)
    }
}

/// Decodes the big-endian `i32` that starts at index `start` of `b`.
pub fn decode_i32_be(b: &[u8], start: usize) -> (r: Result<(i32, usize), DecodeError>)
    ensures
        decoded(r, i32_be_at(b@, start as nat)),
{
    if start <= b.len() && b.len() - start >= 4 {
        let u: u32 = (b[start] as u32) * 0x100_0000 + (b[start + 1] as u32) * 0x1_0000 + (
        b[start + 2] as u32) * 0x100 + (b[start + 3] as u32);
        Ok((u as i32, start + 4))
    } else {
        Err(DecodeError::UnexpectedEof)
    }
}

/// Appends the four big-endian bytes of `x` to `out`.
pub fn encode_i32_be(x: i32, out: &mut Vec<u8>)
    ensures
        final(out)@ == old(out)@ + i32_be_bytes(x),
{
    let u: u32 = x as u32;
    out.push((u / 0x100_0000) as u8);
    out.push((u / 0x1_0000 % 0x100) as u8);
    out.push((u / 0x100 % 0x100) as u8);
    out.push((u % 0x100) as u8);
}

/// A big-endian `i32` reads back as the value that was written.
pub proof fn law_i32_be_roundtrip(x: i32, b: Seq<u8>, start: nat)
    requires
        start + 4 <= b.len(),
        b.subrange(start as int, start + 4int) == i32_be_bytes(x),
    ensures
        i32_be_at(b, start) == Ok::<(i32, nat), DecodeError>((x, start + 4)),
{
    let u = x as u32 as nat;
    let s = start as int;
    assert(b[s] == i32_be_bytes(x)[0]);
    assert(b[s + 1] == i32_be_bytes(x)[1]);
    assert(b[s + 2] == i32_be_bytes(x)[2]);
    assert(b[s + 3] == i32_be_bytes(x)[3]);
    assert(be_u32_at(b, s) == u);
    assert((x as u32) as i32 == x) by (bit_vector);
}

/// A `VarInt` reads back as the value that was written, whatever follows it
/// in the buffer, and takes one to five bytes.
pub proof fn law_varint_roundtrip(x: i32, b: Seq<u8>, start: nat)
    requires
        start + varint_bytes(x).len() <= b.len(),
        b.subrange(start as int, (start + varint_bytes(x).len()) as int) == varint_bytes(x),
    ensures
        1 <= varint_bytes(x).len() <= 5,
        varint_at(b, start) == Ok::<(i32, nat), DecodeError>((x, start + varint_bytes(x).len())),
{
    let u = x as u32 as nat;
    lemma_pow128_facts();
    lemma_leb128_len(u, 5);
    lemma_read_groups_leb128(b, start, u, 5);
    assert(u % 0x1_0000_0000 == u);
    assert((x as u32) as i32 == x) by (bit_vector);
}

/// A `VarInt` is written in its shortest form: every byte but the last has
/// its high bit set, and the last has it clear.
pub proof fn law_varint_canonical(x: i32)
    ensures
        varint_bytes(x).last() < 128,
        forall|j: int| 0 <= j < varint_bytes(x).len() - 1 ==> varint_bytes(x)[j] >= 128,
{
    lemma_leb128_shape(x as u32 as nat);
}

/// The number that little-endian groups of seven bits spell: the low seven
/// bits of each byte, the first byte the least significant.
pub open spec fn groups_value(b: Seq<u8>) -> nat
    decreases b.len(),
{
    if b.len() == 0 {
        0
    } else {
        (b[0] % 128) as nat + 128 * groups_value(b.drop_first())
    }
}

proof fn lemma_groups_value_leb128(v: nat)
    ensures
        groups_value(leb128_bytes(v)) == v,
    decreases v,
{
    let b = leb128_bytes(v);
    if v < 128 {
        assert(b.drop_first() == Seq::<u8>::empty());
        assert(groups_value(Seq::<u8>::empty()) == 0);
        assert(b[0] == v as u8);
    } else {
        let rest = leb128_bytes(v / 128);
        assert(b.drop_first() == rest);
        assert(b[0] == (v % 128 + 128) as u8);
        assert((b[0] % 128) as nat == v % 128);
        lemma_groups_value_leb128(v / 128);
    }
}

/// A `VarInt` is the 32 bits of its value, seven at a time, least
/// significant first, in one to five bytes.
pub proof fn law_varint_value(x: i32)
    ensures
        groups_value(varint_bytes(x)) == x as u32,
        1 <= varint_bytes(x).len() <= 5,
{
    lemma_pow128_facts();
    lemma_leb128_len(x as u32 as nat, 5);
    lemma_groups_value_leb128(x as u32 as nat);
}

/// The four bytes of an `i32` are its 32 bits, most significant first.
pub proof fn law_i32_be_value(x: i32)
    ensures
        i32_be_bytes(x).len() == 4,
        i32_be_bytes(x)[0] as nat * 0x100_0000 + i32_be_bytes(x)[1] as nat * 0x1_0000
            + i32_be_bytes(x)[2] as nat * 0x100 + i32_be_bytes(x)[3] as nat == x as u32,
{
}

proof fn lemma_read_groups_errors(b: Seq<u8>, i: nat, budget: nat)
    ensures
        (i + budget <= b.len() && forall|j: int| i <= j < i + budget ==> b[j] >= 128) ==> read_groups(
            b,
            i,
            budget,
        ) == Err::<(nat, nat), DecodeError>(DecodeError::VarIntTooLarge),
        (i <= b.len() && b.len() < i + budget && forall|j: int| i <= j < b.len() ==> b[j] >= 128)
            ==> read_groups(b, i, budget) == Err::<(nat, nat), DecodeError>(
            DecodeError::UnexpectedEof,
        ),
    decreases budget,
{
    if budget > 0 && i < b.len() {
        lemma_read_groups_errors(b, i + 1, (budget - 1) as nat);
    }
}

/// A `VarInt` whose five bytes all carry a continuation bit is too large,
/// and one whose buffer ends while every byte read so far carries it, before
/// five bytes, ends early.
pub proof fn law_varint_errors(b: Seq<u8>, start: nat)
    ensures
        (start + 5 <= b.len() && forall|j: int| start <= j < start + 5 ==> b[j] >= 128)
            ==> varint_at(b, start) == Err::<(i32, nat), DecodeError>(DecodeError::VarIntTooLarge),
        (b.len() < start + 5 && forall|j: int| start <= j < b.len() ==> b[j] >= 128) ==> varint_at(
            b,
            start,
        ) == Err::<(i32, nat), DecodeError>(DecodeError::UnexpectedEof),
{
    lemma_read_groups_errors(b, start, 5);
    if start > b.len() {
        assert(read_groups(b, start, 5) == Err::<(nat, nat), DecodeError>(
            DecodeError::UnexpectedEof,
        ));
    }
}

} // verus!
