//! Length-delimited fields in the protobuf wire format: base-128 varints
//! and `tag, length, payload` records.

use vstd::arithmetic::div_mod::lemma_fundamental_div_mod;
use vstd::prelude::*;
use vstd::slice::{slice_subrange, slice_to_vec};

verus! {

/// Tag byte of field 1 with a length-delimited payload.
pub const TAG_FIELD_1: u8 = 0x0A;

/// Tag byte of field 2 with a length-delimited payload.
pub const TAG_FIELD_2: u8 = 0x12;

/// Why a byte sequence is not a valid archive, or a record is missing.
#[derive(Clone, Copy, Debug, PartialEq, Eq, Structural)]
pub enum DecodeError {
    /// The bytes do not follow the layout.
    Malformed,
    /// A declared length runs past the end of the input.
    TruncatedField,
    /// No record is stored under the requested key.
    KeyNotFound,
    /// The input is not a valid compressed stream.
    CompressionFormat,
}

/// The base-128 varint of `n`, least significant group first.
pub open spec fn varint_bytes(n: nat) -> Seq<u8>
    decreases n,
{
    if n < 128 {
        seq![n as u8]
    } else {
        seq![(n % 128 + 128) as u8] + varint_bytes(n / 128)
    }
}

/// The varint at the start of `s`, read from at most `fuel` bytes, as its
/// value and its length; `None` when it does not end in time or exceeds `u64`.
pub open spec fn parse_varint_within(s: Seq<u8>, fuel: nat) -> Option<(nat, nat)>
    decreases fuel,
{
    if fuel == 0 || s.len() == 0 {
        None
    } else if s[0] < 128 {
        Some((s[0] as nat, 1nat))
    } else {
        match parse_varint_within(s.drop_first(), (fuel - 1) as nat) {
            Some((v, n)) => if s[0] - 128 + 128 * v <= u64::MAX {
                Some(((s[0] - 128 + 128 * v) as nat, n + 1))
            } else {
                None
            },
            None => None,
        }
    }
}

proof fn lemma_parse_varint_bounds(s: Seq<u8>, fuel: nat)
    ensures
        parse_varint_within(s, fuel) matches Some((v, n)) ==> v <= u64::MAX && 1 <= n <= fuel
            && n <= s.len(),
    decreases fuel,
{
    if fuel > 0 && s.len() > 0 && s[0] >= 128 {
        lemma_parse_varint_bounds(s.drop_first(), (fuel - 1) as nat);
    }
}

/// A varint has at most ten bytes.
pub open spec fn parse_varint(s: Seq<u8>) -> Option<(nat, nat)> {
    parse_varint_within(s, 10)
}

/// Where the payload lies in `s`, which starts with a length varint.
pub open spec fn field_span(s: Seq<u8>) -> Result<(int, int), DecodeError> {
    match parse_varint(s) {
        None => Err(DecodeError::Malformed),
        Some((n, l)) => if l > s.len() || n > s.len() - l {
            Err(DecodeError::TruncatedField)
        } else {
            Ok((l as int, (l + n) as int))
        },
    }
}

/// A tagged, length-delimited record.
pub open spec fn field_bytes(tag: u8, payload: Seq<u8>) -> Seq<u8> {
    seq![tag] + varint_bytes(payload.len()) + payload
}

/// `128` to the power `k`.
pub open spec fn pow128(k: nat) -> nat
    decreases k,
{
    if k == 0 {
        1
    } else {
        128 * pow128((k - 1) as nat)
    }
}

proof fn lemma_varint_len_below(n: nat, k: nat)
    requires
        1 <= k,
        n < pow128(k),
    ensures
        varint_bytes(n).len() <= k,
    decreases n,
{
    if n >= 128 {
        lemma_fundamental_div_mod(n as int, 128);
        reveal_with_fuel(pow128, 2);
        assert(k >= 2);
        let p = pow128((k - 1) as nat);
        let q = n / 128;
        assert(q < p) by (nonlinear_arith)
            requires
                n == 128 * q + n % 128,
                0 <= n % 128 < 128,
                n < 128 * p,
        ;
        lemma_varint_len_below(n / 128, (k - 1) as nat);
    }
}

/// A `u64` takes at most ten varint bytes.
pub proof fn lemma_varint_len(n: nat)
    requires
        n <= u64::MAX,
    ensures
        1 <= varint_bytes(n).len() <= 10,
{
    reveal_with_fuel(pow128, 11);
    lemma_varint_len_below(n, 10);
}

proof fn lemma_parse_varint_within(n: nat, t: Seq<u8>, fuel: nat)
    requires
        n <= u64::MAX,
        varint_bytes(n).len() <= fuel,
    ensures
        parse_varint_within(varint_bytes(n) + t, fuel) == Some((n, varint_bytes(n).len())),
    decreases n,
{
    let s = varint_bytes(n) + t;
    if n >= 128 {
        lemma_fundamental_div_mod(n as int, 128);
        assert(s.drop_first() =~= varint_bytes(n / 128) + t);
        lemma_parse_varint_within(n / 128, t, (fuel - 1) as nat);
    }
}

/// Reading back a written varint gives its value and length.
pub proof fn lemma_parse_varint(n: nat, t: Seq<u8>)
    requires
        n <= u64::MAX,
    ensures
        parse_varint(varint_bytes(n) + t) == Some((n, varint_bytes(n).len())),
{
    lemma_varint_len(n);
    lemma_parse_varint_within(n, t, 10);
}

/// The span of a written field covers exactly its payload.
pub proof fn lemma_field_span(payload: Seq<u8>, t: Seq<u8>)
    requires
        payload.len() <= u64::MAX,
    ensures
        field_span(varint_bytes(payload.len()) + payload + t) == Ok::<(int, int), DecodeError>(
            (
                varint_bytes(payload.len()).len() as int,
                (varint_bytes(payload.len()).len() + payload.len()) as int,
            ),
        ),
{
    let v = varint_bytes(payload.len());
    assert(v + payload + t =~= v + (payload + t));
    lemma_parse_varint(payload.len(), payload + t);
}

/// Reads the varint at `pos`, looking at no byte at or after `end`.
fn read_varint(buf: &[u8], pos: usize, end: usize, fuel: usize) -> (r: Option<(u64, usize)>)
    requires
        pos <= end <= buf@.len(),
        fuel <= 10,
    ensures
        match parse_varint_within(buf@.subrange(pos as int, end as int), fuel as nat) {
            Some((v, n)) => r == Some((v as u64, n as usize)),
            None => r is None,
        },
        r matches Some((_, n)) ==> 1 <= n <= fuel,
    decreases fuel,
{
    proof {
        lemma_parse_varint_bounds(buf@.subrange(pos as int, end as int), fuel as nat);
    }
    if fuel == 0 || pos == end {
        return None;
    }
    let b = buf[pos];
    if b < 128 {
        return Some((b as u64, 1));
    }
    assert(buf@.subrange(pos as int, end as int).drop_first() =~= buf@.subrange(
        pos + 1,
        end as int,
    ));
    match read_varint(buf, pos + 1, end, fuel - 1) {
        None => None,
        Some((v, n)) => match v.checked_mul(128) {
            None => None,
            Some(m) => match m.checked_add((b - 128) as u64) {
                None => None,
                Some(t) => Some((t, n + 1)),
            },
        },
    }
}

/// Reads the length varint at `pos` and returns the bounds of the payload
/// that follows it, which must end by `end`.
pub fn read_span(buf: &[u8], pos: usize, end: usize) -> (r: Result<(usize, usize), DecodeError>)
    requires
        pos <= end <= buf@.len(),
    ensures
        match field_span(buf@.subrange(pos as int, end as int)) {
            Ok((a, b)) => r == Ok::<(usize, usize), DecodeError>(
                ((pos + a) as usize, (pos + b) as usize),
            ),
            Err(e) => r == Err::<(usize, usize), DecodeError>(e),
        },
{
    proof {
        lemma_parse_varint_bounds(buf@.subrange(pos as int, end as int), 10);
    }
    match read_varint(buf, pos, end, 10) {
        None => Err(DecodeError::Malformed),
        Some((n, l)) => {
            let rem = end - pos;
            if l > rem || n > (rem - l) as u64 {
                Err(DecodeError::TruncatedField)
            } else {
                Ok((pos + l, pos + l + n as usize))
            }
        },
    }
}

/// Copies `buf[start..end]`.
pub fn copy_range(buf: &[u8], start: usize, end: usize) -> (r: Vec<u8>)
    requires
        start <= end <= buf@.len(),
    ensures
        r@ == buf@.subrange(start as int, end as int),
{
    slice_to_vec(slice_subrange(buf, start, end))
}

/// Appends the varint of `n`.
pub fn write_varint(out: &mut Vec<u8>, n: u64)
    ensures
        final(out)@ == old(out)@ + varint_bytes(n as nat),
    decreases n,
{
    if n < 128 {
        out.push(n as u8);
    } else {
        let ghost before = out@;
        out.push((n % 128 + 128) as u8);
        write_varint(out, n / 128);
        assert(out@ =~= before + varint_bytes(n as nat));
    }
}

/// Appends the bytes of `src`.
pub fn append_bytes(out: &mut Vec<u8>, src: &[u8])
    ensures
        final(out)@ == old(out)@ + src@,
{
    let ghost before = out@;
    let mut i: usize = 0;
    while i < src.len()
        invariant
            0 <= i <= src@.len(),
            out@ == before + src@.take(i as int),
        decreases src@.len() - i,
    {
        out.push(src[i]);
        i += 1;
        assert(out@ =~= before + src@.take(i as int));
    }
    assert(src@.take(i as int) =~= src@);
}

/// Appends a tagged, length-delimited record.
pub fn write_field(out: &mut Vec<u8>, tag: u8, payload: &[u8])
    ensures
        final(out)@ == old(out)@ + field_bytes(tag, payload@),
{
    let ghost before = out@;
    out.push(tag);
    write_varint(out, payload.len() as u64);
    append_bytes(out, payload);
    assert(out@ =~= before + field_bytes(tag, payload@));
}

} // verus!
