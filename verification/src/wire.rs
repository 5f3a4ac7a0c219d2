//! The wire format of the descriptors that a common element carries.
//!
//! A descriptor is a sequence of fields. Each field starts with a key, a
//! variable-length integer that holds the field's tag and its wire type, and
//! goes on with a value whose extent the wire type decides. Keys, integers and
//! the extent of a value are read by `prost`; which fields a descriptor has,
//! and what they mean, is decided here.

use vstd::arithmetic::power2::pow2;
use vstd::prelude::*;
use vstd::slice::slice_subrange;

verus! {

/// Wire type of a variable-length integer.
pub const WIRE_VARINT: u8 = 0;

/// Wire type of eight bytes.
pub const WIRE_FIXED64: u8 = 1;

/// Wire type of a length and that many bytes.
pub const WIRE_LEN: u8 = 2;

/// Wire type that opens a group.
pub const WIRE_GROUP_START: u8 = 3;

/// Wire type that closes a group.
pub const WIRE_GROUP_END: u8 = 4;

/// Wire type of four bytes.
pub const WIRE_FIXED32: u8 = 5;

/// The position of the first byte below `0x80` at or after `i`, searched among
/// the first ten bytes of `buf`.
pub open spec fn varint_last(buf: Seq<u8>, i: nat) -> Option<nat>
    decreases 10 - i,
{
    if i >= 10 || i >= buf.len() {
        None
    } else if buf[i as int] < 0x80 {
        Some(i)
    } else {
        varint_last(buf, i + 1)
    }
}

/// The number that the low seven bits of the first `n` bytes spell, the first
/// byte being the least significant.
pub open spec fn varint_sum(buf: Seq<u8>, n: nat) -> nat
    decreases n,
{
    if n == 0 {
        0
    } else {
        varint_sum(buf, (n - 1) as nat) + (buf[n - 1] % 128) as nat * pow2((7 * (n - 1)) as nat)
    }
}

/// The variable-length integer at the head of `buf`: its value and the number
/// of bytes it takes. There is none where no byte below `0x80` stands among
/// the first ten, or where the tenth byte would carry past 64 bits.
pub open spec fn varint(buf: Seq<u8>) -> Option<(u64, nat)> {
    match varint_last(buf, 0) {
        Some(last) => if last < 9 || buf[9] < 2 {
            Some((varint_sum(buf, last + 1) as u64, last + 1))
        } else {
            None
        },
        None => None,
    }
}

/// The key at the head of `buf`: the field's tag, its wire type, and the
/// number of bytes that the key takes.
pub open spec fn field_key(buf: Seq<u8>) -> Option<(u32, u8, nat)> {
    match varint(buf) {
        Some((k, n)) => if k <= u32::MAX && k % 8 <= 5 && k / 8 >= 1 {
            Some(((k / 8) as u32, (k % 8) as u8, n))
        } else {
            None
        },
        None => None,
    }
}

/// The number of bytes that a group with the tag `tag` takes at the head of
/// `buf`, its closing key included, as `prost::encoding::skip_field` finds it.
pub uninterp spec fn group_len(tag: u32, buf: Seq<u8>) -> Option<nat>;

/// The number of bytes that a value of the wire type `wire` takes at the head
/// of `buf`.
pub open spec fn value_len(wire: u8, tag: u32, buf: Seq<u8>) -> Option<nat> {
    if wire == WIRE_VARINT {
        match varint(buf) {
            Some((_, n)) => Some(n),
            None => None,
        }
    } else if wire == WIRE_FIXED64 {
        if buf.len() >= 8 {
            Some(8)
        } else {
            None
        }
    } else if wire == WIRE_LEN {
        match varint(buf) {
            Some((len, n)) => if len <= buf.len() - n {
                Some(n + len as nat)
            } else {
                None
            },
            None => None,
        }
    } else if wire == WIRE_GROUP_START {
        match group_len(tag, buf) {
            Some(n) => if n <= buf.len() {
                Some(n)
            } else {
                None
            },
            None => None,
        }
    } else if wire == WIRE_FIXED32 {
        if buf.len() >= 4 {
            Some(4)
        } else {
            None
        }
    } else {
        None
    }
}

/// What is left of a buffer of `len` bytes once `taken` of them are read.
pub open spec fn left_of(len: nat, taken: Option<nat>) -> Option<usize> {
    match taken {
        Some(n) => Some((len - n) as usize),
        None => None,
    }
}

/// A variable-length integer never takes less than one byte, nor more than
/// ten, nor more than the buffer holds.
pub proof fn lemma_varint_len(buf: Seq<u8>)
    ensures
        varint(buf) matches Some((_, n)) ==> 1 <= n <= 10 && n <= buf.len(),
{
    lemma_varint_last(buf, 0);
}

proof fn lemma_varint_last(buf: Seq<u8>, i: nat)
    ensures
        varint_last(buf, i) matches Some(last) ==> i <= last < 10 && last < buf.len(),
    decreases 10 - i,
{
    if i < 10 && i < buf.len() && buf[i as int] >= 0x80 {
        lemma_varint_last(buf, i + 1);
    }
}

/// Where a value has an extent, it lies within the buffer.
pub proof fn lemma_value_len(wire: u8, tag: u32, buf: Seq<u8>)
    ensures
        value_len(wire, tag, buf) matches Some(n) ==> n <= buf.len(),
{
    lemma_varint_len(buf);
}

/// Calls `prost::encoding::decode_varint` on `buf`. The claim: it reads the
/// little-endian base-128 integer at the head of the buffer, fails where
/// `varint` has none, and the second component is the number of bytes that it
/// left unread.
#[verifier::external_body]
pub(crate) fn decode_varint(buf: &[u8]) -> (r: Option<(u64, usize)>)
    ensures
        r == match varint(buf@) {
            Some((v, n)) => Some((v, (buf@.len() - n) as usize)),
            None => None::<(u64, usize)>,
        },
{
    let mut rest = buf;
    let value = prost::encoding::decode_varint(&mut rest).ok()?;
    Some((value, rest.len()))
}

/// Calls `prost::encoding::decode_key` on `buf`. The claim: it reads one
/// variable-length integer, fails where that integer exceeds 32 bits, names a
/// wire type above 5 or the tag 0, and else returns the tag (the integer
/// without its low three bits), the wire type (those three bits) and the
/// number of bytes that it left unread.
#[verifier::external_body]
pub(crate) fn decode_key(buf: &[u8]) -> (r: Option<(u32, u8, usize)>)
    ensures
        r == match field_key(buf@) {
            Some((tag, wire, n)) => Some((tag, wire, (buf@.len() - n) as usize)),
            None => None::<(u32, u8, usize)>,
        },
{
    let mut rest = buf;
    let (tag, wire_type) = prost::encoding::decode_key(&mut rest).ok()?;
    Some((tag, wire_type as u8, rest.len()))
}

/// Calls `prost::encoding::skip_field` on `buf`, with a fresh decoding
/// context. The claim: it steps over one value of the given wire type and
/// returns the number of bytes that it left unread; it fails where the value
/// is cut short, and on the wire type that closes a group. For a group the
/// extent is whatever `skip_field` finds, which `group_len` names; the other
/// wire types are spelled out in `value_len`.
#[verifier::external_body]
pub(crate) fn skip_value(wire: u8, tag: u32, buf: &[u8]) -> (r: Option<usize>)
    requires
        wire <= 5,
    ensures
        wire == WIRE_GROUP_START ==> r == left_of(
            buf@.len(),
            match group_len(tag, buf@) {
                Some(n) => if n <= buf@.len() {
                    Some(n)
                } else {
                    None
                },
                None => None,
            },
        ),
        wire != WIRE_GROUP_START ==> r == left_of(buf@.len(), value_len(wire, tag, buf@)),
{
    let mut rest = buf;
    let wire_type = prost::encoding::WireType::try_from(u64::from(wire)).ok()?;
    let ctx = prost::encoding::DecodeContext::default();
    prost::encoding::skip_field(wire_type, tag, &mut rest, ctx).ok()?;
    Some(rest.len())
}

/// One field as it lies in a buffer: the value takes the bytes from `start`
/// up to `end`, where the next field begins.
#[derive(Clone, Copy, Debug, PartialEq, Eq, Structural)]
pub struct FieldHead {
    pub tag: u32,
    pub wire: u8,
    pub start: usize,
    pub end: usize,
}

/// The field at the head of `buf`, if a whole one lies there.
pub open spec fn first_field(buf: Seq<u8>) -> Option<FieldHead> {
    match field_key(buf) {
        Some((tag, wire, n)) => match value_len(wire, tag, buf.skip(n as int)) {
            Some(m) => Some(FieldHead { tag, wire, start: n as usize, end: (n + m) as usize }),
            None => None,
        },
        None => None,
    }
}

/// A field takes at least the byte of its key and ends within the buffer.
pub proof fn lemma_first_field(buf: Seq<u8>)
    requires
        buf.len() <= usize::MAX,
    ensures
        first_field(buf) matches Some(f) ==> 1 <= f.start <= f.end <= buf.len() && f.wire <= 5,
{
    lemma_varint_len(buf);
    if let Some((tag, wire, n)) = field_key(buf) {
        lemma_value_len(wire, tag, buf.skip(n as int));
    }
}

/// Reads the field at the head of `buf`.
pub fn read_field(buf: &[u8]) -> (r: Option<FieldHead>)
    ensures
        r == first_field(buf@),
{
    let total = buf.len();
    proof {
        lemma_first_field(buf@);
        lemma_varint_len(buf@);
    }
    match decode_key(buf) {
        None => None,
        Some((tag, wire, left)) => {
            let start: usize = total - left;
            let value = slice_subrange(buf, start, total);
            proof {
                lemma_value_len(wire, tag, value@);
            }
            match skip_value(wire, tag, value) {
                None => None,
                Some(after) => Some(FieldHead { tag, wire, start, end: total - after }),
            }
        },
    }
}

} // verus!
