//! The two descriptors that a common element may carry in its payload: the
//! pictures of a flash image, and the extended face.
//!
//! Both are read field by field. A field that a descriptor does not know is
//! stepped over; a field that it knows must come with the wire type that it
//! is declared with, or the whole descriptor is refused.

use crate::wire::{
    decode_varint, first_field, lemma_first_field, lemma_varint_len, read_field, varint, WIRE_LEN,
    WIRE_VARINT,
};
use vstd::prelude::*;
use vstd::slice::slice_subrange;

verus! {

/// Tag of the group picture in a flash image descriptor.
pub const FLASH_GROUP_PIC: u32 = 1;

/// Tag of the friend picture in a flash image descriptor.
pub const FLASH_FRIEND_PIC: u32 = 2;

/// Tag of the index in an extended face descriptor.
pub const FACE_INDEX: u32 = 1;

/// Tag of the last of the three byte strings (text, compatible text, buffer)
/// that follow the index in an extended face descriptor.
pub const FACE_LAST_BYTES: u32 = 4;

/// Whether `buf` is a sequence of whole fields and nothing else.
pub open spec fn well_formed(buf: Seq<u8>) -> bool
    decreases buf.len(),
{
    if buf.len() == 0 {
        true
    } else {
        match first_field(buf) {
            Some(f) => 0 < f.end <= buf.len() && well_formed(buf.skip(f.end as int)),
            None => false,
        }
    }
}

/// The bytes that a length-delimited value holds behind its length, where
/// the value is exactly a length and that many bytes.
pub open spec fn delimited(value: Seq<u8>) -> Option<Seq<u8>> {
    match varint(value) {
        Some((len, n)) => if n + len == value.len() {
            Some(value.skip(n as int))
        } else {
            None
        },
        None => None,
    }
}

/// Decides whether `buf` is a sequence of whole fields.
pub fn is_well_formed(buf: &[u8]) -> (ok: bool)
    ensures
        ok == well_formed(buf@),
{
    let total = buf.len();
    let mut pos: usize = 0;
    proof {
        assert(buf@.skip(0) =~= buf@);
    }
    while pos < total
        invariant
            pos <= total == buf@.len(),
            well_formed(buf@) == well_formed(buf@.skip(pos as int)),
        decreases total - pos,
    {
        let rest = slice_subrange(buf, pos, total);
        proof {
            assert(rest@ =~= buf@.skip(pos as int));
            lemma_first_field(rest@);
        }
        match read_field(rest) {
            None => {
                return false;
            },
            Some(f) => {
                proof {
                    assert(rest@.skip(f.end as int) =~= buf@.skip(pos + f.end));
                }
                pos = pos + f.end;
            },
        }
    }
    true
}

/// Splits a length-delimited value into its length and its bytes, and hands
/// out the bytes.
pub fn read_delimited(value: &[u8]) -> (r: Option<&[u8]>)
    ensures
        match delimited(value@) {
            Some(body) => r is Some && r->0@ == body,
            None => r is None,
        },
{
    let total = value.len();
    proof {
        lemma_varint_len(value@);
    }
    match decode_varint(value) {
        None => None,
        Some((len, left)) => {
            if len == left as u64 {
                let body = slice_subrange(value, total - left, total);
                proof {
                    assert(body@ =~= value@.skip(total - left));
                }
                Some(body)
            } else {
                None
            }
        },
    }
}

/// The pictures of a flash image descriptor. Each is kept as the bytes of its
/// own descriptor, which the classifier hands on without looking inside.
#[derive(Clone, Debug)]
pub struct FlashDescriptor {
    /// The picture as a group shows it.
    pub group_pic: Option<Vec<u8>>,
    /// The picture as a private conversation shows it.
    pub friend_pic: Option<Vec<u8>>,
}

/// What a `FlashDescriptor` holds.
pub struct FlashPictures {
    pub group: Option<Seq<u8>>,
    pub friend: Option<Seq<u8>>,
}

/// What an optional byte string holds.
pub open spec fn bytes_of(v: Option<Vec<u8>>) -> Option<Seq<u8>> {
    match v {
        Some(b) => Some(b@),
        None => None,
    }
}

/// `body` behind what `prev` holds, if anything.
pub open spec fn joined(prev: Option<Seq<u8>>, body: Seq<u8>) -> Seq<u8> {
    match prev {
        Some(p) => p + body,
        None => body,
    }
}

impl View for FlashDescriptor {
    type V = FlashPictures;

    open spec fn view(&self) -> FlashPictures {
        FlashPictures { group: bytes_of(self.group_pic), friend: bytes_of(self.friend_pic) }
    }
}

/// A flash image descriptor after one more field. A picture must be
/// length-delimited and well formed; where a picture comes twice, the second
/// continues the first. Any other field changes nothing.
pub open spec fn flash_accept(acc: FlashPictures, tag: u32, wire: u8, value: Seq<u8>) -> Option<
    FlashPictures,
> {
    if tag == FLASH_GROUP_PIC || tag == FLASH_FRIEND_PIC {
        if wire != WIRE_LEN {
            None
        } else {
            match delimited(value) {
                Some(body) => if !well_formed(body) {
                    None
                } else if tag == FLASH_GROUP_PIC {
                    Some(FlashPictures { group: Some(joined(acc.group, body)), friend: acc.friend })
                } else {
                    Some(FlashPictures { group: acc.group, friend: Some(joined(acc.friend, body)) })
                },
                None => None,
            }
        }
    } else {
        Some(acc)
    }
}

/// The flash image descriptor that `buf` adds to `acc`, field by field.
pub open spec fn flash_fields(buf: Seq<u8>, acc: FlashPictures) -> Option<FlashPictures>
    decreases buf.len(),
{
    if buf.len() == 0 {
        Some(acc)
    } else {
        match first_field(buf) {
            Some(f) => if 0 < f.end <= buf.len() {
                match flash_accept(acc, f.tag, f.wire, buf.subrange(f.start as int, f.end as int)) {
                    Some(next) => flash_fields(buf.skip(f.end as int), next),
                    None => None,
                }
            } else {
                None
            },
            None => None,
        }
    }
}

/// The flash image descriptor that `buf` encodes, if it encodes one.
pub open spec fn flash_pictures(buf: Seq<u8>) -> Option<FlashPictures> {
    flash_fields(buf, FlashPictures { group: None, friend: None })
}

fn append_bytes(prev: Option<Vec<u8>>, body: &[u8]) -> (r: Vec<u8>)
    ensures
        r@ == joined(bytes_of(prev), body@),
{
    let mut out: Vec<u8> = match prev {
        Some(p) => p,
        None => Vec::new(),
    };
    let ghost before = out@;
    let mut i: usize = 0;
    while i < body.len()
        invariant
            i <= body@.len(),
            out@ == before + body@.take(i as int),
        decreases body@.len() - i,
    {
        out.push(body[i]);
        proof {
            assert(body@.take(i + 1) =~= body@.take(i as int).push(body@[i as int]));
        }
        i = i + 1;
    }
    proof {
        assert(body@.take(i as int) =~= body@);
        assert(Seq::<u8>::empty() + body@ =~= body@);
    }
    out
}

impl FlashDescriptor {
    /// A descriptor without pictures.
    pub fn new() -> (d: FlashDescriptor)
        ensures
            d@ == (FlashPictures { group: None, friend: None }),
    {
        FlashDescriptor { group_pic: None, friend_pic: None }
    }

    /// Takes one field into the descriptor: its tag, its wire type and the
    /// bytes of its value. Returns `None` where the field makes the
    /// descriptor invalid.
    pub fn accept(self, tag: u32, wire: u8, value: &[u8]) -> (r: Option<FlashDescriptor>)
        ensures
            match flash_accept(self@, tag, wire, value@) {
                Some(p) => r is Some && r->0@ == p,
                None => r is None,
            },
    {
        if tag != FLASH_GROUP_PIC && tag != FLASH_FRIEND_PIC {
            return Some(self);
        }
        if wire != WIRE_LEN {
            return None;
        }
        match read_delimited(value) {
            None => None,
            Some(body) => {
                if !is_well_formed(body) {
                    return None;
                }
                if tag == FLASH_GROUP_PIC {
                    let group = append_bytes(self.group_pic, body);
                    Some(FlashDescriptor { group_pic: Some(group), friend_pic: self.friend_pic })
                } else {
                    let friend = append_bytes(self.friend_pic, body);
                    Some(FlashDescriptor { group_pic: self.group_pic, friend_pic: Some(friend) })
                }
            },
        }
    }

    /// Decodes a flash image descriptor from the payload of a common element.
    /// Returns `None` where the payload is not a sequence of whole fields, or
    /// holds a picture that is not a well-formed length-delimited value.
    pub fn decode(buf: &[u8]) -> (r: Option<FlashDescriptor>)
        ensures
            match flash_pictures(buf@) {
                Some(p) => r is Some && r->0@ == p,
                None => r is None,
            },
    {
        let total = buf.len();
        let mut pos: usize = 0;
        let mut acc = FlashDescriptor::new();
        proof {
            assert(buf@.skip(0) =~= buf@);
        }
        while pos < total
            invariant
                pos <= total == buf@.len(),
                flash_pictures(buf@) == flash_fields(buf@.skip(pos as int), acc@),
            decreases total - pos,
        {
            let rest = slice_subrange(buf, pos, total);
            proof {
                assert(rest@ =~= buf@.skip(pos as int));
                lemma_first_field(rest@);
            }
            match read_field(rest) {
                None => {
                    return None;
                },
                Some(f) => {
                    let value = slice_subrange(rest, f.start, f.end);
                    match acc.accept(f.tag, f.wire, value) {
                        None => {
                            return None;
                        },
                        Some(next) => {
                            acc = next;
                        },
                    }
                    proof {
                        assert(rest@.skip(f.end as int) =~= buf@.skip(pos + f.end));
                    }
                    pos = pos + f.end;
                },
            }
        }
        Some(acc)
    }
}

/// The extended face descriptor, of which only the index is kept.
#[derive(Clone, Copy, Debug, PartialEq, Eq, Structural)]
pub struct ExtendedFace {
    /// The number of the face.
    pub index: u32,
}

/// An extended face descriptor after one more field. The index must be a
/// variable-length integer, of which the low 32 bits count, and the last
/// index wins; the three byte strings must be length-delimited. Any other
/// field changes nothing.
pub open spec fn face_accept(acc: ExtendedFace, tag: u32, wire: u8, value: Seq<u8>) -> Option<
    ExtendedFace,
> {
    if tag == FACE_INDEX {
        if wire != WIRE_VARINT {
            None
        } else {
            match varint(value) {
                Some((v, _)) => Some(ExtendedFace { index: v as u32 }),
                None => None,
            }
        }
    } else if tag <= FACE_LAST_BYTES {
        if wire != WIRE_LEN {
            None
        } else {
            Some(acc)
        }
    } else {
        Some(acc)
    }
}

/// The extended face descriptor that `buf` adds to `acc`, field by field.
pub open spec fn face_fields(buf: Seq<u8>, acc: ExtendedFace) -> Option<ExtendedFace>
    decreases buf.len(),
{
    if buf.len() == 0 {
        Some(acc)
    } else {
        match first_field(buf) {
            Some(f) => if 0 < f.end <= buf.len() {
                match face_accept(acc, f.tag, f.wire, buf.subrange(f.start as int, f.end as int)) {
                    Some(next) => face_fields(buf.skip(f.end as int), next),
                    None => None,
                }
            } else {
                None
            },
            None => None,
        }
    }
}

/// The extended face descriptor that `buf` encodes, if it encodes one. A
/// descriptor without an index has the index 0.
pub open spec fn extended_face(buf: Seq<u8>) -> Option<ExtendedFace> {
    face_fields(buf, ExtendedFace { index: 0 })
}

impl ExtendedFace {
    /// Takes one field into the descriptor: its tag, its wire type and the
    /// bytes of its value. Returns `None` where the field makes the
    /// descriptor invalid.
    pub fn accept(self, tag: u32, wire: u8, value: &[u8]) -> (r: Option<ExtendedFace>)
        ensures
            r == face_accept(self, tag, wire, value@),
    {
        if tag == FACE_INDEX {
            if wire != WIRE_VARINT {
                return None;
            }
            match decode_varint(value) {
                None => None,
                Some((v, _)) => Some(ExtendedFace { index: v as u32 }),
            }
        } else if tag <= FACE_LAST_BYTES {
            if wire != WIRE_LEN {
                None
            } else {
                Some(self)
            }
        } else {
            Some(self)
        }
    }

    /// Decodes an extended face descriptor from the payload of a common
    /// element. Returns `None` where the payload is not a sequence of whole
    /// fields, or holds a known field with another wire type than its own.
    pub fn decode(buf: &[u8]) -> (r: Option<ExtendedFace>)
        ensures
            r == extended_face(buf@),
    {
        let total = buf.len();
        let mut pos: usize = 0;
        let mut acc = ExtendedFace { index: 0 };
        proof {
            assert(buf@.skip(0) =~= buf@);
        }
        while pos < total
            invariant
                pos <= total == buf@.len(),
                extended_face(buf@) == face_fields(buf@.skip(pos as int), acc),
            decreases total - pos,
        {
            let rest = slice_subrange(buf, pos, total);
            proof {
                assert(rest@ =~= buf@.skip(pos as int));
                lemma_first_field(rest@);
            }
            match read_field(rest) {
                None => {
                    return None;
                },
                Some(f) => {
                    let value = slice_subrange(rest, f.start, f.end);
                    match acc.accept(f.tag, f.wire, value) {
                        None => {
                            return None;
                        },
                        Some(next) => {
                            acc = next;
                        },
                    }
                    proof {
                        assert(rest@.skip(f.end as int) =~= buf@.skip(pos + f.end));
                    }
                    pos = pos + f.end;
                },
            }
        }
        Some(acc)
    }
}

} // verus!
