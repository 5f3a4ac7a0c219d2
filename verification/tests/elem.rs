use prost::encoding::{encode_key, encode_varint, WireType};
use ricq::descriptor::{is_well_formed, read_delimited, ExtendedFace, FlashDescriptor};
use ricq::elem::{
    classify_common, same_text, At, CommonElem, CommonKind, Dice, Face, FingerGuessing,
    FlashImage, FriendImage, GroupImage, LightApp, MarketFace, RQElem, RawElem, RawText, RichMsg,
    Text, VideoFile,
};
use ricq::wire::{read_field, FieldHead};

fn market_face(name: &str) -> RawElem {
    RawElem::MarketFace(MarketFace {
        name: name.to_string(),
        face_id: vec![1, 2, 3],
        tab_id: 11,
        key: vec![9],
    })
}

fn common(service_type: i32, payload: Vec<u8>) -> RawElem {
    RawElem::Common(CommonElem { service_type, payload, business_type: 0 })
}

/// A length-delimited field, written with the encoder of the wire format.
fn delimited_field(tag: u32, body: &[u8]) -> Vec<u8> {
    let mut out: Vec<u8> = Vec::new();
    encode_key(tag, WireType::LengthDelimited, &mut out);
    encode_varint(body.len() as u64, &mut out);
    out.extend_from_slice(body);
    out
}

fn varint_field(tag: u32, value: u64) -> Vec<u8> {
    let mut out: Vec<u8> = Vec::new();
    encode_key(tag, WireType::Varint, &mut out);
    encode_varint(value, &mut out);
    out
}

fn assert_passthrough_of_common(elem: RQElem, service_type: i32, payload: &[u8]) {
    match elem {
        RQElem::Other(raw) => match *raw {
            RawElem::Common(c) => {
                assert_eq!(c.service_type, service_type);
                assert_eq!(c.payload, payload);
                assert_eq!(c.business_type, 0);
            }
            other => panic!("another element came back: {:?}", other),
        },
        other => panic!("not handed on as it came: {:?}", other),
    }
}

#[test]
fn text_without_mention_is_text() {
    let raw = RawElem::Text(RawText { text: "hello".to_string(), mention: vec![] });
    match RQElem::classify(raw) {
        RQElem::Text(t) => assert_eq!(t.content, "hello"),
        other => panic!("{:?}", other),
    }
}

#[test]
fn text_with_mention_is_at() {
    let attr = vec![0, 1, 0, 0, 0, 5, 0, 0, 0, 48, 57, 0, 0];
    let raw = RawElem::Text(RawText { text: "@someone".to_string(), mention: attr.clone() });
    match RQElem::classify(raw) {
        RQElem::At(a) => {
            assert_eq!(a.display, "@someone");
            assert_eq!(a.mention, attr);
        }
        other => panic!("{:?}", other),
    }
}

#[test]
fn face_stays_face() {
    match RQElem::classify(RawElem::Face(Face { index: 14 })) {
        RQElem::Face(f) => assert_eq!(f.index, 14),
        other => panic!("{:?}", other),
    }
}

#[test]
fn dice_has_two_captions() {
    for caption in ["[骰子]", "[随机骰子]"] {
        match RQElem::classify(market_face(caption)) {
            RQElem::Dice(d) => {
                assert_eq!(d.face.name, caption);
                assert_eq!(d.face.face_id, vec![1, 2, 3]);
                assert_eq!(d.face.tab_id, 11);
                assert_eq!(d.face.key, vec![9]);
            }
            other => panic!("{:?}", other),
        }
    }
}

#[test]
fn finger_guessing_has_one_caption() {
    match RQElem::classify(market_face("[猜拳]")) {
        RQElem::FingerGuessing(g) => assert_eq!(g.face.name, "[猜拳]"),
        other => panic!("{:?}", other),
    }
}

#[test]
fn other_captions_are_plain_market_faces() {
    for caption in ["[骰子", "骰子", "[猜拳] ", "", "[dice]", "[随机骰子][骰子]"] {
        match RQElem::classify(market_face(caption)) {
            RQElem::MarketFace(m) => assert_eq!(m.name, caption),
            other => panic!("{:?}", other),
        }
    }
}

#[test]
fn same_text_compares_characters() {
    assert!(same_text(&"[猜拳]".to_string(), "[猜拳]"));
    assert!(!same_text(&"[猜拳]".to_string(), "[猜拳"));
    assert!(same_text(&String::new(), ""));
}

#[test]
fn cards_pictures_and_videos_map_one_to_one() {
    match RQElem::classify(RawElem::LightApp(LightApp { content: "{}".to_string() })) {
        RQElem::LightApp(a) => assert_eq!(a.content, "{}"),
        other => panic!("{:?}", other),
    }
    let rich = RichMsg { service_id: 33, template: "<msg/>".to_string() };
    match RQElem::classify(RawElem::RichMsg(rich)) {
        RQElem::RichMsg(m) => {
            assert_eq!(m.service_id, 33);
            assert_eq!(m.template, "<msg/>");
        }
        other => panic!("{:?}", other),
    }
    let video =
        VideoFile { name: "a.mp4".to_string(), uuid: vec![7], md5: vec![8; 16], size: 1024 };
    match RQElem::classify(RawElem::VideoFile(video)) {
        RQElem::VideoFile(v) => {
            assert_eq!(v.name, "a.mp4");
            assert_eq!(v.uuid, vec![7]);
            assert_eq!(v.md5, vec![8; 16]);
            assert_eq!(v.size, 1024);
        }
        other => panic!("{:?}", other),
    }
    match RQElem::classify(RawElem::NotOnlineImage(FriendImage { descriptor: vec![1, 2] })) {
        RQElem::FriendImage(i) => assert_eq!(i.descriptor, vec![1, 2]),
        other => panic!("{:?}", other),
    }
    match RQElem::classify(RawElem::CustomFace(GroupImage { descriptor: vec![3, 4] })) {
        RQElem::GroupImage(i) => assert_eq!(i.descriptor, vec![3, 4]),
        other => panic!("{:?}", other),
    }
}

#[test]
fn unrecognized_kind_is_handed_on_whole() {
    let payload: Vec<u8> = (0..=255).collect();
    let raw = RawElem::Unrecognized { kind: 37, payload: payload.clone() };
    let elem = RQElem::classify(raw);
    match elem.passthrough() {
        Some(RawElem::Unrecognized { kind, payload: kept }) => {
            assert_eq!(*kind, 37);
            assert_eq!(*kept, payload);
        }
        other => panic!("{:?}", other),
    }
}

#[test]
fn passthrough_is_none_for_typed_elements() {
    let elem = RQElem::classify(RawElem::Face(Face { index: 1 }));
    assert!(elem.passthrough().is_none());
}

#[test]
fn flash_image_of_a_group() {
    let picture = delimited_field(2, b"a.jpg");
    assert_eq!(picture, vec![0x12, 0x05, b'a', b'.', b'j', b'p', b'g']);
    let payload = delimited_field(1, &picture);
    match RQElem::classify(common(3, payload)) {
        RQElem::FlashImage(FlashImage::Group(g)) => assert_eq!(g.descriptor, picture),
        other => panic!("{:?}", other),
    }
}

#[test]
fn flash_image_of_a_friend() {
    let picture = delimited_field(1, b"b.png");
    let payload = delimited_field(2, &picture);
    match RQElem::classify(common(3, payload)) {
        RQElem::FlashImage(FlashImage::Friend(f)) => assert_eq!(f.descriptor, picture),
        other => panic!("{:?}", other),
    }
}

#[test]
fn flash_image_prefers_the_group_picture() {
    let friend = delimited_field(1, b"b.png");
    let group = delimited_field(2, b"a.jpg");
    let mut payload = delimited_field(2, &friend);
    payload.extend_from_slice(&delimited_field(1, &group));
    match RQElem::classify(common(3, payload)) {
        RQElem::FlashImage(FlashImage::Group(g)) => assert_eq!(g.descriptor, group),
        other => panic!("{:?}", other),
    }
}

#[test]
fn flash_image_with_an_empty_picture() {
    match RQElem::classify(common(3, vec![0x0a, 0x00])) {
        RQElem::FlashImage(FlashImage::Group(g)) => assert!(g.descriptor.is_empty()),
        other => panic!("{:?}", other),
    }
}

#[test]
fn flash_image_without_pictures_is_handed_on() {
    assert_passthrough_of_common(RQElem::classify(common(3, vec![])), 3, &[]);
    let unknown_only = varint_field(9, 1);
    assert_passthrough_of_common(
        RQElem::classify(common(3, unknown_only.clone())),
        3,
        &unknown_only,
    );
}

#[test]
fn flash_image_that_does_not_decode_is_handed_on() {
    // A length of five, and one byte behind it.
    let cut_short = vec![0x0a, 0x05, 0x01];
    assert_passthrough_of_common(RQElem::classify(common(3, cut_short.clone())), 3, &cut_short);
    // The group picture as a variable-length integer.
    let wrong_wire = varint_field(1, 7);
    assert_passthrough_of_common(RQElem::classify(common(3, wrong_wire.clone())), 3, &wrong_wire);
    // A picture whose own descriptor is cut short.
    let broken_picture = delimited_field(1, &[0x12, 0x05, b'a']);
    assert_passthrough_of_common(
        RQElem::classify(common(3, broken_picture.clone())),
        3,
        &broken_picture,
    );
    // A key that never ends.
    let endless = vec![0xff; 11];
    assert_passthrough_of_common(RQElem::classify(common(3, endless.clone())), 3, &endless);
}

#[test]
fn extended_face_gives_a_face() {
    match RQElem::classify(common(33, vec![0x08, 0x05])) {
        RQElem::Face(f) => assert_eq!(f.index, 5),
        other => panic!("{:?}", other),
    }
    let mut payload = varint_field(1, 300);
    assert_eq!(payload, vec![0x08, 0xac, 0x02]);
    payload.extend_from_slice(&delimited_field(2, "/笑".as_bytes()));
    payload.extend_from_slice(&delimited_field(3, b"/x"));
    payload.extend_from_slice(&delimited_field(4, &[]));
    match RQElem::classify(common(33, payload)) {
        RQElem::Face(f) => assert_eq!(f.index, 300),
        other => panic!("{:?}", other),
    }
}

#[test]
fn extended_face_without_index_is_face_zero() {
    match RQElem::classify(common(33, vec![])) {
        RQElem::Face(f) => assert_eq!(f.index, 0),
        other => panic!("{:?}", other),
    }
}

#[test]
fn extended_face_that_does_not_decode_is_handed_on() {
    let wrong_wire = delimited_field(1, &[5]);
    assert_passthrough_of_common(
        RQElem::classify(common(33, wrong_wire.clone())),
        33,
        &wrong_wire,
    );
    let text_as_integer = varint_field(2, 5);
    assert_passthrough_of_common(
        RQElem::classify(common(33, text_as_integer.clone())),
        33,
        &text_as_integer,
    );
    let cut_short = vec![0x08];
    assert_passthrough_of_common(RQElem::classify(common(33, cut_short.clone())), 33, &cut_short);
}

#[test]
fn other_service_types_are_handed_on() {
    let payload = vec![0x08, 0x05];
    for service_type in [0, 1, 2, 4, 32, 34, -1, i32::MAX] {
        assert_passthrough_of_common(
            RQElem::classify(common(service_type, payload.clone())),
            service_type,
            &payload,
        );
    }
}

#[test]
fn read_field_finds_tag_wire_and_extent() {
    let buf = [0x12, 0x03, 1, 2, 3, 0x08, 0x01];
    assert_eq!(read_field(&buf), Some(FieldHead { tag: 2, wire: 2, start: 1, end: 5 }));
    assert_eq!(read_field(&buf[5..]), Some(FieldHead { tag: 1, wire: 0, start: 1, end: 2 }));
    // Four and eight bytes.
    assert_eq!(
        read_field(&[0x1d, 1, 2, 3, 4, 9]),
        Some(FieldHead { tag: 3, wire: 5, start: 1, end: 5 })
    );
    assert_eq!(
        read_field(&[0x19, 1, 2, 3, 4, 5, 6, 7, 8]),
        Some(FieldHead { tag: 3, wire: 1, start: 1, end: 9 })
    );
    assert_eq!(read_field(&[0x1d, 1, 2, 3]), None);
    // A tag of two bytes.
    assert_eq!(
        read_field(&[0x80, 0x01, 0x07]),
        Some(FieldHead { tag: 16, wire: 0, start: 2, end: 3 })
    );
}

#[test]
fn read_field_refuses_what_is_no_field() {
    assert_eq!(read_field(&[]), None);
    // The tag zero.
    assert_eq!(read_field(&[0x00, 0x01]), None);
    // The wire types six and seven.
    assert_eq!(read_field(&[0x0e, 0x01]), None);
    assert_eq!(read_field(&[0x0f, 0x01]), None);
    // The end of a group that was not opened.
    assert_eq!(read_field(&[0x0c]), None);
    // A key above 32 bits.
    assert_eq!(read_field(&[0x80, 0x80, 0x80, 0x80, 0x10, 0x01]), None);
    // An integer whose tenth byte carries too far.
    let mut too_far = vec![0x08];
    too_far.extend_from_slice(&[0xff; 9]);
    too_far.push(0x02);
    assert_eq!(read_field(&too_far), None);
    let mut largest = vec![0x08];
    largest.extend_from_slice(&[0xff; 9]);
    largest.push(0x01);
    assert_eq!(read_field(&largest), Some(FieldHead { tag: 1, wire: 0, start: 1, end: 11 }));
}

#[test]
fn read_field_steps_over_groups() {
    // Field 5 opens a group, holds field 1, and closes it.
    let buf = [0x2b, 0x08, 0x01, 0x2c, 0x08, 0x07];
    assert_eq!(read_field(&buf), Some(FieldHead { tag: 5, wire: 3, start: 1, end: 4 }));
    // Closed under another tag.
    assert_eq!(read_field(&[0x2b, 0x34]), None);
    // Never closed.
    assert_eq!(read_field(&[0x2b, 0x08, 0x01]), None);
    assert_eq!(ExtendedFace::decode(&buf), Some(ExtendedFace { index: 7 }));
}

#[test]
fn well_formed_is_a_sequence_of_whole_fields() {
    assert!(is_well_formed(&[]));
    assert!(is_well_formed(&[0x08, 0x01, 0x12, 0x00]));
    assert!(!is_well_formed(&[0x08]));
    assert!(!is_well_formed(&[0x08, 0x01, 0x12]));
    assert!(!is_well_formed(&[0x08, 0x01, 0x12, 0x02, 0x00]));
}

#[test]
fn read_delimited_wants_length_and_bytes_exactly() {
    assert_eq!(read_delimited(&[0x02, 7, 8]), Some(&[7u8, 8][..]));
    assert_eq!(read_delimited(&[0x00]), Some(&[][..]));
    assert_eq!(read_delimited(&[0x02, 7]), None);
    assert_eq!(read_delimited(&[0x01, 7, 8]), None);
    assert_eq!(read_delimited(&[]), None);
}

#[test]
fn flash_descriptor_joins_a_picture_that_comes_twice() {
    let first = delimited_field(2, b"a");
    let second = varint_field(7, 640);
    let mut payload = delimited_field(1, &first);
    payload.extend_from_slice(&delimited_field(1, &second));
    let d = FlashDescriptor::decode(&payload).expect("two whole fields");
    let mut both = first.clone();
    both.extend_from_slice(&second);
    assert_eq!(d.group_pic, Some(both));
    assert_eq!(d.friend_pic, None);
}

#[test]
fn flash_descriptor_accepts_field_by_field() {
    let d = FlashDescriptor::new();
    let d = d.accept(9, 0, &[0x01]).expect("an unknown field changes nothing");
    assert_eq!(d.group_pic, None);
    let d = d.accept(2, 2, &[0x02, 0x08, 0x01]).expect("a friend picture");
    assert_eq!(d.friend_pic, Some(vec![0x08, 0x01]));
    assert!(d.clone().accept(1, 0, &[0x01]).is_none());
    assert!(d.clone().accept(1, 2, &[0x02, 0x08]).is_none());
    assert!(d.accept(1, 2, &[0x01, 0x08]).is_none());
}

#[test]
fn extended_face_keeps_the_last_index_and_its_low_bits() {
    let mut payload = varint_field(1, 3);
    payload.extend_from_slice(&varint_field(1, 4));
    assert_eq!(ExtendedFace::decode(&payload), Some(ExtendedFace { index: 4 }));
    let wide = varint_field(1, (1u64 << 32) + 9);
    assert_eq!(ExtendedFace::decode(&wide), Some(ExtendedFace { index: 9 }));
    let face = ExtendedFace { index: 1 };
    assert_eq!(face.accept(1, 0, &[0x7f]), Some(ExtendedFace { index: 127 }));
    assert_eq!(face.accept(1, 2, &[0x00]), None);
    assert_eq!(face.accept(4, 0, &[0x00]), None);
    assert_eq!(face.accept(5, 0, &[0x00]), Some(face));
}

#[test]
fn service_type_names_the_kind_of_payload() {
    let of = |service_type: i32| CommonElem { service_type, payload: vec![], business_type: 0 }.kind();
    assert_eq!(of(3), CommonKind::FlashImage);
    assert_eq!(of(33), CommonKind::ExtendedFace);
    for other in [0, 2, 4, 32, 34, 333, -3, i32::MIN, i32::MAX] {
        assert_eq!(of(other), CommonKind::Unknown);
    }
}

#[test]
fn common_element_follows_what_its_descriptor_decoded_to() {
    let elem = |service_type: i32| CommonElem { service_type, payload: vec![9], business_type: 0 };
    let both = FlashDescriptor { group_pic: Some(vec![1]), friend_pic: Some(vec![2]) };
    match classify_common(elem(3), Some(both), None) {
        RQElem::FlashImage(FlashImage::Group(g)) => assert_eq!(g.descriptor, vec![1]),
        other => panic!("{:?}", other),
    }
    let friend = FlashDescriptor { group_pic: None, friend_pic: Some(vec![2]) };
    match classify_common(elem(3), Some(friend), None) {
        RQElem::FlashImage(FlashImage::Friend(f)) => assert_eq!(f.descriptor, vec![2]),
        other => panic!("{:?}", other),
    }
    assert_passthrough_of_common(
        classify_common(elem(3), Some(FlashDescriptor::new()), None),
        3,
        &[9],
    );
    assert_passthrough_of_common(classify_common(elem(3), None, None), 3, &[9]);
    // A face that came with a flash image counts for nothing.
    assert_passthrough_of_common(
        classify_common(elem(3), None, Some(ExtendedFace { index: 1 })),
        3,
        &[9],
    );
    match classify_common(elem(33), None, Some(ExtendedFace { index: u32::MAX })) {
        RQElem::Face(f) => assert_eq!(f.index, -1),
        other => panic!("{:?}", other),
    }
    assert_passthrough_of_common(classify_common(elem(33), None, None), 33, &[9]);
    assert_passthrough_of_common(
        classify_common(elem(5), Some(FlashDescriptor::new()), None),
        5,
        &[9],
    );
}

#[test]
fn from_raw_element_classifies() {
    match RQElem::from(market_face("[骰子]")) {
        RQElem::Dice(_) => {}
        other => panic!("{:?}", other),
    }
    let elem: RQElem = common(33, vec![0x08, 0x02]).into();
    match elem {
        RQElem::Face(f) => assert_eq!(f.index, 2),
        other => panic!("{:?}", other),
    }
}

#[test]
fn from_each_typed_element() {
    let face = MarketFace { name: "[x]".to_string(), face_id: vec![], tab_id: 0, key: vec![] };
    assert!(matches!(RQElem::from(At { display: "@a".to_string(), mention: vec![1] }), RQElem::At(_)));
    assert!(matches!(RQElem::from(Text { content: "t".to_string() }), RQElem::Text(_)));
    assert!(matches!(RQElem::from(Face { index: 1 }), RQElem::Face(Face { index: 1 })));
    assert!(matches!(RQElem::from(face.clone()), RQElem::MarketFace(_)));
    assert!(matches!(RQElem::from(Dice { face: face.clone() }), RQElem::Dice(_)));
    assert!(matches!(RQElem::from(FingerGuessing { face }), RQElem::FingerGuessing(_)));
    assert!(matches!(RQElem::from(LightApp { content: "{}".to_string() }), RQElem::LightApp(_)));
    let rich = RichMsg { service_id: 1, template: String::new() };
    assert!(matches!(RQElem::from(rich), RQElem::RichMsg(_)));
    assert!(matches!(RQElem::from(FriendImage { descriptor: vec![] }), RQElem::FriendImage(_)));
    assert!(matches!(RQElem::from(GroupImage { descriptor: vec![] }), RQElem::GroupImage(_)));
    let flash = FlashImage::Group(GroupImage { descriptor: vec![1] });
    assert!(matches!(RQElem::from(flash), RQElem::FlashImage(FlashImage::Group(_))));
    let raw = Box::new(RawElem::Face(Face { index: 9 }));
    match RQElem::from(raw) {
        RQElem::Other(kept) => assert!(matches!(*kept, RawElem::Face(Face { index: 9 }))),
        other => panic!("{:?}", other),
    }
}

#[test]
fn extended_face_index_round_trips_through_the_encoder() {
    let mut values: Vec<u64> = vec![0, 1, 127, 128, 255, 256, 16383, 16384, u32::MAX as u64];
    for shift in 0..64 {
        values.push(1u64 << shift);
        values.push((1u64 << shift) - 1);
    }
    values.push(u64::MAX);
    for v in values {
        let payload = varint_field(1, v);
        assert_eq!(
            ExtendedFace::decode(&payload),
            Some(ExtendedFace { index: v as u32 }),
            "value {v}"
        );
        assert_eq!(
            read_field(&payload),
            Some(FieldHead { tag: 1, wire: 0, start: 1, end: payload.len() })
        );
    }
}

#[test]
fn long_values_have_long_lengths() {
    let body = vec![0u8; 300];
    let field = delimited_field(15, &body);
    // One byte of key, two of length.
    assert_eq!(read_field(&field), Some(FieldHead { tag: 15, wire: 2, start: 1, end: 303 }));
    assert_eq!(read_delimited(&field[1..]), Some(&body[..]));
    let wide_tag = delimited_field(1 << 20, b"x");
    assert_eq!(
        read_field(&wide_tag),
        Some(FieldHead { tag: 1 << 20, wire: 2, start: 4, end: 6 })
    );
    let largest_tag = varint_field((1 << 29) - 1, 1);
    assert_eq!(
        read_field(&largest_tag),
        Some(FieldHead { tag: (1 << 29) - 1, wire: 0, start: 5, end: 6 })
    );
}
