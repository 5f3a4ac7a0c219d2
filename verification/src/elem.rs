//! Message elements: what the protocol delivers, and what it means.
//!
//! A message arrives as a list of raw elements, one of many kinds. The
//! classifier gives each the typed element that callers work with. A kind
//! that it does not know, and a nested payload that it cannot decode, is
//! kept whole in `RQElem::Other`, so that nothing is lost on the way.

use crate::descriptor::{extended_face, flash_pictures, ExtendedFace, FlashDescriptor};
use vstd::prelude::*;
use vstd::string::StringExecFns;

verus! {

/// The service type of a common element that carries a flash image.
pub const SERVICE_FLASH_IMAGE: i32 = 3;

/// The service type of a common element that carries an extended face.
pub const SERVICE_EXTENDED_FACE: i32 = 33;

/// A mention of a member.
#[derive(Clone, Debug)]
pub struct At {
    /// The text that stands for the mention.
    pub display: String,
    /// The attribute that names whom the mention is for.
    pub mention: Vec<u8>,
}

/// Plain text.
#[derive(Clone, Debug)]
pub struct Text {
    pub content: String,
}

/// A face from the built-in set.
#[derive(Clone, Copy, Debug, PartialEq, Eq, Structural)]
pub struct Face {
    pub index: i32,
}

/// A face from the market.
#[derive(Clone, Debug)]
pub struct MarketFace {
    /// The caption that is shown in place of the face.
    pub name: String,
    pub face_id: Vec<u8>,
    pub tab_id: i32,
    pub key: Vec<u8>,
}

/// The market face that rolls a dice.
#[derive(Clone, Debug)]
pub struct Dice {
    pub face: MarketFace,
}

/// The market face that plays the finger-guessing game.
#[derive(Clone, Debug)]
pub struct FingerGuessing {
    pub face: MarketFace,
}

/// A card of a light application.
#[derive(Clone, Debug)]
pub struct LightApp {
    pub content: String,
}

/// A rich-media card.
#[derive(Clone, Debug)]
pub struct RichMsg {
    pub service_id: i32,
    pub template: String,
}

/// A picture of a private conversation, as the bytes of its descriptor.
#[derive(Clone, Debug)]
pub struct FriendImage {
    pub descriptor: Vec<u8>,
}

/// A picture of a group, as the bytes of its descriptor.
#[derive(Clone, Debug)]
pub struct GroupImage {
    pub descriptor: Vec<u8>,
}

/// A picture that can be looked at once.
#[derive(Clone, Debug)]
pub enum FlashImage {
    Friend(FriendImage),
    Group(GroupImage),
}

/// A video.
#[derive(Clone, Debug)]
pub struct VideoFile {
    pub name: String,
    pub uuid: Vec<u8>,
    pub md5: Vec<u8>,
    pub size: i32,
}

/// A text element as it arrives: a mention is a text with an attribute.
#[derive(Clone, Debug)]
pub struct RawText {
    pub text: String,
    /// Empty unless the text is a mention.
    pub mention: Vec<u8>,
}

/// An element whose meaning its service type decides, and whose payload is
/// a descriptor of its own.
#[derive(Clone, Debug)]
pub struct CommonElem {
    pub service_type: i32,
    pub payload: Vec<u8>,
    pub business_type: i32,
}

/// What the service type of a common element says of its payload.
#[derive(Clone, Copy, Debug, PartialEq, Eq, Structural)]
pub enum CommonKind {
    /// The payload is a flash image descriptor.
    FlashImage,
    /// The payload is an extended face descriptor.
    ExtendedFace,
    /// The payload is of no kind that the classifier reads.
    Unknown,
}

/// What a service type says of the payload that comes with it.
pub open spec fn kind_of_service(service_type: i32) -> CommonKind {
    if service_type == SERVICE_FLASH_IMAGE {
        CommonKind::FlashImage
    } else if service_type == SERVICE_EXTENDED_FACE {
        CommonKind::ExtendedFace
    } else {
        CommonKind::Unknown
    }
}

impl CommonElem {
    /// What the service type says of the payload.
    pub fn kind(&self) -> (k: CommonKind)
        ensures
            k == kind_of_service(self.service_type),
    {
        if self.service_type == SERVICE_FLASH_IMAGE {
            CommonKind::FlashImage
        } else if self.service_type == SERVICE_EXTENDED_FACE {
            CommonKind::ExtendedFace
        } else {
            CommonKind::Unknown
        }
    }
}

/// A message element as the protocol delivers it.
#[derive(Clone, Debug)]
pub enum RawElem {
    Text(RawText),
    Face(Face),
    Common(CommonElem),
    MarketFace(MarketFace),
    LightApp(LightApp),
    RichMsg(RichMsg),
    VideoFile(VideoFile),
    /// The picture element of private conversations.
    NotOnlineImage(FriendImage),
    /// The picture element of groups.
    CustomFace(GroupImage),
    /// Any other kind, by its number in the protocol, with its payload as
    /// it came.
    Unrecognized { kind: u32, payload: Vec<u8> },
}

/// A message element.
#[derive(Clone, Debug)]
pub enum RQElem {
    At(At),
    Text(Text),
    Face(Face),
    MarketFace(MarketFace),
    Dice(Dice),
    FingerGuessing(FingerGuessing),
    LightApp(LightApp),
    RichMsg(RichMsg),
    FriendImage(FriendImage),
    GroupImage(GroupImage),
    FlashImage(FlashImage),
    VideoFile(VideoFile),
    /// An element that the classifier hands on as it came.
    Other(Box<RawElem>),
}

/// Whether a market face with this caption is the dice. There are two such
/// captions: a dice added from the market is captioned otherwise than one
/// that was kept as a favourite long ago.
pub open spec fn is_dice_caption(caption: Seq<char>) -> bool {
    caption == "[骰子]"@ || caption == "[随机骰子]"@
}

/// Whether a market face with this caption is the finger-guessing game.
pub open spec fn is_finger_guessing_caption(caption: Seq<char>) -> bool {
    caption == "[猜拳]"@
}

/// Whether `r` is the element that a common element `c` stands for, where
/// `raw` is the element that holds `c`.
pub open spec fn classified_common(c: CommonElem, raw: RawElem, r: RQElem) -> bool {
    match kind_of_service(c.service_type) {
        CommonKind::FlashImage => match flash_pictures(c.payload@) {
            Some(p) => if p.group is Some {
                r matches RQElem::FlashImage(FlashImage::Group(g)) && g.descriptor@ == p.group->0
            } else if p.friend is Some {
                r matches RQElem::FlashImage(FlashImage::Friend(f)) && f.descriptor@ == p.friend->0
            } else {
                r == RQElem::Other(Box::new(raw))
            },
            None => r == RQElem::Other(Box::new(raw)),
        },
        CommonKind::ExtendedFace => match extended_face(c.payload@) {
            Some(f) => r == RQElem::Face(Face { index: f.index as i32 }),
            None => r == RQElem::Other(Box::new(raw)),
        },
        CommonKind::Unknown => r == RQElem::Other(Box::new(raw)),
    }
}

/// Whether `r` is the element that `raw` stands for. For every `raw` this
/// fixes the variant of `r` and what it holds.
pub open spec fn classified(raw: RawElem, r: RQElem) -> bool {
    match raw {
        RawElem::Text(t) => if t.mention@.len() > 0 {
            r == RQElem::At(At { display: t.text, mention: t.mention })
        } else {
            r == RQElem::Text(Text { content: t.text })
        },
        RawElem::Face(f) => r == RQElem::Face(f),
        RawElem::Common(c) => classified_common(c, raw, r),
        RawElem::MarketFace(m) => if is_dice_caption(m.name@) {
            r == RQElem::Dice(Dice { face: m })
        } else if is_finger_guessing_caption(m.name@) {
            r == RQElem::FingerGuessing(FingerGuessing { face: m })
        } else {
            r == RQElem::MarketFace(m)
        },
        RawElem::LightApp(a) => r == RQElem::LightApp(a),
        RawElem::RichMsg(m) => r == RQElem::RichMsg(m),
        RawElem::VideoFile(v) => r == RQElem::VideoFile(v),
        RawElem::NotOnlineImage(i) => r == RQElem::FriendImage(i),
        RawElem::CustomFace(i) => r == RQElem::GroupImage(i),
        RawElem::Unrecognized { .. } => r == RQElem::Other(Box::new(raw)),
    }
}

/// Decides whether `a` and `b` are the same text.
pub fn same_text(a: &String, b: &str) -> (r: bool)
    ensures
        r == (a@ == b@),
{
    let other = String::from_str(b);
    *a == other
}

/// The element that a common element stands for, given what its descriptor
/// decoded to.
pub open spec fn common_outcome(
    c: CommonElem,
    flash: Option<FlashDescriptor>,
    face: Option<ExtendedFace>,
) -> RQElem {
    let raw = RawElem::Common(c);
    match kind_of_service(c.service_type) {
        CommonKind::FlashImage => match flash {
            Some(d) => match d.group_pic {
                Some(g) => RQElem::FlashImage(FlashImage::Group(GroupImage { descriptor: g })),
                None => match d.friend_pic {
                    Some(f) => RQElem::FlashImage(FlashImage::Friend(FriendImage { descriptor: f })),
                    None => RQElem::Other(Box::new(raw)),
                },
            },
            None => RQElem::Other(Box::new(raw)),
        },
        CommonKind::ExtendedFace => match face {
            Some(f) => RQElem::Face(Face { index: f.index as i32 }),
            None => RQElem::Other(Box::new(raw)),
        },
        CommonKind::Unknown => RQElem::Other(Box::new(raw)),
    }
}

/// What the payload of a common element makes of it, given what its
/// descriptor decoded to: `flash` where the payload is a flash image
/// descriptor, `face` where it is an extended face descriptor. A flash image
/// with both pictures is that of the group. A descriptor that did not decode,
/// and a flash image without a picture, leave the element as it came.
pub fn classify_common(
    c: CommonElem,
    flash: Option<FlashDescriptor>,
    face: Option<ExtendedFace>,
) -> (r: RQElem)
    ensures
        r == common_outcome(c, flash, face),
{
    let kind = c.kind();
    let raw = RawElem::Common(c);
    match kind {
        CommonKind::FlashImage => match flash {
            Some(d) => match d.group_pic {
                Some(g) => RQElem::FlashImage(FlashImage::Group(GroupImage { descriptor: g })),
                None => match d.friend_pic {
                    Some(f) => RQElem::FlashImage(FlashImage::Friend(FriendImage { descriptor: f })),
                    None => RQElem::Other(Box::new(raw)),
                },
            },
            None => RQElem::Other(Box::new(raw)),
        },
        CommonKind::ExtendedFace => match face {
            Some(f) => RQElem::Face(Face { index: f.index as i32 }),
            None => RQElem::Other(Box::new(raw)),
        },
        CommonKind::Unknown => RQElem::Other(Box::new(raw)),
    }
}

impl RQElem {
    /// Gives a raw element the typed element that it stands for.
    ///
    /// Every raw element has one: a kind that is not known, a common element
    /// with another service type, and a payload that does not decode all end
    /// in `Other`, which holds the raw element as it came.
    pub fn classify(raw: RawElem) -> (r: RQElem)
        ensures
            classified(raw, r),
    {
        match raw {
            RawElem::Text(t) => {
                if t.mention.len() > 0 {
                    RQElem::At(At { display: t.text, mention: t.mention })
                } else {
                    RQElem::Text(Text { content: t.text })
                }
            },
            RawElem::Face(f) => RQElem::Face(f),
            RawElem::Common(c) => {
                let (flash, face) = match c.kind() {
                    CommonKind::FlashImage => (FlashDescriptor::decode(c.payload.as_slice()), None),
                    CommonKind::ExtendedFace => (None, ExtendedFace::decode(c.payload.as_slice())),
                    CommonKind::Unknown => (None, None),
                };
                classify_common(c, flash, face)
            },
            RawElem::MarketFace(m) => {
                if same_text(&m.name, "[骰子]") || same_text(&m.name, "[随机骰子]") {
                    RQElem::Dice(Dice { face: m })
                } else if same_text(&m.name, "[猜拳]") {
                    RQElem::FingerGuessing(FingerGuessing { face: m })
                } else {
                    RQElem::MarketFace(m)
                }
            },
            RawElem::LightApp(a) => RQElem::LightApp(a),
            RawElem::RichMsg(m) => RQElem::RichMsg(m),
            RawElem::VideoFile(v) => RQElem::VideoFile(v),
            RawElem::NotOnlineImage(i) => RQElem::FriendImage(i),
            RawElem::CustomFace(i) => RQElem::GroupImage(i),
            RawElem::Unrecognized { kind, payload } => RQElem::Other(
                Box::new(RawElem::Unrecognized { kind, payload }),
            ),
        }
    }

    /// The raw element that a passthrough element holds.
    pub fn passthrough(&self) -> (r: Option<&RawElem>)
        ensures
            match *self {
                RQElem::Other(b) => r == Some(&*b),
                _ => r is None,
            },
    {
        match self {
            RQElem::Other(b) => Some(&**b),
            _ => None,
        }
    }
}

/// What the classifier hands on as it came is the element that it was given,
/// whole: nothing of it is dropped or changed on the way.
pub proof fn lemma_passthrough_is_lossless(raw: RawElem, r: RQElem)
    requires
        classified(raw, r),
        r is Other,
    ensures
        *r->Other_0 == raw,
{
}

/// A market face is the dice under either of its two captions, the
/// finger-guessing game under its one, and a plain market face under any
/// other; the three do not overlap.
pub proof fn lemma_market_face_by_caption(m: MarketFace, r: RQElem)
    requires
        classified(RawElem::MarketFace(m), r),
    ensures
        m.name@ == "[骰子]"@ || m.name@ == "[随机骰子]"@ <==> r is Dice,
        m.name@ == "[猜拳]"@ <==> r is FingerGuessing,
        !is_dice_caption(m.name@) && !is_finger_guessing_caption(m.name@) <==> r is MarketFace,
        r is Dice ==> r->Dice_0.face == m,
        r is FingerGuessing ==> r->FingerGuessing_0.face == m,
        r is MarketFace ==> r->MarketFace_0 == m,
{
    reveal_strlit("[骰子]");
    reveal_strlit("[随机骰子]");
    reveal_strlit("[猜拳]");
    assert("[骰子]"@[1] != "[猜拳]"@[1]);
    assert("[随机骰子]"@.len() != "[猜拳]"@.len());
}

/// Whether two elements are the same but for where their bytes are kept: a
/// picture of a flash image is built when the element is classified, so that
/// two such pictures are told apart though they hold the same bytes.
pub open spec fn same_element(a: RQElem, b: RQElem) -> bool {
    match (a, b) {
        (
            RQElem::FlashImage(FlashImage::Group(x)),
            RQElem::FlashImage(FlashImage::Group(y)),
        ) => x.descriptor@ == y.descriptor@,
        (
            RQElem::FlashImage(FlashImage::Friend(x)),
            RQElem::FlashImage(FlashImage::Friend(y)),
        ) => x.descriptor@ == y.descriptor@,
        _ => a == b,
    }
}

/// Every raw element has one typed element and no other: two elements that
/// both stand for `raw` are of the same variant and hold the same.
pub proof fn lemma_classified_is_unique(raw: RawElem, a: RQElem, b: RQElem)
    requires
        classified(raw, a),
        classified(raw, b),
    ensures
        same_element(a, b),
{
}

/// The typed element that a raw element stands for: `RQElem::classify`.
impl From<RawElem> for RQElem {
    fn from(raw: RawElem) -> (r: RQElem)
        ensures
            classified(raw, r),
    {
        RQElem::classify(raw)
    }
}

impl vstd::std_specs::convert::FromSpecImpl<RawElem> for RQElem {
    /// A picture of a flash image is built anew, so that no function of the
    /// raw element names the very element that comes out: `classified` says
    /// what it is.
    open spec fn obeys_from_spec() -> bool {
        false
    }

    open spec fn from_spec(raw: RawElem) -> RQElem {
        RQElem::Other(Box::new(raw))
    }
}

/// The element that is a mention.
impl From<At> for RQElem {
    fn from(e: At) -> (r: RQElem) {
        RQElem::At(e)
    }
}

impl vstd::std_specs::convert::FromSpecImpl<At> for RQElem {
    open spec fn obeys_from_spec() -> bool {
        true
    }

    open spec fn from_spec(e: At) -> RQElem {
        RQElem::At(e)
    }
}

/// The element that is a text.
impl From<Text> for RQElem {
    fn from(e: Text) -> (r: RQElem) {
        RQElem::Text(e)
    }
}

impl vstd::std_specs::convert::FromSpecImpl<Text> for RQElem {
    open spec fn obeys_from_spec() -> bool {
        true
    }

    open spec fn from_spec(e: Text) -> RQElem {
        RQElem::Text(e)
    }
}

/// The element that is a face.
impl From<Face> for RQElem {
    fn from(e: Face) -> (r: RQElem) {
        RQElem::Face(e)
    }
}

impl vstd::std_specs::convert::FromSpecImpl<Face> for RQElem {
    open spec fn obeys_from_spec() -> bool {
        true
    }

    open spec fn from_spec(e: Face) -> RQElem {
        RQElem::Face(e)
    }
}

/// The element that is a market face.
impl From<MarketFace> for RQElem {
    fn from(e: MarketFace) -> (r: RQElem) {
        RQElem::MarketFace(e)
    }
}

impl vstd::std_specs::convert::FromSpecImpl<MarketFace> for RQElem {
    open spec fn obeys_from_spec() -> bool {
        true
    }

    open spec fn from_spec(e: MarketFace) -> RQElem {
        RQElem::MarketFace(e)
    }
}

/// The element that is a dice.
impl From<Dice> for RQElem {
    fn from(e: Dice) -> (r: RQElem) {
        RQElem::Dice(e)
    }
}

impl vstd::std_specs::convert::FromSpecImpl<Dice> for RQElem {
    open spec fn obeys_from_spec() -> bool {
        true
    }

    open spec fn from_spec(e: Dice) -> RQElem {
        RQElem::Dice(e)
    }
}

/// The element that is a finger-guessing game.
impl From<FingerGuessing> for RQElem {
    fn from(e: FingerGuessing) -> (r: RQElem) {
        RQElem::FingerGuessing(e)
    }
}

impl vstd::std_specs::convert::FromSpecImpl<FingerGuessing> for RQElem {
    open spec fn obeys_from_spec() -> bool {
        true
    }

    open spec fn from_spec(e: FingerGuessing) -> RQElem {
        RQElem::FingerGuessing(e)
    }
}

/// The element that is a light application card.
impl From<LightApp> for RQElem {
    fn from(e: LightApp) -> (r: RQElem) {
        RQElem::LightApp(e)
    }
}

impl vstd::std_specs::convert::FromSpecImpl<LightApp> for RQElem {
    open spec fn obeys_from_spec() -> bool {
        true
    }

    open spec fn from_spec(e: LightApp) -> RQElem {
        RQElem::LightApp(e)
    }
}

/// The element that is a rich-media card.
impl From<RichMsg> for RQElem {
    fn from(e: RichMsg) -> (r: RQElem) {
        RQElem::RichMsg(e)
    }
}

impl vstd::std_specs::convert::FromSpecImpl<RichMsg> for RQElem {
    open spec fn obeys_from_spec() -> bool {
        true
    }

    open spec fn from_spec(e: RichMsg) -> RQElem {
        RQElem::RichMsg(e)
    }
}

/// The element that is a picture of a private conversation.
impl From<FriendImage> for RQElem {
    fn from(e: FriendImage) -> (r: RQElem) {
        RQElem::FriendImage(e)
    }
}

impl vstd::std_specs::convert::FromSpecImpl<FriendImage> for RQElem {
    open spec fn obeys_from_spec() -> bool {
        true
    }

    open spec fn from_spec(e: FriendImage) -> RQElem {
        RQElem::FriendImage(e)
    }
}

/// The element that is a picture of a group.
impl From<GroupImage> for RQElem {
    fn from(e: GroupImage) -> (r: RQElem) {
        RQElem::GroupImage(e)
    }
}

impl vstd::std_specs::convert::FromSpecImpl<GroupImage> for RQElem {
    open spec fn obeys_from_spec() -> bool {
        true
    }

    open spec fn from_spec(e: GroupImage) -> RQElem {
        RQElem::GroupImage(e)
    }
}

/// The element that is a flash image.
impl From<FlashImage> for RQElem {
    fn from(e: FlashImage) -> (r: RQElem) {
        RQElem::FlashImage(e)
    }
}

impl vstd::std_specs::convert::FromSpecImpl<FlashImage> for RQElem {
    open spec fn obeys_from_spec() -> bool {
        true
    }

    open spec fn from_spec(e: FlashImage) -> RQElem {
        RQElem::FlashImage(e)
    }
}

/// The element that is a raw element, handed on as it is.
impl From<Box<RawElem>> for RQElem {
    fn from(e: Box<RawElem>) -> (r: RQElem) {
        RQElem::Other(e)
    }
}

impl vstd::std_specs::convert::FromSpecImpl<Box<RawElem>> for RQElem {
    open spec fn obeys_from_spec() -> bool {
        true
    }

    open spec fn from_spec(e: Box<RawElem>) -> RQElem {
        RQElem::Other(e)
    }
}

} // verus!
