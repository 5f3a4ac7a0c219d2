use ricq::display::{fmt_extract_attr, push_attr};
use ricq::elem::{
    At, Dice, Face, FingerGuessing, FlashImage, FriendImage, GroupImage, LightApp, MarketFace,
    RQElem, RawElem, RichMsg, Text, VideoFile,
};
use ricq::text::{chars_of, find_first, find_last, lies_at, push_decimal};

fn extract(i: &str, name: &str, begin: &str, end: &str) -> String {
    let mut out = String::new();
    fmt_extract_attr(&mut out, i, name, begin, end);
    out
}

/// The same attribute, found with the splitting functions of `str`.
fn extract_by_split(i: &str, name: &str, begin: &str, end: &str) -> String {
    match i.rsplit_once(begin).and_then(|v| v.1.split_once(end)).map(|v| v.0) {
        Some(v) => format!("{name}='{v}'"),
        None => String::new(),
    }
}

fn chars(s: &str) -> Vec<char> {
    s.chars().collect()
}

#[test]
fn extract_attr_from_json() {
    let json = r#"{"app":"com.example","desc":"hello","view":"news"}"#;
    assert_eq!(extract(json, "desc", "\"desc\":\"", "\""), "desc='hello'");
}

#[test]
fn extract_attr_takes_the_last_begin_and_the_first_end_behind_it() {
    let xml = r#"<a url="first" /><b url="second" brief="x" />"#;
    assert_eq!(extract(xml, "url", "url=\"", "\""), "url='second'");
    assert_eq!(extract("aXbXcYdY", "k", "X", "Y"), "k='c'");
    assert_eq!(extract("aaa|", "k", "aa", "|"), "k=''");
    assert_eq!(extract("id=\"1\" id=\"2\"", "id", "id=\"", "\""), "id='2'");
}

#[test]
fn extract_attr_writes_nothing_without_both_markers() {
    assert_eq!(extract("no markers here", "k", "<", ">"), "");
    assert_eq!(extract("begin< but no end", "k", "<", ">"), "");
    assert_eq!(extract("end> before <begin", "k", "<", ">"), "");
    assert_eq!(extract("", "k", "<", ">"), "");
}

#[test]
fn extract_attr_appends_to_what_is_there() {
    let mut out = String::from("<");
    fmt_extract_attr(&mut out, "brief=\"news\"", "brief", "brief=\"", "\"");
    assert_eq!(out, "<brief='news'");
    fmt_extract_attr(&mut out, "nothing", "url", "url=\"", "\"");
    assert_eq!(out, "<brief='news'");
    fmt_extract_attr(&mut out, "a=1;", "", "a=", ";");
    assert_eq!(out, "<brief='news'='1'");
}

#[test]
fn extract_attr_counts_characters_not_bytes() {
    assert_eq!(extract("描述=《你好》完", "题", "《", "》"), "题='你好'");
}

#[test]
fn extract_attr_agrees_with_the_splitting_functions() {
    let texts = ["", "a", "abcabc", "<<x>>", "a=1;a=2;a=3", "《一》《二》", "xx", "x=y"];
    let markers = ["", "a", "=", "<", ">", ";", "《", "》", "x", "abc", "zz"];
    for i in texts {
        for begin in markers {
            for end in markers {
                assert_eq!(
                    extract(i, "n", begin, end),
                    extract_by_split(i, "n", begin, end),
                    "i={i:?} begin={begin:?} end={end:?}"
                );
            }
        }
    }
}

#[test]
fn attribute_among_others_has_a_space_before_it() {
    let mut out = String::from("[RichMsg");
    push_attr(&mut out, "brief=\"news\"", "brief", "brief=\"", "\"");
    assert_eq!(out, "[RichMsg brief='news'");
    // An attribute that is not there takes no space either.
    push_attr(&mut out, "nothing", "url", "url=\"", "\"");
    assert_eq!(out, "[RichMsg brief='news'");
    push_attr(&mut out, "url=\"\"", "url", "url=\"", "\"");
    assert_eq!(out, "[RichMsg brief='news' url=''");
    // An attribute without a name and without a value is still written.
    let mut bare = String::new();
    push_attr(&mut bare, "<>", "", "<", ">");
    assert_eq!(bare, " =''");
}

#[test]
fn at_and_text_render_their_words_and_a_space() {
    let at = RQElem::At(At { display: "@someone".to_string(), mention: vec![1] });
    assert_eq!(at.render(), "@someone ");
    let text = RQElem::Text(Text { content: "hi there".to_string() });
    assert_eq!(text.render(), "hi there ");
    let empty = RQElem::Text(Text { content: String::new() });
    assert_eq!(empty.render(), " ");
}

#[test]
fn face_renders_its_index() {
    assert_eq!(RQElem::Face(Face { index: 0 }).render(), "[Face:0] ");
    assert_eq!(RQElem::Face(Face { index: 178 }).render(), "[Face:178] ");
    assert_eq!(RQElem::Face(Face { index: -7 }).render(), "[Face:-7] ");
    assert_eq!(RQElem::Face(Face { index: i32::MAX }).render(), "[Face:2147483647] ");
    assert_eq!(RQElem::Face(Face { index: i32::MIN }).render(), "[Face:-2147483648] ");
}

#[test]
fn pictures_render_their_kind() {
    let group = GroupImage { descriptor: vec![1] };
    let friend = FriendImage { descriptor: vec![2] };
    assert_eq!(RQElem::GroupImage(group.clone()).render(), "[GroupImage] ");
    assert_eq!(RQElem::FriendImage(friend.clone()).render(), "[FriendImage] ");
    assert_eq!(RQElem::FlashImage(FlashImage::Group(group)).render(), "[FlashImage] ");
    assert_eq!(RQElem::FlashImage(FlashImage::Friend(friend)).render(), "[FlashImage] ");
}

#[test]
fn cards_render_their_attributes() {
    let app = LightApp { content: r#"{"desc":"weather","prompt":"[card]"}"#.to_string() };
    assert_eq!(RQElem::LightApp(app).render(), "[LightApp desc='weather'] ");
    let bare = LightApp { content: "{}".to_string() };
    assert_eq!(RQElem::LightApp(bare).render(), "[LightApp] ");
    let rich = RichMsg {
        service_id: 1,
        template: r#"<msg brief="news" url="http://example.com/a"></msg>"#.to_string(),
    };
    assert_eq!(
        RQElem::RichMsg(rich).render(),
        "[RichMsg brief='news' url='http://example.com/a'] "
    );
    let only_url = RichMsg { service_id: 1, template: r#"<msg url="u"/>"#.to_string() };
    assert_eq!(RQElem::RichMsg(only_url).render(), "[RichMsg url='u'] ");
}

#[test]
fn elements_without_words_render_nothing() {
    let face = MarketFace { name: "[x]".to_string(), face_id: vec![], tab_id: 0, key: vec![] };
    assert_eq!(RQElem::MarketFace(face.clone()).render(), "");
    assert_eq!(RQElem::Dice(Dice { face: face.clone() }).render(), "");
    assert_eq!(RQElem::FingerGuessing(FingerGuessing { face }).render(), "");
    let video = VideoFile { name: "v".to_string(), uuid: vec![], md5: vec![], size: 0 };
    assert_eq!(RQElem::VideoFile(video).render(), "");
    let other = RQElem::Other(Box::new(RawElem::Unrecognized { kind: 1, payload: vec![1] }));
    assert_eq!(other.render(), "");
}

#[test]
fn rendered_elements_follow_each_other() {
    let elems = [
        RQElem::At(At { display: "@a".to_string(), mention: vec![1] }),
        RQElem::Other(Box::new(RawElem::Unrecognized { kind: 1, payload: vec![] })),
        RQElem::Text(Text { content: "look".to_string() }),
        RQElem::Face(Face { index: 1 }),
    ];
    let line: String = elems.iter().map(|e| e.render()).collect();
    assert_eq!(line, "@a look [Face:1] ");
}

#[test]
fn decimal_digits() {
    for (n, text) in [
        (0u64, "0"),
        (7, "7"),
        (10, "10"),
        (255, "255"),
        (65535, "65535"),
        (1234567890, "1234567890"),
        (u64::MAX, "18446744073709551615"),
    ] {
        let mut s = String::from("n=");
        push_decimal(&mut s, n);
        assert_eq!(s, format!("n={text}"));
    }
}

#[test]
fn searching_in_characters() {
    let s = chars("abcabc");
    assert_eq!(chars_of("a《b"), vec!['a', '《', 'b']);
    assert!(lies_at(&s, &chars("bc"), 1));
    assert!(!lies_at(&s, &chars("bc"), 2));
    assert!(lies_at(&s, &chars(""), 6));
    assert_eq!(find_first(&s, &chars("bc"), 0), Some(1));
    assert_eq!(find_first(&s, &chars("bc"), 2), Some(4));
    assert_eq!(find_first(&s, &chars("bc"), 5), None);
    assert_eq!(find_first(&s, &chars("bc"), 100), None);
    assert_eq!(find_first(&s, &chars(""), 6), Some(6));
    assert_eq!(find_first(&s, &chars("abcabcd"), 0), None);
    assert_eq!(find_last(&s, &chars("bc")), Some(4));
    assert_eq!(find_last(&s, &chars("abc")), Some(3));
    assert_eq!(find_last(&s, &chars("")), Some(6));
    assert_eq!(find_last(&s, &chars("x")), None);
    assert_eq!(find_last(&chars(""), &chars("x")), None);
}
