//! Message elements as text, for previews and logs.
//!
//! An element that can be told in words is written as such, with one space
//! behind it, so that the elements of a message can be written one after the
//! other. An element that cannot is written as nothing at all.

use crate::elem::{Face, LightApp, RQElem, RichMsg};
use crate::text::{
    chars_of, decimal, find_first, find_last, first_from, last_occurrence, push_decimal,
};
use vstd::prelude::*;
use vstd::string::{StrSliceExecFns, StringExecFns};

verus! {

/// Whether the text `i` holds an attribute between `begin` and `end`: it
/// holds `begin`, and `end` behind the last `begin`.
pub open spec fn has_attr(i: Seq<char>, begin: Seq<char>, end: Seq<char>) -> bool {
    match last_occurrence(i, begin) {
        Some(p) => first_from(i, end, p + begin.len()) is Some,
        None => false,
    }
}

/// The attribute `name` of the text `i`, written as the name, an equals
/// sign and the value in single quotes. The value is what stands between the
/// last `begin` in `i` and the first `end` behind it. Where `i` holds no
/// `begin`, or no `end` behind the last one, the attribute is written as
/// nothing.
pub open spec fn extracted_attr(
    i: Seq<char>,
    name: Seq<char>,
    begin: Seq<char>,
    end: Seq<char>,
) -> Seq<char> {
    match last_occurrence(i, begin) {
        Some(p) => match first_from(i, end, p + begin.len()) {
            Some(q) => name + "='"@ + i.subrange(p + begin.len(), q) + "'"@,
            None => Seq::empty(),
        },
        None => Seq::empty(),
    }
}

/// An attribute behind what stands before it: a space and the attribute,
/// where the text holds it, and nothing otherwise.
pub open spec fn spaced_attr(
    i: Seq<char>,
    name: Seq<char>,
    begin: Seq<char>,
    end: Seq<char>,
) -> Seq<char> {
    if has_attr(i, begin, end) {
        " "@ + extracted_attr(i, name, begin, end)
    } else {
        Seq::empty()
    }
}

/// An attribute that the text holds is never written as nothing, so that
/// what was written tells whether it was found.
pub proof fn lemma_attr_is_written(i: Seq<char>, name: Seq<char>, begin: Seq<char>, end: Seq<char>)
    ensures
        has_attr(i, begin, end) <==> extracted_attr(i, name, begin, end).len() > 0,
{
    reveal_strlit("='");
}

/// Extracts an attribute from a text in XML or JSON and writes it to `f`.
pub fn fmt_extract_attr(f: &mut String, i: &str, name: &str, begin: &str, end: &str)
    ensures
        final(f)@ == old(f)@ + extracted_attr(i@, name@, begin@, end@),
{
    let text = chars_of(i);
    let begin_chars = chars_of(begin);
    let end_chars = chars_of(end);
    let total = text.len();
    proof {
        assert(f@ + Seq::<char>::empty() =~= f@);
    }
    match find_last(&text, &begin_chars) {
        None => {},
        Some(p) => {
            let start: usize = p + begin_chars.len();
            match find_first(&text, &end_chars, start) {
                None => {},
                Some(q) => {
                    let value = i.substring_char(start, q);
                    f.append(name);
                    f.append("='");
                    f.append(value);
                    f.append("'");
                    proof {
                        assert(f@ =~= old(f)@ + (name@ + "='"@ + i@.subrange(
                            start as int,
                            q as int,
                        ) + "'"@));
                    }
                },
            }
        },
    }
}

/// Writes an attribute to `f` behind what is there: a space and the
/// attribute, where the text holds it, and nothing otherwise.
pub fn push_attr(f: &mut String, i: &str, name: &str, begin: &str, end: &str)
    ensures
        final(f)@ == old(f)@ + spaced_attr(i@, name@, begin@, end@),
{
    let mut attr = String::new();
    fmt_extract_attr(&mut attr, i, name, begin, end);
    proof {
        lemma_attr_is_written(i@, name@, begin@, end@);
        assert(attr@ =~= extracted_attr(i@, name@, begin@, end@));
    }
    if attr.as_str().is_empty() {
        proof {
            assert(f@ + Seq::<char>::empty() =~= f@);
        }
    } else {
        f.append(" ");
        f.append(attr.as_str());
        proof {
            assert(f@ =~= old(f)@ + (" "@ + attr@));
        }
    }
}

/// The decimal digits of `n`, behind a minus sign where `n` is negative.
pub open spec fn signed_decimal(n: int) -> Seq<char> {
    if n < 0 {
        "-"@ + decimal((-n) as nat)
    } else {
        decimal(n as nat)
    }
}

/// A face in words.
pub open spec fn face_text(f: Face) -> Seq<char> {
    "[Face:"@ + signed_decimal(f.index as int) + "]"@
}

/// A light application card in words: its description, where it has one.
pub open spec fn light_app_text(a: LightApp) -> Seq<char> {
    "[LightApp"@ + spaced_attr(a.content@, "desc"@, "\"desc\":\""@, "\""@) + "]"@
}

/// A rich-media card in words: its summary and its address, where it has
/// them.
pub open spec fn rich_msg_text(m: RichMsg) -> Seq<char> {
    "[RichMsg"@ + spaced_attr(m.template@, "brief"@, "brief=\""@, "\""@) + spaced_attr(
        m.template@,
        "url"@,
        "url=\""@,
        "\""@,
    ) + "]"@
}

/// Whether an element can be told in words.
pub open spec fn has_text(e: RQElem) -> bool {
    e is At || e is Text || e is Face || e is GroupImage || e is FriendImage || e is FlashImage
        || e is LightApp || e is RichMsg
}

/// An element in words, for the elements that can be told so.
pub open spec fn element_text(e: RQElem) -> Seq<char> {
    match e {
        RQElem::At(a) => a.display@,
        RQElem::Text(t) => t.content@,
        RQElem::Face(f) => face_text(f),
        RQElem::GroupImage(_) => "[GroupImage]"@,
        RQElem::FriendImage(_) => "[FriendImage]"@,
        RQElem::FlashImage(_) => "[FlashImage]"@,
        RQElem::LightApp(a) => light_app_text(a),
        RQElem::RichMsg(m) => rich_msg_text(m),
        _ => Seq::empty(),
    }
}

/// An element as text: its words and one space, or nothing.
pub open spec fn rendered(e: RQElem) -> Seq<char> {
    if has_text(e) {
        element_text(e) + " "@
    } else {
        Seq::empty()
    }
}

/// An element that can be told in words ends in the one space that is put
/// behind its words; an element that cannot is written as nothing, without a
/// space.
pub proof fn lemma_rendered_separator(e: RQElem)
    ensures
        has_text(e) ==> rendered(e).len() == element_text(e).len() + 1 && rendered(e).last()
            == ' ' && rendered(e).drop_last() == element_text(e),
        !has_text(e) ==> rendered(e).len() == 0,
{
    reveal_strlit(" ");
    if has_text(e) {
        assert(rendered(e).drop_last() =~= element_text(e));
    }
}

fn push_signed(s: &mut String, n: i32)
    ensures
        final(s)@ == old(s)@ + signed_decimal(n as int),
{
    if n < 0 {
        s.append("-");
        let magnitude: u64 = (-(n as i64)) as u64;
        push_decimal(s, magnitude);
        proof {
            assert(s@ =~= old(s)@ + ("-"@ + decimal((-n) as nat)));
        }
    } else {
        push_decimal(s, n as u64);
    }
}

impl RQElem {
    /// Writes the element as text: what it says and one space behind it, or
    /// nothing where the element cannot be told in words.
    pub fn render(&self) -> (out: String)
        ensures
            out@ == rendered(*self),
    {
        let mut out = String::new();
        match self {
            RQElem::At(a) => {
                out.append(a.display.as_str());
            },
            RQElem::Text(t) => {
                out.append(t.content.as_str());
            },
            RQElem::Face(f) => {
                out.append("[Face:");
                push_signed(&mut out, f.index);
                out.append("]");
                proof {
                    assert(out@ =~= face_text(*f));
                }
            },
            RQElem::GroupImage(_) => {
                out.append("[GroupImage]");
            },
            RQElem::FriendImage(_) => {
                out.append("[FriendImage]");
            },
            RQElem::FlashImage(_) => {
                out.append("[FlashImage]");
            },
            RQElem::LightApp(a) => {
                out.append("[LightApp");
                push_attr(&mut out, a.content.as_str(), "desc", "\"desc\":\"", "\"");
                out.append("]");
                proof {
                    assert(out@ =~= light_app_text(*a));
                }
            },
            RQElem::RichMsg(m) => {
                out.append("[RichMsg");
                push_attr(&mut out, m.template.as_str(), "brief", "brief=\"", "\"");
                push_attr(&mut out, m.template.as_str(), "url", "url=\"", "\"");
                out.append("]");
                proof {
                    assert(out@ =~= rich_msg_text(*m));
                }
            },
            _ => {
                return out;
            },
        }
        proof {
            assert(out@ =~= element_text(*self));
        }
        out.append(" ");
        out
    }
}

} // verus!
