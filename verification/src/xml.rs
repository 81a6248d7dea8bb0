//! XML events of a document, as read by `quick_xml`.
//!
//! The tokenizer belongs to `quick_xml`; the library reads its events as plain
//! values and decides everything else itself.
use vstd::prelude::*;
use quick_xml::events::BytesStart;
use quick_xml::events::Event::{Empty, End, Eof, Start, Text};
use quick_xml::Reader;
use std::borrow::Cow;

verus! {

/// `quick_xml::Reader`, the pull parser whose pending events the library reads.
#[verifier::external_type_specification]
#[verifier::external_body]
#[verifier::reject_recursive_types(R)]
pub struct ExXmlReader<R>(quick_xml::Reader<R>);

/// One XML event, as plain text.
#[derive(Debug, PartialEq, Eq)]
pub enum XmlToken {
    /// An opening tag: its name, and the whole text between `<` and `>`
    Start { name: String, raw: String },
    /// A self-closing tag, with its name
    Empty { name: String },
    /// A closing tag, with its name
    End { name: String },
    /// Character data: its unescaped text, or the message of the escape error
    Text { text: Result<String, String> },
    /// A comment, CDATA section, declaration, processing instruction or doctype
    Other,
    /// The end of the document
    Eof,
    /// A syntax error, with its message
    Fault { message: String },
}

/// Model of an XML event.
pub enum XmlTokenView {
    Start { name: Seq<char>, raw: Seq<char> },
    Empty { name: Seq<char> },
    End { name: Seq<char> },
    Text { text: Result<Seq<char>, Seq<char>> },
    Other,
    Eof,
    Fault { message: Seq<char> },
}

/// The text of a result of strings.
pub open spec fn result_view(r: Result<String, String>) -> Result<Seq<char>, Seq<char>> {
    match r {
        Ok(s) => Ok(s@),
        Err(e) => Err(e@),
    }
}

impl View for XmlToken {
    type V = XmlTokenView;

    open spec fn view(&self) -> XmlTokenView {
        match self {
            XmlToken::Start { name, raw } => XmlTokenView::Start { name: name@, raw: raw@ },
            XmlToken::Empty { name } => XmlTokenView::Empty { name: name@ },
            XmlToken::End { name } => XmlTokenView::End { name: name@ },
            XmlToken::Text { text } => XmlTokenView::Text { text: result_view(*text) },
            XmlToken::Other => XmlTokenView::Other,
            XmlToken::Eof => XmlTokenView::Eof,
            XmlToken::Fault { message } => XmlTokenView::Fault { message: message@ },
        }
    }
}

/// The models of a list of events.
pub open spec fn token_views(v: Seq<XmlToken>) -> Seq<XmlTokenView> {
    v.map_values(|t: XmlToken| t@)
}

/// A start event's name is the beginning of its tag text (the name is
/// read up to the first whitespace of that text).
pub open spec fn name_leads(t: XmlTokenView) -> bool {
    t matches XmlTokenView::Start { name, raw } ==> name.is_prefix_of(raw)
}

/// The event ends the stream: the end of the document or an error.
pub open spec fn is_final(t: XmlTokenView) -> bool {
    t is Eof || t is Fault
}

/// A stream that ends with its first end-of-document or error event.
pub open spec fn ends_once(s: Seq<XmlTokenView>) -> bool {
    &&& s.len() > 0
    &&& is_final(s.last())
    &&& forall|i: int| 0 <= i < s.len() - 1 ==> !is_final(#[trigger] s[i])
}

/// The events that `quick_xml`, with text trimming on, reads from `content`:
/// every event up to and including the first end-of-document or error.
pub uninterp spec fn xml_events(content: Seq<char>) -> Seq<XmlTokenView>;

/// The events a reader has still to give, up to and including the first
/// end-of-document or error.
pub uninterp spec fn xml_pending(reader: Reader<&[u8]>) -> Seq<XmlTokenView>;

/// The attributes `quick_xml` reads from a start tag whose text between `<`
/// and `>` is `raw` and whose name is `name`: (key, raw value) pairs in
/// order, or the message of the first malformed attribute.
pub uninterp spec fn xml_tag_attributes(raw: Seq<char>, name: Seq<char>) -> Result<
    Seq<(Seq<char>, Seq<char>)>,
    Seq<char>,
>;

/// The text of a list of attribute pairs.
pub open spec fn pair_views(v: Seq<(String, String)>) -> Seq<(Seq<char>, Seq<char>)> {
    v.map_values(|p: (String, String)| (p.0@, p.1@))
}

/// `quick_xml::Reader::from_str` with `trim_text(true)`. Its pending events
/// are those of `content`; they end with the first end-of-document or error,
/// after which the reader stays at its end (its state is `Exit`).
#[verifier::external_body]
fn xml_reader<'a>(content: &'a str) -> (r: Reader<&'a [u8]>)
    ensures
        xml_pending(r) == xml_events(content@),
        ends_once(xml_pending(r)),
{
    let mut reader = Reader::from_str(content);
    reader.trim_text(true);
    reader
}

/// `quick_xml::Reader::read_event`: the next pending event, which it takes
/// off; names are the tag names as text, text is unescaped, errors become
/// their messages. Once nothing is pending, the reader gives end-of-document.
/// A start event's name is the text of its tag up to the first whitespace
/// (`BytesStart::name` is a prefix of the tag's bytes), so it begins the
/// tag's text.
#[verifier::external_body]
fn xml_next<'a>(reader: &mut Reader<&'a [u8]>) -> (t: XmlToken)
    ensures
        name_leads(t@),
        xml_pending(*old(reader)).len() > 0 ==> t@ == xml_pending(*old(reader))[0]
            && xml_pending(*final(reader)) == xml_pending(*old(reader)).drop_first(),
        xml_pending(*old(reader)).len() == 0 ==> t@ is Eof && xml_pending(*final(reader)).len()
            == 0,
{
    match reader.read_event() {
        Ok(Start(e)) => XmlToken::Start {
            name: String::from_utf8_lossy(e.name().as_ref()).into_owned(),
            raw: String::from_utf8_lossy(&e).into_owned(),
        },
        Ok(Empty(e)) => XmlToken::Empty { name: String::from_utf8_lossy(e.name().as_ref()).into_owned() },
        Ok(End(e)) => XmlToken::End { name: String::from_utf8_lossy(&e).into_owned() },
        Ok(Text(e)) => XmlToken::Text { text: e.unescape().map(Cow::into_owned).map_err(|x| x.to_string()) },
        Ok(Eof) => XmlToken::Eof,
        Ok(_) => XmlToken::Other,
        Err(x) => XmlToken::Fault { message: x.to_string() },
    }
}

/// `quick_xml::events::BytesStart::attributes` on the start tag `raw` whose
/// name is `name`: each attribute's key and raw value, in order, or the
/// message of the first malformed one.
#[verifier::external_body]
pub(crate) fn xml_attributes(raw: &str, name: &str) -> (r: Result<Vec<(String, String)>, String>)
    requires
        name@.is_prefix_of(raw@),
    ensures
        match r {
            Ok(v) => xml_tag_attributes(raw@, name@) == Ok::<_, Seq<char>>(pair_views(v@)),
            Err(m) => xml_tag_attributes(raw@, name@) == Err::<Seq<(Seq<char>, Seq<char>)>, _>(m@),
        },
{
    BytesStart::from_content(raw, name.len())
        .attributes()
        .map(|a| a.map(|a| (String::from_utf8_lossy(a.key.as_ref()).into_owned(), String::from_utf8_lossy(&a.value).into_owned())))
        .collect::<Result<Vec<_>, _>>()
        .map_err(|x| x.to_string())
}

/// Every event of `content`, up to and including the first end-of-document
/// or error.
pub fn read_events(content: &str) -> (r: Vec<XmlToken>)
    ensures
        token_views(r@) == xml_events(content@),
        forall|i: int| 0 <= i < r@.len() ==> name_leads(#[trigger] r@[i]@),
{
    let mut reader = xml_reader(content);
    let mut out: Vec<XmlToken> = Vec::new();
    loop
        invariant
            token_views(out@) + xml_pending(reader) == xml_events(content@),
            ends_once(xml_pending(reader)),
            forall|i: int| 0 <= i < out@.len() ==> name_leads(#[trigger] out@[i]@),
        decreases xml_pending(reader).len(),
    {
        let ghost pending = xml_pending(reader);
        let t = xml_next(&mut reader);
        let ghost prev = token_views(out@);
        let stop = match &t {
            XmlToken::Eof => true,
            XmlToken::Fault { .. } => true,
            _ => false,
        };
        out.push(t);
        assert(token_views(out@) =~= prev.push(pending[0]));
        assert(prev + pending =~= prev.push(pending[0]) + pending.drop_first());
        if stop {
            assert(pending.len() == 1) by {
                if pending.len() > 1 {
                    assert(!is_final(pending[0]));
                }
            }
            assert(token_views(out@) =~= xml_events(content@));
            return out;
        }
        assert(ends_once(pending.drop_first())) by {
            assert(pending.len() > 1);
            assert forall|i: int| 0 <= i < pending.drop_first().len() - 1 implies !is_final(
                #[trigger] pending.drop_first()[i],
            ) by {
                assert(pending.drop_first()[i] == pending[i + 1]);
            }
        }
    }
}

} // verus!
