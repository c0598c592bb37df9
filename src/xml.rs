//! A generic view of an XML document: named elements with ordered
//! attributes, ordered child elements and text; how it is written out, and
//! how it is read back through the quick-xml tokenizer.

use vstd::prelude::*;
use vstd::string::*;
use crate::text::{chars_of, str_eq};
use quick_xml::events::attributes::{AttrError, Attribute, Attributes};
use quick_xml::events::{BytesCData, BytesEnd, BytesStart, BytesText, Event};
use quick_xml::Reader;

verus! {

#[derive(Debug, PartialEq, Eq)]
pub struct XmlAttribute {
    pub key: String,
    pub value: String,
}

#[derive(Debug, PartialEq, Eq)]
pub struct XmlElement {
    pub name: String,
    pub attributes: Vec<XmlAttribute>,
    pub children: Vec<XmlElement>,
    pub text: String,
}

// ---------------------------------------------------------------------------
// Writing

/// The escaped form of one character in text and attribute values.
pub open spec fn escaped_char(c: char) -> Seq<char> {
    if c == '<' {
        seq!['&', 'l', 't', ';']
    } else if c == '>' {
        seq!['&', 'g', 't', ';']
    } else if c == '&' {
        seq!['&', 'a', 'm', 'p', ';']
    } else if c == '\'' {
        seq!['&', 'a', 'p', 'o', 's', ';']
    } else if c == '"' {
        seq!['&', 'q', 'u', 'o', 't', ';']
    } else {
        seq![c]
    }
}

pub open spec fn xml_escaped(s: Seq<char>) -> Seq<char>
    decreases s.len(),
{
    if s.len() == 0 {
        Seq::empty()
    } else {
        xml_escaped(s.drop_last()) + escaped_char(s.last())
    }
}

/// The attributes as written inside a start tag: ` key="value"` each.
pub open spec fn attributes_text(attrs: Seq<XmlAttribute>) -> Seq<char>
    decreases attrs.len(),
{
    if attrs.len() == 0 {
        Seq::empty()
    } else {
        attributes_text(attrs.drop_last()) + seq![' '] + attrs.last().key@ + seq!['=', '"']
            + xml_escaped(attrs.last().value@) + seq!['"']
    }
}

/// The document text of an element: a self-closing tag when it has neither
/// children nor text, else its escaped text followed by its children.
pub open spec fn xml_text(e: XmlElement) -> Seq<char>
    decreases e, 0int,
{
    if e.children@.len() == 0 && e.text@.len() == 0 {
        seq!['<'] + e.name@ + attributes_text(e.attributes@) + seq!['/', '>']
    } else {
        seq!['<'] + e.name@ + attributes_text(e.attributes@) + seq!['>'] + xml_escaped(e.text@)
            + children_text(e.children@, 0) + seq!['<', '/'] + e.name@ + seq!['>']
    }
}

/// The document text of the elements `cs[i..]`, one after the other.
pub open spec fn children_text(cs: Seq<XmlElement>, i: int) -> Seq<char>
    decreases cs, cs.len() - i,
{
    if 0 <= i < cs.len() {
        xml_text(cs[i]) + children_text(cs, i + 1)
    } else {
        Seq::empty()
    }
}

/// The UTF-8 encoding of a text.
pub open spec fn utf8(s: Seq<char>) -> Seq<u8>
    decreases s.len(),
{
    if s.len() == 0 {
        Seq::empty()
    } else {
        utf8(s.drop_last()) + crate::query::utf8_bytes(s.last())
    }
}

pub proof fn lemma_utf8_append(a: Seq<char>, b: Seq<char>)
    ensures
        utf8(a + b) == utf8(a) + utf8(b),
    decreases b.len(),
{
    if b.len() == 0 {
        assert(a + b =~= a);
        assert(utf8(a) + utf8(b) =~= utf8(a));
    } else {
        assert((a + b).drop_last() =~= a + b.drop_last());
        lemma_utf8_append(a, b.drop_last());
        assert(utf8(a) + utf8(b.drop_last()) + crate::query::utf8_bytes(b.last()) =~= utf8(a) + (
        utf8(b.drop_last()) + crate::query::utf8_bytes(b.last())));
    }
}

#[verifier::external_type_specification]
#[verifier::external_body]
#[verifier::reject_recursive_types(W)]
pub struct ExWriter<W>(quick_xml::Writer<W>);

/// The bytes that a writer has written so far.
pub uninterp spec fn written(w: quick_xml::Writer<Vec<u8>>) -> Seq<u8>;

/// One piece of output.
pub enum XmlPiece {
    Start(String, Vec<XmlAttribute>),
    Empty(String, Vec<XmlAttribute>),
    End(String),
    Text(String),
}

/// The text a piece is written as: tags with their attributes, text
/// escaped.
pub open spec fn piece_text(p: XmlPiece) -> Seq<char> {
    match p {
        XmlPiece::Start(n, a) => seq!['<'] + n@ + attributes_text(a@) + seq!['>'],
        XmlPiece::Empty(n, a) => seq!['<'] + n@ + attributes_text(a@) + seq!['/', '>'],
        XmlPiece::End(n) => seq!['<', '/'] + n@ + seq!['>'],
        XmlPiece::Text(t) => xml_escaped(t@),
    }
}

/// Relies on `quick_xml::Writer::new` over an empty `Vec`.
#[verifier::external_body]
fn new_writer() -> (r: quick_xml::Writer<Vec<u8>>)
    ensures
        written(r) == Seq::<u8>::empty(),
{
    quick_xml::Writer::new(Vec::new())
}

/// Relies on `quick_xml::Writer::write_event`, which writes a start or empty
/// tag as `<`, the name, ` key="value"` per attribute with the value escaped
/// by `quick_xml::escape::escape`, then `>` or `/>`; an end tag as `</name>`;
/// text escaped by `escape`. Writing into a `Vec` cannot fail.
#[verifier::external_body]
fn write_piece(w: &mut quick_xml::Writer<Vec<u8>>, p: &XmlPiece) -> (r: Result<(), quick_xml::Error>)
    ensures
        r is Ok,
        written(*final(w)) == written(*old(w)) + utf8(piece_text(*p)),
{
    w.write_event(match p {
        XmlPiece::Start(n, a) => Event::Start(BytesStart::new(n.as_str()).with_attributes(
            a.iter().map(|x| (x.key.as_str(), x.value.as_str())))),
        XmlPiece::Empty(n, a) => Event::Empty(BytesStart::new(n.as_str()).with_attributes(
            a.iter().map(|x| (x.key.as_str(), x.value.as_str())))),
        XmlPiece::End(n) => Event::End(BytesEnd::new(n.as_str())),
        XmlPiece::Text(t) => Event::Text(BytesText::new(t.as_str())),
    })
}

/// Relies on `quick_xml::Writer::into_inner`: the bytes written.
#[verifier::external_body]
fn into_bytes(w: quick_xml::Writer<Vec<u8>>) -> (r: Vec<u8>)
    ensures
        r@ == written(w),
{
    w.into_inner()
}

fn write(w: &mut quick_xml::Writer<Vec<u8>>, p: XmlPiece)
    ensures
        written(*final(w)) == written(*old(w)) + utf8(piece_text(p)),
{
    let r = write_piece(w, &p);
}

fn copy_attributes(attrs: &Vec<XmlAttribute>) -> (r: Vec<XmlAttribute>)
    ensures
        attributes_text(r@) == attributes_text(attrs@),
{
    let mut out: Vec<XmlAttribute> = Vec::new();
    let mut i: usize = 0;
    while i < attrs.len()
        invariant
            i <= attrs@.len(),
            out@.len() == i,
            forall|j: int|
                0 <= j < i ==> (#[trigger] out@[j]).key@ == attrs@[j].key@ && out@[j].value@
                    == attrs@[j].value@,
        decreases attrs@.len() - i,
    {
        out.push(XmlAttribute { key: attrs[i].key.clone(), value: attrs[i].value.clone() });
        i = i + 1;
    }
    proof {
        lemma_attributes_text_same(out@, attrs@);
    }
    out
}

proof fn lemma_attributes_text_same(a: Seq<XmlAttribute>, b: Seq<XmlAttribute>)
    requires
        a.len() == b.len(),
        forall|j: int| 0 <= j < a.len() ==> (#[trigger] a[j]).key@ == b[j].key@ && a[j].value@ == b[j].value@,
    ensures
        attributes_text(a) == attributes_text(b),
    decreases a.len(),
{
    if a.len() > 0 {
        lemma_attributes_text_same(a.drop_last(), b.drop_last());
        assert(a.last() == a[a.len() - 1]);
        assert(b.last() == b[b.len() - 1]);
    }
}

fn write_element(e: &XmlElement, w: &mut quick_xml::Writer<Vec<u8>>)
    ensures
        written(*final(w)) == written(*old(w)) + utf8(xml_text(*e)),
    decreases e,
{
    let ghost start = written(*w);
    let leaf = e.children.len() == 0 && e.text.unicode_len() == 0;
    if leaf {
        write(w, XmlPiece::Empty(e.name.clone(), copy_attributes(&e.attributes)));
        return;
    }
    let ghost open = seq!['<'] + e.name@ + attributes_text(e.attributes@) + seq!['>'];
    write(w, XmlPiece::Start(e.name.clone(), copy_attributes(&e.attributes)));
    write(w, XmlPiece::Text(e.text.clone()));
    proof {
        lemma_utf8_append(open, xml_escaped(e.text@));
    }
    let ghost head = open + xml_escaped(e.text@);
    let mut i: usize = 0;
    assert(children_text(e.children@, 0) == Seq::<char>::empty() + children_text(e.children@, 0));
    while i < e.children.len()
        invariant
            i <= e.children@.len(),
            written(*w) == start + utf8(head + (children_text(e.children@, 0).subrange(
                0,
                children_text(e.children@, 0).len() - children_text(e.children@, i as int).len(),
            ))),
            children_text(e.children@, 0) == children_text(e.children@, 0).subrange(
                0,
                children_text(e.children@, 0).len() - children_text(e.children@, i as int).len(),
            ) + children_text(e.children@, i as int),
        decreases e.children@.len() - i,
    {
        let ghost before = written(*w);
        write_element(&e.children[i], w);
        proof {
            let all = children_text(e.children@, 0);
            let rest = children_text(e.children@, i as int);
            let next = children_text(e.children@, i + 1);
            let x = xml_text(e.children@[i as int]);
            assert(rest == x + next);
            let done = all.subrange(0, all.len() - rest.len());
            let done2 = all.subrange(0, all.len() - next.len());
            assert(all == done + x + next);
            assert(done2 =~= done + x);
            lemma_utf8_append(head + done, x);
            assert(head + done + x =~= head + done2);
        }
        i = i + 1;
    }
    proof {
        let all = children_text(e.children@, 0);
        assert(children_text(e.children@, i as int) == Seq::<char>::empty());
        assert(all.subrange(0, all.len() - 0) =~= all);
    }
    let ghost mid = written(*w);
    write(w, XmlPiece::End(e.name.clone()));
    proof {
        let close = seq!['<', '/'] + e.name@ + seq!['>'];
        lemma_utf8_append(head + children_text(e.children@, 0), close);
        assert(xml_text(*e) =~= head + children_text(e.children@, 0) + close);
    }
}

/// The UTF-8 bytes of the document text of `e`.
pub fn to_xml_bytes(e: &XmlElement) -> (r: Vec<u8>)
    ensures
        r@ == utf8(xml_text(*e)),
{
    let mut w = new_writer();
    write_element(e, &mut w);
    assert(Seq::<u8>::empty() + utf8(xml_text(*e)) =~= utf8(xml_text(*e)));
    into_bytes(w)
}

// ---------------------------------------------------------------------------
// Looking inside an element

/// The attributes as (key, value) pairs, in order.
pub open spec fn pairs(attrs: Seq<XmlAttribute>) -> Seq<(Seq<char>, Seq<char>)> {
    attrs.map_values(|a: XmlAttribute| (a.key@, a.value@))
}

/// The value of the first pair whose key is `key`.
pub open spec fn lookup(ps: Seq<(Seq<char>, Seq<char>)>, key: Seq<char>) -> Option<Seq<char>>
    decreases ps.len(),
{
    if ps.len() == 0 {
        None
    } else if ps[0].0 == key {
        Some(ps[0].1)
    } else {
        lookup(ps.drop_first(), key)
    }
}

/// The value of the first attribute of `e` named `key`.
pub open spec fn attr(e: XmlElement, key: Seq<char>) -> Option<Seq<char>> {
    lookup(pairs(e.attributes@), key)
}

pub proof fn lemma_lookup_append(
    a: Seq<(Seq<char>, Seq<char>)>,
    b: Seq<(Seq<char>, Seq<char>)>,
    key: Seq<char>,
)
    ensures
        lookup(a + b, key) == if lookup(a, key) is Some {
            lookup(a, key)
        } else {
            lookup(b, key)
        },
    decreases a.len(),
{
    if a.len() == 0 {
        assert(a + b =~= b);
    } else {
        assert((a + b).drop_first() =~= a.drop_first() + b);
        lemma_lookup_append(a.drop_first(), b, key);
    }
}

/// The children named `name`, in document order.
pub open spec fn named(cs: Seq<XmlElement>, name: Seq<char>) -> Seq<XmlElement>
    decreases cs.len(),
{
    if cs.len() == 0 {
        Seq::empty()
    } else if cs.last().name@ == name {
        named(cs.drop_last(), name).push(cs.last())
    } else {
        named(cs.drop_last(), name)
    }
}

/// The first child named `name`.
pub open spec fn child(e: XmlElement, name: Seq<char>) -> Option<XmlElement> {
    if named(e.children@, name).len() > 0 {
        Some(named(e.children@, name)[0])
    } else {
        None
    }
}

/// Position of the first attribute named `key`.
pub fn find_attribute(attrs: &Vec<XmlAttribute>, key: &str) -> (r: Option<usize>)
    ensures
        r is None <==> lookup(pairs(attrs@), key@) is None,
        r matches Some(i) ==> i < attrs@.len() && lookup(pairs(attrs@), key@) == Some(
            attrs@[i as int].value@,
        ),
{
    let mut i: usize = 0;
    let ghost ps = pairs(attrs@);
    assert(ps.subrange(0, ps.len() as int) =~= ps);
    while i < attrs.len()
        invariant
            i <= attrs@.len(),
            ps == pairs(attrs@),
            lookup(ps, key@) == lookup(ps.subrange(i as int, ps.len() as int), key@),
        decreases attrs@.len() - i,
    {
        let ghost s = ps.subrange(i as int, ps.len() as int);
        assert(s.drop_first() =~= ps.subrange(i + 1, ps.len() as int));
        if str_eq(attrs[i].key.as_str(), key) {
            return Some(i);
        }
        i = i + 1;
    }
    None
}

pub proof fn lemma_named_step(cs: Seq<XmlElement>, name: Seq<char>, i: int)
    requires
        0 <= i < cs.len(),
    ensures
        named(cs.subrange(0, i + 1), name) == if cs[i].name@ == name {
            named(cs.subrange(0, i), name).push(cs[i])
        } else {
            named(cs.subrange(0, i), name)
        },
{
    assert(cs.subrange(0, i + 1).drop_last() =~= cs.subrange(0, i));
}

pub proof fn lemma_named_append(a: Seq<XmlElement>, b: Seq<XmlElement>, name: Seq<char>)
    ensures
        named(a + b, name) == named(a, name) + named(b, name),
    decreases b.len(),
{
    if b.len() == 0 {
        assert(a + b =~= a);
        assert(named(a, name) + named(b, name) =~= named(a, name));
    } else {
        assert((a + b).drop_last() =~= a + b.drop_last());
        lemma_named_append(a, b.drop_last(), name);
        if b.last().name@ == name {
            assert(named(a, name) + named(b.drop_last(), name).push(b.last()) =~= (named(a, name)
                + named(b.drop_last(), name)).push(b.last()));
        }
    }
}

/// When every element is named `name` they are all kept; when none is,
/// none is.
pub proof fn lemma_named_uniform(cs: Seq<XmlElement>, name: Seq<char>)
    ensures
        (forall|i: int| 0 <= i < cs.len() ==> (#[trigger] cs[i]).name@ == name) ==> named(
            cs,
            name,
        ) == cs,
        (forall|i: int| 0 <= i < cs.len() ==> (#[trigger] cs[i]).name@ != name) ==> named(
            cs,
            name,
        ) == Seq::<XmlElement>::empty(),
    decreases cs.len(),
{
    if cs.len() > 0 {
        lemma_named_uniform(cs.drop_last(), name);
        if forall|i: int| 0 <= i < cs.len() ==> (#[trigger] cs[i]).name@ == name {
            assert forall|i: int| 0 <= i < cs.drop_last().len() implies (
            #[trigger] cs.drop_last()[i]).name@ == name by {
                assert(cs.drop_last()[i] == cs[i]);
            }
            assert(cs.drop_last().push(cs.last()) =~= cs);
        }
        if forall|i: int| 0 <= i < cs.len() ==> (#[trigger] cs[i]).name@ != name {
            assert forall|i: int| 0 <= i < cs.drop_last().len() implies (
            #[trigger] cs.drop_last()[i]).name@ != name by {
                assert(cs.drop_last()[i] == cs[i]);
            }
        }
    }
}

// ---------------------------------------------------------------------------
// Reading

#[verifier::external_type_specification]
#[verifier::external_body]
#[verifier::reject_recursive_types(R)]
pub struct ExReader<R>(Reader<R>);

#[verifier::external_type_specification]
#[verifier::external_body]
pub struct ExBytesStart<'a>(BytesStart<'a>);

#[verifier::external_type_specification]
#[verifier::external_body]
pub struct ExBytesEnd<'a>(BytesEnd<'a>);

#[verifier::external_type_specification]
#[verifier::external_body]
pub struct ExBytesText<'a>(BytesText<'a>);

#[verifier::external_type_specification]
#[verifier::external_body]
pub struct ExBytesCData<'a>(BytesCData<'a>);

#[verifier::external_type_specification]
#[verifier::external_body]
pub struct ExAttributes<'a>(Attributes<'a>);

#[verifier::external_type_specification]
#[verifier::external_body]
pub struct ExAttribute<'a>(Attribute<'a>);

#[verifier::external_type_specification]
#[verifier::external_body]
pub struct ExAttrError(AttrError);

#[verifier::external_type_specification]
#[verifier::external_body]
pub struct ExXmlError(quick_xml::Error);

/// Why a document could not be read into an element tree.
#[derive(Debug)]
pub enum XmlReadError {
    /// The tokenizer rejected the text.
    Syntax(quick_xml::Error),
    /// The tokenizer rejected an attribute list.
    Attribute(AttrError),
    /// An end tag comes with no element open. (An end tag that names
    /// another element than the open one is refused by the tokenizer.)
    MismatchedEnd,
    /// The text ended before the root element was closed.
    Unclosed,
}

/// The kinds of token that the tokenizer yields.
#[derive(Debug, Clone, Copy, PartialEq, Eq)]
pub enum TokenKind {
    Start,
    Empty,
    End,
    Text,
    CData,
    Comment,
    Decl,
    Instruction,
    DocType,
    Eof,
    Failure,
}

/// The kinds of the tokens that quick-xml reads from `text`, in order, up
/// to and including the first `Eof` or `Failure`.
pub uninterp spec fn xml_token_kinds(text: Seq<char>) -> Seq<TokenKind>;

/// The kinds of the tokens that a reader has still to yield.
pub uninterp spec fn tokens_left(reader: Reader<&[u8]>) -> Seq<TokenKind>;

pub open spec fn terminal(k: TokenKind) -> bool {
    k == TokenKind::Eof || k == TokenKind::Failure
}

/// A token sequence that ends with its one terminal token.
pub open spec fn ends_once(ks: Seq<TokenKind>) -> bool {
    &&& ks.len() > 0
    &&& terminal(ks.last())
    &&& forall|i: int| 0 <= i < ks.len() - 1 ==> !terminal(#[trigger] ks[i])
}

/// One token, as the tree builder receives it.
enum XmlToken<'a> {
    Start(BytesStart<'a>),
    Empty(BytesStart<'a>),
    End(BytesEnd<'a>),
    Text(BytesText<'a>),
    CData(BytesCData<'a>),
    Comment,
    Decl,
    Instruction,
    DocType,
    Eof,
}

spec fn kind_of(r: Result<XmlToken, quick_xml::Error>) -> TokenKind {
    match r {
        Ok(XmlToken::Start(_)) => TokenKind::Start,
        Ok(XmlToken::Empty(_)) => TokenKind::Empty,
        Ok(XmlToken::End(_)) => TokenKind::End,
        Ok(XmlToken::Text(_)) => TokenKind::Text,
        Ok(XmlToken::CData(_)) => TokenKind::CData,
        Ok(XmlToken::Comment) => TokenKind::Comment,
        Ok(XmlToken::Decl) => TokenKind::Decl,
        Ok(XmlToken::Instruction) => TokenKind::Instruction,
        Ok(XmlToken::DocType) => TokenKind::DocType,
        Ok(XmlToken::Eof) => TokenKind::Eof,
        Err(_) => TokenKind::Failure,
    }
}

/// Relies on `quick_xml::Reader::from_str`: a tokenizer over `text`, which
/// yields tokens until the end of the text or its first error. It checks
/// that each end tag names the element it closes (`check_end_names` is on
/// by default).
#[verifier::external_body]
fn reader_for<'a>(text: &'a str) -> (r: Reader<&'a [u8]>)
    ensures
        tokens_left(r) == xml_token_kinds(text@),
        ends_once(tokens_left(r)),
{
    Reader::from_str(text)
}

/// Relies on `quick_xml::Reader::read_event`: the next token of the text,
/// one variant per kind of event.
#[verifier::external_body]
fn read_token<'a>(reader: &mut Reader<&'a [u8]>) -> (r: Result<XmlToken<'a>, quick_xml::Error>)
    ensures
        tokens_left(*old(reader)).len() > 0 ==> kind_of(r) == tokens_left(*old(reader))[0]
            && tokens_left(*final(reader)) == tokens_left(*old(reader)).drop_first(),
{
    match reader.read_event() {
        Ok(Event::Start(e)) => Ok(XmlToken::Start(e)),
        Ok(Event::Empty(e)) => Ok(XmlToken::Empty(e)),
        Ok(Event::End(e)) => Ok(XmlToken::End(e)),
        Ok(Event::Text(e)) => Ok(XmlToken::Text(e)),
        Ok(Event::CData(e)) => Ok(XmlToken::CData(e)),
        Ok(Event::Comment(_)) => Ok(XmlToken::Comment),
        Ok(Event::Decl(_)) => Ok(XmlToken::Decl),
        Ok(Event::PI(_)) => Ok(XmlToken::Instruction),
        Ok(Event::DocType(_)) => Ok(XmlToken::DocType),
        Ok(Event::Eof) => Ok(XmlToken::Eof),
        Err(e) => Err(e),
    }
}

/// Relies on `quick_xml::events::BytesCData::into_inner`: the section's
/// text, taken as it stands.
#[verifier::external_body]
fn cdata_value(e: BytesCData) -> String {
    String::from_utf8_lossy(&e.into_inner()).into_owned()
}

/// Relies on `quick_xml::events::BytesStart::name`: the tag name.
#[verifier::external_body]
fn start_name(e: &BytesStart) -> String {
    String::from_utf8_lossy(e.name().as_ref()).into_owned()
}

/// Relies on `quick_xml::events::BytesStart::attributes`: an iterator over
/// the attributes of the tag.
#[verifier::external_body]
fn attributes_of<'b>(e: &'b BytesStart) -> Attributes<'b> {
    e.attributes()
}

/// Relies on `Iterator::next` of `quick_xml::events::attributes::Attributes`.
#[verifier::external_body]
fn next_attribute<'b>(it: &mut Attributes<'b>) -> Option<Result<Attribute<'b>, AttrError>> {
    it.next()
}

/// Relies on the `key` field of `quick_xml::events::attributes::Attribute`.
#[verifier::external_body]
fn attribute_key(a: &Attribute) -> String {
    String::from_utf8_lossy(a.key.as_ref()).into_owned()
}

/// Relies on `quick_xml::events::attributes::Attribute::unescape_value`.
#[verifier::external_body]
fn attribute_value(a: &Attribute) -> Result<String, quick_xml::Error> {
    a.unescape_value().map(|v| v.into_owned())
}

/// Relies on `quick_xml::events::BytesText::unescape`.
#[verifier::external_body]
fn text_value(e: &BytesText) -> Result<String, quick_xml::Error> {
    e.unescape().map(|v| v.into_owned())
}

pub open spec fn is_blank(s: Seq<char>) -> bool {
    forall|i: int| 0 <= i < s.len() ==> (#[trigger] s[i] == ' ' || s[i] == '\n' || s[i] == '\r'
        || s[i] == '\t')
}

fn blank(s: &str) -> (r: bool)
    ensures
        r == is_blank(s@),
{
    let cs = chars_of(s);
    let mut i: usize = 0;
    while i < cs.len()
        invariant
            cs@ == s@,
            i <= cs@.len(),
            forall|j: int| 0 <= j < i ==> (#[trigger] cs@[j] == ' ' || cs@[j] == '\n' || cs@[j]
                == '\r' || cs@[j] == '\t'),
        decreases cs@.len() - i,
    {
        let c = cs[i];
        if !(c == ' ' || c == '\n' || c == '\r' || c == '\t') {
            return false;
        }
        i = i + 1;
    }
    true
}

/// An element with the name and attributes of a start tag, and no content
/// yet. `limit` bounds how many attributes are read.
fn open_element(tag: &BytesStart, limit: usize) -> (r: Result<XmlElement, XmlReadError>)
    ensures
        r matches Ok(e) ==> e.children@.len() == 0 && e.text@.len() == 0,
        r matches Err(e) ==> e is Syntax || e is Attribute,
{
    let name = start_name(tag);
    let mut attributes: Vec<XmlAttribute> = Vec::new();
    let mut it = attributes_of(tag);
    let mut left: usize = limit;
    while left > 0
        decreases left,
    {
        left = left - 1;
        match next_attribute(&mut it) {
            None => {
                break;
            },
            Some(Err(e)) => {
                return Err(XmlReadError::Attribute(e));
            },
            Some(Ok(a)) => {
                let key = attribute_key(&a);
                match attribute_value(&a) {
                    Ok(value) => attributes.push(XmlAttribute { key, value }),
                    Err(e) => {
                        return Err(XmlReadError::Syntax(e));
                    },
                }
            },
        }
    }
    Ok(XmlElement { name, attributes, children: Vec::new(), text: String::new() })
}

/// Adds `child` as the last child of the innermost open element.
fn attach(stack: &mut Vec<XmlElement>, child: XmlElement)
    requires
        old(stack)@.len() > 0,
    ensures
        final(stack)@.len() == old(stack)@.len(),
{
    let mut parent = stack.pop().unwrap();
    parent.children.push(child);
    stack.push(parent);
}

/// Whether the tokens `ks[i..]`, read with `depth` elements open, close
/// the root element: an empty root tag at depth 0, or the end tag that
/// brings the depth from 1 to 0, before the text ends, fails, or closes an
/// element that is not open.
pub open spec fn root_closes(ks: Seq<TokenKind>, i: int, depth: nat) -> bool
    decreases ks.len() - i,
{
    if i < 0 || i >= ks.len() {
        false
    } else {
        match ks[i] {
            TokenKind::Start => root_closes(ks, i + 1, depth + 1),
            TokenKind::Empty => depth == 0 || root_closes(ks, i + 1, depth),
            TokenKind::End => depth == 1 || (depth > 1 && root_closes(ks, i + 1, (depth - 1) as nat)),
            TokenKind::Eof | TokenKind::Failure => false,
            _ => root_closes(ks, i + 1, depth),
        }
    }
}

/// Reads a document into the tree of its root element. Text and CDATA are
/// appended to the element that holds them, but text made only of white
/// space is left out; comments, declarations, processing instructions and
/// doctypes are skipped. What follows the root element is not read.
pub fn parse_xml(text: &str) -> (r: Result<XmlElement, XmlReadError>)
    ensures
        r is Ok ==> root_closes(xml_token_kinds(text@), 0, 0),
        r matches Err(XmlReadError::Unclosed) ==> !root_closes(xml_token_kinds(text@), 0, 0),
        r matches Err(XmlReadError::MismatchedEnd) ==> !root_closes(xml_token_kinds(text@), 0, 0),
{
    let mut reader = reader_for(text);
    let ghost ks = xml_token_kinds(text@);
    let mut stack: Vec<XmlElement> = Vec::new();
    let limit = text.len();
    let ghost mut i: int = 0;
    assert(ks.skip(0) =~= ks);
    loop
        invariant
            ks == xml_token_kinds(text@),
            ends_once(ks),
            0 <= i < ks.len(),
            tokens_left(reader) == ks.skip(i),
            root_closes(ks, 0, 0) == root_closes(ks, i, stack@.len() as nat),
        decreases ks.len() - i,
    {
        let ghost depth = stack@.len() as nat;
        let token = read_token(&mut reader);
        proof {
            assert(ks.skip(i)[0] == ks[i]);
            assert(ks.skip(i).drop_first() =~= ks.skip(i + 1));
        }
        match token {
            Err(e) => {
                return Err(XmlReadError::Syntax(e));
            },
            Ok(XmlToken::Start(tag)) => {
                let e = open_element(&tag, limit)?;
                stack.push(e);
            },
            Ok(XmlToken::Empty(tag)) => {
                assert(ks[i] == TokenKind::Empty);
                assert(root_closes(ks, i, depth) == (depth == 0 || root_closes(ks, i + 1, depth)));
                let e = open_element(&tag, limit)?;
                if stack.len() == 0 {
                    return Ok(e);
                }
                attach(&mut stack, e);
            },
            Ok(XmlToken::End(_)) => {
                if stack.len() == 0 {
                    assert(ks[i] == TokenKind::End);
                    assert(!root_closes(ks, i, depth));
                    return Err(XmlReadError::MismatchedEnd);
                }
                let e = stack.pop().unwrap();
                if stack.len() == 0 {
                    return Ok(e);
                }
                attach(&mut stack, e);
            },
            Ok(XmlToken::Text(t)) => {
                let s = match text_value(&t) {
                    Ok(s) => s,
                    Err(e) => {
                        return Err(XmlReadError::Syntax(e));
                    },
                };
                if stack.len() > 0 && !blank(s.as_str()) {
                    let mut e = stack.pop().unwrap();
                    e.text.append(s.as_str());
                    stack.push(e);
                }
            },
            Ok(XmlToken::CData(c)) => {
                let s = cdata_value(c);
                if stack.len() > 0 {
                    let mut e = stack.pop().unwrap();
                    e.text.append(s.as_str());
                    stack.push(e);
                }
            },
            Ok(XmlToken::Eof) => {
                assert(ks[i] == TokenKind::Eof);
                assert(!root_closes(ks, i, depth));
                return Err(XmlReadError::Unclosed);
            },
            Ok(_) => {},
        }
        proof {
            i = i + 1;
        }
    }
}

} // verus!
