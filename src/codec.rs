//! Decoding typed values from the element view and encoding them back.
//! Each type declares, field by field, whether a value is an attribute or a
//! child element; `valid` says when an element decodes, `decodes` what it
//! decodes to, and `encodes` what element a value is written as.

use vstd::prelude::*;
use crate::decimal::{Decimal, decimal_of, decimal_valid, parse_decimal};
use crate::text::{bool_text, parse_bool, parse_u64, u64_text};
use crate::xml::{
    XmlAttribute, XmlElement, XmlReadError, attr, child, find_attribute, lemma_named_step, named,
};

verus! {

/// Why a response could not be decoded.
#[derive(Debug)]
pub enum DecodeError {
    /// The document is not well-formed XML.
    Xml(XmlReadError),
    /// A required attribute or element is absent.
    MissingField(String),
    /// An element that may occur once occurs more often.
    DuplicateField(String),
    /// A field is present but its text is not a value of its type.
    InvalidValue(String),
}

/// The element tree of a document.
pub fn read_document(text: &str) -> (r: Result<XmlElement, DecodeError>)
    ensures
        r is Ok ==> crate::xml::root_closes(crate::xml::xml_token_kinds(text@), 0, 0),
        r matches Err(e) ==> e is Xml,
        r matches Err(DecodeError::Xml(e)) ==> (e is Unclosed || e is MismatchedEnd)
            ==> !crate::xml::root_closes(crate::xml::xml_token_kinds(text@), 0, 0),
{
    match crate::xml::parse_xml(text) {
        Ok(root) => Ok(root),
        Err(e) => Err(DecodeError::Xml(e)),
    }
}

pub trait FromXml: Sized {
    /// `e` decodes.
    spec fn valid(e: XmlElement) -> bool;

    /// `v` is what `e` decodes to.
    spec fn decodes(e: XmlElement, v: Self) -> bool;

    fn from_xml(e: &XmlElement) -> (r: Result<Self, DecodeError>)
        ensures
            r is Ok <==> Self::valid(*e),
            r matches Ok(v) ==> Self::decodes(*e, v),
    ;
}

pub trait ToXml: FromXml {
    /// The tag that a value is written under.
    spec fn xml_name() -> Seq<char>;

    /// `e` is the element that `v` is written as.
    spec fn encodes(v: Self, e: XmlElement) -> bool;

    fn to_xml(&self) -> (r: XmlElement)
        ensures
            Self::encodes(*self, r),
    ;

    /// Decoding what a value is written as gives back an equivalent value.
    proof fn lemma_round_trip(v: Self, e: XmlElement)
        requires
            Self::encodes(v, e),
        ensures
            e.name@ == Self::xml_name(),
            Self::valid(e),
            Self::decodes(e, v),
    ;
}

// ---------------------------------------------------------------------------
// Fields

pub open spec fn u64_attr(e: XmlElement, key: Seq<char>) -> Option<u64> {
    match attr(e, key) {
        Some(s) => u64_text(s),
        None => None,
    }
}

pub open spec fn bool_attr(e: XmlElement, key: Seq<char>) -> Option<bool> {
    match attr(e, key) {
        Some(s) => bool_text(s),
        None => None,
    }
}

/// An optional numeric attribute is absent or a number.
pub open spec fn optional_u64_ok(e: XmlElement, key: Seq<char>) -> bool {
    attr(e, key) is None || u64_attr(e, key) is Some
}

pub open spec fn optional_text_is(e: XmlElement, key: Seq<char>, v: Option<String>) -> bool {
    match attr(e, key) {
        None => v is None,
        Some(s) => v matches Some(t) && t@ == s,
    }
}

pub open spec fn optional_decimal_ok(e: XmlElement, key: Seq<char>) -> bool {
    match attr(e, key) {
        None => true,
        Some(s) => decimal_valid(s),
    }
}

pub open spec fn optional_decimal_is(e: XmlElement, key: Seq<char>, v: Option<Decimal>) -> bool {
    match attr(e, key) {
        None => v is None,
        Some(s) => v matches Some(d) && d.wf() && decimal_of(s, d),
    }
}

fn missing(key: &str) -> (r: DecodeError)
    ensures
        r matches DecodeError::MissingField(f) && f@ == key@,
{
    DecodeError::MissingField(String::from_str(key))
}

fn invalid(key: &str) -> (r: DecodeError)
    ensures
        r matches DecodeError::InvalidValue(f) && f@ == key@,
{
    DecodeError::InvalidValue(String::from_str(key))
}

/// A required text attribute.
pub fn text_field(e: &XmlElement, key: &str) -> (r: Result<String, DecodeError>)
    ensures
        r is Ok <==> attr(*e, key@) is Some,
        r matches Ok(s) ==> attr(*e, key@) == Some(s@),
        r matches Err(err) ==> err matches DecodeError::MissingField(f) && f@ == key@,
{
    match find_attribute(&e.attributes, key) {
        Some(i) => Ok(e.attributes[i].value.clone()),
        None => Err(missing(key)),
    }
}

/// An optional text attribute.
pub fn optional_text_field(e: &XmlElement, key: &str) -> (r: Option<String>)
    ensures
        optional_text_is(*e, key@, r),
{
    match find_attribute(&e.attributes, key) {
        Some(i) => Some(e.attributes[i].value.clone()),
        None => None,
    }
}

/// A required unsigned integer attribute.
pub fn u64_field(e: &XmlElement, key: &str) -> (r: Result<u64, DecodeError>)
    ensures
        r is Ok <==> u64_attr(*e, key@) is Some,
        r matches Ok(n) ==> u64_attr(*e, key@) == Some(n),
{
    match find_attribute(&e.attributes, key) {
        Some(i) => match parse_u64(e.attributes[i].value.as_str()) {
            Some(n) => Ok(n),
            None => Err(invalid(key)),
        },
        None => Err(missing(key)),
    }
}

/// An optional unsigned integer attribute.
pub fn optional_u64_field(e: &XmlElement, key: &str) -> (r: Result<Option<u64>, DecodeError>)
    ensures
        r is Ok <==> optional_u64_ok(*e, key@),
        r matches Ok(n) ==> n == u64_attr(*e, key@),
{
    match find_attribute(&e.attributes, key) {
        Some(i) => match parse_u64(e.attributes[i].value.as_str()) {
            Some(n) => Ok(Some(n)),
            None => Err(invalid(key)),
        },
        None => Ok(None),
    }
}

/// A required boolean attribute.
pub fn bool_field(e: &XmlElement, key: &str) -> (r: Result<bool, DecodeError>)
    ensures
        r is Ok <==> bool_attr(*e, key@) is Some,
        r matches Ok(b) ==> bool_attr(*e, key@) == Some(b),
{
    match find_attribute(&e.attributes, key) {
        Some(i) => match parse_bool(e.attributes[i].value.as_str()) {
            Some(b) => Ok(b),
            None => Err(invalid(key)),
        },
        None => Err(missing(key)),
    }
}

pub open spec fn decimal_attr_is(e: XmlElement, key: Seq<char>, d: Decimal) -> bool {
    attr(e, key) matches Some(s) && d.wf() && decimal_of(s, d)
}

pub open spec fn decimal_attr_ok(e: XmlElement, key: Seq<char>) -> bool {
    attr(e, key) matches Some(s) && decimal_valid(s)
}

/// A required decimal attribute.
pub fn decimal_field(e: &XmlElement, key: &str) -> (r: Result<Decimal, DecodeError>)
    ensures
        r is Ok <==> decimal_attr_ok(*e, key@),
        r matches Ok(d) ==> decimal_attr_is(*e, key@, d),
{
    match find_attribute(&e.attributes, key) {
        Some(i) => match parse_decimal(e.attributes[i].value.as_str()) {
            Some(d) => Ok(d),
            None => Err(invalid(key)),
        },
        None => Err(missing(key)),
    }
}

/// The first child named `name`, which must be there.
pub fn required_element<'a>(e: &'a XmlElement, name: &str) -> (r: Result<&'a XmlElement, DecodeError>)
    ensures
        r is Ok <==> child(*e, name@) is Some,
        r matches Ok(c) ==> child(*e, name@) == Some(*c),
{
    match find_child(e, name) {
        Some(k) => Ok(&e.children[k]),
        None => Err(missing(name)),
    }
}

/// An optional decimal attribute.
pub fn optional_decimal_field(e: &XmlElement, key: &str) -> (r: Result<
    Option<Decimal>,
    DecodeError,
>)
    ensures
        r is Ok <==> optional_decimal_ok(*e, key@),
        r matches Ok(d) ==> optional_decimal_is(*e, key@, d),
{
    match find_attribute(&e.attributes, key) {
        Some(i) => match parse_decimal(e.attributes[i].value.as_str()) {
            Some(d) => Ok(Some(d)),
            None => Err(invalid(key)),
        },
        None => Ok(None),
    }
}

/// An attribute `key="value"`.
pub fn pair(key: &str, value: String) -> (r: XmlAttribute)
    ensures
        r.key@ == key@,
        r.value@ == value@,
{
    XmlAttribute { key: String::from_str(key), value }
}

/// An element with a name and nothing else.
pub fn new_element(name: &str) -> (r: XmlElement)
    ensures
        r.name@ == name@,
        r.attributes@.len() == 0,
        r.children@.len() == 0,
        r.text@.len() == 0,
{
    XmlElement {
        name: String::from_str(name),
        attributes: Vec::new(),
        children: Vec::new(),
        text: String::new(),
    }
}

// ---------------------------------------------------------------------------
// Repeated children

pub open spec fn all_valid<T: FromXml>(cs: Seq<XmlElement>) -> bool {
    forall|i: int| 0 <= i < cs.len() ==> #[trigger] T::valid(cs[i])
}

pub open spec fn all_decode<T: FromXml>(cs: Seq<XmlElement>, vs: Seq<T>) -> bool {
    &&& vs.len() == cs.len()
    &&& forall|i: int| 0 <= i < cs.len() ==> #[trigger] T::decodes(cs[i], vs[i])
}

pub open spec fn all_encode<T: ToXml>(vs: Seq<T>, es: Seq<XmlElement>) -> bool {
    &&& es.len() == vs.len()
    &&& forall|i: int| 0 <= i < vs.len() ==> #[trigger] T::encodes(vs[i], es[i])
}

/// Every child named `name`, in document order, each decoded as `T`.
pub fn decode_named<T: FromXml>(e: &XmlElement, name: &str) -> (r: Result<Vec<T>, DecodeError>)
    ensures
        r is Ok <==> all_valid::<T>(named(e.children@, name@)),
        r matches Ok(vs) ==> all_decode::<T>(named(e.children@, name@), vs@),
{
    let ghost cs = e.children@;
    let mut out: Vec<T> = Vec::new();
    let mut i: usize = 0;
    while i < e.children.len()
        invariant
            cs == e.children@,
            i <= cs.len(),
            all_valid::<T>(named(cs.subrange(0, i as int), name@)),
            all_decode::<T>(named(cs.subrange(0, i as int), name@), out@),
        decreases cs.len() - i,
    {
        proof {
            lemma_named_step(cs, name@, i as int);
        }
        let c = &e.children[i];
        if crate::text::str_eq(c.name.as_str(), name) {
            match T::from_xml(c) {
                Ok(v) => {
                    out.push(v);
                    let ghost ns = named(cs.subrange(0, i + 1), name@);
                    assert(forall|j: int| 0 <= j < ns.len() - 1 ==> ns[j] == named(
                        cs.subrange(0, i as int),
                        name@,
                    )[j]);
                },
                Err(err) => {
                    proof {
                        lemma_named_prefix(cs, name@, i + 1);
                        let ns = named(cs.subrange(0, i + 1), name@);
                        let k = ns.len() - 1;
                        assert(named(cs, name@)[k] == ns[k]);
                    }
                    return Err(err);
                },
            }
        }
        i = i + 1;
    }
    assert(cs.subrange(0, cs.len() as int) =~= cs);
    Ok(out)
}

/// The children named `name` among the first `i` are a prefix of all of them.
pub proof fn lemma_named_prefix(cs: Seq<XmlElement>, name: Seq<char>, i: int)
    requires
        0 <= i <= cs.len(),
    ensures
        named(cs.subrange(0, i), name).len() <= named(cs, name).len(),
        forall|j: int|
            0 <= j < named(cs.subrange(0, i), name).len() ==> named(cs, name)[j] == named(
                cs.subrange(0, i),
                name,
            )[j],
    decreases cs.len() - i,
{
    if i == cs.len() {
        assert(cs.subrange(0, i) =~= cs);
    } else {
        lemma_named_step(cs, name, i);
        lemma_named_prefix(cs, name, i + 1);
    }
}

/// Position of the first child named `name`.
pub fn find_child(e: &XmlElement, name: &str) -> (r: Option<usize>)
    ensures
        r is None <==> named(e.children@, name@).len() == 0,
        r matches Some(k) ==> k < e.children@.len() && named(e.children@, name@)[0]
            == e.children@[k as int],
{
    let ghost cs = e.children@;
    let mut i: usize = 0;
    while i < e.children.len()
        invariant
            cs == e.children@,
            i <= cs.len(),
            named(cs.subrange(0, i as int), name@).len() == 0,
        decreases cs.len() - i,
    {
        proof {
            lemma_named_step(cs, name@, i as int);
        }
        if crate::text::str_eq(e.children[i].name.as_str(), name) {
            proof {
                lemma_named_prefix(cs, name@, i + 1);
            }
            return Some(i);
        }
        i = i + 1;
    }
    assert(cs.subrange(0, cs.len() as int) =~= cs);
    None
}

/// The text of the first child named `name`.
pub open spec fn child_text(e: XmlElement, name: Seq<char>) -> Option<Seq<char>> {
    match child(e, name) {
        Some(c) => Some(c.text@),
        None => None,
    }
}

/// A required field written as a child element holding text.
pub fn child_text_field(e: &XmlElement, name: &str) -> (r: Result<String, DecodeError>)
    ensures
        r is Ok <==> child_text(*e, name@) is Some,
        r matches Ok(s) ==> child_text(*e, name@) == Some(s@),
{
    match find_child(e, name) {
        Some(k) => Ok(e.children[k].text.clone()),
        None => Err(missing(name)),
    }
}

pub open spec fn optional_child_ok<T: FromXml>(e: XmlElement, name: Seq<char>) -> bool {
    match child(e, name) {
        Some(c) => T::valid(c),
        None => true,
    }
}

pub open spec fn optional_child_is<T: FromXml>(e: XmlElement, name: Seq<char>, v: Option<T>) -> bool {
    match child(e, name) {
        Some(c) => v matches Some(x) && T::decodes(c, x),
        None => v is None,
    }
}

/// An optional field written as a child element: its first occurrence.
pub fn optional_child<T: FromXml>(e: &XmlElement, name: &str) -> (r: Result<
    Option<T>,
    DecodeError,
>)
    ensures
        r is Ok <==> optional_child_ok::<T>(*e, name@),
        r matches Ok(v) ==> optional_child_is::<T>(*e, name@, v),
{
    match find_child(e, name) {
        Some(k) => {
            let v = T::from_xml(&e.children[k])?;
            Ok(Some(v))
        },
        None => Ok(None),
    }
}

/// A required field written as a child element: its first occurrence.
pub fn required_child<T: FromXml>(e: &XmlElement, name: &str) -> (r: Result<T, DecodeError>)
    ensures
        r is Ok <==> (child(*e, name@) matches Some(c) && T::valid(c)),
        r matches Ok(v) ==> (child(*e, name@) matches Some(c) && T::decodes(c, v)),
        child(*e, name@) is None ==> (r matches Err(DecodeError::MissingField(f)) && f@ == name@),
{
    match find_child(e, name) {
        Some(k) => T::from_xml(&e.children[k]),
        None => Err(missing(name)),
    }
}

/// Appends the elements that `vs` are written as.
pub fn push_encoded<T: ToXml>(vs: &Vec<T>, out: &mut Vec<XmlElement>)
    ensures
        final(out)@.len() == old(out)@.len() + vs@.len(),
        final(out)@.subrange(0, old(out)@.len() as int) == old(out)@,
        all_encode::<T>(vs@, final(out)@.subrange(old(out)@.len() as int, final(out)@.len() as int)),
{
    let ghost start = out@;
    let mut i: usize = 0;
    while i < vs.len()
        invariant
            i <= vs@.len(),
            out@.len() == start.len() + i,
            out@.subrange(0, start.len() as int) == start,
            forall|j: int| 0 <= j < i ==> #[trigger] T::encodes(vs@[j], out@[start.len() + j]),
        decreases vs@.len() - i,
    {
        let x = vs[i].to_xml();
        out.push(x);
        assert(out@.subrange(0, start.len() as int) =~= start);
        i = i + 1;
    }
    let ghost tail = out@.subrange(start.len() as int, out@.len() as int);
    assert forall|j: int| 0 <= j < vs@.len() implies #[trigger] T::encodes(vs@[j], tail[j]) by {
        assert(tail[j] == out@[start.len() + j]);
    }
}

/// Values written one after another decode back, in order.
pub proof fn lemma_all_round_trip<T: ToXml>(vs: Seq<T>, es: Seq<XmlElement>)
    requires
        all_encode::<T>(vs, es),
    ensures
        named(es, T::xml_name()) == es,
        all_valid::<T>(es),
        all_decode::<T>(es, vs),
{
    assert forall|i: int| 0 <= i < es.len() implies (#[trigger] es[i]).name@ == T::xml_name()
        && T::valid(es[i]) && T::decodes(es[i], vs[i]) by {
        T::lemma_round_trip(vs[i], es[i]);
    }
    crate::xml::lemma_named_uniform(es, T::xml_name());
}

} // verus!
