//! Envelopes: the outer `osm` element around one map element (whichever
//! child carries the element's tag) or around a list of them.

use vstd::prelude::*;
use crate::codec::{
    DecodeError, FromXml, ToXml, all_decode, all_valid, decode_named, lemma_named_prefix,
    new_element,
};
use crate::text::str_eq;
use crate::types::{Node, Relation, Way};
use crate::xml::{XmlElement, lemma_named_step, named};

verus! {

/// A map element type: its tag, the endpoint paths that serve it, and its id.
pub trait OpenstreetmapNode: ToXml {
    spec fn spec_id(&self) -> u64;

    fn element_name() -> (r: String)
        ensures
            r@ == Self::xml_name(),
    ;

    fn base_url() -> (r: String)
        ensures
            r@ == Self::xml_name() + seq!['/'],
    ;

    fn base_url_plural() -> (r: String)
        ensures
            r@ == Self::xml_name() + seq!['s', '/'],
    ;

    fn element_name_plural() -> (r: String)
        ensures
            r@ == Self::xml_name() + seq!['s'],
    ;

    fn id(&self) -> (r: u64)
        ensures
            r == self.spec_id(),
    ;
}

impl OpenstreetmapNode for Node {
    open spec fn spec_id(&self) -> u64 {
        self.id
    }

    fn element_name() -> (r: String) {
        String::from_str("node")
    }

    fn base_url() -> (r: String) {
        proof {
            reveal_strlit("node");
            reveal_strlit("node/");
            assert("node/"@ =~= "node"@ + seq!['/']);
        }
        String::from_str("node/")
    }

    fn base_url_plural() -> (r: String) {
        proof {
            reveal_strlit("node");
            reveal_strlit("nodes/");
            assert("nodes/"@ =~= "node"@ + seq!['s', '/']);
        }
        String::from_str("nodes/")
    }

    fn element_name_plural() -> (r: String) {
        proof {
            reveal_strlit("node");
            reveal_strlit("nodes");
            assert("nodes"@ =~= "node"@ + seq!['s']);
        }
        String::from_str("nodes")
    }

    fn id(&self) -> (r: u64) {
        self.id
    }
}

impl OpenstreetmapNode for Way {
    open spec fn spec_id(&self) -> u64 {
        self.id
    }

    fn element_name() -> (r: String) {
        String::from_str("way")
    }

    fn base_url() -> (r: String) {
        proof {
            reveal_strlit("way");
            reveal_strlit("way/");
            assert("way/"@ =~= "way"@ + seq!['/']);
        }
        String::from_str("way/")
    }

    fn base_url_plural() -> (r: String) {
        proof {
            reveal_strlit("way");
            reveal_strlit("ways/");
            assert("ways/"@ =~= "way"@ + seq!['s', '/']);
        }
        String::from_str("ways/")
    }

    fn element_name_plural() -> (r: String) {
        proof {
            reveal_strlit("way");
            reveal_strlit("ways");
            assert("ways"@ =~= "way"@ + seq!['s']);
        }
        String::from_str("ways")
    }

    fn id(&self) -> (r: u64) {
        self.id
    }
}

impl OpenstreetmapNode for Relation {
    open spec fn spec_id(&self) -> u64 {
        self.id
    }

    fn element_name() -> (r: String) {
        String::from_str("relation")
    }

    fn base_url() -> (r: String) {
        proof {
            reveal_strlit("relation");
            reveal_strlit("relation/");
            assert("relation/"@ =~= "relation"@ + seq!['/']);
        }
        String::from_str("relation/")
    }

    fn base_url_plural() -> (r: String) {
        proof {
            reveal_strlit("relation");
            reveal_strlit("relations/");
            assert("relations/"@ =~= "relation"@ + seq!['s', '/']);
        }
        String::from_str("relations/")
    }

    fn element_name_plural() -> (r: String) {
        proof {
            reveal_strlit("relation");
            reveal_strlit("relations");
            assert("relations"@ =~= "relation"@ + seq!['s']);
        }
        String::from_str("relations")
    }

    fn id(&self) -> (r: u64) {
        self.id
    }
}

/// Exactly one map element inside an `osm` envelope.
#[derive(Debug, PartialEq, Eq)]
pub struct OsmSingle<E> {
    pub element: E,
}

/// What decoding an envelope as holding one `E` gives: the one child with
/// `E`'s tag decoded; `MissingField("element")` when there is none and
/// `DuplicateField("element")` when there are several. Children with other
/// tags are skipped.
pub open spec fn single_outcome<E: FromXml>(
    root: XmlElement,
    name: Seq<char>,
    r: Result<OsmSingle<E>, DecodeError>,
) -> bool {
    let found = named(root.children@, name);
    &&& found.len() == 0 ==> (r matches Err(DecodeError::MissingField(f)) && f@ == "element"@)
    &&& found.len() > 1 ==> (r matches Err(DecodeError::DuplicateField(f)) && f@ == "element"@)
    &&& found.len() == 1 ==> ((r is Ok <==> E::valid(found[0])) && (r matches Ok(s)
        ==> E::decodes(found[0], s.element)))
}

impl<E: OpenstreetmapNode> OsmSingle<E> {
    pub fn new(element: E) -> (r: OsmSingle<E>)
        ensures
            r.element == element,
    {
        OsmSingle { element }
    }

    /// `<osm>` holding the element.
    pub fn to_xml(&self) -> (r: XmlElement)
        ensures
            r.name@ == "osm"@,
            r.attributes@.len() == 0,
            r.text@.len() == 0,
            r.children@.len() == 1,
            E::encodes(self.element, r.children@[0]),
    {
        let mut root = new_element("osm");
        root.children.push(self.element.to_xml());
        root
    }

    pub fn from_xml(root: &XmlElement) -> (r: Result<OsmSingle<E>, DecodeError>)
        ensures
            single_outcome::<E>(*root, E::xml_name(), r),
    {
        let name = E::element_name();
        let ghost cs = root.children@;
        let ghost nm = name@;
        let mut found: Option<usize> = None;
        let mut i: usize = 0;
        while i < root.children.len()
            invariant
                cs == root.children@,
                nm == name@,
                nm == E::xml_name(),
                i <= cs.len(),
                found is None <==> named(cs.subrange(0, i as int), nm).len() == 0,
                found matches Some(k) ==> k < cs.len() && named(cs.subrange(0, i as int), nm).len()
                    == 1 && named(cs.subrange(0, i as int), nm)[0] == cs[k as int],
                named(cs.subrange(0, i as int), nm).len() <= 1,
            decreases cs.len() - i,
        {
            proof {
                lemma_named_step(cs, nm, i as int);
            }
            if str_eq(root.children[i].name.as_str(), name.as_str()) {
                if found.is_some() {
                    proof {
                        lemma_named_prefix(cs, nm, i + 1);
                        assert(named(cs.subrange(0, i + 1), nm).len() == 2);
                        assert(named(cs, nm).len() > 1);
                    }
                    return Err(DecodeError::DuplicateField(String::from_str("element")));
                }
                found = Some(i);
            }
            i = i + 1;
        }
        assert(cs.subrange(0, cs.len() as int) =~= cs);
        match found {
            None => Err(DecodeError::MissingField(String::from_str("element"))),
            Some(k) => {
                let element = E::from_xml(&root.children[k])?;
                Ok(OsmSingle { element })
            },
        }
    }
}

/// Decoding the envelope written for an element selects that element and
/// gives back an equivalent value.
pub proof fn lemma_single_round_trip<E: OpenstreetmapNode>(element: E, root: XmlElement)
    requires
        root.children@.len() == 1,
        E::encodes(element, root.children@[0]),
    ensures
        named(root.children@, E::xml_name()) == root.children@,
        E::valid(root.children@[0]),
        E::decodes(root.children@[0], element),
{
    E::lemma_round_trip(element, root.children@[0]);
    crate::xml::lemma_named_uniform(root.children@, E::xml_name());
}

/// Map elements inside an `osm` envelope, in document order.
#[derive(Debug, PartialEq, Eq)]
pub struct OsmList<E> {
    pub elements: Vec<E>,
}

impl<E: OpenstreetmapNode> OsmList<E> {
    /// Every child with `E`'s tag, in document order, each decoded; children
    /// with other tags are skipped.
    pub fn from_xml(root: &XmlElement) -> (r: Result<OsmList<E>, DecodeError>)
        ensures
            r is Ok <==> all_valid::<E>(named(root.children@, E::xml_name())),
            r matches Ok(l) ==> all_decode::<E>(named(root.children@, E::xml_name()), l.elements@),
    {
        let name = E::element_name();
        let elements = decode_named::<E>(root, name.as_str())?;
        Ok(OsmList { elements })
    }
}

} // verus!
