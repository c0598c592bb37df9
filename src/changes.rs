//! Documents that hold several kinds of map element: change sets
//! (`osmChange`), map extracts and the `full` views of ways and relations.

use vstd::prelude::*;
use crate::codec::{
    DecodeError, FromXml, ToXml, all_decode, all_encode, all_valid, decimal_attr_is,
    decimal_attr_ok, decimal_field, decode_named, new_element, push_encoded, required_child,
};
use crate::types::{
    BoundingBox, ChangesetChanges, Creation, Deletion, MapData, Modification, Node, Relation,
    RelationFull, Way, WayFull,
};
use crate::elements::lemma_three_groups;
use crate::xml::{XmlElement, child, named};

verus! {

/// The nodes, ways and relations of a group, each kind in document order.
pub open spec fn group_valid(e: XmlElement) -> bool {
    &&& all_valid::<Node>(named(e.children@, "node"@))
    &&& all_valid::<Way>(named(e.children@, "way"@))
    &&& all_valid::<Relation>(named(e.children@, "relation"@))
}

pub open spec fn group_decodes(
    e: XmlElement,
    nodes: Seq<Node>,
    ways: Seq<Way>,
    relations: Seq<Relation>,
) -> bool {
    &&& all_decode::<Node>(named(e.children@, "node"@), nodes)
    &&& all_decode::<Way>(named(e.children@, "way"@), ways)
    &&& all_decode::<Relation>(named(e.children@, "relation"@), relations)
}

fn group_fields(e: &XmlElement) -> (r: Result<(Vec<Node>, Vec<Way>, Vec<Relation>), DecodeError>)
    ensures
        r is Ok <==> group_valid(*e),
        r matches Ok((n, w, l)) ==> group_decodes(*e, n@, w@, l@),
{
    let nodes = decode_named::<Node>(e, "node")?;
    let ways = decode_named::<Way>(e, "way")?;
    let relations = decode_named::<Relation>(e, "relation")?;
    Ok((nodes, ways, relations))
}

/// A group written as `name`: its nodes, then its ways, then its relations.
pub open spec fn group_encodes(
    e: XmlElement,
    name: Seq<char>,
    nodes: Seq<Node>,
    ways: Seq<Way>,
    relations: Seq<Relation>,
) -> bool {
    let a = nodes.len() as int;
    let b = a + ways.len();
    &&& e.name@ == name
    &&& e.attributes@.len() == 0
    &&& e.text@.len() == 0
    &&& b <= e.children@.len()
    &&& all_encode::<Node>(nodes, e.children@.subrange(0, a))
    &&& all_encode::<Way>(ways, e.children@.subrange(a, b))
    &&& all_encode::<Relation>(relations, e.children@.subrange(b, e.children@.len() as int))
}

fn group_to_xml(name: &str, nodes: &Vec<Node>, ways: &Vec<Way>, relations: &Vec<Relation>) -> (r:
    XmlElement)
    ensures
        group_encodes(r, name@, nodes@, ways@, relations@),
{
    let mut e = new_element(name);
    push_encoded(nodes, &mut e.children);
    let ghost first = e.children@;
    assert(first.subrange(0, first.len() as int) =~= first);
    push_encoded(ways, &mut e.children);
    let ghost second = e.children@;
    assert(second.subrange(0, first.len() as int) =~= first);
    push_encoded(relations, &mut e.children);
    assert(e.children@.subrange(0, first.len() as int) =~= first);
    assert(e.children@.subrange(first.len() as int, second.len() as int) =~= second.subrange(
        first.len() as int,
        second.len() as int,
    ));
    e
}

/// A group decodes back to what it was written from.
proof fn lemma_group_round_trip(
    e: XmlElement,
    name: Seq<char>,
    nodes: Seq<Node>,
    ways: Seq<Way>,
    relations: Seq<Relation>,
)
    requires
        group_encodes(e, name, nodes, ways, relations),
    ensures
        group_valid(e),
        group_decodes(e, nodes, ways, relations),
{
    reveal_strlit("node");
    reveal_strlit("way");
    reveal_strlit("relation");
    assert("node"@.len() != "way"@.len() && "node"@.len() != "relation"@.len());
    assert("way"@.len() != "relation"@.len());
    let a = nodes.len() as int;
    let b = a + ways.len();
    lemma_three_groups::<Node, Way, Relation>(nodes, ways, relations, e.children@, a, b);
    crate::codec::lemma_all_round_trip::<Node>(nodes, e.children@.subrange(0, a));
    crate::codec::lemma_all_round_trip::<Way>(ways, e.children@.subrange(a, b));
    crate::codec::lemma_all_round_trip::<Relation>(
        relations,
        e.children@.subrange(b, e.children@.len() as int),
    );
}

impl ToXml for Modification {
    open spec fn xml_name() -> Seq<char> {
        "modify"@
    }

    open spec fn encodes(v: Modification, e: XmlElement) -> bool {
        group_encodes(e, "modify"@, v.nodes@, v.ways@, v.relations@)
    }

    fn to_xml(&self) -> (r: XmlElement) {
        group_to_xml("modify", &self.nodes, &self.ways, &self.relations)
    }

    proof fn lemma_round_trip(v: Modification, e: XmlElement) {
        lemma_group_round_trip(e, "modify"@, v.nodes@, v.ways@, v.relations@);
    }
}

impl ToXml for Creation {
    open spec fn xml_name() -> Seq<char> {
        "create"@
    }

    open spec fn encodes(v: Creation, e: XmlElement) -> bool {
        group_encodes(e, "create"@, v.nodes@, v.ways@, v.relations@)
    }

    fn to_xml(&self) -> (r: XmlElement) {
        group_to_xml("create", &self.nodes, &self.ways, &self.relations)
    }

    proof fn lemma_round_trip(v: Creation, e: XmlElement) {
        lemma_group_round_trip(e, "create"@, v.nodes@, v.ways@, v.relations@);
    }
}

impl ToXml for Deletion {
    open spec fn xml_name() -> Seq<char> {
        "delete"@
    }

    open spec fn encodes(v: Deletion, e: XmlElement) -> bool {
        group_encodes(e, "delete"@, v.nodes@, v.ways@, v.relations@)
    }

    fn to_xml(&self) -> (r: XmlElement) {
        group_to_xml("delete", &self.nodes, &self.ways, &self.relations)
    }

    proof fn lemma_round_trip(v: Deletion, e: XmlElement) {
        lemma_group_round_trip(e, "delete"@, v.nodes@, v.ways@, v.relations@);
    }
}

impl FromXml for Modification {
    open spec fn valid(e: XmlElement) -> bool {
        group_valid(e)
    }

    open spec fn decodes(e: XmlElement, v: Modification) -> bool {
        group_decodes(e, v.nodes@, v.ways@, v.relations@)
    }

    fn from_xml(e: &XmlElement) -> (r: Result<Modification, DecodeError>) {
        let (nodes, ways, relations) = group_fields(e)?;
        Ok(Modification { nodes, ways, relations })
    }
}

impl FromXml for Creation {
    open spec fn valid(e: XmlElement) -> bool {
        group_valid(e)
    }

    open spec fn decodes(e: XmlElement, v: Creation) -> bool {
        group_decodes(e, v.nodes@, v.ways@, v.relations@)
    }

    fn from_xml(e: &XmlElement) -> (r: Result<Creation, DecodeError>) {
        let (nodes, ways, relations) = group_fields(e)?;
        Ok(Creation { nodes, ways, relations })
    }
}

impl FromXml for Deletion {
    open spec fn valid(e: XmlElement) -> bool {
        group_valid(e)
    }

    open spec fn decodes(e: XmlElement, v: Deletion) -> bool {
        group_decodes(e, v.nodes@, v.ways@, v.relations@)
    }

    fn from_xml(e: &XmlElement) -> (r: Result<Deletion, DecodeError>) {
        let (nodes, ways, relations) = group_fields(e)?;
        Ok(Deletion { nodes, ways, relations })
    }
}

impl FromXml for ChangesetChanges {
    open spec fn valid(e: XmlElement) -> bool {
        &&& all_valid::<Modification>(named(e.children@, "modify"@))
        &&& all_valid::<Creation>(named(e.children@, "create"@))
        &&& all_valid::<Deletion>(named(e.children@, "delete"@))
    }

    open spec fn decodes(e: XmlElement, v: ChangesetChanges) -> bool {
        &&& all_decode::<Modification>(named(e.children@, "modify"@), v.modifications@)
        &&& all_decode::<Creation>(named(e.children@, "create"@), v.creations@)
        &&& all_decode::<Deletion>(named(e.children@, "delete"@), v.deletions@)
    }

    fn from_xml(e: &XmlElement) -> (r: Result<ChangesetChanges, DecodeError>) {
        let modifications = decode_named::<Modification>(e, "modify")?;
        let creations = decode_named::<Creation>(e, "create")?;
        let deletions = decode_named::<Deletion>(e, "delete")?;
        Ok(ChangesetChanges { modifications, creations, deletions })
    }
}

impl ToXml for ChangesetChanges {
    open spec fn xml_name() -> Seq<char> {
        "osmChange"@
    }

    /// `<osmChange>`: one `modify` per modification, then one `create` per
    /// creation, then one `delete` per deletion.
    open spec fn encodes(v: ChangesetChanges, e: XmlElement) -> bool {
        let n = v.modifications@.len() as int;
        let m = n + v.creations@.len();
        &&& e.name@ == "osmChange"@
        &&& e.attributes@.len() == 0
        &&& e.text@.len() == 0
        &&& m <= e.children@.len()
        &&& all_encode::<Modification>(v.modifications@, e.children@.subrange(0, n))
        &&& all_encode::<Creation>(v.creations@, e.children@.subrange(n, m))
        &&& all_encode::<Deletion>(v.deletions@, e.children@.subrange(m, e.children@.len() as int))
    }

    fn to_xml(&self) -> (r: XmlElement) {
        let mut root = new_element("osmChange");
        push_encoded(&self.modifications, &mut root.children);
        let ghost first = root.children@;
        assert(first.subrange(0, first.len() as int) =~= first);
        push_encoded(&self.creations, &mut root.children);
        let ghost second = root.children@;
        assert(second.subrange(0, first.len() as int) =~= first);
        push_encoded(&self.deletions, &mut root.children);
        assert(root.children@.subrange(0, first.len() as int) =~= first);
        assert(root.children@.subrange(first.len() as int, second.len() as int)
            =~= second.subrange(first.len() as int, second.len() as int));
        root
    }

    proof fn lemma_round_trip(v: ChangesetChanges, e: XmlElement) {
        reveal_strlit("modify");
        reveal_strlit("create");
        reveal_strlit("delete");
        assert("modify"@ != "create"@ && "modify"@ != "delete"@ && "create"@ != "delete"@) by {
            assert("modify"@[0] != "create"@[0]);
            assert("modify"@[0] != "delete"@[0]);
            assert("create"@[0] != "delete"@[0]);
        }
        let n = v.modifications@.len() as int;
        let m = n + v.creations@.len();
        lemma_three_groups::<Modification, Creation, Deletion>(
            v.modifications@,
            v.creations@,
            v.deletions@,
            e.children@,
            n,
            m,
        );
        crate::codec::lemma_all_round_trip::<Modification>(
            v.modifications@,
            e.children@.subrange(0, n),
        );
        crate::codec::lemma_all_round_trip::<Creation>(v.creations@, e.children@.subrange(n, m));
        crate::codec::lemma_all_round_trip::<Deletion>(
            v.deletions@,
            e.children@.subrange(m, e.children@.len() as int),
        );
    }
}

/// `<bounds minlat minlon maxlat maxlon>`, read as a box: left is the
/// minimum longitude, bottom the minimum latitude.
impl FromXml for BoundingBox {
    open spec fn valid(e: XmlElement) -> bool {
        &&& decimal_attr_ok(e, "minlat"@)
        &&& decimal_attr_ok(e, "minlon"@)
        &&& decimal_attr_ok(e, "maxlat"@)
        &&& decimal_attr_ok(e, "maxlon"@)
    }

    open spec fn decodes(e: XmlElement, v: BoundingBox) -> bool {
        &&& decimal_attr_is(e, "minlon"@, v.left)
        &&& decimal_attr_is(e, "minlat"@, v.bottom)
        &&& decimal_attr_is(e, "maxlon"@, v.right)
        &&& decimal_attr_is(e, "maxlat"@, v.top)
    }

    fn from_xml(e: &XmlElement) -> (r: Result<BoundingBox, DecodeError>) {
        let bottom = decimal_field(e, "minlat")?;
        let left = decimal_field(e, "minlon")?;
        let top = decimal_field(e, "maxlat")?;
        let right = decimal_field(e, "maxlon")?;
        Ok(BoundingBox { left, bottom, right, top })
    }
}

/// `<osm>` holding `bounds` and the elements inside them.
impl FromXml for MapData {
    open spec fn valid(e: XmlElement) -> bool {
        &&& child(e, "bounds"@) matches Some(b) && BoundingBox::valid(b)
        &&& group_valid(e)
    }

    open spec fn decodes(e: XmlElement, v: MapData) -> bool {
        &&& child(e, "bounds"@) matches Some(b) && BoundingBox::decodes(b, v.bounds)
        &&& group_decodes(e, v.nodes@, v.ways@, v.relations@)
    }

    fn from_xml(e: &XmlElement) -> (r: Result<MapData, DecodeError>) {
        let bounds = required_child::<BoundingBox>(e, "bounds")?;
        let (nodes, ways, relations) = group_fields(e)?;
        Ok(MapData { bounds, nodes, ways, relations })
    }
}

/// `<osm>` holding the way and its nodes.
impl FromXml for WayFull {
    open spec fn valid(e: XmlElement) -> bool {
        &&& child(e, "way"@) matches Some(w) && Way::valid(w)
        &&& all_valid::<Node>(named(e.children@, "node"@))
    }

    open spec fn decodes(e: XmlElement, v: WayFull) -> bool {
        &&& child(e, "way"@) matches Some(w) && Way::decodes(w, v.way)
        &&& all_decode::<Node>(named(e.children@, "node"@), v.nodes@)
    }

    fn from_xml(e: &XmlElement) -> (r: Result<WayFull, DecodeError>) {
        let way = required_child::<Way>(e, "way")?;
        let nodes = decode_named::<Node>(e, "node")?;
        Ok(WayFull { way, nodes })
    }
}

/// `<osm>` holding the relation, its ways and its nodes.
impl FromXml for RelationFull {
    open spec fn valid(e: XmlElement) -> bool {
        &&& child(e, "relation"@) matches Some(r) && Relation::valid(r)
        &&& all_valid::<Way>(named(e.children@, "way"@))
        &&& all_valid::<Node>(named(e.children@, "node"@))
    }

    open spec fn decodes(e: XmlElement, v: RelationFull) -> bool {
        &&& child(e, "relation"@) matches Some(r) && Relation::decodes(r, v.relation)
        &&& all_decode::<Way>(named(e.children@, "way"@), v.ways@)
        &&& all_decode::<Node>(named(e.children@, "node"@), v.nodes@)
    }

    fn from_xml(e: &XmlElement) -> (r: Result<RelationFull, DecodeError>) {
        let relation = required_child::<Relation>(e, "relation")?;
        let ways = decode_named::<Way>(e, "way")?;
        let nodes = decode_named::<Node>(e, "node")?;
        Ok(RelationFull { relation, ways, nodes })
    }
}

} // verus!
