use openstreetmap_api::changeset::OsmCreate;
use openstreetmap_api::codec::{read_document, FromXml, ToXml};
use openstreetmap_api::decimal::Decimal;
use openstreetmap_api::types::{ChangesetCreate, Member, Node, NodeRef, Relation, Tag, Way};
use openstreetmap_api::xml::{to_xml_bytes, XmlElement};

fn xml_of(e: &XmlElement) -> String {
    String::from_utf8(to_xml_bytes(e)).unwrap()
}

fn dec(s: &str) -> Decimal {
    Decimal::parse(s).unwrap()
}

fn changeset_create() -> ChangesetCreate {
    ChangesetCreate::new(
        "0.6",
        "iD",
        vec![
            Tag::new("comment", "aaa"),
            Tag::new("created_by", "iD 2.19.5"),
            Tag::new("host", "https://master.apis.dev.openstreetmap.org/edit"),
            Tag::new("locale", "en-GB"),
            Tag::new("imagery_used", "Bing aerial imagery"),
            Tag::new("changesets_count", "1"),
        ],
    )
}

#[test]
fn test_changeset_create_serialize_xml() {
    let actual = xml_of(&changeset_create().to_xml());
    let expected = r#"
        <changeset version="0.6" generator="iD">
            <tag k="comment" v="aaa"/>
            <tag k="created_by" v="iD 2.19.5"/>
            <tag k="host" v="https://master.apis.dev.openstreetmap.org/edit"/>
            <tag k="locale" v="en-GB"/>
            <tag k="imagery_used" v="Bing aerial imagery"/>
            <tag k="changesets_count" v="1"/>
        </changeset>
    "#
    .split('\n')
    .map(|s| s.trim().into())
    .collect::<Vec<String>>()
    .join("");
    assert_eq!(actual, expected);
}

#[test]
fn test_osm_serialise() {
    let osm_create = OsmCreate::new(vec![ChangesetCreate::new(
        "0.6",
        "iD",
        vec![
            Tag::new("comment", "aaa"),
            Tag::new("created_by", "iD 2.19.5"),
            Tag::new("host", "https://master.apis.dev.openstreetmap.org/edit"),
            Tag::new("locale", "en-GB"),
            Tag::new("imagery_used", "Bing aerial imagery"),
            Tag::new("changeset_count", "1"),
        ],
    )]);
    let actual = xml_of(&osm_create.to_xml());
    let expected = r#"
        <osm>
            <changeset version="0.6" generator="iD">
                <tag k="comment" v="aaa"/>
                <tag k="created_by" v="iD 2.19.5"/>
                <tag k="host" v="https://master.apis.dev.openstreetmap.org/edit"/>
                <tag k="locale" v="en-GB"/>
                <tag k="imagery_used" v="Bing aerial imagery"/>
                <tag k="changeset_count" v="1"/>
            </changeset>
        </osm>
    "#
    .split('\n')
    .map(|s| s.trim().into())
    .collect::<Vec<String>>()
    .join("");
    assert_eq!(actual, expected);
}

fn sample_node() -> Node {
    Node {
        id: 1234,
        visible: true,
        version: 2,
        changeset: 42,
        timestamp: "2009-12-09T08:19:00Z".into(),
        user: Some("user".into()),
        uid: Some(1),
        lat: Some(dec("12.1234567")),
        lon: Some(dec("-8.7654321")),
        tags: vec![Tag::new("amenity", "school")],
    }
}

fn sample_way() -> Way {
    Way {
        id: 49780,
        visible: true,
        version: 1,
        changeset: 2308,
        timestamp: "2009-12-09T08:51:50Z".into(),
        user: "guggis".into(),
        uid: 1,
        node_refs: vec![NodeRef { node_id: 1150401 }, NodeRef { node_id: 1150400 }],
        tags: vec![Tag::new("random-key.1", "random-value.1")],
    }
}

fn sample_relation() -> Relation {
    Relation {
        id: 4507,
        visible: true,
        version: 1,
        changeset: 3198,
        timestamp: "2010-02-25T19:52:18Z".into(),
        user: "rus".into(),
        uid: 96,
        tags: vec![Tag::new("type", "multipolygon")],
        members: vec![
            Member { member_type: "way".into(), node_id: 80976, role: "outer".into() },
            Member { member_type: "way".into(), node_id: 80977, role: "outer".into() },
        ],
    }
}

#[test]
fn node_serialises_with_attributes_then_tags() {
    let actual = xml_of(&sample_node().to_xml());
    let expected = [
        r#"<node id="1234" visible="true" version="2" changeset="42" timestamp="2009-12-09T08:19:00Z" user="user" uid="1" lat="12.1234567" lon="-8.7654321">"#,
        r#"<tag k="amenity" v="school"/>"#,
        r#"</node>"#,
    ]
    .join("");
    assert_eq!(actual, expected);
}

#[test]
fn way_serialises_with_node_refs_then_tags() {
    let actual = xml_of(&sample_way().to_xml());
    let expected = [
        r#"<way id="49780" visible="true" version="1" changeset="2308" timestamp="2009-12-09T08:51:50Z" user="guggis" uid="1">"#,
        r#"<nd ref="1150401"/>"#,
        r#"<nd ref="1150400"/>"#,
        r#"<tag k="random-key.1" v="random-value.1"/>"#,
        r#"</way>"#,
    ]
    .join("");
    assert_eq!(actual, expected);
}

#[test]
fn relation_serialises_with_tags_then_members() {
    let actual = xml_of(&sample_relation().to_xml());
    let expected = [
        r#"<relation id="4507" visible="true" version="1" changeset="3198" timestamp="2010-02-25T19:52:18Z" user="rus" uid="96">"#,
        r#"<tag k="type" v="multipolygon"/>"#,
        r#"<member type="way" ref="80976" role="outer"/>"#,
        r#"<member type="way" ref="80977" role="outer"/>"#,
        r#"</relation>"#,
    ]
    .join("");
    assert_eq!(actual, expected);
}

#[test]
fn round_trip_through_text_node() {
    let node = sample_node();
    let text = xml_of(&node.to_xml());
    let back = Node::from_xml(&read_document(&text).unwrap()).unwrap();
    assert_eq!(back, node);
}

#[test]
fn round_trip_node_without_optional_fields() {
    let node = Node {
        id: 7,
        visible: false,
        version: 1,
        changeset: 3,
        timestamp: "2020-01-01T00:00:00Z".into(),
        user: None,
        uid: None,
        lat: None,
        lon: None,
        tags: vec![],
    };
    let text = xml_of(&node.to_xml());
    assert_eq!(
        text,
        r#"<node id="7" visible="false" version="1" changeset="3" timestamp="2020-01-01T00:00:00Z"/>"#
    );
    let back = Node::from_xml(&read_document(&text).unwrap()).unwrap();
    assert_eq!(back, node);
}

#[test]
fn round_trip_through_text_way_and_relation() {
    let way = sample_way();
    let text = xml_of(&way.to_xml());
    assert_eq!(Way::from_xml(&read_document(&text).unwrap()).unwrap(), way);

    let relation = sample_relation();
    let text = xml_of(&relation.to_xml());
    assert_eq!(Relation::from_xml(&read_document(&text).unwrap()).unwrap(), relation);
}

#[test]
fn round_trip_changeset_create_with_and_without_tags() {
    let c = changeset_create();
    let text = xml_of(&c.to_xml());
    assert_eq!(ChangesetCreate::from_xml(&read_document(&text).unwrap()).unwrap(), c);

    let empty = ChangesetCreate::new("0.6", "iD", vec![]);
    let text = xml_of(&empty.to_xml());
    assert_eq!(text, r#"<changeset version="0.6" generator="iD"/>"#);
    assert_eq!(ChangesetCreate::from_xml(&read_document(&text).unwrap()).unwrap(), empty);
}

#[test]
fn special_characters_are_escaped_and_read_back() {
    let tag = Tag::new("note", "a < b & \"c\" > 'd'");
    let text = xml_of(&tag.to_xml());
    assert_eq!(text, r#"<tag k="note" v="a &lt; b &amp; &quot;c&quot; &gt; &apos;d&apos;"/>"#);
    assert_eq!(Tag::from_xml(&read_document(&text).unwrap()).unwrap(), tag);
}

#[test]
fn decimals_keep_their_digits() {
    assert_eq!(dec("7.0191821").to_text(), "7.0191821");
    assert_eq!(dec("-8.7654321").to_text(), "-8.7654321");
    assert_eq!(dec("1").to_text(), "1");
    assert_eq!(dec("0.50").to_text(), "0.50");
    assert!(Decimal::parse("1.").is_none());
    assert!(Decimal::parse("").is_none());
    assert!(Decimal::parse("1e5").is_none());
    assert!(Decimal::parse("-").is_none());
}

#[test]
fn round_trip_osm_create_envelope() {
    let osm = OsmCreate::new(vec![changeset_create(), ChangesetCreate::new("0.6", "JOSM", vec![])]);
    let text = xml_of(&osm.to_xml());
    assert_eq!(OsmCreate::from_xml(&read_document(&text).unwrap()).unwrap(), osm);
}
