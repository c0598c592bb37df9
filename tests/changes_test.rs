use openstreetmap_api::api::{
    document,
    changes_response, changeset_upload, diff_response, map_response, way_full_response,
};
use openstreetmap_api::client::RequestBody;
use openstreetmap_api::decimal::Decimal;
use openstreetmap_api::types::{ChangesetChanges, Creation, Node, Tag};
use openstreetmap_api::xml::{to_xml_bytes, XmlElement};

fn xml_of(e: &XmlElement) -> String {
    String::from_utf8(to_xml_bytes(e)).unwrap()
}

fn school_node() -> Node {
    Node {
        id: 1234,
        visible: true,
        version: 2,
        changeset: 42,
        timestamp: "2009-12-09T08:19:00Z".into(),
        user: Some("user".into()),
        uid: Some(1),
        lat: Some(Decimal::parse("12.1234567").unwrap()),
        lon: Some(Decimal::parse("-8.7654321").unwrap()),
        tags: vec![Tag::new("amenity", "school")],
    }
}

#[test]
fn test_changeset_change_deserilise_xml() {
    let doc = r#"
        <osmChange version="0.6" generator="acme osm editor">
            <create>
                <node id="1234" changeset="42" version="2" lat="12.1234567" lon="-8.7654321" timestamp="2009-12-09T08:19:00Z" uid="1" user="user" visible="true">
                    <tag k="amenity" v="school"/>
                </node>
            </create>
        </osmChange>
    "#;
    let expected = ChangesetChanges {
        modifications: vec![],
        creations: vec![Creation { nodes: vec![school_node()], ways: vec![], relations: vec![] }],
        deletions: vec![],
    };
    assert_eq!(changes_response(&document(doc).unwrap()).unwrap(), expected);
}

#[test]
fn upload_writes_osm_change_and_reads_back() {
    let changes = ChangesetChanges {
        modifications: vec![],
        creations: vec![Creation { nodes: vec![school_node()], ways: vec![], relations: vec![] }],
        deletions: vec![],
    };
    let call = changeset_upload(10, &changes);
    assert_eq!(call.endpoint, "changeset/10/upload");
    let text = match call.body {
        RequestBody::Xml(doc) => xml_of(&doc),
        _ => panic!("expected an XML body"),
    };
    assert!(text.starts_with("<osmChange><create><node id=\"1234\""));
    assert_eq!(changes_response(&document(&text).unwrap()).unwrap(), changes);
}

#[test]
fn diff_result_groups_by_kind() {
    let doc = r#"<diffResult version="0.6"><node old_id="-1" new_id="5" new_version="1"/></diffResult>"#;
    assert!(diff_response(&document(doc).unwrap()).is_err());
    let doc = r#"<diffResult><node old_id="1" new_id="5" new_version="1"/><way old_id="2" new_id="6" new_version="2"/></diffResult>"#;
    let d = diff_response(&document(doc).unwrap()).unwrap();
    assert_eq!(d.nodes.len(), 1);
    assert_eq!(d.nodes[0].new_id, 5);
    assert_eq!(d.ways[0].new_version, 2);
    assert!(d.relations.is_empty());
}

#[test]
fn map_reads_bounds_as_box() {
    let doc = r#"<osm><bounds minlat="49.1" minlon="7.1" maxlat="49.2" maxlon="7.2"/><node id="1" visible="true" version="1" changeset="1" timestamp="t"/></osm>"#;
    let m = map_response(&document(doc).unwrap()).unwrap();
    assert_eq!(m.bounds.left.to_text(), "7.1");
    assert_eq!(m.bounds.bottom.to_text(), "49.1");
    assert_eq!(m.bounds.right.to_text(), "7.2");
    assert_eq!(m.bounds.top.to_text(), "49.2");
    assert_eq!(m.nodes.len(), 1);
}

#[test]
fn way_full_reads_way_and_nodes() {
    let doc = r#"<osm><node id="1" visible="true" version="1" changeset="1" timestamp="t"/><way id="9" visible="true" version="1" changeset="1" timestamp="t" user="u" uid="1"><nd ref="1"/></way></osm>"#;
    let f = way_full_response(&document(doc).unwrap()).unwrap();
    assert_eq!(f.way.id, 9);
    assert_eq!(f.nodes.len(), 1);
}
