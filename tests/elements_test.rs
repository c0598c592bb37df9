use openstreetmap_api::api::{
    document,
    element_create, element_history, element_multi_get, element_response, element_version,
    elements_response, node_ways, relation_full, way_full,
};
use openstreetmap_api::codec::{read_document, DecodeError};
use openstreetmap_api::envelope::{OpenstreetmapNode, OsmList, OsmSingle};
use openstreetmap_api::errors::OpenstreetmapError;
use openstreetmap_api::types::{ElementIdParam, Node, Relation, Tag, Way};
use openstreetmap_api::xml::{to_xml_bytes, XmlElement};

fn xml_of(e: &XmlElement) -> String {
    String::from_utf8(to_xml_bytes(e)).unwrap()
}

const WAY_DOC: &str = r#"
    <osm>
        <way id="49780" visible="true" version="1" changeset="2308" timestamp="2009-12-09T08:51:50Z" user="guggis" uid="1">
            <nd ref="1150401"/>
            <nd ref="1150400"/>
            <tag k="random-key.1" v="random-value.1"/>
        </way>
    </osm>
"#;

#[test]
fn test_base_url() {
    assert_eq!(Node::base_url(), "node/");
    assert_eq!(Way::base_url(), "way/");
    assert_eq!(Relation::base_url(), "relation/");
    assert_eq!(Node::base_url_plural(), "nodes/");
    assert_eq!(Relation::element_name_plural(), "relations");
}

#[test]
fn single_envelope_selects_its_own_tag() {
    let root = read_document(WAY_DOC).unwrap();
    let way = OsmSingle::<Way>::from_xml(&root).unwrap().element;
    assert_eq!(way.id, 49780);
    assert_eq!(way.node_refs.len(), 2);
    assert_eq!(way.node_refs[1].node_id, 1150400);
    assert_eq!(way.tags, vec![Tag::new("random-key.1", "random-value.1")]);
}

#[test]
fn single_envelope_of_other_kind_is_missing_element() {
    let root = read_document(WAY_DOC).unwrap();
    match OsmSingle::<Relation>::from_xml(&root) {
        Err(DecodeError::MissingField(f)) => assert_eq!(f, "element"),
        other => panic!("unexpected {:?}", other),
    }
}

#[test]
fn single_envelope_rejects_two_elements() {
    let doc = r#"<osm><node id="1" visible="true" version="1" changeset="1" timestamp="t"/><node id="2" visible="true" version="1" changeset="1" timestamp="t"/></osm>"#;
    let root = read_document(doc).unwrap();
    match OsmSingle::<Node>::from_xml(&root) {
        Err(DecodeError::DuplicateField(f)) => assert_eq!(f, "element"),
        other => panic!("unexpected {:?}", other),
    }
}

#[test]
fn single_envelope_skips_unknown_children() {
    let doc = r#"<osm><bounds minlat="1"/><node id="1" visible="true" version="1" changeset="1" timestamp="t"/><note/></osm>"#;
    let node = element_response::<Node>(&document(doc).unwrap()).unwrap();
    assert_eq!(node.id, 1);
}

#[test]
fn list_envelope_keeps_document_order() {
    let doc = r#"
        <osm>
            <node id="30" visible="true" version="3" changeset="1" timestamp="t"/>
            <way id="99" visible="true" version="1" changeset="1" timestamp="t" user="u" uid="1"/>
            <node id="10" visible="true" version="1" changeset="1" timestamp="t"/>
            <node id="20" visible="false" version="2" changeset="1" timestamp="t"/>
        </osm>
    "#;
    let nodes = elements_response::<Node>(&document(doc).unwrap()).unwrap();
    let ids: Vec<u64> = nodes.iter().map(|n| n.id).collect();
    assert_eq!(ids, vec![30, 10, 20]);
    let root = read_document(doc).unwrap();
    assert_eq!(OsmList::<Way>::from_xml(&root).unwrap().elements.len(), 1);
    assert_eq!(OsmList::<Relation>::from_xml(&root).unwrap().elements.len(), 0);
}

#[test]
fn bad_number_fails_whole_decode() {
    let doc = r#"<osm><node id="x1" visible="true" version="1" changeset="1" timestamp="t"/></osm>"#;
    match element_response::<Node>(&document(doc).unwrap()) {
        Err(OpenstreetmapError::Serde(DecodeError::InvalidValue(f))) => assert_eq!(f, "id"),
        other => panic!("unexpected {:?}", other),
    }
    let doc = r#"<osm><node visible="true" version="1" changeset="1" timestamp="t"/></osm>"#;
    match element_response::<Node>(&document(doc).unwrap()) {
        Err(OpenstreetmapError::Serde(DecodeError::MissingField(f))) => assert_eq!(f, "id"),
        other => panic!("unexpected {:?}", other),
    }
}

#[test]
fn malformed_document_is_xml_error() {
    assert!(matches!(
        document("<osm><node></osm>"),
        Err(OpenstreetmapError::Serde(DecodeError::Xml(_)))
    ));
}

#[test]
fn create_call_wraps_element_in_osm() {
    let way = Way {
        id: 0,
        visible: true,
        version: 1,
        changeset: 5,
        timestamp: "t".into(),
        user: "u".into(),
        uid: 2,
        node_refs: vec![],
        tags: vec![],
    };
    let call = element_create(way);
    assert_eq!(call.endpoint, "way/create");
    assert!(call.options.use_auth && call.options.use_version);
    match call.body {
        openstreetmap_api::client::RequestBody::Xml(doc) => assert_eq!(
            xml_of(&doc),
            r#"<osm><way id="0" visible="true" version="1" changeset="5" timestamp="t" user="u" uid="2"/></osm>"#
        ),
        _ => panic!("expected an XML body"),
    }
}

#[test]
fn element_endpoints() {
    assert_eq!(element_history::<Node>(7).endpoint, "node/7/history");
    assert_eq!(element_version::<Way>(7, 3).endpoint, "way/7/3");
    assert_eq!(node_ways(12).endpoint, "node/12/ways");
    assert_eq!(way_full(4).endpoint, "way/4/full");
    assert_eq!(relation_full(4).endpoint, "relation/4/full");
}

#[test]
fn multi_get_joins_ids_with_versions() {
    let params = vec![ElementIdParam::new(1, None), ElementIdParam::new(2, Some(3))];
    let call = element_multi_get::<Node>(&params);
    assert_eq!(call.endpoint, "nodes/?nodes=1%2C2v3");
}
