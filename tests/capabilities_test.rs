use openstreetmap_api::api::{
    capabilities_response, document, permissions_response, versions_response,
};

#[test]
fn capabilities_and_policy() {
    let doc = r#"
        <osm version="0.6" generator="OpenStreetMap server">
            <api>
                <version minimum="0.6" maximum="0.6"/>
                <area maximum="0.25"/>
                <note_area maximum="25"/>
                <tracepoints per_page="5000"/>
                <waynodes maximum="2000"/>
                <changesets maximum_elements="10000"/>
                <timeout seconds="300"/>
                <status database="online" api="online" gpx="online"/>
            </api>
            <policy>
                <imagery>
                    <blacklist regex=".*\.google(apis)?\..*/(vt|kh)[\?/].*([xyz]=.*){3}.*"/>
                    <blacklist regex="http://xdworld\.vworld\.kr:8080/.*"/>
                </imagery>
            </policy>
        </osm>
    "#;
    let c = capabilities_response(&document(doc).unwrap()).unwrap();
    assert_eq!(c.capabilities.versions.minimum, "0.6");
    assert_eq!(c.capabilities.maximum_area.to_text(), "0.25");
    assert_eq!(c.capabilities.maximum_note_area.to_text(), "25");
    assert_eq!(c.capabilities.tracepoints_per_page, 5000);
    assert_eq!(c.capabilities.maximum_waynodes, 2000);
    assert_eq!(c.capabilities.maximum_changeset_elements, 10000);
    assert_eq!(c.capabilities.timeout, 300);
    assert_eq!(c.capabilities.status.gpx, "online");
    assert_eq!(c.policy.imagery.blacklist.len(), 2);
    assert_eq!(c.policy.imagery.blacklist[1].regex, "http://xdworld\\.vworld\\.kr:8080/.*");
}

#[test]
fn permissions_in_order() {
    let doc = r#"<osm><permissions><permission name="allow_read_prefs"/><permission name="allow_write_api"/></permissions></osm>"#;
    let p = permissions_response(&document(doc).unwrap()).unwrap();
    assert_eq!(p.iter().map(|x| x.name.as_str()).collect::<Vec<&str>>(), vec!["allow_read_prefs", "allow_write_api"]);
}

#[test]
fn versions_listed() {
    let doc = r#"<osm generator="OpenStreetMap server"><api><version>0.6</version></api></osm>"#;
    assert_eq!(versions_response(&document(doc).unwrap()), vec!["0.6".to_string()]);
}
