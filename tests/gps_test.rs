use openstreetmap_api::api::{
    document, gpx_delete_call, gpx_details_call, gpx_details_response, tracks_response,
};
use openstreetmap_api::client::Method;

#[test]
fn tracks_decode_from_gpx() {
    let doc = r#"
    <gpx version="1.0" creator="OpenStreetMap.org" xmlns="http://www.topografix.com/GPX/1/0">
        <trk>
            <name>20190626.gpx</name>
            <desc>Footpaths near Blackweir Pond, Epping Forest</desc>
            <url>https://api.openstreetmap.org/user/John%20Leeming/traces/3031013</url>
            <trkseg>
                <trkpt lat="51.6616100" lon="0.0534560">
                    <time>2019-06-26T14:27:58Z</time>
                </trkpt>
            </trkseg>
        </trk>
    </gpx>
    "#;
    let tracks = tracks_response(&document(doc).unwrap()).unwrap();
    assert_eq!(tracks.len(), 1);
    let t = &tracks[0];
    assert_eq!(t.name.as_deref(), Some("20190626.gpx"));
    assert_eq!(t.description.as_deref(), Some("Footpaths near Blackweir Pond, Epping Forest"));
    assert_eq!(t.comment, None);
    assert_eq!(t.number, None);
    assert_eq!(t.segments.len(), 1);
    let p = &t.segments[0].points[0];
    assert_eq!(p.lat.to_text(), "51.6616100");
    assert_eq!(p.lon.to_text(), "0.0534560");
    assert_eq!(p.time.as_deref(), Some("2019-06-26T14:27:58Z"));
}

#[test]
fn trace_details_decode() {
    let doc = r#"
    <?xml version="1.0" encoding="UTF-8"?>
    <osm version="0.6" generator="OpenStreetMap server">
        <gpx_file id="836619" name="track.gpx" lat="52.0194" lon="8.51807" user="Hartmut Holzgraefe" visibility="public" pending="false" timestamp="2010-10-09T09:24:19Z">
            <description>PHP upload test</description>
            <tag>test</tag>
            <tag>php</tag>
        </gpx_file>
    </osm>
    "#;
    let m = gpx_details_response(&document(doc).unwrap()).unwrap();
    assert_eq!(m.id, 836619);
    assert_eq!(m.name.as_deref(), Some("track.gpx"));
    assert_eq!(m.lat.to_text(), "52.0194");
    assert_eq!(m.lon.to_text(), "8.51807");
    assert_eq!(m.user.as_deref(), Some("Hartmut Holzgraefe"));
    assert_eq!(m.visibility.as_deref(), Some("public"));
    assert!(!m.pending);
    assert_eq!(m.time.as_deref(), Some("2010-10-09T09:24:19Z"));
    assert_eq!(m.description.as_deref(), Some("PHP upload test"));
    assert_eq!(m.keywords, vec!["test".to_string(), "php".to_string()]);
}

#[test]
fn trace_calls() {
    let c = gpx_delete_call(12);
    assert_eq!(c.method, Method::Delete);
    assert_eq!(c.endpoint, "gpx/12");
    assert!(c.options.use_auth);
    assert_eq!(gpx_details_call(12).endpoint, "gpx/12/details");
}
