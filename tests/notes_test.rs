use openstreetmap_api::api::{
    document,
    note_close_call, note_create_call, note_response, notes_by_bbox_call, notes_search_call,
    trackpoints_call,
};
use openstreetmap_api::decimal::Decimal;
use openstreetmap_api::types::{
    BoundingBox, NoteContent, NoteSearchOptions, NoteSearchOrderOption, NoteSearchSortOption,
};

fn dec(s: &str) -> Decimal {
    Decimal::parse(s).unwrap()
}

#[test]
fn note_decodes_from_elements() {
    let doc = r#"
        <osm>
        <note lon="0.1000000" lat="51.0000000">
            <id>16659</id>
            <url>https://master.apis.dev.openstreetmap.org/api/0.6/notes/16659</url>
            <comment_url>https://master.apis.dev.openstreetmap.org/api/0.6/notes/16659/comment</comment_url>
            <close_url>https://master.apis.dev.openstreetmap.org/api/0.6/notes/16659/close</close_url>
            <date_created>2019-06-15 08:26:04 UTC</date_created>
            <status>open</status>
            <comments>
                <comment>
                    <date>2019-06-15 08:26:04 UTC</date>
                    <uid>1234</uid>
                    <user>userName</user>
                    <user_url>https://master.apis.dev.openstreetmap.org/user/userName</user_url>
                    <action>opened</action>
                    <text>ThisIsANote</text>
                    <html>&lt;p&gt;ThisIsANote&lt;/p&gt;</html>
                </comment>
            </comments>
        </note>
        </osm>
    "#;
    let note = note_response(&document(doc).unwrap()).unwrap();
    assert_eq!(note.id, 16659);
    assert_eq!(note.lat, dec("51.0000000"));
    assert_eq!(note.lon.to_text(), "0.1000000");
    assert_eq!(note.status, "open");
    assert_eq!(note.created_at, "2019-06-15 08:26:04 UTC");
    assert_eq!(note.comments.len(), 1);
    assert_eq!(note.comments[0].id, 1234);
    assert_eq!(note.comments[0].html, "<p>ThisIsANote</p>");
}

#[test]
fn notes_by_bbox_url() {
    let bbox = BoundingBox { left: dec("1"), bottom: dec("2"), right: dec("3"), top: dec("4") };
    assert_eq!(notes_by_bbox_call(&bbox, None, None).endpoint, "notes?bbox=1,2,3,4");
    assert_eq!(
        notes_by_bbox_call(&bbox, Some(10), Some(-1)).endpoint,
        "notes?bbox=1,2,3,4&limit=10&closed=-1"
    );
    assert_eq!(trackpoints_call(&bbox, Some(2)).endpoint, "trackpoints?bbox=1,2,3,4&page=2");
}

#[test]
fn note_text_is_percent_encoded() {
    let content = NoteContent { lat: dec("51.0"), lon: dec("0.1"), text: "Hello World!".into() };
    assert_eq!(note_create_call(&content).endpoint, "notes?lat=51.0&lon=0.1&text=Hello%20World%21");
    assert_eq!(note_close_call(3, "done & dusted").endpoint, "notes/3/close?text=done%20%26%20dusted");
}

#[test]
fn note_search_query() {
    let options = NoteSearchOptions {
        q: "bridge".into(),
        limit: Some(5),
        closed: None,
        display_name: None,
        user: Some(7),
        from: None,
        to: None,
        sort: Some(NoteSearchSortOption::CreatedAt),
        order: Some(NoteSearchOrderOption::Newest),
    };
    assert_eq!(
        notes_search_call(&options).endpoint,
        "notes/search?q=bridge&limit=5&user=7&sort=created_at&order=newest"
    );
}
