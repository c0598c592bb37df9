use openstreetmap_api::api::{
    document,
    preference_update_call, preferences_document, preferences_response, user_response,
    users_call, users_response,
};
use openstreetmap_api::client::RequestBody;
use openstreetmap_api::xml::{to_xml_bytes, XmlElement};

fn xml_of(e: &XmlElement) -> String {
    String::from_utf8(to_xml_bytes(e)).unwrap()
}

#[test]
fn user_with_defaults() {
    let doc = r#"
        <osm>
            <user id="12023" display_name="jbpbis" account_created="2007-08-16T01:35:56Z">
                <description />
                <contributor-terms agreed="false"/>
                <img href="http://www.gravatar.com/avatar/c8c86cd15f60ecca66ce2b10cb6b9a00.jpg"/>
                <roles />
                <changesets count="1"/>
                <traces count="0"/>
                <blocks>
                    <received count="0" active="0"/>
                </blocks>
            </user>
        </osm>
    "#;
    let user = user_response(&document(doc).unwrap()).unwrap();
    assert_eq!(user.id, 12023);
    assert_eq!(user.display_name, "jbpbis");
    assert_eq!(user.description, Some("".to_string()));
    assert!(!user.contributor_terms.agreed);
    assert!(!user.contributor_terms.public_domain);
    assert_eq!(
        user.image.unwrap().url,
        "http://www.gravatar.com/avatar/c8c86cd15f60ecca66ce2b10cb6b9a00.jpg"
    );
    assert_eq!(user.changesets.count, 1);
    assert_eq!(user.traces.count, 0);
    assert_eq!(user.blocks.len(), 1);
    assert_eq!(user.home, None);
    assert!(user.languages.is_empty());
    assert_eq!(user.messages.received, 0);
}

#[test]
fn user_with_everything() {
    let doc = r#"
        <osm>
            <user display_name="Max Muster" account_created="2006-07-21T19:28:26Z" id="1234">
                <contributor-terms agreed="true" pd="true"/>
                <img href="https://www.openstreetmap.org/attachments/users/images/000/000/1234/original/someLongURLOrOther.JPG"/>
                <roles />
                <changesets count="4182"/>
                <traces count="513"/>
                <blocks>
                    <received count="0" active="0"/>
                </blocks>
                <home lat="49.4733718952806" lon="8.89285988577866" zoom="3"/>
                <description>The description of your profile</description>
                <languages>
                    <lang>de-DE</lang>
                    <lang>de</lang>
                    <lang>en-US</lang>
                    <lang>en</lang>
                </languages>
                <messages>
                    <received count="1" unread="0"/>
                    <sent count="0"/>
                </messages>
            </user>
        </osm>
    "#;
    let user = user_response(&document(doc).unwrap()).unwrap();
    assert_eq!(user.id, 1234);
    assert!(user.contributor_terms.agreed && user.contributor_terms.public_domain);
    assert_eq!(user.changesets.count, 4182);
    assert_eq!(user.traces.count, 513);
    let home = user.home.unwrap();
    assert_eq!(home.lat.to_text(), "49.4733718952806");
    assert_eq!(home.zoom, 3);
    assert_eq!(user.description, Some("The description of your profile".to_string()));
    assert_eq!(user.languages, vec!["de-DE", "de", "en-US", "en"]);
    assert_eq!(user.messages.received, 1);
    assert_eq!(user.messages.unread, 0);
    assert_eq!(user.messages.sent, 0);
}

#[test]
fn users_list_and_call() {
    let doc = r#"<osm><user id="1" display_name="a" account_created="x"><contributor-terms agreed="true"/></user><user id="2" display_name="b" account_created="y"><contributor-terms agreed="true"/></user></osm>"#;
    let users = users_response(&document(doc).unwrap()).unwrap();
    assert_eq!(users.iter().map(|u| u.id).collect::<Vec<u64>>(), vec![1, 2]);
    assert_eq!(users_call(&vec![1, 2]).endpoint, "users?users=1%2C2");
}

#[test]
fn preferences_read_and_write() {
    let doc = r#"
        <osm version="0.6" generator="OpenStreetMap server">
            <preferences>
                <preference k="somekey" v="somevalue" />
            </preferences>
        </osm>
    "#;
    let prefs = preferences_response(&document(doc).unwrap()).unwrap();
    assert_eq!(prefs, vec![("somekey".to_string(), "somevalue".to_string())]);
    let written = xml_of(&preferences_document(&prefs));
    assert_eq!(
        written,
        r#"<osm><preferences><preference k="somekey" v="somevalue"/></preferences></osm>"#
    );
}

#[test]
fn preference_update_sends_raw_value() {
    let call = preference_update_call("somekey", "new value");
    assert_eq!(call.endpoint, "user/preferences/somekey");
    match call.body {
        RequestBody::RawForm(bytes) => assert_eq!(bytes, b"new value".to_vec()),
        _ => panic!("expected a raw form body"),
    }
}
