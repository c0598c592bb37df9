use openstreetmap_api::api::{
    changeset_get, changeset_response, document, element_get, user_details_call,
};
use openstreetmap_api::client::{
    classify_response, Method, Openstreetmap, Payload, RequestBody, RequestOptions,
};
use openstreetmap_api::codec::ToXml;
use openstreetmap_api::errors::OpenstreetmapError;
use openstreetmap_api::types::{Credentials, Node, Tag};

fn credentials() -> Credentials {
    Credentials::Basic("user".into(), "password".into())
}

#[test]
fn request_options_builders_set_flags() {
    let o = RequestOptions::new();
    assert!(!o.use_version && !o.use_auth);
    let o = RequestOptions::new().with_version();
    assert!(o.use_version && !o.use_auth);
    let o = RequestOptions::new().with_auth();
    assert!(!o.use_version && o.use_auth);
}

#[test]
fn url_is_host_api_version_endpoint() {
    let client = Openstreetmap::new("http://127.0.0.1:1234", credentials());
    let with_version = client.url("changeset/10", RequestOptions::new().with_version()).unwrap();
    assert_eq!(with_version, "http://127.0.0.1:1234/api/0.6/changeset/10");
    let without = client.url("versions", RequestOptions::new()).unwrap();
    assert_eq!(without, "http://127.0.0.1:1234/api/versions");
}

#[test]
fn unparsable_host_is_a_url_error() {
    let client = Openstreetmap::new("not a url", credentials());
    let r = client.url("versions", RequestOptions::new());
    assert!(matches!(r, Err(OpenstreetmapError::Url(_))));
}

#[test]
fn auth_call_without_credentials_needs_credentials() {
    let client = Openstreetmap::new("http://127.0.0.1:1234", Credentials::Anonymous);
    let call = user_details_call();
    let r = client.prepare(call.method, &call.endpoint, call.body, call.options);
    assert!(matches!(r, Err(OpenstreetmapError::CredentialsNeeded)));
}

#[test]
fn anonymous_client_may_read() {
    let client = Openstreetmap::new("http://127.0.0.1:1234", Credentials::Anonymous);
    let call = element_get::<Node>(5);
    let p = client.prepare(call.method, &call.endpoint, call.body, call.options).unwrap();
    assert_eq!(p.method, Method::Get);
    assert_eq!(p.url, "http://127.0.0.1:1234/api/0.6/node/5");
    assert!(p.basic_auth.is_none());
    assert!(p.content_type.is_none());
    assert!(p.body.is_none());
}

#[test]
fn auth_call_carries_basic_credentials() {
    let client = Openstreetmap::new("http://127.0.0.1:1234", credentials());
    let call = user_details_call();
    let p = client.prepare(call.method, &call.endpoint, call.body, call.options).unwrap();
    assert_eq!(p.basic_auth, Some(("user".to_string(), "password".to_string())));
    assert_eq!(p.url, "http://127.0.0.1:1234/api/0.6/user/details");
}

#[test]
fn bodies_get_their_content_types() {
    let client = Openstreetmap::new("http://127.0.0.1:1234", credentials());
    let xml = RequestBody::Xml(Tag::new("a", "b").to_xml());
    let p = client.prepare(Method::Put, "x", xml, RequestOptions::new()).unwrap();
    assert_eq!(p.content_type.as_deref(), Some("text/xml"));
    assert_eq!(p.body, Some(Payload::Bytes(br#"<tag k="a" v="b"/>"#.to_vec())));

    let form = RequestBody::Form(vec![("text".to_string(), "a b&c".to_string())]);
    let p = client.prepare(Method::Post, "x", form, RequestOptions::new()).unwrap();
    assert_eq!(p.content_type.as_deref(), Some("application/x-www-form-urlencoded"));
    assert_eq!(p.body, Some(Payload::Text("text=a+b%26c".to_string())));

    let raw = RequestBody::RawForm(b"value".to_vec());
    let p = client.prepare(Method::Put, "x", raw, RequestOptions::new()).unwrap();
    assert_eq!(p.content_type.as_deref(), Some("application/x-www-form-urlencoded"));
    assert_eq!(p.body, Some(Payload::Bytes(b"value".to_vec())));
}

#[test]
fn status_401_is_unauthorized() {
    assert!(matches!(classify_response(401, "x".into()), Err(OpenstreetmapError::Unauthorized)));
}

#[test]
fn status_404_is_not_found() {
    assert!(matches!(classify_response(404, "".into()), Err(OpenstreetmapError::NotFound)));
}

#[test]
fn status_405_is_method_not_allowed() {
    assert!(matches!(
        classify_response(405, "".into()),
        Err(OpenstreetmapError::MethodNotAllowed)
    ));
}

#[test]
fn status_403_is_client_error_with_body() {
    match classify_response(403, "forbidden: blocked".into()) {
        Err(OpenstreetmapError::Client { code, error }) => {
            assert_eq!(code, 403);
            assert_eq!(error, "forbidden: blocked");
        }
        other => panic!("unexpected {:?}", other),
    }
}

#[test]
fn success_and_server_errors_pass_body_on() {
    assert_eq!(classify_response(200, "body".into()).unwrap(), "body");
    assert_eq!(classify_response(500, "oops".into()).unwrap(), "oops");
}

#[test]
fn changeset_get_end_to_end() {
    let client = Openstreetmap::new("http://127.0.0.1:1234", credentials());
    let call = changeset_get(10, false);
    let p = client.prepare(call.method, &call.endpoint, call.body, call.options).unwrap();
    assert_eq!(p.method, Method::Get);
    assert_eq!(p.url, "http://127.0.0.1:1234/api/0.6/changeset/10");
    let body = r#"<osm><changeset id="10" user="fred" uid="123" created_at="2008-11-08T19:07:39+01:00" open="true" min_lon="7.01" min_lat="49.27" max_lon="7.02" max_lat="49.28"><tag k="created_by" v="JOSM 1.61"/></changeset></osm>"#;
    let text = classify_response(200, body.into()).unwrap();
    let changeset = changeset_response(&document(&text).unwrap()).unwrap();
    assert_eq!(changeset.id, 10);
    assert!(changeset.open);
    assert_eq!(changeset.user, "fred");
    assert_eq!(changeset.uid, 123);
    assert_eq!(changeset.closed_at, None);
    assert_eq!(changeset.discussion, None);
    assert_eq!(changeset.tags, vec![Tag::new("created_by", "JOSM 1.61")]);
    assert_eq!(changeset.min_lon.unwrap().to_text(), "7.01");
    assert_eq!(changeset.max_lat.unwrap().to_text(), "49.28");
}

#[test]
fn changeset_get_with_discussion_uses_query() {
    let call = changeset_get(10, true);
    assert_eq!(call.endpoint, "changeset/10?include_discussion=true");
    let body = r#"
        <osm>
            <changeset id="10" user="fred" uid="123" created_at="2008-11-08T19:07:39+01:00" open="true" min_lon="7.0191821" min_lat="49.2785426" max_lon="7.0197485" max_lat="49.2793101">
                <tag k="created_by" v="JOSM 1.61"/>
                <discussion>
                    <comment date="2015-01-01T18:56:48Z" uid="1841" user="metaodi">
                        <text>Did you verify those street names?</text>
                    </comment>
                </discussion>
            </changeset>
        </osm>
    "#;
    let changeset = changeset_response(&document(body).unwrap()).unwrap();
    let discussion = changeset.discussion.unwrap();
    assert_eq!(discussion.comments.len(), 1);
    assert_eq!(discussion.comments[0].uid, 1841);
    assert_eq!(discussion.comments[0].user, "metaodi");
    assert_eq!(discussion.comments[0].text, "Did you verify those street names?");
}
