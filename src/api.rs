//! The calls of the API: for each, the method, endpoint, body and options
//! that the pipeline sends, and how its response text is decoded.

use vstd::prelude::*;
use vstd::string::*;
use crate::changeset::{OsmCreate, OsmUpdate, changeset_from_envelope, changesets_from_envelope};
use crate::client::{Method, RequestBody, RequestOptions};
use crate::codec::{DecodeError, FromXml, ToXml, all_decode, all_encode, all_valid, new_element, pair, read_document, required_element};
use crate::envelope::{OpenstreetmapNode, OsmList, OsmSingle};
use crate::errors::OpenstreetmapError;
use crate::query::{RawQuery, encode_raw_query, form_urlencoded, joined, pairs_view};
use crate::text::{
    decimal_text, i64_string, parse_u64, push_char, signed_text, u64_string, u64_text,
};
use crate::types::{
    BoundingBox, CapabilitiesAndPolicy, Changeset, ChangesetCreate, ChangesetQueryParams,
    ElementIdParam, Note, NoteContent, NoteSearchOptions, NoteSearchOrderOption,
    NoteSearchSortOption, Permission, Tag, User,
};
use crate::xml::{XmlElement, child, named, root_closes, xml_token_kinds};

verus! {

/// One call, before its URL is composed.
#[derive(Debug)]
pub struct Call {
    pub method: Method,
    pub endpoint: String,
    pub body: RequestBody,
    pub options: RequestOptions,
}

pub open spec fn versioned() -> RequestOptions {
    RequestOptions { use_version: true, use_auth: false }
}

pub open spec fn authenticated() -> RequestOptions {
    RequestOptions { use_version: true, use_auth: true }
}

fn read_only(method: Method, endpoint: String) -> (r: Call)
    ensures
        r.method == method,
        r.endpoint@ == endpoint@,
        r.body is Empty,
        r.options == versioned(),
{
    Call {
        method,
        endpoint,
        body: RequestBody::Empty,
        options: RequestOptions::new().with_version(),
    }
}

fn writing(method: Method, endpoint: String, body: RequestBody) -> (r: Call)
    ensures
        r.method == method,
        r.endpoint@ == endpoint@,
        r.body == body,
        r.options == authenticated(),
{
    Call { method, endpoint, body, options: RequestOptions::new().with_version().with_auth() }
}

/// `a` followed by `b`.
fn cat(a: &str, b: &str) -> (r: String)
    ensures
        r@ == a@ + b@,
{
    let mut s = String::from_str(a);
    s.append(b);
    s
}

/// `prefix`, the decimal form of `id`, then `suffix`.
fn with_id(prefix: &str, id: u64, suffix: &str) -> (r: String)
    ensures
        r@ == prefix@ + decimal_text(id as nat) + suffix@,
{
    let mut s = String::from_str(prefix);
    let n = u64_string(id);
    s.append(n.as_str());
    s.append(suffix);
    s
}

/// `prefix`, then the decimal form of `id`.
fn with_id_only(prefix: &str, id: u64) -> (r: String)
    ensures
        r@ == prefix@ + decimal_text(id as nat),
{
    let mut s = String::from_str(prefix);
    let n = u64_string(id);
    s.append(n.as_str());
    s
}

// ---------------------------------------------------------------------------
// Map elements

/// Creating an element: `PUT <element>/create` with the element in an
/// envelope; the response is the new id.
pub fn element_create<E: OpenstreetmapNode>(element: E) -> (r: Call)
    ensures
        r.method == Method::Put,
        r.endpoint@ == E::xml_name() + seq!['/'] + "create"@,
        r.options == authenticated(),
        r.body matches RequestBody::Xml(doc) && doc.children@.len() == 1 && E::encodes(
            element,
            doc.children@[0],
        ),
{
    let base = E::base_url();
    let doc = OsmSingle::new(element).to_xml();
    writing(Method::Put, cat(base.as_str(), "create"), RequestBody::Xml(doc))
}

/// Reading an element: `GET <element>/<id>`.
pub fn element_get<E: OpenstreetmapNode>(element_id: u64) -> (r: Call)
    ensures
        r.method == Method::Get,
        r.endpoint@ == E::xml_name() + seq!['/'] + decimal_text(element_id as nat),
        r.body is Empty,
        r.options == versioned(),
{
    let base = E::base_url();
    read_only(Method::Get, with_id_only(base.as_str(), element_id))
}

/// Updating an element: `PUT <element>/<id>` with the element in an
/// envelope; the response is its new version.
pub fn element_update<E: OpenstreetmapNode>(element: E) -> (r: Call)
    ensures
        r.method == Method::Put,
        r.endpoint@ == E::xml_name() + seq!['/'] + decimal_text(element.spec_id() as nat),
        r.options == authenticated(),
        r.body matches RequestBody::Xml(doc) && doc.children@.len() == 1 && E::encodes(
            element,
            doc.children@[0],
        ),
{
    let base = E::base_url();
    let endpoint = with_id_only(base.as_str(), element.id());
    let doc = OsmSingle::new(element).to_xml();
    writing(Method::Put, endpoint, RequestBody::Xml(doc))
}

/// Deleting an element: `DELETE <element>/<id>` with the element in an
/// envelope; the response is its new version.
pub fn element_delete<E: OpenstreetmapNode>(element: E) -> (r: Call)
    ensures
        r.method == Method::Delete,
        r.endpoint@ == E::xml_name() + seq!['/'] + decimal_text(element.spec_id() as nat),
        r.options == authenticated(),
        r.body matches RequestBody::Xml(doc) && doc.children@.len() == 1 && E::encodes(
            element,
            doc.children@[0],
        ),
{
    let base = E::base_url();
    let endpoint = with_id_only(base.as_str(), element.id());
    let doc = OsmSingle::new(element).to_xml();
    writing(Method::Delete, endpoint, RequestBody::Xml(doc))
}

/// Every version of an element: `GET <element>/<id>/history`.
pub fn element_history<E: OpenstreetmapNode>(element_id: u64) -> (r: Call)
    ensures
        r.method == Method::Get,
        r.endpoint@ == E::xml_name() + seq!['/'] + decimal_text(element_id as nat)
            + "/history"@,
        r.body is Empty,
        r.options == versioned(),
{
    let base = E::base_url();
    read_only(Method::Get, with_id(base.as_str(), element_id, "/history"))
}

/// One version of an element: `GET <element>/<id>/<version>`.
pub fn element_version<E: OpenstreetmapNode>(element_id: u64, version_id: u64) -> (r: Call)
    ensures
        r.method == Method::Get,
        r.endpoint@ == E::xml_name() + seq!['/'] + decimal_text(element_id as nat) + seq!['/']
            + decimal_text(version_id as nat),
        r.body is Empty,
        r.options == versioned(),
{
    let base = E::base_url();
    proof {
        reveal_strlit("/");
        assert("/"@ =~= seq!['/']);
    }
    let first = with_id(base.as_str(), element_id, "/");
    read_only(Method::Get, with_id_only(first.as_str(), version_id))
}

/// The relations that hold an element: `GET <element>/<id>/relations`.
pub fn element_relations<E: OpenstreetmapNode>(element_id: u64) -> (r: Call)
    ensures
        r.method == Method::Get,
        r.endpoint@ == E::xml_name() + seq!['/'] + decimal_text(element_id as nat)
            + "/relations"@,
        r.body is Empty,
        r.options == versioned(),
{
    let base = E::base_url();
    read_only(Method::Get, with_id(base.as_str(), element_id, "/relations"))
}

/// The ways that hold a node: `GET node/<id>/ways`.
pub fn node_ways(node_id: u64) -> (r: Call)
    ensures
        r.method == Method::Get,
        r.endpoint@ == "node/"@ + decimal_text(node_id as nat) + "/ways"@,
        r.body is Empty,
        r.options == versioned(),
{
    read_only(Method::Get, with_id("node/", node_id, "/ways"))
}

/// A way with its nodes: `GET way/<id>/full`.
pub fn way_full(way_id: u64) -> (r: Call)
    ensures
        r.method == Method::Get,
        r.endpoint@ == "way/"@ + decimal_text(way_id as nat) + "/full"@,
        r.body is Empty,
        r.options == versioned(),
{
    read_only(Method::Get, with_id("way/", way_id, "/full"))
}

/// A relation with its members: `GET relation/<id>/full`.
pub fn relation_full(relation_id: u64) -> (r: Call)
    ensures
        r.method == Method::Get,
        r.endpoint@ == "relation/"@ + decimal_text(relation_id as nat) + "/full"@,
        r.body is Empty,
        r.options == versioned(),
{
    read_only(Method::Get, with_id("relation/", relation_id, "/full"))
}

/// The text of an element id: the id, then `v` and the version when there
/// is one.
pub open spec fn id_param_text(p: ElementIdParam) -> Seq<char> {
    decimal_text(p.id as nat) + match p.version {
        Some(v) => seq!['v'] + decimal_text(v as nat),
        None => Seq::empty(),
    }
}

pub open spec fn id_params_texts(ps: Seq<ElementIdParam>) -> Seq<Seq<char>> {
    ps.map_values(|p: ElementIdParam| id_param_text(p))
}

impl ElementIdParam {
    pub fn to_text(&self) -> (r: String)
        ensures
            r@ == id_param_text(*self),
    {
        let mut s = u64_string(self.id);
        if let Some(v) = self.version {
            push_char(&mut s, 'v');
            let t = u64_string(v);
            s.append(t.as_str());
        }
        s
    }
}

fn join_id_params(ps: &Vec<ElementIdParam>) -> (r: String)
    ensures
        r@ == joined(id_params_texts(ps@)),
{
    let mut out = String::new();
    let mut i: usize = 0;
    while i < ps.len()
        invariant
            i <= ps@.len(),
            out@ == joined(id_params_texts(ps@.subrange(0, i as int))),
        decreases ps@.len() - i,
    {
        proof {
            let prefix = id_params_texts(ps@.subrange(0, i as int));
            assert(id_params_texts(ps@.subrange(0, i + 1)) =~= prefix.push(
                id_param_text(ps@[i as int]),
            ));
            assert(prefix.push(id_param_text(ps@[i as int])).drop_last() =~= prefix);
        }
        if i > 0 {
            push_char(&mut out, ',');
        }
        let t = ps[i].to_text();
        out.append(t.as_str());
        i = i + 1;
    }
    assert(ps@.subrange(0, ps@.len() as int) =~= ps@);
    out
}

/// Several elements at once: `GET <element>s/?<element>s=<id>,<id>,..`.
pub fn element_multi_get<E: OpenstreetmapNode>(params: &Vec<ElementIdParam>) -> (c: Call)
    ensures
        c.method == Method::Get,
        c.endpoint@ == E::xml_name() + seq!['s', '/', '?'] + form_urlencoded(
            seq![(E::xml_name() + seq!['s'], joined(id_params_texts(params@)))],
        ),
        c.body is Empty,
        c.options == versioned(),
{
    let mut pairs: Vec<(String, String)> = Vec::new();
    pairs.push((E::element_name_plural(), join_id_params(params)));
    assert(pairs_view(pairs@) =~= seq![
        (E::xml_name() + seq!['s'], joined(id_params_texts(params@))),
    ]);
    let qs = crate::query::urlencode(&pairs);
    let base = E::base_url_plural();
    let mut endpoint = base;
    push_char(&mut endpoint, '?');
    endpoint.append(qs.as_str());
    read_only(Method::Get, endpoint)
}

// ---------------------------------------------------------------------------
// Changesets

/// Opening changesets: `PUT changeset/create`; the response is the id.
pub fn changeset_create(changesets: Vec<ChangesetCreate>) -> (r: Call)
    ensures
        r.method == Method::Put,
        r.endpoint@ == "changeset/create"@,
        r.options == authenticated(),
        r.body matches RequestBody::Xml(doc) && doc.name@ == "osm"@ && doc.attributes@.len() == 0
            && doc.text@.len() == 0 && all_encode::<ChangesetCreate>(changesets@, doc.children@),
{
    let doc = OsmCreate::new(changesets).to_xml();
    writing(Method::Put, String::from_str("changeset/create"), RequestBody::Xml(doc))
}

/// Replacing the tags of a changeset: `PUT changeset/<id>`.
pub fn changeset_update_tags(changeset_id: u64, tags: Vec<Tag>) -> (r: Call)
    ensures
        r.method == Method::Put,
        r.endpoint@ == "changeset/"@ + decimal_text(changeset_id as nat),
        r.options == authenticated(),
        r.body matches RequestBody::Xml(doc) && crate::changeset::update_document(tags@, doc),
{
    let doc = OsmUpdate::new(tags).to_xml();
    writing(Method::Put, with_id_only("changeset/", changeset_id), RequestBody::Xml(doc))
}

/// Reading a changeset, with its discussion when asked:
/// `GET changeset/<id>[?include_discussion=true]`.
pub fn changeset_get(changeset_id: u64, include_discussion: bool) -> (r: Call)
    ensures
        r.method == Method::Get,
        r.endpoint@ == "changeset/"@ + decimal_text(changeset_id as nat) + if include_discussion {
            "?include_discussion=true"@
        } else {
            ""@
        },
        r.body is Empty,
        r.options == versioned(),
{
    proof {
        reveal_strlit("");
        assert(("changeset/"@ + decimal_text(changeset_id as nat)) + ""@ =~= "changeset/"@
            + decimal_text(changeset_id as nat));
    }
    if include_discussion {
        read_only(Method::Get, with_id("changeset/", changeset_id, "?include_discussion=true"))
    } else {
        read_only(Method::Get, with_id_only("changeset/", changeset_id))
    }
}

/// A call on one changeset with no body: `<method> changeset/<id><suffix>`.
fn changeset_action(method: Method, changeset_id: u64, suffix: &str) -> (r: Call)
    ensures
        r.method == method,
        r.endpoint@ == "changeset/"@ + decimal_text(changeset_id as nat) + suffix@,
        r.body is Empty,
        r.options == authenticated(),
{
    writing(method, with_id("changeset/", changeset_id, suffix), RequestBody::Empty)
}

/// Closing a changeset: `PUT changeset/<id>/close`.
pub fn changeset_close(changeset_id: u64) -> (r: Call)
    ensures
        r.method == Method::Put,
        r.endpoint@ == "changeset/"@ + decimal_text(changeset_id as nat) + "/close"@,
        r.body is Empty,
        r.options == authenticated(),
{
    changeset_action(Method::Put, changeset_id, "/close")
}

/// Subscribing to a changeset's discussion: `POST changeset/<id>/subscribe`.
pub fn changeset_subscribe(changeset_id: u64) -> (r: Call)
    ensures
        r.method == Method::Post,
        r.endpoint@ == "changeset/"@ + decimal_text(changeset_id as nat) + "/subscribe"@,
        r.body is Empty,
        r.options == authenticated(),
{
    changeset_action(Method::Post, changeset_id, "/subscribe")
}

/// Leaving a changeset's discussion: `POST changeset/<id>/unsubscribe`.
pub fn changeset_unsubscribe(changeset_id: u64) -> (r: Call)
    ensures
        r.method == Method::Post,
        r.endpoint@ == "changeset/"@ + decimal_text(changeset_id as nat) + "/unsubscribe"@,
        r.body is Empty,
        r.options == authenticated(),
{
    changeset_action(Method::Post, changeset_id, "/unsubscribe")
}

/// The changes of a changeset: `GET changeset/<id>/download`.
pub fn changeset_download(changeset_id: u64) -> (r: Call)
    ensures
        r.method == Method::Get,
        r.endpoint@ == "changeset/"@ + decimal_text(changeset_id as nat) + "/download"@,
        r.body is Empty,
        r.options == versioned(),
{
    read_only(Method::Get, with_id("changeset/", changeset_id, "/download"))
}

/// Commenting on a changeset: `POST changeset/<id>/comment` with the form
/// field `text`.
pub fn changeset_comment(changeset_id: u64, comment: &str) -> (r: Call)
    ensures
        r.method == Method::Post,
        r.endpoint@ == "changeset/"@ + decimal_text(changeset_id as nat) + "/comment"@,
        r.options == authenticated(),
        r.body matches RequestBody::Form(fields) && pairs_view(fields@) == seq![
            ("text"@, comment@),
        ],
{
    let mut fields: Vec<(String, String)> = Vec::new();
    fields.push((String::from_str("text"), String::from_str(comment)));
    assert(pairs_view(fields@) =~= seq![("text"@, comment@)]);
    writing(
        Method::Post,
        with_id("changeset/", changeset_id, "/comment"),
        RequestBody::Form(fields),
    )
}

/// The endpoint of a changeset search: `changesets`, then `?` and the
/// query when the query is not empty.
pub open spec fn changesets_endpoint(query: Seq<char>) -> Seq<char> {
    if query.len() == 0 {
        "changesets"@
    } else {
        "changesets"@ + seq!['?'] + query
    }
}

/// Searching changesets: `GET changesets[?<query>]`. A time window with an
/// end but no start cannot be sent and is refused.
pub fn changesets_get(query: ChangesetQueryParams) -> (r: Result<Call, OpenstreetmapError>)
    ensures
        r is Err <==> (query.closed_after is None && query.created_before is Some),
        r matches Err(e) ==> e is Query,
        r matches Ok(c) ==> {
            &&& c.method == Method::Get
            &&& c.body is Empty
            &&& c.options == versioned()
            &&& exists|raw: RawQuery|
                #![trigger raw.spec_pairs()]
                crate::query::raw_of(query, raw) && c.endpoint@ == changesets_endpoint(
                    form_urlencoded(raw.spec_pairs()),
                )
        },
{
    let ghost q = query;
    let raw = match RawQuery::from_query(query) {
        Ok(raw) => raw,
        Err(e) => {
            return Err(OpenstreetmapError::Query(e));
        },
    };
    let qs = encode_raw_query(&raw);
    let mut endpoint = String::from_str("changesets");
    proof {
        reveal_strlit("changesets");
    }
    if qs.unicode_len() > 0 {
        push_char(&mut endpoint, '?');
        endpoint.append(qs.as_str());
    }
    assert(endpoint@ =~= changesets_endpoint(form_urlencoded(raw.spec_pairs())));
    Ok(read_only(Method::Get, endpoint))
}

// ---------------------------------------------------------------------------
// Responses

/// A response that is a bare number: an id or a version.
pub fn number_response(text: &str) -> (r: Result<u64, OpenstreetmapError>)
    ensures
        r is Ok <==> u64_text(text@) is Some,
        r matches Ok(n) ==> u64_text(text@) == Some(n),
{
    match parse_u64(text) {
        Some(n) => Ok(n),
        None => Err(OpenstreetmapError::Serde(DecodeError::InvalidValue(String::from_str("id")))),
    }
}

// ---------------------------------------------------------------------------
// Server, map, users, notes and traces

/// A byte as `urlencoding` writes it: ASCII letters, digits and `-._~`
/// stay, every other byte is percent-encoded.
pub open spec fn url_byte(b: u8) -> Seq<char> {
    if crate::query::ascii_alphanumeric(b) || b == 45 || b == 46 || b == 95 || b == 126 {
        seq![b as char]
    } else {
        crate::query::percent_byte(b)
    }
}

pub open spec fn url_bytes(bs: Seq<u8>) -> Seq<char>
    decreases bs.len(),
{
    if bs.len() == 0 {
        Seq::empty()
    } else {
        url_bytes(bs.drop_last()) + url_byte(bs.last())
    }
}

/// Every byte of the UTF-8 form of `s` percent-encoded, but for ASCII
/// letters, digits and `-`, `_`, `.`, `~`.
pub open spec fn percent_encoded(s: Seq<char>) -> Seq<char>
    decreases s.len(),
{
    if s.len() == 0 {
        Seq::empty()
    } else {
        percent_encoded(s.drop_last()) + url_bytes(crate::query::utf8_bytes(s.last()))
    }
}

/// Relies on `urlencoding::encode`.
#[verifier::external_body]
fn percent_encode(s: &str) -> (r: String)
    ensures
        r@ == percent_encoded(s@),
{
    urlencoding::encode(s).into_owned()
}

fn plain(method: Method, endpoint: &str) -> (r: Call)
    ensures
        r.method == method,
        r.endpoint@ == endpoint@,
        r.body is Empty,
        !r.options.use_version && !r.options.use_auth,
{
    Call {
        method,
        endpoint: String::from_str(endpoint),
        body: RequestBody::Empty,
        options: RequestOptions::new(),
    }
}

/// The API versions that the server offers: `GET versions`, outside any
/// version.
pub fn versions_call() -> (r: Call)
    ensures
        r.method == Method::Get,
        r.endpoint@ == "versions"@,
        r.body is Empty,
        !r.options.use_version && !r.options.use_auth,
{
    plain(Method::Get, "versions")
}

/// The server's limits and policy: `GET capabilities`, outside any version.
pub fn capabilities_call() -> (r: Call)
    ensures
        r.method == Method::Get,
        r.endpoint@ == "capabilities"@,
        r.body is Empty,
        !r.options.use_version && !r.options.use_auth,
{
    plain(Method::Get, "capabilities")
}

/// The permissions of the caller: `GET permissions`.
pub fn permissions_call() -> (r: Call)
    ensures
        r.method == Method::Get,
        r.endpoint@ == "permissions"@,
        r.body is Empty,
        r.options == versioned(),
{
    read_only(Method::Get, String::from_str("permissions"))
}

/// A bounding box as a query value: `left,bottom,right,top`.
pub open spec fn bbox_text(b: BoundingBox) -> Seq<char> {
    b.left.text() + seq![','] + b.bottom.text() + seq![','] + b.right.text() + seq![','] + b.top.text()
}

pub fn bbox_string(b: &BoundingBox) -> (r: String)
    ensures
        r@ == bbox_text(*b),
{
    let mut s = b.left.to_text();
    push_char(&mut s, ',');
    let t = b.bottom.to_text();
    s.append(t.as_str());
    push_char(&mut s, ',');
    let t = b.right.to_text();
    s.append(t.as_str());
    push_char(&mut s, ',');
    let t = b.top.to_text();
    s.append(t.as_str());
    s
}

/// `prefix` followed by the bounding box.
fn with_bbox(prefix: &str, b: &BoundingBox) -> (r: String)
    ensures
        r@ == prefix@ + bbox_text(*b),
{
    let mut s = String::from_str(prefix);
    let t = bbox_string(b);
    s.append(t.as_str());
    s
}

/// The map data inside a bounding box: `GET map?bbox=<bbox>`.
pub fn map_call(bbox: &BoundingBox) -> (r: Call)
    ensures
        r.method == Method::Get,
        r.endpoint@ == "map?bbox="@ + bbox_text(*bbox),
        r.body is Empty,
        r.options == versioned(),
{
    read_only(Method::Get, with_bbox("map?bbox=", bbox))
}

pub open spec fn optional_param(key: Seq<char>, v: Option<Seq<char>>) -> Seq<char> {
    match v {
        Some(t) => seq!['&'] + key + seq!['='] + t,
        None => Seq::empty(),
    }
}

/// Notes inside a bounding box:
/// `GET notes?bbox=<bbox>[&limit=<n>][&closed=<days>]`.
pub fn notes_by_bbox_call(bbox: &BoundingBox, limit: Option<u16>, closed: Option<i64>) -> (r:
    Call)
    ensures
        r.method == Method::Get,
        r.endpoint@ == "notes?bbox="@ + bbox_text(*bbox) + optional_param(
            "limit"@,
            match limit {
                Some(n) => Some(decimal_text(n as nat)),
                None => None,
            },
        ) + optional_param(
            "closed"@,
            match closed {
                Some(n) => Some(signed_text(n)),
                None => None,
            },
        ),
        r.body is Empty,
        r.options == versioned(),
{
    proof {
        reveal_strlit("&limit=");
        reveal_strlit("&closed=");
        reveal_strlit("limit");
        reveal_strlit("closed");
    }
    let mut endpoint = with_bbox("notes?bbox=", bbox);
    let ghost head = endpoint@;
    if let Some(n) = limit {
        endpoint.append("&limit=");
        let t = u64_string(n as u64);
        endpoint.append(t.as_str());
    }
    let ghost mid = endpoint@;
    assert(mid =~= head + optional_param(
        "limit"@,
        match limit {
            Some(n) => Some(decimal_text(n as nat)),
            None => None,
        },
    ));
    if let Some(n) = closed {
        endpoint.append("&closed=");
        let t = i64_string(n);
        endpoint.append(t.as_str());
    }
    assert(endpoint@ =~= mid + optional_param(
        "closed"@,
        match closed {
            Some(n) => Some(signed_text(n)),
            None => None,
        },
    ));
    read_only(Method::Get, endpoint)
}

/// The feed of notes inside a bounding box: `GET notes/feed?bbox=<bbox>`.
pub fn notes_feed_call(bbox: &BoundingBox) -> (r: Call)
    ensures
        r.method == Method::Get,
        r.endpoint@ == "notes/feed?bbox="@ + bbox_text(*bbox),
        r.body is Empty,
        r.options == versioned(),
{
    read_only(Method::Get, with_bbox("notes/feed?bbox=", bbox))
}

/// One note: `GET notes/<id>`.
pub fn note_get_call(note_id: u64) -> (r: Call)
    ensures
        r.method == Method::Get,
        r.endpoint@ == "notes/"@ + decimal_text(note_id as nat),
        r.body is Empty,
        r.options == versioned(),
{
    read_only(Method::Get, with_id_only("notes/", note_id))
}

/// Opening a note: `POST notes?lat=<lat>&lon=<lon>&text=<text>`, the text
/// percent-encoded.
pub fn note_create_call(content: &NoteContent) -> (r: Call)
    ensures
        r.method == Method::Post,
        r.endpoint@ == "notes?lat="@ + content.lat.text() + "&lon="@ + content.lon.text()
            + "&text="@ + percent_encoded(content.text@),
        r.body is Empty,
        r.options == authenticated(),
{
    let mut endpoint = String::from_str("notes?lat=");
    let t = content.lat.to_text();
    endpoint.append(t.as_str());
    endpoint.append("&lon=");
    let t = content.lon.to_text();
    endpoint.append(t.as_str());
    endpoint.append("&text=");
    let t = percent_encode(content.text.as_str());
    endpoint.append(t.as_str());
    writing(Method::Post, endpoint, RequestBody::Empty)
}

/// An action on a note with a text: `POST notes/<id>/<action>?text=<text>`.
fn note_action(note_id: u64, action: &str, text: &str) -> (r: Call)
    ensures
        r.method == Method::Post,
        r.endpoint@ == "notes/"@ + decimal_text(note_id as nat) + action@ + "?text="@
            + percent_encoded(text@),
        r.body is Empty,
        r.options == authenticated(),
{
    let mut endpoint = with_id_only("notes/", note_id);
    endpoint.append(action);
    endpoint.append("?text=");
    let t = percent_encode(text);
    endpoint.append(t.as_str());
    writing(Method::Post, endpoint, RequestBody::Empty)
}

/// Commenting on a note: `POST notes/<id>/comment?text=<text>`.
pub fn note_comment_call(note_id: u64, text: &str) -> (r: Call)
    ensures
        r.method == Method::Post,
        r.endpoint@ == "notes/"@ + decimal_text(note_id as nat) + "/comment"@ + "?text="@
            + percent_encoded(text@),
        r.body is Empty,
        r.options == authenticated(),
{
    note_action(note_id, "/comment", text)
}

/// Closing a note: `POST notes/<id>/close?text=<text>`.
pub fn note_close_call(note_id: u64, text: &str) -> (r: Call)
    ensures
        r.method == Method::Post,
        r.endpoint@ == "notes/"@ + decimal_text(note_id as nat) + "/close"@ + "?text="@
            + percent_encoded(text@),
        r.body is Empty,
        r.options == authenticated(),
{
    note_action(note_id, "/close", text)
}

/// Reopening a note: `POST notes/<id>/reopen?text=<text>`.
pub fn note_reopen_call(note_id: u64, text: &str) -> (r: Call)
    ensures
        r.method == Method::Post,
        r.endpoint@ == "notes/"@ + decimal_text(note_id as nat) + "/reopen"@ + "?text="@
            + percent_encoded(text@),
        r.body is Empty,
        r.options == authenticated(),
{
    note_action(note_id, "/reopen", text)
}

pub open spec fn sort_word(s: NoteSearchSortOption) -> Seq<char> {
    match s {
        NoteSearchSortOption::CreatedAt => "created_at"@,
        NoteSearchSortOption::UpdatedAt => "updated_at"@,
    }
}

pub open spec fn order_word(o: NoteSearchOrderOption) -> Seq<char> {
    match o {
        NoteSearchOrderOption::Oldest => "oldest"@,
        NoteSearchOrderOption::Newest => "newest"@,
    }
}

pub open spec fn opt_pair(key: Seq<char>, v: Option<Seq<char>>) -> Seq<(Seq<char>, Seq<char>)> {
    match v {
        Some(t) => seq![(key, t)],
        None => Seq::empty(),
    }
}

pub open spec fn text_of(v: Option<String>) -> Option<Seq<char>> {
    match v {
        Some(s) => Some(s@),
        None => None,
    }
}

pub open spec fn number_of(v: Option<u64>) -> Option<Seq<char>> {
    match v {
        Some(n) => Some(decimal_text(n as nat)),
        None => None,
    }
}

/// The search fields as query pairs, in declaration order; `q` is always
/// sent, the others only when set.
pub open spec fn search_pairs(o: NoteSearchOptions) -> Seq<(Seq<char>, Seq<char>)> {
    search_pairs_head(o) + search_pairs_tail(o)
}

pub open spec fn search_pairs_head(o: NoteSearchOptions) -> Seq<(Seq<char>, Seq<char>)> {
    seq![("q"@, o.q@)] + opt_pair(
        "limit"@,
        match o.limit {
            Some(n) => Some(decimal_text(n as nat)),
            None => None,
        },
    ) + opt_pair(
        "closed"@,
        match o.closed {
            Some(n) => Some(signed_text(n)),
            None => None,
        },
    ) + opt_pair("display_name"@, text_of(o.display_name))
}

pub open spec fn search_pairs_tail(o: NoteSearchOptions) -> Seq<(Seq<char>, Seq<char>)> {
    opt_pair("user"@, number_of(o.user)) + opt_pair("from"@, text_of(o.from)) + opt_pair(
        "to"@,
        text_of(o.to),
    ) + opt_pair(
        "sort"@,
        match o.sort {
            Some(s) => Some(sort_word(s)),
            None => None,
        },
    ) + opt_pair(
        "order"@,
        match o.order {
            Some(s) => Some(order_word(s)),
            None => None,
        },
    )
}

fn push_opt(out: &mut Vec<(String, String)>, key: &str, v: Option<String>)
    ensures
        pairs_view(final(out)@) == pairs_view(old(out)@) + opt_pair(key@, text_of(v)),
{
    if let Some(s) = v {
        out.push((String::from_str(key), s));
    }
    assert(pairs_view(out@) =~= pairs_view(old(out)@) + opt_pair(key@, text_of(v)));
}

fn copy_text(v: &Option<String>) -> (r: Option<String>)
    ensures
        text_of(r) == text_of(*v),
{
    match v {
        Some(s) => Some(s.clone()),
        None => None,
    }
}

fn number_text(v: Option<u64>) -> (r: Option<String>)
    ensures
        text_of(r) == number_of(v),
{
    match v {
        Some(n) => Some(u64_string(n)),
        None => None,
    }
}

impl NoteSearchOptions {
    fn push_head(&self, out: &mut Vec<(String, String)>)
        requires
            old(out)@.len() == 0,
        ensures
            pairs_view(final(out)@) == search_pairs_head(*self),
    {
        out.push((String::from_str("q"), self.q.clone()));
        assert(pairs_view(out@) =~= seq![("q"@, self.q@)]);
        let limit = match self.limit {
            Some(n) => Some(u64_string(n as u64)),
            None => None,
        };
        push_opt(out, "limit", limit);
        let closed = match self.closed {
            Some(n) => Some(i64_string(n)),
            None => None,
        };
        push_opt(out, "closed", closed);
        push_opt(out, "display_name", copy_text(&self.display_name));
    }

    fn push_tail(&self, out: &mut Vec<(String, String)>)
        ensures
            pairs_view(final(out)@) == pairs_view(old(out)@) + search_pairs_tail(*self),
    {
        proof {
            reveal_strlit("created_at");
            reveal_strlit("updated_at");
            reveal_strlit("oldest");
            reveal_strlit("newest");
        }
        let ghost start = pairs_view(out@);
        push_opt(out, "user", number_text(self.user));
        push_opt(out, "from", copy_text(&self.from));
        push_opt(out, "to", copy_text(&self.to));
        let sort = match &self.sort {
            Some(NoteSearchSortOption::CreatedAt) => Some(String::from_str("created_at")),
            Some(NoteSearchSortOption::UpdatedAt) => Some(String::from_str("updated_at")),
            None => None,
        };
        push_opt(out, "sort", sort);
        let order = match &self.order {
            Some(NoteSearchOrderOption::Oldest) => Some(String::from_str("oldest")),
            Some(NoteSearchOrderOption::Newest) => Some(String::from_str("newest")),
            None => None,
        };
        push_opt(out, "order", order);
        assert(pairs_view(out@) =~= start + search_pairs_tail(*self));
    }

    /// The search as query pairs.
    pub fn to_pairs(&self) -> (r: Vec<(String, String)>)
        ensures
            pairs_view(r@) == search_pairs(*self),
    {
        let mut out: Vec<(String, String)> = Vec::new();
        self.push_head(&mut out);
        self.push_tail(&mut out);
        out
    }
}

/// Searching notes: `GET notes/search?<query>`.
pub fn notes_search_call(options: &NoteSearchOptions) -> (c: Call)
    ensures
        c.method == Method::Get,
        c.endpoint@ == "notes/search?"@ + form_urlencoded(search_pairs(*options)),
        c.body is Empty,
        c.options == versioned(),
{
    let pairs = options.to_pairs();
    let qs = crate::query::urlencode(&pairs);
    read_only(Method::Get, cat("notes/search?", qs.as_str()))
}

/// One user: `GET user/<id>`.
pub fn user_get_call(user_id: u64) -> (r: Call)
    ensures
        r.method == Method::Get,
        r.endpoint@ == "user/"@ + decimal_text(user_id as nat),
        r.body is Empty,
        r.options == versioned(),
{
    read_only(Method::Get, with_id_only("user/", user_id))
}

pub open spec fn ids_text(ids: Seq<u64>) -> Seq<char> {
    joined(ids.map_values(|n: u64| decimal_text(n as nat)))
}

/// Several users: `GET users?users=<id>,<id>,..`.
pub fn users_call(user_ids: &Vec<u64>) -> (c: Call)
    ensures
        c.method == Method::Get,
        c.endpoint@ == "users?"@ + form_urlencoded(seq![("users"@, ids_text(user_ids@))]),
        c.body is Empty,
        c.options == versioned(),
{
    let mut pairs: Vec<(String, String)> = Vec::new();
    let joined_ids = crate::query::join_ids(user_ids);
    pairs.push((String::from_str("users"), joined_ids));
    assert(pairs_view(pairs@) =~= seq![("users"@, ids_text(user_ids@))]);
    let qs = crate::query::urlencode(&pairs);
    read_only(Method::Get, cat("users?", qs.as_str()))
}

/// The authenticated user: `GET user/details`.
pub fn user_details_call() -> (r: Call)
    ensures
        r.method == Method::Get,
        r.endpoint@ == "user/details"@,
        r.body is Empty,
        r.options == authenticated(),
{
    writing(Method::Get, String::from_str("user/details"), RequestBody::Empty)
}

/// The authenticated user's preferences: `GET user/preferences`.
pub fn preferences_call() -> (r: Call)
    ensures
        r.method == Method::Get,
        r.endpoint@ == "user/preferences"@,
        r.body is Empty,
        r.options == authenticated(),
{
    writing(Method::Get, String::from_str("user/preferences"), RequestBody::Empty)
}

/// The document of a set of preferences:
/// `<osm><preferences><preference k=.. v=../>..</preferences></osm>`.
pub fn preferences_document(preferences: &Vec<(String, String)>) -> (r: XmlElement)
    ensures
        r.name@ == "osm"@,
        r.children@.len() == 1,
        r.children@[0].name@ == "preferences"@,
        r.children@[0].children@.len() == preferences@.len(),
        forall|i: int|
            0 <= i < preferences@.len() ==> {
                let p = #[trigger] r.children@[0].children@[i];
                &&& p.name@ == "preference"@
                &&& crate::xml::pairs(p.attributes@) == seq![
                    ("k"@, preferences@[i].0@),
                    ("v"@, preferences@[i].1@),
                ]
            },
{
    let mut list = new_element("preferences");
    let mut i: usize = 0;
    while i < preferences.len()
        invariant
            i <= preferences@.len(),
            list.name@ == "preferences"@,
            list.children@.len() == i,
            forall|j: int|
                0 <= j < i ==> {
                    let p = #[trigger] list.children@[j];
                    &&& p.name@ == "preference"@
                    &&& crate::xml::pairs(p.attributes@) == seq![
                        ("k"@, preferences@[j].0@),
                        ("v"@, preferences@[j].1@),
                    ]
                },
        decreases preferences@.len() - i,
    {
        let mut p = new_element("preference");
        p.attributes.push(pair("k", preferences[i].0.clone()));
        p.attributes.push(pair("v", preferences[i].1.clone()));
        assert(crate::xml::pairs(p.attributes@) =~= seq![
            ("k"@, preferences@[i as int].0@),
            ("v"@, preferences@[i as int].1@),
        ]);
        list.children.push(p);
        i = i + 1;
    }
    let mut root = new_element("osm");
    root.children.push(list);
    root
}

/// Replacing all preferences: `PUT user/preferences` with their document.
pub fn preferences_update_call(preferences: &Vec<(String, String)>) -> (r: Call)
    ensures
        r.method == Method::Put,
        r.endpoint@ == "user/preferences"@,
        r.options == authenticated(),
        r.body matches RequestBody::Xml(doc) && doc.name@ == "osm"@,
{
    let doc = preferences_document(preferences);
    writing(Method::Put, String::from_str("user/preferences"), RequestBody::Xml(doc))
}

/// One preference: `GET user/preferences/<key>`.
pub fn preference_call(key: &str) -> (r: Call)
    ensures
        r.method == Method::Get,
        r.endpoint@ == "user/preferences/"@ + key@,
        r.body is Empty,
        r.options == authenticated(),
{
    writing(Method::Get, cat("user/preferences/", key), RequestBody::Empty)
}

/// Setting one preference: `PUT user/preferences/<key>` with the value as
/// the raw form body.
pub fn preference_update_call(key: &str, value: &str) -> (r: Call)
    ensures
        r.method == Method::Put,
        r.endpoint@ == "user/preferences/"@ + key@,
        r.body matches RequestBody::RawForm(b) && b@ == value.spec_bytes(),
        r.options == authenticated(),
{
    writing(Method::Put, cat("user/preferences/", key), RequestBody::RawForm(value.as_bytes_vec()))
}

/// Deleting one preference: `DELETE user/preferences/<key>`.
pub fn preference_delete_call(key: &str) -> (r: Call)
    ensures
        r.method == Method::Delete,
        r.endpoint@ == "user/preferences/"@ + key@,
        r.body is Empty,
        r.options == authenticated(),
{
    writing(Method::Delete, cat("user/preferences/", key), RequestBody::Empty)
}

/// GPS points inside a bounding box:
/// `GET trackpoints?bbox=<bbox>[&page=<n>]`.
pub fn trackpoints_call(bbox: &BoundingBox, page: Option<u64>) -> (r: Call)
    ensures
        r.method == Method::Get,
        r.endpoint@ == "trackpoints?bbox="@ + bbox_text(*bbox) + optional_param(
            "page"@,
            match page {
                Some(n) => Some(decimal_text(n as nat)),
                None => None,
            },
        ),
        r.body is Empty,
        r.options == versioned(),
{
    proof {
        reveal_strlit("&page=");
        reveal_strlit("page");
    }
    let mut endpoint = with_bbox("trackpoints?bbox=", bbox);
    let ghost head = endpoint@;
    if let Some(n) = page {
        endpoint.append("&page=");
        let t = u64_string(n);
        endpoint.append(t.as_str());
    }
    assert(endpoint@ =~= head + optional_param(
        "page"@,
        match page {
            Some(n) => Some(decimal_text(n as nat)),
            None => None,
        },
    ));
    read_only(Method::Get, endpoint)
}

/// Deleting a trace: `DELETE gpx/<id>`.
pub fn gpx_delete_call(gpx_id: u64) -> (r: Call)
    ensures
        r.method == Method::Delete,
        r.endpoint@ == "gpx/"@ + decimal_text(gpx_id as nat),
        r.body is Empty,
        r.options == authenticated(),
{
    writing(Method::Delete, with_id_only("gpx/", gpx_id), RequestBody::Empty)
}

/// The details of a trace: `GET gpx/<id>/details`.
pub fn gpx_details_call(gpx_id: u64) -> (r: Call)
    ensures
        r.method == Method::Get,
        r.endpoint@ == "gpx/"@ + decimal_text(gpx_id as nat) + "/details"@,
        r.body is Empty,
        r.options == versioned(),
{
    read_only(Method::Get, with_id("gpx/", gpx_id, "/details"))
}

/// The versions that a server offers: the `version` text of each `api`
/// child, in document order.
pub fn versions_response(root: &XmlElement) -> (r: Vec<String>)
    ensures
        r@.len() == named(root.children@, "api"@).len(),
        forall|i: int|
            0 <= i < r@.len() ==> crate::codec::child_text(
                #[trigger] named(root.children@, "api"@)[i],
                "version"@,
            ) == Some(r@[i]@) || (crate::codec::child_text(
                named(root.children@, "api"@)[i],
                "version"@,
            ) is None && r@[i]@.len() == 0),
{
    let ghost cs = root.children@;
    let mut out: Vec<String> = Vec::new();
    let mut i: usize = 0;
    while i < root.children.len()
        invariant
            cs == root.children@,
            i <= cs.len(),
            out@.len() == named(cs.subrange(0, i as int), "api"@).len(),
            forall|j: int|
                0 <= j < out@.len() ==> crate::codec::child_text(
                    #[trigger] named(cs.subrange(0, i as int), "api"@)[j],
                    "version"@,
                ) == Some(out@[j]@) || (crate::codec::child_text(
                    named(cs.subrange(0, i as int), "api"@)[j],
                    "version"@,
                ) is None && out@[j]@.len() == 0),
        decreases cs.len() - i,
    {
        proof {
            crate::xml::lemma_named_step(cs, "api"@, i as int);
        }
        let c = &root.children[i];
        if crate::text::str_eq(c.name.as_str(), "api") {
            let v = match crate::codec::find_child(c, "version") {
                Some(k) => c.children[k].text.clone(),
                None => String::new(),
            };
            out.push(v);
            let ghost ns = named(cs.subrange(0, i + 1), "api"@);
            assert(forall|j: int| 0 <= j < ns.len() - 1 ==> ns[j] == named(
                cs.subrange(0, i as int),
                "api"@,
            )[j]);
        }
        i = i + 1;
    }
    assert(cs.subrange(0, cs.len() as int) =~= cs);
    out
}

/// Uploading changes to a changeset: `POST changeset/<id>/upload` with the
/// `osmChange` document; the response is a `diffResult`.
pub fn changeset_upload(changeset_id: u64, changes: &crate::types::ChangesetChanges) -> (r: Call)
    ensures
        r.method == Method::Post,
        r.endpoint@ == "changeset/"@ + decimal_text(changeset_id as nat) + "/upload"@,
        r.options == authenticated(),
        r.body matches RequestBody::Xml(doc) && doc.name@ == "osmChange"@,
{
    let doc = changes.to_xml();
    writing(Method::Post, with_id("changeset/", changeset_id, "/upload"), RequestBody::Xml(doc))
}

/// The element tree of a response body.
pub fn document(text: &str) -> (r: Result<XmlElement, OpenstreetmapError>)
    ensures
        r is Ok ==> root_closes(xml_token_kinds(text@), 0, 0),
        r matches Err(e) ==> e is Serde,
        r matches Err(OpenstreetmapError::Serde(DecodeError::Xml(e))) ==> (e is Unclosed
            || e is MismatchedEnd) ==> !root_closes(xml_token_kinds(text@), 0, 0),
{
    match read_document(text) {
        Ok(root) => Ok(root),
        Err(e) => Err(OpenstreetmapError::Serde(e)),
    }
}

fn decoded<T>(r: Result<T, DecodeError>) -> (out: Result<T, OpenstreetmapError>)
    ensures
        r is Ok <==> out is Ok,
        r matches Ok(v) ==> out matches Ok(w) && w == v,
        out matches Err(e) ==> e is Serde,
{
    match r {
        Ok(v) => Ok(v),
        Err(e) => Err(OpenstreetmapError::Serde(e)),
    }
}

/// The one element of its kind in a document, as `OsmSingle::from_xml`
/// selects it.
pub fn element_response<E: OpenstreetmapNode>(root: &XmlElement) -> (r: Result<
    E,
    OpenstreetmapError,
>)
    ensures
        r is Ok <==> (named(root.children@, E::xml_name()).len() == 1 && E::valid(
            named(root.children@, E::xml_name())[0],
        )),
        r matches Ok(v) ==> E::decodes(named(root.children@, E::xml_name())[0], v),
        r matches Err(e) ==> e is Serde,
{
    match OsmSingle::<E>::from_xml(root) {
        Ok(s) => Ok(s.element),
        Err(e) => Err(OpenstreetmapError::Serde(e)),
    }
}

/// Every element of its kind in a document, in document order.
pub fn elements_response<E: OpenstreetmapNode>(root: &XmlElement) -> (r: Result<
    Vec<E>,
    OpenstreetmapError,
>)
    ensures
        r is Ok <==> all_valid::<E>(named(root.children@, E::xml_name())),
        r matches Ok(vs) ==> all_decode::<E>(named(root.children@, E::xml_name()), vs@),
        r matches Err(e) ==> e is Serde,
{
    match OsmList::<E>::from_xml(root) {
        Ok(l) => Ok(l.elements),
        Err(e) => Err(OpenstreetmapError::Serde(e)),
    }
}

/// The first changeset of a document.
pub fn changeset_response(root: &XmlElement) -> (r: Result<Changeset, OpenstreetmapError>)
    ensures
        r is Ok <==> (child(*root, "changeset"@) matches Some(c) && Changeset::valid(c)),
        r matches Ok(v) ==> (child(*root, "changeset"@) matches Some(c) && Changeset::decodes(
            c,
            v,
        )),
        r matches Err(e) ==> e is Serde,
{
    decoded(changeset_from_envelope(root))
}

/// Every changeset of a document, in document order.
pub fn changesets_response(root: &XmlElement) -> (r: Result<Vec<Changeset>, OpenstreetmapError>)
    ensures
        r is Ok <==> all_valid::<Changeset>(named(root.children@, "changeset"@)),
        r matches Ok(vs) ==> all_decode::<Changeset>(named(root.children@, "changeset"@), vs@),
        r matches Err(e) ==> e is Serde,
{
    decoded(changesets_from_envelope(root))
}

/// The capabilities document: `api` and `policy` inside the root.
pub fn capabilities_response(root: &XmlElement) -> (r: Result<
    CapabilitiesAndPolicy,
    OpenstreetmapError,
>)
    ensures
        r is Ok <==> CapabilitiesAndPolicy::valid(*root),
        r matches Ok(v) ==> CapabilitiesAndPolicy::decodes(*root, v),
        r matches Err(e) ==> e is Serde,
{
    decoded(CapabilitiesAndPolicy::from_xml(root))
}

/// The permissions inside the first `permissions` child, in order.
pub fn permissions_response(root: &XmlElement) -> (r: Result<
    Vec<Permission>,
    OpenstreetmapError,
>)
    ensures
        r is Ok <==> (child(*root, "permissions"@) matches Some(p) && all_valid::<Permission>(
            named(p.children@, "permission"@),
        )),
        r matches Ok(vs) ==> (child(*root, "permissions"@) matches Some(p)
            && all_decode::<Permission>(named(p.children@, "permission"@), vs@)),
        r matches Err(e) ==> e is Serde,
{
    let list = decoded(required_element(root, "permissions"))?;
    decoded(crate::codec::decode_named::<Permission>(list, "permission"))
}

/// The first user of a document.
pub fn user_response(root: &XmlElement) -> (r: Result<User, OpenstreetmapError>)
    ensures
        r is Ok <==> (child(*root, "user"@) matches Some(c) && User::valid(c)),
        r matches Ok(v) ==> (child(*root, "user"@) matches Some(c) && User::decodes(c, v)),
        r matches Err(e) ==> e is Serde,
{
    decoded(crate::codec::required_child::<User>(root, "user"))
}

/// Every user of a document, in document order.
pub fn users_response(root: &XmlElement) -> (r: Result<Vec<User>, OpenstreetmapError>)
    ensures
        r is Ok <==> all_valid::<User>(named(root.children@, "user"@)),
        r matches Ok(vs) ==> all_decode::<User>(named(root.children@, "user"@), vs@),
        r matches Err(e) ==> e is Serde,
{
    decoded(crate::codec::decode_named::<User>(root, "user"))
}

/// The first note of a document.
pub fn note_response(root: &XmlElement) -> (r: Result<Note, OpenstreetmapError>)
    ensures
        r is Ok <==> (child(*root, "note"@) matches Some(c) && Note::valid(c)),
        r matches Ok(v) ==> (child(*root, "note"@) matches Some(c) && Note::decodes(c, v)),
        r matches Err(e) ==> e is Serde,
{
    decoded(crate::codec::required_child::<Note>(root, "note"))
}

/// Every note of a document, in document order.
pub fn notes_response(root: &XmlElement) -> (r: Result<Vec<Note>, OpenstreetmapError>)
    ensures
        r is Ok <==> all_valid::<Note>(named(root.children@, "note"@)),
        r matches Ok(vs) ==> all_decode::<Note>(named(root.children@, "note"@), vs@),
        r matches Err(e) ==> e is Serde,
{
    decoded(crate::codec::decode_named::<Note>(root, "note"))
}

/// The (key, value) pairs inside the first `preferences` child, in
/// document order; each `preference` holds them as `k` and `v`.
pub fn preferences_response(root: &XmlElement) -> (r: Result<
    Vec<(String, String)>,
    OpenstreetmapError,
>)
    ensures
        r is Ok <==> (child(*root, "preferences"@) matches Some(p) && all_valid::<Tag>(
            named(p.children@, "preference"@),
        )),
        r matches Ok(vs) ==> (child(*root, "preferences"@) matches Some(p) && vs@.len() == named(
            p.children@,
            "preference"@,
        ).len() && forall|j: int|
            0 <= j < vs@.len() ==> crate::xml::attr(
                #[trigger] named(p.children@, "preference"@)[j],
                "k"@,
            ) == Some(vs@[j].0@) && crate::xml::attr(
                named(p.children@, "preference"@)[j],
                "v"@,
            ) == Some(vs@[j].1@)),
        r matches Err(e) ==> e is Serde,
{
    let list = decoded(required_element(root, "preferences"))?;
    let tags = decoded(crate::codec::decode_named::<Tag>(list, "preference"))?;
    let ghost ns = named(list.children@, "preference"@);
    let mut out: Vec<(String, String)> = Vec::new();
    let mut i: usize = 0;
    while i < tags.len()
        invariant
            all_decode::<Tag>(ns, tags@),
            i <= tags@.len(),
            out@.len() == i,
            forall|j: int|
                0 <= j < i ==> (#[trigger] out@[j]).0@ == tags@[j].k@ && out@[j].1@ == tags@[j].v@,
        decreases tags@.len() - i,
    {
        out.push((tags[i].k.clone(), tags[i].v.clone()));
        i = i + 1;
    }
    assert forall|j: int| 0 <= j < out@.len() implies crate::xml::attr(
        #[trigger] ns[j],
        "k"@,
    ) == Some(out@[j].0@) && crate::xml::attr(ns[j], "v"@) == Some(out@[j].1@) by {
        assert(Tag::decodes(ns[j], tags@[j]));
    }
    Ok(out)
}

/// An `osmChange` document.
pub fn changes_response(root: &XmlElement) -> (r: Result<
    crate::types::ChangesetChanges,
    OpenstreetmapError,
>)
    ensures
        r is Ok <==> crate::types::ChangesetChanges::valid(*root),
        r matches Ok(v) ==> crate::types::ChangesetChanges::decodes(*root, v),
        r matches Err(e) ==> e is Serde,
{
    decoded(crate::types::ChangesetChanges::from_xml(root))
}

/// A `diffResult` document.
pub fn diff_response(root: &XmlElement) -> (r: Result<crate::types::DiffResult, OpenstreetmapError>)
    ensures
        r is Ok <==> crate::types::DiffResult::valid(*root),
        r matches Ok(v) ==> crate::types::DiffResult::decodes(*root, v),
        r matches Err(e) ==> e is Serde,
{
    decoded(crate::types::DiffResult::from_xml(root))
}

/// A map extract.
pub fn map_response(root: &XmlElement) -> (r: Result<crate::types::MapData, OpenstreetmapError>)
    ensures
        r is Ok <==> crate::types::MapData::valid(*root),
        r matches Ok(v) ==> crate::types::MapData::decodes(*root, v),
        r matches Err(e) ==> e is Serde,
{
    decoded(crate::types::MapData::from_xml(root))
}

/// A way with its nodes.
pub fn way_full_response(root: &XmlElement) -> (r: Result<crate::types::WayFull, OpenstreetmapError>)
    ensures
        r is Ok <==> crate::types::WayFull::valid(*root),
        r matches Ok(v) ==> crate::types::WayFull::decodes(*root, v),
        r matches Err(e) ==> e is Serde,
{
    decoded(crate::types::WayFull::from_xml(root))
}

/// A relation with its members.
pub fn relation_full_response(root: &XmlElement) -> (r: Result<
    crate::types::RelationFull,
    OpenstreetmapError,
>)
    ensures
        r is Ok <==> crate::types::RelationFull::valid(*root),
        r matches Ok(v) ==> crate::types::RelationFull::decodes(*root, v),
        r matches Err(e) ==> e is Serde,
{
    decoded(crate::types::RelationFull::from_xml(root))
}

/// The tracks of a `gpx` document, in document order.
pub fn tracks_response(root: &XmlElement) -> (r: Result<
    Vec<crate::gpx::Track>,
    OpenstreetmapError,
>)
    ensures
        r is Ok <==> all_valid::<crate::gpx::Track>(named(root.children@, "trk"@)),
        r matches Ok(vs) ==> all_decode::<crate::gpx::Track>(named(root.children@, "trk"@), vs@),
        r matches Err(e) ==> e is Serde,
{
    decoded(crate::codec::decode_named::<crate::gpx::Track>(root, "trk"))
}

/// The details of a trace: the first `gpx_file`.
pub fn gpx_details_response(root: &XmlElement) -> (r: Result<
    crate::gpx::Metadata,
    OpenstreetmapError,
>)
    ensures
        r is Ok <==> (child(*root, "gpx_file"@) matches Some(c) && crate::gpx::Metadata::valid(c)),
        r matches Ok(v) ==> (child(*root, "gpx_file"@) matches Some(c)
            && crate::gpx::Metadata::decodes(c, v)),
        r matches Err(e) ==> e is Serde,
{
    decoded(crate::codec::required_child::<crate::gpx::Metadata>(root, "gpx_file"))
}

} // verus!
