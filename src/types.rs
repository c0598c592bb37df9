//! The values that the API exchanges.

use vstd::prelude::*;
use crate::decimal::Decimal;

verus! {

/// How a client authenticates: HTTP Basic (username, password), or not at
/// all, for anonymous read-only calls.
#[derive(Debug, Clone)]
pub enum Credentials {
    Basic(String, String),
    Anonymous,
}

#[derive(Debug, PartialEq, Eq)]
pub struct VersionRange {
    pub minimum: String,
    pub maximum: String,
}

#[derive(Debug, PartialEq, Eq)]
pub struct Status {
    pub database: String,
    pub api: String,
    pub gpx: String,
}

#[derive(Debug, PartialEq, Eq)]
pub struct Blacklist {
    pub regex: String,
}

#[derive(Debug, PartialEq, Eq)]
pub struct Imagery {
    pub blacklist: Vec<Blacklist>,
}

#[derive(Debug, PartialEq, Eq)]
pub struct Policy {
    pub imagery: Imagery,
}

/// The limits and status that the server announces.
#[derive(Debug, PartialEq, Eq)]
pub struct Capabilities {
    pub versions: VersionRange,
    pub maximum_area: Decimal,
    pub maximum_note_area: Decimal,
    pub tracepoints_per_page: u64,
    pub maximum_waynodes: u64,
    pub maximum_changeset_elements: u64,
    pub timeout: u64,
    pub status: Status,
}

#[derive(Debug, PartialEq, Eq)]
pub struct CapabilitiesAndPolicy {
    pub capabilities: Capabilities,
    pub policy: Policy,
}

/// A rectangle of longitudes (left, right) and latitudes (bottom, top).
#[derive(Debug, PartialEq, Eq)]
pub struct BoundingBox {
    pub left: Decimal,
    pub bottom: Decimal,
    pub right: Decimal,
    pub top: Decimal,
}

#[derive(Debug, PartialEq, Eq, Clone)]
pub struct Tag {
    pub k: String,
    pub v: String,
}

impl Tag {
    pub fn new(k: &str, v: &str) -> (r: Tag)
        ensures
            r.k@ == k@,
            r.v@ == v@,
    {
        Tag { k: String::from_str(k), v: String::from_str(v) }
    }
}

#[derive(Debug, PartialEq, Eq)]
pub struct Node {
    pub id: u64,
    pub visible: bool,
    pub version: u64,
    pub changeset: u64,
    pub timestamp: String,
    pub user: Option<String>,
    pub uid: Option<u64>,
    pub lat: Option<Decimal>,
    pub lon: Option<Decimal>,
    pub tags: Vec<Tag>,
}

#[derive(Debug, PartialEq, Eq)]
pub struct NodeRef {
    pub node_id: u64,
}

#[derive(Debug, PartialEq, Eq)]
pub struct Member {
    pub member_type: String,
    pub node_id: u64,
    pub role: String,
}

#[derive(Debug, PartialEq, Eq)]
pub struct Way {
    pub id: u64,
    pub visible: bool,
    pub version: u64,
    pub changeset: u64,
    pub timestamp: String,
    pub user: String,
    pub uid: u64,
    pub node_refs: Vec<NodeRef>,
    pub tags: Vec<Tag>,
}

#[derive(Debug, PartialEq, Eq)]
pub struct Relation {
    pub id: u64,
    pub visible: bool,
    pub version: u64,
    pub changeset: u64,
    pub timestamp: String,
    pub user: String,
    pub uid: u64,
    pub tags: Vec<Tag>,
    pub members: Vec<Member>,
}

#[derive(Debug, PartialEq, Eq)]
pub struct Permission {
    pub name: String,
}

/// The payload that opens a changeset.
#[derive(Debug, PartialEq, Eq, Clone)]
pub struct ChangesetCreate {
    pub version: String,
    pub generator: String,
    pub tags: Vec<Tag>,
}

impl ChangesetCreate {
    pub fn new(version: &str, generator: &str, tags: Vec<Tag>) -> (r: ChangesetCreate)
        ensures
            r.version@ == version@,
            r.generator@ == generator@,
            r.tags@ == tags@,
    {
        ChangesetCreate {
            version: String::from_str(version),
            generator: String::from_str(generator),
            tags,
        }
    }
}

#[derive(Debug, PartialEq, Eq)]
pub struct DiscussionComment {
    pub date: String,
    pub uid: u64,
    pub user: String,
    pub text: String,
}

#[derive(Debug, PartialEq, Eq)]
pub struct Discussion {
    pub comments: Vec<DiscussionComment>,
}

#[derive(Debug, PartialEq, Eq)]
pub struct Changeset {
    pub id: u64,
    pub user: String,
    pub uid: u64,
    pub created_at: String,
    pub closed_at: Option<String>,
    pub open: bool,
    pub discussion: Option<Discussion>,
    pub tags: Vec<Tag>,
    /// The bounds are absent for an empty changeset.
    pub min_lon: Option<Decimal>,
    pub min_lat: Option<Decimal>,
    pub max_lon: Option<Decimal>,
    pub max_lat: Option<Decimal>,
}

/// The elements inside a bounding box, with the box the server used.
#[derive(Debug, PartialEq, Eq)]
pub struct MapData {
    pub bounds: BoundingBox,
    pub nodes: Vec<Node>,
    pub ways: Vec<Way>,
    pub relations: Vec<Relation>,
}

#[derive(Debug, PartialEq, Eq)]
pub struct Modification {
    pub nodes: Vec<Node>,
    pub ways: Vec<Way>,
    pub relations: Vec<Relation>,
}

#[derive(Debug, PartialEq, Eq)]
pub struct Creation {
    pub nodes: Vec<Node>,
    pub ways: Vec<Way>,
    pub relations: Vec<Relation>,
}

#[derive(Debug, PartialEq, Eq)]
pub struct Deletion {
    pub nodes: Vec<Node>,
    pub ways: Vec<Way>,
    pub relations: Vec<Relation>,
}

/// An `osmChange` document: what a changeset modified, created and deleted.
#[derive(Debug, PartialEq, Eq)]
pub struct ChangesetChanges {
    pub modifications: Vec<Modification>,
    pub creations: Vec<Creation>,
    pub deletions: Vec<Deletion>,
}

/// A way with every node it references.
#[derive(Debug, PartialEq, Eq)]
pub struct WayFull {
    pub way: Way,
    pub nodes: Vec<Node>,
}

/// A relation with every way and node it references.
#[derive(Debug, PartialEq, Eq)]
pub struct RelationFull {
    pub relation: Relation,
    pub ways: Vec<Way>,
    pub nodes: Vec<Node>,
}

#[derive(Debug, PartialEq, Eq)]
pub struct DiffNode {
    pub old_id: u64,
    pub new_id: u64,
    pub new_version: u64,
}

#[derive(Debug, PartialEq, Eq)]
pub struct DiffWay {
    pub old_id: u64,
    pub new_id: u64,
    pub new_version: u64,
}

#[derive(Debug, PartialEq, Eq)]
pub struct DiffRelation {
    pub old_id: u64,
    pub new_id: u64,
    pub new_version: u64,
}

#[derive(Debug, PartialEq, Eq)]
pub struct DiffResult {
    pub nodes: Vec<DiffNode>,
    pub ways: Vec<DiffWay>,
    pub relations: Vec<DiffRelation>,
}

/// Filters of a changeset search; an absent field does not filter.
#[derive(Debug, PartialEq, Eq)]
pub struct ChangesetQueryParams {
    pub bbox: Option<BoundingBox>,
    pub user_id: Option<u64>,
    pub display_name: Option<String>,
    pub closed_after: Option<String>,
    pub created_before: Option<String>,
    pub open: Option<bool>,
    pub closed: Option<bool>,
    pub changeset_ids: Option<Vec<u64>>,
}

impl ChangesetQueryParams {
    /// A query with no filter set.
    pub fn new() -> (r: ChangesetQueryParams)
        ensures
            r.bbox is None,
            r.user_id is None,
            r.display_name is None,
            r.closed_after is None,
            r.created_before is None,
            r.open is None,
            r.closed is None,
            r.changeset_ids is None,
    {
        ChangesetQueryParams {
            bbox: None,
            user_id: None,
            display_name: None,
            closed_after: None,
            created_before: None,
            open: None,
            closed: None,
            changeset_ids: None,
        }
    }
}

/// An element id, optionally at one version.
#[derive(Debug, PartialEq, Eq)]
pub struct ElementIdParam {
    pub id: u64,
    pub version: Option<u64>,
}

impl ElementIdParam {
    pub fn new(id: u64, version: Option<u64>) -> (r: ElementIdParam)
        ensures
            r.id == id,
            r.version == version,
    {
        ElementIdParam { id, version }
    }
}

#[derive(Debug, PartialEq, Eq)]
pub struct ContributorTerms {
    pub agreed: bool,
    pub public_domain: bool,
}

#[derive(Debug, PartialEq, Eq)]
pub struct Image {
    pub url: String,
}

#[derive(Debug, PartialEq, Eq)]
pub struct UserChangesets {
    pub count: u64,
}

#[derive(Debug, PartialEq, Eq)]
pub struct Traces {
    pub count: u64,
}

#[derive(Debug, PartialEq, Eq)]
pub struct Block {
    pub count: u64,
    pub active: u64,
}

/// Where a user's map view is centred, and its zoom level.
#[derive(Debug, PartialEq, Eq)]
pub struct CoordsView {
    pub lat: Decimal,
    pub lon: Decimal,
    pub zoom: u8,
}

#[derive(Debug, PartialEq, Eq)]
pub struct Messages {
    pub received: u64,
    pub unread: u64,
    pub sent: u64,
}

#[derive(Debug, PartialEq, Eq)]
pub struct User {
    pub id: u64,
    pub display_name: String,
    pub account_created: String,
    pub description: Option<String>,
    pub contributor_terms: ContributorTerms,
    pub image: Option<Image>,
    pub changesets: UserChangesets,
    pub traces: Traces,
    pub blocks: Vec<Block>,
    pub home: Option<CoordsView>,
    pub languages: Vec<String>,
    pub messages: Messages,
}

/// A comment of a note.
#[derive(Debug, PartialEq, Eq)]
pub struct Comment {
    pub id: u64,
    pub date: String,
    pub user: String,
    pub user_url: String,
    pub action: String,
    pub text: String,
    pub html: String,
}

/// The comments of a note, as the wire nests them.
#[derive(Debug, PartialEq, Eq)]
pub struct CommentsRaw {
    pub comments: Vec<Comment>,
}

#[derive(Debug, PartialEq, Eq)]
pub struct Note {
    pub id: u64,
    pub lon: Decimal,
    pub lat: Decimal,
    pub url: String,
    pub comment_url: String,
    pub close_url: String,
    pub created_at: String,
    pub status: String,
    pub comments: Vec<Comment>,
}

/// A new note: where, and its first comment.
#[derive(Debug, PartialEq, Eq)]
pub struct NoteContent {
    pub lat: Decimal,
    pub lon: Decimal,
    pub text: String,
}

#[derive(Debug, PartialEq, Eq)]
pub enum NoteSearchSortOption {
    CreatedAt,
    UpdatedAt,
}

#[derive(Debug, PartialEq, Eq)]
pub enum NoteSearchOrderOption {
    Oldest,
    Newest,
}

#[derive(Debug, PartialEq, Eq)]
pub struct NoteSearchOptions {
    pub q: String,
    pub limit: Option<u16>,
    pub closed: Option<i64>,
    pub display_name: Option<String>,
    pub user: Option<u64>,
    pub from: Option<String>,
    pub to: Option<String>,
    pub sort: Option<NoteSearchSortOption>,
    pub order: Option<NoteSearchOrderOption>,
}

} // verus!
