//! The smaller records that the server returns: permissions, upload
//! results, capabilities and the parts of a user.

use vstd::prelude::*;
use crate::codec::{
    DecodeError, FromXml, all_decode, all_valid, bool_attr, bool_field, child_text,
    child_text_field, decimal_attr_is, decimal_attr_ok, decimal_field, decode_named,
    required_child, required_element, text_field, u64_attr, u64_field,
};
use crate::decimal::Decimal;
use crate::types::{
    Blacklist, Block, Capabilities, CapabilitiesAndPolicy, Comment, ContributorTerms, DiffNode,
    DiffRelation, DiffResult, DiffWay, Image, Imagery, Messages, Permission, Policy, Status,
    Traces, UserChangesets, VersionRange,
};
use crate::xml::{XmlElement, attr, child, named};

verus! {

impl FromXml for Permission {
    open spec fn valid(e: XmlElement) -> bool {
        attr(e, "name"@) is Some
    }

    open spec fn decodes(e: XmlElement, v: Permission) -> bool {
        attr(e, "name"@) == Some(v.name@)
    }

    fn from_xml(e: &XmlElement) -> (r: Result<Permission, DecodeError>) {
        let name = text_field(e, "name")?;
        Ok(Permission { name })
    }
}

/// The three numbers of an upload result line.
pub open spec fn diff_valid(e: XmlElement) -> bool {
    &&& u64_attr(e, "old_id"@) is Some
    &&& u64_attr(e, "new_id"@) is Some
    &&& u64_attr(e, "new_version"@) is Some
}

pub open spec fn diff_is(e: XmlElement, old_id: u64, new_id: u64, new_version: u64) -> bool {
    &&& u64_attr(e, "old_id"@) == Some(old_id)
    &&& u64_attr(e, "new_id"@) == Some(new_id)
    &&& u64_attr(e, "new_version"@) == Some(new_version)
}

fn diff_fields(e: &XmlElement) -> (r: Result<(u64, u64, u64), DecodeError>)
    ensures
        r is Ok <==> diff_valid(*e),
        r matches Ok((a, b, c)) ==> diff_is(*e, a, b, c),
{
    let old_id = u64_field(e, "old_id")?;
    let new_id = u64_field(e, "new_id")?;
    let new_version = u64_field(e, "new_version")?;
    Ok((old_id, new_id, new_version))
}

impl FromXml for DiffNode {
    open spec fn valid(e: XmlElement) -> bool {
        diff_valid(e)
    }

    open spec fn decodes(e: XmlElement, v: DiffNode) -> bool {
        diff_is(e, v.old_id, v.new_id, v.new_version)
    }

    fn from_xml(e: &XmlElement) -> (r: Result<DiffNode, DecodeError>) {
        let (old_id, new_id, new_version) = diff_fields(e)?;
        Ok(DiffNode { old_id, new_id, new_version })
    }
}

impl FromXml for DiffWay {
    open spec fn valid(e: XmlElement) -> bool {
        diff_valid(e)
    }

    open spec fn decodes(e: XmlElement, v: DiffWay) -> bool {
        diff_is(e, v.old_id, v.new_id, v.new_version)
    }

    fn from_xml(e: &XmlElement) -> (r: Result<DiffWay, DecodeError>) {
        let (old_id, new_id, new_version) = diff_fields(e)?;
        Ok(DiffWay { old_id, new_id, new_version })
    }
}

impl FromXml for DiffRelation {
    open spec fn valid(e: XmlElement) -> bool {
        diff_valid(e)
    }

    open spec fn decodes(e: XmlElement, v: DiffRelation) -> bool {
        diff_is(e, v.old_id, v.new_id, v.new_version)
    }

    fn from_xml(e: &XmlElement) -> (r: Result<DiffRelation, DecodeError>) {
        let (old_id, new_id, new_version) = diff_fields(e)?;
        Ok(DiffRelation { old_id, new_id, new_version })
    }
}

impl FromXml for DiffResult {
    open spec fn valid(e: XmlElement) -> bool {
        &&& all_valid::<DiffNode>(named(e.children@, "node"@))
        &&& all_valid::<DiffWay>(named(e.children@, "way"@))
        &&& all_valid::<DiffRelation>(named(e.children@, "relation"@))
    }

    /// One line per element of the upload, grouped by kind, each group in
    /// document order.
    open spec fn decodes(e: XmlElement, v: DiffResult) -> bool {
        &&& all_decode::<DiffNode>(named(e.children@, "node"@), v.nodes@)
        &&& all_decode::<DiffWay>(named(e.children@, "way"@), v.ways@)
        &&& all_decode::<DiffRelation>(named(e.children@, "relation"@), v.relations@)
    }

    fn from_xml(e: &XmlElement) -> (r: Result<DiffResult, DecodeError>) {
        let nodes = decode_named::<DiffNode>(e, "node")?;
        let ways = decode_named::<DiffWay>(e, "way")?;
        let relations = decode_named::<DiffRelation>(e, "relation")?;
        Ok(DiffResult { nodes, ways, relations })
    }
}

impl FromXml for VersionRange {
    open spec fn valid(e: XmlElement) -> bool {
        attr(e, "minimum"@) is Some && attr(e, "maximum"@) is Some
    }

    open spec fn decodes(e: XmlElement, v: VersionRange) -> bool {
        attr(e, "minimum"@) == Some(v.minimum@) && attr(e, "maximum"@) == Some(v.maximum@)
    }

    fn from_xml(e: &XmlElement) -> (r: Result<VersionRange, DecodeError>) {
        let minimum = text_field(e, "minimum")?;
        let maximum = text_field(e, "maximum")?;
        Ok(VersionRange { minimum, maximum })
    }
}

impl FromXml for Status {
    open spec fn valid(e: XmlElement) -> bool {
        &&& attr(e, "database"@) is Some
        &&& attr(e, "api"@) is Some
        &&& attr(e, "gpx"@) is Some
    }

    open spec fn decodes(e: XmlElement, v: Status) -> bool {
        &&& attr(e, "database"@) == Some(v.database@)
        &&& attr(e, "api"@) == Some(v.api@)
        &&& attr(e, "gpx"@) == Some(v.gpx@)
    }

    fn from_xml(e: &XmlElement) -> (r: Result<Status, DecodeError>) {
        let database = text_field(e, "database")?;
        let api = text_field(e, "api")?;
        let gpx = text_field(e, "gpx")?;
        Ok(Status { database, api, gpx })
    }
}

impl FromXml for Blacklist {
    open spec fn valid(e: XmlElement) -> bool {
        attr(e, "regex"@) is Some
    }

    open spec fn decodes(e: XmlElement, v: Blacklist) -> bool {
        attr(e, "regex"@) == Some(v.regex@)
    }

    fn from_xml(e: &XmlElement) -> (r: Result<Blacklist, DecodeError>) {
        let regex = text_field(e, "regex")?;
        Ok(Blacklist { regex })
    }
}

impl FromXml for Imagery {
    open spec fn valid(e: XmlElement) -> bool {
        all_valid::<Blacklist>(named(e.children@, "blacklist"@))
    }

    open spec fn decodes(e: XmlElement, v: Imagery) -> bool {
        all_decode::<Blacklist>(named(e.children@, "blacklist"@), v.blacklist@)
    }

    fn from_xml(e: &XmlElement) -> (r: Result<Imagery, DecodeError>) {
        let blacklist = decode_named::<Blacklist>(e, "blacklist")?;
        Ok(Imagery { blacklist })
    }
}

impl FromXml for Policy {
    open spec fn valid(e: XmlElement) -> bool {
        child(e, "imagery"@) matches Some(c) && Imagery::valid(c)
    }

    open spec fn decodes(e: XmlElement, v: Policy) -> bool {
        child(e, "imagery"@) matches Some(c) && Imagery::decodes(c, v.imagery)
    }

    fn from_xml(e: &XmlElement) -> (r: Result<Policy, DecodeError>) {
        let imagery = required_child::<Imagery>(e, "imagery")?;
        Ok(Policy { imagery })
    }
}

impl FromXml for ContributorTerms {
    open spec fn valid(e: XmlElement) -> bool {
        bool_attr(e, "agreed"@) is Some && (attr(e, "pd"@) is None || bool_attr(e, "pd"@) is Some)
    }

    /// `pd` is false when absent.
    open spec fn decodes(e: XmlElement, v: ContributorTerms) -> bool {
        &&& bool_attr(e, "agreed"@) == Some(v.agreed)
        &&& v.public_domain == match bool_attr(e, "pd"@) {
            Some(b) => b,
            None => false,
        }
    }

    fn from_xml(e: &XmlElement) -> (r: Result<ContributorTerms, DecodeError>) {
        let agreed = bool_field(e, "agreed")?;
        let public_domain = match crate::xml::find_attribute(&e.attributes, "pd") {
            Some(_) => bool_field(e, "pd")?,
            None => false,
        };
        Ok(ContributorTerms { agreed, public_domain })
    }
}

impl FromXml for Image {
    open spec fn valid(e: XmlElement) -> bool {
        attr(e, "href"@) is Some
    }

    open spec fn decodes(e: XmlElement, v: Image) -> bool {
        attr(e, "href"@) == Some(v.url@)
    }

    fn from_xml(e: &XmlElement) -> (r: Result<Image, DecodeError>) {
        let url = text_field(e, "href")?;
        Ok(Image { url })
    }
}

impl FromXml for UserChangesets {
    open spec fn valid(e: XmlElement) -> bool {
        u64_attr(e, "count"@) is Some
    }

    open spec fn decodes(e: XmlElement, v: UserChangesets) -> bool {
        u64_attr(e, "count"@) == Some(v.count)
    }

    fn from_xml(e: &XmlElement) -> (r: Result<UserChangesets, DecodeError>) {
        let count = u64_field(e, "count")?;
        Ok(UserChangesets { count })
    }
}

impl FromXml for Traces {
    open spec fn valid(e: XmlElement) -> bool {
        u64_attr(e, "count"@) is Some
    }

    open spec fn decodes(e: XmlElement, v: Traces) -> bool {
        u64_attr(e, "count"@) == Some(v.count)
    }

    fn from_xml(e: &XmlElement) -> (r: Result<Traces, DecodeError>) {
        let count = u64_field(e, "count")?;
        Ok(Traces { count })
    }
}

impl FromXml for Block {
    open spec fn valid(e: XmlElement) -> bool {
        u64_attr(e, "count"@) is Some && u64_attr(e, "active"@) is Some
    }

    open spec fn decodes(e: XmlElement, v: Block) -> bool {
        u64_attr(e, "count"@) == Some(v.count) && u64_attr(e, "active"@) == Some(v.active)
    }

    fn from_xml(e: &XmlElement) -> (r: Result<Block, DecodeError>) {
        let count = u64_field(e, "count")?;
        let active = u64_field(e, "active")?;
        Ok(Block { count, active })
    }
}

/// `<messages>`: `received` (count, unread) and `sent` (count) children.
impl FromXml for Messages {
    open spec fn valid(e: XmlElement) -> bool {
        &&& child(e, "received"@) matches Some(c) && u64_attr(c, "count"@) is Some && u64_attr(
            c,
            "unread"@,
        ) is Some
        &&& child(e, "sent"@) matches Some(c) && u64_attr(c, "count"@) is Some
    }

    open spec fn decodes(e: XmlElement, v: Messages) -> bool {
        &&& child(e, "received"@) matches Some(c) && u64_attr(c, "count"@) == Some(v.received)
            && u64_attr(c, "unread"@) == Some(v.unread)
        &&& child(e, "sent"@) matches Some(c) && u64_attr(c, "count"@) == Some(v.sent)
    }

    fn from_xml(e: &XmlElement) -> (r: Result<Messages, DecodeError>) {
        let received = match crate::codec::find_child(e, "received") {
            Some(k) => &e.children[k],
            None => {
                return Err(DecodeError::MissingField(String::from_str("received")));
            },
        };
        let sent = match crate::codec::find_child(e, "sent") {
            Some(k) => &e.children[k],
            None => {
                return Err(DecodeError::MissingField(String::from_str("sent")));
            },
        };
        let received_count = u64_field(received, "count")?;
        let unread = u64_field(received, "unread")?;
        let sent_count = u64_field(sent, "count")?;
        Ok(Messages { received: received_count, unread, sent: sent_count })
    }
}

/// A note comment: every field is a child element holding text.
impl FromXml for Comment {
    open spec fn valid(e: XmlElement) -> bool {
        &&& child_text(e, "uid"@) matches Some(t) && crate::text::u64_text(t) is Some
        &&& child_text(e, "date"@) is Some
        &&& child_text(e, "user"@) is Some
        &&& child_text(e, "user_url"@) is Some
        &&& child_text(e, "action"@) is Some
        &&& child_text(e, "text"@) is Some
        &&& child_text(e, "html"@) is Some
    }

    open spec fn decodes(e: XmlElement, v: Comment) -> bool {
        &&& child_text(e, "uid"@) matches Some(t) && crate::text::u64_text(t) == Some(v.id)
        &&& child_text(e, "date"@) == Some(v.date@)
        &&& child_text(e, "user"@) == Some(v.user@)
        &&& child_text(e, "user_url"@) == Some(v.user_url@)
        &&& child_text(e, "action"@) == Some(v.action@)
        &&& child_text(e, "text"@) == Some(v.text@)
        &&& child_text(e, "html"@) == Some(v.html@)
    }

    fn from_xml(e: &XmlElement) -> (r: Result<Comment, DecodeError>) {
        let uid_text = child_text_field(e, "uid")?;
        let id = match crate::text::parse_u64(uid_text.as_str()) {
            Some(n) => n,
            None => {
                return Err(DecodeError::InvalidValue(String::from_str("uid")));
            },
        };
        let date = child_text_field(e, "date")?;
        let user = child_text_field(e, "user")?;
        let user_url = child_text_field(e, "user_url")?;
        let action = child_text_field(e, "action")?;
        let text = child_text_field(e, "text")?;
        let html = child_text_field(e, "html")?;
        Ok(Comment { id, date, user, user_url, action, text, html })
    }
}

/// The number in attribute `key` of the first child named `name`.
pub open spec fn child_u64(e: XmlElement, name: Seq<char>, key: Seq<char>) -> Option<u64> {
    match child(e, name) {
        Some(c) => u64_attr(c, key),
        None => None,
    }
}

fn child_u64_field(e: &XmlElement, name: &str, key: &str) -> (r: Result<u64, DecodeError>)
    ensures
        r is Ok <==> child_u64(*e, name@, key@) is Some,
        r matches Ok(n) ==> child_u64(*e, name@, key@) == Some(n),
{
    let c = required_element(e, name)?;
    u64_field(c, key)
}

fn child_decimal_field(e: &XmlElement, name: &str, key: &str) -> (r: Result<Decimal, DecodeError>)
    ensures
        r is Ok <==> (child(*e, name@) matches Some(c) && decimal_attr_ok(c, key@)),
        r matches Ok(d) ==> (child(*e, name@) matches Some(c) && decimal_attr_is(c, key@, d)),
{
    let c = required_element(e, name)?;
    decimal_field(c, key)
}

/// `<api>`: one child per limit, each limit an attribute.
impl FromXml for Capabilities {
    open spec fn valid(e: XmlElement) -> bool {
        &&& child(e, "version"@) matches Some(c) && VersionRange::valid(c)
        &&& child(e, "area"@) matches Some(c) && decimal_attr_ok(c, "maximum"@)
        &&& child(e, "note_area"@) matches Some(c) && decimal_attr_ok(c, "maximum"@)
        &&& child_u64(e, "tracepoints"@, "per_page"@) is Some
        &&& child_u64(e, "waynodes"@, "maximum"@) is Some
        &&& child_u64(e, "changesets"@, "maximum_elements"@) is Some
        &&& child_u64(e, "timeout"@, "seconds"@) is Some
        &&& child(e, "status"@) matches Some(c) && Status::valid(c)
    }

    open spec fn decodes(e: XmlElement, v: Capabilities) -> bool {
        &&& child(e, "version"@) matches Some(c) && VersionRange::decodes(c, v.versions)
        &&& child(e, "area"@) matches Some(c) && decimal_attr_is(c, "maximum"@, v.maximum_area)
        &&& child(e, "note_area"@) matches Some(c) && decimal_attr_is(
            c,
            "maximum"@,
            v.maximum_note_area,
        )
        &&& child_u64(e, "tracepoints"@, "per_page"@) == Some(v.tracepoints_per_page)
        &&& child_u64(e, "waynodes"@, "maximum"@) == Some(v.maximum_waynodes)
        &&& child_u64(e, "changesets"@, "maximum_elements"@) == Some(v.maximum_changeset_elements)
        &&& child_u64(e, "timeout"@, "seconds"@) == Some(v.timeout)
        &&& child(e, "status"@) matches Some(c) && Status::decodes(c, v.status)
    }

    fn from_xml(e: &XmlElement) -> (r: Result<Capabilities, DecodeError>) {
        let versions = required_child::<VersionRange>(e, "version")?;
        let maximum_area = child_decimal_field(e, "area", "maximum")?;
        let maximum_note_area = child_decimal_field(e, "note_area", "maximum")?;
        let tracepoints_per_page = child_u64_field(e, "tracepoints", "per_page")?;
        let maximum_waynodes = child_u64_field(e, "waynodes", "maximum")?;
        let maximum_changeset_elements = child_u64_field(e, "changesets", "maximum_elements")?;
        let timeout = child_u64_field(e, "timeout", "seconds")?;
        let status = required_child::<Status>(e, "status")?;
        Ok(
            Capabilities {
                versions,
                maximum_area,
                maximum_note_area,
                tracepoints_per_page,
                maximum_waynodes,
                maximum_changeset_elements,
                timeout,
                status,
            },
        )
    }
}

/// `<osm>` holding `api` and `policy`.
impl FromXml for CapabilitiesAndPolicy {
    open spec fn valid(e: XmlElement) -> bool {
        &&& child(e, "api"@) matches Some(c) && Capabilities::valid(c)
        &&& child(e, "policy"@) matches Some(c) && Policy::valid(c)
    }

    open spec fn decodes(e: XmlElement, v: CapabilitiesAndPolicy) -> bool {
        &&& child(e, "api"@) matches Some(c) && Capabilities::decodes(c, v.capabilities)
        &&& child(e, "policy"@) matches Some(c) && Policy::decodes(c, v.policy)
    }

    fn from_xml(e: &XmlElement) -> (r: Result<CapabilitiesAndPolicy, DecodeError>) {
        let capabilities = required_child::<Capabilities>(e, "api")?;
        let policy = required_child::<Policy>(e, "policy")?;
        Ok(CapabilitiesAndPolicy { capabilities, policy })
    }
}

} // verus!
