//! Changesets on the wire: the payloads that open a changeset or update its
//! tags, and the changeset records that the server returns.

use vstd::prelude::*;
use crate::codec::{
    DecodeError, FromXml, ToXml, all_decode, all_encode, all_valid, bool_attr, bool_field,
    child_text, child_text_field, decode_named, lemma_all_round_trip, new_element,
    optional_child, optional_child_is, optional_child_ok, optional_decimal_field,
    optional_decimal_is, optional_decimal_ok, optional_text_field, optional_text_is, pair,
    push_encoded, required_child, text_field, u64_attr, u64_field,
};
use crate::types::{Changeset, ChangesetCreate, Discussion, DiscussionComment, Tag};
use crate::xml::{XmlElement, attr, child, lookup, named, pairs};

verus! {

impl FromXml for ChangesetCreate {
    open spec fn valid(e: XmlElement) -> bool {
        &&& attr(e, "version"@) is Some
        &&& attr(e, "generator"@) is Some
        &&& all_valid::<Tag>(named(e.children@, "tag"@))
    }

    open spec fn decodes(e: XmlElement, v: ChangesetCreate) -> bool {
        &&& attr(e, "version"@) == Some(v.version@)
        &&& attr(e, "generator"@) == Some(v.generator@)
        &&& all_decode::<Tag>(named(e.children@, "tag"@), v.tags@)
    }

    fn from_xml(e: &XmlElement) -> (r: Result<ChangesetCreate, DecodeError>) {
        let version = text_field(e, "version")?;
        let generator = text_field(e, "generator")?;
        let tags = decode_named::<Tag>(e, "tag")?;
        Ok(ChangesetCreate { version, generator, tags })
    }
}

impl ToXml for ChangesetCreate {
    open spec fn xml_name() -> Seq<char> {
        "changeset"@
    }

    /// `<changeset version=.. generator=..>` holding one `tag` per tag.
    open spec fn encodes(v: ChangesetCreate, e: XmlElement) -> bool {
        &&& e.name@ == "changeset"@
        &&& pairs(e.attributes@) == seq![("version"@, v.version@), ("generator"@, v.generator@)]
        &&& e.text@.len() == 0
        &&& all_encode::<Tag>(v.tags@, e.children@)
    }

    fn to_xml(&self) -> (r: XmlElement) {
        let mut e = new_element("changeset");
        e.attributes.push(pair("version", self.version.clone()));
        e.attributes.push(pair("generator", self.generator.clone()));
        assert(pairs(e.attributes@) =~= seq![
            ("version"@, self.version@),
            ("generator"@, self.generator@),
        ]);
        push_encoded(&self.tags, &mut e.children);
        assert(e.children@.subrange(0, e.children@.len() as int) =~= e.children@);
        e
    }

    proof fn lemma_round_trip(v: ChangesetCreate, e: XmlElement) {
        reveal_strlit("version");
        reveal_strlit("generator");
        assert("version"@.len() != "generator"@.len());
        reveal_with_fuel(lookup, 3);
        lemma_all_round_trip::<Tag>(v.tags@, e.children@);
    }
}

/// The body that opens changesets: `<osm>` holding one `changeset` each.
#[derive(Debug, PartialEq, Eq)]
pub struct OsmCreate {
    pub changesets: Vec<ChangesetCreate>,
}

impl OsmCreate {
    pub fn new(changesets: Vec<ChangesetCreate>) -> (r: OsmCreate)
        ensures
            r.changesets@ == changesets@,
    {
        OsmCreate { changesets }
    }
}

impl FromXml for OsmCreate {
    open spec fn valid(e: XmlElement) -> bool {
        all_valid::<ChangesetCreate>(named(e.children@, "changeset"@))
    }

    open spec fn decodes(e: XmlElement, v: OsmCreate) -> bool {
        all_decode::<ChangesetCreate>(named(e.children@, "changeset"@), v.changesets@)
    }

    fn from_xml(e: &XmlElement) -> (r: Result<OsmCreate, DecodeError>) {
        let changesets = decode_named::<ChangesetCreate>(e, "changeset")?;
        Ok(OsmCreate { changesets })
    }
}

impl ToXml for OsmCreate {
    open spec fn xml_name() -> Seq<char> {
        "osm"@
    }

    open spec fn encodes(v: OsmCreate, e: XmlElement) -> bool {
        &&& e.name@ == "osm"@
        &&& e.attributes@.len() == 0
        &&& e.text@.len() == 0
        &&& all_encode::<ChangesetCreate>(v.changesets@, e.children@)
    }

    fn to_xml(&self) -> (r: XmlElement) {
        let mut root = new_element("osm");
        push_encoded(&self.changesets, &mut root.children);
        assert(root.children@.subrange(0, root.children@.len() as int) =~= root.children@);
        root
    }

    proof fn lemma_round_trip(v: OsmCreate, e: XmlElement) {
        lemma_all_round_trip::<ChangesetCreate>(v.changesets@, e.children@);
    }
}

/// `<osm><changeset>` holding one `tag` per tag, and nothing else.
pub open spec fn update_document(tags: Seq<Tag>, r: XmlElement) -> bool {
    &&& r.name@ == "osm"@
    &&& r.attributes@.len() == 0
    &&& r.text@.len() == 0
    &&& r.children@.len() == 1
    &&& r.children@[0].name@ == "changeset"@
    &&& r.children@[0].attributes@.len() == 0
    &&& r.children@[0].text@.len() == 0
    &&& all_encode::<Tag>(tags, r.children@[0].children@)
}

/// The body that replaces the tags of a changeset:
/// `<osm><changeset>` holding one `tag` per tag.
#[derive(Debug, PartialEq, Eq)]
pub struct OsmUpdate {
    pub tags: Vec<Tag>,
}

impl OsmUpdate {
    pub fn new(tags: Vec<Tag>) -> (r: OsmUpdate)
        ensures
            r.tags@ == tags@,
    {
        OsmUpdate { tags }
    }

    pub fn to_xml(&self) -> (r: XmlElement)
        ensures
            update_document(self.tags@, r),
    {
        let mut changeset = new_element("changeset");
        push_encoded(&self.tags, &mut changeset.children);
        assert(changeset.children@.subrange(0, changeset.children@.len() as int)
            =~= changeset.children@);
        let mut root = new_element("osm");
        root.children.push(changeset);
        root
    }
}

impl FromXml for DiscussionComment {
    open spec fn valid(e: XmlElement) -> bool {
        &&& attr(e, "date"@) is Some
        &&& u64_attr(e, "uid"@) is Some
        &&& attr(e, "user"@) is Some
        &&& child_text(e, "text"@) is Some
    }

    /// The text is a child element, the rest are attributes.
    open spec fn decodes(e: XmlElement, v: DiscussionComment) -> bool {
        &&& attr(e, "date"@) == Some(v.date@)
        &&& u64_attr(e, "uid"@) == Some(v.uid)
        &&& attr(e, "user"@) == Some(v.user@)
        &&& child_text(e, "text"@) == Some(v.text@)
    }

    fn from_xml(e: &XmlElement) -> (r: Result<DiscussionComment, DecodeError>) {
        let date = text_field(e, "date")?;
        let uid = u64_field(e, "uid")?;
        let user = text_field(e, "user")?;
        let text = child_text_field(e, "text")?;
        Ok(DiscussionComment { date, uid, user, text })
    }
}

impl FromXml for Discussion {
    open spec fn valid(e: XmlElement) -> bool {
        all_valid::<DiscussionComment>(named(e.children@, "comment"@))
    }

    open spec fn decodes(e: XmlElement, v: Discussion) -> bool {
        all_decode::<DiscussionComment>(named(e.children@, "comment"@), v.comments@)
    }

    fn from_xml(e: &XmlElement) -> (r: Result<Discussion, DecodeError>) {
        let comments = decode_named::<DiscussionComment>(e, "comment")?;
        Ok(Discussion { comments })
    }
}

impl FromXml for Changeset {
    open spec fn valid(e: XmlElement) -> bool {
        &&& u64_attr(e, "id"@) is Some
        &&& attr(e, "user"@) is Some
        &&& u64_attr(e, "uid"@) is Some
        &&& attr(e, "created_at"@) is Some
        &&& bool_attr(e, "open"@) is Some
        &&& optional_child_ok::<Discussion>(e, "discussion"@)
        &&& all_valid::<Tag>(named(e.children@, "tag"@))
        &&& optional_decimal_ok(e, "min_lon"@)
        &&& optional_decimal_ok(e, "min_lat"@)
        &&& optional_decimal_ok(e, "max_lon"@)
        &&& optional_decimal_ok(e, "max_lat"@)
    }

    open spec fn decodes(e: XmlElement, v: Changeset) -> bool {
        &&& u64_attr(e, "id"@) == Some(v.id)
        &&& attr(e, "user"@) == Some(v.user@)
        &&& u64_attr(e, "uid"@) == Some(v.uid)
        &&& attr(e, "created_at"@) == Some(v.created_at@)
        &&& optional_text_is(e, "closed_at"@, v.closed_at)
        &&& bool_attr(e, "open"@) == Some(v.open)
        &&& optional_child_is::<Discussion>(e, "discussion"@, v.discussion)
        &&& all_decode::<Tag>(named(e.children@, "tag"@), v.tags@)
        &&& optional_decimal_is(e, "min_lon"@, v.min_lon)
        &&& optional_decimal_is(e, "min_lat"@, v.min_lat)
        &&& optional_decimal_is(e, "max_lon"@, v.max_lon)
        &&& optional_decimal_is(e, "max_lat"@, v.max_lat)
    }

    fn from_xml(e: &XmlElement) -> (r: Result<Changeset, DecodeError>) {
        let id = u64_field(e, "id")?;
        let user = text_field(e, "user")?;
        let uid = u64_field(e, "uid")?;
        let created_at = text_field(e, "created_at")?;
        let closed_at = optional_text_field(e, "closed_at");
        let open = bool_field(e, "open")?;
        let discussion = optional_child::<Discussion>(e, "discussion")?;
        let tags = decode_named::<Tag>(e, "tag")?;
        let min_lon = optional_decimal_field(e, "min_lon")?;
        let min_lat = optional_decimal_field(e, "min_lat")?;
        let max_lon = optional_decimal_field(e, "max_lon")?;
        let max_lat = optional_decimal_field(e, "max_lat")?;
        Ok(
            Changeset {
                id,
                user,
                uid,
                created_at,
                closed_at,
                open,
                discussion,
                tags,
                min_lon,
                min_lat,
                max_lon,
                max_lat,
            },
        )
    }
}

/// The changeset inside an `osm` envelope: its first `changeset` child.
pub fn changeset_from_envelope(root: &XmlElement) -> (r: Result<Changeset, DecodeError>)
    ensures
        r is Ok <==> (child(*root, "changeset"@) matches Some(c) && Changeset::valid(c)),
        r matches Ok(v) ==> (child(*root, "changeset"@) matches Some(c) && Changeset::decodes(
            c,
            v,
        )),
        child(*root, "changeset"@) is None ==> (r matches Err(DecodeError::MissingField(f)) && f@
            == "changeset"@),
{
    required_child::<Changeset>(root, "changeset")
}

/// Every changeset inside an `osm` envelope, in document order.
pub fn changesets_from_envelope(root: &XmlElement) -> (r: Result<Vec<Changeset>, DecodeError>)
    ensures
        r is Ok <==> all_valid::<Changeset>(named(root.children@, "changeset"@)),
        r matches Ok(vs) ==> all_decode::<Changeset>(named(root.children@, "changeset"@), vs@),
{
    decode_named::<Changeset>(root, "changeset")
}

} // verus!
