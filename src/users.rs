//! Users and notes as the server describes them.

use vstd::prelude::*;
use crate::codec::{
    DecodeError, FromXml, all_decode, all_valid, child_text, child_text_field, decimal_attr_is,
    decimal_attr_ok, decimal_field, decode_named, find_child, optional_child, optional_child_is,
    optional_child_ok, required_child, text_field, u64_attr, u64_field,
};
use crate::query::string_texts;
use crate::text::{parse_u64, u64_text};
use crate::types::{
    Block, Comment, CommentsRaw, ContributorTerms, CoordsView, Image, Messages, Note, Traces, User,
    UserChangesets,
};
use crate::xml::{XmlElement, attr, child, lemma_named_step, named};

verus! {

impl FromXml for CoordsView {
    open spec fn valid(e: XmlElement) -> bool {
        &&& decimal_attr_ok(e, "lat"@)
        &&& decimal_attr_ok(e, "lon"@)
        &&& u64_attr(e, "zoom"@) matches Some(z) && z <= 255
    }

    open spec fn decodes(e: XmlElement, v: CoordsView) -> bool {
        &&& decimal_attr_is(e, "lat"@, v.lat)
        &&& decimal_attr_is(e, "lon"@, v.lon)
        &&& u64_attr(e, "zoom"@) == Some(v.zoom as u64)
    }

    fn from_xml(e: &XmlElement) -> (r: Result<CoordsView, DecodeError>) {
        let lat = decimal_field(e, "lat")?;
        let lon = decimal_field(e, "lon")?;
        let zoom = u64_field(e, "zoom")?;
        if zoom > 255 {
            return Err(DecodeError::InvalidValue(String::from_str("zoom")));
        }
        Ok(CoordsView { lat, lon, zoom: zoom as u8 })
    }
}

pub open spec fn texts(cs: Seq<XmlElement>) -> Seq<Seq<char>> {
    cs.map_values(|c: XmlElement| c.text@)
}

/// The texts of the children named `name`, in document order.
pub(crate) fn texts_named(e: &XmlElement, name: &str) -> (r: Vec<String>)
    ensures
        string_texts(r@) == texts(named(e.children@, name@)),
{
    let ghost cs = e.children@;
    let mut out: Vec<String> = Vec::new();
    let mut i: usize = 0;
    while i < e.children.len()
        invariant
            cs == e.children@,
            i <= cs.len(),
            string_texts(out@) == texts(named(cs.subrange(0, i as int), name@)),
        decreases cs.len() - i,
    {
        proof {
            lemma_named_step(cs, name@, i as int);
        }
        if crate::text::str_eq(e.children[i].name.as_str(), name) {
            let ghost before = out@;
            out.push(e.children[i].text.clone());
            assert(string_texts(out@) =~= string_texts(before).push(cs[i as int].text@));
            assert(texts(named(cs.subrange(0, i + 1), name@)) =~= texts(
                named(cs.subrange(0, i as int), name@),
            ).push(cs[i as int].text@));
        }
        i = i + 1;
    }
    assert(cs.subrange(0, cs.len() as int) =~= cs);
    out
}

pub open spec fn blocks_ok(e: XmlElement) -> bool {
    match child(e, "blocks"@) {
        Some(c) => all_valid::<Block>(named(c.children@, "received"@)),
        None => true,
    }
}

pub open spec fn blocks_are(e: XmlElement, v: Seq<Block>) -> bool {
    match child(e, "blocks"@) {
        Some(c) => all_decode::<Block>(named(c.children@, "received"@), v),
        None => v.len() == 0,
    }
}

pub open spec fn languages_are(e: XmlElement, v: Seq<String>) -> bool {
    match child(e, "languages"@) {
        Some(c) => string_texts(v) == texts(named(c.children@, "lang"@)),
        None => v.len() == 0,
    }
}

/// A counter child (`changesets`, `traces`) that reads 0 when absent.
pub open spec fn count_ok(e: XmlElement, name: Seq<char>) -> bool {
    match child(e, name) {
        Some(c) => u64_attr(c, "count"@) is Some,
        None => true,
    }
}

pub open spec fn count_is(e: XmlElement, name: Seq<char>, n: u64) -> bool {
    match child(e, name) {
        Some(c) => u64_attr(c, "count"@) == Some(n),
        None => n == 0,
    }
}

fn count_child(e: &XmlElement, name: &str) -> (r: Result<u64, DecodeError>)
    ensures
        r is Ok <==> count_ok(*e, name@),
        r matches Ok(n) ==> count_is(*e, name@, n),
{
    match find_child(e, name) {
        Some(k) => u64_field(&e.children[k], "count"),
        None => Ok(0),
    }
}

pub open spec fn messages_ok(e: XmlElement) -> bool {
    optional_child_ok::<Messages>(e, "messages"@)
}

pub open spec fn messages_are(e: XmlElement, v: Messages) -> bool {
    match child(e, "messages"@) {
        Some(c) => Messages::decodes(c, v),
        None => v.received == 0 && v.unread == 0 && v.sent == 0,
    }
}

impl FromXml for User {
    open spec fn valid(e: XmlElement) -> bool {
        &&& u64_attr(e, "id"@) is Some
        &&& attr(e, "display_name"@) is Some
        &&& attr(e, "account_created"@) is Some
        &&& child(e, "contributor-terms"@) matches Some(c) && ContributorTerms::valid(c)
        &&& optional_child_ok::<Image>(e, "img"@)
        &&& count_ok(e, "changesets"@)
        &&& count_ok(e, "traces"@)
        &&& blocks_ok(e)
        &&& optional_child_ok::<CoordsView>(e, "home"@)
        &&& messages_ok(e)
    }

    /// Attributes carry id, name and creation date; every other field is a
    /// child element. Absent counters read 0 and absent lists are empty.
    open spec fn decodes(e: XmlElement, v: User) -> bool {
        &&& u64_attr(e, "id"@) == Some(v.id)
        &&& attr(e, "display_name"@) == Some(v.display_name@)
        &&& attr(e, "account_created"@) == Some(v.account_created@)
        &&& match child_text(e, "description"@) {
            Some(t) => v.description matches Some(d) && d@ == t,
            None => v.description is None,
        }
        &&& child(e, "contributor-terms"@) matches Some(c) && ContributorTerms::decodes(
            c,
            v.contributor_terms,
        )
        &&& optional_child_is::<Image>(e, "img"@, v.image)
        &&& count_is(e, "changesets"@, v.changesets.count)
        &&& count_is(e, "traces"@, v.traces.count)
        &&& blocks_are(e, v.blocks@)
        &&& optional_child_is::<CoordsView>(e, "home"@, v.home)
        &&& languages_are(e, v.languages@)
        &&& messages_are(e, v.messages)
    }

    fn from_xml(e: &XmlElement) -> (r: Result<User, DecodeError>) {
        let id = u64_field(e, "id")?;
        let display_name = text_field(e, "display_name")?;
        let account_created = text_field(e, "account_created")?;
        let description = match find_child(e, "description") {
            Some(k) => Some(e.children[k].text.clone()),
            None => None,
        };
        let contributor_terms = required_child::<ContributorTerms>(e, "contributor-terms")?;
        let image = optional_child::<Image>(e, "img")?;
        let changesets = UserChangesets { count: count_child(e, "changesets")? };
        let traces = Traces { count: count_child(e, "traces")? };
        let blocks = match find_child(e, "blocks") {
            Some(k) => decode_named::<Block>(&e.children[k], "received")?,
            None => Vec::new(),
        };
        let home = optional_child::<CoordsView>(e, "home")?;
        let languages = match find_child(e, "languages") {
            Some(k) => texts_named(&e.children[k], "lang"),
            None => Vec::new(),
        };
        let messages = match find_child(e, "messages") {
            Some(k) => Messages::from_xml(&e.children[k])?,
            None => Messages { received: 0, unread: 0, sent: 0 },
        };
        Ok(
            User {
                id,
                display_name,
                account_created,
                description,
                contributor_terms,
                image,
                changesets,
                traces,
                blocks,
                home,
                languages,
                messages,
            },
        )
    }
}

impl FromXml for CommentsRaw {
    open spec fn valid(e: XmlElement) -> bool {
        all_valid::<Comment>(named(e.children@, "comment"@))
    }

    open spec fn decodes(e: XmlElement, v: CommentsRaw) -> bool {
        all_decode::<Comment>(named(e.children@, "comment"@), v.comments@)
    }

    fn from_xml(e: &XmlElement) -> (r: Result<CommentsRaw, DecodeError>) {
        let comments = decode_named::<Comment>(e, "comment")?;
        Ok(CommentsRaw { comments })
    }
}

/// A note: position as attributes, everything else as child elements.
impl FromXml for Note {
    open spec fn valid(e: XmlElement) -> bool {
        &&& child_text(e, "id"@) matches Some(t) && u64_text(t) is Some
        &&& decimal_attr_ok(e, "lon"@)
        &&& decimal_attr_ok(e, "lat"@)
        &&& child_text(e, "url"@) is Some
        &&& child_text(e, "comment_url"@) is Some
        &&& child_text(e, "close_url"@) is Some
        &&& child_text(e, "date_created"@) is Some
        &&& child_text(e, "status"@) is Some
        &&& child(e, "comments"@) matches Some(c) && CommentsRaw::valid(c)
    }

    open spec fn decodes(e: XmlElement, v: Note) -> bool {
        &&& child_text(e, "id"@) matches Some(t) && u64_text(t) == Some(v.id)
        &&& decimal_attr_is(e, "lon"@, v.lon)
        &&& decimal_attr_is(e, "lat"@, v.lat)
        &&& child_text(e, "url"@) == Some(v.url@)
        &&& child_text(e, "comment_url"@) == Some(v.comment_url@)
        &&& child_text(e, "close_url"@) == Some(v.close_url@)
        &&& child_text(e, "date_created"@) == Some(v.created_at@)
        &&& child_text(e, "status"@) == Some(v.status@)
        &&& child(e, "comments"@) matches Some(c) && all_decode::<Comment>(
            named(c.children@, "comment"@),
            v.comments@,
        )
    }

    fn from_xml(e: &XmlElement) -> (r: Result<Note, DecodeError>) {
        let id_text = child_text_field(e, "id")?;
        let id = match parse_u64(id_text.as_str()) {
            Some(n) => n,
            None => {
                return Err(DecodeError::InvalidValue(String::from_str("id")));
            },
        };
        let lon = decimal_field(e, "lon")?;
        let lat = decimal_field(e, "lat")?;
        let url = child_text_field(e, "url")?;
        let comment_url = child_text_field(e, "comment_url")?;
        let close_url = child_text_field(e, "close_url")?;
        let created_at = child_text_field(e, "date_created")?;
        let status = child_text_field(e, "status")?;
        let raw = required_child::<CommentsRaw>(e, "comments")?;
        Ok(
            Note {
                id,
                lon,
                lat,
                url,
                comment_url,
                close_url,
                created_at,
                status,
                comments: raw.comments,
            },
        )
    }
}

} // verus!
