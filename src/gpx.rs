//! GPS traces: the tracks of a bounding box and the details of one trace.

use vstd::prelude::*;
use crate::codec::{
    DecodeError, FromXml, all_decode, all_valid, bool_attr, bool_field, child_text,
    decimal_attr_is, decimal_attr_ok, decimal_field, decode_named, find_child, optional_text_field,
    optional_text_is, u64_attr, u64_field,
};
use crate::decimal::Decimal;
use crate::query::string_texts;
use crate::text::{parse_u64, u64_text};
use crate::users::texts;
use crate::xml::{XmlElement, named};

verus! {

/// A point of a track.
#[derive(Debug, PartialEq, Eq)]
pub struct Waypoint {
    pub lat: Decimal,
    pub lon: Decimal,
    pub time: Option<String>,
}

#[derive(Debug, PartialEq, Eq)]
pub struct TrackSegment {
    pub points: Vec<Waypoint>,
}

#[derive(Debug, PartialEq, Eq)]
pub struct Track {
    pub name: Option<String>,
    pub comment: Option<String>,
    pub description: Option<String>,
    pub url: Option<String>,
    pub source: Option<String>,
    pub number: Option<u32>,
    pub segments: Vec<TrackSegment>,
}

/// What the server records about an uploaded trace.
#[derive(Debug, PartialEq, Eq)]
pub struct Metadata {
    pub id: u64,
    pub name: Option<String>,
    pub description: Option<String>,
    pub lat: Decimal,
    pub lon: Decimal,
    pub user: Option<String>,
    pub time: Option<String>,
    pub visibility: Option<String>,
    pub pending: bool,
    pub keywords: Vec<String>,
}

pub open spec fn optional_child_text_is(e: XmlElement, name: Seq<char>, v: Option<String>) -> bool {
    match child_text(e, name) {
        Some(t) => v matches Some(s) && s@ == t,
        None => v is None,
    }
}

/// The text of the first child named `name`, when there is one.
fn optional_child_text(e: &XmlElement, name: &str) -> (r: Option<String>)
    ensures
        optional_child_text_is(*e, name@, r),
{
    match find_child(e, name) {
        Some(k) => Some(e.children[k].text.clone()),
        None => None,
    }
}

impl FromXml for Waypoint {
    open spec fn valid(e: XmlElement) -> bool {
        decimal_attr_ok(e, "lat"@) && decimal_attr_ok(e, "lon"@)
    }

    open spec fn decodes(e: XmlElement, v: Waypoint) -> bool {
        &&& decimal_attr_is(e, "lat"@, v.lat)
        &&& decimal_attr_is(e, "lon"@, v.lon)
        &&& optional_child_text_is(e, "time"@, v.time)
    }

    fn from_xml(e: &XmlElement) -> (r: Result<Waypoint, DecodeError>) {
        let lat = decimal_field(e, "lat")?;
        let lon = decimal_field(e, "lon")?;
        let time = optional_child_text(e, "time");
        Ok(Waypoint { lat, lon, time })
    }
}

impl FromXml for TrackSegment {
    open spec fn valid(e: XmlElement) -> bool {
        all_valid::<Waypoint>(named(e.children@, "trkpt"@))
    }

    open spec fn decodes(e: XmlElement, v: TrackSegment) -> bool {
        all_decode::<Waypoint>(named(e.children@, "trkpt"@), v.points@)
    }

    fn from_xml(e: &XmlElement) -> (r: Result<TrackSegment, DecodeError>) {
        let points = decode_named::<Waypoint>(e, "trkpt")?;
        Ok(TrackSegment { points })
    }
}

pub open spec fn number_ok(e: XmlElement) -> bool {
    match child_text(e, "number"@) {
        Some(t) => u64_text(t) matches Some(n) && n <= u32::MAX,
        None => true,
    }
}

/// A track: every field is a child element; `desc` holds the description.
impl FromXml for Track {
    open spec fn valid(e: XmlElement) -> bool {
        number_ok(e) && all_valid::<TrackSegment>(named(e.children@, "trkseg"@))
    }

    open spec fn decodes(e: XmlElement, v: Track) -> bool {
        &&& optional_child_text_is(e, "name"@, v.name)
        &&& optional_child_text_is(e, "cmt"@, v.comment)
        &&& optional_child_text_is(e, "desc"@, v.description)
        &&& optional_child_text_is(e, "url"@, v.url)
        &&& optional_child_text_is(e, "src"@, v.source)
        &&& match child_text(e, "number"@) {
            Some(t) => v.number matches Some(n) && u64_text(t) == Some(n as u64),
            None => v.number is None,
        }
        &&& all_decode::<TrackSegment>(named(e.children@, "trkseg"@), v.segments@)
    }

    fn from_xml(e: &XmlElement) -> (r: Result<Track, DecodeError>) {
        let name = optional_child_text(e, "name");
        let comment = optional_child_text(e, "cmt");
        let description = optional_child_text(e, "desc");
        let url = optional_child_text(e, "url");
        let source = optional_child_text(e, "src");
        let number = match find_child(e, "number") {
            Some(k) => match parse_u64(e.children[k].text.as_str()) {
                Some(n) => {
                    if n > 4294967295 {
                        return Err(DecodeError::InvalidValue(String::from_str("number")));
                    }
                    Some(n as u32)
                },
                None => {
                    return Err(DecodeError::InvalidValue(String::from_str("number")));
                },
            },
            None => None,
        };
        let segments = decode_named::<TrackSegment>(e, "trkseg")?;
        Ok(Track { name, comment, description, url, source, number, segments })
    }
}

/// `<gpx_file>`: id, name, position, owner, time, visibility and pending
/// as attributes; the description and the keywords (`tag`) as children.
impl FromXml for Metadata {
    open spec fn valid(e: XmlElement) -> bool {
        &&& u64_attr(e, "id"@) is Some
        &&& decimal_attr_ok(e, "lat"@)
        &&& decimal_attr_ok(e, "lon"@)
        &&& bool_attr(e, "pending"@) is Some
    }

    open spec fn decodes(e: XmlElement, v: Metadata) -> bool {
        &&& u64_attr(e, "id"@) == Some(v.id)
        &&& optional_text_is(e, "name"@, v.name)
        &&& optional_child_text_is(e, "description"@, v.description)
        &&& decimal_attr_is(e, "lat"@, v.lat)
        &&& decimal_attr_is(e, "lon"@, v.lon)
        &&& optional_text_is(e, "user"@, v.user)
        &&& optional_text_is(e, "timestamp"@, v.time)
        &&& optional_text_is(e, "visibility"@, v.visibility)
        &&& bool_attr(e, "pending"@) == Some(v.pending)
        &&& string_texts(v.keywords@) == texts(named(e.children@, "tag"@))
    }

    fn from_xml(e: &XmlElement) -> (r: Result<Metadata, DecodeError>) {
        let id = u64_field(e, "id")?;
        let name = optional_text_field(e, "name");
        let description = optional_child_text(e, "description");
        let lat = decimal_field(e, "lat")?;
        let lon = decimal_field(e, "lon")?;
        let user = optional_text_field(e, "user");
        let time = optional_text_field(e, "timestamp");
        let visibility = optional_text_field(e, "visibility");
        let pending = bool_field(e, "pending")?;
        let keywords = crate::users::texts_named(e, "tag");
        Ok(Metadata { id, name, description, lat, lon, user, time, visibility, pending, keywords })
    }
}

} // verus!
