//! Lowering a changeset search to the query string of the request.

use vstd::prelude::*;
use crate::decimal::Decimal;
use crate::text::{bool_string, bool_word, decimal_text, push_char, u64_string};
use crate::types::ChangesetQueryParams;

verus! {

#[verifier::external_type_specification]
#[verifier::external_body]
pub struct ExUrlEncodeError(serde_urlencoded::ser::Error);

/// The UTF-8 encoding of a character.
pub open spec fn utf8_bytes(c: char) -> Seq<u8> {
    let n = c as u32;
    if n < 0x80 {
        seq![n as u8]
    } else if n < 0x800 {
        seq![(0xC0 | (n >> 6)) as u8, (0x80 | (n & 0x3F)) as u8]
    } else if n < 0x10000 {
        seq![(0xE0 | (n >> 12)) as u8, (0x80 | ((n >> 6) & 0x3F)) as u8, (0x80 | (n & 0x3F)) as u8]
    } else {
        seq![
            (0xF0 | (n >> 18)) as u8,
            (0x80 | ((n >> 12) & 0x3F)) as u8,
            (0x80 | ((n >> 6) & 0x3F)) as u8,
            (0x80 | (n & 0x3F)) as u8,
        ]
    }
}

/// An upper-case hexadecimal digit.
pub open spec fn hex_char(d: u8) -> char {
    if d < 10 {
        (48 + d) as u8 as char
    } else {
        (55 + d) as u8 as char
    }
}

/// `%` and the two hexadecimal digits of a byte.
pub open spec fn percent_byte(b: u8) -> Seq<char> {
    seq!['%', hex_char(b / 16), hex_char(b % 16)]
}

pub open spec fn ascii_alphanumeric(b: u8) -> bool {
    (48 <= b <= 57) || (65 <= b <= 90) || (97 <= b <= 122)
}

/// A byte of a form field as written: ASCII letters, digits and `*-._`
/// stay, a space becomes `+`, every other byte is percent-encoded.
pub open spec fn form_byte(b: u8) -> Seq<char> {
    if ascii_alphanumeric(b) || b == 42 || b == 45 || b == 46 || b == 95 {
        seq![b as char]
    } else if b == 32 {
        seq!['+']
    } else {
        percent_byte(b)
    }
}

pub open spec fn form_bytes(bs: Seq<u8>) -> Seq<char>
    decreases bs.len(),
{
    if bs.len() == 0 {
        Seq::empty()
    } else {
        form_bytes(bs.drop_last()) + form_byte(bs.last())
    }
}

/// A form field as written: each character's UTF-8 bytes in turn.
pub open spec fn form_text(s: Seq<char>) -> Seq<char>
    decreases s.len(),
{
    if s.len() == 0 {
        Seq::empty()
    } else {
        form_text(s.drop_last()) + form_bytes(utf8_bytes(s.last()))
    }
}

/// The `application/x-www-form-urlencoded` text of key/value pairs: each
/// pair as key `=` value, both encoded, joined by `&`, in the order given.
pub open spec fn form_urlencoded(pairs: Seq<(Seq<char>, Seq<char>)>) -> Seq<char>
    decreases pairs.len(),
{
    if pairs.len() == 0 {
        Seq::empty()
    } else {
        let p = pairs.last();
        let pair = form_text(p.0) + seq!['='] + form_text(p.1);
        if pairs.len() == 1 {
            pair
        } else {
            form_urlencoded(pairs.drop_last()) + seq!['&'] + pair
        }
    }
}

pub open spec fn pairs_view(v: Seq<(String, String)>) -> Seq<(Seq<char>, Seq<char>)> {
    v.map_values(|p: (String, String)| (p.0@, p.1@))
}

/// Relies on `serde_urlencoded::to_string` on a sequence of string pairs,
/// which cannot fail for string keys and values, and writes each pair with
/// `form_urlencoded::Serializer::append_pair`.
#[verifier::external_body]
fn urlencode_pairs(pairs: &Vec<(String, String)>) -> (r: Result<
    String,
    serde_urlencoded::ser::Error,
>)
    ensures
        r is Ok,
        r matches Ok(s) ==> s@ == form_urlencoded(pairs_view(pairs@)),
{
    serde_urlencoded::to_string(pairs)
}

/// The query text of key/value pairs.
pub fn urlencode(pairs: &Vec<(String, String)>) -> (r: String)
    ensures
        r@ == form_urlencoded(pairs_view(pairs@)),
        pairs@.len() == 0 ==> r@.len() == 0,
{
    match urlencode_pairs(pairs) {
        Ok(s) => s,
        Err(_) => {
            proof {
                assert(false);
            }
            String::new()
        },
    }
}

/// Items joined by commas.
pub open spec fn joined(items: Seq<Seq<char>>) -> Seq<char>
    decreases items.len(),
{
    if items.len() == 0 {
        Seq::empty()
    } else if items.len() == 1 {
        items[0]
    } else {
        joined(items.drop_last()) + seq![','] + items.last()
    }
}

pub open spec fn decimal_texts(ds: Seq<Decimal>) -> Seq<Seq<char>> {
    ds.map_values(|d: Decimal| d.text())
}

pub open spec fn u64_texts(ns: Seq<u64>) -> Seq<Seq<char>> {
    ns.map_values(|n: u64| decimal_text(n as nat))
}

pub open spec fn string_texts(ss: Seq<String>) -> Seq<Seq<char>> {
    ss.map_values(|s: String| s@)
}

/// The query fields as sent, one per key, before URL encoding. A list is
/// sent as one comma-joined value.
#[derive(Debug, PartialEq, Eq)]
pub struct RawQuery {
    pub bbox: Option<Vec<Decimal>>,
    pub user: Option<u64>,
    pub display_name: Option<String>,
    pub time: Option<Vec<String>>,
    pub open: Option<bool>,
    pub closed: Option<bool>,
    pub changesets: Option<Vec<u64>>,
}

pub open spec fn field<T>(key: Seq<char>, v: Option<T>, text: spec_fn(T) -> Seq<char>) -> Seq<
    (Seq<char>, Seq<char>),
> {
    match v {
        Some(x) => seq![(key, text(x))],
        None => Seq::empty(),
    }
}

/// The time window: the start alone, or start and end; nothing when the
/// start is absent.
pub open spec fn time_of(q: ChangesetQueryParams) -> Option<Seq<Seq<char>>> {
    match (q.closed_after, q.created_before) {
        (Some(a), None) => Some(seq![a@]),
        (Some(a), Some(b)) => Some(seq![a@, b@]),
        _ => None,
    }
}

/// A search that the query string cannot express.
#[derive(Debug, PartialEq, Eq)]
pub enum UnsupportedQuery {
    /// The time window has an end (`created_before`) but no start.
    EndWithoutStart,
}

/// `r` is `q` lowered field by field.
pub open spec fn raw_of(q: ChangesetQueryParams, r: RawQuery) -> bool {
    &&& match (q.bbox, r.bbox) {
        (None, None) => true,
        (Some(b), Some(v)) => v@ == seq![b.left, b.bottom, b.right, b.top],
        _ => false,
    }
    &&& r.user == q.user_id
    &&& r.display_name == q.display_name
    &&& match (time_of(q), r.time) {
        (None, None) => true,
        (Some(t), Some(v)) => string_texts(v@) == t,
        _ => false,
    }
    &&& r.open == q.open
    &&& r.closed == q.closed
    &&& r.changesets == q.changeset_ids
}

impl RawQuery {
    /// The key/value pairs of the present fields, in the order bbox, user,
    /// display_name, time, open, closed, changesets.
    pub open spec fn spec_pairs(&self) -> Seq<(Seq<char>, Seq<char>)> {
        field("bbox"@, self.bbox, |v: Vec<Decimal>| joined(decimal_texts(v@))) + field(
            "user"@,
            self.user,
            |n: u64| decimal_text(n as nat),
        ) + field("display_name"@, self.display_name, |s: String| s@) + field(
            "time"@,
            self.time,
            |v: Vec<String>| joined(string_texts(v@)),
        ) + field("open"@, self.open, |b: bool| bool_word(b)) + field(
            "closed"@,
            self.closed,
            |b: bool| bool_word(b),
        ) + field("changesets"@, self.changesets, |v: Vec<u64>| joined(u64_texts(v@)))
    }

    /// The fields of a search, lowered: the bounding box becomes
    /// `[left, bottom, right, top]`, the time window a list. A window with
    /// an end but no start cannot be sent and is refused.
    pub fn from_query(query: ChangesetQueryParams) -> (out: Result<RawQuery, UnsupportedQuery>)
        ensures
            out is Err <==> (query.closed_after is None && query.created_before is Some),
            out matches Ok(r) ==> raw_of(query, r),
    {
        if query.closed_after.is_none() && query.created_before.is_some() {
            return Err(UnsupportedQuery::EndWithoutStart);
        }
        Ok(RawQuery::lower(query))
    }

    fn lower(query: ChangesetQueryParams) -> (r: RawQuery)
        requires
            !(query.closed_after is None && query.created_before is Some),
        ensures
            raw_of(query, r),
    {
        let ghost q = query;
        let bbox = match query.bbox {
            Some(b) => Some(vec![b.left, b.bottom, b.right, b.top]),
            None => None,
        };
        let time = match (query.closed_after, query.created_before) {
            (Some(a), None) => {
                let v = vec![a];
                assert(string_texts(v@) =~= seq![v@[0]@]);
                Some(v)
            },
            (Some(a), Some(b)) => {
                let v = vec![a, b];
                assert(string_texts(v@) =~= seq![v@[0]@, v@[1]@]);
                Some(v)
            },
            _ => None,
        };
        RawQuery {
            bbox,
            user: query.user_id,
            display_name: query.display_name,
            time,
            open: query.open,
            closed: query.closed,
            changesets: query.changeset_ids,
        }
    }

    /// The pairs to encode.
    pub fn to_pairs(&self) -> (r: Vec<(String, String)>)
        ensures
            pairs_view(r@) == self.spec_pairs(),
    {
        let mut out: Vec<(String, String)> = Vec::new();
        push_bbox(&mut out, &self.bbox);
        push_u64(&mut out, "user", self.user);
        push_text(&mut out, "display_name", &self.display_name);
        push_time(&mut out, &self.time);
        push_bool(&mut out, "open", self.open);
        push_bool(&mut out, "closed", self.closed);
        push_ids(&mut out, &self.changesets);
        assert(pairs_view(out@) =~= self.spec_pairs());
        out
    }
}

fn push_bbox(out: &mut Vec<(String, String)>, v: &Option<Vec<Decimal>>)
    ensures
        pairs_view(final(out)@) == pairs_view(old(out)@) + field(
            "bbox"@,
            *v,
            |v: Vec<Decimal>| joined(decimal_texts(v@)),
        ),
{
    if let Some(v) = v {
        out.push((String::from_str("bbox"), join_decimals(v)));
    }
    assert(pairs_view(out@) =~= pairs_view(old(out)@) + field(
        "bbox"@,
        *v,
        |v: Vec<Decimal>| joined(decimal_texts(v@)),
    ));
}

fn push_u64(out: &mut Vec<(String, String)>, key: &str, v: Option<u64>)
    ensures
        pairs_view(final(out)@) == pairs_view(old(out)@) + field(
            key@,
            v,
            |n: u64| decimal_text(n as nat),
        ),
{
    if let Some(n) = v {
        out.push((String::from_str(key), u64_string(n)));
    }
    assert(pairs_view(out@) =~= pairs_view(old(out)@) + field(
        key@,
        v,
        |n: u64| decimal_text(n as nat),
    ));
}

fn push_text(out: &mut Vec<(String, String)>, key: &str, v: &Option<String>)
    ensures
        pairs_view(final(out)@) == pairs_view(old(out)@) + field(key@, *v, |s: String| s@),
{
    if let Some(s) = v {
        out.push((String::from_str(key), s.clone()));
    }
    assert(pairs_view(out@) =~= pairs_view(old(out)@) + field(key@, *v, |s: String| s@));
}

fn push_time(out: &mut Vec<(String, String)>, v: &Option<Vec<String>>)
    ensures
        pairs_view(final(out)@) == pairs_view(old(out)@) + field(
            "time"@,
            *v,
            |v: Vec<String>| joined(string_texts(v@)),
        ),
{
    if let Some(v) = v {
        out.push((String::from_str("time"), join_strings(v)));
    }
    assert(pairs_view(out@) =~= pairs_view(old(out)@) + field(
        "time"@,
        *v,
        |v: Vec<String>| joined(string_texts(v@)),
    ));
}

fn push_bool(out: &mut Vec<(String, String)>, key: &str, v: Option<bool>)
    ensures
        pairs_view(final(out)@) == pairs_view(old(out)@) + field(key@, v, |b: bool| bool_word(b)),
{
    if let Some(b) = v {
        out.push((String::from_str(key), bool_string(b)));
    }
    assert(pairs_view(out@) =~= pairs_view(old(out)@) + field(key@, v, |b: bool| bool_word(b)));
}

fn push_ids(out: &mut Vec<(String, String)>, v: &Option<Vec<u64>>)
    ensures
        pairs_view(final(out)@) == pairs_view(old(out)@) + field(
            "changesets"@,
            *v,
            |v: Vec<u64>| joined(u64_texts(v@)),
        ),
{
    if let Some(v) = v {
        out.push((String::from_str("changesets"), join_ids(v)));
    }
    assert(pairs_view(out@) =~= pairs_view(old(out)@) + field(
        "changesets"@,
        *v,
        |v: Vec<u64>| joined(u64_texts(v@)),
    ));
}

proof fn lemma_joined_push(items: Seq<Seq<char>>, x: Seq<char>)
    ensures
        joined(items.push(x)) == if items.len() == 0 {
            x
        } else {
            joined(items) + seq![','] + x
        },
{
    assert(items.push(x).drop_last() =~= items);
}

fn join_decimals(v: &Vec<Decimal>) -> (r: String)
    ensures
        r@ == joined(decimal_texts(v@)),
{
    let mut out = String::new();
    let mut i: usize = 0;
    while i < v.len()
        invariant
            i <= v@.len(),
            out@ == joined(decimal_texts(v@.subrange(0, i as int))),
        decreases v@.len() - i,
    {
        proof {
            assert(decimal_texts(v@.subrange(0, i + 1)) =~= decimal_texts(
                v@.subrange(0, i as int),
            ).push(v@[i as int].text()));
            lemma_joined_push(decimal_texts(v@.subrange(0, i as int)), v@[i as int].text());
        }
        if i > 0 {
            push_char(&mut out, ',');
        }
        let t = v[i].to_text();
        out.append(t.as_str());
        i = i + 1;
    }
    assert(v@.subrange(0, v@.len() as int) =~= v@);
    out
}

fn join_strings(v: &Vec<String>) -> (r: String)
    ensures
        r@ == joined(string_texts(v@)),
{
    let mut out = String::new();
    let mut i: usize = 0;
    while i < v.len()
        invariant
            i <= v@.len(),
            out@ == joined(string_texts(v@.subrange(0, i as int))),
        decreases v@.len() - i,
    {
        proof {
            assert(string_texts(v@.subrange(0, i + 1)) =~= string_texts(
                v@.subrange(0, i as int),
            ).push(v@[i as int]@));
            lemma_joined_push(string_texts(v@.subrange(0, i as int)), v@[i as int]@);
        }
        if i > 0 {
            push_char(&mut out, ',');
        }
        out.append(v[i].as_str());
        i = i + 1;
    }
    assert(v@.subrange(0, v@.len() as int) =~= v@);
    out
}

pub(crate) fn join_ids(v: &Vec<u64>) -> (r: String)
    ensures
        r@ == joined(u64_texts(v@)),
{
    let mut out = String::new();
    let mut i: usize = 0;
    while i < v.len()
        invariant
            i <= v@.len(),
            out@ == joined(u64_texts(v@.subrange(0, i as int))),
        decreases v@.len() - i,
    {
        proof {
            assert(u64_texts(v@.subrange(0, i + 1)) =~= u64_texts(v@.subrange(0, i as int)).push(
                decimal_text(v@[i as int] as nat),
            ));
            lemma_joined_push(u64_texts(v@.subrange(0, i as int)), decimal_text(v@[i as int] as nat));
        }
        if i > 0 {
            push_char(&mut out, ',');
        }
        let t = u64_string(v[i]);
        out.append(t.as_str());
        i = i + 1;
    }
    assert(v@.subrange(0, v@.len() as int) =~= v@);
    out
}

/// The query string of a raw query.
pub fn encode_raw_query(raw: &RawQuery) -> (r: String)
    ensures
        r@ == form_urlencoded(raw.spec_pairs()),
        raw.spec_pairs().len() == 0 ==> r@.len() == 0,
{
    let pairs = raw.to_pairs();
    urlencode(&pairs)
}

/// How many fields of a raw query are set.
pub open spec fn present_fields(raw: RawQuery) -> nat {
    (if raw.bbox is Some { 1nat } else { 0nat }) + (if raw.user is Some { 1nat } else { 0nat })
        + (if raw.display_name is Some { 1nat } else { 0nat }) + (if raw.time is Some {
        1nat
    } else {
        0nat
    }) + (if raw.open is Some { 1nat } else { 0nat }) + (if raw.closed is Some {
        1nat
    } else {
        0nat
    }) + (if raw.changesets is Some { 1nat } else { 0nat })
}

/// Lowering sends one key per field that is set and none for a field that
/// is absent; so a query with no field set sends no pair, and its query
/// string is empty.
pub proof fn lemma_one_key_per_field(raw: RawQuery)
    ensures
        raw.spec_pairs().len() == present_fields(raw),
        present_fields(raw) == 0 ==> raw.spec_pairs() == Seq::<(Seq<char>, Seq<char>)>::empty(),
{
    if present_fields(raw) == 0 {
        assert(raw.spec_pairs() =~= Seq::<(Seq<char>, Seq<char>)>::empty());
    }
}

/// A search with no filter set lowers to a query with no field set.
pub proof fn lemma_empty_search_sends_nothing(q: ChangesetQueryParams, raw: RawQuery)
    requires
        q.bbox is None,
        q.user_id is None,
        q.display_name is None,
        q.closed_after is None,
        q.created_before is None,
        q.open is None,
        q.closed is None,
        q.changeset_ids is None,
        raw_of(q, raw),
    ensures
        raw.spec_pairs() == Seq::<(Seq<char>, Seq<char>)>::empty(),
{
    lemma_one_key_per_field(raw);
}

/// Text made of ASCII letters and digits only.
pub open spec fn plain_ascii(s: Seq<char>) -> bool {
    forall|i: int|
        0 <= i < s.len() ==> ('0' <= #[trigger] s[i] <= '9') || ('a' <= s[i] <= 'z') || ('A'
            <= s[i] <= 'Z')
}

/// ASCII letters and digits are written as they are.
pub proof fn lemma_plain_form_text(s: Seq<char>)
    requires
        plain_ascii(s),
    ensures
        form_text(s) == s,
    decreases s.len(),
{
    if s.len() > 0 {
        let c = s.last();
        assert(s.drop_last().len() < s.len());
        assert(plain_ascii(s.drop_last())) by {
            assert forall|i: int| 0 <= i < s.drop_last().len() implies ('0' <= #[trigger] s.drop_last()[i] <= '9')
                || ('a' <= s.drop_last()[i] <= 'z') || ('A' <= s.drop_last()[i] <= 'Z') by {
                assert(s.drop_last()[i] == s[i]);
            }
        }
        lemma_plain_form_text(s.drop_last());
        assert(('0' <= s[s.len() - 1] <= '9') || ('a' <= s[s.len() - 1] <= 'z') || ('A' <= s[s.len()
            - 1] <= 'Z'));
        let b = (c as u32) as u8;
        assert(utf8_bytes(c) == seq![b]);
        assert(ascii_alphanumeric(b));
        assert(b as char == c);
        assert(form_bytes(seq![b]) == form_bytes(Seq::<u8>::empty()) + form_byte(b)) by {
            assert(seq![b].drop_last() =~= Seq::<u8>::empty());
        }
        assert(form_bytes(seq![b]) =~= seq![c]);
        assert(s.drop_last() + seq![c] =~= s);
    }
}

/// A search for one user sends exactly `user=` and the user's number.
pub proof fn lemma_user_only_query(raw: RawQuery, n: u64)
    requires
        raw.bbox is None,
        raw.user == Some(n),
        raw.display_name is None,
        raw.time is None,
        raw.open is None,
        raw.closed is None,
        raw.changesets is None,
    ensures
        form_urlencoded(raw.spec_pairs()) == "user="@ + decimal_text(n as nat),
{
    reveal_strlit("user");
    reveal_strlit("user=");
    assert(raw.spec_pairs() =~= seq![("user"@, decimal_text(n as nat))]);
    crate::text::lemma_decimal_text_round_trip(n as nat);
    let d = decimal_text(n as nat);
    assert(plain_ascii(d)) by {
        assert forall|i: int| 0 <= i < d.len() implies ('0' <= #[trigger] d[i] <= '9') || ('a' <= d[i]
            <= 'z') || ('A' <= d[i] <= 'Z') by {
            assert(crate::text::is_digit(d[i]));
        }
    }
    assert(plain_ascii("user"@));
    lemma_plain_form_text("user"@);
    lemma_plain_form_text(d);
    assert("user="@ =~= "user"@ + seq!['=']);
}

} // verus!
