//! Map elements (nodes, ways, relations) and their parts on the wire.

use vstd::prelude::*;
use crate::codec::{
    DecodeError, FromXml, ToXml, all_decode, all_encode, all_valid, bool_attr, bool_field,
    decode_named, lemma_all_round_trip, new_element, optional_decimal_field,
    optional_decimal_is, optional_decimal_ok, optional_text_field, optional_text_is,
    optional_u64_field, optional_u64_ok, pair, push_encoded, text_field, u64_attr, u64_field,
};
use crate::decimal::{Decimal, lemma_decimal_round_trip};
use crate::text::{
    bool_string, bool_text, bool_word, decimal_text, lemma_u64_text_round_trip, u64_string,
};
use crate::types::{Member, Node, NodeRef, Relation, Tag, Way};
use crate::xml::{
    XmlElement, attr, lemma_lookup_append, lemma_named_append, lemma_named_uniform, lookup, named,
    pairs,
};

verus! {

pub proof fn lemma_bool_round_trip(b: bool)
    ensures
        bool_text(bool_word(b)) == Some(b),
{
}

/// The children written as `es`, all under one tag other than `name`,
/// hold no child named `name`.
pub proof fn lemma_none_named<T: ToXml>(vs: Seq<T>, es: Seq<XmlElement>, name: Seq<char>)
    requires
        all_encode::<T>(vs, es),
        T::xml_name() != name,
    ensures
        named(es, name) == Seq::<XmlElement>::empty(),
{
    lemma_all_round_trip::<T>(vs, es);
    assert forall|i: int| 0 <= i < es.len() implies (#[trigger] es[i]).name@ != name by {
        T::lemma_round_trip(vs[i], es[i]);
    }
    lemma_named_uniform(es, name);
}

/// Children written as `a` then `b`: selecting by the tag of `a` gives `a`,
/// by the tag of `b` gives `b`.
proof fn lemma_two_groups<A: ToXml, B: ToXml>(
    va: Seq<A>,
    vb: Seq<B>,
    cs: Seq<XmlElement>,
    n: int,
)
    requires
        0 <= n <= cs.len(),
        A::xml_name() != B::xml_name(),
        all_encode::<A>(va, cs.subrange(0, n)),
        all_encode::<B>(vb, cs.subrange(n, cs.len() as int)),
    ensures
        named(cs, A::xml_name()) == cs.subrange(0, n),
        named(cs, B::xml_name()) == cs.subrange(n, cs.len() as int),
{
    let a = cs.subrange(0, n);
    let b = cs.subrange(n, cs.len() as int);
    assert(cs =~= a + b);
    lemma_named_append(a, b, A::xml_name());
    lemma_named_append(a, b, B::xml_name());
    lemma_all_round_trip::<A>(va, a);
    lemma_all_round_trip::<B>(vb, b);
    lemma_none_named::<A>(va, a, B::xml_name());
    lemma_none_named::<B>(vb, b, A::xml_name());
    assert(a + Seq::<XmlElement>::empty() =~= a);
    assert(Seq::<XmlElement>::empty() + b =~= b);
}

/// Children written as `a`, then `b`, then `c`, under three distinct tags:
/// selecting by each tag gives back that group.
pub proof fn lemma_three_groups<A: ToXml, B: ToXml, C: ToXml>(
    va: Seq<A>,
    vb: Seq<B>,
    vc: Seq<C>,
    cs: Seq<XmlElement>,
    n: int,
    m: int,
)
    requires
        0 <= n <= m <= cs.len(),
        A::xml_name() != B::xml_name(),
        A::xml_name() != C::xml_name(),
        B::xml_name() != C::xml_name(),
        all_encode::<A>(va, cs.subrange(0, n)),
        all_encode::<B>(vb, cs.subrange(n, m)),
        all_encode::<C>(vc, cs.subrange(m, cs.len() as int)),
    ensures
        named(cs, A::xml_name()) == cs.subrange(0, n),
        named(cs, B::xml_name()) == cs.subrange(n, m),
        named(cs, C::xml_name()) == cs.subrange(m, cs.len() as int),
{
    let a = cs.subrange(0, n);
    let b = cs.subrange(n, m);
    let c = cs.subrange(m, cs.len() as int);
    let e = Seq::<XmlElement>::empty();
    assert(cs =~= (a + b) + c);
    lemma_all_round_trip::<A>(va, a);
    lemma_all_round_trip::<B>(vb, b);
    lemma_all_round_trip::<C>(vc, c);
    lemma_none_named::<A>(va, a, B::xml_name());
    lemma_none_named::<A>(va, a, C::xml_name());
    lemma_none_named::<B>(vb, b, A::xml_name());
    lemma_none_named::<B>(vb, b, C::xml_name());
    lemma_none_named::<C>(vc, c, A::xml_name());
    lemma_none_named::<C>(vc, c, B::xml_name());
    lemma_named_append(a + b, c, A::xml_name());
    lemma_named_append(a, b, A::xml_name());
    lemma_named_append(a + b, c, B::xml_name());
    lemma_named_append(a, b, B::xml_name());
    lemma_named_append(a + b, c, C::xml_name());
    lemma_named_append(a, b, C::xml_name());
    assert(a + e + e =~= a);
    assert(e + b + e =~= b);
    assert(e + e + c =~= c);
}

impl FromXml for Tag {
    open spec fn valid(e: XmlElement) -> bool {
        attr(e, "k"@) is Some && attr(e, "v"@) is Some
    }

    open spec fn decodes(e: XmlElement, v: Tag) -> bool {
        attr(e, "k"@) == Some(v.k@) && attr(e, "v"@) == Some(v.v@)
    }

    fn from_xml(e: &XmlElement) -> (r: Result<Tag, DecodeError>) {
        let k = text_field(e, "k")?;
        let v = text_field(e, "v")?;
        Ok(Tag { k, v })
    }
}

impl ToXml for Tag {
    open spec fn xml_name() -> Seq<char> {
        "tag"@
    }

    open spec fn encodes(v: Tag, e: XmlElement) -> bool {
        &&& e.name@ == "tag"@
        &&& pairs(e.attributes@) == seq![("k"@, v.k@), ("v"@, v.v@)]
        &&& e.children@.len() == 0
        &&& e.text@.len() == 0
    }

    fn to_xml(&self) -> (r: XmlElement) {
        let mut e = new_element("tag");
        e.attributes.push(pair("k", self.k.clone()));
        e.attributes.push(pair("v", self.v.clone()));
        assert(pairs(e.attributes@) =~= seq![("k"@, self.k@), ("v"@, self.v@)]);
        e
    }

    proof fn lemma_round_trip(v: Tag, e: XmlElement) {
        reveal_strlit("k");
        reveal_strlit("v");
        assert("k"@ != "v"@) by {
            assert("k"@[0] != "v"@[0]);
        }
        reveal_with_fuel(lookup, 3);
    }
}

impl FromXml for NodeRef {
    open spec fn valid(e: XmlElement) -> bool {
        u64_attr(e, "ref"@) is Some
    }

    open spec fn decodes(e: XmlElement, v: NodeRef) -> bool {
        u64_attr(e, "ref"@) == Some(v.node_id)
    }

    fn from_xml(e: &XmlElement) -> (r: Result<NodeRef, DecodeError>) {
        let node_id = u64_field(e, "ref")?;
        Ok(NodeRef { node_id })
    }
}

impl ToXml for NodeRef {
    open spec fn xml_name() -> Seq<char> {
        "nd"@
    }

    open spec fn encodes(v: NodeRef, e: XmlElement) -> bool {
        &&& e.name@ == "nd"@
        &&& pairs(e.attributes@) == seq![("ref"@, decimal_text(v.node_id as nat))]
        &&& e.children@.len() == 0
        &&& e.text@.len() == 0
    }

    fn to_xml(&self) -> (r: XmlElement) {
        let mut e = new_element("nd");
        e.attributes.push(pair("ref", u64_string(self.node_id)));
        assert(pairs(e.attributes@) =~= seq![("ref"@, decimal_text(self.node_id as nat))]);
        e
    }

    proof fn lemma_round_trip(v: NodeRef, e: XmlElement) {
        reveal_with_fuel(lookup, 2);
        lemma_u64_text_round_trip(v.node_id);
    }
}

impl FromXml for Member {
    open spec fn valid(e: XmlElement) -> bool {
        attr(e, "type"@) is Some && u64_attr(e, "ref"@) is Some && attr(e, "role"@) is Some
    }

    open spec fn decodes(e: XmlElement, v: Member) -> bool {
        &&& attr(e, "type"@) == Some(v.member_type@)
        &&& u64_attr(e, "ref"@) == Some(v.node_id)
        &&& attr(e, "role"@) == Some(v.role@)
    }

    fn from_xml(e: &XmlElement) -> (r: Result<Member, DecodeError>) {
        let member_type = text_field(e, "type")?;
        let node_id = u64_field(e, "ref")?;
        let role = text_field(e, "role")?;
        Ok(Member { member_type, node_id, role })
    }
}

impl ToXml for Member {
    open spec fn xml_name() -> Seq<char> {
        "member"@
    }

    open spec fn encodes(v: Member, e: XmlElement) -> bool {
        &&& e.name@ == "member"@
        &&& pairs(e.attributes@) == seq![
            ("type"@, v.member_type@),
            ("ref"@, decimal_text(v.node_id as nat)),
            ("role"@, v.role@),
        ]
        &&& e.children@.len() == 0
        &&& e.text@.len() == 0
    }

    fn to_xml(&self) -> (r: XmlElement) {
        let mut e = new_element("member");
        e.attributes.push(pair("type", self.member_type.clone()));
        e.attributes.push(pair("ref", u64_string(self.node_id)));
        e.attributes.push(pair("role", self.role.clone()));
        assert(pairs(e.attributes@) =~= seq![
            ("type"@, self.member_type@),
            ("ref"@, decimal_text(self.node_id as nat)),
            ("role"@, self.role@),
        ]);
        e
    }

    proof fn lemma_round_trip(v: Member, e: XmlElement) {
        reveal_strlit("type");
        reveal_strlit("ref");
        reveal_strlit("role");
        assert("type"@ != "role"@) by {
            assert("type"@[0] != "role"@[0]);
        }
        assert("ref"@.len() == 3 && "role"@.len() == 4 && "type"@.len() == 4);
        reveal_with_fuel(lookup, 4);
        lemma_u64_text_round_trip(v.node_id);
    }
}

/// The attributes that ways and relations share, in the order written.
pub open spec fn entity_pairs(
    id: u64,
    visible: bool,
    version: u64,
    changeset: u64,
    timestamp: Seq<char>,
    user: Seq<char>,
    uid: u64,
) -> Seq<(Seq<char>, Seq<char>)> {
    seq![
        ("id"@, decimal_text(id as nat)),
        ("visible"@, bool_word(visible)),
        ("version"@, decimal_text(version as nat)),
        ("changeset"@, decimal_text(changeset as nat)),
        ("timestamp"@, timestamp),
        ("user"@, user),
        ("uid"@, decimal_text(uid as nat)),
    ]
}

/// The attributes that ways and relations share are all present and valid.
pub open spec fn entity_valid(e: XmlElement) -> bool {
    &&& u64_attr(e, "id"@) is Some
    &&& bool_attr(e, "visible"@) is Some
    &&& u64_attr(e, "version"@) is Some
    &&& u64_attr(e, "changeset"@) is Some
    &&& attr(e, "timestamp"@) is Some
    &&& attr(e, "user"@) is Some
    &&& u64_attr(e, "uid"@) is Some
}

pub open spec fn entity_is(
    e: XmlElement,
    id: u64,
    visible: bool,
    version: u64,
    changeset: u64,
    timestamp: Seq<char>,
    user: Seq<char>,
    uid: u64,
) -> bool {
    &&& u64_attr(e, "id"@) == Some(id)
    &&& bool_attr(e, "visible"@) == Some(visible)
    &&& u64_attr(e, "version"@) == Some(version)
    &&& u64_attr(e, "changeset"@) == Some(changeset)
    &&& attr(e, "timestamp"@) == Some(timestamp)
    &&& attr(e, "user"@) == Some(user)
    &&& u64_attr(e, "uid"@) == Some(uid)
}

proof fn lemma_entity_round_trip(
    e: XmlElement,
    id: u64,
    visible: bool,
    version: u64,
    changeset: u64,
    timestamp: Seq<char>,
    user: Seq<char>,
    uid: u64,
)
    requires
        pairs(e.attributes@) == entity_pairs(id, visible, version, changeset, timestamp, user, uid),
    ensures
        entity_valid(e),
        entity_is(e, id, visible, version, changeset, timestamp, user, uid),
{
    reveal_strlit("id");
    reveal_strlit("visible");
    reveal_strlit("version");
    reveal_strlit("changeset");
    reveal_strlit("timestamp");
    reveal_strlit("user");
    reveal_strlit("uid");
    assert("visible"@ != "version"@) by {
        assert("visible"@[1] != "version"@[1]);
    }
    assert("changeset"@ != "timestamp"@) by {
        assert("changeset"@[0] != "timestamp"@[0]);
    }
    assert("id"@.len() == 2 && "uid"@.len() == 3 && "user"@.len() == 4);
    assert("visible"@.len() == 7 && "version"@.len() == 7);
    assert("changeset"@.len() == 9 && "timestamp"@.len() == 9);
    reveal_with_fuel(lookup, 8);
    lemma_u64_text_round_trip(id);
    lemma_u64_text_round_trip(version);
    lemma_u64_text_round_trip(changeset);
    lemma_u64_text_round_trip(uid);
    lemma_bool_round_trip(visible);
}

fn entity_attributes(
    e: &mut XmlElement,
    id: u64,
    visible: bool,
    version: u64,
    changeset: u64,
    timestamp: &String,
    user: &String,
    uid: u64,
)
    requires
        old(e).attributes@.len() == 0,
    ensures
        final(e).name == old(e).name,
        final(e).children == old(e).children,
        final(e).text == old(e).text,
        pairs(final(e).attributes@) == entity_pairs(
            id,
            visible,
            version,
            changeset,
            timestamp@,
            user@,
            uid,
        ),
{
    e.attributes.push(pair("id", u64_string(id)));
    e.attributes.push(pair("visible", bool_string(visible)));
    e.attributes.push(pair("version", u64_string(version)));
    e.attributes.push(pair("changeset", u64_string(changeset)));
    e.attributes.push(pair("timestamp", timestamp.clone()));
    e.attributes.push(pair("user", user.clone()));
    e.attributes.push(pair("uid", u64_string(uid)));
    assert(pairs(e.attributes@) =~= entity_pairs(
        id,
        visible,
        version,
        changeset,
        timestamp@,
        user@,
        uid,
    ));
}

impl FromXml for Way {
    open spec fn valid(e: XmlElement) -> bool {
        &&& entity_valid(e)
        &&& all_valid::<NodeRef>(named(e.children@, "nd"@))
        &&& all_valid::<Tag>(named(e.children@, "tag"@))
    }

    open spec fn decodes(e: XmlElement, v: Way) -> bool {
        &&& entity_is(e, v.id, v.visible, v.version, v.changeset, v.timestamp@, v.user@, v.uid)
        &&& all_decode::<NodeRef>(named(e.children@, "nd"@), v.node_refs@)
        &&& all_decode::<Tag>(named(e.children@, "tag"@), v.tags@)
    }

    fn from_xml(e: &XmlElement) -> (r: Result<Way, DecodeError>) {
        let id = u64_field(e, "id")?;
        let visible = bool_field(e, "visible")?;
        let version = u64_field(e, "version")?;
        let changeset = u64_field(e, "changeset")?;
        let timestamp = text_field(e, "timestamp")?;
        let user = text_field(e, "user")?;
        let uid = u64_field(e, "uid")?;
        let node_refs = decode_named::<NodeRef>(e, "nd")?;
        let tags = decode_named::<Tag>(e, "tag")?;
        Ok(Way { id, visible, version, changeset, timestamp, user, uid, node_refs, tags })
    }
}

impl ToXml for Way {
    open spec fn xml_name() -> Seq<char> {
        "way"@
    }

    /// Attributes, then one `nd` per node reference, then one `tag` per tag.
    open spec fn encodes(v: Way, e: XmlElement) -> bool {
        let n = v.node_refs@.len() as int;
        &&& e.name@ == "way"@
        &&& pairs(e.attributes@) == entity_pairs(
            v.id,
            v.visible,
            v.version,
            v.changeset,
            v.timestamp@,
            v.user@,
            v.uid,
        )
        &&& e.text@.len() == 0
        &&& n <= e.children@.len()
        &&& all_encode::<NodeRef>(v.node_refs@, e.children@.subrange(0, n))
        &&& all_encode::<Tag>(v.tags@, e.children@.subrange(n, e.children@.len() as int))
    }

    fn to_xml(&self) -> (r: XmlElement) {
        let mut e = new_element("way");
        entity_attributes(
            &mut e,
            self.id,
            self.visible,
            self.version,
            self.changeset,
            &self.timestamp,
            &self.user,
            self.uid,
        );
        push_encoded(&self.node_refs, &mut e.children);
        let ghost first = e.children@;
        assert(first.subrange(0, first.len() as int) =~= first);
        push_encoded(&self.tags, &mut e.children);
        assert(e.children@.subrange(0, self.node_refs@.len() as int) =~= first);
        e
    }

    proof fn lemma_round_trip(v: Way, e: XmlElement) {
        reveal_strlit("nd");
        reveal_strlit("tag");
        assert("nd"@.len() != "tag"@.len());
        lemma_entity_round_trip(
            e,
            v.id,
            v.visible,
            v.version,
            v.changeset,
            v.timestamp@,
            v.user@,
            v.uid,
        );
        let n = v.node_refs@.len() as int;
        lemma_two_groups::<NodeRef, Tag>(v.node_refs@, v.tags@, e.children@, n);
        lemma_all_round_trip::<NodeRef>(v.node_refs@, e.children@.subrange(0, n));
        lemma_all_round_trip::<Tag>(
            v.tags@,
            e.children@.subrange(n, e.children@.len() as int),
        );
    }
}

impl FromXml for Relation {
    open spec fn valid(e: XmlElement) -> bool {
        &&& entity_valid(e)
        &&& all_valid::<Tag>(named(e.children@, "tag"@))
        &&& all_valid::<Member>(named(e.children@, "member"@))
    }

    open spec fn decodes(e: XmlElement, v: Relation) -> bool {
        &&& entity_is(e, v.id, v.visible, v.version, v.changeset, v.timestamp@, v.user@, v.uid)
        &&& all_decode::<Tag>(named(e.children@, "tag"@), v.tags@)
        &&& all_decode::<Member>(named(e.children@, "member"@), v.members@)
    }

    fn from_xml(e: &XmlElement) -> (r: Result<Relation, DecodeError>) {
        let id = u64_field(e, "id")?;
        let visible = bool_field(e, "visible")?;
        let version = u64_field(e, "version")?;
        let changeset = u64_field(e, "changeset")?;
        let timestamp = text_field(e, "timestamp")?;
        let user = text_field(e, "user")?;
        let uid = u64_field(e, "uid")?;
        let tags = decode_named::<Tag>(e, "tag")?;
        let members = decode_named::<Member>(e, "member")?;
        Ok(Relation { id, visible, version, changeset, timestamp, user, uid, tags, members })
    }
}

impl ToXml for Relation {
    open spec fn xml_name() -> Seq<char> {
        "relation"@
    }

    /// Attributes, then one `tag` per tag, then one `member` per member.
    open spec fn encodes(v: Relation, e: XmlElement) -> bool {
        let n = v.tags@.len() as int;
        &&& e.name@ == "relation"@
        &&& pairs(e.attributes@) == entity_pairs(
            v.id,
            v.visible,
            v.version,
            v.changeset,
            v.timestamp@,
            v.user@,
            v.uid,
        )
        &&& e.text@.len() == 0
        &&& n <= e.children@.len()
        &&& all_encode::<Tag>(v.tags@, e.children@.subrange(0, n))
        &&& all_encode::<Member>(v.members@, e.children@.subrange(n, e.children@.len() as int))
    }

    fn to_xml(&self) -> (r: XmlElement) {
        let mut e = new_element("relation");
        entity_attributes(
            &mut e,
            self.id,
            self.visible,
            self.version,
            self.changeset,
            &self.timestamp,
            &self.user,
            self.uid,
        );
        push_encoded(&self.tags, &mut e.children);
        let ghost first = e.children@;
        assert(first.subrange(0, first.len() as int) =~= first);
        push_encoded(&self.members, &mut e.children);
        assert(e.children@.subrange(0, self.tags@.len() as int) =~= first);
        e
    }

    proof fn lemma_round_trip(v: Relation, e: XmlElement) {
        reveal_strlit("member");
        reveal_strlit("tag");
        assert("tag"@.len() != "member"@.len());
        lemma_entity_round_trip(
            e,
            v.id,
            v.visible,
            v.version,
            v.changeset,
            v.timestamp@,
            v.user@,
            v.uid,
        );
        let n = v.tags@.len() as int;
        lemma_two_groups::<Tag, Member>(v.tags@, v.members@, e.children@, n);
        lemma_all_round_trip::<Tag>(v.tags@, e.children@.subrange(0, n));
        lemma_all_round_trip::<Member>(
            v.members@,
            e.children@.subrange(n, e.children@.len() as int),
        );
    }
}

// ---------------------------------------------------------------------------
// Nodes

pub open spec fn optional_text_pair(key: Seq<char>, o: Option<String>) -> Seq<
    (Seq<char>, Seq<char>),
> {
    match o {
        Some(s) => seq![(key, s@)],
        None => Seq::empty(),
    }
}

pub open spec fn optional_u64_pair(key: Seq<char>, o: Option<u64>) -> Seq<(Seq<char>, Seq<char>)> {
    match o {
        Some(n) => seq![(key, decimal_text(n as nat))],
        None => Seq::empty(),
    }
}

pub open spec fn optional_decimal_pair(key: Seq<char>, o: Option<Decimal>) -> Seq<
    (Seq<char>, Seq<char>),
> {
    match o {
        Some(d) => seq![(key, d.text())],
        None => Seq::empty(),
    }
}

pub open spec fn optional_decimal_wf(o: Option<Decimal>) -> bool {
    o matches Some(d) ==> d.wf()
}

/// The attributes of a node, in the order written; absent optional fields
/// are left out.
pub open spec fn node_pairs(v: Node) -> Seq<(Seq<char>, Seq<char>)> {
    seq![
        ("id"@, decimal_text(v.id as nat)),
        ("visible"@, bool_word(v.visible)),
        ("version"@, decimal_text(v.version as nat)),
        ("changeset"@, decimal_text(v.changeset as nat)),
        ("timestamp"@, v.timestamp@),
    ] + optional_text_pair("user"@, v.user) + optional_u64_pair("uid"@, v.uid)
        + optional_decimal_pair("lat"@, v.lat) + optional_decimal_pair("lon"@, v.lon)
}

proof fn lemma_lookup5(
    a: Seq<(Seq<char>, Seq<char>)>,
    b: Seq<(Seq<char>, Seq<char>)>,
    c: Seq<(Seq<char>, Seq<char>)>,
    d: Seq<(Seq<char>, Seq<char>)>,
    f: Seq<(Seq<char>, Seq<char>)>,
    key: Seq<char>,
)
    ensures
        lookup(a + b + c + d + f, key) == if lookup(a, key) is Some {
            lookup(a, key)
        } else if lookup(b, key) is Some {
            lookup(b, key)
        } else if lookup(c, key) is Some {
            lookup(c, key)
        } else if lookup(d, key) is Some {
            lookup(d, key)
        } else {
            lookup(f, key)
        },
{
    lemma_lookup_append(a + b + c + d, f, key);
    lemma_lookup_append(a + b + c, d, key);
    lemma_lookup_append(a + b, c, key);
    lemma_lookup_append(a, b, key);
}

impl FromXml for Node {
    open spec fn valid(e: XmlElement) -> bool {
        &&& u64_attr(e, "id"@) is Some
        &&& bool_attr(e, "visible"@) is Some
        &&& u64_attr(e, "version"@) is Some
        &&& u64_attr(e, "changeset"@) is Some
        &&& attr(e, "timestamp"@) is Some
        &&& optional_u64_ok(e, "uid"@)
        &&& optional_decimal_ok(e, "lat"@)
        &&& optional_decimal_ok(e, "lon"@)
        &&& all_valid::<Tag>(named(e.children@, "tag"@))
    }

    open spec fn decodes(e: XmlElement, v: Node) -> bool {
        &&& u64_attr(e, "id"@) == Some(v.id)
        &&& bool_attr(e, "visible"@) == Some(v.visible)
        &&& u64_attr(e, "version"@) == Some(v.version)
        &&& u64_attr(e, "changeset"@) == Some(v.changeset)
        &&& attr(e, "timestamp"@) == Some(v.timestamp@)
        &&& optional_text_is(e, "user"@, v.user)
        &&& u64_attr(e, "uid"@) == v.uid
        &&& optional_decimal_is(e, "lat"@, v.lat)
        &&& optional_decimal_is(e, "lon"@, v.lon)
        &&& all_decode::<Tag>(named(e.children@, "tag"@), v.tags@)
    }

    fn from_xml(e: &XmlElement) -> (r: Result<Node, DecodeError>) {
        let id = u64_field(e, "id")?;
        let visible = bool_field(e, "visible")?;
        let version = u64_field(e, "version")?;
        let changeset = u64_field(e, "changeset")?;
        let timestamp = text_field(e, "timestamp")?;
        let user = optional_text_field(e, "user");
        let uid = optional_u64_field(e, "uid")?;
        let lat = optional_decimal_field(e, "lat")?;
        let lon = optional_decimal_field(e, "lon")?;
        let tags = decode_named::<Tag>(e, "tag")?;
        Ok(Node { id, visible, version, changeset, timestamp, user, uid, lat, lon, tags })
    }
}

impl ToXml for Node {
    open spec fn xml_name() -> Seq<char> {
        "node"@
    }

    /// Attributes, then one `tag` per tag.
    open spec fn encodes(v: Node, e: XmlElement) -> bool {
        &&& e.name@ == "node"@
        &&& pairs(e.attributes@) == node_pairs(v)
        &&& optional_decimal_wf(v.lat)
        &&& optional_decimal_wf(v.lon)
        &&& e.text@.len() == 0
        &&& all_encode::<Tag>(v.tags@, e.children@)
    }

    fn to_xml(&self) -> (r: XmlElement) {
        let mut e = new_element("node");
        e.attributes.push(pair("id", u64_string(self.id)));
        e.attributes.push(pair("visible", bool_string(self.visible)));
        e.attributes.push(pair("version", u64_string(self.version)));
        e.attributes.push(pair("changeset", u64_string(self.changeset)));
        e.attributes.push(pair("timestamp", self.timestamp.clone()));
        let ghost base = pairs(e.attributes@);
        if let Some(u) = &self.user {
            e.attributes.push(pair("user", u.clone()));
        }
        assert(pairs(e.attributes@) =~= base + optional_text_pair("user"@, self.user));
        let ghost with_user = pairs(e.attributes@);
        if let Some(n) = self.uid {
            e.attributes.push(pair("uid", u64_string(n)));
        }
        assert(pairs(e.attributes@) =~= with_user + optional_u64_pair("uid"@, self.uid));
        let ghost with_uid = pairs(e.attributes@);
        if let Some(d) = &self.lat {
            e.attributes.push(pair("lat", d.to_text()));
        }
        assert(pairs(e.attributes@) =~= with_uid + optional_decimal_pair("lat"@, self.lat));
        let ghost with_lat = pairs(e.attributes@);
        if let Some(d) = &self.lon {
            e.attributes.push(pair("lon", d.to_text()));
        }
        assert(pairs(e.attributes@) =~= with_lat + optional_decimal_pair("lon"@, self.lon));
        assert(pairs(e.attributes@) =~= node_pairs(*self));
        push_encoded(&self.tags, &mut e.children);
        assert(e.children@.subrange(0, e.children@.len() as int) =~= e.children@);
        e
    }

    proof fn lemma_round_trip(v: Node, e: XmlElement) {
        reveal_strlit("id");
        reveal_strlit("visible");
        reveal_strlit("version");
        reveal_strlit("changeset");
        reveal_strlit("timestamp");
        reveal_strlit("user");
        reveal_strlit("uid");
        reveal_strlit("lat");
        reveal_strlit("lon");
        assert("id"@.len() == 2 && "uid"@.len() == 3 && "user"@.len() == 4);
        assert("lat"@.len() == 3 && "lon"@.len() == 3);
        assert("visible"@.len() == 7 && "version"@.len() == 7);
        assert("changeset"@.len() == 9 && "timestamp"@.len() == 9);
        assert("visible"@ != "version"@) by {
            assert("visible"@[1] != "version"@[1]);
        }
        assert("changeset"@ != "timestamp"@) by {
            assert("changeset"@[0] != "timestamp"@[0]);
        }
        assert("lat"@ != "lon"@) by {
            assert("lat"@[1] != "lon"@[1]);
        }
        assert("uid"@ != "lat"@ && "uid"@ != "lon"@) by {
            assert("uid"@[0] != "lat"@[0]);
            assert("uid"@[0] != "lon"@[0]);
        }
        reveal_with_fuel(lookup, 6);
        let a = seq![
            ("id"@, decimal_text(v.id as nat)),
            ("visible"@, bool_word(v.visible)),
            ("version"@, decimal_text(v.version as nat)),
            ("changeset"@, decimal_text(v.changeset as nat)),
            ("timestamp"@, v.timestamp@),
        ];
        let b = optional_text_pair("user"@, v.user);
        let c = optional_u64_pair("uid"@, v.uid);
        let d = optional_decimal_pair("lat"@, v.lat);
        let f = optional_decimal_pair("lon"@, v.lon);
        assert(node_pairs(v) == a + b + c + d + f);
        lemma_lookup5(a, b, c, d, f, "id"@);
        lemma_lookup5(a, b, c, d, f, "visible"@);
        lemma_lookup5(a, b, c, d, f, "version"@);
        lemma_lookup5(a, b, c, d, f, "changeset"@);
        lemma_lookup5(a, b, c, d, f, "timestamp"@);
        lemma_lookup5(a, b, c, d, f, "user"@);
        lemma_lookup5(a, b, c, d, f, "uid"@);
        lemma_lookup5(a, b, c, d, f, "lat"@);
        lemma_lookup5(a, b, c, d, f, "lon"@);
        lemma_u64_text_round_trip(v.id);
        lemma_u64_text_round_trip(v.version);
        lemma_u64_text_round_trip(v.changeset);
        lemma_bool_round_trip(v.visible);
        if let Some(n) = v.uid {
            lemma_u64_text_round_trip(n);
        }
        if let Some(x) = v.lat {
            lemma_decimal_round_trip(x);
        }
        if let Some(x) = v.lon {
            lemma_decimal_round_trip(x);
        }
        lemma_all_round_trip::<Tag>(v.tags@, e.children@);
    }
}

} // verus!
