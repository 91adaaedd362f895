//! Resourcelinks: named groups of references to other bridge resources.

use vstd::prelude::*;

use crate::json::{jval_get, str_eq, JVal, Json};
use crate::json::{lemma_model_list, lemma_model_pairs};

verus! {

/// Kind of a resourcelink.
#[derive(Clone, Copy, Debug, Eq, PartialEq)]
pub enum Kind {
    /// The only variant.
    Link,
}

/// Kind of a link.
#[allow(missing_docs)]
#[derive(Clone, Copy, Debug, Eq, PartialEq)]
pub enum LinkKind {
    Group,
    Light,
    Resourcelink,
    Rule,
    Scene,
    Schedule,
    Sensor,
}

/// The collection-name prefix that encodes a link kind.
pub open spec fn kind_prefix(k: LinkKind) -> Seq<char> {
    match k {
        LinkKind::Group => "groups"@,
        LinkKind::Light => "lights"@,
        LinkKind::Resourcelink => "resourcelinks"@,
        LinkKind::Rule => "rules"@,
        LinkKind::Scene => "scenes"@,
        LinkKind::Schedule => "schedules"@,
        LinkKind::Sensor => "sensors"@,
    }
}

/// The link kind that a collection-name prefix encodes, if any.
pub open spec fn link_kind_of(s: Seq<char>) -> Option<LinkKind> {
    if s == "groups"@ {
        Some(LinkKind::Group)
    } else if s == "lights"@ {
        Some(LinkKind::Light)
    } else if s == "resourcelinks"@ {
        Some(LinkKind::Resourcelink)
    } else if s == "rules"@ {
        Some(LinkKind::Rule)
    } else if s == "scenes"@ {
        Some(LinkKind::Scene)
    } else if s == "schedules"@ {
        Some(LinkKind::Schedule)
    } else if s == "sensors"@ {
        Some(LinkKind::Sensor)
    } else {
        None
    }
}

impl LinkKind {
    /// The link kind named by a collection-name prefix, if the prefix is
    /// recognized.
    pub fn from_str(value: &str) -> (r: Option<LinkKind>)
        ensures
            r == link_kind_of(value@),
    {
        if str_eq(value, "groups") {
            Some(LinkKind::Group)
        } else if str_eq(value, "lights") {
            Some(LinkKind::Light)
        } else if str_eq(value, "resourcelinks") {
            Some(LinkKind::Resourcelink)
        } else if str_eq(value, "rules") {
            Some(LinkKind::Rule)
        } else if str_eq(value, "scenes") {
            Some(LinkKind::Scene)
        } else if str_eq(value, "schedules") {
            Some(LinkKind::Schedule)
        } else if str_eq(value, "sensors") {
            Some(LinkKind::Sensor)
        } else {
            None
        }
    }

    /// The collection-name prefix of this link kind.
    pub fn to_str(&self) -> (r: &'static str)
        ensures
            r@ == kind_prefix(*self),
    {
        match self {
            LinkKind::Group => "groups",
            LinkKind::Light => "lights",
            LinkKind::Resourcelink => "resourcelinks",
            LinkKind::Rule => "rules",
            LinkKind::Scene => "scenes",
            LinkKind::Schedule => "schedules",
            LinkKind::Sensor => "sensors",
        }
    }
}

/// A reference to a resource.
#[derive(Clone, Debug, Eq, PartialEq)]
pub struct Link {
    /// Kind of the resource.
    pub kind: LinkKind,
    /// Identifier of the resource.
    pub id: String,
}

/// The model of a resource reference.
pub struct LinkView {
    /// Kind of the resource.
    pub kind: LinkKind,
    /// Identifier of the resource.
    pub id: Seq<char>,
}

impl View for Link {
    type V = LinkView;

    open spec fn view(&self) -> LinkView {
        LinkView { kind: self.kind, id: self.id@ }
    }
}

impl LinkView {
    /// The reference string that encodes this link.
    pub open spec fn encoded(self) -> Seq<char> {
        "/"@ + kind_prefix(self.kind) + "/"@ + self.id
    }
}

/// The position of the last occurrence of `c` in `s`, if any.
pub open spec fn rfind(s: Seq<char>, c: char) -> Option<int>
    decreases s.len(),
{
    if s.len() == 0 {
        None
    } else if s.last() == c {
        Some(s.len() - 1)
    } else {
        rfind(s.drop_last(), c)
    }
}

/// `rfind` names the last occurrence.
pub proof fn lemma_rfind_at(s: Seq<char>, c: char, i: int)
    requires
        0 <= i < s.len(),
        s[i] == c,
        forall|m: int| i < m < s.len() ==> s[m] != c,
    ensures
        rfind(s, c) == Some(i),
    decreases s.len(),
{
    if i < s.len() - 1 {
        lemma_rfind_at(s.drop_last(), c, i);
    }
}

/// `rfind` finds nothing where nothing occurs.
pub proof fn lemma_rfind_none(s: Seq<char>, c: char)
    requires
        forall|m: int| 0 <= m < s.len() ==> s[m] != c,
    ensures
        rfind(s, c) is None,
    decreases s.len(),
{
    if s.len() > 0 {
        lemma_rfind_none(s.drop_last(), c);
    }
}

/// The kind segment of a reference string whose last separator stands at `j`:
/// the characters between the previous separator (or the start) and `j`.
pub open spec fn kind_segment(s: Seq<char>, j: int) -> Seq<char> {
    let pre = s.subrange(0, j);
    match rfind(pre, '/') {
        Some(i) => pre.subrange(i + 1, pre.len() as int),
        None => pre,
    }
}

/// The link that a reference string `/<kind>/<id>` describes, if its kind
/// prefix is recognized and it holds a separator at all.
pub open spec fn link_of(s: Seq<char>) -> Option<LinkView> {
    match rfind(s, '/') {
        None => None,
        Some(j) => {
            let id = s.subrange(j + 1, s.len() as int);
            match link_kind_of(kind_segment(s, j)) {
                Some(k) => Some(LinkView { kind: k, id }),
                None => None,
            }
        },
    }
}

/// Finds the last occurrence of `c` in `s`.
fn rfind_char(s: &str, c: char) -> (r: Option<usize>)
    ensures
        match r {
            Some(i) => rfind(s@, c) == Some(i as int) && i < s@.len(),
            None => rfind(s@, c) is None,
        },
{
    let n = s.unicode_len();
    let mut k = n;
    while k > 0
        invariant
            k <= n,
            n == s@.len(),
            forall|m: int| k <= m < n ==> s@[m] != c,
        decreases k,
    {
        k = k - 1;
        if s.get_char(k) == c {
            proof {
                lemma_rfind_at(s@, c, k as int);
            }
            return Some(k);
        }
    }
    proof {
        lemma_rfind_none(s@, c);
    }
    None
}

impl Link {
    /// Decodes a reference string `/<kind>/<id>`. A string without a
    /// separator is malformed; a string whose kind segment is not a known
    /// collection name names that segment in the error.
    pub fn from_str(s: &str) -> (r: Result<Link, crate::Error>)
        ensures
            match link_of(s@) {
                Some(lv) => r is Ok && r->Ok_0@ == lv,
                None => {
                    if rfind(s@, '/') is None {
                        r == Err::<Link, crate::Error>(crate::Error::Decode)
                    } else {
                        &&& r is Err
                        &&& r->Err_0 is UnknownLinkKind
                        &&& r->Err_0->UnknownLinkKind_0@ == kind_segment(
                            s@,
                            rfind(s@, '/')->Some_0,
                        )
                    }
                },
            },
    {
        let n = s.unicode_len();
        let j = match rfind_char(s, '/') {
            Some(j) => j,
            None => {
                return Err(crate::Error::Decode);
            },
        };
        let id = s.substring_char(j + 1, n).to_owned();
        let pre = s.substring_char(0, j);
        let kind_str = match rfind_char(pre, '/') {
            Some(i) => pre.substring_char(i + 1, pre.unicode_len()),
            None => pre,
        };
        match LinkKind::from_str(kind_str) {
            Some(kind) => Ok(Link { kind, id }),
            None => Err(crate::Error::UnknownLinkKind(kind_str.to_owned())),
        }
    }

    /// Encodes this link as its reference string `/<kind>/<id>`.
    pub fn encode(&self) -> (r: String)
        ensures
            r@ == self@.encoded(),
    {
        let mut out = String::new();
        out.append("/");
        out.append(self.kind.to_str());
        out.append("/");
        out.append(self.id.as_str());
        proof {
            assert(out@ =~= self@.encoded());
        }
        out
    }
}

/// A resourcelink to group resources in the bridge.
#[derive(Clone, Debug, Eq, PartialEq)]
pub struct Resourcelink {
    /// Identifier of the resourcelink.
    pub id: String,
    /// Name of the resourcelink.
    pub name: String,
    /// Description of the resourcelink.
    pub description: String,
    /// Owner of the resourcelink.
    pub owner: String,
    /// Kind of the resourcelink.
    pub kind: Kind,
    /// Class identifier of the resourcelink.
    pub class_id: u16,
    /// Whether the resource is automatically deleted when not referenced anymore.
    pub recycle: bool,
    /// References to resources which are used by this resourcelink.
    pub links: Vec<Link>,
}

/// The model of a resourcelink.
pub struct ResourcelinkView {
    /// Identifier of the resourcelink.
    pub id: Seq<char>,
    /// Name of the resourcelink.
    pub name: Seq<char>,
    /// Description of the resourcelink.
    pub description: Seq<char>,
    /// Owner of the resourcelink.
    pub owner: Seq<char>,
    /// Kind of the resourcelink.
    pub kind: Kind,
    /// Class identifier of the resourcelink.
    pub class_id: int,
    /// Whether the resource is automatically deleted when not referenced anymore.
    pub recycle: bool,
    /// References to resources which are used by this resourcelink.
    pub links: Seq<LinkView>,
}

impl View for Resourcelink {
    type V = ResourcelinkView;

    open spec fn view(&self) -> ResourcelinkView {
        ResourcelinkView {
            id: self.id@,
            name: self.name@,
            description: self.description@,
            owner: self.owner@,
            kind: self.kind,
            class_id: self.class_id as int,
            recycle: self.recycle,
            links: Seq::new(self.links@.len(), |i: int| self.links@[i]@),
        }
    }
}

/// The links described by a list of JSON values, if every element is a
/// reference string with a recognized kind prefix.
pub open spec fn links_of(s: Seq<JVal>) -> Option<Seq<LinkView>> {
    if forall|i: int|
        0 <= i < s.len() ==> (#[trigger] s[i]) is Str && link_of(s[i]->Str_0) is Some {
        Some(Seq::new(s.len(), |i: int| link_of(s[i]->Str_0)->Some_0))
    } else {
        None
    }
}

/// The resourcelink described by a JSON value, if it carries every required
/// attribute in the right shape. The identifier is not part of the body; the
/// described value carries an empty one.
pub open spec fn resourcelink_of(v: JVal) -> Option<ResourcelinkView> {
    match (
        jval_get(v, "name"@),
        jval_get(v, "description"@),
        jval_get(v, "owner"@),
        jval_get(v, "type"@),
        jval_get(v, "classid"@),
        jval_get(v, "recycle"@),
        jval_get(v, "links"@),
    ) {
        (
            Some(JVal::Str(name)),
            Some(JVal::Str(description)),
            Some(JVal::Str(owner)),
            Some(JVal::Str(kind)),
            Some(JVal::Int(class_id)),
            Some(JVal::Bool(recycle)),
            Some(JVal::Arr(ls)),
        ) => {
            if kind == "Link"@ && 0 <= class_id <= u16::MAX {
                match links_of(ls) {
                    Some(links) => Some(
                        ResourcelinkView {
                            id: Seq::empty(),
                            name,
                            description,
                            owner,
                            kind: Kind::Link,
                            class_id,
                            recycle,
                            links,
                        },
                    ),
                    None => None,
                }
            } else {
                None
            }
        },
        _ => None,
    }
}

/// Parses an array of reference strings.
fn parse_links(v: &Vec<Json>) -> (r: Result<Vec<Link>, crate::Error>)
    ensures
        match links_of(Json::model_list(v@)) {
            Some(lvs) => {
                &&& r is Ok
                &&& r->Ok_0@.len() == lvs.len()
                &&& forall|i: int| 0 <= i < lvs.len() ==> #[trigger] r->Ok_0@[i]@ == lvs[i]
            },
            None => r == Err::<Vec<Link>, crate::Error>(crate::Error::Decode),
        },
{
    proof {
        lemma_model_list(v@);
    }
    let ghost models = Json::model_list(v@);
    let n = v.len();
    let mut out: Vec<Link> = Vec::new();
    let mut i: usize = 0;
    while i < n
        invariant
            n == v@.len(),
            i <= n,
            models == Json::model_list(v@),
            models.len() == n,
            forall|k: int| 0 <= k < n ==> #[trigger] models[k] == v@[k]@,
            forall|k: int|
                0 <= k < i ==> (#[trigger] models[k]) is Str && link_of(models[k]->Str_0) is Some,
            out@.len() == i,
            forall|k: int| 0 <= k < i ==> #[trigger] out@[k]@ == link_of(models[k]->Str_0)->Some_0,
        decreases n - i,
    {
        match &v[i] {
            Json::Str(s) => {
                match Link::from_str(s.as_str()) {
                    Ok(l) => {
                        out.push(l);
                    },
                    Err(_) => {
                        proof {
                            assert(link_of(models[i as int]->Str_0) is None);
                            assert(links_of(models) is None);
                        }
                        return Err(crate::Error::Decode);
                    },
                }
            },
            _ => {
                proof {
                    assert(!((models[i as int]) is Str));
                    assert(links_of(models) is None);
                }
                return Err(crate::Error::Decode);
            },
        }
        i += 1;
    }
    proof {
        assert(links_of(models) == Some(
            Seq::new(models.len(), |k: int| link_of(models[k]->Str_0)->Some_0),
        ));
        assert(Seq::new(out@.len(), |k: int| out@[k]@) =~= links_of(models)->Some_0);
    }
    Ok(out)
}

impl Resourcelink {
    /// Decodes a resourcelink from its JSON body. The body never carries the
    /// identifier; the decoded value holds an empty one until it is injected.
    pub fn from_json(j: &Json) -> (r: Result<Resourcelink, crate::Error>)
        ensures
            match resourcelink_of(j@) {
                Some(rv) => r is Ok && r->Ok_0@ == rv,
                None => r == Err::<Resourcelink, crate::Error>(crate::Error::Decode),
            },
    {
        let name = match j.get("name") {
            Some(Json::Str(s)) => s.clone(),
            _ => {
                return Err(crate::Error::Decode);
            },
        };
        let description = match j.get("description") {
            Some(Json::Str(s)) => s.clone(),
            _ => {
                return Err(crate::Error::Decode);
            },
        };
        let owner = match j.get("owner") {
            Some(Json::Str(s)) => s.clone(),
            _ => {
                return Err(crate::Error::Decode);
            },
        };
        let kind = match j.get("type") {
            Some(Json::Str(s)) => {
                if str_eq(s.as_str(), "Link") {
                    Kind::Link
                } else {
                    return Err(crate::Error::Decode);
                }
            },
            _ => {
                return Err(crate::Error::Decode);
            },
        };
        let class_id = match j.get("classid") {
            Some(Json::Int(t)) => {
                if 0 <= *t && *t <= 65535 {
                    *t as u16
                } else {
                    return Err(crate::Error::Decode);
                }
            },
            _ => {
                return Err(crate::Error::Decode);
            },
        };
        let recycle = match j.get("recycle") {
            Some(Json::Bool(b)) => *b,
            _ => {
                return Err(crate::Error::Decode);
            },
        };
        let links = match j.get("links") {
            Some(Json::Arr(v)) => match parse_links(v) {
                Ok(ls) => ls,
                Err(e) => {
                    return Err(e);
                },
            },
            _ => {
                return Err(crate::Error::Decode);
            },
        };
        let r = Resourcelink {
            id: String::new(),
            name,
            description,
            owner,
            kind,
            class_id,
            recycle,
            links,
        };
        proof {
            assert(r@.links =~= resourcelink_of(j@)->Some_0.links);
            assert(r@.id =~= Seq::<char>::empty());
        }
        Ok(r)
    }

    /// Injects the bridge-assigned identifier into a decoded resourcelink.
    pub fn with_id(self, id: String) -> (r: Self)
        ensures
            r@ == (ResourcelinkView { id: id@, ..self@ }),
    {
        Resourcelink { id, ..self }
    }
}

/// The wire name of a resourcelink kind.
pub open spec fn kind_name(k: Kind) -> Seq<char> {
    match k {
        Kind::Link => "Link"@,
    }
}

/// The encoded reference strings of a sequence of links.
pub open spec fn links_encoded(ls: Seq<Link>) -> Seq<JVal> {
    Seq::new(ls.len(), |i: int| JVal::Str(ls[i]@.encoded()))
}

/// Encodes a list of links as an array of reference strings.
fn encode_links(ls: &Vec<Link>) -> (r: Json)
    ensures
        r@ == JVal::Arr(links_encoded(ls@)),
{
    let mut out: Vec<Json> = Vec::new();
    let n = ls.len();
    let mut i: usize = 0;
    while i < n
        invariant
            n == ls@.len(),
            i <= n,
            out@.len() == i,
            forall|k: int| 0 <= k < i ==> #[trigger] out@[k]@ == JVal::Str(ls@[k]@.encoded()),
        decreases n - i,
    {
        out.push(Json::Str(ls[i].encode()));
        i += 1;
    }
    proof {
        lemma_model_list(out@);
        assert(Json::model_list(out@) =~= links_encoded(ls@));
    }
    Json::Arr(out)
}

/// Struct for creating a resourcelink.
#[derive(Clone, Debug, Eq, PartialEq)]
pub struct Creator {
    /// Sets the name of the resourcelink.
    pub name: String,
    /// Sets the description of the resourcelink.
    pub description: Option<String>,
    /// Sets the owner of the resourcelink.
    pub owner: Option<String>,
    /// Sets the kind of the resourcelink.
    pub kind: Option<Kind>,
    /// Sets the class id of the resourcelink.
    pub class_id: u16,
    /// Sets whether to recycle the resourcelink.
    pub recycle: Option<bool>,
    /// Sets the links of the resourcelink.
    pub links: Vec<Link>,
}

/// The wire-format pairs of a resourcelink creator: required fields always,
/// optional fields only when set, in declaration order.
pub open spec fn creator_pairs(c: Creator) -> Seq<(Seq<char>, JVal)> {
    seq![("name"@, JVal::Str(c.name@))] + (match c.description {
        Some(d) => seq![("description"@, JVal::Str(d@))],
        None => seq![],
    }) + (match c.owner {
        Some(o) => seq![("owner"@, JVal::Str(o@))],
        None => seq![],
    }) + (match c.kind {
        Some(k) => seq![("type"@, JVal::Str(kind_name(k)))],
        None => seq![],
    }) + seq![("classid"@, JVal::Int(c.class_id as int))] + (match c.recycle {
        Some(b) => seq![("recycle"@, JVal::Bool(b))],
        None => seq![],
    }) + seq![("links"@, JVal::Arr(links_encoded(c.links@)))]
}

impl Creator {
    /// Creates a new [`Creator`].
    pub fn new(name: String, class_id: u16, links: Vec<Link>) -> (r: Self)
        ensures
            r.name == name,
            r.class_id == class_id,
            r.links == links,
            r.description is None,
            r.owner is None,
            r.kind is None,
            r.recycle is None,
    {
        Self { name, description: None, owner: None, kind: None, class_id, recycle: None, links }
    }

    /// Sets the description of the resourcelink.
    pub fn with_description(self, value: String) -> (r: Self)
        ensures
            r == (Creator { description: Some(value), ..self }),
    {
        Creator { description: Some(value), ..self }
    }

    /// Sets the owner of the resourcelink.
    pub fn with_owner(self, value: String) -> (r: Self)
        ensures
            r == (Creator { owner: Some(value), ..self }),
    {
        Creator { owner: Some(value), ..self }
    }

    /// Sets the kind of the resourcelink.
    pub fn with_kind(self, value: Kind) -> (r: Self)
        ensures
            r == (Creator { kind: Some(value), ..self }),
    {
        Creator { kind: Some(value), ..self }
    }

    /// Sets whether to recycle the resourcelink.
    pub fn with_recycle(self, value: bool) -> (r: Self)
        ensures
            r == (Creator { recycle: Some(value), ..self }),
    {
        Creator { recycle: Some(value), ..self }
    }

    /// Serializes this creator into the bridge's flat wire format.
    pub fn to_json(&self) -> (r: Json)
        ensures
            r@ == JVal::Obj(creator_pairs(*self)),
    {
        let mut pairs: Vec<(String, Json)> = Vec::new();
        pairs.push((String::from_str("name"), Json::Str(self.name.clone())));
        if let Some(d) = &self.description {
            pairs.push((String::from_str("description"), Json::Str(d.clone())));
        }
        if let Some(o) = &self.owner {
            pairs.push((String::from_str("owner"), Json::Str(o.clone())));
        }
        if let Some(k) = &self.kind {
            let kn = match k {
                Kind::Link => "Link",
            };
            pairs.push((String::from_str("type"), Json::Str(String::from_str(kn))));
        }
        pairs.push((String::from_str("classid"), Json::Int(self.class_id as i64)));
        if let Some(b) = &self.recycle {
            pairs.push((String::from_str("recycle"), Json::Bool(*b)));
        }
        pairs.push((String::from_str("links"), encode_links(&self.links)));
        proof {
            lemma_model_pairs(pairs@);
            assert(Json::model_pairs(pairs@) =~~= creator_pairs(*self));
        }
        Json::Obj(pairs)
    }
}

/// Modifier for a resourcelink.
#[derive(Clone, Debug, Default, Eq, PartialEq)]
pub struct Modifier {
    /// Sets the name of the resourcelink.
    pub name: Option<String>,
    /// Sets the description of the resourcelink.
    pub description: Option<String>,
    /// Sets the kind of the resourcelink.
    pub kind: Option<Kind>,
    /// Sets the class id of the resourcelink.
    pub class_id: Option<u16>,
    /// Sets the links of the resourcelink.
    pub links: Option<Vec<Link>>,
}

/// The wire-format pairs of a resourcelink modifier: only set fields, in
/// declaration order.
pub open spec fn modifier_pairs(m: Modifier) -> Seq<(Seq<char>, JVal)> {
    (match m.name {
        Some(n) => seq![("name"@, JVal::Str(n@))],
        None => seq![],
    }) + (match m.description {
        Some(d) => seq![("description"@, JVal::Str(d@))],
        None => seq![],
    }) + (match m.kind {
        Some(k) => seq![("kind"@, JVal::Str(kind_name(k)))],
        None => seq![],
    }) + (match m.class_id {
        Some(c) => seq![("classid"@, JVal::Int(c as int))],
        None => seq![],
    }) + (match m.links {
        Some(ls) => seq![("links"@, JVal::Arr(links_encoded(ls@)))],
        None => seq![],
    })
}

impl Modifier {
    /// Creates a new [`Modifier`] with every field unset.
    pub fn new() -> (r: Self)
        ensures
            r.name is None,
            r.description is None,
            r.kind is None,
            r.class_id is None,
            r.links is None,
    {
        Self { name: None, description: None, kind: None, class_id: None, links: None }
    }

    /// Sets the name of the resourcelink.
    pub fn with_name(self, value: String) -> (r: Self)
        ensures
            r == (Modifier { name: Some(value), ..self }),
    {
        Modifier { name: Some(value), ..self }
    }

    /// Sets the description of the resourcelink.
    pub fn with_description(self, value: String) -> (r: Self)
        ensures
            r == (Modifier { description: Some(value), ..self }),
    {
        Modifier { description: Some(value), ..self }
    }

    /// Sets the kind of the resourcelink.
    pub fn with_kind(self, value: Kind) -> (r: Self)
        ensures
            r == (Modifier { kind: Some(value), ..self }),
    {
        Modifier { kind: Some(value), ..self }
    }

    /// Sets the class id of the resourcelink.
    pub fn with_class_id(self, value: u16) -> (r: Self)
        ensures
            r == (Modifier { class_id: Some(value), ..self }),
    {
        Modifier { class_id: Some(value), ..self }
    }

    /// Sets the links of the resourcelink.
    pub fn with_links(self, value: Vec<Link>) -> (r: Self)
        ensures
            r == (Modifier { links: Some(value), ..self }),
    {
        Modifier { links: Some(value), ..self }
    }

    /// Serializes this modifier into the bridge's flat wire format: only set
    /// fields are emitted.
    pub fn to_json(&self) -> (r: Json)
        ensures
            r@ == JVal::Obj(modifier_pairs(*self)),
    {
        let mut pairs: Vec<(String, Json)> = Vec::new();
        if let Some(n) = &self.name {
            pairs.push((String::from_str("name"), Json::Str(n.clone())));
        }
        if let Some(d) = &self.description {
            pairs.push((String::from_str("description"), Json::Str(d.clone())));
        }
        if let Some(k) = &self.kind {
            let kn = match k {
                Kind::Link => "Link",
            };
            pairs.push((String::from_str("kind"), Json::Str(String::from_str(kn))));
        }
        if let Some(c) = &self.class_id {
            pairs.push((String::from_str("classid"), Json::Int(*c as i64)));
        }
        if let Some(ls) = &self.links {
            pairs.push((String::from_str("links"), encode_links(ls)));
        }
        proof {
            lemma_model_pairs(pairs@);
            assert(Json::model_pairs(pairs@) =~~= modifier_pairs(*self));
        }
        Json::Obj(pairs)
    }
}


/// A resourcelink modifier with every field unset serializes to an empty
/// object.
pub proof fn lemma_modifier_unset_empty(m: Modifier)
    requires
        m.name is None,
        m.description is None,
        m.kind is None,
        m.class_id is None,
        m.links is None,
    ensures
        modifier_pairs(m) == Seq::<(Seq<char>, JVal)>::empty(),
{
    assert(modifier_pairs(m) =~= Seq::<(Seq<char>, JVal)>::empty());
}

} // verus!
