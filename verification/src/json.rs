//! A structured JSON value, and its mathematical model.
//!
//! The bridge speaks plain JSON; the library's logic reads and builds values
//! of this type. Numbers are integers: every numeric attribute of the bridge
//! API is integral. An object is an ordered sequence of key/value pairs.

use vstd::prelude::*;

verus! {

/// A JSON value as the library reads and builds it.
#[derive(Debug, PartialEq)]
pub enum Json {
    /// The JSON `null` value.
    Null,
    /// A boolean value.
    Bool(bool),
    /// An integral number.
    Int(i64),
    /// A string value.
    Str(String),
    /// An array of values.
    Arr(Vec<Json>),
    /// An object: key/value pairs in their original order.
    Obj(Vec<(String, Json)>),
}

/// The mathematical model of a JSON value.
#[verifier::ext_equal]
pub enum JVal {
    /// The JSON `null` value.
    Null,
    /// A boolean value.
    Bool(bool),
    /// An integral number.
    Int(int),
    /// A string value.
    Str(Seq<char>),
    /// An array of values.
    Arr(Seq<JVal>),
    /// An object: key/value pairs in their original order.
    Obj(Seq<(Seq<char>, JVal)>),
}

impl Json {
    /// The model of this value.
    pub open spec fn model(self) -> JVal
        decreases self,
    {
        match self {
            Json::Null => JVal::Null,
            Json::Bool(b) => JVal::Bool(b),
            Json::Int(i) => JVal::Int(i as int),
            Json::Str(s) => JVal::Str(s@),
            Json::Arr(v) => JVal::Arr(Json::model_list(v@)),
            Json::Obj(v) => JVal::Obj(Json::model_pairs(v@)),
        }
    }

    /// The models of a sequence of values.
    pub open spec fn model_list(s: Seq<Json>) -> Seq<JVal>
        decreases s,
    {
        if s.len() == 0 {
            Seq::empty()
        } else {
            seq![s[0].model()] + Json::model_list(s.subrange(1, s.len() as int))
        }
    }

    /// The models of a sequence of key/value pairs.
    pub open spec fn model_pairs(s: Seq<(String, Json)>) -> Seq<(Seq<char>, JVal)>
        decreases s,
    {
        if s.len() == 0 {
            Seq::empty()
        } else {
            seq![(s[0].0@, s[0].1.model())] + Json::model_pairs(s.subrange(1, s.len() as int))
        }
    }
}

impl View for Json {
    type V = JVal;

    open spec fn view(&self) -> JVal {
        self.model()
    }
}

impl Json {
    /// Builds a structurally equal copy of this value.
    pub fn deep_clone(&self) -> (r: Json)
        ensures
            r@ == self@,
        decreases *self,
    {
        match self {
            Json::Null => Json::Null,
            Json::Bool(b) => Json::Bool(*b),
            Json::Int(i) => Json::Int(*i),
            Json::Str(s) => Json::Str(s.clone()),
            Json::Arr(v) => {
                proof {
                    lemma_model_list(v@);
                }
                let mut out: Vec<Json> = Vec::new();
                let n = v.len();
                let mut i: usize = 0;
                while i < n
                    invariant
                        n == v@.len(),
                        i <= n,
                        out@.len() == i,
                        decreases_to!(*self => v@),
                        forall|k: int| 0 <= k < i ==> #[trigger] out@[k]@ == v@[k]@,
                    decreases n - i,
                {
                    out.push(v[i].deep_clone());
                    i += 1;
                }
                proof {
                    lemma_model_list(out@);
                    assert(Json::model_list(out@) =~= Json::model_list(v@));
                }
                Json::Arr(out)
            },
            Json::Obj(v) => {
                proof {
                    lemma_model_pairs(v@);
                }
                let mut out: Vec<(String, Json)> = Vec::new();
                let n = v.len();
                let mut i: usize = 0;
                while i < n
                    invariant
                        n == v@.len(),
                        i <= n,
                        out@.len() == i,
                        decreases_to!(*self => v@),
                        forall|k: int|
                            0 <= k < i ==> #[trigger] out@[k].0@ == v@[k].0@ && out@[k].1@
                                == v@[k].1@,
                    decreases n - i,
                {
                    out.push((v[i].0.clone(), v[i].1.deep_clone()));
                    i += 1;
                }
                proof {
                    lemma_model_pairs(out@);
                    assert(Json::model_pairs(out@) =~= Json::model_pairs(v@));
                }
                Json::Obj(out)
            },
        }
    }
}

/// The model of a list is the pointwise model of its elements.
pub proof fn lemma_model_list(s: Seq<Json>)
    ensures
        Json::model_list(s).len() == s.len(),
        forall|i: int| 0 <= i < s.len() ==> #[trigger] Json::model_list(s)[i] == s[i]@,
    decreases s.len(),
{
    if s.len() > 0 {
        lemma_model_list(s.subrange(1, s.len() as int));
    }
}

/// The model of a pair list is the pointwise model of its pairs.
pub proof fn lemma_model_pairs(s: Seq<(String, Json)>)
    ensures
        Json::model_pairs(s).len() == s.len(),
        forall|i: int|
            0 <= i < s.len() ==> #[trigger] Json::model_pairs(s)[i] == (s[i].0@, s[i].1@),
    decreases s.len(),
{
    if s.len() > 0 {
        lemma_model_pairs(s.subrange(1, s.len() as int));
    }
}

/// Compares two string slices character by character.
pub fn str_eq(a: &str, b: &str) -> (r: bool)
    ensures
        r == (a@ == b@),
{
    let alen = a.unicode_len();
    let blen = b.unicode_len();
    if alen != blen {
        proof {
            if a@ == b@ {
                assert(a@.len() == b@.len());
            }
        }
        return false;
    }
    let mut i: usize = 0;
    while i < alen
        invariant
            i <= alen,
            alen == a@.len(),
            alen == b@.len(),
            forall|j: int| 0 <= j < i ==> a@[j] == b@[j],
        decreases alen - i,
    {
        if a.get_char(i) != b.get_char(i) {
            return false;
        }
        i += 1;
    }
    proof {
        assert(a@ =~= b@);
    }
    true
}

/// The first value bound to `key` in an object's pairs, if any.
pub open spec fn pairs_get(pairs: Seq<(Seq<char>, JVal)>, key: Seq<char>) -> Option<JVal>
    decreases pairs.len(),
{
    if pairs.len() == 0 {
        None
    } else if pairs[0].0 == key {
        Some(pairs[0].1)
    } else {
        pairs_get(pairs.subrange(1, pairs.len() as int), key)
    }
}

/// Looking a key up finds the first pair that carries it.
pub proof fn lemma_pairs_get_at(pairs: Seq<(Seq<char>, JVal)>, key: Seq<char>, i: int)
    requires
        0 <= i < pairs.len(),
        pairs[i].0 == key,
        forall|j: int| 0 <= j < i ==> #[trigger] pairs[j].0 != key,
    ensures
        pairs_get(pairs, key) == Some(pairs[i].1),
    decreases i,
{
    if i > 0 {
        let rest = pairs.subrange(1, pairs.len() as int);
        lemma_pairs_get_at(rest, key, i - 1);
    }
}

/// Looking a key up that no pair carries finds nothing.
pub proof fn lemma_pairs_get_none(pairs: Seq<(Seq<char>, JVal)>, key: Seq<char>)
    requires
        forall|j: int| 0 <= j < pairs.len() ==> #[trigger] pairs[j].0 != key,
    ensures
        pairs_get(pairs, key) is None,
    decreases pairs.len(),
{
    if pairs.len() > 0 {
        lemma_pairs_get_none(pairs.subrange(1, pairs.len() as int), key);
    }
}

/// The value bound to `key` in an object, if the value is an object at all.
pub open spec fn jval_get(v: JVal, key: Seq<char>) -> Option<JVal> {
    match v {
        JVal::Obj(pairs) => pairs_get(pairs, key),
        _ => None,
    }
}

impl Json {
    /// Looks a key up in an object; `None` when this value is not an object
    /// or the key is absent.
    pub fn get<'a>(&'a self, key: &str) -> (r: Option<&'a Json>)
        ensures
            match r {
                Some(inner) => jval_get(self@, key@) == Some(inner@),
                None => jval_get(self@, key@) is None,
            },
    {
        match self {
            Json::Obj(pairs) => {
                proof {
                    lemma_model_pairs(pairs@);
                }
                let ghost mp = Json::model_pairs(pairs@);
                let n = pairs.len();
                let mut i: usize = 0;
                while i < n
                    invariant
                        n == pairs@.len(),
                        i <= n,
                        mp == Json::model_pairs(pairs@),
                        mp.len() == n,
                        forall|j: int| 0 <= j < n ==> #[trigger] mp[j] == (pairs@[j].0@, pairs@[j].1@),
                        forall|j: int| 0 <= j < i ==> #[trigger] mp[j].0 != key@,
                        self@ == JVal::Obj(mp),
                    decreases n - i,
                {
                    if str_eq(pairs[i].0.as_str(), key) {
                        proof {
                            lemma_pairs_get_at(mp, key@, i as int);
                        }
                        return Some(&pairs[i].1);
                    }
                    i += 1;
                }
                proof {
                    lemma_pairs_get_none(mp, key@);
                }
                None
            },
            _ => None,
        }
    }
}

/// A required string attribute: present with the right type, or nothing.
pub open spec fn req_str_of(v: JVal, key: Seq<char>) -> Option<Seq<char>> {
    match jval_get(v, key) {
        Some(JVal::Str(s)) => Some(s),
        _ => None,
    }
}

/// A required boolean attribute: present with the right type, or nothing.
pub open spec fn req_bool_of(v: JVal, key: Seq<char>) -> Option<bool> {
    match jval_get(v, key) {
        Some(JVal::Bool(b)) => Some(b),
        _ => None,
    }
}

/// An optional string attribute: absent and `null` both mean unset; a value
/// of the wrong type is a mismatch (the outer `None`).
pub open spec fn opt_str_of(v: JVal, key: Seq<char>) -> Option<Option<Seq<char>>> {
    match jval_get(v, key) {
        None => Some(None),
        Some(JVal::Null) => Some(None),
        Some(JVal::Str(s)) => Some(Some(s)),
        Some(_) => None,
    }
}

/// An optional boolean attribute: absent and `null` both mean unset; a value
/// of the wrong type is a mismatch (the outer `None`).
pub open spec fn opt_bool_of(v: JVal, key: Seq<char>) -> Option<Option<bool>> {
    match jval_get(v, key) {
        None => Some(None),
        Some(JVal::Null) => Some(None),
        Some(JVal::Bool(b)) => Some(Some(b)),
        Some(_) => None,
    }
}

/// An optional integral attribute within a range: absent and `null` both mean
/// unset; a value of the wrong type or out of range is a mismatch.
pub open spec fn opt_int_of(v: JVal, key: Seq<char>, lo: int, hi: int) -> Option<Option<int>> {
    match jval_get(v, key) {
        None => Some(None),
        Some(JVal::Null) => Some(None),
        Some(JVal::Int(t)) => if lo <= t <= hi {
            Some(Some(t))
        } else {
            None
        },
        Some(_) => None,
    }
}

/// Reads a required string attribute.
pub fn get_req_str(j: &Json, key: &str) -> (r: Result<String, crate::Error>)
    ensures
        match req_str_of(j@, key@) {
            Some(s) => r is Ok && r->Ok_0@ == s,
            None => r == Err::<String, crate::Error>(crate::Error::Decode),
        },
{
    match j.get(key) {
        Some(Json::Str(s)) => Ok(s.clone()),
        _ => Err(crate::Error::Decode),
    }
}

/// Reads a required boolean attribute.
pub fn get_req_bool(j: &Json, key: &str) -> (r: Result<bool, crate::Error>)
    ensures
        match req_bool_of(j@, key@) {
            Some(b) => r == Ok::<bool, crate::Error>(b),
            None => r == Err::<bool, crate::Error>(crate::Error::Decode),
        },
{
    match j.get(key) {
        Some(Json::Bool(b)) => Ok(*b),
        _ => Err(crate::Error::Decode),
    }
}

/// Reads an optional string attribute.
pub fn get_opt_str(j: &Json, key: &str) -> (r: Result<Option<String>, crate::Error>)
    ensures
        match opt_str_of(j@, key@) {
            Some(Some(s)) => r is Ok && r->Ok_0 is Some && r->Ok_0->Some_0@ == s,
            Some(None) => r == Ok::<Option<String>, crate::Error>(None),
            None => r == Err::<Option<String>, crate::Error>(crate::Error::Decode),
        },
{
    match j.get(key) {
        None => Ok(None),
        Some(Json::Null) => Ok(None),
        Some(Json::Str(s)) => Ok(Some(s.clone())),
        Some(_) => Err(crate::Error::Decode),
    }
}

/// Reads an optional boolean attribute.
pub fn get_opt_bool(j: &Json, key: &str) -> (r: Result<Option<bool>, crate::Error>)
    ensures
        match opt_bool_of(j@, key@) {
            Some(ob) => r == Ok::<Option<bool>, crate::Error>(ob),
            None => r == Err::<Option<bool>, crate::Error>(crate::Error::Decode),
        },
{
    match j.get(key) {
        None => Ok(None),
        Some(Json::Null) => Ok(None),
        Some(Json::Bool(b)) => Ok(Some(*b)),
        Some(_) => Err(crate::Error::Decode),
    }
}

/// Reads an optional integral attribute within an inclusive range.
pub fn get_opt_i64_in(j: &Json, key: &str, lo: i64, hi: i64) -> (r: Result<
    Option<i64>,
    crate::Error,
>)
    ensures
        match opt_int_of(j@, key@, lo as int, hi as int) {
            Some(Some(t)) => r is Ok && r->Ok_0 is Some && r->Ok_0->Some_0 == t,
            Some(None) => r == Ok::<Option<i64>, crate::Error>(None),
            None => r == Err::<Option<i64>, crate::Error>(crate::Error::Decode),
        },
{
    match j.get(key) {
        None => Ok(None),
        Some(Json::Null) => Ok(None),
        Some(Json::Int(t)) => {
            if lo <= *t && *t <= hi {
                Ok(Some(*t))
            } else {
                Err(crate::Error::Decode)
            }
        },
        Some(_) => Err(crate::Error::Decode),
    }
}

/// Reads an optional non-negative attribute that must fit the machine's
/// index type.
pub fn get_opt_usize(j: &Json, key: &str) -> (r: Result<Option<usize>, crate::Error>)
    ensures
        match opt_int_of(j@, key@, 0, usize::MAX as int) {
            Some(Some(t)) => r is Ok && r->Ok_0 is Some && r->Ok_0->Some_0 == t,
            Some(None) => r == Ok::<Option<usize>, crate::Error>(None),
            None => r == Err::<Option<usize>, crate::Error>(crate::Error::Decode),
        },
{
    match j.get(key) {
        None => Ok(None),
        Some(Json::Null) => Ok(None),
        Some(Json::Int(t)) => {
            if *t >= 0 && (*t as u64) <= (usize::MAX as u64) {
                Ok(Some(*t as usize))
            } else {
                Err(crate::Error::Decode)
            }
        },
        Some(_) => Err(crate::Error::Decode),
    }
}


/// The wire-format pairs of one optional string field.
pub open spec fn opt_str_pair(key: Seq<char>, v: Option<Seq<char>>) -> Seq<(Seq<char>, JVal)> {
    match v {
        Some(s) => seq![(key, JVal::Str(s))],
        None => seq![],
    }
}

/// The wire-format pairs of one optional boolean field.
pub open spec fn opt_bool_pair(key: Seq<char>, v: Option<bool>) -> Seq<(Seq<char>, JVal)> {
    match v {
        Some(b) => seq![(key, JVal::Bool(b))],
        None => seq![],
    }
}

/// The wire-format pairs of one optional 8-bit field.
pub open spec fn opt_u8_pair(key: Seq<char>, v: Option<u8>) -> Seq<(Seq<char>, JVal)> {
    match v {
        Some(t) => seq![(key, JVal::Int(t as int))],
        None => seq![],
    }
}

/// The wire-format pairs of one optional 16-bit field.
pub open spec fn opt_u16_pair(key: Seq<char>, v: Option<u16>) -> Seq<(Seq<char>, JVal)> {
    match v {
        Some(t) => seq![(key, JVal::Int(t as int))],
        None => seq![],
    }
}

/// Appends one wire-format pair.
pub(crate) fn push_pair(pairs: &mut Vec<(String, Json)>, key: &str, value: Json)
    ensures
        Json::model_pairs(final (pairs)@) == Json::model_pairs(old(pairs)@) + seq![(key@, value@)],
{
    let ghost oldpairs = pairs@;
    pairs.push((String::from_str(key), value));
    proof {
        lemma_model_pairs(oldpairs);
        lemma_model_pairs(pairs@);
        assert(Json::model_pairs(pairs@) =~= Json::model_pairs(oldpairs) + seq![(key@, value@)]);
    }
}

/// Appends the wire-format pairs of one optional boolean field.
pub(crate) fn push_bool_field(pairs: &mut Vec<(String, Json)>, key: &str, v: &Option<bool>)
    ensures
        Json::model_pairs(final (pairs)@) == Json::model_pairs(old(pairs)@) + opt_bool_pair(
            key@,
            *v,
        ),
{
    if let Some(b) = v {
        push_pair(pairs, key, Json::Bool(*b));
    } else {
        proof {
            assert(Json::model_pairs(pairs@) + opt_bool_pair(key@, *v) =~= Json::model_pairs(
                pairs@,
            ));
        }
    }
}

/// Appends the wire-format pairs of one optional 8-bit field.
pub(crate) fn push_u8_field(pairs: &mut Vec<(String, Json)>, key: &str, v: &Option<u8>)
    ensures
        Json::model_pairs(final (pairs)@) == Json::model_pairs(old(pairs)@) + opt_u8_pair(key@, *v),
{
    if let Some(t) = v {
        push_pair(pairs, key, Json::Int(*t as i64));
    } else {
        proof {
            assert(Json::model_pairs(pairs@) + opt_u8_pair(key@, *v) =~= Json::model_pairs(pairs@));
        }
    }
}

/// Appends the wire-format pairs of one optional 16-bit field.
pub(crate) fn push_u16_field(pairs: &mut Vec<(String, Json)>, key: &str, v: &Option<u16>)
    ensures
        Json::model_pairs(final (pairs)@) == Json::model_pairs(old(pairs)@) + opt_u16_pair(
            key@,
            *v,
        ),
{
    if let Some(t) = v {
        push_pair(pairs, key, Json::Int(*t as i64));
    } else {
        proof {
            assert(Json::model_pairs(pairs@) + opt_u16_pair(key@, *v) =~= Json::model_pairs(
                pairs@,
            ));
        }
    }
}

/// Appends the wire-format pairs of one optional string field.
pub(crate) fn push_str_field(pairs: &mut Vec<(String, Json)>, key: &str, v: &Option<String>)
    ensures
        Json::model_pairs(final (pairs)@) == Json::model_pairs(old(pairs)@) + opt_str_pair(
            key@,
            match *v {
                Some(s) => Some(s@),
                None => None,
            },
        ),
{
    if let Some(s) = v {
        push_pair(pairs, key, Json::Str(s.clone()));
    } else {
        proof {
            assert(Json::model_pairs(pairs@) + Seq::<(Seq<char>, JVal)>::empty()
                =~= Json::model_pairs(pairs@));
        }
    }
}

} // verus!
