//! Outcome records reported by the bridge, and the response normalizer.
//!
//! A write call may answer with an array of outcome records, one per modified
//! attribute; each record is a single-key object tagged `success` or `error`.
//! Read calls answer with a bare resource object instead. The normalizer
//! interprets both shapes.

use vstd::prelude::*;

use crate::json::{jval_get, str_eq, JVal, Json};
use crate::json::{lemma_model_list, lemma_model_pairs};

verus! {

/// An error record reported by the bridge: a numeric error type, the
/// JSON-pointer-like path of the affected attribute, and a description.
#[derive(Debug, Clone, PartialEq, Eq)]
pub struct Error {
    /// Numeric error type assigned by the bridge.
    pub kind: i64,
    /// Path of the attribute the error refers to.
    pub address: String,
    /// Human-readable description of the error.
    pub description: String,
}

/// The model of an error record.
pub struct ErrorView {
    /// Numeric error type assigned by the bridge.
    pub kind: int,
    /// Path of the attribute the error refers to.
    pub address: Seq<char>,
    /// Human-readable description of the error.
    pub description: Seq<char>,
}

impl View for Error {
    type V = ErrorView;

    open spec fn view(&self) -> ErrorView {
        ErrorView { kind: self.kind as int, address: self.address@, description: self.description@ }
    }
}

/// One outcome record: the success payload, or the reported error.
#[derive(Debug, PartialEq)]
pub enum Response<T> {
    /// The operation succeeded; the payload names what was changed.
    Success(T),
    /// The bridge reported an error for this operation.
    Error(Error),
}

/// The model of an outcome record.
pub enum RespView<V> {
    /// The operation succeeded; the payload names what was changed.
    Success(V),
    /// The bridge reported an error for this operation.
    Error(ErrorView),
}

impl<T: View> View for Response<T> {
    type V = RespView<T::V>;

    open spec fn view(&self) -> RespView<T::V> {
        match self {
            Response::Success(t) => RespView::Success(t@),
            Response::Error(e) => RespView::Error(e@),
        }
    }
}

impl<T> Response<T> {
    /// Turns a record into a result, surfacing a reported error.
    pub fn into_result(self) -> (r: Result<T, Error>)
        ensures
            match self {
                Response::Success(t) => r == Ok::<T, Error>(t),
                Response::Error(e) => r == Err::<T, Error>(e),
            },
    {
        match self {
            Response::Success(t) => Ok(t),
            Response::Error(e) => Err(e),
        }
    }
}

/// The error record described by a JSON value, if it has the right shape:
/// an object carrying a numeric `type`, an `address` and a `description`.
pub open spec fn error_of(v: JVal) -> Option<ErrorView> {
    match (jval_get(v, "type"@), jval_get(v, "address"@), jval_get(v, "description"@)) {
        (Some(JVal::Int(t)), Some(JVal::Str(a)), Some(JVal::Str(d))) => Some(
            ErrorView { kind: t, address: a, description: d },
        ),
        _ => None,
    }
}

/// The outcome record described by a JSON value, if it has the right shape:
/// an object with exactly one key, `success` or `error`.
pub open spec fn record_of(v: JVal) -> Option<RespView<JVal>> {
    match v {
        JVal::Obj(pairs) => {
            if pairs.len() != 1 {
                None
            } else if pairs[0].0 == "success"@ {
                Some(RespView::Success(pairs[0].1))
            } else if pairs[0].0 == "error"@ {
                match error_of(pairs[0].1) {
                    Some(e) => Some(RespView::Error(e)),
                    None => None,
                }
            } else {
                None
            }
        },
        _ => None,
    }
}

/// The outcome records described by a list of JSON values, if every element
/// is shaped as a record.
pub open spec fn records_of_list(s: Seq<JVal>) -> Option<Seq<RespView<JVal>>> {
    if forall|i: int| 0 <= i < s.len() ==> (#[trigger] record_of(s[i])) is Some {
        Some(Seq::new(s.len(), |i: int| record_of(s[i])->Some_0))
    } else {
        None
    }
}

/// The outcome records described by a JSON value, if it is an array of them.
pub open spec fn records_of(v: JVal) -> Option<Seq<RespView<JVal>>> {
    match v {
        JVal::Arr(elems) => records_of_list(elems),
        _ => None,
    }
}

/// The first error record in a record sequence, searching from index `i`.
pub open spec fn first_error_from(s: Seq<RespView<JVal>>, i: int) -> Option<ErrorView>
    decreases s.len() - i,
{
    if i < 0 || i >= s.len() {
        None
    } else {
        match s[i] {
            RespView::Error(e) => Some(e),
            RespView::Success(_) => first_error_from(s, i + 1),
        }
    }
}

/// The first error record in a record sequence, if any.
pub open spec fn first_error(s: Seq<RespView<JVal>>) -> Option<ErrorView> {
    first_error_from(s, 0)
}

/// A search that has passed only success records finds the same first error.
pub proof fn lemma_first_error_skip(s: Seq<RespView<JVal>>, i: int)
    requires
        0 <= i <= s.len(),
        forall|j: int| 0 <= j < i ==> !((#[trigger] s[j]) is Error),
    ensures
        first_error(s) == first_error_from(s, i),
    decreases i,
{
    if i > 0 {
        lemma_first_error_skip(s, i - 1);
    }
}

/// What the normalizer reports for a payload: the error of the last outcome
/// record, where the payload is shaped as a non-empty record array whose last
/// record carries one; nothing otherwise.
pub open spec fn last_error(v: JVal) -> Option<ErrorView> {
    match records_of(v) {
        Some(s) => {
            if s.len() > 0 && s.last() is Error {
                Some(s.last()->Error_0)
            } else {
                None
            }
        },
        None => None,
    }
}

/// A success payload of a write operation: the path of the modified
/// attribute, bound to its new value.
#[derive(Debug, PartialEq)]
pub struct Modified {
    /// Path of the modified attribute.
    pub address: String,
    /// The value the attribute was set to.
    pub value: Json,
}

/// The model of a success payload of a write operation.
pub struct ModifiedView {
    /// Path of the modified attribute.
    pub address: Seq<char>,
    /// The value the attribute was set to.
    pub value: JVal,
}

impl View for Modified {
    type V = ModifiedView;

    open spec fn view(&self) -> ModifiedView {
        ModifiedView { address: self.address@, value: self.value@ }
    }
}

/// The modified-attribute payload described by a JSON value, if it has the
/// right shape: an object with exactly one key.
pub open spec fn modified_of(v: JVal) -> Option<ModifiedView> {
    match v {
        JVal::Obj(pairs) => {
            if pairs.len() == 1 {
                Some(ModifiedView { address: pairs[0].0, value: pairs[0].1 })
            } else {
                None
            }
        },
        _ => None,
    }
}

/// The outcome records of a write operation, if the value is an array of
/// records whose success payloads all name a modified attribute.
pub open spec fn modified_records_of(v: JVal) -> Option<Seq<RespView<ModifiedView>>> {
    match records_of(v) {
        Some(s) => {
            if forall|i: int|
                0 <= i < s.len() ==> ((#[trigger] s[i]) is Success ==> modified_of(
                    s[i]->Success_0,
                ) is Some) {
                Some(
                    Seq::new(
                        s.len(),
                        |i: int|
                            match s[i] {
                                RespView::Success(p) => RespView::Success(modified_of(p)->Some_0),
                                RespView::Error(e) => RespView::Error(e),
                            },
                    ),
                )
            } else {
                None
            }
        },
        None => None,
    }
}

/// Classifies one outcome record: `Ok(None)` for a success record, the error
/// for an error record, and a decode failure when the value is not shaped as
/// a record.
pub fn classify_record(j: &Json) -> (r: Result<Option<Error>, crate::Error>)
    ensures
        match record_of(j@) {
            Some(RespView::Success(_)) => r == Ok::<Option<Error>, crate::Error>(None),
            Some(RespView::Error(e)) => {
                &&& r is Ok
                &&& r->Ok_0 is Some
                &&& r->Ok_0->Some_0@ == e
            },
            None => r == Err::<Option<Error>, crate::Error>(crate::Error::Decode),
        },
{
    match j {
        Json::Obj(pairs) => {
            proof {
                lemma_model_pairs(pairs@);
            }
            if pairs.len() != 1 {
                return Err(crate::Error::Decode);
            }
            if str_eq(pairs[0].0.as_str(), "success") {
                Ok(None)
            } else if str_eq(pairs[0].0.as_str(), "error") {
                let payload = &pairs[0].1;
                let kind = match payload.get("type") {
                    Some(Json::Int(t)) => *t,
                    _ => {
                        return Err(crate::Error::Decode);
                    },
                };
                let address = match payload.get("address") {
                    Some(Json::Str(a)) => a.clone(),
                    _ => {
                        return Err(crate::Error::Decode);
                    },
                };
                let description = match payload.get("description") {
                    Some(Json::Str(d)) => d.clone(),
                    _ => {
                        return Err(crate::Error::Decode);
                    },
                };
                Ok(Some(Error { kind, address, description }))
            } else {
                Err(crate::Error::Decode)
            }
        },
        _ => Err(crate::Error::Decode),
    }
}

/// Normalizes a raw payload as far as pass/fail goes: where the payload is a
/// non-empty array of outcome records, the last record decides; every other
/// shape passes through for the caller to decode.
pub fn normalize(j: &Json) -> (r: Result<(), crate::Error>)
    ensures
        match last_error(j@) {
            Some(e) => {
                &&& r is Err
                &&& r->Err_0 is Response
                &&& r->Err_0->Response_0@ == e
            },
            None => r is Ok,
        },
{
    match j {
        Json::Arr(elems) => {
            proof {
                lemma_model_list(elems@);
            }
            let ghost models = Json::model_list(elems@);
            let n = elems.len();
            let mut last: Option<Error> = None;
            let mut i: usize = 0;
            while i < n
                invariant
                    n == elems@.len(),
                    i <= n,
                    models == Json::model_list(elems@),
                    j@ == JVal::Arr(models),
                    models.len() == n,
                    forall|k: int| 0 <= k < n ==> #[trigger] models[k] == elems@[k]@,
                    forall|k: int| 0 <= k < i ==> (#[trigger] record_of(models[k])) is Some,
                    i > 0 ==> match record_of(models[i - 1]) {
                        Some(RespView::Success(_)) => last is None,
                        Some(RespView::Error(e)) => last is Some && last->Some_0@ == e,
                        None => false,
                    },
                decreases n - i,
            {
                match classify_record(&elems[i]) {
                    Ok(c) => {
                        last = c;
                    },
                    Err(_) => {
                        proof {
                            assert(models[i as int] == elems@[i as int]@);
                            assert(record_of(models[i as int]) is None);
                            assert(records_of_list(models) is None);
                        }
                        return Ok(());
                    },
                }
                i += 1;
            }
            if n == 0 {
                return Ok(());
            }
            match last {
                Some(e) => Err(crate::Error::Response(e)),
                None => Ok(()),
            }
        },
        _ => Ok(()),
    }
}

/// Checks that a payload is an array of outcome records and that none of
/// them reports an error; the first error record, in order, decides failure.
pub fn check_all_records(j: &Json) -> (r: Result<(), crate::Error>)
    ensures
        match records_of(j@) {
            None => r == Err::<(), crate::Error>(crate::Error::Decode),
            Some(s) => match first_error(s) {
                Some(e) => {
                    &&& r is Err
                    &&& r->Err_0 is Response
                    &&& r->Err_0->Response_0@ == e
                },
                None => r is Ok,
            },
        },
{
    match j {
        Json::Arr(elems) => {
            proof {
                lemma_model_list(elems@);
            }
            let ghost models = Json::model_list(elems@);
            let ghost recs = Seq::new(models.len(), |k: int| record_of(models[k])->Some_0);
            let n = elems.len();
            let mut i: usize = 0;
            while i < n
                invariant
                    n == elems@.len(),
                    i <= n,
                    models == Json::model_list(elems@),
                    j@ == JVal::Arr(models),
                    models.len() == n,
                    forall|k: int| 0 <= k < n ==> #[trigger] models[k] == elems@[k]@,
                    forall|k: int| 0 <= k < i ==> (#[trigger] record_of(models[k])) is Some,
                decreases n - i,
            {
                if let Err(e) = classify_record(&elems[i]) {
                    proof {
                        assert(record_of(models[i as int]) is None);
                        assert(records_of_list(models) is None);
                    }
                    return Err(e);
                }
                i += 1;
            }
            proof {
                assert(records_of_list(models) == Some(recs));
            }
            let mut i: usize = 0;
            while i < n
                invariant
                    n == elems@.len(),
                    i <= n,
                    models == Json::model_list(elems@),
                    j@ == JVal::Arr(models),
                    models.len() == n,
                    recs == Seq::new(models.len(), |k: int| record_of(models[k])->Some_0),
                    records_of(j@) == Some(recs),
                    forall|k: int| 0 <= k < n ==> #[trigger] models[k] == elems@[k]@,
                    forall|k: int| 0 <= k < n ==> (#[trigger] record_of(models[k])) is Some,
                    forall|k: int| 0 <= k < i ==> !((#[trigger] recs[k]) is Error),
                decreases n - i,
            {
                match classify_record(&elems[i]) {
                    Ok(Some(e)) => {
                        proof {
                            lemma_first_error_skip(recs, i as int);
                        }
                        return Err(crate::Error::Response(e));
                    },
                    Ok(None) => (),
                    Err(_) => {
                        proof {
                            assert(record_of(models[i as int]) is Some);
                        }
                    },
                }
                i += 1;
            }
            proof {
                lemma_first_error_skip(recs, n as int);
            }
            Ok(())
        },
        _ => Err(crate::Error::Decode),
    }
}

/// Pulls the bridge-assigned identifier out of a creation response: an array
/// of outcome records whose last record's success payload carries an `id`.
pub fn extract_created_id(j: &Json) -> (r: Result<String, crate::Error>)
    ensures
        match records_of(j@) {
            None => r == Err::<String, crate::Error>(crate::Error::Decode),
            Some(s) => {
                if s.len() == 0 {
                    r == Err::<String, crate::Error>(crate::Error::GetCreatedId)
                } else {
                    match s.last() {
                        RespView::Error(e) => {
                            &&& r is Err
                            &&& r->Err_0 is Response
                            &&& r->Err_0->Response_0@ == e
                        },
                        RespView::Success(p) => match jval_get(p, "id"@) {
                            Some(JVal::Str(idv)) => r is Ok && r->Ok_0@ == idv,
                            _ => r == Err::<String, crate::Error>(crate::Error::GetCreatedId),
                        },
                    }
                }
            },
        },
{
    match j {
        Json::Arr(elems) => {
            proof {
                lemma_model_list(elems@);
            }
            let ghost models = Json::model_list(elems@);
            let ghost recs = Seq::new(models.len(), |k: int| record_of(models[k])->Some_0);
            let n = elems.len();
            let mut i: usize = 0;
            while i < n
                invariant
                    n == elems@.len(),
                    i <= n,
                    models == Json::model_list(elems@),
                    j@ == JVal::Arr(models),
                    models.len() == n,
                    forall|k: int| 0 <= k < n ==> #[trigger] models[k] == elems@[k]@,
                    forall|k: int| 0 <= k < i ==> (#[trigger] record_of(models[k])) is Some,
                decreases n - i,
            {
                if let Err(e) = classify_record(&elems[i]) {
                    proof {
                        assert(record_of(models[i as int]) is None);
                        assert(records_of_list(models) is None);
                    }
                    return Err(e);
                }
                i += 1;
            }
            proof {
                assert(records_of_list(models) == Some(recs));
            }
            if n == 0 {
                return Err(crate::Error::GetCreatedId);
            }
            match classify_record(&elems[n - 1]) {
                Ok(Some(e)) => Err(crate::Error::Response(e)),
                Ok(None) => {
                    let payload = match elems[n - 1].get("success") {
                        Some(p) => p,
                        None => {
                            return Err(crate::Error::GetCreatedId);
                        },
                    };
                    match payload.get("id") {
                        Some(Json::Str(s)) => Ok(s.clone()),
                        _ => Err(crate::Error::GetCreatedId),
                    }
                },
                Err(e) => Err(e),
            }
        },
        _ => Err(crate::Error::Decode),
    }
}

/// A record list with one success record whose payload does not name a
/// modified attribute yields no write outcome at all.
proof fn lemma_bad_success_payload(all: Seq<JVal>, i: int)
    requires
        0 <= i < all.len(),
        record_of(all[i]) is Some,
        record_of(all[i])->Some_0 is Success,
        modified_of(record_of(all[i])->Some_0->Success_0) is None,
    ensures
        modified_records_of(JVal::Arr(all)) is None,
{
    if records_of_list(all) is Some {
        let s = records_of_list(all)->Some_0;
        assert(s[i] == record_of(all[i])->Some_0);
        assert(s[i] is Success && modified_of(s[i]->Success_0) is None);
    }
}

/// Parses a write response into its outcome records: an array of records
/// whose success payloads each name the one modified attribute. Per-record
/// errors stay records; only a shape mismatch fails the call.
pub fn parse_modified_records(j: Json) -> (r: Result<Vec<Response<Modified>>, crate::Error>)
    ensures
        match modified_records_of(j@) {
            Some(s) => {
                &&& r is Ok
                &&& r->Ok_0@.len() == s.len()
                &&& forall|i: int| 0 <= i < s.len() ==> #[trigger] r->Ok_0@[i]@ == s[i]
            },
            None => r == Err::<Vec<Response<Modified>>, crate::Error>(crate::Error::Decode),
        },
{
    match j {
        Json::Arr(mut elems) => {
            proof {
                lemma_model_list(elems@);
            }
            let ghost all = Json::model_list(elems@);
            let ghost recs = Seq::new(all.len(), |k: int| record_of(all[k])->Some_0);
            let ghost expected = Seq::new(
                all.len(),
                |k: int|
                    match recs[k] {
                        RespView::Success(p) => RespView::Success(modified_of(p)->Some_0),
                        RespView::Error(e) => RespView::Error(e),
                    },
            );
            let n = elems.len();
            let mut out: Vec<Response<Modified>> = Vec::new();
            let mut i: usize = 0;
            while i < n
                invariant
                    all.len() == n,
                    i <= n,
                    j@ == JVal::Arr(all),
                    elems@.len() == n - i,
                    recs == Seq::new(all.len(), |k: int| record_of(all[k])->Some_0),
                    expected == Seq::new(
                        all.len(),
                        |k: int|
                            match recs[k] {
                                RespView::Success(p) => RespView::Success(modified_of(p)->Some_0),
                                RespView::Error(e) => RespView::Error(e),
                            },
                    ),
                    forall|k: int| 0 <= k < n - i ==> #[trigger] elems@[k]@ == all[i + k],
                    forall|k: int|
                        0 <= k < i ==> (#[trigger] record_of(all[k])) is Some && (record_of(
                            all[k],
                        )->Some_0 is Success ==> modified_of(
                            record_of(all[k])->Some_0->Success_0,
                        ) is Some),
                    out@.len() == i,
                    forall|k: int| 0 <= k < i ==> #[trigger] out@[k]@ == expected[k],
                decreases n - i,
            {
                proof {
                    assert(elems@[0]@ == all[i as int]);
                }
                let e = elems.remove(0);
                match e {
                    Json::Obj(mut pairs) => {
                        proof {
                            lemma_model_pairs(pairs@);
                        }
                        if pairs.len() != 1 {
                            proof {
                                assert(record_of(all[i as int]) is None);
                                assert(records_of_list(all) is None);
                            }
                            return Err(crate::Error::Decode);
                        }
                        let kv = pairs.remove(0);
                        let key = kv.0;
                        let payload = kv.1;
                        if str_eq(key.as_str(), "success") {
                            proof {
                                assert(record_of(all[i as int]) is Some);
                                assert(record_of(all[i as int])->Some_0 == RespView::Success::<
                                    JVal,
                                >(payload@));
                            }
                            match payload {
                                Json::Obj(mut pp) => {
                                    proof {
                                        lemma_model_pairs(pp@);
                                    }
                                    if pp.len() != 1 {
                                        proof {
                                            lemma_bad_success_payload(all, i as int);
                                        }
                                        return Err(crate::Error::Decode);
                                    }
                                    let av = pp.remove(0);
                                    out.push(
                                        Response::Success(Modified { address: av.0, value: av.1 }),
                                    );
                                },
                                _ => {
                                    proof {
                                        lemma_bad_success_payload(all, i as int);
                                    }
                                    return Err(crate::Error::Decode);
                                },
                            }
                        } else if str_eq(key.as_str(), "error") {
                            let kind = match payload.get("type") {
                                Some(Json::Int(t)) => *t,
                                _ => {
                                    proof {
                                        assert(record_of(all[i as int]) is None);
                                        assert(records_of_list(all) is None);
                                    }
                                    return Err(crate::Error::Decode);
                                },
                            };
                            let address = match payload.get("address") {
                                Some(Json::Str(a)) => a.clone(),
                                _ => {
                                    proof {
                                        assert(record_of(all[i as int]) is None);
                                        assert(records_of_list(all) is None);
                                    }
                                    return Err(crate::Error::Decode);
                                },
                            };
                            let description = match payload.get("description") {
                                Some(Json::Str(d)) => d.clone(),
                                _ => {
                                    proof {
                                        assert(record_of(all[i as int]) is None);
                                        assert(records_of_list(all) is None);
                                    }
                                    return Err(crate::Error::Decode);
                                },
                            };
                            out.push(Response::Error(Error { kind, address, description }));
                        } else {
                            proof {
                                assert(record_of(all[i as int]) is None);
                                assert(records_of_list(all) is None);
                            }
                            return Err(crate::Error::Decode);
                        }
                    },
                    _ => {
                        proof {
                            assert(record_of(all[i as int]) is None);
                            assert(records_of_list(all) is None);
                        }
                        return Err(crate::Error::Decode);
                    },
                }
                i += 1;
            }
            proof {
                assert(records_of_list(all) == Some(recs));
                assert(modified_records_of(JVal::Arr(all)) == Some(expected)) by {
                    assert(forall|k: int|
                        0 <= k < recs.len() ==> ((#[trigger] recs[k]) is Success ==> modified_of(
                            recs[k]->Success_0,
                        ) is Some));
                    assert(Seq::new(
                        recs.len(),
                        |k: int|
                            match recs[k] {
                                RespView::Success(p) => RespView::Success(modified_of(p)->Some_0),
                                RespView::Error(e) => RespView::Error(e),
                            },
                    ) =~= expected);
                }
            }
            Ok(out)
        },
        _ => Err(crate::Error::Decode),
    }
}

} // verus!
