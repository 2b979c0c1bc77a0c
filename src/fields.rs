//! Reading one member of a parameter object, with its default and its error.
use vstd::prelude::*;
use crate::error::{RpcError, RpcErrorModel, INVALID_PARAMS};
use crate::json::{Json, JsonModel, is_digits, digits_value, parse_digits, items_model, lemma_items_model};

verus! {

/// What is wrong with a member.
#[derive(Clone, Copy, Debug, PartialEq, Eq, Structural)]
pub enum Fault {
    Missing,
    Mistyped,
}

pub open spec fn fault_message(key: Seq<char>, f: Fault) -> Seq<char> {
    match f {
        Fault::Missing => "missing field `"@ + key + "`"@,
        Fault::Mistyped => "invalid type for field `"@ + key + "`"@,
    }
}

/// The error reported for a faulty member: it names the member.
pub open spec fn field_error(key: Seq<char>, f: Fault) -> RpcErrorModel {
    RpcErrorModel { code: INVALID_PARAMS as int, message: fault_message(key, f), data: None }
}

pub open spec fn fault_of<T>(r: Result<T, Fault>) -> Option<Fault> {
    match r {
        Ok(_) => None,
        Err(f) => Some(f),
    }
}

/// The first member, in the given order, that has a fault.
pub open spec fn first_fault(checks: Seq<(Seq<char>, Option<Fault>)>) -> Option<(Seq<char>, Fault)>
    decreases checks.len(),
{
    if checks.len() == 0 {
        None
    } else {
        match checks[0].1 {
            Some(f) => Some((checks[0].0, f)),
            None => first_fault(checks.drop_first()),
        }
    }
}

pub proof fn lemma_first_fault_at(checks: Seq<(Seq<char>, Option<Fault>)>, j: int)
    requires
        0 <= j < checks.len(),
        forall|k: int| 0 <= k < j ==> (#[trigger] checks[k]).1 is None,
        checks[j].1 is Some,
    ensures
        first_fault(checks) == Some((checks[j].0, checks[j].1->Some_0)),
    decreases j,
{
    if j > 0 {
        let rest = checks.drop_first();
        assert forall|k: int| 0 <= k < j - 1 implies (#[trigger] rest[k]).1 is None by {
            assert(rest[k] == checks[k + 1]);
        }
        lemma_first_fault_at(rest, j - 1);
    }
}

pub proof fn lemma_no_fault(checks: Seq<(Seq<char>, Option<Fault>)>)
    requires
        forall|k: int| 0 <= k < checks.len() ==> (#[trigger] checks[k]).1 is None,
    ensures
        first_fault(checks) is None,
    decreases checks.len(),
{
    if checks.len() > 0 {
        let rest = checks.drop_first();
        assert forall|k: int| 0 <= k < rest.len() implies (#[trigger] rest[k]).1 is None by {
            assert(rest[k] == checks[k + 1]);
        }
        lemma_no_fault(rest);
    }
}

/// A required string member.
pub open spec fn text_field(p: JsonModel, key: Seq<char>) -> Result<Seq<char>, Fault> {
    match p.member(key) {
        None => Err(Fault::Missing),
        Some(JsonModel::Str(s)) => Ok(s),
        Some(_) => Err(Fault::Mistyped),
    }
}

/// A string member that defaults to `default` when absent.
pub open spec fn text_field_or(p: JsonModel, key: Seq<char>, default: Seq<char>) -> Result<Seq<char>, Fault> {
    match p.member(key) {
        None => Ok(default),
        Some(JsonModel::Str(s)) => Ok(s),
        Some(_) => Err(Fault::Mistyped),
    }
}

/// A boolean member that defaults to `default` when absent.
pub open spec fn bool_field(p: JsonModel, key: Seq<char>, default: bool) -> Result<bool, Fault> {
    match p.member(key) {
        None => Ok(default),
        Some(JsonModel::Bool(b)) => Ok(b),
        Some(_) => Err(Fault::Mistyped),
    }
}

/// A non-negative integer member at most `max`, defaulting to `default`.
pub open spec fn count_field(p: JsonModel, key: Seq<char>, default: nat, max: nat) -> Result<nat, Fault> {
    match p.member(key) {
        None => Ok(default),
        Some(JsonModel::Num(t)) => if is_digits(t) && digits_value(t) <= max {
            Ok(digits_value(t))
        } else {
            Err(Fault::Mistyped)
        },
        Some(_) => Err(Fault::Mistyped),
    }
}

pub open spec fn all_text(items: Seq<JsonModel>) -> bool {
    forall|i: int| 0 <= i < items.len() ==> (#[trigger] items[i]) is Str
}

/// A list of strings, empty when absent.
pub open spec fn list_field(p: JsonModel, key: Seq<char>) -> Result<Seq<Seq<char>>, Fault> {
    match p.member(key) {
        None => Ok(Seq::empty()),
        Some(JsonModel::Array(items)) => if all_text(items) {
            Ok(items.map_values(|j: JsonModel| j->Str_0))
        } else {
            Err(Fault::Mistyped)
        },
        Some(_) => Err(Fault::Mistyped),
    }
}

/// An optional string: absent or null is `None`.
pub open spec fn opt_text_field(p: JsonModel, key: Seq<char>) -> Result<Option<Seq<char>>, Fault> {
    match p.member(key) {
        None => Ok(None),
        Some(JsonModel::Null) => Ok(None),
        Some(JsonModel::Str(s)) => Ok(Some(s)),
        Some(_) => Err(Fault::Mistyped),
    }
}

/// An optional boolean: absent or null is `None`.
pub open spec fn opt_bool_field(p: JsonModel, key: Seq<char>) -> Result<Option<bool>, Fault> {
    match p.member(key) {
        None => Ok(None),
        Some(JsonModel::Null) => Ok(None),
        Some(JsonModel::Bool(b)) => Ok(Some(b)),
        Some(_) => Err(Fault::Mistyped),
    }
}

/// An optional number, kept as written: absent or null is `None`.
pub open spec fn opt_number_field(p: JsonModel, key: Seq<char>) -> Result<Option<Seq<char>>, Fault> {
    match p.member(key) {
        None => Ok(None),
        Some(JsonModel::Null) => Ok(None),
        Some(JsonModel::Num(t)) => Ok(Some(t)),
        Some(_) => Err(Fault::Mistyped),
    }
}

/// An optional value of any kind: absent or null is `None`.
pub open spec fn opt_value_field(p: JsonModel, key: Seq<char>) -> Option<JsonModel> {
    match p.member(key) {
        None => None,
        Some(JsonModel::Null) => None,
        Some(v) => Some(v),
    }
}

pub open spec fn texts(v: Seq<String>) -> Seq<Seq<char>> {
    v.map_values(|s: String| s@)
}

/// The error for member `key` with fault `f`.
pub fn fault_error(key: &str, f: Fault) -> (r: RpcError)
    ensures
        r@ == field_error(key@, f),
{
    let mut m = match f {
        Fault::Missing => String::from_str("missing field `"),
        Fault::Mistyped => String::from_str("invalid type for field `"),
    };
    m.append(key);
    m.append("`");
    RpcError::invalid_params(m)
}

pub fn text_param(p: &Json, key: &str) -> (r: Result<String, RpcError>)
    ensures
        r is Ok <==> text_field(p@, key@) is Ok,
        r matches Ok(s) ==> text_field(p@, key@) == Ok::<Seq<char>, Fault>(s@),
        r matches Err(e) ==> text_field(p@, key@) matches Err(f) && e@ == field_error(key@, f),
{
    match p.get(key) {
        None => Err(fault_error(key, Fault::Missing)),
        Some(Json::Str(s)) => Ok(s.clone()),
        Some(_) => Err(fault_error(key, Fault::Mistyped)),
    }
}

pub fn text_param_or(p: &Json, key: &str, default: &str) -> (r: Result<String, RpcError>)
    ensures
        r is Ok <==> text_field_or(p@, key@, default@) is Ok,
        r matches Ok(s) ==> text_field_or(p@, key@, default@) == Ok::<Seq<char>, Fault>(s@),
        r matches Err(e) ==> text_field_or(p@, key@, default@) matches Err(f) && e@ == field_error(key@, f),
{
    match p.get(key) {
        None => Ok(String::from_str(default)),
        Some(Json::Str(s)) => Ok(s.clone()),
        Some(_) => Err(fault_error(key, Fault::Mistyped)),
    }
}

pub fn bool_param(p: &Json, key: &str, default: bool) -> (r: Result<bool, RpcError>)
    ensures
        r is Ok <==> bool_field(p@, key@, default) is Ok,
        r matches Ok(b) ==> bool_field(p@, key@, default) == Ok::<bool, Fault>(b),
        r matches Err(e) ==> bool_field(p@, key@, default) matches Err(f) && e@ == field_error(key@, f),
{
    match p.get(key) {
        None => Ok(default),
        Some(Json::Bool(b)) => Ok(*b),
        Some(_) => Err(fault_error(key, Fault::Mistyped)),
    }
}

pub fn count_param(p: &Json, key: &str, default: u64, max: u64) -> (r: Result<u64, RpcError>)
    requires
        default <= max,
    ensures
        r is Ok <==> count_field(p@, key@, default as nat, max as nat) is Ok,
        r matches Ok(n) ==> count_field(p@, key@, default as nat, max as nat) == Ok::<nat, Fault>(n as nat),
        r matches Err(e) ==> count_field(p@, key@, default as nat, max as nat) matches Err(f) && e@ == field_error(key@, f),
{
    match p.get(key) {
        None => Ok(default),
        Some(Json::Num(t)) => match parse_digits(t.as_str()) {
            Some(n) => if n <= max {
                Ok(n)
            } else {
                Err(fault_error(key, Fault::Mistyped))
            },
            None => Err(fault_error(key, Fault::Mistyped)),
        },
        Some(_) => Err(fault_error(key, Fault::Mistyped)),
    }
}

pub fn list_param(p: &Json, key: &str) -> (r: Result<Vec<String>, RpcError>)
    ensures
        r is Ok <==> list_field(p@, key@) is Ok,
        r matches Ok(v) ==> list_field(p@, key@) == Ok::<Seq<Seq<char>>, Fault>(texts(v@)),
        r matches Err(e) ==> list_field(p@, key@) matches Err(f) && e@ == field_error(key@, f),
{
    match p.get(key) {
        None => {
            let v: Vec<String> = Vec::new();
            assert(texts(v@) =~= Seq::<Seq<char>>::empty());
            Ok(v)
        },
        Some(Json::Array(items)) => {
            proof {
                lemma_items_model(items@);
            }
            let ghost m = items_model(items@);
            let mut out: Vec<String> = Vec::new();
            let mut i: usize = 0;
            while i < items.len()
                invariant
                    m == items_model(items@),
                    p@.member(key@) == Some(JsonModel::Array(m)),
                    m.len() == items@.len(),
                    forall|k: int| 0 <= k < items@.len() ==> #[trigger] m[k] == items@[k]@,
                    i <= items@.len(),
                    out@.len() == i,
                    forall|k: int| 0 <= k < i ==> (#[trigger] m[k]) is Str && m[k]->Str_0 == out@[k]@,
                decreases items@.len() - i,
            {
                match &items[i] {
                    Json::Str(s) => {
                        out.push(s.clone());
                    },
                    _ => {
                        assert(!all_text(m)) by {
                            assert(!(m[i as int] is Str));
                        }
                        return Err(fault_error(key, Fault::Mistyped));
                    },
                }
                i = i + 1;
            }
            assert(texts(out@) =~= m.map_values(|j: JsonModel| j->Str_0));
            Ok(out)
        },
        Some(_) => Err(fault_error(key, Fault::Mistyped)),
    }
}

pub fn opt_text_param(p: &Json, key: &str) -> (r: Result<Option<String>, RpcError>)
    ensures
        r is Ok <==> opt_text_field(p@, key@) is Ok,
        r matches Ok(o) ==> opt_text_field(p@, key@) == Ok::<Option<Seq<char>>, Fault>(match o {
            Some(s) => Some(s@),
            None => None,
        }),
        r matches Err(e) ==> opt_text_field(p@, key@) matches Err(f) && e@ == field_error(key@, f),
{
    match p.get(key) {
        None => Ok(None),
        Some(Json::Null) => Ok(None),
        Some(Json::Str(s)) => Ok(Some(s.clone())),
        Some(_) => Err(fault_error(key, Fault::Mistyped)),
    }
}

pub fn opt_bool_param(p: &Json, key: &str) -> (r: Result<Option<bool>, RpcError>)
    ensures
        r is Ok <==> opt_bool_field(p@, key@) is Ok,
        r matches Ok(o) ==> opt_bool_field(p@, key@) == Ok::<Option<bool>, Fault>(o),
        r matches Err(e) ==> opt_bool_field(p@, key@) matches Err(f) && e@ == field_error(key@, f),
{
    match p.get(key) {
        None => Ok(None),
        Some(Json::Null) => Ok(None),
        Some(Json::Bool(b)) => Ok(Some(*b)),
        Some(_) => Err(fault_error(key, Fault::Mistyped)),
    }
}

pub fn opt_number_param(p: &Json, key: &str) -> (r: Result<Option<String>, RpcError>)
    ensures
        r is Ok <==> opt_number_field(p@, key@) is Ok,
        r matches Ok(o) ==> opt_number_field(p@, key@) == Ok::<Option<Seq<char>>, Fault>(match o {
            Some(s) => Some(s@),
            None => None,
        }),
        r matches Err(e) ==> opt_number_field(p@, key@) matches Err(f) && e@ == field_error(key@, f),
{
    match p.get(key) {
        None => Ok(None),
        Some(Json::Null) => Ok(None),
        Some(Json::Num(t)) => Ok(Some(t.clone())),
        Some(_) => Err(fault_error(key, Fault::Mistyped)),
    }
}

pub fn opt_value_param(p: &Json, key: &str) -> (r: Option<Json>)
    ensures
        opt_value_field(p@, key@) == (match r {
            Some(v) => Some(v@),
            None => None::<JsonModel>,
        }),
{
    match p.get(key) {
        None => None,
        Some(Json::Null) => None,
        Some(v) => Some(v.duplicate()),
    }
}

/// A fault anywhere means some first fault, and the first fault is an entry
/// of the list.
pub proof fn lemma_first_fault_found(checks: Seq<(Seq<char>, Option<Fault>)>)
    ensures
        (exists|j: int| 0 <= j < checks.len() && (#[trigger] checks[j]).1 is Some) ==> first_fault(checks) is Some,
        first_fault(checks) matches Some(kf) ==> exists|j: int|
            0 <= j < checks.len() && #[trigger] checks[j] == (kf.0, Some(kf.1)),
    decreases checks.len(),
{
    if checks.len() > 0 {
        let rest = checks.drop_first();
        lemma_first_fault_found(rest);
        if checks[0].1 is None {
            if exists|j: int| 0 <= j < checks.len() && (#[trigger] checks[j]).1 is Some {
                let j = choose|j: int| 0 <= j < checks.len() && (#[trigger] checks[j]).1 is Some;
                assert(rest[j - 1] == checks[j]);
            }
            if first_fault(rest) is Some {
                let kf = first_fault(rest)->Some_0;
                let j = choose|j: int| 0 <= j < rest.len() && #[trigger] rest[j] == (kf.0, Some(kf.1));
                assert(checks[j + 1] == rest[j]);
            }
        } else {
            assert(checks[0] == (checks[0].0, Some(checks[0].1->Some_0)));
        }
    }
}

} // verus!
