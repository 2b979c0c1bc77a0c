//! The caller-facing JSON-RPC framing: one request per line, one response per
//! request.
use vstd::prelude::*;
use crate::error::{RpcError, RpcErrorModel, error_object, PARSE_ERROR, METHOD_NOT_FOUND};
use crate::json::{Json, JsonModel, lookup, push_field, fields_model, same_text, signed_decimal};

verus! {

/// The stages of the pipeline, in the order in which they normally run.
#[derive(Clone, Copy, Debug, PartialEq, Eq, Structural)]
pub enum Stage {
    Init,
    Crawl,
    Analyze,
    Scaffold,
    Generate,
    Diff,
    Audit,
    Apply,
    Assets,
    Pack,
}

/// The method name under which a stage is called.
pub open spec fn stage_name(s: Stage) -> Seq<char> {
    match s {
        Stage::Init => "init"@,
        Stage::Crawl => "crawl"@,
        Stage::Analyze => "analyze"@,
        Stage::Scaffold => "scaffold"@,
        Stage::Generate => "generate"@,
        Stage::Diff => "diff"@,
        Stage::Audit => "audit"@,
        Stage::Apply => "apply"@,
        Stage::Assets => "assets"@,
        Stage::Pack => "pack"@,
    }
}

/// The stage whose name is exactly `method`.
pub open spec fn stage_named(method: Seq<char>) -> Option<Stage> {
    if method == "init"@ {
        Some(Stage::Init)
    } else if method == "crawl"@ {
        Some(Stage::Crawl)
    } else if method == "analyze"@ {
        Some(Stage::Analyze)
    } else if method == "scaffold"@ {
        Some(Stage::Scaffold)
    } else if method == "generate"@ {
        Some(Stage::Generate)
    } else if method == "diff"@ {
        Some(Stage::Diff)
    } else if method == "audit"@ {
        Some(Stage::Audit)
    } else if method == "apply"@ {
        Some(Stage::Apply)
    } else if method == "assets"@ {
        Some(Stage::Assets)
    } else if method == "pack"@ {
        Some(Stage::Pack)
    } else {
        None
    }
}

/// Looks a method up in the stage table, by exact match.
pub fn stage_for(method: &str) -> (r: Option<Stage>)
    ensures
        r == stage_named(method@),
{
    if same_text(method, "init") {
        Some(Stage::Init)
    } else if same_text(method, "crawl") {
        Some(Stage::Crawl)
    } else if same_text(method, "analyze") {
        Some(Stage::Analyze)
    } else if same_text(method, "scaffold") {
        Some(Stage::Scaffold)
    } else if same_text(method, "generate") {
        Some(Stage::Generate)
    } else if same_text(method, "diff") {
        Some(Stage::Diff)
    } else if same_text(method, "audit") {
        Some(Stage::Audit)
    } else if same_text(method, "apply") {
        Some(Stage::Apply)
    } else if same_text(method, "assets") {
        Some(Stage::Assets)
    } else if same_text(method, "pack") {
        Some(Stage::Pack)
    } else {
        None
    }
}

/// The error for a method outside the stage table.
pub fn method_not_found() -> (r: RpcError)
    ensures
        r@ == (RpcErrorModel { code: METHOD_NOT_FOUND as int, message: "method not found"@, data: None }),
{
    RpcError::new(METHOD_NOT_FOUND, String::from_str("method not found"), None)
}

/// Characters that `char::is_whitespace` accepts (Unicode White_Space).
pub open spec fn is_space(c: char) -> bool {
    ||| '\u{9}' <= c <= '\u{d}'
    ||| c == ' '
    ||| c == '\u{85}'
    ||| c == '\u{a0}'
    ||| c == '\u{1680}'
    ||| '\u{2000}' <= c <= '\u{200a}'
    ||| c == '\u{2028}'
    ||| c == '\u{2029}'
    ||| c == '\u{202f}'
    ||| c == '\u{205f}'
    ||| c == '\u{3000}'
}

fn space_char(c: char) -> (r: bool)
    ensures
        r == is_space(c),
{
    ('\u{9}' <= c && c <= '\u{d}') || c == ' ' || c == '\u{85}' || c == '\u{a0}' || c == '\u{1680}'
        || ('\u{2000}' <= c && c <= '\u{200a}') || c == '\u{2028}' || c == '\u{2029}' || c
        == '\u{202f}' || c == '\u{205f}' || c == '\u{3000}'
}

/// Whether an input line holds nothing but white space; such lines are skipped.
pub fn is_blank(line: &str) -> (r: bool)
    ensures
        r == (forall|i: int| 0 <= i < line@.len() ==> is_space(#[trigger] line@[i])),
{
    let n = line.unicode_len();
    let mut i: usize = 0;
    while i < n
        invariant
            n == line@.len(),
            i <= n,
            forall|k: int| 0 <= k < i ==> is_space(#[trigger] line@[k]),
        decreases n - i,
    {
        if !space_char(line.get_char(i)) {
            return false;
        }
        i = i + 1;
    }
    true
}

/// A decoded request line: `{method, params?, id?}`.
#[derive(Debug)]
pub struct Request {
    pub method: String,
    pub params: Json,
    pub id: Option<Json>,
}

pub open spec fn opt_model(o: Option<Json>) -> Option<JsonModel> {
    match o {
        Some(j) => Some(j@),
        None => None,
    }
}

pub open spec fn outcome_model(o: Result<Json, RpcError>) -> Result<JsonModel, RpcErrorModel> {
    match o {
        Ok(v) => Ok(v@),
        Err(e) => Err(e@),
    }
}

/// The member `key`, or `null` when it is absent.
pub open spec fn member_or_null(doc: JsonModel, key: Seq<char>) -> JsonModel {
    match doc.member(key) {
        Some(v) => v,
        None => JsonModel::Null,
    }
}

/// The error for a line that is not a request: its response id is null.
pub fn parse_failure(detail: &str) -> (r: RpcError)
    ensures
        r@ == (RpcErrorModel { code: PARSE_ERROR as int, message: "parse error: "@ + detail@, data: None }),
{
    let mut m = String::from_str("parse error: ");
    m.append(detail);
    RpcError::new(PARSE_ERROR, m, None)
}

/// What is wrong with a document that is not a request.
pub open spec fn request_fault(doc: JsonModel) -> Seq<char> {
    match doc.member("method"@) {
        None => "missing member `method`"@,
        Some(_) => "member `method` is not a string"@,
    }
}

/// The error for a line that is not a request, given why.
pub open spec fn parse_error_model(detail: Seq<char>) -> RpcErrorModel {
    RpcErrorModel { code: PARSE_ERROR as int, message: "parse error: "@ + detail, data: None }
}

/// Reads a request out of a parsed JSON document. Anything other than an
/// object whose `method` is a string is a parse error. A protocol-version
/// member is ignored.
pub fn decode_request(doc: &Json) -> (r: Result<Request, RpcError>)
    ensures
        r is Ok <==> doc@.member("method"@) matches Some(JsonModel::Str(_)),
        r matches Ok(q) ==> {
            &&& doc@.member("method"@) == Some(JsonModel::Str(q.method@))
            &&& q.params@ == member_or_null(doc@, "params"@)
            &&& opt_model(q.id) == doc@.member("id"@)
        },
        r matches Err(e) ==> e@ == parse_error_model(request_fault(doc@)),
{
    let method = match doc.get("method") {
        Some(m) => match m.as_text() {
            Some(s) => s.clone(),
            None => {
                return Err(parse_failure("member `method` is not a string"));
            },
        },
        None => {
            return Err(parse_failure("missing member `method`"));
        },
    };
    let params = match doc.get("params") {
        Some(p) => p.duplicate(),
        None => Json::Null,
    };
    let id = match doc.get("id") {
        Some(i) => Some(i.duplicate()),
        None => None,
    };
    Ok(Request { method, params, id })
}

/// Turns the outcome of parsing one line as JSON into a request.
pub fn read_request(parsed: Result<Json, String>) -> (r: Result<Request, RpcError>)
    ensures
        parsed matches Err(d) ==> r is Err && r->Err_0@ == parse_error_model(d@),
        parsed matches Ok(doc) ==> (r is Err ==> r->Err_0@ == parse_error_model(request_fault(doc@))),
        parsed matches Ok(doc) ==> (r is Ok <==> doc@.member("method"@) matches Some(JsonModel::Str(_))),
        parsed matches Ok(doc) ==> (r matches Ok(q) ==> {
            &&& doc@.member("method"@) == Some(JsonModel::Str(q.method@))
            &&& q.params@ == member_or_null(doc@, "params"@)
            &&& opt_model(q.id) == doc@.member("id"@)
        }),
        r matches Err(e) ==> e.code == PARSE_ERROR,
{
    match parsed {
        Ok(doc) => decode_request(&doc),
        Err(detail) => Err(parse_failure(detail.as_str())),
    }
}

/// The response object: `{jsonrpc: "2.0", result | error, id?}`. The id is
/// echoed as it came: absent stays absent, null stays null.
pub open spec fn response_object(outcome: Result<JsonModel, RpcErrorModel>, id: Option<JsonModel>) -> JsonModel {
    let head = seq![("jsonrpc"@, JsonModel::Str("2.0"@))];
    let body = match outcome {
        Ok(v) => head.push(("result"@, v)),
        Err(e) => head.push(("error"@, error_object(e))),
    };
    match id {
        Some(i) => JsonModel::Object(body.push(("id"@, i))),
        None => JsonModel::Object(body),
    }
}

/// Wraps the outcome of one request into its response.
pub fn response(outcome: Result<Json, RpcError>, id: Option<Json>) -> (r: Json)
    ensures
        r@ == response_object(outcome_model(outcome), opt_model(id)),
{
    let mut fields: Vec<(String, Json)> = Vec::new();
    push_field(&mut fields, "jsonrpc", Json::text("2.0"));
    match outcome {
        Ok(v) => push_field(&mut fields, "result", v),
        Err(e) => push_field(&mut fields, "error", e.to_json()),
    }
    match id {
        Some(i) => push_field(&mut fields, "id", i),
        None => {},
    }
    proof {
        reveal_with_fuel(fields_model, 4);
    }
    let r = Json::Object(fields);
    assert(r@ =~~= response_object(outcome_model(outcome), opt_model(id)));
    r
}

/// The response to a line that could not be read as a request: error code
/// `PARSE_ERROR` and a null id.
pub fn failure_response(e: RpcError) -> (r: Json)
    ensures
        r@ == response_object(Err(e@), Some(JsonModel::Null)),
{
    response(Err(e), Some(Json::Null))
}

/// Every response holds exactly one of `result` and `error`, carries
/// `jsonrpc: "2.0"`, and echoes the request id: present with the same value
/// when the request had one (null included), absent when it had none.
pub proof fn lemma_response_shape(outcome: Result<JsonModel, RpcErrorModel>, id: Option<JsonModel>)
    ensures
        response_object(outcome, id).has_member("result"@) != response_object(outcome, id).has_member("error"@),
        response_object(outcome, id).has_member("result"@) == outcome is Ok,
        outcome matches Ok(v) ==> response_object(outcome, id).member("result"@) == Some(v),
        outcome matches Err(e) ==> response_object(outcome, id).member("error"@) == Some(error_object(e)),
        response_object(outcome, id).member("id"@) == id,
        response_object(outcome, id).member("jsonrpc"@) == Some(JsonModel::Str("2.0"@)),
{
    reveal_strlit("jsonrpc");
    reveal_strlit("result");
    reveal_strlit("error");
    reveal_strlit("id");
    reveal_with_fuel(lookup, 4);
    assert("result"@.len() != "jsonrpc"@.len());
    assert("error"@.len() != "jsonrpc"@.len());
    assert("result"@.len() != "error"@.len());
    assert("id"@.len() != "jsonrpc"@.len());
    let a = ("jsonrpc"@, JsonModel::Str("2.0"@));
    let b = match outcome {
        Ok(v) => ("result"@, v),
        Err(e) => ("error"@, error_object(e)),
    };
    match id {
        Some(i) => {
            let c = ("id"@, i);
            let full = seq![a, b, c];
            assert(seq![a].push(b).push(c) =~= full);
            assert(response_object(outcome, id) == JsonModel::Object(seq![a].push(b).push(c)));
            assert(full.drop_first() =~= seq![b, c]);
            assert(seq![b, c].drop_first() =~= seq![c]);
            assert(seq![c].drop_first() =~= Seq::<(Seq<char>, JsonModel)>::empty());
            assert("result"@.len() != "id"@.len());
            assert("error"@.len() != "id"@.len());
            assert(lookup(seq![c], "result"@) is None);
            assert(lookup(seq![c], "error"@) is None);
        },
        None => {
            let full = seq![a, b];
            assert(seq![a].push(b) =~= full);
            assert(response_object(outcome, id) == JsonModel::Object(seq![a].push(b)));
            assert(full.drop_first() =~= seq![b]);
            assert(seq![b].drop_first() =~= Seq::<(Seq<char>, JsonModel)>::empty());
        },
    }
}

/// A line that is not a request always gets error code `PARSE_ERROR` and a
/// null id.
pub proof fn lemma_malformed_line_response(detail: Seq<char>)
    ensures
        ({
            let e = RpcErrorModel { code: PARSE_ERROR as int, message: "parse error: "@ + detail, data: None };
            let r = response_object(Err(e), Some(JsonModel::Null));
            &&& r.member("id"@) == Some(JsonModel::Null)
            &&& r.member("error"@) == Some(error_object(e))
            &&& error_object(e).member("code"@) == Some(JsonModel::Num(signed_decimal(PARSE_ERROR as int)))
            &&& !r.has_member("result"@)
        }),
{
    let e = RpcErrorModel { code: PARSE_ERROR as int, message: "parse error: "@ + detail, data: None };
    lemma_response_shape(Err(e), Some(JsonModel::Null));
}

} // verus!
