//! Errors as the caller sees them: a JSON-RPC error object.
use vstd::prelude::*;
use crate::json::{Json, JsonModel, push_field, signed_decimal, fields_model};

verus! {

/// A line that is not a JSON request object.
pub const PARSE_ERROR: i64 = -32700;
/// A method outside the stage table.
pub const METHOD_NOT_FOUND: i64 = -32601;
/// A parameter that is missing or has the wrong type.
pub const INVALID_PARAMS: i64 = -32602;
/// Any failure of the control plane or of the worker channel.
pub const INTERNAL_ERROR: i64 = -32603;
/// `analyze` before the sitemap it names was crawled.
pub const NEEDS_CRAWL: i64 = -32001;
/// `scaffold` before an analysis exists.
pub const NEEDS_ANALYZE: i64 = -32002;
/// `generate` before the scaffold it names exists.
pub const NEEDS_SCAFFOLD: i64 = -32003;
/// `diff` before the generation it names exists.
pub const DIFF_NEEDS_GENERATE: i64 = -32004;
/// `audit` before the generation it names exists.
pub const AUDIT_NEEDS_GENERATE: i64 = -32005;
/// `apply` before the generation it names exists.
pub const APPLY_NEEDS_GENERATE: i64 = -32006;
/// `pack` before the generation it names exists.
pub const PACK_NEEDS_GENERATE: i64 = -32007;

/// An error reported to the caller: a code, a message and optional data.
#[derive(Debug, PartialEq)]
pub struct RpcError {
    pub code: i64,
    pub message: String,
    pub data: Option<Json>,
}

pub struct RpcErrorModel {
    pub code: int,
    pub message: Seq<char>,
    pub data: Option<JsonModel>,
}

impl View for RpcError {
    type V = RpcErrorModel;

    open spec fn view(&self) -> RpcErrorModel {
        RpcErrorModel {
            code: self.code as int,
            message: self.message@,
            data: match self.data {
                Some(d) => Some(d@),
                None => None,
            },
        }
    }
}

/// The error object `{code, message, data?}` sent on the wire.
pub open spec fn error_object(e: RpcErrorModel) -> JsonModel {
    let base = seq![
        ("code"@, JsonModel::Num(signed_decimal(e.code))),
        ("message"@, JsonModel::Str(e.message)),
    ];
    match e.data {
        Some(d) => JsonModel::Object(base.push(("data"@, d))),
        None => JsonModel::Object(base),
    }
}

impl RpcError {
    pub fn new(code: i64, message: String, data: Option<Json>) -> (r: RpcError)
        ensures
            r.code == code,
            r.message@ == message@,
            r@.data == (match data {
                Some(d) => Some(d@),
                None => None::<JsonModel>,
            }),
    {
        RpcError { code, message, data }
    }

    pub fn invalid_params(message: String) -> (r: RpcError)
        ensures
            r@ == (RpcErrorModel { code: INVALID_PARAMS as int, message: message@, data: None }),
    {
        RpcError { code: INVALID_PARAMS, message, data: None }
    }

    pub fn internal(message: String) -> (r: RpcError)
        ensures
            r@ == (RpcErrorModel { code: INTERNAL_ERROR as int, message: message@, data: None }),
    {
        RpcError { code: INTERNAL_ERROR, message, data: None }
    }

    pub fn code(&self) -> (r: i64)
        ensures
            r == self.code,
    {
        self.code
    }

    pub fn message(&self) -> (r: &str)
        ensures
            r@ == self.message@,
    {
        self.message.as_str()
    }

    /// The error object for a response.
    pub fn to_json(&self) -> (r: Json)
        ensures
            r@ == error_object(self@),
    {
        let mut fields: Vec<(String, Json)> = Vec::new();
        push_field(&mut fields, "code", Json::signed(self.code));
        push_field(&mut fields, "message", Json::Str(self.message.clone()));
        match &self.data {
            Some(d) => {
                push_field(&mut fields, "data", d.duplicate());
            },
            None => {},
        }
        let r = Json::Object(fields);
        proof {
            reveal_with_fuel(fields_model, 4);
        }
        assert(r@ == error_object(self@)) by {
            let base = seq![
                ("code"@, JsonModel::Num(signed_decimal(self.code as int))),
                ("message"@, JsonModel::Str(self.message@)),
            ];
            assert(fields_model(Seq::empty()).push(("code"@, JsonModel::Num(signed_decimal(self.code as int)))).push(("message"@, JsonModel::Str(self.message@))) =~= base);
        }
        r
    }
}

} // verus!
