//! The decisions of the worker supervisor. The process and its pipes are
//! driven from outside; these functions say what to do at each step.
use vstd::prelude::*;
use crate::effects::{empty_object, member_or};
use crate::error::{RpcError, RpcErrorModel, INTERNAL_ERROR};
use crate::json::{Json, JsonModel, integer_text, is_digits, parse_digits, push_field, fields_model};
use crate::protocol::{is_blank, is_space};

verus! {

/// The state of the one worker connection.
#[derive(Debug)]
pub enum WorkerState {
    /// Not started yet: it starts on first use.
    Unstarted,
    /// Running, and answering calls.
    Ready,
    /// Could not be started; not retried.
    SpawnFailed(String),
    /// A call failed on the channel itself; the connection is not used again.
    Broken(String),
}

/// What to do with the connection before a call.
#[derive(Debug)]
pub enum Access {
    /// Start the worker, then report the outcome with `after_spawn`.
    Spawn,
    /// Make the call.
    Use,
    /// Go on without the worker (only for an optional call).
    Skip,
    /// Fail the call with this error.
    Refuse(RpcError),
}

pub open spec fn refusal(prefix: Seq<char>, reason: Seq<char>) -> RpcErrorModel {
    RpcErrorModel { code: INTERNAL_ERROR as int, message: prefix + reason, data: None }
}

/// Decides how a call gets the worker. A worker that failed to start fails
/// every call that needs it; a broken channel fails every call.
pub fn access(state: &WorkerState, optional: bool) -> (r: Access)
    ensures
        state is Unstarted ==> r is Spawn,
        state is Ready ==> r is Use,
        state is SpawnFailed && optional ==> r is Skip,
        state matches WorkerState::SpawnFailed(m) ==> (!optional ==> r is Refuse
            && r->Refuse_0@ == refusal("worker unavailable: "@, m@)),
        state matches WorkerState::Broken(m) ==> r is Refuse && r->Refuse_0@ == refusal(
            "worker channel failed earlier: "@,
            m@,
        ),
{
    match state {
        WorkerState::Unstarted => Access::Spawn,
        WorkerState::Ready => Access::Use,
        WorkerState::SpawnFailed(m) => if optional {
            Access::Skip
        } else {
            let mut text = String::from_str("worker unavailable: ");
            text.append(m.as_str());
            Access::Refuse(RpcError::internal(text))
        },
        WorkerState::Broken(m) => {
            let mut text = String::from_str("worker channel failed earlier: ");
            text.append(m.as_str());
            Access::Refuse(RpcError::internal(text))
        },
    }
}

/// The state once a start was attempted.
pub fn after_spawn(outcome: Result<(), String>) -> (r: WorkerState)
    ensures
        outcome is Ok ==> r is Ready,
        outcome matches Err(m) ==> r matches WorkerState::SpawnFailed(x) && x@ == m@,
{
    match outcome {
        Ok(()) => WorkerState::Ready,
        Err(m) => WorkerState::SpawnFailed(m),
    }
}

/// The state once a call ended with `failure` on the channel itself.
pub fn after_channel_failure(failure: &RpcError) -> (r: WorkerState)
    ensures
        r matches WorkerState::Broken(x) && x@ == failure.message@,
{
    WorkerState::Broken(failure.message.clone())
}

/// The request line for one call: `{jsonrpc: "2.0", method, params, id}`.
pub open spec fn request_object(method: Seq<char>, params: JsonModel, id: Seq<char>) -> JsonModel {
    JsonModel::Object(
        seq![
            ("jsonrpc"@, JsonModel::Str("2.0"@)),
            ("method"@, JsonModel::Str(method)),
            ("params"@, params),
            ("id"@, JsonModel::Str(id)),
        ],
    )
}

pub fn worker_request(method: &str, params: Json, id: &str) -> (r: Json)
    ensures
        r@ == request_object(method@, params@, id@),
{
    let mut f: Vec<(String, Json)> = Vec::new();
    push_field(&mut f, "jsonrpc", Json::text("2.0"));
    push_field(&mut f, "method", Json::text(method));
    push_field(&mut f, "params", params);
    push_field(&mut f, "id", Json::text(id));
    assert(fields_model(f@) =~= seq![
        ("jsonrpc"@, JsonModel::Str("2.0"@)),
        ("method"@, JsonModel::Str(method@)),
        ("params"@, params@),
        ("id"@, JsonModel::Str(id@)),
    ]);
    Json::Object(f)
}

/// The code of a worker error object: its `code` when that is an integer
/// that fits in an `i64`, else the internal-error code.
pub open spec fn worker_error_code(err: JsonModel) -> int {
    match err.member("code"@) {
        Some(JsonModel::Num(t)) => match integer_text(t) {
            Some(k) => if i64::MIN <= k <= i64::MAX {
                k
            } else {
                INTERNAL_ERROR as int
            },
            None => INTERNAL_ERROR as int,
        },
        _ => INTERNAL_ERROR as int,
    }
}

pub open spec fn worker_error_message(err: JsonModel) -> Seq<char> {
    match err.member("message"@) {
        Some(JsonModel::Str(s)) => s,
        _ => "worker error"@,
    }
}

/// The error a worker reported, passed on with its code, message and data.
pub open spec fn worker_error(err: JsonModel) -> RpcErrorModel {
    RpcErrorModel {
        code: worker_error_code(err),
        message: worker_error_message(err),
        data: err.member("data"@),
    }
}

/// One line read from the worker.
#[derive(Debug)]
pub enum ReplyStep {
    /// A progress notification: forward the line as it is and read on.
    Progress,
    /// The reply to the call in flight.
    Reply(Result<Json, RpcError>),
    /// The channel failed; the call fails and the connection is not used again.
    Failed(RpcError),
}

pub open spec fn is_blank_text(line: Seq<char>) -> bool {
    forall|i: int| 0 <= i < line.len() ==> is_space(#[trigger] line[i])
}

/// Reads an integer written as an optional minus sign and decimal digits.
pub fn parse_integer(t: &str) -> (r: Option<i64>)
    ensures
        r matches Some(k) ==> integer_text(t@) == Some(k as int),
        r is None ==> (integer_text(t@) matches Some(k) ==> !(i64::MIN <= k <= i64::MAX)),
{
    let n = t.unicode_len();
    if n > 0 && t.get_char(0) == '-' {
        let rest = t.substring_char(1, n);
        assert(rest@ =~= t@.drop_first());
        assert(!is_digits(t@)) by {
            assert(!('0' <= t@[0] <= '9'));
        }
        match parse_digits(rest) {
            Some(m) => if m <= 9223372036854775807u64 {
                Some(-(m as i64))
            } else if m == 9223372036854775808u64 {
                Some(i64::MIN)
            } else {
                None
            },
            None => None,
        }
    } else {
        match parse_digits(t) {
            Some(m) => if m <= 9223372036854775807u64 {
                Some(m as i64)
            } else {
                None
            },
            None => {
                assert(!(t@.len() > 0 && t@[0] == '-'));
                None
            },
        }
    }
}

fn error_from_worker(err: &Json) -> (r: RpcError)
    ensures
        r@ == worker_error(err@),
{
    let code: i64 = match err.get("code") {
        Some(Json::Num(t)) => match parse_integer(t.as_str()) {
            Some(k) => k,
            None => INTERNAL_ERROR,
        },
        _ => INTERNAL_ERROR,
    };
    let message = match err.get("message") {
        Some(Json::Str(s)) => s.clone(),
        _ => String::from_str("worker error"),
    };
    let data = match err.get("data") {
        Some(d) => Some(d.duplicate()),
        None => None,
    };
    RpcError { code, message, data }
}

/// Decides what one line from the worker is. `parsed` is the line read as
/// JSON, or why it could not be. A blank line (the worker closed its end)
/// and a line that is not JSON fail the channel; a line whose `method` is
/// `"progress"` is a notification; any other line is the reply, whose `error`
/// object is passed on and whose `result` (or an empty object) is returned.
pub fn read_reply(line: &str, parsed: Result<Json, String>) -> (r: ReplyStep)
    ensures
        is_blank_text(line@) ==> r is Failed && r->Failed_0.code == INTERNAL_ERROR,
        !is_blank_text(line@) && parsed is Err ==> r is Failed && r->Failed_0.code == INTERNAL_ERROR,
        !is_blank_text(line@) ==> (parsed matches Ok(v) ==> (v@.member("method"@) == Some(
            JsonModel::Str("progress"@),
        ) ==> r is Progress)),
        !is_blank_text(line@) ==> (parsed matches Ok(v) ==> (v@.member("method"@) != Some(
            JsonModel::Str("progress"@),
        ) ==> (v@.member("error"@) matches Some(err) ==> r is Reply && r->Reply_0 is Err && r->Reply_0->Err_0@ == worker_error(err)))),
        !is_blank_text(line@) ==> (parsed matches Ok(v) ==> (v@.member("method"@) != Some(
            JsonModel::Str("progress"@),
        ) ==> (v@.member("error"@) is None ==> r is Reply && r->Reply_0 is Ok && r->Reply_0->Ok_0@ == member_or(v@, "result"@, empty_object())))),
{
    if is_blank(line) {
        return ReplyStep::Failed(RpcError::internal(String::from_str("empty response from worker")));
    }
    let v = match parsed {
        Ok(v) => v,
        Err(detail) => {
            let mut m = String::from_str("parse worker JSON failed: ");
            m.append(detail.as_str());
            return ReplyStep::Failed(RpcError::internal(m));
        },
    };
    let is_progress = match v.get("method") {
        Some(Json::Str(m)) => {
            proof { reveal_strlit("progress"); }
            crate::json::same_text(m.as_str(), "progress")
        },
        _ => false,
    };
    if is_progress {
        return ReplyStep::Progress;
    }
    match v.get("error") {
        Some(err) => ReplyStep::Reply(Err(error_from_worker(err))),
        None => {
            let empty = Json::empty_object();
            match v.get("result") {
                Some(x) => ReplyStep::Reply(Ok(x.duplicate())),
                None => ReplyStep::Reply(Ok(empty)),
            }
        },
    }
}

} // verus!
