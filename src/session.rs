//! The life of one request, as a sequence of steps. Each step returns what the
//! caller must do next; the caller does it and hands the outcome to the next
//! step, until a response line comes out.
use vstd::prelude::*;
use crate::effects::{Effects, effects_of, finish};
use crate::error::{RpcError, RpcErrorModel};
use crate::fresh::Fresh;
use crate::json::{Json, JsonModel};
use crate::error::{METHOD_NOT_FOUND};
use crate::params::decode_error;
use crate::protocol::{
    failure_response, lemma_response_shape, member_or_null, opt_model, parse_error_model,
    read_request, request_fault, response, response_object, stage_named,
};
use crate::stages::{StageCall, check_ready, plan, stage_checks, upstream_model};

verus! {

/// `j` is a response to a request whose id was `id`.
pub open spec fn is_response_to(j: JsonModel, id: Option<JsonModel>) -> bool {
    exists|o: Result<JsonModel, RpcErrorModel>| #[trigger] response_object(o, id) == j
}

/// Every response the session produces holds exactly one of `result` and
/// `error`, carries `jsonrpc: "2.0"`, and echoes the request's id as it came
/// (absent stays absent, null stays null).
pub proof fn lemma_one_outcome_echoed_id(j: JsonModel, id: Option<JsonModel>)
    requires
        is_response_to(j, id),
    ensures
        j.has_member("result"@) != j.has_member("error"@),
        j.member("id"@) == id,
        j.member("jsonrpc"@) == Some(JsonModel::Str("2.0"@)),
{
    let o = choose|o: Result<JsonModel, RpcErrorModel>| #[trigger] response_object(o, id) == j;
    lemma_response_shape(o, id);
}

/// A request that has been planned and is waiting on the caller.
#[derive(Debug)]
pub struct Exchange {
    pub call: StageCall,
    /// The request's id, echoed in its response.
    pub id: Option<Json>,
}

/// What the caller does next.
#[derive(Debug)]
pub enum Next {
    /// Find out whether the manifest at this path exists, then call
    /// `upstream_checked`.
    CheckExists(Exchange, String),
    /// Call the worker with the exchange's method and parameters, then call
    /// `worker_answered`.
    CallWorker(Exchange),
    /// Create the directories, write the manifests and append the log record,
    /// then call `effects_applied`.
    Persist(Exchange, Effects),
    /// Write this response line; the request is done.
    Respond(Json),
}

/// The step after `x` was planned or found ready: check the upstream manifest
/// if there is one, else call the worker.
pub open spec fn after_planning(x: Exchange, n: Next) -> bool {
    match x.call.needs {
        Some(u) => n matches Next::CheckExists(y, p) && y == x && p@ == u.path@,
        None => n matches Next::CallWorker(y) && y == x,
    }
}

fn wait_on_upstream(x: Exchange) -> (n: Next)
    ensures
        after_planning(x, n),
{
    match &x.call.needs {
        Some(u) => {
            let p = u.path.clone();
            Next::CheckExists(x, p)
        },
        None => Next::CallWorker(x),
    }
}

/// The method a parsed line names, when it names one as a string.
pub open spec fn method_of(doc: JsonModel) -> Option<Seq<char>> {
    match doc.member("method"@) {
        Some(JsonModel::Str(m)) => Some(m),
        _ => None,
    }
}

/// The error a parsed line is answered with at once, before anything else
/// runs: not a request, a method outside the stage table, or a faulty
/// parameter (the first one, in reading order).
pub open spec fn early_error(doc: JsonModel) -> Option<RpcErrorModel> {
    match method_of(doc) {
        None => Some(parse_error_model(request_fault(doc))),
        Some(m) => match stage_named(m) {
            None => Some(RpcErrorModel { code: METHOD_NOT_FOUND as int, message: "method not found"@, data: None }),
            Some(s) => decode_error(stage_checks(s, member_or_null(doc, "params"@))),
        },
    }
}

/// The id of the early answer: null for a line that is not a request, the
/// request's own id otherwise.
pub open spec fn early_id(doc: JsonModel) -> Option<JsonModel> {
    match method_of(doc) {
        None => Some(JsonModel::Null),
        Some(_) => doc.member("id"@),
    }
}

/// Starts on one input line, given that line read as JSON (or why it could
/// not be) and a fresh identifier for stages that need one up front.
pub fn begin(parsed: Result<Json, String>, fallback: &str) -> (n: Next)
    ensures
        parsed matches Err(d) ==> n is Respond && n->Respond_0@ == response_object(
            Err(parse_error_model(d@)),
            Some(JsonModel::Null),
        ),
        parsed matches Ok(doc) ==> (early_error(doc@) matches Some(e) ==> n is Respond
            && n->Respond_0@ == response_object(Err(e), early_id(doc@))),
        parsed matches Ok(doc) ==> (early_error(doc@) is None ==> !(n is Respond) && !(n is Persist)),
        parsed matches Ok(doc) ==> (n matches Next::CheckExists(x, _) ==> opt_model(x.id) == doc@.member("id"@)
            && Some(x.call.params.stage()) == stage_named(method_of(doc@)->Some_0)
            && x.call.params.read_from(member_or_null(doc@, "params"@))
            && x.call.planned_from(x.call.params, fallback@) && after_planning(x, n)),
        parsed matches Ok(doc) ==> (n matches Next::CallWorker(x) ==> opt_model(x.id) == doc@.member("id"@)
            && Some(x.call.params.stage()) == stage_named(method_of(doc@)->Some_0)
            && x.call.params.read_from(member_or_null(doc@, "params"@))
            && x.call.planned_from(x.call.params, fallback@) && after_planning(x, n)),
{
    let req = match read_request(parsed) {
        Ok(r) => r,
        Err(e) => {
            let j = failure_response(e);
            return Next::Respond(j);
        },
    };
    let call = match plan(&req, fallback) {
        Ok(c) => c,
        Err(e) => {
            let j = response(Err(e), req.id);
            return Next::Respond(j);
        },
    };
    wait_on_upstream(Exchange { call, id: req.id })
}

/// Goes on once the caller knows whether the upstream manifest exists.
pub fn upstream_checked(x: Exchange, exists: bool) -> (n: Next)
    ensures
        exists || x.call.needs is None ==> n is CallWorker && n->CallWorker_0 == x,
        !exists && x.call.needs is Some ==> n is Respond && n->Respond_0@ == response_object(
            Err(RpcErrorModel {
                code: upstream_model(x.call.needs)->Some_0.1,
                message: upstream_model(x.call.needs)->Some_0.2,
                data: None,
            }),
            opt_model(x.id),
        ),
{
    match check_ready(&x.call, exists) {
        Ok(()) => Next::CallWorker(x),
        Err(e) => Next::Respond(response(Err(e), x.id)),
    }
}

/// Goes on with the worker's answer: `Ok(None)` when an optional call went
/// without the worker. For an optional call (`init`) a missing worker or a
/// worker error counts as an empty reply, so the stage still persists its
/// effects; for any other call a worker error is the response.
pub fn worker_answered(x: Exchange, answer: Result<Option<Json>, RpcError>, fresh: &Fresh) -> (n: Next)
    ensures
        !x.call.optional ==> (answer matches Err(e) ==> n is Respond && n->Respond_0@ == response_object(
            Err(e@),
            opt_model(x.id),
        )),
        answer matches Ok(Some(reply)) ==> n matches Next::Persist(y, fx) && y == x && fx@ == effects_of(
            x.call.params,
            reply@,
            fresh.job_id@,
            fresh.artifact_id@,
            fresh.now@,
        ),
        (answer is Ok && answer->Ok_0 is None) || (x.call.optional && answer is Err) ==> n is Persist
            && n->Persist_0 == x && n->Persist_1@ == effects_of(
            x.call.params,
            JsonModel::Object(Seq::empty()),
            fresh.job_id@,
            fresh.artifact_id@,
            fresh.now@,
        ),
{
    match answer {
        Err(e) => if x.call.optional {
            let empty = Json::empty_object();
            let fx = finish(&x.call, &empty, fresh);
            Next::Persist(x, fx)
        } else {
            Next::Respond(response(Err(e), x.id))
        },
        Ok(Some(reply)) => {
            let fx = finish(&x.call, &reply, fresh);
            Next::Persist(x, fx)
        },
        Ok(None) => {
            let empty = Json::empty_object();
            let fx = finish(&x.call, &empty, fresh);
            Next::Persist(x, fx)
        },
    }
}

/// Ends the request once the effects were applied, or failed to be.
pub fn effects_applied(x: Exchange, fx: Effects, outcome: Result<(), RpcError>) -> (r: Json)
    ensures
        outcome is Ok ==> r@ == response_object(Ok(fx.result@), opt_model(x.id)),
        outcome matches Err(e) ==> r@ == response_object(Err(e@), opt_model(x.id)),
{
    match outcome {
        Ok(()) => response(Ok(fx.result), x.id),
        Err(e) => response(Err(e), x.id),
    }
}

} // verus!
