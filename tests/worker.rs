use site2ts_server::error::RpcError;
use site2ts_server::json::{decimal_text, parse_digits, Json};
use site2ts_server::supervisor::{
    access, after_channel_failure, after_spawn, parse_integer, read_reply, worker_request, Access,
    ReplyStep, WorkerState,
};

fn text(s: &str) -> Json {
    Json::Str(s.to_string())
}

fn num(s: &str) -> Json {
    Json::Num(s.to_string())
}

fn obj(fields: Vec<(&str, Json)>) -> Json {
    Json::Object(fields.into_iter().map(|(k, v)| (k.to_string(), v)).collect())
}

#[test]
fn request_line_has_the_rpc_shape() {
    let r = worker_request("crawl", obj(vec![("startUrl", text("u"))]), "ID");
    assert_eq!(
        r,
        obj(vec![
            ("jsonrpc", text("2.0")),
            ("method", text("crawl")),
            ("params", obj(vec![("startUrl", text("u"))])),
            ("id", text("ID")),
        ])
    );
}

#[test]
fn progress_lines_are_forwarded() {
    let line = r#"{"method":"progress","params":{"pct":10}}"#;
    let parsed = obj(vec![("method", text("progress")), ("params", obj(vec![("pct", num("10"))]))]);
    assert!(matches!(read_reply(line, Ok(parsed)), ReplyStep::Progress));
}

#[test]
fn worker_errors_pass_through() {
    let parsed = obj(vec![(
        "error",
        obj(vec![("code", num("-32001")), ("message", text("no sitemap; run crawl")), ("data", num("5"))]),
    )]);
    match read_reply("x", Ok(parsed)) {
        ReplyStep::Reply(Err(e)) => {
            assert_eq!(e, RpcError::new(-32001, "no sitemap; run crawl".to_string(), Some(num("5"))));
        }
        other => panic!("expected an error reply, got {:?}", other),
    }
    let parsed = obj(vec![("error", obj(vec![("code", text("x"))]))]);
    match read_reply("x", Ok(parsed)) {
        ReplyStep::Reply(Err(e)) => {
            assert_eq!(e.code(), -32603);
            assert_eq!(e.message(), "worker error");
        }
        other => panic!("expected an error reply, got {:?}", other),
    }
}

#[test]
fn replies_yield_their_result_or_an_empty_object() {
    match read_reply("x", Ok(obj(vec![("result", obj(vec![("jobId", text("J"))]))]))) {
        ReplyStep::Reply(Ok(v)) => assert_eq!(v, obj(vec![("jobId", text("J"))])),
        other => panic!("unexpected {:?}", other),
    }
    match read_reply("x", Ok(obj(vec![("id", text("1"))]))) {
        ReplyStep::Reply(Ok(v)) => assert_eq!(v, obj(vec![])),
        other => panic!("unexpected {:?}", other),
    }
}

#[test]
fn channel_failures_are_internal_errors() {
    match read_reply("", Err("EOF".to_string())) {
        ReplyStep::Failed(e) => {
            assert_eq!(e.code(), -32603);
            assert_eq!(e.message(), "empty response from worker");
        }
        other => panic!("unexpected {:?}", other),
    }
    match read_reply("{oops", Err("key must be a string".to_string())) {
        ReplyStep::Failed(e) => {
            assert_eq!(e.code(), -32603);
            assert_eq!(e.message(), "parse worker JSON failed: key must be a string");
        }
        other => panic!("unexpected {:?}", other),
    }
}

#[test]
fn supervisor_starts_once_and_stays_failed() {
    assert!(matches!(access(&WorkerState::Unstarted, false), Access::Spawn));
    let ready = after_spawn(Ok(()));
    assert!(matches!(access(&ready, false), Access::Use));
    let failed = after_spawn(Err("node: not found".to_string()));
    assert!(matches!(access(&failed, true), Access::Skip));
    match access(&failed, false) {
        Access::Refuse(e) => {
            assert_eq!(e.code(), -32603);
            assert_eq!(e.message(), "worker unavailable: node: not found");
        }
        other => panic!("unexpected {:?}", other),
    }
    let broken = after_channel_failure(&RpcError::internal("empty response from worker".to_string()));
    match access(&broken, true) {
        Access::Refuse(e) => assert_eq!(e.message(), "worker channel failed earlier: empty response from worker"),
        other => panic!("unexpected {:?}", other),
    }
}

#[test]
fn integers_are_read_and_written_exactly() {
    assert_eq!(decimal_text(0), "0");
    assert_eq!(decimal_text(1280), "1280");
    assert_eq!(decimal_text(u64::MAX), "18446744073709551615");
    assert_eq!(Json::signed(-32700), num("-32700"));
    assert_eq!(Json::signed(i64::MIN), num("-9223372036854775808"));
    assert_eq!(parse_digits("50"), Some(50));
    assert_eq!(parse_digits("18446744073709551616"), None);
    assert_eq!(parse_digits(""), None);
    assert_eq!(parse_digits("1.5"), None);
    assert_eq!(parse_integer("-32001"), Some(-32001));
    assert_eq!(parse_integer("-9223372036854775808"), Some(i64::MIN));
    assert_eq!(parse_integer("9223372036854775808"), None);
    assert_eq!(parse_integer("-"), None);
}
