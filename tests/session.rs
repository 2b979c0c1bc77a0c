use site2ts_server::error::RpcError;
use site2ts_server::fresh::Fresh;
use site2ts_server::json::Json;
use site2ts_server::session::{begin, effects_applied, upstream_checked, worker_answered, Next};

fn text(s: &str) -> Json {
    Json::Str(s.to_string())
}

fn num(s: &str) -> Json {
    Json::Num(s.to_string())
}

fn obj(fields: Vec<(&str, Json)>) -> Json {
    Json::Object(fields.into_iter().map(|(k, v)| (k.to_string(), v)).collect())
}

fn member<'a>(j: &'a Json, key: &str) -> Option<&'a Json> {
    match j {
        Json::Object(f) => f.iter().find(|(k, _)| k == key).map(|(_, v)| v),
        _ => None,
    }
}

fn error_code(j: &Json) -> Option<&Json> {
    member(member(j, "error")?, "code")
}

fn respond(n: Next) -> Json {
    match n {
        Next::Respond(j) => j,
        other => panic!("expected a response, got {:?}", other),
    }
}

#[test]
fn unparsable_line_gets_parse_error_and_null_id() {
    let r = respond(begin(Err("expected value".to_string()), "F"));
    assert_eq!(error_code(&r), Some(&num("-32700")));
    assert_eq!(member(&r, "id"), Some(&Json::Null));
    let r = respond(begin(Ok(obj(vec![("id", num("4"))])), "F"));
    assert_eq!(error_code(&r), Some(&num("-32700")));
    assert_eq!(member(&r, "id"), Some(&Json::Null));
}

#[test]
fn unknown_method_echoes_the_id() {
    let r = respond(begin(Ok(obj(vec![("method", text("nope")), ("id", text("abc"))])), "F"));
    assert_eq!(error_code(&r), Some(&num("-32601")));
    assert_eq!(member(&r, "id"), Some(&text("abc")));
    assert!(member(&r, "result").is_none());
}

#[test]
fn missing_param_through_the_session() {
    let r = respond(begin(Ok(obj(vec![("method", text("init")), ("params", obj(vec![]))])), "F"));
    assert_eq!(error_code(&r), Some(&num("-32602")));
    assert_eq!(
        member(member(&r, "error").unwrap(), "message"),
        Some(&text("missing field `projectRoot`"))
    );
    assert!(member(&r, "id").is_none());
}

#[test]
fn analyze_without_sitemap_through_the_session() {
    let line = obj(vec![
        ("method", text("analyze")),
        ("params", obj(vec![("siteMapId", text("missing"))])),
        ("id", num("2")),
    ]);
    let x = match begin(Ok(line), "F") {
        Next::CheckExists(x, path) => {
            assert_eq!(path, ".site2ts/cache/sitemaps/missing.json");
            x
        }
        other => panic!("unexpected {:?}", other),
    };
    let r = respond(upstream_checked(x, false));
    assert_eq!(error_code(&r), Some(&num("-32001")));
    assert_eq!(member(&r, "id"), Some(&num("2")));
}

#[test]
fn crawl_runs_to_a_result() {
    let line = obj(vec![
        ("method", text("crawl")),
        ("params", obj(vec![("startUrl", text("https://example.com"))])),
        ("id", num("1")),
    ]);
    let x = match begin(Ok(line), "F") {
        Next::CallWorker(x) => x,
        other => panic!("unexpected {:?}", other),
    };
    assert_eq!(x.call.method, "crawl");
    let reply = obj(vec![("jobId", text("J")), ("siteMapId", text("M"))]);
    let (x, fx) = match worker_answered(x, Ok(Some(reply)), &Fresh::draw()) {
        Next::Persist(x, fx) => (x, fx),
        other => panic!("unexpected {:?}", other),
    };
    assert_eq!(fx.manifests[0].0, ".site2ts/cache/sitemaps/M.json");
    let r = effects_applied(x, fx, Ok(()));
    assert_eq!(
        r,
        obj(vec![
            ("jsonrpc", text("2.0")),
            (
                "result",
                obj(vec![("jobId", text("J")), ("siteMapId", text("M")), ("pages", Json::Array(vec![]))])
            ),
            ("id", num("1")),
        ])
    );
}

#[test]
fn worker_error_reaches_the_caller() {
    let line = obj(vec![
        ("method", text("pack")),
        ("params", obj(vec![("generationId", text("g"))])),
        ("id", Json::Null),
    ]);
    let x = match begin(Ok(line), "F") {
        Next::CheckExists(x, _) => x,
        other => panic!("unexpected {:?}", other),
    };
    let x = match upstream_checked(x, true) {
        Next::CallWorker(x) => x,
        other => panic!("unexpected {:?}", other),
    };
    let e = RpcError::new(-32099, "disk full".to_string(), Some(text("d")));
    let r = respond(worker_answered(x, Err(e), &Fresh::draw()));
    assert_eq!(
        member(&r, "error"),
        Some(&obj(vec![("code", num("-32099")), ("message", text("disk full")), ("data", text("d"))]))
    );
    assert_eq!(member(&r, "id"), Some(&Json::Null));
}

#[test]
fn init_goes_on_without_a_worker_and_reports_write_failures() {
    let line = obj(vec![("method", text("init")), ("params", obj(vec![("projectRoot", text("/p"))]))]);
    let x = match begin(Ok(line), "F") {
        Next::CallWorker(x) => x,
        other => panic!("unexpected {:?}", other),
    };
    assert!(x.call.optional);
    let (x, fx) = match worker_answered(x, Ok(None), &Fresh::draw()) {
        Next::Persist(x, fx) => (x, fx),
        other => panic!("unexpected {:?}", other),
    };
    assert_eq!(fx.dirs.len(), 5);
    let r = effects_applied(x, fx, Err(RpcError::internal("read-only file system".to_string())));
    assert_eq!(error_code(&r), Some(&num("-32603")));
    assert!(member(&r, "id").is_none());
}

#[test]
fn init_persists_even_when_the_worker_fails() {
    let line = obj(vec![("method", text("init")), ("params", obj(vec![("projectRoot", text("/p"))])), ("id", num("9"))]);
    let x = match begin(Ok(line), "F") {
        Next::CallWorker(x) => x,
        other => panic!("unexpected {:?}", other),
    };
    let failure = RpcError::new(-32010, "chromium download failed".to_string(), None);
    let (x, fx) = match worker_answered(x, Err(failure), &Fresh::draw()) {
        Next::Persist(x, fx) => (x, fx),
        other => panic!("init must persist its effects, got {:?}", other),
    };
    assert_eq!(fx.dirs[0], "/p/.site2ts/staging");
    assert_eq!(fx.manifests[0].0, "/p/.site2ts/pins.json");
    let r = effects_applied(x, fx, Ok(()));
    assert_eq!(member(member(&r, "result").unwrap(), "ok"), Some(&Json::Bool(true)));
    assert_eq!(member(&r, "id"), Some(&num("9")));
}

#[test]
fn other_stages_answer_with_the_worker_error() {
    let line = obj(vec![("method", text("crawl")), ("params", obj(vec![("startUrl", text("u"))]))]);
    let x = match begin(Ok(line), "F") {
        Next::CallWorker(x) => x,
        other => panic!("unexpected {:?}", other),
    };
    let r = respond(worker_answered(x, Err(RpcError::internal("gone".to_string())), &Fresh::draw()));
    assert_eq!(error_code(&r), Some(&num("-32603")));
}

#[test]
fn early_answers_carry_their_exact_message() {
    let r = respond(begin(Err("trailing characters".to_string()), "F"));
    assert_eq!(
        member(&r, "error"),
        Some(&obj(vec![("code", num("-32700")), ("message", text("parse error: trailing characters"))]))
    );
    let r = respond(begin(Ok(obj(vec![("params", obj(vec![]))])), "F"));
    assert_eq!(
        member(member(&r, "error").unwrap(), "message"),
        Some(&text("parse error: missing member `method`"))
    );
    let r = respond(begin(Ok(obj(vec![("method", num("1")), ("id", num("3"))])), "F"));
    assert_eq!(
        member(member(&r, "error").unwrap(), "message"),
        Some(&text("parse error: member `method` is not a string"))
    );
    assert_eq!(member(&r, "id"), Some(&Json::Null));
    let r = respond(begin(Ok(obj(vec![("method", text("INIT")), ("id", num("3"))])), "F"));
    assert_eq!(
        member(&r, "error"),
        Some(&obj(vec![("code", num("-32601")), ("message", text("method not found"))]))
    );
    assert_eq!(member(&r, "id"), Some(&num("3")));
}

#[test]
fn every_required_field_is_named_when_missing() {
    let cases = vec![
        ("init", "projectRoot"),
        ("crawl", "startUrl"),
        ("analyze", "siteMapId"),
        ("scaffold", "analysisId"),
        ("diff", "generationId"),
        ("audit", "generationId"),
        ("apply", "generationId"),
        ("pack", "generationId"),
    ];
    for (stage, field) in cases {
        let line = obj(vec![("method", text(stage)), ("params", obj(vec![("maxPages", num("3"))])), ("id", num("5"))]);
        let r = respond(begin(Ok(line), "F"));
        assert_eq!(
            member(&r, "error"),
            Some(&obj(vec![("code", num("-32602")), ("message", text(&format!("missing field `{}`", field)))])),
            "stage {}",
            stage
        );
        assert_eq!(member(&r, "id"), Some(&num("5")));
    }
    let line = obj(vec![("method", text("generate")), ("params", obj(vec![("analysisId", text("a"))]))]);
    let r = respond(begin(Ok(line), "F"));
    assert_eq!(
        member(member(&r, "error").unwrap(), "message"),
        Some(&text("missing field `scaffoldId`"))
    );
}

#[test]
fn log_timestamps_have_millisecond_precision() {
    let now = Fresh::draw().now;
    let tail: Vec<char> = now.chars().rev().take(5).collect();
    assert_eq!(tail[0], 'Z');
    assert!(tail[1..4].iter().all(|c| c.is_ascii_digit()));
    assert_eq!(tail[4], '.');
}
