use site2ts_server::effects::finish;
use site2ts_server::error::RpcError;
use site2ts_server::fresh::{new_id, Fresh};
use site2ts_server::json::Json;
use site2ts_server::params::{default_concurrency, default_max_depth, default_max_pages, default_true};
use site2ts_server::protocol::{
    decode_request, failure_response, is_blank, parse_failure, read_request, response, stage_for,
    Request, Stage,
};
use site2ts_server::stages::{check_ready, plan, StageCall};

fn text(s: &str) -> Json {
    Json::Str(s.to_string())
}

fn num(s: &str) -> Json {
    Json::Num(s.to_string())
}

fn obj(fields: Vec<(&str, Json)>) -> Json {
    Json::Object(fields.into_iter().map(|(k, v)| (k.to_string(), v)).collect())
}

fn member<'a>(j: &'a Json, key: &str) -> Option<&'a Json> {
    match j {
        Json::Object(f) => f.iter().find(|(k, _)| k == key).map(|(_, v)| v),
        _ => None,
    }
}

fn request(method: &str, params: Json) -> Request {
    Request { method: method.to_string(), params, id: Some(num("1")) }
}

fn planned(method: &str, params: Json) -> StageCall {
    plan(&request(method, params), "01ARZ3NDEKTSV4RRFFQ69G5FAV").unwrap()
}

fn is_base32(s: &str) -> bool {
    s.len() == 26 && s.chars().all(|c| "0123456789ABCDEFGHJKMNPQRSTVWXYZ".contains(c))
}

#[test]
fn defaults_match_the_documented_values() {
    assert!(default_true());
    assert_eq!(default_max_pages(), 50);
    assert_eq!(default_max_depth(), 5);
    assert_eq!(default_concurrency(), 4);
}

#[test]
fn response_carries_result_or_error_and_echoes_id() {
    let ok = response(Ok(obj(vec![("a", Json::Bool(true))])), Some(num("7")));
    assert_eq!(
        ok,
        obj(vec![
            ("jsonrpc", text("2.0")),
            ("result", obj(vec![("a", Json::Bool(true))])),
            ("id", num("7")),
        ])
    );
    let err = response(Err(RpcError::internal("boom".to_string())), Some(Json::Null));
    assert!(member(&err, "result").is_none());
    assert_eq!(
        member(&err, "error"),
        Some(&obj(vec![("code", num("-32603")), ("message", text("boom"))]))
    );
    assert_eq!(member(&err, "id"), Some(&Json::Null));
    let absent = response(Ok(obj(vec![])), None);
    assert!(member(&absent, "id").is_none());
    assert!(member(&absent, "result").is_some());
}

#[test]
fn error_data_is_kept_in_the_error_object() {
    let e = RpcError::new(-32050, "bad".to_string(), Some(text("detail")));
    assert_eq!(
        e.to_json(),
        obj(vec![("code", num("-32050")), ("message", text("bad")), ("data", text("detail"))])
    );
}

#[test]
fn malformed_line_yields_parse_error_with_null_id() {
    let r = failure_response(parse_failure("expected value at line 1 column 1"));
    let e = member(&r, "error").unwrap();
    assert_eq!(member(e, "code"), Some(&num("-32700")));
    assert_eq!(member(&r, "id"), Some(&Json::Null));
    assert!(member(&r, "result").is_none());
    let q = read_request(Err("eof".to_string())).unwrap_err();
    assert_eq!(q.code(), -32700);
    assert_eq!(q.message(), "parse error: eof");
}

#[test]
fn request_without_string_method_is_a_parse_error() {
    assert_eq!(decode_request(&obj(vec![("id", num("1"))])).unwrap_err().code(), -32700);
    assert_eq!(decode_request(&obj(vec![("method", num("3"))])).unwrap_err().code(), -32700);
    assert_eq!(decode_request(&num("3")).unwrap_err().code(), -32700);
}

#[test]
fn request_keeps_null_id_and_defaults_params() {
    let q = decode_request(&obj(vec![
        ("jsonrpc", text("2.0")),
        ("method", text("pack")),
        ("id", Json::Null),
    ]))
    .unwrap();
    assert_eq!(q.method, "pack");
    assert_eq!(q.params, Json::Null);
    assert_eq!(q.id, Some(Json::Null));
    let q = decode_request(&obj(vec![("method", text("pack"))])).unwrap();
    assert_eq!(q.id, None);
}

#[test]
fn unknown_method_is_not_found() {
    let e = plan(&request("frobnicate", obj(vec![])), "x").unwrap_err();
    assert_eq!(e.code(), -32601);
    assert!(stage_for("Crawl").is_none());
    assert_eq!(stage_for("crawl"), Some(Stage::Crawl));
}

#[test]
fn missing_field_names_it() {
    let e = plan(&request("crawl", obj(vec![])), "x").unwrap_err();
    assert_eq!(e.code(), -32602);
    assert_eq!(e.message(), "missing field `startUrl`");
}

#[test]
fn mistyped_field_names_it() {
    let e = plan(
        &request("crawl", obj(vec![("startUrl", text("u")), ("maxPages", text("ten"))])),
        "x",
    )
    .unwrap_err();
    assert_eq!(e.code(), -32602);
    assert_eq!(e.message(), "invalid type for field `maxPages`");
    let e = plan(
        &request("crawl", obj(vec![("startUrl", text("u")), ("maxDepth", num("-1"))])),
        "x",
    )
    .unwrap_err();
    assert_eq!(e.message(), "invalid type for field `maxDepth`");
    let e = plan(
        &request("crawl", obj(vec![("startUrl", text("u")), ("maxDepth", num("4294967296"))])),
        "x",
    )
    .unwrap_err();
    assert_eq!(e.message(), "invalid type for field `maxDepth`");
    let e = plan(&request("apply", obj(vec![("generationId", text("g")), ("dryRun", text("no"))])), "x")
        .unwrap_err();
    assert_eq!(e.message(), "invalid type for field `dryRun`");
}

#[test]
fn first_faulty_field_is_reported() {
    let e = plan(
        &request("generate", obj(vec![("scaffoldId", num("1"))])),
        "x",
    )
    .unwrap_err();
    assert_eq!(e.message(), "missing field `analysisId`");
}

#[test]
fn analyze_request_without_sitemap_fails_with_order_error() {
    let call = planned("analyze", obj(vec![("siteMapId", text("nope"))]));
    let e = check_ready(&call, false).unwrap_err();
    assert_eq!(e.code(), -32001);
    assert_eq!(e.message(), "crawl must run first: no sitemap manifest for `nope`");
}

#[test]
fn each_precondition_has_its_own_code() {
    let g = || obj(vec![("generationId", text("g"))]);
    let calls = vec![
        planned("analyze", obj(vec![("siteMapId", text("s"))])),
        planned("scaffold", obj(vec![("analysisId", text("a"))])),
        planned("generate", obj(vec![("analysisId", text("a")), ("scaffoldId", text("s"))])),
        planned("diff", g()),
        planned("audit", g()),
        planned("apply", g()),
        planned("pack", g()),
    ];
    let codes: Vec<i64> = calls.iter().map(|c| check_ready(c, false).unwrap_err().code()).collect();
    assert_eq!(codes, vec![-32001, -32002, -32003, -32004, -32005, -32006, -32007]);
    for stage in ["init", "crawl", "assets"] {
        let params = match stage {
            "init" => obj(vec![("projectRoot", text("."))]),
            "crawl" => obj(vec![("startUrl", text("u"))]),
            _ => obj(vec![]),
        };
        assert!(check_ready(&planned(stage, params), false).is_ok());
    }
}

#[test]
fn crawl_request_normalizes_defaults() {
    let call = planned("crawl", obj(vec![("startUrl", text("https://example.com"))]));
    assert_eq!(call.method, "crawl");
    assert_eq!(
        call.worker_params,
        obj(vec![
            ("startUrl", text("https://example.com")),
            ("sameOrigin", Json::Bool(true)),
            ("maxPages", num("50")),
            ("maxDepth", num("5")),
            ("allow", Json::Array(vec![])),
            ("deny", Json::Array(vec![])),
            ("concurrency", num("4")),
            ("delayMs", num("0")),
            ("useSitemap", Json::Bool(true)),
            ("obeyRobots", Json::Bool(true)),
        ])
    );
}

#[test]
fn diff_audit_apply_defaults() {
    let d = planned("diff", obj(vec![("generationId", text("g"))]));
    assert_eq!(
        d.worker_params,
        obj(vec![
            ("generationId", text("g")),
            ("baselines", text("recrawl")),
            ("viewport", obj(vec![("width", num("1280")), ("height", num("800")), ("deviceScale", num("1"))])),
            ("threshold", num("0.01")),
        ])
    );
    let a = planned("audit", obj(vec![("generationId", text("g"))]));
    assert_eq!(
        a.worker_params,
        obj(vec![("generationId", text("g")), ("tsStrict", Json::Bool(true)), ("eslintConfig", text("recommended"))])
    );
    let p = planned("apply", obj(vec![("generationId", text("g")), ("target", text("out/"))]));
    assert_eq!(
        p.worker_params,
        obj(vec![("generationId", text("g")), ("target", text("out/")), ("dryRun", Json::Bool(false))])
    );
    let s = planned("scaffold", obj(vec![("analysisId", text("a"))]));
    assert_eq!(s.worker_params, obj(vec![("analysisId", text("a")), ("appRouter", Json::Bool(true))]));
    let i = planned("init", obj(vec![("projectRoot", text("."))]));
    assert_eq!(i.method, "initRuntime");
    assert_eq!(i.worker_params, obj(vec![]));
}

#[test]
fn assets_subject_falls_back_in_order() {
    let a = planned("assets", obj(vec![("siteMapId", text("s")), ("generationId", text("g"))]));
    assert_eq!(a.worker_params, obj(vec![("generationId", text("s"))]));
    let b = planned("assets", obj(vec![("generationId", text("g"))]));
    assert_eq!(b.worker_params, obj(vec![("generationId", text("g"))]));
    let c = planned("assets", obj(vec![]));
    assert_eq!(c.worker_params, obj(vec![("generationId", text("01ARZ3NDEKTSV4RRFFQ69G5FAV"))]));
}

#[test]
fn crawl_scenario_persists_sitemap_with_defaults() {
    let req = decode_request(&obj(vec![
        ("method", text("crawl")),
        ("params", obj(vec![("startUrl", text("https://example.com"))])),
        ("id", num("1")),
    ]))
    .unwrap();
    let call = plan(&req, &new_id()).unwrap();
    assert!(check_ready(&call, false).is_ok());
    let fx = finish(&call, &obj(vec![]), &Fresh::draw());
    let id = match member(&fx.result, "siteMapId") {
        Some(Json::Str(s)) => s.clone(),
        other => panic!("siteMapId missing: {:?}", other),
    };
    assert!(is_base32(&id));
    assert_eq!(fx.manifests.len(), 1);
    assert_eq!(fx.manifests[0].0, format!(".site2ts/cache/sitemaps/{}.json", id));
    let doc = &fx.manifests[0].1;
    assert_eq!(member(doc, "startUrl"), Some(&text("https://example.com")));
    assert_eq!(member(doc, "maxPages"), Some(&num("50")));
    assert_eq!(member(doc, "maxDepth"), Some(&num("5")));
    assert_eq!(member(doc, "pages"), Some(&Json::Array(vec![])));
    let r = response(Ok(fx.result), req.id);
    assert_eq!(member(&r, "id"), Some(&num("1")));
}

#[test]
fn two_crawls_get_distinct_sitemaps() {
    let a = planned("crawl", obj(vec![("startUrl", text("https://a.example"))]));
    let b = planned("crawl", obj(vec![("startUrl", text("https://b.example"))]));
    let fa = finish(&a, &obj(vec![]), &Fresh::draw());
    let fb = finish(&b, &obj(vec![]), &Fresh::draw());
    assert_ne!(member(&fa.result, "siteMapId"), member(&fb.result, "siteMapId"));
    assert_ne!(fa.manifests[0].0, fb.manifests[0].0);
    assert_eq!(member(&fa.manifests[0].1, "startUrl"), Some(&text("https://a.example")));
    assert_eq!(member(&fb.manifests[0].1, "startUrl"), Some(&text("https://b.example")));
}

#[test]
fn worker_ids_win_over_fresh_ones() {
    let call = planned("crawl", obj(vec![("startUrl", text("u"))]));
    let reply = obj(vec![
        ("jobId", text("JOB")),
        ("siteMapId", text("MAP")),
        ("pages", Json::Array(vec![text("/home"), text("/about")])),
    ]);
    let fx = finish(&call, &reply, &Fresh::draw());
    assert_eq!(
        fx.result,
        obj(vec![
            ("jobId", text("JOB")),
            ("siteMapId", text("MAP")),
            ("pages", Json::Array(vec![text("/home"), text("/about")])),
        ])
    );
    assert_eq!(fx.manifests[0].0, ".site2ts/cache/sitemaps/MAP.json");
    assert_eq!(fx.log_path, ".site2ts/logs/JOB.ndjson");
    assert_eq!(member(&fx.log_record, "data"), Some(&obj(vec![("pages", num("2"))])));
    assert_eq!(fx.dirs, vec![".site2ts/cache/sitemaps", ".site2ts/logs"]);
}

#[test]
fn every_stage_logs_one_record_with_all_fields() {
    let cases = vec![
        ("init", obj(vec![("projectRoot", text("r"))])),
        ("crawl", obj(vec![("startUrl", text("u"))])),
        ("analyze", obj(vec![("siteMapId", text("s"))])),
        ("scaffold", obj(vec![("analysisId", text("a"))])),
        ("generate", obj(vec![("analysisId", text("a")), ("scaffoldId", text("s"))])),
        ("diff", obj(vec![("generationId", text("g"))])),
        ("audit", obj(vec![("generationId", text("g"))])),
        ("apply", obj(vec![("generationId", text("g"))])),
        ("assets", obj(vec![])),
        ("pack", obj(vec![("generationId", text("g"))])),
    ];
    for (stage, params) in cases {
        let call = planned(stage, params);
        let fresh = Fresh::draw();
        let fx = finish(&call, &obj(vec![]), &fresh);
        let keys: Vec<&str> = match &fx.log_record {
            Json::Object(f) => f.iter().map(|(k, _)| k.as_str()).collect(),
            other => panic!("record must be an object: {:?}", other),
        };
        assert_eq!(keys, vec!["ts", "level", "jobId", "phase", "msg", "data"]);
        assert_eq!(member(&fx.log_record, "phase"), Some(&text(stage)));
        assert_eq!(member(&fx.log_record, "level"), Some(&text("info")));
        assert_eq!(member(&fx.log_record, "jobId"), Some(&Json::Str(fresh.job_id.clone())));
        assert!(fx.log_path.ends_with(&format!("logs/{}.ndjson", fresh.job_id)));
        assert_eq!(member(&fx.result, "jobId"), Some(&Json::Str(fresh.job_id.clone())));
    }
}

#[test]
fn report_stages_merge_ids_into_the_reply() {
    let call = planned("diff", obj(vec![("generationId", text("g"))]));
    let reply = obj(vec![("jobId", text("old")), ("pixels", num("3"))]);
    let fresh = Fresh::draw();
    let fx = finish(&call, &reply, &fresh);
    assert_eq!(
        fx.result,
        obj(vec![("jobId", text("old")), ("pixels", num("3")), ("diffId", Json::Str(fresh.artifact_id.clone()))])
    );
    assert!(fx.manifests.is_empty());
    let call = planned("pack", obj(vec![("generationId", text("g"))]));
    let fx = finish(&call, &Json::Array(vec![]), &fresh);
    assert_eq!(fx.result, obj(vec![("jobId", Json::Str(fresh.job_id.clone()))]));
}

#[test]
fn analyze_and_generate_write_their_manifests() {
    let call = planned("analyze", obj(vec![("siteMapId", text("S"))]));
    let fx = finish(&call, &obj(vec![("analysisId", text("A")), ("routes", Json::Array(vec![text("/")]))]), &Fresh::draw());
    assert_eq!(fx.manifests[0].0, ".site2ts/staging/meta/analysis.json");
    assert_eq!(
        fx.manifests[0].1,
        obj(vec![
            ("analysisId", text("A")),
            ("siteMapId", text("S")),
            ("routes", Json::Array(vec![text("/")])),
            ("forms", Json::Array(vec![])),
            (
                "assets",
                obj(vec![
                    ("images", Json::Array(vec![])),
                    ("fonts", Json::Array(vec![])),
                    ("styles", Json::Array(vec![])),
                ])
            ),
        ])
    );
    assert_eq!(member(&fx.log_record, "data"), Some(&obj(vec![("routes", num("1"))])));
    let call = planned("scaffold", obj(vec![("analysisId", text("A"))]));
    let fx = finish(&call, &obj(vec![("scaffoldId", text("SC"))]), &Fresh::draw());
    assert_eq!(fx.manifests[0].0, ".site2ts/staging/meta/scaffolds/SC.json");
    assert_eq!(member(&fx.result, "outDir"), Some(&text(".site2ts/staging")));
    let call = planned("generate", obj(vec![("analysisId", text("A")), ("scaffoldId", text("SC"))]));
    let fx = finish(&call, &obj(vec![("generationId", text("G"))]), &Fresh::draw());
    assert_eq!(fx.manifests[0].0, ".site2ts/staging/meta/generations/G.json");
    assert_eq!(
        fx.manifests[0].1,
        obj(vec![("generationId", text("G")), ("analysisId", text("A")), ("scaffoldId", text("SC"))])
    );
}

#[test]
fn fresh_values_have_the_documented_shape() {
    let f = Fresh::draw();
    assert!(is_base32(&f.job_id));
    assert!(is_base32(&f.artifact_id));
    assert!(f.now.ends_with('Z'));
    assert_eq!(f.now.len(), 24);
    assert_ne!(new_id(), new_id());
}

#[test]
fn blank_lines_are_detected() {
    assert!(is_blank(""));
    assert!(is_blank(" \t\r\n\u{a0}"));
    assert!(!is_blank("  {}"));
}
