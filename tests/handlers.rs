use site2ts_server::effects::finish;
use site2ts_server::fresh::Fresh;
use site2ts_server::json::Json;
use site2ts_server::params::{AnalyzeParams, ApplyParams, GenerateParams, InitParams};
use site2ts_server::stages::{check_ready, StageCall, StageParams};

fn text(s: &str) -> Json {
    Json::Str(s.to_string())
}

fn obj(fields: Vec<(&str, Json)>) -> Json {
    Json::Object(fields.into_iter().map(|(k, v)| (k.to_string(), v)).collect())
}

#[test]
fn missing_param_returns_invalid_params_error() {
    let err = match InitParams::parse(&obj(vec![])) {
        Ok(_) => panic!("projectRoot is required"),
        Err(e) => e,
    };
    assert_eq!(err.code(), -32602);
    assert!(err.message().contains("projectRoot") || err.message().contains("missing field"));
}

#[test]
fn analyze_before_crawl_returns_order_error() {
    let call = StageCall::new(
        StageParams::Analyze(AnalyzeParams { site_map_id: "missing".into() }),
        "fallback",
    );
    let err = check_ready(&call, false).unwrap_err();
    assert_eq!(err.code(), -32001);
    assert!(err.message().contains("crawl"));
}

#[test]
fn generate_before_scaffold_returns_order_error() {
    let call = StageCall::new(
        StageParams::Generate(GenerateParams {
            analysis_id: "analysis".into(),
            scaffold_id: "scaffold".into(),
            tailwind_mode: String::new(),
        }),
        "fallback",
    );
    let err = check_ready(&call, false).unwrap_err();
    assert_eq!(err.code(), -32003);
    assert!(err.message().contains("scaffold"));
}

#[test]
fn apply_before_generate_returns_order_error() {
    let call = StageCall::new(
        StageParams::Apply(ApplyParams { generation_id: "gen".into(), target: None, dry_run: None }),
        "fallback",
    );
    let err = check_ready(&call, false).unwrap_err();
    assert_eq!(err.code(), -32006);
    assert!(err.message().contains("generate"));
}

#[test]
fn order_checks_pass_once_the_upstream_manifest_exists() {
    let call = StageCall::new(
        StageParams::Analyze(AnalyzeParams { site_map_id: "abc".into() }),
        "fallback",
    );
    assert_eq!(call.needs.as_ref().unwrap().path, ".site2ts/cache/sitemaps/abc.json");
    assert!(check_ready(&call, true).is_ok());
}

#[test]
fn generate_needs_the_named_scaffold_manifest() {
    let call = StageCall::new(
        StageParams::Generate(GenerateParams {
            analysis_id: "a".into(),
            scaffold_id: "s1".into(),
            tailwind_mode: String::new(),
        }),
        "fallback",
    );
    assert_eq!(call.needs.as_ref().unwrap().path, ".site2ts/staging/meta/scaffolds/s1.json");
    assert_eq!(call.method, "generate");
    assert_eq!(
        call.worker_params,
        obj(vec![
            ("analysisId", text("a")),
            ("scaffoldId", text("s1")),
            ("tailwindMode", text("full")),
        ])
    );
}

#[test]
fn init_twice_creates_the_same_skeleton() {
    let call = StageCall::new(
        StageParams::Init(InitParams { project_root: "/tmp/proj".into() }),
        "fallback",
    );
    assert!(call.optional);
    assert!(call.needs.is_none());
    assert!(check_ready(&call, false).is_ok());
    let first = finish(&call, &obj(vec![]), &Fresh::draw());
    let second = finish(&call, &obj(vec![]), &Fresh::draw());
    let expected = vec![
        "/tmp/proj/.site2ts/staging",
        "/tmp/proj/.site2ts/cache/pw",
        "/tmp/proj/.site2ts/reports",
        "/tmp/proj/.site2ts/logs",
        "/tmp/proj/.site2ts/exports",
    ];
    assert_eq!(first.dirs, expected);
    assert_eq!(second.dirs, expected);
    assert_eq!(first.manifests[0].0, "/tmp/proj/.site2ts/pins.json");
    match &first.manifests[0].1 {
        Json::Object(f) => {
            assert_eq!(f[0], ("node".to_string(), text("20.15.0")));
            assert_eq!(f[5].0, "createdAt");
        }
        other => panic!("pins must be an object, got {:?}", other),
    }
}

#[test]
fn init_result_reports_pinned_versions() {
    let call = StageCall::new(
        StageParams::Init(InitParams { project_root: "p".into() }),
        "fallback",
    );
    let fx = finish(&call, &obj(vec![("jobId", text("J1"))]), &Fresh::draw());
    assert_eq!(
        fx.result,
        obj(vec![
            ("ok", Json::Bool(true)),
            (
                "pinned",
                obj(vec![
                    ("node", text("20.x")),
                    ("next", text("14.x")),
                    ("ts", text("5.x")),
                    ("playwright", text("1.x")),
                ])
            ),
            ("jobId", text("J1")),
        ])
    );
    assert_eq!(fx.log_path, "p/.site2ts/logs/J1.ndjson");
}
