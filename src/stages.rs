//! Stage handling: from a request to the worker call it makes, the upstream
//! artifact it needs, and the manifests, log record and result it produces.
use vstd::prelude::*;
use crate::error::{
    RpcError, RpcErrorModel, INTERNAL_ERROR, INVALID_PARAMS, PARSE_ERROR, NEEDS_CRAWL, NEEDS_ANALYZE, NEEDS_SCAFFOLD, DIFF_NEEDS_GENERATE,
    AUDIT_NEEDS_GENERATE, APPLY_NEEDS_GENERATE, PACK_NEEDS_GENERATE, METHOD_NOT_FOUND,
};
use crate::fields::{Fault, fault_message, fault_of, field_error, first_fault, lemma_first_fault_found, text_field, texts};
use crate::json::{Json, JsonModel, decimal, fields_model, items_model, push_field, push_item};
use crate::layout::{
    analysis_path, generation_path, scaffold_path, sitemap_path, analysis_file, generation_file,
    scaffold_file, sitemap_file,
};
use crate::params::{
    AnalyzeParams, ApplyParams, AssetsParams, AuditParams, CrawlParams, DiffParams,
    GenerateParams, InitParams, PackParams, ScaffoldParams, decode_error, opt_texts,
};
use crate::protocol::{Request, Stage, method_not_found, opt_model, stage_for, stage_named};

verus! {

/// The decoded parameters of one stage.
#[derive(Debug)]
pub enum StageParams {
    Init(InitParams),
    Crawl(CrawlParams),
    Analyze(AnalyzeParams),
    Scaffold(ScaffoldParams),
    Generate(GenerateParams),
    Diff(DiffParams),
    Audit(AuditParams),
    Apply(ApplyParams),
    Assets(AssetsParams),
    Pack(PackParams),
}

impl StageParams {
    pub open spec fn stage(self) -> Stage {
        match self {
            StageParams::Init(_) => Stage::Init,
            StageParams::Crawl(_) => Stage::Crawl,
            StageParams::Analyze(_) => Stage::Analyze,
            StageParams::Scaffold(_) => Stage::Scaffold,
            StageParams::Generate(_) => Stage::Generate,
            StageParams::Diff(_) => Stage::Diff,
            StageParams::Audit(_) => Stage::Audit,
            StageParams::Apply(_) => Stage::Apply,
            StageParams::Assets(_) => Stage::Assets,
            StageParams::Pack(_) => Stage::Pack,
        }
    }

    /// The parameters were read from the `params` object `p`.
    pub open spec fn read_from(self, p: JsonModel) -> bool {
        match self {
            StageParams::Init(c) => c.read_from(p),
            StageParams::Crawl(c) => c.read_from(p),
            StageParams::Analyze(c) => c.read_from(p),
            StageParams::Scaffold(c) => c.read_from(p),
            StageParams::Generate(c) => c.read_from(p),
            StageParams::Diff(c) => c.read_from(p),
            StageParams::Audit(c) => c.read_from(p),
            StageParams::Apply(c) => c.read_from(p),
            StageParams::Assets(c) => c.read_from(p),
            StageParams::Pack(c) => c.read_from(p),
        }
    }
}

/// The members of a stage's `params` object that can be faulty, in the order
/// in which they are read.
pub open spec fn stage_checks(s: Stage, p: JsonModel) -> Seq<(Seq<char>, Option<Fault>)> {
    match s {
        Stage::Init => InitParams::checks(p),
        Stage::Crawl => CrawlParams::checks(p),
        Stage::Analyze => AnalyzeParams::checks(p),
        Stage::Scaffold => ScaffoldParams::checks(p),
        Stage::Generate => GenerateParams::checks(p),
        Stage::Diff => DiffParams::checks(p),
        Stage::Audit => AuditParams::checks(p),
        Stage::Apply => ApplyParams::checks(p),
        Stage::Assets => AssetsParams::checks(p),
        Stage::Pack => PackParams::checks(p),
    }
}

pub open spec fn text_items(v: Seq<Seq<char>>) -> Seq<JsonModel> {
    v.map_values(|s: Seq<char>| JsonModel::Str(s))
}

pub open spec fn text_or(o: Option<Seq<char>>, d: Seq<char>) -> Seq<char> {
    match o {
        Some(s) => s,
        None => d,
    }
}

pub open spec fn bool_or(o: Option<bool>, d: bool) -> bool {
    match o {
        Some(b) => b,
        None => d,
    }
}

/// The crawl options, as sent to the worker and kept in the sitemap manifest.
pub open spec fn crawl_option_fields(c: CrawlParams) -> Seq<(Seq<char>, JsonModel)> {
    seq![
        ("startUrl"@, JsonModel::Str(c.start_url@)),
        ("sameOrigin"@, JsonModel::Bool(c.same_origin)),
        ("maxPages"@, JsonModel::Num(decimal(c.max_pages as nat))),
        ("maxDepth"@, JsonModel::Num(decimal(c.max_depth as nat))),
        ("allow"@, JsonModel::Array(text_items(texts(c.allow@)))),
        ("deny"@, JsonModel::Array(text_items(texts(c.deny@)))),
        ("concurrency"@, JsonModel::Num(decimal(c.concurrency as nat))),
        ("delayMs"@, JsonModel::Num(decimal(c.delay_ms as nat))),
        ("useSitemap"@, JsonModel::Bool(c.use_sitemap)),
        ("obeyRobots"@, JsonModel::Bool(c.obey_robots)),
    ]
}

/// The viewport used for screenshots unless the caller names one.
pub open spec fn default_viewport() -> JsonModel {
    JsonModel::Object(
        seq![
            ("width"@, JsonModel::Num(decimal(1280))),
            ("height"@, JsonModel::Num(decimal(800))),
            ("deviceScale"@, JsonModel::Num(decimal(1))),
        ],
    )
}

/// The identifier that `assets` works on: the sitemap, else the generation,
/// else a fresh one.
pub open spec fn assets_subject(c: AssetsParams, fallback: Seq<char>) -> Seq<char> {
    match c.site_map_id {
        Some(s) => s@,
        None => match c.generation_id {
            Some(g) => g@,
            None => fallback,
        },
    }
}

/// The worker method that a stage delegates to.
pub open spec fn worker_method(s: Stage) -> Seq<char> {
    match s {
        Stage::Init => "initRuntime"@,
        Stage::Crawl => "crawl"@,
        Stage::Analyze => "analyze"@,
        Stage::Scaffold => "scaffold"@,
        Stage::Generate => "generate"@,
        Stage::Diff => "diff"@,
        Stage::Audit => "audit"@,
        Stage::Apply => "apply"@,
        Stage::Assets => "assets"@,
        Stage::Pack => "pack"@,
    }
}

/// The normalised parameters sent to the worker, defaults filled in.
pub open spec fn worker_request(p: StageParams, fallback: Seq<char>) -> JsonModel {
    match p {
        StageParams::Init(_) => JsonModel::Object(Seq::empty()),
        StageParams::Crawl(c) => JsonModel::Object(crawl_option_fields(c)),
        StageParams::Analyze(c) => JsonModel::Object(seq![("siteMapId"@, JsonModel::Str(c.site_map_id@))]),
        StageParams::Scaffold(c) => JsonModel::Object(
            seq![
                ("analysisId"@, JsonModel::Str(c.analysis_id@)),
                ("appRouter"@, JsonModel::Bool(c.app_router)),
            ],
        ),
        StageParams::Generate(c) => JsonModel::Object(
            seq![
                ("analysisId"@, JsonModel::Str(c.analysis_id@)),
                ("scaffoldId"@, JsonModel::Str(c.scaffold_id@)),
                ("tailwindMode"@, JsonModel::Str(
                    if c.tailwind_mode@.len() == 0 { "full"@ } else { c.tailwind_mode@ },
                )),
            ],
        ),
        StageParams::Diff(c) => JsonModel::Object(
            seq![
                ("generationId"@, JsonModel::Str(c.generation_id@)),
                ("baselines"@, JsonModel::Str(text_or(opt_texts(c.baselines), "recrawl"@))),
                ("viewport"@, match opt_model(c.viewport) {
                    Some(v) => v,
                    None => default_viewport(),
                }),
                ("threshold"@, JsonModel::Num(text_or(opt_texts(c.threshold), "0.01"@))),
            ],
        ),
        StageParams::Audit(c) => JsonModel::Object(
            seq![
                ("generationId"@, JsonModel::Str(c.generation_id@)),
                ("tsStrict"@, JsonModel::Bool(bool_or(c.ts_strict, true))),
                ("eslintConfig"@, JsonModel::Str(text_or(opt_texts(c.eslint_config), "recommended"@))),
            ],
        ),
        StageParams::Apply(c) => JsonModel::Object(
            seq![
                ("generationId"@, JsonModel::Str(c.generation_id@)),
                ("target"@, JsonModel::Str(text_or(opt_texts(c.target), "./"@))),
                ("dryRun"@, JsonModel::Bool(bool_or(c.dry_run, false))),
            ],
        ),
        StageParams::Assets(c) => JsonModel::Object(
            seq![("generationId"@, JsonModel::Str(assets_subject(c, fallback)))],
        ),
        StageParams::Pack(c) => JsonModel::Object(seq![("generationId"@, JsonModel::Str(c.generation_id@))]),
    }
}

/// The message of an ordering error: it starts with the stage that must run
/// first.
pub open spec fn order_message(upstream: Seq<char>, what: Seq<char>, id: Seq<char>) -> Seq<char> {
    upstream + " must run first: no "@ + what + " manifest for `"@ + id + "`"@
}

/// The upstream artifact a stage needs: its manifest path, the error code
/// when it is missing, and the message.
pub open spec fn upstream_of(p: StageParams) -> Option<(Seq<char>, int, Seq<char>)> {
    match p {
        StageParams::Analyze(c) => Some(
            (sitemap_path(c.site_map_id@), NEEDS_CRAWL as int, order_message("crawl"@, "sitemap"@, c.site_map_id@)),
        ),
        StageParams::Scaffold(c) => Some(
            (analysis_path(), NEEDS_ANALYZE as int, order_message("analyze"@, "analysis"@, c.analysis_id@)),
        ),
        StageParams::Generate(c) => Some(
            (scaffold_path(c.scaffold_id@), NEEDS_SCAFFOLD as int, order_message("scaffold"@, "scaffold"@, c.scaffold_id@)),
        ),
        StageParams::Diff(c) => Some(
            (generation_path(c.generation_id@), DIFF_NEEDS_GENERATE as int, order_message("generate"@, "generation"@, c.generation_id@)),
        ),
        StageParams::Audit(c) => Some(
            (generation_path(c.generation_id@), AUDIT_NEEDS_GENERATE as int, order_message("generate"@, "generation"@, c.generation_id@)),
        ),
        StageParams::Apply(c) => Some(
            (generation_path(c.generation_id@), APPLY_NEEDS_GENERATE as int, order_message("generate"@, "generation"@, c.generation_id@)),
        ),
        StageParams::Pack(c) => Some(
            (generation_path(c.generation_id@), PACK_NEEDS_GENERATE as int, order_message("generate"@, "generation"@, c.generation_id@)),
        ),
        _ => None,
    }
}

/// A manifest that must already exist before a stage may run.
#[derive(Debug)]
pub struct Upstream {
    pub path: String,
    pub code: i64,
    pub message: String,
}

pub open spec fn upstream_model(u: Option<Upstream>) -> Option<(Seq<char>, int, Seq<char>)> {
    match u {
        Some(x) => Some((x.path@, x.code as int, x.message@)),
        None => None,
    }
}

/// One planned stage invocation.
#[derive(Debug)]
pub struct StageCall {
    pub params: StageParams,
    /// The worker method to call.
    pub method: String,
    /// The normalised parameters for the worker.
    pub worker_params: Json,
    /// The manifest that must exist first, if any.
    pub needs: Option<Upstream>,
    /// Whether the stage goes on without the worker when it cannot be started.
    pub optional: bool,
}

impl StageCall {
    /// The call is the one that `p` asks for, with `fallback` as the fresh
    /// identifier where the stage needs one before the worker answers.
    pub open spec fn planned_from(self, p: StageParams, fallback: Seq<char>) -> bool {
        &&& self.params == p
        &&& self.method@ == worker_method(p.stage())
        &&& self.worker_params@ == worker_request(p, fallback)
        &&& upstream_model(self.needs) == upstream_of(p)
        &&& self.optional == (p.stage() == Stage::Init)
    }
}

fn text_array(v: &Vec<String>) -> (r: Json)
    ensures
        r@ == JsonModel::Array(text_items(texts(v@))),
{
    let mut items: Vec<Json> = Vec::new();
    let mut i: usize = 0;
    while i < v.len()
        invariant
            i <= v@.len(),
            items_model(items@) == text_items(texts(v@.subrange(0, i as int))),
        decreases v@.len() - i,
    {
        push_item(&mut items, Json::Str(v[i].clone()));
        assert(text_items(texts(v@.subrange(0, i + 1))) =~= text_items(texts(v@.subrange(0, i as int))).push(JsonModel::Str(v@[i as int]@)));
        i = i + 1;
    }
    assert(v@.subrange(0, v@.len() as int) =~= v@);
    Json::Array(items)
}

pub(crate) fn crawl_options(c: &CrawlParams) -> (r: Vec<(String, Json)>)
    ensures
        fields_model(r@) == crawl_option_fields(*c),
{
    let mut f: Vec<(String, Json)> = Vec::new();
    push_field(&mut f, "startUrl", Json::Str(c.start_url.clone()));
    push_field(&mut f, "sameOrigin", Json::Bool(c.same_origin));
    push_field(&mut f, "maxPages", Json::unsigned(c.max_pages as u64));
    push_field(&mut f, "maxDepth", Json::unsigned(c.max_depth as u64));
    push_field(&mut f, "allow", text_array(&c.allow));
    push_field(&mut f, "deny", text_array(&c.deny));
    push_field(&mut f, "concurrency", Json::unsigned(c.concurrency as u64));
    push_field(&mut f, "delayMs", Json::unsigned(c.delay_ms));
    push_field(&mut f, "useSitemap", Json::Bool(c.use_sitemap));
    push_field(&mut f, "obeyRobots", Json::Bool(c.obey_robots));
    assert(fields_model(f@) =~= crawl_option_fields(*c));
    f
}

fn text_or_default(o: &Option<String>, d: &str) -> (r: Json)
    ensures
        r@ == JsonModel::Str(text_or(opt_texts(*o), d@)),
{
    match o {
        Some(s) => Json::Str(s.clone()),
        None => Json::text(d),
    }
}

fn worker_params_for(p: &StageParams, fallback: &str) -> (r: Json)
    ensures
        r@ == worker_request(*p, fallback@),
{
    let mut f: Vec<(String, Json)> = Vec::new();
    match p {
        StageParams::Init(_) => {
            assert(JsonModel::Object(fields_model(f@)) =~~= worker_request(*p, fallback@));
        },
        StageParams::Crawl(c) => {
            f = crawl_options(c);
            assert(JsonModel::Object(fields_model(f@)) =~~= worker_request(*p, fallback@));
        },
        StageParams::Analyze(c) => {
            push_field(&mut f, "siteMapId", Json::Str(c.site_map_id.clone()));
            assert(JsonModel::Object(fields_model(f@)) =~~= worker_request(*p, fallback@));
        },
        StageParams::Scaffold(c) => {
            push_field(&mut f, "analysisId", Json::Str(c.analysis_id.clone()));
            push_field(&mut f, "appRouter", Json::Bool(c.app_router));
            assert(fields_model(f@) =~= seq![
                ("analysisId"@, JsonModel::Str(c.analysis_id@)),
                ("appRouter"@, JsonModel::Bool(c.app_router)),
            ]);
            assert(JsonModel::Object(fields_model(f@)) =~~= worker_request(*p, fallback@));
        },
        StageParams::Generate(c) => {
            push_field(&mut f, "analysisId", Json::Str(c.analysis_id.clone()));
            push_field(&mut f, "scaffoldId", Json::Str(c.scaffold_id.clone()));
            let mode = if c.tailwind_mode.unicode_len() == 0 {
                Json::text("full")
            } else {
                Json::Str(c.tailwind_mode.clone())
            };
            push_field(&mut f, "tailwindMode", mode);
            assert(fields_model(f@) =~= seq![
                ("analysisId"@, JsonModel::Str(c.analysis_id@)),
                ("scaffoldId"@, JsonModel::Str(c.scaffold_id@)),
                ("tailwindMode"@, JsonModel::Str(
                    if c.tailwind_mode@.len() == 0 { "full"@ } else { c.tailwind_mode@ },
                )),
            ]);
            assert(JsonModel::Object(fields_model(f@)) =~~= worker_request(*p, fallback@));
        },
        StageParams::Diff(c) => {
            push_field(&mut f, "generationId", Json::Str(c.generation_id.clone()));
            push_field(&mut f, "baselines", text_or_default(&c.baselines, "recrawl"));
            let viewport = match &c.viewport {
                Some(v) => v.duplicate(),
                None => {
                    let mut vp: Vec<(String, Json)> = Vec::new();
                    push_field(&mut vp, "width", Json::unsigned(1280));
                    push_field(&mut vp, "height", Json::unsigned(800));
                    push_field(&mut vp, "deviceScale", Json::unsigned(1));
                    assert(fields_model(vp@) =~= seq![
                        ("width"@, JsonModel::Num(decimal(1280))),
                        ("height"@, JsonModel::Num(decimal(800))),
                        ("deviceScale"@, JsonModel::Num(decimal(1))),
                    ]);
                    Json::Object(vp)
                },
            };
            push_field(&mut f, "viewport", viewport);
            let threshold = match &c.threshold {
                Some(t) => Json::Num(t.clone()),
                None => Json::Num(String::from_str("0.01")),
            };
            push_field(&mut f, "threshold", threshold);
            assert(fields_model(f@) =~= seq![
                ("generationId"@, JsonModel::Str(c.generation_id@)),
                ("baselines"@, JsonModel::Str(text_or(opt_texts(c.baselines), "recrawl"@))),
                ("viewport"@, match opt_model(c.viewport) {
                    Some(v) => v,
                    None => default_viewport(),
                }),
                ("threshold"@, JsonModel::Num(text_or(opt_texts(c.threshold), "0.01"@))),
            ]);
            assert(JsonModel::Object(fields_model(f@)) =~~= worker_request(*p, fallback@));
        },
        StageParams::Audit(c) => {
            push_field(&mut f, "generationId", Json::Str(c.generation_id.clone()));
            let strict = match c.ts_strict {
                Some(b) => b,
                None => true,
            };
            push_field(&mut f, "tsStrict", Json::Bool(strict));
            push_field(&mut f, "eslintConfig", text_or_default(&c.eslint_config, "recommended"));
            assert(fields_model(f@) =~= seq![
                ("generationId"@, JsonModel::Str(c.generation_id@)),
                ("tsStrict"@, JsonModel::Bool(bool_or(c.ts_strict, true))),
                ("eslintConfig"@, JsonModel::Str(text_or(opt_texts(c.eslint_config), "recommended"@))),
            ]);
            assert(JsonModel::Object(fields_model(f@)) =~~= worker_request(*p, fallback@));
        },
        StageParams::Apply(c) => {
            push_field(&mut f, "generationId", Json::Str(c.generation_id.clone()));
            push_field(&mut f, "target", text_or_default(&c.target, "./"));
            let dry = match c.dry_run {
                Some(b) => b,
                None => false,
            };
            push_field(&mut f, "dryRun", Json::Bool(dry));
            assert(fields_model(f@) =~= seq![
                ("generationId"@, JsonModel::Str(c.generation_id@)),
                ("target"@, JsonModel::Str(text_or(opt_texts(c.target), "./"@))),
                ("dryRun"@, JsonModel::Bool(bool_or(c.dry_run, false))),
            ]);
            assert(JsonModel::Object(fields_model(f@)) =~~= worker_request(*p, fallback@));
        },
        StageParams::Assets(c) => {
            let subject = match &c.site_map_id {
                Some(s) => s.clone(),
                None => match &c.generation_id {
                    Some(g) => g.clone(),
                    None => String::from_str(fallback),
                },
            };
            push_field(&mut f, "generationId", Json::Str(subject));
            assert(fields_model(f@) =~= seq![("generationId"@, JsonModel::Str(assets_subject(*c, fallback@)))]);
            assert(JsonModel::Object(fields_model(f@)) =~~= worker_request(*p, fallback@));
        },
        StageParams::Pack(c) => {
            push_field(&mut f, "generationId", Json::Str(c.generation_id.clone()));
            assert(JsonModel::Object(fields_model(f@)) =~~= worker_request(*p, fallback@));
        },
    }
    Json::Object(f)
}

fn order_error_text(upstream: &str, what: &str, id: &str) -> (r: String)
    ensures
        r@ == order_message(upstream@, what@, id@),
{
    let mut m = String::from_str(upstream);
    m.append(" must run first: no ");
    m.append(what);
    m.append(" manifest for `");
    m.append(id);
    m.append("`");
    m
}

fn upstream_for(p: &StageParams) -> (r: Option<Upstream>)
    ensures
        upstream_model(r) == upstream_of(*p),
{
    match p {
        StageParams::Analyze(c) => Some(Upstream {
            path: sitemap_file(c.site_map_id.as_str()),
            code: NEEDS_CRAWL,
            message: order_error_text("crawl", "sitemap", c.site_map_id.as_str()),
        }),
        StageParams::Scaffold(c) => Some(Upstream {
            path: analysis_file(),
            code: NEEDS_ANALYZE,
            message: order_error_text("analyze", "analysis", c.analysis_id.as_str()),
        }),
        StageParams::Generate(c) => Some(Upstream {
            path: scaffold_file(c.scaffold_id.as_str()),
            code: NEEDS_SCAFFOLD,
            message: order_error_text("scaffold", "scaffold", c.scaffold_id.as_str()),
        }),
        StageParams::Diff(c) => Some(Upstream {
            path: generation_file(c.generation_id.as_str()),
            code: DIFF_NEEDS_GENERATE,
            message: order_error_text("generate", "generation", c.generation_id.as_str()),
        }),
        StageParams::Audit(c) => Some(Upstream {
            path: generation_file(c.generation_id.as_str()),
            code: AUDIT_NEEDS_GENERATE,
            message: order_error_text("generate", "generation", c.generation_id.as_str()),
        }),
        StageParams::Apply(c) => Some(Upstream {
            path: generation_file(c.generation_id.as_str()),
            code: APPLY_NEEDS_GENERATE,
            message: order_error_text("generate", "generation", c.generation_id.as_str()),
        }),
        StageParams::Pack(c) => Some(Upstream {
            path: generation_file(c.generation_id.as_str()),
            code: PACK_NEEDS_GENERATE,
            message: order_error_text("generate", "generation", c.generation_id.as_str()),
        }),
        _ => None,
    }
}

fn method_for(p: &StageParams) -> (r: String)
    ensures
        r@ == worker_method(p.stage()),
{
    match p {
        StageParams::Init(_) => String::from_str("initRuntime"),
        StageParams::Crawl(_) => String::from_str("crawl"),
        StageParams::Analyze(_) => String::from_str("analyze"),
        StageParams::Scaffold(_) => String::from_str("scaffold"),
        StageParams::Generate(_) => String::from_str("generate"),
        StageParams::Diff(_) => String::from_str("diff"),
        StageParams::Audit(_) => String::from_str("audit"),
        StageParams::Apply(_) => String::from_str("apply"),
        StageParams::Assets(_) => String::from_str("assets"),
        StageParams::Pack(_) => String::from_str("pack"),
    }
}

impl StageCall {
    /// Plans the invocation that `p` asks for.
    pub fn new(p: StageParams, fallback: &str) -> (r: StageCall)
        ensures
            r.planned_from(p, fallback@),
    {
        let method = method_for(&p);
        let worker_params = worker_params_for(&p, fallback);
        let needs = upstream_for(&p);
        let optional = match p {
            StageParams::Init(_) => true,
            _ => false,
        };
        StageCall { params: p, method, worker_params, needs, optional }
    }
}

/// Plans the stage that a request names. `fallback` is the fresh identifier
/// used where a stage needs one before the worker answers.
pub fn plan(req: &Request, fallback: &str) -> (r: Result<StageCall, RpcError>)
    ensures
        stage_named(req.method@) is None ==> r is Err && r->Err_0@ == (RpcErrorModel {
            code: METHOD_NOT_FOUND as int,
            message: "method not found"@,
            data: None,
        }),
        stage_named(req.method@) matches Some(s) ==> (r is Ok <==> first_fault(stage_checks(s, req.params@)) is None),
        stage_named(req.method@) matches Some(s) ==> (r is Err ==> decode_error(stage_checks(s, req.params@)) == Some(r->Err_0@)),
        r matches Ok(c) ==> {
            &&& stage_named(req.method@) == Some(c.params.stage())
            &&& c.params.read_from(req.params@)
            &&& c.planned_from(c.params, fallback@)
        },
{
    let stage = match stage_for(req.method.as_str()) {
        Some(s) => s,
        None => {
            return Err(method_not_found());
        },
    };
    let p = &req.params;
    let params = match stage {
        Stage::Init => match InitParams::parse(p) {
            Ok(c) => StageParams::Init(c),
            Err(e) => return Err(e),
        },
        Stage::Crawl => match CrawlParams::parse(p) {
            Ok(c) => StageParams::Crawl(c),
            Err(e) => return Err(e),
        },
        Stage::Analyze => match AnalyzeParams::parse(p) {
            Ok(c) => StageParams::Analyze(c),
            Err(e) => return Err(e),
        },
        Stage::Scaffold => match ScaffoldParams::parse(p) {
            Ok(c) => StageParams::Scaffold(c),
            Err(e) => return Err(e),
        },
        Stage::Generate => match GenerateParams::parse(p) {
            Ok(c) => StageParams::Generate(c),
            Err(e) => return Err(e),
        },
        Stage::Diff => match DiffParams::parse(p) {
            Ok(c) => StageParams::Diff(c),
            Err(e) => return Err(e),
        },
        Stage::Audit => match AuditParams::parse(p) {
            Ok(c) => StageParams::Audit(c),
            Err(e) => return Err(e),
        },
        Stage::Apply => match ApplyParams::parse(p) {
            Ok(c) => StageParams::Apply(c),
            Err(e) => return Err(e),
        },
        Stage::Assets => match AssetsParams::parse(p) {
            Ok(c) => StageParams::Assets(c),
            Err(e) => return Err(e),
        },
        Stage::Pack => match PackParams::parse(p) {
            Ok(c) => StageParams::Pack(c),
            Err(e) => return Err(e),
        },
    };
    Ok(StageCall::new(params, fallback))
}

/// Whether the stage may run, given whether its upstream manifest exists.
pub fn check_ready(call: &StageCall, exists: bool) -> (r: Result<(), RpcError>)
    ensures
        r is Err <==> (call.needs is Some && !exists),
        r is Err ==> (upstream_model(call.needs) matches Some(u) && r->Err_0@ == (RpcErrorModel {
            code: u.1,
            message: u.2,
            data: None,
        })),
{
    match &call.needs {
        Some(u) => if exists {
            Ok(())
        } else {
            Err(RpcError::new(u.code, u.message.clone(), None))
        },
        None => Ok(()),
    }
}

/// `w` occurs in `s`.
pub open spec fn mentions(s: Seq<char>, w: Seq<char>) -> bool {
    exists|i: int| 0 <= i && i + w.len() <= s.len() && #[trigger] s.subrange(i, i + w.len()) == w
}

/// A parameter error names the member it is about.
pub proof fn lemma_field_error_names_member(key: Seq<char>, f: Fault)
    ensures
        mentions(fault_message(key, f), key),
{
    let prefix = match f {
        Fault::Missing => "missing field `"@,
        Fault::Mistyped => "invalid type for field `"@,
    };
    let m = fault_message(key, f);
    assert(m == prefix + key + "`"@);
    assert(m.subrange(prefix.len() as int, (prefix.len() + key.len()) as int) =~= key);
}

/// An ordering error starts with the name of the stage that must run first.
pub proof fn lemma_order_message_names_upstream(upstream: Seq<char>, what: Seq<char>, id: Seq<char>)
    ensures
        order_message(upstream, what, id).subrange(0, upstream.len() as int) == upstream,
        mentions(order_message(upstream, what, id), upstream),
{
    let m = order_message(upstream, what, id);
    assert(m.subrange(0, upstream.len() as int) =~= upstream);
    assert(m.subrange(0, 0int + upstream.len()) == upstream);
}

/// The code of the ordering error of a stage, if it has an upstream artifact.
pub open spec fn order_code(p: StageParams) -> Option<int> {
    match upstream_of(p) {
        Some(u) => Some(u.1),
        None => None,
    }
}

/// Ordering errors: `analyze` needs the sitemap manifest of its `siteMapId`
/// and otherwise fails with a code of its own that mentions `crawl`;
/// `generate` needs the scaffold manifest and mentions `scaffold`; `apply`
/// needs the generation manifest and mentions `generate`. Each stage with an
/// upstream artifact has a code that no other stage and no protocol error uses.
pub proof fn lemma_ordering_errors(p: StageParams, q: StageParams)
    ensures
        p matches StageParams::Analyze(c) ==> upstream_of(p) matches Some(u) && u.0 == sitemap_path(c.site_map_id@)
            && u.1 == NEEDS_CRAWL && mentions(u.2, "crawl"@),
        p matches StageParams::Generate(c) ==> upstream_of(p) matches Some(u) && u.0 == scaffold_path(c.scaffold_id@)
            && u.1 == NEEDS_SCAFFOLD && mentions(u.2, "scaffold"@),
        p matches StageParams::Apply(c) ==> upstream_of(p) matches Some(u) && u.0 == generation_path(c.generation_id@)
            && u.1 == APPLY_NEEDS_GENERATE && mentions(u.2, "generate"@),
        order_code(p) matches Some(k) ==> k != PARSE_ERROR && k != METHOD_NOT_FOUND && k != INVALID_PARAMS
            && k != INTERNAL_ERROR,
        order_code(p) is Some && p.stage() != q.stage() ==> order_code(p) != order_code(q),
{
    match p {
        StageParams::Analyze(c) => lemma_order_message_names_upstream("crawl"@, "sitemap"@, c.site_map_id@),
        StageParams::Generate(c) => lemma_order_message_names_upstream("scaffold"@, "scaffold"@, c.scaffold_id@),
        StageParams::Apply(c) => lemma_order_message_names_upstream("generate"@, "generation"@, c.generation_id@),
        _ => {},
    }
}

/// The members a stage cannot do without.
pub open spec fn is_required(s: Stage, key: Seq<char>) -> bool {
    match s {
        Stage::Init => key == "projectRoot"@,
        Stage::Crawl => key == "startUrl"@,
        Stage::Analyze => key == "siteMapId"@,
        Stage::Scaffold => key == "analysisId"@,
        Stage::Generate => key == "analysisId"@ || key == "scaffoldId"@,
        Stage::Diff | Stage::Audit | Stage::Apply | Stage::Pack => key == "generationId"@,
        Stage::Assets => false,
    }
}

proof fn lemma_required_is_checked(s: Stage, p: JsonModel, key: Seq<char>)
    requires
        is_required(s, key),
    ensures
        exists|j: int| 0 <= j < stage_checks(s, p).len() && #[trigger] stage_checks(s, p)[j] == (
            key,
            fault_of(text_field(p, key)),
        ),
{
    let c = stage_checks(s, p);
    match s {
        Stage::Generate => {
            if key == "analysisId"@ {
                assert(c[0] == (key, fault_of(text_field(p, key))));
            } else {
                assert(c[1] == (key, fault_of(text_field(p, key))));
            }
        },
        _ => {
            assert(c[0] == (key, fault_of(text_field(p, key))));
        },
    }
}

/// A request whose `params` lack a member the stage requires is refused with
/// `INVALID_PARAMS` and no data; the message names the first faulty member in
/// reading order, and when the missing member is the only faulty one, the
/// message names that member.
pub proof fn lemma_missing_required_field(s: Stage, p: JsonModel, key: Seq<char>)
    requires
        is_required(s, key),
        p.member(key) is None,
    ensures
        decode_error(stage_checks(s, p)) is Some,
        ({
            let e = decode_error(stage_checks(s, p))->Some_0;
            let kf = first_fault(stage_checks(s, p))->Some_0;
            &&& e.code == INVALID_PARAMS as int
            &&& e.data is None
            &&& e == field_error(kf.0, kf.1)
            &&& mentions(e.message, kf.0)
            &&& (forall|j: int| 0 <= j < stage_checks(s, p).len() && (#[trigger] stage_checks(s, p)[j]).0 != key
                ==> stage_checks(s, p)[j].1 is None) ==> kf.0 == key && mentions(e.message, key)
        }),
{
    let c = stage_checks(s, p);
    lemma_required_is_checked(s, p, key);
    lemma_first_fault_found(c);
    let kf = first_fault(c)->Some_0;
    lemma_field_error_names_member(kf.0, kf.1);
    if forall|j: int| 0 <= j < c.len() && (#[trigger] c[j]).0 != key ==> c[j].1 is None {
        let j = choose|j: int| 0 <= j < c.len() && #[trigger] c[j] == (kf.0, Some(kf.1));
        assert(c[j].0 == key);
    }
}

} // verus!
