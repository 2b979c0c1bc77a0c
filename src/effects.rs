//! What a stage leaves behind once the worker has answered: directories to
//! create, manifests to write, one job-log record, and the result.
use vstd::prelude::*;
use crate::fields::texts;
use crate::fresh::Fresh;
use crate::json::{
    Json, JsonModel, decimal, lookup, fields_model, lemma_fields_model, lemma_items_model, push_field,
    same_text,
};
use crate::layout::{
    analysis_file, analysis_path, generation_file, generation_path, join, join3, log_file, log_path,
    scaffold_file, scaffold_path, sitemap_file, sitemap_path, skeleton, skeleton_dirs, work_dir,
    work_root,
};
use crate::params::{AnalyzeParams, CrawlParams, GenerateParams, InitParams, ScaffoldParams};
use crate::stages::{StageCall, StageParams, crawl_option_fields, crawl_options};

verus! {

/// The identifier the worker gave under `key`, else the fresh one.
pub open spec fn coalesce(reply: JsonModel, key: Seq<char>, fresh: Seq<char>) -> Seq<char> {
    match reply.member(key) {
        Some(JsonModel::Str(s)) => s,
        _ => fresh,
    }
}

/// The member `key` of the reply, else `d`.
pub open spec fn member_or(reply: JsonModel, key: Seq<char>, d: JsonModel) -> JsonModel {
    match reply.member(key) {
        Some(v) => v,
        None => d,
    }
}

/// The number of items of an array; zero for anything else.
pub open spec fn item_count(v: JsonModel) -> nat {
    match v {
        JsonModel::Array(items) => items.len(),
        _ => 0,
    }
}

/// One job-log record.
pub open spec fn log_entry(
    now: Seq<char>,
    job: Seq<char>,
    phase: Seq<char>,
    msg: Seq<char>,
    data: JsonModel,
) -> JsonModel {
    JsonModel::Object(
        seq![
            ("ts"@, JsonModel::Str(now)),
            ("level"@, JsonModel::Str("info"@)),
            ("jobId"@, JsonModel::Str(job)),
            ("phase"@, JsonModel::Str(phase)),
            ("msg"@, JsonModel::Str(msg)),
            ("data"@, data),
        ],
    )
}

pub open spec fn replace_entry(f: (Seq<char>, JsonModel), key: Seq<char>, v: JsonModel) -> (Seq<char>, JsonModel) {
    if f.0 == key {
        (key, v)
    } else {
        f
    }
}

/// Sets member `key` to `v`: every member of that name is replaced, and the
/// member is appended when there is none.
pub open spec fn put_field(fields: Seq<(Seq<char>, JsonModel)>, key: Seq<char>, v: JsonModel) -> Seq<(Seq<char>, JsonModel)> {
    let replaced = fields.map_values(|f: (Seq<char>, JsonModel)| replace_entry(f, key, v));
    if exists|i: int| 0 <= i < fields.len() && (#[trigger] fields[i]).0 == key {
        replaced
    } else {
        replaced.push((key, v))
    }
}

/// An object with member `key` set to `v`; a value that is not an object is
/// replaced by an object holding only that member.
pub open spec fn put_member(j: JsonModel, key: Seq<char>, v: JsonModel) -> JsonModel {
    match j {
        JsonModel::Object(fields) => JsonModel::Object(put_field(fields, key, v)),
        _ => JsonModel::Object(seq![(key, v)]),
    }
}

pub fn coalesce_id(reply: &Json, key: &str, fresh: &String) -> (r: String)
    ensures
        r@ == coalesce(reply@, key@, fresh@),
{
    match reply.get(key) {
        Some(Json::Str(s)) => s.clone(),
        _ => fresh.clone(),
    }
}

pub fn member_or_else(reply: &Json, key: &str, d: Json) -> (r: Json)
    ensures
        r@ == member_or(reply@, key@, d@),
{
    match reply.get(key) {
        Some(v) => v.duplicate(),
        None => d,
    }
}

pub fn count_items(v: &Json) -> (r: u64)
    ensures
        r == item_count(v@),
{
    match v {
        Json::Array(items) => {
            proof {
                lemma_items_model(items@);
            }
            items.len() as u64
        },
        _ => 0,
    }
}

pub fn log_record(now: &str, job: &str, phase: &str, msg: &str, data: Json) -> (r: Json)
    ensures
        r@ == log_entry(now@, job@, phase@, msg@, data@),
{
    let mut f: Vec<(String, Json)> = Vec::new();
    push_field(&mut f, "ts", Json::text(now));
    push_field(&mut f, "level", Json::text("info"));
    push_field(&mut f, "jobId", Json::text(job));
    push_field(&mut f, "phase", Json::text(phase));
    push_field(&mut f, "msg", Json::text(msg));
    push_field(&mut f, "data", data);
    assert(fields_model(f@) =~= seq![
        ("ts"@, JsonModel::Str(now@)),
        ("level"@, JsonModel::Str("info"@)),
        ("jobId"@, JsonModel::Str(job@)),
        ("phase"@, JsonModel::Str(phase@)),
        ("msg"@, JsonModel::Str(msg@)),
        ("data"@, data@),
    ]);
    Json::Object(f)
}

pub fn put_member_exec(j: Json, key: &str, v: Json) -> (r: Json)
    ensures
        r@ == put_member(j@, key@, v@),
{
    match j {
        Json::Object(fields) => {
            proof {
                lemma_fields_model(fields@);
            }
            let ghost m = fields_model(fields@);
            let mut out: Vec<(String, Json)> = Vec::new();
            let mut found = false;
            let mut i: usize = 0;
            while i < fields.len()
                invariant
                    m == fields_model(fields@),
                    m.len() == fields@.len(),
                    forall|k: int| 0 <= k < fields@.len() ==> #[trigger] m[k] == (fields@[k].0@, fields@[k].1@),
                    i <= fields@.len(),
                    fields_model(out@) == m.subrange(0, i as int).map_values(|f: (Seq<char>, JsonModel)| replace_entry(f, key@, v@)),
                    found <==> exists|k: int| 0 <= k < i && (#[trigger] m[k]).0 == key@,
                decreases fields@.len() - i,
            {
                let ghost before = fields_model(out@);
                if same_text(fields[i].0.as_str(), key) {
                    push_field(&mut out, key, v.duplicate());
                    assert(replace_entry(m[i as int], key@, v@) == (key@, v@));
                    found = true;
                } else {
                    let k = fields[i].0.clone();
                    push_field(&mut out, k.as_str(), fields[i].1.duplicate());
                    assert(m[i as int].0 != key@);
                    assert(replace_entry(m[i as int], key@, v@) == m[i as int]);
                }
                assert(m.subrange(0, i + 1).map_values(|f: (Seq<char>, JsonModel)| replace_entry(f, key@, v@)) =~= m.subrange(0, i as int).map_values(|f: (Seq<char>, JsonModel)| replace_entry(f, key@, v@)).push(replace_entry(m[i as int], key@, v@)));
                i = i + 1;
            }
            assert(m.subrange(0, m.len() as int) =~= m);
            if !found {
                push_field(&mut out, key, v);
            }
            Json::Object(out)
        },
        _ => {
            let mut out: Vec<(String, Json)> = Vec::new();
            push_field(&mut out, key, v);
            assert(fields_model(out@) =~= seq![(key@, v@)]);
            Json::Object(out)
        },
    }
}

/// The effects of one stage invocation.
#[derive(Debug)]
pub struct Effects {
    /// Directories to create where missing.
    pub dirs: Vec<String>,
    /// Manifests to write, each replacing what its path held.
    pub manifests: Vec<(String, Json)>,
    /// The job log that receives the record.
    pub log_path: String,
    /// The one record appended to the job log.
    pub log_record: Json,
    /// The result for the caller.
    pub result: Json,
}

pub struct EffectsModel {
    pub dirs: Seq<Seq<char>>,
    pub manifests: Seq<(Seq<char>, JsonModel)>,
    pub log_path: Seq<char>,
    pub log_record: JsonModel,
    pub result: JsonModel,
}

impl View for Effects {
    type V = EffectsModel;

    open spec fn view(&self) -> EffectsModel {
        EffectsModel {
            dirs: texts(self.dirs@),
            manifests: fields_model(self.manifests@),
            log_path: self.log_path@,
            log_record: self.log_record@,
            result: self.result@,
        }
    }
}

pub open spec fn empty_object() -> JsonModel {
    JsonModel::Object(Seq::empty())
}

pub open spec fn empty_array() -> JsonModel {
    JsonModel::Array(Seq::empty())
}

/// The exact tool versions that `init` pins, with the creation time.
pub open spec fn pins_manifest(now: Seq<char>) -> JsonModel {
    JsonModel::Object(
        seq![
            ("node"@, JsonModel::Str("20.15.0"@)),
            ("next"@, JsonModel::Str("14.2.5"@)),
            ("typescript"@, JsonModel::Str("5.5.4"@)),
            ("playwright"@, JsonModel::Str("1.46.0"@)),
            ("tailwind"@, JsonModel::Str("3.4.10"@)),
            ("createdAt"@, JsonModel::Str(now)),
        ],
    )
}

/// The version lines that `init` reports to the caller.
pub open spec fn pinned_summary() -> JsonModel {
    JsonModel::Object(
        seq![
            ("node"@, JsonModel::Str("20.x"@)),
            ("next"@, JsonModel::Str("14.x"@)),
            ("ts"@, JsonModel::Str("5.x"@)),
            ("playwright"@, JsonModel::Str("1.x"@)),
        ],
    )
}

/// Asset categories when the worker reports none.
pub open spec fn no_assets() -> JsonModel {
    JsonModel::Object(
        seq![("images"@, empty_array()), ("fonts"@, empty_array()), ("styles"@, empty_array())],
    )
}

pub open spec fn sitemap_manifest(c: CrawlParams, id: Seq<char>, pages: JsonModel) -> JsonModel {
    JsonModel::Object(seq![("siteMapId"@, JsonModel::Str(id))] + crawl_option_fields(c) + seq![("pages"@, pages)])
}

/// The effects of a stage, given the worker's reply, a fresh job id, a fresh
/// artifact id and the current time. Identifiers the worker supplies win over
/// the fresh ones.
pub open spec fn effects_of(
    p: StageParams,
    reply: JsonModel,
    fresh_job: Seq<char>,
    fresh_id: Seq<char>,
    now: Seq<char>,
) -> EffectsModel {
    let job = coalesce(reply, "jobId"@, fresh_job);
    match p {
        StageParams::Init(c) => EffectsModel {
            dirs: skeleton(c.project_root@),
            manifests: seq![(work_root(c.project_root@) + "/pins.json"@, pins_manifest(now))],
            log_path: work_root(c.project_root@) + "/logs/"@ + job + ".ndjson"@,
            log_record: log_entry(now, job, "init"@, "Init complete"@, empty_object()),
            result: JsonModel::Object(
                seq![
                    ("ok"@, JsonModel::Bool(true)),
                    ("pinned"@, pinned_summary()),
                    ("jobId"@, JsonModel::Str(job)),
                ],
            ),
        },
        StageParams::Crawl(c) => {
            let id = coalesce(reply, "siteMapId"@, fresh_id);
            let pages = member_or(reply, "pages"@, empty_array());
            EffectsModel {
                dirs: seq![".site2ts/cache/sitemaps"@, ".site2ts/logs"@],
                manifests: seq![(sitemap_path(id), sitemap_manifest(c, id, pages))],
                log_path: log_path(job),
                log_record: log_entry(now, job, "crawl"@, "Crawl completed"@, JsonModel::Object(
                    seq![("pages"@, JsonModel::Num(decimal(item_count(pages))))],
                )),
                result: JsonModel::Object(
                    seq![
                        ("jobId"@, JsonModel::Str(job)),
                        ("siteMapId"@, JsonModel::Str(id)),
                        ("pages"@, pages),
                    ],
                ),
            }
        },
        StageParams::Analyze(c) => {
            let id = coalesce(reply, "analysisId"@, fresh_id);
            let routes = member_or(reply, "routes"@, empty_array());
            let forms = member_or(reply, "forms"@, empty_array());
            let assets = member_or(reply, "assets"@, no_assets());
            EffectsModel {
                dirs: seq![".site2ts/staging/meta"@, ".site2ts/logs"@],
                manifests: seq![(analysis_path(), JsonModel::Object(
                    seq![
                        ("analysisId"@, JsonModel::Str(id)),
                        ("siteMapId"@, JsonModel::Str(c.site_map_id@)),
                        ("routes"@, routes),
                        ("forms"@, forms),
                        ("assets"@, assets),
                    ],
                ))],
                log_path: log_path(job),
                log_record: log_entry(now, job, "analyze"@, "Analyze complete"@, JsonModel::Object(
                    seq![("routes"@, JsonModel::Num(decimal(item_count(routes))))],
                )),
                result: JsonModel::Object(
                    seq![
                        ("jobId"@, JsonModel::Str(job)),
                        ("analysisId"@, JsonModel::Str(id)),
                        ("routes"@, routes),
                        ("assets"@, assets),
                    ],
                ),
            }
        },
        StageParams::Scaffold(c) => {
            let id = coalesce(reply, "scaffoldId"@, fresh_id);
            let out = coalesce(reply, "outDir"@, ".site2ts/staging"@);
            EffectsModel {
                dirs: seq![".site2ts/staging/meta/scaffolds"@, ".site2ts/logs"@],
                manifests: seq![(scaffold_path(id), JsonModel::Object(
                    seq![
                        ("scaffoldId"@, JsonModel::Str(id)),
                        ("analysisId"@, JsonModel::Str(c.analysis_id@)),
                        ("outDir"@, JsonModel::Str(out)),
                        ("appRouter"@, JsonModel::Bool(c.app_router)),
                    ],
                ))],
                log_path: log_path(job),
                log_record: log_entry(now, job, "scaffold"@, "Scaffold prepared"@, JsonModel::Object(
                    seq![("outDir"@, JsonModel::Str(out))],
                )),
                result: JsonModel::Object(
                    seq![
                        ("jobId"@, JsonModel::Str(job)),
                        ("scaffoldId"@, JsonModel::Str(id)),
                        ("outDir"@, JsonModel::Str(out)),
                    ],
                ),
            }
        },
        StageParams::Generate(c) => {
            let id = coalesce(reply, "generationId"@, fresh_id);
            EffectsModel {
                dirs: seq![".site2ts/staging/meta/generations"@, ".site2ts/logs"@],
                manifests: seq![(generation_path(id), JsonModel::Object(
                    seq![
                        ("generationId"@, JsonModel::Str(id)),
                        ("analysisId"@, JsonModel::Str(c.analysis_id@)),
                        ("scaffoldId"@, JsonModel::Str(c.scaffold_id@)),
                    ],
                ))],
                log_path: log_path(job),
                log_record: log_entry(now, job, "generate"@, "Generate complete"@, JsonModel::Object(
                    seq![("generationId"@, JsonModel::Str(id))],
                )),
                result: JsonModel::Object(
                    seq![("jobId"@, JsonModel::Str(job)), ("generationId"@, JsonModel::Str(id))],
                ),
            }
        },
        StageParams::Diff(_) => {
            let id = coalesce(reply, "diffId"@, fresh_id);
            EffectsModel {
                dirs: seq![".site2ts/logs"@],
                manifests: Seq::empty(),
                log_path: log_path(job),
                log_record: log_entry(now, job, "diff"@, "Visual diff complete"@, JsonModel::Object(
                    seq![("diffId"@, JsonModel::Str(id))],
                )),
                result: put_member(put_member(reply, "jobId"@, JsonModel::Str(job)), "diffId"@, JsonModel::Str(id)),
            }
        },
        StageParams::Audit(_) => {
            let id = coalesce(reply, "auditId"@, fresh_id);
            EffectsModel {
                dirs: seq![".site2ts/logs"@],
                manifests: Seq::empty(),
                log_path: log_path(job),
                log_record: log_entry(now, job, "audit"@, "Audit completed"@, JsonModel::Object(
                    seq![("auditId"@, JsonModel::Str(id))],
                )),
                result: put_member(put_member(reply, "jobId"@, JsonModel::Str(job)), "auditId"@, JsonModel::Str(id)),
            }
        },
        StageParams::Apply(_) => plain_effects(reply, job, now, "apply"@, "Apply executed"@),
        StageParams::Assets(_) => plain_effects(reply, job, now, "assets"@, "Assets manifest generated"@),
        StageParams::Pack(_) => plain_effects(reply, job, now, "pack"@, "Pack completed"@),
    }
}

/// A stage that writes no manifest: it logs and hands back the reply with
/// its job id.
pub open spec fn plain_effects(reply: JsonModel, job: Seq<char>, now: Seq<char>, phase: Seq<char>, msg: Seq<char>) -> EffectsModel {
    EffectsModel {
        dirs: seq![".site2ts/logs"@],
        manifests: Seq::empty(),
        log_path: log_path(job),
        log_record: log_entry(now, job, phase, msg, empty_object()),
        result: put_member(reply, "jobId"@, JsonModel::Str(job)),
    }
}

proof fn lemma_fields_concat(a: Seq<(String, Json)>, b: Seq<(String, Json)>)
    ensures
        fields_model(a + b) == fields_model(a) + fields_model(b),
    decreases b.len(),
{
    if b.len() == 0 {
        assert(a + b =~= a);
        assert(fields_model(a) + fields_model(b) =~= fields_model(a));
    } else {
        lemma_fields_concat(a, b.drop_last());
        assert((a + b).drop_last() =~= a + b.drop_last());
        assert((a + b).last() == b.last());
        assert(fields_model(a) + fields_model(b) =~= (fields_model(a) + fields_model(b.drop_last())).push(
            (b.last().0@, b.last().1@),
        ));
    }
}

fn dir_list(a: &str, b: &str) -> (r: Vec<String>)
    ensures
        texts(r@) == seq![a@, b@],
{
    let mut v: Vec<String> = Vec::new();
    v.push(String::from_str(a));
    v.push(String::from_str(b));
    assert(texts(v@) =~= seq![a@, b@]);
    v
}

fn logs_dir_only() -> (r: Vec<String>)
    ensures
        texts(r@) == seq![".site2ts/logs"@],
{
    let mut v: Vec<String> = Vec::new();
    v.push(String::from_str(".site2ts/logs"));
    assert(texts(v@) =~= seq![".site2ts/logs"@]);
    v
}

fn one_manifest(path: String, doc: Json) -> (r: Vec<(String, Json)>)
    ensures
        fields_model(r@) == seq![(path@, doc@)],
{
    let mut v: Vec<(String, Json)> = Vec::new();
    push_field(&mut v, path.as_str(), doc);
    assert(fields_model(v@) =~= seq![(path@, doc@)]);
    v
}

fn no_manifests() -> (r: Vec<(String, Json)>)
    ensures
        fields_model(r@) == Seq::<(Seq<char>, JsonModel)>::empty(),
{
    Vec::new()
}

fn object_of(f: Vec<(String, Json)>) -> (r: Json)
    ensures
        r@ == JsonModel::Object(fields_model(f@)),
{
    Json::Object(f)
}

fn finish_init(c: &InitParams, reply: &Json, fresh: &Fresh) -> (r: Effects)
    ensures
        r@ == effects_of(StageParams::Init(*c), reply@, fresh.job_id@, fresh.artifact_id@, fresh.now@),
{
    let job = coalesce_id(reply, "jobId", &fresh.job_id);
    let root = work_dir(c.project_root.as_str());
    let dirs = skeleton_dirs(c.project_root.as_str());
    assert(texts(dirs@) =~= skeleton(c.project_root@));
    let mut pins: Vec<(String, Json)> = Vec::new();
    push_field(&mut pins, "node", Json::text("20.15.0"));
    push_field(&mut pins, "next", Json::text("14.2.5"));
    push_field(&mut pins, "typescript", Json::text("5.5.4"));
    push_field(&mut pins, "playwright", Json::text("1.46.0"));
    push_field(&mut pins, "tailwind", Json::text("3.4.10"));
    push_field(&mut pins, "createdAt", Json::Str(fresh.now.clone()));
    assert(fields_model(pins@) =~= seq![
        ("node"@, JsonModel::Str("20.15.0"@)),
        ("next"@, JsonModel::Str("14.2.5"@)),
        ("typescript"@, JsonModel::Str("5.5.4"@)),
        ("playwright"@, JsonModel::Str("1.46.0"@)),
        ("tailwind"@, JsonModel::Str("3.4.10"@)),
        ("createdAt"@, JsonModel::Str(fresh.now@)),
    ]);
    let manifests = one_manifest(join(root.as_str(), "/pins.json"), object_of(pins));
    let mut pinned: Vec<(String, Json)> = Vec::new();
    push_field(&mut pinned, "node", Json::text("20.x"));
    push_field(&mut pinned, "next", Json::text("14.x"));
    push_field(&mut pinned, "ts", Json::text("5.x"));
    push_field(&mut pinned, "playwright", Json::text("1.x"));
    assert(fields_model(pinned@) =~= seq![
        ("node"@, JsonModel::Str("20.x"@)),
        ("next"@, JsonModel::Str("14.x"@)),
        ("ts"@, JsonModel::Str("5.x"@)),
        ("playwright"@, JsonModel::Str("1.x"@)),
    ]);
    let mut result: Vec<(String, Json)> = Vec::new();
    push_field(&mut result, "ok", Json::Bool(true));
    push_field(&mut result, "pinned", object_of(pinned));
    push_field(&mut result, "jobId", Json::Str(job.clone()));
    assert(fields_model(result@) =~= seq![
        ("ok"@, JsonModel::Bool(true)),
        ("pinned"@, pinned_summary()),
        ("jobId"@, JsonModel::Str(job@)),
    ]);
    let logs = join(root.as_str(), "/logs/");
    let log_path = join3(logs.as_str(), job.as_str(), ".ndjson");
    let log_record = log_record(fresh.now.as_str(), job.as_str(), "init", "Init complete", Json::empty_object());
    Effects { dirs, manifests, log_path, log_record, result: object_of(result) }
}

fn finish_crawl(c: &CrawlParams, reply: &Json, fresh: &Fresh) -> (r: Effects)
    ensures
        r@ == effects_of(StageParams::Crawl(*c), reply@, fresh.job_id@, fresh.artifact_id@, fresh.now@),
{
    let job = coalesce_id(reply, "jobId", &fresh.job_id);
    let id = coalesce_id(reply, "siteMapId", &fresh.artifact_id);
    let no_pages = Json::Array(Vec::new());
    assert(no_pages@ =~~= empty_array());
    let pages = member_or_else(reply, "pages", no_pages);
    let mut doc: Vec<(String, Json)> = Vec::new();
    push_field(&mut doc, "siteMapId", Json::Str(id.clone()));
    let mut opts = crawl_options(c);
    proof {
        lemma_fields_concat(doc@, opts@);
    }
    doc.append(&mut opts);
    push_field(&mut doc, "pages", pages.duplicate());
    assert(fields_model(doc@) =~= seq![("siteMapId"@, JsonModel::Str(id@))] + crawl_option_fields(*c) + seq![("pages"@, pages@)]);
    let count = count_items(&pages);
    let mut data: Vec<(String, Json)> = Vec::new();
    push_field(&mut data, "pages", Json::unsigned(count));
    assert(fields_model(data@) =~= seq![("pages"@, JsonModel::Num(decimal(item_count(pages@))))]);
    let mut result: Vec<(String, Json)> = Vec::new();
    push_field(&mut result, "jobId", Json::Str(job.clone()));
    push_field(&mut result, "siteMapId", Json::Str(id.clone()));
    push_field(&mut result, "pages", pages);
    assert(fields_model(result@) =~= seq![
        ("jobId"@, JsonModel::Str(job@)),
        ("siteMapId"@, JsonModel::Str(id@)),
        ("pages"@, member_or(reply@, "pages"@, empty_array())),
    ]);
    Effects {
        dirs: dir_list(".site2ts/cache/sitemaps", ".site2ts/logs"),
        manifests: one_manifest(sitemap_file(id.as_str()), object_of(doc)),
        log_path: log_file(job.as_str()),
        log_record: log_record(fresh.now.as_str(), job.as_str(), "crawl", "Crawl completed", object_of(data)),
        result: object_of(result),
    }
}

fn finish_analyze(c: &AnalyzeParams, reply: &Json, fresh: &Fresh) -> (r: Effects)
    ensures
        r@ == effects_of(StageParams::Analyze(*c), reply@, fresh.job_id@, fresh.artifact_id@, fresh.now@),
{
    let job = coalesce_id(reply, "jobId", &fresh.job_id);
    let id = coalesce_id(reply, "analysisId", &fresh.artifact_id);
    let no_routes = Json::Array(Vec::new());
    assert(no_routes@ =~~= empty_array());
    let routes = member_or_else(reply, "routes", no_routes);
    let no_forms = Json::Array(Vec::new());
    assert(no_forms@ =~~= empty_array());
    let forms = member_or_else(reply, "forms", no_forms);
    let mut cats: Vec<(String, Json)> = Vec::new();
    let images = Json::Array(Vec::new());
    let fonts = Json::Array(Vec::new());
    let styles = Json::Array(Vec::new());
    assert(images@ =~~= empty_array());
    assert(fonts@ =~~= empty_array());
    assert(styles@ =~~= empty_array());
    push_field(&mut cats, "images", images);
    push_field(&mut cats, "fonts", fonts);
    push_field(&mut cats, "styles", styles);
    assert(fields_model(cats@) =~= seq![("images"@, empty_array()), ("fonts"@, empty_array()), ("styles"@, empty_array())]);
    let assets = member_or_else(reply, "assets", object_of(cats));
    let mut doc: Vec<(String, Json)> = Vec::new();
    push_field(&mut doc, "analysisId", Json::Str(id.clone()));
    push_field(&mut doc, "siteMapId", Json::Str(c.site_map_id.clone()));
    push_field(&mut doc, "routes", routes.duplicate());
    push_field(&mut doc, "forms", forms);
    push_field(&mut doc, "assets", assets.duplicate());
    assert(fields_model(doc@) =~= seq![
        ("analysisId"@, JsonModel::Str(id@)),
        ("siteMapId"@, JsonModel::Str(c.site_map_id@)),
        ("routes"@, routes@),
        ("forms"@, member_or(reply@, "forms"@, empty_array())),
        ("assets"@, assets@),
    ]);
    let mut data: Vec<(String, Json)> = Vec::new();
    push_field(&mut data, "routes", Json::unsigned(count_items(&routes)));
    assert(fields_model(data@) =~= seq![("routes"@, JsonModel::Num(decimal(item_count(routes@))))]);
    let mut result: Vec<(String, Json)> = Vec::new();
    push_field(&mut result, "jobId", Json::Str(job.clone()));
    push_field(&mut result, "analysisId", Json::Str(id.clone()));
    push_field(&mut result, "routes", routes);
    push_field(&mut result, "assets", assets);
    assert(fields_model(result@) =~= seq![
        ("jobId"@, JsonModel::Str(job@)),
        ("analysisId"@, JsonModel::Str(id@)),
        ("routes"@, member_or(reply@, "routes"@, empty_array())),
        ("assets"@, member_or(reply@, "assets"@, no_assets())),
    ]);
    Effects {
        dirs: dir_list(".site2ts/staging/meta", ".site2ts/logs"),
        manifests: one_manifest(analysis_file(), object_of(doc)),
        log_path: log_file(job.as_str()),
        log_record: log_record(fresh.now.as_str(), job.as_str(), "analyze", "Analyze complete", object_of(data)),
        result: object_of(result),
    }
}

fn finish_scaffold(c: &ScaffoldParams, reply: &Json, fresh: &Fresh) -> (r: Effects)
    ensures
        r@ == effects_of(StageParams::Scaffold(*c), reply@, fresh.job_id@, fresh.artifact_id@, fresh.now@),
{
    let job = coalesce_id(reply, "jobId", &fresh.job_id);
    let id = coalesce_id(reply, "scaffoldId", &fresh.artifact_id);
    let staging = String::from_str(".site2ts/staging");
    let out = coalesce_id(reply, "outDir", &staging);
    let mut doc: Vec<(String, Json)> = Vec::new();
    push_field(&mut doc, "scaffoldId", Json::Str(id.clone()));
    push_field(&mut doc, "analysisId", Json::Str(c.analysis_id.clone()));
    push_field(&mut doc, "outDir", Json::Str(out.clone()));
    push_field(&mut doc, "appRouter", Json::Bool(c.app_router));
    assert(fields_model(doc@) =~= seq![
        ("scaffoldId"@, JsonModel::Str(id@)),
        ("analysisId"@, JsonModel::Str(c.analysis_id@)),
        ("outDir"@, JsonModel::Str(out@)),
        ("appRouter"@, JsonModel::Bool(c.app_router)),
    ]);
    let mut data: Vec<(String, Json)> = Vec::new();
    push_field(&mut data, "outDir", Json::Str(out.clone()));
    assert(fields_model(data@) =~= seq![("outDir"@, JsonModel::Str(out@))]);
    let mut result: Vec<(String, Json)> = Vec::new();
    push_field(&mut result, "jobId", Json::Str(job.clone()));
    push_field(&mut result, "scaffoldId", Json::Str(id.clone()));
    push_field(&mut result, "outDir", Json::Str(out));
    assert(fields_model(result@) =~= seq![
        ("jobId"@, JsonModel::Str(job@)),
        ("scaffoldId"@, JsonModel::Str(id@)),
        ("outDir"@, JsonModel::Str(coalesce(reply@, "outDir"@, ".site2ts/staging"@))),
    ]);
    Effects {
        dirs: dir_list(".site2ts/staging/meta/scaffolds", ".site2ts/logs"),
        manifests: one_manifest(scaffold_file(id.as_str()), object_of(doc)),
        log_path: log_file(job.as_str()),
        log_record: log_record(fresh.now.as_str(), job.as_str(), "scaffold", "Scaffold prepared", object_of(data)),
        result: object_of(result),
    }
}

fn finish_generate(c: &GenerateParams, reply: &Json, fresh: &Fresh) -> (r: Effects)
    ensures
        r@ == effects_of(StageParams::Generate(*c), reply@, fresh.job_id@, fresh.artifact_id@, fresh.now@),
{
    let job = coalesce_id(reply, "jobId", &fresh.job_id);
    let id = coalesce_id(reply, "generationId", &fresh.artifact_id);
    let mut doc: Vec<(String, Json)> = Vec::new();
    push_field(&mut doc, "generationId", Json::Str(id.clone()));
    push_field(&mut doc, "analysisId", Json::Str(c.analysis_id.clone()));
    push_field(&mut doc, "scaffoldId", Json::Str(c.scaffold_id.clone()));
    assert(fields_model(doc@) =~= seq![
        ("generationId"@, JsonModel::Str(id@)),
        ("analysisId"@, JsonModel::Str(c.analysis_id@)),
        ("scaffoldId"@, JsonModel::Str(c.scaffold_id@)),
    ]);
    let mut data: Vec<(String, Json)> = Vec::new();
    push_field(&mut data, "generationId", Json::Str(id.clone()));
    assert(fields_model(data@) =~= seq![("generationId"@, JsonModel::Str(id@))]);
    let mut result: Vec<(String, Json)> = Vec::new();
    push_field(&mut result, "jobId", Json::Str(job.clone()));
    push_field(&mut result, "generationId", Json::Str(id.clone()));
    assert(fields_model(result@) =~= seq![("jobId"@, JsonModel::Str(job@)), ("generationId"@, JsonModel::Str(id@))]);
    Effects {
        dirs: dir_list(".site2ts/staging/meta/generations", ".site2ts/logs"),
        manifests: one_manifest(generation_file(id.as_str()), object_of(doc)),
        log_path: log_file(job.as_str()),
        log_record: log_record(fresh.now.as_str(), job.as_str(), "generate", "Generate complete", object_of(data)),
        result: object_of(result),
    }
}

/// `diff` and `audit`: no manifest; the reply goes back with the job id and
/// the report id under `id_key`.
fn finish_report(reply: &Json, fresh: &Fresh, id_key: &str, phase: &str, msg: &str) -> (r: Effects)
    ensures
        r@ == (EffectsModel {
            dirs: seq![".site2ts/logs"@],
            manifests: Seq::empty(),
            log_path: log_path(coalesce(reply@, "jobId"@, fresh.job_id@)),
            log_record: log_entry(fresh.now@, coalesce(reply@, "jobId"@, fresh.job_id@), phase@, msg@, JsonModel::Object(
                seq![(id_key@, JsonModel::Str(coalesce(reply@, id_key@, fresh.artifact_id@)))],
            )),
            result: put_member(
                put_member(reply@, "jobId"@, JsonModel::Str(coalesce(reply@, "jobId"@, fresh.job_id@))),
                id_key@,
                JsonModel::Str(coalesce(reply@, id_key@, fresh.artifact_id@)),
            ),
        }),
{
    let job = coalesce_id(reply, "jobId", &fresh.job_id);
    let id = coalesce_id(reply, id_key, &fresh.artifact_id);
    let mut data: Vec<(String, Json)> = Vec::new();
    push_field(&mut data, id_key, Json::Str(id.clone()));
    assert(fields_model(data@) =~= seq![(id_key@, JsonModel::Str(id@))]);
    let with_job = put_member_exec(reply.duplicate(), "jobId", Json::Str(job.clone()));
    let result = put_member_exec(with_job, id_key, Json::Str(id));
    Effects {
        dirs: logs_dir_only(),
        manifests: no_manifests(),
        log_path: log_file(job.as_str()),
        log_record: log_record(fresh.now.as_str(), job.as_str(), phase, msg, object_of(data)),
        result,
    }
}

fn finish_plain(reply: &Json, fresh: &Fresh, phase: &str, msg: &str) -> (r: Effects)
    ensures
        r@ == plain_effects(reply@, coalesce(reply@, "jobId"@, fresh.job_id@), fresh.now@, phase@, msg@),
{
    let job = coalesce_id(reply, "jobId", &fresh.job_id);
    let result = put_member_exec(reply.duplicate(), "jobId", Json::Str(job.clone()));
    let empty = Json::empty_object();
    Effects {
        dirs: logs_dir_only(),
        manifests: no_manifests(),
        log_path: log_file(job.as_str()),
        log_record: log_record(fresh.now.as_str(), job.as_str(), phase, msg, empty),
        result,
    }
}

/// What the stage leaves behind once the worker replied with `reply`.
pub fn finish(call: &StageCall, reply: &Json, fresh: &Fresh) -> (r: Effects)
    ensures
        r@ == effects_of(call.params, reply@, fresh.job_id@, fresh.artifact_id@, fresh.now@),
{
    match &call.params {
        StageParams::Init(c) => finish_init(c, reply, fresh),
        StageParams::Crawl(c) => finish_crawl(c, reply, fresh),
        StageParams::Analyze(c) => finish_analyze(c, reply, fresh),
        StageParams::Scaffold(c) => finish_scaffold(c, reply, fresh),
        StageParams::Generate(c) => finish_generate(c, reply, fresh),
        StageParams::Diff(_) => finish_report(reply, fresh, "diffId", "diff", "Visual diff complete"),
        StageParams::Audit(_) => finish_report(reply, fresh, "auditId", "audit", "Audit completed"),
        StageParams::Apply(_) => finish_plain(reply, fresh, "apply", "Apply executed"),
        StageParams::Assets(_) => finish_plain(reply, fresh, "assets", "Assets manifest generated"),
        StageParams::Pack(_) => finish_plain(reply, fresh, "pack", "Pack completed"),
    }
}

/// The phase that a stage writes into its log record.
pub open spec fn phase_of(p: StageParams) -> Seq<char> {
    match p {
        StageParams::Init(_) => "init"@,
        StageParams::Crawl(_) => "crawl"@,
        StageParams::Analyze(_) => "analyze"@,
        StageParams::Scaffold(_) => "scaffold"@,
        StageParams::Generate(_) => "generate"@,
        StageParams::Diff(_) => "diff"@,
        StageParams::Audit(_) => "audit"@,
        StageParams::Apply(_) => "apply"@,
        StageParams::Assets(_) => "assets"@,
        StageParams::Pack(_) => "pack"@,
    }
}

/// The job log of a stage: under the project's hidden directory for `init`,
/// under the working directory's for the others.
pub open spec fn job_log_path(p: StageParams, job: Seq<char>) -> Seq<char> {
    match p {
        StageParams::Init(c) => work_root(c.project_root@) + "/logs/"@ + job + ".ndjson"@,
        _ => log_path(job),
    }
}

proof fn lemma_log_entry_members(now: Seq<char>, job: Seq<char>, phase: Seq<char>, msg: Seq<char>, data: JsonModel)
    ensures
        log_entry(now, job, phase, msg, data).member("ts"@) == Some(JsonModel::Str(now)),
        log_entry(now, job, phase, msg, data).member("level"@) == Some(JsonModel::Str("info"@)),
        log_entry(now, job, phase, msg, data).member("jobId"@) == Some(JsonModel::Str(job)),
        log_entry(now, job, phase, msg, data).member("phase"@) == Some(JsonModel::Str(phase)),
        log_entry(now, job, phase, msg, data).member("msg"@) == Some(JsonModel::Str(msg)),
        log_entry(now, job, phase, msg, data).member("data"@) == Some(data),
{
    reveal_strlit("ts");
    reveal_strlit("level");
    reveal_strlit("jobId");
    reveal_strlit("phase");
    reveal_strlit("msg");
    reveal_strlit("data");
    reveal_with_fuel(lookup, 7);
    let f = seq![
        ("ts"@, JsonModel::Str(now)),
        ("level"@, JsonModel::Str("info"@)),
        ("jobId"@, JsonModel::Str(job)),
        ("phase"@, JsonModel::Str(phase)),
        ("msg"@, JsonModel::Str(msg)),
        ("data"@, data),
    ];
    assert("ts"@.len() == 2 && "msg"@.len() == 3 && "data"@.len() == 4);
    assert("level"@.len() == 5 && "jobId"@.len() == 5 && "phase"@.len() == 5);
    assert("level"@[0] != "jobId"@[0] && "level"@[0] != "phase"@[0] && "jobId"@[0] != "phase"@[0]);
    assert(f.drop_first() =~= seq![f[1], f[2], f[3], f[4], f[5]]);
    assert(f.drop_first().drop_first() =~= seq![f[2], f[3], f[4], f[5]]);
    assert(f.drop_first().drop_first().drop_first() =~= seq![f[3], f[4], f[5]]);
    assert(f.drop_first().drop_first().drop_first().drop_first() =~= seq![f[4], f[5]]);
    assert(f.drop_first().drop_first().drop_first().drop_first().drop_first() =~= seq![f[5]]);
}

/// Every stage that completes appends exactly one record, to the job log of
/// its job id, and that record holds `ts`, `level`, `jobId`, `phase`, `msg`
/// and `data`. The job id is the worker's when it gave one, else a fresh one.
pub proof fn lemma_one_log_record(p: StageParams, reply: JsonModel, fresh_job: Seq<char>, fresh_id: Seq<char>, now: Seq<char>)
    ensures
        ({
            let e = effects_of(p, reply, fresh_job, fresh_id, now);
            let job = coalesce(reply, "jobId"@, fresh_job);
            &&& e.log_path == job_log_path(p, job)
            &&& e.log_record.member("ts"@) == Some(JsonModel::Str(now))
            &&& e.log_record.member("level"@) == Some(JsonModel::Str("info"@))
            &&& e.log_record.member("jobId"@) == Some(JsonModel::Str(job))
            &&& e.log_record.member("phase"@) == Some(JsonModel::Str(phase_of(p)))
            &&& e.log_record.member("msg"@) is Some
            &&& e.log_record.member("data"@) is Some
        }),
{
    let e = effects_of(p, reply, fresh_job, fresh_id, now);
    let job = coalesce(reply, "jobId"@, fresh_job);
    match p {
        StageParams::Init(_) => lemma_log_entry_members(now, job, "init"@, "Init complete"@, empty_object()),
        StageParams::Crawl(_) => {
            let pages = member_or(reply, "pages"@, empty_array());
            lemma_log_entry_members(now, job, "crawl"@, "Crawl completed"@, JsonModel::Object(
                seq![("pages"@, JsonModel::Num(decimal(item_count(pages))))],
            ))
        },
        StageParams::Analyze(_) => {
            let routes = member_or(reply, "routes"@, empty_array());
            lemma_log_entry_members(now, job, "analyze"@, "Analyze complete"@, JsonModel::Object(
                seq![("routes"@, JsonModel::Num(decimal(item_count(routes))))],
            ))
        },
        StageParams::Scaffold(_) => {
            let out = coalesce(reply, "outDir"@, ".site2ts/staging"@);
            lemma_log_entry_members(now, job, "scaffold"@, "Scaffold prepared"@, JsonModel::Object(
                seq![("outDir"@, JsonModel::Str(out))],
            ))
        },
        StageParams::Generate(_) => {
            let id = coalesce(reply, "generationId"@, fresh_id);
            lemma_log_entry_members(now, job, "generate"@, "Generate complete"@, JsonModel::Object(
                seq![("generationId"@, JsonModel::Str(id))],
            ))
        },
        StageParams::Diff(_) => {
            let id = coalesce(reply, "diffId"@, fresh_id);
            lemma_log_entry_members(now, job, "diff"@, "Visual diff complete"@, JsonModel::Object(
                seq![("diffId"@, JsonModel::Str(id))],
            ))
        },
        StageParams::Audit(_) => {
            let id = coalesce(reply, "auditId"@, fresh_id);
            lemma_log_entry_members(now, job, "audit"@, "Audit completed"@, JsonModel::Object(
                seq![("auditId"@, JsonModel::Str(id))],
            ))
        },
        StageParams::Apply(_) => lemma_log_entry_members(now, job, "apply"@, "Apply executed"@, empty_object()),
        StageParams::Assets(_) => lemma_log_entry_members(now, job, "assets"@, "Assets manifest generated"@, empty_object()),
        StageParams::Pack(_) => lemma_log_entry_members(now, job, "pack"@, "Pack completed"@, empty_object()),
    }
}

/// The directories present once `dirs` were created where missing.
pub open spec fn after_creating(existing: Set<Seq<char>>, dirs: Seq<Seq<char>>) -> Set<Seq<char>> {
    existing.union(dirs.to_set())
}

/// `init` has no upstream artifact, whatever the worker replied its effects
/// create the same skeleton, and running it a second time leaves the set of
/// directories as the first run left it, with the whole skeleton present.
pub proof fn lemma_init_idempotent(
    c: InitParams,
    existing: Set<Seq<char>>,
    reply1: JsonModel,
    reply2: JsonModel,
    job1: Seq<char>,
    job2: Seq<char>,
    id1: Seq<char>,
    id2: Seq<char>,
    now1: Seq<char>,
    now2: Seq<char>,
)
    ensures
        crate::stages::upstream_of(StageParams::Init(c)) is None,
        ({
            let first = after_creating(existing, effects_of(StageParams::Init(c), reply1, job1, id1, now1).dirs);
            let second = after_creating(first, effects_of(StageParams::Init(c), reply2, job2, id2, now2).dirs);
            &&& skeleton(c.project_root@).to_set().subset_of(first)
            &&& second == first
            &&& skeleton(c.project_root@).to_set().subset_of(second)
        }),
{
    let first = after_creating(existing, skeleton(c.project_root@));
    assert(after_creating(first, skeleton(c.project_root@)) =~= first);
}

} // verus!
