//! The parameters of each stage, read from the request's `params` object with
//! their documented defaults.
use vstd::prelude::*;
use crate::error::{RpcError, RpcErrorModel};
use crate::fields::{
    Fault, bool_field, bool_param, count_field, count_param, fault_of, field_error, first_fault,
    lemma_first_fault_at, lemma_no_fault, list_field, list_param, opt_bool_field, opt_bool_param,
    opt_number_field, opt_number_param, opt_text_field, opt_text_param, opt_value_field,
    opt_value_param, text_field, text_field_or, text_param, text_param_or, texts,
};
use crate::json::{Json, JsonModel};
use crate::protocol::opt_model;

verus! {

/// The default of the boolean crawl and scaffold flags.
pub fn default_true() -> (r: bool)
    ensures
        r,
{
    true
}

/// How many pages a crawl visits unless told otherwise.
pub fn default_max_pages() -> (r: u32)
    ensures
        r == 50,
{
    50
}

/// How many links deep a crawl goes unless told otherwise.
pub fn default_max_depth() -> (r: u32)
    ensures
        r == 5,
{
    5
}

/// How many pages a crawl fetches at once unless told otherwise.
pub fn default_concurrency() -> (r: u32)
    ensures
        r == 4,
{
    4
}

pub open spec fn opt_texts(o: Option<String>) -> Option<Seq<char>> {
    match o {
        Some(s) => Some(s@),
        None => None,
    }
}

/// The error for the first faulty member of `checks`.
pub open spec fn decode_error(checks: Seq<(Seq<char>, Option<Fault>)>) -> Option<RpcErrorModel> {
    match first_fault(checks) {
        Some(kf) => Some(field_error(kf.0, kf.1)),
        None => None,
    }
}

/// `init`: the project whose working directory is prepared.
#[derive(Debug)]
pub struct InitParams {
    pub project_root: String,
}

impl InitParams {
    pub open spec fn checks(p: JsonModel) -> Seq<(Seq<char>, Option<Fault>)> {
        seq![("projectRoot"@, fault_of(text_field(p, "projectRoot"@)))]
    }

    pub open spec fn read_from(self, p: JsonModel) -> bool {
        text_field(p, "projectRoot"@) == Ok::<Seq<char>, Fault>(self.project_root@)
    }

    pub fn parse(p: &Json) -> (r: Result<InitParams, RpcError>)
        ensures
            r is Ok <==> first_fault(Self::checks(p@)) is None,
            r matches Err(e) ==> decode_error(Self::checks(p@)) == Some(e@),
            r matches Ok(c) ==> c.read_from(p@),
    {
        let ghost cs = Self::checks(p@);
        let project_root = match text_param(p, "projectRoot") {
            Ok(v) => v,
            Err(e) => {
                proof { lemma_first_fault_at(cs, 0); }
                return Err(e);
            },
        };
        proof { lemma_no_fault(cs); }
        Ok(InitParams { project_root })
    }
}

/// `crawl`: where to start and how far to go.
#[derive(Debug)]
pub struct CrawlParams {
    pub start_url: String,
    pub same_origin: bool,
    pub max_pages: u32,
    pub max_depth: u32,
    pub allow: Vec<String>,
    pub deny: Vec<String>,
    pub concurrency: u32,
    pub delay_ms: u64,
    pub use_sitemap: bool,
    pub obey_robots: bool,
}

impl CrawlParams {
    pub open spec fn checks(p: JsonModel) -> Seq<(Seq<char>, Option<Fault>)> {
        seq![
            ("startUrl"@, fault_of(text_field(p, "startUrl"@))),
            ("sameOrigin"@, fault_of(bool_field(p, "sameOrigin"@, true))),
            ("maxPages"@, fault_of(count_field(p, "maxPages"@, 50, u32::MAX as nat))),
            ("maxDepth"@, fault_of(count_field(p, "maxDepth"@, 5, u32::MAX as nat))),
            ("allow"@, fault_of(list_field(p, "allow"@))),
            ("deny"@, fault_of(list_field(p, "deny"@))),
            ("concurrency"@, fault_of(count_field(p, "concurrency"@, 4, u32::MAX as nat))),
            ("delayMs"@, fault_of(count_field(p, "delayMs"@, 0, u64::MAX as nat))),
            ("useSitemap"@, fault_of(bool_field(p, "useSitemap"@, true))),
            ("obeyRobots"@, fault_of(bool_field(p, "obeyRobots"@, true))),
        ]
    }

    pub open spec fn read_from(self, p: JsonModel) -> bool {
        &&& text_field(p, "startUrl"@) == Ok::<Seq<char>, Fault>(self.start_url@)
        &&& bool_field(p, "sameOrigin"@, true) == Ok::<bool, Fault>(self.same_origin)
        &&& count_field(p, "maxPages"@, 50, u32::MAX as nat) == Ok::<nat, Fault>(self.max_pages as nat)
        &&& count_field(p, "maxDepth"@, 5, u32::MAX as nat) == Ok::<nat, Fault>(self.max_depth as nat)
        &&& list_field(p, "allow"@) == Ok::<Seq<Seq<char>>, Fault>(texts(self.allow@))
        &&& list_field(p, "deny"@) == Ok::<Seq<Seq<char>>, Fault>(texts(self.deny@))
        &&& count_field(p, "concurrency"@, 4, u32::MAX as nat) == Ok::<nat, Fault>(self.concurrency as nat)
        &&& count_field(p, "delayMs"@, 0, u64::MAX as nat) == Ok::<nat, Fault>(self.delay_ms as nat)
        &&& bool_field(p, "useSitemap"@, true) == Ok::<bool, Fault>(self.use_sitemap)
        &&& bool_field(p, "obeyRobots"@, true) == Ok::<bool, Fault>(self.obey_robots)
    }

    pub fn parse(p: &Json) -> (r: Result<CrawlParams, RpcError>)
        ensures
            r is Ok <==> first_fault(Self::checks(p@)) is None,
            r matches Err(e) ==> decode_error(Self::checks(p@)) == Some(e@),
            r matches Ok(c) ==> c.read_from(p@),
    {
        let ghost cs = Self::checks(p@);
        let start_url = match text_param(p, "startUrl") {
            Ok(v) => v,
            Err(e) => {
                proof { lemma_first_fault_at(cs, 0); }
                return Err(e);
            },
        };
        let same_origin = match bool_param(p, "sameOrigin", default_true()) {
            Ok(v) => v,
            Err(e) => {
                proof { lemma_first_fault_at(cs, 1); }
                return Err(e);
            },
        };
        let max_pages = match count_param(p, "maxPages", default_max_pages() as u64, u32::MAX as u64) {
            Ok(v) => v as u32,
            Err(e) => {
                proof { lemma_first_fault_at(cs, 2); }
                return Err(e);
            },
        };
        let max_depth = match count_param(p, "maxDepth", default_max_depth() as u64, u32::MAX as u64) {
            Ok(v) => v as u32,
            Err(e) => {
                proof { lemma_first_fault_at(cs, 3); }
                return Err(e);
            },
        };
        let allow = match list_param(p, "allow") {
            Ok(v) => v,
            Err(e) => {
                proof { lemma_first_fault_at(cs, 4); }
                return Err(e);
            },
        };
        let deny = match list_param(p, "deny") {
            Ok(v) => v,
            Err(e) => {
                proof { lemma_first_fault_at(cs, 5); }
                return Err(e);
            },
        };
        let concurrency = match count_param(p, "concurrency", default_concurrency() as u64, u32::MAX as u64) {
            Ok(v) => v as u32,
            Err(e) => {
                proof { lemma_first_fault_at(cs, 6); }
                return Err(e);
            },
        };
        let delay_ms = match count_param(p, "delayMs", 0, u64::MAX) {
            Ok(v) => v,
            Err(e) => {
                proof { lemma_first_fault_at(cs, 7); }
                return Err(e);
            },
        };
        let use_sitemap = match bool_param(p, "useSitemap", default_true()) {
            Ok(v) => v,
            Err(e) => {
                proof { lemma_first_fault_at(cs, 8); }
                return Err(e);
            },
        };
        let obey_robots = match bool_param(p, "obeyRobots", default_true()) {
            Ok(v) => v,
            Err(e) => {
                proof { lemma_first_fault_at(cs, 9); }
                return Err(e);
            },
        };
        proof { lemma_no_fault(cs); }
        Ok(CrawlParams {
            start_url,
            same_origin,
            max_pages,
            max_depth,
            allow,
            deny,
            concurrency,
            delay_ms,
            use_sitemap,
            obey_robots,
        })
    }
}

/// `analyze`: the crawled sitemap to analyse.
#[derive(Debug)]
pub struct AnalyzeParams {
    pub site_map_id: String,
}

impl AnalyzeParams {
    pub open spec fn checks(p: JsonModel) -> Seq<(Seq<char>, Option<Fault>)> {
        seq![("siteMapId"@, fault_of(text_field(p, "siteMapId"@)))]
    }

    pub open spec fn read_from(self, p: JsonModel) -> bool {
        text_field(p, "siteMapId"@) == Ok::<Seq<char>, Fault>(self.site_map_id@)
    }

    pub fn parse(p: &Json) -> (r: Result<AnalyzeParams, RpcError>)
        ensures
            r is Ok <==> first_fault(Self::checks(p@)) is None,
            r matches Err(e) ==> decode_error(Self::checks(p@)) == Some(e@),
            r matches Ok(c) ==> c.read_from(p@),
    {
        let ghost cs = Self::checks(p@);
        let site_map_id = match text_param(p, "siteMapId") {
            Ok(v) => v,
            Err(e) => {
                proof { lemma_first_fault_at(cs, 0); }
                return Err(e);
            },
        };
        proof { lemma_no_fault(cs); }
        Ok(AnalyzeParams { site_map_id })
    }
}

/// `scaffold`: the analysis to scaffold from, and the router flavour.
#[derive(Debug)]
pub struct ScaffoldParams {
    pub analysis_id: String,
    pub app_router: bool,
}

impl ScaffoldParams {
    pub open spec fn checks(p: JsonModel) -> Seq<(Seq<char>, Option<Fault>)> {
        seq![
            ("analysisId"@, fault_of(text_field(p, "analysisId"@))),
            ("appRouter"@, fault_of(bool_field(p, "appRouter"@, true))),
        ]
    }

    pub open spec fn read_from(self, p: JsonModel) -> bool {
        &&& text_field(p, "analysisId"@) == Ok::<Seq<char>, Fault>(self.analysis_id@)
        &&& bool_field(p, "appRouter"@, true) == Ok::<bool, Fault>(self.app_router)
    }

    pub fn parse(p: &Json) -> (r: Result<ScaffoldParams, RpcError>)
        ensures
            r is Ok <==> first_fault(Self::checks(p@)) is None,
            r matches Err(e) ==> decode_error(Self::checks(p@)) == Some(e@),
            r matches Ok(c) ==> c.read_from(p@),
    {
        let ghost cs = Self::checks(p@);
        let analysis_id = match text_param(p, "analysisId") {
            Ok(v) => v,
            Err(e) => {
                proof { lemma_first_fault_at(cs, 0); }
                return Err(e);
            },
        };
        let app_router = match bool_param(p, "appRouter", default_true()) {
            Ok(v) => v,
            Err(e) => {
                proof { lemma_first_fault_at(cs, 1); }
                return Err(e);
            },
        };
        proof { lemma_no_fault(cs); }
        Ok(ScaffoldParams { analysis_id, app_router })
    }
}

/// `generate`: the analysis and scaffold to generate from.
#[derive(Debug)]
pub struct GenerateParams {
    pub analysis_id: String,
    pub scaffold_id: String,
    pub tailwind_mode: String,
}

impl GenerateParams {
    pub open spec fn checks(p: JsonModel) -> Seq<(Seq<char>, Option<Fault>)> {
        seq![
            ("analysisId"@, fault_of(text_field(p, "analysisId"@))),
            ("scaffoldId"@, fault_of(text_field(p, "scaffoldId"@))),
            ("tailwindMode"@, fault_of(text_field_or(p, "tailwindMode"@, Seq::empty()))),
        ]
    }

    pub open spec fn read_from(self, p: JsonModel) -> bool {
        &&& text_field(p, "analysisId"@) == Ok::<Seq<char>, Fault>(self.analysis_id@)
        &&& text_field(p, "scaffoldId"@) == Ok::<Seq<char>, Fault>(self.scaffold_id@)
        &&& text_field_or(p, "tailwindMode"@, Seq::empty()) == Ok::<Seq<char>, Fault>(self.tailwind_mode@)
    }

    pub fn parse(p: &Json) -> (r: Result<GenerateParams, RpcError>)
        ensures
            r is Ok <==> first_fault(Self::checks(p@)) is None,
            r matches Err(e) ==> decode_error(Self::checks(p@)) == Some(e@),
            r matches Ok(c) ==> c.read_from(p@),
    {
        let ghost cs = Self::checks(p@);
        let analysis_id = match text_param(p, "analysisId") {
            Ok(v) => v,
            Err(e) => {
                proof { lemma_first_fault_at(cs, 0); }
                return Err(e);
            },
        };
        let scaffold_id = match text_param(p, "scaffoldId") {
            Ok(v) => v,
            Err(e) => {
                proof { lemma_first_fault_at(cs, 1); }
                return Err(e);
            },
        };
        proof {
            reveal_strlit("");
            assert(""@ =~= Seq::<char>::empty());
        }
        let tailwind_mode = match text_param_or(p, "tailwindMode", "") {
            Ok(v) => v,
            Err(e) => {
                proof { lemma_first_fault_at(cs, 2); }
                return Err(e);
            },
        };
        proof { lemma_no_fault(cs); }
        Ok(GenerateParams { analysis_id, scaffold_id, tailwind_mode })
    }
}

/// `diff`: the generation to compare against its baselines.
#[derive(Debug)]
pub struct DiffParams {
    pub generation_id: String,
    pub baselines: Option<String>,
    pub viewport: Option<Json>,
    pub threshold: Option<String>,
}

impl DiffParams {
    pub open spec fn checks(p: JsonModel) -> Seq<(Seq<char>, Option<Fault>)> {
        seq![
            ("generationId"@, fault_of(text_field(p, "generationId"@))),
            ("baselines"@, fault_of(opt_text_field(p, "baselines"@))),
            ("threshold"@, fault_of(opt_number_field(p, "threshold"@))),
        ]
    }

    pub open spec fn read_from(self, p: JsonModel) -> bool {
        &&& text_field(p, "generationId"@) == Ok::<Seq<char>, Fault>(self.generation_id@)
        &&& opt_text_field(p, "baselines"@) == Ok::<Option<Seq<char>>, Fault>(opt_texts(self.baselines))
        &&& opt_value_field(p, "viewport"@) == opt_model(self.viewport)
        &&& opt_number_field(p, "threshold"@) == Ok::<Option<Seq<char>>, Fault>(opt_texts(self.threshold))
    }

    pub fn parse(p: &Json) -> (r: Result<DiffParams, RpcError>)
        ensures
            r is Ok <==> first_fault(Self::checks(p@)) is None,
            r matches Err(e) ==> decode_error(Self::checks(p@)) == Some(e@),
            r matches Ok(c) ==> c.read_from(p@),
    {
        let ghost cs = Self::checks(p@);
        let generation_id = match text_param(p, "generationId") {
            Ok(v) => v,
            Err(e) => {
                proof { lemma_first_fault_at(cs, 0); }
                return Err(e);
            },
        };
        let baselines = match opt_text_param(p, "baselines") {
            Ok(v) => v,
            Err(e) => {
                proof { lemma_first_fault_at(cs, 1); }
                return Err(e);
            },
        };
        let viewport = opt_value_param(p, "viewport");
        let threshold = match opt_number_param(p, "threshold") {
            Ok(v) => v,
            Err(e) => {
                proof { lemma_first_fault_at(cs, 2); }
                return Err(e);
            },
        };
        proof { lemma_no_fault(cs); }
        Ok(DiffParams { generation_id, baselines, viewport, threshold })
    }
}

/// `audit`: the generation to type-check and lint.
#[derive(Debug)]
pub struct AuditParams {
    pub generation_id: String,
    pub ts_strict: Option<bool>,
    pub eslint_config: Option<String>,
}

impl AuditParams {
    pub open spec fn checks(p: JsonModel) -> Seq<(Seq<char>, Option<Fault>)> {
        seq![
            ("generationId"@, fault_of(text_field(p, "generationId"@))),
            ("tsStrict"@, fault_of(opt_bool_field(p, "tsStrict"@))),
            ("eslintConfig"@, fault_of(opt_text_field(p, "eslintConfig"@))),
        ]
    }

    pub open spec fn read_from(self, p: JsonModel) -> bool {
        &&& text_field(p, "generationId"@) == Ok::<Seq<char>, Fault>(self.generation_id@)
        &&& opt_bool_field(p, "tsStrict"@) == Ok::<Option<bool>, Fault>(self.ts_strict)
        &&& opt_text_field(p, "eslintConfig"@) == Ok::<Option<Seq<char>>, Fault>(opt_texts(self.eslint_config))
    }

    pub fn parse(p: &Json) -> (r: Result<AuditParams, RpcError>)
        ensures
            r is Ok <==> first_fault(Self::checks(p@)) is None,
            r matches Err(e) ==> decode_error(Self::checks(p@)) == Some(e@),
            r matches Ok(c) ==> c.read_from(p@),
    {
        let ghost cs = Self::checks(p@);
        let generation_id = match text_param(p, "generationId") {
            Ok(v) => v,
            Err(e) => {
                proof { lemma_first_fault_at(cs, 0); }
                return Err(e);
            },
        };
        let ts_strict = match opt_bool_param(p, "tsStrict") {
            Ok(v) => v,
            Err(e) => {
                proof { lemma_first_fault_at(cs, 1); }
                return Err(e);
            },
        };
        let eslint_config = match opt_text_param(p, "eslintConfig") {
            Ok(v) => v,
            Err(e) => {
                proof { lemma_first_fault_at(cs, 2); }
                return Err(e);
            },
        };
        proof { lemma_no_fault(cs); }
        Ok(AuditParams { generation_id, ts_strict, eslint_config })
    }
}

/// `apply`: the generation to copy into the target project.
#[derive(Debug)]
pub struct ApplyParams {
    pub generation_id: String,
    pub target: Option<String>,
    pub dry_run: Option<bool>,
}

impl ApplyParams {
    pub open spec fn checks(p: JsonModel) -> Seq<(Seq<char>, Option<Fault>)> {
        seq![
            ("generationId"@, fault_of(text_field(p, "generationId"@))),
            ("target"@, fault_of(opt_text_field(p, "target"@))),
            ("dryRun"@, fault_of(opt_bool_field(p, "dryRun"@))),
        ]
    }

    pub open spec fn read_from(self, p: JsonModel) -> bool {
        &&& text_field(p, "generationId"@) == Ok::<Seq<char>, Fault>(self.generation_id@)
        &&& opt_text_field(p, "target"@) == Ok::<Option<Seq<char>>, Fault>(opt_texts(self.target))
        &&& opt_bool_field(p, "dryRun"@) == Ok::<Option<bool>, Fault>(self.dry_run)
    }

    pub fn parse(p: &Json) -> (r: Result<ApplyParams, RpcError>)
        ensures
            r is Ok <==> first_fault(Self::checks(p@)) is None,
            r matches Err(e) ==> decode_error(Self::checks(p@)) == Some(e@),
            r matches Ok(c) ==> c.read_from(p@),
    {
        let ghost cs = Self::checks(p@);
        let generation_id = match text_param(p, "generationId") {
            Ok(v) => v,
            Err(e) => {
                proof { lemma_first_fault_at(cs, 0); }
                return Err(e);
            },
        };
        let target = match opt_text_param(p, "target") {
            Ok(v) => v,
            Err(e) => {
                proof { lemma_first_fault_at(cs, 1); }
                return Err(e);
            },
        };
        let dry_run = match opt_bool_param(p, "dryRun") {
            Ok(v) => v,
            Err(e) => {
                proof { lemma_first_fault_at(cs, 2); }
                return Err(e);
            },
        };
        proof { lemma_no_fault(cs); }
        Ok(ApplyParams { generation_id, target, dry_run })
    }
}

/// `assets`: the sitemap or generation whose assets are collected.
#[derive(Debug)]
pub struct AssetsParams {
    pub site_map_id: Option<String>,
    pub generation_id: Option<String>,
}

impl AssetsParams {
    pub open spec fn checks(p: JsonModel) -> Seq<(Seq<char>, Option<Fault>)> {
        seq![
            ("siteMapId"@, fault_of(opt_text_field(p, "siteMapId"@))),
            ("generationId"@, fault_of(opt_text_field(p, "generationId"@))),
        ]
    }

    pub open spec fn read_from(self, p: JsonModel) -> bool {
        &&& opt_text_field(p, "siteMapId"@) == Ok::<Option<Seq<char>>, Fault>(opt_texts(self.site_map_id))
        &&& opt_text_field(p, "generationId"@) == Ok::<Option<Seq<char>>, Fault>(opt_texts(self.generation_id))
    }

    pub fn parse(p: &Json) -> (r: Result<AssetsParams, RpcError>)
        ensures
            r is Ok <==> first_fault(Self::checks(p@)) is None,
            r matches Err(e) ==> decode_error(Self::checks(p@)) == Some(e@),
            r matches Ok(c) ==> c.read_from(p@),
    {
        let ghost cs = Self::checks(p@);
        let site_map_id = match opt_text_param(p, "siteMapId") {
            Ok(v) => v,
            Err(e) => {
                proof { lemma_first_fault_at(cs, 0); }
                return Err(e);
            },
        };
        let generation_id = match opt_text_param(p, "generationId") {
            Ok(v) => v,
            Err(e) => {
                proof { lemma_first_fault_at(cs, 1); }
                return Err(e);
            },
        };
        proof { lemma_no_fault(cs); }
        Ok(AssetsParams { site_map_id, generation_id })
    }
}

/// `pack`: the generation to package.
#[derive(Debug)]
pub struct PackParams {
    pub generation_id: String,
}

impl PackParams {
    pub open spec fn checks(p: JsonModel) -> Seq<(Seq<char>, Option<Fault>)> {
        seq![("generationId"@, fault_of(text_field(p, "generationId"@)))]
    }

    pub open spec fn read_from(self, p: JsonModel) -> bool {
        text_field(p, "generationId"@) == Ok::<Seq<char>, Fault>(self.generation_id@)
    }

    pub fn parse(p: &Json) -> (r: Result<PackParams, RpcError>)
        ensures
            r is Ok <==> first_fault(Self::checks(p@)) is None,
            r matches Err(e) ==> decode_error(Self::checks(p@)) == Some(e@),
            r matches Ok(c) ==> c.read_from(p@),
    {
        let ghost cs = Self::checks(p@);
        let generation_id = match text_param(p, "generationId") {
            Ok(v) => v,
            Err(e) => {
                proof { lemma_first_fault_at(cs, 0); }
                return Err(e);
            },
        };
        proof { lemma_no_fault(cs); }
        Ok(PackParams { generation_id })
    }
}

} // verus!
