//! Where manifests and job logs live, under the project's hidden directory.
use vstd::prelude::*;

verus! {

pub open spec fn sitemap_path(id: Seq<char>) -> Seq<char> {
    ".site2ts/cache/sitemaps/"@ + id + ".json"@
}

pub open spec fn analysis_path() -> Seq<char> {
    ".site2ts/staging/meta/analysis.json"@
}

pub open spec fn scaffold_path(id: Seq<char>) -> Seq<char> {
    ".site2ts/staging/meta/scaffolds/"@ + id + ".json"@
}

pub open spec fn generation_path(id: Seq<char>) -> Seq<char> {
    ".site2ts/staging/meta/generations/"@ + id + ".json"@
}

pub open spec fn log_path(job: Seq<char>) -> Seq<char> {
    ".site2ts/logs/"@ + job + ".ndjson"@
}

/// The hidden working directory of a project.
pub open spec fn work_root(project: Seq<char>) -> Seq<char> {
    project + "/.site2ts"@
}

/// The directory skeleton that `init` leaves in place.
pub open spec fn skeleton(project: Seq<char>) -> Seq<Seq<char>> {
    seq![
        work_root(project) + "/staging"@,
        work_root(project) + "/cache/pw"@,
        work_root(project) + "/reports"@,
        work_root(project) + "/logs"@,
        work_root(project) + "/exports"@,
    ]
}

/// `a` followed by `b`.
pub fn join(a: &str, b: &str) -> (r: String)
    ensures
        r@ == a@ + b@,
{
    let mut s = String::from_str(a);
    s.append(b);
    s
}

/// `a`, then `b`, then `c`.
pub fn join3(a: &str, b: &str, c: &str) -> (r: String)
    ensures
        r@ == a@ + b@ + c@,
{
    let mut s = String::from_str(a);
    s.append(b);
    s.append(c);
    s
}

pub fn sitemap_file(id: &str) -> (r: String)
    ensures
        r@ == sitemap_path(id@),
{
    join3(".site2ts/cache/sitemaps/", id, ".json")
}

pub fn analysis_file() -> (r: String)
    ensures
        r@ == analysis_path(),
{
    String::from_str(".site2ts/staging/meta/analysis.json")
}

pub fn scaffold_file(id: &str) -> (r: String)
    ensures
        r@ == scaffold_path(id@),
{
    join3(".site2ts/staging/meta/scaffolds/", id, ".json")
}

pub fn generation_file(id: &str) -> (r: String)
    ensures
        r@ == generation_path(id@),
{
    join3(".site2ts/staging/meta/generations/", id, ".json")
}

pub fn log_file(job: &str) -> (r: String)
    ensures
        r@ == log_path(job@),
{
    join3(".site2ts/logs/", job, ".ndjson")
}

pub fn work_dir(project: &str) -> (r: String)
    ensures
        r@ == work_root(project@),
{
    join(project, "/.site2ts")
}

/// The skeleton directories of `init`, in order.
pub fn skeleton_dirs(project: &str) -> (r: Vec<String>)
    ensures
        r@.len() == 5,
        forall|i: int| 0 <= i < 5 ==> (#[trigger] r@[i])@ == skeleton(project@)[i],
{
    let root = work_dir(project);
    let mut v: Vec<String> = Vec::new();
    v.push(join(root.as_str(), "/staging"));
    v.push(join(root.as_str(), "/cache/pw"));
    v.push(join(root.as_str(), "/reports"));
    v.push(join(root.as_str(), "/logs"));
    v.push(join(root.as_str(), "/exports"));
    v
}

} // verus!
