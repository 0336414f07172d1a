//! Liveness and readiness reports.

use vstd::prelude::*;

use crate::constants::ICP_VERSION;
use crate::json::{lemma_member_found, ArrayBuilder, Json, JsonView, ObjectBuilder};
use crate::state_db::{ladder, migrations, steps};

verus! {

/// What the root of the service answers.
pub const BANNER: &'static str = "StateSet ICP Handler — Intelligent Commerce Protocol";

/// What is known of the running build.
#[derive(Debug)]
pub struct BuildInfo<'a> {
    pub version: &'a str,
    pub git_sha: Option<&'a str>,
    pub built_at: Option<&'a str>,
}

/// A text, or `unknown` when there is none.
pub open spec fn known(t: Option<&str>) -> Seq<char> {
    match t {
        Some(t) => t@,
        None => "unknown"@,
    }
}

fn or_unknown<'a>(t: Option<&'a str>) -> (r: &'a str)
    ensures
        r@ == known(t),
{
    match t {
        Some(t) => t,
        None => "unknown",
    }
}

/// The versions of a schema as a document.
pub open spec fn version_list(v: Seq<u32>) -> JsonView {
    JsonView::Array(v.map_values(|n: u32| JsonView::Int(n as int)))
}

/// The versions that a schema should have.
pub open spec fn expected_versions() -> Seq<u32> {
    ladder().map_values(|s: (u32, Seq<char>)| s.0)
}

fn list_versions(v: &Vec<u32>) -> (r: Json)
    ensures
        r@ == version_list(v@),
{
    let mut list = ArrayBuilder::new();
    let mut i: usize = 0;
    while i < v.len()
        invariant
            i <= v@.len(),
            list@.len() == i,
            forall|j: int| 0 <= j < i ==> #[trigger] list@[j] == JsonView::Int(v@[j] as int),
        decreases v@.len() - i,
    {
        list = list.put(Json::Int(v[i] as i64));
        i += 1;
    }
    assert(list@ =~= v@.map_values(|n: u32| JsonView::Int(n as int)));
    list.build()
}

/// The health report: what is running, and which versions of the schema are
/// applied and expected.
pub open spec fn health_document(
    version: Seq<char>,
    git_sha: Seq<char>,
    built_at: Seq<char>,
    applied: Seq<u32>,
) -> JsonView {
    JsonView::Object(
        Seq::empty().push(("status"@, JsonView::Str("healthy"@))).push(
            ("service"@, JsonView::Str("stateset-icp-handler"@)),
        ).push(("version"@, JsonView::Str(version))).push(
            ("icp_version"@, JsonView::Str(ICP_VERSION@)),
        ).push(("git_sha"@, JsonView::Str(git_sha))).push(
            ("built_at"@, JsonView::Str(built_at)),
        ).push(
            (
                "state_schema"@,
                JsonView::Object(
                    Seq::empty().push(("applied"@, version_list(applied))).push(
                        ("expected"@, version_list(expected_versions())),
                    ),
                ),
            ),
        ),
    )
}

/// The health report.
pub fn health(build: &BuildInfo<'_>, applied: &Vec<u32>) -> (r: Json)
    ensures
        r@ == health_document(build.version@, known(build.git_sha), known(build.built_at), applied@),
{
    let all = migrations();
    let mut expected: Vec<u32> = Vec::new();
    let mut i: usize = 0;
    while i < all.len()
        invariant
            i <= all@.len(),
            steps(all@) == ladder(),
            expected@.len() == i,
            forall|j: int| 0 <= j < i ==> #[trigger] expected@[j] == all@[j].version,
        decreases all@.len() - i,
    {
        expected.push(all[i].version);
        i += 1;
    }
    assert(expected@ =~= expected_versions()) by {
        assert forall|j: int| 0 <= j < expected@.len() implies #[trigger] expected@[j]
            == ladder()[j].0 by {
            assert(steps(all@)[j].0 == all@[j].version);
        }
    }
    let schema = ObjectBuilder::new().put("applied", list_versions(applied)).put(
        "expected",
        list_versions(&expected),
    ).build();
    ObjectBuilder::new().put_str("status", "healthy").put_str(
        "service",
        "stateset-icp-handler",
    ).put_str("version", build.version).put_str("icp_version", ICP_VERSION).put_str(
        "git_sha",
        or_unknown(build.git_sha),
    ).put_str("built_at", or_unknown(build.built_at)).put("state_schema", schema).build()
}

/// The readiness report: degraded without a commerce engine.
pub fn ready(engine: bool) -> (r: Json)
    ensures
        r@ == JsonView::Object(
            Seq::empty().push(
                (
                    "status"@,
                    JsonView::Str(
                        if engine {
                            "ready"@
                        } else {
                            "degraded"@
                        },
                    ),
                ),
            ).push(
                (
                    "engine"@,
                    JsonView::Str(
                        if engine {
                            "available"@
                        } else {
                            "unavailable"@
                        },
                    ),
                ),
            ),
        ),
{
    if engine {
        ObjectBuilder::new().put_str("status", "ready").put_str("engine", "available").build()
    } else {
        ObjectBuilder::new().put_str("status", "degraded").put_str("engine", "unavailable").build()
    }
}

// ---------------------------------------------------------------------------
// Laws
// ---------------------------------------------------------------------------

/// A healthy handler says so, and which build it is.
pub proof fn law_health_tells_the_build(
    version: Seq<char>,
    git_sha: Seq<char>,
    built_at: Seq<char>,
    applied: Seq<u32>,
)
    ensures
        ({
            let d = health_document(version, git_sha, built_at, applied);
            &&& d.member("status"@) == Some(JsonView::Str("healthy"@))
            &&& d.member("version"@) == Some(JsonView::Str(version))
            &&& d.member("icp_version"@) == Some(JsonView::Str(ICP_VERSION@))
            &&& d.member("git_sha"@) == Some(JsonView::Str(git_sha))
            &&& d.member("built_at"@) == Some(JsonView::Str(built_at))
        }),
{
    let m = health_document(version, git_sha, built_at, applied)->Object_0;
    reveal_strlit("status");
    reveal_strlit("service");
    reveal_strlit("version");
    reveal_strlit("icp_version");
    reveal_strlit("git_sha");
    reveal_strlit("built_at");
    assert("status"@.len() == 6 && "service"@.len() == 7 && "version"@.len() == 7
        && "icp_version"@.len() == 11 && "git_sha"@.len() == 7 && "built_at"@.len() == 8);
    assert("service"@[0] == 's' && "version"@[0] == 'v' && "git_sha"@[0] == 'g');
    assert(m[0].0 == "status"@ && m[1].0 == "service"@ && m[2].0 == "version"@ && m[3].0
        == "icp_version"@);
    lemma_member_found(m, "status"@, 0, 0);
    lemma_member_found(m, "version"@, 0, 2);
    lemma_member_found(m, "icp_version"@, 0, 3);
    lemma_member_found(m, "git_sha"@, 0, 4);
    lemma_member_found(m, "built_at"@, 0, 5);
}

} // verus!
