//! Release upload orchestration: one release, one upload pass per
//! requested distribution (or a single pass with none).
use vstd::prelude::*;
use vstd::string::*;
use crate::error::CliError;
use crate::text::copy_str;

verus! {

/// The request that creates a release: its version and the project
/// slugs it applies to.
pub struct NewRelease {
    pub version: String,
    pub projects: Vec<String>,
}

/// Everything one upload pass needs: organization, project, release
/// version, the optional distribution tag, and whether to wait for
/// server-side processing. Constructed fresh per pass, never mutated.
pub struct UploadContext {
    pub org: String,
    pub project: Option<String>,
    pub release: String,
    pub dist: Option<String>,
    pub wait: bool,
}

/// A release-name override excludes the bundle-id and version-name
/// overrides.
pub open spec fn spec_release_args_conflict(
    release_name: bool,
    bundle_id: bool,
    version_name: bool,
) -> bool {
    release_name && (bundle_id || version_name)
}

/// Reject the mutually exclusive overrides before any collaborator is
/// invoked: `--release-name` cannot be combined with `--bundle-id` or
/// `--version-name`.
pub fn check_release_name_args(
    release_name: bool,
    bundle_id: bool,
    version_name: bool,
) -> (r: Result<(), CliError>)
    ensures
        r is Err <==> spec_release_args_conflict(release_name, bundle_id, version_name),
        r matches Err(e) ==> e == CliError::ConflictingReleaseArgs,
{
    if release_name && (bundle_id || version_name) {
        Err(CliError::ConflictingReleaseArgs)
    } else {
        Ok(())
    }
}

/// The release-creation request for this invocation: the computed
/// version, applied to exactly the one current project.
pub fn new_release_request(version: &str, project: &str) -> (r: NewRelease)
    ensures
        r.version@ == version@,
        r.projects@.len() == 1,
        r.projects@[0]@ == project@,
{
    let mut projects: Vec<String> = Vec::new();
    projects.push(copy_str(project));
    NewRelease { version: copy_str(version), projects }
}

/// How many upload passes a request for these distributions performs:
/// one per distribution, or a single distribution-less pass.
pub open spec fn spec_pass_count(dists: Seq<Seq<char>>) -> int {
    if dists.len() == 0 {
        1
    } else {
        dists.len() as int
    }
}

/// The distribution of pass `i`: absent when none were requested,
/// otherwise the `i`-th requested one, in the order given.
pub open spec fn spec_pass_dist(dists: Seq<Seq<char>>, i: int) -> Option<Seq<char>> {
    if dists.len() == 0 {
        None
    } else {
        Some(dists[i])
    }
}

pub open spec fn dist_views(dists: Seq<String>) -> Seq<Seq<char>> {
    dists.map_values(|d: String| d@)
}

/// Whether an upload context matches pass `i` of this invocation.
pub open spec fn spec_pass_matches(
    c: UploadContext,
    org: Seq<char>,
    project: Seq<char>,
    release: Seq<char>,
    dists: Seq<Seq<char>>,
    wait: bool,
    i: int,
) -> bool {
    &&& c.org@ == org
    &&& c.project matches Some(p) && p@ == project
    &&& c.release@ == release
    &&& c.wait == wait
    &&& match spec_pass_dist(dists, i) {
        Some(d) => c.dist matches Some(cd) && cd@ == d,
        None => c.dist is None,
    }
}

/// Plan the upload passes of one invocation: one context per
/// requested distribution in the order given, or exactly one with no
/// distribution, every pass against the same organization, project
/// and release version.
pub fn plan_upload_passes(
    org: &str,
    project: &str,
    release: &str,
    dists: &Vec<String>,
    wait: bool,
) -> (r: Vec<UploadContext>)
    ensures
        r@.len() == spec_pass_count(dist_views(dists@)),
        forall|i: int|
            0 <= i < r@.len() ==> spec_pass_matches(
                #[trigger] r@[i],
                org@,
                project@,
                release@,
                dist_views(dists@),
                wait,
                i,
            ),
{
    let mut r: Vec<UploadContext> = Vec::new();
    if dists.len() == 0 {
        r.push(
            UploadContext {
                org: copy_str(org),
                project: Some(copy_str(project)),
                release: copy_str(release),
                dist: None,
                wait,
            },
        );
    } else {
        let n = dists.len();
        for idx in 0..n
            invariant
                n == dists@.len(),
                n > 0,
                r@.len() == idx,
                forall|i: int|
                    0 <= i < idx ==> spec_pass_matches(
                        #[trigger] r@[i],
                        org@,
                        project@,
                        release@,
                        dist_views(dists@),
                        wait,
                        i,
                    ),
        {
            r.push(
                UploadContext {
                    org: copy_str(org),
                    project: Some(copy_str(project)),
                    release: copy_str(release),
                    dist: Some(copy_str(dists[idx].as_str())),
                    wait,
                },
            );
        }
    }
    r
}

/// What pass `i` announces before uploading: the release it targets,
/// and either its distribution or an explicit note that none was set.
pub open spec fn spec_pass_message(release: Seq<char>, dist: Option<Seq<char>>) -> Seq<char> {
    match dist {
        None => "Uploading sourcemaps for release "@ + release
            + " (no distribution value given; use --dist to set distribution value)"@,
        Some(d) => "Uploading sourcemaps for release "@ + release + " distribution "@ + d,
    }
}

/// Render the announcement printed before one upload pass.
pub fn pass_message(ctx: &UploadContext) -> (r: String)
    ensures
        r@ == spec_pass_message(
            ctx.release@,
            match ctx.dist {
                Some(d) => Some(d@),
                None => None,
            },
        ),
{
    let mut r = String::from_str("Uploading sourcemaps for release ");
    r.append(ctx.release.as_str());
    match &ctx.dist {
        None => {
            r.append(" (no distribution value given; use --dist to set distribution value)");
        },
        Some(d) => {
            r.append(" distribution ");
            r.append(d.as_str());
        },
    }
    r
}

/// The number of upload passes equals the number of requested
/// distributions, and one distribution-less pass stands in when none
/// were requested.
pub proof fn lemma_one_pass_per_distribution(dists: Seq<Seq<char>>)
    ensures
        dists.len() > 0 ==> spec_pass_count(dists) == dists.len(),
        dists.len() == 0 ==> spec_pass_count(dists) == 1 && spec_pass_dist(dists, 0) is None,
        forall|i: int|
            0 <= i < dists.len() ==> spec_pass_dist(dists, i) == Some(dists[i]),
{
}

} // verus!
