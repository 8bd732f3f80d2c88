//! Orchestrator: the decisions behind the four operations. Each function
//! turns what the shell observed (does the artifact exist, what did the probe
//! report, did a step succeed) into the next plan or outcome, and its
//! contract pins that answer exactly. The shell only carries plans out; it
//! decides nothing.
use vstd::prelude::*;

use crate::errors::VmError;
use crate::paths::{
    download_url, join, lemma_path_injective, output_dir, path, publish_root, release_dir,
    spec_download_url, spec_join, spec_output_dir, spec_path, spec_publish_root,
    spec_release_dir,
};
use crate::publish::{covered, is_symlink_plan, LinkStep};
use crate::text::str_eq;

verus! {

/// What `download` decides: answer from the cache, or fetch one URL and
/// store the body at the artifact path.
pub enum DownloadPlan {
    AlreadyCached { artifact: String },
    Fetch { url: String, artifact: String },
}

/// The download decision for a version: a fetch is planned exactly when the
/// artifact does not already stand at its cache path, and it downloads the
/// deterministic URL for the version into that path.
pub open spec fn is_download_plan(
    r: DownloadPlan,
    cache_dir: Seq<char>,
    version: Seq<char>,
    artifact_exists: bool,
) -> bool {
    match r {
        DownloadPlan::AlreadyCached { artifact } => {
            &&& artifact_exists
            &&& artifact@ == spec_path(cache_dir, version)
        },
        DownloadPlan::Fetch { url, artifact } => {
            &&& !artifact_exists
            &&& url@ == spec_download_url(version)
            &&& artifact@ == spec_path(cache_dir, version)
        },
    }
}

pub fn download(cache_dir: &str, version: &str, artifact_exists: bool) -> (r: DownloadPlan)
    ensures
        is_download_plan(r, cache_dir@, version@, artifact_exists),
{
    let artifact = path(cache_dir, version);
    if artifact_exists {
        DownloadPlan::AlreadyCached { artifact }
    } else {
        DownloadPlan::Fetch { url: download_url(version), artifact }
    }
}

/// Downloading is idempotent. A first download of an uncached version plans
/// one fetch that stores the artifact at its path; once that artifact stands
/// there, the plan for the same version is answered from the cache, fetches
/// nothing, and names the very path the first download wrote.
pub proof fn lemma_download_idempotent(
    first: DownloadPlan,
    second: DownloadPlan,
    cache_dir: Seq<char>,
    version: Seq<char>,
)
    requires
        is_download_plan(first, cache_dir, version, false),
        is_download_plan(second, cache_dir, version, true),
    ensures
        second is AlreadyCached,
        first is Fetch,
        (second matches DownloadPlan::AlreadyCached { artifact } ==> artifact@ == spec_path(
            cache_dir,
            version,
        )),
        (first matches DownloadPlan::Fetch { url, artifact } ==> artifact@ == spec_path(
            cache_dir,
            version,
        )),
{
}

/// How a planned fetch ended, as the shell observed it.
pub enum FetchOutcome {
    /// The request could not be made or got no successful reply.
    NetworkFailed,
    /// The reply carried a non-success status.
    HttpFailed,
    /// The artifact file could not be created.
    CreateFailed,
    /// The body could not be written out in full.
    WriteFailed,
    /// The whole body stands at the artifact path.
    Written,
}

/// What to report for a finished fetch, and what to clean up.
pub struct StoreResult {
    pub artifact: Result<String, VmError>,
    /// A partly written file that must not stay at the artifact's final
    /// name; `Some` orders its removal.
    pub remove_partial: Option<String>,
}

pub open spec fn is_store_result(
    r: StoreResult,
    version: Seq<char>,
    artifact: Seq<char>,
    outcome: FetchOutcome,
) -> bool {
    match outcome {
        FetchOutcome::NetworkFailed => {
            &&& (r.artifact matches Err(e) && (e matches VmError::FetchFailed { version: v }
                && v@ == version))
            &&& r.remove_partial is None
        },
        FetchOutcome::HttpFailed => {
            &&& (r.artifact matches Err(e) && (e matches VmError::FetchFailed { version: v }
                && v@ == version))
            &&& r.remove_partial is None
        },
        FetchOutcome::CreateFailed => {
            &&& (r.artifact matches Err(e) && (e matches VmError::StoreFailed { version: v }
                && v@ == version))
            &&& r.remove_partial is None
        },
        FetchOutcome::WriteFailed => {
            &&& (r.artifact matches Err(e) && (e matches VmError::StoreFailed { version: v }
                && v@ == version))
            &&& (r.remove_partial matches Some(p) && p@ == artifact)
        },
        FetchOutcome::Written => {
            &&& (r.artifact matches Ok(p) && p@ == artifact)
            &&& r.remove_partial is None
        },
    }
}

pub fn store_result(version: &str, artifact: &str, outcome: FetchOutcome) -> (r: StoreResult)
    ensures
        is_store_result(r, version@, artifact@, outcome),
{
    match outcome {
        FetchOutcome::NetworkFailed => StoreResult {
            artifact: Err(VmError::FetchFailed { version: String::from_str(version) }),
            remove_partial: None,
        },
        FetchOutcome::HttpFailed => StoreResult {
            artifact: Err(VmError::FetchFailed { version: String::from_str(version) }),
            remove_partial: None,
        },
        FetchOutcome::CreateFailed => StoreResult {
            artifact: Err(VmError::StoreFailed { version: String::from_str(version) }),
            remove_partial: None,
        },
        FetchOutcome::WriteFailed => StoreResult {
            artifact: Err(VmError::StoreFailed { version: String::from_str(version) }),
            remove_partial: Some(String::from_str(artifact)),
        },
        FetchOutcome::Written => StoreResult {
            artifact: Ok(String::from_str(artifact)),
            remove_partial: None,
        },
    }
}

/// No fetch outcome leaves a partial file at the artifact's final name: a
/// cleanup is ordered exactly when the write broke off partway, and it
/// removes the artifact path itself.
pub proof fn lemma_store_cleanup(
    r: StoreResult,
    version: Seq<char>,
    artifact: Seq<char>,
    outcome: FetchOutcome,
)
    requires
        is_store_result(r, version, artifact, outcome),
    ensures
        r.remove_partial is Some <==> outcome is WriteFailed,
        (r.remove_partial matches Some(p) ==> p@ == artifact),
        r.artifact is Ok <==> outcome is Written,
{
}

/// What `switch` decides after the probe: nothing to do, or go through the
/// clear, extract and publish steps.
#[derive(Debug)]
pub enum SwitchDecision {
    NoOp,
    Proceed,
}

pub open spec fn is_switch_decision(
    r: Result<SwitchDecision, VmError>,
    version: Seq<char>,
    probe: Result<String, VmError>,
) -> bool {
    match probe {
        Ok(cur) => {
            if cur@ == version {
                r == Result::<SwitchDecision, VmError>::Ok(SwitchDecision::NoOp)
            } else {
                r == Result::<SwitchDecision, VmError>::Ok(SwitchDecision::Proceed)
            }
        },
        Err(e) => r == Result::<SwitchDecision, VmError>::Err(e),
    }
}

/// The switch decision: a no-op exactly when the probe reports the requested
/// version; a probe failure fails the switch.
pub fn switch(version: &str, probe: Result<String, VmError>) -> (r: Result<
    SwitchDecision,
    VmError,
>)
    ensures
        is_switch_decision(r, version@, probe),
{
    match probe {
        Ok(cur) => {
            if str_eq(cur.as_str(), version) {
                Ok(SwitchDecision::NoOp)
            } else {
                Ok(SwitchDecision::Proceed)
            }
        },
        Err(e) => Err(e),
    }
}

/// Switching to the version that is already current is a no-op: the decision
/// orders no extraction and no publish, so nothing on disk is touched.
pub proof fn lemma_switch_noop(
    r: Result<SwitchDecision, VmError>,
    version: Seq<char>,
    cur: String,
)
    requires
        cur@ == version,
        is_switch_decision(r, version, Ok(cur)),
    ensures
        r == Result::<SwitchDecision, VmError>::Ok(SwitchDecision::NoOp),
{
}

/// Every path a proceeding switch works with, resolved once.
pub struct SwitchPlan {
    /// The cached archive to extract (fetched first if missing).
    pub artifact: String,
    /// Where to fetch it from if it is missing.
    pub url: String,
    /// The active directory: removed in full, then extracted into.
    pub active_dir: String,
    /// The release folder the archive carries at its top level.
    pub release_dir: String,
    pub bin_src: String,
    pub bin_dst: String,
    pub lib_src: String,
    pub lib_dst: String,
    pub share_src: String,
    pub share_dst: String,
}

pub open spec fn is_switch_plan(
    p: SwitchPlan,
    cache_dir: Seq<char>,
    home: Seq<char>,
    version: Seq<char>,
) -> bool {
    let active = spec_output_dir(cache_dir);
    let release = spec_release_dir(active);
    let root = spec_publish_root(home);
    &&& p.artifact@ == spec_path(cache_dir, version)
    &&& p.url@ == spec_download_url(version)
    &&& p.active_dir@ == active
    &&& p.release_dir@ == release
    &&& p.bin_src@ == spec_join(release, "bin"@)
    &&& p.bin_dst@ == spec_join(root, "bin"@)
    &&& p.lib_src@ == spec_join(release, "lib"@)
    &&& p.lib_dst@ == spec_join(root, "lib"@)
    &&& p.share_src@ == spec_join(release, "share"@)
    &&& p.share_dst@ == spec_join(root, "share"@)
}

pub fn switch_plan(cache_dir: &str, home: &str, version: &str) -> (p: SwitchPlan)
    ensures
        is_switch_plan(p, cache_dir@, home@, version@),
{
    let active = output_dir(cache_dir);
    let release = release_dir(active.as_str());
    let root = publish_root(home);
    SwitchPlan {
        artifact: path(cache_dir, version),
        url: download_url(version),
        active_dir: active,
        bin_src: join(release.as_str(), "bin"),
        bin_dst: join(root.as_str(), "bin"),
        lib_src: join(release.as_str(), "lib"),
        lib_dst: join(root.as_str(), "lib"),
        share_src: join(release.as_str(), "share"),
        share_dst: join(root.as_str(), "share"),
        release_dir: release,
    }
}

/// Switch completeness for the binaries and libraries subtrees: once a
/// proceeding switch has published from its plan, every entry of the active
/// tree's bin directory has a symlink under the publish root's bin pointing
/// at exactly that entry, and likewise for lib.
pub proof fn lemma_switch_publish_complete(
    plan: SwitchPlan,
    cache_dir: Seq<char>,
    home: Seq<char>,
    version: Seq<char>,
    bin_steps: Seq<LinkStep>,
    bin_entries: Seq<String>,
    bin_existing: Seq<String>,
    lib_steps: Seq<LinkStep>,
    lib_entries: Seq<String>,
    lib_existing: Seq<String>,
)
    requires
        is_switch_plan(plan, cache_dir, home, version),
        is_symlink_plan(bin_steps, plan.bin_src@, plan.bin_dst@, bin_entries, bin_existing),
        is_symlink_plan(lib_steps, plan.lib_src@, plan.lib_dst@, lib_entries, lib_existing),
    ensures
        forall|j: int|
            0 <= j < bin_entries.len() ==> covered(
                bin_steps,
                spec_join(spec_release_dir(spec_output_dir(cache_dir)), "bin"@),
                spec_join(spec_publish_root(home), "bin"@),
                (#[trigger] bin_entries[j])@,
            ),
        forall|j: int|
            0 <= j < lib_entries.len() ==> covered(
                lib_steps,
                spec_join(spec_release_dir(spec_output_dir(cache_dir)), "lib"@),
                spec_join(spec_publish_root(home), "lib"@),
                (#[trigger] lib_entries[j])@,
            ),
{
    assert forall|j: int| 0 <= j < bin_entries.len() implies covered(
        bin_steps,
        spec_join(spec_release_dir(spec_output_dir(cache_dir)), "bin"@),
        spec_join(spec_publish_root(home), "bin"@),
        (#[trigger] bin_entries[j])@,
    ) by {
        assert(0 <= j < bin_steps.len() && bin_steps[j].link@ == spec_join(
            plan.bin_dst@,
            bin_entries[j]@,
        ) && bin_steps[j].target@ == spec_join(plan.bin_src@, bin_entries[j]@));
    }
    assert forall|j: int| 0 <= j < lib_entries.len() implies covered(
        lib_steps,
        spec_join(spec_release_dir(spec_output_dir(cache_dir)), "lib"@),
        spec_join(spec_publish_root(home), "lib"@),
        (#[trigger] lib_entries[j])@,
    ) by {
        assert(0 <= j < lib_steps.len() && lib_steps[j].link@ == spec_join(
            plan.lib_dst@,
            lib_entries[j]@,
        ) && lib_steps[j].target@ == spec_join(plan.lib_src@, lib_entries[j]@));
    }
}

/// Switch completeness for the shared-data subtree: a top-level share entry
/// of the active tree is published as its own symlink set, every entry of
/// which stands under the publish root's share entry of that name and points
/// back into the active tree's share entry of that name.
pub proof fn lemma_switch_share_complete(
    plan: SwitchPlan,
    cache_dir: Seq<char>,
    home: Seq<char>,
    version: Seq<char>,
    share_name: String,
    steps: Seq<LinkStep>,
    entries: Seq<String>,
    existing: Seq<String>,
)
    requires
        is_switch_plan(plan, cache_dir, home, version),
        is_symlink_plan(
            steps,
            spec_join(plan.share_src@, share_name@),
            spec_join(plan.share_dst@, share_name@),
            entries,
            existing,
        ),
    ensures
        forall|j: int|
            0 <= j < entries.len() ==> covered(
                steps,
                spec_join(
                    spec_join(spec_release_dir(spec_output_dir(cache_dir)), "share"@),
                    share_name@,
                ),
                spec_join(spec_join(spec_publish_root(home), "share"@), share_name@),
                (#[trigger] entries[j])@,
            ),
{
    assert forall|j: int| 0 <= j < entries.len() implies covered(
        steps,
        spec_join(
            spec_join(spec_release_dir(spec_output_dir(cache_dir)), "share"@),
            share_name@,
        ),
        spec_join(spec_join(spec_publish_root(home), "share"@), share_name@),
        (#[trigger] entries[j])@,
    ) by {
        assert(0 <= j < steps.len() && steps[j].link@ == spec_join(
            spec_join(plan.share_dst@, share_name@),
            entries[j]@,
        ) && steps[j].target@ == spec_join(spec_join(plan.share_src@, share_name@), entries[j]@));
    }
}

/// The source and destination for publishing one top-level entry of the
/// shared-data tree.
pub fn share_entry(share_src: &str, share_dst: &str, name: &str) -> (r: (String, String))
    ensures
        r.0@ == spec_join(share_src@, name@),
        r.1@ == spec_join(share_dst@, name@),
{
    (join(share_src, name), join(share_dst, name))
}

/// The mutation steps of a proceeding switch, in order.
pub enum SwitchStep {
    Clear,
    Extract,
    Publish,
}

pub open spec fn spec_step_error(step: SwitchStep) -> VmError {
    match step {
        SwitchStep::Clear => VmError::ClearFailed,
        SwitchStep::Extract => VmError::ExtractFailed,
        SwitchStep::Publish => VmError::PublishFailed,
    }
}

/// Maps a step's success or failure to the switch's outcome: a failed step
/// aborts the switch with that step's error kind.
pub fn step_result(step: SwitchStep, ok: bool) -> (r: Result<(), VmError>)
    ensures
        ok ==> r == Result::<(), VmError>::Ok(()),
        !ok ==> r == Result::<(), VmError>::Err(spec_step_error(step)),
{
    if ok {
        Ok(())
    } else {
        match step {
            SwitchStep::Clear => Err(VmError::ClearFailed),
            SwitchStep::Extract => Err(VmError::ExtractFailed),
            SwitchStep::Publish => Err(VmError::PublishFailed),
        }
    }
}

/// The purge decision: exactly the named version's artifact is removed when
/// it stands in the cache; purging an unknown version is an error and orders
/// no removal.
pub open spec fn is_purge_plan(
    r: Result<String, VmError>,
    cache_dir: Seq<char>,
    version: Seq<char>,
    artifact_exists: bool,
) -> bool {
    if artifact_exists {
        r matches Ok(p) && p@ == spec_path(cache_dir, version)
    } else {
        r matches Err(e) && (e matches VmError::NotFound { version: v } && v@ == version)
    }
}

pub fn purge(cache_dir: &str, version: &str, artifact_exists: bool) -> (r: Result<
    String,
    VmError,
>)
    ensures
        is_purge_plan(r, cache_dir@, version@, artifact_exists),
{
    if artifact_exists {
        Ok(path(cache_dir, version))
    } else {
        Err(VmError::NotFound { version: String::from_str(version) })
    }
}

pub fn purge_result(version: &str, removed: bool) -> (r: Result<(), VmError>)
    ensures
        removed ==> r == Result::<(), VmError>::Ok(()),
        !removed ==> (r matches Err(e) && (e matches VmError::RemoveFailed { version: v }
            && v@ == version@)),
{
    if removed {
        Ok(())
    } else {
        Err(VmError::RemoveFailed { version: String::from_str(version) })
    }
}

/// Purging deletes exactly the named version's artifact: the one path the
/// plan orders removed is that version's, and it differs from every other
/// version's artifact path, which is therefore left untouched. A purge of a
/// version that is not cached fails and orders nothing removed.
pub proof fn lemma_purge_exact(
    r: Result<String, VmError>,
    cache_dir: Seq<char>,
    version: Seq<char>,
    other: Seq<char>,
)
    requires
        is_purge_plan(r, cache_dir, version, true),
        other != version,
    ensures
        (r matches Ok(p) ==> p@ == spec_path(cache_dir, version)),
        (r matches Ok(p) ==> p@ != spec_path(cache_dir, other)),
{
    lemma_path_injective(cache_dir, version, other);
}

} // verus!
