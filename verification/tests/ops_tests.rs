use nvim_switcher::errors::VmError;
use nvim_switcher::ops::{
    download, purge, purge_result, share_entry, step_result, store_result, switch, switch_plan,
    DownloadPlan, FetchOutcome, SwitchDecision, SwitchStep,
};

const CACHE: &str = "/home/me/.cache/nvim_switcher";

#[test]
fn download_on_empty_cache_plans_one_fetch() {
    match download(CACHE, "v0.10.0", false) {
        DownloadPlan::Fetch { url, artifact } => {
            assert_eq!(
                url,
                "https://github.com/neovim/neovim/releases/download/v0.10.0/nvim-linux64.tar.gz"
            );
            assert_eq!(artifact, "/home/me/.cache/nvim_switcher/nvim-v0.10.0.tar.gz");
        }
        DownloadPlan::AlreadyCached { .. } => panic!("expected a fetch"),
    }
}

#[test]
fn download_again_is_answered_from_cache() {
    // The first download stored the artifact at its path; the second call
    // sees it there, plans no fetch, and returns the same path.
    let first = match download(CACHE, "v0.10.0", false) {
        DownloadPlan::Fetch { artifact, .. } => artifact,
        DownloadPlan::AlreadyCached { .. } => panic!("expected a fetch"),
    };
    match download(CACHE, "v0.10.0", true) {
        DownloadPlan::AlreadyCached { artifact } => assert_eq!(artifact, first),
        DownloadPlan::Fetch { .. } => panic!("second download must not fetch"),
    }
}

#[test]
fn fetch_outcomes_map_to_reports() {
    let artifact = "/c/nvim-v1.tar.gz";
    let r = store_result("v1", artifact, FetchOutcome::Written);
    assert_eq!(r.artifact.unwrap(), artifact);
    assert!(r.remove_partial.is_none());

    let r = store_result("v1", artifact, FetchOutcome::NetworkFailed);
    assert!(matches!(r.artifact, Err(VmError::FetchFailed { .. })));
    assert_eq!(r.artifact.unwrap_err().message(), "Failed to download version v1");
    assert!(r.remove_partial.is_none());

    let r = store_result("v1", artifact, FetchOutcome::HttpFailed);
    assert!(matches!(r.artifact, Err(VmError::FetchFailed { .. })));
    assert!(r.remove_partial.is_none());

    let r = store_result("v1", artifact, FetchOutcome::CreateFailed);
    assert!(matches!(r.artifact, Err(VmError::StoreFailed { .. })));
    assert!(r.remove_partial.is_none());
}

#[test]
fn failed_write_orders_partial_file_removed() {
    let artifact = "/c/nvim-v1.tar.gz";
    let r = store_result("v1", artifact, FetchOutcome::WriteFailed);
    let e = r.artifact.unwrap_err();
    assert_eq!(e.message(), "Failed to store version v1");
    assert_eq!(r.remove_partial.as_deref(), Some(artifact));
}

#[test]
fn switch_to_current_version_is_noop() {
    let r = switch("v0.10.0", Ok(String::from("v0.10.0")));
    assert!(matches!(r, Ok(SwitchDecision::NoOp)));
}

#[test]
fn switch_to_other_version_proceeds() {
    let r = switch("v0.11.0", Ok(String::from("v0.10.0")));
    assert!(matches!(r, Ok(SwitchDecision::Proceed)));
    let r = switch("v0.11.0", Ok(String::from("None")));
    assert!(matches!(r, Ok(SwitchDecision::Proceed)));
}

#[test]
fn switch_fails_when_probe_fails() {
    let r = switch("v0.11.0", Err(VmError::ProbeFailed));
    assert_eq!(r.unwrap_err().message(), "Failed to get version");
}

#[test]
fn switch_plan_resolves_every_path() {
    let p = switch_plan(CACHE, "/home/me", "v0.11.0");
    assert_eq!(p.artifact, "/home/me/.cache/nvim_switcher/nvim-v0.11.0.tar.gz");
    assert_eq!(
        p.url,
        "https://github.com/neovim/neovim/releases/download/v0.11.0/nvim-linux64.tar.gz"
    );
    assert_eq!(p.active_dir, "/home/me/.cache/nvim_switcher/current");
    assert_eq!(p.release_dir, "/home/me/.cache/nvim_switcher/current/nvim-linux64");
    assert_eq!(p.bin_src, "/home/me/.cache/nvim_switcher/current/nvim-linux64/bin");
    assert_eq!(p.bin_dst, "/home/me/.local/bin");
    assert_eq!(p.lib_src, "/home/me/.cache/nvim_switcher/current/nvim-linux64/lib");
    assert_eq!(p.lib_dst, "/home/me/.local/lib");
    assert_eq!(p.share_src, "/home/me/.cache/nvim_switcher/current/nvim-linux64/share");
    assert_eq!(p.share_dst, "/home/me/.local/share");
}

#[test]
fn share_entries_publish_one_by_one() {
    let (src, dst) = share_entry("/c/current/nvim-linux64/share", "/home/me/.local/share", "man");
    assert_eq!(src, "/c/current/nvim-linux64/share/man");
    assert_eq!(dst, "/home/me/.local/share/man");
}

#[test]
fn step_failures_carry_their_kind() {
    assert!(step_result(SwitchStep::Clear, true).is_ok());
    assert_eq!(
        step_result(SwitchStep::Clear, false).unwrap_err().message(),
        "Failed to remove current version"
    );
    assert_eq!(
        step_result(SwitchStep::Extract, false).unwrap_err().message(),
        "Failed to extract version"
    );
    assert_eq!(
        step_result(SwitchStep::Publish, false).unwrap_err().message(),
        "Failed to publish version"
    );
}

#[test]
fn purge_removes_exactly_the_named_artifact() {
    let r = purge(CACHE, "v0.10.0", true);
    assert_eq!(r.unwrap(), "/home/me/.cache/nvim_switcher/nvim-v0.10.0.tar.gz");
    // A different version names a different artifact file.
    let other = purge(CACHE, "v0.11.0", true).unwrap();
    assert_ne!(other, "/home/me/.cache/nvim_switcher/nvim-v0.10.0.tar.gz");
}

#[test]
fn purge_of_unknown_version_is_an_error() {
    let r = purge(CACHE, "v9.9.9", false);
    let e = r.unwrap_err();
    assert!(matches!(e, VmError::NotFound { .. }));
    assert_eq!(e.message(), "Version v9.9.9 not found");
}

#[test]
fn purge_removal_failure_is_reported() {
    assert!(purge_result("v1", true).is_ok());
    assert_eq!(
        purge_result("v1", false).unwrap_err().message(),
        "Failed to remove version: v1"
    );
}
