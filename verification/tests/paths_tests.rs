use nvim_switcher::paths::{
    cache_dir, download_url, exe_path, join, output_dir, path, publish_root, release_dir,
};

#[test]
fn cache_dir_prefers_override() {
    let dir = cache_dir(&Some(String::from("/tmp/xdg")), "/home/me");
    assert_eq!(dir, "/tmp/xdg/nvim_switcher");
}

#[test]
fn cache_dir_falls_back_to_home() {
    let dir = cache_dir(&None, "/home/me");
    assert_eq!(dir, "/home/me/.cache/nvim_switcher");
}

#[test]
fn artifact_path_is_deterministic() {
    let p = path("/home/me/.cache/nvim_switcher", "v0.10.0");
    assert_eq!(p, "/home/me/.cache/nvim_switcher/nvim-v0.10.0.tar.gz");
}

#[test]
fn download_url_substitutes_version() {
    let url = download_url("v0.11.0");
    assert_eq!(
        url,
        "https://github.com/neovim/neovim/releases/download/v0.11.0/nvim-linux64.tar.gz"
    );
}

#[test]
fn active_and_publish_layout() {
    let cache = "/c";
    let active = output_dir(cache);
    assert_eq!(active, "/c/current");
    let release = release_dir(&active);
    assert_eq!(release, "/c/current/nvim-linux64");
    assert_eq!(exe_path(&active), "/c/current/nvim-linux64/bin/nvim");
    assert_eq!(publish_root("/home/me"), "/home/me/.local");
    assert_eq!(join("/a/b", "c"), "/a/b/c");
}
