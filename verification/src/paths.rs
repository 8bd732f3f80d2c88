//! Cache locator: resolves the cache root, the per-version artifact path,
//! the active (extracted) directory, the publish root and the download URL.
//! All functions here are pure path arithmetic; directory creation and every
//! other side effect stay with the caller.
use vstd::prelude::*;

verus! {

broadcast use vstd::seq::group_seq_axioms;

/// Joins a directory and an entry name with a single separator.
pub open spec fn spec_join(dir: Seq<char>, name: Seq<char>) -> Seq<char> {
    dir + "/"@ + name
}

/// The cache root: the cache override directory if one is set, otherwise
/// `<home>/.cache`, with the tool's own subdirectory appended.
pub open spec fn spec_cache_dir(xdg_cache: Option<Seq<char>>, home: Seq<char>) -> Seq<char> {
    (match xdg_cache {
        Option::Some(base) => base,
        Option::None => home + "/.cache"@,
    }) + "/nvim_switcher"@
}

/// The cached artifact path for a version identifier: the cache root joined
/// with the deterministic archive file name for that version.
pub open spec fn spec_path(cache_dir: Seq<char>, version: Seq<char>) -> Seq<char> {
    cache_dir + "/nvim-"@ + version + ".tar.gz"@
}

/// The active directory holding the one extracted version.
pub open spec fn spec_output_dir(cache_dir: Seq<char>) -> Seq<char> {
    spec_join(cache_dir, "current"@)
}

/// The download URL for a version's release archive.
pub open spec fn spec_download_url(version: Seq<char>) -> Seq<char> {
    "https://github.com/neovim/neovim/releases/download/"@ + version
        + "/nvim-linux64.tar.gz"@
}

/// The publish root under the user's home directory.
pub open spec fn spec_publish_root(home: Seq<char>) -> Seq<char> {
    home + "/.local"@
}

/// The release folder that the extracted archive carries at its top level.
pub open spec fn spec_release_dir(output_dir: Seq<char>) -> Seq<char> {
    spec_join(output_dir, "nvim-linux64"@)
}

/// The published executable's expected location inside the active directory.
pub open spec fn spec_exe_path(output_dir: Seq<char>) -> Seq<char> {
    spec_release_dir(output_dir) + "/bin/nvim"@
}

pub(crate) proof fn lemma_prefix_cancel(p: Seq<char>, a: Seq<char>, b: Seq<char>)
    requires
        p + a == p + b,
    ensures
        a == b,
{
    p.lemma_concat_injective(a, b);
}

pub(crate) proof fn lemma_suffix_cancel(a: Seq<char>, b: Seq<char>, s: Seq<char>)
    requires
        a + s == b + s,
    ensures
        a == b,
{
    assert((a + s).len() == a.len() + s.len());
    assert((b + s).len() == b.len() + s.len());
    assert(a.len() == b.len());
    assert forall|i: int| 0 <= i < a.len() implies a[i] == b[i] by {
        assert((a + s)[i] == a[i]);
        assert((b + s)[i] == b[i]);
    }
    assert(a =~= b);
}

/// Joining one directory with two different names gives two different paths,
/// so replacing the entry at one joined path leaves every other entry alone.
pub proof fn lemma_join_injective(dir: Seq<char>, a: Seq<char>, b: Seq<char>)
    requires
        a != b,
    ensures
        spec_join(dir, a) != spec_join(dir, b),
{
    if spec_join(dir, a) == spec_join(dir, b) {
        lemma_prefix_cancel(dir + "/"@, a, b);
    }
}

/// Distinct version identifiers name distinct artifact files under one cache
/// root, so deleting one version's artifact cannot touch another's.
pub proof fn lemma_path_injective(cache_dir: Seq<char>, v1: Seq<char>, v2: Seq<char>)
    requires
        v1 != v2,
    ensures
        spec_path(cache_dir, v1) != spec_path(cache_dir, v2),
{
    if spec_path(cache_dir, v1) == spec_path(cache_dir, v2) {
        lemma_suffix_cancel(cache_dir + "/nvim-"@ + v1, cache_dir + "/nvim-"@ + v2, ".tar.gz"@);
        lemma_prefix_cancel(cache_dir + "/nvim-"@, v1, v2);
    }
}

pub fn join(dir: &str, name: &str) -> (r: String)
    ensures
        r@ == spec_join(dir@, name@),
{
    let mut s = String::from_str(dir);
    s.append("/");
    s.append(name);
    s
}

pub fn cache_dir(xdg_cache: &Option<String>, home: &str) -> (r: String)
    ensures
        r@ == spec_cache_dir(
            match xdg_cache {
                Option::Some(base) => Option::Some(base@),
                Option::None => Option::None,
            },
            home@,
        ),
{
    let mut s = match xdg_cache {
        Option::Some(base) => base.clone(),
        Option::None => {
            let mut h = String::from_str(home);
            h.append("/.cache");
            h
        },
    };
    s.append("/nvim_switcher");
    s
}

pub fn path(cache_dir: &str, version: &str) -> (r: String)
    ensures
        r@ == spec_path(cache_dir@, version@),
{
    let mut s = String::from_str(cache_dir);
    s.append("/nvim-");
    s.append(version);
    s.append(".tar.gz");
    s
}

pub fn output_dir(cache_dir: &str) -> (r: String)
    ensures
        r@ == spec_output_dir(cache_dir@),
{
    join(cache_dir, "current")
}

pub fn download_url(version: &str) -> (r: String)
    ensures
        r@ == spec_download_url(version@),
{
    let mut s = String::from_str("https://github.com/neovim/neovim/releases/download/");
    s.append(version);
    s.append("/nvim-linux64.tar.gz");
    s
}

pub fn publish_root(home: &str) -> (r: String)
    ensures
        r@ == spec_publish_root(home@),
{
    let mut s = String::from_str(home);
    s.append("/.local");
    s
}

pub fn release_dir(output_dir: &str) -> (r: String)
    ensures
        r@ == spec_release_dir(output_dir@),
{
    join(output_dir, "nvim-linux64")
}

pub fn exe_path(output_dir: &str) -> (r: String)
    ensures
        r@ == spec_exe_path(output_dir@),
{
    let mut s = release_dir(output_dir);
    s.append("/bin/nvim");
    s
}

} // verus!
