use nvim_switcher::ops::{switch, switch_plan, SwitchDecision};
use nvim_switcher::publish::symlinks;

fn names(v: &[&str]) -> Vec<String> {
    v.iter().map(|s| String::from(*s)).collect()
}

#[test]
fn every_source_entry_gets_its_link() {
    let entries = names(&["nvim", "nvim-tool"]);
    let existing = names(&[]);
    let steps = symlinks("/c/current/nvim-linux64/bin", "/home/me/.local/bin", &entries, &existing);
    assert_eq!(steps.len(), 2);
    assert_eq!(steps[0].link, "/home/me/.local/bin/nvim");
    assert_eq!(steps[0].target, "/c/current/nvim-linux64/bin/nvim");
    assert!(!steps[0].remove_existing);
    assert_eq!(steps[1].link, "/home/me/.local/bin/nvim-tool");
    assert_eq!(steps[1].target, "/c/current/nvim-linux64/bin/nvim-tool");
}

#[test]
fn same_named_entries_are_replaced_and_unrelated_files_survive() {
    let entries = names(&["nvim", "parser"]);
    let existing = names(&["parser", "my-own-script"]);
    let steps = symlinks("/src", "/dst", &entries, &existing);
    assert_eq!(steps.len(), 2);
    // A same-named entry at the destination is removed before relinking.
    assert!(!steps[0].remove_existing);
    assert!(steps[1].remove_existing);
    // The unrelated pre-existing file is addressed by no step.
    for s in &steps {
        assert_ne!(s.link, "/dst/my-own-script");
    }
}

#[test]
fn empty_source_publishes_nothing() {
    let steps = symlinks("/src", "/dst", &names(&[]), &names(&["whatever"]));
    assert!(steps.is_empty());
}

#[test]
fn switching_twice_relinks_into_the_fresh_active_tree() {
    // First switch activates v0.10.0.
    assert!(matches!(
        switch("v0.10.0", Ok(String::from("None"))),
        Ok(SwitchDecision::Proceed)
    ));
    let first = switch_plan("/c", "/home/me", "v0.10.0");
    // Second switch: the probe now reports v0.10.0, v0.11.0 is asked for.
    assert!(matches!(
        switch("v0.11.0", Ok(String::from("v0.10.0"))),
        Ok(SwitchDecision::Proceed)
    ));
    let second = switch_plan("/c", "/home/me", "v0.11.0");
    // The second switch extracts its own archive after clearing the active
    // directory in full, so nothing of the first tree remains there.
    assert_eq!(second.artifact, "/c/nvim-v0.11.0.tar.gz");
    assert_ne!(second.artifact, first.artifact);
    assert_eq!(second.active_dir, first.active_dir);
    // The published executable resolves through bin into the active tree,
    // which now holds the v0.11.0 contents.
    let steps = symlinks(&second.bin_src, &second.bin_dst, &names(&["nvim"]), &names(&["nvim"]));
    assert_eq!(steps[0].link, "/home/me/.local/bin/nvim");
    assert_eq!(steps[0].target, "/c/current/nvim-linux64/bin/nvim");
    assert!(steps[0].remove_existing);
}
