//! Publisher: plans the per-entry symlink set that mirrors one directory of
//! the active version into the publish root. Each entry of the source
//! directory gets its own link; a same-named entry already present at the
//! destination is removed first; names that do not occur in the source are
//! never touched, so unrelated files survive a publish.
//!
//! The shell executes a plan step by step: it makes sure the destination
//! directory exists, removes the link path where the step says so, and
//! creates the symlink from the link path to the target.
use vstd::prelude::*;

use crate::paths::{join, lemma_join_injective, spec_join};
use crate::text::{contains_name, seq_has_name};

verus! {

/// One planned symlink: create `link` pointing at `target`, removing
/// whatever already stands at `link` first when `remove_existing` holds.
pub struct LinkStep {
    pub link: String,
    pub target: String,
    pub remove_existing: bool,
}

/// The plan publishes exactly the source directory's entries: one step per
/// entry, linking the destination path of that name to the source path of
/// that name, with a prior removal exactly when the destination already
/// holds that name.
pub open spec fn is_symlink_plan(
    steps: Seq<LinkStep>,
    src: Seq<char>,
    dst: Seq<char>,
    entries: Seq<String>,
    existing: Seq<String>,
) -> bool {
    &&& steps.len() == entries.len()
    &&& forall|i: int|
        0 <= i < entries.len() ==> {
            &&& (#[trigger] steps[i]).link@ == spec_join(dst, entries[i]@)
            &&& steps[i].target@ == spec_join(src, entries[i]@)
            &&& steps[i].remove_existing == seq_has_name(existing, entries[i]@)
        }
}

/// Plans the symlink set for one directory: `entries` are the names found in
/// the source directory `src`, `existing` the names already present at the
/// destination `dst`.
pub fn symlinks(src: &str, dst: &str, entries: &Vec<String>, existing: &Vec<String>) -> (steps:
    Vec<LinkStep>)
    ensures
        is_symlink_plan(steps@, src@, dst@, entries@, existing@),
{
    let mut steps: Vec<LinkStep> = Vec::new();
    let mut i: usize = 0;
    while i < entries.len()
        invariant
            0 <= i <= entries@.len(),
            steps@.len() == i,
            forall|j: int|
                0 <= j < i ==> {
                    &&& (#[trigger] steps@[j]).link@ == spec_join(dst@, entries@[j]@)
                    &&& steps@[j].target@ == spec_join(src@, entries@[j]@)
                    &&& steps@[j].remove_existing == seq_has_name(existing@, entries@[j]@)
                },
        decreases entries@.len() - i,
    {
        let name = entries[i].as_str();
        steps.push(
            LinkStep {
                link: join(dst, name),
                target: join(src, name),
                remove_existing: contains_name(existing, name),
            },
        );
        i += 1;
    }
    steps
}

/// Some step of the plan links the destination path of this name to the
/// source path of this name.
pub open spec fn covered(
    steps: Seq<LinkStep>,
    src: Seq<char>,
    dst: Seq<char>,
    name: Seq<char>,
) -> bool {
    exists|i: int|
        0 <= i < steps.len() && (#[trigger] steps[i]).link@ == spec_join(dst, name)
            && steps[i].target@ == spec_join(src, name)
}

/// Publish completeness: every entry of the source directory has its step,
/// whose link stands at the published path of that name and points at
/// exactly that entry of the source tree.
pub proof fn lemma_symlinks_complete(
    steps: Seq<LinkStep>,
    src: Seq<char>,
    dst: Seq<char>,
    entries: Seq<String>,
    existing: Seq<String>,
    j: int,
)
    requires
        is_symlink_plan(steps, src, dst, entries, existing),
        0 <= j < entries.len(),
    ensures
        steps[j].link@ == spec_join(dst, entries[j]@),
        steps[j].target@ == spec_join(src, entries[j]@),
{
}

/// Publishing survives pre-existing unrelated files: a name that is no entry
/// of the source directory is addressed by no step of the plan, so whatever
/// stands under that name at the destination is neither removed nor
/// overwritten.
pub proof fn lemma_symlinks_preserve_unrelated(
    steps: Seq<LinkStep>,
    src: Seq<char>,
    dst: Seq<char>,
    entries: Seq<String>,
    existing: Seq<String>,
    other: Seq<char>,
)
    requires
        is_symlink_plan(steps, src, dst, entries, existing),
        forall|j: int| 0 <= j < entries.len() ==> (#[trigger] entries[j])@ != other,
    ensures
        forall|i: int|
            0 <= i < steps.len() ==> (#[trigger] steps[i]).link@ != spec_join(dst, other),
{
    assert forall|i: int|
        0 <= i < steps.len() implies (#[trigger] steps[i]).link@ != spec_join(dst, other) by {
        assert(steps[i].link@ == spec_join(dst, entries[i]@));
        assert(entries[i]@ != other);
        lemma_join_injective(dst, entries[i]@, other);
    }
}

} // verus!
