//! Merge planning: for one file of the payload, where its bytes go under the
//! target directory. The file whose name matches the running executable gets
//! a special disposition, chosen by configuration: it is skipped, or staged
//! under a sibling name with a pending suffix so that a later launch can swap
//! it in once the running process has released its lock.

use vstd::prelude::*;

use crate::paths::{
    join, join_path, last_comp, last_component, lemma_last_comp_append_no_slash,
    lemma_last_comp_join, str_eq,
};

verus! {

/// How the one file matching the running executable's name is handled.
/// Exactly one policy is active per run.
#[derive(Clone, Copy)]
pub enum SelfReplacePolicy {
    /// Leave the running executable untouched.
    Skip,
    /// Write the new file under a sibling name with the pending suffix.
    DeferredReplace,
}

/// What the driver must do with one payload file.
pub enum Disposition {
    /// Copy the source bytes to `dest`, overwriting any existing file.
    Write { dest: String },
    /// Copy the source bytes to the suffixed sibling path `dest`; the live
    /// executable itself is not touched.
    Staged { dest: String },
    /// Write nothing.
    Skipped,
}

/// The mathematical value of a [`Disposition`].
pub enum DispositionV {
    Write { dest: Seq<char> },
    Staged { dest: Seq<char> },
    Skipped,
}

impl View for Disposition {
    type V = DispositionV;

    open spec fn view(&self) -> DispositionV {
        match self {
            Disposition::Write { dest } => DispositionV::Write { dest: dest@ },
            Disposition::Staged { dest } => DispositionV::Staged { dest: dest@ },
            Disposition::Skipped => DispositionV::Skipped,
        }
    }
}

/// The suffix under which a deferred replacement is staged.
pub open spec fn staged_suffix() -> Seq<char> {
    ".new"@
}

/// The disposition of one payload file: a function of the target directory,
/// the file's path relative to the payload root, the running executable's
/// file name, and the active policy — of nothing else, so two runs over the
/// same inputs plan the same writes.
pub open spec fn disposition_of(
    target: Seq<char>,
    rel: Seq<char>,
    exe_name: Seq<char>,
    policy: SelfReplacePolicy,
) -> DispositionV {
    if last_comp(rel) == exe_name {
        match policy {
            SelfReplacePolicy::Skip => DispositionV::Skipped,
            SelfReplacePolicy::DeferredReplace => DispositionV::Staged {
                dest: join_path(target, rel) + staged_suffix(),
            },
        }
    } else {
        DispositionV::Write { dest: join_path(target, rel) }
    }
}

/// Plans one payload file.
pub fn plan_file(
    target: &str,
    rel: &str,
    exe_name: &str,
    policy: SelfReplacePolicy,
) -> (d: Disposition)
    ensures
        d@ == disposition_of(target@, rel@, exe_name@, policy),
{
    let comp = last_component(rel);
    if str_eq(comp, exe_name) {
        match policy {
            SelfReplacePolicy::Skip => Disposition::Skipped,
            SelfReplacePolicy::DeferredReplace => {
                let mut dest = join(target, rel);
                dest.append(".new");
                Disposition::Staged { dest }
            },
        }
    } else {
        Disposition::Write { dest: join(target, rel) }
    }
}

/// The pending suffix holds no separator and is not empty.
proof fn lemma_staged_suffix_shape()
    ensures
        staged_suffix().len() == 4,
        forall|j: int| 0 <= j < staged_suffix().len() ==> staged_suffix()[j] != '/',
{
    reveal_strlit(".new");
}

/// Law: under the skip policy, the file matching the running executable's
/// name is never written — its disposition carries no destination at all.
pub proof fn lemma_skip_policy(target: Seq<char>, rel: Seq<char>, exe_name: Seq<char>)
    requires
        last_comp(rel) == exe_name,
    ensures
        disposition_of(target, rel, exe_name, SelfReplacePolicy::Skip) is Skipped,
{
}

/// Law: under the deferred-replace policy, the file matching the running
/// executable's name is staged under the suffixed sibling path — a path that
/// differs from the live destination and whose file name differs from the
/// running executable's name, so the live executable is never overwritten.
pub proof fn lemma_deferred_policy(target: Seq<char>, rel: Seq<char>, exe_name: Seq<char>)
    requires
        last_comp(rel) == exe_name,
    ensures
        disposition_of(target, rel, exe_name, SelfReplacePolicy::DeferredReplace)
            matches DispositionV::Staged { dest } ==> {
            &&& dest == join_path(target, rel) + staged_suffix()
            &&& dest != join_path(target, rel)
            &&& last_comp(dest) != exe_name
        },
        disposition_of(target, rel, exe_name, SelfReplacePolicy::DeferredReplace) is Staged,
{
    lemma_staged_suffix_shape();
    let live = join_path(target, rel);
    let staged = live + staged_suffix();
    assert(staged.len() == live.len() + 4);
    assert(staged != live) by {
        if staged == live {
            assert(staged.len() == live.len());
        }
    }
    lemma_last_comp_append_no_slash(live, staged_suffix());
    lemma_last_comp_join(target, rel);
    assert(last_comp(staged) == exe_name + staged_suffix());
    assert(last_comp(staged) != exe_name) by {
        if last_comp(staged) == exe_name {
            assert(last_comp(staged).len() == exe_name.len());
        }
    }
}

/// Law: a file that does not match the running executable's name is written,
/// whatever the policy, to exactly `target/rel` — the same relative location
/// it held under the payload root.
pub proof fn lemma_plain_write(
    target: Seq<char>,
    rel: Seq<char>,
    exe_name: Seq<char>,
    policy: SelfReplacePolicy,
)
    requires
        last_comp(rel) != exe_name,
    ensures
        disposition_of(target, rel, exe_name, policy) == (DispositionV::Write {
            dest: join_path(target, rel),
        }),
{
}

} // verus!
