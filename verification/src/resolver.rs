//! The payload resolver: which directory of the extracted scratch area holds
//! the files to install. Three tiers, in order: an explicit inner-path hint,
//! a conventionally named top-level directory, the scratch root itself.

use vstd::prelude::*;

use crate::errors::UpdateError;
use crate::paths::{join, join_path};

verus! {

/// The text of the `NotFound` failure when the hinted directory is missing.
pub open spec fn not_found_text(hint: Seq<char>) -> Seq<char> {
    "update package does not contain the expected directory: "@ + hint
}

/// Picks the payload root. The caller, which alone can look at the disk,
/// reports whether `scratch/hint` and `scratch/conventional_name` exist; this
/// function holds the whole policy:
/// 1. a non-empty hint selects `scratch/hint`, or fails with `NotFound` when
///    that directory does not exist;
/// 2. otherwise a present conventional directory selects
///    `scratch/conventional_name`;
/// 3. otherwise the scratch root itself is the payload root.
pub fn resolve_payload_root(
    scratch: &str,
    hint: &str,
    hint_exists: bool,
    conventional_name: &str,
    conventional_exists: bool,
) -> (r: Result<String, UpdateError>)
    ensures
        hint@.len() > 0 && hint_exists ==> (r matches Ok(root) && root@ == join_path(
            scratch@,
            hint@,
        )),
        hint@.len() > 0 && !hint_exists ==> (r matches Err(e) && e is NotFound
            && e.message_view() == not_found_text(hint@)),
        hint@.len() == 0 && conventional_exists ==> (r matches Ok(root) && root@ == join_path(
            scratch@,
            conventional_name@,
        )),
        hint@.len() == 0 && !conventional_exists ==> (r matches Ok(root) && root@ == scratch@),
{
    if hint.unicode_len() > 0 {
        if hint_exists {
            Ok(join(scratch, hint))
        } else {
            let mut text = String::from_str(
                "update package does not contain the expected directory: ",
            );
            text.append(hint);
            Err(UpdateError::NotFound(text))
        }
    } else if conventional_exists {
        Ok(join(scratch, conventional_name))
    } else {
        Ok(String::from_str(scratch))
    }
}

} // verus!
