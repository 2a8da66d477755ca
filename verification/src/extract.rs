//! Extraction planning: what one archive entry contributes to the scratch
//! area. The driver opens the archive and writes the bytes; this decides,
//! from the entry's stored name alone, whether anything is written and where.

use vstd::prelude::*;

verus! {

/// A directory entry: its stored name ends in the separator (or is empty),
/// so it carries no bytes of its own.
pub open spec fn is_dir_entry(name: Seq<char>) -> bool {
    name.len() == 0 || name.last() == '/'
}

/// Plans one archive entry. A directory entry gets no file write — it is
/// still reported and counted like any other. Every other entry's bytes are
/// written at its stored name, relative to the scratch root, so the
/// archive's internal directory structure is preserved unchanged.
pub fn plan_entry(name: &str) -> (r: Option<String>)
    ensures
        is_dir_entry(name@) ==> r is None,
        !is_dir_entry(name@) ==> (r matches Some(dest) && dest@ == name@),
{
    let n = name.unicode_len();
    if n == 0 {
        return None;
    }
    if name.get_char(n - 1) == '/' {
        None
    } else {
        Some(String::from_str(name))
    }
}

} // verus!
