use vstd::prelude::*;

verus! {

/// True when the listener's last config update time moved strictly forward.
pub open spec fn spec_lcut_advanced(pre_lcut: Option<u64>, post_lcut: Option<u64>) -> bool {
    match (pre_lcut, post_lcut) {
        (_, None) => false,
        (None, Some(_)) => true,
        (Some(pre), Some(post)) => post > pre,
    }
}

/// Whether a sync advanced the last config update time.
pub fn lcut_advanced(pre_lcut: Option<u64>, post_lcut: Option<u64>) -> (r: bool)
    ensures
        r == spec_lcut_advanced(pre_lcut, post_lcut),
{
    match (pre_lcut, post_lcut) {
        (_, None) => false,
        (None, Some(_)) => true,
        (Some(pre), Some(post)) => post > pre,
    }
}

} // verus!
