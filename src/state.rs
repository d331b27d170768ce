use vstd::prelude::*;

verus! {

/// The outcome of a state lookup: the value to return, and whether that value
/// must be stored under the key.
pub open spec fn state_lookup(found: Option<String>, default_val: Option<String>) -> (Option<String>, bool) {
    if found.is_none() && default_val.is_some() {
        (default_val, true)
    } else {
        (found, false)
    }
}

/// Decides a state lookup from what the store held for the key: a present
/// value is returned as it is; otherwise the default, when one is given, is
/// returned and must be stored; otherwise nothing is returned.
pub fn resolve_state(found: Option<String>, default_val: Option<String>) -> (r: (Option<String>, bool))
    ensures
        r == state_lookup(found, default_val),
{
    match found {
        Some(v) => (Some(v), false),
        None => match default_val {
            Some(d) => (Some(d), true),
            None => (None, false),
        },
    }
}

} // verus!
