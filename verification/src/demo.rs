use vstd::prelude::*;
use crate::text::text_eq;

verus! {

/// Whether the value of the `DEMO_MODE` variable (`None` where it is unset
/// or unreadable) switches every tool to fixture data: exactly `true` or `1`.
pub fn demo_flag_enabled(value: Option<&str>) -> (r: bool)
    ensures
        r <==> (value matches Some(v) && (v@ == "true"@ || v@ == "1"@)),
{
    match value {
        Some(v) => text_eq(v, "true") || text_eq(v, "1"),
        None => false,
    }
}

} // verus!
