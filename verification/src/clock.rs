use vstd::prelude::*;

verus! {

/// Calls `chrono::Local::now()` and renders the instant with the pattern
/// `%Y-%m-%d %H:%M:%S`. The result depends on the wall clock and on the
/// machine's time zone, so no clause states anything of it.
#[verifier::external_body]
pub(crate) fn local_timestamp() -> String {
    chrono::Local::now().format("%Y-%m-%d %H:%M:%S").to_string()
}

} // verus!
