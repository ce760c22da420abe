use vstd::prelude::*;

verus! {

/// What came of one query to an outside service.
pub enum Fetch<T> {
    /// The query was not made: its credentials are not configured.
    Skipped,
    /// The service answered with this value.
    Received(T),
    /// The query was made and failed.
    Failed,
}

} // verus!
