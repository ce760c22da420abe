use vstd::prelude::*;
use crate::clock::local_timestamp;
use crate::model::{opt_text, BufferPost, BufferUpdate};
use crate::text::text_eq;

verus! {

/// Number of updates whose status is `pending`.
pub open spec fn spec_pending_count(updates: Seq<BufferUpdate>) -> nat
    decreases updates.len(),
{
    if updates.len() == 0 {
        0
    } else {
        spec_pending_count(updates.drop_last()) + if updates.last().status@ == "pending"@ {
            1nat
        } else {
            0nat
        }
    }
}

/// Number of updates over all schedules that were fetched.
pub open spec fn spec_scheduled_total(schedules: Seq<Option<Vec<BufferUpdate>>>) -> nat
    decreases schedules.len(),
{
    if schedules.len() == 0 {
        0
    } else {
        spec_scheduled_total(schedules.drop_last()) + match schedules.last() {
            Some(updates) => updates@.len(),
            None => 0,
        }
    }
}

/// Number of pending updates over all schedules that were fetched.
pub open spec fn spec_pending_total(schedules: Seq<Option<Vec<BufferUpdate>>>) -> nat
    decreases schedules.len(),
{
    if schedules.len() == 0 {
        0
    } else {
        spec_pending_total(schedules.drop_last()) + match schedules.last() {
            Some(updates) => spec_pending_count(updates@),
            None => 0,
        }
    }
}

proof fn lemma_pending_count_bounded(updates: Seq<BufferUpdate>)
    ensures
        spec_pending_count(updates) <= updates.len(),
    decreases updates.len(),
{
    if updates.len() > 0 {
        lemma_pending_count_bounded(updates.drop_last());
    }
}

proof fn lemma_scheduled_total_prefix(schedules: Seq<Option<Vec<BufferUpdate>>>, i: int)
    requires
        0 <= i <= schedules.len(),
    ensures
        spec_scheduled_total(schedules.take(i)) <= spec_scheduled_total(schedules),
    decreases schedules.len(),
{
    if i < schedules.len() {
        let shorter = schedules.drop_last();
        lemma_scheduled_total_prefix(shorter, i);
        assert(shorter.take(i) =~= schedules.take(i));
    } else {
        assert(schedules.take(i) =~= schedules);
    }
}

/// Over any list of fetched schedules, the pending count never exceeds
/// the scheduled count: every pending post is a scheduled post.
pub proof fn pending_never_exceeds_scheduled(schedules: Seq<Option<Vec<BufferUpdate>>>)
    ensures
        spec_pending_total(schedules) <= spec_scheduled_total(schedules),
    decreases schedules.len(),
{
    if schedules.len() > 0 {
        pending_never_exceeds_scheduled(schedules.drop_last());
        match schedules.last() {
            Some(updates) => lemma_pending_count_bounded(updates@),
            None => {},
        }
    }
}

/// Whether an update's status is `pending`.
pub open spec fn is_pending() -> spec_fn(BufferUpdate) -> bool {
    |u: BufferUpdate| u.status@ == "pending"@
}

proof fn lemma_pending_count_filter(updates: Seq<BufferUpdate>)
    ensures
        spec_pending_count(updates) == updates.filter(is_pending()).len(),
    decreases updates.len(),
{
    reveal_with_fuel(Seq::<_>::filter, 1);
    if updates.len() > 0 {
        lemma_pending_count_filter(updates.drop_last());
    }
}

/// The tally adds up over profiles: the scheduled and pending counts of
/// two runs of schedules together are the sums of their counts.
pub proof fn tally_is_additive(
    a: Seq<Option<Vec<BufferUpdate>>>,
    b: Seq<Option<Vec<BufferUpdate>>>,
)
    ensures
        spec_scheduled_total(a + b) == spec_scheduled_total(a) + spec_scheduled_total(b),
        spec_pending_total(a + b) == spec_pending_total(a) + spec_pending_total(b),
    decreases b.len(),
{
    if b.len() == 0 {
        assert(a + b =~= a);
    } else {
        tally_is_additive(a, b.drop_last());
        assert((a + b).drop_last() =~= a + b.drop_last());
        assert((a + b).last() == b.last());
    }
}

/// One profile's schedule counts every update it holds as scheduled and
/// those whose status is `pending` as pending; a schedule that could not
/// be fetched counts nothing.
pub proof fn tally_of_one_schedule(updates: Vec<BufferUpdate>)
    ensures
        spec_scheduled_total(seq![Some(updates)]) == updates@.len(),
        spec_pending_total(seq![Some(updates)]) == updates@.filter(is_pending()).len(),
        spec_scheduled_total(seq![None::<Vec<BufferUpdate>>]) == 0,
        spec_pending_total(seq![None::<Vec<BufferUpdate>>]) == 0,
{
    let one = seq![Some(updates)];
    assert(one.drop_last() =~= Seq::<Option<Vec<BufferUpdate>>>::empty());
    assert(one.len() == 1 && one.last() == Some(updates));
    assert(spec_scheduled_total(one) == spec_scheduled_total(one.drop_last()) + updates@.len());
    let none = seq![None::<Vec<BufferUpdate>>];
    assert(none.drop_last() =~= Seq::<Option<Vec<BufferUpdate>>>::empty());
    assert(none.len() == 1 && none.last() == None::<Vec<BufferUpdate>>);
    let empty = Seq::<Option<Vec<BufferUpdate>>>::empty();
    assert(spec_pending_total(empty) == 0 && spec_scheduled_total(empty) == 0);
    assert(spec_pending_total(none) == spec_pending_total(none.drop_last()));
    assert(spec_scheduled_total(none) == spec_scheduled_total(none.drop_last()));
    assert(spec_pending_total(one) == spec_pending_total(one.drop_last()) + spec_pending_count(
        updates@,
    ));
    lemma_pending_count_filter(updates@);
}

/// The due time of update `j` of the `i`-th schedule, where it was fetched.
pub open spec fn fetched_due(schedules: Seq<Option<Vec<BufferUpdate>>>, i: int, j: int) -> Option<
    i64,
> {
    if 0 <= i < schedules.len() {
        match schedules[i] {
            Some(u) => if 0 <= j < u@.len() {
                Some(u@[j].due_at)
            } else {
                None
            },
            None => None,
        }
    } else {
        None
    }
}

proof fn lemma_earliest_in(updates: Seq<BufferUpdate>)
    ensures
        match spec_earliest_due_in(updates) {
            Some(t) => (forall|j: int| 0 <= j < updates.len() ==> t <= #[trigger] updates[j].due_at)
                && exists|j: int| 0 <= j < updates.len() && #[trigger] updates[j].due_at == t,
            None => updates.len() == 0,
        },
    decreases updates.len(),
{
    if updates.len() > 0 {
        let rest = updates.drop_last();
        lemma_earliest_in(rest);
        let last = updates.len() - 1;
        assert(updates[last] == updates.last());
        assert forall|j: int| 0 <= j < rest.len() implies #[trigger] updates[j] == rest[j] by {}
        match spec_earliest_due_in(rest) {
            Some(t) => {
                let w = choose|j: int| 0 <= j < rest.len() && #[trigger] rest[j].due_at == t;
                assert(updates[w] == rest[w]);
            },
            None => {},
        }
    }
}

/// The next post time comes from the earliest due time: no fetched update
/// is due before it and some fetched update is due at it; there is none
/// exactly when no update was fetched.
pub proof fn earliest_due_law(schedules: Seq<Option<Vec<BufferUpdate>>>)
    ensures
        match spec_earliest_due(schedules) {
            Some(t) => (forall|i: int, j: int| #[trigger]
                fetched_due(schedules, i, j) matches Some(d) ==> t <= d) && exists|i: int, j: int|
                #[trigger] fetched_due(schedules, i, j) == Some(t),
            None => forall|i: int, j: int| #[trigger] fetched_due(schedules, i, j) is None,
        },
    decreases schedules.len(),
{
    if schedules.len() > 0 {
        let rest = schedules.drop_last();
        let k = schedules.len() - 1;
        earliest_due_law(rest);
        assert forall|i: int, j: int| 0 <= i < rest.len() implies #[trigger] fetched_due(
            schedules,
            i,
            j,
        ) == fetched_due(rest, i, j) by {}
        let last_due = match schedules.last() {
            Some(u) => spec_earliest_due_in(u@),
            None => None,
        };
        match schedules.last() {
            Some(u) => {
                lemma_earliest_in(u@);
                assert forall|j: int| #[trigger] fetched_due(schedules, k, j) == (if 0 <= j
                    < u@.len() {
                    Some(u@[j].due_at)
                } else {
                    None::<i64>
                }) by {}
            },
            None => {
                assert forall|j: int| #[trigger] fetched_due(schedules, k, j) is None by {}
            },
        }
        match spec_earliest_due(rest) {
            Some(t) => {
                let (wi, wj) = choose|i: int, j: int| #[trigger]
                    fetched_due(rest, i, j) == Some(t);
                assert(0 <= wi < rest.len());
                assert(fetched_due(schedules, wi, wj) == Some(t));
            },
            None => {},
        }
        match last_due {
            Some(t) => {
                let u = schedules.last()->Some_0;
                let wj = choose|j: int| 0 <= j < u@.len() && #[trigger] u@[j].due_at == t;
                assert(fetched_due(schedules, k, wj) == Some(t));
            },
            None => {},
        }
        assert forall|i: int, j: int| #[trigger]
            fetched_due(schedules, i, j) is Some implies (match spec_earliest_due(schedules) {
                Some(t) => t <= fetched_due(schedules, i, j)->Some_0,
                None => false,
            }) by {
            if i < k {
                assert(fetched_due(rest, i, j) == fetched_due(schedules, i, j));
            } else {
                assert(i == k);
            }
        }
    }
}

/// Counts the updates of one schedule whose status is `pending`.
pub fn count_pending(updates: &Vec<BufferUpdate>) -> (r: u32)
    requires
        updates@.len() <= u32::MAX,
    ensures
        r == spec_pending_count(updates@),
{
    let mut count: u32 = 0;
    let mut i: usize = 0;
    while i < updates.len()
        invariant
            i <= updates@.len(),
            updates@.len() <= u32::MAX,
            count == spec_pending_count(updates@.take(i as int)),
            count <= i,
        decreases updates@.len() - i,
    {
        proof {
            assert(updates@.take(i + 1).drop_last() =~= updates@.take(i as int));
        }
        if text_eq(updates[i].status.as_str(), "pending") {
            count = count + 1;
        }
        i = i + 1;
    }
    proof {
        assert(updates@.take(updates@.len() as int) =~= updates@);
    }
    count
}

/// The earlier of an optional time and another.
pub open spec fn earlier(a: Option<i64>, b: Option<i64>) -> Option<i64> {
    match (a, b) {
        (Some(x), Some(y)) => Some(if x <= y { x } else { y }),
        (Some(x), None) => Some(x),
        (None, y) => y,
    }
}

/// The earliest `due_at` among some updates; none when there are none.
pub open spec fn spec_earliest_due_in(updates: Seq<BufferUpdate>) -> Option<i64>
    decreases updates.len(),
{
    if updates.len() == 0 {
        None
    } else {
        earlier(spec_earliest_due_in(updates.drop_last()), Some(updates.last().due_at))
    }
}

/// The earliest `due_at` among all updates of the fetched schedules.
pub open spec fn spec_earliest_due(schedules: Seq<Option<Vec<BufferUpdate>>>) -> Option<i64>
    decreases schedules.len(),
{
    if schedules.len() == 0 {
        None
    } else {
        earlier(
            spec_earliest_due(schedules.drop_last()),
            match schedules.last() {
                Some(updates) => spec_earliest_due_in(updates@),
                None => None,
            },
        )
    }
}

/// Finds the earliest `due_at` among the updates of one schedule.
pub fn earliest_due(updates: &Vec<BufferUpdate>) -> (r: Option<i64>)
    ensures
        r == spec_earliest_due_in(updates@),
{
    let mut earliest: Option<i64> = None;
    let mut i: usize = 0;
    while i < updates.len()
        invariant
            i <= updates@.len(),
            earliest == spec_earliest_due_in(updates@.take(i as int)),
        decreases updates@.len() - i,
    {
        proof {
            assert(updates@.take(i + 1).drop_last() =~= updates@.take(i as int));
        }
        let due = updates[i].due_at;
        earliest = match earliest {
            Some(e) => if e <= due {
                Some(e)
            } else {
                Some(due)
            },
            None => Some(due),
        };
        i = i + 1;
    }
    proof {
        assert(updates@.take(updates@.len() as int) =~= updates@);
    }
    earliest
}

/// Counts over the fetched schedules.
pub struct ContentTally {
    pub scheduled: u32,
    pub pending: u32,
    pub earliest_due: Option<i64>,
}

/// Tallies the schedules fetched for every profile (`None` where a
/// profile's schedule could not be fetched): scheduled posts, pending
/// posts, and the earliest due time.
pub fn tally_schedules(schedules: &Vec<Option<Vec<BufferUpdate>>>) -> (r: ContentTally)
    requires
        spec_scheduled_total(schedules@) <= u32::MAX,
    ensures
        r.scheduled == spec_scheduled_total(schedules@),
        r.pending == spec_pending_total(schedules@),
        r.earliest_due == spec_earliest_due(schedules@),
{
    let mut scheduled: u32 = 0;
    let mut pending: u32 = 0;
    let mut earliest: Option<i64> = None;
    let mut i: usize = 0;
    while i < schedules.len()
        invariant
            i <= schedules@.len(),
            spec_scheduled_total(schedules@) <= u32::MAX,
            scheduled == spec_scheduled_total(schedules@.take(i as int)),
            pending == spec_pending_total(schedules@.take(i as int)),
            earliest == spec_earliest_due(schedules@.take(i as int)),
        decreases schedules@.len() - i,
    {
        proof {
            assert(schedules@.take(i + 1).drop_last() =~= schedules@.take(i as int));
            lemma_scheduled_total_prefix(schedules@, i + 1);
            pending_never_exceeds_scheduled(schedules@.take(i + 1));
        }
        match &schedules[i] {
            Some(updates) => {
                let n = updates.len() as u32;
                let p = count_pending(updates);
                scheduled = scheduled + n;
                pending = pending + p;
                let due = earliest_due(updates);
                earliest = match (earliest, due) {
                    (Some(x), Some(y)) => if x <= y {
                        Some(x)
                    } else {
                        Some(y)
                    },
                    (Some(x), None) => Some(x),
                    (None, y) => y,
                };
            },
            None => {},
        }
        i = i + 1;
    }
    proof {
        assert(schedules@.take(schedules@.len() as int) =~= schedules@);
    }
    ContentTally { scheduled, pending, earliest_due: earliest }
}

/// The UTC calendar time of a Unix timestamp, rendered with the pattern
/// `%Y-%m-%d %H:%M:%S`, or none where chrono cannot represent it. chrono
/// computes it from the number alone.
pub uninterp spec fn utc_time_text(secs: i64) -> Option<Seq<char>>;

/// Calls `chrono::DateTime::from_timestamp(secs, 0)` and renders the
/// instant with `format("%Y-%m-%d %H:%M:%S")`. Claimed: the result is
/// `utc_time_text(secs)`; the range chrono accepts is not stated.
#[verifier::external_body]
fn utc_timestamp_text(secs: i64) -> (r: Option<String>)
    ensures
        opt_text(r) == utc_time_text(secs),
{
    match chrono::DateTime::from_timestamp(secs, 0) {
        Some(t) => Some(t.format("%Y-%m-%d %H:%M:%S").to_string()),
        None => None,
    }
}

/// The next post time of a summary: the rendered time, or `N/A` where
/// there is none.
pub open spec fn spec_next_post_text(rendered: Option<Seq<char>>) -> Seq<char> {
    match rendered {
        Some(t) => t,
        None => "N/A"@,
    }
}

/// The channel summary of a tally, with the earliest due time as
/// rendered (`None` where no update was fetched or it cannot be rendered).
pub fn content_summary(tally: &ContentTally, next_post: Option<String>) -> (r: BufferPost)
    ensures
        r.channel@ == "Social Media"@,
        r.scheduled_posts == tally.scheduled,
        r.pending_approval == tally.pending,
        r.next_post_time@ == spec_next_post_text(opt_text(next_post)),
{
    BufferPost {
        channel: "Social Media".to_owned(),
        scheduled_posts: tally.scheduled,
        pending_approval: tally.pending,
        next_post_time: match next_post {
            Some(t) => t,
            None => "N/A".to_owned(),
        },
    }
}

/// The summary `content_check` reports for the schedules fetched: the
/// counts of scheduled and pending posts, and the time of the next post,
/// the earliest due time among the fetched updates in UTC (`N/A` where
/// none was fetched).
pub fn content_report(schedules: &Vec<Option<Vec<BufferUpdate>>>) -> (r: BufferPost)
    requires
        spec_scheduled_total(schedules@) <= u32::MAX,
    ensures
        r.channel@ == "Social Media"@,
        r.scheduled_posts == spec_scheduled_total(schedules@),
        r.pending_approval == spec_pending_total(schedules@),
        r.next_post_time@ == spec_next_post_text(
            match spec_earliest_due(schedules@) {
                Some(t) => utc_time_text(t),
                None => None,
            },
        ),
{
    let tally = tally_schedules(schedules);
    let next_post = match tally.earliest_due {
        Some(t) => utc_timestamp_text(t),
        None => None,
    };
    content_summary(&tally, next_post)
}

/// What `content_check` does next.
pub enum ContentPlan {
    /// Demo mode: answer with this fixture; Buffer is not queried.
    Demo(BufferPost),
    /// Query Buffer when `profiles` is set, then call `content_report` on
    /// the schedules fetched (none when Buffer was not queried).
    Query { profiles: bool },
}

/// The fixture shape of a demo content summary.
pub open spec fn is_demo_content(p: BufferPost) -> bool {
    &&& p.channel@ == "Social Media (Demo)"@
    &&& p.scheduled_posts == 12
    &&& p.pending_approval == 3
}

/// The demo content summary, with `now` as the next post time.
pub fn demo_content_at(now: String) -> (r: BufferPost)
    ensures
        is_demo_content(r),
        r.next_post_time@ == now@,
{
    BufferPost {
        channel: "Social Media (Demo)".to_owned(),
        scheduled_posts: 12,
        pending_approval: 3,
        next_post_time: now,
    }
}

/// Decides how `content_check` proceeds: in demo mode it answers at once
/// with fixture data stamped with the current local time; otherwise Buffer
/// is queried exactly when its key is non-empty.
pub fn plan_content_check(demo: bool, buffer_key: &str) -> (r: ContentPlan)
    ensures
        demo ==> (r matches ContentPlan::Demo(p) && is_demo_content(p)),
        !demo ==> r == (ContentPlan::Query { profiles: buffer_key@.len() > 0 }),
{
    if demo {
        ContentPlan::Demo(demo_content_at(local_timestamp()))
    } else {
        ContentPlan::Query { profiles: !buffer_key.is_empty() }
    }
}

} // verus!
