//! What holds of the rolling window whatever is inserted, and what holds
//! besides when points arrive in time order.

use crate::window::{
    retained_len, time_ordered, window_after_insert, window_after_inserts, within_window,
    SamplePoint,
};
use vstd::prelude::*;

verus! {

/// The eviction scan never skips: its result is the one cut such that every
/// point behind it is stale and the point just before it, if there is one,
/// is still inside the window.
pub proof fn lemma_retained_len_is_the_cut<T>(
    points: Seq<SamplePoint<T>>,
    now_ms: int,
    retention_ms: int,
)
    ensures
        retained_len(points, now_ms, retention_ms) <= points.len(),
        retained_len(points, now_ms, retention_ms) > 0 ==> now_ms - points[retained_len(
            points,
            now_ms,
            retention_ms,
        ) - 1].timestamp_ms <= retention_ms,
        forall|j: int|
            retained_len(points, now_ms, retention_ms) <= j < points.len() ==> now_ms
                - #[trigger] points[j].timestamp_ms > retention_ms,
    decreases points.len(),
{
    if points.len() > 0 && now_ms - points.last().timestamp_ms > retention_ms {
        let rest = points.drop_last();
        lemma_retained_len_is_the_cut(rest, now_ms, retention_ms);
        assert forall|j: int|
            retained_len(points, now_ms, retention_ms) <= j < points.len() implies now_ms
            - #[trigger] points[j].timestamp_ms > retention_ms by {
            if j < rest.len() {
                assert(points[j] == rest[j]);
            }
        }
    }
}

/// A point that is itself inside the window stops the scan: nothing at or
/// in front of it is evicted.
pub proof fn lemma_retained_len_covers_fresh_points<T>(
    points: Seq<SamplePoint<T>>,
    now_ms: int,
    retention_ms: int,
    i: int,
)
    requires
        0 <= i < points.len(),
        now_ms - points[i].timestamp_ms <= retention_ms,
    ensures
        i < retained_len(points, now_ms, retention_ms),
{
    lemma_retained_len_is_the_cut(points, now_ms, retention_ms);
}

/// One insert, whatever the order of arrival: the new point leads, the
/// points kept behind it are an unbroken run of the old contents in their
/// old order, every evicted point was stale, and no point that was still
/// inside the window was evicted.
pub proof fn lemma_insert_keeps_order_and_fresh_points<T>(
    points: Seq<SamplePoint<T>>,
    point: SamplePoint<T>,
    retention_ms: int,
)
    requires
        retention_ms >= 0,
    ensures
        ({
            let after = window_after_insert(points, point, retention_ms);
            &&& 1 <= after.len() <= points.len() + 1
            &&& after == seq![point] + points.take(after.len() - 1)
            &&& point.timestamp_ms - after.last().timestamp_ms <= retention_ms
            &&& forall|j: int|
                after.len() - 1 <= j < points.len() ==> point.timestamp_ms
                    - #[trigger] points[j].timestamp_ms > retention_ms
            &&& forall|j: int|
                0 <= j < points.len() && point.timestamp_ms - #[trigger] points[j].timestamp_ms
                    <= retention_ms ==> j + 1 < after.len() && after[j + 1] == points[j]
        }),
{
    let all = seq![point] + points;
    let now_ms = point.timestamp_ms as int;
    let after = window_after_insert(points, point, retention_ms);
    lemma_retained_len_is_the_cut(all, now_ms, retention_ms);
    lemma_retained_len_covers_fresh_points(all, now_ms, retention_ms, 0);
    assert(after =~= seq![point] + points.take(after.len() - 1));
    assert forall|j: int| after.len() - 1 <= j < points.len() implies point.timestamp_ms
        - #[trigger] points[j].timestamp_ms > retention_ms by {
        assert(all[j + 1] == points[j]);
    }
    assert forall|j: int|
        0 <= j < points.len() && point.timestamp_ms - #[trigger] points[j].timestamp_ms
            <= retention_ms implies j + 1 < after.len() && after[j + 1] == points[j] by {
        assert(all[j + 1] == points[j]);
        lemma_retained_len_covers_fresh_points(all, now_ms, retention_ms, j + 1);
    }
}

/// One insert into time-ordered contents, whenever the new point was taken:
/// every point left is within the retention of the new point, so no stale
/// point survives the scan.
pub proof fn lemma_insert_into_ordered_leaves_only_fresh_points<T>(
    points: Seq<SamplePoint<T>>,
    point: SamplePoint<T>,
    retention_ms: int,
)
    requires
        retention_ms >= 0,
        time_ordered(points),
    ensures
        within_window(window_after_insert(points, point, retention_ms), retention_ms),
        forall|i: int|
            0 <= i < window_after_insert(points, point, retention_ms).len()
                ==> point.timestamp_ms - #[trigger] window_after_insert(
                points,
                point,
                retention_ms,
            )[i].timestamp_ms <= retention_ms,
{
    let after = window_after_insert(points, point, retention_ms);
    lemma_insert_keeps_order_and_fresh_points(points, point, retention_ms);
    assert forall|i: int| 0 <= i < after.len() implies point.timestamp_ms
        - #[trigger] after[i].timestamp_ms <= retention_ms by {
        if 0 < i {
            assert(after[i] == points[i - 1]);
            assert(after[after.len() - 1] == points[after.len() - 2]);
            assert(points[i - 1].timestamp_ms >= points[after.len() - 2].timestamp_ms);
        }
    }
}

/// One insert in time order: when the old contents are time-ordered and the
/// new point is no older than their newest, the result is time-ordered too,
/// and no point in it is newer than the new one.
pub proof fn lemma_insert_in_order_keeps_time_order<T>(
    points: Seq<SamplePoint<T>>,
    point: SamplePoint<T>,
    retention_ms: int,
)
    requires
        retention_ms >= 0,
        time_ordered(points),
        points.len() > 0 ==> point.timestamp_ms >= points[0].timestamp_ms,
    ensures
        time_ordered(window_after_insert(points, point, retention_ms)),
{
    let after = window_after_insert(points, point, retention_ms);
    lemma_insert_keeps_order_and_fresh_points(points, point, retention_ms);
    assert forall|i: int, j: int| 0 <= i <= j < after.len() implies #[trigger] after[i].timestamp_ms
        >= #[trigger] after[j].timestamp_ms by {
        if i > 0 {
            assert(after[i] == points[i - 1]);
            assert(after[j] == points[j - 1]);
        } else if j > 0 {
            assert(after[j] == points[j - 1]);
            assert(points[0].timestamp_ms >= points[j - 1].timestamp_ms);
        }
    }
}

/// Inserting a point that is no newer than any retained point evicts
/// nothing.
pub proof fn lemma_insert_of_oldest_evicts_nothing<T>(
    points: Seq<SamplePoint<T>>,
    point: SamplePoint<T>,
    retention_ms: int,
)
    requires
        retention_ms >= 0,
        forall|i: int| 0 <= i < points.len() ==> point.timestamp_ms <= #[trigger] points[i].timestamp_ms,
    ensures
        window_after_insert(points, point, retention_ms) == seq![point] + points,
{
    let all = seq![point] + points;
    lemma_retained_len_is_the_cut(all, point.timestamp_ms as int, retention_ms);
    lemma_retained_len_covers_fresh_points(
        all,
        point.timestamp_ms as int,
        retention_ms,
        all.len() - 1,
    );
    assert(all.take(all.len() as int) =~= all);
}

/// Any number of inserts: read newest first, the contents are the arrivals
/// in reverse order of arrival followed by the old contents, cut short at
/// the oldest end. Nothing is ever reordered.
pub proof fn lemma_inserts_never_reorder<T>(
    points: Seq<SamplePoint<T>>,
    arrivals: Seq<SamplePoint<T>>,
    retention_ms: int,
)
    requires
        retention_ms >= 0,
    ensures
        window_after_inserts(points, arrivals, retention_ms).len() <= arrivals.len() + points.len(),
        arrivals.len() > 0 ==> window_after_inserts(points, arrivals, retention_ms).len() > 0,
        window_after_inserts(points, arrivals, retention_ms) == (arrivals.reverse() + points).take(
            window_after_inserts(points, arrivals, retention_ms).len() as int,
        ),
    decreases arrivals.len(),
{
    let after = window_after_inserts(points, arrivals, retention_ms);
    if arrivals.len() == 0 {
        assert(after =~= (arrivals.reverse() + points).take(after.len() as int));
    } else {
        let earlier = arrivals.drop_last();
        let before = window_after_inserts(points, earlier, retention_ms);
        lemma_inserts_never_reorder(points, earlier, retention_ms);
        lemma_insert_keeps_order_and_fresh_points(before, arrivals.last(), retention_ms);
        let whole = arrivals.reverse() + points;
        let whole_before = earlier.reverse() + points;
        assert forall|i: int| 0 <= i < after.len() implies after[i] == whole[i] by {
            if i == 0 {
                assert(arrivals.reverse()[0] == arrivals.last());
            } else {
                assert(after[i] == before[i - 1]);
                assert(before[i - 1] == whole_before[i - 1]);
                if i - 1 < earlier.len() {
                    assert(earlier.reverse()[i - 1] == arrivals.reverse()[i]);
                }
            }
        }
        assert(after =~= whole.take(after.len() as int));
    }
}

/// Any number of inserts in time order: starting from a time-ordered window,
/// with arrivals that are no older than it and never go back in time, the
/// contents stay time-ordered and every point in them stays within the
/// retention of the newest.
pub proof fn lemma_inserts_in_order_stay_within_window<T>(
    points: Seq<SamplePoint<T>>,
    arrivals: Seq<SamplePoint<T>>,
    retention_ms: int,
)
    requires
        retention_ms >= 0,
        time_ordered(points),
        within_window(points, retention_ms),
        forall|i: int, j: int|
            0 <= i <= j < arrivals.len() ==> #[trigger] arrivals[i].timestamp_ms
                <= #[trigger] arrivals[j].timestamp_ms,
        points.len() > 0 && arrivals.len() > 0 ==> points[0].timestamp_ms
            <= arrivals[0].timestamp_ms,
    ensures
        time_ordered(window_after_inserts(points, arrivals, retention_ms)),
        within_window(window_after_inserts(points, arrivals, retention_ms), retention_ms),
        arrivals.len() > 0 ==> window_after_inserts(points, arrivals, retention_ms)[0]
            == arrivals.last(),
    decreases arrivals.len(),
{
    if arrivals.len() > 0 {
        let earlier = arrivals.drop_last();
        let before = window_after_inserts(points, earlier, retention_ms);
        lemma_inserts_in_order_stay_within_window(points, earlier, retention_ms);
        lemma_inserts_never_reorder(points, earlier, retention_ms);
        if before.len() > 0 {
            if earlier.len() > 0 {
                assert(before[0] == earlier.last());
                assert(earlier.last() == arrivals[arrivals.len() - 2]);
            } else {
                assert(before == points);
            }
        }
        lemma_insert_into_ordered_leaves_only_fresh_points(before, arrivals.last(), retention_ms);
        lemma_insert_in_order_keeps_time_order(before, arrivals.last(), retention_ms);
        lemma_insert_keeps_order_and_fresh_points(before, arrivals.last(), retention_ms);
    }
}

} // verus!
