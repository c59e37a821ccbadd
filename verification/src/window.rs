//! Rolling window buffer: a newest-first sequence of timestamped points that
//! evicts from its oldest end whatever has outlived a fixed retention.

use crate::window_laws::{
    lemma_insert_in_order_keeps_time_order, lemma_insert_into_ordered_leaves_only_fresh_points,
    lemma_insert_keeps_order_and_fresh_points,
};
use std::collections::VecDeque;
use vstd::prelude::*;

verus! {

/// Seconds of history that a chart shows unless told otherwise.
pub const PLOT_SECONDS: u64 = 60;

/// One charted point: when it was taken and what was measured.
#[derive(Clone, Copy, Debug)]
pub struct SamplePoint<T> {
    /// Milliseconds since the Unix epoch.
    pub timestamp_ms: i64,
    pub value: T,
}

/// How many of `points` (newest first) survive an eviction scan made at
/// `now_ms`: the scan walks in from the oldest end and stops at the first
/// point whose age does not exceed `retention_ms`.
pub open spec fn retained_len<T>(points: Seq<SamplePoint<T>>, now_ms: int, retention_ms: int) -> nat
    decreases points.len(),
{
    if points.len() > 0 && now_ms - points.last().timestamp_ms > retention_ms {
        retained_len(points.drop_last(), now_ms, retention_ms)
    } else {
        points.len()
    }
}

/// The buffer contents after `point` arrives: it goes to the front, then the
/// oldest end is trimmed against the new point's own timestamp.
pub open spec fn window_after_insert<T>(
    points: Seq<SamplePoint<T>>,
    point: SamplePoint<T>,
    retention_ms: int,
) -> Seq<SamplePoint<T>> {
    let all = seq![point] + points;
    all.take(retained_len(all, point.timestamp_ms as int, retention_ms) as int)
}

/// Timestamps never increase when the points are read newest first.
pub open spec fn time_ordered<T>(points: Seq<SamplePoint<T>>) -> bool {
    forall|i: int, j: int|
        0 <= i <= j < points.len() ==> #[trigger] points[i].timestamp_ms
            >= #[trigger] points[j].timestamp_ms
}

/// No point is older than `retention_ms`, measured from the newest point.
pub open spec fn within_window<T>(points: Seq<SamplePoint<T>>, retention_ms: int) -> bool {
    forall|i: int|
        0 <= i < points.len() ==> points[0].timestamp_ms - #[trigger] points[i].timestamp_ms
            <= retention_ms
}

/// The contents after each of `arrivals` has been inserted in turn, the
/// first of them first.
pub open spec fn window_after_inserts<T>(
    points: Seq<SamplePoint<T>>,
    arrivals: Seq<SamplePoint<T>>,
    retention_ms: int,
) -> Seq<SamplePoint<T>>
    decreases arrivals.len(),
{
    if arrivals.len() == 0 {
        points
    } else {
        window_after_insert(
            window_after_inserts(points, arrivals.drop_last(), retention_ms),
            arrivals.last(),
            retention_ms,
        )
    }
}

/// A bounded-duration series for one charted metric.
pub struct RollingWindowBuffer<T> {
    points: VecDeque<SamplePoint<T>>,
    retention_ms: u64,
    redraw_pending: bool,
}

impl<T> View for RollingWindowBuffer<T> {
    type V = Seq<SamplePoint<T>>;

    /// The retained points, newest first.
    closed spec fn view(&self) -> Seq<SamplePoint<T>> {
        self.points@
    }
}

impl<T> RollingWindowBuffer<T> {
    /// The fixed maximum age, in milliseconds, that a point may reach.
    pub closed spec fn retention(&self) -> nat {
        self.retention_ms as nat
    }

    /// Whether the series changed since the consumer last drew it.
    pub closed spec fn redraw_pending(&self) -> bool {
        self.redraw_pending
    }

    /// The oldest retained point is no older than the retention allows,
    /// measured from the newest one.
    pub open spec fn wf(&self) -> bool {
        self@.len() > 0 ==> self@[0].timestamp_ms - self@.last().timestamp_ms <= self.retention()
    }

    /// An empty series that keeps points for `retention_ms` milliseconds.
    pub fn new(retention_ms: u64) -> (buffer: Self)
        ensures
            buffer@ == Seq::<SamplePoint<T>>::empty(),
            buffer.retention() == retention_ms,
            !buffer.redraw_pending(),
            buffer.wf(),
    {
        RollingWindowBuffer { points: VecDeque::new(), retention_ms, redraw_pending: false }
    }

    /// Puts a point at the front, evicts from the oldest end every point
    /// whose age against the new point exceeds the retention, and flags the
    /// series for redrawing.
    pub fn insert(&mut self, timestamp_ms: i64, value: T)
        ensures
            final(self)@ == window_after_insert(
                old(self)@,
                SamplePoint { timestamp_ms, value },
                old(self).retention() as int,
            ),
            final(self).retention() == old(self).retention(),
            final(self).redraw_pending(),
            final(self).wf(),
            // The new point leads and the old ones keep their order.
            1 <= final(self)@.len() <= old(self)@.len() + 1,
            final(self)@ == seq![SamplePoint { timestamp_ms, value }] + old(self)@.take(
                final(self)@.len() - 1,
            ),
            // Only stale points leave, and no point still inside the window does.
            forall|j: int|
                final(self)@.len() - 1 <= j < old(self)@.len() ==> timestamp_ms
                    - #[trigger] old(self)@[j].timestamp_ms > old(self).retention(),
            forall|j: int|
                0 <= j < old(self)@.len() && timestamp_ms - #[trigger] old(self)@[j].timestamp_ms
                    <= old(self).retention() ==> j + 1 < final(self)@.len(),
            // Time-ordered contents leave nothing stale behind, and stay
            // time-ordered when the new point is no older than their newest.
            time_ordered(old(self)@) ==> within_window(final(self)@, final(self).retention() as int),
            time_ordered(old(self)@) && (old(self)@.len() > 0 ==> timestamp_ms >= old(
                self,
            )@[0].timestamp_ms) ==> time_ordered(final(self)@),
    {
        proof {
            let point = SamplePoint { timestamp_ms, value };
            lemma_insert_keeps_order_and_fresh_points(self.points@, point, self.retention_ms as int);
            if time_ordered(self.points@) {
                lemma_insert_into_ordered_leaves_only_fresh_points(
                    self.points@,
                    point,
                    self.retention_ms as int,
                );
                if self.points@.len() > 0 ==> timestamp_ms >= self.points@[0].timestamp_ms {
                    lemma_insert_in_order_keeps_time_order(
                        self.points@,
                        point,
                        self.retention_ms as int,
                    );
                }
            }
        }
        let ghost all = seq![SamplePoint { timestamp_ms, value }] + self.points@;
        self.points.push_front(SamplePoint { timestamp_ms, value });
        loop
            invariant
                self.retention_ms == old(self).retention_ms,
                0 < self.points@.len() <= all.len(),
                self.points@ == all.take(self.points@.len() as int),
                all[0].timestamp_ms == timestamp_ms,
                retained_len(all, timestamp_ms as int, self.retention_ms as int) == retained_len(
                    self.points@,
                    timestamp_ms as int,
                    self.retention_ms as int,
                ),
            ensures
                self.points@ == all.take(
                    retained_len(all, timestamp_ms as int, self.retention_ms as int) as int,
                ),
                self.points@.len() > 0,
                timestamp_ms - self.points@.last().timestamp_ms <= self.retention_ms,
            decreases self.points@.len(),
        {
            let n = self.points.len();
            let oldest_ms = self.points[n - 1].timestamp_ms;
            if (timestamp_ms as i128) - (oldest_ms as i128) > (self.retention_ms as i128) {
                let ghost before = self.points@;
                self.points.pop_back();
                assert(self.points@ == before.drop_last());
            } else {
                break;
            }
        }
        self.redraw_pending = true;
    }

    /// Number of retained points.
    pub fn len(&self) -> (n: usize)
        ensures
            n == self@.len(),
    {
        self.points.len()
    }

    /// Whether nothing is retained, as before the first insert.
    pub fn is_empty(&self) -> (empty: bool)
        ensures
            empty == (self@.len() == 0),
    {
        self.points.len() == 0
    }

    /// The retention this buffer was made with, in milliseconds.
    pub fn retention_ms(&self) -> (ms: u64)
        ensures
            ms == self.retention(),
    {
        self.retention_ms
    }

    /// Whether an insert has happened since the consumer last drew.
    pub fn needs_redraw(&self) -> (pending: bool)
        ensures
            pending == self.redraw_pending(),
    {
        self.redraw_pending
    }

    /// The consumer's acknowledgement that it has drawn the current series.
    pub fn mark_drawn(&mut self)
        ensures
            final(self)@ == old(self)@,
            final(self).retention() == old(self).retention(),
            !final(self).redraw_pending(),
    {
        self.redraw_pending = false;
    }

    /// The `i`-th point counting from the newest, if there are that many.
    pub fn newest_first(&self, i: usize) -> (point: Option<&SamplePoint<T>>)
        ensures
            i < self@.len() ==> point == Some(&self@[i as int]),
            i >= self@.len() ==> point is None,
    {
        if i < self.points.len() {
            Some(&self.points[i])
        } else {
            None
        }
    }

    /// The `i`-th point counting from the oldest, if there are that many.
    pub fn oldest_first(&self, i: usize) -> (point: Option<&SamplePoint<T>>)
        ensures
            i < self@.len() ==> point == Some(&self@[self@.len() - 1 - i]),
            i >= self@.len() ==> point is None,
    {
        let n = self.points.len();
        if i < n {
            Some(&self.points[n - 1 - i])
        } else {
            None
        }
    }

    /// Timestamp of the most recent point.
    pub fn newest_timestamp(&self) -> (ms: Option<i64>)
        ensures
            self@.len() > 0 ==> ms == Some(self@[0].timestamp_ms),
            self@.len() == 0 ==> ms is None,
    {
        if self.points.len() > 0 {
            Some(self.points[0].timestamp_ms)
        } else {
            None
        }
    }

    /// Timestamp of the oldest retained point.
    pub fn oldest_timestamp(&self) -> (ms: Option<i64>)
        ensures
            self@.len() > 0 ==> ms == Some(self@.last().timestamp_ms),
            self@.len() == 0 ==> ms is None,
    {
        let n = self.points.len();
        if n > 0 {
            Some(self.points[n - 1].timestamp_ms)
        } else {
            None
        }
    }

    /// The time axis of the series: the oldest and the newest timestamp.
    pub fn time_bounds(&self) -> (span: Option<(i64, i64)>)
        ensures
            self@.len() > 0 ==> span == Some((self@.last().timestamp_ms, self@[0].timestamp_ms)),
            self@.len() == 0 ==> span is None,
    {
        let n = self.points.len();
        if n > 0 {
            Some((self.points[n - 1].timestamp_ms, self.points[0].timestamp_ms))
        } else {
            None
        }
    }
}

impl<T> Default for RollingWindowBuffer<T> {
    /// An empty series that keeps `PLOT_SECONDS` of history.
    fn default() -> (buffer: Self)
        ensures
            buffer@ == Seq::<SamplePoint<T>>::empty(),
            buffer.retention() == PLOT_SECONDS * 1000,
            !buffer.redraw_pending(),
            buffer.wf(),
    {
        RollingWindowBuffer::new(PLOT_SECONDS * 1000)
    }
}

/// `low` and `high` are the least and the greatest value among `points`.
pub open spec fn is_value_range(points: Seq<SamplePoint<i64>>, low: i64, high: i64) -> bool {
    &&& exists|i: int| 0 <= i < points.len() && #[trigger] points[i].value == low
    &&& exists|i: int| 0 <= i < points.len() && #[trigger] points[i].value == high
    &&& forall|i: int| 0 <= i < points.len() ==> low <= #[trigger] points[i].value <= high
}

impl RollingWindowBuffer<i64> {
    /// The least and the greatest retained value, for scaling the value
    /// axis; `None` while the series is empty.
    pub fn value_bounds(&self) -> (range: Option<(i64, i64)>)
        ensures
            match range {
                Some((low, high)) => is_value_range(self@, low, high),
                None => self@.len() == 0,
            },
    {
        let n = self.points.len();
        if n == 0 {
            return None;
        }
        let mut low: i64 = self.points[0].value;
        let mut high: i64 = self.points[0].value;
        let mut i: usize = 1;
        assert(self.points@.take(1)[0].value == low);
        while i < n
            invariant
                n == self.points@.len(),
                1 <= i <= n,
                is_value_range(self.points@.take(i as int), low, high),
            decreases n - i,
        {
            let ghost seen = self.points@.take(i as int);
            let ghost grown = self.points@.take(i + 1);
            let v = self.points[i].value;
            proof {
                let wl = choose|k: int| 0 <= k < seen.len() && #[trigger] seen[k].value == low;
                let wh = choose|k: int| 0 <= k < seen.len() && #[trigger] seen[k].value == high;
                assert(grown[wl] == seen[wl]);
                assert(grown[wh] == seen[wh]);
                assert(grown[i as int].value == v);
                assert forall|k: int| 0 <= k < grown.len() implies (if v < low { v } else { low })
                    <= #[trigger] grown[k].value <= (if v > high { v } else { high }) by {
                    if k < i {
                        assert(grown[k] == seen[k]);
                    }
                }
            }
            if v < low {
                low = v;
            }
            if v > high {
                high = v;
            }
            i = i + 1;
        }
        assert(self.points@.take(n as int) =~= self.points@);
        Some((low, high))
    }
}

} // verus!
