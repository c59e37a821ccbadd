//! The sampler: throttles polling against a fast tick, normalizes what a
//! poll returned, and feeds the rate series.

use crate::reading::{normalizes, BatteryInfo, DeviceReading};
use crate::window::{
    time_ordered, window_after_insert, window_after_inserts, within_window, RollingWindowBuffer,
    SamplePoint,
};
use crate::window_laws::lemma_inserts_in_order_stay_within_window;
use vstd::prelude::*;

verus! {

/// Default time between two polls, in milliseconds.
pub const SAMPLE_EVERY_MS: u64 = 1000;

/// When the last poll was made, and whether any poll has found a device yet.
#[derive(Clone, Copy, Debug, PartialEq, Eq, Structural)]
pub struct SamplingClock {
    pub last_sample_ms: i64,
    pub initialized: bool,
}

/// The instantaneous rates of a set of readings, in their order.
pub open spec fn rates_of(infos: Seq<BatteryInfo>) -> Seq<i64> {
    Seq::new(infos.len(), |i: int| infos[i].energy_rate_mw)
}

/// The instantaneous rates that a poll returned, in the order polled.
pub open spec fn polled_rates(polled: Seq<DeviceReading>) -> Seq<i64> {
    Seq::new(polled.len(), |i: int| polled[i].energy_rate_mw)
}

/// One point per value, all taken at `now_ms`.
pub open spec fn points_at(now_ms: i64, values: Seq<i64>) -> Seq<SamplePoint<i64>> {
    Seq::new(values.len(), |i: int| SamplePoint { timestamp_ms: now_ms, value: values[i] })
}

/// The sum of `values`.
pub open spec fn sum_of(values: Seq<i64>) -> int
    decreases values.len(),
{
    if values.len() == 0 {
        0
    } else {
        sum_of(values.drop_last()) + values.last()
    }
}

/// The arithmetic mean of `values`, rounded down to a whole number.
pub open spec fn mean_of(values: Seq<i64>) -> int
    recommends
        values.len() > 0,
{
    sum_of(values) / (values.len() as int)
}

/// The aggregate that a due pass charts: the mean rate, once a pass before
/// it has found devices and this one finds some too.
pub open spec fn aggregate_of_pass(rates: Seq<i64>, initialized: bool) -> Option<i64> {
    if rates.len() > 0 && initialized {
        Some(mean_of(rates) as i64)
    } else {
        None
    }
}

/// The rate series after a due pass at `now_ms`: untouched when the poll
/// found nothing; fed each rate by itself, in the order polled, by the
/// first pass that finds devices; fed the mean rate once by every later
/// pass that finds devices.
pub open spec fn series_after_pass(
    series: Seq<SamplePoint<i64>>,
    now_ms: i64,
    rates: Seq<i64>,
    initialized: bool,
    retention_ms: int,
) -> Seq<SamplePoint<i64>> {
    if rates.len() == 0 {
        series
    } else if !initialized {
        window_after_inserts(series, points_at(now_ms, rates), retention_ms)
    } else {
        window_after_insert(
            series,
            SamplePoint { timestamp_ms: now_ms, value: mean_of(rates) as i64 },
            retention_ms,
        )
    }
}

/// A sum of `n` values lies between `n` times the least and `n` times the
/// greatest value an `i64` can hold.
pub proof fn lemma_sum_of_bounds(values: Seq<i64>)
    ensures
        values.len() * i64::MIN <= sum_of(values) <= values.len() * i64::MAX,
    decreases values.len(),
{
    if values.len() > 0 {
        lemma_sum_of_bounds(values.drop_last());
        assert(values.len() * i64::MIN == (values.len() - 1) * i64::MIN + i64::MIN)
            by (nonlinear_arith);
        assert(values.len() * i64::MAX == (values.len() - 1) * i64::MAX + i64::MAX)
            by (nonlinear_arith);
    }
}

/// The mean is the one whole number `m` with `m * n <= sum < (m + 1) * n`,
/// and it is itself a value an `i64` can hold.
pub proof fn lemma_mean_of_rounds_down(values: Seq<i64>)
    requires
        values.len() > 0,
    ensures
        mean_of(values) * values.len() <= sum_of(values) < (mean_of(values) + 1) * values.len(),
        i64::MIN <= mean_of(values) <= i64::MAX,
{
    let n = values.len() as int;
    let s = sum_of(values);
    let m = mean_of(values);
    lemma_sum_of_bounds(values);
    assert(m * n <= s < (m + 1) * n) by (nonlinear_arith)
        requires
            n > 0,
            m == s / n,
    ;
    assert(i64::MIN <= m <= i64::MAX) by (nonlinear_arith)
        requires
            n > 0,
            m * n <= s < (m + 1) * n,
            n * i64::MIN <= s <= n * i64::MAX,
    ;
}

/// The mean of the instantaneous rates of `infos`, rounded down to a whole
/// thousandth of a watt; `None` when there are none.
pub fn mean_rate(infos: &Vec<BatteryInfo>) -> (mean: Option<i64>)
    ensures
        infos@.len() == 0 ==> mean is None,
        infos@.len() > 0 ==> mean == Some(mean_of(rates_of(infos@)) as i64),
        infos@.len() > 0 ==> i64::MIN <= mean_of(rates_of(infos@)) <= i64::MAX,
{
    let n = infos.len();
    if n == 0 {
        return None;
    }
    let ghost rates = rates_of(infos@);
    let mut total: i128 = 0;
    let mut i: usize = 0;
    while i < n
        invariant
            n == infos@.len(),
            rates == rates_of(infos@),
            0 <= i <= n,
            total == sum_of(rates.take(i as int)),
        decreases n - i,
    {
        proof {
            lemma_sum_of_bounds(rates.take(i as int));
            assert(i * i64::MIN >= usize::MAX * i64::MIN) by (nonlinear_arith)
                requires
                    0 <= i <= usize::MAX,
            ;
            assert(i * i64::MAX <= usize::MAX * i64::MAX) by (nonlinear_arith)
                requires
                    0 <= i <= usize::MAX,
            ;
            assert(rates.take(i + 1).drop_last() =~= rates.take(i as int));
        }
        total = total + (infos[i].energy_rate_mw as i128);
        i = i + 1;
    }
    proof {
        assert(rates.take(n as int) =~= rates);
        lemma_mean_of_rounds_down(rates);
        lemma_sum_of_bounds(rates);
        assert(n * i64::MIN >= usize::MAX * i64::MIN) by (nonlinear_arith)
            requires
                0 <= n <= usize::MAX,
        ;
    }
    let count = n as i128;
    let mean: i128 = if total >= 0 {
        total / count
    } else {
        let shortfall: i128 = -total;
        let whole: i128 = (shortfall - 1) / count + 1;
        proof {
            let m = mean_of(rates);
            let c = count as int;
            let t = total as int;
            let w = whole as int;
            assert(w == (-t - 1) / c + 1);
            assert(-w == m) by (nonlinear_arith)
                requires
                    c > 0,
                    t < 0,
                    w == (-t - 1) / c + 1,
                    m * c <= t < (m + 1) * c,
            ;
        }
        -whole
    };
    Some(mean as i64)
}

/// Decides when to poll, and what a poll's result does to the latest
/// readings and to the rate series.
pub struct Sampler {
    interval_ms: u64,
    clock: SamplingClock,
    battery_info: Vec<BatteryInfo>,
}

impl Sampler {
    /// Milliseconds that must pass between two polls.
    pub closed spec fn interval(&self) -> int {
        self.interval_ms as int
    }

    /// The throttle state.
    pub closed spec fn sampling_clock(&self) -> SamplingClock {
        self.clock
    }

    /// The readings of the last poll that found any device.
    pub closed spec fn latest(&self) -> Seq<BatteryInfo> {
        self.battery_info@
    }

    /// A poll is due at `now_ms` once the interval has passed since the
    /// last one.
    pub open spec fn is_due(&self, now_ms: i64) -> bool {
        now_ms - self.sampling_clock().last_sample_ms >= self.interval()
    }

    /// A sampler that was started at `start_ms`, has seen no device yet, and
    /// polls every `interval_ms` milliseconds.
    pub fn new(start_ms: i64, interval_ms: u64) -> (sampler: Self)
        ensures
            sampler.interval() == interval_ms,
            sampler.sampling_clock() == (SamplingClock {
                last_sample_ms: start_ms,
                initialized: false,
            }),
            sampler.latest() == Seq::<BatteryInfo>::empty(),
    {
        Sampler {
            interval_ms,
            clock: SamplingClock { last_sample_ms: start_ms, initialized: false },
            battery_info: Vec::new(),
        }
    }

    /// Whether a tick at `now_ms` should poll the devices.
    pub fn should_update(&self, now_ms: i64) -> (due: bool)
        ensures
            due == self.is_due(now_ms),
    {
        (now_ms as i128) - (self.clock.last_sample_ms as i128) >= (self.interval_ms as i128)
    }

    /// One sampling pass at `now_ms`, given what a poll of the devices
    /// returned.
    ///
    /// When no poll is due, nothing changes and the result is `None`.
    /// Otherwise `now_ms` becomes the time of the last poll, also when the
    /// poll found nothing, and the result holds the number of readings and
    /// the aggregate that was charted, if one was:
    /// - an empty poll leaves the latest readings and the series alone;
    /// - the first poll that finds devices charts each device's rate by
    ///   itself, in the order polled;
    /// - every later poll that finds devices charts their mean rate once.
    /// A poll that finds devices replaces the latest readings whole.
    pub fn maybe_sample(
        &mut self,
        now_ms: i64,
        polled: &Vec<DeviceReading>,
        series: &mut RollingWindowBuffer<i64>,
    ) -> (pass: Option<(usize, Option<i64>)>)
        ensures
            final(self).interval() == old(self).interval(),
            final(series).retention() == old(series).retention(),
            // The time of the last poll never goes back.
            final(self).sampling_clock().last_sample_ms >= old(
                self,
            ).sampling_clock().last_sample_ms,
            !old(self).is_due(now_ms) ==> {
                &&& pass is None
                &&& final(self).sampling_clock() == old(self).sampling_clock()
                &&& final(self).latest() == old(self).latest()
                &&& final(series)@ == old(series)@
                &&& final(series).redraw_pending() == old(series).redraw_pending()
            },
            old(self).is_due(now_ms) ==> {
                &&& pass == Some(
                    (
                        polled@.len() as usize,
                        aggregate_of_pass(
                            polled_rates(polled@),
                            old(self).sampling_clock().initialized,
                        ),
                    ),
                )
                &&& final(self).sampling_clock() == (SamplingClock {
                    last_sample_ms: now_ms,
                    initialized: old(self).sampling_clock().initialized || polled@.len() > 0,
                })
                &&& final(series)@ == series_after_pass(
                    old(series)@,
                    now_ms,
                    polled_rates(polled@),
                    old(self).sampling_clock().initialized,
                    old(series).retention() as int,
                )
                &&& final(series).redraw_pending() == (old(series).redraw_pending() || polled@.len()
                    > 0)
            },
            old(self).is_due(now_ms) && polled@.len() == 0 ==> final(self).latest() == old(
                self,
            ).latest(),
            old(self).is_due(now_ms) && polled@.len() > 0 ==> {
                &&& final(self).latest().len() == polled@.len()
                &&& forall|i: int|
                    0 <= i < polled@.len() ==> normalizes(
                        #[trigger] polled@[i],
                        final(self).latest()[i],
                    )
            },
            // A series that is fed in time order stays a proper window.
            time_ordered(old(series)@) && within_window(
                old(series)@,
                old(series).retention() as int,
            ) && (old(series)@.len() > 0 ==> old(series)@[0].timestamp_ms <= now_ms)
                ==> time_ordered(final(series)@) && within_window(
                final(series)@,
                final(series).retention() as int,
            ),
    {
        if !self.should_update(now_ms) {
            return None;
        }
        self.clock.last_sample_ms = now_ms;
        let count = polled.len();
        if count == 0 {
            return Some((0, None));
        }
        let mut updated_info: Vec<BatteryInfo> = Vec::new();
        let mut i: usize = 0;
        while i < count
            invariant
                count == polled@.len(),
                0 <= i <= count,
                updated_info@.len() == i,
                forall|k: int| 0 <= k < i ==> normalizes(#[trigger] polled@[k], updated_info@[k]),
            decreases count - i,
        {
            updated_info.push(BatteryInfo::from_battery(&polled[i]));
            i = i + 1;
        }
        assert(rates_of(updated_info@) =~= polled_rates(polled@));
        let mut aggregate: Option<i64> = None;
        if !self.clock.initialized {
            self.clock.initialized = true;
            let ghost arrivals = points_at(now_ms, rates_of(updated_info@));
            let mut k: usize = 0;
            while k < count
                invariant
                    count == updated_info@.len(),
                    0 <= k <= count,
                    arrivals == points_at(now_ms, rates_of(updated_info@)),
                    series.retention() == old(series).retention(),
                    series@ == window_after_inserts(
                        old(series)@,
                        arrivals.take(k as int),
                        old(series).retention() as int,
                    ),
                    k > 0 ==> series.redraw_pending(),
                decreases count - k,
            {
                assert(arrivals.take(k + 1).drop_last() =~= arrivals.take(k as int));
                series.insert(now_ms, updated_info[k].energy_rate_mw);
                k = k + 1;
            }
            proof {
                assert(arrivals.take(count as int) =~= arrivals);
                if time_ordered(old(series)@) && within_window(
                    old(series)@,
                    old(series).retention() as int,
                ) && (old(series)@.len() > 0 ==> old(series)@[0].timestamp_ms <= now_ms) {
                    lemma_inserts_in_order_stay_within_window(
                        old(series)@,
                        arrivals,
                        old(series).retention() as int,
                    );
                }
            }
        } else {
            let mean = mean_rate(&updated_info);
            match mean {
                Some(value) => {
                    series.insert(now_ms, value);
                    aggregate = Some(value);
                },
                None => {},
            }
        }
        self.battery_info = updated_info;
        Some((count, aggregate))
    }

    /// The readings of the last poll that found any device, for the panels.
    pub fn battery_info(&self) -> (infos: &Vec<BatteryInfo>)
        ensures
            infos@ == self.latest(),
    {
        &self.battery_info
    }

    /// A copy of the throttle state.
    pub fn clock(&self) -> (clock: SamplingClock)
        ensures
            clock == self.sampling_clock(),
    {
        self.clock
    }

    /// Milliseconds that must pass between two polls.
    pub fn interval_ms(&self) -> (ms: u64)
        ensures
            ms == self.interval(),
    {
        self.interval_ms
    }
}

} // verus!
