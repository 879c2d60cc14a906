//! The record of indicators, and the arithmetic that runs over all of its
//! fields alike.

use vstd::prelude::*;
use crate::fixed::{divide, lemma_quotient_bounds, quotient, saturate, saturating_sum};
use crate::metric::{Metric, UnitClass, METRIC_COUNT};

verus! {

/// One value for each indicator, each counting billionths of the indicator's
/// unit. A missing measurement is recorded as zero.
#[derive(Clone, Copy, Debug, PartialEq, Eq, Structural)]
pub struct LighthouseMetrics {
    pub first_contentful_paint: i64,
    pub largest_contentful_paint: i64,
    pub time_to_interactive: i64,
    pub total_blocking_time: i64,
    pub cumulative_layout_shift: i64,
    pub speed_index: i64,
    pub performance_score: i64,
    pub first_meaningful_paint: i64,
    pub first_cpu_idle: i64,
    pub max_potential_fid: i64,
    pub estimated_input_latency: i64,
    pub server_response_time: i64,
    pub javascript_bootup_time: i64,
    pub total_byte_weight: i64,
    pub render_blocking_resources: i64,
    pub unused_javascript: i64,
    pub unused_css: i64,
    pub dom_size: i64,
    pub preconnect_origins: i64,
    pub properly_sized_images: i64,
    pub efficiently_encoded_images: i64,
    pub minimize_main_thread_work: i64,
    pub minimize_render_blocking_stylesheets: i64,
    pub avoid_large_layout_shifts: i64,
}

impl LighthouseMetrics {
    /// The value recorded for `m`.
    pub open spec fn spec_get(&self, m: Metric) -> i64 {
        match m {
            Metric::FirstContentfulPaint => self.first_contentful_paint,
            Metric::LargestContentfulPaint => self.largest_contentful_paint,
            Metric::TimeToInteractive => self.time_to_interactive,
            Metric::TotalBlockingTime => self.total_blocking_time,
            Metric::CumulativeLayoutShift => self.cumulative_layout_shift,
            Metric::SpeedIndex => self.speed_index,
            Metric::PerformanceScore => self.performance_score,
            Metric::FirstMeaningfulPaint => self.first_meaningful_paint,
            Metric::FirstCpuIdle => self.first_cpu_idle,
            Metric::MaxPotentialFid => self.max_potential_fid,
            Metric::EstimatedInputLatency => self.estimated_input_latency,
            Metric::ServerResponseTime => self.server_response_time,
            Metric::JavascriptBootupTime => self.javascript_bootup_time,
            Metric::TotalByteWeight => self.total_byte_weight,
            Metric::RenderBlockingResources => self.render_blocking_resources,
            Metric::UnusedJavascript => self.unused_javascript,
            Metric::UnusedCss => self.unused_css,
            Metric::DomSize => self.dom_size,
            Metric::PreconnectOrigins => self.preconnect_origins,
            Metric::ProperlySizedImages => self.properly_sized_images,
            Metric::EfficientlyEncodedImages => self.efficiently_encoded_images,
            Metric::MinimizeMainThreadWork => self.minimize_main_thread_work,
            Metric::MinimizeRenderBlockingStylesheets => self.minimize_render_blocking_stylesheets,
            Metric::AvoidLargeLayoutShifts => self.avoid_large_layout_shifts,
        }
    }

    /// The record that holds `f(m)` for each indicator `m`.
    pub open spec fn from_fn(f: spec_fn(Metric) -> int) -> LighthouseMetrics {
        LighthouseMetrics {
            first_contentful_paint: f(Metric::FirstContentfulPaint) as i64,
            largest_contentful_paint: f(Metric::LargestContentfulPaint) as i64,
            time_to_interactive: f(Metric::TimeToInteractive) as i64,
            total_blocking_time: f(Metric::TotalBlockingTime) as i64,
            cumulative_layout_shift: f(Metric::CumulativeLayoutShift) as i64,
            speed_index: f(Metric::SpeedIndex) as i64,
            performance_score: f(Metric::PerformanceScore) as i64,
            first_meaningful_paint: f(Metric::FirstMeaningfulPaint) as i64,
            first_cpu_idle: f(Metric::FirstCpuIdle) as i64,
            max_potential_fid: f(Metric::MaxPotentialFid) as i64,
            estimated_input_latency: f(Metric::EstimatedInputLatency) as i64,
            server_response_time: f(Metric::ServerResponseTime) as i64,
            javascript_bootup_time: f(Metric::JavascriptBootupTime) as i64,
            total_byte_weight: f(Metric::TotalByteWeight) as i64,
            render_blocking_resources: f(Metric::RenderBlockingResources) as i64,
            unused_javascript: f(Metric::UnusedJavascript) as i64,
            unused_css: f(Metric::UnusedCss) as i64,
            dom_size: f(Metric::DomSize) as i64,
            preconnect_origins: f(Metric::PreconnectOrigins) as i64,
            properly_sized_images: f(Metric::ProperlySizedImages) as i64,
            efficiently_encoded_images: f(Metric::EfficientlyEncodedImages) as i64,
            minimize_main_thread_work: f(Metric::MinimizeMainThreadWork) as i64,
            minimize_render_blocking_stylesheets: f(
                Metric::MinimizeRenderBlockingStylesheets,
            ) as i64,
            avoid_large_layout_shifts: f(Metric::AvoidLargeLayoutShifts) as i64,
        }
    }

    /// The record of zeros.
    pub open spec fn zero() -> LighthouseMetrics {
        LighthouseMetrics::from_fn(|m: Metric| 0int)
    }

    /// The field-by-field sum of two records, each sum stopping at the ends of
    /// the range.
    pub open spec fn sum(self, other: LighthouseMetrics) -> LighthouseMetrics {
        LighthouseMetrics::from_fn(|m: Metric| saturate(self.spec_get(m) + other.spec_get(m)))
    }

    /// Each field divided by `count`, rounded toward zero.
    pub open spec fn mean(self, count: int) -> LighthouseMetrics {
        LighthouseMetrics::from_fn(|m: Metric| quotient(self.spec_get(m) as int, count))
    }

    /// What `m` holds once durations are given in seconds: a thousandth of a
    /// duration, and any other value as it is.
    pub open spec fn seconds_value(self, m: Metric) -> int {
        if m.spec_unit() == UnitClass::Time {
            quotient(self.spec_get(m) as int, 1000)
        } else {
            self.spec_get(m) as int
        }
    }

    /// The record with its durations in seconds.
    pub open spec fn in_seconds(self) -> LighthouseMetrics {
        LighthouseMetrics::from_fn(|m: Metric| self.seconds_value(m))
    }

    /// The record of zeros.
    pub fn new() -> (r: Self)
        ensures
            r == LighthouseMetrics::zero(),
    {
        LighthouseMetrics {
            first_contentful_paint: 0,
            largest_contentful_paint: 0,
            time_to_interactive: 0,
            total_blocking_time: 0,
            cumulative_layout_shift: 0,
            speed_index: 0,
            performance_score: 0,
            first_meaningful_paint: 0,
            first_cpu_idle: 0,
            max_potential_fid: 0,
            estimated_input_latency: 0,
            server_response_time: 0,
            javascript_bootup_time: 0,
            total_byte_weight: 0,
            render_blocking_resources: 0,
            unused_javascript: 0,
            unused_css: 0,
            dom_size: 0,
            preconnect_origins: 0,
            properly_sized_images: 0,
            efficiently_encoded_images: 0,
            minimize_main_thread_work: 0,
            minimize_render_blocking_stylesheets: 0,
            avoid_large_layout_shifts: 0,
        }
    }

    /// The value recorded for `m`.
    #[verifier::when_used_as_spec(spec_get)]
    pub fn get(&self, m: Metric) -> (r: i64)
        ensures
            r == self.spec_get(m),
    {
        match m {
            Metric::FirstContentfulPaint => self.first_contentful_paint,
            Metric::LargestContentfulPaint => self.largest_contentful_paint,
            Metric::TimeToInteractive => self.time_to_interactive,
            Metric::TotalBlockingTime => self.total_blocking_time,
            Metric::CumulativeLayoutShift => self.cumulative_layout_shift,
            Metric::SpeedIndex => self.speed_index,
            Metric::PerformanceScore => self.performance_score,
            Metric::FirstMeaningfulPaint => self.first_meaningful_paint,
            Metric::FirstCpuIdle => self.first_cpu_idle,
            Metric::MaxPotentialFid => self.max_potential_fid,
            Metric::EstimatedInputLatency => self.estimated_input_latency,
            Metric::ServerResponseTime => self.server_response_time,
            Metric::JavascriptBootupTime => self.javascript_bootup_time,
            Metric::TotalByteWeight => self.total_byte_weight,
            Metric::RenderBlockingResources => self.render_blocking_resources,
            Metric::UnusedJavascript => self.unused_javascript,
            Metric::UnusedCss => self.unused_css,
            Metric::DomSize => self.dom_size,
            Metric::PreconnectOrigins => self.preconnect_origins,
            Metric::ProperlySizedImages => self.properly_sized_images,
            Metric::EfficientlyEncodedImages => self.efficiently_encoded_images,
            Metric::MinimizeMainThreadWork => self.minimize_main_thread_work,
            Metric::MinimizeRenderBlockingStylesheets => self.minimize_render_blocking_stylesheets,
            Metric::AvoidLargeLayoutShifts => self.avoid_large_layout_shifts,
        }
    }

    /// Records `value` for `m` and leaves every other field as it was.
    pub fn set(&mut self, m: Metric, value: i64)
        ensures
            final(self).spec_get(m) == value,
            forall|o: Metric| o != m ==> final(self).spec_get(o) == old(self).spec_get(o),
    {
        match m {
            Metric::FirstContentfulPaint => {
                self.first_contentful_paint = value;
            },
            Metric::LargestContentfulPaint => {
                self.largest_contentful_paint = value;
            },
            Metric::TimeToInteractive => {
                self.time_to_interactive = value;
            },
            Metric::TotalBlockingTime => {
                self.total_blocking_time = value;
            },
            Metric::CumulativeLayoutShift => {
                self.cumulative_layout_shift = value;
            },
            Metric::SpeedIndex => {
                self.speed_index = value;
            },
            Metric::PerformanceScore => {
                self.performance_score = value;
            },
            Metric::FirstMeaningfulPaint => {
                self.first_meaningful_paint = value;
            },
            Metric::FirstCpuIdle => {
                self.first_cpu_idle = value;
            },
            Metric::MaxPotentialFid => {
                self.max_potential_fid = value;
            },
            Metric::EstimatedInputLatency => {
                self.estimated_input_latency = value;
            },
            Metric::ServerResponseTime => {
                self.server_response_time = value;
            },
            Metric::JavascriptBootupTime => {
                self.javascript_bootup_time = value;
            },
            Metric::TotalByteWeight => {
                self.total_byte_weight = value;
            },
            Metric::RenderBlockingResources => {
                self.render_blocking_resources = value;
            },
            Metric::UnusedJavascript => {
                self.unused_javascript = value;
            },
            Metric::UnusedCss => {
                self.unused_css = value;
            },
            Metric::DomSize => {
                self.dom_size = value;
            },
            Metric::PreconnectOrigins => {
                self.preconnect_origins = value;
            },
            Metric::ProperlySizedImages => {
                self.properly_sized_images = value;
            },
            Metric::EfficientlyEncodedImages => {
                self.efficiently_encoded_images = value;
            },
            Metric::MinimizeMainThreadWork => {
                self.minimize_main_thread_work = value;
            },
            Metric::MinimizeRenderBlockingStylesheets => {
                self.minimize_render_blocking_stylesheets = value;
            },
            Metric::AvoidLargeLayoutShifts => {
                self.avoid_large_layout_shifts = value;
            },
        }
    }

    /// Adds `other` to this record, field by field.
    pub fn add(&mut self, other: &Self)
        ensures
            *final(self) == old(self).sum(*other),
            forall|m: Metric|
                final(self).spec_get(m) == saturate(old(self).spec_get(m) + other.spec_get(m)),
    {
        let mut i: usize = 0;
        while i < METRIC_COUNT
            invariant
                i <= METRIC_COUNT,
                forall|m: Metric|
                    m.index() < i ==> #[trigger] self.spec_get(m) == saturate(
                        old(self).spec_get(m) + other.spec_get(m),
                    ),
                forall|m: Metric|
                    m.index() >= i ==> #[trigger] self.spec_get(m) == old(self).spec_get(m),
            decreases METRIC_COUNT - i,
        {
            if let Some(m) = Metric::from_ordinal(i) {
                proof {
                    Metric::lemma_at_index(i as int);
                }
                let value: i64 = saturating_sum(self.get(m), other.get(m));
                self.set(m, value);
            }
            i += 1;
        }
        proof {
            assert forall|m: Metric| self.spec_get(m) == old(self).sum(*other).spec_get(m) by {
                lemma_sum_by_field(*old(self), *other, m);
            }
            lemma_same_fields(*self, old(self).sum(*other));
        }
    }

    /// Divides every field by `count`, rounding toward zero.
    pub fn average(&mut self, count: u64)
        requires
            count >= 1,
        ensures
            *final(self) == old(self).mean(count as int),
            forall|m: Metric|
                final(self).spec_get(m) == quotient(old(self).spec_get(m) as int, count as int),
    {
        let mut i: usize = 0;
        while i < METRIC_COUNT
            invariant
                i <= METRIC_COUNT,
                count >= 1,
                forall|m: Metric|
                    m.index() < i ==> #[trigger] self.spec_get(m) == quotient(
                        old(self).spec_get(m) as int,
                        count as int,
                    ),
                forall|m: Metric|
                    m.index() >= i ==> #[trigger] self.spec_get(m) == old(self).spec_get(m),
            decreases METRIC_COUNT - i,
        {
            if let Some(m) = Metric::from_ordinal(i) {
                proof {
                    Metric::lemma_at_index(i as int);
                }
                let value: i64 = divide(self.get(m), count);
                self.set(m, value);
            }
            i += 1;
        }
        proof {
            assert forall|m: Metric| self.spec_get(m) == old(self).mean(count as int).spec_get(
                m,
            ) by {
                lemma_mean_by_field(*old(self), count as int, m);
            }
            lemma_same_fields(*self, old(self).mean(count as int));
        }
    }

    /// The record with its durations in seconds; this record stays as it is.
    pub fn to_seconds(&self) -> (r: Self)
        ensures
            r == self.in_seconds(),
            forall|m: Metric| r.spec_get(m) == self.seconds_value(m),
    {
        let mut out: LighthouseMetrics = *self;
        let mut i: usize = 0;
        while i < METRIC_COUNT
            invariant
                i <= METRIC_COUNT,
                forall|m: Metric|
                    m.index() < i ==> #[trigger] out.spec_get(m) == self.seconds_value(m),
                forall|m: Metric| m.index() >= i ==> #[trigger] out.spec_get(m) == self.spec_get(m),
            decreases METRIC_COUNT - i,
        {
            if let Some(m) = Metric::from_ordinal(i) {
                proof {
                    Metric::lemma_at_index(i as int);
                }
                match m.unit() {
                    UnitClass::Time => {
                        let value: i64 = divide(out.get(m), 1000);
                        out.set(m, value);
                    },
                    _ => {},
                }
            }
            i += 1;
        }
        proof {
            assert forall|m: Metric| out.spec_get(m) == self.in_seconds().spec_get(m) by {
                lemma_seconds_by_unit(*self, m);
            }
            lemma_same_fields(out, self.in_seconds());
        }
        out
    }
}

impl Default for LighthouseMetrics {
    /// The record of zeros.
    fn default() -> (r: Self)
        ensures
            r == LighthouseMetrics::zero(),
    {
        LighthouseMetrics::new()
    }
}

/// The sum of two records holds, for each indicator, the sum of their values.
pub proof fn lemma_sum_by_field(a: LighthouseMetrics, b: LighthouseMetrics, m: Metric)
    ensures
        a.sum(b).spec_get(m) == saturate(a.spec_get(m) + b.spec_get(m)),
{
    lemma_from_fn_get(|m: Metric| saturate(a.spec_get(m) + b.spec_get(m)), m);
}

/// The mean of a record holds, for each indicator, its value divided by the
/// count.
pub proof fn lemma_mean_by_field(a: LighthouseMetrics, count: int, m: Metric)
    requires
        count >= 1,
    ensures
        a.mean(count).spec_get(m) == quotient(a.spec_get(m) as int, count),
{
    lemma_from_fn_get(|m: Metric| quotient(a.spec_get(m) as int, count), m);
    lemma_quotient_bounds(a.spec_get(m) as int, count);
}

/// Conversion to seconds divides the durations, and nothing else, by a
/// thousand: every value that is no duration stays exactly as it is.
pub proof fn lemma_seconds_by_unit(record: LighthouseMetrics, m: Metric)
    ensures
        m.spec_unit() == UnitClass::Time ==> record.in_seconds().spec_get(m) == quotient(
            record.spec_get(m) as int,
            1000,
        ),
        m.spec_unit() != UnitClass::Time ==> record.in_seconds().spec_get(m) == record.spec_get(m),
        record.in_seconds().spec_get(m) == record.seconds_value(m),
{
    lemma_from_fn_get(|m: Metric| record.seconds_value(m), m);
    lemma_quotient_bounds(record.spec_get(m) as int, 1000);
}

/// The record made from `f` holds `f(m)` for `m`.
pub proof fn lemma_from_fn_get(f: spec_fn(Metric) -> int, m: Metric)
    ensures
        LighthouseMetrics::from_fn(f).spec_get(m) == f(m) as i64,
{
}

/// Two records that agree on every indicator are the same record.
pub proof fn lemma_same_fields(a: LighthouseMetrics, b: LighthouseMetrics)
    requires
        forall|m: Metric| a.spec_get(m) == b.spec_get(m),
    ensures
        a == b,
{
    assert(a.spec_get(Metric::FirstContentfulPaint) == b.spec_get(Metric::FirstContentfulPaint));
    assert(a.spec_get(Metric::LargestContentfulPaint) == b.spec_get(
        Metric::LargestContentfulPaint,
    ));
    assert(a.spec_get(Metric::TimeToInteractive) == b.spec_get(Metric::TimeToInteractive));
    assert(a.spec_get(Metric::TotalBlockingTime) == b.spec_get(Metric::TotalBlockingTime));
    assert(a.spec_get(Metric::CumulativeLayoutShift) == b.spec_get(Metric::CumulativeLayoutShift));
    assert(a.spec_get(Metric::SpeedIndex) == b.spec_get(Metric::SpeedIndex));
    assert(a.spec_get(Metric::PerformanceScore) == b.spec_get(Metric::PerformanceScore));
    assert(a.spec_get(Metric::FirstMeaningfulPaint) == b.spec_get(Metric::FirstMeaningfulPaint));
    assert(a.spec_get(Metric::FirstCpuIdle) == b.spec_get(Metric::FirstCpuIdle));
    assert(a.spec_get(Metric::MaxPotentialFid) == b.spec_get(Metric::MaxPotentialFid));
    assert(a.spec_get(Metric::EstimatedInputLatency) == b.spec_get(Metric::EstimatedInputLatency));
    assert(a.spec_get(Metric::ServerResponseTime) == b.spec_get(Metric::ServerResponseTime));
    assert(a.spec_get(Metric::JavascriptBootupTime) == b.spec_get(Metric::JavascriptBootupTime));
    assert(a.spec_get(Metric::TotalByteWeight) == b.spec_get(Metric::TotalByteWeight));
    assert(a.spec_get(Metric::RenderBlockingResources) == b.spec_get(
        Metric::RenderBlockingResources,
    ));
    assert(a.spec_get(Metric::UnusedJavascript) == b.spec_get(Metric::UnusedJavascript));
    assert(a.spec_get(Metric::UnusedCss) == b.spec_get(Metric::UnusedCss));
    assert(a.spec_get(Metric::DomSize) == b.spec_get(Metric::DomSize));
    assert(a.spec_get(Metric::PreconnectOrigins) == b.spec_get(Metric::PreconnectOrigins));
    assert(a.spec_get(Metric::ProperlySizedImages) == b.spec_get(Metric::ProperlySizedImages));
    assert(a.spec_get(Metric::EfficientlyEncodedImages) == b.spec_get(
        Metric::EfficientlyEncodedImages,
    ));
    assert(a.spec_get(Metric::MinimizeMainThreadWork) == b.spec_get(
        Metric::MinimizeMainThreadWork,
    ));
    assert(a.spec_get(Metric::MinimizeRenderBlockingStylesheets) == b.spec_get(
        Metric::MinimizeRenderBlockingStylesheets,
    ));
    assert(a.spec_get(Metric::AvoidLargeLayoutShifts) == b.spec_get(
        Metric::AvoidLargeLayoutShifts,
    ));
}

} // verus!
