//! The table of measurements: which indicators a record holds, in what unit
//! each is measured, and under which name each is read and written.

use vstd::prelude::*;

verus! {

/// How many indicators a record holds.
pub const METRIC_COUNT: usize = 24;

/// The unit in which an indicator is measured.
#[derive(Clone, Copy, Debug, PartialEq, Eq, Structural)]
pub enum UnitClass {
    /// A duration, reported in milliseconds.
    Time,
    /// A size in bytes.
    Size,
    /// A count or another number without a unit.
    Count,
    /// A score from 0 to 100.
    Score,
}

/// One indicator of a record.
#[derive(Clone, Copy, Debug, PartialEq, Eq, Structural)]
pub enum Metric {
    FirstContentfulPaint,
    LargestContentfulPaint,
    TimeToInteractive,
    TotalBlockingTime,
    CumulativeLayoutShift,
    SpeedIndex,
    PerformanceScore,
    FirstMeaningfulPaint,
    FirstCpuIdle,
    MaxPotentialFid,
    EstimatedInputLatency,
    ServerResponseTime,
    JavascriptBootupTime,
    TotalByteWeight,
    RenderBlockingResources,
    UnusedJavascript,
    UnusedCss,
    DomSize,
    PreconnectOrigins,
    ProperlySizedImages,
    EfficientlyEncodedImages,
    MinimizeMainThreadWork,
    MinimizeRenderBlockingStylesheets,
    AvoidLargeLayoutShifts,
}

impl Metric {
    /// The place of the indicator in the table, from 0.
    pub open spec fn index(self) -> int {
        match self {
            Metric::FirstContentfulPaint => 0,
            Metric::LargestContentfulPaint => 1,
            Metric::TimeToInteractive => 2,
            Metric::TotalBlockingTime => 3,
            Metric::CumulativeLayoutShift => 4,
            Metric::SpeedIndex => 5,
            Metric::PerformanceScore => 6,
            Metric::FirstMeaningfulPaint => 7,
            Metric::FirstCpuIdle => 8,
            Metric::MaxPotentialFid => 9,
            Metric::EstimatedInputLatency => 10,
            Metric::ServerResponseTime => 11,
            Metric::JavascriptBootupTime => 12,
            Metric::TotalByteWeight => 13,
            Metric::RenderBlockingResources => 14,
            Metric::UnusedJavascript => 15,
            Metric::UnusedCss => 16,
            Metric::DomSize => 17,
            Metric::PreconnectOrigins => 18,
            Metric::ProperlySizedImages => 19,
            Metric::EfficientlyEncodedImages => 20,
            Metric::MinimizeMainThreadWork => 21,
            Metric::MinimizeRenderBlockingStylesheets => 22,
            Metric::AvoidLargeLayoutShifts => 23,
        }
    }

    /// The indicator at place `i` of the table.
    pub open spec fn at(i: int) -> Metric {
        if i == 0 {
            Metric::FirstContentfulPaint
        } else if i == 1 {
            Metric::LargestContentfulPaint
        } else if i == 2 {
            Metric::TimeToInteractive
        } else if i == 3 {
            Metric::TotalBlockingTime
        } else if i == 4 {
            Metric::CumulativeLayoutShift
        } else if i == 5 {
            Metric::SpeedIndex
        } else if i == 6 {
            Metric::PerformanceScore
        } else if i == 7 {
            Metric::FirstMeaningfulPaint
        } else if i == 8 {
            Metric::FirstCpuIdle
        } else if i == 9 {
            Metric::MaxPotentialFid
        } else if i == 10 {
            Metric::EstimatedInputLatency
        } else if i == 11 {
            Metric::ServerResponseTime
        } else if i == 12 {
            Metric::JavascriptBootupTime
        } else if i == 13 {
            Metric::TotalByteWeight
        } else if i == 14 {
            Metric::RenderBlockingResources
        } else if i == 15 {
            Metric::UnusedJavascript
        } else if i == 16 {
            Metric::UnusedCss
        } else if i == 17 {
            Metric::DomSize
        } else if i == 18 {
            Metric::PreconnectOrigins
        } else if i == 19 {
            Metric::ProperlySizedImages
        } else if i == 20 {
            Metric::EfficientlyEncodedImages
        } else if i == 21 {
            Metric::MinimizeMainThreadWork
        } else if i == 22 {
            Metric::MinimizeRenderBlockingStylesheets
        } else {
            Metric::AvoidLargeLayoutShifts
        }
    }

    /// The unit of the indicator.
    pub open spec fn spec_unit(self) -> UnitClass {
        match self {
            Metric::FirstContentfulPaint => UnitClass::Time,
            Metric::LargestContentfulPaint => UnitClass::Time,
            Metric::TimeToInteractive => UnitClass::Time,
            Metric::TotalBlockingTime => UnitClass::Time,
            Metric::CumulativeLayoutShift => UnitClass::Count,
            Metric::SpeedIndex => UnitClass::Time,
            Metric::PerformanceScore => UnitClass::Score,
            Metric::FirstMeaningfulPaint => UnitClass::Time,
            Metric::FirstCpuIdle => UnitClass::Time,
            Metric::MaxPotentialFid => UnitClass::Time,
            Metric::EstimatedInputLatency => UnitClass::Time,
            Metric::ServerResponseTime => UnitClass::Time,
            Metric::JavascriptBootupTime => UnitClass::Time,
            Metric::TotalByteWeight => UnitClass::Size,
            Metric::RenderBlockingResources => UnitClass::Count,
            Metric::UnusedJavascript => UnitClass::Size,
            Metric::UnusedCss => UnitClass::Size,
            Metric::DomSize => UnitClass::Count,
            Metric::PreconnectOrigins => UnitClass::Count,
            Metric::ProperlySizedImages => UnitClass::Size,
            Metric::EfficientlyEncodedImages => UnitClass::Size,
            Metric::MinimizeMainThreadWork => UnitClass::Time,
            Metric::MinimizeRenderBlockingStylesheets => UnitClass::Time,
            Metric::AvoidLargeLayoutShifts => UnitClass::Count,
        }
    }

    /// The id under which an audit document holds the indicator: the id of an
    /// audit, or for the performance score the id of its category.
    pub open spec fn spec_audit_id(self) -> Seq<char> {
        match self {
            Metric::FirstContentfulPaint => "first-contentful-paint"@,
            Metric::LargestContentfulPaint => "largest-contentful-paint"@,
            Metric::TimeToInteractive => "interactive"@,
            Metric::TotalBlockingTime => "total-blocking-time"@,
            Metric::CumulativeLayoutShift => "cumulative-layout-shift"@,
            Metric::SpeedIndex => "speed-index"@,
            Metric::PerformanceScore => "performance"@,
            Metric::FirstMeaningfulPaint => "first-meaningful-paint"@,
            Metric::FirstCpuIdle => "first-cpu-idle"@,
            Metric::MaxPotentialFid => "max-potential-fid"@,
            Metric::EstimatedInputLatency => "estimated-input-latency"@,
            Metric::ServerResponseTime => "server-response-time"@,
            Metric::JavascriptBootupTime => "bootup-time"@,
            Metric::TotalByteWeight => "total-byte-weight"@,
            Metric::RenderBlockingResources => "render-blocking-resources"@,
            Metric::UnusedJavascript => "unused-javascript"@,
            Metric::UnusedCss => "unused-css"@,
            Metric::DomSize => "dom-size"@,
            Metric::PreconnectOrigins => "preconnect-to-required-origins"@,
            Metric::ProperlySizedImages => "uses-responsive-images"@,
            Metric::EfficientlyEncodedImages => "uses-optimized-images"@,
            Metric::MinimizeMainThreadWork => "mainthread-work-breakdown"@,
            Metric::MinimizeRenderBlockingStylesheets => "uses-rel-preload"@,
            Metric::AvoidLargeLayoutShifts => "layout-shift-elements"@,
        }
    }

    /// The name of the indicator's field in a stored record.
    pub open spec fn spec_name(self) -> Seq<char> {
        match self {
            Metric::FirstContentfulPaint => "first_contentful_paint"@,
            Metric::LargestContentfulPaint => "largest_contentful_paint"@,
            Metric::TimeToInteractive => "time_to_interactive"@,
            Metric::TotalBlockingTime => "total_blocking_time"@,
            Metric::CumulativeLayoutShift => "cumulative_layout_shift"@,
            Metric::SpeedIndex => "speed_index"@,
            Metric::PerformanceScore => "performance_score"@,
            Metric::FirstMeaningfulPaint => "first_meaningful_paint"@,
            Metric::FirstCpuIdle => "first_cpu_idle"@,
            Metric::MaxPotentialFid => "max_potential_fid"@,
            Metric::EstimatedInputLatency => "estimated_input_latency"@,
            Metric::ServerResponseTime => "server_response_time"@,
            Metric::JavascriptBootupTime => "javascript_bootup_time"@,
            Metric::TotalByteWeight => "total_byte_weight"@,
            Metric::RenderBlockingResources => "render_blocking_resources"@,
            Metric::UnusedJavascript => "unused_javascript"@,
            Metric::UnusedCss => "unused_css"@,
            Metric::DomSize => "dom_size"@,
            Metric::PreconnectOrigins => "preconnect_origins"@,
            Metric::ProperlySizedImages => "properly_sized_images"@,
            Metric::EfficientlyEncodedImages => "efficiently_encoded_images"@,
            Metric::MinimizeMainThreadWork => "minimize_main_thread_work"@,
            Metric::MinimizeRenderBlockingStylesheets => "minimize_render_blocking_stylesheets"@,
            Metric::AvoidLargeLayoutShifts => "avoid_large_layout_shifts"@,
        }
    }

    /// The place of the indicator in the table, from 0.
    pub fn ordinal(self) -> (r: usize)
        ensures
            r == self.index(),
            r < METRIC_COUNT,
    {
        match self {
            Metric::FirstContentfulPaint => 0,
            Metric::LargestContentfulPaint => 1,
            Metric::TimeToInteractive => 2,
            Metric::TotalBlockingTime => 3,
            Metric::CumulativeLayoutShift => 4,
            Metric::SpeedIndex => 5,
            Metric::PerformanceScore => 6,
            Metric::FirstMeaningfulPaint => 7,
            Metric::FirstCpuIdle => 8,
            Metric::MaxPotentialFid => 9,
            Metric::EstimatedInputLatency => 10,
            Metric::ServerResponseTime => 11,
            Metric::JavascriptBootupTime => 12,
            Metric::TotalByteWeight => 13,
            Metric::RenderBlockingResources => 14,
            Metric::UnusedJavascript => 15,
            Metric::UnusedCss => 16,
            Metric::DomSize => 17,
            Metric::PreconnectOrigins => 18,
            Metric::ProperlySizedImages => 19,
            Metric::EfficientlyEncodedImages => 20,
            Metric::MinimizeMainThreadWork => 21,
            Metric::MinimizeRenderBlockingStylesheets => 22,
            Metric::AvoidLargeLayoutShifts => 23,
        }
    }

    /// The indicator at place `i` of the table, if the table is that long.
    pub fn from_ordinal(i: usize) -> (r: Option<Metric>)
        ensures
            i < METRIC_COUNT ==> r == Some(Metric::at(i as int)),
            i >= METRIC_COUNT ==> r is None,
    {
        match i {
            0 => Some(Metric::FirstContentfulPaint),
            1 => Some(Metric::LargestContentfulPaint),
            2 => Some(Metric::TimeToInteractive),
            3 => Some(Metric::TotalBlockingTime),
            4 => Some(Metric::CumulativeLayoutShift),
            5 => Some(Metric::SpeedIndex),
            6 => Some(Metric::PerformanceScore),
            7 => Some(Metric::FirstMeaningfulPaint),
            8 => Some(Metric::FirstCpuIdle),
            9 => Some(Metric::MaxPotentialFid),
            10 => Some(Metric::EstimatedInputLatency),
            11 => Some(Metric::ServerResponseTime),
            12 => Some(Metric::JavascriptBootupTime),
            13 => Some(Metric::TotalByteWeight),
            14 => Some(Metric::RenderBlockingResources),
            15 => Some(Metric::UnusedJavascript),
            16 => Some(Metric::UnusedCss),
            17 => Some(Metric::DomSize),
            18 => Some(Metric::PreconnectOrigins),
            19 => Some(Metric::ProperlySizedImages),
            20 => Some(Metric::EfficientlyEncodedImages),
            21 => Some(Metric::MinimizeMainThreadWork),
            22 => Some(Metric::MinimizeRenderBlockingStylesheets),
            23 => Some(Metric::AvoidLargeLayoutShifts),
            _ => None,
        }
    }

    /// The unit of the indicator.
    #[verifier::when_used_as_spec(spec_unit)]
    pub fn unit(self) -> (r: UnitClass)
        ensures
            r == self.spec_unit(),
    {
        match self {
            Metric::FirstContentfulPaint => UnitClass::Time,
            Metric::LargestContentfulPaint => UnitClass::Time,
            Metric::TimeToInteractive => UnitClass::Time,
            Metric::TotalBlockingTime => UnitClass::Time,
            Metric::CumulativeLayoutShift => UnitClass::Count,
            Metric::SpeedIndex => UnitClass::Time,
            Metric::PerformanceScore => UnitClass::Score,
            Metric::FirstMeaningfulPaint => UnitClass::Time,
            Metric::FirstCpuIdle => UnitClass::Time,
            Metric::MaxPotentialFid => UnitClass::Time,
            Metric::EstimatedInputLatency => UnitClass::Time,
            Metric::ServerResponseTime => UnitClass::Time,
            Metric::JavascriptBootupTime => UnitClass::Time,
            Metric::TotalByteWeight => UnitClass::Size,
            Metric::RenderBlockingResources => UnitClass::Count,
            Metric::UnusedJavascript => UnitClass::Size,
            Metric::UnusedCss => UnitClass::Size,
            Metric::DomSize => UnitClass::Count,
            Metric::PreconnectOrigins => UnitClass::Count,
            Metric::ProperlySizedImages => UnitClass::Size,
            Metric::EfficientlyEncodedImages => UnitClass::Size,
            Metric::MinimizeMainThreadWork => UnitClass::Time,
            Metric::MinimizeRenderBlockingStylesheets => UnitClass::Time,
            Metric::AvoidLargeLayoutShifts => UnitClass::Count,
        }
    }

    /// The id under which an audit document holds the indicator.
    pub fn audit_id(self) -> (r: &'static str)
        ensures
            r@ == self.spec_audit_id(),
    {
        match self {
            Metric::FirstContentfulPaint => "first-contentful-paint",
            Metric::LargestContentfulPaint => "largest-contentful-paint",
            Metric::TimeToInteractive => "interactive",
            Metric::TotalBlockingTime => "total-blocking-time",
            Metric::CumulativeLayoutShift => "cumulative-layout-shift",
            Metric::SpeedIndex => "speed-index",
            Metric::PerformanceScore => "performance",
            Metric::FirstMeaningfulPaint => "first-meaningful-paint",
            Metric::FirstCpuIdle => "first-cpu-idle",
            Metric::MaxPotentialFid => "max-potential-fid",
            Metric::EstimatedInputLatency => "estimated-input-latency",
            Metric::ServerResponseTime => "server-response-time",
            Metric::JavascriptBootupTime => "bootup-time",
            Metric::TotalByteWeight => "total-byte-weight",
            Metric::RenderBlockingResources => "render-blocking-resources",
            Metric::UnusedJavascript => "unused-javascript",
            Metric::UnusedCss => "unused-css",
            Metric::DomSize => "dom-size",
            Metric::PreconnectOrigins => "preconnect-to-required-origins",
            Metric::ProperlySizedImages => "uses-responsive-images",
            Metric::EfficientlyEncodedImages => "uses-optimized-images",
            Metric::MinimizeMainThreadWork => "mainthread-work-breakdown",
            Metric::MinimizeRenderBlockingStylesheets => "uses-rel-preload",
            Metric::AvoidLargeLayoutShifts => "layout-shift-elements",
        }
    }

    /// The name of the indicator's field in a stored record.
    pub fn name(self) -> (r: &'static str)
        ensures
            r@ == self.spec_name(),
    {
        match self {
            Metric::FirstContentfulPaint => "first_contentful_paint",
            Metric::LargestContentfulPaint => "largest_contentful_paint",
            Metric::TimeToInteractive => "time_to_interactive",
            Metric::TotalBlockingTime => "total_blocking_time",
            Metric::CumulativeLayoutShift => "cumulative_layout_shift",
            Metric::SpeedIndex => "speed_index",
            Metric::PerformanceScore => "performance_score",
            Metric::FirstMeaningfulPaint => "first_meaningful_paint",
            Metric::FirstCpuIdle => "first_cpu_idle",
            Metric::MaxPotentialFid => "max_potential_fid",
            Metric::EstimatedInputLatency => "estimated_input_latency",
            Metric::ServerResponseTime => "server_response_time",
            Metric::JavascriptBootupTime => "javascript_bootup_time",
            Metric::TotalByteWeight => "total_byte_weight",
            Metric::RenderBlockingResources => "render_blocking_resources",
            Metric::UnusedJavascript => "unused_javascript",
            Metric::UnusedCss => "unused_css",
            Metric::DomSize => "dom_size",
            Metric::PreconnectOrigins => "preconnect_origins",
            Metric::ProperlySizedImages => "properly_sized_images",
            Metric::EfficientlyEncodedImages => "efficiently_encoded_images",
            Metric::MinimizeMainThreadWork => "minimize_main_thread_work",
            Metric::MinimizeRenderBlockingStylesheets => "minimize_render_blocking_stylesheets",
            Metric::AvoidLargeLayoutShifts => "avoid_large_layout_shifts",
        }
    }

    /// No two indicators are read from the same id.
    pub proof fn lemma_audit_ids_differ(a: Metric, b: Metric)
        requires
            a != b,
        ensures
            a.spec_audit_id() != b.spec_audit_id(),
    {
        reveal_strlit("first-contentful-paint");
        reveal_strlit("largest-contentful-paint");
        reveal_strlit("interactive");
        reveal_strlit("total-blocking-time");
        reveal_strlit("cumulative-layout-shift");
        reveal_strlit("speed-index");
        reveal_strlit("performance");
        reveal_strlit("first-meaningful-paint");
        reveal_strlit("first-cpu-idle");
        reveal_strlit("max-potential-fid");
        reveal_strlit("estimated-input-latency");
        reveal_strlit("server-response-time");
        reveal_strlit("bootup-time");
        reveal_strlit("total-byte-weight");
        reveal_strlit("render-blocking-resources");
        reveal_strlit("unused-javascript");
        reveal_strlit("unused-css");
        reveal_strlit("dom-size");
        reveal_strlit("preconnect-to-required-origins");
        reveal_strlit("uses-responsive-images");
        reveal_strlit("uses-optimized-images");
        reveal_strlit("mainthread-work-breakdown");
        reveal_strlit("uses-rel-preload");
        reveal_strlit("layout-shift-elements");
        let x = a.spec_audit_id();
        let y = b.spec_audit_id();
        if x.len() == y.len() {
            assert(x[0] != y[0] || x[6] != y[6]);
        }
    }

    /// No two indicators are stored under the same name.
    pub proof fn lemma_names_differ(a: Metric, b: Metric)
        requires
            a != b,
        ensures
            a.spec_name() != b.spec_name(),
    {
        reveal_strlit("first_contentful_paint");
        reveal_strlit("largest_contentful_paint");
        reveal_strlit("time_to_interactive");
        reveal_strlit("total_blocking_time");
        reveal_strlit("cumulative_layout_shift");
        reveal_strlit("speed_index");
        reveal_strlit("performance_score");
        reveal_strlit("first_meaningful_paint");
        reveal_strlit("first_cpu_idle");
        reveal_strlit("max_potential_fid");
        reveal_strlit("estimated_input_latency");
        reveal_strlit("server_response_time");
        reveal_strlit("javascript_bootup_time");
        reveal_strlit("total_byte_weight");
        reveal_strlit("render_blocking_resources");
        reveal_strlit("unused_javascript");
        reveal_strlit("unused_css");
        reveal_strlit("dom_size");
        reveal_strlit("preconnect_origins");
        reveal_strlit("properly_sized_images");
        reveal_strlit("efficiently_encoded_images");
        reveal_strlit("minimize_main_thread_work");
        reveal_strlit("minimize_render_blocking_stylesheets");
        reveal_strlit("avoid_large_layout_shifts");
        let x = a.spec_name();
        let y = b.spec_name();
        if x.len() == y.len() {
            assert(x[7] != y[7]);
        }
    }

    /// Places and indicators correspond one to one.
    pub proof fn lemma_index_at(self)
        ensures
            0 <= self.index() < METRIC_COUNT,
            Metric::at(self.index()) == self,
    {
    }

    /// Every place below the table's length is the place of its indicator.
    pub proof fn lemma_at_index(i: int)
        requires
            0 <= i < METRIC_COUNT,
        ensures
            Metric::at(i).index() == i,
    {
    }
}

} // verus!
