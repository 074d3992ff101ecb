//! Startup bookkeeping: the timing metrics of the startup phases and the
//! lazy-initialization flag for deferred components. Measuring the times
//! is the caller's work; the report text is built here.

use vstd::prelude::*;

use crate::strfmt::{push_char, spec_dec, u128_to_string};

verus! {

/// Timing of the startup phases, in milliseconds.
#[derive(Debug, Clone, Copy, PartialEq, Eq, Structural)]
pub struct StartupMetrics {
    pub total_time_ms: u128,
    pub config_load_ms: u128,
    pub window_create_ms: u128,
    pub gpu_init_ms: u128,
    pub data_fetch_ms: u128,
}

/// The text right-aligned to the width with spaces, unchanged when already
/// as wide.
pub open spec fn spec_padded(s: Seq<char>, width: int) -> Seq<char>
    decreases width - s.len(),
{
    if s.len() >= width {
        s
    } else {
        spec_padded(seq![' '] + s, width)
    }
}

/// Right-align the text to the width with spaces.
fn pad_left(s: String, width: usize) -> (r: String)
    ensures
        r@ == spec_padded(s@, width as int),
    decreases width - s@.len(),
{
    if s.unicode_len() >= width {
        s
    } else {
        let mut t = String::new();
        push_char(&mut t, ' ');
        t.append(s.as_str());
        proof {
            assert(t@ =~= seq![' '] + s@);
        }
        pad_left(t, width)
    }
}

/// One metric line of the report: the label, the value right-aligned to
/// six columns, and the tail of the frame.
pub open spec fn spec_metric_line(label: Seq<char>, value: nat, tail: Seq<char>) -> Seq<char> {
    label + spec_padded(spec_dec(value), 6) + tail
}

/// Build one metric line of the report.
fn metric_line(label: &str, value: u128, tail: &str) -> (r: String)
    ensures
        r@ == spec_metric_line(label@, value as nat, tail@),
{
    let mut r = label.to_owned();
    r.append(pad_left(u128_to_string(value), 6).as_str());
    r.append(tail);
    proof {
        assert(r@ =~= spec_metric_line(label@, value as nat, tail@));
    }
    r
}

impl StartupMetrics {
    /// The startup performance report, line by line, ready for the log.
    pub fn log_summary(&self) -> (r: Vec<String>)
        ensures
            r@.len() == 9,
            r@[0]@ == "\u{2554}\u{2550}\u{2550} STARTUP PERFORMANCE REPORT"@,
            r@[1]@ == spec_metric_line(
                "\u{2551} Config Load:        "@,
                self.config_load_ms as nat,
                "ms \u{2551}"@,
            ),
            r@[2]@ == spec_metric_line(
                "\u{2551} Window Creation:    "@,
                self.window_create_ms as nat,
                "ms \u{2551}"@,
            ),
            r@[3]@ == spec_metric_line(
                "\u{2551} GPU Initialization: "@,
                self.gpu_init_ms as nat,
                "ms \u{2551}"@,
            ),
            r@[4]@ == spec_metric_line(
                "\u{2551} Data Fetch:         "@,
                self.data_fetch_ms as nat,
                "ms (async) \u{2551}"@,
            ),
            r@[5]@ == "\u{2560}\u{2550}\u{2550}"@,
            r@[6]@ == spec_metric_line(
                "\u{2551} TOTAL TIME:         "@,
                self.total_time_ms as nat,
                "ms \u{2551}"@,
            ),
            r@[7]@ == "\u{255a}\u{2550}\u{2550}"@,
            r@[8]@ == ""@,
    {
        let mut r: Vec<String> = Vec::new();
        r.push("\u{2554}\u{2550}\u{2550} STARTUP PERFORMANCE REPORT".to_owned());
        r.push(metric_line("\u{2551} Config Load:        ", self.config_load_ms, "ms \u{2551}"));
        r.push(
            metric_line("\u{2551} Window Creation:    ", self.window_create_ms, "ms \u{2551}"),
        );
        r.push(metric_line("\u{2551} GPU Initialization: ", self.gpu_init_ms, "ms \u{2551}"));
        r.push(
            metric_line("\u{2551} Data Fetch:         ", self.data_fetch_ms, "ms (async) \u{2551}"),
        );
        r.push("\u{2560}\u{2550}\u{2550}".to_owned());
        r.push(metric_line("\u{2551} TOTAL TIME:         ", self.total_time_ms, "ms \u{2551}"));
        r.push("\u{255a}\u{2550}\u{2550}".to_owned());
        r.push("".to_owned());
        r
    }
}

/// Lazy initialization flag for a deferred component. The single event
/// loop both reads and sets it.
#[derive(Debug)]
pub struct LazyInitializer {
    pub initialized: bool,
}

impl LazyInitializer {
    /// A not-yet-initialized component.
    pub fn new() -> (r: Self)
        ensures
            !r.initialized,
    {
        LazyInitializer { initialized: false }
    }

    /// Whether the component has been initialized.
    pub fn is_initialized(&self) -> (r: bool)
        ensures
            r == self.initialized,
    {
        self.initialized
    }

    /// Mark the component initialized.
    pub fn mark_initialized(&mut self)
        ensures
            final(self).initialized,
    {
        self.initialized = true;
    }
}

impl Default for LazyInitializer {
    /// A not-yet-initialized component.
    fn default() -> (r: Self)
        ensures
            !r.initialized,
    {
        LazyInitializer::new()
    }
}

} // verus!
