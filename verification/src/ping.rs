//! The network probe: from the text that the platform's `ping` tool printed to
//! round-trip-time samples, a loss percentage and summary statistics.
//!
//! The caller runs the tool, with the arguments that `ping_arguments` gives,
//! and hands its output to `run_ping`. The output is searched with two regular
//! expressions, which the `regex` crate compiles and applies.

use crate::fixed::{decimal_units, is_decimal, saturate, Fixed};
use crate::text::{chars_of, decimal_digits, render_u64, string_of};
use vstd::prelude::*;

verus! {

/// The smallest number of probes of one measurement.
pub const MIN_COUNT: u32 = 1;

/// The largest number of probes of one measurement.
pub const MAX_COUNT: u32 = 20;

/// Matches one reported round-trip time; group 1 is the number of milliseconds.
pub const TIME_PATTERN: &'static str = r"time[=<]([0-9]+(?:\.[0-9]+)?)\s*ms";

/// Matches the reported packet loss; group 1 is the percentage.
pub const LOSS_PATTERN: &'static str = r"([0-9]+)%\s*(?:loss|packet loss)";

/// Makes `regex::Error` known, so that a failed compilation can be handed on.
#[verifier::external_type_specification]
#[verifier::external_body]
pub struct ExRegexError(regex::Error);

/// Whether `regex::Regex::new` accepts `pattern`.
pub uninterp spec fn pattern_compiles(pattern: Seq<char>) -> bool;

/// For a pattern that compiles: the matches that `Regex::captures_iter` finds
/// in `text`, in the order in which it yields them, each given by the text of
/// its capture group 1, or `None` where that group took no part in the match.
pub uninterp spec fn captured_all(pattern: Seq<char>, text: Seq<char>) -> Seq<Option<Seq<char>>>;

/// For a pattern that compiles: the match that `Regex::captures` finds in
/// `text`, given by the text of its capture group 1 (`Some(None)` where that
/// group took no part in the match), or `None` where nothing matches.
pub uninterp spec fn captured_first(pattern: Seq<char>, text: Seq<char>) -> Option<
    Option<Seq<char>>,
>;

/// Compiles `pattern` with `regex::Regex::new` and runs `Regex::captures_iter`
/// over `text`. An error of the compilation is handed on; otherwise the result
/// holds, for each match in turn, the text of capture group 1 as
/// `Captures::get(1)` gives it.
#[verifier::external_body]
fn capture_all(pattern: &str, text: &str) -> (r: Result<Vec<Option<String>>, regex::Error>)
    ensures
        r is Ok <==> pattern_compiles(pattern@),
        r matches Ok(v) ==> v.deep_view() == captured_all(pattern@, text@),
{
    let re = regex::Regex::new(pattern)?;
    Ok(re.captures_iter(text).map(|c| c.get(1).map(|m| m.as_str().to_string())).collect())
}

/// Compiles `pattern` with `regex::Regex::new` and runs `Regex::captures` on
/// `text`. An error of the compilation is handed on; otherwise the result holds
/// the text of capture group 1 of the match, as `Captures::get(1)` gives it, or
/// `None` where nothing matches.
#[verifier::external_body]
fn capture_first(pattern: &str, text: &str) -> (r: Result<Option<Option<String>>, regex::Error>)
    ensures
        r is Ok <==> pattern_compiles(pattern@),
        r matches Ok(v) ==> v.deep_view() == captured_first(pattern@, text@),
{
    let re = regex::Regex::new(pattern)?;
    Ok(re.captures(text).map(|c| c.get(1).map(|m| m.as_str().to_string())))
}

/// Why a measurement gave no result.
#[derive(Clone, Copy, Debug, PartialEq, Eq, Structural)]
pub enum ProbeError {
    /// The measurement tool could not be run, so there is no output to read.
    Spawn,
    /// A search pattern was rejected when it was compiled.
    Pattern,
}

/// The outcome of one measurement.
#[derive(Clone, Debug, PartialEq, Eq)]
pub struct PingResult {
    /// The host that was probed.
    pub target: String,
    /// The smallest round-trip time, in milliseconds.
    pub min_ms: Option<Fixed>,
    /// The largest round-trip time, in milliseconds.
    pub max_ms: Option<Fixed>,
    /// The mean round-trip time, in milliseconds.
    pub avg_ms: Option<Fixed>,
    /// The mean distance between successive round-trip times, in milliseconds.
    pub jitter_ms: Option<Fixed>,
    /// The share of probes that were lost, as a percentage.
    pub loss_pct: Option<Fixed>,
    /// The round-trip times in the order in which they were reported.
    pub samples: Vec<Fixed>,
}

/// The number of probes that is asked for when `count` is requested.
pub open spec fn clamped_count(count: u32) -> u32 {
    if count < MIN_COUNT {
        MIN_COUNT
    } else if count > MAX_COUNT {
        MAX_COUNT
    } else {
        count
    }
}

/// The number that a captured text stands for, if it is a decimal number.
pub open spec fn number_of(capture: Option<Seq<char>>) -> Option<Fixed> {
    match capture {
        Some(t) => if is_decimal(t) {
            Some(Fixed { units: saturate(decimal_units(t)) })
        } else {
            None
        },
        None => None,
    }
}

/// The samples that a run of captures stands for: the number of each capture
/// that is one, in the same order.
pub open spec fn samples_of(captures: Seq<Option<Seq<char>>>) -> Seq<Fixed>
    decreases captures.len(),
{
    if captures.len() == 0 {
        Seq::empty()
    } else {
        match number_of(captures.last()) {
            Some(x) => samples_of(captures.drop_last()).push(x),
            None => samples_of(captures.drop_last()),
        }
    }
}

/// The loss that the first match of the loss pattern stands for; unknown where
/// nothing matched.
pub open spec fn loss_of(capture: Option<Option<Seq<char>>>) -> Option<Fixed> {
    match capture {
        Some(group) => number_of(group),
        None => None,
    }
}

/// The round-trip times that `stdout` reports, where the time pattern compiles.
pub open spec fn reported_samples(stdout: Seq<char>) -> Seq<Fixed> {
    samples_of(captured_all(TIME_PATTERN@, stdout))
}

/// The packet loss that `stdout` reports; unknown where it reports none.
pub open spec fn reported_loss(stdout: Seq<char>) -> Option<Fixed> {
    if pattern_compiles(LOSS_PATTERN@) {
        loss_of(captured_first(LOSS_PATTERN@, stdout))
    } else {
        None
    }
}

/// The smallest of the samples; absent where there is none.
pub open spec fn minimum_of(s: Seq<Fixed>) -> Option<Fixed>
    decreases s.len(),
{
    if s.len() == 0 {
        None
    } else {
        match minimum_of(s.drop_last()) {
            Some(m) => if s.last().units < m.units {
                Some(s.last())
            } else {
                Some(m)
            },
            None => Some(s.last()),
        }
    }
}

/// The largest of the samples; absent where there is none.
pub open spec fn maximum_of(s: Seq<Fixed>) -> Option<Fixed>
    decreases s.len(),
{
    if s.len() == 0 {
        None
    } else {
        match maximum_of(s.drop_last()) {
            Some(m) => if s.last().units > m.units {
                Some(s.last())
            } else {
                Some(m)
            },
            None => Some(s.last()),
        }
    }
}

/// The sum of the samples, in units.
pub open spec fn total_units(s: Seq<Fixed>) -> nat
    decreases s.len(),
{
    if s.len() == 0 {
        0
    } else {
        total_units(s.drop_last()) + s.last().units as nat
    }
}

/// The arithmetic mean of the samples, rounded down to a unit; absent where
/// there is none.
pub open spec fn mean_of(s: Seq<Fixed>) -> Option<Fixed> {
    if s.len() == 0 {
        None
    } else {
        Some(Fixed { units: (total_units(s) / s.len()) as u64 })
    }
}

/// The distance between two samples, in units.
pub open spec fn distance(a: Fixed, b: Fixed) -> nat {
    if a.units >= b.units {
        (a.units - b.units) as nat
    } else {
        (b.units - a.units) as nat
    }
}

/// The sum of the distances between successive samples, in units.
pub open spec fn variation(s: Seq<Fixed>) -> nat
    decreases s.len(),
{
    if s.len() < 2 {
        0
    } else {
        variation(s.drop_last()) + distance(s[s.len() - 1], s[s.len() - 2])
    }
}

/// The mean distance between successive samples, rounded down to a unit;
/// absent for fewer than two samples.
pub open spec fn jitter_of(s: Seq<Fixed>) -> Option<Fixed> {
    if s.len() < 2 {
        None
    } else {
        Some(Fixed { units: (variation(s) / ((s.len() - 1) as nat)) as u64 })
    }
}

/// The minimum is one of the samples and no sample lies below it; the maximum
/// is one of the samples and no sample lies above it.
pub proof fn lemma_extrema(s: Seq<Fixed>)
    requires
        s.len() > 0,
    ensures
        minimum_of(s) is Some,
        maximum_of(s) is Some,
        s.contains(minimum_of(s)->0),
        s.contains(maximum_of(s)->0),
        forall|i: int| 0 <= i < s.len() ==> minimum_of(s)->0.units <= (#[trigger] s[i]).units,
        forall|i: int| 0 <= i < s.len() ==> (#[trigger] s[i]).units <= maximum_of(s)->0.units,
    decreases s.len(),
{
    let init = s.drop_last();
    if init.len() > 0 {
        lemma_extrema(init);
        let lo = minimum_of(init)->0;
        let hi = maximum_of(init)->0;
        let i_lo = choose|i: int| 0 <= i < init.len() && init[i] == lo;
        let i_hi = choose|i: int| 0 <= i < init.len() && init[i] == hi;
        assert forall|i: int| 0 <= i < s.len() implies minimum_of(s)->0.units <= (#[trigger] s[i]).units by {
            if i < init.len() {
                assert(init[i] == s[i]);
            }
        }
        assert forall|i: int| 0 <= i < s.len() implies (#[trigger] s[i]).units <= maximum_of(s)->0.units by {
            if i < init.len() {
                assert(init[i] == s[i]);
            }
        }
    }
}

/// Which statistics exist depends on the number of samples alone: minimum,
/// maximum and mean are absent exactly where there is no sample, the jitter
/// exactly where there are fewer than two. So output without any round-trip
/// time has none of the four.
pub proof fn lemma_statistics_need_samples(s: Seq<Fixed>)
    ensures
        minimum_of(s) is None <==> s.len() == 0,
        maximum_of(s) is None <==> s.len() == 0,
        mean_of(s) is None <==> s.len() == 0,
        jitter_of(s) is None <==> s.len() < 2,
{
}

/// Output in which the time pattern matches nothing gives no samples, and
/// with them no minimum, maximum, mean or jitter.
pub proof fn lemma_output_without_times(captures: Seq<Option<Seq<char>>>)
    requires
        captures.len() == 0,
    ensures
        samples_of(captures) == Seq::<Fixed>::empty(),
        minimum_of(samples_of(captures)) is None,
        maximum_of(samples_of(captures)) is None,
        mean_of(samples_of(captures)) is None,
        jitter_of(samples_of(captures)) is None,
{
}

/// The mean lies between the minimum and the maximum.
pub proof fn lemma_mean_between_extrema(s: Seq<Fixed>)
    requires
        s.len() > 0,
    ensures
        minimum_of(s)->0.units <= mean_of(s)->0.units <= maximum_of(s)->0.units,
{
    lemma_extrema(s);
    lemma_total_between(s, minimum_of(s)->0.units as nat, maximum_of(s)->0.units as nat);
    let n = s.len();
    let t = total_units(s);
    let lo = minimum_of(s)->0.units as nat;
    let hi = maximum_of(s)->0.units as nat;
    assert(lo <= t / n <= hi) by (nonlinear_arith)
        requires
            n > 0,
            n * lo <= t <= n * hi,
    ;
}

/// A sum of samples that all lie between `lo` and `hi` lies between the
/// length times `lo` and the length times `hi`.
proof fn lemma_total_between(s: Seq<Fixed>, lo: nat, hi: nat)
    requires
        forall|i: int| 0 <= i < s.len() ==> lo <= (#[trigger] s[i]).units <= hi,
    ensures
        s.len() * lo <= total_units(s) <= s.len() * hi,
    decreases s.len(),
{
    if s.len() > 0 {
        let init = s.drop_last();
        assert forall|i: int| 0 <= i < init.len() implies lo <= (#[trigger] init[i]).units <= hi by {
            assert(init[i] == s[i]);
        }
        lemma_total_between(init, lo, hi);
        assert(s.len() * lo == init.len() * lo + lo) by (nonlinear_arith)
            requires
                s.len() == init.len() + 1,
        ;
        assert(s.len() * hi == init.len() * hi + hi) by (nonlinear_arith)
            requires
                s.len() == init.len() + 1,
        ;
    } else {
        assert(s.len() * lo == 0) by (nonlinear_arith)
            requires
                s.len() == 0,
        ;
        assert(s.len() * hi == 0) by (nonlinear_arith)
            requires
                s.len() == 0,
        ;
    }
}

/// Brings a requested number of probes into `MIN_COUNT..=MAX_COUNT`.
pub fn clamp_count(count: u32) -> (r: u32)
    ensures
        r == clamped_count(count),
        MIN_COUNT <= r <= MAX_COUNT,
{
    if count < MIN_COUNT {
        MIN_COUNT
    } else if count > MAX_COUNT {
        MAX_COUNT
    } else {
        count
    }
}

/// The arguments for the platform's `ping` tool: the flag that sets the number
/// of probes (`-n` on Windows, `-c` elsewhere), the clamped number, the target.
pub fn ping_arguments(target: &str, count: u32, windows: bool) -> (args: Vec<String>)
    ensures
        args@.len() == 3,
        args@[0]@ == (if windows {
            "-n"@
        } else {
            "-c"@
        }),
        args@[1]@ == decimal_digits(clamped_count(count) as nat),
        args@[2]@ == target@,
{
    let flag: &str = if windows {
        "-n"
    } else {
        "-c"
    };
    let mut args: Vec<String> = Vec::new();
    args.push(flag.to_owned());
    args.push(string_of(render_u64(clamp_count(count) as u64)));
    args.push(target.to_owned());
    args
}

/// The number that one captured text stands for.
pub fn number_from_capture(capture: &Option<String>) -> (r: Option<Fixed>)
    ensures
        r == number_of(capture.deep_view()),
{
    match capture {
        Some(text) => {
            let chars = chars_of(text.as_str());
            Fixed::parse(&chars)
        },
        None => None,
    }
}

/// The samples that the matches of the time pattern stand for.
pub fn samples_from_captures(captures: &Vec<Option<String>>) -> (samples: Vec<Fixed>)
    ensures
        samples@ == samples_of(captures.deep_view()),
{
    let ghost all = captures.deep_view();
    let mut samples: Vec<Fixed> = Vec::new();
    let mut i: usize = 0;
    while i < captures.len()
        invariant
            i <= captures.len(),
            all == captures.deep_view(),
            samples@ == samples_of(all.take(i as int)),
        decreases captures.len() - i,
    {
        assert(all.take(i + 1).drop_last() =~= all.take(i as int));
        match number_from_capture(&captures[i]) {
            Some(x) => {
                samples.push(x);
            },
            None => {},
        }
        i += 1;
    }
    assert(all.take(i as int) =~= all);
    samples
}

/// The loss that the first match of the loss pattern stands for.
pub fn loss_from_capture(capture: &Option<Option<String>>) -> (r: Option<Fixed>)
    ensures
        r == loss_of(capture.deep_view()),
{
    match capture {
        Some(group) => number_from_capture(group),
        None => None,
    }
}

/// Every round-trip time that `stdout` reports, in the order of the reports.
/// Both `time=23.4 ms` and `time<1ms` count.
pub fn parse_ping_samples(stdout: &str) -> (r: Result<Vec<Fixed>, ProbeError>)
    ensures
        r is Ok <==> pattern_compiles(TIME_PATTERN@),
        r matches Ok(samples) ==> samples@ == reported_samples(stdout@),
        r matches Err(e) ==> e == ProbeError::Pattern,
{
    match capture_all(TIME_PATTERN, stdout) {
        Ok(captures) => Ok(samples_from_captures(&captures)),
        Err(_) => Err(ProbeError::Pattern),
    }
}

/// The packet loss that `stdout` reports, as a percentage; unknown where it
/// reports none.
pub fn parse_packet_loss(stdout: &str) -> (r: Option<Fixed>)
    ensures
        r == reported_loss(stdout@),
{
    match capture_first(LOSS_PATTERN, stdout) {
        Ok(capture) => loss_from_capture(&capture),
        Err(_) => None,
    }
}

/// The smallest and the largest sample.
pub fn extrema(samples: &Vec<Fixed>) -> (r: (Option<Fixed>, Option<Fixed>))
    ensures
        r.0 == minimum_of(samples@),
        r.1 == maximum_of(samples@),
{
    let mut lo: Option<Fixed> = None;
    let mut hi: Option<Fixed> = None;
    let mut i: usize = 0;
    while i < samples.len()
        invariant
            i <= samples.len(),
            lo == minimum_of(samples@.take(i as int)),
            hi == maximum_of(samples@.take(i as int)),
        decreases samples.len() - i,
    {
        assert(samples@.take(i + 1).drop_last() =~= samples@.take(i as int));
        let x = samples[i];
        lo = match lo {
            Some(m) => if x.units < m.units {
                Some(x)
            } else {
                Some(m)
            },
            None => Some(x),
        };
        hi = match hi {
            Some(m) => if x.units > m.units {
                Some(x)
            } else {
                Some(m)
            },
            None => Some(x),
        };
        i += 1;
    }
    assert(samples@.take(i as int) =~= samples@);
    (lo, hi)
}

/// The arithmetic mean of the samples.
pub fn mean(samples: &Vec<Fixed>) -> (r: Option<Fixed>)
    ensures
        r == mean_of(samples@),
{
    if samples.len() == 0 {
        return None;
    }
    let mut total: u128 = 0;
    let mut i: usize = 0;
    while i < samples.len()
        invariant
            i <= samples.len(),
            total == total_units(samples@.take(i as int)),
            total <= i * 0xffff_ffff_ffff_ffff,
        decreases samples.len() - i,
    {
        assert(samples@.take(i + 1).drop_last() =~= samples@.take(i as int));
        total = total + samples[i].units as u128;
        i += 1;
    }
    assert(samples@.take(i as int) =~= samples@);
    let n: u128 = samples.len() as u128;
    let q: u128 = total / n;
    assert(q <= 0xffff_ffff_ffff_ffff) by (nonlinear_arith)
        requires
            q == total / n,
            n > 0,
            total <= n * 0xffff_ffff_ffff_ffff,
    ;
    Some(Fixed { units: q as u64 })
}

/// The mean distance between successive samples.
pub fn jitter(samples: &Vec<Fixed>) -> (r: Option<Fixed>)
    ensures
        r == jitter_of(samples@),
{
    if samples.len() <= 1 {
        return None;
    }
    let mut diff_sum: u128 = 0;
    let mut i: usize = 1;
    while i < samples.len()
        invariant
            1 <= i <= samples.len(),
            diff_sum == variation(samples@.take(i as int)),
            diff_sum <= (i - 1) * 0xffff_ffff_ffff_ffff,
        decreases samples.len() - i,
    {
        assert(samples@.take(i + 1).drop_last() =~= samples@.take(i as int));
        let a = samples[i];
        let b = samples[i - 1];
        let d: u64 = if a.units >= b.units {
            a.units - b.units
        } else {
            b.units - a.units
        };
        diff_sum = diff_sum + d as u128;
        i += 1;
    }
    assert(samples@.take(i as int) =~= samples@);
    let steps: u128 = (samples.len() - 1) as u128;
    let q: u128 = diff_sum / steps;
    assert(q <= 0xffff_ffff_ffff_ffff) by (nonlinear_arith)
        requires
            q == diff_sum / steps,
            steps > 0,
            diff_sum <= steps * 0xffff_ffff_ffff_ffff,
    ;
    Some(Fixed { units: q as u64 })
}

/// The result of a measurement of `target` that gave `samples` and `loss`.
pub fn summarize(target: &str, samples: Vec<Fixed>, loss: Option<Fixed>) -> (r: PingResult)
    ensures
        r.target@ == target@,
        r.samples@ == samples@,
        r.loss_pct == loss,
        r.min_ms == minimum_of(samples@),
        r.max_ms == maximum_of(samples@),
        r.avg_ms == mean_of(samples@),
        r.jitter_ms == jitter_of(samples@),
{
    let bounds = extrema(&samples);
    let avg_ms = mean(&samples);
    let jitter_ms = jitter(&samples);
    PingResult {
        target: target.to_owned(),
        min_ms: bounds.0,
        max_ms: bounds.1,
        avg_ms,
        jitter_ms,
        loss_pct: loss,
        samples,
    }
}

/// Turns the outcome of running the measurement tool against `target` into a
/// result. `output` is what the tool printed, or `None` where it could not be
/// run. Output without any round-trip time and without a loss percentage is
/// still a success: the host may be dropping every probe.
pub fn run_ping(target: &str, output: Option<&str>) -> (r: Result<PingResult, ProbeError>)
    ensures
        r is Ok <==> output is Some && pattern_compiles(TIME_PATTERN@),
        output is None ==> r == Err::<PingResult, ProbeError>(ProbeError::Spawn),
        output is Some && !pattern_compiles(TIME_PATTERN@) ==> r == Err::<PingResult, ProbeError>(
            ProbeError::Pattern,
        ),
        r matches Ok(p) ==> {
            let samples = reported_samples(output->0@);
            &&& p.target@ == target@
            &&& p.samples@ == samples
            &&& p.min_ms == minimum_of(samples)
            &&& p.max_ms == maximum_of(samples)
            &&& p.avg_ms == mean_of(samples)
            &&& p.jitter_ms == jitter_of(samples)
            &&& p.loss_pct == reported_loss(output->0@)
        },
{
    match output {
        Some(stdout) => {
            match parse_ping_samples(stdout) {
                Ok(samples) => {
                    let loss = parse_packet_loss(stdout);
                    Ok(summarize(target, samples, loss))
                },
                Err(e) => Err(e),
            }
        },
        None => Err(ProbeError::Spawn),
    }
}

} // verus!
