//! The tuner's decisions: the search range around the measured baseline,
//! how often each measurement is sampled, and the edits of the hysteria2
//! config file (the socks5 port it listens on, the `up`/`down` bandwidth).

use vstd::prelude::*;
use crate::pattern::{capture_group, replace_first, regex_capture_group, regex_replace_first};
use crate::text::{parse_u16, parse_unsigned, decimal_digits, push_decimal};

verus! {

/// Which bandwidth is tuned.
#[derive(Clone, Copy, Debug, PartialEq, Eq, Structural)]
pub enum Direction {
    Up,
    Down,
}

/// How carefully a configuration is measured.
#[derive(Clone, Copy, Debug, PartialEq, Eq, Structural)]
pub enum SearchPhase {
    Coarse,
    Fine,
}

/// Why a config-file edit failed.
#[derive(Clone, Copy, Debug, PartialEq, Eq, Structural)]
pub enum TunerError {
    /// A search pattern did not compile.
    InvalidPattern,
}

/// The key (`up`/`down`) and the label (`上行`/`下行`) under which a
/// direction is logged.
pub fn direction_names(direction: Direction) -> (r: (&'static str, &'static str))
    ensures
        r.0@ == (match direction {
            Direction::Up => "up"@,
            Direction::Down => "down"@,
        }),
        r.1@ == (match direction {
            Direction::Up => "上行"@,
            Direction::Down => "下行"@,
        }),
{
    match direction {
        Direction::Up => ("up", "上行"),
        Direction::Down => ("down", "下行"),
    }
}

/// The number of rounds the golden-section search runs at most.
pub const MAX_SEARCH_ROUNDS: usize = 12;

/// The socks5 port used when the config file names none.
pub const DEFAULT_SOCKS_PORT: u16 = 1080;

// ---------------------------------------------------------------------------
// Search range

/// The interval searched and the accuracy the search stops at.
#[derive(Clone, Copy, Debug, PartialEq, Eq, Structural)]
pub struct SearchPlan {
    pub search_min: u32,
    pub search_max: u32,
    pub accuracy: u32,
}

/// At least `min_val` and at least half the baseline.
pub open spec fn plan_low(min_val: u32, baseline: u32) -> int {
    if min_val >= baseline / 2 {
        min_val as int
    } else {
        (baseline / 2) as int
    }
}

/// One and a half times the baseline, cut to 32 bits as `as u32` does.
pub open spec fn baseline_and_half(baseline: u32) -> int {
    ((baseline as int * 3) / 2) % 0x1_0000_0000
}

/// At most `max_val` and at most 1.5 times the baseline.
pub open spec fn plan_high(max_val: u32, baseline: u32) -> int {
    if max_val as int <= baseline_and_half(baseline) {
        max_val as int
    } else {
        baseline_and_half(baseline)
    }
}

/// The lower end of the searched interval: `[plan_low, plan_high]` when it
/// is at least twice the accuracy wide; otherwise a window twice the
/// accuracy wide starting at `plan_low`, moved down to end at `max_val`
/// when it would pass it and the configured range is wide enough.
pub open spec fn plan_min(min_val: u32, max_val: u32, target_accuracy: u32, baseline: u32) -> int {
    let low = plan_low(min_val, baseline);
    let width = 2 * target_accuracy;
    if plan_high(max_val, baseline) >= low + width || low + width <= max_val || min_val + width
        > max_val {
        low
    } else {
        max_val - width
    }
}

/// The upper end of the searched interval (see `plan_min`).
pub open spec fn plan_max(min_val: u32, max_val: u32, target_accuracy: u32, baseline: u32) -> int {
    let low = plan_low(min_val, baseline);
    let high = plan_high(max_val, baseline);
    let width = 2 * target_accuracy;
    if high >= low + width {
        high
    } else if low + width <= max_val || min_val + width > max_val {
        low + width
    } else {
        max_val as int
    }
}

/// The accuracy used: coarser on wide intervals.
pub open spec fn plan_accuracy(range: int, target_accuracy: u32) -> int {
    if range > 1000 {
        3 * target_accuracy
    } else if range > 500 {
        2 * target_accuracy
    } else {
        target_accuracy as int
    }
}

/// The planned interval and accuracy fit in `u32`.
pub open spec fn plan_fits(min_val: u32, max_val: u32, target_accuracy: u32, baseline: u32) -> bool {
    &&& plan_max(min_val, max_val, target_accuracy, baseline) <= u32::MAX
    &&& plan_accuracy(
        plan_max(min_val, max_val, target_accuracy, baseline) - plan_min(
            min_val,
            max_val,
            target_accuracy,
            baseline,
        ),
        target_accuracy,
    ) <= u32::MAX
}

/// The interval and the accuracy factor, computed in 64 bits.
fn plan_window(min_val: u32, max_val: u32, target_accuracy: u32, baseline: u32) -> (r: (
    u64,
    u64,
    u64,
))
    ensures
        r.0 == plan_min(min_val, max_val, target_accuracy, baseline),
        r.1 == plan_max(min_val, max_val, target_accuracy, baseline),
        r.0 <= r.1,
        r.2 * target_accuracy == plan_accuracy(r.1 - r.0, target_accuracy),
{
    let half = baseline / 2;
    let low: u64 = if min_val >= half {
        min_val as u64
    } else {
        half as u64
    };
    let wide: u64 = (baseline as u64 * 3 / 2) % 0x1_0000_0000;
    let high: u64 = if (max_val as u64) <= wide {
        max_val as u64
    } else {
        wide
    };
    let width = target_accuracy as u64 * 2;
    let (lo, hi) = if high >= low + width {
        (low, high)
    } else if low + width <= max_val as u64 || min_val as u64 + width > max_val as u64 {
        (low, low + width)
    } else {
        (max_val as u64 - width, max_val as u64)
    };
    let range = hi - lo;
    let factor: u64 = if range > 1000 {
        3
    } else if range > 500 {
        2
    } else {
        1
    };
    (lo, hi, factor)
}

/// Shrinks the configured range `[min_val, max_val]` around the measured
/// direct-connection `baseline` (in Mbps) to
/// `[max(min_val, baseline / 2), min(max_val, 1.5 * baseline)]`; where that
/// is narrower than twice the accuracy, searches a window of that width
/// instead, kept inside the configured range whenever it is wide enough;
/// and picks the accuracy for the interval's width.
pub fn plan_search(min_val: u32, max_val: u32, target_accuracy: u32, baseline: u32) -> (p: SearchPlan)
    requires
        plan_fits(min_val, max_val, target_accuracy, baseline),
    ensures
        p.search_min == plan_min(min_val, max_val, target_accuracy, baseline),
        p.search_max == plan_max(min_val, max_val, target_accuracy, baseline),
        p.accuracy == plan_accuracy(p.search_max - p.search_min, target_accuracy),
        min_val <= p.search_min,
        p.search_min + 2 * target_accuracy <= p.search_max,
        min_val + 2 * target_accuracy <= max_val ==> p.search_max <= max_val,
{
    let (lo, hi, factor) = plan_window(min_val, max_val, target_accuracy, baseline);
    SearchPlan {
        search_min: lo as u32,
        search_max: hi as u32,
        accuracy: (factor * target_accuracy as u64) as u32,
    }
}

/// The searched interval, in terms of the inputs: with
/// `low = max(min_val, baseline / 2)`, `high = min(max_val, 3 * baseline / 2)`
/// (the latter cut to 32 bits) and `w = 2 * target_accuracy`, the interval is
/// `[low, high]` when that is at least `w` wide; otherwise `[low, low + w]`
/// when that ends at or below `max_val`, else `[max_val - w, max_val]` when
/// the configured range is at least `w` wide, else `[low, low + w]`. The
/// accuracy is three times the target above a width of 1000, twice above
/// 500, and the target otherwise.
pub proof fn lemma_plan_interval(min_val: u32, max_val: u32, target_accuracy: u32, baseline: u32)
    ensures
        ({
            let low: int = if min_val as int >= baseline as int / 2 {
                min_val as int
            } else {
                baseline as int / 2
            };
            let cut: int = (baseline as int * 3 / 2) % 0x1_0000_0000;
            let high: int = if max_val as int <= cut {
                max_val as int
            } else {
                cut
            };
            let w: int = 2 * target_accuracy as int;
            let lo = plan_min(min_val, max_val, target_accuracy, baseline);
            let hi = plan_max(min_val, max_val, target_accuracy, baseline);
            &&& high >= low + w ==> lo == low && hi == high
            &&& high < low + w && low + w <= max_val ==> lo == low && hi == low + w
            &&& high < low + w && low + w > max_val && min_val + w <= max_val ==> lo == max_val - w
                && hi == max_val
            &&& high < low + w && min_val + w > max_val ==> lo == low && hi == low + w
            &&& hi - lo > 1000 ==> plan_accuracy(hi - lo, target_accuracy) == 3
                * target_accuracy
            &&& 500 < hi - lo <= 1000 ==> plan_accuracy(hi - lo, target_accuracy) == 2
                * target_accuracy
            &&& hi - lo <= 500 ==> plan_accuracy(hi - lo, target_accuracy) == target_accuracy
        }),
{
}

/// The regular expressions handed to the regex crate: a bandwidth line is
/// any amount of white space other than a line break, the key and a colon,
/// then the rest of that line; the socks5 port follows `socks5:`, a line
/// break, `listen:` after any white space, and a host that may be empty.
pub proof fn lemma_edit_patterns()
    ensures
        bandwidth_pattern(Direction::Up) == "(?m)^[^\\S\\n]*up:[^\\S\\n]*.*$"@,
        bandwidth_pattern(Direction::Down) == "(?m)^[^\\S\\n]*down:[^\\S\\n]*.*$"@,
        socks_pattern() == "socks5:\\s*\\n\\s*listen:\\s*\\S*:(\\d+)"@,
{
}

/// The port read from captured digits: every port `p` written in decimal
/// is read back as `p`, and nothing captured gives 1080.
pub proof fn lemma_socks_port_round_trip(p: u16)
    ensures
        socks_port_of(Some(decimal_digits(p as nat))) == p,
        socks_port_of(None) == 1080,
{
    crate::text::lemma_decimal_round_trip(p as nat, u16::MAX as nat);
}

/// The bandwidth line written: two spaces, the key, a colon and a space,
/// the value in decimal, and ` Mbps`; for `up` and `down` it differs only
/// in the key.
pub proof fn lemma_bandwidth_line_text(val: u32)
    ensures
        bandwidth_line_text(Direction::Up, val) == "  up: "@ + decimal_digits(val as nat) + " Mbps"@,
        bandwidth_line_text(Direction::Down, val) == "  down: "@ + decimal_digits(val as nat)
            + " Mbps"@,
{
}

/// `plan_search` where its result fits in `u32`, `None` elsewhere.
pub fn plan_search_checked(min_val: u32, max_val: u32, target_accuracy: u32, baseline: u32) -> (r:
    Option<SearchPlan>)
    ensures
        r is None <==> !plan_fits(min_val, max_val, target_accuracy, baseline),
        r matches Some(p) ==> p.search_min == plan_min(min_val, max_val, target_accuracy, baseline)
            && p.search_max == plan_max(min_val, max_val, target_accuracy, baseline) && p.accuracy
            == plan_accuracy(p.search_max - p.search_min, target_accuracy),
{
    let (lo, hi, factor) = plan_window(min_val, max_val, target_accuracy, baseline);
    if hi > u32::MAX as u64 || factor * target_accuracy as u64 > u32::MAX as u64 {
        return None;
    }
    Some(plan_search(min_val, max_val, target_accuracy, baseline))
}

// ---------------------------------------------------------------------------
// Sampling

/// How many samples a measurement takes and how long to pause between them.
#[derive(Clone, Copy, Debug, PartialEq, Eq, Structural)]
pub struct SamplePlan {
    pub samples: usize,
    pub interval_ms: u64,
}

/// Coarse measurements take two samples 500 ms apart, fine ones three
/// samples 600 ms apart.
pub fn sampling_plan(phase: SearchPhase) -> (p: SamplePlan)
    ensures
        phase == SearchPhase::Coarse ==> p.samples == 2 && p.interval_ms == 500,
        phase == SearchPhase::Fine ==> p.samples == 3 && p.interval_ms == 600,
{
    match phase {
        SearchPhase::Coarse => SamplePlan { samples: 2, interval_ms: 500 },
        SearchPhase::Fine => SamplePlan { samples: 3, interval_ms: 600 },
    }
}

/// An HTTP status code in the success class `200..=299`, as
/// `StatusCode::is_success` decides it.
pub fn is_success_status(code: u16) -> (r: bool)
    ensures
        r == (200 <= code && code < 300),
{
    200 <= code && code < 300
}


// ---------------------------------------------------------------------------
// Config-file edits

/// Where the socks5 listener's port stands in a hysteria2 config.
pub open spec fn socks_pattern() -> Seq<char> {
    "socks5:\\s*\\n\\s*listen:\\s*\\S*:(\\d+)"@
}

/// The port the config names, given the text captured after the listen
/// address: the captured digits read as a `u16`, and the default port when
/// nothing was captured or the digits are no `u16`.
pub open spec fn socks_port_of(capture: Option<Seq<char>>) -> u16 {
    match capture {
        None => DEFAULT_SOCKS_PORT,
        Some(text) => match parse_unsigned(text, u16::MAX as nat) {
            Ok(n) => n as u16,
            Err(_) => DEFAULT_SOCKS_PORT,
        },
    }
}

/// The port to connect to, given what the port pattern captured.
pub fn socks_port_from_capture(capture: Option<&str>) -> (r: u16)
    ensures
        r == socks_port_of(
            match capture {
                Some(t) => Some(t@),
                None => None,
            },
        ),
{
    match capture {
        None => DEFAULT_SOCKS_PORT,
        Some(text) => match parse_u16(text) {
            Ok(n) => n,
            Err(_) => DEFAULT_SOCKS_PORT,
        },
    }
}

/// Reads the socks5 port from the text of a hysteria2 config: the digits
/// after `socks5:` / `listen: <host>:` (the host may be empty), or 1080 when there are none or they
/// do not parse as a port.
pub fn parse_socks_port(content: &str) -> (r: Result<u16, TunerError>)
    ensures
        match regex_capture_group(socks_pattern(), content@, 1) {
            None => r == Err::<u16, TunerError>(TunerError::InvalidPattern),
            Some(capture) => r == Ok::<u16, TunerError>(socks_port_of(capture)),
        },
{
    let captured = capture_group("socks5:\\s*\\n\\s*listen:\\s*\\S*:(\\d+)", content, 1);
    match captured {
        Err(_) => Err(TunerError::InvalidPattern),
        Ok(None) => Ok(socks_port_from_capture(None)),
        Ok(Some(text)) => Ok(socks_port_from_capture(Some(text.as_str()))),
    }
}

/// The line that holds a bandwidth in a hysteria2 config.
pub open spec fn bandwidth_pattern(param: Direction) -> Seq<char> {
    match param {
        Direction::Up => "(?m)^[^\\S\\n]*up:[^\\S\\n]*.*$"@,
        Direction::Down => "(?m)^[^\\S\\n]*down:[^\\S\\n]*.*$"@,
    }
}

/// The line that sets a bandwidth: `  up: <val> Mbps` or `  down: <val> Mbps`.
pub open spec fn bandwidth_line_text(param: Direction, val: u32) -> Seq<char> {
    let key = match param {
        Direction::Up => "  up: "@,
        Direction::Down => "  down: "@,
    };
    key + decimal_digits(val as nat) + " Mbps"@
}

/// Builds `bandwidth_line_text(param, val)`.
pub fn bandwidth_line(param: Direction, val: u32) -> (r: String)
    ensures
        r@ == bandwidth_line_text(param, val),
{
    let mut line = match param {
        Direction::Up => String::from_str("  up: "),
        Direction::Down => String::from_str("  down: "),
    };
    push_decimal(&mut line, val);
    line.append(" Mbps");
    line
}

/// Rewrites the first `up:` (or `down:`) line of a hysteria2 config to
/// `  up: <val> Mbps`; the text is unchanged elsewhere.
pub fn patch_bandwidth(content: &str, param: Direction, val: u32) -> (r: Result<String, TunerError>)
    ensures
        match regex_replace_first(bandwidth_pattern(param), content@, bandwidth_line_text(param, val)) {
            None => r == Err::<String, TunerError>(TunerError::InvalidPattern),
            Some(text) => r matches Ok(s) && s@ == text,
        },
{
    let line = bandwidth_line(param, val);
    let pattern = match param {
        Direction::Up => "(?m)^[^\\S\\n]*up:[^\\S\\n]*.*$",
        Direction::Down => "(?m)^[^\\S\\n]*down:[^\\S\\n]*.*$",
    };
    match replace_first(pattern, content, line.as_str()) {
        Ok(text) => Ok(text),
        Err(_) => Err(TunerError::InvalidPattern),
    }
}

} // verus!
