//! How a log line is colored.

use vstd::prelude::*;
use crate::text::{contains_seq, contains_text};

verus! {

/// The colors of log lines.
#[derive(Clone, Copy, Debug, PartialEq, Eq, Structural)]
pub enum LogColor {
    Red,
    Green,
    Cyan,
    Magenta,
    Gray,
}

/// How a log line is drawn.
#[derive(Clone, Copy, Debug, PartialEq, Eq, Structural)]
pub struct LogStyle {
    pub color: LogColor,
    pub bold: bool,
}

/// What `str::to_lowercase` returns for a text.
pub uninterp spec fn unicode_lowercase(s: Seq<char>) -> Seq<char>;

/// `str::to_lowercase`, the Unicode lowercase mapping of `s`. The contract
/// names the result and says nothing more of it.
#[verifier::external_body]
fn to_lowercase(s: &str) -> (r: String)
    ensures
        r@ == unicode_lowercase(s@),
{
    s.to_lowercase()
}

/// The style of the log line `s`, given its lowercase form `lower`: errors
/// (`错误`, or `error` in any case) red and bold; improvements, successes,
/// best values and completions green and bold; speeds cyan; latencies
/// magenta; everything else gray.
pub open spec fn log_style_of(s: Seq<char>, lower: Seq<char>) -> LogStyle {
    if contains_seq(s, "错误"@) || contains_seq(lower, "error"@) {
        LogStyle { color: LogColor::Red, bold: true }
    } else if contains_seq(s, "更优"@) || contains_seq(s, "成功"@) || contains_seq(s, "最佳"@)
        || contains_seq(s, "完成"@) {
        LogStyle { color: LogColor::Green, bold: true }
    } else if contains_seq(s, "速度"@) {
        LogStyle { color: LogColor::Cyan, bold: false }
    } else if contains_seq(s, "延迟"@) {
        LogStyle { color: LogColor::Magenta, bold: false }
    } else {
        LogStyle { color: LogColor::Gray, bold: false }
    }
}

/// Errors win over everything: a line that says `错误`, or whose lowercase
/// form says `error`, is red and bold; otherwise a line that reports an
/// improvement, a success, a best value or a completion is green and bold;
/// a speed line not covered before is cyan, a latency line magenta, and a
/// line with none of these words gray, none of the last three bold.
pub proof fn lemma_log_style_order(s: Seq<char>, lower: Seq<char>)
    ensures
        contains_seq(s, "错误"@) || contains_seq(lower, "error"@) ==> log_style_of(s, lower)
            == (LogStyle { color: LogColor::Red, bold: true }),
        !contains_seq(s, "错误"@) && !contains_seq(lower, "error"@) && (contains_seq(s, "更优"@)
            || contains_seq(s, "成功"@) || contains_seq(s, "最佳"@) || contains_seq(s, "完成"@))
            ==> log_style_of(s, lower) == (LogStyle { color: LogColor::Green, bold: true }),
        log_style_of(s, lower).bold <==> (log_style_of(s, lower).color == LogColor::Red
            || log_style_of(s, lower).color == LogColor::Green),
        log_style_of(s, lower).color == LogColor::Cyan ==> contains_seq(s, "速度"@),
        log_style_of(s, lower).color == LogColor::Magenta ==> contains_seq(s, "延迟"@)
            && !contains_seq(s, "速度"@),
        log_style_of(s, lower).color == LogColor::Gray ==> !contains_seq(s, "错误"@)
            && !contains_seq(lower, "error"@) && !contains_seq(s, "更优"@) && !contains_seq(
            s,
            "成功"@,
        ) && !contains_seq(s, "最佳"@) && !contains_seq(s, "完成"@) && !contains_seq(s, "速度"@)
            && !contains_seq(s, "延迟"@),
{
}

/// The style of `s` when `lower` is its lowercase form.
pub fn log_style_with(s: &str, lower: &str) -> (r: LogStyle)
    ensures
        r == log_style_of(s@, lower@),
{
    if contains_text(s, "错误") || contains_text(lower, "error") {
        LogStyle { color: LogColor::Red, bold: true }
    } else if contains_text(s, "更优") || contains_text(s, "成功") || contains_text(s, "最佳")
        || contains_text(s, "完成") {
        LogStyle { color: LogColor::Green, bold: true }
    } else if contains_text(s, "速度") {
        LogStyle { color: LogColor::Cyan, bold: false }
    } else if contains_text(s, "延迟") {
        LogStyle { color: LogColor::Magenta, bold: false }
    } else {
        LogStyle { color: LogColor::Gray, bold: false }
    }
}

/// The style of the log line `s`.
pub fn styled_log_line(s: &str) -> (r: LogStyle)
    ensures
        r == log_style_of(s@, unicode_lowercase(s@)),
{
    let lower = to_lowercase(s);
    log_style_with(s, lower.as_str())
}

} // verus!
