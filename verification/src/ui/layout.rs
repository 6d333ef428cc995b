//! What the panels show: each parameter's line, which line is highlighted,
//! and which part of the log fits in the log panel.

use vstd::prelude::*;
use crate::config::Tunable;
use crate::text::{decimal_digits, push_decimal};
use crate::ui::types::{Field, Focus};

verus! {

/// The line of the parameter panel that shows `field`.
pub open spec fn label_text(s: Tunable, field: Field) -> Seq<char> {
    match field {
        Field::TestFileUrl => "测速文件: "@ + s.test_file_url@,
        Field::LatencyUrl => "延迟探针: "@ + s.latency_url@,
        Field::MinUp => "上行最小: "@ + decimal_digits(s.min_up as nat) + " Mbps"@,
        Field::MaxUp => "上行最大: "@ + decimal_digits(s.max_up as nat) + " Mbps"@,
        Field::MinDown => "下行最小: "@ + decimal_digits(s.min_down as nat) + " Mbps"@,
        Field::MaxDown => "下行最大: "@ + decimal_digits(s.max_down as nat) + " Mbps"@,
        Field::TargetAccuracy => "搜索精度: "@ + decimal_digits(s.target_accuracy as nat) + " Mbps"@,
    }
}

fn number_label(prefix: &str, value: u32) -> (r: String)
    ensures
        r@ == prefix@ + decimal_digits(value as nat) + " Mbps"@,
{
    let mut line = String::from_str(prefix);
    push_decimal(&mut line, value);
    line.append(" Mbps");
    line
}

/// Builds `label_text(state, field)`.
pub fn field_label(state: &Tunable, field: &Field) -> (r: String)
    ensures
        r@ == label_text(*state, *field),
{
    match field {
        Field::TestFileUrl => {
            let mut line = String::from_str("测速文件: ");
            line.append(state.test_file_url.as_str());
            line
        },
        Field::LatencyUrl => {
            let mut line = String::from_str("延迟探针: ");
            line.append(state.latency_url.as_str());
            line
        },
        Field::MinUp => number_label("上行最小: ", state.min_up),
        Field::MaxUp => number_label("上行最大: ", state.max_up),
        Field::MinDown => number_label("下行最小: ", state.min_down),
        Field::MaxDown => number_label("下行最大: ", state.max_down),
        Field::TargetAccuracy => number_label("搜索精度: ", state.target_accuracy),
    }
}

/// The line at `index` is highlighted when it is the selected one and the
/// parameter panel has the focus.
pub fn field_highlighted(index: usize, selected: usize, focus: Focus) -> (r: bool)
    ensures
        r == (index == selected && focus == Focus::Params),
{
    index == selected && focus == Focus::Params
}

/// The log panel's border is highlighted when the log panel has the focus.
pub fn log_panel_highlighted(focus: Focus) -> (r: bool)
    ensures
        r == (focus == Focus::Logs),
{
    focus == Focus::Logs
}

/// How many log lines fit in a panel `height` rows high (its borders take
/// two rows).
pub open spec fn visible_rows(height: u16) -> int {
    if height >= 2 {
        height - 2
    } else {
        0
    }
}

/// The log lines shown, `[start, end)`, when there are `len` lines and the
/// log is scrolled back by `scroll`; `None` when nothing is shown.
pub open spec fn log_window(len: usize, height: u16, scroll: usize) -> Option<(usize, usize)> {
    let rows = visible_rows(height);
    let start = if len >= rows + scroll {
        len - (rows + scroll)
    } else {
        0
    };
    let end = if len >= scroll {
        len - scroll
    } else {
        0
    };
    if start < end && end <= len {
        Some((start as usize, end as usize))
    } else {
        None
    }
}

/// The log window, in terms of its inputs: with `rows` the panel height
/// less its two border rows, the window ends `scroll` lines before the
/// newest line and holds at most `rows` lines; when there are at least
/// `rows + scroll` lines it holds exactly `rows`; when `scroll` reaches back
/// past every line, or no row fits, nothing is shown.
pub proof fn lemma_log_window_shape(len: usize, height: u16, scroll: usize)
    ensures
        ({
            let rows: int = if height >= 2 {
                height - 2
            } else {
                0
            };
            &&& log_window(len, height, scroll) matches Some((start, end)) ==> end == len - scroll
                && start < end && end - start <= rows
            &&& rows > 0 && len >= rows + scroll ==> log_window(len, height, scroll) == Some(
                ((len - rows - scroll) as usize, (len - scroll) as usize),
            )
            &&& (scroll >= len || rows == 0) ==> log_window(len, height, scroll) is None
        }),
{
}

/// Computes `log_window(len, height, scroll)`: the newest lines that fit,
/// ending `scroll` lines before the last.
pub fn visible_log_window(len: usize, height: u16, scroll: usize) -> (r: Option<(usize, usize)>)
    requires
        visible_rows(height) + scroll <= usize::MAX,
    ensures
        r == log_window(len, height, scroll),
        r matches Some((start, end)) ==> start < end <= len && end - start <= visible_rows(height),
{
    let rows = height.saturating_sub(2) as usize;
    let start = len.saturating_sub(rows + scroll);
    let end = len.saturating_sub(scroll);
    if start < end && end <= len {
        Some((start, end))
    } else {
        None
    }
}

} // verus!
