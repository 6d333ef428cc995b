//! Editing the parameters: stepping a number with the arrow keys, and
//! taking a new value typed by the user.

use vstd::prelude::*;
use crate::config::Tunable;
use crate::text::{IntParseError, parse_u32, parse_unsigned, trim_text, trimmed};
use crate::ui::types::Field;

verus! {

/// A `u32` reinterpreted as `i32`, as `v as i32` does.
pub open spec fn as_i32(v: u32) -> int {
    if v <= i32::MAX {
        v as int
    } else {
        v - 0x1_0000_0000
    }
}

/// How far one arrow press moves a field: 10 Mbps for a bandwidth, 1 for
/// the accuracy.
pub open spec fn field_step(field: Field) -> int {
    if field == Field::TargetAccuracy {
        1
    } else {
        10
    }
}

/// `v` moved by `delta` steps of `step`, but never below 1.
pub open spec fn stepped(v: u32, delta: int, step: int) -> u32 {
    let t = as_i32(v) + delta * step;
    if t >= 1 {
        t as u32
    } else {
        1
    }
}

/// The `i32` arithmetic of a step stays in range.
pub open spec fn step_fits(v: u32, delta: int, step: int) -> bool {
    &&& i32::MIN <= delta * step <= i32::MAX
    &&& i32::MIN <= as_i32(v) + delta * step <= i32::MAX
}

/// The numeric value of `field` in `s`; `None` for the text fields.
pub open spec fn field_value(s: Tunable, field: Field) -> Option<u32> {
    match field {
        Field::TestFileUrl => None,
        Field::LatencyUrl => None,
        Field::MinUp => Some(s.min_up),
        Field::MaxUp => Some(s.max_up),
        Field::MinDown => Some(s.min_down),
        Field::MaxDown => Some(s.max_down),
        Field::TargetAccuracy => Some(s.target_accuracy),
    }
}

/// `s` with the numeric `field` set to `v` (text fields are left alone).
pub open spec fn with_field_value(s: Tunable, field: Field, v: u32) -> Tunable {
    match field {
        Field::TestFileUrl => s,
        Field::LatencyUrl => s,
        Field::MinUp => Tunable { min_up: v, ..s },
        Field::MaxUp => Tunable { max_up: v, ..s },
        Field::MinDown => Tunable { min_down: v, ..s },
        Field::MaxDown => Tunable { max_down: v, ..s },
        Field::TargetAccuracy => Tunable { target_accuracy: v, ..s },
    }
}

/// `s` after moving `field` by `delta` steps.
pub open spec fn adjusted(s: Tunable, field: Field, delta: int) -> Tunable {
    match field_value(s, field) {
        None => s,
        Some(v) => with_field_value(s, field, stepped(v, delta, field_step(field))),
    }
}

/// Moving `field` by `delta` steps stays within `i32`.
pub open spec fn adjust_fits(s: Tunable, field: Field, delta: int) -> bool {
    match field_value(s, field) {
        None => true,
        Some(v) => step_fits(v, delta, field_step(field)),
    }
}

fn step_fits_check(v: u32, delta: i32, step: i32) -> (r: bool)
    ensures
        r == step_fits(v, delta as int, step as int),
{
    let signed: i64 = if v <= 2147483647 {
        v as i64
    } else {
        v as i64 - 4294967296
    };
    let dl = delta as i64;
    let sl = step as i64;
    proof {
        assert(-2147483648 * 2147483648 <= dl * sl <= 2147483648 * 2147483648) by (nonlinear_arith)
            requires
                -2147483648 <= dl <= 2147483647,
                -2147483648 <= sl <= 2147483647,
        ;
    }
    let d = dl * sl;
    -2147483648 <= d && d <= 2147483647 && -2147483648 <= signed + d && signed + d <= 2147483647
}

/// Decides `adjust_fits`.
pub fn adjust_fits_check(state: &Tunable, field: &Field, delta: i32) -> (r: bool)
    ensures
        r == adjust_fits(*state, *field, delta as int),
{
    match field {
        Field::TestFileUrl | Field::LatencyUrl => true,
        Field::MinUp => step_fits_check(state.min_up, delta, 10),
        Field::MaxUp => step_fits_check(state.max_up, delta, 10),
        Field::MinDown => step_fits_check(state.min_down, delta, 10),
        Field::MaxDown => step_fits_check(state.max_down, delta, 10),
        Field::TargetAccuracy => step_fits_check(state.target_accuracy, delta, 1),
    }
}

fn step_value(v: u32, delta: i32, step: i32) -> (r: u32)
    requires
        step_fits(v, delta as int, step as int),
    ensures
        r == stepped(v, delta as int, step as int),
{
    let signed: i32 = if v <= 2147483647 {
        v as i32
    } else {
        ((v - 2147483648) as i32) - 2147483647 - 1
    };
    let t = signed + delta * step;
    if t >= 1 {
        t as u32
    } else {
        1
    }
}

/// Moves a numeric parameter by `delta` arrow presses: a bandwidth by 10
/// Mbps per press, the accuracy by 1, and never below 1. Text fields are
/// not changed.
pub fn adjust_field(state: &mut Tunable, field: &Field, delta: i32)
    requires
        adjust_fits(*old(state), *field, delta as int),
    ensures
        *final(state) == adjusted(*old(state), *field, delta as int),
{
    match field {
        Field::TestFileUrl | Field::LatencyUrl => {},
        Field::MinUp => state.min_up = step_value(state.min_up, delta, 10),
        Field::MaxUp => state.max_up = step_value(state.max_up, delta, 10),
        Field::MinDown => state.min_down = step_value(state.min_down, delta, 10),
        Field::MaxDown => state.max_down = step_value(state.max_down, delta, 10),
        Field::TargetAccuracy => state.target_accuracy = step_value(state.target_accuracy, delta, 1),
    }
}

/// What each parameter reads and writes: the numeric fields are `min_up`,
/// `max_up`, `min_down`, `max_down` and `target_accuracy`, each its own
/// struct field; writing one sets that field to the value and leaves every
/// other field as it was; the two URL fields hold no number.
pub proof fn lemma_field_slots(s: Tunable, v: u32)
    ensures
        field_value(s, Field::TestFileUrl) is None,
        field_value(s, Field::LatencyUrl) is None,
        field_value(s, Field::MinUp) == Some(s.min_up),
        field_value(s, Field::MaxUp) == Some(s.max_up),
        field_value(s, Field::MinDown) == Some(s.min_down),
        field_value(s, Field::MaxDown) == Some(s.max_down),
        field_value(s, Field::TargetAccuracy) == Some(s.target_accuracy),
        forall|f: Field|
            #![trigger with_field_value(s, f, v)]
            {
                let t = with_field_value(s, f, v);
                &&& t.test_file_url == s.test_file_url
                &&& t.latency_url == s.latency_url
                &&& t.hy_config == s.hy_config
                &&& t.hy_binary == s.hy_binary
                &&& t.hy_download_url == s.hy_download_url
                &&& t.min_up == (if f == Field::MinUp {
                    v
                } else {
                    s.min_up
                })
                &&& t.max_up == (if f == Field::MaxUp {
                    v
                } else {
                    s.max_up
                })
                &&& t.min_down == (if f == Field::MinDown {
                    v
                } else {
                    s.min_down
                })
                &&& t.max_down == (if f == Field::MaxDown {
                    v
                } else {
                    s.max_down
                })
                &&& t.target_accuracy == (if f == Field::TargetAccuracy {
                    v
                } else {
                    s.target_accuracy
                })
            },
{
}

/// One arrow press on a bandwidth moves it by 10 per step, on the accuracy
/// by 1, clamped below at 1, and leaves every other field alone: for a
/// value `v <= i32::MAX` the result is `v + delta * step` when that is at
/// least 1 and 1 otherwise; a value above `i32::MAX` is read as `v - 2^32`.
pub proof fn lemma_step_value(s: Tunable, f: Field, delta: int)
    requires
        adjust_fits(s, f, delta),
    ensures
        field_value(s, f) matches Some(v) ==> {
            let step: int = if f == Field::TargetAccuracy {
                1
            } else {
                10
            };
            let read: int = if v <= i32::MAX {
                v as int
            } else {
                v - 0x1_0000_0000
            };
            &&& read + delta * step >= 1 ==> field_value(adjusted(s, f, delta), f) == Some(
                (read + delta * step) as u32,
            )
            &&& read + delta * step < 1 ==> field_value(adjusted(s, f, delta), f) == Some(1u32)
            &&& agree_except(adjusted(s, f, delta), s, f)
        },
        field_value(s, f) is None ==> adjusted(s, f, delta) == s,
{
    match f {
        Field::TestFileUrl => {},
        Field::LatencyUrl => {},
        Field::MinUp => {},
        Field::MaxUp => {},
        Field::MinDown => {},
        Field::MaxDown => {},
        Field::TargetAccuracy => {},
    }
}

/// Pressing right then left on a field (or left then right) gives its
/// value back, as long as neither press hits the floor of 1 or leaves the
/// `i32` range.
pub proof fn lemma_adjust_round_trip(s: Tunable, field: Field, delta: int)
    requires
        delta == 1 || delta == -1,
        field_value(s, field) matches Some(v) ==> {
            &&& 1 <= v <= i32::MAX
            &&& v + delta * field_step(field) >= 1
            &&& v + delta * field_step(field) <= i32::MAX
        },
    ensures
        adjusted(adjusted(s, field, delta), field, -delta) == s,
{
    match field {
        Field::TestFileUrl => {},
        Field::LatencyUrl => {},
        Field::MinUp => assert(stepped(stepped(s.min_up, delta, 10), -delta, 10) == s.min_up),
        Field::MaxUp => assert(stepped(stepped(s.max_up, delta, 10), -delta, 10) == s.max_up),
        Field::MinDown => assert(stepped(stepped(s.min_down, delta, 10), -delta, 10) == s.min_down),
        Field::MaxDown => assert(stepped(stepped(s.max_down, delta, 10), -delta, 10) == s.max_down),
        Field::TargetAccuracy => assert(stepped(stepped(s.target_accuracy, delta, 1), -delta, 1)
            == s.target_accuracy),
    }
}

/// A numeric parameter is at least 1 after a step.
pub proof fn lemma_adjust_floor(s: Tunable, field: Field, delta: int)
    requires
        adjust_fits(s, field, delta),
    ensures
        field_value(adjusted(s, field, delta), field) matches Some(v) ==> v >= 1,
{
    match field {
        Field::TestFileUrl => {},
        Field::LatencyUrl => {},
        Field::MinUp => assert(stepped(s.min_up, delta, 10) >= 1),
        Field::MaxUp => assert(stepped(s.max_up, delta, 10) >= 1),
        Field::MinDown => assert(stepped(s.min_down, delta, 10) >= 1),
        Field::MaxDown => assert(stepped(s.max_down, delta, 10) >= 1),
        Field::TargetAccuracy => assert(stepped(s.target_accuracy, delta, 1) >= 1),
    }
}

/// `field` holds text rather than a number.
pub open spec fn is_text_field(field: Field) -> bool {
    field == Field::TestFileUrl || field == Field::LatencyUrl
}

/// The parameters `a` and `b` agree on every field but `field`.
pub open spec fn agree_except(a: Tunable, b: Tunable, field: Field) -> bool {
    &&& (field != Field::TestFileUrl ==> a.test_file_url == b.test_file_url)
    &&& (field != Field::LatencyUrl ==> a.latency_url == b.latency_url)
    &&& (field != Field::MinUp ==> a.min_up == b.min_up)
    &&& (field != Field::MaxUp ==> a.max_up == b.max_up)
    &&& (field != Field::MinDown ==> a.min_down == b.min_down)
    &&& (field != Field::MaxDown ==> a.max_down == b.max_down)
    &&& (field != Field::TargetAccuracy ==> a.target_accuracy == b.target_accuracy)
    &&& a.hy_config == b.hy_config
    &&& a.hy_binary == b.hy_binary
    &&& a.hy_download_url == b.hy_download_url
}

/// The text of a text field.
pub open spec fn field_text(s: Tunable, field: Field) -> Seq<char> {
    if field == Field::TestFileUrl {
        s.test_file_url@
    } else {
        s.latency_url@
    }
}

/// The name under which a field is prompted for.
pub fn prompt_label(field: &Field) -> (r: &'static str)
    ensures
        r@ == match *field {
            Field::TestFileUrl => "TEST_FILE_URL"@,
            Field::LatencyUrl => "LATENCY_URL"@,
            Field::MinUp => "MIN_UP"@,
            Field::MaxUp => "MAX_UP"@,
            Field::MinDown => "MIN_DOWN"@,
            Field::MaxDown => "MAX_DOWN"@,
            Field::TargetAccuracy => "TARGET_ACCURACY"@,
        },
{
    match field {
        Field::TestFileUrl => "TEST_FILE_URL",
        Field::LatencyUrl => "LATENCY_URL",
        Field::MinUp => "MIN_UP",
        Field::MaxUp => "MAX_UP",
        Field::MinDown => "MIN_DOWN",
        Field::MaxDown => "MAX_DOWN",
        Field::TargetAccuracy => "TARGET_ACCURACY",
    }
}

/// Sets `field` from the line the user typed: surrounding white space is
/// dropped, an empty answer keeps the current value, a text field takes the
/// answer as it is, and a numeric field takes it as a `u32`, failing (and
/// keeping its value) when it is none.
pub fn edit_field(state: &mut Tunable, field: &Field, input: &str) -> (r: Result<(), IntParseError>)
    ensures
        ({
            let t = trimmed(input@);
            if t.len() == 0 {
                r is Ok && *final(state) == *old(state)
            } else if is_text_field(*field) {
                &&& r is Ok
                &&& field_text(*final(state), *field) == t
                &&& agree_except(*final(state), *old(state), *field)
            } else {
                match parse_unsigned(t, u32::MAX as nat) {
                    Ok(n) => r is Ok && *final(state) == with_field_value(
                        *old(state),
                        *field,
                        n as u32,
                    ) && field_value(*final(state), *field) == Some(n as u32) && agree_except(
                        *final(state),
                        *old(state),
                        *field,
                    ),
                    Err(e) => r == Err::<(), IntParseError>(e) && *final(state) == *old(state),
                }
            }
        }),
{
    let t = trim_text(input);
    if t.as_str().is_empty() {
        return Ok(());
    }
    proof {
        crate::text::lemma_parse_unsigned_bounded(t@, u32::MAX as nat);
    }
    match field {
        Field::TestFileUrl => {
            state.test_file_url = t;
            Ok(())
        },
        Field::LatencyUrl => {
            state.latency_url = t;
            Ok(())
        },
        _ => match parse_u32(t.as_str()) {
            Err(e) => Err(e),
            Ok(n) => {
                match field {
                    Field::MinUp => state.min_up = n,
                    Field::MaxUp => state.max_up = n,
                    Field::MinDown => state.min_down = n,
                    Field::MaxDown => state.max_down = n,
                    _ => state.target_accuracy = n,
                }
                Ok(())
            },
        },
    }
}

} // verus!
