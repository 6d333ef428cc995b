//! The front end's state and how it reacts to keys and log lines.

use vstd::prelude::*;
use crate::config::{Tunable, is_default};
use crate::ui::input::{adjust_field, adjust_fits, adjust_fits_check, adjusted};
use crate::ui::types::{Field, Focus, Key};

verus! {

/// The most log lines kept.
pub const MAX_LOG_LINES: usize = 200;

/// The front end: the parameters, the selected parameter, the focused
/// panel, how far the log is scrolled back, the log, and whether a tuning
/// run is going on.
pub struct App {
    pub state: Tunable,
    pub selected: usize,
    pub focus: Focus,
    pub log_scroll: usize,
    pub fields: Vec<Field>,
    pub logs: Vec<String>,
    pub tuning_active: bool,
}

/// What the caller is to do after a key.
#[derive(Clone, Debug)]
pub enum AppCommand {
    /// Keep running.
    Continue,
    /// Leave the front end.
    Quit,
    /// Ask the user for a new value of this field.
    Edit(Field),
    /// Start a tuning run with these parameters.
    StartTuning(Tunable),
}

/// The parameters in the order the panel lists them.
pub open spec fn field_order() -> Seq<Field> {
    seq![
        Field::TestFileUrl,
        Field::LatencyUrl,
        Field::MinUp,
        Field::MaxUp,
        Field::MinDown,
        Field::MaxDown,
        Field::TargetAccuracy,
    ]
}

pub open spec fn toggled(focus: Focus) -> Focus {
    if focus == Focus::Params {
        Focus::Logs
    } else {
        Focus::Params
    }
}

/// The key starts a tuning run.
pub open spec fn starts_tuning(app: App, key: Key) -> bool {
    key == Key::Char('s') && !app.tuning_active
}

/// The key moves the selected parameter by `delta` steps.
pub open spec fn adjust_delta(app: App, key: Key) -> Option<int> {
    if app.focus == Focus::Params && key == Key::Left {
        Some(-1)
    } else if app.focus == Focus::Params && key == Key::Right {
        Some(1)
    } else {
        None
    }
}

/// What a key may be pressed on without the front end failing: the
/// selected parameter exists where the key acts on it, a step stays in
/// `i32`, and the selection can move down without overflow.
pub open spec fn key_allowed(app: App, key: Key) -> bool {
    &&& (app.focus == Focus::Params && (key == Key::Left || key == Key::Right || key == Key::Char(
        'e',
    ))) ==> app.selected < app.fields.len()
    &&& (adjust_delta(app, key) matches Some(d) ==> adjust_fits(
        app.state,
        app.fields@[app.selected as int],
        d,
    ))
    &&& (app.focus == Focus::Params && key == Key::Down) ==> app.selected < usize::MAX
}

pub open spec fn selected_after(app: App, key: Key) -> usize {
    if app.focus == Focus::Params && key == Key::Up && app.selected > 0 {
        (app.selected - 1) as usize
    } else if app.focus == Focus::Params && key == Key::Down && app.selected + 1 < app.fields.len() {
        (app.selected + 1) as usize
    } else {
        app.selected
    }
}

pub open spec fn scroll_after(app: App, key: Key) -> usize {
    if starts_tuning(app, key) {
        0
    } else if app.focus == Focus::Logs && key == Key::Up {
        app.log_scroll.saturating_add(1)
    } else if app.focus == Focus::Logs && key == Key::Down {
        app.log_scroll.saturating_sub(1)
    } else if app.focus == Focus::Logs && key == Key::PageUp {
        app.log_scroll.saturating_add(5)
    } else if app.focus == Focus::Logs && key == Key::PageDown {
        app.log_scroll.saturating_sub(5)
    } else {
        app.log_scroll
    }
}

pub open spec fn state_after(app: App, key: Key) -> Tunable {
    match adjust_delta(app, key) {
        Some(d) => adjusted(app.state, app.fields@[app.selected as int], d),
        None => app.state,
    }
}

pub open spec fn command_after(app: App, key: Key) -> AppCommand {
    if key == Key::Char('q') {
        AppCommand::Quit
    } else if key == Key::Char('e') && app.focus == Focus::Params {
        AppCommand::Edit(app.fields@[app.selected as int])
    } else if starts_tuning(app, key) {
        AppCommand::StartTuning(app.state)
    } else {
        AppCommand::Continue
    }
}

/// The last `n` lines of `s`.
pub open spec fn keep_last(s: Seq<String>, n: nat) -> Seq<String> {
    if s.len() > n {
        s.skip(s.len() - n)
    } else {
        s
    }
}

/// From a selection inside the parameter list, every key leaves the
/// selection inside the (unchanged) list, and of what a key needs only that
/// a step of the selected parameter stays within `i32` is left to check:
/// the lookups of the selected parameter for left, right and `e` are in
/// range and moving down does not overflow.
pub proof fn lemma_selection_stays_in_range(app: App, key: Key)
    requires
        app.selected < app.fields.len(),
    ensures
        selected_after(app, key) < app.fields.len(),
        key_allowed(app, key) <==> (adjust_delta(app, key) matches Some(d) ==> adjust_fits(
            app.state,
            app.fields@[app.selected as int],
            d,
        )),
{
}

/// What each key does, stated on the fields: with the parameter panel
/// focused, up moves the selection one line up (not above the first) and
/// down one line down (not past the last); with the log focused, up and
/// down scroll back and forward by one line and page up and down by five,
/// saturating at the ends of `usize`; left and right step the selected
/// parameter down and up; `q` quits, `e` edits the selected parameter,
/// `s` starts a run (unless one is going on) with the current parameters
/// and scrolls to the newest line; every other key changes nothing.
pub proof fn lemma_key_effects(app: App, key: Key)
    ensures
        app.focus == Focus::Params && key == Key::Up && app.selected > 0 ==> selected_after(app, key)
            + 1 == app.selected,
        app.focus == Focus::Params && key == Key::Down && app.selected + 1 < app.fields.len()
            ==> selected_after(app, key) == app.selected + 1,
        !(app.focus == Focus::Params && key == Key::Up && app.selected > 0) && !(app.focus
            == Focus::Params && key == Key::Down && app.selected + 1 < app.fields.len())
            ==> selected_after(app, key) == app.selected,
        key == Key::Char('s') && !app.tuning_active ==> scroll_after(app, key) == 0,
        app.focus == Focus::Logs && key == Key::Up ==> scroll_after(app, key) == (if app.log_scroll
            == usize::MAX {
            usize::MAX
        } else {
            (app.log_scroll + 1) as usize
        }),
        app.focus == Focus::Logs && key == Key::Down ==> scroll_after(app, key) == (if app.log_scroll
            == 0 {
            0
        } else {
            (app.log_scroll - 1) as usize
        }),
        app.focus == Focus::Logs && key == Key::PageUp ==> scroll_after(app, key) == (if app.log_scroll
            > usize::MAX - 5 {
            usize::MAX
        } else {
            (app.log_scroll + 5) as usize
        }),
        app.focus == Focus::Logs && key == Key::PageDown ==> scroll_after(app, key) == (if app.log_scroll
            < 5 {
            0
        } else {
            (app.log_scroll - 5) as usize
        }),
        !(key == Key::Char('s') && !app.tuning_active) && !(app.focus == Focus::Logs && (key
            == Key::Up || key == Key::Down || key == Key::PageUp || key == Key::PageDown))
            ==> scroll_after(app, key) == app.log_scroll,
        app.focus == Focus::Params && key == Key::Left ==> state_after(app, key) == adjusted(
            app.state,
            app.fields@[app.selected as int],
            -1,
        ),
        app.focus == Focus::Params && key == Key::Right ==> state_after(app, key) == adjusted(
            app.state,
            app.fields@[app.selected as int],
            1,
        ),
        !(app.focus == Focus::Params && (key == Key::Left || key == Key::Right)) ==> state_after(
            app,
            key,
        ) == app.state,
        key == Key::Char('q') ==> command_after(app, key) == AppCommand::Quit,
        key == Key::Char('e') && app.focus == Focus::Params ==> command_after(app, key)
            == AppCommand::Edit(app.fields@[app.selected as int]),
        key == Key::Char('e') && app.focus == Focus::Logs ==> command_after(app, key)
            == AppCommand::Continue,
        key == Key::Char('s') && !app.tuning_active ==> command_after(app, key)
            == AppCommand::StartTuning(app.state),
        key == Key::Char('s') && app.tuning_active ==> command_after(app, key) == AppCommand::Continue,
        key != Key::Char('q') && key != Key::Char('e') && key != Key::Char('s') ==> command_after(
            app,
            key,
        ) == AppCommand::Continue,
{
}

/// Switching the focus twice gives it back.
pub proof fn lemma_toggle_twice(focus: Focus)
    ensures
        toggled(toggled(focus)) == focus,
{
}

/// Keeping the last `n` lines keeps at most `n` lines, and keeps all of them
/// when there are no more than `n`.
pub proof fn lemma_keep_last_len(s: Seq<String>, n: nat)
    ensures
        s.len() <= n ==> keep_last(s, n) == s,
        s.len() > n ==> keep_last(s, n).len() == n,
        forall|k: int|
            0 <= k < keep_last(s, n).len() ==> #[trigger] keep_last(s, n)[k] == s[s.len() - keep_last(
                s,
                n,
            ).len() + k],
{
}

/// The parameter panel lists the probe URLs, then the up range, the down
/// range, and the accuracy, each once.
pub proof fn lemma_field_order()
    ensures
        field_order().len() == 7,
        field_order()[0] == Field::TestFileUrl,
        field_order()[1] == Field::LatencyUrl,
        field_order()[2] == Field::MinUp,
        field_order()[3] == Field::MaxUp,
        field_order()[4] == Field::MinDown,
        field_order()[5] == Field::MaxDown,
        field_order()[6] == Field::TargetAccuracy,
{
}

impl App {
    /// The front end at start: default parameters, the first one selected,
    /// the parameter panel focused, an empty log, no run going on.
    pub fn new() -> (app: App)
        ensures
            is_default(app.state),
            app.selected == 0,
            app.focus == Focus::Params,
            app.log_scroll == 0,
            app.fields@ == field_order(),
            app.logs@.len() == 0,
            !app.tuning_active,
    {
        let fields = vec![
            Field::TestFileUrl,
            Field::LatencyUrl,
            Field::MinUp,
            Field::MaxUp,
            Field::MinDown,
            Field::MaxDown,
            Field::TargetAccuracy,
        ];
        assert(fields@ =~= field_order());
        App {
            state: Tunable::default(),
            selected: 0,
            focus: Focus::Params,
            log_scroll: 0,
            fields,
            logs: Vec::new(),
            tuning_active: false,
        }
    }

    /// Decides `key_allowed` for the current state.
    pub fn key_allowed_check(&self, key: Key) -> (r: bool)
        ensures
            r == key_allowed(*self, key),
    {
        let on_params = self.focus == Focus::Params;
        if on_params && (key == Key::Left || key == Key::Right || key == Key::Char('e')) {
            if self.selected >= self.fields.len() {
                return false;
            }
        }
        if on_params && key == Key::Left {
            if !adjust_fits_check(&self.state, &self.fields[self.selected], -1) {
                return false;
            }
        }
        if on_params && key == Key::Right {
            if !adjust_fits_check(&self.state, &self.fields[self.selected], 1) {
                return false;
            }
        }
        if on_params && key == Key::Down && self.selected == usize::MAX {
            return false;
        }
        true
    }

    /// Reacts to a key: `q` quits, Tab switches the focus, the up and down
    /// keys move the selection or scroll the log, page up and down scroll
    /// the log by five lines, left and right step the selected parameter,
    /// `e` asks for a new value, `s` starts a run unless one is going on.
    pub fn handle_key_event(&mut self, key: Key) -> (r: AppCommand)
        requires
            key_allowed(*old(self), key),
        ensures
            r == command_after(*old(self), key),
            key == Key::Char('q') ==> *final(self) == *old(self),
            key != Key::Char('q') ==> {
                &&& final(self).focus == (if key == Key::Tab {
                    toggled(old(self).focus)
                } else {
                    old(self).focus
                })
                &&& final(self).selected == selected_after(*old(self), key)
                &&& final(self).log_scroll == scroll_after(*old(self), key)
                &&& final(self).state == state_after(*old(self), key)
                &&& final(self).fields == old(self).fields
                &&& final(self).logs@ == (if starts_tuning(*old(self), key) {
                    Seq::<String>::empty()
                } else {
                    old(self).logs@
                })
                &&& final(self).tuning_active == (old(self).tuning_active || starts_tuning(
                    *old(self),
                    key,
                ))
            },
            old(self).selected < old(self).fields.len() ==> final(self).selected < final(self).fields.len(),
    {
        match key {
            Key::Char('q') => {
                return AppCommand::Quit;
            },
            Key::Tab => {
                self.focus = if self.focus == Focus::Params {
                    Focus::Logs
                } else {
                    Focus::Params
                };
            },
            Key::Up => match self.focus {
                Focus::Params => {
                    if self.selected > 0 {
                        self.selected = self.selected - 1;
                    }
                },
                Focus::Logs => {
                    self.log_scroll = self.log_scroll.saturating_add(1);
                },
            },
            Key::Down => match self.focus {
                Focus::Params => {
                    if self.selected + 1 < self.fields.len() {
                        self.selected = self.selected + 1;
                    }
                },
                Focus::Logs => {
                    self.log_scroll = self.log_scroll.saturating_sub(1);
                },
            },
            Key::PageUp => {
                if self.focus == Focus::Logs {
                    self.log_scroll = self.log_scroll.saturating_add(5);
                }
            },
            Key::PageDown => {
                if self.focus == Focus::Logs {
                    self.log_scroll = self.log_scroll.saturating_sub(5);
                }
            },
            Key::Left => {
                if self.focus == Focus::Params {
                    let field = self.fields[self.selected];
                    adjust_field(&mut self.state, &field, -1);
                }
            },
            Key::Right => {
                if self.focus == Focus::Params {
                    let field = self.fields[self.selected];
                    adjust_field(&mut self.state, &field, 1);
                }
            },
            Key::Char('e') => {
                if self.focus == Focus::Params {
                    return AppCommand::Edit(self.fields[self.selected]);
                }
            },
            Key::Char('s') => {
                if !self.tuning_active {
                    let cfg = self.state.snapshot();
                    self.logs.clear();
                    self.log_scroll = 0;
                    self.tuning_active = true;
                    return AppCommand::StartTuning(cfg);
                }
            },
            _ => {},
        }
        AppCommand::Continue
    }

    /// Appends the received log lines, keeping the last 200, and scrolls
    /// back to the newest line if any arrived.
    pub fn update_logs(&mut self, lines: Vec<String>)
        ensures
            final(self).logs@ == (if lines@.len() == 0 {
                old(self).logs@
            } else {
                keep_last(old(self).logs@ + lines@, MAX_LOG_LINES as nat)
            }),
            lines@.len() > 0 ==> final(self).logs@.len() <= MAX_LOG_LINES,
            final(self).log_scroll == (if lines@.len() == 0 {
                old(self).log_scroll
            } else {
                0
            }),
            final(self).state == old(self).state,
            final(self).selected == old(self).selected,
            final(self).focus == old(self).focus,
            final(self).fields == old(self).fields,
            final(self).tuning_active == old(self).tuning_active,
    {
        let n = lines.len();
        let mut i: usize = 0;
        while i < n
            invariant
                n == lines@.len(),
                i <= n,
                self.logs@ == (if i == 0 {
                    old(self).logs@
                } else {
                    keep_last(old(self).logs@ + lines@.take(i as int), MAX_LOG_LINES as nat)
                }),
                self.log_scroll == (if i == 0 {
                    old(self).log_scroll
                } else {
                    0
                }),
                self.state == old(self).state,
                self.selected == old(self).selected,
                self.focus == old(self).focus,
                self.fields == old(self).fields,
                self.tuning_active == old(self).tuning_active,
            decreases n - i,
        {
            let ghost before = self.logs@;
            let line = lines[i].clone();
            self.logs.push(line);
            if self.logs.len() > MAX_LOG_LINES {
                let excess = self.logs.len() - MAX_LOG_LINES;
                let kept = self.logs.split_off(excess);
                self.logs = kept;
            }
            self.log_scroll = 0;
            proof {
                let all = old(self).logs@ + lines@.take(i + 1);
                assert(all =~= (old(self).logs@ + lines@.take(i as int)).push(lines@[i as int]));
                if i > 0 {
                    let prev = old(self).logs@ + lines@.take(i as int);
                    assert(keep_last(prev.push(lines@[i as int]), 200) =~= keep_last(
                        keep_last(prev, 200).push(lines@[i as int]),
                        200,
                    ));
                }
                assert(self.logs@ =~= keep_last(all, 200));
            }
            i = i + 1;
        }
        proof {
            assert(lines@.take(n as int) =~= lines@);
        }
    }

    /// Notes that the tuning run is over once its worker has `finished`;
    /// returns whether the worker is to be joined now.
    pub fn check_tuning_complete(&mut self, finished: bool) -> (join: bool)
        ensures
            join == (old(self).tuning_active && finished),
            final(self).tuning_active == (old(self).tuning_active && !finished),
            final(self).state == old(self).state,
            final(self).selected == old(self).selected,
            final(self).focus == old(self).focus,
            final(self).log_scroll == old(self).log_scroll,
            final(self).fields == old(self).fields,
            final(self).logs == old(self).logs,
    {
        if self.tuning_active && finished {
            self.tuning_active = false;
            true
        } else {
            false
        }
    }
}

} // verus!
