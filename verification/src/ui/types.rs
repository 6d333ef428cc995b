//! The front end's small types.

use vstd::prelude::*;

verus! {

/// A parameter the user can edit.
#[derive(Clone, Copy, Debug, PartialEq, Eq, Structural)]
pub enum Field {
    TestFileUrl,
    LatencyUrl,
    MinUp,
    MaxUp,
    MinDown,
    MaxDown,
    TargetAccuracy,
}

/// The panel that takes the arrow keys.
#[derive(Clone, Copy, Debug, PartialEq, Eq, Structural)]
pub enum Focus {
    Params,
    Logs,
}

/// A key the front end reacts to; every other key is `Other`.
#[derive(Clone, Copy, Debug, PartialEq, Eq, Structural)]
pub enum Key {
    Char(char),
    Tab,
    Up,
    Down,
    PageUp,
    PageDown,
    Left,
    Right,
    Other,
}

} // verus!
