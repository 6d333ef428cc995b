//! A tuning run as a state machine: the up bandwidth is searched first with
//! the down bandwidth pinned at its minimum, then the down bandwidth with the
//! up bandwidth pinned at the best value found, and the result is verified
//! once more. The caller performs each action and reports how it went.

use vstd::prelude::*;
use crate::config::Tunable;
use crate::tuner::Direction;

verus! {

/// Where a tuning run stands: the step whose outcome it waits for.
#[derive(Clone, Copy, Debug, PartialEq, Eq, Structural)]
pub enum TuningStage {
    InstallingBinary,
    ReadingPort,
    PinningDown,
    SearchingUp,
    PinningUp,
    SearchingDown,
    Restarting,
    Verifying,
    Done,
    Failed,
}

/// What the caller is to do next.
#[derive(Clone, Copy, Debug, PartialEq, Eq, Structural)]
pub enum TuningAction {
    /// Make sure the hysteria2 binary exists, downloading it if need be.
    EnsureBinary,
    /// Read the socks5 port from the hysteria2 config.
    ReadSocksPort,
    /// Write `value` as the `direction` bandwidth into the config.
    PatchBandwidth { direction: Direction, value: u32 },
    /// Search the best `direction` bandwidth in `[min, max]`.
    Search { direction: Direction, min: u32, max: u32, accuracy: u32, socks_port: u16 },
    /// Restart the hysteria2 client with the tuned config.
    Restart,
    /// Measure the tuned connection carefully through the socks5 port.
    Verify { socks_port: u16 },
    /// Report the best bandwidths; the run is complete.
    Report { best_up: u32, best_down: u32 },
    /// Give up: the last step failed or was answered out of turn.
    Abort,
    /// Nothing is left to do.
    Idle,
}

/// How the last action went.
#[derive(Clone, Copy, Debug, PartialEq, Eq, Structural)]
pub enum TuningEvent {
    /// The action succeeded and yields nothing.
    Completed,
    /// The socks5 port was read.
    PortRead(u16),
    /// A search finished with this best bandwidth.
    SearchDone(u32),
    /// The action failed.
    Failed,
}

/// A tuning run: its stage, the configured limits, and what it has found.
#[derive(Clone, Copy, Debug, PartialEq, Eq, Structural)]
pub struct TuningRun {
    pub stage: TuningStage,
    pub min_up: u32,
    pub max_up: u32,
    pub min_down: u32,
    pub max_down: u32,
    pub accuracy: u32,
    pub socks_port: u16,
    pub best_up: u32,
    pub best_down: u32,
}

/// A run that has just begun, for the parameters `cfg`.
pub open spec fn tuning_start(cfg: Tunable) -> TuningRun {
    TuningRun {
        stage: TuningStage::InstallingBinary,
        min_up: cfg.min_up,
        max_up: cfg.max_up,
        min_down: cfg.min_down,
        max_down: cfg.max_down,
        accuracy: cfg.target_accuracy,
        socks_port: 0,
        best_up: 0,
        best_down: 0,
    }
}

/// The run is over, finished or failed.
pub open spec fn is_terminal(stage: TuningStage) -> bool {
    stage == TuningStage::Done || stage == TuningStage::Failed
}

/// The position of a stage in the order a run goes through them.
pub open spec fn stage_rank(stage: TuningStage) -> int {
    match stage {
        TuningStage::InstallingBinary => 0,
        TuningStage::ReadingPort => 1,
        TuningStage::PinningDown => 2,
        TuningStage::SearchingUp => 3,
        TuningStage::PinningUp => 4,
        TuningStage::SearchingDown => 5,
        TuningStage::Restarting => 6,
        TuningStage::Verifying => 7,
        TuningStage::Done => 8,
        TuningStage::Failed => 9,
    }
}

/// The next state and action of `run` once `event` reports the outcome of
/// its pending step: each expected outcome moves the run one stage on, any
/// other outcome fails it, and a finished or failed run stays as it is.
pub open spec fn tuning_next(run: TuningRun, event: TuningEvent) -> (TuningRun, TuningAction) {
    let failed = (TuningRun { stage: TuningStage::Failed, ..run }, TuningAction::Abort);
    match run.stage {
        TuningStage::InstallingBinary => match event {
            TuningEvent::Completed => (
                TuningRun { stage: TuningStage::ReadingPort, ..run },
                TuningAction::ReadSocksPort,
            ),
            _ => failed,
        },
        TuningStage::ReadingPort => match event {
            TuningEvent::PortRead(port) => (
                TuningRun { stage: TuningStage::PinningDown, socks_port: port, ..run },
                TuningAction::PatchBandwidth { direction: Direction::Down, value: run.min_down },
            ),
            _ => failed,
        },
        TuningStage::PinningDown => match event {
            TuningEvent::Completed => (
                TuningRun { stage: TuningStage::SearchingUp, ..run },
                TuningAction::Search {
                    direction: Direction::Up,
                    min: run.min_up,
                    max: run.max_up,
                    accuracy: run.accuracy,
                    socks_port: run.socks_port,
                },
            ),
            _ => failed,
        },
        TuningStage::SearchingUp => match event {
            TuningEvent::SearchDone(best) => (
                TuningRun { stage: TuningStage::PinningUp, best_up: best, ..run },
                TuningAction::PatchBandwidth { direction: Direction::Up, value: best },
            ),
            _ => failed,
        },
        TuningStage::PinningUp => match event {
            TuningEvent::Completed => (
                TuningRun { stage: TuningStage::SearchingDown, ..run },
                TuningAction::Search {
                    direction: Direction::Down,
                    min: run.min_down,
                    max: run.max_down,
                    accuracy: run.accuracy,
                    socks_port: run.socks_port,
                },
            ),
            _ => failed,
        },
        TuningStage::SearchingDown => match event {
            TuningEvent::SearchDone(best) => (
                TuningRun { stage: TuningStage::Restarting, best_down: best, ..run },
                TuningAction::Restart,
            ),
            _ => failed,
        },
        TuningStage::Restarting => match event {
            TuningEvent::Completed => (
                TuningRun { stage: TuningStage::Verifying, ..run },
                TuningAction::Verify { socks_port: run.socks_port },
            ),
            _ => failed,
        },
        TuningStage::Verifying => match event {
            TuningEvent::Completed => (
                TuningRun { stage: TuningStage::Done, ..run },
                TuningAction::Report { best_up: run.best_up, best_down: run.best_down },
            ),
            _ => failed,
        },
        TuningStage::Done => (run, TuningAction::Idle),
        TuningStage::Failed => (run, TuningAction::Idle),
    }
}

/// Begins a tuning run for `cfg`; its first action is to make sure the
/// hysteria2 binary is there.
pub fn start_tuning(cfg: &Tunable) -> (r: (TuningRun, TuningAction))
    ensures
        r.0 == tuning_start(*cfg),
        r.1 == TuningAction::EnsureBinary,
{
    (
        TuningRun {
            stage: TuningStage::InstallingBinary,
            min_up: cfg.min_up,
            max_up: cfg.max_up,
            min_down: cfg.min_down,
            max_down: cfg.max_down,
            accuracy: cfg.target_accuracy,
            socks_port: 0,
            best_up: 0,
            best_down: 0,
        },
        TuningAction::EnsureBinary,
    )
}

/// Advances `run` by the outcome `event` of its pending step and returns
/// the next action.
pub fn run_tuning(run: &mut TuningRun, event: TuningEvent) -> (action: TuningAction)
    ensures
        (*final(run), action) == tuning_next(*old(run), event),
{
    let failed_stage = TuningStage::Failed;
    match run.stage {
        TuningStage::InstallingBinary => match event {
            TuningEvent::Completed => {
                run.stage = TuningStage::ReadingPort;
                TuningAction::ReadSocksPort
            },
            _ => {
                run.stage = failed_stage;
                TuningAction::Abort
            },
        },
        TuningStage::ReadingPort => match event {
            TuningEvent::PortRead(port) => {
                run.stage = TuningStage::PinningDown;
                run.socks_port = port;
                TuningAction::PatchBandwidth { direction: Direction::Down, value: run.min_down }
            },
            _ => {
                run.stage = failed_stage;
                TuningAction::Abort
            },
        },
        TuningStage::PinningDown => match event {
            TuningEvent::Completed => {
                run.stage = TuningStage::SearchingUp;
                TuningAction::Search {
                    direction: Direction::Up,
                    min: run.min_up,
                    max: run.max_up,
                    accuracy: run.accuracy,
                    socks_port: run.socks_port,
                }
            },
            _ => {
                run.stage = failed_stage;
                TuningAction::Abort
            },
        },
        TuningStage::SearchingUp => match event {
            TuningEvent::SearchDone(best) => {
                run.stage = TuningStage::PinningUp;
                run.best_up = best;
                TuningAction::PatchBandwidth { direction: Direction::Up, value: best }
            },
            _ => {
                run.stage = failed_stage;
                TuningAction::Abort
            },
        },
        TuningStage::PinningUp => match event {
            TuningEvent::Completed => {
                run.stage = TuningStage::SearchingDown;
                TuningAction::Search {
                    direction: Direction::Down,
                    min: run.min_down,
                    max: run.max_down,
                    accuracy: run.accuracy,
                    socks_port: run.socks_port,
                }
            },
            _ => {
                run.stage = failed_stage;
                TuningAction::Abort
            },
        },
        TuningStage::SearchingDown => match event {
            TuningEvent::SearchDone(best) => {
                run.stage = TuningStage::Restarting;
                run.best_down = best;
                TuningAction::Restart
            },
            _ => {
                run.stage = failed_stage;
                TuningAction::Abort
            },
        },
        TuningStage::Restarting => match event {
            TuningEvent::Completed => {
                run.stage = TuningStage::Verifying;
                TuningAction::Verify { socks_port: run.socks_port }
            },
            _ => {
                run.stage = failed_stage;
                TuningAction::Abort
            },
        },
        TuningStage::Verifying => match event {
            TuningEvent::Completed => {
                run.stage = TuningStage::Done;
                TuningAction::Report { best_up: run.best_up, best_down: run.best_down }
            },
            _ => {
                run.stage = failed_stage;
                TuningAction::Abort
            },
        },
        TuningStage::Done => TuningAction::Idle,
        TuningStage::Failed => TuningAction::Idle,
    }
}


/// The log line that announces a pinning step: pinning the down bandwidth
/// starts the first phase (optimizing up), pinning the up bandwidth the
/// second (optimizing down).
pub fn phase_announcement(direction: Direction) -> (r: &'static str)
    ensures
        r@ == (match direction {
            Direction::Down => "开始第一阶段（固定下行优化上行）"@,
            Direction::Up => "开始第二阶段（固定上行优化下行）"@,
        }),
{
    match direction {
        Direction::Down => "开始第一阶段（固定下行优化上行）",
        Direction::Up => "开始第二阶段（固定上行优化下行）",
    }
}

/// A run in which every step succeeds goes through its actions in this
/// order: install, read the port, pin the down bandwidth at its minimum,
/// search the up bandwidth, pin it at the best value found, search the down
/// bandwidth, restart, verify, and report both best values.
pub proof fn lemma_tuning_order(cfg: Tunable, port: u16, up: u32, down: u32)
    ensures
        ({
            let s0 = tuning_start(cfg);
            let (s1, a1) = tuning_next(s0, TuningEvent::Completed);
            let (s2, a2) = tuning_next(s1, TuningEvent::PortRead(port));
            let (s3, a3) = tuning_next(s2, TuningEvent::Completed);
            let (s4, a4) = tuning_next(s3, TuningEvent::SearchDone(up));
            let (s5, a5) = tuning_next(s4, TuningEvent::Completed);
            let (s6, a6) = tuning_next(s5, TuningEvent::SearchDone(down));
            let (s7, a7) = tuning_next(s6, TuningEvent::Completed);
            let (s8, a8) = tuning_next(s7, TuningEvent::Completed);
            &&& a1 == TuningAction::ReadSocksPort
            &&& a2 == TuningAction::PatchBandwidth { direction: Direction::Down, value: cfg.min_down }
            &&& a3 == TuningAction::Search {
                direction: Direction::Up,
                min: cfg.min_up,
                max: cfg.max_up,
                accuracy: cfg.target_accuracy,
                socks_port: port,
            }
            &&& a4 == TuningAction::PatchBandwidth { direction: Direction::Up, value: up }
            &&& a5 == TuningAction::Search {
                direction: Direction::Down,
                min: cfg.min_down,
                max: cfg.max_down,
                accuracy: cfg.target_accuracy,
                socks_port: port,
            }
            &&& a6 == TuningAction::Restart
            &&& a7 == TuningAction::Verify { socks_port: port }
            &&& a8 == TuningAction::Report { best_up: up, best_down: down }
            &&& s8.stage == TuningStage::Done
        }),
{
}

/// A failed step fails the run, and a finished or failed run does nothing
/// more, whatever it is told.
pub proof fn lemma_tuning_failure_is_final(run: TuningRun, event: TuningEvent)
    ensures
        !is_terminal(run.stage) && event == TuningEvent::Failed ==> tuning_next(run, event).0.stage
            == TuningStage::Failed && tuning_next(run, event).1 == TuningAction::Abort,
        is_terminal(run.stage) ==> tuning_next(run, event) == (run, TuningAction::Idle),
{
}

/// Every event moves an unfinished run exactly one stage on or fails it, so
/// a run ends after at most nine events.
pub proof fn lemma_tuning_progress(run: TuningRun, event: TuningEvent)
    requires
        !is_terminal(run.stage),
    ensures
        tuning_next(run, event).0.stage == TuningStage::Failed || stage_rank(
            tuning_next(run, event).0.stage,
        ) == stage_rank(run.stage) + 1,
{
}

/// A run keeps the limits it was started with.
pub proof fn lemma_tuning_keeps_limits(run: TuningRun, event: TuningEvent)
    ensures
        ({
            let next = tuning_next(run, event).0;
            &&& next.min_up == run.min_up
            &&& next.max_up == run.max_up
            &&& next.min_down == run.min_down
            &&& next.max_down == run.max_down
            &&& next.accuracy == run.accuracy
        }),
{
}

} // verus!
