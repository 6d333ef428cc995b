use hy_tuner::config::Tunable;
use hy_tuner::run::{phase_announcement, run_tuning, start_tuning, TuningAction, TuningEvent, TuningStage};
use hy_tuner::tuner::Direction;

#[test]
fn tuning_runs_up_then_down() {
    let cfg = Tunable::default();
    let (mut run, first) = start_tuning(&cfg);
    assert_eq!(first, TuningAction::EnsureBinary);
    assert_eq!(run_tuning(&mut run, TuningEvent::Completed), TuningAction::ReadSocksPort);
    assert_eq!(
        run_tuning(&mut run, TuningEvent::PortRead(1089)),
        TuningAction::PatchBandwidth { direction: Direction::Down, value: 50 }
    );
    assert_eq!(
        run_tuning(&mut run, TuningEvent::Completed),
        TuningAction::Search { direction: Direction::Up, min: 10, max: 500, accuracy: 10, socks_port: 1089 }
    );
    assert_eq!(
        run_tuning(&mut run, TuningEvent::SearchDone(120)),
        TuningAction::PatchBandwidth { direction: Direction::Up, value: 120 }
    );
    assert_eq!(
        run_tuning(&mut run, TuningEvent::Completed),
        TuningAction::Search { direction: Direction::Down, min: 50, max: 2000, accuracy: 10, socks_port: 1089 }
    );
    assert_eq!(run_tuning(&mut run, TuningEvent::SearchDone(700)), TuningAction::Restart);
    assert_eq!(run_tuning(&mut run, TuningEvent::Completed), TuningAction::Verify { socks_port: 1089 });
    assert_eq!(
        run_tuning(&mut run, TuningEvent::Completed),
        TuningAction::Report { best_up: 120, best_down: 700 }
    );
    assert_eq!(run.stage, TuningStage::Done);
    assert_eq!(run_tuning(&mut run, TuningEvent::Completed), TuningAction::Idle);
    assert_eq!(run.stage, TuningStage::Done);
}

#[test]
fn tuning_failure_aborts_and_stays_failed() {
    let cfg = Tunable::default();
    let (mut run, _) = start_tuning(&cfg);
    assert_eq!(run_tuning(&mut run, TuningEvent::Completed), TuningAction::ReadSocksPort);
    assert_eq!(run_tuning(&mut run, TuningEvent::Failed), TuningAction::Abort);
    assert_eq!(run.stage, TuningStage::Failed);
    assert_eq!(run_tuning(&mut run, TuningEvent::PortRead(1)), TuningAction::Idle);
    assert_eq!(run.stage, TuningStage::Failed);
}

#[test]
fn tuning_out_of_turn_answer_fails() {
    let cfg = Tunable::default();
    let (mut run, _) = start_tuning(&cfg);
    assert_eq!(run_tuning(&mut run, TuningEvent::SearchDone(5)), TuningAction::Abort);
    assert_eq!(run.stage, TuningStage::Failed);
}

#[test]
fn tuning_keeps_configured_limits() {
    let mut cfg = Tunable::default();
    cfg.min_up = 5;
    cfg.max_up = 77;
    cfg.min_down = 6;
    cfg.max_down = 88;
    cfg.target_accuracy = 3;
    let (mut run, _) = start_tuning(&cfg);
    run_tuning(&mut run, TuningEvent::Completed);
    assert_eq!(
        run_tuning(&mut run, TuningEvent::PortRead(1080)),
        TuningAction::PatchBandwidth { direction: Direction::Down, value: 6 }
    );
    assert_eq!(
        run_tuning(&mut run, TuningEvent::Completed),
        TuningAction::Search { direction: Direction::Up, min: 5, max: 77, accuracy: 3, socks_port: 1080 }
    );
}

#[test]
fn phase_announcements() {
    assert_eq!(phase_announcement(Direction::Down), "开始第一阶段（固定下行优化上行）");
    assert_eq!(phase_announcement(Direction::Up), "开始第二阶段（固定上行优化下行）");
}
