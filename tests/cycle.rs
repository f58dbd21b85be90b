use volp_raspberrypi::cycle::{cycle_step, CycleAction, CycleEvent, Stage};
use volp_raspberrypi::error::PipelineError;

fn run(events: &[CycleEvent]) -> (Stage, Vec<CycleAction>) {
    let mut stage = Stage::Waiting;
    let mut actions = Vec::new();
    for e in events {
        let (next, action) = cycle_step(stage, *e);
        stage = next;
        actions.push(action);
    }
    (stage, actions)
}

#[test]
fn a_cycle_runs_its_stages_in_order() {
    let (stage, actions) = run(&[
        CycleEvent::Trigger(false),
        CycleEvent::Trigger(true),
        CycleEvent::Captured,
        CycleEvent::Uploaded,
        CycleEvent::Linked,
        CycleEvent::Published,
    ]);
    assert_eq!(stage, Stage::Waiting);
    assert_eq!(
        actions,
        vec![
            CycleAction::Poll,
            CycleAction::StartCapture,
            CycleAction::Upload,
            CycleAction::ExtractLink,
            CycleAction::Publish,
            CycleAction::Poll,
        ]
    );
}

#[test]
fn a_failure_aborts_the_cycle() {
    let (stage, actions) = run(&[
        CycleEvent::Trigger(true),
        CycleEvent::Captured,
        CycleEvent::Failed(PipelineError::MissingObjectId),
    ]);
    assert_eq!(stage, Stage::Waiting);
    assert_eq!(actions[2], CycleAction::Abort(PipelineError::MissingObjectId));
}

#[test]
fn out_of_order_reports_skip_nothing() {
    let (stage, actions) = run(&[CycleEvent::Linked, CycleEvent::Trigger(true), CycleEvent::Published]);
    assert_eq!(stage, Stage::Capturing);
    assert_eq!(actions, vec![CycleAction::Poll, CycleAction::StartCapture, CycleAction::StartCapture]);
}
