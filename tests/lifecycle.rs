use duck_shot::error::CaptureError;
use duck_shot::lifecycle::{CaptureRun, RunAction, Stage, StepOutcome};

fn drive(outcomes: &[StepOutcome]) -> (CaptureRun, Vec<RunAction>) {
    let mut run = CaptureRun::new();
    let mut actions = vec![run.action()];
    for o in outcomes {
        actions.push(run.advance(*o));
    }
    (run, actions)
}

const OK: StepOutcome = StepOutcome::Succeeded;

#[test]
fn successful_run_releases_everything_once() {
    let (run, actions) = drive(&[OK, OK, OK, OK, OK]);
    assert_eq!(
        actions,
        vec![
            RunAction::OpenDisplay,
            RunAction::CaptureImage,
            RunAction::ExtractAndPreview,
            RunAction::DestroyImage,
            RunAction::CloseDisplay,
            RunAction::Finish(None),
        ]
    );
    assert_eq!(run.stage, Stage::Finished);
    assert_eq!((run.frames_captured, run.frames_destroyed), (1, 1));
    assert_eq!((run.connections_opened, run.connections_closed), (1, 1));
}

#[test]
fn failed_connection_holds_nothing() {
    let (run, actions) = drive(&[StepOutcome::Failed(CaptureError::ConnectionFailed)]);
    assert_eq!(actions, vec![RunAction::OpenDisplay, RunAction::Finish(Some(CaptureError::ConnectionFailed))]);
    assert_eq!((run.connections_opened, run.connections_closed), (0, 0));
    assert_eq!((run.frames_captured, run.frames_destroyed), (0, 0));
}

#[test]
fn failed_capture_still_closes_connection() {
    let (run, actions) = drive(&[OK, StepOutcome::Failed(CaptureError::CaptureFailed), OK]);
    assert_eq!(
        actions,
        vec![
            RunAction::OpenDisplay,
            RunAction::CaptureImage,
            RunAction::CloseDisplay,
            RunAction::Finish(Some(CaptureError::CaptureFailed)),
        ]
    );
    assert_eq!((run.connections_opened, run.connections_closed), (1, 1));
    assert_eq!((run.frames_captured, run.frames_destroyed), (0, 0));
}

#[test]
fn failed_preview_still_destroys_frame() {
    let (run, actions) = drive(&[OK, OK, StepOutcome::Failed(CaptureError::UnsupportedFormat), OK, OK]);
    assert_eq!(actions[3], RunAction::DestroyImage);
    assert_eq!(actions[4], RunAction::CloseDisplay);
    assert_eq!(actions[5], RunAction::Finish(Some(CaptureError::UnsupportedFormat)));
    assert_eq!((run.frames_captured, run.frames_destroyed), (1, 1));
    assert_eq!((run.connections_opened, run.connections_closed), (1, 1));
}

#[test]
fn finished_run_stays_finished() {
    let (mut run, _) = drive(&[OK, OK, OK, OK, OK]);
    let done = run;
    assert_eq!(run.advance(OK), RunAction::Finish(None));
    assert_eq!(run.advance(StepOutcome::Failed(CaptureError::SurfaceAcquireFailed)), RunAction::Finish(None));
    assert_eq!(run, done);
}
