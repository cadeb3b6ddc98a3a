use vstd::prelude::*;

use crate::error::CaptureError;

verus! {

/// Where a capture run stands.
#[derive(Clone, Copy, Debug, PartialEq, Eq, Structural)]
pub enum Stage {
    /// Waiting for the display connection to open.
    Opening,
    /// Connected; waiting for the root-window snapshot.
    Capturing,
    /// Holding the raw frame; waiting for extraction and preview to end.
    Previewing,
    /// Waiting for the raw frame to be destroyed.
    Releasing,
    /// Waiting for the display connection to close.
    Closing,
    /// Nothing is held any more.
    Finished,
}

/// What the driver of a capture run must do next.
#[derive(Clone, Copy, Debug, PartialEq, Eq, Structural)]
pub enum RunAction {
    /// Open the connection to the default display.
    OpenDisplay,
    /// Request a snapshot of the root window.
    CaptureImage,
    /// Extract the pixel buffer from the raw frame and run the preview.
    ExtractAndPreview,
    /// Destroy the raw frame.
    DestroyImage,
    /// Close the display connection.
    CloseDisplay,
    /// Stop; report the error if there is one.
    Finish(Option<CaptureError>),
}

/// How the action last asked for turned out.
#[derive(Clone, Copy, Debug, PartialEq, Eq, Structural)]
pub enum StepOutcome {
    Succeeded,
    Failed(CaptureError),
}

/// A capture run: the stage it has reached, the first error met, and how
/// many times each resource was acquired and released.
#[derive(Clone, Copy, Debug, PartialEq, Eq, Structural)]
pub struct CaptureRun {
    pub stage: Stage,
    pub error: Option<CaptureError>,
    pub connections_opened: u8,
    pub connections_closed: u8,
    pub frames_captured: u8,
    pub frames_destroyed: u8,
}

impl CaptureRun {
    /// The counts agree with the stage: each resource is acquired at most
    /// once and released at most once, and only after it was acquired.
    pub open spec fn wf(self) -> bool {
        &&& self.connections_opened <= 1
        &&& self.frames_captured <= self.connections_opened
        &&& self.frames_destroyed <= self.frames_captured
        &&& self.connections_closed <= self.connections_opened
        &&& match self.stage {
            Stage::Opening => self.connections_opened == 0 && self.error is None,
            Stage::Capturing => self.connections_opened == 1 && self.frames_captured == 0
                && self.connections_closed == 0 && self.error is None,
            Stage::Previewing => self.frames_captured == 1 && self.frames_destroyed == 0
                && self.connections_closed == 0 && self.error is None,
            Stage::Releasing => self.frames_captured == 1 && self.frames_destroyed == 0
                && self.connections_closed == 0,
            Stage::Closing => self.connections_opened == 1 && self.frames_destroyed
                == self.frames_captured && self.connections_closed == 0,
            Stage::Finished => self.frames_destroyed == self.frames_captured
                && self.connections_closed == self.connections_opened,
        }
    }

    /// The run after `o` answered the action asked for in stage `self.stage`.
    pub open spec fn next_spec(self, o: StepOutcome) -> CaptureRun {
        match self.stage {
            Stage::Opening => match o {
                StepOutcome::Succeeded => CaptureRun {
                    stage: Stage::Capturing,
                    connections_opened: 1,
                    ..self
                },
                StepOutcome::Failed(_) => CaptureRun {
                    stage: Stage::Finished,
                    error: Some(CaptureError::ConnectionFailed),
                    ..self
                },
            },
            Stage::Capturing => match o {
                StepOutcome::Succeeded => CaptureRun {
                    stage: Stage::Previewing,
                    frames_captured: 1,
                    ..self
                },
                StepOutcome::Failed(_) => CaptureRun {
                    stage: Stage::Closing,
                    error: Some(CaptureError::CaptureFailed),
                    ..self
                },
            },
            Stage::Previewing => match o {
                StepOutcome::Succeeded => CaptureRun { stage: Stage::Releasing, ..self },
                StepOutcome::Failed(e) => CaptureRun {
                    stage: Stage::Releasing,
                    error: Some(e),
                    ..self
                },
            },
            Stage::Releasing => CaptureRun {
                stage: Stage::Closing,
                frames_destroyed: (self.frames_destroyed + 1) as u8,
                ..self
            },
            Stage::Closing => CaptureRun {
                stage: Stage::Finished,
                connections_closed: (self.connections_closed + 1) as u8,
                ..self
            },
            Stage::Finished => self,
        }
    }

    /// The action the driver must take in the run's current stage.
    pub open spec fn action_spec(self) -> RunAction {
        match self.stage {
            Stage::Opening => RunAction::OpenDisplay,
            Stage::Capturing => RunAction::CaptureImage,
            Stage::Previewing => RunAction::ExtractAndPreview,
            Stage::Releasing => RunAction::DestroyImage,
            Stage::Closing => RunAction::CloseDisplay,
            Stage::Finished => RunAction::Finish(self.error),
        }
    }

    /// A run that has acquired nothing yet.
    pub open spec fn new_spec() -> CaptureRun {
        CaptureRun {
            stage: Stage::Opening,
            error: None,
            connections_opened: 0,
            connections_closed: 0,
            frames_captured: 0,
            frames_destroyed: 0,
        }
    }

    /// A run that has acquired nothing yet; its first action opens the display.
    pub fn new() -> (r: CaptureRun)
        ensures
            r == CaptureRun::new_spec(),
            r.wf(),
    {
        CaptureRun {
            stage: Stage::Opening,
            error: None,
            connections_opened: 0,
            connections_closed: 0,
            frames_captured: 0,
            frames_destroyed: 0,
        }
    }

    /// The action the driver must take now.
    pub fn action(&self) -> (r: RunAction)
        ensures
            r == self.action_spec(),
    {
        match self.stage {
            Stage::Opening => RunAction::OpenDisplay,
            Stage::Capturing => RunAction::CaptureImage,
            Stage::Previewing => RunAction::ExtractAndPreview,
            Stage::Releasing => RunAction::DestroyImage,
            Stage::Closing => RunAction::CloseDisplay,
            Stage::Finished => RunAction::Finish(self.error),
        }
    }

    /// Records how the current action turned out and returns the next one.
    /// A failed connection ends the run at once; a failed capture still
    /// closes the connection; a failed extraction or preview still destroys
    /// the frame and closes the connection. Destroying and closing happen
    /// once each, whatever their outcome.
    pub fn advance(&mut self, o: StepOutcome) -> (r: RunAction)
        requires
            old(self).wf(),
        ensures
            *final(self) == old(self).next_spec(o),
            final(self).wf(),
            r == final(self).action_spec(),
    {
        match self.stage {
            Stage::Opening => match o {
                StepOutcome::Succeeded => {
                    self.stage = Stage::Capturing;
                    self.connections_opened = 1;
                },
                StepOutcome::Failed(_) => {
                    self.stage = Stage::Finished;
                    self.error = Some(CaptureError::ConnectionFailed);
                },
            },
            Stage::Capturing => match o {
                StepOutcome::Succeeded => {
                    self.stage = Stage::Previewing;
                    self.frames_captured = 1;
                },
                StepOutcome::Failed(_) => {
                    self.stage = Stage::Closing;
                    self.error = Some(CaptureError::CaptureFailed);
                },
            },
            Stage::Previewing => {
                self.stage = Stage::Releasing;
                if let StepOutcome::Failed(e) = o {
                    self.error = Some(e);
                }
            },
            Stage::Releasing => {
                self.stage = Stage::Closing;
                self.frames_destroyed = self.frames_destroyed + 1;
            },
            Stage::Closing => {
                self.stage = Stage::Finished;
                self.connections_closed = self.connections_closed + 1;
            },
            Stage::Finished => {},
        }
        self.action()
    }
}

/// The run after the outcomes of `os`, in order.
pub open spec fn run_outcomes(r: CaptureRun, os: Seq<StepOutcome>) -> CaptureRun
    decreases os.len(),
{
    if os.len() == 0 {
        r
    } else {
        run_outcomes(r.next_spec(os[0]), os.drop_first())
    }
}

/// How many more outcomes a run in stage `s` needs at most to finish.
pub open spec fn steps_left(s: Stage) -> nat {
    match s {
        Stage::Opening => 5,
        Stage::Capturing => 4,
        Stage::Previewing => 3,
        Stage::Releasing => 2,
        Stage::Closing => 1,
        Stage::Finished => 0,
    }
}

/// One outcome keeps a run well formed and brings it one stage nearer the end.
pub proof fn lemma_step(r: CaptureRun, o: StepOutcome)
    requires
        r.wf(),
    ensures
        r.next_spec(o).wf(),
        r.stage is Finished ==> r.next_spec(o) == r,
        !(r.stage is Finished) ==> steps_left(r.next_spec(o).stage) < steps_left(r.stage),
{
}

/// Whatever each action's outcome, a run stays well formed, and one that
/// has finished holds nothing: each captured frame was destroyed exactly
/// once and each opened connection closed exactly once.
pub proof fn lemma_lifecycle_balanced(r: CaptureRun, os: Seq<StepOutcome>)
    requires
        r.wf(),
    ensures
        run_outcomes(r, os).wf(),
        run_outcomes(r, os).stage is Finished ==> {
            &&& run_outcomes(r, os).frames_destroyed == run_outcomes(r, os).frames_captured
            &&& run_outcomes(r, os).connections_closed == run_outcomes(r, os).connections_opened
            &&& run_outcomes(r, os).connections_closed <= 1
            &&& run_outcomes(r, os).frames_destroyed <= 1
        },
    decreases os.len(),
{
    if os.len() > 0 {
        lemma_step(r, os[0]);
        lemma_lifecycle_balanced(r.next_spec(os[0]), os.drop_first());
    }
}

/// A run finishes after at most `steps_left` outcomes, whatever they are,
/// and then asks only to stop.
pub proof fn lemma_run_finishes(r: CaptureRun, os: Seq<StepOutcome>)
    requires
        r.wf(),
        os.len() >= steps_left(r.stage),
    ensures
        run_outcomes(r, os).stage is Finished,
        run_outcomes(r, os).action_spec() is Finish,
    decreases os.len(),
{
    if os.len() > 0 {
        lemma_step(r, os[0]);
        lemma_run_finishes(r.next_spec(os[0]), os.drop_first());
    }
}

/// A run whose capture succeeded destroys exactly one frame and closes
/// exactly one connection by the time it finishes.
pub proof fn lemma_successful_capture_released(os: Seq<StepOutcome>)
    requires
        os.len() >= 5,
        os[0] == StepOutcome::Succeeded,
        os[1] == StepOutcome::Succeeded,
    ensures
        run_outcomes(CaptureRun::new_spec(), os).frames_captured == 1,
        run_outcomes(CaptureRun::new_spec(), os).frames_destroyed == 1,
        run_outcomes(CaptureRun::new_spec(), os).connections_closed == 1,
{
    let r0 = CaptureRun::new_spec();
    let r1 = r0.next_spec(os[0]);
    let r2 = r1.next_spec(os[1]);
    assert(run_outcomes(r0, os) == run_outcomes(r1, os.drop_first()));
    assert(os.drop_first().drop_first() =~= os.subrange(2, os.len() as int));
    assert(run_outcomes(r1, os.drop_first()) == run_outcomes(r2, os.subrange(2, os.len() as int)));
    lemma_run_finishes(r2, os.subrange(2, os.len() as int));
    lemma_captured_stays(r2, os.subrange(2, os.len() as int));
    lemma_lifecycle_balanced(r2, os.subrange(2, os.len() as int));
}

proof fn lemma_captured_stays(r: CaptureRun, os: Seq<StepOutcome>)
    requires
        r.wf(),
        r.frames_captured == 1,
    ensures
        run_outcomes(r, os).frames_captured == 1,
        run_outcomes(r, os).connections_opened == 1,
    decreases os.len(),
{
    if os.len() > 0 {
        lemma_step(r, os[0]);
        lemma_captured_stays(r.next_spec(os[0]), os.drop_first());
    }
}

} // verus!
