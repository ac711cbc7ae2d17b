//! Starting and stopping the preview, and the task that keeps shooting it.

use vstd::prelude::*;
use crate::acquire::{Acquire, Acquired, acquire_next};
use crate::booth::{BoothState, MyPhotobooth};
use crate::protocol::{Answer, Command, Event, Next, Step, StepText, agrees, ok, refuse};

verus! {

/// The rest between two frames, about thirty a second.
pub const FRAME_MILLIS: u64 = 33;

/// How far a request to start the preview is.
#[derive(Debug, Clone, Copy, PartialEq, Eq)]
pub enum StartPreview {
    Begin,
    Camera(Acquire),
    Spawned,
}

/// One step of a request to start the preview. The booth counts as previewing from
/// the first step on, whatever becomes of the camera.
pub open spec fn start_preview_next<X, C>(
    booth: BoothState<X, C>,
    request: StartPreview,
    event: Event<C>,
) -> (BoothState<X, C>, StepText<StartPreview, C>) {
    match request {
        StartPreview::Begin => start_preview_camera(
            booth.with_previewing(true),
            Acquire::Check,
            event,
        ),
        StartPreview::Camera(phase) => start_preview_camera(booth, phase, event),
        StartPreview::Spawned => (booth, ok()),
    }
}

/// One step of a request to start the preview while it gets hold of a camera.
pub open spec fn start_preview_camera<X, C>(
    booth: BoothState<X, C>,
    phase: Acquire,
    event: Event<C>,
) -> (BoothState<X, C>, StepText<StartPreview, C>) {
    let (after, acquired) = acquire_next(booth, phase, event);
    match acquired {
        Acquired::Ask(phase, command) => (after, Next::Ask(StartPreview::Camera(phase), command)),
        Acquired::Ready(camera) => (
            after,
            Next::Ask(StartPreview::Spawned, Command::SpawnPreview(camera)),
        ),
        Acquired::Refused(status) => (after, refuse(status)),
    }
}

/// How far a request to stop the preview is.
#[derive(Debug, Clone, Copy, PartialEq, Eq)]
pub enum StopPreview {
    Begin,
    Notified,
}

/// One step of a request to stop the preview. It does nothing unless the booth is
/// previewing.
pub open spec fn stop_preview_next<X, C>(
    booth: BoothState<X, C>,
    request: StopPreview,
) -> (BoothState<X, C>, StepText<StopPreview, C>) {
    match request {
        StopPreview::Begin => if booth.previewing {
            (booth, Next::Ask(StopPreview::Notified, Command::NotifyStop))
        } else {
            (booth, ok())
        },
        StopPreview::Notified => (booth.with_camera(None), ok()),
    }
}

/// What the preview task is at.
#[derive(Debug, Clone, Copy, PartialEq, Eq)]
pub enum PreviewTask {
    Begin,
    Shooting,
    Reading,
    Announcing,
    Resting,
}

/// One step of the preview task. It ends only when it is asked to stop; a frame
/// that fails is passed over.
pub open spec fn preview_task_next<X, C>(
    booth: BoothState<X, C>,
    task: PreviewTask,
    event: Event<C>,
) -> (BoothState<X, C>, StepText<PreviewTask, C>) {
    let shoot: StepText<PreviewTask, C> = Next::Ask(PreviewTask::Shooting, Command::ShootPreview);
    let rest: StepText<PreviewTask, C> = Next::Ask(
        PreviewTask::Resting,
        Command::Pause { millis: FRAME_MILLIS },
    );
    match task {
        PreviewTask::Begin | PreviewTask::Resting => (booth, shoot),
        PreviewTask::Shooting => match event {
            Event::Stopped => (booth.with_previewing(false), ok()),
            Event::Done => (booth, Next::Ask(PreviewTask::Reading, Command::ReadData)),
            Event::Failed(_) => (booth, rest),
            _ => (booth, shoot),
        },
        PreviewTask::Reading => match event {
            Event::Data(bytes) => (
                booth.with_preview(bytes@),
                Next::Ask(PreviewTask::Announcing, Command::NotifyFrame),
            ),
            Event::Failed(_) => (booth, rest),
            _ => (booth, Next::Ask(PreviewTask::Reading, Command::ReadData)),
        },
        PreviewTask::Announcing => (booth, rest),
    }
}

impl<X, C: Clone> MyPhotobooth<X, C> {
    /// Advances a request to start the preview by one step.
    pub fn start_preview(&mut self, request: StartPreview, event: Event<C>) -> (next: Step<
        StartPreview,
        C,
    >)
        ensures
            final(self)@ == start_preview_next(old(self)@, request, event).0,
            agrees(next@, start_preview_next(old(self)@, request, event).1),
    {
        let phase = match request {
            StartPreview::Begin => {
                self.set_status_previewing(true);
                Acquire::Check
            },
            StartPreview::Camera(phase) => phase,
            StartPreview::Spawned => {
                return Next::Reply(Ok(Answer::Empty));
            },
        };
        match self.acquire(phase, event) {
            Acquired::Ask(phase, command) => Next::Ask(StartPreview::Camera(phase), command),
            Acquired::Ready(camera) => {
                Next::Ask(StartPreview::Spawned, Command::SpawnPreview(camera))
            },
            Acquired::Refused(status) => Next::Reply(Err(status)),
        }
    }

    /// Advances a request to stop the preview by one step.
    pub fn stop_preview(&mut self, request: StopPreview) -> (next: Step<StopPreview, C>)
        ensures
            final(self)@ == stop_preview_next(old(self)@, request).0,
            next@ == stop_preview_next(old(self)@, request).1,
    {
        match request {
            StopPreview::Begin => if self.get_status_previewing() {
                Next::Ask(StopPreview::Notified, Command::NotifyStop)
            } else {
                Next::Reply(Ok(Answer::Empty))
            },
            StopPreview::Notified => {
                self.shutdown_camera();
                Next::Reply(Ok(Answer::Empty))
            },
        }
    }

    /// Advances the preview task by one step. An outcome that answers neither a
    /// shot nor the reading of one leaves everything as it was and asks again.
    pub fn preview_task(&mut self, task: PreviewTask, event: Event<C>) -> (next: Step<
        PreviewTask,
        C,
    >)
        ensures
            final(self)@ == preview_task_next(old(self)@, task, event).0,
            next@ == preview_task_next(old(self)@, task, event).1,
    {
        match task {
            PreviewTask::Begin | PreviewTask::Resting => {
                Next::Ask(PreviewTask::Shooting, Command::ShootPreview)
            },
            PreviewTask::Shooting => match event {
                Event::Stopped => {
                    self.set_status_previewing(false);
                    Next::Reply(Ok(Answer::Empty))
                },
                Event::Done => Next::Ask(PreviewTask::Reading, Command::ReadData),
                Event::Failed(_) => {
                    Next::Ask(PreviewTask::Resting, Command::Pause { millis: FRAME_MILLIS })
                },
                _ => Next::Ask(PreviewTask::Shooting, Command::ShootPreview),
            },
            PreviewTask::Reading => match event {
                Event::Data(bytes) => {
                    self.store_preview(bytes);
                    Next::Ask(PreviewTask::Announcing, Command::NotifyFrame)
                },
                Event::Failed(_) => {
                    Next::Ask(PreviewTask::Resting, Command::Pause { millis: FRAME_MILLIS })
                },
                _ => Next::Ask(PreviewTask::Reading, Command::ReadData),
            },
            PreviewTask::Announcing => {
                Next::Ask(PreviewTask::Resting, Command::Pause { millis: FRAME_MILLIS })
            },
        }
    }
}

} // verus!
