//! How a request gets hold of a camera: the one in use, or else one that is found
//! and taken into use first.

use vstd::prelude::*;
use crate::booth::{BoothState, MyPhotobooth};
use crate::protocol::{Command, Event};
use crate::status::{Status, StatusText, failed_precondition, internal};

verus! {

/// How far a request is in getting hold of a camera.
#[derive(Debug, Clone, Copy, PartialEq, Eq)]
pub enum Acquire {
    /// About to look whether a camera is in use.
    Check,
    /// A camera is being found.
    Detect,
    /// About to take the camera in use. Other requests had their turn since it was
    /// found there, so that it may be gone.
    Take,
}

/// What follows a step towards a camera. `S` is the type of a text, `String` when
/// it runs and `Seq<char>` in contracts.
pub enum Acquired<C, S> {
    /// Make this call first.
    Ask(Acquire, Command<C, S>),
    /// Here is the camera.
    Ready(C),
    /// There is none to be had.
    Refused(Status<S>),
}

/// What follows a step towards a camera, as contracts see it.
pub type AcquiredText<C> = Acquired<C, Seq<char>>;

impl<C> View for Acquired<C, String> {
    type V = AcquiredText<C>;

    open spec fn view(&self) -> AcquiredText<C> {
        match *self {
            Acquired::Ask(phase, command) => Acquired::Ask(phase, command@),
            Acquired::Ready(camera) => Acquired::Ready(camera),
            Acquired::Refused(status) => Acquired::Refused(status@),
        }
    }
}

/// The message of a request that finds the camera gone.
pub open spec fn not_initialized() -> StatusText {
    failed_precondition("Camera not initialized"@)
}

/// One step towards a camera.
pub open spec fn acquire_next<X, C>(
    booth: BoothState<X, C>,
    phase: Acquire,
    event: Event<C>,
) -> (BoothState<X, C>, AcquiredText<C>) {
    match phase {
        Acquire::Check => if booth.camera is Some {
            (booth, Acquired::Ask(Acquire::Take, Command::Resume))
        } else {
            (booth, Acquired::Ask(Acquire::Detect, Command::DetectCamera))
        },
        Acquire::Detect => match event {
            Event::Detected(camera) => (
                booth.with_camera(Some(camera)),
                Acquired::Ask(Acquire::Take, Command::Resume),
            ),
            Event::Failed(error) => (booth, Acquired::Refused(internal(error@))),
            _ => (booth, Acquired::Ask(Acquire::Detect, Command::DetectCamera)),
        },
        Acquire::Take => match booth.camera {
            Some(camera) => (booth, Acquired::Ready(camera)),
            None => (booth, Acquired::Refused(not_initialized())),
        },
    }
}

/// Whether what a step gave is what was meant, but that the camera handed out may
/// be a clone.
pub open spec fn acquired_as<C: Clone>(given: AcquiredText<C>, meant: AcquiredText<C>) -> bool {
    match meant {
        Acquired::Ready(camera) => given is Ready && cloned(camera, given->Ready_0),
        _ => given == meant,
    }
}

impl<X, C: Clone> MyPhotobooth<X, C> {
    /// Goes one step towards a camera. An outcome that does not answer the search
    /// for a camera leaves everything as it was and asks for the search again.
    pub fn acquire(&mut self, phase: Acquire, event: Event<C>) -> (next: Acquired<C, String>)
        ensures
            final(self)@ == acquire_next(old(self)@, phase, event).0,
            acquired_as(next@, acquire_next(old(self)@, phase, event).1),
    {
        match phase {
            Acquire::Check => if self.has_camera() {
                Acquired::Ask(Acquire::Take, Command::Resume)
            } else {
                Acquired::Ask(Acquire::Detect, Command::DetectCamera)
            },
            Acquire::Detect => match event {
                Event::Detected(camera) => {
                    self.set_camera(camera);
                    Acquired::Ask(Acquire::Take, Command::Resume)
                },
                Event::Failed(error) => Acquired::Refused(Status::internal(error)),
                _ => Acquired::Ask(Acquire::Detect, Command::DetectCamera),
            },
            Acquire::Take => match self.camera() {
                Some(camera) => Acquired::Ready(camera),
                None => Acquired::Refused(
                    Status::failed_precondition("Camera not initialized".to_string()),
                ),
            },
        }
    }
}

/// A camera that is gone is refused with the code 9 and this message.
pub proof fn law_not_initialized()
    ensures
        not_initialized().code == 9,
        not_initialized().message == "Camera not initialized"@,
{
}

/// Contracts see a step towards a camera as it is.
pub proof fn law_acquired_view<C>(step: Acquired<C, String>)
    ensures
        match step {
            Acquired::Ask(phase, command) => step@ matches Acquired::Ask(seen, asked) && seen
                == phase && asked == command@,
            Acquired::Ready(camera) => step@ matches Acquired::Ready(seen) && seen == camera,
            Acquired::Refused(status) => step@ matches Acquired::Refused(seen) && seen.code
                == status.code && seen.message == status.message@,
        },
{
}

/// What a step towards a camera gives is what was meant, but that the camera may be a
/// clone of the one meant.
pub proof fn law_acquired_as<C: Clone>(given: AcquiredText<C>, meant: AcquiredText<C>)
    requires
        acquired_as(given, meant),
    ensures
        match meant {
            Acquired::Ready(camera) => given matches Acquired::Ready(handed) && cloned(
                camera,
                handed,
            ),
            _ => given == meant,
        },
{
}

/// One step towards a camera, whatever the booth and the outcome. A look at the slot
/// tells whether to search; a search that finds a camera puts it in the slot, and one
/// that fails is refused with the text of the failure; the camera that is taken is the
/// one in the slot at that moment.
pub proof fn law_acquire_step<X, C>(booth: BoothState<X, C>, event: Event<C>)
    ensures
        ({
            let (after, step) = acquire_next(booth, Acquire::Check, event);
            &&& after == booth
            &&& booth.camera is Some ==> (step matches Acquired::Ask(phase, command) && phase
                == Acquire::Take && command is Resume)
            &&& booth.camera is None ==> (step matches Acquired::Ask(phase, command) && phase
                == Acquire::Detect && command is DetectCamera)
        }),
        ({
            let (after, step) = acquire_next(booth, Acquire::Detect, event);
            &&& after.context == booth.context
            &&& after.preview == booth.preview
            &&& after.image == booth.image
            &&& after.previewing == booth.previewing
            &&& match event {
                Event::Detected(camera) => {
                    &&& after.camera == Some(camera)
                    &&& step matches Acquired::Ask(phase, command) && phase == Acquire::Take
                        && command is Resume
                },
                Event::Failed(error) => {
                    &&& after.camera == booth.camera
                    &&& step matches Acquired::Refused(status) && status.code == 13
                        && status.message == error@
                },
                _ => {
                    &&& after.camera == booth.camera
                    &&& step matches Acquired::Ask(phase, command) && phase == Acquire::Detect
                        && command is DetectCamera
                },
            }
        }),
        ({
            let (after, step) = acquire_next(booth, Acquire::Take, event);
            &&& after == booth
            &&& booth.camera matches Some(camera) ==> (step matches Acquired::Ready(taken) && taken
                == camera)
            &&& booth.camera is None ==> (step matches Acquired::Refused(status) && status.code == 9
                && status.message == "Camera not initialized"@)
        }),
{
}

} // verus!
