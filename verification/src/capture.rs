//! Taking a picture: the camera's shutter is released through one of its options,
//! and the file that the camera then reports is fetched.

use vstd::prelude::*;
use crate::acquire::{Acquire, Acquired, acquire_next};
use crate::booth::{BoothState, MyPhotobooth};
use crate::camera::{CameraEvent, FilePath};
use crate::protocol::{
    Answer, Command, Event, Next, Step, StepText, agrees, ok, refuse, unless_failed,
};
use crate::status::{Status, failed_precondition};

verus! {

/// How long the camera is waited on for one event, in seconds.
pub const WAIT_SECONDS: u64 = 10;

/// How many events other than the new file are passed over.
pub const MAX_RETRY: u32 = 1000;

/// How far a request to take a picture is.
#[derive(Debug, PartialEq, Eq)]
pub enum CaptureImage {
    /// Getting hold of a camera.
    Camera(Acquire),
    /// The camera is held.
    Held,
    /// The release option is being fetched.
    Fetching,
    /// `Immediate` is being chosen.
    ChoosingImmediate,
    /// `Immediate` is being written to the camera.
    ApplyingImmediate,
    /// `Release Full` is being chosen.
    ChoosingRelease,
    /// `Release Full` is being written to the camera.
    ApplyingRelease,
    /// The camera is waited on; so many events were passed over.
    Waiting { retry: u32 },
    /// The new file is being downloaded.
    Downloading(FilePath),
    /// The bytes of the new file are being read.
    Reading(FilePath),
    /// The image is stored, and its file is being deleted from the camera.
    Deleting,
}

/// The call that waits on the camera.
pub open spec fn wait<C>(retry: u32) -> StepText<CaptureImage, C> {
    Next::Ask(CaptureImage::Waiting { retry }, Command::WaitEvent { seconds: WAIT_SECONDS })
}

/// What follows an event of the camera that is waited on, when so many were passed
/// over before.
pub open spec fn waited<C>(retry: u32, event: CameraEvent) -> StepText<CaptureImage, C> {
    match event {
        CameraEvent::NewFile(file) => Next::Ask(
            CaptureImage::Downloading(file),
            Command::Download { folder: file.folder@, name: file.name@ },
        ),
        CameraEvent::Timeout => refuse(failed_precondition("Timeout No new file added"@)),
        _ => if retry + 1 > MAX_RETRY {
            refuse(failed_precondition("No new file added"@))
        } else {
            wait((retry + 1) as u32)
        },
    }
}

/// One step of a request to take a picture.
pub open spec fn capture_image_next<X, C>(
    booth: BoothState<X, C>,
    request: CaptureImage,
    event: Event<C>,
) -> (BoothState<X, C>, StepText<CaptureImage, C>) {
    match request {
        CaptureImage::Camera(phase) => {
            let (after, acquired) = acquire_next(booth, phase, event);
            match acquired {
                Acquired::Ask(phase, command) => (
                    after,
                    Next::Ask(CaptureImage::Camera(phase), command),
                ),
                Acquired::Ready(camera) => (
                    after,
                    Next::Ask(CaptureImage::Held, Command::HoldCamera(camera)),
                ),
                Acquired::Refused(status) => (after, refuse(status)),
            }
        },
        CaptureImage::Held => (
            booth,
            Next::Ask(
                CaptureImage::Fetching,
                Command::FetchRadio { name: "eosremoterelease"@ },
            ),
        ),
        CaptureImage::Fetching => (
            booth,
            unless_failed(
                event,
                Next::Ask(
                    CaptureImage::ChoosingImmediate,
                    Command::Choose { choice: "Immediate"@ },
                ),
            ),
        ),
        CaptureImage::ChoosingImmediate => (
            booth,
            unless_failed(
                event,
                Next::Ask(CaptureImage::ApplyingImmediate, Command::ApplyConfig),
            ),
        ),
        CaptureImage::ApplyingImmediate => (
            booth,
            unless_failed(
                event,
                Next::Ask(
                    CaptureImage::ChoosingRelease,
                    Command::Choose { choice: "Release Full"@ },
                ),
            ),
        ),
        CaptureImage::ChoosingRelease => (
            booth,
            unless_failed(
                event,
                Next::Ask(CaptureImage::ApplyingRelease, Command::ApplyConfig),
            ),
        ),
        CaptureImage::ApplyingRelease => (booth, unless_failed(event, wait(0))),
        CaptureImage::Waiting { retry } => match event {
            Event::Camera(reported) => (booth, waited(retry, reported)),
            _ => (booth, unless_failed(event, wait(retry))),
        },
        CaptureImage::Downloading(file) => (
            booth,
            unless_failed(event, Next::Ask(CaptureImage::Reading(file), Command::ReadData)),
        ),
        CaptureImage::Reading(file) => match event {
            Event::Data(bytes) => (
                booth.with_image(bytes@),
                Next::Ask(
                    CaptureImage::Deleting,
                    Command::DeleteFile { folder: file.folder@, name: file.name@ },
                ),
            ),
            _ => (
                booth,
                unless_failed(event, Next::Ask(CaptureImage::Reading(file), Command::ReadData)),
            ),
        },
        CaptureImage::Deleting => (booth, ok()),
    }
}

impl<X, C: Clone> MyPhotobooth<X, C> {
    /// Advances a request to take a picture by one step. It starts out as
    /// `CaptureImage::Camera(Acquire::Check)`. An outcome that does not answer the
    /// search for a camera, the wait for it or the reading of the file leaves
    /// everything as it was and asks again.
    pub fn capture_image(&mut self, request: CaptureImage, event: Event<C>) -> (next: Step<
        CaptureImage,
        C,
    >)
        ensures
            final(self)@ == capture_image_next(old(self)@, request, event).0,
            agrees(next@, capture_image_next(old(self)@, request, event).1),
    {
        match request {
            CaptureImage::Camera(phase) => match self.acquire(phase, event) {
                Acquired::Ask(phase, command) => {
                    Next::Ask(CaptureImage::Camera(phase), command)
                },
                Acquired::Ready(camera) => {
                    Next::Ask(CaptureImage::Held, Command::HoldCamera(camera))
                },
                Acquired::Refused(status) => Next::Reply(Err(status)),
            },
            CaptureImage::Held => Next::Ask(
                CaptureImage::Fetching,
                Command::FetchRadio { name: "eosremoterelease".to_string() },
            ),
            CaptureImage::Fetching => Next::Ask(
                CaptureImage::ChoosingImmediate,
                Command::Choose { choice: "Immediate".to_string() },
            ).unless_failed(event),
            CaptureImage::ChoosingImmediate => Next::Ask(
                CaptureImage::ApplyingImmediate,
                Command::ApplyConfig,
            ).unless_failed(event),
            CaptureImage::ApplyingImmediate => Next::Ask(
                CaptureImage::ChoosingRelease,
                Command::Choose { choice: "Release Full".to_string() },
            ).unless_failed(event),
            CaptureImage::ChoosingRelease => Next::Ask(
                CaptureImage::ApplyingRelease,
                Command::ApplyConfig,
            ).unless_failed(event),
            CaptureImage::ApplyingRelease => Self::capture_wait(0).unless_failed(event),
            CaptureImage::Waiting { retry } => match event {
                Event::Camera(reported) => Self::capture_waited(retry, reported),
                _ => Self::capture_wait(retry).unless_failed(event),
            },
            CaptureImage::Downloading(file) => Next::Ask(
                CaptureImage::Reading(file),
                Command::ReadData,
            ).unless_failed(event),
            CaptureImage::Reading(file) => match event {
                Event::Data(bytes) => {
                    self.store_image(bytes);
                    Next::Ask(
                        CaptureImage::Deleting,
                        Command::DeleteFile { folder: file.folder, name: file.name },
                    )
                },
                _ => Next::Ask(CaptureImage::Reading(file), Command::ReadData).unless_failed(
                    event,
                ),
            },
            CaptureImage::Deleting => Next::Reply(Ok(Answer::Empty)),
        }
    }

    /// Waits on the camera, when so many of its events were passed over.
    fn capture_wait(retry: u32) -> (next: Step<CaptureImage, C>)
        ensures
            next@ == wait::<C>(retry),
    {
        Next::Ask(CaptureImage::Waiting { retry }, Command::WaitEvent { seconds: WAIT_SECONDS })
    }

    /// What follows an event of the camera that is waited on, when so many were
    /// passed over before.
    fn capture_waited(retry: u32, event: CameraEvent) -> (next: Step<CaptureImage, C>)
        ensures
            next@ == waited::<C>(retry, event),
    {
        match event {
            CameraEvent::NewFile(file) => {
                let folder = file.folder.clone();
                let name = file.name.clone();
                Next::Ask(CaptureImage::Downloading(file), Command::Download { folder, name })
            },
            CameraEvent::Timeout => Next::Reply(
                Err(Status::failed_precondition("Timeout No new file added".to_string())),
            ),
            _ => if retry >= MAX_RETRY {
                Next::Reply(Err(Status::failed_precondition("No new file added".to_string())))
            } else {
                Self::capture_wait(retry + 1)
            },
        }
    }
}

} // verus!
