//! What holds of requests as a whole, and of the preview task. Requests run side
//! by side, so a request is followed from turn to turn, and between its turns the
//! booth may change in any way.

use vstd::prelude::*;
use crate::acquire::{Acquire, Acquired, acquire_next, not_initialized};
use crate::booth::{BoothState, shown};
use crate::camera::{CameraDescriptor, CameraEvent, FilePath};
use crate::capture::{CaptureImage, MAX_RETRY, WAIT_SECONDS, capture_image_next};
use crate::config::{
    ConfigPhase, ConfigRadio, ConfigToggle, config_radio_widget_next, config_toggle_widget_next,
};
use crate::gpio::{GpioPhase, SetGpio, set_gpio_next};
use crate::http::{Body, OK, NOT_FOUND, image_reply};
use crate::listing::{ListCamera, list_camera_next, models};
use crate::preview::{
    FRAME_MILLIS, PreviewTask, StartPreview, StopPreview, preview_task_next, start_preview_next,
    stop_preview_next,
};
use crate::protocol::{
    Answer, Command, CommandText, ConfigRadioWidgetRequest, ConfigToggleWidgetRequest, Event, Next,
    StepText, ok, refuse,
};
use crate::request::{Request, advance_next};
use crate::status::{FAILED_PRECONDITION, INTERNAL, failed_precondition, internal};

verus! {

/// One turn of a request: the booth as the request finds it, and the outcome of
/// the call that it asked for last.
pub struct Turn<X, C> {
    pub booth: BoothState<X, C>,
    pub event: Event<C>,
}

/// What a request is at after these turns; turns after its answer do not matter.
pub open spec fn run<X, C>(request: Request, turns: Seq<Turn<X, C>>) -> StepText<Request, C>
    decreases turns.len(),
{
    if turns.len() == 0 {
        Next::Ask(request, Command::Resume)
    } else {
        let step = advance_next(turns[0].booth, request, turns[0].event).1;
        match step {
            Next::Ask(next, _) => if turns.len() == 1 {
                step
            } else {
                run(next, turns.drop_first())
            },
            Next::Reply(_) => step,
        }
    }
}

/// The calls that a request asks for in these turns.
pub open spec fn asked<X, C>(request: Request, turns: Seq<Turn<X, C>>) -> Seq<CommandText<C>>
    decreases turns.len(),
{
    if turns.len() == 0 {
        Seq::empty()
    } else {
        match advance_next(turns[0].booth, request, turns[0].event).1 {
            Next::Ask(next, command) => seq![command] + asked(next, turns.drop_first()),
            Next::Reply(_) => Seq::empty(),
        }
    }
}

/// Whether an outcome answers the call that a request waits for: a call that gives
/// a value answers with a value of its kind or fails.
pub open spec fn answers<C>(request: Request, event: Event<C>) -> bool {
    ||| event is Failed
    ||| {
        &&& searches(request) ==> event is Detected
        &&& request == Request::ListCamera(ListCamera::Listing) ==> event is Listed
        &&& request matches Request::CaptureImage(CaptureImage::Waiting { .. }) ==> event is Camera
        &&& request matches Request::CaptureImage(CaptureImage::Reading(_)) ==> event is Data
    }
}

/// Whether every outcome in these turns answers the call that was asked for.
pub open spec fn all_answered<X, C>(request: Request, turns: Seq<Turn<X, C>>) -> bool
    decreases turns.len(),
{
    turns.len() > 0 ==> {
        &&& answers(request, turns[0].event)
        &&& match advance_next(turns[0].booth, request, turns[0].event).1 {
            Next::Ask(next, _) => all_answered(next, turns.drop_first()),
            Next::Reply(_) => true,
        }
    }
}

/// How many turns it takes at most to get hold of a camera.
pub open spec fn acquire_budget(phase: Acquire) -> nat {
    match phase {
        Acquire::Check => 3,
        Acquire::Detect => 2,
        Acquire::Take => 1,
    }
}

/// How many turns a request needs at most until it is answered.
pub open spec fn budget(request: Request) -> nat {
    match request {
        Request::ListCamera(ListCamera::Begin) => 2,
        Request::ListCamera(ListCamera::Listing) => 1,
        Request::StartPreview(StartPreview::Begin) => 4,
        Request::StartPreview(StartPreview::Camera(phase)) => 1 + acquire_budget(phase),
        Request::StartPreview(StartPreview::Spawned) => 1,
        Request::StopPreview(StopPreview::Begin) => 2,
        Request::StopPreview(StopPreview::Notified) => 1,
        Request::CaptureImage(op) => capture_budget(op),
        Request::ConfigRadio(op) => config_budget(op.phase),
        Request::ConfigToggle(op) => config_budget(op.phase),
        Request::SetGpio(op) => match op.phase {
            GpioPhase::Begin => 4,
            GpioPhase::Opening => 3,
            GpioPhase::Requesting => 2,
            GpioPhase::Setting => 1,
        },
    }
}

/// How many turns a request to set an option needs at most until it is answered.
pub open spec fn config_budget(phase: ConfigPhase) -> nat {
    match phase {
        ConfigPhase::Camera(phase) => 4 + acquire_budget(phase),
        ConfigPhase::Held => 4,
        ConfigPhase::Fetching => 3,
        ConfigPhase::Changing => 2,
        ConfigPhase::Applying => 1,
    }
}

/// How many turns a request to take a picture needs at most until it is answered.
pub open spec fn capture_budget(op: CaptureImage) -> nat {
    let waiting = (4 + MAX_RETRY) as nat;
    match op {
        CaptureImage::Camera(phase) => waiting + 6 + acquire_budget(phase),
        CaptureImage::Held => waiting + 6,
        CaptureImage::Fetching => waiting + 5,
        CaptureImage::ChoosingImmediate => waiting + 4,
        CaptureImage::ApplyingImmediate => waiting + 3,
        CaptureImage::ChoosingRelease => waiting + 2,
        CaptureImage::ApplyingRelease => waiting + 1,
        CaptureImage::Waiting { retry } => if retry < MAX_RETRY {
            (waiting - retry) as nat
        } else {
            4
        },
        CaptureImage::Downloading(_) => 3,
        CaptureImage::Reading(_) => 2,
        CaptureImage::Deleting => 1,
    }
}

/// Every step on an outcome that answers its call brings a request nearer to its
/// answer.
pub proof fn law_every_step_counts<X, C>(
    booth: BoothState<X, C>,
    request: Request,
    event: Event<C>,
)
    requires
        answers(request, event),
    ensures
        match advance_next(booth, request, event).1 {
            Next::Ask(next, _) => budget(next) < budget(request),
            Next::Reply(_) => true,
        },
{
}

/// Every request is answered: whatever other requests do meanwhile, it has its
/// answer after as many turns as its budget says, when every call is answered.
pub proof fn law_every_request_is_answered<X, C>(request: Request, turns: Seq<Turn<X, C>>)
    requires
        all_answered(request, turns),
        turns.len() >= budget(request),
    ensures
        run(request, turns) is Reply,
    decreases turns.len(),
{
    law_every_step_counts(turns[0].booth, request, turns[0].event);
    match advance_next(turns[0].booth, request, turns[0].event).1 {
        Next::Ask(next, _) => {
            law_every_request_is_answered(next, turns.drop_first());
        },
        Next::Reply(_) => {},
    }
}

/// A request that fails is answered with an internal error or a failed
/// precondition, and the step that refuses it leaves the booth as it found it.
pub proof fn law_refusals<X, C>(booth: BoothState<X, C>, request: Request, event: Event<C>)
    ensures
        advance_next(booth, request, event).1 matches Next::Reply(Err(status)) ==> {
            &&& status.code == INTERNAL || status.code == FAILED_PRECONDITION
            &&& advance_next(booth, request, event).0 == booth
        },
{
}

/// A request is refused as an internal error only on a call that failed, and then
/// the text of the failure ends the message.
pub proof fn law_internal_errors<X, C>(booth: BoothState<X, C>, request: Request, event: Event<C>)
    ensures
        advance_next(booth, request, event).1 matches Next::Reply(Err(status)) ==> (status.code
            == INTERNAL ==> event is Failed && exists|before: Seq<char>|
            status.message == before + event->Failed_0@),
{
    let step = advance_next(booth, request, event).1;
    if let Next::Reply(Err(status)) = step {
        if status.code == INTERNAL {
            let error = event->Failed_0@;
            let before = status.message.take(status.message.len() - error.len());
            assert(status.message == before + error);
        }
    }
}

/// Whether a request waits for a call that can fail.
pub open spec fn awaits_fallible_call(request: Request) -> bool {
    match request {
        Request::ListCamera(op) => op == ListCamera::Listing,
        Request::StartPreview(op) => op == StartPreview::Camera(Acquire::Detect),
        Request::StopPreview(_) => false,
        Request::CaptureImage(op) => match op {
            CaptureImage::Camera(phase) => phase == Acquire::Detect,
            CaptureImage::Held | CaptureImage::Deleting => false,
            _ => true,
        },
        Request::ConfigRadio(op) => match op.phase {
            ConfigPhase::Camera(phase) => phase == Acquire::Detect,
            ConfigPhase::Held => false,
            _ => true,
        },
        Request::ConfigToggle(op) => match op.phase {
            ConfigPhase::Camera(phase) => phase == Acquire::Detect,
            ConfigPhase::Held | ConfigPhase::Changing => false,
            _ => true,
        },
        Request::SetGpio(op) => op.phase != GpioPhase::Begin,
    }
}

/// A call that fails ends its request: the answer is an internal error, and no call
/// follows.
pub proof fn law_failed_call_is_refused<X, C>(
    booth: BoothState<X, C>,
    request: Request,
    error: String,
)
    requires
        awaits_fallible_call(request),
    ensures
        advance_next(booth, request, Event::<C>::Failed(error)).1 matches Next::Reply(Err(status))
            && status.code == INTERNAL,
{
}

/// What a step of a request can change of the booth: the context and the preview
/// frame never; the camera by taking one into use that was just found, or by
/// closing it to stop the preview; the image by the bytes of a captured file; and
/// that the booth previews by starting the preview.
pub proof fn law_what_requests_change<X, C>(
    booth: BoothState<X, C>,
    request: Request,
    event: Event<C>,
)
    ensures
        ({
            let after = advance_next(booth, request, event).0;
            &&& after.context == booth.context
            &&& after.preview == booth.preview
            &&& after.camera != booth.camera ==> {
                ||| event is Detected && after.camera == Some(event->Detected_0)
                ||| request == Request::StopPreview(StopPreview::Notified) && after.camera is None
            }
            &&& after.image != booth.image ==> {
                &&& request matches Request::CaptureImage(CaptureImage::Reading(_))
                &&& event is Data
                &&& after.image == event->Data_0@
            }
            &&& after.previewing != booth.previewing ==> {
                &&& request == Request::StartPreview(StartPreview::Begin)
                &&& after.previewing
            }
        }),
{
}

/// A camera that is in use is taken as it is: none is searched for.
pub proof fn law_camera_in_use_is_kept<X, C>(
    booth: BoothState<X, C>,
    first: Event<C>,
    second: Event<C>,
)
    requires
        booth.camera is Some,
    ensures
        acquire_next(booth, Acquire::Check, first) == (
            booth,
            Acquired::<C, Seq<char>>::Ask(Acquire::Take, Command::Resume),
        ),
        acquire_next(booth, Acquire::Take, second) == (
            booth,
            Acquired::<C, Seq<char>>::Ready(booth.camera->0),
        ),
{
}

/// With no camera in use one is searched for. The one that is found is in use from
/// then on, and it is the one that the request gets.
pub proof fn law_found_camera_is_taken_into_use<X, C>(
    booth: BoothState<X, C>,
    camera: C,
    first: Event<C>,
    last: Event<C>,
)
    requires
        booth.camera is None,
    ensures
        acquire_next(booth, Acquire::Check, first) == (
            booth,
            Acquired::<C, Seq<char>>::Ask(Acquire::Detect, Command::DetectCamera),
        ),
        acquire_next(booth, Acquire::Detect, Event::Detected(camera)) == (
            booth.with_camera(Some(camera)),
            Acquired::<C, Seq<char>>::Ask(Acquire::Take, Command::Resume),
        ),
        acquire_next(booth.with_camera(Some(camera)), Acquire::Take, last).1 == (Acquired::<
            C,
            Seq<char>,
        >::Ready(camera)),
{
}

/// A camera that is closed before the request takes it is answered as a failed
/// precondition, whatever kind of request it is.
pub proof fn law_lost_camera_is_refused<X, C>(
    booth: BoothState<X, C>,
    request: Request,
    event: Event<C>,
)
    requires
        booth.camera is None,
        match request {
            Request::StartPreview(op) => op == StartPreview::Camera(Acquire::Take),
            Request::CaptureImage(op) => op == CaptureImage::Camera(Acquire::Take),
            Request::ConfigRadio(op) => op.phase == ConfigPhase::Camera(Acquire::Take),
            Request::ConfigToggle(op) => op.phase == ConfigPhase::Camera(Acquire::Take),
            _ => false,
        },
    ensures
        advance_next(booth, request, event) == (booth, refuse::<Request, C>(not_initialized())),
{
}

/// A request to start the preview counts from its first step on: when no camera is
/// found it is refused, and the booth still previews.
pub proof fn law_start_preview_without_camera<X, C>(
    booth: BoothState<X, C>,
    first: Event<C>,
    error: String,
)
    requires
        booth.camera is None,
    ensures
        ({
            let begin = Request::StartPreview(StartPreview::Begin);
            let detect = Request::StartPreview(StartPreview::Camera(Acquire::Detect));
            let previewing = booth.with_previewing(true);
            &&& advance_next(booth, begin, first) == (
                previewing,
                Next::<Request, C, Seq<char>, Seq<Seq<char>>>::Ask(detect, Command::DetectCamera),
            )
            &&& advance_next(previewing, detect, Event::Failed(error)) == (
                previewing,
                refuse::<Request, C>(internal(error@)),
            )
        }),
{
}

/// With a camera in use the preview is started on it, and nothing but that it
/// previews changes.
pub proof fn law_start_preview_with_camera<X, C>(turns: Seq<Turn<X, C>>)
    requires
        turns.len() == 3,
        turns[0].booth.camera is Some,
        turns[1].booth.camera is Some,
    ensures
        ({
            let begin = Request::StartPreview(StartPreview::Begin);
            &&& advance_next(turns[0].booth, begin, turns[0].event).0
                == turns[0].booth.with_previewing(true)
            &&& asked(begin, turns) == seq![
                Command::<C, Seq<char>>::Resume,
                Command::SpawnPreview(turns[1].booth.camera->0),
            ]
            &&& run(begin, turns) == ok::<Request, C>()
        }),
{
    reveal_with_fuel(run, 4);
    reveal_with_fuel(asked, 4);
    assert(asked(Request::StartPreview(StartPreview::Begin), turns) =~= seq![
        Command::<C, Seq<char>>::Resume,
        Command::SpawnPreview(turns[1].booth.camera->0),
    ]);
}

/// With no camera in use one is searched for, and the preview is started on it.
pub proof fn law_start_preview_with_found_camera<X, C>(turns: Seq<Turn<X, C>>)
    requires
        turns.len() == 4,
        turns[0].booth.camera is None,
        turns[1].event is Detected,
        turns[2].booth.camera is Some,
    ensures
        ({
            let begin = Request::StartPreview(StartPreview::Begin);
            &&& asked(begin, turns) == seq![
                Command::<C, Seq<char>>::DetectCamera,
                Command::Resume,
                Command::SpawnPreview(turns[2].booth.camera->0),
            ]
            &&& run(begin, turns) == ok::<Request, C>()
        }),
{
    reveal_with_fuel(run, 5);
    reveal_with_fuel(asked, 5);
    assert(asked(Request::StartPreview(StartPreview::Begin), turns) =~= seq![
        Command::<C, Seq<char>>::DetectCamera,
        Command::Resume,
        Command::SpawnPreview(turns[2].booth.camera->0),
    ]);
}

/// Stopping the preview of a booth that does not preview does nothing.
pub proof fn law_stop_without_preview<X, C>(booth: BoothState<X, C>, event: Event<C>)
    requires
        !booth.previewing,
    ensures
        advance_next(booth, Request::StopPreview(StopPreview::Begin), event) == (
            booth,
            ok::<Request, C>(),
        ),
{
}

/// Stopping the preview of a booth that previews asks the preview to stop and then
/// closes the camera. The booth goes on previewing until the preview has heard.
pub proof fn law_stop_preview<X, C>(turns: Seq<Turn<X, C>>)
    requires
        turns.len() == 2,
        turns[0].booth.previewing,
    ensures
        ({
            let begin = Request::StopPreview(StopPreview::Begin);
            let notified = Request::StopPreview(StopPreview::Notified);
            let after = advance_next(turns[1].booth, notified, turns[1].event).0;
            &&& asked(begin, turns) == seq![Command::<C, Seq<char>>::NotifyStop]
            &&& run(begin, turns) == ok::<Request, C>()
            &&& after == turns[1].booth.with_camera(None)
        }),
{
    reveal_with_fuel(run, 3);
    reveal_with_fuel(asked, 3);
    assert(asked(Request::StopPreview(StopPreview::Begin), turns) =~= seq![
        Command::<C, Seq<char>>::NotifyStop,
    ]);
}

/// The preview ends exactly when it is asked to stop while it shoots, and then the
/// booth no longer previews; no other step of it changes that.
pub proof fn law_preview_ends_only_when_stopped<X, C>(
    booth: BoothState<X, C>,
    task: PreviewTask,
    event: Event<C>,
)
    ensures
        ({
            let (after, step) = preview_task_next(booth, task, event);
            let stopped = task == PreviewTask::Shooting && event is Stopped;
            &&& step is Reply <==> stopped
            &&& stopped ==> after == booth.with_previewing(false) && step == ok::<PreviewTask, C>()
            &&& !stopped ==> after.previewing == booth.previewing
        }),
{
}

/// The preview changes only its own frame and whether the booth previews. The frame
/// changes exactly when the bytes of a shot come, to those bytes, and then whoever
/// waits for a frame is woken.
pub proof fn law_what_the_preview_changes<X, C>(
    booth: BoothState<X, C>,
    task: PreviewTask,
    event: Event<C>,
)
    ensures
        ({
            let (after, step) = preview_task_next(booth, task, event);
            let frame = task == PreviewTask::Reading && event is Data;
            &&& after.context == booth.context
            &&& after.camera == booth.camera
            &&& after.image == booth.image
            &&& frame ==> after.preview == event->Data_0@
            &&& !frame ==> after.preview == booth.preview
            &&& frame <==> (step matches Next::Ask(_, command) && command is NotifyFrame)
        }),
{
}

/// The round of a preview frame: a shot that succeeds is read, announced and
/// followed by a rest before the next shot; one that fails, or that cannot be
/// read, is followed by the rest at once.
pub proof fn law_preview_round<X, C>(
    booth: BoothState<X, C>,
    bytes: Vec<u8>,
    error: String,
    announced: Event<C>,
    rested: Event<C>,
)
    ensures
        ({
            let read: StepText<PreviewTask, C> = Next::Ask(PreviewTask::Reading, Command::ReadData);
            let announce: StepText<PreviewTask, C> = Next::Ask(
                PreviewTask::Announcing,
                Command::NotifyFrame,
            );
            let rest: StepText<PreviewTask, C> = Next::Ask(
                PreviewTask::Resting,
                Command::Pause { millis: FRAME_MILLIS },
            );
            let shoot: StepText<PreviewTask, C> = Next::Ask(
                PreviewTask::Shooting,
                Command::ShootPreview,
            );
            &&& preview_task_next(booth, PreviewTask::Shooting, Event::Done) == (booth, read)
            &&& preview_task_next(booth, PreviewTask::Reading, Event::Data(bytes)) == (
                booth.with_preview(bytes@),
                announce,
            )
            &&& preview_task_next(booth, PreviewTask::Announcing, announced) == (booth, rest)
            &&& preview_task_next(booth, PreviewTask::Resting, rested) == (booth, shoot)
            &&& preview_task_next(booth, PreviewTask::Shooting, Event::Failed(error)) == (
                booth,
                rest,
            )
            &&& preview_task_next(booth, PreviewTask::Reading, Event::Failed(error)) == (
                booth,
                rest,
            )
        }),
{
}

/// Whether a request is about to look for a camera that it will hold.
pub open spec fn seeks_camera(request: Request) -> bool {
    match request {
        Request::CaptureImage(op) => op == CaptureImage::Camera(Acquire::Check),
        Request::ConfigRadio(op) => op.phase == ConfigPhase::Camera(Acquire::Check),
        Request::ConfigToggle(op) => op.phase == ConfigPhase::Camera(Acquire::Check),
        _ => false,
    }
}

/// A request that looked for a camera, once it holds one.
pub open spec fn holding(request: Request) -> Request {
    match request {
        Request::CaptureImage(_) => Request::CaptureImage(CaptureImage::Held),
        Request::ConfigRadio(op) => Request::ConfigRadio(op.at(ConfigPhase::Held)),
        Request::ConfigToggle(op) => Request::ConfigToggle(op.at(ConfigPhase::Held)),
        _ => request,
    }
}

/// A request that needs a camera holds the one in use, without a search.
pub proof fn law_camera_in_use_is_held<X, C>(request: Request, turns: Seq<Turn<X, C>>)
    requires
        seeks_camera(request),
        turns.len() == 2,
        turns[0].booth.camera is Some,
        turns[1].booth.camera is Some,
    ensures
        asked(request, turns) == seq![
            Command::<C, Seq<char>>::Resume,
            Command::HoldCamera(turns[1].booth.camera->0),
        ],
        run(request, turns) == (Next::<Request, C, Seq<char>, Seq<Seq<char>>>::Ask(
            holding(request),
            Command::HoldCamera(turns[1].booth.camera->0),
        )),
{
    reveal_with_fuel(run, 3);
    reveal_with_fuel(asked, 3);
    assert(asked(request, turns) =~= seq![
        Command::<C, Seq<char>>::Resume,
        Command::HoldCamera(turns[1].booth.camera->0),
    ]);
}

/// A request that needs a camera when none is in use searches for one, which is then
/// in use, and holds it.
pub proof fn law_found_camera_is_held<X, C>(request: Request, turns: Seq<Turn<X, C>>)
    requires
        seeks_camera(request),
        turns.len() == 3,
        turns[0].booth.camera is None,
        turns[1].event is Detected,
        turns[2].booth.camera is Some,
    ensures
        asked(request, turns) == seq![
            Command::<C, Seq<char>>::DetectCamera,
            Command::Resume,
            Command::HoldCamera(turns[2].booth.camera->0),
        ],
        run(request, turns) == (Next::<Request, C, Seq<char>, Seq<Seq<char>>>::Ask(
            holding(request),
            Command::HoldCamera(turns[2].booth.camera->0),
        )),
{
    reveal_with_fuel(run, 4);
    reveal_with_fuel(asked, 4);
    assert(asked(request, turns) =~= seq![
        Command::<C, Seq<char>>::DetectCamera,
        Command::Resume,
        Command::HoldCamera(turns[2].booth.camera->0),
    ]);
}

/// With a camera held and no call failing, a request to take a picture releases the
/// shutter through these calls, in this order, and then waits on the camera.
pub proof fn law_capture_releases_the_shutter<X, C>(turns: Seq<Turn<X, C>>)
    requires
        turns.len() == 6,
        forall|i: int| 0 <= i < turns.len() ==> !((#[trigger] turns[i]).event is Failed),
    ensures
        asked(Request::CaptureImage(CaptureImage::Held), turns) == seq![
            Command::<C, Seq<char>>::FetchRadio { name: "eosremoterelease"@ },
            Command::Choose { choice: "Immediate"@ },
            Command::ApplyConfig,
            Command::Choose { choice: "Release Full"@ },
            Command::ApplyConfig,
            Command::WaitEvent { seconds: WAIT_SECONDS },
        ],
        run(Request::CaptureImage(CaptureImage::Held), turns) == (Next::<
            Request,
            C,
            Seq<char>,
            Seq<Seq<char>>,
        >::Ask(
            Request::CaptureImage(CaptureImage::Waiting { retry: 0 }),
            Command::WaitEvent { seconds: WAIT_SECONDS },
        )),
{
    reveal_with_fuel(run, 7);
    reveal_with_fuel(asked, 7);
    assert(asked(Request::CaptureImage(CaptureImage::Held), turns) =~= seq![
        Command::<C, Seq<char>>::FetchRadio { name: "eosremoterelease"@ },
        Command::Choose { choice: "Immediate"@ },
        Command::ApplyConfig,
        Command::Choose { choice: "Release Full"@ },
        Command::ApplyConfig,
        Command::WaitEvent { seconds: WAIT_SECONDS },
    ]);
}

/// Whether these turns bring only camera events that say nothing about the shot.
pub open spec fn all_unrelated<X, C>(turns: Seq<Turn<X, C>>) -> bool {
    forall|i: int|
        0 <= i < turns.len() ==> ((#[trigger] turns[i]).event is Camera
            && turns[i].event->Camera_0.is_unrelated())
}

/// While the camera reports other things, a request to take a picture goes on
/// waiting, until it has passed over as many as it may: the next one makes it give
/// up.
pub proof fn law_capture_gives_up<X, C>(retry: u32, turns: Seq<Turn<X, C>>)
    requires
        all_unrelated(turns),
        retry <= MAX_RETRY,
        turns.len() > 0,
    ensures
        run(Request::CaptureImage(CaptureImage::Waiting { retry }), turns) == if retry
            + turns.len() <= MAX_RETRY {
            Next::<Request, C, Seq<char>, Seq<Seq<char>>>::Ask(
                Request::CaptureImage(
                    CaptureImage::Waiting { retry: (retry + turns.len()) as u32 },
                ),
                Command::WaitEvent { seconds: WAIT_SECONDS },
            )
        } else {
            refuse(failed_precondition("No new file added"@))
        },
    decreases turns.len(),
{
    assert(turns[0].event is Camera && turns[0].event->Camera_0.is_unrelated());
    if retry < MAX_RETRY && turns.len() > 1 {
        let rest = turns.drop_first();
        assert forall|i: int| 0 <= i < rest.len() implies ((#[trigger] rest[i]).event is Camera
            && rest[i].event->Camera_0.is_unrelated()) by {
            assert(rest[i] == turns[i + 1]);
        }
        law_capture_gives_up((retry + 1) as u32, rest);
    }
}

/// The first event that says something about the shot decides, when no more were
/// passed over than may be: the new file is downloaded, a timeout is refused.
pub proof fn law_capture_takes_the_first_file<X, C>(turns: Seq<Turn<X, C>>)
    requires
        0 < turns.len() <= MAX_RETRY + 1,
        all_unrelated(turns.drop_last()),
        turns.last().event is Camera,
        !turns.last().event->Camera_0.is_unrelated(),
    ensures
        run(Request::CaptureImage(CaptureImage::Waiting { retry: 0 }), turns)
            == match turns.last().event->Camera_0 {
            CameraEvent::NewFile(file) => Next::<Request, C, Seq<char>, Seq<Seq<char>>>::Ask(
                Request::CaptureImage(CaptureImage::Downloading(file)),
                Command::Download { folder: file.folder@, name: file.name@ },
            ),
            _ => refuse(failed_precondition("Timeout No new file added"@)),
        },
{
    lemma_first_file(0, turns);
}

proof fn lemma_first_file<X, C>(retry: u32, turns: Seq<Turn<X, C>>)
    requires
        0 < turns.len(),
        retry + turns.len() <= MAX_RETRY + 1,
        all_unrelated(turns.drop_last()),
        turns.last().event is Camera,
        !turns.last().event->Camera_0.is_unrelated(),
    ensures
        run(Request::CaptureImage(CaptureImage::Waiting { retry }), turns)
            == match turns.last().event->Camera_0 {
            CameraEvent::NewFile(file) => Next::<Request, C, Seq<char>, Seq<Seq<char>>>::Ask(
                Request::CaptureImage(CaptureImage::Downloading(file)),
                Command::Download { folder: file.folder@, name: file.name@ },
            ),
            _ => refuse(failed_precondition("Timeout No new file added"@)),
        },
    decreases turns.len(),
{
    if turns.len() > 1 {
        let rest = turns.drop_first();
        let before = turns.drop_last();
        assert(before[0] == turns[0]);
        let middle = rest.drop_last();
        assert forall|i: int| 0 <= i < middle.len() implies ((#[trigger] middle[i]).event is Camera
            && middle[i].event->Camera_0.is_unrelated()) by {
            assert(middle[i] == before[i + 1]);
        }
        assert(rest.last() == turns.last());
        lemma_first_file((retry + 1) as u32, rest);
    } else {
        assert(turns.last() == turns[0]);
    }
}

/// Whether a request captures an image in one of these turns: the bytes of its file
/// come while it reads them, and are stored.
pub open spec fn stores<X, C>(request: Request, turns: Seq<Turn<X, C>>) -> bool
    decreases turns.len(),
{
    turns.len() > 0 && {
        let step = advance_next(turns[0].booth, request, turns[0].event).1;
        ||| captured(Move::Request(request, turns[0].event)) is Some
        ||| step is Ask && stores(step->Ask_0, turns.drop_first())
    }
}

/// A step that captures an image stores exactly its bytes, and changes nothing else.
pub proof fn law_captured_bytes_are_stored<X, C>(
    booth: BoothState<X, C>,
    request: Request,
    event: Event<C>,
)
    requires
        captured(Move::Request(request, event)) is Some,
    ensures
        advance_next(booth, request, event).0 == booth.with_image(
            captured(Move::Request(request, event))->0,
        ),
{
}

/// A request to take a picture succeeds only after it stored the bytes of a file
/// as the captured image.
pub proof fn law_capture_success_means_stored<X, C>(op: CaptureImage, turns: Seq<Turn<X, C>>)
    requires
        run(Request::CaptureImage(op), turns) == ok::<Request, C>(),
        op != CaptureImage::Deleting,
    ensures
        stores(Request::CaptureImage(op), turns),
    decreases turns.len(),
{
    let request = Request::CaptureImage(op);
    if captured(Move::Request(request, turns[0].event)) is None {
        if let Next::Ask(Request::CaptureImage(next), _) = advance_next(
            turns[0].booth,
            request,
            turns[0].event,
        ).1 {
            law_capture_success_means_stored(next, turns.drop_first());
        }
    }
}

/// A request to take a picture that is refused stored no image in any of its turns.
pub proof fn law_refused_capture_stored_nothing<X, C>(op: CaptureImage, turns: Seq<Turn<X, C>>)
    requires
        run(Request::CaptureImage(op), turns) matches Next::Reply(Err(_)),
    ensures
        !stores(Request::CaptureImage(op), turns),
    decreases turns.len(),
{
    let request = Request::CaptureImage(op);
    if let Next::Ask(Request::CaptureImage(next), _) = advance_next(
        turns[0].booth,
        request,
        turns[0].event,
    ).1 {
        if turns.len() > 1 {
            law_refused_capture_stored_nothing(next, turns.drop_first());
        }
    }
}

/// The image that a request to take a picture stores is the one that is then
/// served, as a JPEG image, unless it is empty; and the file it came from is to be
/// deleted.
pub proof fn law_captured_image_is_served<X, C>(
    booth: BoothState<X, C>,
    file: FilePath,
    bytes: Vec<u8>,
)
    ensures
        ({
            let (after, step) = advance_next(
                booth,
                Request::CaptureImage(CaptureImage::Reading(file)),
                Event::Data(bytes),
            );
            &&& after == booth.with_image(bytes@)
            &&& step == (Next::<Request, C, Seq<char>, Seq<Seq<char>>>::Ask(
                Request::CaptureImage(CaptureImage::Deleting),
                Command::DeleteFile { folder: file.folder@, name: file.name@ },
            ))
            &&& bytes@.len() > 0 ==> {
                &&& shown(after.image) == Some(bytes@)
                &&& image_reply(after.image).status == OK
                &&& image_reply(after.image).content_type == "image/jpeg"@
                &&& image_reply(after.image).body == Body::<Seq<char>, Seq<u8>>::Bytes(bytes@)
            }
            &&& bytes@.len() == 0 ==> image_reply(after.image).status == NOT_FOUND
        }),
{
}

/// Once the new file is known and no call fails, its bytes are read and stored as the
/// captured image, the file is to be deleted from the camera, and the request succeeds.
pub proof fn law_capture_fetches_the_file<X, C>(file: FilePath, turns: Seq<Turn<X, C>>)
    requires
        turns.len() == 3,
        !(turns[0].event is Failed),
        turns[1].event is Data,
    ensures
        ({
            let downloading = Request::CaptureImage(CaptureImage::Downloading(file));
            let reading = Request::CaptureImage(CaptureImage::Reading(file));
            &&& asked(downloading, turns) == seq![
                Command::<C, Seq<char>>::ReadData,
                Command::DeleteFile { folder: file.folder@, name: file.name@ },
            ]
            &&& advance_next(turns[1].booth, reading, turns[1].event).0
                == turns[1].booth.with_image(turns[1].event->Data_0@)
            &&& run(downloading, turns) == ok::<Request, C>()
        }),
{
    reveal_with_fuel(run, 4);
    reveal_with_fuel(asked, 4);
    assert(asked(Request::CaptureImage(CaptureImage::Downloading(file)), turns) =~= seq![
        Command::<C, Seq<char>>::ReadData,
        Command::DeleteFile { folder: file.folder@, name: file.name@ },
    ]);
}

/// With a camera held and no call failing, an option with a list of choices is
/// set through these calls, in this order, and the request succeeds.
pub proof fn law_config_radio_widget<X, C>(op: ConfigRadio, turns: Seq<Turn<X, C>>)
    requires
        op.phase == ConfigPhase::Held,
        turns.len() == 4,
        forall|i: int| 0 <= i < turns.len() ==> !((#[trigger] turns[i]).event is Failed),
    ensures
        asked(Request::ConfigRadio(op), turns) == seq![
            Command::<C, Seq<char>>::FetchRadio { name: op.request.name@ },
            Command::Choose { choice: op.request.value@ },
            Command::ApplyConfig,
        ],
        run(Request::ConfigRadio(op), turns) == ok::<Request, C>(),
{
    reveal_with_fuel(run, 5);
    reveal_with_fuel(asked, 5);
    assert(asked(Request::ConfigRadio(op), turns) =~= seq![
        Command::<C, Seq<char>>::FetchRadio { name: op.request.name@ },
        Command::Choose { choice: op.request.value@ },
        Command::ApplyConfig,
    ]);
}

/// With a camera held and no call failing, an option that is on or off is set
/// through these calls, in this order, and the request succeeds.
pub proof fn law_config_toggle_widget<X, C>(op: ConfigToggle, turns: Seq<Turn<X, C>>)
    requires
        op.phase == ConfigPhase::Held,
        turns.len() == 4,
        forall|i: int| 0 <= i < turns.len() ==> !((#[trigger] turns[i]).event is Failed),
    ensures
        asked(Request::ConfigToggle(op), turns) == seq![
            Command::<C, Seq<char>>::FetchToggle { name: op.request.name@ },
            Command::Toggle { value: op.request.value },
            Command::ApplyConfig,
        ],
        run(Request::ConfigToggle(op), turns) == ok::<Request, C>(),
{
    reveal_with_fuel(run, 5);
    reveal_with_fuel(asked, 5);
    assert(asked(Request::ConfigToggle(op), turns) =~= seq![
        Command::<C, Seq<char>>::FetchToggle { name: op.request.name@ },
        Command::Toggle { value: op.request.value },
        Command::ApplyConfig,
    ]);
}

/// With no call failing, a line is driven through these calls, in this order, and
/// the request succeeds; it never touches the booth.
pub proof fn law_set_gpio<X, C>(op: SetGpio, turns: Seq<Turn<X, C>>)
    requires
        op.phase == GpioPhase::Begin,
        turns.len() == 4,
        forall|i: int| 0 <= i < turns.len() ==> !((#[trigger] turns[i]).event is Failed),
    ensures
        asked(Request::SetGpio(op), turns) == seq![
            Command::<C, Seq<char>>::OpenChip { chip: op.request.chip@ },
            Command::RequestLine {
                line: op.request.line,
                initial: false,
                consumer: "photobooth"@,
            },
            Command::SetLine { value: op.request.value },
        ],
        run(Request::SetGpio(op), turns) == ok::<Request, C>(),
        forall|booth: BoothState<X, C>, phase: GpioPhase, event: Event<C>|
            #[trigger] advance_next(booth, Request::SetGpio(op.at(phase)), event).0 == booth,
{
    reveal_with_fuel(run, 5);
    reveal_with_fuel(asked, 5);
    assert(asked(Request::SetGpio(op), turns) =~= seq![
        Command::<C, Seq<char>>::OpenChip { chip: op.request.chip@ },
        Command::RequestLine { line: op.request.line, initial: false, consumer: "photobooth"@ },
        Command::SetLine { value: op.request.value },
    ]);
}

/// A list of the cameras names every camera that is connected, in the order in
/// which they were reported, and leaves the booth as it is.
pub proof fn law_list_camera<X, C>(booth: BoothState<X, C>, cameras: Vec<CameraDescriptor>)
    ensures
        advance_next(
            booth,
            Request::ListCamera(ListCamera::Listing),
            Event::<C>::Listed(cameras),
        ) == (
            booth,
            Next::<Request, C, Seq<char>, Seq<Seq<char>>>::Reply(
                Ok(Answer::Cameras(models(cameras@))),
            ),
        ),
        models(cameras@).len() == cameras@.len(),
        forall|i: int|
            0 <= i < cameras@.len() ==> #[trigger] models(cameras@)[i] == cameras@[i].model@,
{
}

/// One step of whatever runs in the server.
pub enum Move<C> {
    Request(Request, Event<C>),
    Preview(PreviewTask, Event<C>),
}

/// The booth after one step.
pub open spec fn after_move<X, C>(booth: BoothState<X, C>, step: Move<C>) -> BoothState<X, C> {
    match step {
        Move::Request(request, event) => advance_next(booth, request, event).0,
        Move::Preview(task, event) => preview_task_next(booth, task, event).0,
    }
}

/// The booth after these steps.
pub open spec fn after_moves<X, C>(booth: BoothState<X, C>, moves: Seq<Move<C>>) -> BoothState<X, C>
    decreases moves.len(),
{
    if moves.len() == 0 {
        booth
    } else {
        after_move(after_moves(booth, moves.drop_last()), moves.last())
    }
}

/// The image that a step captures, if it captures one.
pub open spec fn captured<C>(step: Move<C>) -> Option<Seq<u8>> {
    match step {
        Move::Request(
            Request::CaptureImage(CaptureImage::Reading(_)),
            Event::Data(bytes),
        ) => Some(bytes@),
        _ => None,
    }
}

/// The preview frame that a step takes, if it takes one.
pub open spec fn previewed<C>(step: Move<C>) -> Option<Seq<u8>> {
    match step {
        Move::Preview(PreviewTask::Reading, Event::Data(bytes)) => Some(bytes@),
        _ => None,
    }
}

/// What a step makes of whether the booth previews, if it makes anything of it.
pub open spec fn switched<C>(step: Move<C>) -> Option<bool> {
    match step {
        Move::Request(Request::StartPreview(StartPreview::Begin), _) => Some(true),
        Move::Preview(PreviewTask::Shooting, Event::Stopped) => Some(false),
        _ => None,
    }
}

/// What a step makes of the camera in use, if it makes anything of it: one that was
/// found, or none.
pub open spec fn exchanged<C>(step: Move<C>) -> Option<Option<C>> {
    match step {
        Move::Request(Request::StopPreview(StopPreview::Notified), _) => Some(None),
        Move::Request(request, Event::Detected(camera)) => if searches(request) {
            Some(Some(camera))
        } else {
            None
        },
        _ => None,
    }
}

/// Whether a request waits for a camera to be found.
pub open spec fn searches(request: Request) -> bool {
    match request {
        Request::StartPreview(op) => op == StartPreview::Camera(Acquire::Detect),
        Request::CaptureImage(op) => op == CaptureImage::Camera(Acquire::Detect),
        Request::ConfigRadio(op) => op.phase == ConfigPhase::Camera(Acquire::Detect),
        Request::ConfigToggle(op) => op.phase == ConfigPhase::Camera(Acquire::Detect),
        _ => false,
    }
}

/// The last thing that any of these steps gives, and the first value when none does.
pub open spec fn last_of<C, T>(
    first: T,
    moves: Seq<Move<C>>,
    gives: spec_fn(Move<C>) -> Option<T>,
) -> T
    decreases moves.len(),
{
    if moves.len() == 0 {
        first
    } else {
        match gives(moves.last()) {
            Some(value) => value,
            None => last_of(first, moves.drop_last(), gives),
        }
    }
}

/// However requests and previews are interleaved, the booth holds the image captured
/// last, the frame previewed last, the camera exchanged last, and what was last made
/// of whether it previews; the context never changes.
pub proof fn law_the_last_one_counts<X, C>(booth: BoothState<X, C>, moves: Seq<Move<C>>)
    ensures
        after_moves(booth, moves) == (BoothState {
            context: booth.context,
            camera: last_of(booth.camera, moves, |step: Move<C>| exchanged(step)),
            preview: last_of(booth.preview, moves, |step: Move<C>| previewed(step)),
            image: last_of(booth.image, moves, |step: Move<C>| captured(step)),
            previewing: last_of(booth.previewing, moves, |step: Move<C>| switched(step)),
        }),
    decreases moves.len(),
{
    if moves.len() > 0 {
        law_the_last_one_counts(booth, moves.drop_last());
    }
}

/// Whether a request is still the same request: of the same kind, and about what was
/// asked for.
pub open spec fn still(request: Request, next: Request) -> bool {
    match request {
        Request::ListCamera(_) => next is ListCamera,
        Request::StartPreview(_) => next is StartPreview,
        Request::StopPreview(_) => next is StopPreview,
        Request::CaptureImage(_) => next is CaptureImage,
        Request::ConfigRadio(op) => next matches Request::ConfigRadio(later) && later.request
            == op.request,
        Request::ConfigToggle(op) => next matches Request::ConfigToggle(later) && later.request
            == op.request,
        Request::SetGpio(op) => next matches Request::SetGpio(later) && later.request == op.request,
    }
}

/// No step makes another request of a request: its kind, its option or line, and the
/// value that was asked for stay as the client gave them until it is answered.
pub proof fn law_requests_stay_themselves<X, C>(
    booth: BoothState<X, C>,
    request: Request,
    event: Event<C>,
)
    ensures
        advance_next(booth, request, event).1 matches Next::Ask(next, _) ==> still(request, next),
{
}

/// After any number of turns a request that still waits is the one that was made.
pub proof fn law_runs_stay_themselves<X, C>(request: Request, turns: Seq<Turn<X, C>>)
    ensures
        run(request, turns) matches Next::Ask(next, _) ==> still(request, next),
    decreases turns.len(),
{
    if turns.len() > 0 {
        law_requests_stay_themselves(turns[0].booth, request, turns[0].event);
        if let Next::Ask(next, _) = advance_next(turns[0].booth, request, turns[0].event).1 {
            law_runs_stay_themselves(next, turns.drop_first());
        }
    }
}

/// A request is advanced by the step of its own kind: the booth, the call and the
/// answer are the ones that this step gives.
pub proof fn law_each_kind_has_its_step<X, C>(
    booth: BoothState<X, C>,
    request: Request,
    event: Event<C>,
)
    ensures
        ({
            let (after, step) = advance_next(booth, request, event);
            match request {
                Request::ListCamera(op) => after == booth && match list_camera_next(op, event) {
                    Next::Ask(o, c) => step matches Next::Ask(next, command) && next
                        == Request::ListCamera(o) && command == c,
                    Next::Reply(a) => step matches Next::Reply(answer) && answer == a,
                },
                Request::StartPreview(op) => {
                    let (b, s) = start_preview_next(booth, op, event);
                    after == b && match s {
                        Next::Ask(o, c) => step matches Next::Ask(next, command) && next
                            == Request::StartPreview(o) && command == c,
                        Next::Reply(a) => step matches Next::Reply(answer) && answer == a,
                    }
                },
                Request::StopPreview(op) => {
                    let (b, s) = stop_preview_next(booth, op);
                    after == b && match s {
                        Next::Ask(o, c) => step matches Next::Ask(next, command) && next
                            == Request::StopPreview(o) && command == c,
                        Next::Reply(a) => step matches Next::Reply(answer) && answer == a,
                    }
                },
                Request::CaptureImage(op) => {
                    let (b, s) = capture_image_next(booth, op, event);
                    after == b && match s {
                        Next::Ask(o, c) => step matches Next::Ask(next, command) && next
                            == Request::CaptureImage(o) && command == c,
                        Next::Reply(a) => step matches Next::Reply(answer) && answer == a,
                    }
                },
                Request::ConfigRadio(op) => {
                    let (b, s) = config_radio_widget_next(booth, op, event);
                    after == b && match s {
                        Next::Ask(o, c) => step matches Next::Ask(next, command) && next
                            == Request::ConfigRadio(o) && command == c,
                        Next::Reply(a) => step matches Next::Reply(answer) && answer == a,
                    }
                },
                Request::ConfigToggle(op) => {
                    let (b, s) = config_toggle_widget_next(booth, op, event);
                    after == b && match s {
                        Next::Ask(o, c) => step matches Next::Ask(next, command) && next
                            == Request::ConfigToggle(o) && command == c,
                        Next::Reply(a) => step matches Next::Reply(answer) && answer == a,
                    }
                },
                Request::SetGpio(op) => after == booth && match set_gpio_next(op, event) {
                    Next::Ask(o, c) => step matches Next::Ask(next, command) && next
                        == Request::SetGpio(o) && command == c,
                    Next::Reply(a) => step matches Next::Reply(answer) && answer == a,
                },
            }
        }),
{
}

/// Whether a step refuses its request with this code and this message.
pub open spec fn refused_with<C>(
    step: StepText<Request, C>,
    code: i32,
    message: Seq<char>,
) -> bool {
    step matches Next::Reply(Err(status)) && status.code == code && status.message == message
}

/// What a client reads when a call of its request fails. Setting an option with a list
/// of choices names the option and what was tried with it.
pub proof fn law_failure_messages<X, C>(
    booth: BoothState<X, C>,
    request: Request,
    error: String,
)
    ensures
        ({
            let step = advance_next(booth, request, Event::<C>::Failed(error)).1;
            match request {
                Request::ListCamera(ListCamera::Listing) => refused_with(step, 13, error@),
                Request::StartPreview(StartPreview::Camera(Acquire::Detect)) => refused_with(
                    step,
                    13,
                    error@,
                ),
                Request::CaptureImage(op) => match op {
                    CaptureImage::Camera(Acquire::Check) | CaptureImage::Camera(Acquire::Take) => {
                        true
                    },
                    CaptureImage::Held | CaptureImage::Deleting => true,
                    _ => refused_with(step, 13, error@),
                },
                Request::ConfigRadio(op) => {
                    let name = op.request.name@;
                    match op.phase {
                        ConfigPhase::Camera(Acquire::Detect) => refused_with(step, 13, error@),
                        ConfigPhase::Fetching => refused_with(
                            step,
                            13,
                            "Failed to get "@ + name + ": "@ + error@,
                        ),
                        ConfigPhase::Changing => refused_with(
                            step,
                            13,
                            "Failed to set "@ + name + ": "@ + error@,
                        ),
                        ConfigPhase::Applying => refused_with(
                            step,
                            13,
                            "Failed to set config "@ + name + " target"@ + ": "@ + error@,
                        ),
                        _ => true,
                    }
                },
                Request::ConfigToggle(op) => match op.phase {
                    ConfigPhase::Camera(Acquire::Detect) => refused_with(step, 13, error@),
                    ConfigPhase::Fetching => refused_with(
                        step,
                        13,
                        "Failed to get key"@ + ": "@ + error@,
                    ),
                    ConfigPhase::Applying => refused_with(
                        step,
                        13,
                        "Failed to set config target"@ + ": "@ + error@,
                    ),
                    _ => true,
                },
                Request::SetGpio(op) => op.phase != GpioPhase::Begin ==> refused_with(
                    step,
                    13,
                    "Failed to get key"@ + ": "@ + error@,
                ),
                _ => true,
            }
        }),
{
}

/// Whether the outcome that a request is advanced on does not matter to it: it has
/// made no call yet, or one that only takes time or that cannot fail it.
pub open spec fn takes_no_heed(request: Request) -> bool {
    match request {
        Request::ListCamera(op) => op == ListCamera::Begin,
        Request::StartPreview(op) => op != StartPreview::Camera(Acquire::Detect),
        Request::StopPreview(_) => true,
        Request::CaptureImage(op) => {
            ||| op == CaptureImage::Camera(Acquire::Check)
            ||| op == CaptureImage::Camera(Acquire::Take)
            ||| op == CaptureImage::Held
            ||| op == CaptureImage::Deleting
        },
        Request::ConfigRadio(op) => {
            ||| op.phase == ConfigPhase::Camera(Acquire::Check)
            ||| op.phase == ConfigPhase::Camera(Acquire::Take)
            ||| op.phase == ConfigPhase::Held
        },
        Request::ConfigToggle(op) => {
            ||| op.phase == ConfigPhase::Camera(Acquire::Check)
            ||| op.phase == ConfigPhase::Camera(Acquire::Take)
            ||| op.phase == ConfigPhase::Held
            ||| op.phase == ConfigPhase::Changing
        },
        Request::SetGpio(op) => op.phase == GpioPhase::Begin,
    }
}

/// A request that takes no heed of the outcome goes on in the same way on any two.
pub proof fn law_outcome_does_not_matter<X, C>(
    booth: BoothState<X, C>,
    request: Request,
    one: Event<C>,
    other: Event<C>,
)
    requires
        takes_no_heed(request),
    ensures
        advance_next(booth, request, one) == advance_next(booth, request, other),
{
}

/// An outcome that is not of the kind that was asked for, and no failure, changes
/// nothing: the same call is asked for again.
pub proof fn law_unanswered_call_is_asked_again<X, C>(
    booth: BoothState<X, C>,
    request: Request,
    event: Event<C>,
)
    requires
        !(event is Failed),
    ensures
        ({
            let (after, step) = advance_next(booth, request, event);
            &&& request == Request::ListCamera(ListCamera::Listing) && !(event is Listed) ==> {
                &&& after == booth
                &&& step matches Next::Ask(next, command) && next == request && command
                    is ListCameras
            }
            &&& camera_phase(request) == Some(Acquire::Detect) && !(event is Detected) ==> {
                &&& after == booth
                &&& step matches Next::Ask(next, command) && next == request && command
                    is DetectCamera
            }
            &&& request matches Request::CaptureImage(CaptureImage::Waiting { .. }) ==> (!(
            event is Camera) ==> {
                &&& after == booth
                &&& step matches Next::Ask(next, command) && next == request && command
                    == Command::<C, Seq<char>>::WaitEvent { seconds: 10 }
            })
            &&& request matches Request::CaptureImage(CaptureImage::Reading(_)) ==> (!(
            event is Data) ==> {
                &&& after == booth
                &&& step matches Next::Ask(next, command) && next == request && command is ReadData
            })
        }),
{
}

/// What the camera reports while a request to take a picture waits on it: a new file is
/// downloaded, running out of time is refused, and anything else is passed over, a
/// thousand times at most.
pub proof fn law_wait_step<X, C>(booth: BoothState<X, C>, retry: u32, reported: CameraEvent)
    ensures
        ({
            let waiting = Request::CaptureImage(CaptureImage::Waiting { retry });
            let (after, step) = advance_next(booth, waiting, Event::<C>::Camera(reported));
            &&& after == booth
            &&& match reported {
                CameraEvent::NewFile(file) => step matches Next::Ask(next, command) && next
                    == Request::CaptureImage(CaptureImage::Downloading(file)) && command
                    == Command::<C, Seq<char>>::Download {
                    folder: file.folder@,
                    name: file.name@,
                },
                CameraEvent::Timeout => refused_with(step, 9, "Timeout No new file added"@),
                CameraEvent::Unknown(_)
                | CameraEvent::FileChanged(_)
                | CameraEvent::NewFolder(_)
                | CameraEvent::CaptureComplete => if retry < 1000 {
                    step matches Next::Ask(next, command) && next == Request::CaptureImage(
                        CaptureImage::Waiting { retry: (retry + 1) as u32 },
                    ) && command == Command::<C, Seq<char>>::WaitEvent { seconds: 10 }
                } else {
                    refused_with(step, 9, "No new file added"@)
                },
            }
        }),
{
}

/// How far a request is that is getting hold of a camera.
pub open spec fn camera_phase(request: Request) -> Option<Acquire> {
    match request {
        Request::StartPreview(StartPreview::Camera(phase)) => Some(phase),
        Request::CaptureImage(CaptureImage::Camera(phase)) => Some(phase),
        Request::ConfigRadio(op) => match op.phase {
            ConfigPhase::Camera(phase) => Some(phase),
            _ => None,
        },
        Request::ConfigToggle(op) => match op.phase {
            ConfigPhase::Camera(phase) => Some(phase),
            _ => None,
        },
        _ => None,
    }
}

/// Whether a request holds a camera and has done nothing with it yet.
pub open spec fn holds_camera(request: Request) -> bool {
    match request {
        Request::CaptureImage(op) => op == CaptureImage::Held,
        Request::ConfigRadio(op) => op.phase == ConfigPhase::Held,
        Request::ConfigToggle(op) => op.phase == ConfigPhase::Held,
        _ => false,
    }
}

/// Every request that needs a camera gets it in the same way: the one in use if there
/// is one, else one that is searched for. When it is gone by then the request is
/// refused; else the preview is started on it, and any other request holds it.
pub proof fn law_getting_a_camera<X, C>(
    booth: BoothState<X, C>,
    request: Request,
    event: Event<C>,
)
    ensures
        ({
            let step = advance_next(booth, request, event).1;
            &&& camera_phase(request) == Some(Acquire::Check) ==> {
                &&& step is Ask
                &&& still(request, step->Ask_0)
                &&& booth.camera is Some ==> {
                    &&& camera_phase(step->Ask_0) == Some(Acquire::Take)
                    &&& step->Ask_1 is Resume
                }
                &&& booth.camera is None ==> {
                    &&& camera_phase(step->Ask_0) == Some(Acquire::Detect)
                    &&& step->Ask_1 is DetectCamera
                }
            }
            &&& camera_phase(request) == Some(Acquire::Detect) && event is Detected ==> {
                &&& step is Ask
                &&& still(request, step->Ask_0)
                &&& camera_phase(step->Ask_0) == Some(Acquire::Take)
                &&& step->Ask_1 is Resume
            }
            &&& camera_phase(request) == Some(Acquire::Take) ==> match booth.camera {
                None => refused_with(step, 9, "Camera not initialized"@),
                Some(camera) => {
                    &&& step is Ask
                    &&& still(request, step->Ask_0)
                    &&& if request is StartPreview {
                        &&& step->Ask_0 == Request::StartPreview(StartPreview::Spawned)
                        &&& step->Ask_1 == Command::<C, Seq<char>>::SpawnPreview(camera)
                    } else {
                        &&& holds_camera(step->Ask_0)
                        &&& step->Ask_1 == Command::<C, Seq<char>>::HoldCamera(camera)
                    }
                },
            }
        }),
{
}

/// What one step of a request leaves in the booth, exactly: the bytes of a captured
/// file are the image, a camera that was found is in use, one whose preview was stopped
/// is not, and a booth whose preview was started previews; all else is as it was.
pub proof fn law_what_a_step_leaves<X, C>(
    booth: BoothState<X, C>,
    request: Request,
    event: Event<C>,
)
    ensures
        ({
            let after = advance_next(booth, request, event).0;
            let detecting = camera_phase(request) == Some(Acquire::Detect);
            &&& after.context == booth.context
            &&& after.preview == booth.preview
            &&& after.previewing == (booth.previewing || request == Request::StartPreview(
                StartPreview::Begin,
            ))
            &&& after.image == match (request, event) {
                (Request::CaptureImage(CaptureImage::Reading(_)), Event::Data(bytes)) => bytes@,
                _ => booth.image,
            }
            &&& request == Request::StopPreview(StopPreview::Notified) ==> after.camera is None
            &&& detecting && event is Detected ==> after.camera == Some(event->Detected_0)
            &&& request != Request::StopPreview(StopPreview::Notified) && !(detecting
                && event is Detected) ==> after.camera == booth.camera
        }),
{
}

/// Starting the preview: the booth previews from the first step on, whatever was in use
/// before, and a camera is got as for any other request.
pub proof fn law_start_preview_begins<X, C>(booth: BoothState<X, C>, event: Event<C>)
    ensures
        ({
            let (after, step) = advance_next(
                booth,
                Request::StartPreview(StartPreview::Begin),
                event,
            );
            &&& after.previewing
            &&& after.camera == booth.camera
            &&& after.image == booth.image
            &&& after.preview == booth.preview
            &&& step is Ask
            &&& booth.camera is Some ==> {
                &&& step->Ask_0 == Request::StartPreview(StartPreview::Camera(Acquire::Take))
                &&& step->Ask_1 is Resume
            }
            &&& booth.camera is None ==> {
                &&& step->Ask_0 == Request::StartPreview(StartPreview::Camera(Acquire::Detect))
                &&& step->Ask_1 is DetectCamera
            }
        }),
{
}

/// A list of the cameras, from the request to its answer: the cameras are asked for
/// once, and the answer names the model of each, in the order in which they came.
pub proof fn law_list_camera_end_to_end<X, C>(turns: Seq<Turn<X, C>>)
    requires
        turns.len() == 2,
        turns[1].event is Listed,
    ensures
        ({
            let begin = Request::ListCamera(ListCamera::Begin);
            let cameras = turns[1].event->Listed_0@;
            &&& asked(begin, turns) == seq![Command::<C, Seq<char>>::ListCameras]
            &&& run(begin, turns) matches Next::Reply(Ok(Answer::Cameras(list))) && list.len()
                == cameras.len() && forall|i: int|
                0 <= i < list.len() ==> #[trigger] list[i] == cameras[i].model@
        }),
{
    let begin = Request::ListCamera(ListCamera::Begin);
    reveal_with_fuel(run, 3);
    reveal_with_fuel(asked, 3);
    assert(asked(begin, turns) =~= seq![Command::<C, Seq<char>>::ListCameras]);
}

/// Setting an option with a list of choices, from the request as the client made it to
/// its answer, on the camera in use: the option of that name is fetched and set to that
/// value.
pub proof fn law_config_radio_widget_end_to_end<X, C>(
    request: ConfigRadioWidgetRequest,
    turns: Seq<Turn<X, C>>,
)
    requires
        turns.len() == 6,
        turns[0].booth.camera is Some,
        turns[1].booth.camera is Some,
        forall|i: int| 0 <= i < turns.len() ==> !((#[trigger] turns[i]).event is Failed),
    ensures
        ({
            let made = Request::ConfigRadio(
                ConfigRadio { request, phase: ConfigPhase::Camera(Acquire::Check) },
            );
            &&& asked(made, turns) == seq![
                Command::<C, Seq<char>>::Resume,
                Command::HoldCamera(turns[1].booth.camera->0),
                Command::FetchRadio { name: request.name@ },
                Command::Choose { choice: request.value@ },
                Command::ApplyConfig,
            ]
            &&& run(made, turns) matches Next::Reply(Ok(Answer::Empty))
        }),
{
    let made = Request::ConfigRadio(
        ConfigRadio { request, phase: ConfigPhase::Camera(Acquire::Check) },
    );
    reveal_with_fuel(run, 7);
    reveal_with_fuel(asked, 7);
    assert(asked(made, turns) =~= seq![
        Command::<C, Seq<char>>::Resume,
        Command::HoldCamera(turns[1].booth.camera->0),
        Command::FetchRadio { name: request.name@ },
        Command::Choose { choice: request.value@ },
        Command::ApplyConfig,
    ]);
}

/// Setting an option with a list of choices, from the request as the client made it to
/// its answer, on a camera that is searched for.
pub proof fn law_config_radio_widget_on_found_camera<X, C>(
    request: ConfigRadioWidgetRequest,
    turns: Seq<Turn<X, C>>,
)
    requires
        turns.len() == 7,
        turns[0].booth.camera is None,
        turns[1].event is Detected,
        turns[2].booth.camera is Some,
        forall|i: int| 0 <= i < turns.len() ==> !((#[trigger] turns[i]).event is Failed),
    ensures
        ({
            let made = Request::ConfigRadio(
                ConfigRadio { request, phase: ConfigPhase::Camera(Acquire::Check) },
            );
            &&& asked(made, turns) == seq![
                Command::<C, Seq<char>>::DetectCamera,
                Command::Resume,
                Command::HoldCamera(turns[2].booth.camera->0),
                Command::FetchRadio { name: request.name@ },
                Command::Choose { choice: request.value@ },
                Command::ApplyConfig,
            ]
            &&& run(made, turns) matches Next::Reply(Ok(Answer::Empty))
        }),
{
    let made = Request::ConfigRadio(
        ConfigRadio { request, phase: ConfigPhase::Camera(Acquire::Check) },
    );
    reveal_with_fuel(run, 8);
    reveal_with_fuel(asked, 8);
    assert(asked(made, turns) =~= seq![
        Command::<C, Seq<char>>::DetectCamera,
        Command::Resume,
        Command::HoldCamera(turns[2].booth.camera->0),
        Command::FetchRadio { name: request.name@ },
        Command::Choose { choice: request.value@ },
        Command::ApplyConfig,
    ]);
}

/// Setting an option that is on or off, from the request as the client made it to its
/// answer, on the camera in use: the option of that name is fetched and turned to that
/// value.
pub proof fn law_config_toggle_widget_end_to_end<X, C>(
    request: ConfigToggleWidgetRequest,
    turns: Seq<Turn<X, C>>,
)
    requires
        turns.len() == 6,
        turns[0].booth.camera is Some,
        turns[1].booth.camera is Some,
        forall|i: int| 0 <= i < turns.len() ==> !((#[trigger] turns[i]).event is Failed),
    ensures
        ({
            let made = Request::ConfigToggle(
                ConfigToggle { request, phase: ConfigPhase::Camera(Acquire::Check) },
            );
            &&& asked(made, turns) == seq![
                Command::<C, Seq<char>>::Resume,
                Command::HoldCamera(turns[1].booth.camera->0),
                Command::FetchToggle { name: request.name@ },
                Command::Toggle { value: request.value },
                Command::ApplyConfig,
            ]
            &&& run(made, turns) matches Next::Reply(Ok(Answer::Empty))
        }),
{
    let made = Request::ConfigToggle(
        ConfigToggle { request, phase: ConfigPhase::Camera(Acquire::Check) },
    );
    reveal_with_fuel(run, 7);
    reveal_with_fuel(asked, 7);
    assert(asked(made, turns) =~= seq![
        Command::<C, Seq<char>>::Resume,
        Command::HoldCamera(turns[1].booth.camera->0),
        Command::FetchToggle { name: request.name@ },
        Command::Toggle { value: request.value },
        Command::ApplyConfig,
    ]);
}

/// Setting an option that is on or off, from the request as the client made it to its
/// answer, on a camera that is searched for.
pub proof fn law_config_toggle_widget_on_found_camera<X, C>(
    request: ConfigToggleWidgetRequest,
    turns: Seq<Turn<X, C>>,
)
    requires
        turns.len() == 7,
        turns[0].booth.camera is None,
        turns[1].event is Detected,
        turns[2].booth.camera is Some,
        forall|i: int| 0 <= i < turns.len() ==> !((#[trigger] turns[i]).event is Failed),
    ensures
        ({
            let made = Request::ConfigToggle(
                ConfigToggle { request, phase: ConfigPhase::Camera(Acquire::Check) },
            );
            &&& asked(made, turns) == seq![
                Command::<C, Seq<char>>::DetectCamera,
                Command::Resume,
                Command::HoldCamera(turns[2].booth.camera->0),
                Command::FetchToggle { name: request.name@ },
                Command::Toggle { value: request.value },
                Command::ApplyConfig,
            ]
            &&& run(made, turns) matches Next::Reply(Ok(Answer::Empty))
        }),
{
    let made = Request::ConfigToggle(
        ConfigToggle { request, phase: ConfigPhase::Camera(Acquire::Check) },
    );
    reveal_with_fuel(run, 8);
    reveal_with_fuel(asked, 8);
    assert(asked(made, turns) =~= seq![
        Command::<C, Seq<char>>::DetectCamera,
        Command::Resume,
        Command::HoldCamera(turns[2].booth.camera->0),
        Command::FetchToggle { name: request.name@ },
        Command::Toggle { value: request.value },
        Command::ApplyConfig,
    ]);
}

/// The calls that the preview task asks for in these turns.
pub open spec fn preview_asked<X, C>(task: PreviewTask, turns: Seq<Turn<X, C>>) -> Seq<
    CommandText<C>,
>
    decreases turns.len(),
{
    if turns.len() == 0 {
        Seq::empty()
    } else {
        match preview_task_next(turns[0].booth, task, turns[0].event).1 {
            Next::Ask(next, command) => seq![command] + preview_asked(next, turns.drop_first()),
            Next::Reply(_) => Seq::empty(),
        }
    }
}

/// Whether in these turns every shot and every reading of one succeeds or fails, and
/// the preview task is not asked to stop.
pub open spec fn preview_answered<X, C>(task: PreviewTask, turns: Seq<Turn<X, C>>) -> bool
    decreases turns.len(),
{
    turns.len() > 0 ==> {
        &&& task == PreviewTask::Shooting ==> turns[0].event is Done || turns[0].event is Failed
        &&& task == PreviewTask::Reading ==> turns[0].event is Data || turns[0].event is Failed
        &&& match preview_task_next(turns[0].booth, task, turns[0].event).1 {
            Next::Ask(next, _) => preview_answered(next, turns.drop_first()),
            Next::Reply(_) => true,
        }
    }
}

/// The preview task starts with a shot, whatever the booth is like, and leaves the booth
/// as it is.
pub proof fn law_preview_starts_with_a_shot<X, C>(booth: BoothState<X, C>, event: Event<C>)
    ensures
        ({
            let (after, step) = preview_task_next(booth, PreviewTask::Begin, event);
            &&& after == booth
            &&& step matches Next::Ask(next, command) && next == PreviewTask::Shooting && command
                is ShootPreview
        }),
{
}

/// The preview keeps shooting: as long as its calls are answered and it is not asked to
/// stop, it asks for something in every turn, and for a shot in one of any four turns in
/// a row; the first thing that it asks for is a shot.
pub proof fn law_preview_keeps_shooting<X, C>(
    task: PreviewTask,
    turns: Seq<Turn<X, C>>,
    from: int,
)
    requires
        preview_answered(task, turns),
        0 <= from,
        from + 4 <= turns.len(),
    ensures
        preview_asked(task, turns).len() == turns.len(),
        exists|i: int|
            from <= i < from + 4 && (#[trigger] preview_asked(task, turns)[i]) is ShootPreview,
        task == PreviewTask::Begin ==> preview_asked(task, turns)[0] is ShootPreview,
    decreases turns.len(),
{
    lemma_preview_asks_every_turn(task, turns);
    let calls = preview_asked(task, turns);
    let step = preview_task_next(turns[0].booth, task, turns[0].event).1;
    let next = step->Ask_0;
    let rest = turns.drop_first();
    if from > 0 {
        law_preview_keeps_shooting(next, rest, from - 1);
        let later = preview_asked(next, rest);
        let i = choose|i: int|
            from - 1 <= i < from + 3 && (#[trigger] preview_asked(next, rest)[i]) is ShootPreview;
        assert(calls[i + 1] == later[i]);
    } else {
        reveal_with_fuel(preview_asked, 5);
        reveal_with_fuel(preview_answered, 5);
        assert(calls[0] is ShootPreview || calls[1] is ShootPreview || calls[2] is ShootPreview
            || calls[3] is ShootPreview);
    }
}

proof fn lemma_preview_asks_every_turn<X, C>(task: PreviewTask, turns: Seq<Turn<X, C>>)
    requires
        preview_answered(task, turns),
    ensures
        preview_asked(task, turns).len() == turns.len(),
    decreases turns.len(),
{
    if turns.len() > 0 {
        let next = preview_task_next(turns[0].booth, task, turns[0].event).1->Ask_0;
        lemma_preview_asks_every_turn(next, turns.drop_first());
    }
}

/// Between two shots the preview rests for 33 milliseconds, after a frame as well as
/// after a failure, and an outcome of another kind only has it ask again.
pub proof fn law_preview_step<X, C>(booth: BoothState<X, C>, task: PreviewTask, event: Event<C>)
    ensures
        ({
            let (after, step) = preview_task_next(booth, task, event);
            match task {
                PreviewTask::Begin | PreviewTask::Resting => {
                    &&& after == booth
                    &&& step matches Next::Ask(next, command) && next == PreviewTask::Shooting
                        && command is ShootPreview
                },
                PreviewTask::Announcing => {
                    &&& after == booth
                    &&& step matches Next::Ask(next, command) && next == PreviewTask::Resting
                        && command == Command::<C, Seq<char>>::Pause { millis: 33 }
                },
                PreviewTask::Shooting | PreviewTask::Reading => {
                    &&& event is Failed ==> {
                        &&& after == booth
                        &&& step matches Next::Ask(next, command) && next == PreviewTask::Resting
                            && command == Command::<C, Seq<char>>::Pause { millis: 33 }
                    }
                    &&& task == PreviewTask::Shooting && event is Stopped ==> {
                        &&& !after.previewing
                        &&& step matches Next::Reply(Ok(Answer::Empty))
                    }
                    &&& task == PreviewTask::Shooting && event is Done ==> {
                        &&& after == booth
                        &&& step matches Next::Ask(next, command) && next == PreviewTask::Reading
                            && command is ReadData
                    }
                    &&& task == PreviewTask::Shooting && !(event is Failed || event is Stopped
                        || event is Done) ==> {
                        &&& after == booth
                        &&& step matches Next::Ask(next, command) && next == task && command
                            is ShootPreview
                    }
                    &&& task == PreviewTask::Reading && event is Data ==> {
                        &&& after.preview == event->Data_0@
                        &&& step matches Next::Ask(next, command) && next
                            == PreviewTask::Announcing && command is NotifyFrame
                    }
                    &&& task == PreviewTask::Reading && !(event is Failed || event is Data) ==> {
                        &&& after == booth
                        &&& step matches Next::Ask(next, command) && next == task && command
                            is ReadData
                    }
                },
            }
        }),
{
}

/// A request goes on after some turns from where they left it.
proof fn lemma_turns_in_a_row<X, C>(
    request: Request,
    first: Seq<Turn<X, C>>,
    then: Seq<Turn<X, C>>,
    next: Request,
)
    requires
        first.len() > 0,
        then.len() > 0,
        run(request, first) is Ask,
        run(request, first)->Ask_0 == next,
    ensures
        run(request, first + then) == run(next, then),
        asked(request, first + then) == asked(request, first) + asked(next, then),
    decreases first.len(),
{
    let all = first + then;
    assert(all[0] == first[0]);
    let step = advance_next(first[0].booth, request, first[0].event).1;
    assert(all.drop_first() =~= first.drop_first() + then);
    assert(step is Ask);
    if first.len() == 1 {
        assert(first.drop_first() + then =~= then);
        assert(asked(step->Ask_0, first.drop_first()) =~= Seq::empty());
    } else {
        lemma_turns_in_a_row(step->Ask_0, first.drop_first(), then, next);
    }
    assert(asked(request, all) =~= asked(request, first) + asked(next, then));
}

/// While the camera reports other things, the wait is asked for again in every turn.
pub proof fn law_capture_waits_again<X, C>(retry: u32, turns: Seq<Turn<X, C>>)
    requires
        all_unrelated(turns),
        retry + turns.len() <= 1000,
    ensures
        asked(Request::CaptureImage(CaptureImage::Waiting { retry }), turns) == Seq::new(
            turns.len(),
            |i: int| Command::<C, Seq<char>>::WaitEvent { seconds: 10 },
        ),
    decreases turns.len(),
{
    let waits = Seq::new(
        turns.len(),
        |i: int| Command::<C, Seq<char>>::WaitEvent { seconds: 10 },
    );
    let waiting = Request::CaptureImage(CaptureImage::Waiting { retry });
    if turns.len() > 0 {
        assert(turns[0].event is Camera && turns[0].event->Camera_0.is_unrelated());
        let rest = turns.drop_first();
        assert forall|i: int| 0 <= i < rest.len() implies ((#[trigger] rest[i]).event is Camera
            && rest[i].event->Camera_0.is_unrelated()) by {
            assert(rest[i] == turns[i + 1]);
        }
        law_capture_waits_again((retry + 1) as u32, rest);
        assert(asked(waiting, turns) =~= waits);
    } else {
        assert(asked(waiting, turns) =~= waits);
    }
}

/// Taking a picture, from the request to its answer, on the camera in use: the shutter
/// is released, the camera is waited on until it reports the new file, however many
/// other things it reports before within what may be passed over, and that very file is
/// downloaded, read and deleted. The bytes that were read are then the captured image.
pub proof fn law_capture_end_to_end<X, C>(
    release: Seq<Turn<X, C>>,
    others: Seq<Turn<X, C>>,
    file: FilePath,
    fetch: Seq<Turn<X, C>>,
)
    requires
        release.len() == 8,
        release[0].booth.camera is Some,
        release[1].booth.camera is Some,
        forall|i: int| 0 <= i < 8 ==> !((#[trigger] release[i]).event is Failed),
        all_unrelated(others),
        others.len() <= 1000,
        fetch.len() == 4,
        fetch[0].event == Event::<C>::Camera(CameraEvent::NewFile(file)),
        !(fetch[1].event is Failed),
        fetch[2].event is Data,
    ensures
        ({
            let made = Request::CaptureImage(CaptureImage::Camera(Acquire::Check));
            let reading = Request::CaptureImage(CaptureImage::Reading(file));
            &&& asked(made, release + (others + fetch)) == seq![
                Command::<C, Seq<char>>::Resume,
                Command::HoldCamera(release[1].booth.camera->0),
                Command::FetchRadio { name: "eosremoterelease"@ },
                Command::Choose { choice: "Immediate"@ },
                Command::ApplyConfig,
                Command::Choose { choice: "Release Full"@ },
                Command::ApplyConfig,
                Command::WaitEvent { seconds: 10 },
            ] + (Seq::new(
                others.len(),
                |i: int| Command::<C, Seq<char>>::WaitEvent { seconds: 10 },
            ) + seq![
                Command::<C, Seq<char>>::Download { folder: file.folder@, name: file.name@ },
                Command::ReadData,
                Command::DeleteFile { folder: file.folder@, name: file.name@ },
            ])
            &&& run(made, release + (others + fetch)) matches Next::Reply(Ok(Answer::Empty))
            &&& run(made, (release + (others + fetch)).take((10 + others.len()) as int))
                matches Next::Ask(at, _) && at == reading
            &&& advance_next(fetch[2].booth, reading, fetch[2].event).0.image
                == fetch[2].event->Data_0@
        }),
{
    let made = Request::CaptureImage(CaptureImage::Camera(Acquire::Check));
    let waiting = Request::CaptureImage(CaptureImage::Waiting { retry: 0 });
    let later = Request::CaptureImage(CaptureImage::Waiting { retry: others.len() as u32 });
    lemma_release(release);
    lemma_fetch(others.len() as u32, file, fetch);
    law_capture_waits_again(0, others);
    let known = fetch.take(2);
    lemma_file_known(others.len() as u32, file, known);
    if others.len() > 0 {
        law_capture_gives_up(0, others);
        lemma_turns_in_a_row(waiting, others, fetch, later);
        lemma_turns_in_a_row(waiting, others, known, later);
    } else {
        assert(others + fetch =~= fetch);
        assert(others + known =~= known);
        assert(asked(waiting, others) + asked(waiting, fetch) =~= asked(waiting, fetch));
    }
    lemma_turns_in_a_row(made, release, others + fetch, waiting);
    lemma_turns_in_a_row(made, release, others + known, waiting);
    assert((release + (others + fetch)).take((10 + others.len()) as int) =~= release + (others
        + known));
}

proof fn lemma_release<X, C>(turns: Seq<Turn<X, C>>)
    requires
        turns.len() == 8,
        turns[0].booth.camera is Some,
        turns[1].booth.camera is Some,
        forall|i: int| 0 <= i < 8 ==> !((#[trigger] turns[i]).event is Failed),
    ensures
        ({
            let made = Request::CaptureImage(CaptureImage::Camera(Acquire::Check));
            &&& asked(made, turns) == seq![
                Command::<C, Seq<char>>::Resume,
                Command::HoldCamera(turns[1].booth.camera->0),
                Command::FetchRadio { name: "eosremoterelease"@ },
                Command::Choose { choice: "Immediate"@ },
                Command::ApplyConfig,
                Command::Choose { choice: "Release Full"@ },
                Command::ApplyConfig,
                Command::WaitEvent { seconds: 10 },
            ]
            &&& run(made, turns) is Ask
            &&& run(made, turns)->Ask_0 == Request::CaptureImage(CaptureImage::Waiting { retry: 0 })
        }),
{
    let made = Request::CaptureImage(CaptureImage::Camera(Acquire::Check));
    reveal_with_fuel(run, 9);
    reveal_with_fuel(asked, 9);
    assert(asked(made, turns) =~= seq![
        Command::<C, Seq<char>>::Resume,
        Command::HoldCamera(turns[1].booth.camera->0),
        Command::FetchRadio { name: "eosremoterelease"@ },
        Command::Choose { choice: "Immediate"@ },
        Command::ApplyConfig,
        Command::Choose { choice: "Release Full"@ },
        Command::ApplyConfig,
        Command::WaitEvent { seconds: 10 },
    ]);
}

proof fn lemma_fetch<X, C>(retry: u32, file: FilePath, turns: Seq<Turn<X, C>>)
    requires
        turns.len() == 4,
        turns[0].event == Event::<C>::Camera(CameraEvent::NewFile(file)),
        !(turns[1].event is Failed),
        turns[2].event is Data,
    ensures
        ({
            let waiting = Request::CaptureImage(CaptureImage::Waiting { retry });
            &&& asked(waiting, turns) == seq![
                Command::<C, Seq<char>>::Download { folder: file.folder@, name: file.name@ },
                Command::ReadData,
                Command::DeleteFile { folder: file.folder@, name: file.name@ },
            ]
            &&& run(waiting, turns) matches Next::Reply(Ok(Answer::Empty))
        }),
{
    let waiting = Request::CaptureImage(CaptureImage::Waiting { retry });
    reveal_with_fuel(run, 5);
    reveal_with_fuel(asked, 5);
    assert(asked(waiting, turns) =~= seq![
        Command::<C, Seq<char>>::Download { folder: file.folder@, name: file.name@ },
        Command::ReadData,
        Command::DeleteFile { folder: file.folder@, name: file.name@ },
    ]);
}

proof fn lemma_file_known<X, C>(retry: u32, file: FilePath, turns: Seq<Turn<X, C>>)
    requires
        turns.len() == 2,
        turns[0].event == Event::<C>::Camera(CameraEvent::NewFile(file)),
        !(turns[1].event is Failed),
    ensures
        ({
            let waiting = Request::CaptureImage(CaptureImage::Waiting { retry });
            &&& run(waiting, turns) is Ask
            &&& run(waiting, turns)->Ask_0 == Request::CaptureImage(CaptureImage::Reading(file))
        }),
{
    reveal_with_fuel(run, 3);
}

} // verus!
