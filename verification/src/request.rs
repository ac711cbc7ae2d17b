//! The service: every request that the booth takes, advanced one step at a time.

use vstd::prelude::*;
use crate::acquire::Acquire;
use crate::booth::{BoothState, MyPhotobooth};
use crate::capture::{CaptureImage, capture_image_next};
use crate::config::{
    ConfigPhase, ConfigRadio, ConfigToggle, config_radio_widget_next, config_toggle_widget_next,
};
use crate::gpio::{GpioPhase, SetGpio, set_gpio_next};
use crate::listing::{ListCamera, list_camera_next};
use crate::preview::{StartPreview, StopPreview, start_preview_next, stop_preview_next};
use crate::protocol::{
    ConfigRadioWidgetRequest, ConfigToggleWidgetRequest, Event, Next, SetGpioRequest, Step,
    StepText, agrees,
};

verus! {

/// A request and how far it is.
#[derive(Debug, PartialEq, Eq)]
pub enum Request {
    ListCamera(ListCamera),
    StartPreview(StartPreview),
    StopPreview(StopPreview),
    CaptureImage(CaptureImage),
    ConfigRadio(ConfigRadio),
    ConfigToggle(ConfigToggle),
    SetGpio(SetGpio),
}

impl Request {
    /// A request to list the cameras that are connected.
    pub fn list_camera() -> (request: Self)
        ensures
            request == Request::ListCamera(ListCamera::Begin),
    {
        Request::ListCamera(ListCamera::Begin)
    }

    /// A request to start the preview.
    pub fn start_preview() -> (request: Self)
        ensures
            request == Request::StartPreview(StartPreview::Begin),
    {
        Request::StartPreview(StartPreview::Begin)
    }

    /// A request to stop the preview.
    pub fn stop_preview() -> (request: Self)
        ensures
            request == Request::StopPreview(StopPreview::Begin),
    {
        Request::StopPreview(StopPreview::Begin)
    }

    /// A request to take a picture.
    pub fn capture_image() -> (request: Self)
        ensures
            request == Request::CaptureImage(CaptureImage::Camera(Acquire::Check)),
    {
        Request::CaptureImage(CaptureImage::Camera(Acquire::Check))
    }

    /// A request to set an option of the camera that has a list of choices.
    pub fn config_radio_widget(request: ConfigRadioWidgetRequest) -> (op: Self)
        ensures
            op == Request::ConfigRadio(
                (ConfigRadio { request, phase: ConfigPhase::Camera(Acquire::Check) }),
            ),
    {
        Request::ConfigRadio(ConfigRadio { request, phase: ConfigPhase::Camera(Acquire::Check) })
    }

    /// A request to set an option of the camera that is on or off.
    pub fn config_toggle_widget(request: ConfigToggleWidgetRequest) -> (op: Self)
        ensures
            op == Request::ConfigToggle(
                (ConfigToggle { request, phase: ConfigPhase::Camera(Acquire::Check) }),
            ),
    {
        Request::ConfigToggle(ConfigToggle { request, phase: ConfigPhase::Camera(Acquire::Check) })
    }

    /// A request to drive one output line of a GPIO chip.
    pub fn set_gpio(request: SetGpioRequest) -> (op: Self)
        ensures
            op == Request::SetGpio((SetGpio { request, phase: GpioPhase::Begin })),
    {
        Request::SetGpio(SetGpio { request, phase: GpioPhase::Begin })
    }
}

/// A step of one kind of request as a step of a request.
pub open spec fn lift<O, C>(step: StepText<O, C>, wrap: spec_fn(O) -> Request) -> StepText<
    Request,
    C,
> {
    match step {
        Next::Ask(op, command) => Next::Ask(wrap(op), command),
        Next::Reply(answer) => Next::Reply(answer),
    }
}

/// One step of a request.
pub open spec fn advance_next<X, C>(
    booth: BoothState<X, C>,
    request: Request,
    event: Event<C>,
) -> (BoothState<X, C>, StepText<Request, C>) {
    match request {
        Request::ListCamera(op) => (
            booth,
            lift(list_camera_next(op, event), |op: ListCamera| Request::ListCamera(op)),
        ),
        Request::StartPreview(op) => {
            let (after, step) = start_preview_next(booth, op, event);
            (after, lift(step, |op: StartPreview| Request::StartPreview(op)))
        },
        Request::StopPreview(op) => {
            let (after, step) = stop_preview_next(booth, op);
            (after, lift(step, |op: StopPreview| Request::StopPreview(op)))
        },
        Request::CaptureImage(op) => {
            let (after, step) = capture_image_next(booth, op, event);
            (after, lift(step, |op: CaptureImage| Request::CaptureImage(op)))
        },
        Request::ConfigRadio(op) => {
            let (after, step) = config_radio_widget_next(booth, op, event);
            (after, lift(step, |op: ConfigRadio| Request::ConfigRadio(op)))
        },
        Request::ConfigToggle(op) => {
            let (after, step) = config_toggle_widget_next(booth, op, event);
            (after, lift(step, |op: ConfigToggle| Request::ConfigToggle(op)))
        },
        Request::SetGpio(op) => (
            booth,
            lift(set_gpio_next(op, event), |op: SetGpio| Request::SetGpio(op)),
        ),
    }
}

impl<X, C: Clone> MyPhotobooth<X, C> {
    /// Advances a request by one step, on the outcome of the call that it asked for
    /// last. The first step of a request takes no heed of the outcome.
    pub fn advance(&mut self, request: Request, event: Event<C>) -> (next: Step<Request, C>)
        ensures
            final(self)@ == advance_next(old(self)@, request, event).0,
            agrees(next@, advance_next(old(self)@, request, event).1),
    {
        match request {
            Request::ListCamera(op) => match self.list_camera(op, event) {
                Next::Ask(op, command) => Next::Ask(Request::ListCamera(op), command),
                Next::Reply(answer) => Next::Reply(answer),
            },
            Request::StartPreview(op) => match self.start_preview(op, event) {
                Next::Ask(op, command) => Next::Ask(Request::StartPreview(op), command),
                Next::Reply(answer) => Next::Reply(answer),
            },
            Request::StopPreview(op) => match self.stop_preview(op) {
                Next::Ask(op, command) => Next::Ask(Request::StopPreview(op), command),
                Next::Reply(answer) => Next::Reply(answer),
            },
            Request::CaptureImage(op) => match self.capture_image(op, event) {
                Next::Ask(op, command) => Next::Ask(Request::CaptureImage(op), command),
                Next::Reply(answer) => Next::Reply(answer),
            },
            Request::ConfigRadio(op) => match self.config_radio_widget(op, event) {
                Next::Ask(op, command) => Next::Ask(Request::ConfigRadio(op), command),
                Next::Reply(answer) => Next::Reply(answer),
            },
            Request::ConfigToggle(op) => match self.config_toggle_widget(op, event) {
                Next::Ask(op, command) => Next::Ask(Request::ConfigToggle(op), command),
                Next::Reply(answer) => Next::Reply(answer),
            },
            Request::SetGpio(op) => match self.set_gpio(op, event) {
                Next::Ask(op, command) => Next::Ask(Request::SetGpio(op), command),
                Next::Reply(answer) => Next::Reply(answer),
            },
        }
    }
}

} // verus!
