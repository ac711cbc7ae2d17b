//! Setting the options of the camera.

use vstd::prelude::*;
use crate::acquire::{Acquire, Acquired, acquire_next};
use crate::booth::{BoothState, MyPhotobooth};
use crate::protocol::{
    Answer, Command, ConfigRadioWidgetRequest, ConfigToggleWidgetRequest, Event, Next, Step,
    StepText, agrees, ok, refuse, unless_failed_to,
};

verus! {

/// How far a request to set an option is.
#[derive(Debug, Clone, Copy, PartialEq, Eq)]
pub enum ConfigPhase {
    /// Getting hold of a camera.
    Camera(Acquire),
    /// The camera is held.
    Held,
    /// The option is being fetched.
    Fetching,
    /// The option is being changed.
    Changing,
    /// The option is being written to the camera.
    Applying,
}

/// A request to set an option with a list of choices, and how far it is.
#[derive(Debug, PartialEq, Eq)]
pub struct ConfigRadio {
    pub request: ConfigRadioWidgetRequest,
    pub phase: ConfigPhase,
}

impl ConfigRadio {
    /// The same request at another phase.
    pub open spec fn at(self, phase: ConfigPhase) -> Self {
        ConfigRadio { phase, ..self }
    }
}

/// One step of a request to set an option with a list of choices.
pub open spec fn config_radio_widget_next<X, C>(
    booth: BoothState<X, C>,
    op: ConfigRadio,
    event: Event<C>,
) -> (BoothState<X, C>, StepText<ConfigRadio, C>) {
    let name = op.request.name@;
    match op.phase {
        ConfigPhase::Camera(phase) => {
            let (after, acquired) = acquire_next(booth, phase, event);
            match acquired {
                Acquired::Ask(phase, command) => (
                    after,
                    Next::Ask(op.at(ConfigPhase::Camera(phase)), command),
                ),
                Acquired::Ready(camera) => (
                    after,
                    Next::Ask(op.at(ConfigPhase::Held), Command::HoldCamera(camera)),
                ),
                Acquired::Refused(status) => (after, refuse(status)),
            }
        },
        ConfigPhase::Held => (
            booth,
            Next::Ask(op.at(ConfigPhase::Fetching), Command::FetchRadio { name }),
        ),
        ConfigPhase::Fetching => (
            booth,
            unless_failed_to(
                event,
                "Failed to get "@ + name,
                Next::Ask(
                    op.at(ConfigPhase::Changing),
                    Command::Choose { choice: op.request.value@ },
                ),
            ),
        ),
        ConfigPhase::Changing => (
            booth,
            unless_failed_to(
                event,
                "Failed to set "@ + name,
                Next::Ask(op.at(ConfigPhase::Applying), Command::ApplyConfig),
            ),
        ),
        ConfigPhase::Applying => (
            booth,
            unless_failed_to(event, "Failed to set config "@ + name + " target"@, ok()),
        ),
    }
}

/// A request to set an option that is on or off, and how far it is.
#[derive(Debug, PartialEq, Eq)]
pub struct ConfigToggle {
    pub request: ConfigToggleWidgetRequest,
    pub phase: ConfigPhase,
}

impl ConfigToggle {
    /// The same request at another phase.
    pub open spec fn at(self, phase: ConfigPhase) -> Self {
        ConfigToggle { phase, ..self }
    }
}

/// One step of a request to set an option that is on or off. Turning the option
/// cannot fail.
pub open spec fn config_toggle_widget_next<X, C>(
    booth: BoothState<X, C>,
    op: ConfigToggle,
    event: Event<C>,
) -> (BoothState<X, C>, StepText<ConfigToggle, C>) {
    match op.phase {
        ConfigPhase::Camera(phase) => {
            let (after, acquired) = acquire_next(booth, phase, event);
            match acquired {
                Acquired::Ask(phase, command) => (
                    after,
                    Next::Ask(op.at(ConfigPhase::Camera(phase)), command),
                ),
                Acquired::Ready(camera) => (
                    after,
                    Next::Ask(op.at(ConfigPhase::Held), Command::HoldCamera(camera)),
                ),
                Acquired::Refused(status) => (after, refuse(status)),
            }
        },
        ConfigPhase::Held => (
            booth,
            Next::Ask(
                op.at(ConfigPhase::Fetching),
                Command::FetchToggle { name: op.request.name@ },
            ),
        ),
        ConfigPhase::Fetching => (
            booth,
            unless_failed_to(
                event,
                "Failed to get key"@,
                Next::Ask(
                    op.at(ConfigPhase::Changing),
                    Command::Toggle { value: op.request.value },
                ),
            ),
        ),
        ConfigPhase::Changing => (
            booth,
            Next::Ask(op.at(ConfigPhase::Applying), Command::ApplyConfig),
        ),
        ConfigPhase::Applying => (
            booth,
            unless_failed_to(event, "Failed to set config target"@, ok()),
        ),
    }
}

impl<X, C: Clone> MyPhotobooth<X, C> {
    /// Advances a request to set an option with a list of choices by one step. It
    /// starts out at `ConfigPhase::Camera(Acquire::Check)`.
    pub fn config_radio_widget(&mut self, op: ConfigRadio, event: Event<C>) -> (next: Step<
        ConfigRadio,
        C,
    >)
        ensures
            final(self)@ == config_radio_widget_next(old(self)@, op, event).0,
            agrees(next@, config_radio_widget_next(old(self)@, op, event).1),
    {
        let ConfigRadio { request, phase } = op;
        match phase {
            ConfigPhase::Camera(phase) => match self.acquire(phase, event) {
                Acquired::Ask(phase, command) => Next::Ask(
                    ConfigRadio { request, phase: ConfigPhase::Camera(phase) },
                    command,
                ),
                Acquired::Ready(camera) => Next::Ask(
                    ConfigRadio { request, phase: ConfigPhase::Held },
                    Command::HoldCamera(camera),
                ),
                Acquired::Refused(status) => Next::Reply(Err(status)),
            },
            ConfigPhase::Held => {
                let name = request.name.clone();
                Next::Ask(
                    ConfigRadio { request, phase: ConfigPhase::Fetching },
                    Command::FetchRadio { name },
                )
            },
            ConfigPhase::Fetching => {
                let what = "Failed to get ".to_string().concat(request.name.as_str());
                let choice = request.value.clone();
                Next::Ask(
                    ConfigRadio { request, phase: ConfigPhase::Changing },
                    Command::Choose { choice },
                ).unless_failed_to(event, what)
            },
            ConfigPhase::Changing => {
                let what = "Failed to set ".to_string().concat(request.name.as_str());
                Next::Ask(
                    ConfigRadio { request, phase: ConfigPhase::Applying },
                    Command::ApplyConfig,
                ).unless_failed_to(event, what)
            },
            ConfigPhase::Applying => {
                let what = "Failed to set config ".to_string().concat(
                    request.name.as_str(),
                ).concat(" target");
                let done: Step<ConfigRadio, C> = Next::Reply(Ok(Answer::Empty));
                done.unless_failed_to(event, what)
            },
        }
    }

    /// Advances a request to set an option that is on or off by one step. It starts
    /// out at `ConfigPhase::Camera(Acquire::Check)`.
    pub fn config_toggle_widget(&mut self, op: ConfigToggle, event: Event<C>) -> (next: Step<
        ConfigToggle,
        C,
    >)
        ensures
            final(self)@ == config_toggle_widget_next(old(self)@, op, event).0,
            agrees(next@, config_toggle_widget_next(old(self)@, op, event).1),
    {
        let ConfigToggle { request, phase } = op;
        match phase {
            ConfigPhase::Camera(phase) => match self.acquire(phase, event) {
                Acquired::Ask(phase, command) => Next::Ask(
                    ConfigToggle { request, phase: ConfigPhase::Camera(phase) },
                    command,
                ),
                Acquired::Ready(camera) => Next::Ask(
                    ConfigToggle { request, phase: ConfigPhase::Held },
                    Command::HoldCamera(camera),
                ),
                Acquired::Refused(status) => Next::Reply(Err(status)),
            },
            ConfigPhase::Held => {
                let name = request.name.clone();
                Next::Ask(
                    ConfigToggle { request, phase: ConfigPhase::Fetching },
                    Command::FetchToggle { name },
                )
            },
            ConfigPhase::Fetching => {
                let value = request.value;
                Next::Ask(
                    ConfigToggle { request, phase: ConfigPhase::Changing },
                    Command::Toggle { value },
                ).unless_failed_to(event, "Failed to get key".to_string())
            },
            ConfigPhase::Changing => Next::Ask(
                ConfigToggle { request, phase: ConfigPhase::Applying },
                Command::ApplyConfig,
            ),
            ConfigPhase::Applying => {
                let done: Step<ConfigToggle, C> = Next::Reply(Ok(Answer::Empty));
                done.unless_failed_to(event, "Failed to set config target".to_string())
            },
        }
    }
}

/// However far a request to set an option is, it is still about the option and the
/// value that were asked for.
pub proof fn law_phases_keep_what_was_asked(
    radio: ConfigRadio,
    toggle: ConfigToggle,
    phase: ConfigPhase,
)
    ensures
        radio.at(phase).request == radio.request,
        radio.at(phase).phase == phase,
        toggle.at(phase).request == toggle.request,
        toggle.at(phase).phase == phase,
{
}

} // verus!
