//! Driving one output line of a GPIO chip.

use vstd::prelude::*;
use crate::booth::MyPhotobooth;
use crate::protocol::{
    Answer, Command, Event, Next, SetGpioRequest, Step, StepText, ok, unless_failed_to,
};

verus! {

/// How far a request to drive a line is.
#[derive(Debug, Clone, Copy, PartialEq, Eq)]
pub enum GpioPhase {
    Begin,
    /// The chip is being opened.
    Opening,
    /// The line is being requested.
    Requesting,
    /// The line is being driven.
    Setting,
}

/// A request to drive a line, and how far it is.
#[derive(Debug, PartialEq, Eq)]
pub struct SetGpio {
    pub request: SetGpioRequest,
    pub phase: GpioPhase,
}

impl SetGpio {
    /// The same request at another phase.
    pub open spec fn at(self, phase: GpioPhase) -> Self {
        SetGpio { phase, ..self }
    }
}

/// One step of a request to drive a line: the chip is opened, the line requested as
/// a low output under the name of the booth, and then driven to the value that was
/// asked for.
pub open spec fn set_gpio_next<C>(op: SetGpio, event: Event<C>) -> StepText<SetGpio, C> {
    match op.phase {
        GpioPhase::Begin => Next::Ask(
            op.at(GpioPhase::Opening),
            Command::OpenChip { chip: op.request.chip@ },
        ),
        GpioPhase::Opening => unless_failed_to(
            event,
            "Failed to get key"@,
            Next::Ask(
                op.at(GpioPhase::Requesting),
                Command::RequestLine {
                    line: op.request.line,
                    initial: false,
                    consumer: "photobooth"@,
                },
            ),
        ),
        GpioPhase::Requesting => unless_failed_to(
            event,
            "Failed to get key"@,
            Next::Ask(op.at(GpioPhase::Setting), Command::SetLine { value: op.request.value }),
        ),
        GpioPhase::Setting => unless_failed_to(event, "Failed to get key"@, ok()),
    }
}

impl<X, C> MyPhotobooth<X, C> {
    /// Advances a request to drive a line by one step. It starts out at
    /// `GpioPhase::Begin`.
    pub fn set_gpio(&self, op: SetGpio, event: Event<C>) -> (next: Step<SetGpio, C>)
        ensures
            next@ == set_gpio_next(op, event),
    {
        let SetGpio { request, phase } = op;
        let what = "Failed to get key".to_string();
        match phase {
            GpioPhase::Begin => {
                let chip = request.chip.clone();
                Next::Ask(
                    SetGpio { request, phase: GpioPhase::Opening },
                    Command::OpenChip { chip },
                )
            },
            GpioPhase::Opening => {
                let line = request.line;
                Next::Ask(
                    SetGpio { request, phase: GpioPhase::Requesting },
                    Command::RequestLine {
                        line,
                        initial: false,
                        consumer: "photobooth".to_string(),
                    },
                ).unless_failed_to(event, what)
            },
            GpioPhase::Requesting => {
                let value = request.value;
                Next::Ask(
                    SetGpio { request, phase: GpioPhase::Setting },
                    Command::SetLine { value },
                ).unless_failed_to(event, what)
            },
            GpioPhase::Setting => {
                let done: Step<SetGpio, C> = Next::Reply(Ok(Answer::Empty));
                done.unless_failed_to(event, what)
            },
        }
    }
}

/// However far a request to drive a line is, it is still about the chip, the line and
/// the value that were asked for.
pub proof fn law_phases_keep_the_line(op: SetGpio, phase: GpioPhase)
    ensures
        op.at(phase).request == op.request,
        op.at(phase).phase == phase,
{
}

} // verus!
