//! What passes between a request and the outside: the calls that a step asks for,
//! the outcomes that it is handed, and the answers.

use vstd::prelude::*;
use crate::camera::{CameraDescriptor, CameraEvent};
use crate::status::{Status, StatusText, internal};

verus! {

/// A request to set a camera option that has a list of choices.
#[derive(Debug, PartialEq, Eq)]
pub struct ConfigRadioWidgetRequest {
    pub name: String,
    pub value: String,
}

/// A request to set a camera option that is on or off.
#[derive(Debug, PartialEq, Eq)]
pub struct ConfigToggleWidgetRequest {
    pub name: String,
    pub value: bool,
}

/// A request to drive one output line of a GPIO chip.
#[derive(Debug, PartialEq, Eq)]
pub struct SetGpioRequest {
    pub chip: String,
    pub line: u32,
    pub value: bool,
}

/// The outcome of an outside call, as it is handed to the step that asked for it.
#[derive(Debug, PartialEq, Eq)]
pub enum Event<C> {
    /// The call came back with nothing to say.
    Done,
    /// The call failed; this is the text of its error.
    Failed(String),
    /// A camera was found and opened.
    Detected(C),
    /// The cameras that are connected.
    Listed(Vec<CameraDescriptor>),
    /// What the camera reported.
    Camera(CameraEvent),
    /// The bytes of a file.
    Data(Vec<u8>),
    /// The preview was asked to stop.
    Stopped,
}

/// The outside call that a step asks for. `S` is the type of a text, `String` when
/// it runs and `Seq<char>` in contracts.
#[derive(Debug, PartialEq, Eq)]
pub enum Command<C, S> {
    /// Call again at once, once other requests had their turn.
    Resume,
    /// List the cameras that are connected.
    ListCameras,
    /// Find a camera and open it.
    DetectCamera,
    /// Keep this camera: the calls on a camera that follow are made on it.
    HoldCamera(C),
    /// Run the preview on this camera, next to everything else.
    SpawnPreview(C),
    /// Take one preview shot, unless the preview is asked to stop before it comes.
    ShootPreview,
    /// Wake whoever waits for a preview frame.
    NotifyFrame,
    /// Ask the preview to stop.
    NotifyStop,
    /// Do nothing for so many milliseconds.
    Pause { millis: u64 },
    /// Fetch the option of this name, one with a list of choices.
    FetchRadio { name: S },
    /// Fetch the option of this name, one that is on or off.
    FetchToggle { name: S },
    /// Pick this choice in the option that was fetched.
    Choose { choice: S },
    /// Turn the option that was fetched on or off.
    Toggle { value: bool },
    /// Write the option that was fetched back to the camera.
    ApplyConfig,
    /// Wait for the camera to report something, so many seconds at most.
    WaitEvent { seconds: u64 },
    /// Download a file from the camera.
    Download { folder: S, name: S },
    /// Read the bytes of the file or shot that was obtained last.
    ReadData,
    /// Delete a file from the camera, whatever comes of it.
    DeleteFile { folder: S, name: S },
    /// Open the GPIO chip of this name.
    OpenChip { chip: S },
    /// Request a line of the chip as an output, with its first value.
    RequestLine { line: u32, initial: bool, consumer: S },
    /// Drive the line that was requested.
    SetLine { value: bool },
}

/// A command as contracts see it.
pub type CommandText<C> = Command<C, Seq<char>>;

impl<C> View for Command<C, String> {
    type V = CommandText<C>;

    open spec fn view(&self) -> CommandText<C> {
        match *self {
            Command::Resume => Command::Resume,
            Command::ListCameras => Command::ListCameras,
            Command::DetectCamera => Command::DetectCamera,
            Command::HoldCamera(camera) => Command::HoldCamera(camera),
            Command::SpawnPreview(camera) => Command::SpawnPreview(camera),
            Command::ShootPreview => Command::ShootPreview,
            Command::NotifyFrame => Command::NotifyFrame,
            Command::NotifyStop => Command::NotifyStop,
            Command::Pause { millis } => Command::Pause { millis },
            Command::FetchRadio { name } => Command::FetchRadio { name: name@ },
            Command::FetchToggle { name } => Command::FetchToggle { name: name@ },
            Command::Choose { choice } => Command::Choose { choice: choice@ },
            Command::Toggle { value } => Command::Toggle { value },
            Command::ApplyConfig => Command::ApplyConfig,
            Command::WaitEvent { seconds } => Command::WaitEvent { seconds },
            Command::Download { folder, name } => Command::Download {
                folder: folder@,
                name: name@,
            },
            Command::ReadData => Command::ReadData,
            Command::DeleteFile { folder, name } => Command::DeleteFile {
                folder: folder@,
                name: name@,
            },
            Command::OpenChip { chip } => Command::OpenChip { chip: chip@ },
            Command::RequestLine { line, initial, consumer } => Command::RequestLine {
                line,
                initial,
                consumer: consumer@,
            },
            Command::SetLine { value } => Command::SetLine { value },
        }
    }
}

/// Whether one command stands for another: they are equal, but that the camera
/// handed out may be a clone.
pub open spec fn stands_for<C: Clone>(given: CommandText<C>, meant: CommandText<C>) -> bool {
    match meant {
        Command::HoldCamera(camera) => given is HoldCamera && cloned(camera, given->HoldCamera_0),
        Command::SpawnPreview(camera) => given is SpawnPreview && cloned(
            camera,
            given->SpawnPreview_0,
        ),
        _ => given == meant,
    }
}

/// What a request that succeeds is answered with. `L` is the type of a list of
/// texts, `Vec<String>` when it runs and `Seq<Seq<char>>` in contracts.
#[derive(Debug, PartialEq, Eq)]
pub enum Answer<L> {
    Empty,
    Cameras(L),
}

/// What follows a step: an outside call and the request that waits for its
/// outcome, or the answer.
#[derive(Debug, PartialEq, Eq)]
pub enum Next<O, C, S, L> {
    Ask(O, Command<C, S>),
    Reply(Result<Answer<L>, Status<S>>),
}

/// What follows a step, as it runs.
pub type Step<O, C> = Next<O, C, String, Vec<String>>;

/// What follows a step, as contracts see it.
pub type StepText<O, C> = Next<O, C, Seq<char>, Seq<Seq<char>>>;

/// The texts of a list of strings.
pub open spec fn texts(list: Seq<String>) -> Seq<Seq<char>> {
    list.map_values(|text: String| text@)
}

impl View for Answer<Vec<String>> {
    type V = Answer<Seq<Seq<char>>>;

    open spec fn view(&self) -> Answer<Seq<Seq<char>>> {
        match *self {
            Answer::Empty => Answer::Empty,
            Answer::Cameras(list) => Answer::Cameras(texts(list@)),
        }
    }
}

impl<O, C> View for Next<O, C, String, Vec<String>> {
    type V = StepText<O, C>;

    open spec fn view(&self) -> StepText<O, C> {
        match *self {
            Next::Ask(request, command) => Next::Ask(request, command@),
            Next::Reply(Ok(answer)) => Next::Reply(Ok(answer@)),
            Next::Reply(Err(status)) => Next::Reply(Err(status@)),
        }
    }
}

/// Whether what a step gave is what was meant, but that the camera handed out may
/// be a clone.
pub open spec fn agrees<O, C: Clone>(given: StepText<O, C>, meant: StepText<O, C>) -> bool {
    match (given, meant) {
        (Next::Ask(o1, c1), Next::Ask(o2, c2)) => o1 == o2 && stands_for(c1, c2),
        _ => given == meant,
    }
}

/// The answer of a request that succeeds with nothing to say.
pub open spec fn ok<O, C>() -> StepText<O, C> {
    Next::Reply(Ok(Answer::Empty))
}

/// The answer of a request that fails.
pub open spec fn refuse<O, C>(status: StatusText) -> StepText<O, C> {
    Next::Reply(Err(status))
}

/// What follows a call that only succeeds or fails: a failure is answered as an
/// internal error, with its own text.
pub open spec fn unless_failed<O, C>(event: Event<C>, next: StepText<O, C>) -> StepText<O, C> {
    match event {
        Event::Failed(error) => refuse(internal(error@)),
        _ => next,
    }
}

/// What follows a call that only succeeds or fails: a failure is answered as an
/// internal error, with a text of ours, a colon and its own text.
pub open spec fn unless_failed_to<O, C>(
    event: Event<C>,
    what: Seq<char>,
    next: StepText<O, C>,
) -> StepText<O, C> {
    match event {
        Event::Failed(error) => refuse(internal(what + ": "@ + error@)),
        _ => next,
    }
}

impl<O, C> Next<O, C, String, Vec<String>> {
    /// This step, unless the call before it failed: then the answer is an internal
    /// error with the text of the failure.
    pub fn unless_failed(self, event: Event<C>) -> (next: Self)
        ensures
            next@ == unless_failed(event, self@),
    {
        match event {
            Event::Failed(error) => Next::Reply(Err(Status::internal(error))),
            _ => self,
        }
    }

    /// This step, unless the call before it failed: then the answer is an internal
    /// error with this text, a colon and the text of the failure.
    pub fn unless_failed_to(self, event: Event<C>, what: String) -> (next: Self)
        ensures
            next@ == unless_failed_to(event, what@, self@),
    {
        match event {
            Event::Failed(error) => {
                let message = what.concat(": ").concat(error.as_str());
                Next::Reply(Err(Status::internal(message)))
            },
            _ => self,
        }
    }
}

/// Contracts see every command as it is, with its own texts and values.
pub proof fn law_command_view<C>(command: Command<C, String>)
    ensures
        match command {
            Command::Resume => command@ is Resume,
            Command::ListCameras => command@ is ListCameras,
            Command::DetectCamera => command@ is DetectCamera,
            Command::HoldCamera(camera) => command@ matches Command::HoldCamera(seen) && seen
                == camera,
            Command::SpawnPreview(camera) => command@ matches Command::SpawnPreview(seen) && seen
                == camera,
            Command::ShootPreview => command@ is ShootPreview,
            Command::NotifyFrame => command@ is NotifyFrame,
            Command::NotifyStop => command@ is NotifyStop,
            Command::Pause { millis } => command@ matches Command::Pause { millis: seen } && seen
                == millis,
            Command::FetchRadio { name } => command@ matches Command::FetchRadio { name: seen }
                && seen == name@,
            Command::FetchToggle { name } => command@ matches Command::FetchToggle { name: seen }
                && seen == name@,
            Command::Choose { choice } => command@ matches Command::Choose { choice: seen } && seen
                == choice@,
            Command::Toggle { value } => command@ matches Command::Toggle { value: seen } && seen
                == value,
            Command::ApplyConfig => command@ is ApplyConfig,
            Command::WaitEvent { seconds } => command@ matches Command::WaitEvent { seconds: seen }
                && seen == seconds,
            Command::Download { folder, name } => command@ matches Command::Download {
                folder: f,
                name: n,
            } && f == folder@ && n == name@,
            Command::ReadData => command@ is ReadData,
            Command::DeleteFile { folder, name } => command@ matches Command::DeleteFile {
                folder: f,
                name: n,
            } && f == folder@ && n == name@,
            Command::OpenChip { chip } => command@ matches Command::OpenChip { chip: seen } && seen
                == chip@,
            Command::RequestLine { line, initial, consumer } => {
                &&& command@ matches Command::RequestLine { line: l, initial: i, consumer: c }
                &&& l == line && i == initial && c == consumer@
            },
            Command::SetLine { value } => command@ matches Command::SetLine { value: seen } && seen
                == value,
        },
{
}

/// Contracts see a list of strings as the text of each, in its order.
pub proof fn law_texts(list: Seq<String>)
    ensures
        texts(list).len() == list.len(),
        forall|i: int| 0 <= i < list.len() ==> #[trigger] texts(list)[i] == list[i]@,
{
}

/// Contracts see a step as it is: the same request with the same call, or the same
/// answer.
pub proof fn law_step_view<O, C>(step: Step<O, C>)
    ensures
        match step {
            Next::Ask(request, command) => step@ matches Next::Ask(seen, asked) && seen == request
                && asked == command@,
            Next::Reply(Ok(Answer::Empty)) => step@ matches Next::Reply(Ok(Answer::Empty)),
            Next::Reply(Ok(Answer::Cameras(list))) => step@ matches Next::Reply(
                Ok(Answer::Cameras(seen)),
            ) && seen.len() == list@.len() && forall|i: int|
                0 <= i < seen.len() ==> #[trigger] seen[i] == list@[i]@,
            Next::Reply(Err(status)) => step@ matches Next::Reply(Err(seen)) && seen.code
                == status.code && seen.message == status.message@,
        },
{
}

/// What a step gives is what was meant: the answer is the very same, and so are the
/// waiting request and the call, but that a camera may be a clone of the one meant.
pub proof fn law_steps_agree<O, C: Clone>(given: StepText<O, C>, meant: StepText<O, C>)
    requires
        agrees(given, meant),
    ensures
        match meant {
            Next::Reply(_) => given == meant,
            Next::Ask(request, command) => given matches Next::Ask(waiting, asked) && waiting
                == request && match command {
                Command::HoldCamera(camera) => asked matches Command::HoldCamera(handed) && cloned(
                    camera,
                    handed,
                ),
                Command::SpawnPreview(camera) => asked matches Command::SpawnPreview(handed)
                    && cloned(camera, handed),
                _ => asked == command,
            },
        },
{
}

/// A success says nothing, and a refusal says exactly its status.
pub proof fn law_answers<O, C>(status: StatusText)
    ensures
        ok::<O, C>() matches Next::Reply(Ok(Answer::Empty)),
        refuse::<O, C>(status) matches Next::Reply(Err(said)) && said == status,
{
}

/// A call that fails is refused with the code 13, and with the text of the failure,
/// alone or after a text of ours and a colon; any other outcome goes on as planned.
pub proof fn law_unless_failed<O, C>(event: Event<C>, what: Seq<char>, next: StepText<O, C>)
    ensures
        match event {
            Event::Failed(error) => {
                &&& unless_failed(event, next) matches Next::Reply(Err(status)) && status.code == 13
                    && status.message == error@
                &&& unless_failed_to(event, what, next) matches Next::Reply(Err(status))
                    && status.code == 13 && status.message == what + ": "@ + error@
            },
            _ => unless_failed(event, next) == next && unless_failed_to(event, what, next) == next,
        },
{
}

} // verus!
