use photobooth::booth::MyPhotobooth;
use photobooth::camera::{CameraDescriptor, CameraEvent, FilePath};
use photobooth::capture::{CaptureImage, MAX_RETRY};
use photobooth::protocol::{
    Answer, Command, ConfigRadioWidgetRequest, ConfigToggleWidgetRequest, Event, Next,
    SetGpioRequest,
};
use photobooth::request::Request;
use photobooth::status::Status;

type Booth = MyPhotobooth<(), u32>;

fn empty_booth() -> Booth {
    MyPhotobooth::new(())
}

fn booth_with_camera() -> Booth {
    let mut booth = empty_booth();
    booth.set_camera(7);
    booth
}

fn file() -> FilePath {
    FilePath { folder: "/store/DCIM".to_string(), name: "IMG_1.JPG".to_string() }
}

fn failed(text: &str) -> Event<u32> {
    Event::Failed(text.to_string())
}

fn internal(text: &str) -> Result<Answer<Vec<String>>, Status<String>> {
    Err(Status { code: 13, message: text.to_string() })
}

fn precondition(text: &str) -> Result<Answer<Vec<String>>, Status<String>> {
    Err(Status { code: 9, message: text.to_string() })
}

/// Advances a request and returns what waits and the call it asks for.
fn ask(booth: &mut Booth, request: Request, event: Event<u32>) -> (Request, Command<u32, String>) {
    match booth.advance(request, event) {
        Next::Ask(request, command) => (request, command),
        Next::Reply(answer) => panic!("answered {:?}", answer),
    }
}

/// Advances a request and returns its answer.
fn reply(
    booth: &mut Booth,
    request: Request,
    event: Event<u32>,
) -> Result<Answer<Vec<String>>, Status<String>> {
    match booth.advance(request, event) {
        Next::Ask(_, command) => panic!("asked for {:?}", command),
        Next::Reply(answer) => answer,
    }
}

/// Advances a request with a camera in use up to where it holds the camera.
fn hold(booth: &mut Booth, request: Request) -> Request {
    let (request, command) = ask(booth, request, Event::Done);
    assert_eq!(command, Command::Resume);
    let (request, command) = ask(booth, request, Event::Done);
    assert_eq!(command, Command::HoldCamera(7));
    request
}

fn radio() -> Request {
    Request::config_radio_widget(ConfigRadioWidgetRequest {
        name: "iso".to_string(),
        value: "400".to_string(),
    })
}

fn toggle(value: bool) -> Request {
    Request::config_toggle_widget(ConfigToggleWidgetRequest { name: "viewfinder".to_string(), value })
}

fn gpio() -> Request {
    Request::set_gpio(SetGpioRequest { chip: "gpiochip0".to_string(), line: 17, value: true })
}

fn waiting(retry: u32) -> Request {
    Request::CaptureImage(CaptureImage::Waiting { retry })
}

#[test]
fn cameras_are_listed_in_order() {
    let mut booth = empty_booth();
    let (request, command) = ask(&mut booth, Request::list_camera(), Event::Done);
    assert_eq!(command, Command::ListCameras);
    let cameras = vec![
        CameraDescriptor { model: "Canon".to_string(), port: "usb:1".to_string() },
        CameraDescriptor { model: "Nikon".to_string(), port: "usb:2".to_string() },
    ];
    let answer = reply(&mut booth, request, Event::Listed(cameras));
    assert_eq!(answer, Ok(Answer::Cameras(vec!["Canon".to_string(), "Nikon".to_string()])));
}

#[test]
fn a_failed_listing_is_refused() {
    let mut booth = empty_booth();
    let (request, _) = ask(&mut booth, Request::list_camera(), Event::Done);
    assert_eq!(reply(&mut booth, request, failed("no bus")), internal("no bus"));
}

#[test]
fn a_listing_asks_again_for_what_is_no_list() {
    let mut booth = empty_booth();
    let (request, _) = ask(&mut booth, Request::list_camera(), Event::Done);
    let (_, command) = ask(&mut booth, request, Event::Data(vec![1]));
    assert_eq!(command, Command::ListCameras);
}

#[test]
fn a_found_camera_is_taken_into_use() {
    let mut booth = empty_booth();
    let (request, command) = ask(&mut booth, Request::capture_image(), Event::Done);
    assert_eq!(command, Command::DetectCamera);
    let (request, command) = ask(&mut booth, request, Event::Detected(5));
    assert_eq!(command, Command::Resume);
    assert_eq!(booth.camera(), Some(5));
    let (_, command) = ask(&mut booth, request, Event::Done);
    assert_eq!(command, Command::HoldCamera(5));
}

#[test]
fn a_search_asks_again_for_what_is_no_camera() {
    let mut booth = empty_booth();
    let (request, _) = ask(&mut booth, Request::capture_image(), Event::Done);
    let (_, command) = ask(&mut booth, request, Event::Done);
    assert_eq!(command, Command::DetectCamera);
    assert!(!booth.has_camera());
}

#[test]
fn no_camera_found_is_refused() {
    for request in [Request::capture_image(), radio(), toggle(true)] {
        let mut booth = empty_booth();
        let (request, command) = ask(&mut booth, request, Event::Done);
        assert_eq!(command, Command::DetectCamera);
        let answer = reply(&mut booth, request, failed("Could not find camera"));
        assert_eq!(answer, internal("Could not find camera"));
        assert!(!booth.get_status_previewing());
    }
}

#[test]
fn a_camera_that_is_closed_meanwhile_is_refused() {
    for request in [Request::start_preview(), Request::capture_image(), radio(), toggle(true)] {
        let mut booth = booth_with_camera();
        let (request, command) = ask(&mut booth, request, Event::Done);
        assert_eq!(command, Command::Resume);
        booth.shutdown_camera();
        let answer = reply(&mut booth, request, Event::Done);
        assert_eq!(answer, precondition("Camera not initialized"));
    }
}

#[test]
fn the_preview_starts_on_the_camera_in_use() {
    let mut booth = booth_with_camera();
    let (request, command) = ask(&mut booth, Request::start_preview(), Event::Done);
    assert!(booth.get_status_previewing());
    assert_eq!(command, Command::Resume);
    let (request, command) = ask(&mut booth, request, Event::Done);
    assert_eq!(command, Command::SpawnPreview(7));
    assert_eq!(reply(&mut booth, request, Event::Done), Ok(Answer::Empty));
}

#[test]
fn the_preview_starts_on_a_found_camera() {
    let mut booth = empty_booth();
    let (request, command) = ask(&mut booth, Request::start_preview(), Event::Done);
    assert_eq!(command, Command::DetectCamera);
    let (request, command) = ask(&mut booth, request, Event::Detected(9));
    assert_eq!(command, Command::Resume);
    let (request, command) = ask(&mut booth, request, Event::Done);
    assert_eq!(command, Command::SpawnPreview(9));
    assert_eq!(reply(&mut booth, request, Event::Done), Ok(Answer::Empty));
}

#[test]
fn a_preview_without_camera_still_counts_as_started() {
    let mut booth = empty_booth();
    let (request, _) = ask(&mut booth, Request::start_preview(), Event::Done);
    assert_eq!(reply(&mut booth, request, failed("none")), internal("none"));
    assert!(booth.get_status_previewing());
}

#[test]
fn stopping_without_preview_does_nothing() {
    let mut booth = booth_with_camera();
    let answer = reply(&mut booth, Request::stop_preview(), Event::Done);
    assert_eq!(answer, Ok(Answer::Empty));
    assert_eq!(booth.camera(), Some(7));
}

#[test]
fn stopping_the_preview_closes_the_camera() {
    let mut booth = booth_with_camera();
    booth.set_status_previewing(true);
    let (request, command) = ask(&mut booth, Request::stop_preview(), Event::Done);
    assert_eq!(command, Command::NotifyStop);
    assert_eq!(booth.camera(), Some(7));
    assert_eq!(reply(&mut booth, request, Event::Done), Ok(Answer::Empty));
    assert_eq!(booth.camera(), None);
    assert!(booth.get_status_previewing());
}

#[test]
fn a_picture_is_taken() {
    let mut booth = booth_with_camera();
    booth.store_image(vec![0]);
    booth.store_preview(vec![8]);
    let request = hold(&mut booth, Request::capture_image());
    let (request, command) = ask(&mut booth, request, Event::Done);
    assert_eq!(command, Command::FetchRadio { name: "eosremoterelease".to_string() });
    let (request, command) = ask(&mut booth, request, Event::Done);
    assert_eq!(command, Command::Choose { choice: "Immediate".to_string() });
    let (request, command) = ask(&mut booth, request, Event::Done);
    assert_eq!(command, Command::ApplyConfig);
    let (request, command) = ask(&mut booth, request, Event::Done);
    assert_eq!(command, Command::Choose { choice: "Release Full".to_string() });
    let (request, command) = ask(&mut booth, request, Event::Done);
    assert_eq!(command, Command::ApplyConfig);
    let (request, command) = ask(&mut booth, request, Event::Done);
    assert_eq!(command, Command::WaitEvent { seconds: 10 });
    let (request, command) =
        ask(&mut booth, request, Event::Camera(CameraEvent::Unknown("x".to_string())));
    assert_eq!(command, Command::WaitEvent { seconds: 10 });
    let (request, command) =
        ask(&mut booth, request, Event::Camera(CameraEvent::NewFile(file())));
    assert_eq!(
        command,
        Command::Download { folder: "/store/DCIM".to_string(), name: "IMG_1.JPG".to_string() }
    );
    let (request, command) = ask(&mut booth, request, Event::Done);
    assert_eq!(command, Command::ReadData);
    assert_eq!(booth.get_capture_image(), Some(vec![0]));
    let (request, command) = ask(&mut booth, request, Event::Data(vec![1, 2, 3]));
    assert_eq!(
        command,
        Command::DeleteFile { folder: "/store/DCIM".to_string(), name: "IMG_1.JPG".to_string() }
    );
    assert_eq!(booth.get_capture_image(), Some(vec![1, 2, 3]));
    assert_eq!(booth.get_preview_image(), Some(vec![8]));
    assert_eq!(reply(&mut booth, request, failed("busy")), Ok(Answer::Empty));
}

#[test]
fn every_call_of_a_capture_can_fail() {
    let phases = [
        CaptureImage::Fetching,
        CaptureImage::ChoosingImmediate,
        CaptureImage::ApplyingImmediate,
        CaptureImage::ChoosingRelease,
        CaptureImage::ApplyingRelease,
        CaptureImage::Waiting { retry: 3 },
        CaptureImage::Downloading(file()),
        CaptureImage::Reading(file()),
    ];
    for phase in phases {
        let mut booth = booth_with_camera();
        let answer = reply(&mut booth, Request::CaptureImage(phase), failed("I/O problem"));
        assert_eq!(answer, internal("I/O problem"));
        assert_eq!(booth.get_capture_image(), None);
    }
}

#[test]
fn a_refused_capture_keeps_the_last_image() {
    let mut booth = booth_with_camera();
    booth.store_image(vec![4, 2]);
    let mut request = hold(&mut booth, Request::capture_image());
    for _ in 0..6 {
        request = ask(&mut booth, request, Event::Data(vec![9])).0;
    }
    assert_eq!(request, waiting(0));
    let (request, _) = ask(&mut booth, request, Event::Camera(CameraEvent::NewFile(file())));
    let (request, _) = ask(&mut booth, request, Event::Data(vec![9]));
    assert_eq!(reply(&mut booth, request, failed("cable")), internal("cable"));
    assert_eq!(booth.get_capture_image(), Some(vec![4, 2]));
}

#[test]
fn a_capture_that_times_out_is_refused() {
    let mut booth = booth_with_camera();
    let answer = reply(&mut booth, waiting(0), Event::Camera(CameraEvent::Timeout));
    assert_eq!(answer, precondition("Timeout No new file added"));
}

#[test]
fn a_capture_passes_over_a_thousand_events() {
    let mut booth = booth_with_camera();
    let mut request = waiting(0);
    for i in 0..1000 {
        let event = match i % 4 {
            0 => CameraEvent::Unknown("button".to_string()),
            1 => CameraEvent::FileChanged(file()),
            2 => CameraEvent::NewFolder(file()),
            _ => CameraEvent::CaptureComplete,
        };
        let (next, command) = ask(&mut booth, request, Event::Camera(event));
        assert_eq!(command, Command::WaitEvent { seconds: 10 });
        assert_eq!(next, waiting(i + 1));
        request = next;
    }
    let answer = reply(&mut booth, request, Event::Camera(CameraEvent::CaptureComplete));
    assert_eq!(answer, precondition("No new file added"));
}

#[test]
fn the_last_event_may_still_be_the_file() {
    assert_eq!(MAX_RETRY, 1000);
    let mut booth = booth_with_camera();
    let (_, command) =
        ask(&mut booth, waiting(MAX_RETRY), Event::Camera(CameraEvent::NewFile(file())));
    assert!(matches!(command, Command::Download { .. }));
}

#[test]
fn waiting_and_reading_ask_again_for_what_is_no_answer() {
    let mut booth = booth_with_camera();
    let (request, command) = ask(&mut booth, waiting(12), Event::Done);
    assert_eq!(request, waiting(12));
    assert_eq!(command, Command::WaitEvent { seconds: 10 });
    let reading = Request::CaptureImage(CaptureImage::Reading(file()));
    let (request, command) = ask(&mut booth, reading, Event::Done);
    assert_eq!(request, Request::CaptureImage(CaptureImage::Reading(file())));
    assert_eq!(command, Command::ReadData);
}

#[test]
fn a_choice_is_set() {
    let mut booth = booth_with_camera();
    let request = hold(&mut booth, radio());
    let (request, command) = ask(&mut booth, request, Event::Done);
    assert_eq!(command, Command::FetchRadio { name: "iso".to_string() });
    let (request, command) = ask(&mut booth, request, Event::Done);
    assert_eq!(command, Command::Choose { choice: "400".to_string() });
    let (request, command) = ask(&mut booth, request, Event::Done);
    assert_eq!(command, Command::ApplyConfig);
    assert_eq!(reply(&mut booth, request, Event::Done), Ok(Answer::Empty));
}

#[test]
fn a_choice_that_fails_says_where() {
    let expected = [
        "Failed to get iso: bad",
        "Failed to set iso: bad",
        "Failed to set config iso target: bad",
    ];
    for (calls, message) in expected.iter().enumerate() {
        let mut booth = booth_with_camera();
        let mut request = hold(&mut booth, radio());
        for _ in 0..calls + 1 {
            request = ask(&mut booth, request, Event::Done).0;
        }
        assert_eq!(reply(&mut booth, request, failed("bad")), internal(message));
    }
}

#[test]
fn a_switch_is_set() {
    let mut booth = booth_with_camera();
    let request = hold(&mut booth, toggle(false));
    let (request, command) = ask(&mut booth, request, Event::Done);
    assert_eq!(command, Command::FetchToggle { name: "viewfinder".to_string() });
    let (request, command) = ask(&mut booth, request, Event::Done);
    assert_eq!(command, Command::Toggle { value: false });
    let (request, command) = ask(&mut booth, request, Event::Done);
    assert_eq!(command, Command::ApplyConfig);
    assert_eq!(reply(&mut booth, request, Event::Done), Ok(Answer::Empty));
}

#[test]
fn a_switch_that_fails_says_where() {
    let mut booth = booth_with_camera();
    let request = hold(&mut booth, toggle(true));
    let (request, _) = ask(&mut booth, request, Event::Done);
    assert_eq!(reply(&mut booth, request, failed("bad")), internal("Failed to get key: bad"));

    let request = hold(&mut booth, toggle(true));
    let (request, _) = ask(&mut booth, request, Event::Done);
    let (request, _) = ask(&mut booth, request, Event::Done);
    let (request, _) = ask(&mut booth, request, Event::Done);
    assert_eq!(
        reply(&mut booth, request, failed("bad")),
        internal("Failed to set config target: bad")
    );
}

#[test]
fn a_line_is_driven() {
    let mut booth = empty_booth();
    let (request, command) = ask(&mut booth, gpio(), Event::Done);
    assert_eq!(command, Command::OpenChip { chip: "gpiochip0".to_string() });
    let (request, command) = ask(&mut booth, request, Event::Done);
    assert_eq!(
        command,
        Command::RequestLine { line: 17, initial: false, consumer: "photobooth".to_string() }
    );
    let (request, command) = ask(&mut booth, request, Event::Done);
    assert_eq!(command, Command::SetLine { value: true });
    assert_eq!(reply(&mut booth, request, Event::Done), Ok(Answer::Empty));
    assert!(!booth.has_camera());
}

#[test]
fn a_line_that_fails_is_refused() {
    for calls in 1..4 {
        let mut booth = empty_booth();
        let mut request = gpio();
        for _ in 0..calls {
            request = ask(&mut booth, request, Event::Done).0;
        }
        let answer = reply(&mut booth, request, failed("No such file"));
        assert_eq!(answer, internal("Failed to get key: No such file"));
    }
}

#[test]
fn a_capture_that_is_answered_is_answered_in_time() {
    let mut booth = empty_booth();
    let mut request = Request::capture_image();
    let mut event = Event::Done;
    let mut turns = 0;
    loop {
        turns += 1;
        match booth.advance(request, event) {
            Next::Ask(next, command) => {
                request = next;
                event = match command {
                    Command::DetectCamera => Event::Detected(1),
                    Command::WaitEvent { .. } => Event::Camera(CameraEvent::CaptureComplete),
                    _ => Event::Done,
                };
            }
            Next::Reply(answer) => {
                assert_eq!(answer, precondition("No new file added"));
                break;
            }
        }
    }
    assert_eq!(turns, 3 + 6 + 1001);
}

#[test]
fn requests_side_by_side_leave_the_last_word() {
    let mut booth = booth_with_camera();
    let first = Request::CaptureImage(CaptureImage::Reading(file()));
    let second = Request::CaptureImage(CaptureImage::Reading(file()));
    ask(&mut booth, first, Event::Data(vec![1]));
    ask(&mut booth, second, Event::Data(vec![2]));
    booth.set_status_previewing(true);
    let (stop, _) = ask(&mut booth, Request::stop_preview(), Event::Done);
    reply(&mut booth, stop, Event::Done).unwrap();
    let (search, _) = ask(&mut booth, radio(), Event::Done);
    ask(&mut booth, search, Event::Detected(3));
    assert_eq!(booth.get_capture_image(), Some(vec![2]));
    assert_eq!(booth.camera(), Some(3));
}
