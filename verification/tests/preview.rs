use photobooth::booth::MyPhotobooth;
use photobooth::mjpeg::{
    decimal_digits, mjpeg_preview_handler, part_header, stream_head, MjpegStream, StreamCommand,
};
use photobooth::preview::PreviewTask;
use photobooth::protocol::{Answer, Command, Event, Next};

type Booth = MyPhotobooth<(), u32>;

fn booth() -> Booth {
    let mut booth = MyPhotobooth::new(());
    booth.set_status_previewing(true);
    booth
}

fn ask(booth: &mut Booth, task: PreviewTask, event: Event<u32>) -> (PreviewTask, Command<u32, String>) {
    match booth.preview_task(task, event) {
        Next::Ask(task, command) => (task, command),
        Next::Reply(answer) => panic!("ended {:?}", answer),
    }
}

/// Runs a stream for so many steps on one booth and returns the bytes it sends.
fn sent(booth: &Booth, steps: usize) -> Vec<u8> {
    let mut stream = MjpegStream::Poll;
    let mut bytes = Vec::new();
    for _ in 0..steps {
        let (next, command) = mjpeg_preview_handler(booth, stream);
        if let StreamCommand::Emit(mut chunk) = command {
            bytes.append(&mut chunk);
        }
        stream = next;
    }
    bytes
}

#[test]
fn a_round_of_the_preview() {
    let mut booth = booth();
    let (task, command) = ask(&mut booth, PreviewTask::Begin, Event::Done);
    assert_eq!(command, Command::ShootPreview);
    let (task, command) = ask(&mut booth, task, Event::Done);
    assert_eq!(command, Command::ReadData);
    let (task, command) = ask(&mut booth, task, Event::Data(vec![5, 6]));
    assert_eq!(command, Command::NotifyFrame);
    assert_eq!(booth.get_preview_image(), Some(vec![5, 6]));
    assert_eq!(booth.get_capture_image(), None);
    let (task, command) = ask(&mut booth, task, Event::Done);
    assert_eq!(command, Command::Pause { millis: 33 });
    let (task, command) = ask(&mut booth, task, Event::Done);
    assert_eq!(command, Command::ShootPreview);
    assert_eq!(task, PreviewTask::Shooting);
}

#[test]
fn a_frame_that_fails_is_passed_over() {
    for task in [PreviewTask::Shooting, PreviewTask::Reading] {
        let mut booth = booth();
        booth.store_preview(vec![1]);
        let (task, command) = ask(&mut booth, task, Event::Failed("blurred".to_string()));
        assert_eq!(task, PreviewTask::Resting);
        assert_eq!(command, Command::Pause { millis: 33 });
        assert_eq!(booth.get_preview_image(), Some(vec![1]));
        assert!(booth.get_status_previewing());
    }
}

#[test]
fn the_preview_ends_when_it_is_stopped() {
    let mut booth = booth();
    let next = booth.preview_task(PreviewTask::Shooting, Event::Stopped);
    assert_eq!(next, Next::Reply(Ok(Answer::Empty)));
    assert!(!booth.get_status_previewing());
}

#[test]
fn the_preview_asks_again_for_what_is_no_answer() {
    let mut booth = booth();
    let (task, command) = ask(&mut booth, PreviewTask::Shooting, Event::Data(vec![1]));
    assert_eq!((task, command), (PreviewTask::Shooting, Command::ShootPreview));
    let (task, command) = ask(&mut booth, PreviewTask::Reading, Event::Done);
    assert_eq!((task, command), (PreviewTask::Reading, Command::ReadData));
    assert_eq!(booth.get_preview_image(), None);
}

#[test]
fn numbers_are_written_in_base_ten() {
    for n in [0, 7, 10, 99, 100, 1024, 65535, 1_000_000, usize::MAX] {
        assert_eq!(decimal_digits(n), n.to_string().into_bytes());
    }
}

#[test]
fn the_header_of_a_part() {
    assert_eq!(
        part_header(1234),
        b"--frame\r\nContent-Type: image/jpeg\r\nContent-Length: 1234\r\n\r\n".to_vec()
    );
}

#[test]
fn the_head_of_the_stream() {
    let head = stream_head();
    assert_eq!(head.status, 200);
    assert_eq!(head.content_type, "multipart/x-mixed-replace; boundary=frame");
}

#[test]
fn a_stream_waits_for_the_first_frame() {
    let booth = booth();
    let (stream, command) = mjpeg_preview_handler(&booth, MjpegStream::Poll);
    assert_eq!(stream, MjpegStream::Poll);
    assert_eq!(command, StreamCommand::AwaitFrame);
}

#[test]
fn a_stream_sends_a_part_and_rests() {
    let mut booth = booth();
    booth.store_preview(vec![1, 2, 3]);
    let (stream, command) = mjpeg_preview_handler(&booth, MjpegStream::Poll);
    assert_eq!(command, StreamCommand::Emit(part_header(3)));
    booth.store_preview(vec![9]);
    let (stream, command) = mjpeg_preview_handler(&booth, stream);
    assert_eq!(command, StreamCommand::Emit(vec![1, 2, 3]));
    let (stream, command) = mjpeg_preview_handler(&booth, stream);
    assert_eq!(command, StreamCommand::Emit(b"\r\n".to_vec()));
    let (stream, command) = mjpeg_preview_handler(&booth, stream);
    assert_eq!(command, StreamCommand::Pause { millis: 33 });
    assert_eq!(stream, MjpegStream::Poll);
}

#[test]
fn a_stream_sends_whole_parts() {
    let mut booth = booth();
    booth.store_preview(b"AB".to_vec());
    let part = b"--frame\r\nContent-Type: image/jpeg\r\nContent-Length: 2\r\n\r\nAB\r\n";
    let mut expected = part.to_vec();
    expected.extend_from_slice(part);
    assert_eq!(sent(&booth, 8), expected);
}

#[test]
fn other_frames_make_other_streams() {
    let mut first = booth();
    first.store_preview(b"--frame\r\n".to_vec());
    let mut second = booth();
    second.store_preview(b"--frame\r".to_vec());
    assert_ne!(sent(&first, 4), sent(&second, 4));
}
