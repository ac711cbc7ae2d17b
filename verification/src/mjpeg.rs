//! Serving the preview over HTTP as a stream of JPEG images, each a part of one
//! multipart body that never ends.

use vstd::prelude::*;
use vstd::utf8::encode_utf8;
use crate::booth::{MyPhotobooth, shown};
use crate::http::OK;
use crate::preview::FRAME_MILLIS;

verus! {

/// The text that separates the parts.
pub open spec fn boundary() -> Seq<char> {
    "frame"@
}

/// The digits of a number in base ten, without leading zeros, in ASCII.
pub open spec fn decimal(n: nat) -> Seq<u8>
    decreases n,
{
    if n < 10 {
        seq![(48 + n) as u8]
    } else {
        decimal(n / 10).push((48 + n % 10) as u8)
    }
}

/// What stands before the length in the header of a part.
pub open spec fn head_before() -> Seq<u8> {
    encode_utf8(
        "--"@ + boundary() + "\r\nContent-Type: image/jpeg\r\nContent-Length: "@,
    )
}

/// What stands after the length in the header of a part.
pub open spec fn head_after() -> Seq<u8> {
    encode_utf8("\r\n\r\n"@)
}

/// What ends a part.
pub open spec fn tail() -> Seq<u8> {
    encode_utf8("\r\n"@)
}

/// The header of a part with an image of this length.
pub open spec fn head(len: nat) -> Seq<u8> {
    head_before() + decimal(len) + head_after()
}

/// A part: the header, the image, and what ends it.
pub open spec fn part(image: Seq<u8>) -> Seq<u8> {
    head(image.len()) + image + tail()
}

/// The digits of a number in base ten, without leading zeros, in ASCII.
pub fn decimal_digits(n: usize) -> (digits: Vec<u8>)
    ensures
        digits@ == decimal(n as nat),
    decreases n,
{
    if n < 10 {
        let mut digits: Vec<u8> = Vec::new();
        digits.push(48 + n as u8);
        digits
    } else {
        let mut digits = decimal_digits(n / 10);
        digits.push(48 + (n % 10) as u8);
        digits
    }
}

/// The header of a part with an image of this length.
pub fn part_header(len: usize) -> (header: Vec<u8>)
    ensures
        header@ == head(len as nat),
{
    let before = "--".to_string().concat("frame").concat(
        "\r\nContent-Type: image/jpeg\r\nContent-Length: ",
    );
    let mut header = before.as_str().as_bytes_vec();
    let mut digits = decimal_digits(len);
    header.append(&mut digits);
    let mut after = "\r\n\r\n".as_bytes_vec();
    header.append(&mut after);
    header
}

/// The content type of the stream, which names the text that separates the parts.
pub open spec fn stream_content_type() -> Seq<char> {
    "multipart/x-mixed-replace; boundary="@ + boundary()
}

/// The status and content type of the stream.
#[derive(Debug, PartialEq, Eq)]
pub struct StreamHead {
    pub status: u16,
    pub content_type: String,
}

/// The status and content type of the stream.
pub fn stream_head() -> (reply: StreamHead)
    ensures
        reply.status == OK,
        reply.content_type@ == stream_content_type(),
{
    StreamHead {
        status: OK,
        content_type: "multipart/x-mixed-replace; boundary=".to_string().concat("frame"),
    }
}

/// What a stream is at. `B` is the type of a run of bytes, `Vec<u8>` when it runs
/// and `Seq<u8>` in contracts.
#[derive(Debug, PartialEq, Eq)]
pub enum MjpegStream<B> {
    /// About to look for a frame.
    Poll,
    /// The header of this image was sent.
    Image(B),
    /// The image was sent.
    Tail,
    /// The whole part was sent.
    Rest,
}

/// What a stream asks for next.
#[derive(Debug, PartialEq, Eq)]
pub enum StreamCommand<B> {
    /// Wait until there is a new preview frame.
    AwaitFrame,
    /// Send these bytes.
    Emit(B),
    /// Do nothing for so many milliseconds.
    Pause { millis: u64 },
}

impl View for MjpegStream<Vec<u8>> {
    type V = MjpegStream<Seq<u8>>;

    open spec fn view(&self) -> MjpegStream<Seq<u8>> {
        match *self {
            MjpegStream::Poll => MjpegStream::Poll,
            MjpegStream::Image(bytes) => MjpegStream::Image(bytes@),
            MjpegStream::Tail => MjpegStream::Tail,
            MjpegStream::Rest => MjpegStream::Rest,
        }
    }
}

impl View for StreamCommand<Vec<u8>> {
    type V = StreamCommand<Seq<u8>>;

    open spec fn view(&self) -> StreamCommand<Seq<u8>> {
        match *self {
            StreamCommand::AwaitFrame => StreamCommand::AwaitFrame,
            StreamCommand::Emit(bytes) => StreamCommand::Emit(bytes@),
            StreamCommand::Pause { millis } => StreamCommand::Pause { millis },
        }
    }
}

/// One step of a stream, when this is the last preview frame.
pub open spec fn mjpeg_next(preview: Seq<u8>, stream: MjpegStream<Seq<u8>>) -> (
    MjpegStream<Seq<u8>>,
    StreamCommand<Seq<u8>>,
) {
    match stream {
        MjpegStream::Poll => match shown(preview) {
            None => (MjpegStream::Poll, StreamCommand::AwaitFrame),
            Some(image) => (MjpegStream::Image(image), StreamCommand::Emit(head(image.len()))),
        },
        MjpegStream::Image(image) => (MjpegStream::Tail, StreamCommand::Emit(image)),
        MjpegStream::Tail => (MjpegStream::Rest, StreamCommand::Emit(tail())),
        MjpegStream::Rest => (MjpegStream::Poll, StreamCommand::Pause { millis: FRAME_MILLIS }),
    }
}

/// Advances a stream by one step. It starts out as `MjpegStream::Poll`.
pub fn mjpeg_preview_handler<X, C>(
    photobooth: &MyPhotobooth<X, C>,
    stream: MjpegStream<Vec<u8>>,
) -> (next: (MjpegStream<Vec<u8>>, StreamCommand<Vec<u8>>))
    ensures
        (next.0@, next.1@) == mjpeg_next(photobooth@.preview, stream@),
{
    match stream {
        MjpegStream::Poll => match photobooth.get_preview_image() {
            None => (MjpegStream::Poll, StreamCommand::AwaitFrame),
            Some(image) => {
                let header = part_header(image.len());
                (MjpegStream::Image(image), StreamCommand::Emit(header))
            },
        },
        MjpegStream::Image(image) => (MjpegStream::Tail, StreamCommand::Emit(image)),
        MjpegStream::Tail => (MjpegStream::Rest, StreamCommand::Emit("\r\n".as_bytes_vec())),
        MjpegStream::Rest => (
            MjpegStream::Poll,
            StreamCommand::Pause { millis: FRAME_MILLIS },
        ),
    }
}

/// The header of a part names the boundary, the type of the image and its length, and
/// ends with an empty line; the part is the header, the image itself and a line end.
pub proof fn law_part(image: Seq<u8>)
    ensures
        head(image.len()) == encode_utf8(
            "--"@ + "frame"@ + "\r\nContent-Type: image/jpeg\r\nContent-Length: "@,
        ) + decimal(image.len()) + encode_utf8("\r\n\r\n"@),
        part(image) == head(image.len()) + image + encode_utf8("\r\n"@),
        stream_content_type() == "multipart/x-mixed-replace; boundary="@ + "frame"@,
{
}

/// Contracts see a stream and what it asks for as they are.
pub proof fn law_stream_views(stream: MjpegStream<Vec<u8>>, command: StreamCommand<Vec<u8>>)
    ensures
        match stream {
            MjpegStream::Poll => stream@ is Poll,
            MjpegStream::Image(bytes) => stream@ matches MjpegStream::Image(seen) && seen == bytes@,
            MjpegStream::Tail => stream@ is Tail,
            MjpegStream::Rest => stream@ is Rest,
        },
        match command {
            StreamCommand::AwaitFrame => command@ is AwaitFrame,
            StreamCommand::Emit(bytes) => command@ matches StreamCommand::Emit(seen) && seen
                == bytes@,
            StreamCommand::Pause { millis } => command@ matches StreamCommand::Pause {
                millis: seen,
            } && seen == millis,
        },
{
}

} // verus!
