//! Serving the captured image over HTTP.

use vstd::prelude::*;
use crate::booth::{MyPhotobooth, shown};

verus! {

/// The HTTP status of a request that succeeds.
pub const OK: u16 = 200;

/// The HTTP status of a request for what is not there.
pub const NOT_FOUND: u16 = 404;

/// The body of a response. `S` is the type of a text and `B` that of a run of bytes.
#[derive(Debug, PartialEq, Eq)]
pub enum Body<S, B> {
    Bytes(B),
    Text(S),
}

/// A response.
#[derive(Debug, PartialEq, Eq)]
pub struct HttpReply<S, B> {
    pub status: u16,
    pub content_type: S,
    pub body: Body<S, B>,
}

/// A response as contracts see it.
pub type HttpReplyText = HttpReply<Seq<char>, Seq<u8>>;

impl View for HttpReply<String, Vec<u8>> {
    type V = HttpReplyText;

    open spec fn view(&self) -> HttpReplyText {
        HttpReply {
            status: self.status,
            content_type: self.content_type@,
            body: match self.body {
                Body::Bytes(bytes) => Body::Bytes(bytes@),
                Body::Text(text) => Body::Text(text@),
            },
        }
    }
}

/// The response to a request for the captured image.
pub open spec fn image_reply(image: Seq<u8>) -> HttpReplyText {
    match shown(image) {
        Some(bytes) => HttpReply {
            status: OK,
            content_type: "image/jpeg"@,
            body: Body::Bytes(bytes),
        },
        None => HttpReply {
            status: NOT_FOUND,
            content_type: "text/plain; charset=utf-8"@,
            body: Body::Text("No preview image available"@),
        },
    }
}

/// Answers a request for the captured image.
pub fn image_handler<X, C>(photobooth: &MyPhotobooth<X, C>) -> (reply: HttpReply<
    String,
    Vec<u8>,
>)
    ensures
        reply@ == image_reply(photobooth@.image),
{
    match photobooth.get_capture_image() {
        Some(image) => HttpReply {
            status: OK,
            content_type: "image/jpeg".to_string(),
            body: Body::Bytes(image),
        },
        None => HttpReply {
            status: NOT_FOUND,
            content_type: "text/plain; charset=utf-8".to_string(),
            body: Body::Text("No preview image available".to_string()),
        },
    }
}

/// Every captured image is served with the status 200, as a JPEG image and byte for
/// byte; while there is none the answer is the status 404 and a plain text.
pub proof fn law_image_reply(image: Seq<u8>)
    ensures
        ({
            let reply = image_reply(image);
            &&& image.len() > 0 ==> {
                &&& reply.status == 200
                &&& reply.content_type == "image/jpeg"@
                &&& reply.body matches Body::Bytes(bytes) && bytes == image
            }
            &&& image.len() == 0 ==> {
                &&& reply.status == 404
                &&& reply.content_type == "text/plain; charset=utf-8"@
                &&& reply.body matches Body::Text(text) && text == "No preview image available"@
            }
        }),
{
}

/// Contracts see a response with its own status, content type and body.
pub proof fn law_http_reply_view(reply: HttpReply<String, Vec<u8>>)
    ensures
        reply@.status == reply.status,
        reply@.content_type == reply.content_type@,
        match reply.body {
            Body::Bytes(bytes) => reply@.body matches Body::Bytes(seen) && seen == bytes@,
            Body::Text(text) => reply@.body matches Body::Text(seen) && seen == text@,
        },
{
}

} // verus!
