//! What holds of the preview stream as a whole: what it sends is the frames that it
//! found, and whoever receives it can tell them apart again.

use vstd::prelude::*;
use vstd::utf8::{encode_utf8, is_ascii_chars, is_ascii_chars_encode_utf8};
use crate::booth::shown;
use crate::mjpeg::{
    MjpegStream, StreamCommand, decimal, head, head_after, head_before, mjpeg_next, part, tail,
};

verus! {

/// The number that a run of ASCII digits stands for.
pub open spec fn value(digits: Seq<u8>) -> nat
    decreases digits.len(),
{
    if digits.len() == 0 {
        0
    } else {
        (10 * value(digits.drop_last()) + (digits.last() - 48)) as nat
    }
}

/// The digits of a number are digits, they stand for that number, and the first of
/// them is a zero only in the number zero.
pub proof fn law_decimal(n: nat)
    ensures
        decimal(n).len() > 0,
        forall|i: int| 0 <= i < decimal(n).len() ==> 48 <= #[trigger] decimal(n)[i] <= 57,
        value(decimal(n)) == n,
        decimal(n)[0] == 48 ==> n == 0,
    decreases n,
{
    reveal_with_fuel(value, 2);
    if n >= 10 {
        law_decimal(n / 10);
        let front = decimal(n / 10);
        assert(decimal(n).drop_last() == front);
        assert(decimal(n)[0] == front[0]);
    } else {
        assert(decimal(n).drop_last() == Seq::<u8>::empty());
    }
}

/// What follows the length in a header starts with a byte that is no digit.
proof fn lemma_head_after()
    ensures
        head_after().len() == 4,
        head_after()[0] == 13,
{
    reveal_strlit("\r\n\r\n");
    let text = "\r\n\r\n"@;
    assert(is_ascii_chars(text));
    is_ascii_chars_encode_utf8(text);
    assert(text[0] as u8 == encode_utf8(text)[0]);
}

/// Two numbers whose digits, each followed by what is no digit, start the same bytes
/// are the same number.
proof fn lemma_decimal_prefix(m: nat, n: nat, r: Seq<u8>, s: Seq<u8>)
    requires
        decimal(m) + r == decimal(n) + s,
        r.len() > 0,
        s.len() > 0,
        !(48 <= r[0] <= 57),
        !(48 <= s[0] <= 57),
    ensures
        m == n,
        r == s,
{
    law_decimal(m);
    law_decimal(n);
    let a = decimal(m);
    let b = decimal(n);
    if a.len() < b.len() {
        assert((a + r)[a.len() as int] == r[0]);
        assert((b + s)[a.len() as int] == b[a.len() as int]);
        assert(false);
    }
    if b.len() < a.len() {
        assert((b + s)[b.len() as int] == s[0]);
        assert((a + r)[b.len() as int] == a[b.len() as int]);
        assert(false);
    }
    assert(a =~= (a + r).take(a.len() as int));
    assert(b =~= (b + s).take(b.len() as int));
    assert(r =~= (a + r).skip(a.len() as int));
    assert(s =~= (b + s).skip(b.len() as int));
}

/// A part and what follows it, taken apart at the length.
proof fn lemma_part_shape(
    before: Seq<u8>,
    digits: Seq<u8>,
    rest: Seq<u8>,
    image: Seq<u8>,
    end: Seq<u8>,
    r: Seq<u8>,
)
    ensures
        before + digits + rest + image + end + r == before + (digits + (rest + (image + (end
            + r)))),
{
    assert(before + digits + rest + image + end + r =~= before + (digits + (rest + (image + (end
        + r)))));
}

/// What follows the same bytes is the same.
proof fn lemma_cancel(front: Seq<u8>, x: Seq<u8>, y: Seq<u8>)
    requires
        front + x == front + y,
    ensures
        x == y,
{
    assert(x =~= (front + x).skip(front.len() as int));
    assert(y =~= (front + y).skip(front.len() as int));
}

/// Bytes that are the same split at the same place into the same.
proof fn lemma_split(a: Seq<u8>, b: Seq<u8>, x: Seq<u8>, y: Seq<u8>)
    requires
        a + x == b + y,
        a.len() == b.len(),
    ensures
        a == b,
        x == y,
{
    assert(a =~= (a + x).take(a.len() as int));
    assert(b =~= (b + y).take(a.len() as int));
    lemma_cancel(a, x, y);
}

/// A part says where it ends: two streams of bytes that are the same and start with a
/// part each start with the same image, and go on with the same bytes.
pub proof fn law_part_delimits_itself(a: Seq<u8>, b: Seq<u8>, r: Seq<u8>, s: Seq<u8>)
    requires
        part(a) + r == part(b) + s,
    ensures
        a == b,
        r == s,
{
    lemma_head_after();
    let rest = head_after();
    let end = tail();
    lemma_part_shape(head_before(), decimal(a.len()), rest, a, end, r);
    lemma_part_shape(head_before(), decimal(b.len()), rest, b, end, s);
    let x = rest + (a + (end + r));
    let y = rest + (b + (end + s));
    assert(x[0] == rest[0] && y[0] == rest[0]);
    lemma_cancel(head_before(), decimal(a.len()) + x, decimal(b.len()) + y);
    lemma_decimal_prefix(a.len(), b.len(), x, y);
    lemma_cancel(rest, a + (end + r), b + (end + s));
    lemma_split(a, b, end + r, end + s);
    lemma_cancel(end, r, s);
}

/// The parts of these images, one after the other.
pub open spec fn parts(images: Seq<Seq<u8>>) -> Seq<u8>
    decreases images.len(),
{
    if images.len() == 0 {
        Seq::empty()
    } else {
        part(images[0]) + parts(images.drop_first())
    }
}

/// Whoever receives the parts can tell the images: other images would have made
/// other bytes.
pub proof fn law_parts_are_decodable(a: Seq<Seq<u8>>, b: Seq<Seq<u8>>)
    requires
        parts(a) == parts(b),
    ensures
        a == b,
    decreases a.len(),
{
    lemma_head_after();
    if a.len() == 0 && b.len() > 0 {
        assert(parts(b).len() > 0);
    } else if b.len() == 0 && a.len() > 0 {
        assert(parts(a).len() > 0);
    } else if a.len() > 0 {
        law_part_delimits_itself(a[0], b[0], parts(a.drop_first()), parts(b.drop_first()));
        law_parts_are_decodable(a.drop_first(), b.drop_first());
        assert(a =~= seq![a[0]] + a.drop_first());
        assert(b =~= seq![b[0]] + b.drop_first());
    } else {
        assert(a =~= b);
    }
}

/// What a stream is at after as many steps as there are frames here; each is the last
/// preview frame when its step is taken.
pub open spec fn stream_after(stream: MjpegStream<Seq<u8>>, frames: Seq<Seq<u8>>) -> MjpegStream<
    Seq<u8>,
>
    decreases frames.len(),
{
    if frames.len() == 0 {
        stream
    } else {
        stream_after(mjpeg_next(frames[0], stream).0, frames.drop_first())
    }
}

/// The bytes that a stream sends in these steps.
pub open spec fn sent(stream: MjpegStream<Seq<u8>>, frames: Seq<Seq<u8>>) -> Seq<u8>
    decreases frames.len(),
{
    if frames.len() == 0 {
        Seq::empty()
    } else {
        let (next, command) = mjpeg_next(frames[0], stream);
        (match command {
            StreamCommand::Emit(bytes) => bytes,
            _ => Seq::empty(),
        }) + sent(next, frames.drop_first())
    }
}

/// The frames that a stream picks up in these steps: those that it finds when it
/// looks for one, but for empty ones.
pub open spec fn picked_up(stream: MjpegStream<Seq<u8>>, frames: Seq<Seq<u8>>) -> Seq<Seq<u8>>
    decreases frames.len(),
{
    if frames.len() == 0 {
        Seq::empty()
    } else {
        let rest = picked_up(mjpeg_next(frames[0], stream).0, frames.drop_first());
        if stream is Poll && shown(frames[0]) is Some {
            seq![frames[0]] + rest
        } else {
            rest
        }
    }
}

/// What a stream still has to send of the part that it is at.
pub open spec fn unsent(stream: MjpegStream<Seq<u8>>) -> Seq<u8> {
    match stream {
        MjpegStream::Poll | MjpegStream::Rest => Seq::empty(),
        MjpegStream::Image(image) => image + tail(),
        MjpegStream::Tail => tail(),
    }
}

/// A stream sends the parts of the frames that it picks up, in their order and
/// nothing else. At any moment what it sent, with what it still has to send of the
/// part that it is at, are whole parts.
pub proof fn law_stream_sends_what_it_picks_up(
    stream: MjpegStream<Seq<u8>>,
    frames: Seq<Seq<u8>>,
)
    ensures
        sent(stream, frames) + unsent(stream_after(stream, frames)) == unsent(stream) + parts(
            picked_up(stream, frames),
        ),
    decreases frames.len(),
{
    if frames.len() > 0 {
        let (next, command) = mjpeg_next(frames[0], stream);
        let rest = frames.drop_first();
        law_stream_sends_what_it_picks_up(next, rest);
        let later = parts(picked_up(next, rest));
        let end = unsent(stream_after(stream, frames));
        assert(sent(next, rest) + end == unsent(next) + later);
        match stream {
            MjpegStream::Poll => match shown(frames[0]) {
                Some(image) => {
                    let images = picked_up(stream, frames);
                    assert(images.drop_first() =~= picked_up(next, rest));
                    assert(sent(stream, frames) + end =~= head(image.len()) + (sent(next, rest)
                        + end));
                    assert(head(image.len()) + (unsent(next) + later) =~= part(image) + later);
                    assert(Seq::<u8>::empty() + parts(images) =~= parts(images));
                },
                None => {
                    assert(sent(stream, frames) =~= sent(next, rest));
                },
            },
            MjpegStream::Image(image) => {
                assert(sent(stream, frames) + end =~= image + (sent(next, rest) + end));
                assert(unsent(stream) + later =~= image + (unsent(next) + later));
            },
            MjpegStream::Tail => {
                assert(sent(stream, frames) + end =~= tail() + (sent(next, rest) + end));
                assert(unsent(stream) + later =~= tail() + (unsent(next) + later));
            },
            MjpegStream::Rest => {
                assert(sent(stream, frames) =~= sent(next, rest));
            },
        }
    } else {
        assert(sent(stream, frames) + unsent(stream) =~= unsent(stream) + Seq::<u8>::empty());
    }
}

/// Two streams that are both between parts sent the same bytes only if they picked up
/// the same frames.
pub proof fn law_stream_is_decodable(a: Seq<Seq<u8>>, b: Seq<Seq<u8>>)
    requires
        unsent(stream_after(MjpegStream::Poll, a)).len() == 0,
        unsent(stream_after(MjpegStream::Poll, b)).len() == 0,
        sent(MjpegStream::Poll, a) == sent(MjpegStream::Poll, b),
    ensures
        picked_up(MjpegStream::Poll, a) == picked_up(MjpegStream::Poll, b),
{
    let poll = MjpegStream::<Seq<u8>>::Poll;
    law_stream_sends_what_it_picks_up(poll, a);
    law_stream_sends_what_it_picks_up(poll, b);
    assert(sent(poll, a) =~= parts(picked_up(poll, a)));
    assert(sent(poll, b) =~= parts(picked_up(poll, b)));
    law_parts_are_decodable(picked_up(poll, a), picked_up(poll, b));
}

/// Between two parts a stream rests, and while there is no frame it waits for one: it
/// never looks again at once.
pub proof fn law_stream_rests(preview: Seq<u8>, stream: MjpegStream<Seq<u8>>)
    ensures
        ({
            let (next, command) = mjpeg_next(preview, stream);
            next is Poll ==> command is AwaitFrame || command is Pause
        }),
{
}

/// One step of a stream, whatever the last preview frame. When it looks for a frame and
/// there is none it waits for one, and when there is one it sends the header for its
/// length; then it sends the frame, then the line end, and then it rests for 33
/// milliseconds and looks again.
pub proof fn law_stream_step(preview: Seq<u8>, image: Seq<u8>)
    ensures
        ({
            let (next, command) = mjpeg_next(preview, MjpegStream::Poll);
            &&& preview.len() == 0 ==> next is Poll && command is AwaitFrame
            &&& preview.len() > 0 ==> {
                &&& next matches MjpegStream::Image(kept) && kept == preview
                &&& command matches StreamCommand::Emit(bytes) && bytes == encode_utf8(
                    "--"@ + "frame"@ + "\r\nContent-Type: image/jpeg\r\nContent-Length: "@,
                ) + decimal(preview.len()) + encode_utf8("\r\n\r\n"@)
            }
        }),
        ({
            let (next, command) = mjpeg_next(preview, MjpegStream::Image(image));
            &&& next is Tail
            &&& command matches StreamCommand::Emit(bytes) && bytes == image
        }),
        ({
            let (next, command) = mjpeg_next(preview, MjpegStream::Tail);
            &&& next is Rest
            &&& command matches StreamCommand::Emit(bytes) && bytes == encode_utf8("\r\n"@)
        }),
        ({
            let (next, command) = mjpeg_next(preview, MjpegStream::Rest);
            &&& next is Poll
            &&& command matches StreamCommand::Pause { millis } && millis == 33
        }),
{
}

/// How many steps a stream is at most from looking for a frame again.
pub open spec fn steps_to_poll(stream: MjpegStream<Seq<u8>>) -> nat {
    match stream {
        MjpegStream::Poll => 0,
        MjpegStream::Image(_) => 3,
        MjpegStream::Tail => 2,
        MjpegStream::Rest => 1,
    }
}

/// A stream never gets stuck: wherever it is, it looks for a frame again after at most
/// three steps, whatever is previewed meanwhile.
pub proof fn law_stream_comes_round(stream: MjpegStream<Seq<u8>>, frames: Seq<Seq<u8>>)
    requires
        frames.len() == steps_to_poll(stream),
    ensures
        stream_after(stream, frames) is Poll,
        frames.len() <= 3,
{
    reveal_with_fuel(stream_after, 4);
}

/// The stream keeps up with the preview: with a frame there at every look, every four
/// steps pick up one frame, the one that is there at that moment, and send its whole
/// part.
pub proof fn law_stream_keeps_sending(frames: Seq<Seq<u8>>, rounds: nat)
    requires
        frames.len() == 4 * rounds,
        forall|i: int| 0 <= i < frames.len() ==> (#[trigger] frames[i]).len() > 0,
    ensures
        stream_after(MjpegStream::Poll, frames) is Poll,
        picked_up(MjpegStream::Poll, frames) == Seq::new(rounds, |i: int| frames[4 * i]),
        sent(MjpegStream::Poll, frames) == parts(Seq::new(rounds, |i: int| frames[4 * i])),
    decreases rounds,
{
    let poll = MjpegStream::<Seq<u8>>::Poll;
    let taken = Seq::new(rounds, |i: int| frames[4 * i]);
    if rounds == 0 {
        assert(picked_up(poll, frames) =~= taken);
        assert(sent(poll, frames) =~= parts(taken));
    } else {
        let rest = frames.skip(4);
        assert(frames.drop_first().drop_first().drop_first().drop_first() =~= rest);
        assert forall|i: int| 0 <= i < rest.len() implies (#[trigger] rest[i]).len() > 0 by {
            assert(rest[i] == frames[i + 4]);
        }
        law_stream_keeps_sending(rest, (rounds - 1) as nat);
        let later = Seq::new((rounds - 1) as nat, |i: int| rest[4 * i]);
        assert(taken.drop_first() =~= later);
        assert(frames[0].len() > 0);
        reveal_with_fuel(stream_after, 5);
        reveal_with_fuel(picked_up, 5);
        assert(picked_up(poll, frames) =~= seq![frames[0]] + later);
        assert(picked_up(poll, frames) =~= taken);
        law_stream_sends_what_it_picks_up(poll, frames);
        assert(sent(poll, frames) =~= sent(poll, frames) + unsent(poll));
        assert(unsent(poll) + parts(taken) =~= parts(taken));
    }
}

} // verus!
