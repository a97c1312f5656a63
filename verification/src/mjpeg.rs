//! The motion-JPEG stream: a multipart response whose parts are the frames
//! of the camera, each framed by a header that gives its length and closed
//! by the boundary.
//!
//! A relay serves one connection. It asks the frame source for the newest
//! frame, sends it if there is one, asks again if there is none, and stops
//! at the first failed write. Frames are never queued: a slow client skips
//! frames, it does not fall behind.

use crate::text::{decimal, push_bytes, push_decimal, text_bytes};
use vstd::prelude::*;
use vstd::string::*;

verus! {

/// The boundary token of the stream.
pub const BOUNDARY: &'static str = "123456789000000000000987654321";

/// The value of the `Content-Type` header of the stream, up to the token.
pub const STREAM_TYPE_PREFIX: &'static str = "multipart/x-mixed-replace; boundary=";

/// What stands before the length in the header of a part.
pub const PART_HEADER_PREFIX: &'static str = "Content-Type: image/jpeg\r\nContent-Length: ";

/// What ends the header of a part.
pub const PART_HEADER_SUFFIX: &'static str = "\r\n\r\n";

/// What stands before the token in the separator that closes a part.
pub const SEPARATOR_PREFIX: &'static str = "\r\n--";

/// What ends the separator.
pub const SEPARATOR_SUFFIX: &'static str = "\r\n";

/// The value of the `Content-Type` header of the stream: the multipart
/// type with the boundary token.
pub open spec fn stream_content_type_spec() -> Seq<u8> {
    STREAM_TYPE_PREFIX.spec_bytes() + BOUNDARY.spec_bytes()
}

/// The header of a part that carries `len` bytes.
pub open spec fn part_header_spec(len: nat) -> Seq<u8> {
    PART_HEADER_PREFIX.spec_bytes() + decimal(len) + PART_HEADER_SUFFIX.spec_bytes()
}

/// The separator that closes every part.
pub open spec fn part_separator_spec() -> Seq<u8> {
    SEPARATOR_PREFIX.spec_bytes() + BOUNDARY.spec_bytes() + SEPARATOR_SUFFIX.spec_bytes()
}

/// One part: header, the frame as it is, separator.
pub open spec fn part_spec(frame: Seq<u8>) -> Seq<u8> {
    part_header_spec(frame.len()) + frame + part_separator_spec()
}

/// The body that a run of polls of the frame source produces: one part for
/// each poll that found a frame, in the order of the polls, and nothing for
/// a poll that found none.
pub open spec fn stream_spec(polls: Seq<Option<Seq<u8>>>) -> Seq<u8>
    decreases polls.len(),
{
    if polls.len() == 0 {
        Seq::<u8>::empty()
    } else {
        stream_spec(polls.drop_last()) + match polls.last() {
            Some(frame) => part_spec(frame),
            None => Seq::<u8>::empty(),
        }
    }
}

/// The frames that a run of polls found, in order.
pub open spec fn frames_of(polls: Seq<Option<Seq<u8>>>) -> Seq<Seq<u8>>
    decreases polls.len(),
{
    if polls.len() == 0 {
        Seq::<Seq<u8>>::empty()
    } else {
        match polls.last() {
            Some(frame) => frames_of(polls.drop_last()).push(frame),
            None => frames_of(polls.drop_last()),
        }
    }
}

/// The parts of the given frames, one after the other.
pub open spec fn parts_spec(frames: Seq<Seq<u8>>) -> Seq<u8>
    decreases frames.len(),
{
    if frames.len() == 0 {
        Seq::<u8>::empty()
    } else {
        parts_spec(frames.drop_last()) + part_spec(frames.last())
    }
}

/// Polls that find nothing leave no trace in the stream: the body is the
/// parts of the frames that were found, in the order in which they were
/// found, and holds as many parts as there were frames.
pub proof fn lemma_stream_is_parts_of_frames(polls: Seq<Option<Seq<u8>>>)
    ensures
        stream_spec(polls) == parts_spec(frames_of(polls)),
        frames_of(polls).len() <= polls.len(),
    decreases polls.len(),
{
    if polls.len() > 0 {
        lemma_stream_is_parts_of_frames(polls.drop_last());
        match polls.last() {
            Some(frame) => {
                let found = frames_of(polls.drop_last());
                assert(found.push(frame).drop_last() =~= found);
            },
            None => {
                assert(stream_spec(polls) =~= stream_spec(polls.drop_last()));
            },
        }
    }
}

/// The value of the `Content-Type` header of the stream.
pub fn stream_content_type() -> (value: Vec<u8>)
    ensures
        value@ == stream_content_type_spec(),
{
    let mut value = text_bytes(STREAM_TYPE_PREFIX);
    push_bytes(&mut value, BOUNDARY.as_bytes());
    value
}

/// The header to write before a frame of `len` bytes.
pub fn part_header(len: usize) -> (header: Vec<u8>)
    ensures
        header@ == part_header_spec(len as nat),
{
    let mut header = text_bytes(PART_HEADER_PREFIX);
    push_decimal(&mut header, len);
    push_bytes(&mut header, PART_HEADER_SUFFIX.as_bytes());
    header
}

/// The separator to write after a frame.
pub fn part_separator() -> (separator: Vec<u8>)
    ensures
        separator@ == part_separator_spec(),
{
    let mut separator = text_bytes(SEPARATOR_PREFIX);
    push_bytes(&mut separator, BOUNDARY.as_bytes());
    push_bytes(&mut separator, SEPARATOR_SUFFIX.as_bytes());
    separator
}

/// One whole part for `frame`, in a buffer of its own.
pub fn encode_part(frame: &[u8]) -> (part: Vec<u8>)
    ensures
        part@ == part_spec(frame@),
{
    let mut part = part_header(frame.len());
    push_bytes(&mut part, frame);
    let separator = part_separator();
    push_bytes(&mut part, separator.as_slice());
    part
}

/// What a relay asks of its driver after a poll of the frame source.
#[derive(Debug, PartialEq, Eq)]
pub enum RelayStep {
    /// Write `header`, then the frame, then `separator`; flush; report the
    /// outcome with `Relay::written`.
    Send { header: Vec<u8>, separator: Vec<u8> },
    /// There was no frame: poll the frame source again, writing nothing.
    PollAgain,
    /// The connection has failed: release it and poll no more.
    Stop,
}

/// The relay of one connection to the stream route.
#[derive(Debug, PartialEq, Eq)]
pub struct Relay {
    open: bool,
    sent: u64,
}

impl Relay {
    /// Whether the connection still takes writes.
    pub closed spec fn is_open_spec(&self) -> bool {
        self.open
    }

    /// The number of parts written so far; it stops counting at `u64::MAX`.
    pub closed spec fn sent_spec(&self) -> nat {
        self.sent as nat
    }

    /// The relay of a connection that was just accepted: open, with nothing
    /// sent.
    pub fn new() -> (relay: Self)
        ensures
            relay.is_open_spec(),
            relay.sent_spec() == 0,
    {
        Relay { open: true, sent: 0 }
    }

    /// Whether the connection still takes writes.
    pub fn is_open(&self) -> (open: bool)
        ensures
            open == self.is_open_spec(),
    {
        self.open
    }

    /// The number of parts written so far.
    pub fn sent(&self) -> (sent: u64)
        ensures
            sent == self.sent_spec(),
    {
        self.sent
    }

    /// Decides what follows a poll of the frame source, which found a
    /// frame of `frame_len` bytes or none: a closed relay stops; an open one
    /// sends the frame between its header and the separator, or polls again
    /// if there was none.
    pub fn polled(&self, frame_len: Option<usize>) -> (step: RelayStep)
        ensures
            !self.is_open_spec() ==> step == RelayStep::Stop,
            self.is_open_spec() && frame_len is None ==> step == RelayStep::PollAgain,
            self.is_open_spec() && frame_len is Some ==> (step matches RelayStep::Send {
                header,
                separator,
            } && header@ == part_header_spec(frame_len->0 as nat) && separator@
                == part_separator_spec()),
    {
        if !self.open {
            RelayStep::Stop
        } else {
            match frame_len {
                Some(len) => RelayStep::Send {
                    header: part_header(len),
                    separator: part_separator(),
                },
                None => RelayStep::PollAgain,
            }
        }
    }

    /// Records the outcome of writing one part. A failure closes the relay
    /// for good; a success counts the part.
    pub fn written(&mut self, ok: bool)
        ensures
            final(self).is_open_spec() == (old(self).is_open_spec() && ok),
            final(self).sent_spec() == if old(self).is_open_spec() && ok && old(self).sent_spec()
                < u64::MAX {
                old(self).sent_spec() + 1
            } else {
                old(self).sent_spec()
            },
    {
        if self.open && ok {
            if self.sent < u64::MAX {
                self.sent = self.sent + 1;
            }
        } else {
            self.open = false;
        }
    }
}

/// A recorded run of polls, each frame as the sequence of its bytes.
pub open spec fn polls_view(polls: Seq<Option<Vec<u8>>>) -> Seq<Option<Seq<u8>>> {
    Seq::new(
        polls.len(),
        |i: int|
            match polls[i] {
                Some(frame) => Some(frame@),
                None => None,
            },
    )
}

/// Runs a relay over a recorded run of polls, with every write succeeding,
/// and returns the body that the client receives.
pub fn relay_frames(polls: &Vec<Option<Vec<u8>>>) -> (body: Vec<u8>)
    ensures
        body@ == stream_spec(polls_view(polls@)),
{
    let mut relay = Relay::new();
    let mut body: Vec<u8> = Vec::new();
    let mut i: usize = 0;
    while i < polls.len()
        invariant
            i <= polls.len(),
            relay.is_open_spec(),
            body@ == stream_spec(polls_view(polls@).subrange(0, i as int)),
        decreases polls.len() - i,
    {
        let ghost before = polls_view(polls@).subrange(0, i as int);
        let ghost after = polls_view(polls@).subrange(0, i + 1);
        assert(after.drop_last() == before);
        assert(after.last() == polls_view(polls@)[i as int]);
        match &polls[i] {
            Some(frame) => {
                match relay.polled(Some(frame.len())) {
                    RelayStep::Send { header, separator } => {
                        push_bytes(&mut body, header.as_slice());
                        push_bytes(&mut body, frame.as_slice());
                        push_bytes(&mut body, separator.as_slice());
                        relay.written(true);
                    },
                    _ => {},
                }
                assert(body@ == stream_spec(before) + part_spec(frame@));
            },
            None => {
                let _ = relay.polled(None);
                assert(body@ == stream_spec(before) + Seq::<u8>::empty());
            },
        }
        i = i + 1;
    }
    assert(polls_view(polls@).subrange(0, i as int) == polls_view(polls@));
    body
}

} // verus!
