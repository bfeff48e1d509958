//! Multipart messages of the transport. A `zeromq::ZmqMessage` is a queue of
//! byte frames; contracts speak of it through the frames it holds.

use vstd::prelude::*;

verus! {

/// `zeromq::ZmqMessage`, a multipart message. What it holds is
/// [`frames_of`] it.
#[verifier::external_type_specification]
#[verifier::external_body]
pub struct ExZmqMessage(zeromq::ZmqMessage);

/// The frames that a multipart message holds, first to last.
pub uninterp spec fn frames_of(m: zeromq::ZmqMessage) -> Seq<Seq<u8>>;

/// `ZmqMessage::from` for `Vec<u8>`: the message of that one frame.
#[verifier::external_body]
pub(crate) fn single_frame(frame: Vec<u8>) -> (m: zeromq::ZmqMessage)
    ensures
        frames_of(m) == seq![frame@],
{
    zeromq::ZmqMessage::from(frame)
}

/// `ZmqMessage::push_back`: the frame becomes the last one.
#[verifier::external_body]
pub(crate) fn push_back(m: &mut zeromq::ZmqMessage, frame: Vec<u8>)
    ensures
        frames_of(*final(m)) == frames_of(*old(m)).push(frame@),
{
    m.push_back(bytes::Bytes::from(frame));
}

/// `ZmqMessage::push_front`: the frame becomes the first one.
#[verifier::external_body]
pub(crate) fn push_front(m: &mut zeromq::ZmqMessage, frame: Vec<u8>)
    ensures
        frames_of(*final(m)) == seq![frame@] + frames_of(*old(m)),
{
    m.push_front(bytes::Bytes::from(frame));
}

/// `ZmqMessage::len`: the number of frames.
#[verifier::external_body]
pub(crate) fn frame_count(m: &zeromq::ZmqMessage) -> (n: usize)
    ensures
        n == frames_of(*m).len(),
{
    m.len()
}

/// `ZmqMessage::get`: the frame at `index`, `None` from the length on.
#[verifier::external_body]
pub(crate) fn frame_at<'a>(m: &'a zeromq::ZmqMessage, index: usize) -> (r: Option<&'a [u8]>)
    ensures
        match r {
            Some(frame) => index < frames_of(*m).len() && frame@ == frames_of(*m)[index as int],
            None => index >= frames_of(*m).len(),
        },
{
    m.get(index).map(|frame| frame.as_ref())
}

} // verus!
