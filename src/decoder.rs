use vstd::prelude::*;
use ppm_decode::PpmParser;

verus! {

/// Most channels that one frame can hold.
pub const MAX_CHANNELS: usize = 20;

/// One decoded PPM frame: a pulse width per channel, first channel first, and
/// how many of them are valid.
#[derive(Copy, Clone, Debug, PartialEq, Eq)]
pub struct ChannelFrame {
    pub chan_values: [u32; 20],
    pub chan_count: u8,
}

#[verifier::external_type_specification]
#[verifier::external_body]
pub struct ExPpmParser(PpmParser);

/// The completed frames a parser holds and has not handed out yet.
pub uninterp spec fn completed_frames(p: PpmParser) -> Seq<ChannelFrame>;

/// The first of some frames, if there is one.
pub open spec fn first_frame(frames: Seq<ChannelFrame>) -> Option<ChannelFrame> {
    if frames.len() == 0 {
        None
    } else {
        Some(frames[0])
    }
}

/// Relies on ppm_decode's `PpmParser::next_frame`: it takes the parser's one
/// stored completed frame (`Option::take`), so the parser holds none after it.
#[verifier::external_body]
pub(crate) fn take_frame(parser: &mut PpmParser) -> (r: Option<ChannelFrame>)
    ensures
        completed_frames(*old(parser)).len() <= 1,
        r == first_frame(completed_frames(*old(parser))),
        completed_frames(*final(parser)).len() == 0,
{
    match parser.next_frame() {
        Some(f) => Some(ChannelFrame { chan_values: f.chan_values, chan_count: f.chan_count }),
        None => None,
    }
}

/// Draining the decoder hands each completed frame out once: a parser that a
/// drain has left holds no frame, so the next drain, with no pulse in between,
/// yields nothing.
pub proof fn lemma_drain_yields_once(drained: PpmParser)
    requires
        completed_frames(drained).len() == 0,
    ensures
        first_frame(completed_frames(drained)) is None,
{
}

} // verus!
