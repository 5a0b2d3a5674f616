//! WebSocket frame forwarding between the two halves of the proxy.
//!
//! After an accepted upgrade the proxy runs one copy loop per direction.
//! Each loop takes frames from one endpoint and hands them to the other,
//! strictly in order: text, binary, ping and pong frames cross unchanged; a
//! close ends the direction; raw protocol fragments surfaced by the
//! upstream library are dropped so the peer never observes them. The
//! sockets themselves are outside work — [`relay_step`] decides, one frame
//! at a time, and [`relay_frames`] is the whole loop over a given incoming
//! sequence.

use vstd::prelude::*;

verus! {

/// A WebSocket frame at either endpoint of the proxy.
pub enum Frame {
    /// A text data frame.
    Text(String),
    /// A binary data frame.
    Binary(Vec<u8>),
    /// A ping control frame.
    Ping(Vec<u8>),
    /// A pong control frame.
    Pong(Vec<u8>),
    /// A close frame: end of the stream in its direction.
    Close,
    /// A raw protocol fragment surfaced by the upstream library; internal,
    /// never to be observed by the peer.
    Raw(Vec<u8>),
}

/// A frame's type and payload, for specification.
pub enum FrameData {
    /// Contents of a text frame.
    Text(Seq<char>),
    /// Contents of a binary frame.
    Binary(Seq<u8>),
    /// Contents of a ping frame.
    Ping(Seq<u8>),
    /// Contents of a pong frame.
    Pong(Seq<u8>),
    /// A close frame.
    Close,
    /// Contents of a raw protocol fragment.
    Raw(Seq<u8>),
}

/// What one frame carries.
pub open spec fn frame_data(f: Frame) -> FrameData {
    match f {
        Frame::Text(s) => FrameData::Text(s@),
        Frame::Binary(b) => FrameData::Binary(b@),
        Frame::Ping(b) => FrameData::Ping(b@),
        Frame::Pong(b) => FrameData::Pong(b@),
        Frame::Close => FrameData::Close,
        Frame::Raw(b) => FrameData::Raw(b@),
    }
}

/// What a sequence of frames carries.
pub open spec fn frames_data(fs: Seq<Frame>) -> Seq<FrameData> {
    fs.map_values(|f: Frame| frame_data(f))
}

/// A data or control frame that crosses the proxy unchanged.
pub open spec fn is_forwarded_kind(d: FrameData) -> bool {
    d is Text || d is Binary || d is Ping || d is Pong
}

/// What a copy loop does with one received frame.
pub enum ForwardStep {
    /// Hand this frame to the peer, unchanged.
    Forward(Frame),
    /// Drop the frame and keep the loop running.
    Skip,
    /// End this direction of the proxy.
    Stop,
}

/// One step of a copy loop: text, binary, ping and pong frames are forwarded
/// with identical type and payload; a close ends the direction; a raw
/// protocol fragment is dropped. A receive error is handled by the loop
/// itself (it stops), so no frame stands for it.
pub fn relay_step(frame: Frame) -> (r: ForwardStep)
    ensures
        is_forwarded_kind(frame_data(frame)) ==> (r matches ForwardStep::Forward(g)
            && frame_data(g) == frame_data(frame)),
        frame_data(frame) is Close ==> r is Stop,
        frame_data(frame) is Raw ==> r is Skip,
{
    match frame {
        Frame::Text(s) => ForwardStep::Forward(Frame::Text(s)),
        Frame::Binary(b) => ForwardStep::Forward(Frame::Binary(b)),
        Frame::Ping(b) => ForwardStep::Forward(Frame::Ping(b)),
        Frame::Pong(b) => ForwardStep::Forward(Frame::Pong(b)),
        Frame::Close => ForwardStep::Stop,
        Frame::Raw(_) => ForwardStep::Skip,
    }
}

/// What one direction of the proxy delivers to the peer, given the frames
/// received in order: every data and control frame up to (not including) the
/// first close, with raw fragments dropped.
pub open spec fn spec_relay(frames: Seq<FrameData>) -> Seq<FrameData>
    decreases frames.len(),
{
    if frames.len() == 0 {
        Seq::<FrameData>::empty()
    } else if frames.first() is Close {
        Seq::<FrameData>::empty()
    } else if frames.first() is Raw {
        spec_relay(frames.drop_first())
    } else {
        seq![frames.first()] + spec_relay(frames.drop_first())
    }
}

/// Runs one whole copy loop over the frames received in order on one
/// direction, returning exactly the frames the peer observes.
#[verifier::loop_isolation(false)]
pub fn relay_frames(frames: &Vec<Frame>) -> (r: Vec<Frame>)
    ensures
        frames_data(r@) == spec_relay(frames_data(frames@)),
{
    let ghost all = frames_data(frames@);
    let mut out: Vec<Frame> = Vec::new();
    let mut i: usize = 0;
    proof {
        assert(all.skip(0) =~= all);
        assert(frames_data(out@) =~= Seq::<FrameData>::empty());
        assert(Seq::<FrameData>::empty() + spec_relay(all) =~= spec_relay(all));
    }
    while i < frames.len()
        invariant
            0 <= i <= frames@.len(),
            frames_data(out@) + spec_relay(all.skip(i as int)) == spec_relay(all),
        decreases frames@.len() - i,
    {
        proof {
            assert(all.skip(i as int).first() == all[i as int]);
            assert(all.skip(i as int).drop_first() =~= all.skip(i + 1));
        }
        match relay_step(clone_frame(&frames[i])) {
            ForwardStep::Forward(g) => {
                out.push(g);
                proof {
                    assert(frames_data(out@) =~= frames_data(out@.drop_last()).push(
                        frame_data(frames@[i as int]),
                    ));
                    assert(frames_data(out@) + spec_relay(all.skip(i + 1)) =~= spec_relay(all));
                }
            }
            ForwardStep::Skip => {}
            ForwardStep::Stop => {
                proof {
                    assert(frames_data(out@) + Seq::<FrameData>::empty() =~= frames_data(out@));
                }
                return out;
            }
        }
        i = i + 1;
    }
    proof {
        assert(all.skip(frames@.len() as int) =~= Seq::<FrameData>::empty());
        assert(frames_data(out@) + Seq::<FrameData>::empty() =~= frames_data(out@));
    }
    out
}

fn clone_bytes(b: &Vec<u8>) -> (r: Vec<u8>)
    ensures
        r@ == b@,
{
    let r = b.clone();
    proof {
        assert forall|i: int| 0 <= i < b@.len() implies r@[i] == b@[i] by {
            assert(cloned::<u8>(b[i], r[i]));
        }
        assert(r@ =~= b@);
    }
    r
}

fn clone_frame(f: &Frame) -> (r: Frame)
    ensures
        frame_data(r) == frame_data(*f),
{
    match f {
        Frame::Text(s) => Frame::Text(s.clone()),
        Frame::Binary(b) => Frame::Binary(clone_bytes(b)),
        Frame::Ping(b) => Frame::Ping(clone_bytes(b)),
        Frame::Pong(b) => Frame::Pong(clone_bytes(b)),
        Frame::Close => Frame::Close,
        Frame::Raw(b) => Frame::Raw(clone_bytes(b)),
    }
}

/// Frame fidelity: what the peer observes holds no close and no raw
/// fragment, and every observed frame is one of the frames received.
pub proof fn lemma_relay_fidelity(frames: Seq<FrameData>)
    ensures
        forall|i: int| 0 <= i < spec_relay(frames).len() ==> is_forwarded_kind(
            #[trigger] spec_relay(frames)[i],
        ),
        forall|i: int| 0 <= i < spec_relay(frames).len() ==> frames.contains(
            #[trigger] spec_relay(frames)[i],
        ),
    decreases frames.len(),
{
    if frames.len() == 0 || frames.first() is Close {
    } else {
        lemma_relay_fidelity(frames.drop_first());
        assert forall|i: int| 0 <= i < spec_relay(frames).len() implies is_forwarded_kind(
            #[trigger] spec_relay(frames)[i],
        ) && frames.contains(spec_relay(frames)[i]) by {
            let rest = frames.drop_first();
            if frames.first() is Raw {
                assert(spec_relay(frames)[i] == spec_relay(rest)[i]);
                let j = choose|j: int| 0 <= j < rest.len() && rest[j] == spec_relay(rest)[i];
                assert(frames[j + 1] == spec_relay(frames)[i]);
            } else {
                if i == 0 {
                    assert(frames[0] == spec_relay(frames)[0]);
                } else {
                    assert(spec_relay(frames)[i] == spec_relay(rest)[i - 1]);
                    let j = choose|j: int|
                        0 <= j < rest.len() && rest[j] == spec_relay(rest)[i - 1];
                    assert(frames[j + 1] == spec_relay(frames)[i]);
                }
            }
        }
    }
}

/// A close ends the direction: nothing received after the first close is
/// delivered to the peer.
pub proof fn lemma_relay_stops_at_close(frames: Seq<FrameData>, n: int)
    requires
        0 <= n < frames.len(),
        frames[n] is Close,
        forall|k: int| 0 <= k < n ==> !(#[trigger] frames[k] is Close),
    ensures
        spec_relay(frames) == spec_relay(frames.take(n + 1)),
    decreases n,
{
    let cut = frames.take(n + 1);
    assert(cut.first() == frames.first());
    if n > 0 {
        assert(cut.drop_first() =~= frames.drop_first().take(n));
        lemma_relay_stops_at_close(frames.drop_first(), n - 1);
    }
}

/// A stream of pure data and control frames — no close, no raw fragment —
/// is delivered to the peer whole and in order, each frame with identical
/// type and payload.
pub proof fn lemma_relay_passes_data(frames: Seq<FrameData>)
    requires
        forall|i: int| 0 <= i < frames.len() ==> is_forwarded_kind(#[trigger] frames[i]),
    ensures
        spec_relay(frames) == frames,
    decreases frames.len(),
{
    if frames.len() > 0 {
        assert(is_forwarded_kind(frames[0]));
        lemma_relay_passes_data(frames.drop_first());
        assert(seq![frames.first()] + frames.drop_first() =~= frames);
    }
}

} // verus!
