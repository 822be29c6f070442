use vstd::prelude::*;
use crate::compositor::{clamped_region, dim_limit, min_dim, Compositor, CopyRegion};
use crate::size::Size;

verus! {

/// What the generator reads of a captured frame: the size of the content it
/// holds, the size of the buffer that holds it, and the frame's source
/// timestamp (in 100 ns units). The image itself stays with the caller.
#[derive(Clone, Copy, Debug, PartialEq, Eq, Structural)]
pub struct FrameInfo {
    pub content_size: Size,
    pub buffer_width: u32,
    pub buffer_height: u32,
    pub timestamp: i64,
}

/// How to render one encoder input sample: the session-relative timestamp to
/// stamp it with, and the region of the frame to copy onto the cleared
/// composition surface before conversion.
#[derive(Clone, Copy, Debug, PartialEq, Eq, Structural)]
pub struct SamplePlan {
    pub timestamp: i64,
    pub region: CopyRegion,
}

/// Outcome of one request for an encoder input sample.
#[derive(Clone, Copy, Debug, PartialEq, Eq, Structural)]
pub enum Generated {
    /// Render and hand out a sample as planned.
    Sample(SamplePlan),
    /// The stream has ended: stop capturing and report the end to the encoder.
    EndOfStream,
    /// The stream ended before this request: report the end again, without
    /// pulling a frame or stopping the capture a second time.
    Finished,
}

/// Where a generator is in its lifecycle.
#[derive(Clone, Copy, Debug, PartialEq, Eq, Structural)]
pub enum GeneratorState {
    /// No frame has been seen; the baseline is not latched yet.
    AwaitingFirstFrame,
    /// The baseline is latched and frames are turned into samples.
    Streaming,
    /// The stream has ended; no frame is pulled any more.
    Stopped,
}

/// Timestamps relative to the first one of `ts`.
pub open spec fn relative_stamps(ts: Seq<int>) -> Seq<int> {
    ts.map_values(|t: int| t - ts[0])
}

/// No element of `s` is smaller than one before it.
pub open spec fn non_decreasing(s: Seq<int>) -> bool {
    forall|i: int, j: int| 0 <= i <= j < s.len() ==> s[i] <= s[j]
}

/// `v` can be held in an `i64`.
pub open spec fn fits_i64(v: int) -> bool {
    i64::MIN <= v <= i64::MAX
}

/// Session-relative timestamps start at zero and, over source timestamps that
/// never decrease, are never negative and never decrease.
pub proof fn lemma_relative_stamps(ts: Seq<int>)
    requires
        non_decreasing(ts),
    ensures
        relative_stamps(ts).len() == ts.len(),
        ts.len() > 0 ==> relative_stamps(ts)[0] == 0,
        forall|i: int| 0 <= i < ts.len() ==> relative_stamps(ts)[i] >= 0,
        non_decreasing(relative_stamps(ts)),
{
}

/// The abstract state of a generator: whether its stream has ended, and the
/// source timestamps of the frames a sample was planned for, in order.
pub struct GeneratorView {
    pub stopped: bool,
    pub seen: Seq<int>,
}

/// The view of a generator that has seen no frame and has not ended.
pub open spec fn fresh_view() -> GeneratorView {
    GeneratorView { stopped: false, seen: Seq::empty() }
}

/// The timestamp a frame with source timestamp `t` is stamped with: `t` minus
/// that of the first frame seen (zero when `t` is the first).
pub open spec fn stamp(v: GeneratorView, t: int) -> int {
    if v.seen.len() == 0 {
        0
    } else {
        t - v.seen[0]
    }
}

/// The region of `f` copied onto a composition surface of size `surface`.
pub open spec fn frame_region(surface: Size, f: FrameInfo) -> CopyRegion {
    clamped_region(
        f.content_size,
        min_dim(f.buffer_width as int, dim_limit(surface.width)),
        min_dim(f.buffer_height as int, dim_limit(surface.height)),
    )
}

/// The state after one request answered with what was pulled (`None`: the
/// source is exhausted).
pub open spec fn advance(v: GeneratorView, pulled: Option<FrameInfo>) -> GeneratorView {
    if v.stopped {
        v
    } else {
        match pulled {
            None => GeneratorView { stopped: true, seen: v.seen },
            Some(f) => if fits_i64(stamp(v, f.timestamp as int)) {
                GeneratorView { stopped: false, seen: v.seen.push(f.timestamp as int) }
            } else {
                GeneratorView { stopped: true, seen: v.seen }
            },
        }
    }
}

/// The answer to one request, on a composition surface of size `surface`.
pub open spec fn outcome(surface: Size, v: GeneratorView, pulled: Option<FrameInfo>) -> Generated {
    if v.stopped {
        Generated::Finished
    } else {
        match pulled {
            None => Generated::EndOfStream,
            Some(f) => if fits_i64(stamp(v, f.timestamp as int)) {
                Generated::Sample(
                    SamplePlan {
                        timestamp: stamp(v, f.timestamp as int) as i64,
                        region: frame_region(surface, f),
                    },
                )
            } else {
                Generated::EndOfStream
            },
        }
    }
}

/// Once a request is answered with `EndOfStream`, the stream has ended: every
/// later request is answered with `Finished` and changes nothing.
pub proof fn lemma_end_of_stream_once(
    surface: Size,
    v: GeneratorView,
    pulled: Option<FrameInfo>,
    later: Option<FrameInfo>,
)
    requires
        outcome(surface, v, pulled) == Generated::EndOfStream,
    ensures
        advance(v, pulled).stopped,
        outcome(surface, advance(v, pulled), later) == Generated::Finished,
        advance(advance(v, pulled), later) == advance(v, pulled),
{
}

/// A fresh generator fed two frames and then exhaustion hands out two
/// samples, the first stamped zero and the second with the difference of the
/// source timestamps, then ends the stream, after which it is finished.
pub proof fn lemma_two_frames_then_end(surface: Size, f1: FrameInfo, f2: FrameInfo)
    requires
        fits_i64(f2.timestamp - f1.timestamp),
    ensures
        ({
            let v1 = advance(fresh_view(), Some(f1));
            let v2 = advance(v1, Some(f2));
            let v3 = advance(v2, None);
            &&& outcome(surface, fresh_view(), Some(f1)) == Generated::Sample(
                SamplePlan { timestamp: 0, region: frame_region(surface, f1) },
            )
            &&& outcome(surface, v1, Some(f2)) == Generated::Sample(
                SamplePlan {
                    timestamp: (f2.timestamp - f1.timestamp) as i64,
                    region: frame_region(surface, f2),
                },
            )
            &&& outcome(surface, v2, None) == Generated::EndOfStream
            &&& v3.stopped
            &&& outcome(surface, v3, None) == Generated::Finished
        }),
{
    let v1 = advance(fresh_view(), Some(f1));
    assert(v1.seen[0] == f1.timestamp);
}

/// A frame whose content is at least as large as its buffer, where the buffer
/// has the size of the surface, is not an error: it gives a sample whose
/// region covers the whole surface, and the stream goes on.
pub proof fn lemma_oversized_frame(surface: Size, v: GeneratorView, f: FrameInfo)
    requires
        !v.stopped,
        fits_i64(stamp(v, f.timestamp as int)),
        surface.width >= 0,
        surface.height >= 0,
        f.buffer_width == surface.width,
        f.buffer_height == surface.height,
        f.content_size.width >= surface.width,
        f.content_size.height >= surface.height,
    ensures
        outcome(surface, v, Some(f)) is Sample,
        outcome(surface, v, Some(f))->Sample_0.region == (CopyRegion {
            left: 0,
            top: 0,
            front: 0,
            right: surface.width as u32,
            bottom: surface.height as u32,
            back: 1,
        }),
        !advance(v, Some(f)).stopped,
{
}

/// Producer of encoder input samples. The encoder asks it for one sample at a
/// time; it turns each captured frame into a plan stamped relative to the
/// first frame it ever saw, and ends the stream once the frame source is
/// exhausted or a step of rendering fails.
pub struct SampleGenerator {
    compositor: Compositor,
    output_size: Size,
    baseline: Option<i64>,
    stopped: bool,
    seen: Ghost<Seq<int>>,
}

impl View for SampleGenerator {
    type V = GeneratorView;

    closed spec fn view(&self) -> GeneratorView {
        GeneratorView { stopped: self.stopped, seen: self.seen@ }
    }
}

impl SampleGenerator {
    /// The stream has ended; no frame is pulled any more.
    pub open spec fn stopped_spec(&self) -> bool {
        self@.stopped
    }

    /// Source timestamps of the frames that a sample was planned for, in order.
    pub open spec fn seen(&self) -> Seq<int> {
        self@.seen
    }

    /// Timestamps of the planned samples, in order.
    pub open spec fn emitted(&self) -> Seq<int> {
        relative_stamps(self@.seen)
    }

    /// Size of the composition surface.
    pub closed spec fn input_size_spec(&self) -> Size {
        self.compositor.surface_spec()
    }

    /// Size of the converted images handed to the encoder.
    pub closed spec fn output_size_spec(&self) -> Size {
        self.output_size
    }

    /// The baseline is latched from the first frame and never changes.
    pub closed spec fn wf(&self) -> bool {
        &&& (self.baseline is None <==> self.seen@.len() == 0)
        &&& (self.baseline is Some ==> self.baseline->0 as int == self.seen@[0])
        &&& self.input_size_spec().width > 0
        &&& self.input_size_spec().height > 0
    }

    /// The region copied for `f` onto this generator's surface.
    pub open spec fn region_of(&self, f: FrameInfo) -> CopyRegion {
        frame_region(self.input_size_spec(), f)
    }

    /// The timestamp that `f` is stamped with.
    pub open spec fn stamp_of(&self, f: FrameInfo) -> int {
        stamp(self@, f.timestamp as int)
    }

    /// A generator composing onto a surface of `input_size` and converting to
    /// `output_size`, which has seen no frame yet.
    pub fn new(input_size: Size, output_size: Size) -> (r: Self)
        requires
            input_size.width > 0,
            input_size.height > 0,
            output_size.width > 0,
            output_size.height > 0,
        ensures
            r.wf(),
            r@ == fresh_view(),
            r.input_size_spec() == input_size,
            r.output_size_spec() == output_size,
    {
        SampleGenerator {
            compositor: Compositor::new(input_size),
            output_size,
            baseline: None,
            stopped: false,
            seen: Ghost(Seq::empty()),
        }
    }

    /// Size of the composition surface.
    pub fn input_size(&self) -> (r: Size)
        ensures
            r == self.input_size_spec(),
    {
        self.compositor.surface()
    }

    /// Size of the converted images handed to the encoder.
    pub fn output_size(&self) -> (r: Size)
        ensures
            r == self.output_size_spec(),
    {
        self.output_size
    }

    /// Where the generator is in its lifecycle.
    pub fn state(&self) -> (r: GeneratorState)
        requires
            self.wf(),
        ensures
            r == GeneratorState::Stopped <==> self.stopped_spec(),
            r == GeneratorState::AwaitingFirstFrame <==> !self.stopped_spec() && self.seen().len()
                == 0,
            r == GeneratorState::Streaming <==> !self.stopped_spec() && self.seen().len() > 0,
    {
        if self.stopped {
            GeneratorState::Stopped
        } else if self.baseline.is_none() {
            GeneratorState::AwaitingFirstFrame
        } else {
            GeneratorState::Streaming
        }
    }

    /// Whether a frame may be pulled from the frame source for the next request.
    pub fn may_pull(&self) -> (r: bool)
        ensures
            r == !self.stopped_spec(),
    {
        !self.stopped
    }

    /// Answers one request of the encoder, given what was pulled from the frame
    /// source (`None`: it is exhausted). The first frame latches the baseline;
    /// each frame is stamped relative to it and its region is clamped onto the
    /// surface. Exhaustion, or a relative timestamp outside `i64`, ends the
    /// stream once; after that every request is answered with `Finished` and
    /// changes nothing.
    pub fn generate(&mut self, pulled: Option<FrameInfo>) -> (r: Generated)
        requires
            old(self).wf(),
        ensures
            final(self).wf(),
            final(self)@ == advance(old(self)@, pulled),
            r == outcome(old(self).input_size_spec(), old(self)@, pulled),
            final(self).input_size_spec() == old(self).input_size_spec(),
            final(self).output_size_spec() == old(self).output_size_spec(),
            old(self).stopped_spec() ==> r == Generated::Finished && *final(self) == *old(self),
            !old(self).stopped_spec() && pulled is None ==> {
                &&& r == Generated::EndOfStream
                &&& final(self).stopped_spec()
                &&& final(self).seen() == old(self).seen()
            },
            !old(self).stopped_spec() && old(self).seen().len() == 0 && pulled is Some ==> {
                &&& r == Generated::Sample(
                    SamplePlan { timestamp: 0, region: old(self).region_of(pulled->0) },
                )
                &&& final(self).seen() == seq![pulled->0.timestamp as int]
                &&& final(self).emitted() == seq![0int]
            },
            !old(self).stopped_spec() && pulled is Some && fits_i64(
                old(self).stamp_of(pulled->0),
            ) ==> {
                &&& r == Generated::Sample(
                    SamplePlan {
                        timestamp: old(self).stamp_of(pulled->0) as i64,
                        region: old(self).region_of(pulled->0),
                    },
                )
                &&& !final(self).stopped_spec()
                &&& final(self).seen() == old(self).seen().push(pulled->0.timestamp as int)
                &&& final(self).emitted() == old(self).emitted().push(old(self).stamp_of(pulled->0))
            },
            !old(self).stopped_spec() && pulled is Some && !fits_i64(
                old(self).stamp_of(pulled->0),
            ) ==> {
                &&& r == Generated::EndOfStream
                &&& final(self).stopped_spec()
                &&& final(self).seen() == old(self).seen()
            },
    {
        if self.stopped {
            return Generated::Finished;
        }
        match pulled {
            None => {
                self.stopped = true;
                Generated::EndOfStream
            },
            Some(frame) => {
                let base: i64 = match self.baseline {
                    Some(b) => b,
                    None => frame.timestamp,
                };
                let stamp: Option<i64> = frame.timestamp.checked_sub(base);
                match stamp {
                    None => {
                        self.stopped = true;
                        Generated::EndOfStream
                    },
                    Some(t) => {
                        let region = self.compositor.region_for(
                            frame.content_size,
                            frame.buffer_width,
                            frame.buffer_height,
                        );
                        self.baseline = Some(base);
                        let ghost seen_old = self.seen@;
                        let ghost seen_new = seen_old.push(frame.timestamp as int);
                        self.seen = Ghost(seen_new);
                        proof {
                            assert(relative_stamps(seen_new) =~= relative_stamps(seen_old).push(
                                t as int,
                            ));
                            if seen_old.len() == 0 {
                                assert(seen_new =~= seq![frame.timestamp as int]);
                                assert(relative_stamps(seen_new) =~= seq![0int]);
                            }
                        }
                        Generated::Sample(SamplePlan { timestamp: t, region })
                    },
                }
            },
        }
    }

    /// Ends the stream after a step of rendering a planned sample failed:
    /// `EndOfStream` the first time (stop capturing), `Finished` once the
    /// stream has already ended.
    pub fn fail(&mut self) -> (r: Generated)
        requires
            old(self).wf(),
        ensures
            final(self).wf(),
            final(self)@ == (GeneratorView { stopped: true, seen: old(self)@.seen }),
            final(self).input_size_spec() == old(self).input_size_spec(),
            final(self).output_size_spec() == old(self).output_size_spec(),
            old(self).stopped_spec() ==> r == Generated::Finished && *final(self) == *old(self),
            !old(self).stopped_spec() ==> r == Generated::EndOfStream,
    {
        if self.stopped {
            Generated::Finished
        } else {
            self.stopped = true;
            Generated::EndOfStream
        }
    }
}

} // verus!
