//! Decision core of a screen-capture-to-video encoding session: size
//! normalisation, frame composition planning, sample generation, sample
//! writing and the session's start/stop sequencing. GPU, capture, encoder and
//! container services are driven by the caller from the values computed here.

mod compositor;
mod generator;
mod session;
mod size;
mod writer;

pub use compositor::{clamp_region, Compositor, CopyRegion};
pub use generator::{FrameInfo, Generated, GeneratorState, GeneratorView, SampleGenerator, SamplePlan};
pub use session::{Command, SessionError, SessionState, VideoEncodingSession};
pub use size::{ensure_even, ensure_even_size, Size};
pub use writer::{EncodedSample, SampleWriter, WriterError, WriterState, WriterView};
