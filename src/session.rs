use vstd::prelude::*;
use crate::generator::{fresh_view, SampleGenerator};
use crate::size::{ensure_even_size, even_align, Size};

verus! {

/// Lifecycle of an encoding session.
#[derive(Clone, Copy, Debug, PartialEq, Eq, Structural)]
pub enum SessionState {
    /// Built, not started.
    Idle,
    /// Writer armed, capture and encoder started.
    Running,
    /// A start step failed; the session can only be stopped.
    Failed,
    /// Torn down; nothing more can be done with it.
    Stopped,
}

/// Why a session cannot be built or a request cannot be honoured.
#[derive(Clone, Copy, Debug, PartialEq, Eq, Structural)]
pub enum SessionError {
    /// A requested dimension is not positive, or cannot be rounded up to even.
    ConfigError,
    /// The request is not valid in the session's current state.
    InvalidState,
}

/// A step for the caller to carry out on the session's collaborators, in the
/// order given.
#[derive(Clone, Copy, Debug, PartialEq, Eq, Structural)]
pub enum Command {
    /// Begin writing on the sample writer.
    ArmWriter,
    /// Start the frame source's capture.
    StartCapture,
    /// Start the hardware encoder.
    StartEncoder,
    /// Drain the hardware encoder and wait until it has stopped.
    StopEncoder,
    /// Finalize the sample writer.
    FinalizeWriter,
}

/// Both dimensions of `s` are positive and can be rounded up to even.
pub open spec fn valid_size(s: Size) -> bool {
    0 < s.width < i32::MAX && 0 < s.height < i32::MAX
}

/// Orchestrator of one encoding session: holds the normalised sizes and
/// settings, and decides which steps start and stop the writer, the capture
/// and the encoder.
pub struct VideoEncodingSession {
    state: SessionState,
    input_size: Size,
    output_size: Size,
    bit_rate: u32,
    frame_rate: u32,
}

impl VideoEncodingSession {
    /// Where the session is in its lifecycle.
    pub closed spec fn state_spec(&self) -> SessionState {
        self.state
    }

    /// Size of the composition surface: the capture target's size, even-aligned.
    pub closed spec fn input_size_spec(&self) -> Size {
        self.input_size
    }

    /// Size of the encoded video: the requested resolution, even-aligned.
    pub closed spec fn output_size_spec(&self) -> Size {
        self.output_size
    }

    /// Target bit rate, in bits per second.
    pub closed spec fn bit_rate_spec(&self) -> u32 {
        self.bit_rate
    }

    /// Target frame rate, in frames per second.
    pub closed spec fn frame_rate_spec(&self) -> u32 {
        self.frame_rate
    }

    /// Both sizes are positive.
    pub closed spec fn wf(&self) -> bool {
        &&& self.input_size.width > 0
        &&& self.input_size.height > 0
        &&& self.output_size.width > 0
        &&& self.output_size.height > 0
    }

    /// An idle session for a capture target of size `item_size`, encoding at
    /// `resolution`, `bit_rate` and `frame_rate`. Both sizes are rounded up to
    /// even dimensions before anything is allocated. A dimension that is not
    /// positive, or that cannot be rounded up (the largest `i32`), is a
    /// `ConfigError`.
    pub fn new(item_size: Size, resolution: Size, bit_rate: u32, frame_rate: u32) -> (r: Result<
        Self,
        SessionError,
    >)
        ensures
            r is Err <==> !(valid_size(item_size) && valid_size(resolution)),
            r is Err ==> r->Err_0 == SessionError::ConfigError,
            r is Ok ==> {
                &&& r->Ok_0.wf()
                &&& r->Ok_0.state_spec() == SessionState::Idle
                &&& r->Ok_0.input_size_spec() == even_align(item_size)
                &&& r->Ok_0.output_size_spec() == even_align(resolution)
                &&& r->Ok_0.bit_rate_spec() == bit_rate
                &&& r->Ok_0.frame_rate_spec() == frame_rate
            },
    {
        if item_size.width <= 0 || item_size.width == i32::MAX || item_size.height <= 0
            || item_size.height == i32::MAX || resolution.width <= 0 || resolution.width
            == i32::MAX || resolution.height <= 0 || resolution.height == i32::MAX {
            return Err(SessionError::ConfigError);
        }
        Ok(
            VideoEncodingSession {
                state: SessionState::Idle,
                input_size: ensure_even_size(item_size),
                output_size: ensure_even_size(resolution),
                bit_rate,
                frame_rate,
            },
        )
    }

    /// Where the session is in its lifecycle.
    pub fn state(&self) -> (r: SessionState)
        ensures
            r == self.state_spec(),
    {
        self.state
    }

    /// Size of the composition surface.
    pub fn input_size(&self) -> (r: Size)
        ensures
            r == self.input_size_spec(),
    {
        self.input_size
    }

    /// Size of the encoded video.
    pub fn output_size(&self) -> (r: Size)
        ensures
            r == self.output_size_spec(),
    {
        self.output_size
    }

    /// Target bit rate, in bits per second.
    pub fn bit_rate(&self) -> (r: u32)
        ensures
            r == self.bit_rate_spec(),
    {
        self.bit_rate
    }

    /// Target frame rate, in frames per second.
    pub fn frame_rate(&self) -> (r: u32)
        ensures
            r == self.frame_rate_spec(),
    {
        self.frame_rate
    }

    /// The sample generator for this session: it composes onto a surface of
    /// the input size and converts to the output size.
    pub fn sample_generator(&self) -> (r: SampleGenerator)
        requires
            self.wf(),
        ensures
            r.wf(),
            r@ == fresh_view(),
            r.input_size_spec() == self.input_size_spec(),
            r.output_size_spec() == self.output_size_spec(),
    {
        SampleGenerator::new(self.input_size, self.output_size)
    }

    /// Starts the session: from `Idle` it becomes `Running` and the caller arms
    /// the writer, then starts the capture, then the encoder. From any other
    /// state nothing changes and `InvalidState` is returned.
    pub fn start(&mut self) -> (r: Result<Vec<Command>, SessionError>)
        ensures
            final(self).wf() == old(self).wf(),
            final(self).input_size_spec() == old(self).input_size_spec(),
            final(self).output_size_spec() == old(self).output_size_spec(),
            final(self).bit_rate_spec() == old(self).bit_rate_spec(),
            final(self).frame_rate_spec() == old(self).frame_rate_spec(),
            old(self).state_spec() == SessionState::Idle ==> {
                &&& r is Ok
                &&& r->Ok_0@ == seq![
                    Command::ArmWriter,
                    Command::StartCapture,
                    Command::StartEncoder,
                ]
                &&& final(self).state_spec() == SessionState::Running
            },
            old(self).state_spec() != SessionState::Idle ==> {
                &&& r is Err
                &&& r->Err_0 == SessionError::InvalidState
                &&& final(self).state_spec() == old(self).state_spec()
            },
    {
        if self.state != SessionState::Idle {
            return Err(SessionError::InvalidState);
        }
        self.state = SessionState::Running;
        let mut cmds: Vec<Command> = Vec::new();
        cmds.push(Command::ArmWriter);
        cmds.push(Command::StartCapture);
        cmds.push(Command::StartEncoder);
        proof {
            assert(cmds@ =~= seq![Command::ArmWriter, Command::StartCapture, Command::StartEncoder]);
        }
        Ok(cmds)
    }

    /// Takes the outcome of one start step, carried out in the order `start`
    /// gave. While the session is running, a step that succeeded lets the
    /// next one go on (`true`); one that failed leaves the session `Failed`,
    /// from which it can still be stopped, and the remaining steps are not
    /// carried out (`false`). Outside `Running` no step goes on and nothing
    /// changes.
    pub fn report_start_step(&mut self, succeeded: bool) -> (r: bool)
        ensures
            final(self).wf() == old(self).wf(),
            final(self).input_size_spec() == old(self).input_size_spec(),
            final(self).output_size_spec() == old(self).output_size_spec(),
            final(self).bit_rate_spec() == old(self).bit_rate_spec(),
            final(self).frame_rate_spec() == old(self).frame_rate_spec(),
            r == (succeeded && old(self).state_spec() == SessionState::Running),
            old(self).state_spec() == SessionState::Running && !succeeded ==> final(self).state_spec()
                == SessionState::Failed,
            old(self).state_spec() == SessionState::Running && succeeded ==> final(self).state_spec()
                == SessionState::Running,
            old(self).state_spec() != SessionState::Running ==> final(self).state_spec()
                == old(self).state_spec(),
    {
        if self.state != SessionState::Running {
            return false;
        }
        if !succeeded {
            self.state = SessionState::Failed;
        }
        succeeded
    }

    /// Stops the session. A started session (running or failed) drains and
    /// stops the encoder, then finalizes the writer; an idle one has nothing
    /// to tear down. Either way it ends `Stopped`, and stopping it again
    /// returns no step, so the writer is finalized at most once.
    pub fn stop(&mut self) -> (r: Vec<Command>)
        ensures
            final(self).wf() == old(self).wf(),
            final(self).input_size_spec() == old(self).input_size_spec(),
            final(self).output_size_spec() == old(self).output_size_spec(),
            final(self).bit_rate_spec() == old(self).bit_rate_spec(),
            final(self).frame_rate_spec() == old(self).frame_rate_spec(),
            final(self).state_spec() == SessionState::Stopped,
            (old(self).state_spec() == SessionState::Running || old(self).state_spec()
                == SessionState::Failed) ==> r@ == seq![
                Command::StopEncoder,
                Command::FinalizeWriter,
            ],
            (old(self).state_spec() == SessionState::Idle || old(self).state_spec()
                == SessionState::Stopped) ==> r@.len() == 0,
    {
        let mut cmds: Vec<Command> = Vec::new();
        if self.state == SessionState::Running || self.state == SessionState::Failed {
            cmds.push(Command::StopEncoder);
            cmds.push(Command::FinalizeWriter);
            proof {
                assert(cmds@ =~= seq![Command::StopEncoder, Command::FinalizeWriter]);
            }
        }
        self.state = SessionState::Stopped;
        cmds
    }
}

} // verus!
