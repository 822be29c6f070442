use vstd::prelude::*;

verus! {

/// Timing of one encoded sample handed to the writer (100 ns units). The
/// payload stays with the caller, who appends it to the container once the
/// writer accepts the sample.
#[derive(Clone, Copy, Debug, PartialEq, Eq, Structural)]
pub struct EncodedSample {
    pub timestamp: i64,
    pub duration: i64,
}

/// Lifecycle of the container output.
#[derive(Clone, Copy, Debug, PartialEq, Eq, Structural)]
pub enum WriterState {
    /// The stream is declared; writing has not begun.
    Created,
    /// Samples may be appended.
    Writing,
    /// The container is finalized and closed for writes.
    Finalized,
}

/// Misuse of the writer's lifecycle.
#[derive(Clone, Copy, Debug, PartialEq, Eq, Structural)]
pub enum WriterError {
    /// A write or a finalize before writing began.
    NotStarted,
    /// Writing was begun twice.
    AlreadyStarted,
    /// Any operation after the container was finalized.
    UseAfterFinalize,
}

/// The abstract state of a writer: where it is in its lifecycle and the
/// samples appended so far, in order.
pub struct WriterView {
    pub state: WriterState,
    pub written: Seq<EncodedSample>,
}

/// The state after a write of `s`: appended when writing, else unchanged.
pub open spec fn after_write(v: WriterView, s: EncodedSample) -> WriterView {
    if v.state == WriterState::Writing {
        WriterView { state: v.state, written: v.written.push(s) }
    } else {
        v
    }
}

/// The state after writing each of `ss`, in order.
pub open spec fn after_writes(v: WriterView, ss: Seq<EncodedSample>) -> WriterView
    decreases ss.len(),
{
    if ss.len() == 0 {
        v
    } else {
        after_write(after_writes(v, ss.drop_last()), ss.last())
    }
}

/// Samples written one after another while writing are appended in the order
/// they were delivered, none dropped, duplicated or reordered; once the writer
/// is finalized, writes change nothing.
pub proof fn lemma_writes_in_order(v: WriterView, ss: Seq<EncodedSample>)
    ensures
        v.state == WriterState::Writing ==> after_writes(v, ss) == (WriterView {
            state: WriterState::Writing,
            written: v.written + ss,
        }),
        v.state != WriterState::Writing ==> after_writes(v, ss) == v,
    decreases ss.len(),
{
    if ss.len() > 0 {
        lemma_writes_in_order(v, ss.drop_last());
        if v.state == WriterState::Writing {
            assert(v.written + ss =~= (v.written + ss.drop_last()).push(ss.last()));
        }
    } else {
        assert(v.written + ss =~= v.written);
    }
}

/// Sink side of the session: appends encoded samples to the one declared
/// stream in the order they arrive, between one start and one stop.
pub struct SampleWriter {
    state: WriterState,
    written: Ghost<Seq<EncodedSample>>,
}

impl View for SampleWriter {
    type V = WriterView;

    closed spec fn view(&self) -> WriterView {
        WriterView { state: self.state, written: self.written@ }
    }
}

impl SampleWriter {
    /// Where the writer is in its lifecycle.
    pub open spec fn state_spec(&self) -> WriterState {
        self@.state
    }

    /// The samples appended so far, in the order they were written.
    pub open spec fn written(&self) -> Seq<EncodedSample> {
        self@.written
    }

    /// A writer whose stream is declared and which has written nothing.
    pub fn new() -> (r: Self)
        ensures
            r.state_spec() == WriterState::Created,
            r.written().len() == 0,
    {
        SampleWriter { state: WriterState::Created, written: Ghost(Seq::empty()) }
    }

    /// Where the writer is in its lifecycle.
    pub fn state(&self) -> (r: WriterState)
        ensures
            r == self.state_spec(),
    {
        self.state
    }

    /// Begins writing. Valid once, before any write.
    pub fn start(&mut self) -> (r: Result<(), WriterError>)
        ensures
            final(self).written() == old(self).written(),
            old(self).state_spec() == WriterState::Created ==> r is Ok && final(self).state_spec()
                == WriterState::Writing,
            old(self).state_spec() == WriterState::Writing ==> r == Err::<(), WriterError>(
                WriterError::AlreadyStarted,
            ) && final(self).state_spec() == old(self).state_spec(),
            old(self).state_spec() == WriterState::Finalized ==> r == Err::<(), WriterError>(
                WriterError::UseAfterFinalize,
            ) && final(self).state_spec() == old(self).state_spec(),
    {
        match self.state {
            WriterState::Created => {
                self.state = WriterState::Writing;
                Ok(())
            },
            WriterState::Writing => Err(WriterError::AlreadyStarted),
            WriterState::Finalized => Err(WriterError::UseAfterFinalize),
        }
    }

    /// Accepts `sample` as the next one of the stream. On `Ok` the caller
    /// appends it to the container; on `Err` nothing is written.
    pub fn write(&mut self, sample: &EncodedSample) -> (r: Result<(), WriterError>)
        ensures
            final(self)@ == after_write(old(self)@, *sample),
            final(self).state_spec() == old(self).state_spec(),
            old(self).state_spec() == WriterState::Writing ==> r is Ok && final(self).written()
                == old(self).written().push(*sample),
            old(self).state_spec() == WriterState::Created ==> r == Err::<(), WriterError>(
                WriterError::NotStarted,
            ) && final(self).written() == old(self).written(),
            old(self).state_spec() == WriterState::Finalized ==> r == Err::<(), WriterError>(
                WriterError::UseAfterFinalize,
            ) && final(self).written() == old(self).written(),
    {
        match self.state {
            WriterState::Writing => {
                self.written = Ghost(self.written@.push(*sample));
                Ok(())
            },
            WriterState::Created => Err(WriterError::NotStarted),
            WriterState::Finalized => Err(WriterError::UseAfterFinalize),
        }
    }

    /// Finalizes the container and closes the writer for good, whatever its
    /// state: afterwards every start and write is a `UseAfterFinalize`. A
    /// writer that never began writing is closed too, and `NotStarted` is
    /// reported; a second stop reports `UseAfterFinalize`.
    pub fn stop(&mut self) -> (r: Result<(), WriterError>)
        ensures
            final(self).written() == old(self).written(),
            final(self).state_spec() == WriterState::Finalized,
            old(self).state_spec() == WriterState::Writing ==> r is Ok,
            old(self).state_spec() == WriterState::Created ==> r == Err::<(), WriterError>(
                WriterError::NotStarted,
            ),
            old(self).state_spec() == WriterState::Finalized ==> r == Err::<(), WriterError>(
                WriterError::UseAfterFinalize,
            ),
    {
        let r = match self.state {
            WriterState::Writing => Ok(()),
            WriterState::Created => Err(WriterError::NotStarted),
            WriterState::Finalized => Err(WriterError::UseAfterFinalize),
        };
        self.state = WriterState::Finalized;
        r
    }
}

} // verus!
