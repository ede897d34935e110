//! The session protocol of a streaming sample-rate converter, verified.
//!
//! A conversion engine resamples audio that is fed to it in chunks of any
//! size. This crate holds everything about driving such an engine that can be
//! decided without it: which datatype tag and how many frames a buffer
//! stands for ([`format`], [`buffer`]), how quality and run-time settings
//! are packed into the engine's records ([`params`]), with which arguments
//! each engine call is made and what its answer means ([`Soxr`]).
//!
//! The crate never calls the engine. Every operation of a session comes in
//! two halves: one computes the arguments of the engine call, as a record of
//! [`raw`]; the other takes the engine's answer and gives the result of the
//! operation. The caller makes the call in between.

pub mod binary;
pub mod buffer;
pub mod error;
pub mod format;
pub mod params;
pub mod raw;

pub use error::Error;

use core::marker::PhantomData;
use vstd::prelude::*;

use binary::{Binary64, BINARY64_ONE_BITS};
use format::IoFormat;
use params::{runtime_record, QualityRecipe, QualitySpec, RuntimeSpec};
use raw::{
    CreateCall, DrainReply, IoSpec, ProcessCall, ProcessReply, QualityCall, RatioCall,
    RawQualitySpec, RawRuntimeSpec,
};

verus! {

/// Where a session stands between its creation and its end.
#[derive(Clone, Copy, PartialEq, Eq, Structural, Debug)]
pub enum SessionState {
    /// Nothing has been converted since the session was created or cleared.
    Created,
    /// The last successful conversion call took input.
    Processing,
    /// The last successful conversion call told the engine that the input
    /// has ended, and took what the engine still held.
    Draining,
}

/// An operation on a session that the engine has answered.
#[derive(Clone, Copy, PartialEq, Eq, Structural, Debug)]
pub enum Operation {
    /// A conversion call that offered input.
    Process,
    /// A conversion call that told the engine that the input has ended.
    Drain,
    /// The call that discards everything the converter holds.
    Clear,
    /// The call that changes the ratio of input rate to output rate.
    SetIoRatio,
}

/// Where a session that stood at `state` stands once the engine has answered
/// an operation. An operation that failed leaves the session where it stood,
/// and so does every change of ratio.
pub open spec fn state_after(state: SessionState, operation: Operation, succeeded: bool)
    -> SessionState {
    if !succeeded {
        state
    } else {
        match operation {
            Operation::Process => SessionState::Processing,
            Operation::Drain => SessionState::Draining,
            Operation::Clear => SessionState::Created,
            Operation::SetIoRatio => state,
        }
    }
}

/// Where a session that stood at `state` stands after a history of answered
/// operations, each with whether it succeeded, the earliest first.
pub open spec fn state_after_all(state: SessionState, history: Seq<(Operation, bool)>)
    -> SessionState
    decreases history.len(),
{
    if history.len() == 0 {
        state
    } else {
        state_after(state_after_all(state, history.drop_last()), history.last().0, history.last().1)
    }
}

/// Whatever a session has been through, a successful clear leaves it where
/// a new session stands.
pub proof fn lemma_clear_forgets_history(state: SessionState, history: Seq<(Operation, bool)>)
    ensures
        state_after_all(state, history.push((Operation::Clear, true))) == SessionState::Created,
{
    let cleared = history.push((Operation::Clear, true));
    assert(cleared.last() == (Operation::Clear, true));
}

/// Whether an answered operation is one that leaves a session where it
/// stood: one that failed, or a change of ratio.
pub open spec fn keeps_state(answered: (Operation, bool)) -> bool {
    !answered.1 || answered.0 == Operation::SetIoRatio
}

/// A history in which every operation failed or was a change of ratio leaves
/// the session where it stood.
pub proof fn lemma_failures_and_ratio_changes_keep_state(
    state: SessionState,
    history: Seq<(Operation, bool)>,
)
    requires
        forall|i: int| 0 <= i < history.len() ==> keeps_state(#[trigger] history[i]),
    ensures
        state_after_all(state, history) == state,
    decreases history.len(),
{
    if history.len() > 0 {
        let earlier = history.drop_last();
        assert forall|i: int| 0 <= i < earlier.len() implies keeps_state(#[trigger] earlier[i]) by {
            assert(earlier[i] == history[i]);
        }
        lemma_failures_and_ratio_changes_keep_state(state, earlier);
        assert(keeps_state(history[history.len() - 1]));
    }
}

/// Once a session is draining, any number of further successful drains
/// leaves it draining.
pub proof fn lemma_draining_persists(drains: nat)
    ensures
        state_after_all(
            SessionState::Draining,
            Seq::new(drains, |i: int| (Operation::Drain, true)),
        ) == SessionState::Draining,
    decreases drains,
{
    let history = Seq::new(drains, |i: int| (Operation::Drain, true));
    if drains > 0 {
        let earlier = Seq::new((drains - 1) as nat, |i: int| (Operation::Drain, true));
        assert(history.drop_last() =~= earlier);
        lemma_draining_persists((drains - 1) as nat);
        assert(history.last() == (Operation::Drain, true));
    }
}

/// The outcome of one conversion call that took input.
///
/// The engine need not take all the input that it is offered, nor fill the
/// room that it is given: what it left is the caller's to offer again.
#[derive(Clone, Copy, PartialEq, Eq, Structural, Debug)]
pub struct Processed {
    /// The number of input frames that the engine consumed.
    pub input_frames: usize,
    /// The number of output frames that the engine produced.
    pub output_frames: usize,
}

/// The arguments with which the engine creates a converter for the layout
/// `Format`: the layout's channel count and datatype, for input and output
/// alike, an output scale of one, and the rates and settings as given.
pub open spec fn create_call<Format: IoFormat>(
    input_rate: Binary64,
    output_rate: Binary64,
    quality: RawQualitySpec,
    runtime: RawRuntimeSpec,
) -> CreateCall {
    CreateCall {
        input_rate,
        output_rate,
        channels: Format::spec_channels() as u32,
        io: IoSpec {
            itype: Format::spec_datatype(),
            otype: Format::spec_datatype(),
            scale: Binary64 { bits: BINARY64_ONE_BITS },
        },
        quality,
        runtime,
    }
}

/// A session with default settings that waits for the engine's record of
/// the default quality, which is that of the high recipe.
pub struct DefaultCreation<Format: IoFormat> {
    input_rate: Binary64,
    output_rate: Binary64,
    _phantom: PhantomData<Format>,
}

impl<Format: IoFormat> View for DefaultCreation<Format> {
    type V = (Binary64, Binary64);

    /// The input rate and the output rate of the session to be.
    closed spec fn view(&self) -> (Binary64, Binary64) {
        (self.input_rate, self.output_rate)
    }
}

impl<Format: IoFormat> DefaultCreation<Format> {
    /// The arguments that ask the engine for the default quality: the high
    /// recipe, with the small rolloff and every switch off.
    pub fn call(&self) -> (call: QualityCall)
        ensures
            call.recipe == QualityRecipe::Bits20.spec_to_raw(),
            call.flags == 0,
    {
        QualitySpec::new(QualityRecipe::high())
    }

    /// Takes the engine's record of the default quality and prepares the
    /// creation of the session with it and with the default run-time
    /// resources, as [`Soxr::new_with_params`] does.
    pub fn finish(self, quality: RawQualitySpec) -> (made: Result<Creation<Format>, Error>)
        ensures
            Format::spec_channels() > u32::MAX ==> made is Err && made->Err_0
                == Error::ChannelCountTooLarge,
            Format::spec_channels() <= u32::MAX ==> made is Ok && made->Ok_0@ == create_call::<
                Format,
            >(self@.0, self@.1, quality, runtime_record(1)),
    {
        Soxr::new_with_params(
            self.input_rate,
            self.output_rate,
            QualitySpec::from_raw(quality),
            RuntimeSpec::default(),
        )
    }
}

/// A session that waits for the engine to create its converter.
pub struct Creation<Format: IoFormat> {
    call: CreateCall,
    _phantom: PhantomData<Format>,
}

impl<Format: IoFormat> View for Creation<Format> {
    type V = CreateCall;

    closed spec fn view(&self) -> CreateCall {
        self.call
    }
}

impl<Format: IoFormat> Creation<Format> {
    #[verifier::type_invariant]
    spec fn well_formed(self) -> bool {
        &&& Format::spec_channels() <= u32::MAX
        &&& self.call == create_call::<Format>(
            self.call.input_rate,
            self.call.output_rate,
            self.call.quality,
            self.call.runtime,
        )
    }

    /// The arguments with which the engine is to create the converter. The
    /// channel count among them is the layout's, which fits.
    pub fn call(&self) -> (call: &CreateCall)
        ensures
            *call == self@,
            call.channels == Format::spec_channels(),
            call.io.itype == Format::spec_datatype(),
            call.io.otype == Format::spec_datatype(),
            call.io.scale.bits == BINARY64_ONE_BITS,
    {
        proof {
            use_type_invariant(self);
        }
        &self.call
    }

    /// Takes the engine's answer to the creation call: with no diagnostic
    /// the session begins, and with one the creation failed with it.
    pub fn finish(self, diagnostic: Option<&'static str>) -> (made: Result<Soxr<Format>, Error>)
        ensures
            diagnostic is None ==> made is Ok && made->Ok_0@ == SessionState::Created,
            diagnostic matches Some(text) ==> made is Err && made->Err_0 == Error::Engine(text),
    {
        proof {
            use_type_invariant(&self);
        }
        match Error::check(diagnostic) {
            Ok(()) => Ok(Soxr { state: SessionState::Created, _phantom: PhantomData }),
            Err(error) => Err(error),
        }
    }
}

/// A conversion session for audio of the layout `Format`.
///
/// A session stands for one converter of the engine, from its creation to
/// its end. It exists only for a layout whose channel count the engine can
/// express, and only once the engine has created the converter.
pub struct Soxr<Format: IoFormat> {
    state: SessionState,
    _phantom: PhantomData<Format>,
}

impl<Format: IoFormat> View for Soxr<Format> {
    type V = SessionState;

    closed spec fn view(&self) -> SessionState {
        self.state
    }
}

impl<Format: IoFormat> Soxr<Format> {
    #[verifier::type_invariant]
    spec fn well_formed(self) -> bool {
        Format::spec_channels() <= u32::MAX
    }

    /// Begins the creation of a session with the given rates, the default
    /// quality and the default run-time resources.
    ///
    /// The default quality is a record that the engine works out, so the
    /// engine is first to be asked for it.
    pub fn new(input_rate: Binary64, output_rate: Binary64) -> (pending: DefaultCreation<Format>)
        ensures
            pending@ == (input_rate, output_rate),
    {
        DefaultCreation { input_rate, output_rate, _phantom: PhantomData }
    }

    /// Prepares the creation of a session with the given rates, quality and
    /// run-time resources.
    ///
    /// A layout with more channels than the engine's channel count can
    /// express is refused here, so that no creation call is ever made for
    /// it. Every other layout gives the arguments of the creation call.
    pub fn new_with_params(
        input_rate: Binary64,
        output_rate: Binary64,
        quality: QualitySpec,
        runtime: RuntimeSpec,
    ) -> (made: Result<Creation<Format>, Error>)
        ensures
            Format::spec_channels() > u32::MAX ==> made is Err && made->Err_0
                == Error::ChannelCountTooLarge,
            Format::spec_channels() <= u32::MAX ==> made is Ok && made->Ok_0@ == create_call::<
                Format,
            >(input_rate, output_rate, quality@, runtime@),
    {
        let datatype = Format::datatype();
        let io = IoSpec { itype: datatype, otype: datatype, scale: Binary64::one() };
        let channels = match u32::try_from(Format::channels()) {
            Ok(channels) => channels,
            Err(_) => {
                return Err(Error::ChannelCountTooLarge);
            },
        };
        let call = CreateCall {
            input_rate,
            output_rate,
            channels,
            io,
            quality: *quality.as_raw(),
            runtime: *runtime.as_raw(),
        };
        Ok(Creation { call, _phantom: PhantomData })
    }

    /// Where this session stands.
    pub fn state(&self) -> (state: SessionState)
        ensures
            state == self@,
    {
        self.state
    }

    /// The number of channels of this session, as the engine counts them.
    pub fn channels(&self) -> (count: u32)
        ensures
            count == Format::spec_channels(),
    {
        proof {
            use_type_invariant(self);
        }
        let count = Format::channels();
        count as u32
    }

    /// The frame counts of the engine call that converts `input` into
    /// `output`: all the frames of the one, and all the room of the other.
    pub fn process<'a, 'b>(&self, input: &Format::Input<'a>, output: &Format::Output<'b>) -> (call:
        ProcessCall)
        ensures
            call.input_frames == Some(Format::input_frames(input) as usize),
            call.output_frames == Format::output_frames(output),
    {
        let input_len = Format::input_len(input);
        let output_len = Format::output_len(output);
        ProcessCall { input_frames: Some(input_len), output_frames: output_len }
    }

    /// Takes the engine's answer to a call made for [`Soxr::process`].
    ///
    /// With no diagnostic, the result is what the engine consumed and
    /// produced, and the session is processing. With a diagnostic the call
    /// failed with it: the counts mean nothing, and the session stands
    /// where it stood.
    pub fn finish_process(&mut self, reply: ProcessReply) -> (done: Result<Processed, Error>)
        ensures
            reply.diagnostic is None ==> done == Ok::<Processed, Error>(
                Processed { input_frames: reply.input_done, output_frames: reply.output_done },
            ),
            reply.diagnostic matches Some(text) ==> done == Err::<Processed, Error>(
                Error::Engine(text),
            ),
            final(self)@ == state_after(old(self)@, Operation::Process, reply.diagnostic is None),
    {
        match Error::check(reply.diagnostic) {
            Ok(()) => {
                proof {
                    use_type_invariant(&*self);
                }
                self.state = SessionState::Processing;
                Ok(Processed { input_frames: reply.input_done, output_frames: reply.output_done })
            },
            Err(error) => Err(error),
        }
    }

    /// The frame counts of the engine call that tells the engine that the
    /// input has ended and takes what it still holds into `output`: no
    /// input at all, and all the room of `output`.
    ///
    /// The engine may hold more than fits: the call is to be repeated until
    /// it produces no frame.
    pub fn drain<'a>(&self, output: &Format::Output<'a>) -> (call: ProcessCall)
        ensures
            call.input_frames is None,
            call.output_frames == Format::output_frames(output),
    {
        let output_len = Format::output_len(output);
        ProcessCall { input_frames: None, output_frames: output_len }
    }

    /// Takes the engine's answer to a call made for [`Soxr::drain`].
    ///
    /// With no diagnostic, the result is the number of frames that the
    /// engine produced, and the session is draining. With a diagnostic the
    /// call failed with it, and the session stands where it stood.
    pub fn finish_drain(&mut self, reply: DrainReply) -> (done: Result<usize, Error>)
        ensures
            reply.diagnostic is None ==> done == Ok::<usize, Error>(reply.output_done),
            reply.diagnostic matches Some(text) ==> done == Err::<usize, Error>(
                Error::Engine(text),
            ),
            final(self)@ == state_after(old(self)@, Operation::Drain, reply.diagnostic is None),
    {
        match Error::check(reply.diagnostic) {
            Ok(()) => {
                proof {
                    use_type_invariant(&*self);
                }
                self.state = SessionState::Draining;
                Ok(reply.output_done)
            },
            Err(error) => Err(error),
        }
    }

    /// Takes the engine's answer to the call that discards everything the
    /// converter holds.
    ///
    /// With no diagnostic the session is as it was when it was created.
    /// With a diagnostic the call failed with it, and the session stands
    /// where it stood.
    pub fn clear(&mut self, diagnostic: Option<&'static str>) -> (done: Result<(), Error>)
        ensures
            diagnostic is None ==> done == Ok::<(), Error>(()),
            diagnostic matches Some(text) ==> done == Err::<(), Error>(Error::Engine(text)),
            final(self)@ == state_after(old(self)@, Operation::Clear, diagnostic is None),
    {
        match Error::check(diagnostic) {
            Ok(()) => {
                proof {
                    use_type_invariant(&*self);
                }
                self.state = SessionState::Created;
                Ok(())
            },
            Err(error) => Err(error),
        }
    }

    /// The arguments of the engine call that changes the ratio of input rate
    /// to output rate: the ratio and the slew length as given. Over
    /// `slew_len` output frames the engine moves to the new ratio, and with
    /// a `slew_len` of zero it changes the ratio at once.
    pub fn set_io_ratio(&self, ratio: Binary64, slew_len: usize) -> (call: RatioCall)
        ensures
            call == (RatioCall { ratio, slew_len }),
    {
        RatioCall { ratio, slew_len }
    }

    /// Takes the engine's answer to a call made for [`Soxr::set_io_ratio`].
    ///
    /// Whatever the answer, the session stands where it stood: a change of
    /// ratio discards nothing.
    pub fn finish_set_io_ratio(&mut self, diagnostic: Option<&'static str>) -> (done: Result<
        (),
        Error,
    >)
        ensures
            diagnostic is None ==> done == Ok::<(), Error>(()),
            diagnostic matches Some(text) ==> done == Err::<(), Error>(Error::Engine(text)),
            final(self)@ == state_after(old(self)@, Operation::SetIoRatio, diagnostic is None),
            final(self)@ == old(self)@,
    {
        Error::check(diagnostic)
    }
}

} // verus!
