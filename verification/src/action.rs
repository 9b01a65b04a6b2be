//! What a firmware update asks of the hardware, and what comes back.
use crate::component::InternalResponseData;
use crate::protocol::{FwUpdateContentCommand, FwUpdateOffer, FwUpdateOfferResponse, FwVersion};
use crate::result_ext::ResultExt;
use vstd::prelude::*;

verus! {

/// An operation was tried and did not succeed.
#[derive(Debug, Clone, Copy, PartialEq, Eq, Structural)]
pub struct OperationFailed;

/// An operation for the caller to perform.
#[derive(Debug, Clone, Copy, PartialEq, Eq)]
pub enum CfuAction<'a> {
    /// Read the version of the firmware that the controller runs.
    GetActiveFwVersion,
    /// Have the offer validated against the version that the controller runs.
    ValidateOffer { current: FwVersion, offer: &'a FwUpdateOffer },
    /// Detach the power device with this index from the power policy, if it
    /// is attached.
    DetachPower(usize),
    /// Start the interval of the firmware update ticker anew.
    ResetTicker,
    /// Have the controller start a firmware update.
    StartFwUpdate,
    /// Have the controller write bytes at an address of the image.
    WriteFwContents { address: usize, data: &'a [u8] },
    /// Have the controller finalize the firmware update.
    FinalizeFwUpdate,
    /// Have the controller abort the firmware update.
    AbortFwUpdate,
}

/// A [`CfuAction`] by its contents.
pub enum CfuActionView {
    GetActiveFwVersion,
    ValidateOffer { current: FwVersion, offer: FwUpdateOffer },
    DetachPower(int),
    ResetTicker,
    StartFwUpdate,
    WriteFwContents { address: int, data: Seq<u8> },
    FinalizeFwUpdate,
    AbortFwUpdate,
}

impl<'a> View for CfuAction<'a> {
    type V = CfuActionView;

    open spec fn view(&self) -> CfuActionView {
        match *self {
            CfuAction::GetActiveFwVersion => CfuActionView::GetActiveFwVersion,
            CfuAction::ValidateOffer { current, offer } => CfuActionView::ValidateOffer {
                current,
                offer: *offer,
            },
            CfuAction::DetachPower(index) => CfuActionView::DetachPower(index as int),
            CfuAction::ResetTicker => CfuActionView::ResetTicker,
            CfuAction::StartFwUpdate => CfuActionView::StartFwUpdate,
            CfuAction::WriteFwContents { address, data } => CfuActionView::WriteFwContents {
                address: address as int,
                data: data@,
            },
            CfuAction::FinalizeFwUpdate => CfuActionView::FinalizeFwUpdate,
            CfuAction::AbortFwUpdate => CfuActionView::AbortFwUpdate,
        }
    }
}

/// What came of an operation.
#[derive(Debug, Clone, Copy, PartialEq, Eq)]
pub enum CfuReply {
    /// The version that was read.
    FwVersion(Result<u32, OperationFailed>),
    /// What the validator says to the offer.
    OfferResponse(FwUpdateOfferResponse),
    /// Whether any other operation succeeded.
    Done(Result<(), OperationFailed>),
}

impl CfuReply {
    /// Whether the reply tells of an operation without a value that succeeded.
    pub open spec fn success(self) -> bool {
        self matches CfuReply::Done(Ok(_))
    }

    /// The version that the reply tells, if it tells one.
    pub open spec fn version(self) -> Result<u32, OperationFailed> {
        match self {
            CfuReply::FwVersion(version) => version,
            _ => Err(OperationFailed),
        }
    }

    /// The version that the reply tells, if it tells one.
    pub fn into_version(self) -> (result: Result<u32, OperationFailed>)
        ensures
            result == self.version(),
            match self {
                CfuReply::FwVersion(version) => result == version,
                _ => result is Err,
            },
    {
        match self {
            CfuReply::FwVersion(version) => version,
            _ => Err(OperationFailed),
        }
    }

    /// Whether an operation without a value succeeded.
    pub fn into_outcome(self) -> (result: Result<(), OperationFailed>)
        ensures
            result is Ok == self.success(),
            match self {
                CfuReply::Done(outcome) => result == outcome,
                _ => result is Err,
            },
    {
        match self {
            CfuReply::Done(outcome) => outcome,
            _ => Err(OperationFailed),
        }
    }
}

impl CfuActionView {
    /// Whether the reply is one that this operation can have.
    pub open spec fn answered_by(self, reply: CfuReply) -> bool {
        match self {
            CfuActionView::GetActiveFwVersion => reply is FwVersion,
            CfuActionView::ValidateOffer { .. } => reply is OfferResponse,
            CfuActionView::ResetTicker => reply.success(),
            _ => reply is Done,
        }
    }
}

impl<'a> CfuAction<'a> {
    /// Is the reply one that this operation can have?
    pub fn is_answered_by(&self, reply: &CfuReply) -> (result: bool)
        ensures
            result == self@.answered_by(*reply),
            result <==> match *self {
                CfuAction::GetActiveFwVersion => *reply is FwVersion,
                CfuAction::ValidateOffer { .. } => *reply is OfferResponse,
                CfuAction::ResetTicker => *reply is Done && reply->Done_0 is Ok,
                _ => *reply is Done,
            },
    {
        match self {
            CfuAction::GetActiveFwVersion => matches!(reply, CfuReply::FwVersion(_)),
            CfuAction::ValidateOffer { .. } => matches!(reply, CfuReply::OfferResponse(_)),
            CfuAction::ResetTicker => matches!(reply, CfuReply::Done(Ok(()))),
            _ => matches!(reply, CfuReply::Done(_)),
        }
    }
}

/// The operation that writes the block of a content command.
pub open spec fn write_block(content: FwUpdateContentCommand) -> CfuActionView {
    CfuActionView::WriteFwContents {
        address: content.header.firmware_address as int,
        data: content.block(),
    }
}

/// What a device does next about a request.
#[derive(Debug, PartialEq, Eq)]
pub enum DeviceStep<'a, T> {
    /// Perform an operation and come back with its reply.
    Perform(CfuAction<'a>),
    /// The request is dealt with. An error is a response in its own right.
    Return(Result<T, InternalResponseData>),
}

/// A [`DeviceStep`] by its contents.
pub enum DeviceStepView<T> {
    Perform(CfuActionView),
    Return(Result<T, InternalResponseData>),
}

impl<'a, T> View for DeviceStep<'a, T> {
    type V = DeviceStepView<T>;

    open spec fn view(&self) -> DeviceStepView<T> {
        match *self {
            DeviceStep::Perform(action) => DeviceStepView::Perform(action@),
            DeviceStep::Return(result) => DeviceStepView::Return(result),
        }
    }
}

/// What is done next about a command.
#[derive(Debug, Clone, Copy, PartialEq, Eq)]
pub enum CfuStep<'a> {
    /// Perform an operation and come back with its reply.
    Perform(CfuAction<'a>),
    /// The command is answered.
    Respond(InternalResponseData),
}

/// A [`CfuStep`] by its contents.
pub enum CfuStepView {
    Perform(CfuActionView),
    Respond(InternalResponseData),
}

impl<'a> View for CfuStep<'a> {
    type V = CfuStepView;

    open spec fn view(&self) -> CfuStepView {
        match *self {
            CfuStep::Perform(action) => CfuStepView::Perform(action@),
            CfuStep::Respond(response) => CfuStepView::Respond(response),
        }
    }
}

impl<T> DeviceStepView<T> {
    /// The step for a command, where `respond` makes a response of a value.
    pub open spec fn command_step(self, respond: spec_fn(T) -> InternalResponseData) -> CfuStepView {
        match self {
            DeviceStepView::Perform(action) => CfuStepView::Perform(action),
            DeviceStepView::Return(Ok(value)) => CfuStepView::Respond(respond(value)),
            DeviceStepView::Return(Err(response)) => CfuStepView::Respond(response),
        }
    }
}

impl<'a, T> DeviceStep<'a, T> {
    /// The step for a command, where `respond` makes a response of a value.
    pub fn into_command_step<F>(self, respond: F) -> (step: CfuStep<'a>) where
        F: FnOnce(T) -> InternalResponseData,

        requires
            self matches DeviceStep::Return(Ok(value)) ==> call_requires(respond, (value,)),
        ensures
            match self {
                DeviceStep::Perform(action) => step == CfuStep::Perform(action),
                DeviceStep::Return(Ok(value)) => {
                    &&& step matches CfuStep::Respond(response)
                    &&& call_ensures(respond, (value,), response)
                },
                DeviceStep::Return(Err(response)) => step == CfuStep::<'a>::Respond(response),
            },
    {
        match self {
            DeviceStep::Perform(action) => CfuStep::Perform(action),
            DeviceStep::Return(result) => CfuStep::Respond(result.map_or_unwrap_err(respond)),
        }
    }
}

} // verus!
