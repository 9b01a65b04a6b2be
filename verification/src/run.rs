//! What a command does from its first step to its response.
//!
//! [`ControllerWrapper::command_run`] follows the steps of a command one by
//! one. [`ControllerWrapper::described_run`] says outright which operations
//! are performed, in which order, and where that leads.
//! [`run_is_as_described`] proves that the two agree.
use crate::action::{write_block, CfuActionView, CfuReply, CfuStepView, OperationFailed};
use crate::component::{InternalResponseData, RequestData};
use crate::device::{
    content_response, fw_version_response, offer_rejection, state_after_abort, INVALID_FW_VERSION,
};
use crate::protocol::{
    CfuUpdateContentResponseStatus, FwUpdateContentCommand, FwUpdateOffer, FwUpdateOfferResponse,
    FwVersion,
};
use crate::state::FwUpdateState;
use crate::wrapper::{processable, ControllerWrapper};
use vstd::prelude::*;

verus! {

/// What every operation comes back with while one command is processed.
/// A command performs no operation twice.
pub struct Outcomes {
    /// The version that the controller runs, unless it cannot be read.
    pub version: Result<u32, OperationFailed>,
    /// What the validator says.
    pub offer_response: FwUpdateOfferResponse,
    /// Whether the power device with a given index gets detached.
    pub detached: spec_fn(int) -> bool,
    pub started: bool,
    pub written: bool,
    pub finalized: bool,
    pub aborted: bool,
}

/// The reply of an operation that has no value.
pub open spec fn done(success: bool) -> CfuReply {
    CfuReply::Done(
        if success {
            Ok(())
        } else {
            Err(OperationFailed)
        },
    )
}

impl Outcomes {
    /// The reply to an operation.
    pub open spec fn reply(self, action: CfuActionView) -> CfuReply {
        match action {
            CfuActionView::GetActiveFwVersion => CfuReply::FwVersion(self.version),
            CfuActionView::ValidateOffer { .. } => CfuReply::OfferResponse(self.offer_response),
            CfuActionView::DetachPower(index) => done((self.detached)(index)),
            CfuActionView::ResetTicker => done(true),
            CfuActionView::StartFwUpdate => done(self.started),
            CfuActionView::WriteFwContents { .. } => done(self.written),
            CfuActionView::FinalizeFwUpdate => done(self.finalized),
            CfuActionView::AbortFwUpdate => done(self.aborted),
        }
    }

    /// Whether all of the first `count` power devices get detached.
    pub open spec fn all_detached(self, count: int) -> bool {
        forall|index: int| 0 <= index < count ==> #[trigger] (self.detached)(index)
    }
}

/// A processed command.
#[verifier::ext_equal]
pub struct CommandRun {
    /// The state that the command leaves behind.
    pub state: FwUpdateState,
    /// The operations that were performed, in order.
    pub performed: Seq<CfuActionView>,
    /// The response to the command.
    pub response: InternalResponseData,
}

impl ControllerWrapper {
    /// How many operations a command performs at most, from this step on.
    pub open spec fn steps_left(self, step: CfuStepView) -> int {
        match step {
            CfuStepView::Respond(_) => 0,
            CfuStepView::Perform(action) => match action {
                CfuActionView::DetachPower(index) => 4 + self.power_devices - index,
                CfuActionView::ResetTicker => 4,
                CfuActionView::StartFwUpdate => 3,
                CfuActionView::WriteFwContents { .. } => 2,
                CfuActionView::GetActiveFwVersion => 2,
                _ => 1,
            },
        }
    }

    /// Whether the step is one that the command takes.
    pub open spec fn takes(self, command: RequestData, step: CfuStepView) -> bool {
        step matches CfuStepView::Perform(action) ==> self.asks(command, action)
    }

    /// The command from the given step on.
    pub open spec fn run_from(
        self,
        state: FwUpdateState,
        command: RequestData,
        outcomes: Outcomes,
        step: CfuStepView,
    ) -> CommandRun
        decreases self.steps_left(step),
        when self.takes(command, step)
    {
        match step {
            CfuStepView::Respond(response) => CommandRun { state, performed: seq![], response },
            CfuStepView::Perform(action) => {
                let (state, next) = self.command_resumed(
                    state,
                    command,
                    action,
                    outcomes.reply(action),
                );
                let rest = self.run_from(state, command, outcomes, next);
                CommandRun { performed: seq![action] + rest.performed, ..rest }
            },
        }
    }

    /// The command from its first step on.
    pub open spec fn command_run(
        self,
        state: FwUpdateState,
        command: RequestData,
        outcomes: Outcomes,
    ) -> CommandRun {
        self.run_from(state, command, outcomes, self.command_begun(state, command))
    }

    /// Whether a block gets as far as being written: the first block of an
    /// update needs all power devices detached and the update started.
    pub open spec fn gets_written(self, content: FwUpdateContentCommand, outcomes: Outcomes) -> bool {
        content.header.first_block() ==> {
            &&& outcomes.all_detached(self.power_devices as int)
            &&& outcomes.started
        }
    }

    /// The operations that detach the power devices from the given one on, up
    /// to the first that fails.
    pub open spec fn detach_attempts(self, outcomes: Outcomes, index: int) -> Seq<CfuActionView>
        decreases self.power_devices - index,
    {
        if index >= self.power_devices {
            seq![]
        } else if (outcomes.detached)(index) {
            seq![CfuActionView::DetachPower(index)] + self.detach_attempts(outcomes, index + 1)
        } else {
            seq![CfuActionView::DetachPower(index)]
        }
    }

    /// The operations that make the controller ready for a block.
    pub open spec fn preparation(self, content: FwUpdateContentCommand, outcomes: Outcomes) -> Seq<
        CfuActionView,
    > {
        if !content.header.first_block() {
            seq![]
        } else if outcomes.all_detached(self.power_devices as int) {
            self.detach_attempts(outcomes, 0) + seq![
                CfuActionView::ResetTicker,
                CfuActionView::StartFwUpdate,
            ]
        } else {
            self.detach_attempts(outcomes, 0)
        }
    }

    /// The operations that a block performs.
    pub open spec fn content_performed(
        self,
        content: FwUpdateContentCommand,
        outcomes: Outcomes,
    ) -> Seq<CfuActionView> {
        self.preparation(content, outcomes) + if !self.gets_written(content, outcomes) {
            seq![]
        } else if outcomes.written && content.header.last_block() {
            seq![write_block(content), CfuActionView::FinalizeFwUpdate]
        } else {
            seq![write_block(content)]
        }
    }

    /// The state that a block leaves behind.
    pub open spec fn content_state(
        self,
        state: FwUpdateState,
        content: FwUpdateContentCommand,
        outcomes: Outcomes,
    ) -> FwUpdateState {
        if !self.gets_written(content, outcomes) {
            if outcomes.all_detached(self.power_devices as int) {
                FwUpdateState::Recovery
            } else {
                state
            }
        } else if outcomes.written && content.header.last_block() {
            if outcomes.finalized {
                FwUpdateState::Idle
            } else {
                FwUpdateState::Recovery
            }
        } else if content.header.first_block() {
            FwUpdateState::InProgress(0)
        } else {
            state
        }
    }

    /// The response to a block.
    pub open spec fn content_answer(
        self,
        content: FwUpdateContentCommand,
        outcomes: Outcomes,
    ) -> InternalResponseData {
        if self.gets_written(content, outcomes) && outcomes.written && content.header.last_block()
            && !outcomes.finalized {
            offer_rejection()
        } else {
            InternalResponseData::ContentResponse(
                content_response(
                    content,
                    if !self.gets_written(content, outcomes) {
                        CfuUpdateContentResponseStatus::ErrorPrepare
                    } else if !outcomes.written {
                        CfuUpdateContentResponseStatus::ErrorWrite
                    } else {
                        CfuUpdateContentResponseStatus::Success
                    },
                ),
            )
        }
    }

    /// The operations that an offer performs.
    pub open spec fn offer_performed(self, offer: FwUpdateOffer, outcomes: Outcomes) -> Seq<
        CfuActionView,
    > {
        if offer.component_info.component_id != self.component_id {
            seq![]
        } else {
            match outcomes.version {
                Ok(version) => seq![
                    CfuActionView::GetActiveFwVersion,
                    CfuActionView::ValidateOffer { current: FwVersion { version }, offer },
                ],
                Err(_) => seq![CfuActionView::GetActiveFwVersion],
            }
        }
    }

    /// The response to an offer.
    pub open spec fn offer_answer(self, offer: FwUpdateOffer, outcomes: Outcomes) -> InternalResponseData {
        if offer.component_info.component_id == self.component_id && outcomes.version is Ok {
            InternalResponseData::OfferResponse(outcomes.offer_response)
        } else {
            offer_rejection()
        }
    }

    /// What a command does.
    pub open spec fn described_run(
        self,
        state: FwUpdateState,
        command: RequestData,
        outcomes: Outcomes,
    ) -> CommandRun {
        if state is Recovery {
            CommandRun { state, performed: seq![], response: InternalResponseData::ComponentBusy }
        } else {
            match command {
                RequestData::FwVersionRequest => CommandRun {
                    state,
                    performed: seq![CfuActionView::GetActiveFwVersion],
                    response: InternalResponseData::FwVersionResponse(
                        fw_version_response(
                            match outcomes.version {
                                Ok(version) => version,
                                Err(_) => INVALID_FW_VERSION,
                            },
                            self.component_id,
                        ),
                    ),
                },
                RequestData::GiveOffer(offer) => CommandRun {
                    state,
                    performed: self.offer_performed(offer, outcomes),
                    response: self.offer_answer(offer, outcomes),
                },
                RequestData::GiveContent(content) => CommandRun {
                    state: self.content_state(state, content, outcomes),
                    performed: self.content_performed(content, outcomes),
                    response: self.content_answer(content, outcomes),
                },
                RequestData::AbortUpdate => CommandRun {
                    state: state_after_abort(outcomes.aborted),
                    performed: seq![CfuActionView::AbortFwUpdate],
                    response: InternalResponseData::ComponentPrepared,
                },
                RequestData::FinalizeUpdate | RequestData::PrepareComponentForUpdate => CommandRun {
                    state,
                    performed: seq![],
                    response: InternalResponseData::ComponentPrepared,
                },
                RequestData::GiveOfferExtended(_) | RequestData::GiveOfferInformation(_) => CommandRun {
                    state,
                    performed: seq![],
                    response: offer_rejection(),
                },
            }
        }
    }
}

/// A block from the write on.
proof fn lemma_run_from_write(
    wrapper: ControllerWrapper,
    state: FwUpdateState,
    content: FwUpdateContentCommand,
    outcomes: Outcomes,
)
    requires
        content.valid(),
    ensures
        ({
            let finalizes = outcomes.written && content.header.last_block();
            let run = wrapper.run_from(
                state,
                RequestData::GiveContent(content),
                outcomes,
                CfuStepView::Perform(write_block(content)),
            );
            &&& run.performed == if finalizes {
                seq![write_block(content), CfuActionView::FinalizeFwUpdate]
            } else {
                seq![write_block(content)]
            }
            &&& run.state == if !finalizes {
                state
            } else if outcomes.finalized {
                FwUpdateState::Idle
            } else {
                FwUpdateState::Recovery
            }
            &&& run.response == if finalizes && !outcomes.finalized {
                offer_rejection()
            } else {
                InternalResponseData::ContentResponse(
                    content_response(
                        content,
                        if outcomes.written {
                            CfuUpdateContentResponseStatus::Success
                        } else {
                            CfuUpdateContentResponseStatus::ErrorWrite
                        },
                    ),
                )
            }
        }),
{
    reveal_with_fuel(ControllerWrapper::run_from, 3);
}

/// The first block of an update from the detaching of a power device on, where
/// those before it have been detached.
proof fn lemma_run_from_detach(
    wrapper: ControllerWrapper,
    state: FwUpdateState,
    content: FwUpdateContentCommand,
    outcomes: Outcomes,
    index: int,
)
    requires
        content.valid(),
        content.header.first_block(),
        0 <= index <= wrapper.power_devices,
        outcomes.all_detached(index),
    ensures
        ({
            let all_detached = outcomes.all_detached(wrapper.power_devices as int);
            let command = RequestData::GiveContent(content);
            let step = if index < wrapper.power_devices {
                CfuActionView::DetachPower(index)
            } else {
                CfuActionView::ResetTicker
            };
            let run = wrapper.run_from(state, command, outcomes, CfuStepView::Perform(step));
            let attempts = wrapper.detach_attempts(outcomes, index);
            let write = CfuStepView::Perform(write_block(content));
            let rest = wrapper.run_from(FwUpdateState::InProgress(0), command, outcomes, write);
            let start = seq![CfuActionView::ResetTicker, CfuActionView::StartFwUpdate];
            let not_prepared = InternalResponseData::ContentResponse(
                content_response(content, CfuUpdateContentResponseStatus::ErrorPrepare),
            );
            run == if !all_detached {
                CommandRun { state, performed: attempts, response: not_prepared }
            } else if !outcomes.started {
                CommandRun {
                    state: FwUpdateState::Recovery,
                    performed: attempts + start,
                    response: not_prepared,
                }
            } else {
                CommandRun { performed: attempts + start + rest.performed, ..rest }
            }
        }),
    decreases wrapper.power_devices - index,
{
    if index == wrapper.power_devices {
        reveal_with_fuel(ControllerWrapper::run_from, 3);
    } else {
        if (outcomes.detached)(index) {
            lemma_run_from_detach(wrapper, state, content, outcomes, index + 1);
        }
        reveal_with_fuel(ControllerWrapper::run_from, 2);
    }
}

/// A command performs the operations that its description lists, in that
/// order, and has the response and leaves the state that it names, whatever
/// the operations come back with.
pub proof fn run_is_as_described(
    wrapper: ControllerWrapper,
    state: FwUpdateState,
    command: RequestData,
    outcomes: Outcomes,
)
    requires
        processable(state, command),
    ensures
        wrapper.command_run(state, command, outcomes) == wrapper.described_run(
            state,
            command,
            outcomes,
        ),
{
    match command {
        RequestData::GiveContent(content) => {
            if !(state is Recovery) {
                if content.header.first_block() {
                    lemma_run_from_detach(wrapper, state, content, outcomes, 0);
                    lemma_run_from_write(wrapper, FwUpdateState::InProgress(0), content, outcomes);
                } else {
                    lemma_run_from_write(wrapper, state, content, outcomes);
                }
            }
        },
        _ => {
            reveal_with_fuel(ControllerWrapper::run_from, 3);
        },
    }
}

} // verus!
