//! Commands, ticks and waiting.
use crate::action::{
    CfuAction, CfuActionView, CfuReply, CfuStep, CfuStepView, DeviceStep, DeviceStepView,
    OperationFailed,
};
use crate::component::{EventCfu, InternalResponseData, RequestData};
use crate::device::{
    fw_version_answer, offer_rejection, state_after_abort, ControllerDevice, Device,
};
use crate::protocol::{
    ComponentId, FwUpdateContentResponse, FwUpdateOfferResponse, GetFwVersionResponse,
};
use crate::state::{ControllerState, FwUpdateState};
use vstd::prelude::*;

verus! {

/// What to wait for.
#[derive(Debug, Clone, Copy, PartialEq, Eq, Structural)]
pub enum CfuWait {
    /// A request.
    Request,
    /// A request or a tick of the firmware update ticker, whichever is first.
    RequestOrTick,
    /// A tick of the firmware update ticker.
    Tick,
}

/// What is waited for in the given state: commands unless the controller is
/// in recovery, ticks unless it is idle.
pub open spec fn wait_for(state: FwUpdateState) -> CfuWait {
    match state {
        FwUpdateState::Idle => CfuWait::Request,
        FwUpdateState::InProgress(_) => CfuWait::RequestOrTick,
        FwUpdateState::Recovery => CfuWait::Tick,
    }
}

/// Whether the command can be processed in the given state: a block has to
/// have room for the bytes that it claims, unless it is turned away anyway.
pub open spec fn processable(state: FwUpdateState, command: RequestData) -> bool {
    command matches RequestData::GiveContent(content) ==> state is Recovery || content.valid()
}

/// Whether a tick in the given state is the time to abort the update.
pub open spec fn tick_aborts(state: FwUpdateState, timeout_ticks: u8) -> bool {
    match state {
        FwUpdateState::Idle => false,
        FwUpdateState::InProgress(ticks) => ticks + 1 >= timeout_ticks,
        FwUpdateState::Recovery => true,
    }
}

/// Where a tick leads before an abort, if there is one, has been tried.
pub open spec fn state_after_tick(state: FwUpdateState, timeout_ticks: u8) -> FwUpdateState {
    if tick_aborts(state, timeout_ticks) {
        FwUpdateState::Recovery
    } else {
        match state {
            FwUpdateState::InProgress(ticks) => FwUpdateState::InProgress((ticks + 1) as u8),
            _ => state,
        }
    }
}

/// Where the abort that a tick has tried leads.
pub open spec fn state_after_attempt(state: FwUpdateState, aborted: bool) -> FwUpdateState {
    if aborted {
        FwUpdateState::Idle
    } else {
        state
    }
}

/// The response that carries a version.
fn version_response(response: GetFwVersionResponse) -> (result: InternalResponseData)
    ensures
        result == InternalResponseData::FwVersionResponse(response),
{
    InternalResponseData::FwVersionResponse(response)
}

/// The response that carries the answer to an offer.
fn offer_response(response: FwUpdateOfferResponse) -> (result: InternalResponseData)
    ensures
        result == InternalResponseData::OfferResponse(response),
{
    InternalResponseData::OfferResponse(response)
}

/// The response that carries the answer to a block.
fn content_response(response: FwUpdateContentResponse) -> (result: InternalResponseData)
    ensures
        result == InternalResponseData::ContentResponse(response),
{
    InternalResponseData::ContentResponse(response)
}

/// The response to a request that was carried out and has nothing to tell.
fn component_prepared(_done: ()) -> (response: InternalResponseData)
    ensures
        response == InternalResponseData::ComponentPrepared,
{
    InternalResponseData::ComponentPrepared
}

/// The part of a Type-C controller that takes CFU commands.
#[derive(Debug, Clone, Copy, PartialEq, Eq, Structural)]
pub struct ControllerWrapper {
    /// The component ID of the controller.
    pub component_id: ComponentId,
    /// Number of power devices that the controller has.
    pub power_devices: usize,
    /// Number of ticks after which an update has timed out.
    pub timeout_ticks: u8,
}

impl ControllerWrapper {
    /// The device that commands go to.
    pub open spec fn device(self) -> ControllerDevice {
        ControllerDevice { component_id: self.component_id, power_devices: self.power_devices }
    }

    /// The first step about a command.
    pub open spec fn command_begun(self, state: FwUpdateState, command: RequestData) -> CfuStepView {
        if state is Recovery {
            CfuStepView::Respond(InternalResponseData::ComponentBusy)
        } else {
            match command {
                RequestData::FwVersionRequest => CfuStepView::Perform(
                    CfuActionView::GetActiveFwVersion,
                ),
                RequestData::GiveOffer(offer) => self.device().offer_begun(offer).command_step(
                    |response: FwUpdateOfferResponse|
                        InternalResponseData::OfferResponse(response),
                ),
                RequestData::GiveContent(content) => self.device().content_begun(
                    content,
                ).command_step(
                    |response: FwUpdateContentResponse|
                        InternalResponseData::ContentResponse(response),
                ),
                RequestData::AbortUpdate => CfuStepView::Perform(CfuActionView::AbortFwUpdate),
                RequestData::FinalizeUpdate => CfuStepView::Respond(
                    InternalResponseData::ComponentPrepared,
                ),
                RequestData::PrepareComponentForUpdate => CfuStepView::Respond(
                    InternalResponseData::ComponentPrepared,
                ),
                RequestData::GiveOfferExtended(_) => CfuStepView::Respond(offer_rejection()),
                RequestData::GiveOfferInformation(_) => CfuStepView::Respond(offer_rejection()),
            }
        }
    }

    /// Whether the operation is one that the command asks for.
    pub open spec fn asks(self, command: RequestData, action: CfuActionView) -> bool {
        match command {
            RequestData::FwVersionRequest => action is GetActiveFwVersion,
            RequestData::GiveOffer(offer) => self.device().offer_asks(offer, action),
            RequestData::GiveContent(content) => self.device().content_asks(content, action),
            RequestData::AbortUpdate => action is AbortFwUpdate,
            _ => false,
        }
    }

    /// The state and the step about a command that follow on the reply to an
    /// operation.
    pub open spec fn command_resumed(
        self,
        state: FwUpdateState,
        command: RequestData,
        action: CfuActionView,
        reply: CfuReply,
    ) -> (FwUpdateState, CfuStepView) {
        match command {
            RequestData::GiveOffer(offer) => (
                state,
                self.device().offer_resumed(offer, reply).command_step(
                    |response: FwUpdateOfferResponse|
                        InternalResponseData::OfferResponse(response),
                ),
            ),
            RequestData::GiveContent(content) => {
                let (state, step) = self.device().content_resumed(
                    state,
                    content,
                    action,
                    reply.success(),
                );
                (
                    state,
                    step.command_step(
                        |response: FwUpdateContentResponse|
                            InternalResponseData::ContentResponse(response),
                    ),
                )
            },
            RequestData::AbortUpdate => (
                state_after_abort(reply.success()),
                CfuStepView::Respond(InternalResponseData::ComponentPrepared),
            ),
            _ => (
                state,
                DeviceStepView::Return(
                    fw_version_answer(reply.version(), self.component_id),
                ).command_step(
                    |response: GetFwVersionResponse|
                        InternalResponseData::FwVersionResponse(response),
                ),
            ),
        }
    }

    /// Can the command be processed in this state?
    pub fn can_process(state: &ControllerState, command: &RequestData) -> (result: bool)
        ensures
            result == processable(state.fw_update_state, *command),
            result <==> match *command {
                RequestData::GiveContent(content) => {
                    state.fw_update_state is Recovery || content.header.data_length <= 52
                },
                _ => true,
            },
    {
        match command {
            RequestData::GiveContent(content) => {
                matches!(state.fw_update_state, FwUpdateState::Recovery) || content.is_valid()
            },
            _ => true,
        }
    }

    /// The device that commands go to.
    fn cfu_device(&self) -> (device: ControllerDevice)
        ensures
            device == self.device(),
    {
        ControllerDevice { component_id: self.component_id, power_devices: self.power_devices }
    }

    /// Process a CFU command: its first step.
    pub fn process_cfu_command<'a>(
        &self,
        state: &ControllerState,
        command: &'a RequestData,
    ) -> (step: CfuStep<'a>)
        requires
            processable(state.fw_update_state, *command),
        ensures
            step@ == self.command_begun(state.fw_update_state, *command),
            step@ matches CfuStepView::Perform(action) ==> self.asks(*command, action),
    {
        if matches!(state.fw_update_state, FwUpdateState::Recovery) {
            return CfuStep::Respond(InternalResponseData::ComponentBusy);
        }
        let device = self.cfu_device();
        match command {
            RequestData::FwVersionRequest => device.get_fw_version().into_command_step(
                version_response,
            ),
            RequestData::GiveOffer(offer) => device.handle_offer(offer).into_command_step(
                offer_response,
            ),
            RequestData::GiveContent(content) => device.handle_content(content).into_command_step(
                content_response,
            ),
            RequestData::AbortUpdate => device.abort_update().into_command_step(
                component_prepared,
            ),
            RequestData::FinalizeUpdate => device.finalize_update().into_command_step(
                component_prepared,
            ),
            RequestData::PrepareComponentForUpdate => device.prepare_for_update().into_command_step(
                component_prepared,
            ),
            RequestData::GiveOfferExtended(offer) => device.handle_extended_offer(
                offer,
            ).into_command_step(offer_response),
            RequestData::GiveOfferInformation(offer_info) => device.handle_offer_information(
                offer_info,
            ).into_command_step(offer_response),
        }
    }

    /// Process a CFU command: the step that follows on an operation.
    pub fn resume_cfu_command<'a>(
        &self,
        state: &mut ControllerState,
        command: &'a RequestData,
        action: CfuAction<'a>,
        reply: CfuReply,
    ) -> (step: CfuStep<'a>)
        requires
            self.asks(*command, action@),
            action@.answered_by(reply),
        ensures
            (final(state).fw_update_state, step@) == self.command_resumed(
                old(state).fw_update_state,
                *command,
                action@,
                reply,
            ),
            step@ matches CfuStepView::Perform(next) ==> self.asks(*command, next),
    {
        let device = self.cfu_device();
        match command {
            RequestData::GiveOffer(offer) => device.resume_handle_offer(
                offer,
                action,
                reply,
            ).into_command_step(offer_response),
            RequestData::GiveContent(content) => device.resume_handle_content(
                state,
                content,
                action,
                reply,
            ).into_command_step(content_response),
            RequestData::AbortUpdate => DeviceStep::Return(
                device.resume_abort_update(state, reply.into_outcome()),
            ).into_command_step(component_prepared),
            _ => DeviceStep::Return(
                device.resume_get_fw_version(reply.into_version()),
            ).into_command_step(version_response),
        }
    }

    /// Process a CFU tick. Tells whether the controller has to abort the
    /// update now, in which case [`Self::resume_cfu_tick`] takes the outcome.
    pub fn process_cfu_tick(&self, state: &mut ControllerState) -> (abort: bool)
        requires
            old(state).fw_update_state.countable(),
        ensures
            abort == tick_aborts(old(state).fw_update_state, self.timeout_ticks),
            final(state).fw_update_state == state_after_tick(
                old(state).fw_update_state,
                self.timeout_ticks,
            ),
            abort <==> final(state).fw_update_state is Recovery,
            match old(state).fw_update_state {
                FwUpdateState::Idle => final(state).fw_update_state is Idle,
                FwUpdateState::InProgress(ticks) => {
                    &&& abort <==> ticks + 1 >= self.timeout_ticks
                    &&& !abort ==> {
                        &&& final(state).fw_update_state is InProgress
                        &&& final(state).fw_update_state->InProgress_0 == ticks + 1
                    }
                },
                FwUpdateState::Recovery => abort,
            },
    {
        match state.fw_update_state {
            FwUpdateState::Idle => {
                // No FW update in progress, nothing to do
                return false;
            },
            FwUpdateState::InProgress(ticks) => {
                if ticks + 1 < self.timeout_ticks {
                    state.fw_update_state = FwUpdateState::InProgress(ticks + 1);
                    return false;
                }
            },
            FwUpdateState::Recovery => {
                // Continue recovery process
            },
        }

        // Update timed out, attempt to exit the FW update
        state.fw_update_state = FwUpdateState::Recovery;
        true
    }

    /// Process a CFU tick once the controller has tried to abort the update.
    pub fn resume_cfu_tick(&self, state: &mut ControllerState, aborted: Result<(), OperationFailed>)
        ensures
            final(state).fw_update_state == state_after_attempt(
                old(state).fw_update_state,
                aborted is Ok,
            ),
            aborted is Ok ==> final(state).fw_update_state is Idle,
            aborted is Err ==> *final(state) == *old(state),
    {
        if aborted.is_ok() {
            state.fw_update_state = FwUpdateState::Idle;
        }
    }

    /// Wait for a CFU command: what to wait for.
    pub fn wait_cfu_command(&self, state: &ControllerState) -> (wait: CfuWait)
        ensures
            wait == wait_for(state.fw_update_state),
            wait is Request <==> state.fw_update_state is Idle,
            wait is RequestOrTick <==> state.fw_update_state is InProgress,
            wait is Tick <==> state.fw_update_state is Recovery,
    {
        match state.fw_update_state {
            // No FW update in progress, just wait for a command
            FwUpdateState::Idle => CfuWait::Request,
            FwUpdateState::InProgress(_) => CfuWait::RequestOrTick,
            // Recovery state, wait for the next attempt to recover the device
            FwUpdateState::Recovery => CfuWait::Tick,
        }
    }

    /// Wait for a CFU command: the event that the wait ended with. There is
    /// no request if the firmware update ticker has ticked.
    pub fn cfu_event(request: Option<RequestData>) -> (event: EventCfu)
        ensures
            event == (match request {
                Some(command) => EventCfu::Request(command),
                None => EventCfu::RecoveryTick,
            }),
    {
        match request {
            Some(command) => EventCfu::Request(command),
            None => EventCfu::RecoveryTick,
        }
    }
}

} // verus!
