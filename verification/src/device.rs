//! How each kind of request is answered.
use crate::action::{
    write_block, CfuAction, CfuActionView, CfuReply, DeviceStep, DeviceStepView, OperationFailed,
};
use crate::component::InternalResponseData;
use crate::protocol::{
    CfuUpdateContentResponseStatus, ComponentId, FwUpdateContentCommand, FwUpdateContentResponse,
    FwUpdateOffer, FwUpdateOfferExtended, FwUpdateOfferInformation, FwUpdateOfferResponse,
    FwVerComponentInfo, FwVersion, GetFwVerRespHeaderByte3, GetFwVersionResponse,
    GetFwVersionResponseHeader, HostToken, OfferRejectReason, OfferStatus, MAX_CMPT_COUNT,
};
use crate::state::{ControllerState, FwUpdateState};
use vstd::prelude::*;

verus! {

/// A CFU device that can receive offers, apply updates, and provide version
/// information.
///
/// A method that is named after a request gives the first step that the device
/// takes about it. Where that step performs an operation, the `resume_` method
/// of the request takes the reply and gives what follows.
pub trait Device {
    /// Whether the operation is one that the offer asks for.
    spec fn offer_asks(&self, offer: FwUpdateOffer, action: CfuActionView) -> bool;

    /// Whether the operation is one that the block asks for.
    spec fn content_asks(&self, content: FwUpdateContentCommand, action: CfuActionView) -> bool;

    /// The component ID of the device.
    fn component_id(&self) -> ComponentId;

    /// Tell the version of the firmware.
    fn get_fw_version(&self) -> DeviceStep<'static, GetFwVersionResponse>;

    /// Go on with [`Self::get_fw_version`] once the version has been read.
    fn resume_get_fw_version(&self, version: Result<u32, OperationFailed>) -> Result<
        GetFwVersionResponse,
        InternalResponseData,
    >;

    /// Judge an offer.
    fn handle_offer<'a>(&self, offer: &'a FwUpdateOffer) -> (step: DeviceStep<
        'a,
        FwUpdateOfferResponse,
    >)
        ensures
            step@ matches DeviceStepView::Perform(action) ==> self.offer_asks(*offer, action),
    ;

    /// Go on with [`Self::handle_offer`] once an operation has a reply.
    fn resume_handle_offer<'a>(
        &self,
        offer: &'a FwUpdateOffer,
        action: CfuAction<'a>,
        reply: CfuReply,
    ) -> (step: DeviceStep<'a, FwUpdateOfferResponse>)
        requires
            self.offer_asks(*offer, action@),
            action@.answered_by(reply),
        ensures
            step@ matches DeviceStepView::Perform(next) ==> self.offer_asks(*offer, next),
    ;

    /// Take a block of an image.
    fn handle_content<'a>(&self, content: &'a FwUpdateContentCommand) -> (step: DeviceStep<
        'a,
        FwUpdateContentResponse,
    >)
        requires
            content.valid(),
        ensures
            step@ matches DeviceStepView::Perform(action) ==> self.content_asks(*content, action),
    ;

    /// Go on with [`Self::handle_content`] once an operation has a reply.
    fn resume_handle_content<'a>(
        &self,
        state: &mut ControllerState,
        content: &'a FwUpdateContentCommand,
        action: CfuAction<'a>,
        reply: CfuReply,
    ) -> (step: DeviceStep<'a, FwUpdateContentResponse>)
        requires
            self.content_asks(*content, action@),
            action@.answered_by(reply),
        ensures
            step@ matches DeviceStepView::Perform(next) ==> self.content_asks(*content, next),
    ;

    /// Give up an update.
    fn abort_update(&self) -> DeviceStep<'static, ()>;

    /// Go on with [`Self::abort_update`] once the abort has been tried.
    fn resume_abort_update(
        &self,
        state: &mut ControllerState,
        aborted: Result<(), OperationFailed>,
    ) -> Result<(), InternalResponseData>;

    /// Finish an update.
    fn finalize_update(&self) -> DeviceStep<'static, ()>;

    /// Get ready for an update.
    fn prepare_for_update(&self) -> DeviceStep<'static, ()>;

    /// Judge an extended offer.
    fn handle_extended_offer(&self, offer: &FwUpdateOfferExtended) -> DeviceStep<
        'static,
        FwUpdateOfferResponse,
    >;

    /// Take information about offers.
    fn handle_offer_information(&self, info: &FwUpdateOfferInformation) -> DeviceStep<
        'static,
        FwUpdateOfferResponse,
    >;
}

/// A controller as a CFU device.
#[derive(Debug, Clone, Copy, PartialEq, Eq, Structural)]
pub struct ControllerDevice {
    /// The component ID of the device.
    pub component_id: ComponentId,
    /// Number of power devices that the controller has.
    pub power_devices: usize,
}

/// The version response of a component that runs the given version: one entry
/// to be read, which fills the room of all entries.
pub open spec fn fw_version_response(version: u32, component_id: ComponentId) -> GetFwVersionResponse {
    GetFwVersionResponse {
        header: GetFwVersionResponseHeader {
            component_count: 1,
            byte3: GetFwVerRespHeaderByte3::NoSpecialFlags,
        },
        component_info: [
            FwVerComponentInfo { fw_version: FwVersion { version }, component_id };
            MAX_CMPT_COUNT
        ],
    }
}

/// The version that stands for a version that could not be read.
pub const INVALID_FW_VERSION: u32 = 0xffffffff;

/// Every entry of a filled array is the value that it was filled with.
proof fn lemma_filled<T: Copy>(value: T)
    ensures
        ({
            let filled: [T; MAX_CMPT_COUNT] = [value; MAX_CMPT_COUNT];
            forall|i: int| 0 <= i < MAX_CMPT_COUNT ==> #[trigger] filled@[i] == value
        }),
{
}

/// Every entry of a version response holds the version and the component ID.
proof fn lemma_version_entries(version: u32, id: ComponentId)
    ensures
        forall|i: int|
            0 <= i < 7 ==> (#[trigger] fw_version_response(
                version,
                id,
            ).component_info@[i]).fw_version.version == version,
        forall|i: int|
            0 <= i < 7 ==> (#[trigger] fw_version_response(
                version,
                id,
            ).component_info@[i]).component_id == id,
{
    lemma_filled(FwVerComponentInfo { fw_version: FwVersion { version }, component_id: id });
}

/// The response that rejects an offer because it is not for this component.
pub open spec fn offer_rejection() -> InternalResponseData {
    InternalResponseData::OfferResponse(
        FwUpdateOfferResponse {
            token: HostToken::Driver,
            reject_reason: OfferRejectReason::InvalidComponent,
            status: OfferStatus::Reject,
        },
    )
}

/// The response to a content command.
pub open spec fn content_response(
    content: FwUpdateContentCommand,
    status: CfuUpdateContentResponseStatus,
) -> FwUpdateContentResponse {
    FwUpdateContentResponse { sequence: content.header.sequence_num, status }
}

/// What a component that runs the given version answers, and what it answers
/// if the version could not be read.
pub open spec fn fw_version_answer(
    version: Result<u32, OperationFailed>,
    component_id: ComponentId,
) -> Result<GetFwVersionResponse, InternalResponseData> {
    match version {
        Ok(version) => Ok(fw_version_response(version, component_id)),
        Err(_) => Err(
            InternalResponseData::FwVersionResponse(
                fw_version_response(INVALID_FW_VERSION, component_id),
            ),
        ),
    }
}

/// Where an attempt to abort an update leads.
pub open spec fn state_after_abort(aborted: bool) -> FwUpdateState {
    if aborted {
        FwUpdateState::Idle
    } else {
        FwUpdateState::Recovery
    }
}

impl ControllerDevice {
    /// The first step about an offer: an offer for another component is
    /// rejected at once.
    pub open spec fn offer_begun(self, offer: FwUpdateOffer) -> DeviceStepView<FwUpdateOfferResponse> {
        if offer.component_info.component_id == self.component_id {
            DeviceStepView::Perform(CfuActionView::GetActiveFwVersion)
        } else {
            DeviceStepView::Return(Err(offer_rejection()))
        }
    }

    /// The step about an offer that follows on the reply to an operation: the
    /// validator has the word once the version is known.
    pub open spec fn offer_resumed(
        self,
        offer: FwUpdateOffer,
        reply: CfuReply,
    ) -> DeviceStepView<FwUpdateOfferResponse> {
        match reply {
            CfuReply::FwVersion(Ok(version)) => DeviceStepView::Perform(
                CfuActionView::ValidateOffer { current: FwVersion { version }, offer },
            ),
            CfuReply::OfferResponse(response) => DeviceStepView::Return(Ok(response)),
            _ => DeviceStepView::Return(Err(offer_rejection())),
        }
    }

    /// The step that detaches the power devices from the given one on, and
    /// then goes on to start the update.
    pub open spec fn detach_from(self, index: int) -> DeviceStepView<FwUpdateContentResponse> {
        if index < self.power_devices {
            DeviceStepView::Perform(CfuActionView::DetachPower(index))
        } else {
            DeviceStepView::Perform(CfuActionView::ResetTicker)
        }
    }

    /// The first step about a block: the first block of an update has the
    /// power devices detached, any other block is written at once.
    pub open spec fn content_begun(
        self,
        content: FwUpdateContentCommand,
    ) -> DeviceStepView<FwUpdateContentResponse> {
        if content.header.first_block() {
            self.detach_from(0)
        } else {
            DeviceStepView::Perform(write_block(content))
        }
    }

    /// The state and the step about a block that follow on an operation which
    /// succeeded or not.
    pub open spec fn content_resumed(
        self,
        state: FwUpdateState,
        content: FwUpdateContentCommand,
        action: CfuActionView,
        success: bool,
    ) -> (FwUpdateState, DeviceStepView<FwUpdateContentResponse>) {
        let succeeded = DeviceStepView::Return(
            Ok(content_response(content, CfuUpdateContentResponseStatus::Success)),
        );
        let not_prepared = DeviceStepView::Return(
            Err(
                InternalResponseData::ContentResponse(
                    content_response(content, CfuUpdateContentResponseStatus::ErrorPrepare),
                ),
            ),
        );
        let not_written = DeviceStepView::Return(
            Err(
                InternalResponseData::ContentResponse(
                    content_response(content, CfuUpdateContentResponseStatus::ErrorWrite),
                ),
            ),
        );
        match action {
            CfuActionView::DetachPower(index) => if success {
                (state, self.detach_from(index + 1))
            } else {
                (state, not_prepared)
            },
            CfuActionView::ResetTicker => (
                state,
                DeviceStepView::Perform(CfuActionView::StartFwUpdate),
            ),
            CfuActionView::StartFwUpdate => if success {
                (FwUpdateState::InProgress(0), DeviceStepView::Perform(write_block(content)))
            } else {
                (FwUpdateState::Recovery, not_prepared)
            },
            CfuActionView::WriteFwContents { .. } => if !success {
                (state, not_written)
            } else if content.header.last_block() {
                (state, DeviceStepView::Perform(CfuActionView::FinalizeFwUpdate))
            } else {
                (state, succeeded)
            },
            _ => if success {
                (FwUpdateState::Idle, succeeded)
            } else {
                (FwUpdateState::Recovery, DeviceStepView::Return(Err(offer_rejection())))
            },
        }
    }

    /// Create a new invalid FW version response.
    pub fn create_invalid_fw_version_response(&self) -> (response: InternalResponseData)
        ensures
            response == InternalResponseData::FwVersionResponse(
                fw_version_response(INVALID_FW_VERSION, self.component_id),
            ),
            response matches InternalResponseData::FwVersionResponse(told) && {
                &&& told.header.component_count == 1
                &&& told.component_info@.len() == 7
                &&& forall|i: int|
                    0 <= i < 7 ==> {
                        &&& (#[trigger] told.component_info@[i]).fw_version.version == 0xffffffff
                        &&& told.component_info@[i].component_id == self.component_id
                    }
            },
    {
        InternalResponseData::FwVersionResponse(self.create_fw_version_response(INVALID_FW_VERSION))
    }

    /// Create the version response for a version.
    pub fn create_fw_version_response(&self, version: u32) -> (response: GetFwVersionResponse)
        ensures
            response == fw_version_response(version, self.component_id),
            response.header.component_count == 1,
            response.component_info@.len() == 7,
            forall|i: int|
                0 <= i < 7 ==> {
                    &&& (#[trigger] response.component_info@[i]).fw_version.version == version
                    &&& response.component_info@[i].component_id == self.component_id
                },
    {
        let dev_inf = FwVerComponentInfo::new(FwVersion::new(version), self.component_id());
        let comp_info: [FwVerComponentInfo; MAX_CMPT_COUNT] = [dev_inf; MAX_CMPT_COUNT];
        proof {
            lemma_version_entries(version, self.component_id);
        }
        GetFwVersionResponse {
            header: GetFwVersionResponseHeader::new(1, GetFwVerRespHeaderByte3::NoSpecialFlags),
            component_info: comp_info,
        }
    }

    /// Create the response that rejects an offer.
    pub fn create_offer_rejection() -> (response: InternalResponseData)
        ensures
            response == offer_rejection(),
            response matches InternalResponseData::OfferResponse(told) && {
                &&& told.token is Driver
                &&& told.reject_reason is InvalidComponent
                &&& told.status is Reject
            },
    {
        InternalResponseData::OfferResponse(
            FwUpdateOfferResponse::new_with_failure(
                HostToken::Driver,
                OfferRejectReason::InvalidComponent,
                OfferStatus::Reject,
            ),
        )
    }

    /// Create the response to a block that was not taken.
    fn create_content_error(
        content: &FwUpdateContentCommand,
        status: CfuUpdateContentResponseStatus,
    ) -> (response: InternalResponseData)
        ensures
            response == InternalResponseData::ContentResponse(content_response(*content, status)),
    {
        InternalResponseData::ContentResponse(
            FwUpdateContentResponse::new(content.header.sequence_num, status),
        )
    }

    /// Detach the power devices from the given one on, so that the power
    /// policy doesn't attempt to do anything during the update. After the last
    /// one, go on to start the update.
    fn detach_power_from<'a>(&self, index: usize) -> (step: DeviceStep<'a, FwUpdateContentResponse>)
        ensures
            step@ == self.detach_from(index as int),
    {
        if index < self.power_devices {
            DeviceStep::Perform(CfuAction::DetachPower(index))
        } else {
            DeviceStep::Perform(CfuAction::ResetTicker)
        }
    }

    /// Write a block.
    fn write_content<'a>(content: &'a FwUpdateContentCommand) -> (step: DeviceStep<
        'a,
        FwUpdateContentResponse,
    >)
        requires
            content.valid(),
        ensures
            step@ == DeviceStepView::<FwUpdateContentResponse>::Perform(write_block(*content)),
    {
        DeviceStep::Perform(
            CfuAction::WriteFwContents {
                address: content.header.firmware_address as usize,
                data: content.block_data(),
            },
        )
    }

    /// Be done with a block.
    fn succeed_content<'a>(content: &FwUpdateContentCommand) -> (step: DeviceStep<
        'a,
        FwUpdateContentResponse,
    >)
        ensures
            step@ == DeviceStepView::Return(
                Ok(content_response(*content, CfuUpdateContentResponseStatus::Success)),
            ),
    {
        DeviceStep::Return(
            Ok(
                FwUpdateContentResponse::new(
                    content.header.sequence_num,
                    CfuUpdateContentResponseStatus::Success,
                ),
            ),
        )
    }
}

impl Device for ControllerDevice {
    open spec fn offer_asks(&self, offer: FwUpdateOffer, action: CfuActionView) -> bool {
        &&& offer.component_info.component_id == self.component_id
        &&& match action {
            CfuActionView::GetActiveFwVersion => true,
            CfuActionView::ValidateOffer { offer: validated, .. } => validated == offer,
            _ => false,
        }
    }

    open spec fn content_asks(&self, content: FwUpdateContentCommand, action: CfuActionView) -> bool {
        &&& content.valid()
        &&& match action {
            CfuActionView::DetachPower(index) => {
                &&& content.header.first_block()
                &&& 0 <= index < self.power_devices
            },
            CfuActionView::ResetTicker => content.header.first_block(),
            CfuActionView::StartFwUpdate => content.header.first_block(),
            CfuActionView::WriteFwContents { .. } => action == write_block(content),
            CfuActionView::FinalizeFwUpdate => content.header.last_block(),
            _ => false,
        }
    }

    fn component_id(&self) -> (result: ComponentId)
        ensures
            result == self.component_id,
    {
        self.component_id
    }

    fn get_fw_version(&self) -> (step: DeviceStep<'static, GetFwVersionResponse>)
        ensures
            step@ == DeviceStepView::<GetFwVersionResponse>::Perform(
                CfuActionView::GetActiveFwVersion,
            ),
    {
        DeviceStep::Perform(CfuAction::GetActiveFwVersion)
    }

    fn resume_get_fw_version(&self, version: Result<u32, OperationFailed>) -> (result: Result<
        GetFwVersionResponse,
        InternalResponseData,
    >)
        ensures
            result == fw_version_answer(version, self.component_id),
            result is Ok <==> version is Ok,
            result matches Ok(told) ==> {
                &&& told.header.component_count == 1
                &&& forall|i: int|
                    0 <= i < 7 ==> {
                        &&& (#[trigger] told.component_info@[i]).fw_version.version == version->Ok_0
                        &&& told.component_info@[i].component_id == self.component_id
                    }
            },
            result matches Err(response) ==> {
                &&& response is FwVersionResponse
                &&& response->FwVersionResponse_0.header.component_count == 1
                &&& forall|i: int|
                    #![trigger response->FwVersionResponse_0.component_info@[i]]
                    0 <= i < 7 ==> response->FwVersionResponse_0.component_info@[i]
                        == (FwVerComponentInfo {
                        fw_version: FwVersion { version: 0xffffffff },
                        component_id: self.component_id,
                    })
            },
    {
        match version {
            Ok(version) => Ok(self.create_fw_version_response(version)),
            Err(_) => Err(self.create_invalid_fw_version_response()),
        }
    }

    fn handle_offer<'a>(&self, offer: &'a FwUpdateOffer) -> (step: DeviceStep<
        'a,
        FwUpdateOfferResponse,
    >)
        ensures
            step@ == self.offer_begun(*offer),
    {
        if offer.component_info.component_id != self.component_id() {
            return DeviceStep::Return(Err(Self::create_offer_rejection()));
        }
        DeviceStep::Perform(CfuAction::GetActiveFwVersion)
    }

    fn resume_handle_offer<'a>(
        &self,
        offer: &'a FwUpdateOffer,
        action: CfuAction<'a>,
        reply: CfuReply,
    ) -> (step: DeviceStep<'a, FwUpdateOfferResponse>)
        ensures
            step@ == self.offer_resumed(*offer, reply),
    {
        match reply {
            CfuReply::FwVersion(Ok(version)) => DeviceStep::Perform(
                CfuAction::ValidateOffer { current: FwVersion::new(version), offer },
            ),
            CfuReply::OfferResponse(response) => DeviceStep::Return(Ok(response)),
            _ => DeviceStep::Return(Err(Self::create_offer_rejection())),
        }
    }

    fn handle_content<'a>(&self, content: &'a FwUpdateContentCommand) -> (step: DeviceStep<
        'a,
        FwUpdateContentResponse,
    >)
        ensures
            step@ == self.content_begun(*content),
    {
        if content.header.is_first_block() {
            self.detach_power_from(0)
        } else {
            Self::write_content(content)
        }
    }

    fn resume_handle_content<'a>(
        &self,
        state: &mut ControllerState,
        content: &'a FwUpdateContentCommand,
        action: CfuAction<'a>,
        reply: CfuReply,
    ) -> (step: DeviceStep<'a, FwUpdateContentResponse>)
        ensures
            (final(state).fw_update_state, step@) == self.content_resumed(
                old(state).fw_update_state,
                *content,
                action@,
                reply.success(),
            ),
    {
        let success = matches!(reply, CfuReply::Done(Ok(())));
        match action {
            CfuAction::DetachPower(index) => {
                if success {
                    self.detach_power_from(index + 1)
                } else {
                    DeviceStep::Return(
                        Err(
                            Self::create_content_error(
                                content,
                                CfuUpdateContentResponseStatus::ErrorPrepare,
                            ),
                        ),
                    )
                }
            },
            CfuAction::ResetTicker => DeviceStep::Perform(CfuAction::StartFwUpdate),
            CfuAction::StartFwUpdate => {
                if success {
                    state.fw_update_state = FwUpdateState::InProgress(0);
                    Self::write_content(content)
                } else {
                    state.fw_update_state = FwUpdateState::Recovery;
                    DeviceStep::Return(
                        Err(
                            Self::create_content_error(
                                content,
                                CfuUpdateContentResponseStatus::ErrorPrepare,
                            ),
                        ),
                    )
                }
            },
            CfuAction::WriteFwContents { .. } => {
                if !success {
                    DeviceStep::Return(
                        Err(
                            Self::create_content_error(
                                content,
                                CfuUpdateContentResponseStatus::ErrorWrite,
                            ),
                        ),
                    )
                } else if content.header.is_last_block() {
                    DeviceStep::Perform(CfuAction::FinalizeFwUpdate)
                } else {
                    Self::succeed_content(content)
                }
            },
            _ => {
                if success {
                    state.fw_update_state = FwUpdateState::Idle;
                    Self::succeed_content(content)
                } else {
                    state.fw_update_state = FwUpdateState::Recovery;
                    DeviceStep::Return(Err(Self::create_offer_rejection()))
                }
            },
        }
    }

    fn abort_update(&self) -> (step: DeviceStep<'static, ()>)
        ensures
            step@ == DeviceStepView::<()>::Perform(CfuActionView::AbortFwUpdate),
    {
        DeviceStep::Perform(CfuAction::AbortFwUpdate)
    }

    fn resume_abort_update(
        &self,
        state: &mut ControllerState,
        aborted: Result<(), OperationFailed>,
    ) -> (result: Result<(), InternalResponseData>)
        ensures
            final(state).fw_update_state == state_after_abort(aborted is Ok),
            final(state).fw_update_state is Idle <==> aborted is Ok,
            final(state).fw_update_state is Recovery <==> aborted is Err,
            result == (match aborted {
                Ok(_) => Ok(()),
                Err(_) => Err(InternalResponseData::ComponentPrepared),
            }),
    {
        match aborted {
            Ok(()) => {
                state.fw_update_state = FwUpdateState::Idle;
                Ok(())
            },
            Err(_) => {
                state.fw_update_state = FwUpdateState::Recovery;
                Err(InternalResponseData::ComponentPrepared)
            },
        }
    }

    // The update is finalized when the last content block comes, so there is nothing left to do.
    fn finalize_update(&self) -> (step: DeviceStep<'static, ()>)
        ensures
            step@ == DeviceStepView::<()>::Return(Ok(())),
    {
        DeviceStep::Return(Ok(()))
    }

    // The update is prepared when the first content block comes, so there is nothing to do yet.
    fn prepare_for_update(&self) -> (step: DeviceStep<'static, ()>)
        ensures
            step@ == DeviceStepView::<()>::Return(Ok(())),
    {
        DeviceStep::Return(Ok(()))
    }

    fn handle_extended_offer(&self, offer: &FwUpdateOfferExtended) -> (step: DeviceStep<
        'static,
        FwUpdateOfferResponse,
    >)
        ensures
            step@ == DeviceStepView::<FwUpdateOfferResponse>::Return(Err(offer_rejection())),
    {
        DeviceStep::Return(Err(Self::create_offer_rejection()))
    }

    fn handle_offer_information(&self, info: &FwUpdateOfferInformation) -> (step: DeviceStep<
        'static,
        FwUpdateOfferResponse,
    >)
        ensures
            step@ == DeviceStepView::<FwUpdateOfferResponse>::Return(Err(offer_rejection())),
    {
        DeviceStep::Return(Err(Self::create_offer_rejection()))
    }
}

} // verus!
