use type_c_service::action::{CfuAction, CfuReply, CfuStep, DeviceStep, OperationFailed};
use type_c_service::component::{EventCfu, InternalResponseData, RequestData};
use type_c_service::device::{ControllerDevice, Device, INVALID_FW_VERSION};
use type_c_service::protocol::{
    CfuUpdateContentResponseStatus, FwUpdateContentCommand, FwUpdateContentHeader,
    FwUpdateContentResponse, FwUpdateOffer, FwUpdateOfferExtended, FwUpdateOfferInformation,
    FwUpdateOfferResponse, FwVerComponentInfo, FwVersion, GetFwVerRespHeaderByte3,
    GetFwVersionResponse, GetFwVersionResponseHeader, HostToken, OfferRejectReason, OfferStatus,
    UpdateOfferComponentInfo, DEFAULT_DATA_LENGTH, FW_UPDATE_FLAG_FIRST_BLOCK,
    FW_UPDATE_FLAG_LAST_BLOCK, MAX_CMPT_COUNT, OFFER_PACKET_LENGTH,
};
use type_c_service::result_ext::ResultExt;
use type_c_service::state::{ControllerState, FwUpdateState};
use type_c_service::wrapper::{CfuWait, ControllerWrapper};

const COMPONENT_ID: u8 = 0x21;
const FIRST: u8 = FW_UPDATE_FLAG_FIRST_BLOCK;
const LAST: u8 = FW_UPDATE_FLAG_LAST_BLOCK;

/// What the hardware does when it is asked.
struct Hardware {
    version: Result<u32, OperationFailed>,
    offer_response: FwUpdateOfferResponse,
    failing_power_device: Option<usize>,
    started: bool,
    written: bool,
    finalized: bool,
    aborted: bool,
}

/// What the hardware was asked.
#[derive(Debug, PartialEq)]
enum Asked {
    Version,
    Validate(FwVersion, FwUpdateOffer),
    Detach(usize),
    ResetTicker,
    Start,
    Write(usize, Vec<u8>),
    Finalize,
    Abort,
}

fn outcome(success: bool) -> Result<(), OperationFailed> {
    if success {
        Ok(())
    } else {
        Err(OperationFailed)
    }
}

fn hardware() -> Hardware {
    Hardware {
        version: Ok(0x0102_0304),
        offer_response: FwUpdateOfferResponse {
            token: HostToken::Other(7),
            reject_reason: OfferRejectReason::OldFw,
            status: OfferStatus::Accept,
        },
        failing_power_device: None,
        started: true,
        written: true,
        finalized: true,
        aborted: true,
    }
}

fn wrapper(power_devices: usize) -> ControllerWrapper {
    ControllerWrapper { component_id: COMPONENT_ID, power_devices, timeout_ticks: 4 }
}

fn in_state(fw_update_state: FwUpdateState) -> ControllerState {
    ControllerState { fw_update_state }
}

/// Processes a command to its response.
fn process(
    wrapper: &ControllerWrapper,
    state: &mut ControllerState,
    command: &RequestData,
    hardware: &Hardware,
) -> (Vec<Asked>, InternalResponseData) {
    let mut asked = vec![];
    let mut step = wrapper.process_cfu_command(state, command);
    loop {
        let action = match step {
            CfuStep::Respond(response) => return (asked, response),
            CfuStep::Perform(action) => action,
        };
        let (ask, reply) = match action {
            CfuAction::GetActiveFwVersion => (Asked::Version, CfuReply::FwVersion(hardware.version)),
            CfuAction::ValidateOffer { current, offer } => (
                Asked::Validate(current, *offer),
                CfuReply::OfferResponse(hardware.offer_response),
            ),
            CfuAction::DetachPower(index) => (
                Asked::Detach(index),
                CfuReply::Done(outcome(hardware.failing_power_device != Some(index))),
            ),
            CfuAction::ResetTicker => (Asked::ResetTicker, CfuReply::Done(Ok(()))),
            CfuAction::StartFwUpdate => (Asked::Start, CfuReply::Done(outcome(hardware.started))),
            CfuAction::WriteFwContents { address, data } => (
                Asked::Write(address, data.to_vec()),
                CfuReply::Done(outcome(hardware.written)),
            ),
            CfuAction::FinalizeFwUpdate => {
                (Asked::Finalize, CfuReply::Done(outcome(hardware.finalized)))
            }
            CfuAction::AbortFwUpdate => (Asked::Abort, CfuReply::Done(outcome(hardware.aborted))),
        };
        assert!(action.is_answered_by(&reply));
        asked.push(ask);
        step = wrapper.resume_cfu_command(state, command, action, reply);
    }
}

fn block(flags: u8, sequence_num: u16, firmware_address: u32, data: &[u8]) -> FwUpdateContentCommand {
    let mut room = [0xee; DEFAULT_DATA_LENGTH];
    room[..data.len()].copy_from_slice(data);
    FwUpdateContentCommand {
        header: FwUpdateContentHeader {
            flags,
            data_length: data.len() as u8,
            sequence_num,
            firmware_address,
        },
        data: room,
    }
}

fn offer_for(component_id: u8) -> FwUpdateOffer {
    FwUpdateOffer {
        component_info: UpdateOfferComponentInfo {
            segment_number: 0,
            force_immediate_reset: false,
            force_ignore_version: false,
            component_id,
            token: HostToken::Driver,
        },
        firmware_version: FwVersion::new(0x0200_0000),
        vendor_specific: 0,
        misc_and_protocol_version: 2,
    }
}

fn rejection() -> InternalResponseData {
    InternalResponseData::OfferResponse(FwUpdateOfferResponse {
        token: HostToken::Driver,
        reject_reason: OfferRejectReason::InvalidComponent,
        status: OfferStatus::Reject,
    })
}

fn content(sequence: u16, status: CfuUpdateContentResponseStatus) -> InternalResponseData {
    InternalResponseData::ContentResponse(FwUpdateContentResponse { sequence, status })
}

fn version(version: u32) -> InternalResponseData {
    InternalResponseData::FwVersionResponse(GetFwVersionResponse {
        header: GetFwVersionResponseHeader {
            component_count: 1,
            byte3: GetFwVerRespHeaderByte3::NoSpecialFlags,
        },
        component_info: [FwVerComponentInfo {
            fw_version: FwVersion { version },
            component_id: COMPONENT_ID,
        }; MAX_CMPT_COUNT],
    })
}

fn every_command() -> Vec<RequestData> {
    vec![
        RequestData::FwVersionRequest,
        RequestData::PrepareComponentForUpdate,
        RequestData::FinalizeUpdate,
        RequestData::AbortUpdate,
        RequestData::GiveOffer(offer_for(COMPONENT_ID)),
        RequestData::GiveContent(block(FIRST | LAST, 1, 0, &[1, 2, 3])),
        RequestData::GiveOfferExtended(FwUpdateOfferExtended { packet: [9; OFFER_PACKET_LENGTH] }),
        RequestData::GiveOfferInformation(FwUpdateOfferInformation {
            packet: [8; OFFER_PACKET_LENGTH],
        }),
    ]
}

#[test]
fn in_progress_until_idle() {
    assert!(!FwUpdateState::Idle.in_progress());
    assert!(FwUpdateState::InProgress(0).in_progress());
    assert!(FwUpdateState::InProgress(u8::MAX).in_progress());
    assert!(FwUpdateState::Recovery.in_progress());
}

#[test]
fn block_flags() {
    let header = |flags| block(flags, 0, 0, &[]).header;
    assert!(header(0x80).is_first_block() && !header(0x80).is_last_block());
    assert!(!header(0x40).is_first_block() && header(0x40).is_last_block());
    assert!(header(0xc0).is_first_block() && header(0xc0).is_last_block());
    assert!(!header(0x3f).is_first_block() && !header(0x3f).is_last_block());
}

#[test]
fn block_data_leaves_out_unused_room() {
    assert_eq!(block(0, 0, 0, &[4, 5, 6]).block_data(), &[4, 5, 6]);
    assert!(block(0, 0, 0, &[]).block_data().is_empty());
    let full = block(0, 0, 0, &[7; DEFAULT_DATA_LENGTH]);
    assert_eq!(full.block_data().len(), DEFAULT_DATA_LENGTH);
    assert!(full.is_valid());
    let mut overlong = full;
    overlong.header.data_length += 1;
    assert!(!overlong.is_valid());
}

#[test]
fn map_or_unwrap_err_on_both_sides() {
    let length = |text: &str| text.len();
    assert_eq!(Ok::<&str, usize>("four").map_or_unwrap_err(length), 4);
    assert_eq!(Err::<&str, usize>(9).map_or_unwrap_err(length), 9);
}

#[test]
fn version_is_told() {
    let mut state = in_state(FwUpdateState::InProgress(2));
    let (asked, response) =
        process(&wrapper(1), &mut state, &RequestData::FwVersionRequest, &hardware());
    assert_eq!(asked, vec![Asked::Version]);
    assert_eq!(response, version(0x0102_0304));
    assert_eq!(state, in_state(FwUpdateState::InProgress(2)));
}

#[test]
fn version_that_cannot_be_read() {
    let mut state = in_state(FwUpdateState::Idle);
    let broken = Hardware { version: Err(OperationFailed), ..hardware() };
    let (asked, response) = process(&wrapper(1), &mut state, &RequestData::FwVersionRequest, &broken);
    assert_eq!(asked, vec![Asked::Version]);
    assert_eq!(response, version(0xffff_ffff));
    assert_eq!(INVALID_FW_VERSION, 0xffff_ffff);
}

#[test]
fn offer_is_judged_by_the_validator() {
    let offer = offer_for(COMPONENT_ID);
    let mut state = in_state(FwUpdateState::Idle);
    let (asked, response) =
        process(&wrapper(1), &mut state, &RequestData::GiveOffer(offer), &hardware());
    assert_eq!(
        asked,
        vec![Asked::Version, Asked::Validate(FwVersion { version: 0x0102_0304 }, offer)]
    );
    assert_eq!(response, InternalResponseData::OfferResponse(hardware().offer_response));
    assert_eq!(state, in_state(FwUpdateState::Idle));
}

#[test]
fn offer_for_another_component_is_rejected() {
    let mut state = in_state(FwUpdateState::Idle);
    let command = RequestData::GiveOffer(offer_for(COMPONENT_ID + 1));
    let (asked, response) = process(&wrapper(1), &mut state, &command, &hardware());
    assert_eq!(asked, vec![]);
    assert_eq!(response, rejection());
}

#[test]
fn offer_is_rejected_without_a_version() {
    let mut state = in_state(FwUpdateState::Idle);
    let command = RequestData::GiveOffer(offer_for(COMPONENT_ID));
    let broken = Hardware { version: Err(OperationFailed), ..hardware() };
    let (asked, response) = process(&wrapper(1), &mut state, &command, &broken);
    assert_eq!(asked, vec![Asked::Version]);
    assert_eq!(response, rejection());
}

#[test]
fn other_requests_are_answered_at_once() {
    for fw_update_state in [FwUpdateState::Idle, FwUpdateState::InProgress(1)] {
        let mut answers = vec![];
        for index in [6, 7, 1, 2] {
            let mut state = in_state(fw_update_state);
            let (asked, response) =
                process(&wrapper(2), &mut state, &every_command()[index], &hardware());
            assert_eq!(asked, vec![]);
            assert_eq!(state, in_state(fw_update_state));
            answers.push(response);
        }
        assert_eq!(
            answers,
            vec![
                rejection(),
                rejection(),
                InternalResponseData::ComponentPrepared,
                InternalResponseData::ComponentPrepared,
            ]
        );
    }
}

#[test]
fn whole_update() {
    let wrapper = wrapper(2);
    let mut state = in_state(FwUpdateState::Idle);
    let blocks = [block(FIRST, 1, 0, &[1, 2]), block(0, 2, 2, &[3, 4]), block(LAST, 3, 4, &[5])];
    let mut asked = vec![];
    let mut states = vec![];
    for (index, each) in blocks.iter().enumerate() {
        let (more, response) =
            process(&wrapper, &mut state, &RequestData::GiveContent(*each), &hardware());
        assert_eq!(response, content(index as u16 + 1, CfuUpdateContentResponseStatus::Success));
        asked.extend(more);
        states.push(state.fw_update_state);
    }
    assert_eq!(
        asked,
        vec![
            Asked::Detach(0),
            Asked::Detach(1),
            Asked::ResetTicker,
            Asked::Start,
            Asked::Write(0, vec![1, 2]),
            Asked::Write(2, vec![3, 4]),
            Asked::Write(4, vec![5]),
            Asked::Finalize,
        ]
    );
    assert_eq!(
        states,
        vec![FwUpdateState::InProgress(0), FwUpdateState::InProgress(0), FwUpdateState::Idle]
    );
}

#[test]
fn update_of_one_block_without_power_devices() {
    let mut state = in_state(FwUpdateState::InProgress(3));
    let command = RequestData::GiveContent(block(FIRST | LAST, 0xffff, u32::MAX, &[1]));
    let (asked, response) = process(&wrapper(0), &mut state, &command, &hardware());
    assert_eq!(
        asked,
        vec![
            Asked::ResetTicker,
            Asked::Start,
            Asked::Write(u32::MAX as usize, vec![1]),
            Asked::Finalize
        ]
    );
    assert_eq!(response, content(0xffff, CfuUpdateContentResponseStatus::Success));
    assert_eq!(state, in_state(FwUpdateState::Idle));
}

#[test]
fn first_block_starts_the_count_anew() {
    let mut state = in_state(FwUpdateState::InProgress(3));
    let command = RequestData::GiveContent(block(FIRST, 1, 0, &[1]));
    process(&wrapper(1), &mut state, &command, &hardware());
    assert_eq!(state, in_state(FwUpdateState::InProgress(0)));
}

#[test]
fn power_device_that_cannot_be_detached() {
    for fw_update_state in [FwUpdateState::Idle, FwUpdateState::InProgress(1)] {
        let mut state = in_state(fw_update_state);
        let command = RequestData::GiveContent(block(FIRST, 5, 0, &[1]));
        let broken = Hardware { failing_power_device: Some(1), ..hardware() };
        let (asked, response) = process(&wrapper(3), &mut state, &command, &broken);
        assert_eq!(asked, vec![Asked::Detach(0), Asked::Detach(1)]);
        assert_eq!(response, content(5, CfuUpdateContentResponseStatus::ErrorPrepare));
        assert_eq!(state, in_state(fw_update_state));
    }
}

#[test]
fn update_that_cannot_be_started() {
    let mut state = in_state(FwUpdateState::Idle);
    let command = RequestData::GiveContent(block(FIRST | LAST, 6, 0, &[1]));
    let broken = Hardware { started: false, ..hardware() };
    let (asked, response) = process(&wrapper(1), &mut state, &command, &broken);
    assert_eq!(asked, vec![Asked::Detach(0), Asked::ResetTicker, Asked::Start]);
    assert_eq!(response, content(6, CfuUpdateContentResponseStatus::ErrorPrepare));
    assert_eq!(state, in_state(FwUpdateState::Recovery));
}

#[test]
fn block_that_cannot_be_written() {
    let broken = Hardware { written: false, ..hardware() };
    let mut state = in_state(FwUpdateState::InProgress(2));
    let command = RequestData::GiveContent(block(LAST, 7, 8, &[1]));
    let (asked, response) = process(&wrapper(1), &mut state, &command, &broken);
    assert_eq!(asked, vec![Asked::Write(8, vec![1])]);
    assert_eq!(response, content(7, CfuUpdateContentResponseStatus::ErrorWrite));
    assert_eq!(state, in_state(FwUpdateState::InProgress(2)));

    let mut state = in_state(FwUpdateState::Idle);
    let command = RequestData::GiveContent(block(FIRST | LAST, 8, 0, &[1]));
    let (_, response) = process(&wrapper(0), &mut state, &command, &broken);
    assert_eq!(response, content(8, CfuUpdateContentResponseStatus::ErrorWrite));
    assert_eq!(state, in_state(FwUpdateState::InProgress(0)));
}

#[test]
fn update_that_cannot_be_finalized() {
    let mut state = in_state(FwUpdateState::InProgress(0));
    let command = RequestData::GiveContent(block(LAST, 9, 16, &[]));
    let broken = Hardware { finalized: false, ..hardware() };
    let (asked, response) = process(&wrapper(1), &mut state, &command, &broken);
    assert_eq!(asked, vec![Asked::Write(16, vec![]), Asked::Finalize]);
    assert_eq!(response, rejection());
    assert_eq!(state, in_state(FwUpdateState::Recovery));
}

#[test]
fn abort_is_answered_alike() {
    for (aborted, after) in [(true, FwUpdateState::Idle), (false, FwUpdateState::Recovery)] {
        let mut state = in_state(FwUpdateState::InProgress(1));
        let (asked, response) = process(
            &wrapper(1),
            &mut state,
            &RequestData::AbortUpdate,
            &Hardware { aborted, ..hardware() },
        );
        assert_eq!(asked, vec![Asked::Abort]);
        assert_eq!(response, InternalResponseData::ComponentPrepared);
        assert_eq!(state, in_state(after));
    }
}

#[test]
fn commands_are_turned_away_in_recovery_only() {
    for command in every_command() {
        let mut state = in_state(FwUpdateState::Recovery);
        let (asked, response) = process(&wrapper(1), &mut state, &command, &hardware());
        assert_eq!(asked, vec![]);
        assert_eq!(response, InternalResponseData::ComponentBusy);
        assert_eq!(state, in_state(FwUpdateState::Recovery));

        let mut state = in_state(FwUpdateState::Idle);
        let (_, response) = process(&wrapper(1), &mut state, &command, &hardware());
        assert_ne!(response, InternalResponseData::ComponentBusy);
    }
}

#[test]
fn overlong_block_is_turned_away_in_recovery() {
    let mut overlong = block(FIRST, 1, 0, &[]);
    overlong.header.data_length = 0xff;
    let command = RequestData::GiveContent(overlong);
    assert!(!ControllerWrapper::can_process(&in_state(FwUpdateState::Idle), &command));
    let mut state = in_state(FwUpdateState::Recovery);
    assert!(ControllerWrapper::can_process(&state, &command));
    let (_, response) = process(&wrapper(1), &mut state, &command, &hardware());
    assert_eq!(response, InternalResponseData::ComponentBusy);
}

#[test]
fn tick_while_idle() {
    let mut state = in_state(FwUpdateState::Idle);
    assert!(!wrapper(1).process_cfu_tick(&mut state));
    assert_eq!(state, in_state(FwUpdateState::Idle));
}

#[test]
fn update_times_out() {
    let wrapper = wrapper(1);
    let mut state = in_state(FwUpdateState::InProgress(0));
    for ticks in 1..4 {
        assert!(!wrapper.process_cfu_tick(&mut state));
        assert_eq!(state, in_state(FwUpdateState::InProgress(ticks)));
        // A block in between does not put the timeout off.
        let command = RequestData::GiveContent(block(0, 1, 0, &[1]));
        process(&wrapper, &mut state, &command, &hardware());
        assert_eq!(state, in_state(FwUpdateState::InProgress(ticks)));
    }
    assert!(wrapper.process_cfu_tick(&mut state));
    assert_eq!(state, in_state(FwUpdateState::Recovery));
}

#[test]
fn timeout_at_its_limits() {
    for timeout_ticks in [0, 1] {
        let mut state = in_state(FwUpdateState::InProgress(0));
        assert!(ControllerWrapper { timeout_ticks, ..wrapper(1) }.process_cfu_tick(&mut state));
        assert_eq!(state, in_state(FwUpdateState::Recovery));
    }
    let longest = ControllerWrapper { timeout_ticks: u8::MAX, ..wrapper(1) };
    let mut state = in_state(FwUpdateState::InProgress(0));
    let mut ticks = 1;
    assert!(state.fw_update_state.is_countable());
    while !longest.process_cfu_tick(&mut state) {
        assert!(state.fw_update_state.is_countable());
        ticks += 1;
    }
    assert_eq!(ticks, 255);
    assert!(!FwUpdateState::InProgress(u8::MAX).is_countable());
}

#[test]
fn recovery_lasts_until_an_abort_succeeds() {
    let wrapper = wrapper(1);
    let mut state = in_state(FwUpdateState::Recovery);
    for _ in 0..3 {
        assert!(wrapper.process_cfu_tick(&mut state));
        wrapper.resume_cfu_tick(&mut state, Err(OperationFailed));
        process(&wrapper, &mut state, &RequestData::AbortUpdate, &hardware());
        assert_eq!(state, in_state(FwUpdateState::Recovery));
    }
    assert!(wrapper.process_cfu_tick(&mut state));
    wrapper.resume_cfu_tick(&mut state, Ok(()));
    assert_eq!(state, in_state(FwUpdateState::Idle));
}

#[test]
fn waits_are_for_what_is_of_use() {
    let wrapper = wrapper(1);
    let wait = |fw_update_state| wrapper.wait_cfu_command(&in_state(fw_update_state));
    assert_eq!(wait(FwUpdateState::Idle), CfuWait::Request);
    assert_eq!(wait(FwUpdateState::InProgress(3)), CfuWait::RequestOrTick);
    assert_eq!(wait(FwUpdateState::Recovery), CfuWait::Tick);
    assert_eq!(
        ControllerWrapper::cfu_event(Some(RequestData::AbortUpdate)),
        EventCfu::Request(RequestData::AbortUpdate)
    );
    assert_eq!(ControllerWrapper::cfu_event(None), EventCfu::RecoveryTick);
}

#[test]
fn replies_fit_their_operations() {
    let done = CfuReply::Done(Ok(()));
    let failed = CfuReply::Done(Err(OperationFailed));
    let told = CfuReply::FwVersion(Ok(1));
    assert!(CfuAction::GetActiveFwVersion.is_answered_by(&told));
    assert!(!CfuAction::GetActiveFwVersion.is_answered_by(&done));
    assert!(CfuAction::ResetTicker.is_answered_by(&done));
    assert!(!CfuAction::ResetTicker.is_answered_by(&failed));
    assert!(CfuAction::DetachPower(0).is_answered_by(&failed));
    assert!(!CfuAction::AbortFwUpdate.is_answered_by(&told));
    assert_eq!(told.into_version(), Ok(1));
    assert_eq!(done.into_version(), Err(OperationFailed));
    assert_eq!(done.into_outcome(), Ok(()));
    assert_eq!(told.into_outcome(), Err(OperationFailed));
}

#[test]
fn device_by_itself() {
    let device = ControllerDevice { component_id: COMPONENT_ID, power_devices: 1 };
    assert_eq!(device.component_id(), COMPONENT_ID);
    assert_eq!(device.get_fw_version(), DeviceStep::Perform(CfuAction::GetActiveFwVersion));
    assert_eq!(device.abort_update(), DeviceStep::Perform(CfuAction::AbortFwUpdate));
    assert_eq!(device.finalize_update(), DeviceStep::Return(Ok(())));
    assert_eq!(device.prepare_for_update(), DeviceStep::Return(Ok(())));
    assert_eq!(device.create_invalid_fw_version_response(), version(0xffff_ffff));
    assert_eq!(ControllerDevice::create_offer_rejection(), rejection());
    let first = block(FIRST, 1, 0, &[1]);
    assert_eq!(device.handle_content(&first), DeviceStep::Perform(CfuAction::DetachPower(0)));
    let mut state = in_state(FwUpdateState::InProgress(1));
    assert_eq!(
        device.resume_abort_update(&mut state, Err(OperationFailed)),
        Err(InternalResponseData::ComponentPrepared)
    );
    assert_eq!(state, in_state(FwUpdateState::Recovery));
}

#[test]
fn overlong_block_keeps_recovery() {
    let wrapper = wrapper(1);
    let mut overlong = block(FIRST | LAST, 1, 0, &[]);
    overlong.header.data_length = DEFAULT_DATA_LENGTH as u8 + 1;
    let mut state = in_state(FwUpdateState::Recovery);
    let (asked, response) =
        process(&wrapper, &mut state, &RequestData::GiveContent(overlong), &hardware());
    assert_eq!(asked, vec![]);
    assert_eq!(response, InternalResponseData::ComponentBusy);
    assert_eq!(state, in_state(FwUpdateState::Recovery));
    assert!(wrapper.process_cfu_tick(&mut state));
    wrapper.resume_cfu_tick(&mut state, Ok(()));
    assert_eq!(state, in_state(FwUpdateState::Idle));
}

/// Judges an offer through any device.
fn judge<D: Device>(device: &D, offer: &FwUpdateOffer, hardware: &Hardware) -> InternalResponseData {
    let mut step = device.handle_offer(offer);
    loop {
        let action = match step {
            DeviceStep::Return(result) => {
                return result.map_or_unwrap_err(InternalResponseData::OfferResponse);
            }
            DeviceStep::Perform(action) => action,
        };
        let reply = match action {
            CfuAction::ValidateOffer { .. } => CfuReply::OfferResponse(hardware.offer_response),
            _ => CfuReply::FwVersion(hardware.version),
        };
        step = device.resume_handle_offer(offer, action, reply);
    }
}

#[test]
fn offer_to_any_device() {
    let device = ControllerDevice { component_id: COMPONENT_ID, power_devices: 1 };
    assert_eq!(
        judge(&device, &offer_for(COMPONENT_ID), &hardware()),
        InternalResponseData::OfferResponse(hardware().offer_response)
    );
    assert_eq!(judge(&device, &offer_for(COMPONENT_ID + 1), &hardware()), rejection());
}
