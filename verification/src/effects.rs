//! What commands and ticks do, down to the bits, bytes and numbers.
//!
//! The statements here are about the fields of messages and results. They use
//! the names of the other modules for what they speak about, and spell out
//! what they say of it.
use crate::action::{
    CfuAction, CfuActionView, CfuReply, CfuStep, CfuStepView, DeviceStep, DeviceStepView,
};
use crate::component::{InternalResponseData, RequestData};
use crate::device::ControllerDevice;
use crate::laws::power_devices_are_detached_in_order;
use crate::protocol::{FwUpdateContentCommand, FwUpdateOffer};
use crate::run::{run_is_as_described, Outcomes};
use crate::state::FwUpdateState;
use crate::wrapper::{
    processable, state_after_attempt, state_after_tick, tick_aborts, wait_for, ControllerWrapper,
};
use vstd::prelude::*;

verus! {

/// An action is known by all that it holds, and nothing else.
pub proof fn actions_are_known_by_their_contents(action: CfuAction<'_>)
    ensures
        match action {
            CfuAction::GetActiveFwVersion => action@ is GetActiveFwVersion,
            CfuAction::ValidateOffer { current, offer } => {
                &&& action@ matches CfuActionView::ValidateOffer { current: c, offer: o }
                &&& c == current
                &&& o == *offer
            },
            CfuAction::DetachPower(index) => {
                action@ matches CfuActionView::DetachPower(i) && i == index
            },
            CfuAction::ResetTicker => action@ is ResetTicker,
            CfuAction::StartFwUpdate => action@ is StartFwUpdate,
            CfuAction::WriteFwContents { address, data } => {
                &&& action@ matches CfuActionView::WriteFwContents { address: a, data: d }
                &&& a == address
                &&& d.len() == data@.len()
                &&& forall|i: int| 0 <= i < d.len() ==> #[trigger] d[i] == data@[i]
            },
            CfuAction::FinalizeFwUpdate => action@ is FinalizeFwUpdate,
            CfuAction::AbortFwUpdate => action@ is AbortFwUpdate,
        },
{
}

/// A step is known by what it performs or how it ends.
pub proof fn steps_are_known_by_their_contents<T>(step: CfuStep<'_>, device_step: DeviceStep<'_, T>)
    ensures
        match step {
            CfuStep::Perform(action) => {
                step@ matches CfuStepView::Perform(performed) && performed == action@
            },
            CfuStep::Respond(response) => {
                step@ matches CfuStepView::Respond(told) && told == response
            },
        },
        match device_step {
            DeviceStep::Perform(action) => {
                device_step@ matches DeviceStepView::Perform(performed) && performed == action@
            },
            DeviceStep::Return(result) => {
                device_step@ matches DeviceStepView::Return(told) && told == result
            },
        },
{
}

/// Reading a version is answered with a version or a failure to read one, the
/// validator with its response, and any other operation with whether it
/// succeeded. Resetting the ticker cannot fail.
pub proof fn replies_fit_operations(action: CfuActionView, reply: CfuReply)
    ensures
        action.answered_by(reply) <==> match reply {
            CfuReply::FwVersion(_) => action is GetActiveFwVersion,
            CfuReply::OfferResponse(_) => action is ValidateOffer,
            CfuReply::Done(outcome) => {
                &&& !(action is GetActiveFwVersion)
                &&& !(action is ValidateOffer)
                &&& action is ResetTicker ==> outcome is Ok
            },
        },
{
}

/// The reply to an operation is the outcome that is named after it.
pub proof fn outcomes_are_of_their_operations(outcomes: Outcomes, action: CfuActionView)
    ensures
        match outcomes.reply(action) {
            CfuReply::FwVersion(version) => {
                action is GetActiveFwVersion && version == outcomes.version
            },
            CfuReply::OfferResponse(response) => {
                action is ValidateOffer && response == outcomes.offer_response
            },
            CfuReply::Done(done) => match action {
                CfuActionView::DetachPower(index) => done is Ok <==> (outcomes.detached)(index),
                CfuActionView::ResetTicker => done is Ok,
                CfuActionView::StartFwUpdate => done is Ok <==> outcomes.started,
                CfuActionView::WriteFwContents { .. } => done is Ok <==> outcomes.written,
                CfuActionView::FinalizeFwUpdate => done is Ok <==> outcomes.finalized,
                CfuActionView::AbortFwUpdate => done is Ok <==> outcomes.aborted,
                _ => false,
            },
        },
{
}

/// A command can be processed unless it is a block that claims more than 52
/// bytes of data, and even then in recovery.
pub proof fn only_overlong_blocks_are_out_of_the_question(state: FwUpdateState, command: RequestData)
    ensures
        processable(state, command) <==> match command {
            RequestData::GiveContent(content) => {
                state is Recovery || content.header.data_length <= 52
            },
            _ => true,
        },
{
}

/// Which operations a block performs depends on two bits of its flags and on
/// the outcomes alone. With bit 0x80 set, the power devices are detached one
/// by one, up to the first that fails; if none does, the ticker is reset and
/// the update is started; if that succeeds, the block is written. With the bit
/// clear, the block is written at once. With bit 0x40 set, a block that has
/// been written is followed by the finalization.
pub proof fn flags_tell_what_a_block_performs(
    wrapper: ControllerWrapper,
    state: FwUpdateState,
    content: FwUpdateContentCommand,
    outcomes: Outcomes,
)
    requires
        !(state is Recovery),
        content.header.data_length <= 52,
    ensures
        ({
            let performed = wrapper.command_run(
                state,
                RequestData::GiveContent(content),
                outcomes,
            ).performed;
            let first = content.header.flags & 0x80 != 0;
            let last = content.header.flags & 0x40 != 0;
            let devices = wrapper.power_devices as int;
            let all_detached = forall|index: int|
                0 <= index < devices ==> #[trigger] (outcomes.detached)(index);
            let before_write = if first {
                devices + 2
            } else {
                0
            };
            // The order of what comes before the write.
            &&& first ==> forall|i: int|
                0 <= i < performed.len() && i < devices ==> #[trigger] performed[i]
                    == CfuActionView::DetachPower(i)
            &&& first && all_detached ==> {
                &&& performed.len() >= devices + 2
                &&& performed[devices] is ResetTicker
                &&& performed[devices + 1] is StartFwUpdate
                &&& !outcomes.started ==> performed.len() == devices + 2
            }
            // The first failure to detach is the end.
            &&& first && !all_detached ==> {
                &&& 0 < performed.len() <= devices
                &&& !(outcomes.detached)(performed.len() - 1)
                &&& forall|index: int|
                    0 <= index < performed.len() - 1 ==> #[trigger] (outcomes.detached)(index)
            }
            // The write and what comes after it.
            &&& (first ==> all_detached && outcomes.started) ==> {
                &&& performed.len() == before_write + 1 + if last && outcomes.written {
                    1int
                } else {
                    0int
                }
                &&& performed[before_write] is WriteFwContents
                &&& last && outcomes.written ==> performed.last() is FinalizeFwUpdate
            }
        }),
{
    let command = RequestData::GiveContent(content);
    let performed = wrapper.command_run(state, command, outcomes).performed;
    let attempts = wrapper.detach_attempts(outcomes, 0);
    run_is_as_described(wrapper, state, command, outcomes);
    power_devices_are_detached_in_order(wrapper, outcomes);
    assert(outcomes.all_detached(wrapper.power_devices as int) <==> forall|index: int|
        0 <= index < wrapper.power_devices as int ==> #[trigger] (outcomes.detached)(index));
    if content.header.first_block() {
        assert forall|i: int| 0 <= i < performed.len() && i < wrapper.power_devices implies
            #[trigger] performed[i] == CfuActionView::DetachPower(i) by {
            assert(attempts[i] == CfuActionView::DetachPower(i));
        }
    }
}

/// A first block, by bit 0x80 of its flags, begins with the power devices and
/// starts the update unless one of them cannot be detached. No other block
/// touches a power device, the ticker or the start of an update, however long
/// it is, wherever it goes and whatever number it has.
pub proof fn only_a_first_block_starts_an_update(
    wrapper: ControllerWrapper,
    state: FwUpdateState,
    content: FwUpdateContentCommand,
    outcomes: Outcomes,
)
    requires
        !(state is Recovery),
        content.header.data_length <= 52,
    ensures
        ({
            let performed = wrapper.command_run(
                state,
                RequestData::GiveContent(content),
                outcomes,
            ).performed;
            let first = content.header.flags & 0x80 != 0;
            let devices = wrapper.power_devices as int;
            let all_detached = forall|index: int|
                0 <= index < devices ==> #[trigger] (outcomes.detached)(index);
            &&& performed.len() > 0
            &&& first && devices > 0 ==> performed[0] == CfuActionView::DetachPower(0)
            &&& first && devices == 0 ==> performed[0] is ResetTicker
            &&& !first ==> performed[0] is WriteFwContents
            &&& performed.contains(CfuActionView::StartFwUpdate) <==> first && all_detached
            &&& performed.contains(CfuActionView::ResetTicker) <==> first && all_detached
            &&& forall|index: int| #[trigger]
                performed.contains(CfuActionView::DetachPower(index)) <==> {
                    &&& first
                    &&& 0 <= index < devices
                    &&& forall|before: int|
                        0 <= before < index ==> #[trigger] (outcomes.detached)(before)
                }
        }),
{
    flags_tell_what_a_block_performs(wrapper, state, content, outcomes);
    let performed = wrapper.command_run(
        state,
        RequestData::GiveContent(content),
        outcomes,
    ).performed;
    let first = content.header.flags & 0x80 != 0;
    let devices = wrapper.power_devices as int;
    let all_detached = forall|index: int|
        0 <= index < devices ==> #[trigger] (outcomes.detached)(index);
    if first && all_detached {
        assert(performed[devices] == CfuActionView::ResetTicker);
        assert(performed[devices + 1] == CfuActionView::StartFwUpdate);
    }
    assert forall|index: int| #[trigger]
        performed.contains(CfuActionView::DetachPower(index)) <==> {
            &&& first
            &&& 0 <= index < devices
            &&& forall|before: int| 0 <= before < index ==> #[trigger] (outcomes.detached)(before)
        } by {
        if first && 0 <= index < devices && (forall|before: int|
            0 <= before < index ==> #[trigger] (outcomes.detached)(before)) {
            assert(index < performed.len());
            assert(performed[index] == CfuActionView::DetachPower(index));
        }
    }
}

/// What a block writes has exactly as many bytes as its header claims, byte by
/// byte those of the command, and goes to the address of the header.
pub proof fn bytes_of_a_block_are_written(
    wrapper: ControllerWrapper,
    state: FwUpdateState,
    content: FwUpdateContentCommand,
    outcomes: Outcomes,
)
    requires
        !(state is Recovery),
        content.header.data_length <= 52,
    ensures
        ({
            let performed = wrapper.command_run(
                state,
                RequestData::GiveContent(content),
                outcomes,
            ).performed;
            forall|i: int|
                0 <= i < performed.len() ==> match #[trigger] performed[i] {
                    CfuActionView::WriteFwContents { address, data } => {
                        &&& address == content.header.firmware_address
                        &&& data.len() == content.header.data_length
                        &&& forall|at: int|
                            0 <= at < content.header.data_length ==> #[trigger] data[at]
                                == content.data@[at]
                    },
                    _ => true,
                }
        }),
{
    run_is_as_described(wrapper, state, RequestData::GiveContent(content), outcomes);
    power_devices_are_detached_in_order(wrapper, outcomes);
}

/// The status of the response to a block tells what happened, whatever number
/// the block has: a success if all that it called for succeeded, an error of
/// the write if the write was tried and failed, an error of the preparation if
/// it did not come to the write. A failure to finalize, and nothing else, is
/// answered with the rejection of an offer.
pub proof fn status_tells_what_happened_to_a_block(
    wrapper: ControllerWrapper,
    state: FwUpdateState,
    content: FwUpdateContentCommand,
    outcomes: Outcomes,
)
    requires
        !(state is Recovery),
        content.header.data_length <= 52,
    ensures
        ({
            let run = wrapper.command_run(state, RequestData::GiveContent(content), outcomes);
            let first = content.header.flags & 0x80 != 0;
            let last = content.header.flags & 0x40 != 0;
            let ready = first ==> outcomes.started && forall|index: int|
                0 <= index < wrapper.power_devices ==> #[trigger] (outcomes.detached)(index);
            match run.response {
                InternalResponseData::ContentResponse(response) => {
                    &&& response.sequence == content.header.sequence_num
                    &&& response.status is Success <==> ready && outcomes.written && (last
                        ==> outcomes.finalized)
                    &&& response.status is ErrorWrite <==> ready && !outcomes.written
                    &&& response.status is ErrorPrepare <==> !ready
                },
                InternalResponseData::OfferResponse(response) => {
                    &&& ready && outcomes.written && last && !outcomes.finalized
                    &&& response.token is Driver
                    &&& response.reject_reason is InvalidComponent
                    &&& response.status is Reject
                },
                _ => false,
            }
        }),
{
    run_is_as_described(wrapper, state, RequestData::GiveContent(content), outcomes);
    assert(outcomes.all_detached(wrapper.power_devices as int) <==> forall|index: int|
        0 <= index < wrapper.power_devices ==> #[trigger] (outcomes.detached)(index));
}

/// A block that starts an update leaves it in progress with no ticks counted,
/// one that finalizes it leaves it idle, and a failure of either leaves the
/// controller in recovery. Anything else leaves the state as it was.
pub proof fn blocks_change_the_state_by_start_and_finalization(
    wrapper: ControllerWrapper,
    state: FwUpdateState,
    content: FwUpdateContentCommand,
    outcomes: Outcomes,
)
    requires
        !(state is Recovery),
        content.header.data_length <= 52,
    ensures
        ({
            let after = wrapper.command_run(
                state,
                RequestData::GiveContent(content),
                outcomes,
            ).state;
            let first = content.header.flags & 0x80 != 0;
            let last = content.header.flags & 0x40 != 0;
            let all_detached = forall|index: int|
                0 <= index < wrapper.power_devices ==> #[trigger] (outcomes.detached)(index);
            let start_tried = first && all_detached;
            let finalization_tried = (first ==> all_detached && outcomes.started)
                && outcomes.written && last;
            &&& after is Recovery <==> (start_tried && !outcomes.started) || (finalization_tried
                && !outcomes.finalized)
            &&& finalization_tried && outcomes.finalized ==> after is Idle
            &&& start_tried && outcomes.started && !finalization_tried ==> (after matches
                FwUpdateState::InProgress(ticks) && ticks == 0)
            &&& !start_tried && !finalization_tried ==> after == state
        }),
{
    run_is_as_described(wrapper, state, RequestData::GiveContent(content), outcomes);
    assert(outcomes.all_detached(wrapper.power_devices as int) <==> forall|index: int|
        0 <= index < wrapper.power_devices ==> #[trigger] (outcomes.detached)(index));
}

/// Every entry of a version response holds the version that the controller
/// reported, or 0xffffffff if it reported none, and the component ID of the
/// controller. The header counts one component.
pub proof fn version_response_holds_the_version(
    wrapper: ControllerWrapper,
    state: FwUpdateState,
    outcomes: Outcomes,
)
    requires
        !(state is Recovery),
    ensures
        ({
            let run = wrapper.command_run(state, RequestData::FwVersionRequest, outcomes);
            &&& run.state == state
            &&& run.performed.len() == 1
            &&& run.performed[0] is GetActiveFwVersion
            &&& run.response matches InternalResponseData::FwVersionResponse(response)
            &&& response.header.component_count == 1
            &&& response.header.byte3 is NoSpecialFlags
            &&& response.component_info@.len() == 7
            &&& forall|i: int|
                0 <= i < 7 ==> {
                    &&& outcomes.version matches Ok(version) ==> (
                    #[trigger] response.component_info@[i]).fw_version.version == version
                    &&& outcomes.version is Err ==> response.component_info@[i].fw_version.version
                        == 0xffffffff
                    &&& response.component_info@[i].component_id == wrapper.component_id
                }
        }),
{
    run_is_as_described(wrapper, state, RequestData::FwVersionRequest, outcomes);
}

/// An offer with the component ID of the controller is handed to the validator
/// as it came, with the version that the controller reported, and answered
/// with what the validator says. Without a version, or with another component
/// ID, it is rejected as being for an invalid component.
pub proof fn offers_reach_the_validator_as_they_came(
    wrapper: ControllerWrapper,
    state: FwUpdateState,
    offer: FwUpdateOffer,
    outcomes: Outcomes,
)
    requires
        !(state is Recovery),
    ensures
        ({
            let run = wrapper.command_run(state, RequestData::GiveOffer(offer), outcomes);
            let ours = offer.component_info.component_id == wrapper.component_id;
            &&& run.state == state
            &&& run.response matches InternalResponseData::OfferResponse(response)
            &&& run.performed.len() == if !ours {
                0int
            } else if outcomes.version is Err {
                1
            } else {
                2
            }
            &&& ours ==> run.performed[0] is GetActiveFwVersion
            &&& ours && outcomes.version is Ok ==> {
                &&& run.performed[1] matches CfuActionView::ValidateOffer {
                    current,
                    offer: validated,
                }
                &&& current.version == outcomes.version->Ok_0
                &&& validated == offer
                &&& response == outcomes.offer_response
            }
            &&& !ours || outcomes.version is Err ==> {
                &&& response.token is Driver
                &&& response.reject_reason is InvalidComponent
                &&& response.status is Reject
            }
        }),
{
    run_is_as_described(wrapper, state, RequestData::GiveOffer(offer), outcomes);
}

/// An abort is the one operation of an abort request. It leads to idle if it
/// succeeds and to recovery if it does not.
pub proof fn abort_request_aborts(
    wrapper: ControllerWrapper,
    state: FwUpdateState,
    outcomes: Outcomes,
)
    requires
        !(state is Recovery),
    ensures
        ({
            let run = wrapper.command_run(state, RequestData::AbortUpdate, outcomes);
            &&& run.performed.len() == 1
            &&& run.performed[0] is AbortFwUpdate
            &&& run.response is ComponentPrepared
            &&& outcomes.aborted ==> run.state is Idle
            &&& !outcomes.aborted ==> run.state is Recovery
        }),
{
    run_is_as_described(wrapper, state, RequestData::AbortUpdate, outcomes);
}

/// Requests to prepare and to finalize are granted; extended offers and offer
/// information are rejected as being for an invalid component. None of them
/// performs an operation or changes the state.
pub proof fn other_requests_have_no_effect(
    wrapper: ControllerWrapper,
    state: FwUpdateState,
    command: RequestData,
    outcomes: Outcomes,
)
    requires
        !(state is Recovery),
        command is PrepareComponentForUpdate || command is FinalizeUpdate
            || command is GiveOfferExtended || command is GiveOfferInformation,
    ensures
        ({
            let run = wrapper.command_run(state, command, outcomes);
            &&& run.state == state
            &&& run.performed.len() == 0
            &&& command is PrepareComponentForUpdate || command is FinalizeUpdate
                ==> run.response is ComponentPrepared
            &&& command is GiveOfferExtended || command is GiveOfferInformation ==> {
                &&& run.response matches InternalResponseData::OfferResponse(response)
                &&& response.token is Driver
                &&& response.reject_reason is InvalidComponent
                &&& response.status is Reject
            }
        }),
{
    run_is_as_described(wrapper, state, command, outcomes);
}

/// In recovery no command has an effect, whatever it holds, and each is
/// answered with "busy".
pub proof fn commands_have_no_effect_in_recovery(
    wrapper: ControllerWrapper,
    command: RequestData,
    outcomes: Outcomes,
)
    ensures
        ({
            let run = wrapper.command_run(FwUpdateState::Recovery, command, outcomes);
            &&& run.state is Recovery
            &&& run.performed.len() == 0
            &&& run.response is ComponentBusy
        }),
{
    run_is_as_described(wrapper, FwUpdateState::Recovery, command, outcomes);
}

/// A tick of an update in progress adds one to its count, unless the count
/// would reach the timeout. Then the state is recovery until the outcome of
/// the abort is known, idle after it if it succeeded, and recovery still if it
/// did not. A tick in recovery tries the abort again, and one in idle does
/// nothing.
pub proof fn ticks_count_up_to_the_timeout(state: FwUpdateState, timeout_ticks: u8, aborted: bool)
    requires
        state matches FwUpdateState::InProgress(ticks) ==> ticks < 255,
    ensures
        ({
            let ticked = state_after_tick(state, timeout_ticks);
            let aborts = tick_aborts(state, timeout_ticks);
            let end = state_after_attempt(ticked, aborted);
            &&& aborts <==> match state {
                FwUpdateState::Idle => false,
                FwUpdateState::InProgress(ticks) => ticks + 1 >= timeout_ticks,
                FwUpdateState::Recovery => true,
            }
            &&& aborts ==> ticked is Recovery
            &&& aborts && aborted ==> end is Idle
            &&& aborts && !aborted ==> end is Recovery
            &&& !aborts ==> match state {
                FwUpdateState::InProgress(ticks) => {
                    ticked matches FwUpdateState::InProgress(counted) && counted == ticks + 1
                },
                _ => ticked == state,
            }
        }),
{
}

/// Another tick can be counted unless 255 have been.
pub proof fn ticks_can_be_counted_up_to_255(state: FwUpdateState)
    ensures
        !state.countable() <==> (state matches FwUpdateState::InProgress(ticks) && ticks == 255),
{
}

/// Commands are waited for unless the controller is in recovery, ticks unless
/// it is idle.
pub proof fn waits_follow_the_state(state: FwUpdateState)
    ensures
        wait_for(state) is Request <==> state is Idle,
        wait_for(state) is RequestOrTick <==> state is InProgress,
        wait_for(state) is Tick <==> state is Recovery,
{
}

/// A reply tells of a success or of a version only if it is about one.
pub proof fn replies_tell_what_they_hold(reply: CfuReply)
    ensures
        match reply {
            CfuReply::FwVersion(version) => !reply.success() && reply.version() == version,
            CfuReply::OfferResponse(_) => !reply.success() && reply.version() is Err,
            CfuReply::Done(outcome) => {
                &&& reply.success() <==> outcome is Ok
                &&& reply.version() is Err
            },
        },
{
}

/// A device begins with the version for an offer that is for it. It begins
/// with its power devices, or the ticker if it has none, for a block with bit
/// 0x80 set in its flags, and with the write of the block for any other.
pub proof fn requests_begin_with_their_first_operation(
    device: ControllerDevice,
    offer: FwUpdateOffer,
    content: FwUpdateContentCommand,
)
    requires
        content.header.data_length <= 52,
    ensures
        match device.offer_begun(offer) {
            DeviceStepView::Perform(action) => {
                &&& offer.component_info.component_id == device.component_id
                &&& action is GetActiveFwVersion
            },
            DeviceStepView::Return(result) => {
                &&& offer.component_info.component_id != device.component_id
                &&& result matches Err(InternalResponseData::OfferResponse(response))
                &&& response.token is Driver
                &&& response.reject_reason is InvalidComponent
                &&& response.status is Reject
            },
        },
        match device.content_begun(content) {
            DeviceStepView::Perform(CfuActionView::DetachPower(index)) => {
                content.header.flags & 0x80 != 0 && index == 0 < device.power_devices
            },
            DeviceStepView::Perform(CfuActionView::ResetTicker) => {
                content.header.flags & 0x80 != 0 && device.power_devices == 0
            },
            DeviceStepView::Perform(CfuActionView::WriteFwContents { address, data }) => {
                &&& content.header.flags & 0x80 == 0
                &&& address == content.header.firmware_address
                &&& data.len() == content.header.data_length
                &&& forall|i: int| 0 <= i < data.len() ==> #[trigger] data[i] == content.data@[i]
            },
            _ => false,
        },
{
}

/// The validator is asked once the version is known, and has the last word.
/// Where no version is known, the offer is rejected.
pub proof fn offer_follows_version_and_validator(
    device: ControllerDevice,
    offer: FwUpdateOffer,
    reply: CfuReply,
)
    ensures
        match reply {
            CfuReply::FwVersion(Ok(version)) => {
                &&& device.offer_resumed(offer, reply) matches DeviceStepView::Perform(
                    CfuActionView::ValidateOffer { current, offer: validated },
                )
                &&& current.version == version
                &&& validated == offer
            },
            CfuReply::OfferResponse(response) => {
                &&& device.offer_resumed(offer, reply) matches DeviceStepView::Return(Ok(told))
                &&& told == response
            },
            _ => {
                &&& device.offer_resumed(offer, reply) matches DeviceStepView::Return(
                    Err(InternalResponseData::OfferResponse(response)),
                )
                &&& response.token is Driver
                &&& response.reject_reason is InvalidComponent
                &&& response.status is Reject
            },
        },
{
}

/// A power device that is detached is followed by the next one, and the last
/// by the ticker. One that fails ends the block with an error of the
/// preparation. The state stays.
pub proof fn block_follows_detaching(
    device: ControllerDevice,
    state: FwUpdateState,
    content: FwUpdateContentCommand,
    index: int,
    success: bool,
)
    requires
        0 <= index < device.power_devices,
    ensures
        ({
            let (after, step) = device.content_resumed(
                state,
                content,
                CfuActionView::DetachPower(index),
                success,
            );
            &&& after == state
            &&& match step {
                DeviceStepView::Perform(CfuActionView::DetachPower(next)) => {
                    success && next == index + 1 < device.power_devices
                },
                DeviceStepView::Perform(CfuActionView::ResetTicker) => {
                    success && index + 1 == device.power_devices
                },
                DeviceStepView::Return(Err(InternalResponseData::ContentResponse(response))) => {
                    &&& !success
                    &&& response.sequence == content.header.sequence_num
                    &&& response.status is ErrorPrepare
                },
                _ => false,
            }
        }),
{
}

/// The ticker is followed by the start of the update, and the start by the
/// write of the block. An update that starts is in progress with no ticks
/// counted; one that does not ends the block with an error of the preparation
/// and leaves the controller in recovery.
pub proof fn block_follows_the_start(
    device: ControllerDevice,
    state: FwUpdateState,
    content: FwUpdateContentCommand,
    success: bool,
)
    requires
        content.header.data_length <= 52,
    ensures
        ({
            let (after, step) = device.content_resumed(
                state,
                content,
                CfuActionView::ResetTicker,
                true,
            );
            &&& after == state
            &&& step matches DeviceStepView::Perform(CfuActionView::StartFwUpdate)
        }),
        ({
            let (after, step) = device.content_resumed(
                state,
                content,
                CfuActionView::StartFwUpdate,
                success,
            );
            match step {
                DeviceStepView::Perform(CfuActionView::WriteFwContents { address, data }) => {
                    &&& success
                    &&& after matches FwUpdateState::InProgress(ticks) && ticks == 0
                    &&& address == content.header.firmware_address
                    &&& data.len() == content.header.data_length
                    &&& forall|i: int|
                        0 <= i < data.len() ==> #[trigger] data[i] == content.data@[i]
                },
                DeviceStepView::Return(Err(InternalResponseData::ContentResponse(response))) => {
                    &&& !success
                    &&& after is Recovery
                    &&& response.sequence == content.header.sequence_num
                    &&& response.status is ErrorPrepare
                },
                _ => false,
            }
        }),
{
}

/// A block that has been written is a success, unless bit 0x40 of its flags
/// calls for the finalization first. One that could not be written is an
/// error of the write. The state stays either way.
pub proof fn block_follows_the_write(
    device: ControllerDevice,
    state: FwUpdateState,
    content: FwUpdateContentCommand,
    address: int,
    data: Seq<u8>,
    success: bool,
)
    ensures
        ({
            let (after, step) = device.content_resumed(
                state,
                content,
                CfuActionView::WriteFwContents { address, data },
                success,
            );
            &&& after == state
            &&& match step {
                DeviceStepView::Perform(CfuActionView::FinalizeFwUpdate) => {
                    success && content.header.flags & 0x40 != 0
                },
                DeviceStepView::Return(Ok(response)) => {
                    &&& success && content.header.flags & 0x40 == 0
                    &&& response.sequence == content.header.sequence_num
                    &&& response.status is Success
                },
                DeviceStepView::Return(Err(InternalResponseData::ContentResponse(response))) => {
                    &&& !success
                    &&& response.sequence == content.header.sequence_num
                    &&& response.status is ErrorWrite
                },
                _ => false,
            }
        }),
{
}

/// An update that has been finalized is over and its last block a success. A
/// failure leaves the controller in recovery and is answered with the
/// rejection of an offer.
pub proof fn block_follows_the_finalization(
    device: ControllerDevice,
    state: FwUpdateState,
    content: FwUpdateContentCommand,
    success: bool,
)
    ensures
        ({
            let (after, step) = device.content_resumed(
                state,
                content,
                CfuActionView::FinalizeFwUpdate,
                success,
            );
            match step {
                DeviceStepView::Return(Ok(response)) => {
                    &&& success
                    &&& after is Idle
                    &&& response.sequence == content.header.sequence_num
                    &&& response.status is Success
                },
                DeviceStepView::Return(Err(InternalResponseData::OfferResponse(response))) => {
                    &&& !success
                    &&& after is Recovery
                    &&& response.token is Driver
                    &&& response.reject_reason is InvalidComponent
                    &&& response.status is Reject
                },
                _ => false,
            }
        }),
{
}

/// A command goes on as its request does: it performs the same operation, or
/// responds with the value or the error that the request ended with. Only
/// blocks and aborts change the state on the way.
pub proof fn commands_go_on_as_their_requests_do(
    wrapper: ControllerWrapper,
    state: FwUpdateState,
    command: RequestData,
    action: CfuActionView,
    reply: CfuReply,
)
    ensures
        ({
            let device = ControllerDevice {
                component_id: wrapper.component_id,
                power_devices: wrapper.power_devices,
            };
            let (after, step) = wrapper.command_resumed(state, command, action, reply);
            match command {
                RequestData::GiveContent(content) => {
                    let (device_after, device_step) = device.content_resumed(
                        state,
                        content,
                        action,
                        reply matches CfuReply::Done(Ok(_)),
                    );
                    &&& after == device_after
                    &&& match device_step {
                        DeviceStepView::Perform(next) => step == CfuStepView::Perform(next),
                        DeviceStepView::Return(Ok(response)) => step == CfuStepView::Respond(
                            InternalResponseData::ContentResponse(response),
                        ),
                        DeviceStepView::Return(Err(response)) => step == CfuStepView::Respond(
                            response,
                        ),
                    }
                },
                RequestData::GiveOffer(offer) => {
                    &&& after == state
                    &&& match device.offer_resumed(offer, reply) {
                        DeviceStepView::Perform(next) => step == CfuStepView::Perform(next),
                        DeviceStepView::Return(Ok(response)) => step == CfuStepView::Respond(
                            InternalResponseData::OfferResponse(response),
                        ),
                        DeviceStepView::Return(Err(response)) => step == CfuStepView::Respond(
                            response,
                        ),
                    }
                },
                RequestData::AbortUpdate => {
                    &&& step matches CfuStepView::Respond(InternalResponseData::ComponentPrepared)
                    &&& reply is Done && reply->Done_0 is Ok ==> after is Idle
                    &&& !(reply is Done && reply->Done_0 is Ok) ==> after is Recovery
                },
                RequestData::FwVersionRequest => {
                    &&& after == state
                    &&& step matches CfuStepView::Respond(
                        InternalResponseData::FwVersionResponse(response),
                    )
                    &&& response.header.component_count == 1
                    &&& response.header.byte3 is NoSpecialFlags
                    &&& forall|i: int|
                        0 <= i < 7 ==> {
                            &&& reply matches CfuReply::FwVersion(Ok(version)) ==> (
                            #[trigger] response.component_info@[i]).fw_version.version == version
                            &&& !(reply matches CfuReply::FwVersion(Ok(_)))
                                ==> response.component_info@[i].fw_version.version == 0xffffffff
                            &&& response.component_info@[i].component_id == wrapper.component_id
                        }
                },
                _ => true,
            }
        }),
{
}

/// The first step of a command is the first operation that it performs, or its
/// response if it performs none.
pub proof fn commands_begin_as_their_runs_do(
    wrapper: ControllerWrapper,
    state: FwUpdateState,
    command: RequestData,
    outcomes: Outcomes,
)
    requires
        command matches RequestData::GiveContent(content) ==> state is Recovery
            || content.header.data_length <= 52,
    ensures
        ({
            let run = wrapper.command_run(state, command, outcomes);
            match wrapper.command_begun(state, command) {
                CfuStepView::Perform(action) => {
                    run.performed.len() > 0 && run.performed[0] == action
                },
                CfuStepView::Respond(response) => {
                    run.performed.len() == 0 && run.response == response && run.state == state
                },
            }
        }),
{
    reveal_with_fuel(ControllerWrapper::run_from, 2);
    assert(processable(state, command));
    assert(wrapper.takes(command, wrapper.command_begun(state, command)));
}

} // verus!
