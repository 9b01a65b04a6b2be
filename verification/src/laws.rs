//! What holds of firmware updates as a whole.
use crate::action::{write_block, CfuActionView, CfuReply, OperationFailed};
use crate::component::{EventCfu, InternalResponseData, RequestData};
use crate::device::{content_response, offer_rejection};
use crate::protocol::{
    CfuUpdateContentResponseStatus, FwUpdateContentCommand, FwUpdateOffer, FwVersion,
};
use crate::run::{done, run_is_as_described, Outcomes};
use crate::state::FwUpdateState;
use crate::wrapper::{
    processable, state_after_attempt, state_after_tick, tick_aborts, wait_for, CfuWait,
    ControllerWrapper,
};
use vstd::prelude::*;

verus! {

/// Something that happens to a controller.
pub enum CfuInput {
    /// A command is processed, with these outcomes of its operations.
    Command(RequestData, Outcomes),
    /// The ticker ticks. If the tick aborts the update, this tells whether the
    /// abort succeeds.
    Tick(bool),
}

impl CfuInput {
    /// Whether the input can be processed in the given state.
    pub open spec fn processable_in(self, state: FwUpdateState) -> bool {
        self matches CfuInput::Command(command, _) ==> processable(state, command)
    }

    /// Whether the input is a tick whose abort succeeds, if it aborts at all.
    pub open spec fn can_recover(self) -> bool {
        self matches CfuInput::Tick(aborted) && aborted
    }

    /// Whether the input is a command that may start or end an update.
    pub open spec fn may_change_update(self) -> bool {
        self matches CfuInput::Command(command, _) && may_change_state(command)
    }
}

/// Whether the command may start or end an update: it aborts it, or it gives
/// the first or the last block.
pub open spec fn may_change_state(command: RequestData) -> bool {
    match command {
        RequestData::AbortUpdate => true,
        RequestData::GiveContent(content) => {
            content.header.first_block() || content.header.last_block()
        },
        _ => false,
    }
}

/// The state after an input.
pub open spec fn state_after(
    wrapper: ControllerWrapper,
    state: FwUpdateState,
    input: CfuInput,
) -> FwUpdateState {
    match input {
        CfuInput::Command(command, outcomes) => wrapper.command_run(state, command, outcomes).state,
        CfuInput::Tick(aborted) => {
            let ticked = state_after_tick(state, wrapper.timeout_ticks);
            if tick_aborts(state, wrapper.timeout_ticks) {
                state_after_attempt(ticked, aborted)
            } else {
                ticked
            }
        },
    }
}

/// The state after inputs, one after the other.
pub open spec fn state_after_all(
    wrapper: ControllerWrapper,
    state: FwUpdateState,
    inputs: Seq<CfuInput>,
) -> FwUpdateState
    decreases inputs.len(),
{
    if inputs.len() == 0 {
        state
    } else {
        state_after(wrapper, state_after_all(wrapper, state, inputs.drop_last()), inputs.last())
    }
}

/// The operations that an input performs.
pub open spec fn performed_by(
    wrapper: ControllerWrapper,
    state: FwUpdateState,
    input: CfuInput,
) -> Seq<CfuActionView> {
    match input {
        CfuInput::Command(command, outcomes) => wrapper.command_run(
            state,
            command,
            outcomes,
        ).performed,
        CfuInput::Tick(_) => if tick_aborts(state, wrapper.timeout_ticks) {
            seq![CfuActionView::AbortFwUpdate]
        } else {
            seq![]
        },
    }
}

/// The operations that inputs perform, one after the other.
pub open spec fn performed_by_all(
    wrapper: ControllerWrapper,
    state: FwUpdateState,
    inputs: Seq<CfuInput>,
) -> Seq<CfuActionView>
    decreases inputs.len(),
{
    if inputs.len() == 0 {
        seq![]
    } else {
        let before = inputs.drop_last();
        performed_by_all(wrapper, state, before) + performed_by(
            wrapper,
            state_after_all(wrapper, state, before),
            inputs.last(),
        )
    }
}

/// The number of ticks among inputs.
pub open spec fn ticks_among(inputs: Seq<CfuInput>) -> nat
    decreases inputs.len(),
{
    if inputs.len() == 0 {
        0
    } else {
        ticks_among(inputs.drop_last()) + if inputs.last() is Tick {
            1nat
        } else {
            0nat
        }
    }
}

/// Whether every input can be processed in the state that it meets.
pub open spec fn all_processable(
    wrapper: ControllerWrapper,
    state: FwUpdateState,
    inputs: Seq<CfuInput>,
) -> bool
    decreases inputs.len(),
{
    inputs.len() > 0 ==> {
        &&& all_processable(wrapper, state, inputs.drop_last())
        &&& inputs.last().processable_in(state_after_all(wrapper, state, inputs.drop_last()))
    }
}

/// In recovery, every command is answered with "busy", performs no operation
/// and leaves the state alone. In any other state no command is answered so.
pub proof fn commands_are_turned_away_in_recovery_only(
    wrapper: ControllerWrapper,
    state: FwUpdateState,
    command: RequestData,
    outcomes: Outcomes,
)
    requires
        processable(state, command),
    ensures
        ({
            let run = wrapper.command_run(state, command, outcomes);
            &&& run.response is ComponentBusy <==> state is Recovery
            &&& state is Recovery ==> run.state is Recovery && run.performed.len() == 0
        }),
{
    run_is_as_described(wrapper, state, command, outcomes);
}

/// Recovery lasts, whatever commands come, overlong blocks among them, and
/// however often the abort fails, until a tick aborts the update. The first tick that does leads to idle.
pub proof fn recovery_lasts_until_an_abort_succeeds(
    wrapper: ControllerWrapper,
    inputs: Seq<CfuInput>,
    input: CfuInput,
)
    requires
        forall|i: int| 0 <= i < inputs.len() ==> !(#[trigger] inputs[i]).can_recover(),
    ensures
        ({
            let state = state_after_all(wrapper, FwUpdateState::Recovery, inputs);
            &&& state is Recovery
            &&& state_after(wrapper, state, input) == if input.can_recover() {
                FwUpdateState::Idle
            } else {
                FwUpdateState::Recovery
            }
        }),
    decreases inputs.len(),
{
    if inputs.len() > 0 {
        assert forall|i: int| 0 <= i < inputs.len() - 1 implies
            !(#[trigger] inputs.drop_last()[i]).can_recover() by {
            assert(!inputs[i].can_recover());
        }
        assert(!inputs[inputs.len() - 1].can_recover());
        recovery_lasts_until_an_abort_succeeds(wrapper, inputs.drop_last(), inputs.last());
    }
    if let CfuInput::Command(command, outcomes) = input {
        run_is_as_described(wrapper, FwUpdateState::Recovery, command, outcomes);
    }
}

/// The tick count never reaches the timeout, whatever happens, and another
/// tick can always be counted. With a timeout of no ticks at all, the count
/// stays zero.
pub proof fn tick_count_stays_within_timeout(
    wrapper: ControllerWrapper,
    state: FwUpdateState,
    inputs: Seq<CfuInput>,
)
    requires
        state.within(wrapper.timeout_ticks),
        all_processable(wrapper, state, inputs),
    ensures
        state_after_all(wrapper, state, inputs).within(wrapper.timeout_ticks),
        state_after_all(wrapper, state, inputs).countable(),
        state_after_all(wrapper, state, inputs) matches FwUpdateState::InProgress(ticks) ==> ticks
            < wrapper.timeout_ticks || ticks == wrapper.timeout_ticks == 0,
    decreases inputs.len(),
{
    if inputs.len() > 0 {
        tick_count_stays_within_timeout(wrapper, state, inputs.drop_last());
        let before = state_after_all(wrapper, state, inputs.drop_last());
        if let CfuInput::Command(command, outcomes) = inputs.last() {
            run_is_as_described(wrapper, before, command, outcomes);
        }
    }
}

/// A command that neither aborts the update nor gives its first or last block
/// leaves the state alone.
pub proof fn other_commands_leave_the_state_alone(
    wrapper: ControllerWrapper,
    state: FwUpdateState,
    command: RequestData,
    outcomes: Outcomes,
)
    requires
        processable(state, command),
        !may_change_state(command),
    ensures
        wrapper.command_run(state, command, outcomes).state == state,
{
    run_is_as_described(wrapper, state, command, outcomes);
}

/// An update times out by ticks alone: blocks that come in between do not put
/// the timeout off. As long as nothing starts or ends an update, every tick is
/// counted until the timeout is reached, and the tick that reaches it aborts
/// the update.
pub proof fn update_times_out(wrapper: ControllerWrapper, ticks: u8, inputs: Seq<CfuInput>)
    requires
        all_processable(wrapper, FwUpdateState::InProgress(ticks), inputs),
        forall|i: int| 0 <= i < inputs.len() ==> !(#[trigger] inputs[i]).may_change_update(),
        ticks_among(inputs) == 0 || ticks + ticks_among(inputs) < wrapper.timeout_ticks,
    ensures
        ({
            let count = ticks + ticks_among(inputs);
            let state = state_after_all(wrapper, FwUpdateState::InProgress(ticks), inputs);
            &&& state == FwUpdateState::InProgress(count as u8)
            &&& tick_aborts(state, wrapper.timeout_ticks) <==> count + 1 >= wrapper.timeout_ticks
        }),
    decreases inputs.len(),
{
    if inputs.len() > 0 {
        assert forall|i: int| 0 <= i < inputs.len() - 1 implies
            !(#[trigger] inputs.drop_last()[i]).may_change_update() by {
            assert(!inputs[i].may_change_update());
        }
        assert(!inputs[inputs.len() - 1].may_change_update());
        update_times_out(wrapper, ticks, inputs.drop_last());
        let before = state_after_all(wrapper, FwUpdateState::InProgress(ticks), inputs.drop_last());
        if let CfuInput::Command(command, outcomes) = inputs.last() {
            other_commands_leave_the_state_alone(wrapper, before, command, outcomes);
        }
    }
}

/// An abort is answered alike whether it succeeds or not; the state tells the
/// difference.
pub proof fn abort_is_answered_alike(
    wrapper: ControllerWrapper,
    state: FwUpdateState,
    outcomes: Outcomes,
)
    requires
        !(state is Recovery),
    ensures
        ({
            let run = wrapper.command_run(state, RequestData::AbortUpdate, outcomes);
            &&& run.response is ComponentPrepared
            &&& run.performed == seq![CfuActionView::AbortFwUpdate]
            &&& run.state is Idle <==> outcomes.aborted
            &&& run.state is Recovery <==> !outcomes.aborted
        }),
{
    run_is_as_described(wrapper, state, RequestData::AbortUpdate, outcomes);
}

/// An offer that is not for this component reaches neither the controller nor
/// the validator. Any other offer is answered with what the validator says of
/// it and of the version that the controller runs; where that version cannot
/// be read, with the same rejection as an offer for another component.
pub proof fn offers_are_judged_by_the_validator(
    wrapper: ControllerWrapper,
    state: FwUpdateState,
    offer: FwUpdateOffer,
    outcomes: Outcomes,
)
    requires
        !(state is Recovery),
    ensures
        ({
            let run = wrapper.command_run(state, RequestData::GiveOffer(offer), outcomes);
            let ours = offer.component_info.component_id == wrapper.component_id;
            &&& run.state == state
            &&& !ours ==> run.performed.len() == 0 && run.response == offer_rejection()
            &&& ours && outcomes.version is Err ==> {
                &&& run.performed == seq![CfuActionView::GetActiveFwVersion]
                &&& run.response == offer_rejection()
            }
            &&& ours ==> (outcomes.version matches Ok(version) ==> {
                &&& run.performed == seq![
                    CfuActionView::GetActiveFwVersion,
                    CfuActionView::ValidateOffer { current: FwVersion { version }, offer },
                ]
                &&& run.response == InternalResponseData::OfferResponse(outcomes.offer_response)
            })
        }),
{
    run_is_as_described(wrapper, state, RequestData::GiveOffer(offer), outcomes);
}

/// Extended offers and offer information are rejected, whatever they hold;
/// requests to prepare and to finalize are granted. None of them performs an
/// operation or touches the state.
pub proof fn other_requests_are_answered_at_once(
    wrapper: ControllerWrapper,
    state: FwUpdateState,
    command: RequestData,
    outcomes: Outcomes,
)
    requires
        !(state is Recovery),
        command is GiveOfferExtended || command is GiveOfferInformation
            || command is PrepareComponentForUpdate || command is FinalizeUpdate,
    ensures
        ({
            let run = wrapper.command_run(state, command, outcomes);
            &&& run.state == state
            &&& run.performed.len() == 0
            &&& run.response == if command is GiveOfferExtended || command is GiveOfferInformation {
                offer_rejection()
            } else {
                InternalResponseData::ComponentPrepared
            }
        }),
{
    run_is_as_described(wrapper, state, command, outcomes);
}

/// A block is written if and only if the controller is not in recovery and the
/// block is not the first of an update, or all power devices have been detached
/// and the update has been started. What is written is the data of the block,
/// at its address.
pub proof fn block_is_written_only_when_ready(
    wrapper: ControllerWrapper,
    state: FwUpdateState,
    content: FwUpdateContentCommand,
    outcomes: Outcomes,
)
    requires
        processable(state, RequestData::GiveContent(content)),
    ensures
        ({
            let run = wrapper.command_run(state, RequestData::GiveContent(content), outcomes);
            let ready = !content.header.first_block() || (outcomes.all_detached(
                wrapper.power_devices as int,
            ) && outcomes.started);
            &&& run.performed.contains(write_block(content)) <==> ready && !(state is Recovery)
            &&& forall|i: int|
                0 <= i < run.performed.len() && (#[trigger] run.performed[i]) is WriteFwContents
                    ==> run.performed[i] == write_block(content)
        }),
{
    run_is_as_described(wrapper, state, RequestData::GiveContent(content), outcomes);
    power_devices_are_detached_in_order(wrapper, outcomes);
    let run = wrapper.command_run(state, RequestData::GiveContent(content), outcomes);
    let preparation = wrapper.preparation(content, outcomes);
    if wrapper.gets_written(content, outcomes) && !(state is Recovery) {
        assert(run.performed[preparation.len() as int] == write_block(content));
    }
}

/// A block is reported as a success if and only if it was not turned away and
/// every operation that it called for succeeded. Any other answer to it carries
/// its sequence number too, except that a failure to finalize is answered with
/// the rejection of an offer, and a block in recovery with "busy".
pub proof fn block_succeeds_only_as_a_whole(
    wrapper: ControllerWrapper,
    state: FwUpdateState,
    content: FwUpdateContentCommand,
    outcomes: Outcomes,
)
    requires
        processable(state, RequestData::GiveContent(content)),
    ensures
        ({
            let run = wrapper.command_run(state, RequestData::GiveContent(content), outcomes);
            let success = InternalResponseData::ContentResponse(
                content_response(content, CfuUpdateContentResponseStatus::Success),
            );
            &&& run.response == success <==> {
                &&& !(state is Recovery)
                &&& content.header.first_block() ==> outcomes.all_detached(
                    wrapper.power_devices as int,
                ) && outcomes.started
                &&& outcomes.written
                &&& content.header.last_block() ==> outcomes.finalized
            }
            &&& run.response matches InternalResponseData::ContentResponse(response)
                ==> response.sequence == content.header.sequence_num
            &&& !(run.response is ContentResponse) ==> {
                &&& run.state is Recovery
                &&& run.response == if state is Recovery {
                    InternalResponseData::ComponentBusy
                } else {
                    offer_rejection()
                }
                &&& !(state is Recovery) ==> content.header.last_block() && !outcomes.finalized
            }
        }),
{
    run_is_as_described(wrapper, state, RequestData::GiveContent(content), outcomes);
}

/// Power devices are detached one by one, in order, up to and with the first
/// that fails.
pub proof fn power_devices_are_detached_in_order(wrapper: ControllerWrapper, outcomes: Outcomes)
    ensures
        ({
            let attempts = wrapper.detach_attempts(outcomes, 0);
            &&& attempts.len() <= wrapper.power_devices
            &&& forall|i: int|
                0 <= i < attempts.len() ==> #[trigger] attempts[i] == CfuActionView::DetachPower(i)
            &&& outcomes.all_detached(attempts.len() - 1)
            &&& outcomes.all_detached(wrapper.power_devices as int) ==> attempts.len()
                == wrapper.power_devices
            &&& !outcomes.all_detached(wrapper.power_devices as int) ==> attempts.len() > 0 && !(
            outcomes.detached)(attempts.len() - 1)
        }),
{
    lemma_detach_attempts(wrapper, outcomes, 0);
}

proof fn lemma_detach_attempts(wrapper: ControllerWrapper, outcomes: Outcomes, index: int)
    requires
        0 <= index <= wrapper.power_devices,
        outcomes.all_detached(index),
    ensures
        ({
            let attempts = wrapper.detach_attempts(outcomes, index);
            &&& index + attempts.len() <= wrapper.power_devices
            &&& forall|i: int|
                0 <= i < attempts.len() ==> #[trigger] attempts[i] == CfuActionView::DetachPower(
                    index + i,
                )
            &&& outcomes.all_detached(index + attempts.len() - 1)
            &&& outcomes.all_detached(wrapper.power_devices as int) ==> index + attempts.len()
                == wrapper.power_devices
            &&& !outcomes.all_detached(wrapper.power_devices as int) ==> attempts.len() > 0 && !(
            outcomes.detached)(index + attempts.len() - 1)
        }),
    decreases wrapper.power_devices - index,
{
    if index < wrapper.power_devices {
        if (outcomes.detached)(index) {
            lemma_detach_attempts(wrapper, outcomes, index + 1);
        }
    }
}

/// A command performs no operation twice, and at most four besides those that
/// detach power devices.
pub proof fn no_operation_is_performed_twice(
    wrapper: ControllerWrapper,
    state: FwUpdateState,
    command: RequestData,
    outcomes: Outcomes,
)
    requires
        processable(state, command),
    ensures
        wrapper.command_run(state, command, outcomes).performed.no_duplicates(),
        wrapper.command_run(state, command, outcomes).performed.len() <= wrapper.power_devices + 4,
{
    run_is_as_described(wrapper, state, command, outcomes);
    power_devices_are_detached_in_order(wrapper, outcomes);
}

/// Whether two operations have the same outcome: they are one operation, or
/// of a kind that a command performs once at most.
pub open spec fn same_outcome(one: CfuActionView, other: CfuActionView) -> bool {
    ||| one == other
    ||| one is ValidateOffer && other is ValidateOffer
    ||| one is WriteFwContents && other is WriteFwContents
}

/// Any reply that an operation can have is an outcome of it, whatever the
/// outcomes of other operations are.
pub proof fn any_reply_is_an_outcome(
    outcomes: Outcomes,
    action: CfuActionView,
    reply: CfuReply,
) -> (result: Outcomes)
    requires
        action.answered_by(reply),
    ensures
        result.reply(action) == reply,
        forall|other: CfuActionView|
            !same_outcome(action, other) ==> #[trigger] result.reply(other) == outcomes.reply(
                other,
            ),
{
    let success = reply.success();
    if let CfuReply::Done(outcome) = reply {
        match outcome {
            Ok(value) => {
                assert(value == ());
            },
            Err(error) => {
                assert(error == OperationFailed);
            },
        }
        assert(reply == done(success));
    }
    match action {
        CfuActionView::GetActiveFwVersion => Outcomes { version: reply.version(), ..outcomes },
        CfuActionView::ValidateOffer { .. } => Outcomes {
            offer_response: reply->OfferResponse_0,
            ..outcomes
        },
        CfuActionView::DetachPower(index) => Outcomes {
            detached: |i: int|
                if i == index {
                    success
                } else {
                    (outcomes.detached)(i)
                },
            ..outcomes
        },
        CfuActionView::ResetTicker => outcomes,
        CfuActionView::StartFwUpdate => Outcomes { started: success, ..outcomes },
        CfuActionView::WriteFwContents { .. } => Outcomes { written: success, ..outcomes },
        CfuActionView::FinalizeFwUpdate => Outcomes { finalized: success, ..outcomes },
        CfuActionView::AbortFwUpdate => Outcomes { aborted: success, ..outcomes },
    }
}

/// Whether the blocks make up an update: the first and only the first is
/// marked as such, and so is the last.
pub open spec fn is_update(blocks: Seq<FwUpdateContentCommand>) -> bool {
    &&& blocks.len() > 0
    &&& forall|i: int|
        0 <= i < blocks.len() ==> {
            &&& (#[trigger] blocks[i]).valid()
            &&& blocks[i].header.first_block() <==> i == 0
            &&& blocks[i].header.last_block() <==> i == blocks.len() - 1
        }
}

/// Whether every operation that a block can call for succeeds.
pub open spec fn all_succeed(wrapper: ControllerWrapper, outcomes: Outcomes) -> bool {
    &&& outcomes.all_detached(wrapper.power_devices as int)
    &&& outcomes.started
    &&& outcomes.written
    &&& outcomes.finalized
}

/// The commands that give the first `count` of the blocks.
pub open spec fn give_blocks(
    blocks: Seq<FwUpdateContentCommand>,
    outcomes: Seq<Outcomes>,
    count: int,
) -> Seq<CfuInput> {
    Seq::new(
        count as nat,
        |i: int| CfuInput::Command(RequestData::GiveContent(blocks[i]), outcomes[i]),
    )
}

/// The operations that start an update: all power devices are detached, the
/// ticker is reset, the controller starts.
pub open spec fn start_of_update(wrapper: ControllerWrapper) -> Seq<CfuActionView> {
    Seq::new(wrapper.power_devices as nat, |i: int| CfuActionView::DetachPower(i)) + seq![
        CfuActionView::ResetTicker,
        CfuActionView::StartFwUpdate,
    ]
}

/// The operations that write the first `count` of the blocks.
pub open spec fn writes(blocks: Seq<FwUpdateContentCommand>, count: int) -> Seq<CfuActionView> {
    Seq::new(count as nat, |i: int| write_block(blocks[i]))
}

/// An update whose operations all succeed starts the controller once, writes
/// every block in order and nothing else, finalizes once and ends idle. On the
/// way it is in progress, and every block is reported as a success.
pub proof fn update_writes_its_blocks(
    wrapper: ControllerWrapper,
    state: FwUpdateState,
    blocks: Seq<FwUpdateContentCommand>,
    outcomes: Seq<Outcomes>,
)
    requires
        !(state is Recovery),
        is_update(blocks),
        outcomes.len() == blocks.len(),
        forall|i: int| 0 <= i < outcomes.len() ==> all_succeed(wrapper, #[trigger] outcomes[i]),
    ensures
        performed_by_all(wrapper, state, give_blocks(blocks, outcomes, blocks.len() as int))
            == start_of_update(wrapper) + writes(blocks, blocks.len() as int)
            + seq![CfuActionView::FinalizeFwUpdate],
        state_after_all(wrapper, state, give_blocks(blocks, outcomes, blocks.len() as int))
            is Idle,
        forall|count: int|
            0 < count < blocks.len() ==> #[trigger] state_after_all(
                wrapper,
                state,
                give_blocks(blocks, outcomes, count),
            ) == FwUpdateState::InProgress(0),
        forall|i: int|
            #![trigger blocks[i]]
            0 <= i < blocks.len() ==> wrapper.command_run(
                state_after_all(wrapper, state, give_blocks(blocks, outcomes, i)),
                RequestData::GiveContent(blocks[i]),
                outcomes[i],
            ).response == InternalResponseData::ContentResponse(
                content_response(blocks[i], CfuUpdateContentResponseStatus::Success),
            ),
{
    assert forall|count: int| 0 < count < blocks.len() implies #[trigger] state_after_all(
        wrapper,
        state,
        give_blocks(blocks, outcomes, count),
    ) == FwUpdateState::InProgress(0) by {
        lemma_update_so_far(wrapper, state, blocks, outcomes, count);
    }
    assert forall|i: int|
        #![trigger blocks[i]]
        0 <= i < blocks.len() implies wrapper.command_run(
        state_after_all(wrapper, state, give_blocks(blocks, outcomes, i)),
        RequestData::GiveContent(blocks[i]),
        outcomes[i],
    ).response == InternalResponseData::ContentResponse(
        content_response(blocks[i], CfuUpdateContentResponseStatus::Success),
    ) by {
        lemma_update_so_far(wrapper, state, blocks, outcomes, i);
        let before = state_after_all(wrapper, state, give_blocks(blocks, outcomes, i));
        assert(all_succeed(wrapper, outcomes[i]));
        run_is_as_described(wrapper, before, RequestData::GiveContent(blocks[i]), outcomes[i]);
    }
    lemma_update_so_far(wrapper, state, blocks, outcomes, blocks.len() as int);
}

proof fn lemma_update_so_far(
    wrapper: ControllerWrapper,
    state: FwUpdateState,
    blocks: Seq<FwUpdateContentCommand>,
    outcomes: Seq<Outcomes>,
    count: int,
)
    requires
        !(state is Recovery),
        is_update(blocks),
        outcomes.len() == blocks.len(),
        forall|i: int| 0 <= i < outcomes.len() ==> all_succeed(wrapper, #[trigger] outcomes[i]),
        0 <= count <= blocks.len(),
    ensures
        state_after_all(wrapper, state, give_blocks(blocks, outcomes, count)) == if count == 0 {
            state
        } else if count < blocks.len() {
            FwUpdateState::InProgress(0)
        } else {
            FwUpdateState::Idle
        },
        performed_by_all(wrapper, state, give_blocks(blocks, outcomes, count)) == if count == 0 {
            seq![]
        } else if count < blocks.len() {
            start_of_update(wrapper) + writes(blocks, count)
        } else {
            start_of_update(wrapper) + writes(blocks, count) + seq![CfuActionView::FinalizeFwUpdate]
        },
    decreases count,
{
    if count > 0 {
        let last = count - 1;
        lemma_update_so_far(wrapper, state, blocks, outcomes, last);
        let inputs = give_blocks(blocks, outcomes, count);
        assert(inputs.drop_last() =~= give_blocks(blocks, outcomes, last));
        let before = state_after_all(wrapper, state, inputs.drop_last());
        let command = RequestData::GiveContent(blocks[last]);
        assert(blocks[last].valid());
        assert(all_succeed(wrapper, outcomes[last]));
        run_is_as_described(wrapper, before, command, outcomes[last]);
        power_devices_are_detached_in_order(wrapper, outcomes[last]);
        assert(writes(blocks, count) =~= writes(blocks, last) + seq![write_block(blocks[last])]);
        if last == 0 {
            assert(wrapper.preparation(blocks[0], outcomes[0]) =~= start_of_update(wrapper));
            assert(writes(blocks, 0) =~= seq![]);
        }
    }
}

/// Whether the wait can end with the event.
pub open spec fn can_end_with(wait: CfuWait, event: EventCfu) -> bool {
    match event {
        EventCfu::Request(_) => wait is Request || wait is RequestOrTick,
        EventCfu::RecoveryTick => wait is Tick || wait is RequestOrTick,
    }
}

/// A command that was waited for is never turned away, and a tick that was
/// waited for always counts: it advances the count or aborts the update.
pub proof fn waits_are_for_what_is_of_use(
    wrapper: ControllerWrapper,
    state: FwUpdateState,
    command: RequestData,
    outcomes: Outcomes,
)
    requires
        processable(state, command),
    ensures
        can_end_with(wait_for(state), EventCfu::Request(command)) <==> !(wrapper.command_run(
            state,
            command,
            outcomes,
        ).response is ComponentBusy),
        can_end_with(wait_for(state), EventCfu::RecoveryTick) <==> !(state is Idle),
        state is Idle ==> !tick_aborts(state, wrapper.timeout_ticks) && state_after_tick(
            state,
            wrapper.timeout_ticks,
        ) == state,
        state is Recovery ==> tick_aborts(state, wrapper.timeout_ticks),
        state is InProgress && state.countable() ==> tick_aborts(state, wrapper.timeout_ticks)
            || state_after_tick(state, wrapper.timeout_ticks) == FwUpdateState::InProgress(
            (state->InProgress_0 + 1) as u8,
        ),
{
    run_is_as_described(wrapper, state, command, outcomes);
}

} // verus!
