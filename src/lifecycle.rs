use vstd::prelude::*;
use crate::instance::{
    is_gated, is_state_changing, is_user_command, next_state, scheduled_op, updating_label,
    CommandModel, OpKind, StateModel,
};

verus! {

/// The state reached by applying the commands in order.
pub open spec fn run_commands(s: StateModel, cs: Seq<CommandModel>) -> StateModel
    decreases cs.len(),
{
    if cs.len() == 0 {
        s
    } else {
        run_commands(next_state(s, cs[0]), cs.drop_first())
    }
}

/// How many state-changing operations the commands schedule, in order.
pub open spec fn state_changing_scheduled(s: StateModel, cs: Seq<CommandModel>) -> nat
    decreases cs.len(),
{
    if cs.len() == 0 {
        0
    } else {
        let here: nat = match scheduled_op(s, cs[0]) {
            Some(k) => if is_state_changing(k) { 1 } else { 0 },
            None => 0,
        };
        here + state_changing_scheduled(next_state(s, cs[0]), cs.drop_first())
    }
}

pub open spec fn all_user_commands(cs: Seq<CommandModel>) -> bool {
    forall|i: int| 0 <= i < cs.len() ==> is_user_command(#[trigger] cs[i])
}

/// The three states of the lifecycle: idle, launched, or updating.
pub open spec fn in_cycle(s: StateModel) -> bool {
    s is Ready || s is Playing || (s is Working && s->status == updating_label())
}

/// A user command never moves an instance out of a transient state.
pub proof fn lemma_transient_state_holds(s: StateModel, c: CommandModel)
    requires
        is_user_command(c),
        !(s is Ready),
    ensures
        next_state(s, c) == s,
        is_gated(c) ==> scheduled_op(s, c) is None,
{
}

/// Once a state-changing operation has been scheduled, a second command
/// that would start work on the same instance is refused and changes
/// nothing, until the first reports back.
pub proof fn lemma_second_operation_refused(s: StateModel, first: CommandModel, second: CommandModel)
    requires
        scheduled_op(s, first) matches Some(k) && is_state_changing(k),
        is_gated(second),
    ensures
        scheduled_op(next_state(s, first), second) is None,
        next_state(next_state(s, first), second) == next_state(s, first),
{
}

/// Whatever user commands arrive, at most one state-changing operation is
/// scheduled on an instance before finished work reports back, and none
/// while it is not `Ready`.
pub proof fn lemma_at_most_one_in_flight(s: StateModel, cs: Seq<CommandModel>)
    requires
        all_user_commands(cs),
    ensures
        state_changing_scheduled(s, cs) <= 1,
        !(s is Ready) ==> state_changing_scheduled(s, cs) == 0,
    decreases cs.len(),
{
    if cs.len() > 0 {
        let rest = cs.drop_first();
        assert(is_user_command(cs[0]));
        assert forall|i: int| 0 <= i < rest.len() implies is_user_command(#[trigger] rest[i]) by {
            assert(rest[i] == cs[i + 1]);
        }
        lemma_at_most_one_in_flight(next_state(s, cs[0]), rest);
    }
}

/// User commands keep an instance within `Ready`, `Playing` and
/// `Working` with the update label; no other state is reachable.
pub proof fn lemma_user_commands_stay_in_cycle(s: StateModel, cs: Seq<CommandModel>)
    requires
        in_cycle(s),
        all_user_commands(cs),
    ensures
        in_cycle(run_commands(s, cs)),
    decreases cs.len(),
{
    if cs.len() > 0 {
        let rest = cs.drop_first();
        assert(is_user_command(cs[0]));
        assert forall|i: int| 0 <= i < rest.len() implies is_user_command(#[trigger] rest[i]) by {
            assert(rest[i] == cs[i + 1]);
        }
        lemma_user_commands_stay_in_cycle(next_state(s, cs[0]), rest);
    }
}

/// The report that finished work delivers returns any state to `Ready`.
pub proof fn lemma_completion_restores_ready(s: StateModel)
    ensures
        next_state(s, CommandModel::StateChanged(StateModel::Ready)) is Ready,
{
}


/// A `Ready` instance that accepts `Play` is `Playing` and schedules a
/// launch with the same debug flag; the `Ready` report that every launch
/// session ends with returns it to `Ready`.
pub proof fn lemma_play_cycle(s: StateModel, debug: bool)
    requires
        s is Ready,
    ensures
        next_state(s, CommandModel::Play(debug)) is Playing,
        scheduled_op(s, CommandModel::Play(debug)) == Some(OpKind::Launch(debug)),
        next_state(
            next_state(s, CommandModel::Play(debug)),
            CommandModel::StateChanged(StateModel::Ready),
        ) is Ready,
{
}

} // verus!
