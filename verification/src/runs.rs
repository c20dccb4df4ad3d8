//! What holds of every run of a rotator: of the addresses it asks to add,
//! of those it asks to remove, and of the pool between them.

use vstd::prelude::*;

use crate::address::is_address;
use crate::command::Operation;
use crate::rotator::RotatorModel;
use crate::scheduler::Action;
use crate::scheduler::Event;
use crate::state::Phase;

verus! {

/// A run: the rotator goes from each state to the next by a step, on the
/// event and with the action that stand at the same place.
pub open spec fn is_run(states: Seq<RotatorModel>, events: Seq<Event>, actions: Seq<Action>) -> bool {
    &&& states.len() == events.len() + 1
    &&& actions.len() == events.len()
    &&& forall|i: int|
        0 <= i < events.len() ==> (#[trigger] states[i]).step(events[i], states[i + 1], actions[i])
}

/// The addresses of the commands of one operation that the actions ask for, in their order.
pub open spec fn applied(actions: Seq<Action>, operation: Operation) -> Seq<Seq<char>>
    decreases actions.len(),
{
    if actions.len() == 0 {
        Seq::empty()
    } else {
        let before = applied(actions.drop_last(), operation);
        match actions.last() {
            Action::Apply(command) => if command@.operation == operation {
                before.push(command@.address)
            } else {
                before
            },
            _ => before,
        }
    }
}

/// Whether a rotator has not begun to drain yet.
pub open spec fn at_work(rotator: RotatorModel) -> bool {
    rotator.state.phase == Phase::Idle || rotator.state.phase == Phase::Rotating
}

/// What a run has come to, seen from the pool it began with: while the
/// rotator is at work the pool holds what it held and what was added, and
/// nothing was removed; while it drains, the addresses up to the cursor were
/// removed; when it has stopped, all that was ever in the pool was removed,
/// and the pool is empty.
pub open spec fn accounted(first: RotatorModel, last: RotatorModel, actions: Seq<Action>) -> bool {
    let added = applied(actions, Operation::Add);
    let removed = applied(actions, Operation::Delete);
    match last.state.phase {
        Phase::Idle | Phase::Rotating => {
            &&& last.state.pool == first.state.pool + added
            &&& removed.len() == 0
        },
        Phase::Draining => {
            &&& last.state.pool == first.state.pool + added
            &&& 0 <= last.state.cursor < last.state.pool.len()
            &&& removed == last.state.pool.take(last.state.cursor + 1)
        },
        Phase::Stopped => {
            &&& last.state.pool.len() == 0
            &&& removed == first.state.pool + added
        },
    }
}

/// The part of a run that is left when its last step is taken away is a run.
proof fn lemma_run_front(states: Seq<RotatorModel>, events: Seq<Event>, actions: Seq<Action>)
    requires
        is_run(states, events, actions),
        events.len() > 0,
    ensures
        is_run(states.drop_last(), events.drop_last(), actions.drop_last()),
        states.drop_last()[0] == states[0],
        states.drop_last().last() == states[events.len() - 1],
        states[events.len() - 1].step(events.last(), states.last(), actions.last()),
{
    let front = states.drop_last();
    assert forall|i: int| 0 <= i < events.drop_last().len() implies (#[trigger] front[i]).step(
        events.drop_last()[i],
        front[i + 1],
        actions.drop_last()[i],
    ) by {}
}

/// The part of a run that is left when its first step is taken away is a run.
proof fn lemma_run_rest(states: Seq<RotatorModel>, events: Seq<Event>, actions: Seq<Action>)
    requires
        is_run(states, events, actions),
        events.len() > 0,
    ensures
        is_run(
            states.subrange(1, states.len() as int),
            events.subrange(1, events.len() as int),
            actions.subrange(1, actions.len() as int),
        ),
        states[0].step(events[0], states[1], actions[0]),
{
    let rest = states.subrange(1, states.len() as int);
    let later = events.subrange(1, events.len() as int);
    let asked = actions.subrange(1, actions.len() as int);
    assert forall|i: int| 0 <= i < later.len() implies (#[trigger] rest[i]).step(
        later[i],
        rest[i + 1],
        asked[i],
    ) by {}
}

/// What two lists of actions ask for one after the other is what the first
/// asks for and then what the second asks for.
proof fn lemma_applied_concat(left: Seq<Action>, right: Seq<Action>, operation: Operation)
    ensures
        applied(left + right, operation) == applied(left, operation) + applied(right, operation),
    decreases right.len(),
{
    if right.len() > 0 {
        assert((left + right).drop_last() =~= left + right.drop_last());
        lemma_applied_concat(left, right.drop_last(), operation);
    }
}

/// A step leads from a state that is accounted for to another.
proof fn lemma_step_accounted(
    first: RotatorModel,
    before: RotatorModel,
    event: Event,
    after: RotatorModel,
    asked: Seq<Action>,
    action: Action,
)
    requires
        accounted(first, before, asked),
        before.step(event, after, action),
    ensures
        accounted(first, after, asked.push(action)),
{
    let added = applied(asked, Operation::Add);
    let removed = applied(asked, Operation::Delete);
    assert(asked.push(action).drop_last() =~= asked);
    match before.state.phase {
        Phase::Idle | Phase::Rotating => {
            if after.state.phase == Phase::Draining {
                assert(after.state.pool.take(1) =~= removed.push(after.state.pool[0]));
            } else if after.state.phase == Phase::Stopped {
                assert(first.state.pool + added =~= removed);
            }
        },
        Phase::Draining => {
            if event is Applied {
                if after.state.phase == Phase::Draining {
                    assert(after.state.pool.take(after.state.cursor + 1) =~= removed.push(
                        after.state.pool[after.state.cursor],
                    ));
                } else {
                    assert(before.state.pool.take(before.state.cursor + 1) =~= before.state.pool);
                }
            }
        },
        Phase::Stopped => {},
    }
}

/// Every run of a rotator that was at work when the run began is accounted
/// for. So, while the rotator has not stopped, the addresses that it asked
/// to add since then are those that the pool holds behind the ones it held,
/// one command for each and in the same order. And once it has stopped, it
/// has asked to remove each address that was ever in the pool, once and
/// in the order in which they were added, however the commands ended.
pub proof fn lemma_run_accounted(
    states: Seq<RotatorModel>,
    events: Seq<Event>,
    actions: Seq<Action>,
)
    requires
        is_run(states, events, actions),
        at_work(states[0]),
    ensures
        accounted(states[0], states.last(), actions),
    decreases events.len(),
{
    if events.len() > 0 {
        lemma_run_front(states, events, actions);
        lemma_run_accounted(states.drop_last(), events.drop_last(), actions.drop_last());
        lemma_step_accounted(
            states[0],
            states[events.len() - 1],
            events.last(),
            states.last(),
            actions.drop_last(),
            actions.last(),
        );
        assert(actions.drop_last().push(actions.last()) =~= actions);
    }
}

/// The requests to add match the pool. Take a run of a rotator that began
/// with an empty pool and has not stopped. Then the pool holds exactly the
/// addresses that the rotator asked to add, one for each request and in
/// the order of the requests.
pub proof fn lemma_adds_match_pool(
    states: Seq<RotatorModel>,
    events: Seq<Event>,
    actions: Seq<Action>,
)
    requires
        is_run(states, events, actions),
        at_work(states[0]),
        states[0].state.pool.len() == 0,
        states.last().state.phase != Phase::Stopped,
    ensures
        states.last().state.pool == applied(actions, Operation::Add),
{
    lemma_run_accounted(states, events, actions);
}

/// A rotator that has begun to drain asks for no address to be added any more.
pub proof fn lemma_no_add_after_drain(
    states: Seq<RotatorModel>,
    events: Seq<Event>,
    actions: Seq<Action>,
)
    requires
        is_run(states, events, actions),
        !at_work(states[0]),
    ensures
        !at_work(states.last()),
        applied(actions, Operation::Add).len() == 0,
    decreases events.len(),
{
    if events.len() > 0 {
        lemma_run_front(states, events, actions);
        lemma_no_add_after_drain(states.drop_last(), events.drop_last(), actions.drop_last());
    }
}

/// The drain covers the pool. Take a run whose first step begins the drain
/// and which ends with the rotator stopped. Then the addresses that the
/// rotator asked to remove are those that the pool held when the drain
/// began, each once and oldest first, and the pool is empty at the end. The
/// events of the run are any: among them may be commands that failed.
pub proof fn lemma_drain_covers_pool(
    states: Seq<RotatorModel>,
    events: Seq<Event>,
    actions: Seq<Action>,
)
    requires
        is_run(states, events, actions),
        events.len() > 0,
        at_work(states[0]),
        !at_work(states[1]),
        states.last().state.phase == Phase::Stopped,
    ensures
        applied(actions, Operation::Delete) == states[0].state.pool,
        applied(actions, Operation::Add).len() == 0,
        states.last().state.pool.len() == 0,
{
    lemma_run_accounted(states, events, actions);
    lemma_run_rest(states, events, actions);
    let rest = states.subrange(1, states.len() as int);
    let asked = actions.subrange(1, actions.len() as int);
    lemma_no_add_after_drain(rest, events.subrange(1, events.len() as int), asked);
    let opening = seq![actions[0]];
    assert(actions =~= opening + asked);
    lemma_applied_concat(opening, asked, Operation::Add);
    assert(applied(opening.drop_last(), Operation::Add).len() == 0);
}

/// What a request to add an address says: the address is one of the
/// rotator's block under its prefix, the command names the rotator's
/// device, and the pool, which did not hold the address, now ends with it.
pub proof fn lemma_add_is_sound(
    before: RotatorModel,
    event: Event,
    after: RotatorModel,
    action: Action,
)
    requires
        before.step(event, after, action),
        action is Apply,
        action->Apply_0@.operation == Operation::Add,
    ensures
        is_address(action->Apply_0@.address, before.network, before.block),
        action->Apply_0@.device == before.device,
        !before.state.pool.contains(action->Apply_0@.address),
        after.state.pool == before.state.pool.push(action->Apply_0@.address),
{
}

/// No run brings an address into the pool twice.
pub proof fn lemma_pool_distinct(
    states: Seq<RotatorModel>,
    events: Seq<Event>,
    actions: Seq<Action>,
)
    requires
        is_run(states, events, actions),
        states[0].state.pool.no_duplicates(),
    ensures
        states.last().state.pool.no_duplicates(),
    decreases events.len(),
{
    if events.len() > 0 {
        lemma_run_front(states, events, actions);
        lemma_pool_distinct(states.drop_last(), events.drop_last(), actions.drop_last());
    }
}

/// A rotator that starts with an empty pool never holds more addresses than
/// its configuration allows, and its configuration does not change.
pub proof fn lemma_pool_bounded(
    states: Seq<RotatorModel>,
    events: Seq<Event>,
    actions: Seq<Action>,
)
    requires
        is_run(states, events, actions),
        states[0].state.phase == Phase::Idle,
        states[0].state.pool.len() == 0,
    ensures
        states.last().state.pool.len() <= states[0].count,
        states.last().with_state(states[0].state) == states[0],
        states.last().state.phase == Phase::Idle ==> states.last().state.pool.len() == 0,
    decreases events.len(),
{
    if events.len() > 0 {
        lemma_run_front(states, events, actions);
        lemma_pool_bounded(states.drop_last(), events.drop_last(), actions.drop_last());
    }
}

} // verus!
