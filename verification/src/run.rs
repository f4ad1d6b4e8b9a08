use crate::message_queue::{ticked, MessageQueue};
use crate::system::System;
use vstd::prelude::*;

verus! {

/// `states` is a run of `systems` in list order: system `i` leads from
/// `states[i]` (program state, queue) to `states[i + 1]`.
pub open spec fn runs_through<ProgramState, Message>(
    systems: Seq<Box<dyn System<ProgramState, Message>>>,
    states: Seq<(ProgramState, (Seq<Message>, Seq<Message>))>,
) -> bool {
    &&& states.len() == systems.len() + 1
    &&& forall|i: int|
        #![trigger systems[i]]
        0 <= i < systems.len() ==> systems[i].update_step(
            states[i].0,
            states[i + 1].0,
            states[i].1,
            states[i + 1].1,
        )
}

/// `after` holds, in list order, the systems of `before` as the run through
/// `states` leaves them: entry `i` is system `i` after its one update.
pub open spec fn left_by_run<ProgramState, Message>(
    after: Seq<Box<dyn System<ProgramState, Message>>>,
    states: Seq<(ProgramState, (Seq<Message>, Seq<Message>))>,
) -> bool {
    forall|i: int|
        #![trigger after[i]]
        0 <= i < after.len() ==> after[i].updated_by(
            states[i].0,
            states[i + 1].0,
            states[i].1,
            states[i + 1].1,
        )
}

/// One tick of the main loop: the messages queued during the previous tick
/// become the current ones, then every system, in list order, updates once,
/// each handed the program state and queue that the one before it left.
///
/// The tick keeps the list of systems: entry `i` afterwards is system `i` as
/// its own update left it.
pub fn run_tick<ProgramState, Message>(
    program_state: &mut ProgramState,
    message_queue: &mut MessageQueue<Message>,
    systems: &mut Vec<Box<dyn System<ProgramState, Message>>>,
)
    ensures
        final(systems)@.len() == old(systems)@.len(),
        exists|states: Seq<(ProgramState, (Seq<Message>, Seq<Message>))>|
            {
                &&& runs_through(old(systems)@, states)
                &&& left_by_run(final(systems)@, states)
                &&& states[0] == (*old(program_state), ticked(old(message_queue)@))
                &&& states.last() == (*final(program_state), final(message_queue)@)
            },
        old(systems)@.len() == 0 ==> {
            &&& final(message_queue)@ == ticked(old(message_queue)@)
            &&& *final(program_state) == *old(program_state)
        },
{
    message_queue.next_tick();
    let ghost start = (*program_state, message_queue@);
    let ghost mut states: Seq<(ProgramState, (Seq<Message>, Seq<Message>))> = seq![start];
    let ghost old_systems = systems@;
    let n = systems.len();
    let mut i: usize = 0;
    while i < n
        invariant
            systems@.len() == n,
            n == old_systems.len(),
            i <= n,
            forall|j: int| i <= j < n ==> systems@[j] == old_systems[j],
            states.len() == i + 1,
            forall|j: int|
                0 <= j < i ==> #[trigger] systems@[j].updated_by(
                    states[j].0,
                    states[j + 1].0,
                    states[j].1,
                    states[j + 1].1,
                ),
            forall|j: int|
                0 <= j < i ==> #[trigger] old_systems[j].update_step(
                    states[j].0,
                    states[j + 1].0,
                    states[j].1,
                    states[j + 1].1,
                ),
            states[0] == start,
            states.last() == (*program_state, message_queue@),
            start == (*old(program_state), ticked(old(message_queue)@)),
        decreases n - i,
    {
        systems[i].update(program_state, message_queue);
        proof {
            let prev = states;
            states = states.push((*program_state, message_queue@));
            assert forall|j: int| 0 <= j < i + 1 implies #[trigger] systems@[j].updated_by(
                states[j].0,
                states[j + 1].0,
                states[j].1,
                states[j + 1].1,
            ) by {
                if j < i {
                    assert(states[j] == prev[j]);
                    assert(states[j + 1] == prev[j + 1]);
                }
            }
            assert forall|j: int| 0 <= j < i + 1 implies #[trigger] old_systems[j].update_step(
                states[j].0,
                states[j + 1].0,
                states[j].1,
                states[j + 1].1,
            ) by {
                if j < i {
                    assert(states[j] == prev[j]);
                    assert(states[j + 1] == prev[j + 1]);
                }
            }
        }
        i = i + 1;
    }
}

} // verus!
