use crate::message_queue::MessageQueue;
use vstd::prelude::*;

verus! {

/// A unit of the program's behaviour. Each tick, a system reads the messages
/// of the current tick, may change the program state, and may queue
/// messages for the next tick.
pub trait System<ProgramState, Message> {
    /// What one update of this system may do: from program state `ps` and
    /// queue `q` (current tick, next tick) it may lead to `new_ps` and `new_q`.
    /// An implementation says this of itself; one that says nothing allows
    /// any step.
    open spec fn update_step(
        &self,
        ps: ProgramState,
        new_ps: ProgramState,
        q: (Seq<Message>, Seq<Message>),
        new_q: (Seq<Message>, Seq<Message>),
    ) -> bool {
        true
    }

    /// This system is as one update leaves it, an update that led from
    /// program state `ps` and queue `q` to `new_ps` and `new_q`. An
    /// implementation says this of itself; one that says nothing allows any
    /// system.
    open spec fn updated_by(
        &self,
        ps: ProgramState,
        new_ps: ProgramState,
        q: (Seq<Message>, Seq<Message>),
        new_q: (Seq<Message>, Seq<Message>),
    ) -> bool {
        true
    }

    fn update(&mut self, program_state: &mut ProgramState, messages: &mut MessageQueue<Message>)
        ensures
            old(self).update_step(
                *old(program_state),
                *final(program_state),
                old(messages)@,
                final(messages)@,
            ),
            final(self).updated_by(
                *old(program_state),
                *final(program_state),
                old(messages)@,
                final(messages)@,
            ),
    ;
}

} // verus!
