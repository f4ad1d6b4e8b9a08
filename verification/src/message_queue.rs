use std::collections::VecDeque;
use std::collections::vec_deque::{Iter, IterMut};
use vstd::std_specs::iter::IteratorSpec;
use vstd::prelude::*;

verus! {

/// Declares `std::collections::vec_deque::IterMut`, the iterator that
/// `VecDeque::iter_mut` returns, so that it can stand in signatures. Verus
/// sees nothing inside it.
#[verifier::external_type_specification]
#[verifier::external_body]
#[verifier::reject_recursive_types(T)]
pub struct ExIterMut<'a, T: 'a>(IterMut<'a, T>);

/// Calls `VecDeque::iter_mut`. Trusted: the iterator hands out one mutable
/// reference to each element of the deque, front to back; the deque keeps
/// its length, and each element ends up as it is left through its reference
/// (unchanged where nothing is written).
#[verifier::external_body]
fn deque_iter_mut<'a, T>(q: &'a mut VecDeque<T>) -> (it: IterMut<'a, T>)
    ensures
        final(q)@.len() == old(q)@.len(),
        it.remaining().len() == old(q)@.len(),
        forall|i: int| 0 <= i < old(q)@.len() ==> mut_ref_current(#[trigger] it.remaining()[i]) == old(q)@[i],
        forall|i: int| 0 <= i < old(q)@.len() ==> mut_ref_future(#[trigger] it.remaining()[i]) == final(q)@[i],
{
    q.iter_mut()
}

/// `iter_mut` changes the current messages in place and keeps their order:
/// with `before` the current tick when it is called, `items` what its
/// iterator hands out and `after` the current tick once the borrow ends (as
/// its contract relates them), a position whose reference is left unwritten
/// keeps its message, and when nothing is written the current tick is
/// unchanged, order included.
pub proof fn law_iter_mut_keeps_positions<T>(before: Seq<T>, after: Seq<T>, items: Seq<&mut T>)
    requires
        items.len() == before.len(),
        after.len() == before.len(),
        forall|i: int| 0 <= i < items.len() ==> mut_ref_current(#[trigger] items[i]) == before[i],
        forall|i: int| 0 <= i < items.len() ==> mut_ref_future(#[trigger] items[i]) == after[i],
    ensures
        forall|i: int|
            0 <= i < before.len() && mut_ref_future(#[trigger] items[i]) == mut_ref_current(items[i])
                ==> after[i] == before[i],
        (forall|i: int| 0 <= i < items.len() ==> mut_ref_future(#[trigger] items[i]) == mut_ref_current(items[i]))
            ==> after == before,
{
    if forall|i: int| 0 <= i < items.len() ==> mut_ref_future(#[trigger] items[i]) == mut_ref_current(items[i]) {
        assert forall|i: int| 0 <= i < before.len() implies after[i] == before[i] by {
            let r = items[i];
        }
        assert(after =~= before);
    }
}

/// Double-buffered message queue.
///
/// Messages pushed during a tick are held in `next_tick_queue`; they become
/// visible, in the order in which they were pushed, after the following call
/// of `next_tick`, and only for that one tick.
pub struct MessageQueue<T> {
    pub current_tick_queue: VecDeque<T>,
    pub next_tick_queue: VecDeque<T>,
}

impl<T> View for MessageQueue<T> {
    /// The messages of the current tick, then those queued for the next tick.
    type V = (Seq<T>, Seq<T>);

    open spec fn view(&self) -> (Seq<T>, Seq<T>) {
        (self.current_tick_queue@, self.next_tick_queue@)
    }
}

/// The queue state after `push(message)`.
pub open spec fn pushed<T>(q: (Seq<T>, Seq<T>), message: T) -> (Seq<T>, Seq<T>) {
    (q.0, q.1.push(message))
}

/// The queue state after `next_tick()`.
pub open spec fn ticked<T>(q: (Seq<T>, Seq<T>)) -> (Seq<T>, Seq<T>) {
    (q.1, Seq::empty())
}

/// The queue state after pushing each of `messages`, in order.
pub open spec fn pushed_all<T>(q: (Seq<T>, Seq<T>), messages: Seq<T>) -> (Seq<T>, Seq<T>)
    decreases messages.len(),
{
    if messages.len() == 0 {
        q
    } else {
        pushed(pushed_all(q, messages.drop_last()), messages.last())
    }
}

/// A message pushed during a tick is not among the messages of that tick.
pub proof fn law_push_not_seen_this_tick<T>(q: (Seq<T>, Seq<T>), message: T)
    ensures
        pushed(q, message).0 == q.0,
        ticked(pushed(q, message)).0 == q.1.push(message),
{
}

/// Pushing messages leaves the current tick alone and appends them, in order,
/// to what is already queued for the next tick.
pub proof fn law_pushes_append_in_order<T>(q: (Seq<T>, Seq<T>), messages: Seq<T>)
    ensures
        pushed_all(q, messages) == (q.0, q.1 + messages),
    decreases messages.len(),
{
    if messages.len() > 0 {
        law_pushes_append_in_order(q, messages.drop_last());
        assert(q.1 + messages.drop_last() + seq![messages.last()] =~= q.1 + messages);
    } else {
        assert(q.1 + messages =~= q.1);
    }
}

/// After the next tick, the current messages are exactly those queued during
/// the previous tick followed by those pushed since, in the order in which
/// they were pushed; nothing is left queued.
pub proof fn law_next_tick_delivers_in_order<T>(q: (Seq<T>, Seq<T>), messages: Seq<T>)
    ensures
        ticked(pushed_all(q, messages)) == (q.1 + messages, Seq::<T>::empty()),
{
    law_pushes_append_in_order(q, messages);
}

/// A message is current for one tick only: two ticks with no push in between
/// leave no message, current or queued.
pub proof fn law_messages_live_one_tick<T>(q: (Seq<T>, Seq<T>))
    ensures
        ticked(ticked(q)) == (Seq::<T>::empty(), Seq::<T>::empty()),
{
}

/// The queue state after a run of ticks: for each batch in turn, its messages
/// are pushed, in order, then the next tick starts.
pub open spec fn after_ticks<T>(q: (Seq<T>, Seq<T>), batches: Seq<Seq<T>>) -> (Seq<T>, Seq<T>)
    decreases batches.len(),
{
    if batches.len() == 0 {
        q
    } else {
        ticked(pushed_all(after_ticks(q, batches.drop_last()), batches.last()))
    }
}

/// Every pushed message is current for exactly one tick: during tick `k` of a
/// run, the current messages are exactly the batch pushed during tick `k - 1`,
/// in push order (for the first tick, after what was already queued), and
/// nothing else; nothing stays queued across a tick.
pub proof fn law_each_message_current_for_one_tick<T>(
    q: (Seq<T>, Seq<T>),
    batches: Seq<Seq<T>>,
)
    ensures
        forall|k: int|
            1 <= k <= batches.len() ==> #[trigger] after_ticks(q, batches.take(k)) == (
                if k == 1 {
                    q.1 + batches[0]
                } else {
                    batches[k - 1]
                },
                Seq::<T>::empty(),
            ),
{
    assert forall|k: int| 1 <= k <= batches.len() implies #[trigger] after_ticks(
        q,
        batches.take(k),
    ) == (if k == 1 {
        q.1 + batches[0]
    } else {
        batches[k - 1]
    }, Seq::<T>::empty()) by {
        let b = batches.take(k);
        let prev = after_ticks(q, b.drop_last());
        law_next_tick_delivers_in_order(prev, b.last());
        if k == 1 {
            assert(b.drop_last() =~= Seq::<Seq<T>>::empty());
        } else {
            assert(b.drop_last() =~= batches.take(k - 1));
            assert(prev.1 == Seq::<T>::empty());
            assert(prev.1 + b.last() =~= b.last());
        }
    }
}

impl<T> Default for MessageQueue<T> {
    fn default() -> (q: Self)
        ensures
            q@ == (Seq::<T>::empty(), Seq::<T>::empty()),
    {
        Self::new()
    }
}

impl<T> MessageQueue<T> {
    /// An empty queue: no message in the current tick, none queued.
    pub fn new() -> (q: Self)
        ensures
            q@ == (Seq::<T>::empty(), Seq::<T>::empty()),
    {
        MessageQueue { current_tick_queue: VecDeque::new(), next_tick_queue: VecDeque::new() }
    }

    /// Iterates over the messages of the current tick, in the order in which
    /// they were pushed.
    pub fn iter(&self) -> (it: Iter<'_, T>)
        ensures
            it.remaining() == self@.0.as_ref(),
            IteratorSpec::decrease(&it) is Some,
            IteratorSpec::initial_value_relation(&it, &it),
    {
        broadcast use vstd::std_specs::vecdeque::group_vec_dequeue_axioms;
        self.current_tick_queue.iter()
    }

    /// Iterates mutably over the messages of the current tick, front to back,
    /// changing them in place: each message keeps its position and ends up
    /// as written through its reference. The messages queued for the next
    /// tick are untouched, and the current tick keeps its number of messages.
    pub fn iter_mut(&mut self) -> (it: IterMut<'_, T>)
        ensures
            final(self)@.1 == old(self)@.1,
            final(self)@.0.len() == old(self)@.0.len(),
            it.remaining().len() == old(self)@.0.len(),
            forall|i: int|
                0 <= i < old(self)@.0.len() ==> mut_ref_current(#[trigger] it.remaining()[i])
                    == old(self)@.0[i],
            forall|i: int|
                0 <= i < old(self)@.0.len() ==> mut_ref_future(#[trigger] it.remaining()[i])
                    == final(self)@.0[i],
    {
        deque_iter_mut(&mut self.current_tick_queue)
    }

    /// Queues `message` for the next tick; the current tick is unchanged.
    pub fn push(&mut self, message: T)
        ensures
            final(self)@ == pushed(old(self)@, message),
    {
        self.next_tick_queue.push_back(message);
    }

    /// Starts the next tick: the queued messages become the current ones, in
    /// the order in which they were pushed, and the current ones are dropped.
    pub fn next_tick(&mut self)
        ensures
            final(self)@ == ticked(old(self)@),
    {
        std::mem::swap(&mut self.current_tick_queue, &mut self.next_tick_queue);
        self.next_tick_queue.clear();
    }
}

} // verus!
