//! Putting the answers of a block fetch back into the order of submission.
//! Requests that run side by side are answered in any order; each answer
//! comes with the slot of its request, and the buffer files it there.

use crate::models::Record;
use crate::portal::{block_outcome, ApiError, BiotechwareApi};
use vstd::prelude::*;

verus! {

/// The slots as they are after the answer for `slot` came in: it is filed
/// if the slot exists and is still empty, and dropped otherwise.
pub open spec fn filed(
    slots: Seq<Option<Result<Vec<Record>, ApiError>>>,
    slot: int,
    answer: Result<Vec<Record>, ApiError>,
) -> Seq<Option<Result<Vec<Record>, ApiError>>> {
    if 0 <= slot < slots.len() && slots[slot] is None {
        slots.update(slot, Some(answer))
    } else {
        slots
    }
}

/// The slots as they are after the given answers came in, one after the other.
pub open spec fn filed_all(
    slots: Seq<Option<Result<Vec<Record>, ApiError>>>,
    arrivals: Seq<(int, Result<Vec<Record>, ApiError>)>,
) -> Seq<Option<Result<Vec<Record>, ApiError>>>
    decreases arrivals.len(),
{
    if arrivals.len() == 0 {
        slots
    } else {
        filed(filed_all(slots, arrivals.drop_last()), arrivals.last().0, arrivals.last().1)
    }
}

/// Whether every slot holds an answer.
pub open spec fn all_filed(slots: Seq<Option<Result<Vec<Record>, ApiError>>>) -> bool {
    forall|i: int| 0 <= i < slots.len() ==> (#[trigger] slots[i]) is Some
}

/// The answers that the slots hold, slot by slot.
pub open spec fn answers_of(slots: Seq<Option<Result<Vec<Record>, ApiError>>>) -> Seq<
    Result<Vec<Record>, ApiError>,
> {
    slots.map_values(|s: Option<Result<Vec<Record>, ApiError>>| s->Some_0)
}

/// As many empty slots as a block has requests.
pub open spec fn empty_slots(num_of_pages: nat) -> Seq<Option<Result<Vec<Record>, ApiError>>> {
    Seq::new(num_of_pages, |i: int| None::<Result<Vec<Record>, ApiError>>)
}

/// The answers of a block as they come in when the request of slot
/// `order[k]` is the `k`-th to be answered.
pub open spec fn arrivals_in(answers: Seq<Result<Vec<Record>, ApiError>>, order: Seq<int>) -> Seq<
    (int, Result<Vec<Record>, ApiError>),
> {
    Seq::new(order.len(), |k: int| (order[k], answers[order[k]]))
}

/// Whether `order` names every slot below `n` exactly once.
pub open spec fn is_arrival_order(order: Seq<int>, n: nat) -> bool {
    &&& order.len() == n
    &&& forall|k: int| 0 <= k < order.len() ==> 0 <= #[trigger] order[k] < n
    &&& forall|j: int, k: int| 0 <= j < k < order.len() ==> order[j] != order[k]
    &&& forall|i: int| 0 <= i < n ==> answered_within(order, order.len() as int, i)
}

/// Whether slot `i` is among the first `m` to be answered.
pub open spec fn answered_within(order: Seq<int>, m: int, i: int) -> bool {
    exists|k: int| 0 <= k < m && k < order.len() && #[trigger] order[k] == i
}

proof fn lemma_filed_prefix(answers: Seq<Result<Vec<Record>, ApiError>>, order: Seq<int>, m: int)
    requires
        0 <= m <= order.len(),
        forall|k: int| 0 <= k < order.len() ==> 0 <= #[trigger] order[k] < answers.len(),
        forall|j: int, k: int| 0 <= j < k < order.len() ==> order[j] != order[k],
    ensures
        ({
            let slots = filed_all(empty_slots(answers.len()), arrivals_in(answers, order).take(m));
            &&& slots.len() == answers.len()
            &&& forall|i: int|
                0 <= i < answers.len() ==> #[trigger] slots[i] == if answered_within(order, m, i) {
                    Some(answers[i])
                } else {
                    None
                }
        }),
    decreases m,
{
    let arrivals = arrivals_in(answers, order);
    let slots = filed_all(empty_slots(answers.len()), arrivals.take(m));
    if m > 0 {
        lemma_filed_prefix(answers, order, m - 1);
        let before = filed_all(empty_slots(answers.len()), arrivals.take(m - 1));
        let slot = order[m - 1];
        assert(arrivals.take(m).drop_last() =~= arrivals.take(m - 1));
        assert(arrivals.take(m).last() == (slot, answers[slot]));
        assert(!answered_within(order, m - 1, slot));
        assert(slots == before.update(slot, Some(answers[slot])));
        assert forall|i: int| 0 <= i < answers.len() implies #[trigger] slots[i] == if answered_within(
            order,
            m,
            i,
        ) {
            Some(answers[i])
        } else {
            None
        } by {
            if i == slot {
                assert(order[m - 1] == i);
            } else if answered_within(order, m, i) {
                let k = choose|k: int| 0 <= k < m && k < order.len() && #[trigger] order[k] == i;
                assert(0 <= k < m - 1 && order[k] == i);
            }
        }
    }
}

/// In whatever order the answers of a block come in, once each request has
/// been answered the slots hold the answers in the order of submission, so
/// the block is what it would be had they come in that order.
pub proof fn arrival_order_is_irrelevant(
    answers: Seq<Result<Vec<Record>, ApiError>>,
    order: Seq<int>,
)
    requires
        is_arrival_order(order, answers.len()),
    ensures
        all_filed(filed_all(empty_slots(answers.len()), arrivals_in(answers, order))),
        answers_of(filed_all(empty_slots(answers.len()), arrivals_in(answers, order))) == answers,
        block_outcome(
            answers_of(filed_all(empty_slots(answers.len()), arrivals_in(answers, order))),
        ) == block_outcome(answers),
{
    let arrivals = arrivals_in(answers, order);
    lemma_filed_prefix(answers, order, order.len() as int);
    assert(arrivals.take(order.len() as int) =~= arrivals);
    let slots = filed_all(empty_slots(answers.len()), arrivals);
    assert forall|i: int| 0 <= i < slots.len() implies #[trigger] slots[i] == Some(answers[i]) by {
        assert(answered_within(order, order.len() as int, i));
    }
    assert(answers_of(slots) =~= answers);
}

/// The answers of one block fetch, filed by the slot of their request.
pub struct BlockBuffer {
    /// One slot per request of the block, in the order of submission.
    pub slots: Vec<Option<Result<Vec<Record>, ApiError>>>,
}

impl BlockBuffer {
    /// A buffer for a block of `num_of_pages` requests, with every slot empty.
    pub fn new(num_of_pages: usize) -> (buffer: BlockBuffer)
        ensures
            buffer.slots@ == empty_slots(num_of_pages as nat),
    {
        let mut slots: Vec<Option<Result<Vec<Record>, ApiError>>> = Vec::new();
        let mut filled: usize = 0;
        while filled < num_of_pages
            invariant
                filled <= num_of_pages,
                slots@ == empty_slots(filled as nat),
            decreases num_of_pages - filled,
        {
            slots.push(None);
            filled = filled + 1;
        }
        BlockBuffer { slots }
    }

    /// Files the answer to the request of `slot`. An answer for a slot
    /// that does not exist, or that holds an answer already, is dropped,
    /// and `false` comes back.
    pub fn deliver(&mut self, slot: usize, answer: Result<Vec<Record>, ApiError>) -> (accepted: bool)
        ensures
            accepted == (slot < old(self).slots@.len() && old(self).slots@[slot as int] is None),
            final(self).slots@ == filed(old(self).slots@, slot as int, answer),
    {
        if slot < self.slots.len() && self.slots[slot].is_none() {
            self.slots.set(slot, Some(answer));
            true
        } else {
            false
        }
    }

    /// Whether every request of the block has been answered.
    pub fn is_complete(&self) -> (complete: bool)
        ensures
            complete == all_filed(self.slots@),
    {
        let mut index: usize = 0;
        while index < self.slots.len()
            invariant
                index <= self.slots@.len(),
                forall|i: int| 0 <= i < index ==> (#[trigger] self.slots@[i]) is Some,
            decreases self.slots@.len() - index,
        {
            if self.slots[index].is_none() {
                return false;
            }
            index = index + 1;
        }
        true
    }

    /// The answers held by slots that are all filled, or nothing if one is empty.
    pub fn collect(slots: Vec<Option<Result<Vec<Record>, ApiError>>>) -> (answers: Option<
        Vec<Result<Vec<Record>, ApiError>>,
    >)
        ensures
            answers is Some <==> all_filed(slots@),
            answers matches Some(a) ==> a@ == answers_of(slots@),
        decreases slots@.len(),
    {
        let mut slots = slots;
        let ghost all = slots@;
        match slots.pop() {
            None => Some(Vec::new()),
            Some(last) => {
                assert(slots@ == all.drop_last());
                match last {
                    None => None,
                    Some(answer) => match Self::collect(slots) {
                        None => {
                            assert(!all_filed(all)) by {
                                if all_filed(all) {
                                    assert(all_filed(all.drop_last()));
                                }
                            }
                            None
                        },
                        Some(answers) => {
                            let mut answers = answers;
                            answers.push(answer);
                            assert(answers@ =~= answers_of(all));
                            assert(all_filed(all)) by {
                                assert forall|i: int| 0 <= i < all.len() implies (
                                #[trigger] all[i]) is Some by {
                                    if i < all.len() - 1 {
                                        assert(all.drop_last()[i] is Some);
                                    }
                                }
                            }
                            Some(answers)
                        },
                    },
                }
            },
        }
    }

    /// The block, once every request has been answered: the failure of
    /// the earliest request that failed, or the records of all pages in
    /// the order of submission. `None` while an answer is missing.
    pub fn finish(self) -> (block: Option<Result<Vec<Record>, ApiError>>)
        ensures
            block is Some <==> all_filed(self.slots@),
            block matches Some(outcome) ==> match block_outcome(answers_of(self.slots@)) {
                Err(e) => outcome == Err::<Vec<Record>, ApiError>(e),
                Ok(expected) => outcome matches Ok(records) && records@ == expected,
            },
    {
        match Self::collect(self.slots) {
            None => None,
            Some(answers) => Some(BiotechwareApi::get_records(answers)),
        }
    }
}

} // verus!
