//! What the monthly summary is computed from: how many records of each
//! kind a scan brought back, and what one of them is worth.

use crate::models::{Record, RecordType};
use vstd::prelude::*;

verus! {

/// The records of the given kind among `records`, in their order.
pub open spec fn of_kind(records: Seq<Record>, kind: RecordType) -> Seq<Record> {
    records.filter(|r: Record| r.record_type_id == kind)
}

/// What the records of the given kind among `records` are worth together, in whole euros.
pub open spec fn worth(records: Seq<Record>, kind: RecordType) -> int {
    of_kind(records, kind).len() * kind.unit_price()
}

/// How many of `records` are of the given kind.
pub fn count_of_kind(records: &Vec<Record>, kind: RecordType) -> (count: usize)
    ensures
        count == of_kind(records@, kind).len(),
{
    let mut count: usize = 0;
    let mut index: usize = 0;
    proof {
        reveal(Seq::filter);
    }
    while index < records.len()
        invariant
            index <= records@.len(),
            count <= index,
            count == of_kind(records@.take(index as int), kind).len(),
        decreases records@.len() - index,
    {
        proof {
            reveal(Seq::filter);
            assert(records@.take(index + 1).drop_last() =~= records@.take(index as int));
            assert(records@.take(index + 1).last() == records@[index as int]);
        }
        if records[index].record_type_id == kind {
            count = count + 1;
        }
        index = index + 1;
    }
    proof {
        assert(records@.take(index as int) =~= records@);
    }
    count
}

/// What the records of the given kind among `records` are worth together,
/// in whole euros, or nothing where that does not fit in 64 bits.
pub fn worth_of_kind(records: &Vec<Record>, kind: RecordType) -> (euros: Option<u64>)
    ensures
        euros is Some <==> worth(records@, kind) <= u64::MAX,
        euros matches Some(e) ==> e == worth(records@, kind),
{
    let count: u64 = count_of_kind(records, kind) as u64;
    let price: u64 = kind.price_euros() as u64;
    count.checked_mul(price)
}

} // verus!
