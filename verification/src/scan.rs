//! The two scan policies. A scan asks for one superblock after the other,
//! ten pages at a time, and decides after each whether the feed has more
//! to give. The caller performs the fetches; the scan holds the cursor and
//! what was gathered, and says what to do next.

use crate::models::{ListType, Record};
use crate::portal::{concat_pages, DEFAULT_GET_RECORDS_COUNT, MAX_PARALLEL_REQUESTS};
use vstd::prelude::*;

verus! {

/// Pages in one superblock.
pub const SUPERBLOCK_PAGES: i32 = 10;

/// Records in a superblock that came back full.
pub const SUPERBLOCK_RECORDS: usize = 110;

/// The page at which every scan starts.
pub const FIRST_PAGE: i32 = 0;

/// When a scan stops, and what it keeps of each superblock.
#[derive(Debug, Clone, Copy, PartialEq, Eq, Structural)]
pub enum ScanPolicy {
    /// Keep everything; stop at the first superblock that is not full.
    Exhaustive,
    /// Keep the records reported in the given month of the year (1 to 12);
    /// stop at the first superblock that holds none. This relies on the
    /// portal listing records from the newest to the oldest: behind a
    /// superblock without a record of the month there is none either.
    Month(u32),
}

/// What the caller of a scan does next.
#[derive(Debug, Clone, Copy, PartialEq, Eq, Structural)]
pub enum ScanAction {
    /// Fetch the block of `num_of_pages` pages that starts at `page`, and hand it to the scan.
    Fetch { page: i32, num_of_pages: i32 },
    /// The scan is over: take its records.
    Finish,
}

/// A superblock that came back full holds the records of as many pages as
/// requests may be in flight at once.
pub proof fn superblock_is_full_pages()
    ensures
        SUPERBLOCK_PAGES == MAX_PARALLEL_REQUESTS,
        SUPERBLOCK_RECORDS == MAX_PARALLEL_REQUESTS * DEFAULT_GET_RECORDS_COUNT,
{
}

/// The records of `block` that were reported in `month`, in their order.
pub open spec fn of_month(block: Seq<Record>, month: u32) -> Seq<Record> {
    block.filter(|r: Record| r.reported_in(month))
}

/// What a scan under `policy` keeps of a superblock.
pub open spec fn kept(policy: ScanPolicy, block: Seq<Record>) -> Seq<Record> {
    match policy {
        ScanPolicy::Exhaustive => block,
        ScanPolicy::Month(month) => of_month(block, month),
    }
}

/// Whether a scan under `policy` stops after this superblock.
pub open spec fn stops(policy: ScanPolicy, block: Seq<Record>) -> bool {
    match policy {
        ScanPolicy::Exhaustive => block.len() < SUPERBLOCK_RECORDS,
        ScanPolicy::Month(month) => of_month(block, month).len() == 0,
    }
}

/// What a scan holds, as far as its policy looks at it.
pub struct ScanState {
    pub policy: ScanPolicy,
    pub page: int,
    pub records: Seq<Record>,
    pub finished: bool,
}

/// The state of a scan that has not fetched anything yet.
pub open spec fn fresh(policy: ScanPolicy) -> ScanState {
    ScanState { policy, page: FIRST_PAGE as int, records: Seq::empty(), finished: false }
}

/// The state of a scan after it took in one superblock.
pub open spec fn step(state: ScanState, block: Seq<Record>) -> ScanState {
    ScanState {
        policy: state.policy,
        page: if stops(state.policy, block) {
            state.page
        } else {
            state.page + SUPERBLOCK_PAGES
        },
        records: state.records + kept(state.policy, block),
        finished: stops(state.policy, block),
    }
}

/// The state of a scan after it took in the given superblocks, one after the other.
pub open spec fn run(state: ScanState, blocks: Seq<Seq<Record>>) -> ScanState
    decreases blocks.len(),
{
    if blocks.len() == 0 {
        state
    } else {
        step(run(state, blocks.drop_last()), blocks.last())
    }
}

/// What a scan under `policy` keeps of the given superblocks, block after block.
pub open spec fn kept_of_all(policy: ScanPolicy, blocks: Seq<Seq<Record>>) -> Seq<Record>
    decreases blocks.len(),
{
    if blocks.len() == 0 {
        Seq::empty()
    } else {
        kept_of_all(policy, blocks.drop_last()) + kept(policy, blocks.last())
    }
}

proof fn lemma_run_before_the_end(policy: ScanPolicy, blocks: Seq<Seq<Record>>, m: int)
    requires
        0 <= m <= blocks.len(),
        forall|i: int| 0 <= i < m ==> !stops(policy, #[trigger] blocks[i]),
    ensures
        run(fresh(policy), blocks.take(m)) == (ScanState {
            policy,
            page: FIRST_PAGE + SUPERBLOCK_PAGES * m,
            records: kept_of_all(policy, blocks.take(m)),
            finished: false,
        }),
    decreases m,
{
    if m > 0 {
        lemma_run_before_the_end(policy, blocks, m - 1);
        assert(blocks.take(m).drop_last() =~= blocks.take(m - 1));
        assert(blocks.take(m).last() == blocks[m - 1]);
    }
}

/// A scan fed with superblocks of which the last is the first at which its
/// policy stops: it is not over before that block, so each of them is
/// fetched; with that block it is over; the cursor then stands at the page
/// of that block; and the scan holds what the policy keeps of each block,
/// block after block.
pub proof fn scan_ends_at_first_stop(policy: ScanPolicy, blocks: Seq<Seq<Record>>, m: int)
    requires
        blocks.len() > 0,
        forall|i: int| 0 <= i < blocks.len() - 1 ==> !stops(policy, #[trigger] blocks[i]),
        stops(policy, blocks.last()),
        0 <= m < blocks.len(),
    ensures
        !run(fresh(policy), blocks.take(m)).finished,
        run(fresh(policy), blocks.take(m)).page == FIRST_PAGE + SUPERBLOCK_PAGES * m,
        run(fresh(policy), blocks).finished,
        run(fresh(policy), blocks).page == FIRST_PAGE + SUPERBLOCK_PAGES * (blocks.len() - 1),
        run(fresh(policy), blocks).records == kept_of_all(policy, blocks),
{
    lemma_run_before_the_end(policy, blocks, m);
    lemma_run_before_the_end(policy, blocks, blocks.len() - 1);
    assert(blocks.take(blocks.len() - 1) =~= blocks.drop_last());
}

/// An exhaustive scan keeps every record of every superblock, in the order of the feed.
pub proof fn exhaustive_scan_keeps_all(blocks: Seq<Seq<Record>>)
    ensures
        kept_of_all(ScanPolicy::Exhaustive, blocks) == concat_pages(blocks),
    decreases blocks.len(),
{
    if blocks.len() > 0 {
        exhaustive_scan_keeps_all(blocks.drop_last());
    }
}

/// The records of `records` that were reported in `month`, in their order.
/// A record without a report date is left out.
pub fn filter_month(records: Vec<Record>, month: u32) -> (hits: Vec<Record>)
    ensures
        hits@ == of_month(records@, month),
    decreases records@.len(),
{
    let mut records = records;
    let ghost old_records = records@;
    proof {
        reveal(Seq::filter);
    }
    match records.pop() {
        None => Vec::new(),
        Some(last) => {
            assert(records@ == old_records.drop_last());
            let hit = last.is_reported_in(month);
            let mut hits = filter_month(records, month);
            if hit {
                hits.push(last);
            }
            hits
        },
    }
}

/// A scan in progress.
#[derive(Debug, Clone)]
pub struct Scan {
    /// The listing that is scanned.
    pub list_type: ListType,
    /// The policy of the scan.
    pub policy: ScanPolicy,
    /// The page at which the next superblock starts.
    pub page: i32,
    /// What the scan has kept so far, in the order of the feed.
    pub records: Vec<Record>,
    /// Whether the scan is over.
    pub finished: bool,
}

impl Scan {
    /// What the scan holds, as far as its policy looks at it.
    pub open spec fn state(self) -> ScanState {
        ScanState {
            policy: self.policy,
            page: self.page as int,
            records: self.records@,
            finished: self.finished,
        }
    }

    /// Whether this is a scan that has not fetched anything yet.
    pub open spec fn is_fresh(self, list_type: ListType, policy: ScanPolicy) -> bool {
        self.list_type == list_type && self.state() == fresh(policy)
    }

    /// Whether the cursor can move on by one superblock.
    pub open spec fn can_advance(self) -> bool {
        self.page <= i32::MAX - SUPERBLOCK_PAGES
    }

    /// Starts a scan of the whole listing.
    pub fn get_all_records(list_type: ListType) -> (scan: Scan)
        ensures
            scan.is_fresh(list_type, ScanPolicy::Exhaustive),
    {
        Scan {
            list_type,
            policy: ScanPolicy::Exhaustive,
            page: FIRST_PAGE,
            records: Vec::new(),
            finished: false,
        }
    }

    /// Starts a scan for the records reported in `month`.
    pub fn get_records_of_month(list_type: ListType, month: u32) -> (scan: Scan)
        ensures
            scan.is_fresh(list_type, ScanPolicy::Month(month)),
    {
        Scan {
            list_type,
            policy: ScanPolicy::Month(month),
            page: FIRST_PAGE,
            records: Vec::new(),
            finished: false,
        }
    }

    /// What to do next: fetch the superblock at the cursor, or finish.
    pub fn next_action(&self) -> (action: ScanAction)
        ensures
            action == if self.finished {
                ScanAction::Finish
            } else {
                (ScanAction::Fetch { page: self.page, num_of_pages: SUPERBLOCK_PAGES })
            },
    {
        if self.finished {
            ScanAction::Finish
        } else {
            ScanAction::Fetch { page: self.page, num_of_pages: SUPERBLOCK_PAGES }
        }
    }

    /// Whether the cursor can move on by one superblock.
    pub fn has_room(&self) -> (room: bool)
        ensures
            room == self.can_advance(),
    {
        self.page <= i32::MAX - SUPERBLOCK_PAGES
    }

    /// Takes in the superblock that was fetched at the cursor. What the
    /// policy keeps of it is appended; then the scan is over if the policy
    /// says so, and else the cursor moves on by one superblock.
    pub fn absorb(&mut self, block: Vec<Record>)
        requires
            !old(self).finished,
            old(self).can_advance(),
        ensures
            final(self).list_type == old(self).list_type,
            final(self).state() == step(old(self).state(), block@),
    {
        let stop: bool;
        let mut keep: Vec<Record>;
        match self.policy {
            ScanPolicy::Exhaustive => {
                stop = block.len() < SUPERBLOCK_RECORDS;
                keep = block;
            },
            ScanPolicy::Month(month) => {
                keep = filter_month(block, month);
                stop = keep.len() == 0;
            },
        }
        self.records.append(&mut keep);
        if stop {
            self.finished = true;
        } else {
            self.page = self.page + SUPERBLOCK_PAGES;
        }
    }

    /// Ends the scan and hands out what it kept.
    pub fn into_records(self) -> (records: Vec<Record>)
        ensures
            records == self.records,
    {
        self.records
    }
}

} // verus!
