//! Batch aggregation: one slot per request, filled as attempts finish, and
//! the two ways of closing a batch at its deadline.

use vstd::prelude::*;
use crate::record::{global_timeout_record, is_global_timeout, ResultRecord};

verus! {

/// How a batch is closed.
#[derive(Clone, Copy, Debug, PartialEq, Eq, Structural)]
pub enum ConcurrencyMode {
    /// Best effort: finished requests keep their results, the others get a
    /// `GlobalTimeout` record.
    SelectAll,
    /// All or nothing: results are kept only when every request finished.
    JoinAll,
}

impl ConcurrencyMode {
    /// The mode's name.
    pub open spec fn name(self) -> Seq<char> {
        match self {
            ConcurrencyMode::SelectAll => "SELECT_ALL"@,
            ConcurrencyMode::JoinAll => "JOIN_ALL"@,
        }
    }

    /// The default mode, best effort.
    pub fn new() -> (r: Self)
        ensures
            r == ConcurrencyMode::SelectAll,
    {
        ConcurrencyMode::SelectAll
    }

    /// The mode's name.
    pub fn __str__(&self) -> (r: String)
        ensures
            r@ == self.name(),
    {
        match self {
            ConcurrencyMode::SelectAll => String::from_str("SELECT_ALL"),
            ConcurrencyMode::JoinAll => String::from_str("JOIN_ALL"),
        }
    }

    /// The mode's name, qualified by the type's.
    pub fn __repr__(&self) -> (r: String)
        ensures
            r@ == "ConcurrencyMode."@ + self.name(),
    {
        let mut s = String::from_str("ConcurrencyMode.");
        s.append(self.__str__().as_str());
        s
    }
}

/// The batch deadline when none is given, in milliseconds.
pub const DEFAULT_BATCH_TIMEOUT_MS: u64 = 30000;

/// The batch deadline: the one given, or 30 s.
pub fn batch_timeout_ms(t: Option<u64>) -> (r: u64)
    ensures
        r == match t {
            Some(x) => x,
            None => 30000,
        },
{
    match t {
        Some(x) => x,
        None => DEFAULT_BATCH_TIMEOUT_MS,
    }
}

/// Every slot is filled.
pub open spec fn all_done(slots: Seq<Option<ResultRecord>>) -> bool {
    forall|i: int| 0 <= i < slots.len() ==> slots[i] is Some
}

/// `r` is how a batch with these slots, tags and deadline closes in `mode`.
pub open spec fn settled(
    r: Seq<ResultRecord>,
    slots: Seq<Option<ResultRecord>>,
    tags: Seq<Seq<char>>,
    total_ms: nat,
    mode: ConcurrencyMode,
) -> bool {
    &&& r.len() == slots.len()
    &&& mode == ConcurrencyMode::SelectAll ==> forall|i: int| 0 <= i < slots.len() ==>
        (if slots[i] is Some { r[i] == slots[i]->0 } else { is_global_timeout(r[i], tags[i], total_ms) })
    &&& mode == ConcurrencyMode::JoinAll && all_done(slots) ==> forall|i: int| 0 <= i < slots.len() ==>
        r[i] == slots[i]->0
    &&& mode == ConcurrencyMode::JoinAll && !all_done(slots) ==> forall|i: int| 0 <= i < slots.len() ==>
        is_global_timeout(r[i], tags[i], total_ms)
}

/// The results of a batch in progress: one slot per request, in input order.
pub struct BatchCollector {
    slots: Vec<Option<ResultRecord>>,
    tags: Vec<String>,
    total_ms: u64,
}

impl BatchCollector {
    /// One tag per slot.
    pub closed spec fn wf(self) -> bool {
        self.slots@.len() == self.tags@.len()
    }

    /// The slots, in input order; `None` where the request has not finished.
    pub closed spec fn slots(self) -> Seq<Option<ResultRecord>> {
        self.slots@
    }

    /// The requests' tags, in input order.
    pub closed spec fn tags(self) -> Seq<Seq<char>> {
        self.tags@.map_values(|t: String| t@)
    }

    /// The batch deadline in milliseconds.
    pub closed spec fn total_ms(self) -> nat {
        self.total_ms as nat
    }

    /// A batch of `tags.len()` requests, none finished yet.
    pub fn new(tags: Vec<String>, total_ms: u64) -> (c: Self)
        ensures
            c.wf(),
            c.slots().len() == tags@.len(),
            forall|i: int| 0 <= i < tags@.len() ==> c.slots()[i] is None,
            c.tags() == tags@.map_values(|t: String| t@),
            c.total_ms() == total_ms,
    {
        let mut slots: Vec<Option<ResultRecord>> = Vec::new();
        let n = tags.len();
        while slots.len() < n
            invariant
                n == tags@.len(),
                slots@.len() <= n,
                forall|i: int| 0 <= i < slots@.len() ==> slots@[i] is None,
            decreases n - slots@.len(),
        {
            slots.push(None);
        }
        BatchCollector { slots, tags, total_ms }
    }

    /// The number of requests in the batch.
    pub fn len(&self) -> (n: usize)
        requires
            self.wf(),
        ensures
            n == self.slots().len(),
            n == self.tags().len(),
    {
        self.slots.len()
    }

    /// Stores the result of request `index`.
    pub fn record(&mut self, index: usize, result: ResultRecord)
        requires
            old(self).wf(),
            index < old(self).slots().len(),
        ensures
            final(self).wf(),
            final(self).slots() == old(self).slots().update(index as int, Some(result)),
            final(self).tags() == old(self).tags(),
            final(self).total_ms() == old(self).total_ms(),
    {
        self.slots.set(index, Some(result));
    }

    /// Whether every request has finished.
    pub fn is_complete(&self) -> (r: bool)
        ensures
            r == all_done(self.slots()),
    {
        let n = self.slots.len();
        let mut i: usize = 0;
        while i < n
            invariant
                n == self.slots@.len(),
                i <= n,
                forall|k: int| 0 <= k < i ==> self.slots@[k] is Some,
            decreases n - i,
        {
            if self.slots[i].is_none() {
                return false;
            }
            i = i + 1;
        }
        true
    }

    /// Closes the batch at its deadline. In `SelectAll` each unfinished
    /// request gets a `GlobalTimeout` record and the others keep theirs; in
    /// `JoinAll` one unfinished request turns every record into a
    /// `GlobalTimeout`.
    pub fn finish(self, mode: ConcurrencyMode) -> (r: Vec<ResultRecord>)
        requires
            self.wf(),
        ensures
            settled(r@, self.slots(), self.tags(), self.total_ms(), mode),
    {
        let complete = self.is_complete();
        let ghost slots0 = self.slots@;
        let ghost tags0 = self.tags();
        let total_ms = self.total_ms;
        let tags = self.tags;
        let mut slots = self.slots;
        let n = slots.len();
        let keep = complete || mode == ConcurrencyMode::SelectAll;
        let mut out: Vec<ResultRecord> = Vec::new();
        let mut i: usize = 0;
        while i < n
            invariant
                n == slots0.len(),
                n == tags@.len(),
                tags0 == tags@.map_values(|t: String| t@),
                i <= n,
                slots@ == slots0.subrange(i as int, n as int),
                out@.len() == i,
                complete == all_done(slots0),
                keep == (complete || mode == ConcurrencyMode::SelectAll),
                forall|k: int| 0 <= k < i ==>
                    (if keep && slots0[k] is Some { out@[k] == slots0[k]->0 } else { is_global_timeout(
                        out@[k],
                        tags0[k],
                        total_ms as nat,
                    ) }),
            decreases n - i,
        {
            let slot = slots.remove(0);
            assert(slot == slots0[i as int]);
            match slot {
                Some(rec) if keep => {
                    out.push(rec);
                },
                _ => {
                    out.push(global_timeout_record(tags[i].as_str(), total_ms));
                },
            }
            assert(slots@ =~= slots0.subrange(i + 1, n as int));
            i = i + 1;
        }
        out
    }
}

/// A batch yields exactly one record per request, in input order, whatever
/// the mode: each record is the request's own result or a `GlobalTimeout`
/// carrying the request's tag.
pub proof fn lemma_one_record_per_request(
    r: Seq<ResultRecord>,
    slots: Seq<Option<ResultRecord>>,
    tags: Seq<Seq<char>>,
    total_ms: nat,
    mode: ConcurrencyMode,
)
    requires
        settled(r, slots, tags, total_ms, mode),
    ensures
        r.len() == slots.len(),
        forall|i: int| 0 <= i < slots.len() ==>
            (slots[i] matches Some(x) && r[i] == x) || is_global_timeout(r[i], tags[i], total_ms),
{
}

/// In `SelectAll` a finished request keeps its result while an unfinished
/// sibling gets a `GlobalTimeout`: partial success is kept.
pub proof fn lemma_select_all_keeps_finished(
    r: Seq<ResultRecord>,
    slots: Seq<Option<ResultRecord>>,
    tags: Seq<Seq<char>>,
    total_ms: nat,
    fast: int,
    slow: int,
)
    requires
        settled(r, slots, tags, total_ms, ConcurrencyMode::SelectAll),
        0 <= fast < slots.len(),
        0 <= slow < slots.len(),
        slots[fast] is Some,
        slots[slow] is None,
    ensures
        r[fast] == slots[fast]->0,
        is_global_timeout(r[slow], tags[slow], total_ms),
{
}

/// In `JoinAll` one request unfinished at the deadline turns every record
/// into a `GlobalTimeout`, also those of requests that had finished.
pub proof fn lemma_join_all_is_all_or_nothing(
    r: Seq<ResultRecord>,
    slots: Seq<Option<ResultRecord>>,
    tags: Seq<Seq<char>>,
    total_ms: nat,
    slow: int,
)
    requires
        settled(r, slots, tags, total_ms, ConcurrencyMode::JoinAll),
        0 <= slow < slots.len(),
        slots[slow] is None,
    ensures
        forall|i: int| 0 <= i < slots.len() ==> is_global_timeout(r[i], tags[i], total_ms),
{
}

} // verus!
