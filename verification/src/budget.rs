use vstd::prelude::*;

use crate::message::{exceeded_message, render_exceeded};
use crate::record::{lemma_total_prefix_le, lemma_total_push, total_ms, ToolName, ToolTiming};

verus! {

/// Error returned when the aggregate budget has been reached or exceeded.
///
/// Carries both the total time used and the configured budget.
#[derive(Debug, Clone, PartialEq, Eq)]
pub struct BudgetExceeded {
    /// Total milliseconds used at the point the budget was exceeded.
    pub used_ms: u64,
    /// The configured budget, in milliseconds.
    pub budget_ms: u64,
}

impl BudgetExceeded {
    /// The human-readable report, `"timing budget exceeded (used/budgetms)"`.
    pub fn to_string(&self) -> (s: String)
        ensures
            s@ == exceeded_message(self.used_ms, self.budget_ms),
    {
        render_exceeded(self.used_ms, self.budget_ms)
    }
}

/// Milliseconds left in a budget of `limit` after `used` have been spent:
/// `limit - used`, or `0` once `used` reaches `limit`.
pub open spec fn remaining_spec(limit: u64, used: nat) -> nat {
    if used >= limit { 0 } else { (limit - used) as nat }
}

/// `after` is `before` with one more call, labelled `name` and taking
/// `elapsed_ms`, appended at the end; the budget is unchanged.
pub open spec fn records_call(before: TimingBudget, after: TimingBudget, name: Seq<char>, elapsed_ms: u64) -> bool {
    &&& after.limit() == before.limit()
    &&& after.calls().len() == before.calls().len() + 1
    &&& after.calls().drop_last() == before.calls()
    &&& after.calls().last().tool@ == name
    &&& after.calls().last().elapsed_ms == elapsed_ms
}

/// Tracks aggregate tool-call time against a fixed budget.
#[derive(Debug, Clone)]
pub struct TimingBudget {
    budget_ms: u64,
    timings: Vec<ToolTiming>,
}

impl TimingBudget {
    /// The configured budget, in milliseconds.
    pub closed spec fn limit(&self) -> u64 {
        self.budget_ms
    }

    /// The recorded calls, in the order they were recorded.
    pub closed spec fn calls(&self) -> Seq<ToolTiming> {
        self.timings@
    }

    /// Total milliseconds recorded so far.
    pub open spec fn used(&self) -> nat {
        total_ms(self.calls())
    }

    /// Whether the total fits in a `u64`, so that it can be reported.
    pub open spec fn total_fits(&self) -> bool {
        self.used() <= u64::MAX
    }

    /// Creates a budget allowing `budget_ms` total milliseconds, with no calls recorded.
    pub fn new(budget_ms: u64) -> (b: Self)
        ensures
            b.limit() == budget_ms,
            b.calls() == Seq::<ToolTiming>::empty(),
    {
        TimingBudget { budget_ms, timings: Vec::new() }
    }

    /// Records the elapsed milliseconds of a tool call; the limit is not enforced.
    pub fn record<T: ToolName>(&mut self, tool: T, elapsed_ms: u64)
        ensures
            records_call(*old(self), *final(self), tool.name_view(), elapsed_ms),
    {
        let name = tool.into_tool_name();
        self.timings.push(ToolTiming { tool: name, elapsed_ms });
        proof {
            assert(self.timings@.drop_last() =~= old(self).timings@);
        }
    }

    /// Total milliseconds spent so far across all recorded calls.
    pub fn used_ms(&self) -> (u: u64)
        requires
            self.total_fits(),
        ensures
            u == self.used(),
    {
        let n = self.timings.len();
        let mut acc: u64 = 0;
        let mut i: usize = 0;
        while i < n
            invariant
                n == self.timings@.len(),
                0 <= i <= n,
                acc == total_ms(self.timings@.take(i as int)),
                total_ms(self.timings@) <= u64::MAX,
            decreases n - i,
        {
            proof {
                assert(self.timings@.take(i + 1).drop_last() =~= self.timings@.take(i as int));
                lemma_total_prefix_le(self.timings@, i + 1);
            }
            acc = acc + self.timings[i].elapsed_ms;
            i = i + 1;
        }
        proof {
            assert(self.timings@.take(n as int) =~= self.timings@);
        }
        acc
    }

    /// The total milliseconds used, or `None` when that total does not fit in
    /// a `u64` (where `used_ms` would overflow).
    pub fn try_used_ms(&self) -> (u: Option<u64>)
        ensures
            u is Some <==> self.total_fits(),
            u matches Some(v) ==> v == self.used(),
    {
        let n = self.timings.len();
        let mut acc: u64 = 0;
        let mut i: usize = 0;
        while i < n
            invariant
                n == self.timings@.len(),
                0 <= i <= n,
                acc == total_ms(self.timings@.take(i as int)),
            decreases n - i,
        {
            proof {
                assert(self.timings@.take(i + 1).drop_last() =~= self.timings@.take(i as int));
                lemma_total_prefix_le(self.timings@, i + 1);
            }
            match acc.checked_add(self.timings[i].elapsed_ms) {
                Some(next) => {
                    acc = next;
                },
                None => {
                    return None;
                },
            }
            i = i + 1;
        }
        proof {
            assert(self.timings@.take(n as int) =~= self.timings@);
        }
        Some(acc)
    }

    /// Milliseconds left in the budget; `0` once the budget is reached.
    pub fn remaining_ms(&self) -> (r: u64)
        requires
            self.total_fits(),
        ensures
            r == remaining_spec(self.limit(), self.used()),
    {
        self.budget_ms.saturating_sub(self.used_ms())
    }

    /// The configured budget, in milliseconds.
    pub fn budget_ms(&self) -> (b: u64)
        ensures
            b == self.limit(),
    {
        self.budget_ms
    }

    /// `true` if at least `needed_ms` remain in the budget.
    pub fn has_remaining(&self, needed_ms: u64) -> (ok: bool)
        requires
            self.total_fits(),
        ensures
            ok == (remaining_spec(self.limit(), self.used()) >= needed_ms),
    {
        self.remaining_ms() >= needed_ms
    }

    /// `true` once the used time has reached or exceeded the budget.
    pub fn is_exhausted(&self) -> (e: bool)
        requires
            self.total_fits(),
        ensures
            e == (self.used() >= self.limit()),
    {
        self.used_ms() >= self.budget_ms
    }

    /// Checks the budget without recording anything: an error exactly when
    /// the used time is at or over the budget.
    pub fn check(&self) -> (r: Result<(), BudgetExceeded>)
        requires
            self.total_fits(),
        ensures
            r is Ok <==> self.used() < self.limit(),
            r matches Err(e) ==> e.used_ms == self.used() && e.budget_ms == self.limit(),
    {
        let used = self.used_ms();
        if used >= self.budget_ms {
            Err(BudgetExceeded { used_ms: used, budget_ms: self.budget_ms })
        } else {
            Ok(())
        }
    }

    /// Records a timing, then checks the budget as it stands after the call.
    pub fn record_and_check<T: ToolName>(&mut self, tool: T, elapsed_ms: u64) -> (r: Result<(), BudgetExceeded>)
        requires
            old(self).used() + elapsed_ms <= u64::MAX,
        ensures
            records_call(*old(self), *final(self), tool.name_view(), elapsed_ms),
            final(self).used() == old(self).used() + elapsed_ms,
            r is Ok <==> final(self).used() < final(self).limit(),
            r matches Err(e) ==> e.used_ms == final(self).used() && e.budget_ms == final(self).limit(),
    {
        self.record(tool, elapsed_ms);
        proof {
            let c = self.calls();
            assert(c == c.drop_last().push(c.last()));
            lemma_total_push(c.drop_last(), c.last());
        }
        self.check()
    }

    /// The most time-consuming recorded call (the last one among equals),
    /// or `None` if no calls have been recorded.
    pub fn slowest(&self) -> (s: Option<&ToolTiming>)
        ensures
            s is None <==> self.calls().len() == 0,
            s matches Some(t) ==> exists|i: int|
                0 <= i < self.calls().len()
                && *t == self.calls()[i]
                && (forall|j: int| 0 <= j < self.calls().len() ==>
                    #[trigger] self.calls()[j].elapsed_ms <= self.calls()[i].elapsed_ms)
                && (forall|j: int| i < j < self.calls().len() ==>
                    #[trigger] self.calls()[j].elapsed_ms < self.calls()[i].elapsed_ms),
    {
        let n = self.timings.len();
        if n == 0 {
            return None;
        }
        let mut best: usize = 0;
        let mut i: usize = 1;
        while i < n
            invariant
                n == self.timings@.len(),
                1 <= i <= n,
                best < i,
                forall|j: int| 0 <= j < i ==>
                    #[trigger] self.timings@[j].elapsed_ms <= self.timings@[best as int].elapsed_ms,
                forall|j: int| best < j < i ==>
                    #[trigger] self.timings@[j].elapsed_ms < self.timings@[best as int].elapsed_ms,
            decreases n - i,
        {
            if self.timings[i].elapsed_ms >= self.timings[best].elapsed_ms {
                best = i;
            }
            i = i + 1;
        }
        let slowest = &self.timings[best];
        proof {
            assert(*slowest == self.calls()[best as int]);
        }
        Some(slowest)
    }

    /// The number of recorded tool calls.
    pub fn call_count(&self) -> (n: usize)
        ensures
            n == self.calls().len(),
    {
        self.timings.len()
    }

    /// The recorded timings, in the order they were recorded.
    pub fn timings(&self) -> (ts: &[ToolTiming])
        ensures
            ts@ == self.calls(),
    {
        self.timings.as_slice()
    }

    /// Clears all recorded timings, keeping the configured budget.
    pub fn reset(&mut self)
        ensures
            final(self).limit() == old(self).limit(),
            final(self).calls() == Seq::<ToolTiming>::empty(),
    {
        self.timings.clear();
    }
}

} // verus!
