use vstd::prelude::*;

use crate::budget::{records_call, remaining_spec, TimingBudget};
use crate::record::{
    law_str_label_is_its_text, law_string_label_is_its_text, law_string_ref_label_is_its_text,
    lemma_total_push, ToolName, ToolTiming,
};

verus! {

/// Recording a call adds exactly its elapsed time to the time used.
pub proof fn law_record_adds_elapsed(
    before: TimingBudget,
    after: TimingBudget,
    name: Seq<char>,
    elapsed_ms: u64,
)
    requires
        records_call(before, after, name, elapsed_ms),
    ensures
        after.used() == before.used() + elapsed_ms,
{
    let c = after.calls();
    assert(c == c.drop_last().push(c.last()));
    lemma_total_push(c.drop_last(), c.last());
}

/// Recording never rewrites history: the calls recorded before keep their
/// positions and values, and the new call comes last.
pub proof fn law_record_keeps_order(
    before: TimingBudget,
    after: TimingBudget,
    name: Seq<char>,
    elapsed_ms: u64,
)
    requires
        records_call(before, after, name, elapsed_ms),
    ensures
        forall|i: int| 0 <= i < before.calls().len() ==> #[trigger] after.calls()[i] == before.calls()[i],
        after.calls()[before.calls().len() as int].tool@ == name,
        after.calls()[before.calls().len() as int].elapsed_ms == elapsed_ms,
{
    assert forall|i: int| 0 <= i < before.calls().len() implies #[trigger] after.calls()[i] == before.calls()[i] by {
        assert(after.calls().drop_last()[i] == after.calls()[i]);
    }
}

/// Recording a `&str` label stores exactly its text as the last call's tool.
pub proof fn law_record_stores_str_label(
    before: TimingBudget,
    after: TimingBudget,
    label: &str,
    elapsed_ms: u64,
)
    requires
        records_call(before, after, ToolName::name_view(&label), elapsed_ms),
    ensures
        after.calls().last().tool@ == label@,
        after.calls().last().elapsed_ms == elapsed_ms,
{
    law_str_label_is_its_text(label);
}

/// Recording an owned `String` label stores exactly its text as the last call's tool.
pub proof fn law_record_stores_string_label(
    before: TimingBudget,
    after: TimingBudget,
    label: String,
    elapsed_ms: u64,
)
    requires
        records_call(before, after, label.name_view(), elapsed_ms),
    ensures
        after.calls().last().tool@ == label@,
        after.calls().last().elapsed_ms == elapsed_ms,
{
    law_string_label_is_its_text(label);
}

/// Recording a `&String` label stores exactly the referenced text as the last call's tool.
pub proof fn law_record_stores_string_ref_label(
    before: TimingBudget,
    after: TimingBudget,
    label: &String,
    elapsed_ms: u64,
)
    requires
        records_call(before, after, ToolName::name_view(&label), elapsed_ms),
    ensures
        after.calls().last().tool@ == (*label)@,
        after.calls().last().elapsed_ms == elapsed_ms,
{
    law_string_ref_label_is_its_text(label);
}

/// Once the budget is exhausted, recording further calls keeps it exhausted.
pub proof fn law_exhaustion_persists(
    before: TimingBudget,
    after: TimingBudget,
    name: Seq<char>,
    elapsed_ms: u64,
)
    requires
        records_call(before, after, name, elapsed_ms),
        before.used() >= before.limit(),
    ensures
        after.used() >= after.limit(),
{
    law_record_adds_elapsed(before, after, name, elapsed_ms);
}

/// The remaining time never exceeds the budget, is zero exactly when the
/// budget is reached (reaching it exactly counts), and otherwise is the
/// difference between budget and time used. A zero budget has nothing left.
pub proof fn law_remaining_saturates(limit: u64, used: nat)
    ensures
        remaining_spec(limit, used) <= limit,
        (remaining_spec(limit, used) == 0) <==> used >= limit,
        used < limit ==> remaining_spec(limit, used) + used == limit,
        limit == 0 ==> remaining_spec(limit, used) == 0 && used >= limit,
{
}

/// A budget is exhausted (and `check` fails) exactly when not even one
/// millisecond remains.
pub proof fn law_exhausted_iff_nothing_remains(b: TimingBudget)
    ensures
        (b.used() >= b.limit()) <==> !(remaining_spec(b.limit(), b.used()) >= 1),
{
}

/// With no calls recorded (a new or a reset budget), nothing is used and the
/// whole budget remains.
pub proof fn law_empty_budget_is_full(b: TimingBudget)
    requires
        b.calls() == Seq::<ToolTiming>::empty(),
    ensures
        b.used() == 0,
        b.total_fits(),
        remaining_spec(b.limit(), b.used()) == b.limit(),
{
}

} // verus!
