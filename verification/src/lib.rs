//! Aggregate wall-clock budget across the tool calls of one agent run.
//!
//! The caller supplies the elapsed milliseconds of each call; the budget
//! accumulates them and answers whether the run may go on.

mod budget;
mod laws;
mod message;
mod record;

pub use budget::{records_call, remaining_spec, BudgetExceeded, TimingBudget};
pub use laws::{
    law_empty_budget_is_full, law_exhausted_iff_nothing_remains, law_exhaustion_persists,
    law_record_adds_elapsed, law_record_keeps_order, law_record_stores_str_label,
    law_record_stores_string_label, law_record_stores_string_ref_label, law_remaining_saturates,
};
pub use message::{decimal, digit_char, exceeded_message};
pub use record::{
    law_str_label_is_its_text, law_string_label_is_its_text, law_string_ref_label_is_its_text,
    total_ms, ToolName, ToolTiming,
};
