# tool_timing_budget

A total wall-clock budget across all tool calls of an agent run, verified
with Verus.

- `src/record.rs`: `ToolTiming`, the `ToolName` labels a call can take, and
  `total_ms`, the sum that the budget is measured by.
- `src/budget.rs`: `TimingBudget` and `BudgetExceeded`, with contracts over
  `limit()`, `calls()` and `used()`.
- `src/message.rs`: the decimal rendering behind `BudgetExceeded::to_string`.
- `src/laws.rs`: properties that span several operations.
- `app/`: the floating-point queries (`fraction_used`, `avg_ms`) and a copy of
  `BudgetExceeded` with `Display` and `std::error::Error`.
