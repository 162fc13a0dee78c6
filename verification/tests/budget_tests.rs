use tool_timing_budget::{BudgetExceeded, TimingBudget};

#[test]
fn record_and_used() {
    let mut b = TimingBudget::new(5000);
    b.record("t1", 1000);
    b.record("t2", 500);
    assert_eq!(b.used_ms(), 1500);
}

#[test]
fn new_starts_empty() {
    let b = TimingBudget::new(5000);
    assert_eq!(b.used_ms(), 0);
    assert_eq!(b.call_count(), 0);
    assert_eq!(b.budget_ms(), 5000);
    assert_eq!(b.remaining_ms(), 5000);
    assert!(b.timings().is_empty());
}

#[test]
fn remaining() {
    let mut b = TimingBudget::new(5000);
    b.record("t", 2000);
    assert_eq!(b.remaining_ms(), 3000);
}

#[test]
fn remaining_saturates_at_zero() {
    let mut b = TimingBudget::new(1000);
    b.record("t", 5000);
    assert_eq!(b.remaining_ms(), 0);
}

#[test]
fn has_remaining_true() {
    let mut b = TimingBudget::new(5000);
    b.record("t", 1000);
    assert!(b.has_remaining(4000));
}

#[test]
fn has_remaining_exact_boundary() {
    let mut b = TimingBudget::new(5000);
    b.record("t", 1000);
    // Exactly the remaining amount still counts as available.
    assert!(b.has_remaining(4000));
    assert!(!b.has_remaining(4001));
}

#[test]
fn has_remaining_false() {
    let mut b = TimingBudget::new(1000);
    b.record("t", 800);
    assert!(!b.has_remaining(300));
}

#[test]
fn exhausted_when_over() {
    let mut b = TimingBudget::new(500);
    b.record("t", 500);
    assert!(b.is_exhausted());
}

#[test]
fn not_exhausted_under() {
    let mut b = TimingBudget::new(1000);
    b.record("t", 500);
    assert!(!b.is_exhausted());
}

#[test]
fn check_ok() {
    let mut b = TimingBudget::new(1000);
    b.record("t", 400);
    assert!(b.check().is_ok());
}

#[test]
fn check_exceeded() {
    let mut b = TimingBudget::new(500);
    b.record("t", 600);
    assert!(b.check().is_err());
}

#[test]
fn check_at_exact_budget_is_err() {
    // Reaching the budget exactly counts as exceeded.
    let mut b = TimingBudget::new(500);
    b.record("t", 500);
    assert!(b.check().is_err());
}

#[test]
fn check_error_carries_values() {
    let mut b = TimingBudget::new(500);
    b.record("t", 600);
    let err = b.check().unwrap_err();
    assert_eq!(err.used_ms, 600);
    assert_eq!(err.budget_ms, 500);
}

#[test]
fn record_and_check_convenience() {
    let mut b = TimingBudget::new(300);
    let r = b.record_and_check("t", 400);
    assert!(r.is_err());
}

#[test]
fn record_and_check_ok_path_records() {
    let mut b = TimingBudget::new(1000);
    assert!(b.record_and_check("t", 400).is_ok());
    // The call is recorded even when within budget.
    assert_eq!(b.used_ms(), 400);
    assert_eq!(b.call_count(), 1);
}

#[test]
fn slowest_tool() {
    let mut b = TimingBudget::new(10000);
    b.record("fast", 100);
    b.record("slow", 900);
    assert_eq!(b.slowest().unwrap().tool, "slow");
}

#[test]
fn slowest_empty_is_none() {
    let b = TimingBudget::new(10000);
    assert!(b.slowest().is_none());
}

#[test]
fn zero_budget_is_immediately_exhausted() {
    let b = TimingBudget::new(0);
    assert!(b.is_exhausted());
    assert!(b.check().is_err());
    assert_eq!(b.remaining_ms(), 0);
}

#[test]
fn call_count_and_timings_accessor() {
    let mut b = TimingBudget::new(10000);
    b.record("a", 10);
    b.record("b", 20);
    assert_eq!(b.call_count(), 2);
    let ts = b.timings();
    assert_eq!(ts.len(), 2);
    // Timings preserve insertion order.
    assert_eq!(ts[0].tool, "a");
    assert_eq!(ts[0].elapsed_ms, 10);
    assert_eq!(ts[1].tool, "b");
    assert_eq!(ts[1].elapsed_ms, 20);
}

#[test]
fn reset_clears() {
    let mut b = TimingBudget::new(1000);
    b.record("t", 500);
    b.reset();
    assert_eq!(b.used_ms(), 0);
}

#[test]
fn reset_keeps_budget() {
    let mut b = TimingBudget::new(1000);
    b.record("t", 500);
    b.reset();
    assert_eq!(b.budget_ms(), 1000);
    assert_eq!(b.call_count(), 0);
    assert_eq!(b.remaining_ms(), 1000);
}

#[test]
fn budget_exceeded_display() {
    let err = BudgetExceeded {
        used_ms: 400,
        budget_ms: 300,
    };
    assert_eq!(err.to_string(), "timing budget exceeded (400/300ms)");
}

/// Carries the error's report into the standard error machinery.
#[derive(Debug)]
struct BoxedExceeded(BudgetExceeded);

impl std::fmt::Display for BoxedExceeded {
    fn fmt(&self, f: &mut std::fmt::Formatter<'_>) -> std::fmt::Result {
        f.write_str(&self.0.to_string())
    }
}

impl std::error::Error for BoxedExceeded {}

#[test]
fn budget_exceeded_is_std_error() {
    // The error can be used as a boxed std error.
    let err = BudgetExceeded {
        used_ms: 400,
        budget_ms: 300,
    };
    let boxed: Box<dyn std::error::Error> = Box::new(BoxedExceeded(err));
    assert!(boxed.to_string().contains("exceeded"));
}

#[test]
fn record_accepts_string_and_str() {
    let mut b = TimingBudget::new(1000);
    b.record("borrowed", 1);
    b.record(String::from("owned"), 1);
    assert_eq!(b.call_count(), 2);
}
