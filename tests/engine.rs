use spark_quota::dates::CivilDate;
use spark_quota::engine::{apply_decision, decide, Decision};
use spark_quota::error::QuotaError;
use spark_quota::ledger::QuotaLedger;
use spark_quota::plans::SparkPlans;

fn day(year: i32, month: u32, day: u32) -> CivilDate {
    CivilDate { year, month, day }
}

fn record(plan: SparkPlans, anchor: CivilDate, hits: u64, expiry: Option<CivilDate>) -> QuotaLedger {
    QuotaLedger {
        api_key: "key-1".to_string(),
        plan,
        window_anchor: anchor,
        hits,
        plan_expiry: expiry,
        locked_out: false,
    }
}

#[test]
fn stale_window_resets_whatever_else_holds() {
    let today = day(2024, 6, 10);
    let stale = day(2024, 6, 9);
    let cases = [
        record(SparkPlans::Hobby, stale, 500, None),
        record(SparkPlans::Priority, stale, 6000, Some(day(2024, 6, 1))),
        record(SparkPlans::Enterprise, stale, 0, Some(day(2025, 1, 1))),
    ];
    for rec in cases.iter() {
        assert_eq!(decide(rec, today), Decision::WindowReset { new_anchor: today, new_hits: 1 });
    }
}

#[test]
fn stale_window_across_a_year_boundary() {
    let rec = record(SparkPlans::Hobby, day(2023, 12, 31), 3, None);
    let today = day(2024, 1, 1);
    assert_eq!(decide(&rec, today), Decision::WindowReset { new_anchor: today, new_hits: 1 });
}

#[test]
fn expiry_takes_precedence_over_quota() {
    let today = day(2024, 6, 10);
    let rec = record(SparkPlans::Priority, today, 6000, Some(today));
    assert_eq!(
        decide(&rec, today),
        Decision::PlanExpired { downgrade_to: SparkPlans::Hobby, reset_hits: 1, notify: true }
    );
}

#[test]
fn priority_expired_before_today_is_downgraded() {
    let today = day(2024, 6, 10);
    let rec = record(SparkPlans::Priority, today, 3, Some(day(2024, 6, 2)));
    let d = decide(&rec, today);
    assert_eq!(d, Decision::PlanExpired { downgrade_to: SparkPlans::Hobby, reset_hits: 1, notify: true });
    assert!(d.should_notify());
}

#[test]
fn hobby_threshold_is_strictly_greater() {
    let today = day(2024, 6, 10);
    assert_eq!(
        decide(&record(SparkPlans::Hobby, today, 100, None), today),
        Decision::HitAccepted { new_hits: 101 }
    );
    assert_eq!(decide(&record(SparkPlans::Hobby, today, 101, None), today), Decision::QuotaExceeded);
}

#[test]
fn priority_threshold_is_strictly_greater() {
    let today = day(2024, 6, 10);
    let later = Some(day(2024, 7, 1));
    assert_eq!(
        decide(&record(SparkPlans::Priority, today, 5000, later), today),
        Decision::HitAccepted { new_hits: 5001 }
    );
    assert_eq!(decide(&record(SparkPlans::Priority, today, 5001, later), today), Decision::QuotaExceeded);
}

#[test]
fn enterprise_never_locks_out() {
    let today = day(2024, 6, 10);
    let future = Some(day(2025, 1, 1));
    for hits in [0u64, 100, 5001, u64::MAX] {
        assert_eq!(
            decide(&record(SparkPlans::Enterprise, today, hits, future), today),
            Decision::EnterpriseUnbounded { warn_if_expiring: false }
        );
    }
}

#[test]
fn enterprise_expiry_is_only_reported() {
    let today = day(2024, 6, 10);
    let d = decide(&record(SparkPlans::Enterprise, today, 9000, Some(today)), today);
    assert_eq!(d, Decision::EnterpriseUnbounded { warn_if_expiring: true });
    assert!(!d.should_notify());
}

#[test]
fn hobby_is_never_downgraded() {
    let today = day(2024, 6, 10);
    let d = decide(&record(SparkPlans::Hobby, today, 5, Some(day(2024, 1, 1))), today);
    assert_eq!(d, Decision::HitAccepted { new_hits: 6 });
}

#[test]
fn reset_then_second_decision_accepts_second_hit() {
    let today = day(2024, 6, 10);
    let rec = record(SparkPlans::Hobby, day(2024, 6, 8), 77, None);
    let d = decide(&rec, today);
    let after = apply_decision(&rec, &rec, &d).unwrap();
    assert_eq!(after.window_anchor, today);
    assert_eq!(after.hits, 1);
    assert_eq!(decide(&after, today), Decision::HitAccepted { new_hits: 2 });
}

#[test]
fn concurrent_resets_converge_to_two_hits() {
    let today = day(2024, 6, 10);
    let snapshot = record(SparkPlans::Priority, day(2024, 6, 9), 4000, Some(day(2024, 9, 1)));
    let d = decide(&snapshot, today);
    let first = apply_decision(&snapshot, &snapshot, &d).unwrap();
    assert_eq!(apply_decision(&first, &snapshot, &d).unwrap_err(), QuotaError::StaleWrite);
    let retry = decide(&first, today);
    let last = apply_decision(&first, &first, &retry).unwrap();
    assert_eq!(last.hits, 2);
    assert_eq!(last.window_anchor, today);
}

#[test]
fn concurrent_increments_are_both_counted() {
    let today = day(2024, 6, 10);
    let snapshot = record(SparkPlans::Hobby, today, 40, None);
    let d = decide(&snapshot, today);
    let first = apply_decision(&snapshot, &snapshot, &d).unwrap();
    let second = apply_decision(&first, &snapshot, &d).unwrap();
    assert_eq!(second.hits, 42);
}

#[test]
fn quota_exceeded_locks_without_counting() {
    let today = day(2024, 6, 10);
    let rec = record(SparkPlans::Hobby, today, 150, None);
    let after = apply_decision(&rec, &rec, &Decision::QuotaExceeded).unwrap();
    assert!(after.locked_out);
    assert_eq!(after.hits, 150);
}

#[test]
fn plan_expiry_write_downgrades_and_restarts_count() {
    let today = day(2024, 6, 10);
    let rec = record(SparkPlans::Priority, today, 6000, Some(today));
    let d = decide(&rec, today);
    let after = apply_decision(&rec, &rec, &d).unwrap();
    assert_eq!(after.plan, SparkPlans::Hobby);
    assert_eq!(after.hits, 1);
    assert_eq!(after.api_key, "key-1");
}

#[test]
fn write_on_changed_plan_is_stale() {
    let today = day(2024, 6, 10);
    let seen = record(SparkPlans::Priority, today, 10, Some(day(2024, 9, 1)));
    let stored = record(SparkPlans::Hobby, today, 10, Some(day(2024, 9, 1)));
    let d = decide(&seen, today);
    assert_eq!(apply_decision(&stored, &seen, &d).unwrap_err(), QuotaError::StaleWrite);
}

#[test]
fn increment_at_the_largest_count_is_a_store_error() {
    let today = day(2024, 6, 10);
    let rec = record(SparkPlans::Enterprise, today, u64::MAX, None);
    let d = Decision::HitAccepted { new_hits: 0 };
    assert_eq!(apply_decision(&rec, &rec, &d).unwrap_err(), QuotaError::Store);
}

#[test]
fn enterprise_write_leaves_record_unchanged() {
    let today = day(2024, 6, 10);
    let rec = record(SparkPlans::Enterprise, today, 12, None);
    let d = decide(&rec, today);
    let after = apply_decision(&rec, &rec, &d).unwrap();
    assert_eq!(after.hits, 12);
    assert!(!after.locked_out);
}
