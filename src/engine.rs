use crate::dates::CivilDate;
use crate::error::QuotaError;
use crate::ledger::QuotaLedger;
use crate::plans::SparkPlans;
use vstd::prelude::*;

verus! {

/// What one usage event does to a key's record.
#[derive(Clone, Copy, Debug, PartialEq, Eq, Structural)]
pub enum Decision {
    /// The window was stale: it restarts today, counting this event.
    WindowReset { new_anchor: CivilDate, new_hits: u64 },
    /// The plan has expired: the key is downgraded and its count restarts.
    PlanExpired { downgrade_to: SparkPlans, reset_hits: u64, notify: bool },
    /// The count is over the plan's threshold: the key is locked out.
    QuotaExceeded,
    /// The event is counted.
    HitAccepted { new_hits: u64 },
    /// Enterprise usage is never blocked; expiry is only reported.
    EnterpriseUnbounded { warn_if_expiring: bool },
}

impl Decision {
    /// The decision does not move a key onto a plan that needs an expiry date.
    pub open spec fn downgrade_keeps_expiry(self) -> bool {
        !(self matches Decision::PlanExpired { downgrade_to: SparkPlans::Priority, .. })
    }

    /// Whether the plan owner is to be told of this outcome.
    pub open spec fn notifies(self) -> bool {
        self matches Decision::PlanExpired { notify, .. } && notify
    }

    pub fn should_notify(&self) -> (r: bool)
        ensures
            r == self.notifies(),
    {
        match self {
            Decision::PlanExpired { notify, .. } => *notify,
            _ => false,
        }
    }
}

/// The record's expiry date has been reached on `today`.
pub open spec fn expiry_reached(rec: QuotaLedger, today: CivilDate) -> bool {
    rec.plan_expiry matches Some(e) && !today.before(e)
}

/// The record's plan has expired and must be downgraded.
pub open spec fn plan_expired(rec: QuotaLedger, today: CivilDate) -> bool {
    rec.plan.enforces_expiry() && expiry_reached(rec, today) && rec.plan.downgrade_target() is Some
}

/// The outcome for one event on `rec` on `today`: a stale window is reset first,
/// then an expired plan is downgraded, then the plan's threshold is applied.
pub open spec fn decision_for(rec: QuotaLedger, today: CivilDate) -> Decision {
    if rec.window_anchor.before(today) {
        Decision::WindowReset { new_anchor: today, new_hits: 1 }
    } else if plan_expired(rec, today) {
        Decision::PlanExpired {
            downgrade_to: rec.plan.downgrade_target()->Some_0,
            reset_hits: 1,
            notify: true,
        }
    } else {
        match rec.plan.threshold() {
            Some(t) => if rec.hits > t {
                Decision::QuotaExceeded
            } else {
                Decision::HitAccepted { new_hits: (rec.hits + 1) as u64 }
            },
            None => Decision::EnterpriseUnbounded { warn_if_expiring: expiry_reached(rec, today) },
        }
    }
}

/// Decides what one usage event does to `record` on `today`.
pub fn decide(record: &QuotaLedger, today: CivilDate) -> (r: Decision)
    ensures
        r == decision_for(*record, today),
        record.window_anchor.before(today) ==> r == (Decision::WindowReset {
            new_anchor: today,
            new_hits: 1,
        }),
        !record.window_anchor.before(today) && plan_expired(*record, today) ==> r is PlanExpired,
        record.plan is Enterprise ==> !(r is QuotaExceeded),
        record.plan is Enterprise && !record.window_anchor.before(today) ==> r is EnterpriseUnbounded,
        record.plan is Hobby ==> !(r is PlanExpired),
        r is PlanExpired ==> record.plan is Priority && r == (Decision::PlanExpired {
            downgrade_to: SparkPlans::Hobby,
            reset_hits: 1,
            notify: true,
        }),
{
    if record.window_anchor.is_before(&today) {
        return Decision::WindowReset { new_anchor: today, new_hits: 1 };
    }
    let reached = match record.plan_expiry {
        Some(e) => !today.is_before(&e),
        None => false,
    };
    if record.plan.expiry_enforced() && reached {
        if let Some(target) = record.plan.downgrade_target_for() {
            return Decision::PlanExpired { downgrade_to: target, reset_hits: 1, notify: true };
        }
    }
    match record.plan.threshold_for() {
        Some(t) => {
            if record.hits > t {
                Decision::QuotaExceeded
            } else {
                Decision::HitAccepted { new_hits: record.hits + 1 }
            }
        },
        None => Decision::EnterpriseUnbounded { warn_if_expiring: reached },
    }
}

/// `rec` with its fields replaced as given.
pub open spec fn with_fields(
    rec: QuotaLedger,
    plan: SparkPlans,
    window_anchor: CivilDate,
    hits: u64,
    locked_out: bool,
) -> QuotaLedger {
    QuotaLedger {
        api_key: rec.api_key,
        plan,
        window_anchor,
        hits,
        plan_expiry: rec.plan_expiry,
        locked_out,
    }
}

/// The stored record after writing `decision`, taken on the snapshot `seen`.
/// The write holds only while the stored window anchor and plan are still those
/// of `seen`; otherwise it is stale. Hits are added as a delta, never
/// overwritten with a count computed from the snapshot.
pub open spec fn written(stored: QuotaLedger, seen: QuotaLedger, decision: Decision) -> Result<
    QuotaLedger,
    QuotaError,
> {
    if stored.window_anchor != seen.window_anchor || stored.plan != seen.plan {
        Err(QuotaError::StaleWrite)
    } else {
        match decision {
            Decision::WindowReset { new_anchor, new_hits } => Ok(
                with_fields(stored, stored.plan, new_anchor, new_hits, false),
            ),
            Decision::PlanExpired { downgrade_to, reset_hits, .. } => Ok(
                with_fields(stored, downgrade_to, stored.window_anchor, reset_hits, false),
            ),
            Decision::QuotaExceeded => Ok(
                with_fields(stored, stored.plan, stored.window_anchor, stored.hits, true),
            ),
            Decision::HitAccepted { .. } => if stored.hits < u64::MAX {
                Ok(
                    with_fields(
                        stored,
                        stored.plan,
                        stored.window_anchor,
                        (stored.hits + 1) as u64,
                        stored.locked_out,
                    ),
                )
            } else {
                Err(QuotaError::Store)
            },
            Decision::EnterpriseUnbounded { .. } => Ok(stored),
        }
    }
}

fn rebuild(
    stored: &QuotaLedger,
    plan: SparkPlans,
    window_anchor: CivilDate,
    hits: u64,
    locked_out: bool,
) -> (r: QuotaLedger)
    ensures
        r == with_fields(*stored, plan, window_anchor, hits, locked_out),
{
    QuotaLedger {
        api_key: stored.api_key.clone(),
        plan,
        window_anchor,
        hits,
        plan_expiry: stored.plan_expiry,
        locked_out,
    }
}

/// Applies `decision`, made on the snapshot `seen`, to the `stored` record as
/// one conditional write.
pub fn apply_decision(stored: &QuotaLedger, seen: &QuotaLedger, decision: &Decision) -> (r: Result<
    QuotaLedger,
    QuotaError,
>)
    ensures
        r == written(*stored, *seen, *decision),
        stored.wf() && decision.downgrade_keeps_expiry() ==> (r matches Ok(l) ==> l.wf()),
{
    if stored.window_anchor != seen.window_anchor || stored.plan != seen.plan {
        return Err(QuotaError::StaleWrite);
    }
    match decision {
        Decision::WindowReset { new_anchor, new_hits } => Ok(
            rebuild(stored, stored.plan, *new_anchor, *new_hits, false),
        ),
        Decision::PlanExpired { downgrade_to, reset_hits, .. } => Ok(
            rebuild(stored, *downgrade_to, stored.window_anchor, *reset_hits, false),
        ),
        Decision::QuotaExceeded => Ok(
            rebuild(stored, stored.plan, stored.window_anchor, stored.hits, true),
        ),
        Decision::HitAccepted { .. } => {
            if stored.hits < u64::MAX {
                Ok(
                    rebuild(
                        stored,
                        stored.plan,
                        stored.window_anchor,
                        stored.hits + 1,
                        stored.locked_out,
                    ),
                )
            } else {
                Err(QuotaError::Store)
            }
        },
        Decision::EnterpriseUnbounded { .. } => Ok(
            rebuild(stored, stored.plan, stored.window_anchor, stored.hits, stored.locked_out),
        ),
    }
}

} // verus!

verus! {

/// Resetting a stale window and deciding again on the same day never resets
/// again; for a plan that counts hits and has not expired, the second event is
/// accepted as the window's second hit.
pub proof fn lemma_reset_then_decide_again(rec: QuotaLedger, today: CivilDate)
    requires
        rec.window_anchor.before(today),
    ensures
        written(rec, rec, decision_for(rec, today)) is Ok,
        !(decision_for(written(rec, rec, decision_for(rec, today))->Ok_0, today) is WindowReset),
        !(rec.plan is Enterprise) && !plan_expired(rec, today) ==> decision_for(
            written(rec, rec, decision_for(rec, today))->Ok_0,
            today,
        ) == (Decision::HitAccepted { new_hits: 2 }),
{
}

/// Two writers that read the same stale record on the same day: the first
/// write resets the window, the second is refused as stale and may retry, and
/// the retry, decided on a fresh read, is counted, so the new window holds
/// both hits.
pub proof fn lemma_concurrent_reset_keeps_both_hits(rec: QuotaLedger, today: CivilDate)
    requires
        rec.window_anchor.before(today),
        !(rec.plan is Enterprise),
        !plan_expired(rec, today),
    ensures
        ({
            let d = decision_for(rec, today);
            let first = written(rec, rec, d);
            let fresh = first->Ok_0;
            &&& first is Ok
            &&& written(fresh, rec, d) == Err::<QuotaLedger, QuotaError>(QuotaError::StaleWrite)
            &&& crate::ingest::step_after(1, Err(QuotaError::StaleWrite))
                == crate::ingest::NextStep::Retry
            &&& written(fresh, fresh, decision_for(fresh, today)) matches Ok(s) && s.hits == 2
                && s.window_anchor == today
        }),
{
}

/// Two writers that accept a hit on the same current record both succeed, and
/// the stored count grows by two: no increment is lost.
pub proof fn lemma_concurrent_hits_add_up(rec: QuotaLedger, today: CivilDate)
    requires
        decision_for(rec, today) is HitAccepted,
    ensures
        ({
            let d = decision_for(rec, today);
            written(rec, rec, d) matches Ok(s1) && written(s1, rec, d) matches Ok(s2) && s2.hits
                == rec.hits + 2
        }),
{
}

} // verus!
