use crate::error::QuotaError;
use vstd::prelude::*;

verus! {

/// Daily hit threshold of the Hobby plan.
pub const HOBBY_DAILY_HITS: u64 = 100;

/// Daily hit threshold of the Priority plan.
pub const PRIORITY_DAILY_HITS: u64 = 5000;

/// The subscription plans a key can be on.
#[derive(Clone, Copy, Debug, PartialEq, Eq, Structural)]
pub enum SparkPlans {
    Hobby,
    Priority,
    /// Stored under the name `Enterprize`.
    Enterprise,
}

/// The plan stored under the name `s`, if any.
pub open spec fn plan_named(s: Seq<char>) -> Option<SparkPlans> {
    if s == "Hobby"@ {
        Some(SparkPlans::Hobby)
    } else if s == "Priority"@ {
        Some(SparkPlans::Priority)
    } else if s == "Enterprize"@ {
        Some(SparkPlans::Enterprise)
    } else {
        None
    }
}

/// Whether two strings hold the same characters.
fn same_text(a: &str, b: &str) -> (r: bool)
    ensures
        r == (a@ == b@),
{
    let n = a.unicode_len();
    if n != b.unicode_len() {
        return false;
    }
    let mut i: usize = 0;
    while i < n
        invariant
            n == a@.len(),
            n == b@.len(),
            i <= n,
            forall|j: int| 0 <= j < i ==> a@[j] == b@[j],
        decreases n - i,
    {
        if a.get_char(i) != b.get_char(i) {
            return false;
        }
        i += 1;
    }
    assert(a@ =~= b@);
    true
}

impl SparkPlans {
    /// Daily hit threshold; `None` where the plan is never locked out.
    pub open spec fn threshold(self) -> Option<u64> {
        match self {
            SparkPlans::Hobby => Some(HOBBY_DAILY_HITS),
            SparkPlans::Priority => Some(PRIORITY_DAILY_HITS),
            SparkPlans::Enterprise => None,
        }
    }

    /// The plan a key falls back to when this one expires; none for Enterprise.
    pub open spec fn downgrade_target(self) -> Option<SparkPlans> {
        match self {
            SparkPlans::Hobby => Some(SparkPlans::Hobby),
            SparkPlans::Priority => Some(SparkPlans::Hobby),
            SparkPlans::Enterprise => None,
        }
    }

    /// Whether an expiry date of this plan is enforced by a downgrade. Hobby
    /// has no expiry, and Enterprise expiry is only reported.
    pub open spec fn enforces_expiry(self) -> bool {
        self is Priority
    }

    /// Reads a stored plan name; an unknown name is a data error.
    pub fn plan_from_str(plan_type: &str) -> (r: Result<SparkPlans, QuotaError>)
        ensures
            match plan_named(plan_type@) {
                Some(p) => r == Ok::<SparkPlans, QuotaError>(p),
                None => r == Err::<SparkPlans, QuotaError>(QuotaError::DataIntegrity),
            },
    {
        if same_text(plan_type, "Hobby") {
            Ok(SparkPlans::Hobby)
        } else if same_text(plan_type, "Priority") {
            Ok(SparkPlans::Priority)
        } else if same_text(plan_type, "Enterprize") {
            Ok(SparkPlans::Enterprise)
        } else {
            Err(QuotaError::DataIntegrity)
        }
    }

    /// The name under which the plan is stored.
    pub fn stored_name(self) -> (r: &'static str)
        ensures
            plan_named(r@) == Some(self),
    {
        proof {
            reveal_strlit("Hobby");
            reveal_strlit("Priority");
            reveal_strlit("Enterprize");
            assert("Hobby"@.len() == 5);
            assert("Priority"@.len() == 8);
            assert("Enterprize"@.len() == 10);
        }
        match self {
            SparkPlans::Hobby => "Hobby",
            SparkPlans::Priority => "Priority",
            SparkPlans::Enterprise => "Enterprize",
        }
    }

    pub fn threshold_for(self) -> (r: Option<u64>)
        ensures
            r == self.threshold(),
    {
        match self {
            SparkPlans::Hobby => Some(HOBBY_DAILY_HITS),
            SparkPlans::Priority => Some(PRIORITY_DAILY_HITS),
            SparkPlans::Enterprise => None,
        }
    }

    pub fn downgrade_target_for(self) -> (r: Option<SparkPlans>)
        ensures
            r == self.downgrade_target(),
    {
        match self {
            SparkPlans::Hobby => Some(SparkPlans::Hobby),
            SparkPlans::Priority => Some(SparkPlans::Hobby),
            SparkPlans::Enterprise => None,
        }
    }

    pub fn expiry_enforced(self) -> (r: bool)
        ensures
            r == self.enforces_expiry(),
    {
        match self {
            SparkPlans::Priority => true,
            _ => false,
        }
    }
}

} // verus!
