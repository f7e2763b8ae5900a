use crate::dates::{iso_date_of, CivilDate};
use crate::error::QuotaError;
use crate::plans::{plan_named, SparkPlans};
use vstd::prelude::*;

verus! {

/// The usage record of one API key, as the decision engine sees it.
#[derive(Clone, Debug)]
pub struct QuotaLedger {
    pub api_key: String,
    pub plan: SparkPlans,
    /// First day of the window whose hits are being counted.
    pub window_anchor: CivilDate,
    pub hits: u64,
    /// Day from which the plan counts as expired, if it expires.
    pub plan_expiry: Option<CivilDate>,
    pub locked_out: bool,
}

/// A ledger row as the store hands it over: names and dates still as text.
#[derive(Clone, Debug)]
pub struct LedgerRow {
    pub api_key: String,
    pub plan_type: String,
    pub ref_date: String,
    pub hits: i64,
    pub expiry_on: Option<String>,
    pub locked_out: bool,
}

/// The record made of already read fields, or why they do not form one: a
/// negative hit count, or a Priority plan without an expiry date.
pub open spec fn ledger_of(
    api_key: String,
    plan: SparkPlans,
    window_anchor: CivilDate,
    hits: i64,
    plan_expiry: Option<CivilDate>,
    locked_out: bool,
) -> Result<QuotaLedger, QuotaError> {
    if hits < 0 || (plan is Priority && plan_expiry is None) {
        Err(QuotaError::DataIntegrity)
    } else {
        Ok(
            QuotaLedger {
                api_key,
                plan,
                window_anchor,
                hits: hits as u64,
                plan_expiry,
                locked_out,
            },
        )
    }
}

/// The record that a stored row describes, or `DataIntegrity` when one of its
/// fields is unreadable or the fields are inconsistent.
pub open spec fn ledger_of_row(row: LedgerRow) -> Result<QuotaLedger, QuotaError> {
    let expiry = match row.expiry_on {
        Some(s) => match iso_date_of(s@) {
            Some(d) => Ok(Some(d)),
            None => Err(()),
        },
        None => Ok(None),
    };
    match (plan_named(row.plan_type@), iso_date_of(row.ref_date@), expiry) {
        (Some(plan), Some(anchor), Ok(expiry)) => ledger_of(
            row.api_key,
            plan,
            anchor,
            row.hits,
            expiry,
            row.locked_out,
        ),
        _ => Err(QuotaError::DataIntegrity),
    }
}

impl QuotaLedger {
    /// A plan that expires carries its expiry date.
    pub open spec fn wf(self) -> bool {
        !(self.plan is Priority && self.plan_expiry is None)
    }

    /// Builds a record from read fields, checking what the fields must satisfy.
    pub fn from_parts(
        api_key: String,
        plan: SparkPlans,
        window_anchor: CivilDate,
        hits: i64,
        plan_expiry: Option<CivilDate>,
        locked_out: bool,
    ) -> (r: Result<QuotaLedger, QuotaError>)
        ensures
            r == ledger_of(api_key, plan, window_anchor, hits, plan_expiry, locked_out),
            r matches Ok(l) ==> l.wf(),
    {
        if hits < 0 {
            return Err(QuotaError::DataIntegrity);
        }
        match (plan, plan_expiry) {
            (SparkPlans::Priority, None) => Err(QuotaError::DataIntegrity),
            _ => Ok(
                QuotaLedger {
                    api_key,
                    plan,
                    window_anchor,
                    hits: hits as u64,
                    plan_expiry,
                    locked_out,
                },
            ),
        }
    }

    /// Reads a stored row into a record; any unreadable or inconsistent field
    /// makes the row a data error.
    pub fn from_row(row: &LedgerRow) -> (r: Result<QuotaLedger, QuotaError>)
        ensures
            r == ledger_of_row(*row),
            r matches Ok(l) ==> l.wf(),
    {
        let plan = SparkPlans::plan_from_str(row.plan_type.as_str())?;
        let anchor = CivilDate::parse(row.ref_date.as_str())?;
        let expiry = match &row.expiry_on {
            Some(s) => Some(CivilDate::parse(s.as_str())?),
            None => None,
        };
        QuotaLedger::from_parts(row.api_key.clone(), plan, anchor, row.hits, expiry, row.locked_out)
    }
}

} // verus!
