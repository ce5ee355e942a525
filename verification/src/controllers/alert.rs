//! How rules and history entries are shown.

use vstd::prelude::*;
use vstd::std_specs::convert::FromSpec;
use crate::models::entities::Alert;
use crate::models::entities::AlertRule;
use crate::views::alert::AlertLogResponse;
use crate::views::alert::AlertRuleResponse;

verus! {

/// The rules as responses show them, each in its place.
pub fn rule_responses(rules: Vec<AlertRule>) -> (shown: Vec<AlertRuleResponse>)
    ensures
        shown@.len() == rules@.len(),
        forall|i: int|
            0 <= i < rules@.len() ==> #[trigger] shown@[i] == AlertRuleResponse::from_spec(
                rules@[i],
            ),
{
    let mut shown: Vec<AlertRuleResponse> = Vec::new();
    let mut i: usize = 0;
    while i < rules.len()
        invariant
            i <= rules@.len(),
            shown@.len() == i,
            forall|k: int|
                0 <= k < i ==> #[trigger] shown@[k] == AlertRuleResponse::from_spec(rules@[k]),
        decreases rules@.len() - i,
    {
        shown.push(AlertRuleResponse::from(rules[i]));
        i = i + 1;
    }
    shown
}

/// The entries of a history as responses show them, each in its place.
pub fn log_responses(logs: Vec<Alert>) -> (shown: Vec<AlertLogResponse>)
    ensures
        shown@.len() == logs@.len(),
        forall|i: int|
            0 <= i < logs@.len() ==> {
                let entry = #[trigger] shown@[i];
                &&& entry.id == logs@[i].id
                &&& entry.rule_id == logs@[i].rule_id
                &&& entry.triggered_at == logs@[i].triggered_at
                &&& entry.sent_to@ == logs@[i].sent_to@
                &&& entry.status == crate::views::alert::status_shown(logs@[i].status)
            },
{
    let mut shown: Vec<AlertLogResponse> = Vec::new();
    let mut i: usize = 0;
    while i < logs.len()
        invariant
            i <= logs@.len(),
            shown@.len() == i,
            forall|k: int|
                0 <= k < i ==> {
                    let entry = #[trigger] shown@[k];
                    &&& entry.id == logs@[k].id
                    &&& entry.rule_id == logs@[k].rule_id
                    &&& entry.triggered_at == logs@[k].triggered_at
                    &&& entry.sent_to@ == logs@[k].sent_to@
                    &&& entry.status == crate::views::alert::status_shown(logs@[k].status)
                },
        decreases logs@.len() - i,
    {
        let log: &Alert = &logs[i];
        shown.push(
            AlertLogResponse {
                id: log.id,
                rule_id: log.rule_id,
                triggered_at: log.triggered_at,
                sent_to: log.sent_to.clone(),
                status: crate::views::alert::AlertStatus::from(log.status),
            },
        );
        i = i + 1;
    }
    shown
}

} // verus!
