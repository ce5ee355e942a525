//! The rule store and the alert history, with the ownership records that
//! both are read against.
//!
//! Rules are created, changed and deleted; entries of the history are only
//! ever appended. Reservoirs and users are kept here as they are known from
//! outside: the operations on rules and alerts read them and never change
//! them.

use vstd::prelude::*;
use vstd::string::StringExecFns;
use crate::double::Double;
use crate::error::AppError;
use crate::models::entities::Alert;
use crate::models::entities::AlertConditionType;
use crate::models::entities::AlertRule;
use crate::models::entities::AlertStatus;
use crate::models::entities::AlertView;
use crate::models::entities::Reservoir;
use crate::models::entities::User;

verus! {

/// Rules, history and ownership records in memory.
///
/// A store is made empty and changed through its operations only, each of
/// which keeps it `valid`: what the operations require of a store holds of
/// every store that there is.
pub struct Store {
    reservoirs: Vec<Reservoir>,
    users: Vec<User>,
    rules: Vec<AlertRule>,
    alerts: Vec<Alert>,
    last_rule_id: i32,
    last_alert_id: i32,
}

/// What a `Store` holds. `rules` and `alerts` stand in the order in which
/// they were created; `last_rule_id` and `last_alert_id` are the latest ids
/// that were given out, 0 before the first.
pub struct StoreView {
    pub reservoirs: Seq<Reservoir>,
    pub users: Seq<User>,
    pub rules: Seq<AlertRule>,
    pub alerts: Seq<AlertView>,
    pub last_rule_id: i32,
    pub last_alert_id: i32,
}

/// Whether some reservoir of `reservoirs` has the id `id`.
pub open spec fn has_reservoir(reservoirs: Seq<Reservoir>, id: i32) -> bool {
    exists|i: int| 0 <= i < reservoirs.len() && #[trigger] reservoirs[i].id == id
}

/// The place of a reservoir with the id `id`.
pub open spec fn reservoir_index(reservoirs: Seq<Reservoir>, id: i32) -> int {
    choose|i: int| 0 <= i < reservoirs.len() && #[trigger] reservoirs[i].id == id
}

/// Whether some user of `users` has the id `id`.
pub open spec fn has_user(users: Seq<User>, id: i32) -> bool {
    exists|i: int| 0 <= i < users.len() && #[trigger] users[i].id == id
}

/// The place of a user with the id `id`.
pub open spec fn user_index(users: Seq<User>, id: i32) -> int {
    choose|i: int| 0 <= i < users.len() && #[trigger] users[i].id == id
}

/// Whether some rule of `rules` has the id `id`.
pub open spec fn has_rule(rules: Seq<AlertRule>, id: i32) -> bool {
    exists|i: int| 0 <= i < rules.len() && #[trigger] rules[i].id == id
}

/// The place of a rule with the id `id`.
pub open spec fn rule_index(rules: Seq<AlertRule>, id: i32) -> int {
    choose|i: int| 0 <= i < rules.len() && #[trigger] rules[i].id == id
}

/// The rule with the id `id`, if there is one.
pub open spec fn rule_by_id(rules: Seq<AlertRule>, id: i32) -> Option<AlertRule> {
    if has_rule(rules, id) {
        Some(rules[rule_index(rules, id)])
    } else {
        None
    }
}

/// The rules of one reservoir, in the order of `rules`.
pub open spec fn rules_of(rules: Seq<AlertRule>, reservoir_id: i32) -> Seq<AlertRule>
    decreases rules.len(),
{
    if rules.len() == 0 {
        Seq::empty()
    } else {
        let earlier = rules_of(rules.drop_last(), reservoir_id);
        if rules.last().reservoir_id == reservoir_id {
            earlier.push(rules.last())
        } else {
            earlier
        }
    }
}

/// Whether the ids of `rules` grow strictly along the sequence.
pub open spec fn rule_ids_increase(rules: Seq<AlertRule>) -> bool {
    forall|i: int, j: int|
        0 <= i < j < rules.len() ==> (#[trigger] rules[i]).id < (#[trigger] rules[j]).id
}

/// Whether the ids of `alerts` grow strictly along the sequence.
pub open spec fn alert_ids_increase(alerts: Seq<AlertView>) -> bool {
    forall|i: int, j: int|
        0 <= i < j < alerts.len() ==> (#[trigger] alerts[i]).id < (#[trigger] alerts[j]).id
}

impl StoreView {
    /// What always holds of a store: no two reservoirs and no two users
    /// share an id; rules and alerts carry ids that grow in the order of
    /// their creation, from 1 up to the latest id given out; and the
    /// threshold of every rule is a finite number.
    pub open spec fn valid(self) -> bool {
        &&& 0 <= self.last_rule_id
        &&& 0 <= self.last_alert_id
        &&& forall|i: int|
            0 <= i < self.rules.len() ==> 0 < (#[trigger] self.rules[i]).id <= self.last_rule_id
        &&& forall|i: int|
            0 <= i < self.rules.len() ==> (#[trigger] self.rules[i]).threshold.finite()
        &&& rule_ids_increase(self.rules)
        &&& forall|i: int|
            0 <= i < self.alerts.len() ==> 0 < (#[trigger] self.alerts[i]).id
                <= self.last_alert_id
        &&& alert_ids_increase(self.alerts)
        &&& forall|i: int, j: int|
            0 <= i < j < self.reservoirs.len() ==> (#[trigger] self.reservoirs[i]).id != (
            #[trigger] self.reservoirs[j]).id
        &&& forall|i: int, j: int|
            0 <= i < j < self.users.len() ==> (#[trigger] self.users[i]).id != (
            #[trigger] self.users[j]).id
    }

    /// The id of the user who owns the reservoir `reservoir_id`, if the
    /// reservoir is known.
    pub open spec fn owner_of(self, reservoir_id: i32) -> Option<i32> {
        if has_reservoir(self.reservoirs, reservoir_id) {
            Some(self.reservoirs[reservoir_index(self.reservoirs, reservoir_id)].user_id)
        } else {
            None
        }
    }
}

/// In a sequence of rules with strictly growing ids, a rule's id fixes its
/// place.
pub proof fn lemma_rule_index(rules: Seq<AlertRule>, i: int)
    requires
        rule_ids_increase(rules),
        0 <= i < rules.len(),
    ensures
        has_rule(rules, rules[i].id),
        rule_index(rules, rules[i].id) == i,
        rule_by_id(rules, rules[i].id) == Some(rules[i]),
{
}

impl View for Store {
    type V = StoreView;

    closed spec fn view(&self) -> StoreView {
        StoreView {
            reservoirs: self.reservoirs@,
            users: self.users@,
            rules: self.rules@,
            alerts: Seq::new(self.alerts@.len(), |i: int| self.alerts@[i]@),
            last_rule_id: self.last_rule_id,
            last_alert_id: self.last_alert_id,
        }
    }
}

/// What is said to whoever asks for a rule whose threshold is a NaN or an
/// infinity.
pub open spec fn threshold_text() -> Seq<char> {
    "Threshold must be a finite number"@
}

impl Store {
    /// The refusal of a threshold that is not a finite number.
    pub fn not_finite() -> (e: AppError)
        ensures
            e.is_invalid(threshold_text()),
    {
        AppError::Invalid { msg: String::from_str("Threshold must be a finite number") }
    }

    /// A store with no reservoir, user, rule or alert.
    pub fn new() -> (store: Store)
        ensures
            store@.valid(),
            store@.reservoirs.len() == 0,
            store@.users.len() == 0,
            store@.rules.len() == 0,
            store@.alerts.len() == 0,
            store@.last_rule_id == 0,
            store@.last_alert_id == 0,
    {
        Store {
            reservoirs: Vec::new(),
            users: Vec::new(),
            rules: Vec::new(),
            alerts: Vec::new(),
            last_rule_id: 0,
            last_alert_id: 0,
        }
    }

    /// Where the reservoir `id` stands, if it is known.
    fn find_reservoir(&self, id: i32) -> (found: Option<usize>)
        requires
            self@.valid(),
        ensures
            found is Some <==> has_reservoir(self@.reservoirs, id),
            found matches Some(i) ==> i == reservoir_index(self@.reservoirs, id) && i
                < self.reservoirs@.len(),
    {
        let mut i: usize = 0;
        while i < self.reservoirs.len()
            invariant
                i <= self.reservoirs@.len(),
                self@.valid(),
                self@.reservoirs == self.reservoirs@,
                forall|j: int| 0 <= j < i ==> (#[trigger] self.reservoirs@[j]).id != id,
            decreases self.reservoirs@.len() - i,
        {
            if self.reservoirs[i].id == id {
                return Some(i);
            }
            i = i + 1;
        }
        None
    }

    /// Where the user `id` stands, if it is known.
    fn find_user(&self, id: i32) -> (found: Option<usize>)
        requires
            self@.valid(),
        ensures
            found is Some <==> has_user(self@.users, id),
            found matches Some(i) ==> i == user_index(self@.users, id) && i < self.users@.len(),
    {
        let mut i: usize = 0;
        while i < self.users.len()
            invariant
                i <= self.users@.len(),
                self@.valid(),
                self@.users == self.users@,
                forall|j: int| 0 <= j < i ==> (#[trigger] self.users@[j]).id != id,
            decreases self.users@.len() - i,
        {
            if self.users[i].id == id {
                return Some(i);
            }
            i = i + 1;
        }
        None
    }

    /// Where the rule `id` stands, if there is one.
    fn find_rule(&self, id: i32) -> (found: Option<usize>)
        requires
            self@.valid(),
        ensures
            found is Some <==> has_rule(self@.rules, id),
            found matches Some(i) ==> i == rule_index(self@.rules, id) && i < self.rules@.len(),
    {
        let mut i: usize = 0;
        while i < self.rules.len()
            invariant
                i <= self.rules@.len(),
                self@.valid(),
                self@.rules == self.rules@,
                forall|j: int| 0 <= j < i ==> (#[trigger] self.rules@[j]).id != id,
            decreases self.rules@.len() - i,
        {
            if self.rules[i].id == id {
                proof {
                    lemma_rule_index(self@.rules, i as int);
                }
                return Some(i);
            }
            i = i + 1;
        }
        None
    }

    /// The reservoir `id`, if it is known.
    pub fn reservoir(&self, id: i32) -> (found: Option<&Reservoir>)
        requires
            self@.valid(),
        ensures
            found is Some <==> has_reservoir(self@.reservoirs, id),
            found matches Some(r) ==> *r == self@.reservoirs[reservoir_index(
                self@.reservoirs,
                id,
            )],
    {
        match self.find_reservoir(id) {
            Some(i) => Some(&self.reservoirs[i]),
            None => None,
        }
    }

    /// The user `id`, if it is known.
    pub fn user(&self, id: i32) -> (found: Option<&User>)
        requires
            self@.valid(),
        ensures
            found is Some <==> has_user(self@.users, id),
            found matches Some(u) ==> *u == self@.users[user_index(self@.users, id)],
    {
        match self.find_user(id) {
            Some(i) => Some(&self.users[i]),
            None => None,
        }
    }

    /// The rule `id`, if there is one.
    pub fn rule(&self, id: i32) -> (found: Option<AlertRule>)
        requires
            self@.valid(),
        ensures
            found == rule_by_id(self@.rules, id),
    {
        match self.find_rule(id) {
            Some(i) => Some(self.rules[i]),
            None => None,
        }
    }

    /// Makes the reservoir known, in place of what was known under its id.
    pub fn put_reservoir(&mut self, reservoir: Reservoir)
        requires
            old(self)@.valid(),
        ensures
            final(self)@.valid(),
            final(self)@.users == old(self)@.users,
            final(self)@.rules == old(self)@.rules,
            final(self)@.alerts == old(self)@.alerts,
            final(self)@.last_rule_id == old(self)@.last_rule_id,
            final(self)@.last_alert_id == old(self)@.last_alert_id,
            final(self)@.reservoirs == if has_reservoir(old(self)@.reservoirs, reservoir.id) {
                old(self)@.reservoirs.update(
                    reservoir_index(old(self)@.reservoirs, reservoir.id),
                    reservoir,
                )
            } else {
                old(self)@.reservoirs.push(reservoir)
            },
    {
        match self.find_reservoir(reservoir.id) {
            Some(i) => {
                self.reservoirs.set(i, reservoir);
            },
            None => {
                self.reservoirs.push(reservoir);
            },
        }
    }

    /// Makes the user known, in place of what was known under its id.
    pub fn put_user(&mut self, user: User)
        requires
            old(self)@.valid(),
        ensures
            final(self)@.valid(),
            final(self)@.reservoirs == old(self)@.reservoirs,
            final(self)@.rules == old(self)@.rules,
            final(self)@.alerts == old(self)@.alerts,
            final(self)@.last_rule_id == old(self)@.last_rule_id,
            final(self)@.last_alert_id == old(self)@.last_alert_id,
            final(self)@.users == if has_user(old(self)@.users, user.id) {
                old(self)@.users.update(user_index(old(self)@.users, user.id), user)
            } else {
                old(self)@.users.push(user)
            },
    {
        match self.find_user(user.id) {
            Some(i) => {
                self.users.set(i, user);
            },
            None => {
                self.users.push(user);
            },
        }
    }

    /// Every rule, in the order of creation.
    pub fn rules(&self) -> (all: &Vec<AlertRule>)
        ensures
            all@ == self@.rules,
    {
        &self.rules
    }

    /// The whole history, in the order in which it was written.
    pub fn alerts(&self) -> (all: &Vec<Alert>)
        ensures
            all@.len() == self@.alerts.len(),
            forall|i: int| 0 <= i < all@.len() ==> (#[trigger] all@[i])@ == self@.alerts[i],
    {
        &self.alerts
    }

    /// The rules of one reservoir, in the order of creation.
    pub fn rules_of_reservoir(&self, reservoir_id: i32) -> (found: Vec<AlertRule>)
        ensures
            found@ == rules_of(self@.rules, reservoir_id),
    {
        let mut found: Vec<AlertRule> = Vec::new();
        let mut i: usize = 0;
        while i < self.rules.len()
            invariant
                i <= self.rules@.len(),
                found@ == rules_of(self.rules@.take(i as int), reservoir_id),
            decreases self.rules@.len() - i,
        {
            proof {
                assert(self.rules@.take(i + 1).drop_last() == self.rules@.take(i as int));
            }
            if self.rules[i].reservoir_id == reservoir_id {
                found.push(self.rules[i]);
            }
            i = i + 1;
        }
        proof {
            assert(self.rules@.take(i as int) == self.rules@);
        }
        found
    }

    /// Creates an active rule on the reservoir `reservoir_id` under the next
    /// id. Fails with `Invalid`, and changes nothing, where the threshold is
    /// not a finite number; fails with `Database`, and changes nothing, once
    /// every id has been given out.
    pub fn insert_rule(
        &mut self,
        reservoir_id: i32,
        condition: AlertConditionType,
        threshold: Double,
    ) -> (r: Result<AlertRule, AppError>)
        requires
            old(self)@.valid(),
        ensures
            final(self)@.valid(),
            !threshold.finite() ==> {
                &&& r matches Err(e)
                &&& e.is_invalid(threshold_text())
                &&& final(self)@ == old(self)@
            },
            threshold.finite() && old(self)@.last_rule_id < i32::MAX ==> {
                let rule = AlertRule {
                    id: (old(self)@.last_rule_id + 1) as i32,
                    reservoir_id,
                    condition_type: condition,
                    threshold,
                    is_active: true,
                };
                &&& r == Ok::<AlertRule, AppError>(rule)
                &&& final(self)@ == (StoreView {
                    rules: old(self)@.rules.push(rule),
                    last_rule_id: rule.id,
                    ..old(self)@
                })
            },
            threshold.finite() && old(self)@.last_rule_id == i32::MAX ==> {
                &&& r matches Err(e)
                &&& e.is_database("no alert rule id is left"@)
                &&& final(self)@ == old(self)@
            },
    {
        if !threshold.is_finite() {
            return Err(Store::not_finite());
        }
        if self.last_rule_id == i32::MAX {
            return Err(AppError::Database { message: String::from_str("no alert rule id is left") });
        }
        let rule = AlertRule {
            id: self.last_rule_id + 1,
            reservoir_id,
            condition_type: condition,
            threshold,
            is_active: true,
        };
        self.last_rule_id = rule.id;
        self.rules.push(rule);
        Ok(rule)
    }

    /// Takes in a rule that was created elsewhere, under the id that it
    /// has. Rules come in the order of their ids: one whose id is not above
    /// the latest id is turned away, and so is one whose threshold is not a
    /// finite number; then nothing changes.
    pub fn load_rule(&mut self, rule: AlertRule) -> (kept: bool)
        requires
            old(self)@.valid(),
        ensures
            final(self)@.valid(),
            kept == (rule.id > old(self)@.last_rule_id && rule.threshold.finite()),
            kept ==> final(self)@ == (StoreView {
                rules: old(self)@.rules.push(rule),
                last_rule_id: rule.id,
                ..old(self)@
            }),
            !kept ==> final(self)@ == old(self)@,
    {
        if rule.id <= self.last_rule_id || !rule.threshold.is_finite() {
            return false;
        }
        self.last_rule_id = rule.id;
        self.rules.push(rule);
        true
    }

    /// Takes in an entry of the history that was written elsewhere, under
    /// the id that it has. Entries come in the order of their ids: one whose
    /// id is not above the latest id is turned away, and nothing changes.
    pub fn load_alert(&mut self, alert: Alert) -> (kept: bool)
        requires
            old(self)@.valid(),
        ensures
            final(self)@.valid(),
            kept == (alert.id > old(self)@.last_alert_id),
            kept ==> final(self)@ == (StoreView {
                alerts: old(self)@.alerts.push(alert@),
                last_alert_id: alert.id,
                ..old(self)@
            }),
            !kept ==> final(self)@ == old(self)@,
    {
        if alert.id <= self.last_alert_id {
            return false;
        }
        self.last_alert_id = alert.id;
        let ghost entry = alert@;
        self.alerts.push(alert);
        proof {
            assert(self@.alerts =~= old(self)@.alerts.push(entry));
        }
        true
    }

    /// Puts `rule` in the place of the rule that has its id, unless its
    /// threshold is not a finite number. Returns whether a rule was replaced;
    /// if not, nothing changes.
    pub fn replace_rule(&mut self, rule: AlertRule) -> (replaced: bool)
        requires
            old(self)@.valid(),
        ensures
            final(self)@.valid(),
            replaced == (rule.threshold.finite() && has_rule(old(self)@.rules, rule.id)),
            replaced ==> final(self)@ == (StoreView {
                rules: old(self)@.rules.update(rule_index(old(self)@.rules, rule.id), rule),
                ..old(self)@
            }),
            !replaced ==> final(self)@ == old(self)@,
    {
        if !rule.threshold.is_finite() {
            return false;
        }
        match self.find_rule(rule.id) {
            Some(i) => {
                self.rules.set(i, rule);
                true
            },
            None => false,
        }
    }

    /// Deletes the rule `id`. Returns whether there was one; if not, nothing
    /// changes. The history keeps the entries of a deleted rule.
    pub fn remove_rule(&mut self, id: i32) -> (removed: bool)
        requires
            old(self)@.valid(),
        ensures
            final(self)@.valid(),
            removed == has_rule(old(self)@.rules, id),
            removed ==> final(self)@ == (StoreView {
                rules: old(self)@.rules.remove(rule_index(old(self)@.rules, id)),
                ..old(self)@
            }),
            !removed ==> final(self)@ == old(self)@,
    {
        match self.find_rule(id) {
            Some(i) => {
                self.rules.remove(i);
                true
            },
            None => false,
        }
    }

    /// Appends an entry to the history under the next id. Fails, and changes
    /// nothing, once every id has been given out.
    pub fn append_alert(
        &mut self,
        rule_id: i32,
        sent_to: &str,
        status: AlertStatus,
        triggered_at: i64,
    ) -> (r: Result<Alert, AppError>)
        requires
            old(self)@.valid(),
        ensures
            final(self)@.valid(),
            old(self)@.last_alert_id < i32::MAX ==> {
                let entry = AlertView {
                    id: (old(self)@.last_alert_id + 1) as i32,
                    rule_id,
                    triggered_at,
                    sent_to: sent_to@,
                    status,
                };
                &&& r matches Ok(alert)
                &&& alert@ == entry
                &&& final(self)@ == (StoreView {
                    alerts: old(self)@.alerts.push(entry),
                    last_alert_id: entry.id,
                    ..old(self)@
                })
            },
            old(self)@.last_alert_id == i32::MAX ==> {
                &&& r matches Err(e)
                &&& e.is_database("no alert id is left"@)
                &&& final(self)@ == old(self)@
            },
    {
        if self.last_alert_id == i32::MAX {
            return Err(AppError::Database { message: String::from_str("no alert id is left") });
        }
        let id: i32 = self.last_alert_id + 1;
        let kept = Alert { id, rule_id, triggered_at, sent_to: String::from_str(sent_to), status };
        let given = Alert { id, rule_id, triggered_at, sent_to: String::from_str(sent_to), status };
        self.last_alert_id = id;
        self.alerts.push(kept);
        proof {
            assert(self@.alerts =~= old(self)@.alerts.push(given@));
        }
        Ok(given)
    }
}

} // verus!
