//! The outbound side of an alert: what is said, and who carries it.

use vstd::prelude::*;
use vstd::string::StringExecFns;
use crate::double::Double;
use crate::error::AppError;
use crate::models::entities::AlertConditionType;

verus! {

/// Why a notification could not be delivered.
#[derive(Clone, Debug, PartialEq, Eq)]
pub struct DispatchError {
    pub reason: String,
}

/// What one alert tells its recipient: the reservoir, the value that was
/// measured, and the rule's condition and threshold.
#[derive(Clone, Debug, PartialEq, Eq)]
pub struct AlertNotice {
    pub reservoir_name: String,
    pub value: Double,
    pub condition: AlertConditionType,
    pub threshold: Double,
}

/// A channel that carries alerts to their recipients.
///
/// An implementation decides how the two numbers of a notice are written
/// out; `AlertNotice::body` gives the sentence around them. Whatever `send`
/// returns is recorded in the alert history, and nothing is assumed of it.
pub trait Dispatcher {
    fn send(&mut self, to: &str, subject: &str, notice: &AlertNotice) -> Result<
        (),
        DispatchError,
    >;
}

/// The subject line of every alert.
pub open spec fn subject_spec() -> Seq<char> {
    "SmartTank Alert Triggered"@
}

/// The subject line of every alert.
pub fn alert_subject() -> (subject: &'static str)
    ensures
        subject@ == subject_spec(),
{
    "SmartTank Alert Triggered"
}

impl AlertNotice {
    /// The sentence of an alert, around the given renderings of the measured
    /// value and of the threshold.
    pub open spec fn body_spec(self, value_text: Seq<char>, threshold_text: Seq<char>) -> Seq<
        char,
    > {
        "Alert for "@ + self.reservoir_name@ + ": Value "@ + value_text + " is "@
            + self.condition.name_spec() + " threshold "@ + threshold_text
    }

    /// The sentence of an alert. `value_text` and `threshold_text` are the
    /// two numbers as the channel writes them, by custom with two decimals.
    pub fn body(&self, value_text: &str, threshold_text: &str) -> (text: String)
        ensures
            text@ == self.body_spec(value_text@, threshold_text@),
    {
        let mut text: String = String::from_str("Alert for ");
        text.append(self.reservoir_name.as_str());
        text.append(": Value ");
        text.append(value_text);
        text.append(" is ");
        text.append(self.condition.name());
        text.append(" threshold ");
        text.append(threshold_text);
        text
    }
}

/// The stand-in mail service: it accepts every message and delivers none.
#[derive(Clone, Copy, Debug, PartialEq, Eq, Structural)]
pub struct NotificationService;

impl NotificationService {
    /// Accepts a message for `to_email`. Always succeeds.
    pub fn send_email(to_email: &str, subject: &str, body: &str) -> (r: Result<(), AppError>)
        ensures
            r is Ok,
    {
        Ok(())
    }
}

impl Dispatcher for NotificationService {
    fn send(&mut self, to: &str, subject: &str, notice: &AlertNotice) -> (r: Result<
        (),
        DispatchError,
    >)
        ensures
            r is Ok,
    {
        Ok(())
    }
}

} // verus!
