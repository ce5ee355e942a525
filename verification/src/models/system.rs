//! The counts of the dashboard.

use vstd::prelude::*;
use crate::views::admin::SystemStatsResponse;

verus! {

/// The operations on the system as a whole.
pub struct System;

impl System {
    /// The dashboard from its four counts.
    pub fn get_stats(
        total_users: u64,
        total_reservoirs: u64,
        total_devices: u64,
        alert_rules_active: u64,
    ) -> (stats: SystemStatsResponse)
        ensures
            stats == (SystemStatsResponse {
                total_users,
                total_reservoirs,
                total_devices,
                alert_rules_active,
            }),
    {
        SystemStatsResponse { total_users, total_reservoirs, total_devices, alert_rules_active }
    }
}

} // verus!
