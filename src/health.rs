use vstd::prelude::*;

verus! {

/// The shared status record: connectivity, latency in milliseconds, uptime,
/// a free-text label and the time of the last observed activity.
#[derive(Debug, PartialEq, Eq)]
pub struct HealthStatus {
    pub connected: bool,
    pub latency: u64,
    pub up_time: u64,
    pub container_status: String,
    pub last_message_time: u64,
}

/// The mathematical value of a status record.
pub struct HealthStatusView {
    pub connected: bool,
    pub latency: u64,
    pub up_time: u64,
    pub container_status: Seq<char>,
    pub last_message_time: u64,
}

impl View for HealthStatus {
    type V = HealthStatusView;

    open spec fn view(&self) -> HealthStatusView {
        HealthStatusView {
            connected: self.connected,
            latency: self.latency,
            up_time: self.up_time,
            container_status: self.container_status@,
            last_message_time: self.last_message_time,
        }
    }
}

/// The record every store starts from: disconnected, zero figures, label "UNKNOWN".
pub open spec fn default_status() -> HealthStatusView {
    HealthStatusView {
        connected: false,
        latency: 0,
        up_time: 0,
        container_status: seq!['U', 'N', 'K', 'N', 'O', 'W', 'N'],
        last_message_time: 0,
    }
}

impl HealthStatus {
    /// The "unknown/disconnected" record.
    pub fn unknown() -> (r: HealthStatus)
        ensures
            r@ == default_status(),
    {
        let label = "UNKNOWN".to_owned();
        proof {
            reveal_strlit("UNKNOWN");
            assert(label@ =~= default_status().container_status);
        }
        HealthStatus {
            connected: false,
            latency: 0,
            up_time: 0,
            container_status: label,
            last_message_time: 0,
        }
    }

    /// A field-for-field copy of the record.
    pub fn copy(&self) -> (r: HealthStatus)
        ensures
            r@ == self@,
    {
        HealthStatus {
            connected: self.connected,
            latency: self.latency,
            up_time: self.up_time,
            container_status: self.container_status.clone(),
            last_message_time: self.last_message_time,
        }
    }
}

impl Clone for HealthStatus {
    fn clone(&self) -> (r: HealthStatus)
        ensures
            r@ == self@,
    {
        self.copy()
    }
}

} // verus!
