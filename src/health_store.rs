use vstd::prelude::*;
use crate::health::{default_status, HealthStatus, HealthStatusView};

verus! {

/// The record held after a whole-record replace of `current` by `new`.
pub open spec fn replaced(current: HealthStatusView, new: HealthStatusView) -> HealthStatusView {
    new
}

/// The record held after the replaces `writes`, applied in order.
pub open spec fn replaced_all(current: HealthStatusView, writes: Seq<HealthStatusView>) -> HealthStatusView
    decreases writes.len(),
{
    if writes.len() == 0 {
        current
    } else {
        replaced(replaced_all(current, writes.drop_last()), writes.last())
    }
}

/// Holds the one status record of the process. Every write replaces the whole
/// record; a read hands out a copy of what was last written.
pub struct HealthStore {
    inner: HealthStatus,
}

impl View for HealthStore {
    type V = HealthStatusView;

    closed spec fn view(&self) -> HealthStatusView {
        self.inner@
    }
}

impl HealthStore {
    /// A store holding the default record.
    pub fn new() -> (r: HealthStore)
        ensures
            r@ == default_status(),
    {
        HealthStore { inner: HealthStatus::unknown() }
    }

    /// A copy of the record as it stands.
    pub fn get(&self) -> (r: HealthStatus)
        ensures
            r@ == self@,
    {
        self.inner.copy()
    }

    /// Replaces the whole record with `status`.
    pub fn update(&mut self, status: HealthStatus)
        ensures
            final(self)@ == replaced(old(self)@, status@),
    {
        self.inner = status;
    }
}

/// Reading right after a replace, with no writer between, gives back
/// exactly the record that was stored.
pub proof fn lemma_replace_then_get(current: HealthStatusView, status: HealthStatusView)
    ensures
        replaced(current, status) == status,
{
}

/// However many replaces land, in whatever order they are serialised, the
/// record held is one of the written records as a whole (the last one),
/// never a field-wise mix of several.
pub proof fn lemma_replace_is_whole(current: HealthStatusView, writes: Seq<HealthStatusView>)
    requires
        writes.len() > 0,
    ensures
        replaced_all(current, writes) == writes.last(),
        exists|i: int| 0 <= i < writes.len() && replaced_all(current, writes) == #[trigger] writes[i],
{
    assert(replaced_all(current, writes) == writes[writes.len() - 1]);
}

} // verus!
