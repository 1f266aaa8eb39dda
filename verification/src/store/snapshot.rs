//! Export snapshots: everything the store holds, at one instant.

use vstd::prelude::*;

use crate::model::activity::ActivityEvent;
use crate::model::time::Timestamp;
use crate::model::vobe::Vobe;

verus! {

/// A JSON export of the store.
#[derive(Clone, Debug, PartialEq, Eq)]
pub struct ExportSnapshot {
    /// Export format version.
    pub version: u32,
    /// When the snapshot was made.
    pub exported_at: Timestamp,
    /// Every vobe.
    pub vobes: Vec<Vobe>,
    /// Every recorded activity event.
    pub activity: Vec<ActivityEvent>,
}

impl ExportSnapshot {
    /// The current export format version.
    pub const CURRENT_VERSION: u32 = 1;

    /// A snapshot of the given state, made at `at`, in the current format.
    pub fn at(vobes: Vec<Vobe>, activity: Vec<ActivityEvent>, at: Timestamp) -> (s: ExportSnapshot)
        ensures
            s.version == 1,
            s.exported_at == at,
            s.vobes == vobes,
            s.activity == activity,
    {
        ExportSnapshot { version: Self::CURRENT_VERSION, exported_at: at, vobes, activity }
    }

    /// A snapshot of the given state, made now, in the current format.
    pub fn new(vobes: Vec<Vobe>, activity: Vec<ActivityEvent>) -> (s: ExportSnapshot)
        ensures
            s.version == 1,
            s.vobes == vobes,
            s.activity == activity,
    {
        Self::at(vobes, activity, Timestamp::now())
    }
}

} // verus!
