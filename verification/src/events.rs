//! Typed events emitted when the device state changes, fanned out to
//! subscribed connections and to operator surfaces.

use vstd::prelude::*;

use crate::handler::data::TighteningResult;
use crate::multi_spindle::{MultiSpindleResult, MultiSpindleStatus};

verus! {

/// Events broadcast to all connected clients.
#[derive(Debug, Clone)]
pub enum SimulatorEvent {
    /// A tightening operation was completed.
    TighteningCompleted {
        /// The full record of the tightening.
        result: TighteningResult,
    },
    /// A parameter set was selected.
    PsetChanged {
        /// Selected parameter set id.
        pset_id: u32,
        /// Selected parameter set name.
        pset_name: String,
    },
    /// The tool was enabled or disabled.
    ToolStateChanged {
        /// The new tool state.
        enabled: bool,
    },
    /// A batch was completed.
    BatchCompleted {
        /// Number of tightenings counted.
        total: u32,
    },
    /// The vehicle id changed.
    VehicleIdChanged {
        /// The new vehicle id.
        vin: String,
    },
    /// A multi-spindle status update completed.
    MultiSpindleStatusCompleted {
        /// The new status.
        status: MultiSpindleStatus,
    },
    /// A multi-spindle tightening result completed.
    MultiSpindleResultCompleted {
        /// The aggregated result.
        result: MultiSpindleResult,
    },
    /// Auto-tightening progress update.
    AutoTighteningProgress {
        /// Current batch counter.
        counter: u32,
        /// Batch target size.
        target_size: u32,
        /// Whether the scheduler is still running.
        running: bool,
    },
}

} // verus!
