//! The aggregate mutable state of the simulated device.

use vstd::prelude::*;

use crate::device_fsm::DeviceFSMState;
use crate::failure_simulator::FailureConfig;
use crate::multi_spindle::MultiSpindleConfig;
use crate::tightening_tracker::TighteningTracker;

verus! {

/// The internal state of the simulated device: identity, selected
/// parameter set, tightening bookkeeping, cycle snapshot, tool and vehicle
/// state, multi-spindle and failure-injection configuration.
#[derive(Debug, Clone)]
pub struct DeviceState {
    /// Cell id of the controller.
    pub cell_id: u32,
    /// Channel id of the controller.
    pub channel_id: u32,
    /// Controller name.
    pub controller_name: String,
    /// Supplier code.
    pub supplier_code: String,
    /// Currently selected parameter set id.
    pub current_pset_id: Option<u32>,
    /// Currently selected parameter set name.
    pub current_pset_name: Option<String>,
    /// Tightening bookkeeping: single or batch mode.
    pub tightening_tracker: TighteningTracker,
    /// Snapshot of the cycle state machine.
    pub device_fsm_state: DeviceFSMState,
    /// Whether the tool is enabled.
    pub tool_enabled: bool,
    /// Vehicle id, when one was downloaded.
    pub vehicle_id: Option<String>,
    /// Current job id.
    pub current_job_id: Option<u32>,
    /// Multi-spindle configuration.
    pub multi_spindle_config: MultiSpindleConfig,
    /// Failure-injection configuration.
    pub failure_config: FailureConfig,
}

impl DeviceState {
    /// Create a device state with default values: identity one, the
    /// default parameter set selected, single mode, idle, tool enabled,
    /// no vehicle, multi-spindle and failure injection disabled.
    pub fn new() -> (r: Self)
        ensures
            r.cell_id == 1,
            r.channel_id == 1,
            r.controller_name@ == "OpenProtocolSimulator"@,
            r.supplier_code@ == "SIM"@,
            r.current_pset_id == Some(1u32),
            r.current_pset_name matches Some(name) && name@ == "Default"@,
            !r.tightening_tracker.spec_is_batch(),
            r.tightening_tracker.spec_sequence() == 0,
            r.device_fsm_state == DeviceFSMState::Idle,
            r.tool_enabled,
            r.vehicle_id is None,
            r.current_job_id == Some(1u32),
            r.multi_spindle_config == MultiSpindleConfig::spec_default(),
            !r.failure_config.enabled,
    {
        Self {
            cell_id: 1,
            channel_id: 1,
            controller_name: "OpenProtocolSimulator".to_owned(),
            supplier_code: "SIM".to_owned(),
            current_pset_id: Some(1),
            current_pset_name: Some("Default".to_owned()),
            tightening_tracker: TighteningTracker::new(),
            device_fsm_state: DeviceFSMState::idle(),
            tool_enabled: true,
            vehicle_id: None,
            current_job_id: Some(1),
            multi_spindle_config: MultiSpindleConfig::disable(),
            failure_config: FailureConfig::default(),
        }
    }

    /// Select a parameter set.
    pub fn set_pset(&mut self, pset_id: u32, pset_name: Option<String>)
        ensures
            *final(self) == (DeviceState {
                current_pset_id: Some(pset_id),
                current_pset_name: pset_name,
                ..*old(self)
            }),
    {
        self.current_pset_id = Some(pset_id);
        self.current_pset_name = pset_name;
    }

    /// Set the batch size, switching the tracker into batch mode with a
    /// fresh batch of that size.
    pub fn set_batch_size(&mut self, size: u32)
        ensures
            final(self).tightening_tracker.spec_is_batch(),
            final(self).tightening_tracker.spec_batch_size() == size,
            final(self).tightening_tracker.spec_counter() == 0,
            !final(self).tightening_tracker.spec_is_complete(),
            final(self).tightening_tracker.spec_sequence() == old(
                self,
            ).tightening_tracker.spec_sequence(),
            *final(self) == (DeviceState {
                tightening_tracker: final(self).tightening_tracker,
                ..*old(self)
            }),
    {
        self.tightening_tracker.enable_batch(size);
    }

    /// Enable the tool.
    pub fn enable_tool(&mut self)
        ensures
            *final(self) == (DeviceState { tool_enabled: true, ..*old(self) }),
    {
        self.tool_enabled = true;
    }

    /// Disable the tool.
    pub fn disable_tool(&mut self)
        ensures
            *final(self) == (DeviceState { tool_enabled: false, ..*old(self) }),
    {
        self.tool_enabled = false;
    }

    /// Set the vehicle id.
    pub fn set_vehicle_id(&mut self, vin: String)
        ensures
            *final(self) == (DeviceState { vehicle_id: Some(vin), ..*old(self) }),
    {
        self.vehicle_id = Some(vin);
    }

    /// Clear the vehicle id.
    pub fn clear_vehicle_id(&mut self)
        ensures
            *final(self) == (DeviceState { vehicle_id: None, ..*old(self) }),
    {
        self.vehicle_id = None;
    }

    /// Enable multi-spindle mode.  Succeeds exactly for a spindle count
    /// between two and sixteen; on failure the state is unchanged.
    pub fn enable_multi_spindle(&mut self, spindle_count: u8, sync_id: u32) -> (r: Result<
        (),
        String,
    >)
        ensures
            r is Ok <==> crate::multi_spindle::MIN_SPINDLE_COUNT <= spindle_count
                <= crate::multi_spindle::MAX_SPINDLE_COUNT,
            r is Ok ==> *final(self) == (DeviceState {
                multi_spindle_config: MultiSpindleConfig {
                    enabled: true,
                    spindle_count,
                    sync_id,
                },
                ..*old(self)
            }),
            r is Err ==> *final(self) == *old(self),
    {
        let config = MultiSpindleConfig::new(spindle_count, sync_id);
        if !config.is_valid() {
            return Err(
                "invalid multi-spindle configuration: spindle count must be between 2 and 16".to_owned(),
            );
        }
        self.multi_spindle_config = config;
        Ok(())
    }

    /// Disable multi-spindle mode.
    pub fn disable_multi_spindle(&mut self)
        ensures
            *final(self) == (DeviceState {
                multi_spindle_config: MultiSpindleConfig::spec_default(),
                ..*old(self)
            }),
    {
        self.multi_spindle_config = MultiSpindleConfig::disable();
    }

    /// Check if multi-spindle mode is enabled.
    pub fn is_multi_spindle_enabled(&self) -> (r: bool)
        ensures
            r == self.multi_spindle_config.enabled,
    {
        self.multi_spindle_config.enabled
    }

    /// The multi-spindle configuration.
    pub fn get_multi_spindle_config(&self) -> (r: &MultiSpindleConfig)
        ensures
            *r == self.multi_spindle_config,
    {
        &self.multi_spindle_config
    }

    /// Reset the batch counter, keeping the batch size.  Returns whether
    /// the tracker was in batch mode.
    pub fn reset_batch(&mut self) -> (r: bool)
        ensures
            r == old(self).tightening_tracker.spec_is_batch(),
            final(self).tightening_tracker.spec_is_batch() == old(
                self,
            ).tightening_tracker.spec_is_batch(),
            final(self).tightening_tracker.spec_counter() == 0 || !old(
                self,
            ).tightening_tracker.spec_is_batch(),
            !final(self).tightening_tracker.spec_is_complete() || !old(
                self,
            ).tightening_tracker.spec_is_batch(),
            final(self).tightening_tracker.spec_batch_size() == old(
                self,
            ).tightening_tracker.spec_batch_size(),
            final(self).tightening_tracker.spec_sequence() == old(
                self,
            ).tightening_tracker.spec_sequence(),
            !old(self).tightening_tracker.spec_is_batch() ==> *final(self) == *old(self),
            *final(self) == (DeviceState {
                tightening_tracker: final(self).tightening_tracker,
                ..*old(self)
            }),
    {
        self.tightening_tracker.reset_batch()
    }

    /// Increment the batch counter to skip a position.  Returns the new
    /// counter, or zero in single mode.
    pub fn increment_batch(&mut self) -> (r: u32)
        ensures
            final(self).tightening_tracker.spec_is_batch() == old(
                self,
            ).tightening_tracker.spec_is_batch(),
            final(self).tightening_tracker.spec_sequence() == old(
                self,
            ).tightening_tracker.spec_sequence(),
            !old(self).tightening_tracker.spec_is_batch() ==> *final(self) == *old(self) && r == 0,
            r == final(self).tightening_tracker.spec_counter() || !old(
                self,
            ).tightening_tracker.spec_is_batch(),
            old(self).tightening_tracker.spec_is_batch() ==> {
                &&& final(self).tightening_tracker.spec_counter() == (
                if old(self).tightening_tracker.spec_counter() < old(
                    self,
                ).tightening_tracker.spec_batch_size() {
                    old(self).tightening_tracker.spec_counter() + 1
                } else {
                    old(self).tightening_tracker.spec_counter() as int
                })
                &&& final(self).tightening_tracker.spec_batch_size() == old(
                    self,
                ).tightening_tracker.spec_batch_size()
            },
            *final(self) == (DeviceState {
                tightening_tracker: final(self).tightening_tracker,
                ..*old(self)
            }),
    {
        self.tightening_tracker.increment_batch()
    }
}

impl Default for DeviceState {
    /// The same state as `new`.
    fn default() -> (r: Self)
        ensures
            r.cell_id == 1,
            r.channel_id == 1,
            !r.tightening_tracker.spec_is_batch(),
            r.tool_enabled,
    {
        Self::new()
    }
}

} // verus!
