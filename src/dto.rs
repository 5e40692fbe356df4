//! Values handed between the command line and the use cases.

use vstd::prelude::*;

use crate::command::Command;
use crate::device::Device;

verus! {

/// A command to send to the device with the given identifier.
#[derive(Debug, Clone)]
pub struct ExecuteCommandDto {
    pub device_id: String,
    pub command: Command,
}

impl ExecuteCommandDto {
    pub fn new(device_id: String, command: Command) -> (r: Self)
        ensures
            r.device_id@ == device_id@,
            r.command@ == command@,
    {
        ExecuteCommandDto { device_id, command }
    }
}

/// What is shown of a listed device.
#[derive(Debug, Clone)]
pub struct DeviceResponseDto {
    pub device_id: String,
    pub device_name: String,
    pub device_type: String,
}

impl DeviceResponseDto {
    pub fn from_device(device: Device) -> (r: Self)
        ensures
            r.device_id@ == device.id@,
            r.device_name@ == device.name@,
            r.device_type@ == device.device_type@,
    {
        DeviceResponseDto {
            device_id: device.id.value(),
            device_name: device.name,
            device_type: device.device_type,
        }
    }
}

} // verus!
