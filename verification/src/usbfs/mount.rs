//! Mounting usbfs and opening its files.

use vstd::prelude::*;

use std::collections::{BTreeMap, VecDeque};

use super::abi::UsbError;
use super::descriptors::UsbDeviceSnapshot;
use super::file::UsbDeviceFile;

verus! {

/// What a mount of usbfs does first.
#[derive(Debug, Clone, Copy, PartialEq, Eq, Structural)]
pub enum UsbfsMount {
    /// Make a file system over the manager that is there.
    Reuse,
    /// Find the hosts, make a manager for them, register it, and initialize
    /// the hosts.
    Initialize,
}

/// Decides what a mount does; the hosts are initialized by the first one.
pub fn new_usbfs(has_manager: bool) -> (mount: UsbfsMount)
    ensures
        mount == (if has_manager {
            UsbfsMount::Reuse
        } else {
            UsbfsMount::Initialize
        }),
{
    if has_manager {
        return UsbfsMount::Reuse;
    }
    UsbfsMount::Initialize
}

/// Whether the task that refreshes the devices is spawned and notified: only
/// if a host could be initialized.
pub fn should_spawn_refresh(initialized_hosts: usize) -> (spawn: bool)
    ensures
        spawn == (initialized_hosts > 0),
{
    initialized_hosts > 0
}

/// The device behind a node of the file system.
#[derive(Debug, Clone, Copy, PartialEq, Eq, Structural)]
pub struct UsbDeviceOps {
    pub bus_num: u8,
    pub device_num: u8,
}

/// Starts to open a file: the node has to be a device, and there has to be a
/// manager, which is then asked for a snapshot of the device.
pub fn open_usbfs_file(ops: Option<UsbDeviceOps>, has_manager: bool) -> (device: Result<
    UsbDeviceOps,
    UsbError,
>)
    ensures
        device == (match ops {
            None => Err::<UsbDeviceOps, UsbError>(UsbError::InvalidInput),
            Some(ops) => if has_manager {
                Ok(ops)
            } else {
                Err(UsbError::NoSuchDevice)
            },
        }),
{
    match ops {
        None => Err(UsbError::InvalidInput),
        Some(ops) => if has_manager {
            Ok(ops)
        } else {
            Err(UsbError::NoSuchDevice)
        },
    }
}

/// Opens a file of a device of which the manager has a snapshot. The device
/// is not acquired yet, nothing is claimed, and no URB waits.
pub fn finish_open(device: UsbDeviceOps, snapshot: Option<UsbDeviceSnapshot>) -> (file: Result<
    UsbDeviceFile,
    UsbError,
>)
    ensures
        match snapshot {
            None => file == Err::<UsbDeviceFile, UsbError>(UsbError::NoSuchDevice),
            Some(snapshot) => match file {
                Ok(file) => {
                    &&& file.bus_num == device.bus_num
                    &&& file.device_num == device.device_num
                    &&& file.snapshot == snapshot
                    &&& !file.has_lease
                    &&& file.claimed_interfaces@ == Map::<u8, u8>::empty()
                    &&& file.pending_urbs@.len() == 0
                },
                Err(_) => false,
            },
        },
{
    match snapshot {
        None => Err(UsbError::NoSuchDevice),
        Some(snapshot) => Ok(
            UsbDeviceFile {
                bus_num: device.bus_num,
                device_num: device.device_num,
                snapshot,
                has_lease: false,
                claimed_interfaces: BTreeMap::new(),
                pending_urbs: VecDeque::new(),
            },
        ),
    }
}

} // verus!
