//! An open usbfs file and the steps in which its requests are served.

use vstd::prelude::*;

use std::collections::{BTreeMap, VecDeque};

use super::abi::{
    UsbError, UsbdevfsBulkTransfer, UsbdevfsSetInterface, UsbdevfsUrb, SETUP_PACKET_LEN,
    USBDEVFS_BULK, USBDEVFS_CLAIMINTERFACE, USBDEVFS_CONTROL, USBDEVFS_REAPURB,
    USBDEVFS_REAPURBNDELAY, USBDEVFS_RELEASEINTERFACE, USBDEVFS_SETINTERFACE, USBDEVFS_SUBMITURB,
    USBDEVFS_URB_ISO_ASAP, USBDEVFS_URB_SHORT_NOT_OK, USBDEVFS_URB_SIZE, USBDEVFS_URB_TYPE_BULK,
    USBDEVFS_URB_TYPE_CONTROL, USBDEVFS_URB_TYPE_INTERRUPT, USBDEVFS_URB_TYPE_ISO,
};
use super::descriptors::{
    endpoint_in, has_interface, snapshot_claimed_endpoint, snapshot_has_interface,
    ClaimedEndpoint, EndpointTransferType, UsbDeviceSnapshot,
};
use super::iso::{
    packet_share, read_iso_packet_lengths, sizes, total, total_length,
    usbdevfs_iso_packet_descs_address, write_iso_packet_results,
};
use crate::bytes::{le16, le_u16, lemma_le16_at};

verus! {

/// An URB that was submitted and not yet reaped, by its address.
#[derive(Debug, Clone, Copy, PartialEq, Eq, Structural)]
pub struct PendingUrb {
    pub user_urb_ptr: usize,
}

/// An open usbfs file.
pub struct UsbDeviceFile {
    pub bus_num: u8,
    pub device_num: u8,
    pub snapshot: UsbDeviceSnapshot,
    /// Whether the device has been acquired.
    pub has_lease: bool,
    /// The claimed interfaces, each with its alternate setting.
    pub claimed_interfaces: BTreeMap<u8, u8>,
    /// The URBs that wait to be reaped, oldest first.
    pub pending_urbs: VecDeque<PendingUrb>,
}

/// Why an interface number is read.
#[derive(Debug, Clone, Copy, PartialEq, Eq, Structural)]
pub enum InterfaceUse {
    Claim,
    Release,
}

/// Why an URB is read: to learn its type, or to submit it as this type.
#[derive(Debug, Clone, Copy, PartialEq, Eq, Structural)]
pub enum UrbUse {
    Dispatch,
    Control,
    Bulk,
    Interrupt,
    Iso,
}

/// A control transfer of an URB: the setup packet and where the data is.
#[derive(Debug, Clone, Copy, PartialEq, Eq, Structural)]
pub struct ControlTransfer {
    pub urb_ptr: usize,
    pub request_type: u8,
    pub request: u8,
    pub value: u16,
    pub index: u16,
    /// The address of the setup packet; the data follows it.
    pub buffer: usize,
    /// The length of the data.
    pub length: u16,
}

/// What a transfer belongs to.
#[allow(inconsistent_fields)]
pub enum TransferEnd {
    /// A request that returns the number of bytes.
    Request,
    /// An URB that is completed.
    Urb { urb_ptr: usize },
    /// An isochronous URB, with the lengths of its packets.
    IsoUrb { urb_ptr: usize, packet_lengths: Vec<usize> },
}

/// A transfer on an endpoint of a claimed interface.
pub struct EndpointTransfer {
    pub endpoint: u8,
    pub transfer_type: EndpointTransferType,
    pub interface: u8,
    pub alternate: u8,
    /// The address of the data.
    pub data: usize,
    pub len: usize,
    pub end: TransferEnd,
}

/// What is done with an acquired device.
#[allow(inconsistent_fields)]
pub enum LeaseUse {
    Claim { interface: u8, alternate: u8 },
    Ioctl { cmd: u32, arg: usize },
    Control { transfer: ControlTransfer },
    Transfer { transfer: EndpointTransfer },
}

/// The next step of a request.
#[allow(inconsistent_fields)]
pub enum UsbStep {
    /// The request is served; this is what it returns.
    Done(Result<usize, UsbError>),
    /// Hand the request to the device that has not been acquired; its result
    /// is the result of the request.
    SnapshotIoctl { cmd: u32, arg: usize },
    /// Hand the request to the acquired device; its result is the result of
    /// the request.
    LeaseIoctl { cmd: u32, arg: usize },
    /// Read an interface number at `arg`.
    ReadInterface { arg: usize, purpose: InterfaceUse },
    /// Read an interface and its alternate setting at `arg`.
    ReadSetInterface { arg: usize },
    /// Read a bulk transfer at `arg`.
    ReadBulk { arg: usize },
    /// Read the URB at `arg`.
    ReadUrb { arg: usize, purpose: UrbUse },
    /// Read the buffer of a control URB.
    ReadSetup { urb_ptr: usize, buffer: usize, len: usize },
    /// Read the lengths in `count` packet descriptors at `address`.
    ReadPackets {
        urb_ptr: usize,
        endpoint: u8,
        buffer: usize,
        buffer_length: usize,
        address: usize,
        count: usize,
    },
    /// Acquire the device.
    Acquire { then: LeaseUse },
    /// Claim an interface on the acquired device for the user.
    ClaimInterface { interface: u8, alternate: u8 },
    /// Claim the interface of a transfer on the acquired device.
    ClaimForTransfer { transfer: EndpointTransfer },
    /// Perform a control transfer on the acquired device.
    ControlTransfer { transfer: ControlTransfer },
    /// Perform an IN transfer into a buffer.
    TransferIn { transfer: EndpointTransfer, buffer: Vec<u8> },
    /// Copy the bytes of an IN transfer to user memory.
    WriteData { transfer: EndpointTransfer, bytes: Vec<u8> },
    /// Copy the data of an OUT transfer from user memory.
    ReadData { transfer: EndpointTransfer },
    /// Perform an OUT transfer of the copied data.
    TransferOut { transfer: EndpointTransfer, data: Vec<u8> },
    /// Write the actual lengths, and status 0, to the packet descriptors.
    WritePackets { urb_ptr: usize, address: usize, actual_lengths: Vec<u32>, actual: usize },
    /// Write status 0 and the actual length to the URB, and for an
    /// isochronous URB an error count of 0.
    WriteUrb { urb_ptr: usize, actual_length: i32, clear_error_count: bool },
    /// Write the address of a reaped URB at `arg`.
    WriteReaped { arg: usize, urb_ptr: usize },
}

/// Whether an endpoint address names an IN endpoint.
pub open spec fn is_in_endpoint(endpoint: u8) -> bool {
    endpoint & 0x80 != 0
}

/// The top bit of a byte is set exactly in the upper half of its values.
pub proof fn lemma_top_bit(byte: u8)
    ensures
        byte & 0x80 != 0 <==> byte >= 0x80,
{
    assert(byte & 0x80 != 0 <==> byte >= 0x80) by (bit_vector);
}

/// What an acquired device is asked first.
pub open spec fn lease_step(used: LeaseUse) -> UsbStep {
    match used {
        LeaseUse::Claim { interface, alternate } => UsbStep::ClaimInterface { interface, alternate },
        LeaseUse::Ioctl { cmd, arg } => UsbStep::LeaseIoctl { cmd, arg },
        LeaseUse::Control { transfer } => UsbStep::ControlTransfer { transfer },
        LeaseUse::Transfer { transfer } => UsbStep::ClaimForTransfer { transfer },
    }
}

impl UsbDeviceFile {
    /// The endpoint as the claimed interfaces offer it.
    pub open spec fn endpoint(&self, endpoint: u8) -> Option<ClaimedEndpoint> {
        endpoint_in(self.snapshot.descriptor_blob@, endpoint, self.claimed_interfaces@)
    }

    /// The step that uses the device, which is acquired first if need be.
    pub open spec fn live_step(&self, used: LeaseUse) -> UsbStep {
        if self.has_lease {
            lease_step(used)
        } else {
            UsbStep::Acquire { then: used }
        }
    }

    /// The first step of claiming an interface for the user.
    pub open spec fn claim_step(&self, interface: u8, alternate: u8) -> UsbStep {
        if has_interface(self.snapshot.descriptor_blob@, interface, alternate) {
            self.live_step(LeaseUse::Claim { interface, alternate })
        } else {
            UsbStep::Done(Err(UsbError::NotFound))
        }
    }

    /// The first step of a transfer on an endpoint.
    pub open spec fn transfer_step(
        &self,
        endpoint: u8,
        transfer_type: EndpointTransferType,
        data: usize,
        len: usize,
        end: TransferEnd,
    ) -> UsbStep {
        match self.endpoint(endpoint) {
            None => UsbStep::Done(Err(UsbError::OperationNotPermitted)),
            Some(claimed) => if claimed.transfer_type != transfer_type {
                UsbStep::Done(Err(UsbError::InvalidInput))
            } else {
                self.live_step(
                    LeaseUse::Transfer {
                        transfer: EndpointTransfer {
                            endpoint,
                            transfer_type,
                            interface: claimed.interface,
                            alternate: claimed.alternate,
                            data,
                            len,
                            end,
                        },
                    },
                )
            },
        }
    }

    /// Uses the device; it is acquired on first use and stays acquired.
    pub fn with_live_lease(&self, used: LeaseUse) -> (step: UsbStep)
        ensures
            step == self.live_step(used),
    {
        if !self.has_lease {
            return UsbStep::Acquire { then: used };
        }
        match used {
            LeaseUse::Claim { interface, alternate } => UsbStep::ClaimInterface {
                interface,
                alternate,
            },
            LeaseUse::Ioctl { cmd, arg } => UsbStep::LeaseIoctl { cmd, arg },
            LeaseUse::Control { transfer } => UsbStep::ControlTransfer { transfer },
            LeaseUse::Transfer { transfer } => UsbStep::ClaimForTransfer { transfer },
        }
    }

    /// The device was acquired, or could not be.
    pub fn after_acquire(&mut self, then: LeaseUse, acquired: Result<(), UsbError>) -> (step:
        UsbStep)
        ensures
            match acquired {
                Ok(_) => step == lease_step(then) && final(self).has_lease,
                Err(error) => step == UsbStep::Done(Err(error)) && final(self).has_lease
                    == old(self).has_lease,
            },
            final(self).bus_num == old(self).bus_num,
            final(self).device_num == old(self).device_num,
            final(self).snapshot == old(self).snapshot,
            final(self).claimed_interfaces == old(self).claimed_interfaces,
            final(self).pending_urbs == old(self).pending_urbs,
    {
        match acquired {
            Ok(_) => {
                self.has_lease = true;
                self.with_live_lease(then)
            },
            Err(error) => UsbStep::Done(Err(error)),
        }
    }

    /// Claims an alternate setting of an interface that the device has.
    pub fn claim_interface(&self, interface: u8, alternate: u8) -> (step: UsbStep)
        ensures
            step == self.claim_step(interface, alternate),
    {
        if !snapshot_has_interface(&self.snapshot, interface, alternate) {
            return UsbStep::Done(Err(UsbError::NotFound));
        }
        self.with_live_lease(LeaseUse::Claim { interface, alternate })
    }

    /// The device granted a claim, or refused it. Only a granted claim is
    /// recorded; it replaces an earlier setting of the interface.
    pub fn after_claim_interface(
        &mut self,
        interface: u8,
        alternate: u8,
        claimed: Result<(), UsbError>,
    ) -> (step: UsbStep)
        ensures
            match claimed {
                Ok(_) => step == UsbStep::Done(Ok(0)) && final(self).claimed_interfaces@ == old(
                    self,
                ).claimed_interfaces@.insert(interface, alternate),
                Err(error) => step == UsbStep::Done(Err(error))
                    && final(self).claimed_interfaces == old(self).claimed_interfaces,
            },
            final(self).bus_num == old(self).bus_num,
            final(self).device_num == old(self).device_num,
            final(self).snapshot == old(self).snapshot,
            final(self).has_lease == old(self).has_lease,
            final(self).pending_urbs == old(self).pending_urbs,
    {
        match claimed {
            Ok(_) => {
                self.claimed_interfaces.insert(interface, alternate);
                UsbStep::Done(Ok(0))
            },
            Err(error) => UsbStep::Done(Err(error)),
        }
    }

    /// Gives an interface back, whether or not it was claimed.
    pub fn release_interface(&mut self, interface: u8) -> (step: UsbStep)
        ensures
            step == UsbStep::Done(Ok(0)),
            final(self).claimed_interfaces@ == old(self).claimed_interfaces@.remove(interface),
            final(self).bus_num == old(self).bus_num,
            final(self).device_num == old(self).device_num,
            final(self).snapshot == old(self).snapshot,
            final(self).has_lease == old(self).has_lease,
            final(self).pending_urbs == old(self).pending_urbs,
    {
        self.claimed_interfaces.remove(&interface);
        UsbStep::Done(Ok(0))
    }

    /// The endpoint as the claimed interfaces offer it.
    pub fn claimed_endpoint(&self, endpoint: u8) -> (found: Result<ClaimedEndpoint, UsbError>)
        ensures
            found == (match self.endpoint(endpoint) {
                Some(claimed) => Ok::<ClaimedEndpoint, UsbError>(claimed),
                None => Err(UsbError::OperationNotPermitted),
            }),
    {
        match snapshot_claimed_endpoint(&self.snapshot, endpoint, &self.claimed_interfaces) {
            Some(claimed) => Ok(claimed),
            None => Err(UsbError::OperationNotPermitted),
        }
    }

    /// Starts a transfer on an endpoint of a claimed interface.
    pub fn run_endpoint_transfer(
        &self,
        endpoint: u8,
        transfer_type: EndpointTransferType,
        data: usize,
        len: usize,
        end: TransferEnd,
    ) -> (step: UsbStep)
        ensures
            step == self.transfer_step(endpoint, transfer_type, data, len, end),
    {
        let claimed_endpoint = match self.claimed_endpoint(endpoint) {
            Ok(claimed) => claimed,
            Err(error) => {
                return UsbStep::Done(Err(error));
            },
        };
        if claimed_endpoint.transfer_type != transfer_type {
            return UsbStep::Done(Err(UsbError::InvalidInput));
        }
        self.with_live_lease(
            LeaseUse::Transfer {
                transfer: EndpointTransfer {
                    endpoint,
                    transfer_type,
                    interface: claimed_endpoint.interface,
                    alternate: claimed_endpoint.alternate,
                    data,
                    len,
                    end,
                },
            },
        )
    }

    /// The interface of a transfer was claimed on the device, or could not be.
    /// An IN transfer gets a buffer of zeros that is as long as the transfer.
    pub fn after_claim_for_transfer(
        &self,
        transfer: EndpointTransfer,
        claimed: Result<(), UsbError>,
    ) -> (step: UsbStep)
        ensures
            match claimed {
                Ok(_) => if is_in_endpoint(transfer.endpoint) {
                    &&& step is TransferIn
                    &&& step->TransferIn_transfer == transfer
                    &&& step->TransferIn_buffer@ == Seq::new(transfer.len as nat, |i: int| 0u8)
                } else {
                    step == (UsbStep::ReadData { transfer })
                },
                Err(error) => step == UsbStep::Done(Err(error)),
            },
            claimed is Ok ==> (step is TransferIn <==> transfer.endpoint >= 0x80),
            claimed is Ok ==> (step is ReadData <==> transfer.endpoint < 0x80),
    {
        proof {
            lemma_top_bit(transfer.endpoint);
        }
        match claimed {
            Ok(_) => if transfer.endpoint & 0x80 != 0 {
                let buffer: Vec<u8> = vec![0u8; transfer.len];
                assert(buffer@ =~= Seq::new(transfer.len as nat, |i: int| 0u8));
                UsbStep::TransferIn { transfer, buffer }
            } else {
                UsbStep::ReadData { transfer }
            },
            Err(error) => UsbStep::Done(Err(error)),
        }
    }

    /// An IN transfer into a buffer ended. More bytes than were asked for are
    /// an error; those that came are the first in the buffer.
    pub fn after_transfer_in(
        &self,
        transfer: EndpointTransfer,
        buffer: Vec<u8>,
        actual: Result<usize, UsbError>,
    ) -> (step: UsbStep)
        requires
            buffer@.len() == transfer.len,
        ensures
            match actual {
                Err(error) => step == UsbStep::Done(Err(error)),
                Ok(actual) => if actual > transfer.len {
                    step == UsbStep::Done(Err(UsbError::InvalidData))
                } else if actual > 0 {
                    &&& step is WriteData
                    &&& step->WriteData_transfer == transfer
                    &&& step->bytes@ == buffer@.take(actual as int)
                } else {
                    is_transfer_end(transfer.end, actual, step)
                },
            },
    {
        match actual {
            Err(error) => UsbStep::Done(Err(error)),
            Ok(actual) => {
                if actual > transfer.len {
                    return UsbStep::Done(Err(UsbError::InvalidData));
                }
                if actual > 0 {
                    let mut bytes = buffer;
                    bytes.truncate(actual);
                    return UsbStep::WriteData { transfer, bytes };
                }
                finish_transfer(transfer.end, actual)
            },
        }
    }

    /// The bytes of an IN transfer were copied to user memory, or could not
    /// be.
    pub fn after_write_data(
        &self,
        transfer: EndpointTransfer,
        actual: usize,
        written: Result<(), UsbError>,
    ) -> (step: UsbStep)
        ensures
            match written {
                Ok(_) => is_transfer_end(transfer.end, actual, step),
                Err(error) => step == UsbStep::Done(Err(error)),
            },
    {
        match written {
            Ok(_) => finish_transfer(transfer.end, actual),
            Err(error) => UsbStep::Done(Err(error)),
        }
    }

    /// The bytes of an OUT transfer were copied from user memory, or could
    /// not be.
    pub fn after_read_data(
        &self,
        transfer: EndpointTransfer,
        read: Result<Vec<u8>, UsbError>,
    ) -> (step: UsbStep)
        ensures
            step == (match read {
                Ok(data) => UsbStep::TransferOut { transfer, data },
                Err(error) => UsbStep::Done(Err(error)),
            }),
    {
        match read {
            Ok(data) => UsbStep::TransferOut { transfer, data },
            Err(error) => UsbStep::Done(Err(error)),
        }
    }

    /// An OUT transfer ended.
    pub fn after_transfer_out(
        &self,
        transfer: EndpointTransfer,
        actual: Result<usize, UsbError>,
    ) -> (step: UsbStep)
        ensures
            match actual {
                Ok(actual) => is_transfer_end(transfer.end, actual, step),
                Err(error) => step == UsbStep::Done(Err(error)),
            },
    {
        match actual {
            Ok(actual) => finish_transfer(transfer.end, actual),
            Err(error) => UsbStep::Done(Err(error)),
        }
    }
}

/// Whether `step` is what follows a transfer of `actual` bytes.
pub open spec fn is_transfer_end(end: TransferEnd, actual: usize, step: UsbStep) -> bool {
    match end {
        TransferEnd::Request => step == UsbStep::Done(Ok(actual)),
        TransferEnd::Urb { urb_ptr } => step == (UsbStep::WriteUrb {
            urb_ptr,
            actual_length: actual as i32,
            clear_error_count: false,
        }),
        TransferEnd::IsoUrb { urb_ptr, packet_lengths } => if urb_ptr + USBDEVFS_URB_SIZE
            > usize::MAX {
            step == UsbStep::Done(Err(UsbError::OutOfRange))
        } else {
            match step {
                UsbStep::WritePackets {
                    urb_ptr: written,
                    address,
                    actual_lengths,
                    actual: moved,
                } => {
                    &&& written == urb_ptr
                    &&& address == urb_ptr + USBDEVFS_URB_SIZE
                    &&& moved == actual
                    &&& actual_lengths@.len() == packet_lengths@.len()
                    &&& forall|at: int|
                        0 <= at < packet_lengths@.len() ==> #[trigger] actual_lengths@[at]
                            == packet_share(packet_lengths@, actual, at) as u32
                },
                _ => false,
            }
        },
    }
}

/// What follows a transfer.
fn finish_transfer(end: TransferEnd, actual: usize) -> (step: UsbStep)
    ensures
        is_transfer_end(end, actual, step),
{
    match end {
        TransferEnd::Request => UsbStep::Done(Ok(actual)),
        TransferEnd::Urb { urb_ptr } => UsbStep::WriteUrb {
            urb_ptr,
            actual_length: actual as i32,
            clear_error_count: false,
        },
        TransferEnd::IsoUrb { urb_ptr, packet_lengths } => {
            match usbdevfs_iso_packet_descs_address(urb_ptr) {
                Ok(address) => UsbStep::WritePackets {
                    urb_ptr,
                    address,
                    actual_lengths: write_iso_packet_results(packet_lengths.as_slice(), actual),
                    actual,
                },
                Err(error) => UsbStep::Done(Err(error)),
            }
        },
    }
}

/// The control transfer that a setup packet asks for.
pub open spec fn control_transfer(urb_ptr: usize, buffer: usize, setup: Seq<u8>) -> ControlTransfer {
    ControlTransfer {
        urb_ptr,
        request_type: setup[0],
        request: setup[1],
        value: le16(setup, 2) as u16,
        index: le16(setup, 4) as u16,
        buffer,
        length: le16(setup, 6) as u16,
    }
}

/// Whether the flags and the start frame of an isochronous URB are supported:
/// no flags but the two known ones, and a start frame only where the URB
/// starts as soon as possible anyway.
pub open spec fn supported_iso_start(urb: UsbdevfsUrb) -> bool {
    &&& urb.flags & !(USBDEVFS_URB_ISO_ASAP | USBDEVFS_URB_SHORT_NOT_OK) == 0
    &&& urb.flags & USBDEVFS_URB_ISO_ASAP != 0 || urb.start_frame == 0
}

impl UsbDeviceFile {
    /// The first step of submitting a control URB.
    pub open spec fn control_urb_step(&self, arg: usize, urb: UsbdevfsUrb) -> UsbStep {
        if urb.type_ != USBDEVFS_URB_TYPE_CONTROL {
            UsbStep::Done(Err(UsbError::Unsupported))
        } else if urb.buffer_length < SETUP_PACKET_LEN {
            UsbStep::Done(Err(UsbError::InvalidInput))
        } else {
            UsbStep::ReadSetup {
                urb_ptr: arg,
                buffer: urb.buffer,
                len: urb.buffer_length as usize,
            }
        }
    }

    /// The first step of submitting a bulk or an interrupt URB.
    pub open spec fn stream_urb_step(
        &self,
        arg: usize,
        urb: UsbdevfsUrb,
        type_: u8,
        transfer_type: EndpointTransferType,
    ) -> UsbStep {
        if urb.type_ != type_ {
            UsbStep::Done(Err(UsbError::Unsupported))
        } else if urb.buffer_length < 0 {
            UsbStep::Done(Err(UsbError::InvalidInput))
        } else {
            self.transfer_step(
                urb.endpoint,
                transfer_type,
                urb.buffer,
                urb.buffer_length as usize,
                TransferEnd::Urb { urb_ptr: arg },
            )
        }
    }

    /// The first step of submitting an isochronous URB.
    pub open spec fn iso_urb_step(&self, arg: usize, urb: UsbdevfsUrb) -> UsbStep {
        if urb.type_ != USBDEVFS_URB_TYPE_ISO {
            UsbStep::Done(Err(UsbError::Unsupported))
        } else if urb.buffer_length < 0 || urb.number_of_packets <= 0 {
            UsbStep::Done(Err(UsbError::InvalidInput))
        } else if !supported_iso_start(urb) {
            UsbStep::Done(Err(UsbError::Unsupported))
        } else if arg + USBDEVFS_URB_SIZE > usize::MAX {
            UsbStep::Done(Err(UsbError::OutOfRange))
        } else {
            UsbStep::ReadPackets {
                urb_ptr: arg,
                endpoint: urb.endpoint,
                buffer: urb.buffer,
                buffer_length: urb.buffer_length as usize,
                address: (arg + USBDEVFS_URB_SIZE) as usize,
                count: urb.number_of_packets as usize,
            }
        }
    }

    /// The step that follows when an URB has been read.
    pub open spec fn urb_step(&self, arg: usize, purpose: UrbUse, urb: UsbdevfsUrb) -> UsbStep {
        match purpose {
            UrbUse::Dispatch => if urb.type_ == USBDEVFS_URB_TYPE_CONTROL {
                UsbStep::ReadUrb { arg, purpose: UrbUse::Control }
            } else if urb.type_ == USBDEVFS_URB_TYPE_BULK {
                UsbStep::ReadUrb { arg, purpose: UrbUse::Bulk }
            } else if urb.type_ == USBDEVFS_URB_TYPE_INTERRUPT {
                UsbStep::ReadUrb { arg, purpose: UrbUse::Interrupt }
            } else if urb.type_ == USBDEVFS_URB_TYPE_ISO {
                UsbStep::ReadUrb { arg, purpose: UrbUse::Iso }
            } else {
                UsbStep::Done(Err(UsbError::Unsupported))
            },
            UrbUse::Control => self.control_urb_step(arg, urb),
            UrbUse::Bulk => self.stream_urb_step(
                arg,
                urb,
                USBDEVFS_URB_TYPE_BULK,
                EndpointTransferType::Bulk,
            ),
            UrbUse::Interrupt => self.stream_urb_step(
                arg,
                urb,
                USBDEVFS_URB_TYPE_INTERRUPT,
                EndpointTransferType::Interrupt,
            ),
            UrbUse::Iso => self.iso_urb_step(arg, urb),
        }
    }

    /// The first step of a request.
    pub open spec fn request_step(&self, cmd: u32, arg: usize) -> UsbStep {
        if cmd == USBDEVFS_CONTROL {
            if self.has_lease {
                UsbStep::LeaseIoctl { cmd, arg }
            } else {
                UsbStep::SnapshotIoctl { cmd, arg }
            }
        } else if cmd == USBDEVFS_CLAIMINTERFACE {
            UsbStep::ReadInterface { arg, purpose: InterfaceUse::Claim }
        } else if cmd == USBDEVFS_RELEASEINTERFACE {
            UsbStep::ReadInterface { arg, purpose: InterfaceUse::Release }
        } else if cmd == USBDEVFS_SETINTERFACE {
            UsbStep::ReadSetInterface { arg }
        } else if cmd == USBDEVFS_BULK {
            UsbStep::ReadBulk { arg }
        } else if cmd == USBDEVFS_SUBMITURB {
            UsbStep::ReadUrb { arg, purpose: UrbUse::Dispatch }
        } else if cmd == USBDEVFS_REAPURB || cmd == USBDEVFS_REAPURBNDELAY {
            if self.pending_urbs@.len() == 0 {
                UsbStep::Done(Err(UsbError::WouldBlock))
            } else {
                UsbStep::WriteReaped { arg, urb_ptr: self.pending_urbs@[0].user_urb_ptr }
            }
        } else {
            self.live_step(LeaseUse::Ioctl { cmd, arg })
        }
    }

    /// Starts to serve a request.
    pub fn ioctl(&mut self, cmd: u32, arg: usize) -> (step: UsbStep)
        ensures
            step == old(self).request_step(cmd, arg),
            final(self).pending_urbs@ == (if (cmd == USBDEVFS_REAPURB || cmd
                == USBDEVFS_REAPURBNDELAY) && old(self).pending_urbs@.len() > 0 {
                old(self).pending_urbs@.drop_first()
            } else {
                old(self).pending_urbs@
            }),
            final(self).bus_num == old(self).bus_num,
            final(self).device_num == old(self).device_num,
            final(self).snapshot == old(self).snapshot,
            final(self).has_lease == old(self).has_lease,
            final(self).claimed_interfaces == old(self).claimed_interfaces,
    {
        if cmd == USBDEVFS_CONTROL {
            if self.has_lease {
                UsbStep::LeaseIoctl { cmd, arg }
            } else {
                UsbStep::SnapshotIoctl { cmd, arg }
            }
        } else if cmd == USBDEVFS_CLAIMINTERFACE {
            UsbStep::ReadInterface { arg, purpose: InterfaceUse::Claim }
        } else if cmd == USBDEVFS_RELEASEINTERFACE {
            UsbStep::ReadInterface { arg, purpose: InterfaceUse::Release }
        } else if cmd == USBDEVFS_SETINTERFACE {
            UsbStep::ReadSetInterface { arg }
        } else if cmd == USBDEVFS_BULK {
            UsbStep::ReadBulk { arg }
        } else if cmd == USBDEVFS_SUBMITURB {
            UsbStep::ReadUrb { arg, purpose: UrbUse::Dispatch }
        } else if cmd == USBDEVFS_REAPURB || cmd == USBDEVFS_REAPURBNDELAY {
            self.reap_urb(arg)
        } else {
            self.with_live_lease(LeaseUse::Ioctl { cmd, arg })
        }
    }

    /// Takes the oldest URB that waits, to write its address at `arg`.
    pub fn reap_urb(&mut self, arg: usize) -> (step: UsbStep)
        ensures
            old(self).pending_urbs@.len() == 0 ==> step == UsbStep::Done(
                Err(UsbError::WouldBlock),
            ) && final(self).pending_urbs@ == old(self).pending_urbs@,
            old(self).pending_urbs@.len() > 0 ==> step == (UsbStep::WriteReaped {
                arg,
                urb_ptr: old(self).pending_urbs@[0].user_urb_ptr,
            }) && final(self).pending_urbs@ == old(self).pending_urbs@.drop_first(),
            final(self).bus_num == old(self).bus_num,
            final(self).device_num == old(self).device_num,
            final(self).snapshot == old(self).snapshot,
            final(self).has_lease == old(self).has_lease,
            final(self).claimed_interfaces == old(self).claimed_interfaces,
    {
        match self.pending_urbs.pop_front() {
            Some(pending) => {
                assert(self.pending_urbs@ =~= old(self).pending_urbs@.drop_first());
                UsbStep::WriteReaped { arg, urb_ptr: pending.user_urb_ptr }
            },
            None => UsbStep::Done(Err(UsbError::WouldBlock)),
        }
    }

    /// The address of a reaped URB was written, or could not be; the URB is
    /// gone either way.
    pub fn after_write_reaped(&self, written: Result<(), UsbError>) -> (step: UsbStep)
        ensures
            step == (match written {
                Ok(_) => UsbStep::Done(Ok(0)),
                Err(error) => UsbStep::Done(Err(error)),
            }),
    {
        match written {
            Ok(_) => UsbStep::Done(Ok(0)),
            Err(error) => UsbStep::Done(Err(error)),
        }
    }

    /// An interface number was read, to be claimed in its first setting or to
    /// be released.
    pub fn after_read_interface(
        &mut self,
        purpose: InterfaceUse,
        interface: Result<u32, UsbError>,
    ) -> (step: UsbStep)
        ensures
            match interface {
                Err(error) => step == UsbStep::Done(Err(error)),
                Ok(interface) => if interface > u8::MAX {
                    step == UsbStep::Done(Err(UsbError::InvalidInput))
                } else if purpose == InterfaceUse::Claim {
                    step == old(self).claim_step(interface as u8, 0)
                } else {
                    step == UsbStep::Done(Ok(0))
                },
            },
            final(self).claimed_interfaces@ == (if purpose == InterfaceUse::Release
                && interface is Ok && interface->Ok_0 <= u8::MAX {
                old(self).claimed_interfaces@.remove(interface->Ok_0 as u8)
            } else {
                old(self).claimed_interfaces@
            }),
            final(self).bus_num == old(self).bus_num,
            final(self).device_num == old(self).device_num,
            final(self).snapshot == old(self).snapshot,
            final(self).has_lease == old(self).has_lease,
            final(self).pending_urbs == old(self).pending_urbs,
    {
        match interface {
            Err(error) => UsbStep::Done(Err(error)),
            Ok(interface) => {
                if interface > 0xff {
                    return UsbStep::Done(Err(UsbError::InvalidInput));
                }
                match purpose {
                    InterfaceUse::Claim => self.claim_interface(interface as u8, 0),
                    InterfaceUse::Release => self.release_interface(interface as u8),
                }
            },
        }
    }

    /// An interface and its alternate setting were read, to be claimed.
    pub fn after_read_set_interface(&self, set: Result<UsbdevfsSetInterface, UsbError>) -> (step:
        UsbStep)
        ensures
            step == (match set {
                Err(error) => UsbStep::Done(Err(error)),
                Ok(set) => if set.interface > u8::MAX || set.altsetting > u8::MAX {
                    UsbStep::Done(Err(UsbError::InvalidInput))
                } else {
                    self.claim_step(set.interface as u8, set.altsetting as u8)
                },
            }),
    {
        match set {
            Err(error) => UsbStep::Done(Err(error)),
            Ok(set) => {
                if set.interface > 0xff || set.altsetting > 0xff {
                    return UsbStep::Done(Err(UsbError::InvalidInput));
                }
                self.claim_interface(set.interface as u8, set.altsetting as u8)
            },
        }
    }

    /// A bulk transfer was read, to be performed at once.
    pub fn bulk_ioctl(&self, bulk: Result<UsbdevfsBulkTransfer, UsbError>) -> (step: UsbStep)
        ensures
            step == (match bulk {
                Err(error) => UsbStep::Done(Err(error)),
                Ok(bulk) => if bulk.ep > u8::MAX {
                    UsbStep::Done(Err(UsbError::InvalidInput))
                } else {
                    self.transfer_step(
                        bulk.ep as u8,
                        EndpointTransferType::Bulk,
                        bulk.data,
                        bulk.len as usize,
                        TransferEnd::Request,
                    )
                },
            }),
    {
        match bulk {
            Err(error) => UsbStep::Done(Err(error)),
            Ok(bulk) => {
                if bulk.ep > 0xff {
                    return UsbStep::Done(Err(UsbError::InvalidInput));
                }
                self.run_endpoint_transfer(
                    bulk.ep as u8,
                    EndpointTransferType::Bulk,
                    bulk.data,
                    bulk.len as usize,
                    TransferEnd::Request,
                )
            },
        }
    }

    /// An URB was read, to learn its type or to be submitted. Submitting reads
    /// it once more, so its type is looked at again.
    pub fn submit_urb(
        &self,
        arg: usize,
        purpose: UrbUse,
        urb: Result<UsbdevfsUrb, UsbError>,
    ) -> (step: UsbStep)
        ensures
            step == (match urb {
                Ok(urb) => self.urb_step(arg, purpose, urb),
                Err(error) => UsbStep::Done(Err(error)),
            }),
    {
        let urb = match urb {
            Ok(urb) => urb,
            Err(error) => {
                return UsbStep::Done(Err(error));
            },
        };
        match purpose {
            UrbUse::Dispatch => if urb.type_ == USBDEVFS_URB_TYPE_CONTROL {
                UsbStep::ReadUrb { arg, purpose: UrbUse::Control }
            } else if urb.type_ == USBDEVFS_URB_TYPE_BULK {
                UsbStep::ReadUrb { arg, purpose: UrbUse::Bulk }
            } else if urb.type_ == USBDEVFS_URB_TYPE_INTERRUPT {
                UsbStep::ReadUrb { arg, purpose: UrbUse::Interrupt }
            } else if urb.type_ == USBDEVFS_URB_TYPE_ISO {
                UsbStep::ReadUrb { arg, purpose: UrbUse::Iso }
            } else {
                UsbStep::Done(Err(UsbError::Unsupported))
            },
            UrbUse::Control => self.submit_control_urb(arg, urb),
            UrbUse::Bulk => self.submit_bulk_urb(arg, urb),
            UrbUse::Interrupt => self.submit_interrupt_urb(arg, urb),
            UrbUse::Iso => self.submit_iso_urb(arg, urb),
        }
    }

    /// Submits a control URB.
    pub fn submit_control_urb(&self, arg: usize, urb: UsbdevfsUrb) -> (step: UsbStep)
        ensures
            step == self.control_urb_step(arg, urb),
    {
        if urb.type_ != USBDEVFS_URB_TYPE_CONTROL {
            return UsbStep::Done(Err(UsbError::Unsupported));
        }
        if urb.buffer_length < 8 {
            return UsbStep::Done(Err(UsbError::InvalidInput));
        }
        UsbStep::ReadSetup { urb_ptr: arg, buffer: urb.buffer, len: urb.buffer_length as usize }
    }

    /// The buffer of a control URB was read. It has to hold the setup packet
    /// and as much data as that asks for.
    pub fn after_read_setup(
        &self,
        urb_ptr: usize,
        buffer: usize,
        transfer: Result<Vec<u8>, UsbError>,
    ) -> (step: UsbStep)
        ensures
            step == (match transfer {
                Err(error) => UsbStep::Done(Err(error)),
                Ok(bytes) => if bytes@.len() < SETUP_PACKET_LEN || bytes@.len() < SETUP_PACKET_LEN
                    + le16(bytes@, 6) {
                    UsbStep::Done(Err(UsbError::InvalidInput))
                } else {
                    self.live_step(
                        LeaseUse::Control { transfer: control_transfer(urb_ptr, buffer, bytes@) },
                    )
                },
            }),
    {
        let bytes = match transfer {
            Ok(bytes) => bytes,
            Err(error) => {
                return UsbStep::Done(Err(error));
            },
        };
        if bytes.len() < SETUP_PACKET_LEN {
            return UsbStep::Done(Err(UsbError::InvalidInput));
        }
        let value: u16 = le_u16(&bytes.as_slice()[2..4]);
        let index: u16 = le_u16(&bytes.as_slice()[4..6]);
        let length: u16 = le_u16(&bytes.as_slice()[6..8]);
        proof {
            lemma_le16_at(bytes@, 2);
            lemma_le16_at(bytes@, 4);
            lemma_le16_at(bytes@, 6);
        }
        if bytes.len() < SETUP_PACKET_LEN + length as usize {
            return UsbStep::Done(Err(UsbError::InvalidInput));
        }
        self.with_live_lease(
            LeaseUse::Control {
                transfer: ControlTransfer {
                    urb_ptr,
                    request_type: bytes[0],
                    request: bytes[1],
                    value,
                    index,
                    buffer,
                    length,
                },
            },
        )
    }

    /// A control transfer ended.
    pub fn after_control_transfer(
        &self,
        transfer: ControlTransfer,
        actual: Result<usize, UsbError>,
    ) -> (step: UsbStep)
        ensures
            step == (match actual {
                Ok(actual) => UsbStep::WriteUrb {
                    urb_ptr: transfer.urb_ptr,
                    actual_length: actual as i32,
                    clear_error_count: false,
                },
                Err(error) => UsbStep::Done(Err(error)),
            }),
    {
        match actual {
            Ok(actual) => UsbStep::WriteUrb {
                urb_ptr: transfer.urb_ptr,
                actual_length: actual as i32,
                clear_error_count: false,
            },
            Err(error) => UsbStep::Done(Err(error)),
        }
    }

    /// Submits a bulk URB.
    pub fn submit_bulk_urb(&self, arg: usize, urb: UsbdevfsUrb) -> (step: UsbStep)
        ensures
            step == self.stream_urb_step(
                arg,
                urb,
                USBDEVFS_URB_TYPE_BULK,
                EndpointTransferType::Bulk,
            ),
    {
        if urb.type_ != USBDEVFS_URB_TYPE_BULK {
            return UsbStep::Done(Err(UsbError::Unsupported));
        }
        if urb.buffer_length < 0 {
            return UsbStep::Done(Err(UsbError::InvalidInput));
        }
        self.run_endpoint_transfer(
            urb.endpoint,
            EndpointTransferType::Bulk,
            urb.buffer,
            urb.buffer_length as usize,
            TransferEnd::Urb { urb_ptr: arg },
        )
    }

    /// Submits an interrupt URB.
    pub fn submit_interrupt_urb(&self, arg: usize, urb: UsbdevfsUrb) -> (step: UsbStep)
        ensures
            step == self.stream_urb_step(
                arg,
                urb,
                USBDEVFS_URB_TYPE_INTERRUPT,
                EndpointTransferType::Interrupt,
            ),
    {
        if urb.type_ != USBDEVFS_URB_TYPE_INTERRUPT {
            return UsbStep::Done(Err(UsbError::Unsupported));
        }
        if urb.buffer_length < 0 {
            return UsbStep::Done(Err(UsbError::InvalidInput));
        }
        self.run_endpoint_transfer(
            urb.endpoint,
            EndpointTransferType::Interrupt,
            urb.buffer,
            urb.buffer_length as usize,
            TransferEnd::Urb { urb_ptr: arg },
        )
    }

    /// Submits an isochronous URB.
    pub fn submit_iso_urb(&self, arg: usize, urb: UsbdevfsUrb) -> (step: UsbStep)
        ensures
            step == self.iso_urb_step(arg, urb),
    {
        if urb.type_ != USBDEVFS_URB_TYPE_ISO {
            return UsbStep::Done(Err(UsbError::Unsupported));
        }
        if urb.buffer_length < 0 || urb.number_of_packets <= 0 {
            return UsbStep::Done(Err(UsbError::InvalidInput));
        }
        let supported_flags: u32 = USBDEVFS_URB_ISO_ASAP | USBDEVFS_URB_SHORT_NOT_OK;
        if urb.flags & !supported_flags != 0 {
            return UsbStep::Done(Err(UsbError::Unsupported));
        }
        if urb.flags & USBDEVFS_URB_ISO_ASAP == 0 && urb.start_frame != 0 {
            return UsbStep::Done(Err(UsbError::Unsupported));
        }
        match usbdevfs_iso_packet_descs_address(arg) {
            Ok(address) => UsbStep::ReadPackets {
                urb_ptr: arg,
                endpoint: urb.endpoint,
                buffer: urb.buffer,
                buffer_length: urb.buffer_length as usize,
                address,
                count: urb.number_of_packets as usize,
            },
            Err(error) => UsbStep::Done(Err(error)),
        }
    }

    /// The packet lengths of an isochronous URB were read. Together they have
    /// to fit into its buffer.
    pub fn after_read_packets(
        &self,
        urb_ptr: usize,
        endpoint: u8,
        buffer: usize,
        buffer_length: usize,
        packet_descs: Result<Vec<u32>, UsbError>,
    ) -> (step: UsbStep)
        ensures
            match packet_descs {
                Err(error) => step == UsbStep::Done(Err(error)),
                Ok(descs) => {
                    let all = total(sizes(descs@));
                    if all > usize::MAX {
                        step == UsbStep::Done(Err(UsbError::OutOfRange))
                    } else if all > buffer_length {
                        step == UsbStep::Done(Err(UsbError::InvalidInput))
                    } else {
                        exists|packet_lengths: Vec<usize>|
                            packet_lengths@ == sizes(descs@) && step == #[trigger] self.transfer_step(
                                endpoint,
                                EndpointTransferType::Isochronous,
                                buffer,
                                all as usize,
                                TransferEnd::IsoUrb { urb_ptr, packet_lengths },
                            )
                    }
                },
            },
    {
        let descs = match packet_descs {
            Ok(descs) => descs,
            Err(error) => {
                return UsbStep::Done(Err(error));
            },
        };
        let packet_lengths = match read_iso_packet_lengths(descs.as_slice()) {
            Ok(lengths) => lengths,
            Err(error) => {
                return UsbStep::Done(Err(error));
            },
        };
        let total_length: usize = match total_length(packet_lengths.as_slice()) {
            Ok(total_length) => total_length,
            Err(error) => {
                return UsbStep::Done(Err(error));
            },
        };
        if total_length > buffer_length {
            return UsbStep::Done(Err(UsbError::InvalidInput));
        }
        let ghost lengths = packet_lengths;
        let step = self.run_endpoint_transfer(
            endpoint,
            EndpointTransferType::Isochronous,
            buffer,
            total_length,
            TransferEnd::IsoUrb { urb_ptr, packet_lengths },
        );
        proof {
            let all = total(sizes(descs@));
            assert(all == total_length);
            assert(lengths@ == sizes(descs@) && step == self.transfer_step(
                endpoint,
                EndpointTransferType::Isochronous,
                buffer,
                all as usize,
                TransferEnd::IsoUrb { urb_ptr, packet_lengths: lengths },
            ));
        }
        step
    }

    /// The actual lengths of the packets were written, or could not be.
    pub fn after_write_packets(
        &self,
        urb_ptr: usize,
        actual: usize,
        written: Result<(), UsbError>,
    ) -> (step: UsbStep)
        ensures
            step == (match written {
                Ok(_) => UsbStep::WriteUrb {
                    urb_ptr,
                    actual_length: actual as i32,
                    clear_error_count: true,
                },
                Err(error) => UsbStep::Done(Err(error)),
            }),
    {
        match written {
            Ok(_) => UsbStep::WriteUrb {
                urb_ptr,
                actual_length: actual as i32,
                clear_error_count: true,
            },
            Err(error) => UsbStep::Done(Err(error)),
        }
    }

    /// The outcome of an URB was written to it; now it waits to be reaped.
    pub fn after_write_urb(&mut self, urb_ptr: usize) -> (step: UsbStep)
        ensures
            step == UsbStep::Done(Ok(0)),
            final(self).pending_urbs@ == old(self).pending_urbs@.push(
                PendingUrb { user_urb_ptr: urb_ptr },
            ),
            final(self).bus_num == old(self).bus_num,
            final(self).device_num == old(self).device_num,
            final(self).snapshot == old(self).snapshot,
            final(self).has_lease == old(self).has_lease,
            final(self).claimed_interfaces == old(self).claimed_interfaces,
    {
        self.pending_urbs.push_back(PendingUrb { user_urb_ptr: urb_ptr });
        UsbStep::Done(Ok(0))
    }
}

} // verus!
