//! The usbdevfs interface as user space sees it on 64-bit Linux.

use vstd::prelude::*;

verus! {

pub const USBDEVFS_CONTROL: u32 = 0xc018_5500;

pub const USBDEVFS_BULK: u32 = 0xc018_5502;

pub const USBDEVFS_SETINTERFACE: u32 = 0x8008_5504;

pub const USBDEVFS_SUBMITURB: u32 = 0x8038_550a;

pub const USBDEVFS_REAPURB: u32 = 0x4008_550c;

pub const USBDEVFS_REAPURBNDELAY: u32 = 0x4008_550d;

pub const USBDEVFS_CLAIMINTERFACE: u32 = 0x8004_550f;

pub const USBDEVFS_RELEASEINTERFACE: u32 = 0x8004_5510;

pub const USBDEVFS_CONNECTINFO: u32 = 0x4008_5511;

pub const USBDEVFS_GET_CAPABILITIES: u32 = 0x8004_551a;

pub const USBDEVFS_URB_TYPE_ISO: u8 = 0;

pub const USBDEVFS_URB_TYPE_INTERRUPT: u8 = 1;

pub const USBDEVFS_URB_TYPE_CONTROL: u8 = 2;

pub const USBDEVFS_URB_TYPE_BULK: u8 = 3;

pub const USBDEVFS_URB_SHORT_NOT_OK: u32 = 0x01;

pub const USBDEVFS_URB_ISO_ASAP: u32 = 0x02;

/// The size of an URB; the packet descriptors of an isochronous URB follow it.
pub const USBDEVFS_URB_SIZE: usize = 56;

/// The length of the setup packet in front of the data of a control transfer.
pub const SETUP_PACKET_LEN: usize = 8;

/// Why a request to a usbfs file fails.
#[derive(Debug, Clone, Copy, PartialEq, Eq, Structural)]
pub enum UsbError {
    InvalidInput,
    InvalidData,
    NotFound,
    NoSuchDevice,
    OperationNotPermitted,
    OutOfRange,
    Unsupported,
    WouldBlock,
    /// The host or user memory failed, with this error code.
    Outside(i32),
}

/// The argument of `USBDEVFS_SETINTERFACE`.
#[derive(Debug, Clone, Copy, PartialEq, Eq, Structural)]
pub struct UsbdevfsSetInterface {
    pub interface: u32,
    pub altsetting: u32,
}

/// The argument of `USBDEVFS_BULK`.
#[derive(Debug, Clone, Copy, PartialEq, Eq, Structural)]
pub struct UsbdevfsBulkTransfer {
    pub ep: u32,
    pub len: u32,
    /// The address of the data.
    pub data: usize,
}

/// What is read of an URB.
#[derive(Debug, Clone, Copy, PartialEq, Eq, Structural)]
pub struct UsbdevfsUrb {
    pub type_: u8,
    pub endpoint: u8,
    pub flags: u32,
    /// The address of the data.
    pub buffer: usize,
    pub buffer_length: i32,
    pub start_frame: i32,
    pub number_of_packets: i32,
}

/// The number of a request: which way its argument goes, how long that is, the
/// letter of usbdevfs, and which of its requests it is.
pub open spec fn request_number(direction: int, size: int, number: int) -> int {
    direction * 0x4000_0000 + size * 0x1_0000 + 0x55 * 0x100 + number
}

/// The numbers of the requests, on 64-bit Linux.
pub proof fn law_request_numbers()
    ensures
        USBDEVFS_CONTROL == request_number(3, 24, 0),
        USBDEVFS_BULK == request_number(3, 24, 2),
        USBDEVFS_SETINTERFACE == request_number(2, 8, 4),
        USBDEVFS_SUBMITURB == request_number(2, 56, 10),
        USBDEVFS_REAPURB == request_number(1, 8, 12),
        USBDEVFS_REAPURBNDELAY == request_number(1, 8, 13),
        USBDEVFS_CLAIMINTERFACE == request_number(2, 4, 15),
        USBDEVFS_RELEASEINTERFACE == request_number(2, 4, 16),
        USBDEVFS_CONNECTINFO == request_number(1, 8, 17),
        USBDEVFS_GET_CAPABILITIES == request_number(2, 4, 26),
{
}

} // verus!
