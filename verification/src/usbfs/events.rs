//! The events for which a usbfs file is ready.

use vstd::prelude::*;

use axpoll::IoEvents;

use super::file::UsbDeviceFile;

verus! {

/// The bits of the event that data can be read.
pub open spec fn event_in() -> u32 {
    0x0001
}

/// The bits of the event that data can be written.
pub open spec fn event_out() -> u32 {
    0x0004
}

/// `axpoll::IoEvents::IN`, by its bits: the `POLLIN` of Linux, which is 1.
#[verifier::external_body]
fn io_events_in() -> (bits: u32)
    ensures
        bits == event_in(),
{
    IoEvents::IN.bits()
}

/// `axpoll::IoEvents::OUT`, by its bits: the `POLLOUT` of Linux, which is 4.
#[verifier::external_body]
fn io_events_out() -> (bits: u32)
    ensures
        bits == event_out(),
{
    IoEvents::OUT.bits()
}

impl UsbDeviceFile {
    /// The events for which the file is ready: always for writing, and for
    /// reading while an URB waits to be reaped.
    pub fn poll(&self) -> (events: u32)
        ensures
            events == (if self.pending_urbs@.len() > 0 {
                event_out() | event_in()
            } else {
                event_out()
            }),
            events & event_out() != 0,
            events & event_in() != 0 <==> self.pending_urbs@.len() > 0,
    {
        assert(4u32 & 4u32 != 0 && 4u32 & 1u32 == 0 && (4u32 | 1u32) & 4u32 != 0 && (4u32 | 1u32)
            & 1u32 != 0) by (bit_vector);
        let mut events: u32 = io_events_out();
        if self.pending_urbs.len() > 0 {
            events = events | io_events_in();
        }
        events
    }
}

} // verus!
