//! What the calls come to that serve a request to a usbfs file.

use vstd::prelude::*;

use super::abi::{UsbError, UsbdevfsBulkTransfer, UsbdevfsSetInterface, UsbdevfsUrb};
use super::descriptors::{snapshot_has_interface, EndpointTransferType, UsbDeviceSnapshot};
use super::file::{
    ControlTransfer, EndpointTransfer, InterfaceUse, LeaseUse, TransferEnd, UrbUse, UsbDeviceFile,
    UsbStep,
};
use super::iso::{law_sizes_are_descriptor_lengths, sizes, total, write_iso_packet_results};
use super::mount::{
    finish_open, new_usbfs, open_usbfs_file, should_spawn_refresh, UsbDeviceOps, UsbfsMount,
};

verus! {

/// A transfer on a claimed endpoint goes in the direction that the top bit of
/// the address names: from 128 on into a buffer of zeros of its length, below
/// out of the memory of the user. A refused claim ends the request.
pub proof fn law_direction_of_started_transfer(
    file: UsbDeviceFile,
    transfer: EndpointTransfer,
    error: UsbError,
    started: UsbStep,
    refused: UsbStep,
)
    requires
        call_ensures(UsbDeviceFile::after_claim_for_transfer, (&file, transfer, Ok(())), started),
        call_ensures(
            UsbDeviceFile::after_claim_for_transfer,
            (&file, transfer, Err(error)),
            refused,
        ),
    ensures
        transfer.endpoint >= 128 <==> started is TransferIn,
        transfer.endpoint < 128 <==> started is ReadData,
        transfer.endpoint >= 128 ==> {
            &&& started->TransferIn_transfer == transfer
            &&& started->TransferIn_buffer@.len() == transfer.len
            &&& forall|i: int| 0 <= i < transfer.len ==> started->TransferIn_buffer@[i] == 0
        },
        transfer.endpoint < 128 ==> started->ReadData_transfer == transfer,
        refused == UsbStep::Done(Err(error)),
{
}

/// What an IN transfer brought is copied to the user: exactly the bytes that
/// came, from the front of the buffer. More than was asked for is an error.
pub proof fn law_received_bytes_copied(
    file: UsbDeviceFile,
    transfer: EndpointTransfer,
    buffer: Vec<u8>,
    actual: usize,
    step: UsbStep,
)
    requires
        call_ensures(
            UsbDeviceFile::after_transfer_in,
            (&file, transfer, buffer, Ok(actual)),
            step,
        ),
        buffer@.len() == transfer.len,
    ensures
        actual > transfer.len ==> step == UsbStep::Done(Err(UsbError::InvalidData)),
        0 < actual <= transfer.len ==> {
            &&& step is WriteData
            &&& step->WriteData_transfer == transfer
            &&& step->bytes@.len() == actual
            &&& forall|i: int| 0 <= i < actual ==> #[trigger] step->bytes@[i] == buffer@[i]
        },
        actual == 0 && transfer.end is Request ==> step == UsbStep::Done(Ok(0)),
{
}

/// The data of an OUT transfer is handed to the device as it was read.
pub proof fn law_sent_bytes_handed_on(
    file: UsbDeviceFile,
    transfer: EndpointTransfer,
    data: Vec<u8>,
    step: UsbStep,
)
    requires
        call_ensures(UsbDeviceFile::after_read_data, (&file, transfer, Ok(data)), step),
    ensures
        step is TransferOut,
        step->TransferOut_transfer == transfer,
        step->data@ == data@,
{
}

/// A transfer that a request waits for returns the number of bytes, in either
/// direction; one of an URB writes it to the URB.
pub proof fn law_transferred_bytes_counted(
    file: UsbDeviceFile,
    transfer: EndpointTransfer,
    actual: usize,
    written: UsbStep,
    sent: UsbStep,
)
    requires
        call_ensures(UsbDeviceFile::after_write_data, (&file, transfer, actual, Ok(())), written),
        call_ensures(UsbDeviceFile::after_transfer_out, (&file, transfer, Ok(actual)), sent),
        actual <= i32::MAX,
    ensures
        transfer.end is Request ==> written == UsbStep::Done(Ok(actual)) && sent == UsbStep::Done(
            Ok(actual),
        ),
        transfer.end matches TransferEnd::Urb { urb_ptr } ==> {
            &&& written is WriteUrb && written == sent
            &&& written->WriteUrb_urb_ptr == urb_ptr
            &&& written->actual_length == actual
            &&& !written->clear_error_count
        },
{
}

/// Outside work that fails ends the request with its error, whatever the work
/// was.
pub proof fn law_outside_failure_returned(
    file: UsbDeviceFile,
    error: UsbError,
    transfer: EndpointTransfer,
    control: ControlTransfer,
    buffer: Vec<u8>,
    number: usize,
    steps: Seq<UsbStep>,
)
    requires
        steps.len() == 8,
        buffer@.len() == transfer.len,
        call_ensures(
            UsbDeviceFile::after_transfer_in,
            (&file, transfer, buffer, Err(error)),
            steps[0],
        ),
        call_ensures(
            UsbDeviceFile::after_write_data,
            (&file, transfer, number, Err(error)),
            steps[1],
        ),
        call_ensures(UsbDeviceFile::after_read_data, (&file, transfer, Err(error)), steps[2]),
        call_ensures(UsbDeviceFile::after_transfer_out, (&file, transfer, Err(error)), steps[3]),
        call_ensures(UsbDeviceFile::after_control_transfer, (&file, control, Err(error)), steps[4]),
        call_ensures(
            UsbDeviceFile::after_write_packets,
            (&file, number, number, Err(error)),
            steps[5],
        ),
        call_ensures(UsbDeviceFile::after_write_reaped, (&file, Err(error)), steps[6]),
        call_ensures(UsbDeviceFile::bulk_ioctl, (&file, Err(error)), steps[7]),
    ensures
        forall|i: int| 0 <= i < 8 ==> #[trigger] steps[i] == UsbStep::Done(Err(error)),
{
}

/// A control URB and an isochronous one are told how much was transferred; the
/// isochronous one also that no packet failed.
pub proof fn law_urb_told_actual_length(
    file: UsbDeviceFile,
    control: ControlTransfer,
    urb_ptr: usize,
    actual: usize,
    controlled: UsbStep,
    packed: UsbStep,
    reaped: UsbStep,
)
    requires
        call_ensures(
            UsbDeviceFile::after_control_transfer,
            (&file, control, Ok(actual)),
            controlled,
        ),
        call_ensures(
            UsbDeviceFile::after_write_packets,
            (&file, urb_ptr, actual, Ok(())),
            packed,
        ),
        call_ensures(UsbDeviceFile::after_write_reaped, (&file, Ok(())), reaped),
        actual <= i32::MAX,
    ensures
        controlled is WriteUrb && packed is WriteUrb,
        controlled->WriteUrb_urb_ptr == control.urb_ptr,
        packed->WriteUrb_urb_ptr == urb_ptr,
        controlled->actual_length == actual && packed->actual_length == actual,
        !controlled->clear_error_count && packed->clear_error_count,
        reaped == UsbStep::Done(Ok(0)),
{
}

/// A granted claim sets the setting of its interface and of no other; a refused
/// one changes nothing.
pub proof fn law_claim_recorded(interface: u8, alternate: u8, error: UsbError)
    ensures
        forall|file: &mut UsbDeviceFile, step: UsbStep| #[trigger]
            call_ensures(
                UsbDeviceFile::after_claim_interface,
                (file, interface, alternate, Ok(())),
                step,
            ) ==> {
                &&& step == UsbStep::Done(Ok(0))
                &&& final(file).claimed_interfaces@.contains_key(interface)
                &&& final(file).claimed_interfaces@[interface] == alternate
                &&& final(file).claimed_interfaces@.remove(interface)
                    == file.claimed_interfaces@.remove(interface)
            },
        forall|file: &mut UsbDeviceFile, step: UsbStep| #[trigger]
            call_ensures(
                UsbDeviceFile::after_claim_interface,
                (file, interface, alternate, Err(error)),
                step,
            ) ==> {
                &&& step == UsbStep::Done(Err(error))
                &&& final(file).claimed_interfaces@ == file.claimed_interfaces@
            },
{
    assert forall|file: &mut UsbDeviceFile, step: UsbStep| #[trigger]
        call_ensures(
            UsbDeviceFile::after_claim_interface,
            (file, interface, alternate, Ok(())),
            step,
        ) implies final(file).claimed_interfaces@.remove(interface)
        == file.claimed_interfaces@.remove(interface) by {
        assert(final(file).claimed_interfaces@.remove(interface)
            =~= file.claimed_interfaces@.remove(interface));
    }
}

/// Releasing an interface takes it away and keeps the others; released after a
/// claim, the file is as it was before the claim.
pub proof fn law_claim_then_release(interface: u8, alternate: u8)
    ensures
        forall|file: &mut UsbDeviceFile, step: UsbStep| #[trigger]
            call_ensures(UsbDeviceFile::release_interface, (file, interface), step) ==> {
                &&& step == UsbStep::Done(Ok(0))
                &&& !final(file).claimed_interfaces@.contains_key(interface)
                &&& forall|other: u8|
                    other != interface ==> {
                        &&& #[trigger] final(file).claimed_interfaces@.contains_key(other)
                            <==> file.claimed_interfaces@.contains_key(other)
                        &&& file.claimed_interfaces@.contains_key(other)
                            ==> final(file).claimed_interfaces@[other]
                            == file.claimed_interfaces@[other]
                    }
            },
        forall|
            first: &mut UsbDeviceFile,
            second: &mut UsbDeviceFile,
            claimed: UsbStep,
            released: UsbStep,
        |
            #[trigger] call_ensures(
                UsbDeviceFile::after_claim_interface,
                (first, interface, alternate, Ok(())),
                claimed,
            ) && #[trigger] call_ensures(
                UsbDeviceFile::release_interface,
                (second, interface),
                released,
            ) && *second == *final(first) && !first.claimed_interfaces@.contains_key(interface)
                ==> final(second).claimed_interfaces@ == first.claimed_interfaces@,
{
    assert forall|
        first: &mut UsbDeviceFile,
        second: &mut UsbDeviceFile,
        claimed: UsbStep,
        released: UsbStep,
    |
        #[trigger] call_ensures(
            UsbDeviceFile::after_claim_interface,
            (first, interface, alternate, Ok(())),
            claimed,
        ) && #[trigger] call_ensures(
            UsbDeviceFile::release_interface,
            (second, interface),
            released,
        ) && *second == *final(first) && !first.claimed_interfaces@.contains_key(
            interface,
        ) implies final(second).claimed_interfaces@ == first.claimed_interfaces@ by {
        assert(final(second).claimed_interfaces@ =~= first.claimed_interfaces@);
    }
}

/// An acquired device is used for what waited for it, and stays acquired; if it
/// cannot be acquired, the request ends and nothing is acquired.
pub proof fn law_acquired_device_used(
    cmd: u32,
    arg: usize,
    interface: u8,
    alternate: u8,
    error: UsbError,
    transfer: EndpointTransfer,
)
    ensures
        forall|file: &mut UsbDeviceFile, step: UsbStep| #[trigger]
            call_ensures(
                UsbDeviceFile::after_acquire,
                (file, LeaseUse::Ioctl { cmd, arg }, Ok(())),
                step,
            ) ==> final(file).has_lease && step == (UsbStep::LeaseIoctl { cmd, arg }),
        forall|file: &mut UsbDeviceFile, step: UsbStep| #[trigger]
            call_ensures(
                UsbDeviceFile::after_acquire,
                (file, LeaseUse::Claim { interface, alternate }, Ok(())),
                step,
            ) ==> final(file).has_lease && step == (UsbStep::ClaimInterface {
                interface,
                alternate,
            }),
        forall|file: &mut UsbDeviceFile, step: UsbStep| #[trigger]
            call_ensures(
                UsbDeviceFile::after_acquire,
                (file, LeaseUse::Transfer { transfer }, Ok(())),
                step,
            ) ==> final(file).has_lease && step == (UsbStep::ClaimForTransfer { transfer }),
        forall|file: &mut UsbDeviceFile, then: LeaseUse, step: UsbStep| #[trigger]
            call_ensures(UsbDeviceFile::after_acquire, (file, then, Err(error)), step) ==> {
                &&& step == UsbStep::Done(Err(error))
                &&& final(file).has_lease == file.has_lease
            },
{
}

/// A completed URB waits behind the others, and a reap takes the oldest: on a
/// file on which none waits, the URB that was completed is the one that is
/// reaped, and then none waits again.
pub proof fn law_completed_urb_reaped(urb_ptr: usize, arg: usize)
    ensures
        forall|file: &mut UsbDeviceFile, step: UsbStep| #[trigger]
            call_ensures(UsbDeviceFile::after_write_urb, (file, urb_ptr), step) ==> {
                &&& step == UsbStep::Done(Ok(0))
                &&& final(file).pending_urbs@.len() == file.pending_urbs@.len() + 1
                &&& final(file).pending_urbs@.last().user_urb_ptr == urb_ptr
                &&& final(file).pending_urbs@.drop_last() == file.pending_urbs@
            },
        forall|file: &mut UsbDeviceFile, step: UsbStep| #[trigger]
            call_ensures(UsbDeviceFile::reap_urb, (file, arg), step)
                && file.pending_urbs@.len() == 0 ==> {
                &&& step == UsbStep::Done(Err(UsbError::WouldBlock))
                &&& final(file).pending_urbs@.len() == 0
            },
        forall|
            first: &mut UsbDeviceFile,
            second: &mut UsbDeviceFile,
            done: UsbStep,
            reaped: UsbStep,
        |
            #[trigger] call_ensures(UsbDeviceFile::after_write_urb, (first, urb_ptr), done)
                && #[trigger] call_ensures(UsbDeviceFile::reap_urb, (second, arg), reaped)
                && *second == *final(first) ==> {
                &&& reaped is WriteReaped
                &&& reaped->WriteReaped_arg == arg
                &&& first.pending_urbs@.len() == 0 ==> reaped->WriteReaped_urb_ptr == urb_ptr
                    && final(second).pending_urbs@.len() == 0
                &&& first.pending_urbs@.len() > 0 ==> reaped->WriteReaped_urb_ptr
                    == first.pending_urbs@[0].user_urb_ptr
                    && final(second).pending_urbs@.last().user_urb_ptr == urb_ptr
            },
{
    assert forall|file: &mut UsbDeviceFile, step: UsbStep| #[trigger]
        call_ensures(
            UsbDeviceFile::after_write_urb,
            (file, urb_ptr),
            step,
        ) implies final(file).pending_urbs@.drop_last() == file.pending_urbs@ by {
        assert(final(file).pending_urbs@.drop_last() =~= file.pending_urbs@);
    }
}

/// A bulk request is a bulk transfer of its length on its endpoint that the
/// request waits for; no endpoint has an address above 255.
pub proof fn law_bulk_request_is_transfer(
    file: UsbDeviceFile,
    bulk: UsbdevfsBulkTransfer,
    asked: UsbStep,
    run: UsbStep,
)
    requires
        call_ensures(UsbDeviceFile::bulk_ioctl, (&file, Ok(bulk)), asked),
        call_ensures(
            UsbDeviceFile::run_endpoint_transfer,
            (
                &file,
                bulk.ep as u8,
                EndpointTransferType::Bulk,
                bulk.data,
                bulk.len as usize,
                TransferEnd::Request,
            ),
            run,
        ),
    ensures
        bulk.ep > 255 ==> asked == UsbStep::Done(Err(UsbError::InvalidInput)),
        bulk.ep <= 255 ==> asked == run,
{
}

/// An interface that is claimed by its number alone is claimed in setting 0;
/// no interface has a number above 255.
pub proof fn law_interface_claimed_in_first_setting(interface: u32)
    ensures
        forall|file: &mut UsbDeviceFile, step: UsbStep, claim: UsbStep|
            #[trigger] call_ensures(
                UsbDeviceFile::after_read_interface,
                (file, InterfaceUse::Claim, Ok(interface)),
                step,
            ) && #[trigger] call_ensures(
                UsbDeviceFile::claim_interface,
                (file, interface as u8, 0u8),
                claim,
            ) ==> {
                &&& interface > 255 ==> step == UsbStep::Done(Err(UsbError::InvalidInput))
                &&& interface <= 255 ==> step == claim
                &&& final(file).claimed_interfaces@ == file.claimed_interfaces@
            },
        forall|file: &mut UsbDeviceFile, step: UsbStep| #[trigger]
            call_ensures(
                UsbDeviceFile::after_read_interface,
                (file, InterfaceUse::Release, Ok(interface)),
                step,
            ) ==> {
                &&& interface > 255 ==> step == UsbStep::Done(Err(UsbError::InvalidInput))
                    && final(file).claimed_interfaces@ == file.claimed_interfaces@
                &&& interface <= 255 ==> step == UsbStep::Done(Ok(0))
                    && !final(file).claimed_interfaces@.contains_key(interface as u8)
            },
{
}

/// Setting an interface claims the very setting that was named.
pub proof fn law_named_setting_claimed(
    file: UsbDeviceFile,
    set: UsbdevfsSetInterface,
    step: UsbStep,
    claim: UsbStep,
)
    requires
        call_ensures(UsbDeviceFile::after_read_set_interface, (&file, Ok(set)), step),
        call_ensures(
            UsbDeviceFile::claim_interface,
            (&file, set.interface as u8, set.altsetting as u8),
            claim,
        ),
    ensures
        set.interface > 255 || set.altsetting > 255 ==> step == UsbStep::Done(
            Err(UsbError::InvalidInput),
        ),
        set.interface <= 255 && set.altsetting <= 255 ==> step == claim,
{
}

/// A claim is asked for exactly if the device has the setting.
pub proof fn law_claim_asked_if_device_has_it(
    file: UsbDeviceFile,
    interface: u8,
    alternate: u8,
    offered: bool,
    step: UsbStep,
)
    requires
        call_ensures(snapshot_has_interface, (&file.snapshot, interface, alternate), offered),
        call_ensures(UsbDeviceFile::claim_interface, (&file, interface, alternate), step),
    ensures
        !offered ==> step == UsbStep::Done(Err(UsbError::NotFound)),
        offered && file.has_lease ==> step == (UsbStep::ClaimInterface { interface, alternate }),
        offered && !file.has_lease ==> step == (UsbStep::Acquire {
            then: LeaseUse::Claim { interface, alternate },
        }),
{
}

/// The buffer of a control URB has to hold its setup packet and the data that
/// the packet announces in its last two bytes; the transfer then has the
/// fields of the packet.
pub proof fn law_setup_announces_data(
    file: UsbDeviceFile,
    urb_ptr: usize,
    buffer: usize,
    bytes: Vec<u8>,
    step: UsbStep,
)
    requires
        call_ensures(UsbDeviceFile::after_read_setup, (&file, urb_ptr, buffer, Ok(bytes)), step),
        file.has_lease,
    ensures
        bytes@.len() < 8 || bytes@.len() < 8 + bytes@[6] + 256 * bytes@[7] <==> step
            == UsbStep::Done(Err(UsbError::InvalidInput)),
        bytes@.len() >= 8 && bytes@.len() >= 8 + bytes@[6] + 256 * bytes@[7] ==> {
            let transfer = step->ControlTransfer_transfer;
            &&& step is ControlTransfer
            &&& transfer.urb_ptr == urb_ptr
            &&& transfer.buffer == buffer
            &&& transfer.request_type == bytes@[0]
            &&& transfer.request == bytes@[1]
            &&& transfer.value == bytes@[2] + 256 * bytes@[3]
            &&& transfer.index == bytes@[4] + 256 * bytes@[5]
            &&& transfer.length == bytes@[6] + 256 * bytes@[7]
        },
{
}

/// The packets of an isochronous URB together have to fit into its buffer; they
/// are one isochronous transfer of their total length.
pub proof fn law_packets_fit_buffer(
    file: UsbDeviceFile,
    urb_ptr: usize,
    endpoint: u8,
    buffer: usize,
    buffer_length: usize,
    descs: Vec<u32>,
    step: UsbStep,
)
    requires
        call_ensures(
            UsbDeviceFile::after_read_packets,
            (&file, urb_ptr, endpoint, buffer, buffer_length, Ok(descs)),
            step,
        ),
        file.has_lease,
    ensures
        buffer_length < total(sizes(descs@)) <= usize::MAX ==> step == UsbStep::Done(
            Err(UsbError::InvalidInput),
        ),
        total(sizes(descs@)) > usize::MAX ==> step == UsbStep::Done(Err(UsbError::OutOfRange)),
        total(sizes(descs@)) <= buffer_length && step is ClaimForTransfer ==> {
            let transfer = step->ClaimForTransfer_transfer;
            &&& transfer.endpoint == endpoint
            &&& transfer.transfer_type == EndpointTransferType::Isochronous
            &&& transfer.data == buffer
            &&& transfer.len == total(sizes(descs@))
            &&& transfer.end is IsoUrb
            &&& transfer.end->IsoUrb_urb_ptr == urb_ptr
            &&& transfer.end->packet_lengths@.len() == descs@.len()
            &&& forall|i: int|
                0 <= i < descs@.len() ==> #[trigger] transfer.end->packet_lengths@[i] == descs@[i]
        },
{
    law_sizes_are_descriptor_lengths(descs@);
}

/// The packets are filled in their order: the actual lengths add up to what was
/// transferred as long as it fits, and none is above its packet.
pub proof fn law_first_packet_filled_first(
    length: usize,
    lengths: &[usize],
    actual: usize,
    results: Vec<u32>,
)
    requires
        call_ensures(write_iso_packet_results, (lengths, actual), results),
        lengths@.len() > 0,
        lengths@[0] == length,
        length <= u32::MAX,
    ensures
        results@.len() == lengths@.len(),
        actual <= length ==> results@[0] == actual,
        actual > length ==> results@[0] == length,
{
    assert(lengths@.take(0) =~= Seq::<usize>::empty());
}

/// A file is ready for writing always, and for reading while an URB waits: the
/// events are 4, or 4 and 1 together.
pub proof fn law_ready_while_urb_waits(file: UsbDeviceFile, events: u32)
    requires
        call_ensures(UsbDeviceFile::poll, (&file,), events),
    ensures
        file.pending_urbs@.len() == 0 ==> events == 4,
        file.pending_urbs@.len() > 0 ==> events == 5,
{
    assert(4u32 | 1u32 == 5u32) by (bit_vector);
}

/// A file that was opened belongs to its device, and nothing has been done with
/// it: no transfer is permitted, no URB waits, and the device is acquired on
/// first use.
pub proof fn law_opened_file_is_fresh(
    device: UsbDeviceOps,
    snapshot: UsbDeviceSnapshot,
    opened: Result<UsbDeviceFile, UsbError>,
    absent: Result<UsbDeviceFile, UsbError>,
    used: LeaseUse,
    step: UsbStep,
)
    requires
        call_ensures(finish_open, (device, Some(snapshot)), opened),
        call_ensures(finish_open, (device, None), absent),
        call_ensures(UsbDeviceFile::with_live_lease, (&opened->Ok_0, used), step),
    ensures
        opened is Ok,
        opened->Ok_0.bus_num == device.bus_num,
        opened->Ok_0.device_num == device.device_num,
        opened->Ok_0.snapshot == snapshot,
        opened->Ok_0.claimed_interfaces@ == Map::<u8, u8>::empty(),
        opened->Ok_0.pending_urbs@.len() == 0,
        step == (UsbStep::Acquire { then: used }),
        absent == Err::<UsbDeviceFile, UsbError>(UsbError::NoSuchDevice),
{
}

/// Only a device node can be opened, and only where there is a manager; only
/// the first mount initializes the hosts, and devices are refreshed exactly if
/// a host could be initialized.
pub proof fn law_open_needs_device_and_manager(
    device: UsbDeviceOps,
    has_manager: bool,
    hosts: usize,
    opened: Result<UsbDeviceOps, UsbError>,
    other: Result<UsbDeviceOps, UsbError>,
    mount: UsbfsMount,
    spawn: bool,
)
    requires
        call_ensures(open_usbfs_file, (Some(device), has_manager), opened),
        call_ensures(open_usbfs_file, (None, has_manager), other),
        call_ensures(new_usbfs, (has_manager,), mount),
        call_ensures(should_spawn_refresh, (hosts,), spawn),
    ensures
        other == Err::<UsbDeviceOps, UsbError>(UsbError::InvalidInput),
        has_manager ==> opened == Ok::<UsbDeviceOps, UsbError>(device) && mount is Reuse,
        !has_manager ==> opened == Err::<UsbDeviceOps, UsbError>(UsbError::NoSuchDevice)
            && mount is Initialize,
        hosts == 0 <==> !spawn,
{
}

/// Submitting an URB of a type does what submitting it as that type does.
pub proof fn law_urb_submitted_as_its_type(
    file: UsbDeviceFile,
    arg: usize,
    urb: UsbdevfsUrb,
    looked_at: UsbStep,
    control: (UsbStep, UsbStep),
    bulk: (UsbStep, UsbStep),
    interrupt: (UsbStep, UsbStep),
    iso: (UsbStep, UsbStep),
)
    requires
        call_ensures(
            UsbDeviceFile::submit_urb,
            (&file, arg, UrbUse::Dispatch, Ok(urb)),
            looked_at,
        ),
        call_ensures(UsbDeviceFile::submit_urb, (&file, arg, UrbUse::Control, Ok(urb)), control.0),
        call_ensures(UsbDeviceFile::submit_control_urb, (&file, arg, urb), control.1),
        call_ensures(UsbDeviceFile::submit_urb, (&file, arg, UrbUse::Bulk, Ok(urb)), bulk.0),
        call_ensures(UsbDeviceFile::submit_bulk_urb, (&file, arg, urb), bulk.1),
        call_ensures(
            UsbDeviceFile::submit_urb,
            (&file, arg, UrbUse::Interrupt, Ok(urb)),
            interrupt.0,
        ),
        call_ensures(UsbDeviceFile::submit_interrupt_urb, (&file, arg, urb), interrupt.1),
        call_ensures(UsbDeviceFile::submit_urb, (&file, arg, UrbUse::Iso, Ok(urb)), iso.0),
        call_ensures(UsbDeviceFile::submit_iso_urb, (&file, arg, urb), iso.1),
    ensures
        urb.type_ == 0 ==> looked_at == (UsbStep::ReadUrb { arg, purpose: UrbUse::Iso }),
        urb.type_ == 1 ==> looked_at == (UsbStep::ReadUrb { arg, purpose: UrbUse::Interrupt }),
        urb.type_ == 2 ==> looked_at == (UsbStep::ReadUrb { arg, purpose: UrbUse::Control }),
        urb.type_ == 3 ==> looked_at == (UsbStep::ReadUrb { arg, purpose: UrbUse::Bulk }),
        urb.type_ > 3 ==> looked_at == UsbStep::Done(Err(UsbError::Unsupported)),
        control.0 == control.1 && bulk.0 == bulk.1 && interrupt.0 == interrupt.1 && iso.0 == iso.1,
        urb.type_ != 0 ==> iso.0 == UsbStep::Done(Err(UsbError::Unsupported)),
        urb.type_ != 1 ==> interrupt.0 == UsbStep::Done(Err(UsbError::Unsupported)),
        urb.type_ != 2 ==> control.0 == UsbStep::Done(Err(UsbError::Unsupported)),
        urb.type_ != 3 ==> bulk.0 == UsbStep::Done(Err(UsbError::Unsupported)),
{
}

} // verus!
