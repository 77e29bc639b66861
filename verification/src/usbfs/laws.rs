//! What holds of usbfs files across requests.

use vstd::prelude::*;

use super::abi::{
    law_request_numbers, request_number, UsbError, UsbdevfsUrb, USBDEVFS_URB_ISO_ASAP,
    USBDEVFS_URB_SHORT_NOT_OK,
};
use super::descriptors::{
    endpoint_in, has_interface, law_found_endpoint_is_claimed, law_no_claim_no_endpoint,
    ClaimedEndpoint, EndpointTransferType,
};
use super::file::{
    control_transfer, is_in_endpoint, is_transfer_end, lease_step, lemma_top_bit,
    supported_iso_start, ControlTransfer, EndpointTransfer, InterfaceUse, LeaseUse, PendingUrb,
    TransferEnd, UrbUse, UsbDeviceFile, UsbStep,
};
use super::iso::{packet_share, sizes, total};

verus! {

/// The queue after `count` URBs were reaped from it.
pub open spec fn after_reaps(queue: Seq<PendingUrb>, count: nat) -> Seq<PendingUrb>
    decreases count,
{
    if count == 0 {
        queue
    } else {
        after_reaps(queue, (count - 1) as nat).drop_first()
    }
}

/// The queue after URBs were completed one after the other.
pub open spec fn after_completions(queue: Seq<PendingUrb>, urbs: Seq<PendingUrb>) -> Seq<PendingUrb>
    decreases urbs.len(),
{
    if urbs.len() == 0 {
        queue
    } else {
        after_completions(queue, urbs.drop_last()).push(urbs.last())
    }
}

proof fn lemma_completions_append(queue: Seq<PendingUrb>, urbs: Seq<PendingUrb>)
    ensures
        after_completions(queue, urbs) == queue + urbs,
    decreases urbs.len(),
{
    if urbs.len() == 0 {
        assert(queue + urbs =~= queue);
    } else {
        lemma_completions_append(queue, urbs.drop_last());
        assert((queue + urbs.drop_last()).push(urbs.last()) =~= queue + urbs);
    }
}

proof fn lemma_reaps_skip(queue: Seq<PendingUrb>, count: nat)
    requires
        count <= queue.len(),
    ensures
        after_reaps(queue, count) == queue.skip(count as int),
    decreases count,
{
    if count == 0 {
        assert(queue.skip(0) =~= queue);
    } else {
        lemma_reaps_skip(queue, (count - 1) as nat);
        assert(queue.skip(count - 1).drop_first() =~= queue.skip(count as int));
    }
}

/// URBs are reaped in the order in which they were completed, behind those
/// that waited already.
pub proof fn law_urbs_reaped_in_order(queue: Seq<PendingUrb>, urbs: Seq<PendingUrb>, at: int)
    requires
        0 <= at < urbs.len(),
    ensures
        after_reaps(after_completions(queue, urbs), (queue.len() + at) as nat).len() > 0,
        after_reaps(after_completions(queue, urbs), (queue.len() + at) as nat)[0] == urbs[at],
{
    lemma_completions_append(queue, urbs);
    lemma_reaps_skip(queue + urbs, (queue.len() + at) as nat);
}

/// Releasing an interface undoes a claim of it.
pub proof fn law_release_undoes_claim(claims: Map<u8, u8>, interface: u8, alternate: u8)
    requires
        !claims.contains_key(interface),
    ensures
        claims.insert(interface, alternate).remove(interface) == claims,
{
    assert(claims.insert(interface, alternate).remove(interface) =~= claims);
}

/// Whether the device has each claimed setting.
pub open spec fn claims_exist(file: UsbDeviceFile) -> bool {
    forall|interface: u8| #[trigger]
        file.claimed_interfaces@.contains_key(interface) ==> has_interface(
            file.snapshot.descriptor_blob@,
            interface,
            file.claimed_interfaces@[interface],
        )
}

/// Only settings that the device has are ever claimed: a claim is asked for
/// only if the device has the setting, and recording it keeps this true, as
/// releasing any interface does.
pub proof fn law_claims_exist(
    before: UsbDeviceFile,
    after: UsbDeviceFile,
    interface: u8,
    alternate: u8,
)
    requires
        claims_exist(before),
        after.snapshot == before.snapshot,
        after.claimed_interfaces@ == before.claimed_interfaces@.remove(interface) || (
        after.claimed_interfaces@ == before.claimed_interfaces@.insert(interface, alternate)
            && !(before.claim_step(interface, alternate) is Done)),
    ensures
        claims_exist(after),
{
    assert forall|other: u8| #[trigger]
        after.claimed_interfaces@.contains_key(other) implies has_interface(
        after.snapshot.descriptor_blob@,
        other,
        after.claimed_interfaces@[other],
    ) by {
        assert(other != interface ==> before.claimed_interfaces@.contains_key(other));
    }
}

/// No endpoint of a released interface can be used.
pub proof fn law_released_interface_unusable(
    blob: Seq<u8>,
    claims: Map<u8, u8>,
    interface: u8,
    endpoint: u8,
)
    ensures
        endpoint_in(blob, endpoint, claims.remove(interface)) matches Some(found)
            ==> found.interface != interface,
{
    law_found_endpoint_is_claimed(blob, endpoint, claims.remove(interface));
}

/// Claiming another setting of an interface takes the endpoints of its former
/// setting away.
pub proof fn law_setting_replaced(
    blob: Seq<u8>,
    claims: Map<u8, u8>,
    interface: u8,
    alternate: u8,
    endpoint: u8,
)
    ensures
        endpoint_in(blob, endpoint, claims.insert(interface, alternate)) matches Some(found)
            ==> found.interface == interface ==> found.alternate == alternate,
{
    law_found_endpoint_is_claimed(blob, endpoint, claims.insert(interface, alternate));
}

/// Without a claim no transfer on an endpoint starts.
pub proof fn law_no_transfer_without_claim(
    file: UsbDeviceFile,
    endpoint: u8,
    transfer_type: EndpointTransferType,
    data: usize,
    len: usize,
    end: TransferEnd,
)
    requires
        file.claimed_interfaces@ == Map::<u8, u8>::empty(),
    ensures
        file.transfer_step(endpoint, transfer_type, data, len, end) == UsbStep::Done(
            Err(UsbError::OperationNotPermitted),
        ),
{
    law_no_claim_no_endpoint(file.snapshot.descriptor_blob@, endpoint);
}

/// Whether a transfer goes to an endpoint of a claimed setting that the device
/// has, as the kind of transfer that its descriptor names.
pub open spec fn permitted(file: UsbDeviceFile, transfer: EndpointTransfer) -> bool {
    &&& file.claimed_interfaces@.contains_key(transfer.interface)
    &&& file.claimed_interfaces@[transfer.interface] == transfer.alternate
    &&& has_interface(file.snapshot.descriptor_blob@, transfer.interface, transfer.alternate)
    &&& file.endpoint(transfer.endpoint) == Some(
        ClaimedEndpoint {
            interface: transfer.interface,
            alternate: transfer.alternate,
            transfer_type: transfer.transfer_type,
        },
    )
}

/// Every transfer that starts is a permitted one.
pub proof fn law_transfers_permitted(
    file: UsbDeviceFile,
    endpoint: u8,
    transfer_type: EndpointTransferType,
    data: usize,
    len: usize,
    end: TransferEnd,
)
    ensures
        match file.transfer_step(endpoint, transfer_type, data, len, end) {
            UsbStep::Done(result) => result is Err,
            UsbStep::Acquire { then: LeaseUse::Transfer { transfer } } => permitted(file, transfer),
            UsbStep::ClaimForTransfer { transfer } => permitted(file, transfer),
            _ => false,
        },
{
    law_found_endpoint_is_claimed(
        file.snapshot.descriptor_blob@,
        endpoint,
        file.claimed_interfaces@,
    );
}

/// A device is acquired at most once: when it has been, no use of it asks for
/// it again.
pub proof fn law_acquired_once(file: UsbDeviceFile, used: LeaseUse)
    requires
        file.has_lease,
    ensures
        !(file.live_step(used) is Acquire),
{
}

/// The actual length of a packet fits its descriptor: nothing is cut off.
pub proof fn law_packet_share_fits(descs: Seq<u32>, actual: usize, at: int)
    requires
        0 <= at < descs.len(),
    ensures
        packet_share(sizes(descs), actual, at) as u32 == packet_share(sizes(descs), actual, at),
        packet_share(sizes(descs), actual, at) <= descs[at],
{
    assert(sizes(descs)[at] == descs[at]);
}

/// An endpoint address from 128 on names an IN endpoint, a smaller one an OUT
/// endpoint; adding 128 turns the direction of an endpoint round.
pub proof fn law_direction_in_top_bit(number: u8)
    requires
        number < 128,
    ensures
        !is_in_endpoint(number),
        is_in_endpoint((number + 128) as u8),
{
    lemma_top_bit(number);
    lemma_top_bit((number + 128) as u8);
}

/// The device is acquired before its first use, which is kept for afterwards;
/// an acquired device is used at once, for what was asked.
pub proof fn law_device_used_as_asked(
    file: UsbDeviceFile,
    interface: u8,
    alternate: u8,
    cmd: u32,
    arg: usize,
    control: ControlTransfer,
    transfer: EndpointTransfer,
)
    ensures
        !file.has_lease ==> forall|used: LeaseUse| #[trigger]
            file.live_step(used) == (UsbStep::Acquire { then: used }),
        file.has_lease ==> forall|used: LeaseUse| #[trigger]
            file.live_step(used) == lease_step(used),
        lease_step(LeaseUse::Claim { interface, alternate }) == (UsbStep::ClaimInterface {
            interface,
            alternate,
        }),
        lease_step(LeaseUse::Ioctl { cmd, arg }) == (UsbStep::LeaseIoctl { cmd, arg }),
        lease_step(LeaseUse::Control { transfer: control }) == (UsbStep::ControlTransfer {
            transfer: control,
        }),
        lease_step(LeaseUse::Transfer { transfer }) == (UsbStep::ClaimForTransfer { transfer }),
{
}

/// The user may claim exactly the settings that the device has, and the device
/// is asked for the very setting.
pub proof fn law_claim_of_existing_setting(file: UsbDeviceFile, interface: u8, alternate: u8)
    ensures
        !has_interface(file.snapshot.descriptor_blob@, interface, alternate) <==> file.claim_step(
            interface,
            alternate,
        ) == UsbStep::Done(Err(UsbError::NotFound)),
        has_interface(file.snapshot.descriptor_blob@, interface, alternate) && file.has_lease
            ==> file.claim_step(interface, alternate) == (UsbStep::ClaimInterface {
            interface,
            alternate,
        }),
        has_interface(file.snapshot.descriptor_blob@, interface, alternate) && !file.has_lease
            ==> file.claim_step(interface, alternate) == (UsbStep::Acquire {
            then: LeaseUse::Claim { interface, alternate },
        }),
{
}

/// A transfer needs an endpoint of a claimed setting, which has to be of the
/// kind of the transfer; the transfer then starts as it was asked for.
pub proof fn law_transfer_as_asked(
    file: UsbDeviceFile,
    endpoint: u8,
    transfer_type: EndpointTransferType,
    data: usize,
    len: usize,
    end: TransferEnd,
)
    ensures
        ({
            let found = endpoint_in(
                file.snapshot.descriptor_blob@,
                endpoint,
                file.claimed_interfaces@,
            );
            let step = file.transfer_step(endpoint, transfer_type, data, len, end);
            let transfer = EndpointTransfer {
                endpoint,
                transfer_type,
                interface: found->Some_0.interface,
                alternate: found->Some_0.alternate,
                data,
                len,
                end,
            };
            let usable = found is Some && found->Some_0.transfer_type == transfer_type;
            &&& found is None <==> step == UsbStep::Done(Err(UsbError::OperationNotPermitted))
            &&& found is Some && !usable <==> step == UsbStep::Done(Err(UsbError::InvalidInput))
            &&& usable && file.has_lease ==> step == (UsbStep::ClaimForTransfer { transfer })
            &&& usable && !file.has_lease ==> step == (UsbStep::Acquire {
                then: LeaseUse::Transfer { transfer },
            })
        }),
{
}

/// A setup packet holds the request type, the request, and then three numbers
/// with their low bytes first: the value, the index, and the length.
pub proof fn law_setup_packet_fields(urb_ptr: usize, buffer: usize, setup: Seq<u8>)
    requires
        setup.len() >= 8,
    ensures
        ({
            let transfer = control_transfer(urb_ptr, buffer, setup);
            &&& transfer.urb_ptr == urb_ptr
            &&& transfer.buffer == buffer
            &&& transfer.request_type == setup[0]
            &&& transfer.request == setup[1]
            &&& transfer.value == setup[2] + 256 * setup[3]
            &&& transfer.index == setup[4] + 256 * setup[5]
            &&& transfer.length == setup[6] + 256 * setup[7]
        }),
{
}

/// An isochronous URB may have the flags 1 and 2 and no others, and may name a
/// start frame only with the flag 2.
pub proof fn law_iso_flags(urb: UsbdevfsUrb)
    ensures
        supported_iso_start(urb) <==> urb.flags < 4 && (urb.flags == 2 || urb.flags == 3
            || urb.start_frame == 0),
{
    let flags = urb.flags;
    assert(flags & !(2u32 | 1u32) == 0 <==> flags < 4) by (bit_vector);
    assert(flags < 4 ==> (flags & 2u32 != 0 <==> flags == 2 || flags == 3)) by (bit_vector);
    assert(USBDEVFS_URB_ISO_ASAP == 2 && USBDEVFS_URB_SHORT_NOT_OK == 1);
}

/// An URB is submitted by its type: 0 is isochronous, 1 interrupt, 2 control
/// and 3 bulk; no other type is supported.
pub proof fn law_urb_goes_by_its_type(file: UsbDeviceFile, arg: usize, urb: UsbdevfsUrb)
    ensures
        ({
            let step = file.urb_step(arg, UrbUse::Dispatch, urb);
            &&& urb.type_ == 0 ==> step == (UsbStep::ReadUrb { arg, purpose: UrbUse::Iso })
            &&& urb.type_ == 1 ==> step == (UsbStep::ReadUrb { arg, purpose: UrbUse::Interrupt })
            &&& urb.type_ == 2 ==> step == (UsbStep::ReadUrb { arg, purpose: UrbUse::Control })
            &&& urb.type_ == 3 ==> step == (UsbStep::ReadUrb { arg, purpose: UrbUse::Bulk })
            &&& urb.type_ > 3 ==> step == UsbStep::Done(Err(UsbError::Unsupported))
        }),
{
}

/// An URB whose type changed since it was looked at is not submitted.
pub proof fn law_changed_urb_refused(file: UsbDeviceFile, arg: usize, urb: UsbdevfsUrb)
    ensures
        urb.type_ != 0 ==> file.urb_step(arg, UrbUse::Iso, urb) == UsbStep::Done(
            Err(UsbError::Unsupported),
        ),
        urb.type_ != 1 ==> file.urb_step(arg, UrbUse::Interrupt, urb) == UsbStep::Done(
            Err(UsbError::Unsupported),
        ),
        urb.type_ != 2 ==> file.urb_step(arg, UrbUse::Control, urb) == UsbStep::Done(
            Err(UsbError::Unsupported),
        ),
        urb.type_ != 3 ==> file.urb_step(arg, UrbUse::Bulk, urb) == UsbStep::Done(
            Err(UsbError::Unsupported),
        ),
{
}

/// A control URB needs room for a setup packet of eight bytes, and its whole
/// buffer is read.
pub proof fn law_control_urb_needs_setup(file: UsbDeviceFile, arg: usize, urb: UsbdevfsUrb)
    requires
        urb.type_ == 2,
    ensures
        urb.buffer_length < 8 ==> file.urb_step(arg, UrbUse::Control, urb) == UsbStep::Done(
            Err(UsbError::InvalidInput),
        ),
        urb.buffer_length >= 8 ==> file.urb_step(arg, UrbUse::Control, urb) == (
        UsbStep::ReadSetup {
            urb_ptr: arg,
            buffer: urb.buffer,
            len: urb.buffer_length as usize,
        }),
{
}

/// A bulk or an interrupt URB of no negative length is a transfer of that kind
/// on its endpoint, of its whole buffer, and completes the URB.
pub proof fn law_stream_urb_is_transfer(file: UsbDeviceFile, arg: usize, urb: UsbdevfsUrb)
    requires
        urb.type_ == 1 || urb.type_ == 3,
    ensures
        ({
            let bulk = urb.type_ == 3;
            let purpose = if bulk {
                UrbUse::Bulk
            } else {
                UrbUse::Interrupt
            };
            let transfer_type = if bulk {
                EndpointTransferType::Bulk
            } else {
                EndpointTransferType::Interrupt
            };
            let step = file.urb_step(arg, purpose, urb);
            &&& urb.buffer_length < 0 ==> step == UsbStep::Done(Err(UsbError::InvalidInput))
            &&& urb.buffer_length >= 0 ==> step == file.transfer_step(
                urb.endpoint,
                transfer_type,
                urb.buffer,
                urb.buffer_length as usize,
                TransferEnd::Urb { urb_ptr: arg },
            )
        }),
{
}

/// An isochronous URB has a packet at least, no negative length, and flags that
/// are supported; its packet descriptors are read right behind it, 56 bytes
/// from its start.
pub proof fn law_iso_urb_reads_packets(file: UsbDeviceFile, arg: usize, urb: UsbdevfsUrb)
    requires
        urb.type_ == 0,
    ensures
        ({
            let step = file.urb_step(arg, UrbUse::Iso, urb);
            let sized = urb.buffer_length >= 0 && urb.number_of_packets > 0;
            let flagged = urb.flags < 4 && (urb.flags == 2 || urb.flags == 3 || urb.start_frame
                == 0);
            &&& !sized ==> step == UsbStep::Done(Err(UsbError::InvalidInput))
            &&& sized && !flagged ==> step == UsbStep::Done(Err(UsbError::Unsupported))
            &&& sized && flagged && arg > usize::MAX - 56 ==> step == UsbStep::Done(
                Err(UsbError::OutOfRange),
            )
            &&& sized && flagged && arg <= usize::MAX - 56 ==> step == (UsbStep::ReadPackets {
                urb_ptr: arg,
                endpoint: urb.endpoint,
                buffer: urb.buffer,
                buffer_length: urb.buffer_length as usize,
                address: (arg + 56) as usize,
                count: urb.number_of_packets as usize,
            })
        }),
{
    law_iso_flags(urb);
}

/// Each request is served by its number; a request that has no place here goes
/// to the device as it came.
pub proof fn law_request_served_by_number(file: UsbDeviceFile, cmd: u32, arg: usize)
    ensures
        ({
            let step = file.request_step(cmd, arg);
            let control = cmd == request_number(3, 24, 0);
            let bulk = cmd == request_number(3, 24, 2);
            let set = cmd == request_number(2, 8, 4);
            let submit = cmd == request_number(2, 56, 10);
            let reap = cmd == request_number(1, 8, 12) || cmd == request_number(1, 8, 13);
            let claim = cmd == request_number(2, 4, 15);
            let release = cmd == request_number(2, 4, 16);
            let other = !control && !bulk && !set && !submit && !reap && !claim && !release;
            &&& (control || other) && file.has_lease ==> step == (UsbStep::LeaseIoctl { cmd, arg })
            &&& control && !file.has_lease ==> step == (UsbStep::SnapshotIoctl { cmd, arg })
            &&& other && !file.has_lease ==> step == (UsbStep::Acquire {
                then: LeaseUse::Ioctl { cmd, arg },
            })
            &&& bulk ==> step == (UsbStep::ReadBulk { arg })
            &&& set ==> step == (UsbStep::ReadSetInterface { arg })
            &&& submit ==> step == (UsbStep::ReadUrb { arg, purpose: UrbUse::Dispatch })
            &&& claim ==> step == (UsbStep::ReadInterface { arg, purpose: InterfaceUse::Claim })
            &&& release ==> step == (UsbStep::ReadInterface {
                arg,
                purpose: InterfaceUse::Release,
            })
            &&& reap && file.pending_urbs@.len() == 0 ==> step == UsbStep::Done(
                Err(UsbError::WouldBlock),
            )
            &&& reap && file.pending_urbs@.len() > 0 ==> step == (UsbStep::WriteReaped {
                arg,
                urb_ptr: file.pending_urbs@[0].user_urb_ptr,
            })
        }),
{
    law_request_numbers();
}

/// A transfer of a request returns how much was transferred, and one of an URB
/// writes it to the URB.
pub proof fn law_transfer_reports_actual(
    urb_ptr: usize,
    actual: usize,
    returned: UsbStep,
    written: UsbStep,
)
    requires
        is_transfer_end(TransferEnd::Request, actual, returned),
        is_transfer_end(TransferEnd::Urb { urb_ptr }, actual, written),
        actual <= i32::MAX,
    ensures
        returned == UsbStep::Done(Ok(actual)),
        written is WriteUrb,
        written->WriteUrb_urb_ptr == urb_ptr,
        written->actual_length == actual,
        !written->clear_error_count,
{
}

/// An isochronous transfer writes to the descriptor of each packet what came
/// for that packet: all that came, in the order of the packets.
pub proof fn law_iso_transfer_reports_packets(
    urb_ptr: usize,
    packet_lengths: Vec<usize>,
    actual: usize,
    step: UsbStep,
    at: int,
)
    requires
        is_transfer_end(TransferEnd::IsoUrb { urb_ptr, packet_lengths }, actual, step),
        urb_ptr <= usize::MAX - 56,
        0 <= at < packet_lengths@.len(),
        packet_lengths@[at] <= u32::MAX,
    ensures
        step is WritePackets,
        step->WritePackets_urb_ptr == urb_ptr,
        step->WritePackets_address == urb_ptr + 56,
        step->WritePackets_actual == actual,
        step->actual_lengths@.len() == packet_lengths@.len(),
        ({
            let before = total(packet_lengths@.take(at));
            let length = packet_lengths@[at];
            let share = step->actual_lengths@[at];
            &&& actual >= before + length ==> share == length
            &&& before <= actual <= before + length ==> share == actual - before
            &&& actual <= before ==> share == 0
        }),
{
    assert(step->actual_lengths@[at] == packet_share(packet_lengths@, actual, at) as u32);
}

/// The address behind an URB that ends at the top of memory is refused.
pub proof fn law_iso_transfer_out_of_range(
    urb_ptr: usize,
    packet_lengths: Vec<usize>,
    actual: usize,
    step: UsbStep,
)
    requires
        is_transfer_end(TransferEnd::IsoUrb { urb_ptr, packet_lengths }, actual, step),
        urb_ptr > usize::MAX - 56,
    ensures
        step == UsbStep::Done(Err(UsbError::OutOfRange)),
{
}

} // verus!
