use std::collections::BTreeMap;

use starry::usbfs::abi::{
    UsbError, UsbdevfsBulkTransfer, UsbdevfsSetInterface, UsbdevfsUrb, USBDEVFS_BULK,
    USBDEVFS_CLAIMINTERFACE, USBDEVFS_CONNECTINFO, USBDEVFS_CONTROL, USBDEVFS_GET_CAPABILITIES,
    USBDEVFS_REAPURB, USBDEVFS_REAPURBNDELAY, USBDEVFS_RELEASEINTERFACE, USBDEVFS_SETINTERFACE,
    USBDEVFS_SUBMITURB, USBDEVFS_URB_ISO_ASAP, USBDEVFS_URB_SHORT_NOT_OK, USBDEVFS_URB_SIZE,
    USBDEVFS_URB_TYPE_BULK, USBDEVFS_URB_TYPE_CONTROL, USBDEVFS_URB_TYPE_INTERRUPT,
    USBDEVFS_URB_TYPE_ISO,
};
use starry::usbfs::descriptors::{
    snapshot_claimed_endpoint, snapshot_has_interface, ClaimedEndpoint, EndpointTransferType,
    UsbDeviceSnapshot,
};
use starry::usbfs::file::{
    ControlTransfer, EndpointTransfer, InterfaceUse, LeaseUse, PendingUrb, TransferEnd, UrbUse,
    UsbDeviceFile, UsbStep,
};
use starry::usbfs::iso::{
    read_iso_packet_lengths, total_length, usbdevfs_iso_packet_descs_address,
    write_iso_packet_results,
};
use starry::usbfs::mount::{
    finish_open, new_usbfs, open_usbfs_file, should_spawn_refresh, UsbDeviceOps, UsbfsMount,
};

fn interface(number: u8, alternate: u8) -> Vec<u8> {
    vec![9, 4, number, alternate, 0, 0, 0, 0, 0]
}

fn endpoint(address: u8, attributes: u8) -> Vec<u8> {
    vec![7, 5, address, attributes, 0, 0, 0]
}

fn snapshot(descriptors: &[Vec<u8>]) -> UsbDeviceSnapshot {
    let mut descriptor_blob = vec![0u8; 18];
    for descriptor in descriptors {
        descriptor_blob.extend_from_slice(descriptor);
    }
    UsbDeviceSnapshot { descriptor_blob }
}

/// A bulk interface 0, and an interface 1 whose setting 1 has endpoints.
fn device() -> UsbDeviceSnapshot {
    snapshot(&[
        vec![9, 2, 0, 0, 2, 1, 0, 0, 0],
        interface(0, 0),
        endpoint(0x81, 2),
        endpoint(0x02, 2),
        interface(1, 0),
        interface(1, 1),
        endpoint(0x83, 3),
        endpoint(0x04, 1),
        endpoint(0x05, 0),
    ])
}

fn file() -> UsbDeviceFile {
    finish_open(UsbDeviceOps { bus_num: 1, device_num: 2 }, Some(device()))
        .ok()
        .unwrap()
}

fn claimed_file() -> UsbDeviceFile {
    let mut file = file();
    file.has_lease = true;
    assert!(matches!(file.after_claim_interface(0, 0, Ok(())), UsbStep::Done(Ok(0))));
    assert!(matches!(file.after_claim_interface(1, 1, Ok(())), UsbStep::Done(Ok(0))));
    file
}

fn urb(type_: u8, endpoint: u8) -> UsbdevfsUrb {
    UsbdevfsUrb {
        type_,
        endpoint,
        flags: 0,
        buffer: 0x1000,
        buffer_length: 64,
        start_frame: 0,
        number_of_packets: 0,
    }
}

fn fails(step: UsbStep, expected: UsbError) -> bool {
    matches!(step, UsbStep::Done(Err(error)) if error == expected)
}

#[test]
fn interfaces_are_found_by_number_and_setting() {
    let device = device();
    assert!(snapshot_has_interface(&device, 0, 0));
    assert!(snapshot_has_interface(&device, 1, 1));
    assert!(!snapshot_has_interface(&device, 0, 1));
    assert!(!snapshot_has_interface(&device, 2, 0));
    assert!(!snapshot_has_interface(&snapshot(&[]), 0, 0));
    let short = UsbDeviceSnapshot { descriptor_blob: vec![] };
    assert!(!snapshot_has_interface(&short, 0, 0));
}

#[test]
fn broken_descriptor_ends_the_list() {
    let zero = snapshot(&[vec![0, 4], interface(0, 0)]);
    assert!(!snapshot_has_interface(&zero, 0, 0));
    let mut cut = snapshot(&[interface(0, 0)]);
    cut.descriptor_blob.pop();
    assert!(!snapshot_has_interface(&cut, 0, 0));
    let small = snapshot(&[vec![8, 4, 0, 0, 0, 0, 0, 0], interface(1, 0)]);
    assert!(!snapshot_has_interface(&small, 0, 0));
    assert!(snapshot_has_interface(&small, 1, 0));
}

#[test]
fn endpoints_are_found_in_claimed_settings() {
    let device = device();
    let mut claimed = BTreeMap::new();
    assert_eq!(snapshot_claimed_endpoint(&device, 0x81, &claimed), None);
    claimed.insert(0, 0);
    claimed.insert(1, 1);
    let found = |interface: u8, alternate: u8, transfer_type: EndpointTransferType| {
        Some(ClaimedEndpoint { interface, alternate, transfer_type })
    };
    assert_eq!(
        snapshot_claimed_endpoint(&device, 0x81, &claimed),
        found(0, 0, EndpointTransferType::Bulk)
    );
    assert_eq!(
        snapshot_claimed_endpoint(&device, 0x83, &claimed),
        found(1, 1, EndpointTransferType::Interrupt)
    );
    assert_eq!(
        snapshot_claimed_endpoint(&device, 0x04, &claimed),
        found(1, 1, EndpointTransferType::Isochronous)
    );
    assert_eq!(snapshot_claimed_endpoint(&device, 0x05, &claimed), None);
    assert_eq!(snapshot_claimed_endpoint(&device, 0x06, &claimed), None);
    claimed.insert(1, 0);
    assert_eq!(snapshot_claimed_endpoint(&device, 0x83, &claimed), None);
}

#[test]
fn endpoint_in_front_of_all_interfaces_ends_the_search() {
    let device = snapshot(&[endpoint(0x81, 2), interface(0, 0), endpoint(0x81, 2)]);
    let mut claimed = BTreeMap::new();
    claimed.insert(0, 0);
    assert_eq!(snapshot_claimed_endpoint(&device, 0x81, &claimed), None);
}

#[test]
fn mount_initializes_the_hosts_once() {
    assert_eq!(new_usbfs(false), UsbfsMount::Initialize);
    assert_eq!(new_usbfs(true), UsbfsMount::Reuse);
    assert!(!should_spawn_refresh(0));
    assert!(should_spawn_refresh(1));
}

#[test]
fn only_devices_that_are_there_are_opened() {
    let ops = UsbDeviceOps { bus_num: 1, device_num: 2 };
    assert_eq!(open_usbfs_file(None, true), Err(UsbError::InvalidInput));
    assert_eq!(open_usbfs_file(Some(ops), false), Err(UsbError::NoSuchDevice));
    assert_eq!(open_usbfs_file(Some(ops), true), Ok(ops));
    assert_eq!(finish_open(ops, None).err(), Some(UsbError::NoSuchDevice));
    let file = file();
    assert_eq!((file.bus_num, file.device_num), (1, 2));
    assert_eq!(file.snapshot, device());
    assert!(!file.has_lease);
    assert!(file.claimed_interfaces.is_empty());
    assert!(file.pending_urbs.is_empty());
}

#[test]
fn requests_are_dispatched() {
    let mut file = file();
    assert!(matches!(
        file.ioctl(USBDEVFS_CONTROL, 8),
        UsbStep::SnapshotIoctl { cmd: USBDEVFS_CONTROL, arg: 8 }
    ));
    assert!(matches!(
        file.ioctl(USBDEVFS_CLAIMINTERFACE, 8),
        UsbStep::ReadInterface { arg: 8, purpose: InterfaceUse::Claim }
    ));
    assert!(matches!(
        file.ioctl(USBDEVFS_RELEASEINTERFACE, 8),
        UsbStep::ReadInterface { arg: 8, purpose: InterfaceUse::Release }
    ));
    assert!(matches!(
        file.ioctl(USBDEVFS_SETINTERFACE, 8),
        UsbStep::ReadSetInterface { arg: 8 }
    ));
    assert!(matches!(file.ioctl(USBDEVFS_BULK, 8), UsbStep::ReadBulk { arg: 8 }));
    assert!(matches!(
        file.ioctl(USBDEVFS_SUBMITURB, 8),
        UsbStep::ReadUrb { arg: 8, purpose: UrbUse::Dispatch }
    ));
    for cmd in [USBDEVFS_CONNECTINFO, USBDEVFS_GET_CAPABILITIES, 0x5514] {
        assert!(matches!(
            file.ioctl(cmd, 8),
            UsbStep::Acquire { then: LeaseUse::Ioctl { cmd: asked, arg: 8 } } if asked == cmd
        ));
    }
    file.has_lease = true;
    assert!(matches!(
        file.ioctl(USBDEVFS_CONTROL, 8),
        UsbStep::LeaseIoctl { cmd: USBDEVFS_CONTROL, arg: 8 }
    ));
    assert!(matches!(
        file.ioctl(0x5514, 8),
        UsbStep::LeaseIoctl { cmd: 0x5514, arg: 8 }
    ));
}

#[test]
fn device_is_acquired_once() {
    let mut file = file();
    let then = match file.claim_interface(0, 0) {
        UsbStep::Acquire { then } => then,
        _ => panic!("expected to acquire the device"),
    };
    assert!(fails(file.after_acquire(then, Err(UsbError::Outside(-5))), UsbError::Outside(-5)));
    assert!(!file.has_lease);
    let then = match file.claim_interface(0, 0) {
        UsbStep::Acquire { then } => then,
        _ => panic!("expected to acquire the device"),
    };
    assert!(matches!(
        file.after_acquire(then, Ok(())),
        UsbStep::ClaimInterface { interface: 0, alternate: 0 }
    ));
    assert!(file.has_lease);
    assert!(matches!(
        file.with_live_lease(LeaseUse::Ioctl { cmd: 1, arg: 2 }),
        UsbStep::LeaseIoctl { cmd: 1, arg: 2 }
    ));
}

#[test]
fn interfaces_are_claimed_and_released() {
    let mut file = file();
    file.has_lease = true;
    assert!(fails(file.claim_interface(3, 0), UsbError::NotFound));
    assert!(fails(
        file.after_read_interface(InterfaceUse::Claim, Ok(256)),
        UsbError::InvalidInput
    ));
    assert!(fails(
        file.after_read_interface(InterfaceUse::Claim, Err(UsbError::Outside(-14))),
        UsbError::Outside(-14)
    ));
    assert!(matches!(
        file.after_read_interface(InterfaceUse::Claim, Ok(0)),
        UsbStep::ClaimInterface { interface: 0, alternate: 0 }
    ));
    assert!(fails(
        file.after_claim_interface(0, 0, Err(UsbError::Outside(-16))),
        UsbError::Outside(-16)
    ));
    assert!(file.claimed_interfaces.is_empty());
    assert!(matches!(file.after_claim_interface(0, 0, Ok(())), UsbStep::Done(Ok(0))));
    assert_eq!(file.claimed_interfaces.get(&0), Some(&0));
    assert!(file.claimed_endpoint(0x81).is_ok());

    let set = |interface: u32, altsetting: u32| UsbdevfsSetInterface { interface, altsetting };
    assert!(matches!(
        file.after_read_set_interface(Ok(set(1, 1))),
        UsbStep::ClaimInterface { interface: 1, alternate: 1 }
    ));
    assert!(fails(file.after_read_set_interface(Ok(set(1, 2))), UsbError::NotFound));
    assert!(fails(file.after_read_set_interface(Ok(set(1, 256))), UsbError::InvalidInput));
    assert!(fails(file.after_read_set_interface(Ok(set(256, 1))), UsbError::InvalidInput));
    assert!(fails(
        file.after_read_set_interface(Err(UsbError::Outside(-14))),
        UsbError::Outside(-14)
    ));

    assert!(matches!(
        file.after_read_interface(InterfaceUse::Release, Ok(0)),
        UsbStep::Done(Ok(0))
    ));
    assert!(file.claimed_interfaces.is_empty());
    assert_eq!(file.claimed_endpoint(0x81), Err(UsbError::OperationNotPermitted));
    assert!(matches!(file.release_interface(0), UsbStep::Done(Ok(0))));
}

#[test]
fn claiming_another_setting_replaces_the_former() {
    let mut file = claimed_file();
    assert!(file.claimed_endpoint(0x83).is_ok());
    file.after_claim_interface(1, 0, Ok(()));
    assert_eq!(file.claimed_endpoint(0x83), Err(UsbError::OperationNotPermitted));
    assert_eq!(file.claimed_interfaces.len(), 2);
}

fn bulk(ep: u32) -> UsbdevfsBulkTransfer {
    UsbdevfsBulkTransfer { ep, len: 8, data: 0x2000 }
}

fn transfer(step: UsbStep) -> EndpointTransfer {
    match step {
        UsbStep::ClaimForTransfer { transfer } => transfer,
        _ => panic!("expected a transfer"),
    }
}

#[test]
fn bulk_in_copies_what_came() {
    let file = claimed_file();
    let started = transfer(file.bulk_ioctl(Ok(bulk(0x81))));
    assert_eq!(
        (started.endpoint, started.interface, started.alternate, started.data, started.len),
        (0x81, 0, 0, 0x2000, 8)
    );
    let (started, mut buffer) = match file.after_claim_for_transfer(started, Ok(())) {
        UsbStep::TransferIn { transfer, buffer } => (transfer, buffer),
        _ => panic!("expected an IN transfer"),
    };
    assert_eq!(buffer, vec![0; 8]);
    buffer[..6].copy_from_slice(&[1, 2, 3, 4, 5, 6]);
    let (started, bytes) = match file.after_transfer_in(started, buffer, Ok(5)) {
        UsbStep::WriteData { transfer, bytes } => (transfer, bytes),
        _ => panic!("expected data"),
    };
    assert_eq!(bytes, vec![1, 2, 3, 4, 5]);
    assert!(matches!(file.after_write_data(started, 5, Ok(())), UsbStep::Done(Ok(5))));
    let again = || transfer(file.bulk_ioctl(Ok(bulk(0x81))));
    assert!(matches!(file.after_transfer_in(again(), vec![0; 8], Ok(0)), UsbStep::Done(Ok(0))));
    assert!(fails(file.after_transfer_in(again(), vec![0; 8], Ok(9)), UsbError::InvalidData));
    assert!(fails(
        file.after_transfer_in(again(), vec![0; 8], Err(UsbError::Outside(-5))),
        UsbError::Outside(-5)
    ));
    assert!(fails(
        file.after_write_data(again(), 5, Err(UsbError::Outside(-14))),
        UsbError::Outside(-14)
    ));
    assert!(fails(
        file.after_claim_for_transfer(again(), Err(UsbError::Outside(-16))),
        UsbError::Outside(-16)
    ));
}

#[test]
fn bulk_out_reads_before_it_sends() {
    let file = claimed_file();
    let started = transfer(file.bulk_ioctl(Ok(bulk(0x02))));
    let started = match file.after_claim_for_transfer(started, Ok(())) {
        UsbStep::ReadData { transfer } => transfer,
        _ => panic!("expected to read the data"),
    };
    let started = match file.after_read_data(started, Ok(vec![7; 8])) {
        UsbStep::TransferOut { transfer, data } if data == vec![7; 8] => transfer,
        _ => panic!("expected an OUT transfer"),
    };
    assert!(matches!(file.after_transfer_out(started, Ok(8)), UsbStep::Done(Ok(8))));
    let again = || transfer(file.bulk_ioctl(Ok(bulk(0x02))));
    assert!(fails(
        file.after_read_data(again(), Err(UsbError::Outside(-14))),
        UsbError::Outside(-14)
    ));
    assert!(fails(
        file.after_transfer_out(again(), Err(UsbError::Outside(-5))),
        UsbError::Outside(-5)
    ));
}

#[test]
fn bulk_needs_a_claimed_bulk_endpoint() {
    let file = claimed_file();
    assert!(fails(file.bulk_ioctl(Ok(bulk(0x181))), UsbError::InvalidInput));
    assert!(fails(file.bulk_ioctl(Ok(bulk(0x83))), UsbError::InvalidInput));
    assert!(fails(file.bulk_ioctl(Ok(bulk(0x86))), UsbError::OperationNotPermitted));
    assert!(fails(
        file.bulk_ioctl(Err(UsbError::Outside(-14))),
        UsbError::Outside(-14)
    ));
}

#[test]
fn urbs_are_read_again_as_their_type() {
    let file = claimed_file();
    for (type_, purpose) in [
        (USBDEVFS_URB_TYPE_CONTROL, UrbUse::Control),
        (USBDEVFS_URB_TYPE_BULK, UrbUse::Bulk),
        (USBDEVFS_URB_TYPE_INTERRUPT, UrbUse::Interrupt),
        (USBDEVFS_URB_TYPE_ISO, UrbUse::Iso),
    ] {
        assert!(matches!(
            file.submit_urb(16, UrbUse::Dispatch, Ok(urb(type_, 0x81))),
            UsbStep::ReadUrb { arg: 16, purpose: next } if next == purpose
        ));
        let other = if type_ == 0 { 1 } else { 0 };
        assert!(fails(
            file.submit_urb(16, purpose, Ok(urb(other, 0x81))),
            UsbError::Unsupported
        ));
    }
    assert!(fails(
        file.submit_urb(16, UrbUse::Dispatch, Ok(urb(4, 0x81))),
        UsbError::Unsupported
    ));
    assert!(fails(
        file.submit_urb(16, UrbUse::Bulk, Err(UsbError::Outside(-14))),
        UsbError::Outside(-14)
    ));
}

#[test]
fn control_urb_sends_its_setup_packet() {
    let mut file = claimed_file();
    let control = urb(USBDEVFS_URB_TYPE_CONTROL, 0);
    assert!(matches!(
        file.submit_urb(16, UrbUse::Control, Ok(control)),
        UsbStep::ReadSetup { urb_ptr: 16, buffer: 0x1000, len: 64 }
    ));
    let mut small = control;
    small.buffer_length = 7;
    assert!(fails(file.submit_control_urb(16, small), UsbError::InvalidInput));
    small.buffer_length = -1;
    assert!(fails(file.submit_control_urb(16, small), UsbError::InvalidInput));

    let setup = vec![0x80, 6, 0x02, 0x01, 0x04, 0x03, 2, 0, 0xaa, 0xbb];
    let asked = match file.after_read_setup(16, 0x1000, Ok(setup.clone())) {
        UsbStep::ControlTransfer { transfer } => transfer,
        _ => panic!("expected a control transfer"),
    };
    assert_eq!(
        asked,
        ControlTransfer {
            urb_ptr: 16,
            request_type: 0x80,
            request: 6,
            value: 0x0102,
            index: 0x0304,
            buffer: 0x1000,
            length: 2,
        }
    );
    assert!(fails(
        file.after_read_setup(16, 0x1000, Ok(setup[..9].to_vec())),
        UsbError::InvalidInput
    ));
    assert!(fails(
        file.after_read_setup(16, 0x1000, Err(UsbError::Outside(-14))),
        UsbError::Outside(-14)
    ));
    assert!(fails(
        file.after_control_transfer(asked, Err(UsbError::Outside(-32))),
        UsbError::Outside(-32)
    ));
    assert!(matches!(
        file.after_control_transfer(asked, Ok(2)),
        UsbStep::WriteUrb { urb_ptr: 16, actual_length: 2, clear_error_count: false }
    ));
    assert!(matches!(file.after_write_urb(16), UsbStep::Done(Ok(0))));
    assert_eq!(file.pending_urbs.len(), 1);
}

#[test]
fn stream_urbs_are_completed_with_their_length() {
    let file = claimed_file();
    let started = transfer(file.submit_urb(
        16,
        UrbUse::Bulk,
        Ok(urb(USBDEVFS_URB_TYPE_BULK, 0x02)),
    ));
    assert_eq!((started.data, started.len), (0x1000, 64));
    assert!(matches!(
        file.after_transfer_out(started, Ok(64)),
        UsbStep::WriteUrb { urb_ptr: 16, actual_length: 64, clear_error_count: false }
    ));
    let started = transfer(file.submit_interrupt_urb(
        24,
        urb(USBDEVFS_URB_TYPE_INTERRUPT, 0x83),
    ));
    assert!(started.transfer_type == EndpointTransferType::Interrupt);
    assert!(matches!(
        file.after_transfer_in(started, vec![0; 64], Ok(0)),
        UsbStep::WriteUrb { urb_ptr: 24, actual_length: 0, clear_error_count: false }
    ));
    let mut negative = urb(USBDEVFS_URB_TYPE_BULK, 0x02);
    negative.buffer_length = -1;
    assert!(fails(file.submit_bulk_urb(16, negative), UsbError::InvalidInput));
    negative.type_ = USBDEVFS_URB_TYPE_INTERRUPT;
    assert!(fails(file.submit_interrupt_urb(16, negative), UsbError::InvalidInput));
    assert!(fails(
        file.submit_interrupt_urb(16, urb(USBDEVFS_URB_TYPE_INTERRUPT, 0x02)),
        UsbError::InvalidInput
    ));
}

fn iso() -> UsbdevfsUrb {
    let mut iso = urb(USBDEVFS_URB_TYPE_ISO, 0x04);
    iso.number_of_packets = 3;
    iso
}

#[test]
fn iso_urb_goes_packet_by_packet() {
    let file = claimed_file();
    assert!(matches!(
        file.submit_urb(0x100, UrbUse::Iso, Ok(iso())),
        UsbStep::ReadPackets {
            urb_ptr: 0x100,
            endpoint: 0x04,
            buffer: 0x1000,
            buffer_length: 64,
            address: 0x138,
            count: 3,
        }
    ));
    let started = transfer(file.after_read_packets(0x100, 0x04, 0x1000, 64, Ok(vec![10, 20, 5])));
    assert_eq!(started.len, 35);
    assert!(started.transfer_type == EndpointTransferType::Isochronous);
    assert!(matches!(
        &started.end,
        TransferEnd::IsoUrb { urb_ptr: 0x100, packet_lengths } if *packet_lengths == vec![10, 20, 5]
    ));
    match file.after_transfer_out(started, Ok(25)) {
        UsbStep::WritePackets { urb_ptr: 0x100, address: 0x138, actual_lengths, actual: 25 } => {
            assert_eq!(actual_lengths, vec![10, 15, 0])
        }
        _ => panic!("expected packets"),
    }
    assert!(matches!(
        file.after_write_packets(0x100, 25, Ok(())),
        UsbStep::WriteUrb { urb_ptr: 0x100, actual_length: 25, clear_error_count: true }
    ));
    assert!(fails(
        file.after_write_packets(0x100, 25, Err(UsbError::Outside(-14))),
        UsbError::Outside(-14)
    ));
    assert!(fails(
        file.after_read_packets(0x100, 0x04, 0x1000, 34, Ok(vec![10, 20, 5])),
        UsbError::InvalidInput
    ));
    assert!(fails(
        file.after_read_packets(0x100, 0x04, 0x1000, 64, Err(UsbError::Outside(-14))),
        UsbError::Outside(-14)
    ));
}

#[test]
fn iso_urb_has_to_be_supported() {
    let file = claimed_file();
    let submit = |urb: UsbdevfsUrb| file.submit_iso_urb(0x100, urb);
    let mut odd = iso();
    odd.number_of_packets = 0;
    assert!(fails(submit(odd), UsbError::InvalidInput));
    let mut odd = iso();
    odd.buffer_length = -1;
    assert!(fails(submit(odd), UsbError::InvalidInput));
    let mut odd = iso();
    odd.flags = 0x40;
    assert!(fails(submit(odd), UsbError::Unsupported));
    let mut odd = iso();
    odd.start_frame = 7;
    assert!(fails(submit(odd), UsbError::Unsupported));
    odd.flags = USBDEVFS_URB_ISO_ASAP | USBDEVFS_URB_SHORT_NOT_OK;
    assert!(matches!(submit(odd), UsbStep::ReadPackets { .. }));
    assert!(fails(
        file.submit_iso_urb(usize::MAX - 55, iso()),
        UsbError::OutOfRange
    ));
    assert!(matches!(
        file.submit_iso_urb(usize::MAX - 56, iso()),
        UsbStep::ReadPackets { address: usize::MAX, .. }
    ));
}

#[test]
fn packets_are_filled_in_order() {
    assert_eq!(read_iso_packet_lengths(&[3, 4]), Ok(vec![3, 4]));
    assert_eq!(total_length(&[3, 4]), Ok(7));
    assert_eq!(total_length(&[usize::MAX, 1]), Err(UsbError::OutOfRange));
    assert_eq!(write_iso_packet_results(&[3, 4, 5], 0), vec![0, 0, 0]);
    assert_eq!(write_iso_packet_results(&[3, 4, 5], 8), vec![3, 4, 1]);
    assert_eq!(write_iso_packet_results(&[3, 4, 5], 100), vec![3, 4, 5]);
    assert_eq!(usbdevfs_iso_packet_descs_address(0), Ok(USBDEVFS_URB_SIZE));
}

#[test]
fn urbs_are_reaped_in_order() {
    let mut file = claimed_file();
    assert!(fails(file.ioctl(USBDEVFS_REAPURB, 8), UsbError::WouldBlock));
    for urb_ptr in [16, 32, 48] {
        file.after_write_urb(urb_ptr);
    }
    assert!(matches!(
        file.ioctl(USBDEVFS_REAPURB, 8),
        UsbStep::WriteReaped { arg: 8, urb_ptr: 16 }
    ));
    assert!(matches!(file.after_write_reaped(Ok(())), UsbStep::Done(Ok(0))));
    assert!(matches!(
        file.ioctl(USBDEVFS_REAPURBNDELAY, 8),
        UsbStep::WriteReaped { arg: 8, urb_ptr: 32 }
    ));
    assert!(fails(
        file.after_write_reaped(Err(UsbError::Outside(-14))),
        UsbError::Outside(-14)
    ));
    assert_eq!(file.pending_urbs.front(), Some(&PendingUrb { user_urb_ptr: 48 }));
    assert!(matches!(file.reap_urb(8), UsbStep::WriteReaped { arg: 8, urb_ptr: 48 }));
    assert!(fails(file.reap_urb(8), UsbError::WouldBlock));
}

#[test]
fn file_is_readable_while_an_urb_waits() {
    let mut file = claimed_file();
    assert_eq!(file.poll(), axpoll::IoEvents::OUT.bits());
    file.after_write_urb(16);
    assert_eq!(
        file.poll(),
        (axpoll::IoEvents::OUT | axpoll::IoEvents::IN).bits()
    );
    assert_eq!(file.poll(), 5);
    file.reap_urb(8);
    assert_eq!(file.poll(), 4);
}
