//! The descriptors of a USB device: finding interfaces and endpoints.

use vstd::prelude::*;

use std::collections::BTreeMap;

verus! {

/// What is kept of a device when its file is opened: the device descriptor
/// and, behind it, the configuration descriptors.
#[derive(Debug, Clone, PartialEq, Eq)]
pub struct UsbDeviceSnapshot {
    pub descriptor_blob: Vec<u8>,
}

/// The kinds of transfer that an endpoint of an interface can serve.
#[derive(Debug, Clone, Copy, PartialEq, Eq, Structural)]
pub enum EndpointTransferType {
    Bulk,
    Interrupt,
    Isochronous,
}

/// An endpoint of a claimed interface.
#[derive(Debug, Clone, Copy, PartialEq, Eq, Structural)]
pub struct ClaimedEndpoint {
    pub interface: u8,
    pub alternate: u8,
    pub transfer_type: EndpointTransferType,
}

/// The length of the device descriptor, which the others follow.
pub const DEVICE_DESCRIPTOR_LEN: usize = 18;

/// The descriptors from `cursor` on. Each starts with its length and its
/// type; a length below two, or one that runs past the end, ends the list.
pub open spec fn descriptors_from(blob: Seq<u8>, cursor: int) -> Seq<Seq<u8>>
    decreases blob.len() - cursor,
{
    if cursor < 0 || cursor + 2 > blob.len() || blob[cursor] < 2 || cursor + blob[cursor]
        > blob.len() {
        Seq::empty()
    } else {
        seq![blob.subrange(cursor, cursor + blob[cursor])] + descriptors_from(
            blob,
            cursor + blob[cursor],
        )
    }
}

/// The descriptors behind the device descriptor.
pub open spec fn descriptors(blob: Seq<u8>) -> Seq<Seq<u8>> {
    descriptors_from(blob, DEVICE_DESCRIPTOR_LEN as int)
}

/// Whether a descriptor describes an interface.
pub open spec fn is_interface(descriptor: Seq<u8>) -> bool {
    descriptor.len() >= 9 && descriptor[1] == 0x04
}

/// Whether a descriptor describes this alternate setting of this interface.
pub open spec fn describes_interface(descriptor: Seq<u8>, interface: u8, alternate: u8) -> bool {
    is_interface(descriptor) && descriptor[2] == interface && descriptor[3] == alternate
}

/// Whether a descriptor describes the endpoint with this address.
pub open spec fn describes_endpoint(descriptor: Seq<u8>, endpoint: u8) -> bool {
    descriptor.len() >= 7 && descriptor[1] == 0x05 && descriptor[2] == endpoint
}

/// Whether a device has this alternate setting of this interface.
pub open spec fn has_interface(blob: Seq<u8>, interface: u8, alternate: u8) -> bool {
    exists|i: int|
        0 <= i < descriptors(blob).len() && describes_interface(
            #[trigger] descriptors(blob)[i],
            interface,
            alternate,
        )
}

/// The interface, and its alternate setting, to which what follows `list`
/// belongs: that of the last interface descriptor in it.
pub open spec fn current_interface(list: Seq<Seq<u8>>) -> Option<(u8, u8)>
    decreases list.len(),
{
    if list.len() == 0 {
        None
    } else if is_interface(list.last()) {
        Some((list.last()[2], list.last()[3]))
    } else {
        current_interface(list.drop_last())
    }
}

/// The kind of transfer that the attributes of an endpoint name; none for a
/// control endpoint.
pub open spec fn transfer_type_of(attributes: u8) -> Option<EndpointTransferType> {
    if attributes & 0x03 == 1 {
        Some(EndpointTransferType::Isochronous)
    } else if attributes & 0x03 == 2 {
        Some(EndpointTransferType::Bulk)
    } else if attributes & 0x03 == 3 {
        Some(EndpointTransferType::Interrupt)
    } else {
        None
    }
}

/// Whether the search for an endpoint ends at descriptor `at`: it describes
/// the endpoint, and it belongs to a claimed setting or to no interface.
pub open spec fn decides(
    list: Seq<Seq<u8>>,
    endpoint: u8,
    claimed: Map<u8, u8>,
    at: int,
) -> bool {
    &&& 0 <= at < list.len()
    &&& describes_endpoint(list[at], endpoint)
    &&& match current_interface(list.take(at)) {
        Some((interface, alternate)) => claimed.contains_key(interface) && claimed[interface]
            == alternate,
        None => true,
    }
}

/// Whether the search for an endpoint ends at descriptor `at` and not before.
pub open spec fn decides_first(
    list: Seq<Seq<u8>>,
    endpoint: u8,
    claimed: Map<u8, u8>,
    at: int,
) -> bool {
    decides(list, endpoint, claimed, at) && forall|i: int|
        0 <= i < at ==> !#[trigger] decides(list, endpoint, claimed, i)
}

/// What the descriptor at which the search ends says.
pub open spec fn verdict(list: Seq<Seq<u8>>, at: int) -> Option<ClaimedEndpoint> {
    match (current_interface(list.take(at)), transfer_type_of(list[at][3])) {
        (Some((interface, alternate)), Some(transfer_type)) => Some(
            ClaimedEndpoint { interface, alternate, transfer_type },
        ),
        _ => None,
    }
}

/// The endpoint as the claimed interfaces offer it.
pub open spec fn endpoint_in(
    blob: Seq<u8>,
    endpoint: u8,
    claimed: Map<u8, u8>,
) -> Option<ClaimedEndpoint> {
    let list = descriptors(blob);
    if exists|at: int| decides_first(list, endpoint, claimed, at) {
        verdict(list, choose|at: int| decides_first(list, endpoint, claimed, at))
    } else {
        None
    }
}

/// Whether a device has this alternate setting of this interface.
pub fn snapshot_has_interface(
    snapshot: &UsbDeviceSnapshot,
    interface_number: u8,
    alternate_setting: u8,
) -> (found: bool)
    ensures
        found == has_interface(snapshot.descriptor_blob@, interface_number, alternate_setting),
{
    let blob: &Vec<u8> = &snapshot.descriptor_blob;
    let mut cursor: usize = DEVICE_DESCRIPTOR_LEN;
    let ghost list = descriptors(blob@);
    let ghost mut seen: Seq<Seq<u8>> = Seq::empty();
    assert(list =~= seen + descriptors_from(blob@, cursor as int));
    while cursor < blob.len() && blob.len() - cursor >= 2
        invariant
            *blob == snapshot.descriptor_blob,
            list == descriptors(blob@),
            list == seen + descriptors_from(blob@, cursor as int),
            forall|i: int|
                0 <= i < seen.len() ==> !describes_interface(
                    #[trigger] seen[i],
                    interface_number,
                    alternate_setting,
                ),
        decreases blob@.len() - cursor,
    {
        let length: usize = blob[cursor] as usize;
        if length < 2 || length > blob.len() - cursor {
            assert(list =~= seen);
            return false;
        }
        let ghost here = blob@.subrange(cursor as int, cursor + length);
        let ghost rest = descriptors_from(blob@, cursor + length);
        proof {
            assert(descriptors_from(blob@, cursor as int) == seq![here] + rest);
            assert(list =~= seen.push(here) + rest);
            assert(list[seen.len() as int] == here);
        }
        if blob[cursor + 1] == 0x04 && length >= 9 && blob[cursor + 2] == interface_number
            && blob[cursor + 3] == alternate_setting {
            assert(describes_interface(here, interface_number, alternate_setting));
            return true;
        }
        proof {
            seen = seen.push(here);
        }
        cursor = cursor + length;
    }
    assert(list =~= seen);
    false
}

/// Finds the interface, alternate setting and kind of an endpoint among the
/// claimed interfaces.
pub fn snapshot_claimed_endpoint(
    snapshot: &UsbDeviceSnapshot,
    endpoint: u8,
    claimed_interfaces: &BTreeMap<u8, u8>,
) -> (found: Option<ClaimedEndpoint>)
    ensures
        found == endpoint_in(snapshot.descriptor_blob@, endpoint, claimed_interfaces@),
        found matches Some(claimed) ==> claimed_interfaces@.contains_key(claimed.interface)
            && claimed_interfaces@[claimed.interface] == claimed.alternate,
{
    proof {
        law_found_endpoint_is_claimed(snapshot.descriptor_blob@, endpoint, claimed_interfaces@);
    }
    let blob: &Vec<u8> = &snapshot.descriptor_blob;
    let mut cursor: usize = DEVICE_DESCRIPTOR_LEN;
    let mut current: Option<(u8, u8)> = None;
    let ghost claimed = claimed_interfaces@;
    let ghost list = descriptors(blob@);
    let ghost mut seen: Seq<Seq<u8>> = Seq::empty();
    assert(list =~= seen + descriptors_from(blob@, cursor as int));
    while cursor < blob.len() && blob.len() - cursor >= 2
        invariant
            *blob == snapshot.descriptor_blob,
            claimed == claimed_interfaces@,
            list == descriptors(blob@),
            list == seen + descriptors_from(blob@, cursor as int),
            current == current_interface(seen),
            forall|i: int|
                0 <= i < seen.len() ==> !#[trigger] decides(list, endpoint, claimed, i),
        decreases blob@.len() - cursor,
    {
        let length: usize = blob[cursor] as usize;
        if length < 2 || length > blob.len() - cursor {
            assert(list =~= seen);
            return None;
        }
        let ghost here = blob@.subrange(cursor as int, cursor + length);
        let ghost rest = descriptors_from(blob@, cursor + length);
        let ghost at = seen.len() as int;
        proof {
            assert(descriptors_from(blob@, cursor as int) == seq![here] + rest);
            assert(list =~= seen.push(here) + rest);
            assert(list[at] == here);
            assert(list.take(at) =~= seen);
            assert(seen.push(here).drop_last() =~= seen);
        }
        if blob[cursor + 1] == 0x04 && length >= 9 {
            current = Some((blob[cursor + 2], blob[cursor + 3]));
        } else if blob[cursor + 1] == 0x05 && length >= 7 && blob[cursor + 2] == endpoint {
            assert(describes_endpoint(here, endpoint));
            match current {
                None => {
                    proof {
                        lemma_endpoint_at(blob@, endpoint, claimed, at);
                    }
                    return None;
                },
                Some((interface, alternate)) => {
                    let is_claimed: bool = match claimed_interfaces.get(&interface) {
                        Some(setting) => *setting == alternate,
                        None => false,
                    };
                    if is_claimed {
                        proof {
                            lemma_endpoint_at(blob@, endpoint, claimed, at);
                        }
                        let kind: u8 = blob[cursor + 3] & 0x03;
                        let transfer_type = if kind == 1 {
                            EndpointTransferType::Isochronous
                        } else if kind == 2 {
                            EndpointTransferType::Bulk
                        } else if kind == 3 {
                            EndpointTransferType::Interrupt
                        } else {
                            return None;
                        };
                        return Some(ClaimedEndpoint { interface, alternate, transfer_type });
                    }
                },
            }
        }
        proof {
            seen = seen.push(here);
            assert forall|i: int| 0 <= i < seen.len() implies !#[trigger] decides(
                list,
                endpoint,
                claimed,
                i,
            ) by {
                if i == at {
                    assert(list[i] == here);
                }
            }
        }
        cursor = cursor + length;
    }
    assert(list =~= seen);
    None
}

/// The search ends at one descriptor.
proof fn lemma_decides_once(
    list: Seq<Seq<u8>>,
    endpoint: u8,
    claimed: Map<u8, u8>,
    left: int,
    right: int,
)
    requires
        decides_first(list, endpoint, claimed, left),
        decides_first(list, endpoint, claimed, right),
    ensures
        left == right,
{
    if left < right {
        assert(decides(list, endpoint, claimed, left));
    } else if right < left {
        assert(decides(list, endpoint, claimed, right));
    }
}

/// The descriptor at which the search ends gives its outcome.
proof fn lemma_endpoint_at(blob: Seq<u8>, endpoint: u8, claimed: Map<u8, u8>, at: int)
    requires
        decides_first(descriptors(blob), endpoint, claimed, at),
    ensures
        endpoint_in(blob, endpoint, claimed) == verdict(descriptors(blob), at),
{
    let list = descriptors(blob);
    let chosen = choose|at: int| decides_first(list, endpoint, claimed, at);
    lemma_decides_once(list, endpoint, claimed, at, chosen);
}

/// What is current after some descriptors is described by one of them.
proof fn lemma_current_described(list: Seq<Seq<u8>>)
    ensures
        current_interface(list) matches Some((interface, alternate)) ==> exists|i: int|
            0 <= i < list.len() && describes_interface(
                #[trigger] list[i],
                interface,
                alternate,
            ),
    decreases list.len(),
{
    if list.len() > 0 {
        if is_interface(list.last()) {
            assert(describes_interface(
                list[list.len() - 1],
                list.last()[2],
                list.last()[3],
            ));
        } else {
            lemma_current_described(list.drop_last());
            match current_interface(list.drop_last()) {
                Some((interface, alternate)) => {
                    let i = choose|i: int|
                        0 <= i < list.drop_last().len() && describes_interface(
                            #[trigger] list.drop_last()[i],
                            interface,
                            alternate,
                        );
                    assert(describes_interface(list[i], interface, alternate));
                },
                None => {},
            }
        }
    }
}

/// An endpoint is only ever found in a setting that is claimed and that the
/// device has.
pub proof fn law_found_endpoint_is_claimed(blob: Seq<u8>, endpoint: u8, claimed: Map<u8, u8>)
    ensures
        endpoint_in(blob, endpoint, claimed) matches Some(found) ==> {
            &&& claimed.contains_key(found.interface)
            &&& claimed[found.interface] == found.alternate
            &&& has_interface(blob, found.interface, found.alternate)
        },
{
    let list = descriptors(blob);
    match endpoint_in(blob, endpoint, claimed) {
        Some(found) => {
            let at = choose|at: int| decides_first(list, endpoint, claimed, at);
            lemma_current_described(list.take(at));
            let i = choose|i: int|
                0 <= i < list.take(at).len() && describes_interface(
                    #[trigger] list.take(at)[i],
                    found.interface,
                    found.alternate,
                );
            assert(describes_interface(list[i], found.interface, found.alternate));
        },
        None => {},
    }
}

/// Without a claimed interface there is no endpoint to use.
pub proof fn law_no_claim_no_endpoint(blob: Seq<u8>, endpoint: u8)
    ensures
        endpoint_in(blob, endpoint, Map::empty()) is None,
{
    law_found_endpoint_is_claimed(blob, endpoint, Map::empty());
}

/// An endpoint descriptor behind the descriptor of a claimed setting, with no
/// other interface in between, is found, unless an earlier descriptor already
/// decides or it names a control endpoint.
pub proof fn law_claimed_endpoint_found(
    blob: Seq<u8>,
    endpoint: u8,
    claimed: Map<u8, u8>,
    setting: int,
    at: int,
)
    requires
        0 <= setting < at < descriptors(blob).len(),
        is_interface(descriptors(blob)[setting]),
        forall|i: int| setting < i < at ==> !is_interface(#[trigger] descriptors(blob)[i]),
        describes_endpoint(descriptors(blob)[at], endpoint),
        transfer_type_of(descriptors(blob)[at][3]) is Some,
        claimed.contains_key(descriptors(blob)[setting][2]),
        claimed[descriptors(blob)[setting][2]] == descriptors(blob)[setting][3],
        forall|i: int|
            0 <= i < at ==> !#[trigger] decides(descriptors(blob), endpoint, claimed, i),
    ensures
        endpoint_in(blob, endpoint, claimed) == Some(
            ClaimedEndpoint {
                interface: descriptors(blob)[setting][2],
                alternate: descriptors(blob)[setting][3],
                transfer_type: transfer_type_of(descriptors(blob)[at][3])->0,
            },
        ),
{
    let list = descriptors(blob);
    lemma_current_at(list, setting, at);
    lemma_endpoint_at(blob, endpoint, claimed, at);
}

/// The last interface descriptor before `at` is the current one there.
proof fn lemma_current_at(list: Seq<Seq<u8>>, setting: int, at: int)
    requires
        0 <= setting < at <= list.len(),
        is_interface(list[setting]),
        forall|i: int| setting < i < at ==> !is_interface(#[trigger] list[i]),
    ensures
        current_interface(list.take(at)) == Some((list[setting][2], list[setting][3])),
    decreases at,
{
    assert(list.take(at).drop_last() =~= list.take(at - 1));
    assert(list.take(at).last() == list[at - 1]);
    if setting < at - 1 {
        lemma_current_at(list, setting, at - 1);
    }
}

/// Descriptors that stand one behind the other.
pub open spec fn joined(list: Seq<Seq<u8>>) -> Seq<u8>
    decreases list.len(),
{
    if list.len() == 0 {
        Seq::empty()
    } else {
        list[0] + joined(list.drop_first())
    }
}

/// Whether each descriptor starts with its own length, which is at least two.
pub open spec fn well_sized(list: Seq<Seq<u8>>) -> bool {
    forall|i: int| 0 <= i < list.len() ==> 2 <= (#[trigger] list[i]).len() && list[i][0] == list[i].len()
}

proof fn lemma_joined_read_back(front: Seq<u8>, list: Seq<Seq<u8>>)
    requires
        well_sized(list),
    ensures
        descriptors_from(front + joined(list), front.len() as int) == list,
    decreases list.len(),
{
    let blob = front + joined(list);
    let at = front.len() as int;
    if list.len() == 0 {
        assert(blob =~= front);
        assert(list =~= Seq::empty());
    } else {
        let first = list[0];
        let rest = list.drop_first();
        assert(well_sized(rest)) by {
            assert forall|i: int| 0 <= i < rest.len() implies 2 <= (#[trigger] rest[i]).len()
                && rest[i][0] == rest[i].len() by {
                assert(rest[i] == list[i + 1]);
            }
        }
        assert(blob =~= (front + first) + joined(rest));
        assert(blob[at] == first[0]);
        assert(blob.subrange(at, at + first.len()) =~= first);
        lemma_joined_read_back(front + first, rest);
        assert(seq![first] + rest =~= list);
    }
}

/// The descriptors of a device are read back: all that stand behind the
/// eighteen bytes of the device descriptor, in order.
pub proof fn law_descriptors_read_back(device: Seq<u8>, list: Seq<Seq<u8>>)
    requires
        device.len() == 18,
        well_sized(list),
    ensures
        descriptors(device + joined(list)) == list,
{
    lemma_joined_read_back(device, list);
}

/// A device has a setting of an interface exactly if one of its descriptors
/// is at least nine bytes long, has type 4, and names the number and the
/// setting in its third and fourth byte.
pub proof fn law_interface_named_in_descriptor(
    device: Seq<u8>,
    list: Seq<Seq<u8>>,
    interface: u8,
    alternate: u8,
)
    requires
        device.len() == 18,
        well_sized(list),
    ensures
        has_interface(device + joined(list), interface, alternate) <==> exists|i: int|
            0 <= i < list.len() && (#[trigger] list[i]).len() >= 9 && list[i][1] == 4 && list[i][2]
                == interface && list[i][3] == alternate,
{
    law_descriptors_read_back(device, list);
    let blob = device + joined(list);
    if has_interface(blob, interface, alternate) {
        let i = choose|i: int|
            0 <= i < descriptors(blob).len() && describes_interface(
                #[trigger] descriptors(blob)[i],
                interface,
                alternate,
            );
        assert(list[i].len() >= 9);
    }
    if exists|i: int|
        0 <= i < list.len() && (#[trigger] list[i]).len() >= 9 && list[i][1] == 4 && list[i][2]
            == interface && list[i][3] == alternate {
        let i = choose|i: int|
            0 <= i < list.len() && (#[trigger] list[i]).len() >= 9 && list[i][1] == 4 && list[i][2]
                == interface && list[i][3] == alternate;
        assert(describes_interface(descriptors(blob)[i], interface, alternate));
    }
}

/// The kind of an endpoint is its attributes modulo four, whatever the bits
/// above say of synchronisation and use.
pub proof fn law_kind_is_attributes_modulo_four(attributes: u8)
    ensures
        transfer_type_of(attributes) == Some(EndpointTransferType::Isochronous) <==> attributes % 4
            == 1,
        transfer_type_of(attributes) == Some(EndpointTransferType::Bulk) <==> attributes % 4 == 2,
        transfer_type_of(attributes) == Some(EndpointTransferType::Interrupt) <==> attributes % 4
            == 3,
        transfer_type_of(attributes) is None <==> attributes % 4 == 0,
{
    assert(attributes & 0x03 == attributes % 4) by (bit_vector);
}

/// Whether the bytes are those of an interface descriptor.
pub open spec fn interface_bytes(descriptor: Seq<u8>) -> bool {
    descriptor.len() >= 9 && descriptor[1] == 4
}

/// Whether the bytes are those of a descriptor of an endpoint with this
/// address.
pub open spec fn endpoint_bytes(descriptor: Seq<u8>, endpoint: u8) -> bool {
    descriptor.len() >= 7 && descriptor[1] == 5 && descriptor[2] == endpoint
}

/// Whether descriptor `at` belongs to a setting that is not claimed: that of
/// the last interface descriptor before it.
pub open spec fn in_unclaimed_setting(
    list: Seq<Seq<u8>>,
    claimed: Map<u8, u8>,
    setting: int,
    at: int,
) -> bool {
    &&& 0 <= setting < at
    &&& interface_bytes(list[setting])
    &&& forall|k: int| setting < k < at ==> !interface_bytes(#[trigger] list[k])
    &&& !(claimed.contains_key(list[setting][2]) && claimed[list[setting][2]] == list[setting][3])
}

/// An endpoint of a claimed setting is found, with the interface and the
/// setting that its interface descriptor names and the kind that its
/// attributes name, however many other settings offer the same address before
/// it. Where the attributes name a control endpoint, nothing is found.
pub proof fn law_endpoint_of_claimed_setting(
    device: Seq<u8>,
    list: Seq<Seq<u8>>,
    claimed: Map<u8, u8>,
    setting: int,
    at: int,
)
    requires
        device.len() == 18,
        well_sized(list),
        0 <= setting < at < list.len(),
        interface_bytes(list[setting]),
        forall|k: int| setting < k < at ==> !interface_bytes(#[trigger] list[k]),
        claimed.contains_key(list[setting][2]),
        claimed[list[setting][2]] == list[setting][3],
        list[at].len() >= 7,
        list[at][1] == 5,
        forall|i: int|
            0 <= i < at && endpoint_bytes(#[trigger] list[i], list[at][2]) ==> exists|j: int|
                #[trigger] in_unclaimed_setting(list, claimed, j, i),
    ensures
        match endpoint_in(device + joined(list), list[at][2], claimed) {
            Some(found) => {
                &&& found.interface == list[setting][2]
                &&& found.alternate == list[setting][3]
                &&& found.transfer_type == EndpointTransferType::Isochronous <==> list[at][3] % 4
                    == 1
                &&& found.transfer_type == EndpointTransferType::Bulk <==> list[at][3] % 4 == 2
                &&& found.transfer_type == EndpointTransferType::Interrupt <==> list[at][3] % 4 == 3
                &&& list[at][3] % 4 != 0
            },
            None => list[at][3] % 4 == 0,
        },
{
    let blob = device + joined(list);
    let endpoint = list[at][2];
    law_descriptors_read_back(device, list);
    law_kind_is_attributes_modulo_four(list[at][3]);
    lemma_current_at(list, setting, at);
    assert forall|i: int| 0 <= i < at implies !#[trigger] decides(list, endpoint, claimed, i) by {
        if endpoint_bytes(list[i], endpoint) {
            let j = choose|j: int| #[trigger] in_unclaimed_setting(list, claimed, j, i);
            assert(in_unclaimed_setting(list, claimed, j, i));
            lemma_current_at(list, j, i);
        }
    }
    assert(decides(list, endpoint, claimed, at));
    lemma_endpoint_at(blob, endpoint, claimed, at);
}

/// An endpoint that is described in front of all interfaces belongs to none,
/// so it cannot be used.
pub proof fn law_endpoint_without_interface(
    device: Seq<u8>,
    list: Seq<Seq<u8>>,
    claimed: Map<u8, u8>,
    at: int,
)
    requires
        device.len() == 18,
        well_sized(list),
        0 <= at < list.len(),
        list[at].len() >= 7,
        list[at][1] == 5,
        forall|k: int| 0 <= k < at ==> !interface_bytes(#[trigger] list[k]),
        forall|k: int| 0 <= k < at ==> !endpoint_bytes(#[trigger] list[k], list[at][2]),
    ensures
        endpoint_in(device + joined(list), list[at][2], claimed) is None,
{
    let blob = device + joined(list);
    law_descriptors_read_back(device, list);
    lemma_none_current(list, at);
    assert(decides(list, list[at][2], claimed, at));
    assert forall|i: int| 0 <= i < at implies !#[trigger] decides(
        list,
        list[at][2],
        claimed,
        i,
    ) by {
        assert(!endpoint_bytes(list[i], list[at][2]));
    }
    lemma_endpoint_at(blob, list[at][2], claimed, at);
}

proof fn lemma_none_current(list: Seq<Seq<u8>>, at: int)
    requires
        0 <= at <= list.len(),
        forall|k: int| 0 <= k < at ==> !interface_bytes(#[trigger] list[k]),
    ensures
        current_interface(list.take(at)) is None,
    decreases at,
{
    if at > 0 {
        assert(list.take(at).drop_last() =~= list.take(at - 1));
        assert(list.take(at).last() == list[at - 1]);
        assert(!interface_bytes(list[at - 1]));
        lemma_none_current(list, at - 1);
    }
}

/// What is found is described: there is an endpoint descriptor with the
/// address and a kind, and in front of it, with no other interface between,
/// the interface descriptor of the setting.
pub proof fn law_found_endpoint_is_described(
    device: Seq<u8>,
    list: Seq<Seq<u8>>,
    endpoint: u8,
    claimed: Map<u8, u8>,
)
    requires
        device.len() == 18,
        well_sized(list),
    ensures
        endpoint_in(device + joined(list), endpoint, claimed) matches Some(found) ==> exists|
            setting: int,
            at: int,
        |
            #![trigger list[setting], list[at]]
            {
                &&& 0 <= setting < at < list.len()
                &&& interface_bytes(list[setting])
                &&& list[setting][2] == found.interface
                &&& list[setting][3] == found.alternate
                &&& endpoint_bytes(list[at], endpoint)
                &&& list[at][3] % 4 != 0
                &&& forall|k: int| setting < k < at ==> !interface_bytes(#[trigger] list[k])
            },
{
    let blob = device + joined(list);
    law_descriptors_read_back(device, list);
    match endpoint_in(blob, endpoint, claimed) {
        Some(found) => {
            let at = choose|at: int| decides_first(list, endpoint, claimed, at);
            law_kind_is_attributes_modulo_four(list[at][3]);
            let setting = lemma_last_interface(list, at);
            assert(endpoint_bytes(list[at], endpoint));
            assert(interface_bytes(list[setting]));
        },
        None => {},
    }
}

proof fn lemma_last_interface(list: Seq<Seq<u8>>, at: int) -> (setting: int)
    requires
        0 <= at <= list.len(),
        current_interface(list.take(at)) is Some,
    ensures
        0 <= setting < at,
        interface_bytes(list[setting]),
        current_interface(list.take(at)) == Some((list[setting][2], list[setting][3])),
        forall|k: int| setting < k < at ==> !interface_bytes(#[trigger] list[k]),
    decreases at,
{
    assert(at > 0);
    assert(list.take(at).drop_last() =~= list.take(at - 1));
    assert(list.take(at).last() == list[at - 1]);
    if is_interface(list[at - 1]) {
        at - 1
    } else {
        lemma_last_interface(list, at - 1)
    }
}

} // verus!
