//! The packets of isochronous transfers.

use vstd::prelude::*;

use super::abi::{UsbError, USBDEVFS_URB_SIZE};

verus! {

/// The sum of lengths.
pub open spec fn total(lengths: Seq<usize>) -> nat
    decreases lengths.len(),
{
    if lengths.len() == 0 {
        0
    } else {
        total(lengths.drop_last()) + lengths.last() as nat
    }
}

/// Lengths as packet descriptors hold them, as sizes.
pub open spec fn sizes(lengths: Seq<u32>) -> Seq<usize> {
    Seq::new(lengths.len(), |i: int| lengths[i] as usize)
}

/// What is left for packet `at` when the packets before it have been filled.
pub open spec fn left_for(lengths: Seq<usize>, actual: usize, at: int) -> int {
    if actual <= total(lengths.take(at)) {
        0
    } else {
        actual - total(lengths.take(at))
    }
}

/// How much of `actual` bytes goes to packet `at`: packets are filled in
/// order, each up to its length.
pub open spec fn packet_share(lengths: Seq<usize>, actual: usize, at: int) -> int {
    if left_for(lengths, actual, at) <= lengths[at] {
        left_for(lengths, actual, at)
    } else {
        lengths[at] as int
    }
}

/// The address of the packet descriptors of an URB, which follow it.
pub fn usbdevfs_iso_packet_descs_address(urb_ptr: usize) -> (address: Result<usize, UsbError>)
    ensures
        address == (if urb_ptr + USBDEVFS_URB_SIZE <= usize::MAX {
            Ok::<usize, UsbError>((urb_ptr + USBDEVFS_URB_SIZE) as usize)
        } else {
            Err(UsbError::OutOfRange)
        }),
{
    match urb_ptr.checked_add(USBDEVFS_URB_SIZE) {
        Some(address) => Ok(address),
        None => Err(UsbError::OutOfRange),
    }
}

/// A part of the lengths sums up to no more than all of them.
pub proof fn lemma_total_grows(lengths: Seq<usize>, len: int)
    requires
        0 <= len <= lengths.len(),
    ensures
        total(lengths.take(len)) <= total(lengths),
    decreases lengths.len() - len,
{
    if len == lengths.len() {
        assert(lengths.take(len) =~= lengths);
    } else {
        lemma_total_grows(lengths, len + 1);
        assert(lengths.take(len + 1).drop_last() =~= lengths.take(len));
    }
}

/// Takes the packet lengths out of packet descriptors; their sum has to fit.
pub fn read_iso_packet_lengths(packet_descs: &[u32]) -> (lengths: Result<Vec<usize>, UsbError>)
    ensures
        match lengths {
            Ok(lengths) => lengths@ == sizes(packet_descs@) && total(lengths@) <= usize::MAX,
            Err(error) => error == UsbError::OutOfRange && total(sizes(packet_descs@))
                > usize::MAX,
        },
{
    let mut total_length: usize = 0;
    let count: usize = packet_descs.len();
    let mut packet_lengths: Vec<usize> = Vec::with_capacity(count);
    let ghost all = sizes(packet_descs@);
    assert(packet_lengths@ =~= all.take(0));
    for at in 0..count
        invariant
            count == packet_descs@.len(),
            all == sizes(packet_descs@),
            packet_lengths@ == all.take(at as int),
            total_length == total(all.take(at as int)),
    {
        let packet_length: usize = packet_descs[at] as usize;
        proof {
            assert(all.take(at + 1).drop_last() =~= all.take(at as int));
            lemma_total_grows(all, at + 1);
        }
        total_length = match total_length.checked_add(packet_length) {
            Some(sum) => sum,
            None => {
                return Err(UsbError::OutOfRange);
            },
        };
        packet_lengths.push(packet_length);
        assert(packet_lengths@ =~= all.take(at + 1));
    }
    assert(all.take(count as int) =~= all);
    Ok(packet_lengths)
}

/// Adds up packet lengths.
pub fn total_length(lengths: &[usize]) -> (sum: Result<usize, UsbError>)
    ensures
        match sum {
            Ok(sum) => sum == total(lengths@),
            Err(error) => error == UsbError::OutOfRange && total(lengths@) > usize::MAX,
        },
{
    let mut sum: usize = 0;
    let count: usize = lengths.len();
    assert(lengths@.take(0) =~= Seq::empty());
    for at in 0..count
        invariant
            count == lengths@.len(),
            sum == total(lengths@.take(at as int)),
    {
        proof {
            assert(lengths@.take(at + 1).drop_last() =~= lengths@.take(at as int));
            lemma_total_grows(lengths@, at + 1);
        }
        sum = match sum.checked_add(lengths[at]) {
            Some(sum) => sum,
            None => {
                return Err(UsbError::OutOfRange);
            },
        };
    }
    assert(lengths@.take(count as int) =~= lengths@);
    Ok(sum)
}

/// Spreads the bytes that were transferred over the packets; the result is
/// the actual length of each.
pub fn write_iso_packet_results(packet_lengths: &[usize], actual_total: usize) -> (actual: Vec<u32>)
    ensures
        actual@.len() == packet_lengths@.len(),
        forall|at: int|
            0 <= at < packet_lengths@.len() ==> #[trigger] actual@[at] == packet_share(
                packet_lengths@,
                actual_total,
                at,
            ) as u32,
{
    let mut remaining: usize = actual_total;
    let count: usize = packet_lengths.len();
    let mut actual: Vec<u32> = Vec::with_capacity(count);
    assert(packet_lengths@.take(0) =~= Seq::empty());
    for at in 0..count
        invariant
            count == packet_lengths@.len(),
            actual@.len() == at,
            remaining == left_for(packet_lengths@, actual_total, at as int),
            forall|i: int|
                0 <= i < at ==> #[trigger] actual@[i] == packet_share(
                    packet_lengths@,
                    actual_total,
                    i,
                ) as u32,
    {
        let packet_length: usize = packet_lengths[at];
        let packet_actual: usize = if remaining <= packet_length {
            remaining
        } else {
            packet_length
        };
        assert(packet_lengths@.take(at + 1).drop_last() =~= packet_lengths@.take(at as int));
        actual.push(packet_actual as u32);
        remaining = remaining - packet_actual;
    }
    actual
}

/// What the packets before `at` get.
pub open spec fn shares_before(lengths: Seq<usize>, actual: usize, at: int) -> int
    decreases at,
{
    if at <= 0 {
        0
    } else {
        shares_before(lengths, actual, at - 1) + packet_share(lengths, actual, at - 1)
    }
}

/// No packet gets more than its length, and a packet gets something only if
/// the packets before it are full.
pub proof fn law_packets_filled_in_order(lengths: Seq<usize>, actual: usize, at: int)
    requires
        0 <= at < lengths.len(),
    ensures
        0 <= packet_share(lengths, actual, at) <= lengths[at],
        packet_share(lengths, actual, at) > 0 ==> forall|i: int|
            0 <= i < at ==> packet_share(lengths, actual, i) == lengths[i],
{
    if packet_share(lengths, actual, at) > 0 {
        assert forall|i: int| 0 <= i < at implies packet_share(lengths, actual, i) == lengths[i] by {
            lemma_total_grows(lengths.take(at), i + 1);
            assert(lengths.take(at).take(i + 1) =~= lengths.take(i + 1));
            assert(lengths.take(i + 1).drop_last() =~= lengths.take(i));
        }
    }
}

/// All bytes that were transferred are accounted for, as far as the packets
/// have room.
pub proof fn law_packet_shares_add_up(lengths: Seq<usize>, actual: usize, at: int)
    requires
        0 <= at <= lengths.len(),
    ensures
        shares_before(lengths, actual, at) == (if actual <= total(lengths.take(at)) {
            actual as int
        } else {
            total(lengths.take(at)) as int
        }),
    decreases at,
{
    if at == 0 {
        assert(lengths.take(0) =~= Seq::empty());
    } else {
        law_packet_shares_add_up(lengths, actual, at - 1);
        assert(lengths.take(at).drop_last() =~= lengths.take(at - 1));
    }
}

/// A single length sums up to itself, and the sum of two runs of lengths is
/// the sum of their sums.
pub proof fn law_total_adds_up(first: Seq<usize>, second: Seq<usize>, length: usize)
    ensures
        total(seq![length]) == length,
        total(first + second) == total(first) + total(second),
    decreases second.len(),
{
    assert(seq![length].drop_last() =~= Seq::<usize>::empty());
    assert(total(seq![length]) == total(seq![length].drop_last()) + length as nat);
    if second.len() == 0 {
        assert(first + second =~= first);
    } else {
        law_total_adds_up(first, second.drop_last(), length);
        assert((first + second).drop_last() =~= first + second.drop_last());
    }
}

/// The length of each packet is the one in its descriptor.
pub proof fn law_sizes_are_descriptor_lengths(descs: Seq<u32>)
    ensures
        sizes(descs).len() == descs.len(),
        forall|i: int| 0 <= i < descs.len() ==> #[trigger] sizes(descs)[i] == descs[i],
{
}

/// When as many bytes were transferred as the packets hold, every packet is
/// full; the packets behind the last byte stay empty.
pub proof fn law_full_transfer_fills_packets(
    before: Seq<usize>,
    length: usize,
    behind: Seq<usize>,
    actual: usize,
)
    ensures
        ({
            let share = packet_share(before + seq![length] + behind, actual, before.len() as int);
            &&& actual >= total(before) + length ==> share == length
            &&& total(before) <= actual <= total(before) + length ==> share == actual - total(
                before,
            )
            &&& actual <= total(before) ==> share == 0
        }),
{
    let lengths = before + seq![length] + behind;
    assert(lengths.take(before.len() as int) =~= before);
    assert(lengths[before.len() as int] == length);
}

} // verus!
