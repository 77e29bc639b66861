//! USB captures in pcap files: the isochronous OUT payloads that a guest
//! submitted.

use vstd::prelude::*;

use crate::bytes::{law_le32_round_trip, le32, le32_bytes, le_u32, lemma_le32_at};

verus! {

/// Why a file is not a capture of isochronous OUT payloads.
#[derive(Debug, Clone, Copy, PartialEq, Eq)]
pub enum PcapError {
    TooSmall,
    UnsupportedMagic,
    RecordPastEof,
    NoPayload,
}

impl PcapError {
    /// The message of the error.
    pub open spec fn text(self) -> Seq<char> {
        match self {
            PcapError::TooSmall => "pcap is too small"@,
            PcapError::UnsupportedMagic => "unsupported pcap magic"@,
            PcapError::RecordPastEof => "pcap record extends past EOF"@,
            PcapError::NoPayload => "usb-audio-iso pcap did not contain iso OUT payloads"@,
        }
    }

    pub fn message(&self) -> (message: String)
        ensures
            message@ == self.text(),
    {
        match self {
            PcapError::TooSmall => "pcap is too small".to_owned(),
            PcapError::UnsupportedMagic => "unsupported pcap magic".to_owned(),
            PcapError::RecordPastEof => "pcap record extends past EOF".to_owned(),
            PcapError::NoPayload => {
                "usb-audio-iso pcap did not contain iso OUT payloads".to_owned()
            },
        }
    }
}

/// The length of the file header.
pub const FILE_HEADER_LEN: usize = 24;

/// The length of the header in front of each record.
pub const RECORD_HEADER_LEN: usize = 16;

/// The length of the USB header that a record starts with.
pub const USB_HEADER_LEN: usize = 64;

/// The records from `cursor` on, or `None` if one runs past the end. Bytes at
/// the end that are too few for a record header are not looked at.
pub open spec fn records_from(bytes: Seq<u8>, cursor: int) -> Option<Seq<Seq<u8>>>
    decreases bytes.len() - cursor,
{
    if cursor < 0 || cursor + RECORD_HEADER_LEN > bytes.len() {
        Some(Seq::empty())
    } else {
        let start = cursor + RECORD_HEADER_LEN;
        let len = le32(bytes, cursor + 8);
        if start + len > bytes.len() {
            None
        } else {
            match records_from(bytes, start + len) {
                Some(rest) => Some(seq![bytes.subrange(start, start + len)] + rest),
                None => None,
            }
        }
    }
}

/// Whether a record tells of a submitted isochronous OUT transfer with its
/// data: event `S`, transfer type 0, no direction bit, and a data flag that
/// is 0 or `=`.
pub open spec fn is_iso_out_submit(record: Seq<u8>) -> bool {
    &&& record.len() >= USB_HEADER_LEN
    &&& record[8] == 'S' as u8
    &&& record[9] == 0
    &&& record[10] & 0x80 == 0
    &&& record[15] == 0 || record[15] == '=' as u8
}

/// The data of a record: what follows the USB header, cut to the captured
/// length where that is given and shorter.
pub open spec fn record_data(record: Seq<u8>) -> Seq<u8> {
    let captured = le32(record, 36);
    let data = record.skip(USB_HEADER_LEN as int);
    if captured == 0 || captured > data.len() {
        data
    } else {
        data.take(captured)
    }
}

/// What a record adds to the payload.
pub open spec fn record_payload(record: Seq<u8>) -> Seq<u8> {
    if is_iso_out_submit(record) {
        record_data(record)
    } else {
        Seq::empty()
    }
}

/// The payload of records, in their order.
pub open spec fn payload_of(records: Seq<Seq<u8>>) -> Seq<u8>
    decreases records.len(),
{
    if records.len() == 0 {
        Seq::empty()
    } else {
        payload_of(records.drop_last()) + record_payload(records.last())
    }
}

/// Whether the first four bytes are a pcap magic number, in either byte order.
pub open spec fn has_pcap_magic(bytes: Seq<u8>) -> bool {
    le32(bytes, 0) == 0xa1b2c3d4 || le32(bytes, 0) == 0xd4c3b2a1
}

/// The isochronous OUT payload of a capture.
pub open spec fn iso_payload(bytes: Seq<u8>) -> Result<Seq<u8>, PcapError> {
    let records = records_from(bytes, FILE_HEADER_LEN as int);
    if bytes.len() < FILE_HEADER_LEN {
        Err(PcapError::TooSmall)
    } else if !has_pcap_magic(bytes) {
        Err(PcapError::UnsupportedMagic)
    } else if records is None {
        Err(PcapError::RecordPastEof)
    } else if payload_of(records->0).len() == 0 {
        Err(PcapError::NoPayload)
    } else {
        Ok(payload_of(records->0))
    }
}

/// Adds what a record holds to the payload.
fn add_record(record: &[u8], payload: &mut Vec<u8>)
    ensures
        final(payload)@ == old(payload)@ + record_payload(record@),
{
    if record.len() < USB_HEADER_LEN {
        assert(payload@ =~= payload@ + Seq::<u8>::empty());
        return;
    }
    let event_type: u8 = record[8];
    let transfer_type: u8 = record[9];
    let endpoint_number: u8 = record[10];
    let data_flag: u8 = record[15];
    let len_cap: usize = le_u32(&record[36..40]) as usize;
    assert(len_cap == le32(record@, 36)) by {
        lemma_le32_at(record@, 36);
    }
    if event_type != 'S' as u8 || transfer_type != 0 || (endpoint_number & 0x80) != 0 {
        assert(payload@ =~= payload@ + Seq::<u8>::empty());
        return;
    }
    if data_flag != 0 && data_flag != '=' as u8 {
        assert(payload@ =~= payload@ + Seq::<u8>::empty());
        return;
    }
    let data_len: usize = record.len() - USB_HEADER_LEN;
    let payload_len: usize = if len_cap == 0 || len_cap > data_len {
        data_len
    } else {
        len_cap
    };
    let data: &[u8] = &record[USB_HEADER_LEN..USB_HEADER_LEN + payload_len];
    let ghost before = payload@;
    payload.extend_from_slice(data);
    assert(data@ =~= record_data(record@));
    assert(payload@ =~= before + record_data(record@));
}

/// A record adds its part at the end of the payload.
proof fn lemma_payload_push(records: Seq<Seq<u8>>, record: Seq<u8>)
    ensures
        payload_of(records.push(record)) == payload_of(records) + record_payload(record),
{
    assert(records.push(record).drop_last() =~= records);
}

/// Collects the isochronous OUT payloads of a capture.
pub fn parse_usb_audio_iso_payloads(bytes: &[u8]) -> (result: Result<Vec<u8>, PcapError>)
    ensures
        match result {
            Ok(payload) => iso_payload(bytes@) == Ok::<Seq<u8>, PcapError>(payload@),
            Err(error) => iso_payload(bytes@) == Err::<Seq<u8>, PcapError>(error),
        },
{
    if bytes.len() < FILE_HEADER_LEN {
        return Err(PcapError::TooSmall);
    }
    let magic: u32 = le_u32(&bytes[0..4]);
    assert(magic == le32(bytes@, 0)) by {
        lemma_le32_at(bytes@, 0);
    }
    if magic != 0xa1b2c3d4 && magic != 0xd4c3b2a1 {
        return Err(PcapError::UnsupportedMagic);
    }
    let mut cursor: usize = FILE_HEADER_LEN;
    let mut payload: Vec<u8> = Vec::new();
    let ghost mut seen: Seq<Seq<u8>> = Seq::empty();
    proof {
        let all = records_from(bytes@, FILE_HEADER_LEN as int);
        if all is Some {
            assert(seen + all->0 =~= all->0);
        }
    }
    while cursor <= bytes.len() - RECORD_HEADER_LEN
        invariant
            bytes@.len() >= FILE_HEADER_LEN,
            has_pcap_magic(bytes@),
            FILE_HEADER_LEN <= cursor <= bytes@.len(),
            payload@ == payload_of(seen),
            match records_from(bytes@, cursor as int) {
                Some(rest) => records_from(bytes@, FILE_HEADER_LEN as int) == Some(seen + rest),
                None => records_from(bytes@, FILE_HEADER_LEN as int) is None,
            },
        decreases bytes@.len() - cursor,
    {
        let incl_len: usize = le_u32(&bytes[cursor + 8..cursor + 12]) as usize;
        assert(incl_len == le32(bytes@, cursor + 8)) by {
            lemma_le32_at(bytes@, cursor + 8);
        }
        let start: usize = cursor + RECORD_HEADER_LEN;
        if incl_len > bytes.len() - start {
            return Err(PcapError::RecordPastEof);
        }
        let record: &[u8] = &bytes[start..start + incl_len];
        add_record(record, &mut payload);
        proof {
            lemma_payload_push(seen, record@);
            match records_from(bytes@, start + incl_len) {
                Some(rest) => {
                    assert(seen + (seq![record@] + rest) =~= seen.push(record@) + rest);
                },
                None => {},
            }
            seen = seen.push(record@);
        }
        cursor = start + incl_len;
    }
    assert(seen + Seq::<Seq<u8>>::empty() =~= seen);
    if payload.len() == 0 {
        return Err(PcapError::NoPayload);
    }
    Ok(payload)
}

/// A packet that is written to a capture.
pub struct Packet {
    /// The time stamp.
    pub stamp: Seq<u8>,
    /// How long the packet was before it was cut to the record.
    pub original_len: u32,
    pub record: Seq<u8>,
}

/// Whether a packet has the fields of the format.
pub open spec fn sized_packet(packet: Packet) -> bool {
    packet.stamp.len() == 8 && packet.record.len() <= u32::MAX
}

/// The bytes of a packet: the time stamp, the two lengths, the record.
pub open spec fn packet_bytes(packet: Packet) -> Seq<u8> {
    packet.stamp + le32_bytes(packet.record.len() as u32) + le32_bytes(packet.original_len)
        + packet.record
}

/// The bytes of packets that stand one behind the other.
pub open spec fn packets_bytes(packets: Seq<Packet>) -> Seq<u8>
    decreases packets.len(),
{
    if packets.len() == 0 {
        Seq::empty()
    } else {
        packet_bytes(packets[0]) + packets_bytes(packets.drop_first())
    }
}

/// The records of packets.
pub open spec fn records_of(packets: Seq<Packet>) -> Seq<Seq<u8>> {
    Seq::new(packets.len(), |i: int| packets[i].record)
}

/// Records that were written one behind the other are read back in order.
pub proof fn law_records_read_back(before: Seq<u8>, packets: Seq<Packet>)
    requires
        forall|i: int| 0 <= i < packets.len() ==> sized_packet(#[trigger] packets[i]),
    ensures
        records_from(before + packets_bytes(packets), before.len() as int) == Some(
            records_of(packets),
        ),
    decreases packets.len(),
{
    let bytes = before + packets_bytes(packets);
    let at = before.len() as int;
    if packets.len() == 0 {
        assert(records_of(packets) =~= Seq::empty());
    } else {
        let first = packets[0];
        let rest = packets.drop_first();
        let len = first.record.len() as int;
        let size = le32_bytes(first.record.len() as u32);
        let head = packet_bytes(first);
        assert(sized_packet(first));
        assert(size.len() == 4 && le32_bytes(first.original_len).len() == 4);
        assert(head.len() == 16 + len);
        assert(bytes =~= (before + head) + packets_bytes(rest));
        assert(bytes.subrange(at + 8, at + 12) =~= size);
        lemma_le32_at(bytes, at + 8);
        law_le32_round_trip(first.record.len() as u32);
        law_records_read_back(before + head, rest);
        assert(bytes.subrange(at + 16, at + 16 + len) =~= first.record);
        assert(seq![first.record] + records_of(rest) =~= records_of(packets));
    }
}

/// A capture gives back the isochronous OUT data of the packets that were
/// written to it, in order.
pub proof fn law_capture_read_back(header: Seq<u8>, packets: Seq<Packet>)
    requires
        header.len() == FILE_HEADER_LEN,
        has_pcap_magic(header),
        forall|i: int| 0 <= i < packets.len() ==> sized_packet(#[trigger] packets[i]),
    ensures
        iso_payload(header + packets_bytes(packets)) == (if payload_of(records_of(packets)).len()
            == 0 {
            Err::<Seq<u8>, PcapError>(PcapError::NoPayload)
        } else {
            Ok(payload_of(records_of(packets)))
        }),
{
    let bytes = header + packets_bytes(packets);
    law_records_read_back(header, packets);
    assert(bytes.subrange(0, 4) =~= header.subrange(0, 4));
    lemma_le32_at(bytes, 0);
    lemma_le32_at(header, 0);
}

/// A record that does not tell of a submitted isochronous OUT transfer may be
/// put in or taken out anywhere: the payload stays what it was.
pub proof fn law_other_records_add_nothing(
    before: Seq<Seq<u8>>,
    record: Seq<u8>,
    after: Seq<Seq<u8>>,
)
    requires
        !is_iso_out_submit(record),
    ensures
        payload_of(before.push(record) + after) == payload_of(before + after),
    decreases after.len(),
{
    if after.len() == 0 {
        assert(before.push(record) + after =~= before.push(record));
        assert(before + after =~= before);
        lemma_payload_push(before, record);
        assert(payload_of(before) + Seq::<u8>::empty() =~= payload_of(before));
    } else {
        law_other_records_add_nothing(before, record, after.drop_last());
        assert((before.push(record) + after).drop_last() =~= before.push(record)
            + after.drop_last());
        assert((before + after).drop_last() =~= before + after.drop_last());
    }
}

/// Whether the header of a record, 64 bytes, tells of a submitted isochronous
/// OUT transfer: event `S`, transfer type 0, an endpoint address in the lower
/// half, and data that is marked by 0 or `=`.
pub open spec fn header_of_iso_out(header: Seq<u8>) -> bool {
    &&& header.len() == 64
    &&& header[8] == 0x53
    &&& header[9] == 0
    &&& header[10] < 0x80
    &&& header[15] == 0 || header[15] == 0x3d
}

/// The data behind the header of a submitted isochronous OUT transfer is its
/// payload, as much of it as the header says was captured, or all of it where
/// the header says nothing or too much.
pub proof fn law_payload_behind_header(header: Seq<u8>, captured: u32, data: Seq<u8>)
    requires
        header_of_iso_out(header),
        header.subrange(36, 40) == le32_bytes(captured),
    ensures
        record_payload(header + data) == (if captured == 0 || captured >= data.len() {
            data
        } else {
            data.take(captured as int)
        }),
{
    let record = header + data;
    let endpoint = header[10];
    assert(endpoint < 0x80 ==> endpoint & 0x80 == 0) by (bit_vector);
    assert(record.subrange(36, 40) =~= header.subrange(36, 40));
    lemma_le32_at(record, 36);
    law_le32_round_trip(captured);
    assert(record.skip(64) =~= data);
    assert(data.take(data.len() as int) =~= data);
}

/// Any other record, and one that is shorter than such a header, has no
/// payload.
pub proof fn law_no_payload_without_header(record: Seq<u8>)
    requires
        record.len() < 64 || !header_of_iso_out(record.take(64)),
    ensures
        record_payload(record) == Seq::<u8>::empty(),
{
    if record.len() >= 64 {
        let header = record.take(64);
        assert(header[8] == record[8] && header[9] == record[9] && header[10] == record[10]
            && header[15] == record[15]);
        let endpoint = record[10];
        assert(endpoint >= 0x80 ==> endpoint & 0x80 != 0) by (bit_vector);
    }
}

/// The payload of records is put together from the payload of each, in their
/// order.
pub proof fn law_payload_joined(front: Seq<Seq<u8>>, back: Seq<Seq<u8>>, record: Seq<u8>)
    ensures
        payload_of(front + back) == payload_of(front) + payload_of(back),
        payload_of(seq![record]) == record_payload(record),
        payload_of(Seq::<Seq<u8>>::empty()) == Seq::<u8>::empty(),
    decreases back.len(),
{
    assert(seq![record].drop_last() =~= Seq::<Seq<u8>>::empty());
    assert(payload_of(Seq::<Seq<u8>>::empty()) =~= Seq::<u8>::empty());
    assert(payload_of(seq![record]) == payload_of(seq![record].drop_last()) + record_payload(
        record,
    ));
    assert(payload_of(seq![record]) =~= record_payload(record));
    if back.len() == 0 {
        assert(front + back =~= front);
        assert(payload_of(front) + Seq::<u8>::empty() =~= payload_of(front));
    } else {
        law_payload_joined(front, back.drop_last(), record);
        assert((front + back).drop_last() =~= front + back.drop_last());
        assert(payload_of(front + back) =~= payload_of(front) + payload_of(back));
    }
}

/// A capture of which each packet is a submitted isochronous OUT transfer
/// with all of its data gives back that data, in order; packets between them
/// that are not such transfers change nothing.
pub proof fn law_submitted_data_comes_back(
    header: Seq<u8>,
    packets: Seq<Packet>,
    data: Seq<Seq<u8>>,
)
    requires
        header.len() == 24,
        has_pcap_magic(header),
        packets.len() == data.len(),
        forall|i: int| 0 <= i < packets.len() ==> sized_packet(#[trigger] packets[i]),
        forall|i: int| 0 <= i < packets.len() ==> carries(#[trigger] packets[i], data[i]),
    ensures
        iso_payload(header + packets_bytes(packets)) == (if data.flatten().len() == 0 {
            Err::<Seq<u8>, PcapError>(PcapError::NoPayload)
        } else {
            Ok(data.flatten())
        }),
{
    law_capture_read_back(header, packets);
    lemma_data_flattened(packets, data);
}

/// Whether a packet submits this data, or is something else and the data is
/// empty.
pub open spec fn carries(packet: Packet, data: Seq<u8>) -> bool {
    ||| {
        &&& packet.record.len() >= 64
        &&& header_of_iso_out(packet.record.take(64))
        &&& packet.record.subrange(36, 40) == le32_bytes(data.len() as u32)
        &&& packet.record.skip(64) == data
    }
    ||| {
        &&& packet.record.len() < 64 || !header_of_iso_out(packet.record.take(64))
        &&& data.len() == 0
    }
}

proof fn lemma_data_flattened(packets: Seq<Packet>, data: Seq<Seq<u8>>)
    requires
        packets.len() == data.len(),
        forall|i: int| 0 <= i < packets.len() ==> sized_packet(#[trigger] packets[i]),
        forall|i: int| 0 <= i < packets.len() ==> carries(#[trigger] packets[i], data[i]),
    ensures
        payload_of(records_of(packets)) == data.flatten(),
    decreases packets.len(),
{
    if packets.len() == 0 {
        assert(records_of(packets) =~= Seq::empty());
        assert(data =~= Seq::empty());
        assert(data.flatten() =~= Seq::empty());
    } else {
        let last = packets.len() - 1;
        let packet = packets[last];
        let front = packets.drop_last();
        assert(sized_packet(packet) && carries(packet, data[last]));
        assert forall|i: int| 0 <= i < front.len() implies sized_packet(#[trigger] front[i])
            && carries(front[i], data.drop_last()[i]) by {
            assert(front[i] == packets[i] && data.drop_last()[i] == data[i]);
            assert(sized_packet(packets[i]) && carries(packets[i], data[i]));
        }
        lemma_data_flattened(front, data.drop_last());
        assert(records_of(packets).drop_last() =~= records_of(front));
        assert(records_of(packets).last() == packet.record);
        if packet.record.len() >= 64 && header_of_iso_out(packet.record.take(64)) {
            let header = packet.record.take(64);
            assert(packet.record =~= header + data[last]);
            assert(header.subrange(36, 40) =~= packet.record.subrange(36, 40));
            law_payload_behind_header(header, data[last].len() as u32, data[last]);
        } else {
            law_no_payload_without_header(packet.record);
            assert(data[last] =~= Seq::empty());
        }
        data.lemma_flatten_and_flatten_alt_are_equivalent();
        data.drop_last().lemma_flatten_and_flatten_alt_are_equivalent();
        assert(data.flatten_alt() == data.drop_last().flatten_alt() + data.last());
    }
}

/// A file is refused before its records are looked at exactly if it is
/// shorter than 24 bytes or does not start with the magic number, in either
/// byte order.
pub proof fn law_capture_header_checked(bytes: Seq<u8>)
    ensures
        iso_payload(bytes) == Err::<Seq<u8>, PcapError>(PcapError::TooSmall) <==> bytes.len() < 24,
        iso_payload(bytes) == Err::<Seq<u8>, PcapError>(PcapError::UnsupportedMagic)
            <==> bytes.len() >= 24 && !(bytes[0] == 0xd4 && bytes[1] == 0xc3 && bytes[2] == 0xb2
            && bytes[3] == 0xa1) && !(bytes[0] == 0xa1 && bytes[1] == 0xb2 && bytes[2] == 0xc3
            && bytes[3] == 0xd4),
{
}

/// A record that says that it is longer than what is left of the file refuses
/// the file; an incomplete record header at the end does not.
pub proof fn law_cut_record_refused(
    header: Seq<u8>,
    packets: Seq<Packet>,
    stamp: Seq<u8>,
    len: u32,
    original_len: u32,
    rest: Seq<u8>,
    tail: Seq<u8>,
)
    requires
        header.len() == 24,
        has_pcap_magic(header),
        forall|i: int| 0 <= i < packets.len() ==> sized_packet(#[trigger] packets[i]),
        stamp.len() == 8,
        len > rest.len(),
        tail.len() < 16,
    ensures
        iso_payload(
            header + packets_bytes(packets) + (stamp + le32_bytes(len) + le32_bytes(original_len)
                + rest),
        ) == Err::<Seq<u8>, PcapError>(PcapError::RecordPastEof),
        iso_payload(header + packets_bytes(packets) + tail) == iso_payload(
            header + packets_bytes(packets),
        ),
{
    let whole = header + packets_bytes(packets);
    let cut = stamp + le32_bytes(len) + le32_bytes(original_len) + rest;
    assert(le32_bytes(len).len() == 4 && le32_bytes(original_len).len() == 4);
    let bytes = whole + cut;
    assert(bytes.subrange(0, 4) =~= header.subrange(0, 4));
    lemma_le32_at(bytes, 0);
    lemma_le32_at(header, 0);
    assert(bytes.subrange(whole.len() as int + 8, whole.len() as int + 12) =~= le32_bytes(len));
    lemma_le32_at(bytes, whole.len() as int + 8);
    law_le32_round_trip(len);
    assert(records_from(bytes, whole.len() as int) is None);
    lemma_records_before(header, packets, cut);
    let long = whole + tail;
    assert(long.subrange(0, 4) =~= header.subrange(0, 4));
    lemma_le32_at(long, 0);
    assert(records_from(long, whole.len() as int) == Some(Seq::<Seq<u8>>::empty()));
    lemma_records_before(header, packets, tail);
    law_capture_read_back(header, packets);
    assert(records_of(packets) + Seq::<Seq<u8>>::empty() =~= records_of(packets));
}

proof fn lemma_records_before(before: Seq<u8>, packets: Seq<Packet>, tail: Seq<u8>)
    requires
        forall|i: int| 0 <= i < packets.len() ==> sized_packet(#[trigger] packets[i]),
    ensures
        ({
            let bytes = before + packets_bytes(packets) + tail;
            let end = (before + packets_bytes(packets)).len() as int;
            records_from(bytes, before.len() as int) == (match records_from(bytes, end) {
                Some(rest) => Some(records_of(packets) + rest),
                None => None,
            })
        }),
    decreases packets.len(),
{
    let bytes = before + packets_bytes(packets) + tail;
    let end = (before + packets_bytes(packets)).len() as int;
    let at = before.len() as int;
    if packets.len() == 0 {
        match records_from(bytes, end) {
            Some(rest) => {
                assert(records_of(packets) + rest =~= rest);
            },
            None => {},
        }
    } else {
        let first = packets[0];
        let rest = packets.drop_first();
        let len = first.record.len() as int;
        let size = le32_bytes(first.record.len() as u32);
        let head = packet_bytes(first);
        assert(sized_packet(first));
        assert(size.len() == 4 && le32_bytes(first.original_len).len() == 4);
        assert(head.len() == 16 + len);
        assert(bytes =~= (before + head) + packets_bytes(rest) + tail);
        assert((before + head + packets_bytes(rest)).len() == end);
        assert(bytes.subrange(at + 8, at + 12) =~= size);
        lemma_le32_at(bytes, at + 8);
        law_le32_round_trip(first.record.len() as u32);
        lemma_records_before(before + head, rest, tail);
        assert(bytes.subrange(at + 16, at + 16 + len) =~= first.record);
        match records_from(bytes, end) {
            Some(more) => {
                assert(seq![first.record] + (records_of(rest) + more) =~= records_of(packets)
                    + more);
            },
            None => {},
        }
    }
}

} // verus!
