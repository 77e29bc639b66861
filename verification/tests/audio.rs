use starry::bytes::{le_u16, le_u32, same_bytes};
use starry::pcap::{parse_usb_audio_iso_payloads, PcapError};
use starry::wave::{
    compare_pcm_payload, parse_pcm_wave_bytes, ParsedPcmWave, PayloadMismatch, WaveError,
};

#[test]
fn parse_usb_audio_iso_payloads_reads_submit_iso_out_records() {
    let mut pcap = Vec::new();
    pcap.extend_from_slice(&0xd4c3b2a1u32.to_le_bytes());
    pcap.extend_from_slice(&2u16.to_le_bytes());
    pcap.extend_from_slice(&4u16.to_le_bytes());
    pcap.extend_from_slice(&0i32.to_le_bytes());
    pcap.extend_from_slice(&0u32.to_le_bytes());
    pcap.extend_from_slice(&65_535u32.to_le_bytes());
    pcap.extend_from_slice(&249u32.to_le_bytes());

    let mut record = vec![0u8; 64];
    record[8] = b'S';
    record[9] = 0;
    record[10] = 1;
    record[15] = b'=';
    record[36..40].copy_from_slice(&4u32.to_le_bytes());
    record.extend_from_slice(&[1, 2, 3, 4]);

    pcap.extend_from_slice(&0u32.to_le_bytes());
    pcap.extend_from_slice(&0u32.to_le_bytes());
    pcap.extend_from_slice(&(record.len() as u32).to_le_bytes());
    pcap.extend_from_slice(&(record.len() as u32).to_le_bytes());
    pcap.extend_from_slice(&record);

    let payload = parse_usb_audio_iso_payloads(&pcap).unwrap();
    assert_eq!(payload, vec![1, 2, 3, 4]);
}

fn capture(records: &[Vec<u8>]) -> Vec<u8> {
    let mut bytes = 0xa1b2c3d4u32.to_le_bytes().to_vec();
    bytes.extend_from_slice(&[0; 20]);
    for record in records {
        bytes.extend_from_slice(&[7; 8]);
        bytes.extend_from_slice(&(record.len() as u32).to_le_bytes());
        bytes.extend_from_slice(&(record.len() as u32).to_le_bytes());
        bytes.extend_from_slice(record);
    }
    bytes
}

fn record(event: u8, transfer: u8, endpoint: u8, flag: u8, captured: u32, data: &[u8]) -> Vec<u8> {
    let mut record = vec![0u8; 64];
    record[8] = event;
    record[9] = transfer;
    record[10] = endpoint;
    record[15] = flag;
    record[36..40].copy_from_slice(&captured.to_le_bytes());
    record.extend_from_slice(data);
    record
}

#[test]
fn payloads_of_records_are_joined_in_order() {
    let bytes = capture(&[
        record(b'S', 0, 1, b'=', 2, &[1, 2, 3]),
        record(b'C', 0, 1, b'=', 2, &[9, 9]),
        record(b'S', 3, 1, b'=', 2, &[9, 9]),
        record(b'S', 0, 0x81, b'=', 2, &[9, 9]),
        record(b'S', 0, 1, b'<', 2, &[9, 9]),
        vec![1; 63],
        record(b'S', 0, 2, 0, 0, &[4, 5]),
        record(b'S', 0, 2, 0, 100, &[6]),
    ]);
    assert_eq!(
        parse_usb_audio_iso_payloads(&bytes),
        Ok(vec![1, 2, 4, 5, 6])
    );
    let mut trailing = bytes.clone();
    trailing.extend_from_slice(&[0; 15]);
    assert_eq!(
        parse_usb_audio_iso_payloads(&trailing),
        Ok(vec![1, 2, 4, 5, 6])
    );
}

#[test]
fn captures_that_are_none_are_refused() {
    assert_eq!(parse_usb_audio_iso_payloads(&[0; 23]), Err(PcapError::TooSmall));
    assert_eq!(
        parse_usb_audio_iso_payloads(&[0; 24]),
        Err(PcapError::UnsupportedMagic)
    );
    assert_eq!(
        parse_usb_audio_iso_payloads(&capture(&[])),
        Err(PcapError::NoPayload)
    );
    assert_eq!(
        parse_usb_audio_iso_payloads(&capture(&[record(b'S', 0, 1, 0, 0, &[])])),
        Err(PcapError::NoPayload)
    );
    let mut cut = capture(&[record(b'S', 0, 1, 0, 0, &[1, 2])]);
    cut.pop();
    assert_eq!(
        parse_usb_audio_iso_payloads(&cut),
        Err(PcapError::RecordPastEof)
    );
    assert_eq!(PcapError::TooSmall.message(), "pcap is too small");
    assert_eq!(PcapError::UnsupportedMagic.message(), "unsupported pcap magic");
    assert_eq!(PcapError::RecordPastEof.message(), "pcap record extends past EOF");
    assert_eq!(
        PcapError::NoPayload.message(),
        "usb-audio-iso pcap did not contain iso OUT payloads"
    );
}

fn chunk(id: &[u8], declared: u32, body: &[u8]) -> Vec<u8> {
    let mut bytes = id.to_vec();
    bytes.extend_from_slice(&declared.to_le_bytes());
    bytes.extend_from_slice(body);
    bytes
}

fn fmt_body(format: u16) -> Vec<u8> {
    let mut body = format.to_le_bytes().to_vec();
    body.extend_from_slice(&2u16.to_le_bytes());
    body.extend_from_slice(&48000u32.to_le_bytes());
    body.extend_from_slice(&192000u32.to_le_bytes());
    body.extend_from_slice(&4u16.to_le_bytes());
    body.extend_from_slice(&16u16.to_le_bytes());
    body
}

fn file(chunks: &[Vec<u8>]) -> Vec<u8> {
    let mut bytes = b"RIFF\0\0\0\0WAVE".to_vec();
    for chunk in chunks {
        bytes.extend_from_slice(chunk);
    }
    bytes
}

fn parsed(data: &[u8]) -> ParsedPcmWave {
    ParsedPcmWave {
        channels: 2,
        sample_rate: 48000,
        byte_rate: 192000,
        block_align: 4,
        bits_per_sample: 16,
        data: data.to_vec(),
    }
}

#[test]
fn wave_fields_and_samples_are_read_back() {
    let fmt = chunk(b"fmt ", 16, &fmt_body(1));
    let bytes = file(&[fmt.clone(), chunk(b"data", 4, &[1, 2, 3, 4])]);
    assert_eq!(parse_pcm_wave_bytes(&bytes), Ok(parsed(&[1, 2, 3, 4])));
    let bytes = file(&[fmt.clone(), chunk(b"data", 0, &[])]);
    assert_eq!(parse_pcm_wave_bytes(&bytes), Ok(parsed(&[])));
    let bytes = file(&[
        chunk(b"LIST", 3, &[9, 9, 9, 0]),
        fmt.clone(),
        chunk(b"data", 2, &[1, 2]),
        chunk(b"data", 3, &[3, 4, 5]),
    ]);
    assert_eq!(parse_pcm_wave_bytes(&bytes), Ok(parsed(&[3, 4, 5])));
}

#[test]
fn wave_length_of_zero_or_too_much_runs_to_the_end() {
    let fmt = chunk(b"fmt ", 16, &fmt_body(1));
    let bytes = file(&[fmt.clone(), chunk(b"data", 0, &[1, 2, 3])]);
    assert_eq!(parse_pcm_wave_bytes(&bytes), Ok(parsed(&[1, 2, 3])));
    let bytes = file(&[fmt.clone(), chunk(b"data", 0xffff_ffff, &[1, 2, 3])]);
    assert_eq!(parse_pcm_wave_bytes(&bytes), Ok(parsed(&[1, 2, 3])));
    let bytes = file(&[chunk(b"LIST", 0, &[]), fmt, chunk(b"data", 2, &[1, 2])]);
    assert_eq!(parse_pcm_wave_bytes(&bytes), Err(WaveError::MissingFmt));
}

#[test]
fn waves_that_are_none_are_refused() {
    let fmt = chunk(b"fmt ", 16, &fmt_body(1));
    assert_eq!(parse_pcm_wave_bytes(&[0; 11]), Err(WaveError::TooSmall));
    assert_eq!(parse_pcm_wave_bytes(&[0; 12]), Err(WaveError::MissingRiff));
    assert_eq!(
        parse_pcm_wave_bytes(b"RIFF\0\0\0\0WAVF"),
        Err(WaveError::MissingWave)
    );
    assert_eq!(
        parse_pcm_wave_bytes(&file(&[chunk(b"fmt ", 15, &fmt_body(1)[..15])])),
        Err(WaveError::FmtTooSmall)
    );
    assert_eq!(
        parse_pcm_wave_bytes(&file(&[chunk(b"fmt ", 16, &fmt_body(3))])),
        Err(WaveError::NotPcm)
    );
    assert_eq!(
        parse_pcm_wave_bytes(&file(&[chunk(b"data", 2, &[1, 2])])),
        Err(WaveError::MissingFmt)
    );
    assert_eq!(parse_pcm_wave_bytes(&file(&[fmt])), Err(WaveError::MissingData));
    assert_eq!(WaveError::TooSmall.message(), "wav is too small");
    assert_eq!(WaveError::MissingRiff.message(), "wav missing RIFF header");
    assert_eq!(WaveError::MissingWave.message(), "wav missing WAVE signature");
    assert_eq!(WaveError::FmtTooSmall.message(), "wav fmt chunk too small");
    assert_eq!(WaveError::NotPcm.message(), "wav is not PCM");
    assert_eq!(WaveError::MissingFmt.message(), "wav missing fmt chunk");
    assert_eq!(WaveError::MissingData.message(), "wav missing data chunk");
}

#[test]
fn payload_is_compared_with_the_reference() {
    assert_eq!(compare_pcm_payload(&parsed(&[1, 2]), &[1, 2]), Ok(()));
    assert_eq!(
        compare_pcm_payload(&parsed(&[1, 2]), &[1]),
        Err(PayloadMismatch::Length { captured: 1, reference: 2 })
    );
    assert_eq!(
        compare_pcm_payload(&parsed(&[1, 2]), &[1, 3]),
        Err(PayloadMismatch::Bytes)
    );
}

#[test]
fn numbers_are_little_endian() {
    assert_eq!(le_u16(&[0x34, 0x12]), 0x1234);
    assert_eq!(le_u16(&0xfedcu16.to_le_bytes()), 0xfedc);
    assert_eq!(le_u32(&[0x78, 0x56, 0x34, 0x12]), 0x12345678);
    assert_eq!(le_u32(&0xfedcba98u32.to_le_bytes()), 0xfedcba98);
    assert!(same_bytes(&[1, 2], &[1, 2]));
    assert!(!same_bytes(&[1, 2], &[1]));
}
