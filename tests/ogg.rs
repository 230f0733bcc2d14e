use demo_webrtc::ogg::{frame_page, parse_page, OggError, OggReader};

fn ogg_crc(bytes: &[u8]) -> u32 {
    let mut crc = 0u32;
    for &b in bytes {
        crc ^= (b as u32) << 24;
        for _ in 0..8 {
            crc = if crc & 0x8000_0000 != 0 { (crc << 1) ^ 0x04c1_1db7 } else { crc << 1 };
        }
    }
    crc
}

fn page(header_type: u8, granule: u64, serial: u32, seq: u32, segments: &[u8]) -> Vec<u8> {
    let mut p = vec![0x4f, 0x67, 0x67, 0x53, 0, header_type];
    p.extend_from_slice(&granule.to_le_bytes());
    p.extend_from_slice(&serial.to_le_bytes());
    p.extend_from_slice(&seq.to_le_bytes());
    p.extend_from_slice(&0u32.to_le_bytes());
    p.push(segments.len() as u8);
    p.extend_from_slice(segments);
    let total: usize = segments.iter().map(|s| *s as usize).sum();
    for i in 0..total {
        p.push((i % 251) as u8);
    }
    let crc = ogg_crc(&p);
    p[22..26].copy_from_slice(&crc.to_le_bytes());
    p
}

#[test]
fn pages_in_stream_order() {
    let first = page(2, 0, 77, 0, &[3]);
    let crc = u32::from_le_bytes([first[22], first[23], first[24], first[25]]);
    let mut data = first.clone();
    data.extend(page(0, 960, 77, 1, &[255, 10]));
    let mut r = OggReader::new(data);
    let p0 = r.parse_next_page().unwrap();
    assert_eq!(p0.header_type, 2);
    assert_eq!(p0.granule_position, 0);
    assert_eq!(p0.serial, 77);
    assert_eq!(p0.sequence, 0);
    assert_eq!(p0.checksum, crc);
    assert_eq!(p0.payload, vec![0, 1, 2]);
    let p1 = r.parse_next_page().unwrap();
    assert_eq!(p1.granule_position, 960);
    assert_eq!(p1.sequence, 1);
    assert_eq!(p1.payload.len(), 265);
    assert_eq!(r.parse_next_page().err(), Some(OggError::EndOfStream));
}

#[test]
fn large_granule_position() {
    let mut r = OggReader::new(page(0, 0x0102_0304_0506_0708, 1, 9, &[]));
    let p = r.parse_next_page().unwrap();
    assert_eq!(p.granule_position, 0x0102_0304_0506_0708);
    assert!(p.payload.is_empty());
}

#[test]
fn bad_capture_pattern() {
    let mut data = page(0, 0, 1, 0, &[1]);
    data[0] = b'X';
    let mut r = OggReader::new(data);
    assert_eq!(r.parse_next_page().err(), Some(OggError::BadCapturePattern));
}

#[test]
fn truncated_page() {
    let mut data = page(0, 0, 1, 0, &[20]);
    data.truncate(data.len() - 1);
    let mut r = OggReader::new(data);
    assert_eq!(r.parse_next_page().err(), Some(OggError::Truncated));
    let mut short = OggReader::new(vec![0x4f, 0x67, 0x67]);
    assert_eq!(short.parse_next_page().err(), Some(OggError::Truncated));
}

#[test]
fn empty_stream_is_at_end() {
    let mut r = OggReader::new(Vec::new());
    assert_eq!(r.parse_next_page().err(), Some(OggError::EndOfStream));
}

#[test]
fn checksum_mismatch() {
    let mut data = page(0, 960, 1, 3, &[4]);
    let last = data.len() - 1;
    data[last] ^= 0x01;
    let mut r = OggReader::new(data.clone());
    assert_eq!(r.parse_next_page().err(), Some(OggError::ChecksumMismatch));
    assert_eq!(frame_page(&data, 0), Ok(data.len()));
}

#[test]
fn parse_page_reports_end() {
    let data = page(0, 48000, 5, 2, &[2, 2]);
    let (p, end) = parse_page(&data, 0).unwrap();
    assert_eq!(end, data.len());
    assert_eq!(p.granule_position, 48000);
    assert_eq!(p.payload, vec![0, 1, 2, 3]);
    assert_eq!(parse_page(&data, end).err(), Some(OggError::EndOfStream));
}
