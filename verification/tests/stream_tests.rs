//! Tests of the record-stream parser and the facade, on handcrafted `.dat`
//! streams.

use glf::ciheader::{parse_header, CIHeader};
use glf::GlfError;
use glf::GLF;

// ---- builders for wire-format byte streams ----

fn push_header(buf: &mut Vec<u8>, payload_len: u32, secs: f64, htype: u8, device: u16, node: u16) {
    buf.push(b'*');
    buf.push(1); // version byte, ignored by the parser
    buf.extend_from_slice(&(payload_len + 21).to_le_bytes());
    buf.extend_from_slice(&secs.to_le_bytes());
    buf.push(htype);
    buf.extend_from_slice(&device.to_le_bytes());
    buf.extend_from_slice(&node.to_le_bytes());
    buf.extend_from_slice(&[0u8, 0]); // reserved trailing bytes
}

fn image_body(
    image_version: u16,
    compression_type: u16,
    range: (u32, u32),
    bearing: (u32, u32),
    payload: &[u8],
) -> Vec<u8> {
    let mut b: Vec<u8> = Vec::new();
    b.extend_from_slice(&1u16.to_le_bytes()); // record type
    b.extend_from_slice(&0xEFEFu16.to_le_bytes()); // version
    b.extend_from_slice(&image_version.to_le_bytes());
    b.extend_from_slice(&range.0.to_le_bytes());
    b.extend_from_slice(&range.1.to_le_bytes());
    b.extend_from_slice(&11u16.to_le_bytes()); // range compression
    b.extend_from_slice(&bearing.0.to_le_bytes());
    b.extend_from_slice(&bearing.1.to_le_bytes());
    if image_version == 3 {
        b.extend_from_slice(&compression_type.to_le_bytes());
    }
    b.extend_from_slice(&(payload.len() as u32).to_le_bytes());
    b.extend_from_slice(payload);
    for i in 0..(bearing.1 - bearing.0) {
        b.extend_from_slice(&(i as f64 * 0.5).to_le_bytes()); // bearing table
    }
    b.extend_from_slice(&7u32.to_le_bytes()); // state flags
    b.extend_from_slice(&9u32.to_le_bytes()); // modulation frequency
    b.extend_from_slice(&1.5f32.to_le_bytes()); // beam form app
    b.extend_from_slice(&2.25f64.to_le_bytes()); // tx time seconds
    b.extend_from_slice(&3u16.to_le_bytes()); // ping flags
    b.extend_from_slice(&1500.0f32.to_le_bytes()); // speed of sound
    b.extend_from_slice(&50u16.to_le_bytes()); // percent gain
    b.push(1); // chirp
    b.push(2); // sonar type
    b.push(3); // platform
    b.push(0); // pad byte
    b.extend_from_slice(&0xDEDEu16.to_le_bytes()); // end tag
    b
}

fn image_record(
    secs: f64,
    device: u16,
    image_version: u16,
    compression_type: u16,
    range: (u32, u32),
    bearing: (u32, u32),
    payload: &[u8],
) -> Vec<u8> {
    let body = image_body(image_version, compression_type, range, bearing, payload);
    let mut rec: Vec<u8> = Vec::new();
    push_header(&mut rec, body.len() as u32, secs, 0, device, 7);
    rec.extend_from_slice(&body);
    rec
}

fn status_body(device: u16) -> Vec<u8> {
    let mut b = vec![0u8; 218];
    b[0..2].copy_from_slice(&1u16.to_le_bytes()); // bf version
    b[2..4].copy_from_slice(&2u16.to_le_bytes()); // da version
    b[4..6].copy_from_slice(&3u16.to_le_bytes()); // flags
    b[6..8].copy_from_slice(&device.to_le_bytes());
    b[8] = 4; // xd selected
    b[10..18].copy_from_slice(&20.5f64.to_le_bytes()); // vga t1
    b[42..50].copy_from_slice(&30.25f64.to_le_bytes()); // psu t
    b[130..132].copy_from_slice(&5u16.to_le_bytes()); // link type
    b[150..154].copy_from_slice(&1000u32.to_le_bytes()); // packet count
    b[186..190].copy_from_slice(&[255, 255, 255, 0]); // subnet mask
    b[190..196].copy_from_slice(&[1, 2, 3, 4, 5, 6]); // mac address
    b[204..212].copy_from_slice(&123456789u64.to_le_bytes()); // fpga time
    b[216] = 1; // net adaptor found
    b
}

fn status_record(secs: f64, device: u16) -> Vec<u8> {
    let body = status_body(device);
    let mut rec: Vec<u8> = Vec::new();
    push_header(&mut rec, body.len() as u32, secs, 3, device, 7);
    rec.extend_from_slice(&body);
    rec
}

fn zlib_stored(data: &[u8]) -> Vec<u8> {
    let mut v = vec![0x78u8, 0x01];
    v.push(0x01); // final block, stored
    let len = data.len() as u16;
    v.extend_from_slice(&len.to_le_bytes());
    v.extend_from_slice(&(!len).to_le_bytes());
    v.extend_from_slice(data);
    let mut a: u32 = 1;
    let mut b: u32 = 0;
    for &byte in data {
        a = (a + byte as u32) % 65521;
        b = (b + a) % 65521;
    }
    let adler = (b << 16) | a;
    v.extend_from_slice(&adler.to_be_bytes());
    v
}

// ---- header parsing ----

#[test]
fn test_parse_header_fields() {
    let mut buf: Vec<u8> = Vec::new();
    push_header(&mut buf, 100, 12.5, 0, 42, 9);
    let mut off: usize = 0;
    let h = parse_header(&buf, &mut off).unwrap();
    assert_eq!(off, 21);
    assert_eq!(h.header_size, 21);
    assert_eq!(h.payload_length, 100);
    assert_eq!(h.time_bits, 12.5f64.to_bits());
    assert_eq!(h.header_type, 0);
    assert_eq!(h.device_id, 42);
    assert_eq!(h.node_id, 9);
}

#[test]
fn test_header_defaults_and_len() {
    let h = CIHeader::new();
    assert_eq!(h.header_size, 21);
    assert_eq!(h.len(), 21);
    assert_eq!(h.payload_length, 0);
    assert_eq!(h.device_id, 0);
}

#[test]
fn test_parse_header_bad_sentinel() {
    let mut buf: Vec<u8> = Vec::new();
    push_header(&mut buf, 10, 0.0, 0, 1, 1);
    buf[0] = b'x';
    let mut off: usize = 0;
    assert!(matches!(
        parse_header(&buf, &mut off),
        Err(GlfError::TruncatedOrMalformed)
    ));
    assert_eq!(off, 0);
}

#[test]
fn test_parse_header_truncated() {
    let buf = vec![b'*'; 20];
    let mut off: usize = 0;
    assert!(matches!(
        parse_header(&buf, &mut off),
        Err(GlfError::TruncatedOrMalformed)
    ));
}

// ---- minimal capture and compression handling ----

#[test]
fn test_minimal_capture() {
    let payload = [1u8, 2, 3, 4, 5, 6, 7, 8];
    let dat = image_record(1.0, 5, 3, 1, (0, 2), (0, 4), &payload);
    let glf = GLF::from_dat(dat).unwrap();
    assert_eq!(glf.len(), 1);
    let img = glf.extract_image(0).unwrap();
    assert_eq!(img.width, 4);
    assert_eq!(img.height, 2);
    assert_eq!(img.pixels, payload.to_vec());
}

#[test]
fn test_legacy_uncompressed_inference() {
    let payload = [9u8, 8, 7, 6, 5, 4, 3, 2];
    let dat = image_record(1.0, 5, 2, 0, (0, 2), (0, 4), &payload);
    let glf = GLF::from_dat(dat).unwrap();
    assert_eq!(glf.images[0].compression_type, 1);
    let img = glf.extract_image(0).unwrap();
    assert_eq!(img.pixels, payload.to_vec());
}

#[test]
fn test_legacy_compressed_inference() {
    let raw = [10u8, 20, 30, 40, 50, 60, 70, 80];
    let payload = zlib_stored(&raw);
    assert_ne!(payload.len(), raw.len());
    let dat = image_record(1.0, 5, 2, 0, (0, 2), (0, 4), &payload);
    let glf = GLF::from_dat(dat).unwrap();
    assert_eq!(glf.images[0].compression_type, 0);
    let img = glf.extract_image(0).unwrap();
    assert_eq!(img.width, 4);
    assert_eq!(img.height, 2);
    assert_eq!(img.pixels, raw.to_vec());
}

#[test]
fn test_h264_rejected() {
    let payload = [1u8, 2, 3, 4, 5, 6, 7, 8];
    let dat = image_record(1.0, 5, 3, 2, (0, 2), (0, 4), &payload);
    let glf = GLF::from_dat(dat).unwrap();
    assert!(matches!(
        glf.extract_image(0),
        Err(GlfError::UnsupportedCompression)
    ));
}

#[test]
fn test_compressed_wrong_size_rejected() {
    // Valid zlib stream, but it inflates to 4 bytes instead of width*height.
    let raw = [10u8, 20, 30, 40];
    let payload = zlib_stored(&raw);
    let dat = image_record(1.0, 5, 3, 0, (0, 2), (0, 4), &payload);
    let glf = GLF::from_dat(dat).unwrap();
    assert!(matches!(
        glf.extract_image(0),
        Err(GlfError::DecompressionFailed)
    ));
}

#[test]
fn test_garbage_compressed_payload_rejected() {
    let payload = [0u8, 1, 2, 3, 4, 5, 6];
    let dat = image_record(1.0, 5, 3, 0, (0, 2), (0, 4), &payload);
    let glf = GLF::from_dat(dat).unwrap();
    assert!(matches!(
        glf.extract_image(0),
        Err(GlfError::DecompressionFailed)
    ));
}

// ---- record fields ----

#[test]
fn test_image_record_fields() {
    let payload = [1u8, 2, 3, 4, 5, 6, 7, 8];
    let body_len = image_body(3, 1, (1, 3), (2, 6), &payload).len();
    let dat = image_record(4.5, 5, 3, 1, (1, 3), (2, 6), &payload);
    let glf = GLF::from_dat(dat.clone()).unwrap();
    let rec = &glf.images[0];
    assert_eq!(rec.header.payload_length, body_len as u32);
    assert_eq!(rec.header.time_bits, 4.5f64.to_bits());
    assert_eq!(rec.version, 0xEFEF);
    assert_eq!(rec.image_version, 3);
    assert_eq!(rec.range_start, 1);
    assert_eq!(rec.range_end, 3);
    assert_eq!(rec.range_compression, 11);
    assert_eq!(rec.bearing_start, 2);
    assert_eq!(rec.bearing_end, 6);
    assert_eq!(rec.compression_type, 1);
    assert_eq!(rec.image_width, 4);
    assert_eq!(rec.image_height, 2);
    assert_eq!(rec.data_size, 8);
    // data starts after the 21-byte header and the 30 bytes up to the size
    // field of a version-3 record
    assert_eq!(rec.data_ptr, 21 + 30);
    assert_eq!(rec.record_size as usize, body_len);
    assert_eq!(rec.bearing_table.len(), 4);
    for (i, bits) in rec.bearing_table.iter().enumerate() {
        assert_eq!(*bits, (i as f64 * 0.5).to_bits());
    }
    assert_eq!(rec.state_flags, 7);
    assert_eq!(rec.modulation_frequency, 9);
    assert_eq!(rec.beam_form_app, 1.5f32.to_bits());
    assert_eq!(rec.db_tx_time_bits, 2.25f64.to_bits());
    assert_eq!(rec.ping_flags, 3);
    assert_eq!(rec.sos_at_xd, 1500.0f32.to_bits());
    assert_eq!(rec.percent_gain, 50);
    assert_eq!(rec.chirp, 1);
    assert_eq!(rec.sonar_type, 2);
    assert_eq!(rec.platform, 3);
    // full coverage: the one record plus its header spans the whole buffer
    assert_eq!(rec.record_size as usize + 21, dat.len());
}

#[test]
fn test_status_record_fields() {
    let dat = status_record(2.0, 77);
    let glf = GLF::from_dat(dat).unwrap();
    assert_eq!(glf.len(), 0);
    assert_eq!(glf.statuses.len(), 1);
    let s = &glf.statuses[0];
    assert_eq!(s.header.header_size, 21);
    assert_eq!(s.bf_version, 1);
    assert_eq!(s.da_version, 2);
    assert_eq!(s.flags, 3);
    assert_eq!(s.device_id, 77);
    assert_eq!(s.xd_selected, 4);
    assert_eq!(s.vga_t1, 20.5f64.to_bits());
    assert_eq!(s.psu_t, 30.25f64.to_bits());
    assert_eq!(s.link_type, 5);
    assert_eq!(s.packet_count, 1000);
    assert_eq!(s.subnet_mask, [255, 255, 255, 0]);
    assert_eq!(s.mac_addr, [1, 2, 3, 4, 5, 6]);
    assert_eq!(s.fpga_time, 123456789);
    assert!(s.net_adap_found);
}

// ---- stream walking ----

#[test]
fn test_mixed_stream() {
    let payload = [1u8, 2, 3, 4, 5, 6, 7, 8];
    let mut dat: Vec<u8> = Vec::new();
    dat.extend_from_slice(&image_record(1.0, 10, 3, 1, (0, 2), (0, 4), &payload));
    dat.extend_from_slice(&status_record(2.0, 10));
    dat.extend_from_slice(&image_record(3.0, 11, 3, 1, (0, 2), (0, 4), &payload));
    dat.extend_from_slice(&status_record(4.0, 11));
    dat.extend_from_slice(&image_record(5.0, 12, 3, 1, (0, 2), (0, 4), &payload));
    let glf = GLF::from_dat(dat).unwrap();
    assert_eq!(glf.len(), 3);
    assert_eq!(glf.statuses.len(), 2);
    let img_devices: Vec<u16> = glf.images.iter().map(|r| r.header.device_id).collect();
    assert_eq!(img_devices, vec![10, 11, 12]);
    let stat_devices: Vec<u16> = glf.statuses.iter().map(|s| s.device_id).collect();
    assert_eq!(stat_devices, vec![10, 11]);
    assert!(glf.times_nondecreasing());
}

#[test]
fn test_empty_stream() {
    let glf = GLF::from_dat(Vec::new()).unwrap();
    assert_eq!(glf.len(), 0);
    assert!(matches!(
        glf.extract_image(0),
        Err(GlfError::IndexOutOfRange)
    ));
}

#[test]
fn test_extract_past_end() {
    let payload = [1u8, 2, 3, 4, 5, 6, 7, 8];
    let dat = image_record(1.0, 5, 3, 1, (0, 2), (0, 4), &payload);
    let glf = GLF::from_dat(dat).unwrap();
    assert!(matches!(
        glf.extract_image(glf.len()),
        Err(GlfError::IndexOutOfRange)
    ));
}

#[test]
fn test_exact_end_and_truncated() {
    let payload = [1u8, 2, 3, 4, 5, 6, 7, 8];
    let mut dat: Vec<u8> = Vec::new();
    dat.extend_from_slice(&image_record(1.0, 5, 3, 1, (0, 2), (0, 4), &payload));
    dat.extend_from_slice(&status_record(2.0, 5));
    assert!(GLF::from_dat(dat.clone()).is_ok());
    dat.pop();
    assert!(matches!(
        GLF::from_dat(dat),
        Err(GlfError::TruncatedOrMalformed)
    ));
}

#[test]
fn test_trailing_fragment_tolerated() {
    // the walker stops once fewer than 3 bytes remain, so up to 2 trailing
    // bytes are never looked at
    let payload = [1u8, 2, 3, 4, 5, 6, 7, 8];
    let mut dat = image_record(1.0, 5, 3, 1, (0, 2), (0, 4), &payload);
    dat.push(0xAA);
    dat.push(0xBB);
    let glf = GLF::from_dat(dat).unwrap();
    assert_eq!(glf.len(), 1);
}

#[test]
fn test_parse_image_record_directly() {
    let payload = [1u8, 2, 3, 4, 5, 6, 7, 8];
    let dat = image_record(1.0, 5, 3, 1, (0, 2), (0, 4), &payload);
    let mut off: usize = 0;
    let header = glf::ciheader::parse_header(&dat, &mut off).unwrap();
    assert_eq!(off, 21);
    let rec = glf::imagerec::parse_image_record(&header, &dat, &mut off).unwrap();
    assert_eq!(off, dat.len());
    assert_eq!(rec.header, header);
    assert_eq!(rec.image_width, 4);
    assert_eq!(rec.data_size, 8);
}

#[test]
fn test_parse_status_record_directly() {
    let dat = status_record(2.0, 33);
    let mut off: usize = 0;
    let header = glf::ciheader::parse_header(&dat, &mut off).unwrap();
    let rec = glf::statusrec::parse_status_record(&header, &dat, &mut off).unwrap();
    assert_eq!(off, dat.len());
    assert_eq!(rec.device_id, 33);
    assert_eq!(rec.header.time_bits, 2.0f64.to_bits());
}

#[test]
fn test_unsupported_record_types() {
    for htype in [1u8, 2, 98, 99, 50] {
        let mut dat: Vec<u8> = Vec::new();
        push_header(&mut dat, 100, 1.0, htype, 5, 7);
        dat.extend_from_slice(&[0u8; 100]);
        assert!(matches!(
            GLF::from_dat(dat),
            Err(GlfError::TruncatedOrMalformed)
        ));
    }
}

#[test]
fn test_bad_image_sentinels() {
    let payload = [1u8, 2, 3, 4, 5, 6, 7, 8];
    // corrupt the record-type word
    let mut dat = image_record(1.0, 5, 3, 1, (0, 2), (0, 4), &payload);
    dat[21] = 9;
    assert!(matches!(
        GLF::from_dat(dat),
        Err(GlfError::TruncatedOrMalformed)
    ));
    // corrupt the 0xEFEF version word
    let mut dat = image_record(1.0, 5, 3, 1, (0, 2), (0, 4), &payload);
    dat[23] = 0;
    assert!(matches!(
        GLF::from_dat(dat),
        Err(GlfError::TruncatedOrMalformed)
    ));
    // corrupt the 0xDEDE end tag
    let mut dat = image_record(1.0, 5, 3, 1, (0, 2), (0, 4), &payload);
    let n = dat.len();
    dat[n - 1] = 0;
    assert!(matches!(
        GLF::from_dat(dat),
        Err(GlfError::TruncatedOrMalformed)
    ));
}

#[test]
fn test_times_nondecreasing_check() {
    let payload = [1u8, 2, 3, 4, 5, 6, 7, 8];
    let mut dat: Vec<u8> = Vec::new();
    dat.extend_from_slice(&image_record(5.0, 5, 3, 1, (0, 2), (0, 4), &payload));
    dat.extend_from_slice(&image_record(1.0, 5, 3, 1, (0, 2), (0, 4), &payload));
    // times out of order still parse; the monotonicity check reports them
    let glf = GLF::from_dat(dat).unwrap();
    assert_eq!(glf.len(), 2);
    assert!(!glf.times_nondecreasing());
}

#[test]
fn test_referential_transparency() {
    let payload = [1u8, 2, 3, 4, 5, 6, 7, 8];
    let dat = image_record(1.0, 5, 3, 1, (0, 2), (0, 4), &payload);
    let glf = GLF::from_dat(dat).unwrap();
    let a = glf.extract_image(0).unwrap();
    let b = glf.extract_image(0).unwrap();
    assert_eq!(a.pixels, b.pixels);
    assert_eq!(a.width, b.width);
    assert_eq!(a.height, b.height);
}

// ---- sonar-filtered extraction ----

#[test]
fn test_multiplexed_sonars() {
    let sonar_a: u16 = 100;
    let sonar_b: u16 = 200;
    let mut dat: Vec<u8> = Vec::new();
    for (i, dev) in [sonar_a, sonar_b, sonar_a, sonar_b, sonar_a].iter().enumerate() {
        let payload = [i as u8; 8];
        dat.extend_from_slice(&image_record(i as f64, *dev, 3, 1, (0, 2), (0, 4), &payload));
    }
    let glf = GLF::from_dat(dat).unwrap();
    assert_eq!(glf.len(), 5);

    let first = glf.extract_image_next_sonarid(0, sonar_a).unwrap();
    assert_eq!(first.idx, 2);
    assert_eq!(first.img.pixels, vec![0u8; 8]);

    let second = glf.extract_image_next_sonarid(2, sonar_a).unwrap();
    assert_eq!(second.idx, 4);
    assert_eq!(second.img.pixels, vec![2u8; 8]);

    assert!(glf.extract_image_next_sonarid(4, sonar_a).is_none());
    // starting between records of sonar B still finds it
    let b = glf.extract_image_next_sonarid(0, sonar_b).unwrap();
    assert_eq!(b.idx, 3);
    assert_eq!(b.img.pixels, vec![1u8; 8]);
    // a sonar that never appears
    assert!(glf.extract_image_next_sonarid(0, 999).is_none());
    // starting past the end
    assert!(glf.extract_image_next_sonarid(17, sonar_a).is_none());
}
