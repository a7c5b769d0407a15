use mvusb_fw::codec::{
    encode_block, ChipRevResponse, DataBlock, FrameHeader, SyncAck, DATA_BLOCK_HEADER_LEN,
};
use mvusb_fw::error::FwError;
use mvusb_fw::fw_data_xmit_size;

fn sample_header() -> FrameHeader {
    FrameHeader {
        download_command: 0x0000_0001,
        base_address: 0x1234_5678,
        data_length: 3,
        crc: 0xDEAD_BEEF,
    }
}

#[test]
fn frame_header_wire_layout() {
    let bytes = sample_header().encode();
    assert_eq!(
        bytes,
        vec![1, 0, 0, 0, 0x78, 0x56, 0x34, 0x12, 3, 0, 0, 0, 0xEF, 0xBE, 0xAD, 0xDE]
    );
}

#[test]
fn frame_header_round_trip() {
    let h = sample_header();
    assert_eq!(FrameHeader::decode(&h.encode()), Ok(h));
}

#[test]
fn frame_header_truncated() {
    let bytes = sample_header().encode();
    assert_eq!(FrameHeader::decode(&bytes[..15]), Err(FwError::TruncatedFrame));
    assert_eq!(FrameHeader::decode(&[]), Err(FwError::TruncatedFrame));
}

#[test]
fn sync_ack_round_trip_and_layout() {
    let a = SyncAck { status_command: 0, sequence_number: 0x0102_0304 };
    let bytes = a.encode();
    assert_eq!(bytes, vec![0, 0, 0, 0, 4, 3, 2, 1]);
    assert_eq!(SyncAck::decode(&bytes), Ok(a));
}

#[test]
fn sync_ack_ignores_trailing_bytes() {
    let mut buf = vec![0u8; 2048];
    buf[0] = 1;
    buf[4] = 7;
    assert_eq!(
        SyncAck::decode(&buf),
        Ok(SyncAck { status_command: 1, sequence_number: 7 })
    );
}

#[test]
fn sync_ack_truncated() {
    assert_eq!(SyncAck::decode(&[0u8; 7]), Err(FwError::TruncatedFrame));
}

#[test]
fn chip_rev_response_round_trip() {
    let c = ChipRevResponse {
        ack_marker: 0xFEDC_BA98,
        sequence: 1,
        extend_magic: 0xAB95_0001,
        chip_revision: 0x0380_0010,
    };
    let bytes = c.encode();
    assert_eq!(bytes.len(), 16);
    assert_eq!(&bytes[8..12], &[0x01, 0x00, 0x95, 0xAB]);
    assert_eq!(ChipRevResponse::decode(&bytes), Ok(c));
    assert_eq!(ChipRevResponse::decode(&bytes[..12]), Err(FwError::TruncatedFrame));
}

#[test]
fn data_block_round_trip() {
    let b = DataBlock { header: sample_header(), sequence_number: 9, payload: vec![0xAA, 0xBB, 0xCC] };
    let bytes = b.encode();
    assert_eq!(bytes.len(), DATA_BLOCK_HEADER_LEN + 3);
    assert_eq!(&bytes[16..20], &[9, 0, 0, 0]);
    assert_eq!(&bytes[20..], &[0xAA, 0xBB, 0xCC]);
    assert_eq!(DataBlock::decode(&bytes), Ok(b));
}

#[test]
fn data_block_truncated() {
    assert_eq!(DataBlock::decode(&[0u8; 19]), Err(FwError::TruncatedFrame));
}

#[test]
fn encode_block_matches_data_block() {
    let h = sample_header();
    let payload = vec![1u8, 2, 3];
    let b = DataBlock { header: h, sequence_number: 2, payload: payload.clone() };
    assert_eq!(encode_block(&h, 2, &payload), b.encode());
}

#[test]
fn xmit_size_adds_header_and_sequence() {
    assert_eq!(fw_data_xmit_size(0), 20);
    assert_eq!(fw_data_xmit_size(512), 532);
    assert_eq!(fw_data_xmit_size(u32::MAX - 20), u32::MAX);
}
