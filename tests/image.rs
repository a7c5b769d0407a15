use mvusb_fw::codec::FrameHeader;
use mvusb_fw::error::FwError;
use mvusb_fw::image::{effective_payload_len, FirmwareImage, FW_CMD_7};

fn record(cmd: u32, data_length: u32, payload: &[u8]) -> Vec<u8> {
    let mut v = FrameHeader { download_command: cmd, base_address: 0x100, data_length, crc: 0 }.encode();
    v.extend_from_slice(payload);
    v
}

#[test]
fn reads_records_in_order_then_ends() {
    let mut bytes = record(1, 2, &[5, 6]);
    bytes.extend(record(4, 1, &[7]));
    let mut img = FirmwareImage::new(bytes);
    let r1 = img.next_record().unwrap().unwrap();
    assert_eq!(r1.header.download_command, 1);
    assert_eq!(r1.payload, vec![5, 6]);
    let r2 = img.next_record().unwrap().unwrap();
    assert_eq!(r2.header.download_command, 4);
    assert_eq!(r2.payload, vec![7]);
    assert!(img.is_exhausted());
    assert_eq!(img.next_record(), Ok(None));
}

#[test]
fn cmd7_record_has_empty_payload() {
    let mut bytes = record(FW_CMD_7, 1000, &[]);
    bytes.extend(record(4, 1, &[9]));
    let mut img = FirmwareImage::new(bytes);
    let r = img.next_record().unwrap().unwrap();
    assert_eq!(r.header.data_length, 1000);
    assert!(r.payload.is_empty());
    let next = img.next_record().unwrap().unwrap();
    assert_eq!(next.payload, vec![9]);
}

#[test]
fn effective_length_rule() {
    let h = FrameHeader { download_command: FW_CMD_7, base_address: 0, data_length: 55, crc: 0 };
    assert_eq!(effective_payload_len(&h), 0);
    let h2 = FrameHeader { download_command: 8, base_address: 0, data_length: 55, crc: 0 };
    assert_eq!(effective_payload_len(&h2), 55);
}

#[test]
fn short_header_is_truncated_image() {
    let mut img = FirmwareImage::new(vec![1, 2, 3]);
    assert_eq!(img.next_record(), Err(FwError::TruncatedImage));
}

#[test]
fn short_payload_is_truncated_image() {
    let mut img = FirmwareImage::new(record(1, 10, &[1, 2, 3]));
    assert_eq!(img.next_record(), Err(FwError::TruncatedImage));
}

#[test]
fn empty_image_is_exhausted() {
    let mut img = FirmwareImage::new(vec![]);
    assert!(img.is_exhausted());
    assert_eq!(img.next_record(), Ok(None));
}
