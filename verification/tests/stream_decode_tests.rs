use std::sync::mpsc;
use usbfly::decode::{frame_capture_packets, packet_transfer_type, process_mitm_traffic, process_transactions, short_transfer_type};
use usbfly::stream::CynthionStream;
use usbfly::transaction::{UsbDirection, UsbStandardRequest, UsbTransferType};

#[test]
fn stream_returns_framed_packet_and_keeps_rest() {
    let (tx, rx) = mpsc::channel();
    let mut s = CynthionStream::new(rx);
    tx.send(vec![3, 0, 0, 0, 0xAA, 0xBB]).unwrap();
    assert_eq!(s.next_packet(), None);
    assert_eq!(s.peek_packet_len(), 3);
    tx.send(vec![0xCC, 9, 9]).unwrap();
    assert_eq!(s.next_packet(), Some(vec![0xAA, 0xBB, 0xCC]));
    assert_eq!(s.peek_packet_len(), 0x0909);
    assert_eq!(s.next_packet(), None);
}

#[test]
fn stream_pulls_only_until_a_packet_is_complete() {
    let (tx, rx) = mpsc::channel();
    let mut s = CynthionStream::new(rx);
    tx.send(vec![2, 0]).unwrap();
    tx.send(vec![0, 0, 7]).unwrap();
    tx.send(vec![8, 1, 0, 0, 0]).unwrap();
    tx.send(vec![5]).unwrap();
    // Three messages complete the first packet; the fourth stays in the channel.
    assert_eq!(s.next_packet(), Some(vec![7, 8]));
    assert_eq!(s.peek_packet_len(), 1);
    assert_eq!(s.next_packet(), Some(vec![5]));
    assert_eq!(s.next_packet(), None);
    drop(tx);
    assert_eq!(s.next_packet(), None);
}

#[test]
fn stream_length_prefix_is_little_endian() {
    let (tx, rx) = mpsc::channel();
    let mut s = CynthionStream::new(rx);
    tx.send(vec![0x01, 0x02, 0x00, 0x00]).unwrap();
    assert_eq!(s.next_packet(), None);
    assert_eq!(s.peek_packet_len(), 0x0201);
    let (etx, erx) = mpsc::channel();
    let mut e = CynthionStream::new(erx);
    assert_eq!(e.peek_packet_len(), 0);
    assert_eq!(e.next_packet(), None);
    etx.send(vec![0, 0, 0, 0]).unwrap();
    assert_eq!(e.next_packet(), Some(vec![]));
}

#[test]
fn stream_extract_packet_takes_prefix_and_bytes() {
    let (tx, rx) = mpsc::channel();
    let mut s = CynthionStream::new(rx);
    tx.send(vec![9, 0, 0, 0, 7, 8, 9]).unwrap();
    assert_eq!(s.next_packet(), None);
    assert_eq!(s.extract_packet(2), vec![7, 8]);
    tx.send(vec![1, 0, 0, 0]).unwrap();
    assert_eq!(s.next_packet(), None);
    assert_eq!(s.peek_packet_len(), 0x09 + 0x01 * 256);
}

#[test]
fn decode_empty_and_tiny_buffers() {
    assert!(process_transactions(&[]).is_empty());
    assert!(process_transactions(&[1, 2, 3]).is_empty());
}

#[test]
fn decode_short_buffer_gives_one_transaction() {
    let t = process_transactions(&[0x69, 0x82, 0x05, 0x01, 0xEE]);
    assert_eq!(t.len(), 1);
    assert_eq!(t[0].id, 1);
    assert_eq!(t[0].transfer_type, UsbTransferType::Bulk);
    assert_eq!(t[0].device_address, 5);
    assert_eq!(t[0].endpoint, 2);
    let d = t[0].data_packet.as_ref().unwrap();
    assert_eq!(d.data, vec![0xEE]);
    assert_eq!(d.direction, UsbDirection::DeviceToHost);
    assert_eq!(t[0].fields[0], ("packet_type".to_string(), "0x69".to_string()));
    assert_eq!(t[0].fields[1], ("raw_data".to_string(), "69 82 05 01 EE".to_string()));
    assert_eq!(t[0].fields[2], ("format".to_string(), "Non-standard short packet".to_string()));
}

#[test]
fn decode_setup_packet_reads_request() {
    let data = [0xD0, 0x00, 0x03, 0x08, 0x80, 0x06, 0x00, 0x01, 0x00, 0x00, 0x12, 0x00];
    let t = process_transactions(&data);
    assert_eq!(t.len(), 1);
    assert_eq!(t[0].transfer_type, UsbTransferType::Control);
    assert_eq!(t[0].device_address, 3);
    let s = t[0].setup_packet.as_ref().unwrap();
    assert_eq!(s.bmRequestType, 0x80);
    assert_eq!(s.wValue, 0x0100);
    assert_eq!(s.wLength, 18);
    assert_eq!(s.standard_request, Some(UsbStandardRequest::GetDescriptor));
    assert_eq!(t[0].get_summary(), s.request_description);
    assert!(s.request_description.contains("(wValue=0x0100, wIndex=0x0000, wLength=18)"));
    assert!(s.request_description.contains("type=DEVICE, index=0"));
}

#[test]
fn decode_packets_are_numbered_in_order() {
    let data = [0x90, 0x81, 0x01, 0x02, 0xAA, 0xBB, 0x10, 0x02, 0x01, 0x01, 0xCC];
    let t = process_transactions(&data);
    assert_eq!(t.len(), 2);
    assert_eq!(t[0].id, 1);
    assert_eq!(t[1].id, 2);
    assert_eq!(t[0].transfer_type, UsbTransferType::Bulk);
    assert_eq!(t[0].data_packet.as_ref().unwrap().data, vec![0xAA, 0xBB]);
    assert_eq!(t[1].data_packet.as_ref().unwrap().data, vec![0xCC]);
    assert_eq!(t[1].data_packet.as_ref().unwrap().direction, UsbDirection::HostToDevice);
    assert_eq!(t[0].get_summary(), "Device to Host, 2 bytes");
}

#[test]
fn decode_truncated_packet_is_partial() {
    let data = [0x90, 0x81, 0x01, 0x10, 1, 2, 3, 4];
    let t = process_transactions(&data);
    assert_eq!(t.len(), 1);
    assert_eq!(t[0].fields[1], ("partial".to_string(), "true".to_string()));
    assert_eq!(t[0].fields[2], ("available_bytes".to_string(), "4".to_string()));
    assert_eq!(t[0].fields[3], ("requested_bytes".to_string(), "16".to_string()));
}

#[test]
fn transfer_types_by_token_and_endpoint() {
    assert_eq!(packet_transfer_type(0xD0, 0), UsbTransferType::Control);
    assert_eq!(packet_transfer_type(0xC0, 0), UsbTransferType::Interrupt);
    assert_eq!(packet_transfer_type(0xA0, 0), UsbTransferType::Isochronous);
    assert_eq!(packet_transfer_type(0x55, 0x01), UsbTransferType::Isochronous);
    assert_eq!(packet_transfer_type(0x55, 0x84), UsbTransferType::Bulk);
    assert_eq!(packet_transfer_type(0x55, 0x04), UsbTransferType::Interrupt);
    assert_eq!(short_transfer_type(0xA5, 9), UsbTransferType::Control);
    assert_eq!(short_transfer_type(0x55, 0x05), UsbTransferType::Interrupt);
}

#[test]
fn capture_frames_are_located() {
    assert!(frame_capture_packets(&[0x80]).is_empty());
    let raw = [0x82, 0x00, 0x01, 0x81, 0x05, 0xAA, 0xBB, 0x83, 0x01, 0x02];
    assert_eq!(frame_capture_packets(&raw), vec![(0, 3), (3, 7), (7, 10)]);
    let cut = [0x80, 0x01, 0x02, 0x82, 0x07, 0x08];
    assert_eq!(frame_capture_packets(&cut), vec![(3, 6)]);
}

#[test]
fn mitm_traffic_reads_packets_while_eight_bytes_remain() {
    assert!(process_mitm_traffic(&[0x90, 0x81, 0x01, 0x02, 0xAA, 0xBB, 0x00]).is_empty());
    let data = [0x90, 0x81, 0x01, 0x02, 0xAA, 0xBB, 0x00, 0x00];
    let t = process_mitm_traffic(&data);
    assert_eq!(t.len(), 1);
    assert_eq!(t[0].id, 1);
    assert_eq!(t[0].transfer_type, UsbTransferType::Isochronous);
    assert_eq!(t[0].endpoint, 1);
    assert_eq!(t[0].device_address, 1);
    assert_eq!(t[0].data_packet.as_ref().unwrap().data, vec![0xAA, 0xBB]);
    assert_eq!(t[0].fields, vec![("speed".to_string(), "High".to_string()), ("packet_type".to_string(), "0x90".to_string())]);
    let setup = [0xD0, 0x00, 0x02, 0x20, 1, 2, 3, 4];
    let t = process_mitm_traffic(&setup);
    assert_eq!(t.len(), 1);
    assert_eq!(t[0].data_packet.as_ref().unwrap().data, vec![1, 2, 3, 4]);
    assert_eq!(t[0].setup_packet.as_ref().unwrap().request_description, "Unknown Request");
}
