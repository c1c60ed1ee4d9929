use usbfly::bytes::copy_range;
use usbfly::simulation::{get_simulated_mitm_traffic_pub, simulated_packet_from};
use usbfly::text::{contains_text, decimal, hex2, hex_spaced};
use usbfly::transaction::{
    le16, parse_setup_packet, request_description, UsbControlRecipient, UsbControlRequestType, UsbDirection,
    UsbStandardRequest,
};

#[test]
fn text_helpers() {
    assert_eq!(hex2(0x0F), "0F");
    assert_eq!(hex2(0xA5), "A5");
    assert_eq!(decimal(0), "0");
    assert_eq!(decimal(1234567), "1234567");
    assert_eq!(hex_spaced(&[]), "");
    assert_eq!(hex_spaced(&[1, 0xAB]), "01 AB");
    assert!(contains_text("hello world", "o w"));
    assert!(contains_text("abc", ""));
    assert!(!contains_text("ab", "abc"));
    assert_eq!(copy_range(&[1, 2, 3, 4], 1, 3), vec![2, 3]);
    assert_eq!(le16(0x34, 0x12), 0x1234);
}

#[test]
fn setup_descriptions() {
    let p = parse_setup_packet(&[0x00, 0x09, 0x01, 0x00, 0x00, 0x00, 0x00, 0x00], UsbDirection::HostToDevice);
    assert_eq!(p.standard_request, Some(UsbStandardRequest::SetConfiguration));
    assert_eq!(p.request_description, "SetConfiguration (wValue=0x0001, wIndex=0x0000, wLength=0)");
    let p = parse_setup_packet(&[0x21, 0x0A, 0x00, 0x00, 0x02, 0x00, 0x00, 0x00], UsbDirection::HostToDevice);
    assert_eq!(p.request_type, UsbControlRequestType::Class);
    assert_eq!(p.recipient, UsbControlRecipient::Interface);
    assert_eq!(p.request_description, "Class Request: 0x0A to Interface (wValue=0x0000, wIndex=0x0002, wLength=0)");
    let d = request_description(0x42, 1, 2, 3, UsbControlRequestType::Vendor, UsbControlRecipient::Device, None);
    assert_eq!(d, "Vendor Request: 0x42 to Device (wValue=0x0001, wIndex=0x0002, wLength=3)");
    let g = request_description(6, 0x0302, 0x0409, 255, UsbControlRequestType::Standard, UsbControlRecipient::Device, Some(UsbStandardRequest::GetDescriptor));
    assert_eq!(g, "GetDescriptor (type=STRING, index=2) (wValue=0x0302, wIndex=0x0409, wLength=255)");
}

#[test]
fn simulated_traffic_has_the_packet_shape() {
    for _ in 0..200 {
        let p = get_simulated_mitm_traffic_pub().expect("the random source gives bytes");
        assert!(p.len() >= 4);
        assert!(p[0] == 0xD0 || p[0] == 0x90 || p[0] == 0x10);
        if p[0] == 0x90 {
            assert!((0x81..=0x8F).contains(&p[1]));
        } else {
            assert!((1..=15).contains(&p[1]));
        }
        assert!(p[2] == 1 || p[2] == 2);
        assert!((4..=63).contains(&p[3]));
        if p[0] == 0xD0 {
            assert_eq!(&p[4..], &[0x80, 0x06, 0x01, 0x00, 0x00, 0x00, 0x12, 0x00]);
        } else {
            assert_eq!(p.len(), 4 + p[3] as usize);
        }
    }
}

#[test]
fn simulated_packet_follows_the_draws() {
    let payload: Vec<u8> = (100u8..163).collect();
    let p = simulated_packet_from(0, 7, 4, 0, &payload);
    assert_eq!(p, vec![0xD0, 8, 1, 4, 0x80, 0x06, 0x01, 0x00, 0x00, 0x00, 0x12, 0x00]);
    let p = simulated_packet_from(4, 14, 3, 61, &payload);
    assert_eq!(p, vec![0x90, 0x8F, 2, 5, 100, 101, 102, 103, 104]);
    let p = simulated_packet_from(5, 15, 0, 59, &payload);
    assert_eq!(p.len(), 4 + 63);
    assert_eq!(&p[..4], &[0x10, 1, 1, 63]);
    assert_eq!(&p[4..], &payload[..]);
}
