//! Decoding of Cynthion capture data into USB transactions.
//!
//! The stream is a sequence of packets, each a four-byte header
//! `[packet type, endpoint address, device address, payload length]`
//! followed by the payload.

use vstd::prelude::*;
use crate::bytes::copy_range;
use crate::text::{
    hex_spaced, push_decimal, push_hex2, spec_decimal, spec_hex2, spec_hex_spaced,
};
use crate::transaction::{
    direction_name, endpoint_direction, endpoint_number, parse_setup_packet, spec_direction_name,
    spec_endpoint_direction, spec_endpoint_number, spec_setup_model, spec_transfer_type_name,
    transactions_model, transfer_type_name, DataModel, SetupModel, TransactionModel,
    UsbControlRecipient, UsbControlRequestType, UsbDataPacket, UsbDirection, UsbSetupPacket,
    UsbStatusPacket, UsbTransaction, UsbTransferStatus, UsbTransferType,
};

verus! {

/// Transfer type of a short (four- to seven-byte) capture, from its packet
/// type or else from its endpoint number.
pub open spec fn spec_short_transfer_type(packet_type: u8, endpoint: u8) -> UsbTransferType {
    if packet_type == 0xA5 {
        UsbTransferType::Control
    } else if packet_type == 0x00 || packet_type == 0x69 {
        UsbTransferType::Bulk
    } else if packet_type == 0x23 {
        UsbTransferType::Interrupt
    } else {
        let n = spec_endpoint_number(endpoint);
        if n == 0 {
            UsbTransferType::Control
        } else if n == 1 {
            UsbTransferType::Isochronous
        } else if n <= 3 {
            UsbTransferType::Bulk
        } else {
            UsbTransferType::Interrupt
        }
    }
}

/// Transfer type of a framed packet, from its token type or else from its
/// endpoint address.
pub open spec fn spec_packet_transfer_type(packet_type: u8, endpoint: u8) -> UsbTransferType {
    if packet_type == 0xD0 || packet_type == 0xE0 || packet_type == 0xA5 {
        UsbTransferType::Control
    } else if packet_type == 0x90 || packet_type == 0x10 || packet_type == 0x00 || packet_type == 0x69 {
        UsbTransferType::Bulk
    } else if packet_type == 0xC0 || packet_type == 0x40 || packet_type == 0x23 {
        UsbTransferType::Interrupt
    } else if packet_type == 0xA0 || packet_type == 0x20 {
        UsbTransferType::Isochronous
    } else {
        let n = spec_endpoint_number(endpoint);
        if n == 0 {
            UsbTransferType::Control
        } else if n == 1 {
            UsbTransferType::Isochronous
        } else if n <= 3 {
            UsbTransferType::Bulk
        } else if 0x80 <= endpoint <= 0x8F {
            UsbTransferType::Bulk
        } else {
            UsbTransferType::Interrupt
        }
    }
}

/// Transfer type of a short capture.
pub fn short_transfer_type(packet_type: u8, endpoint: u8) -> (t: UsbTransferType)
    ensures
        t == spec_short_transfer_type(packet_type, endpoint),
{
    match packet_type {
        0xA5 => UsbTransferType::Control,
        0x00 => UsbTransferType::Bulk,
        0x23 => UsbTransferType::Interrupt,
        0x69 => UsbTransferType::Bulk,
        _ => {
            let n = endpoint_number(endpoint);
            if n == 0 {
                UsbTransferType::Control
            } else if n == 1 {
                UsbTransferType::Isochronous
            } else if n <= 3 {
                UsbTransferType::Bulk
            } else {
                UsbTransferType::Interrupt
            }
        },
    }
}

/// Transfer type of a framed packet.
pub fn packet_transfer_type(packet_type: u8, endpoint: u8) -> (t: UsbTransferType)
    ensures
        t == spec_packet_transfer_type(packet_type, endpoint),
{
    match packet_type {
        0xD0 => UsbTransferType::Control,
        0x90 => UsbTransferType::Bulk,
        0xC0 => UsbTransferType::Interrupt,
        0x10 => UsbTransferType::Bulk,
        0x40 => UsbTransferType::Interrupt,
        0xA0 => UsbTransferType::Isochronous,
        0x20 => UsbTransferType::Isochronous,
        0xE0 => UsbTransferType::Control,
        0xA5 => UsbTransferType::Control,
        0x00 => UsbTransferType::Bulk,
        0x23 => UsbTransferType::Interrupt,
        0x69 => UsbTransferType::Bulk,
        _ => {
            let n = endpoint_number(endpoint);
            if n == 0 {
                UsbTransferType::Control
            } else if n == 1 {
                UsbTransferType::Isochronous
            } else if n <= 3 {
                UsbTransferType::Bulk
            } else if endpoint >= 0x80 && endpoint <= 0x8F {
                UsbTransferType::Bulk
            } else {
                UsbTransferType::Interrupt
            }
        },
    }
}

/// `0x` followed by a byte in two hexadecimal digits.
pub open spec fn spec_hex_byte(b: u8) -> Seq<char> {
    "0x"@ + spec_hex2(b)
}

fn hex_byte(b: u8) -> (s: String)
    ensures
        s@ == spec_hex_byte(b),
{
    let mut s = String::from_str("0x");
    push_hex2(&mut s, b);
    s
}

fn decimal_string(n: u64) -> (s: String)
    ensures
        s@ == spec_decimal(n as nat),
{
    let mut s = String::new();
    push_decimal(&mut s, n);
    s
}

fn field(key: &str, value: String) -> (f: (String, String))
    ensures
        f.0@ == key@,
        f.1@ == value@,
{
    (String::from_str(key), value)
}

/// Display values of a short capture.
pub open spec fn spec_short_fields(data: Seq<u8>) -> Seq<(Seq<char>, Seq<char>)> {
    seq![
        ("packet_type"@, spec_hex_byte(data[0])),
        ("raw_data"@, spec_hex_spaced(data)),
        ("format"@, "Non-standard short packet"@),
    ]
}

/// Display values of a packet whose payload runs past the end of the data.
pub open spec fn spec_partial_fields(packet_type: u8, available: nat, requested: nat) -> Seq<(Seq<char>, Seq<char>)> {
    seq![
        ("packet_type"@, spec_hex_byte(packet_type)),
        ("partial"@, "true"@),
        ("available_bytes"@, spec_decimal(available)),
        ("requested_bytes"@, spec_decimal(requested)),
    ]
}

/// Display values of a complete packet.
pub open spec fn spec_packet_fields(
    packet_type: u8,
    direction: UsbDirection,
    transfer_type: UsbTransferType,
    payload: Seq<u8>,
) -> Seq<(Seq<char>, Seq<char>)> {
    let base = seq![
        ("speed"@, "High"@),
        ("packet_type"@, spec_hex_byte(packet_type)),
        ("direction"@, spec_direction_name(direction)),
        ("transfer_type"@, spec_transfer_type_name(transfer_type)),
    ];
    let with_setup = if packet_type == 0xD0 { base.push(("setup"@, "true"@)) } else { base };
    if payload.len() > 0 {
        let preview_len = if payload.len() < 8 { payload.len() as int } else { 8 };
        with_setup.push(("data_size"@, spec_decimal(payload.len()))).push(
            ("data_preview"@, spec_hex_spaced(payload.subrange(0, preview_len))),
        )
    } else {
        with_setup
    }
}

/// Display values of data that held no decodable packet.
pub open spec fn spec_unparsed_fields(data: Seq<u8>) -> Seq<(Seq<char>, Seq<char>)> {
    seq![
        ("raw_data"@, spec_hex_spaced(data)),
        ("note"@, "USBfly could not parse this data format, showing raw bytes"@),
    ]
}

/// The transaction of a capture of four to seven bytes.
#[verifier::opaque]
pub open spec fn spec_short_transaction(data: Seq<u8>) -> TransactionModel {
    let endpoint = data[1];
    let n = spec_endpoint_number(endpoint);
    TransactionModel {
        id: 1,
        transfer_type: spec_short_transfer_type(data[0], endpoint),
        setup: None,
        data: Some(DataModel {
            data: data.subrange(4, data.len() as int),
            direction: spec_endpoint_direction(endpoint),
            endpoint: n,
        }),
        status: Some(UsbStatusPacket { status: UsbTransferStatus::ACK, endpoint: n }),
        device_address: data[2],
        endpoint: n,
        fields: spec_short_fields(data),
    }
}

/// The transaction of the packet at `offset` whose payload runs past the end.
#[verifier::opaque]
pub open spec fn spec_partial_transaction(data: Seq<u8>, offset: int, id: u64) -> TransactionModel {
    let endpoint = data[offset + 1];
    let n = spec_endpoint_number(endpoint);
    TransactionModel {
        id,
        transfer_type: spec_packet_transfer_type(data[offset], endpoint),
        setup: None,
        data: Some(DataModel {
            data: data.subrange(offset + 4, data.len() as int),
            direction: spec_endpoint_direction(endpoint),
            endpoint: n,
        }),
        status: Some(UsbStatusPacket { status: UsbTransferStatus::ACK, endpoint: n }),
        device_address: data[offset + 2],
        endpoint: n,
        fields: spec_partial_fields(data[offset], (data.len() - offset - 4) as nat, data[offset + 3] as nat),
    }
}

/// The transaction of the complete packet at `offset`.
#[verifier::opaque]
pub open spec fn spec_packet_transaction(data: Seq<u8>, offset: int, id: u64) -> TransactionModel {
    let packet_type = data[offset];
    let endpoint = data[offset + 1];
    let len = data[offset + 3] as int;
    let payload = data.subrange(offset + 4, offset + 4 + len);
    let direction = spec_endpoint_direction(endpoint);
    let transfer_type = spec_packet_transfer_type(packet_type, endpoint);
    let n = spec_endpoint_number(endpoint);
    TransactionModel {
        id,
        transfer_type,
        setup: if packet_type == 0xD0 && len >= 8 {
            Some(spec_setup_model(payload, direction))
        } else {
            None
        },
        data: Some(DataModel { data: payload, direction, endpoint: n }),
        status: Some(UsbStatusPacket { status: UsbTransferStatus::ACK, endpoint: n }),
        device_address: data[offset + 2],
        endpoint: n,
        fields: spec_packet_fields(packet_type, direction, transfer_type, payload),
    }
}

/// The transaction shown for data that held no decodable packet.
#[verifier::opaque]
pub open spec fn spec_unparsed_transaction(data: Seq<u8>) -> TransactionModel {
    TransactionModel {
        id: 1,
        transfer_type: UsbTransferType::Bulk,
        setup: None,
        data: Some(DataModel { data, direction: UsbDirection::DeviceToHost, endpoint: 0 }),
        status: None,
        device_address: 0,
        endpoint: 0,
        fields: spec_unparsed_fields(data),
    }
}

/// The transactions of the packets framed from `offset` on, numbered from
/// `count + 1`.
pub open spec fn spec_walk(data: Seq<u8>, offset: int, count: int) -> Seq<TransactionModel>
    decreases data.len() - offset,
{
    if offset < 0 || offset + 4 > data.len() {
        Seq::empty()
    } else if offset + 4 + data[offset + 3] as int > data.len() {
        if data.len() - (offset + 4) > 0 {
            seq![spec_partial_transaction(data, offset, (count + 1) as u64)]
        } else {
            Seq::empty()
        }
    } else {
        seq![spec_packet_transaction(data, offset, (count + 1) as u64)]
            + spec_walk(data, offset + 4 + data[offset + 3] as int, count + 1)
    }
}

/// The transactions decoded from one capture buffer.
pub open spec fn spec_process_transactions(data: Seq<u8>) -> Seq<TransactionModel> {
    if data.len() == 0 {
        Seq::empty()
    } else if data.len() < 8 {
        if data.len() >= 4 {
            seq![spec_short_transaction(data)]
        } else {
            Seq::empty()
        }
    } else if spec_walk(data, 0, 0).len() == 0 {
        seq![spec_unparsed_transaction(data)]
    } else {
        spec_walk(data, 0, 0)
    }
}

fn short_transaction(data: &[u8]) -> (t: UsbTransaction)
    requires
        4 <= data@.len() < 8,
    ensures
        t@ == spec_short_transaction(data@),
{
    reveal(spec_short_transaction);
    let packet_type = data[0];
    let endpoint = data[1];
    let n = endpoint_number(endpoint);
    let direction = endpoint_direction(endpoint);
    let payload = copy_range(data, 4, data.len());
    let mut fields: Vec<(String, String)> = Vec::new();
    fields.push(field("packet_type", hex_byte(packet_type)));
    fields.push(field("raw_data", hex_spaced(data)));
    fields.push(field("format", String::from_str("Non-standard short packet")));
    let t = UsbTransaction {
        id: 1,
        transfer_type: short_transfer_type(packet_type, endpoint),
        setup_packet: None,
        data_packet: Some(UsbDataPacket::new(payload, direction, n)),
        status_packet: Some(UsbStatusPacket { status: UsbTransferStatus::ACK, endpoint: n }),
        device_address: data[2],
        endpoint: n,
        fields,
    };
    assert(t@.fields =~= spec_short_fields(data@));
    t
}

fn partial_transaction(data: &[u8], offset: usize, id: u64) -> (t: UsbTransaction)
    requires
        offset + 4 < data@.len(),
        offset + 4 + data@[offset + 3] as int > data@.len(),
    ensures
        t@ == spec_partial_transaction(data@, offset as int, id),
{
    reveal(spec_partial_transaction);
    let packet_type = data[offset];
    let endpoint = data[offset + 1];
    let n = endpoint_number(endpoint);
    let direction = endpoint_direction(endpoint);
    let available = data.len() - offset - 4;
    let payload = copy_range(data, offset + 4, data.len());
    let mut fields: Vec<(String, String)> = Vec::new();
    fields.push(field("packet_type", hex_byte(packet_type)));
    fields.push(field("partial", String::from_str("true")));
    fields.push(field("available_bytes", decimal_string(available as u64)));
    fields.push(field("requested_bytes", decimal_string(data[offset + 3] as u64)));
    let t = UsbTransaction {
        id,
        transfer_type: packet_transfer_type(packet_type, endpoint),
        setup_packet: None,
        data_packet: Some(UsbDataPacket::new(payload, direction, n)),
        status_packet: Some(UsbStatusPacket { status: UsbTransferStatus::ACK, endpoint: n }),
        device_address: data[offset + 2],
        endpoint: n,
        fields,
    };
    assert(t@.fields =~= spec_partial_fields(packet_type, available as nat, data@[offset + 3] as nat));
    t
}

fn packet_fields(
    packet_type: u8,
    direction: UsbDirection,
    transfer_type: UsbTransferType,
    payload: &Vec<u8>,
) -> (f: Vec<(String, String)>)
    ensures
        crate::transaction::fields_model(f@) == spec_packet_fields(packet_type, direction, transfer_type, payload@),
{
    let mut fields: Vec<(String, String)> = Vec::new();
    fields.push(field("speed", String::from_str("High")));
    fields.push(field("packet_type", hex_byte(packet_type)));
    fields.push(field("direction", String::from_str(direction_name(direction))));
    fields.push(field("transfer_type", String::from_str(transfer_type_name(transfer_type))));
    if packet_type == 0xD0 {
        fields.push(field("setup", String::from_str("true")));
    }
    if payload.len() > 0 {
        fields.push(field("data_size", decimal_string(payload.len() as u64)));
        let preview_len = if payload.len() < 8 { payload.len() } else { 8 };
        let preview = copy_range(payload.as_slice(), 0, preview_len);
        fields.push(field("data_preview", hex_spaced(preview.as_slice())));
    }
    assert(crate::transaction::fields_model(fields@) =~= spec_packet_fields(packet_type, direction, transfer_type, payload@));
    fields
}

fn packet_transaction(data: &[u8], offset: usize, id: u64) -> (t: UsbTransaction)
    requires
        offset + 4 <= data@.len(),
        offset + 4 + data@[offset + 3] as int <= data@.len(),
    ensures
        t@ == spec_packet_transaction(data@, offset as int, id),
{
    reveal(spec_packet_transaction);
    let packet_type = data[offset];
    let endpoint = data[offset + 1];
    let len = data[offset + 3] as usize;
    let n = endpoint_number(endpoint);
    let direction = endpoint_direction(endpoint);
    let transfer_type = packet_transfer_type(packet_type, endpoint);
    let payload = copy_range(data, offset + 4, offset + 4 + len);
    let fields = packet_fields(packet_type, direction, transfer_type, &payload);
    let setup_packet = if packet_type == 0xD0 && len >= 8 {
        Some(parse_setup_packet(payload.as_slice(), direction))
    } else {
        None
    };
    UsbTransaction {
        id,
        transfer_type,
        setup_packet,
        data_packet: Some(UsbDataPacket::new(payload, direction, n)),
        status_packet: Some(UsbStatusPacket { status: UsbTransferStatus::ACK, endpoint: n }),
        device_address: data[offset + 2],
        endpoint: n,
        fields,
    }
}

fn unparsed_transaction(data: &[u8]) -> (t: UsbTransaction)
    ensures
        t@ == spec_unparsed_transaction(data@),
{
    reveal(spec_unparsed_transaction);
    let mut fields: Vec<(String, String)> = Vec::new();
    fields.push(field("raw_data", hex_spaced(data)));
    fields.push(field("note", String::from_str("USBfly could not parse this data format, showing raw bytes")));
    let t = UsbTransaction {
        id: 1,
        transfer_type: UsbTransferType::Bulk,
        setup_packet: None,
        data_packet: Some(UsbDataPacket::new(copy_range(data, 0, data.len()), UsbDirection::DeviceToHost, 0)),
        status_packet: None,
        device_address: 0,
        endpoint: 0,
        fields,
    };
    assert(data@.subrange(0, data@.len() as int) =~= data@);
    assert(t@.fields =~= spec_unparsed_fields(data@));
    t
}

/// Decodes one buffer of capture data into USB transactions.
///
/// A buffer of four to seven bytes is read as one header and its payload; a
/// shorter one gives no transaction. From eight bytes on, packets are framed
/// one after another from the start; a packet whose payload runs past the end
/// gives a partial transaction and ends the framing.
pub fn process_transactions(data: &[u8]) -> (r: Vec<UsbTransaction>)
    ensures
        transactions_model(r@) == spec_process_transactions(data@),
{
    let mut transactions: Vec<UsbTransaction> = Vec::new();
    if data.len() == 0 {
        assert(transactions_model(transactions@) =~= spec_process_transactions(data@));
        return transactions;
    }
    if data.len() < 8 {
        if data.len() >= 4 {
            transactions.push(short_transaction(data));
        }
        assert(transactions_model(transactions@) =~= spec_process_transactions(data@));
        return transactions;
    }
    let mut offset: usize = 0;
    let mut stopped = false;
    while !stopped && data.len() - offset >= 4
        invariant
            offset <= data@.len(),
            !stopped ==> transactions@.len() <= offset,
            stopped ==> transactions_model(transactions@) == spec_walk(data@, 0, 0),
            !stopped ==> transactions_model(transactions@) + spec_walk(data@, offset as int, transactions@.len() as int)
                == spec_walk(data@, 0, 0),
        decreases data@.len() - offset, if stopped { 0int } else { 1int },
    {
        let ghost before = transactions_model(transactions@);
        let count = transactions.len();
        let len = data[offset + 3] as usize;
        if len > data.len() - offset - 4 {
            if data.len() - offset - 4 > 0 {
                transactions.push(partial_transaction(data, offset, count as u64 + 1));
                assert(transactions_model(transactions@) =~= before.push(spec_partial_transaction(data@, offset as int, (count + 1) as u64)));
            } else {
                assert(transactions_model(transactions@) =~= before);
            }
            stopped = true;
        } else {
            transactions.push(packet_transaction(data, offset, count as u64 + 1));
            assert(transactions_model(transactions@) =~= before.push(spec_packet_transaction(data@, offset as int, (count + 1) as u64)));
            let ghost rest = spec_walk(data@, (offset + 4 + len) as int, (count + 1) as int);
            assert(spec_walk(data@, offset as int, count as int)
                == seq![spec_packet_transaction(data@, offset as int, (count + 1) as u64)] + rest);
            assert(before + spec_walk(data@, offset as int, count as int)
                =~= transactions_model(transactions@) + rest);
            offset = offset + 4 + len;
        }
    }
    if !stopped {
        assert(spec_walk(data@, offset as int, transactions@.len() as int) =~= Seq::<TransactionModel>::empty());
        assert(transactions_model(transactions@) =~= transactions_model(transactions@) + spec_walk(data@, offset as int, transactions@.len() as int));
    }
    if transactions.len() == 0 {
        transactions.push(unparsed_transaction(data));
        assert(transactions_model(transactions@) =~= seq![spec_unparsed_transaction(data@)]);
    }
    transactions
}


/// Transfer type chosen by the two low bits of an endpoint address.
pub open spec fn spec_endpoint_transfer_type(endpoint: u8) -> UsbTransferType {
    let b = endpoint as int % 4;
    if b == 0 {
        UsbTransferType::Control
    } else if b == 1 {
        UsbTransferType::Isochronous
    } else if b == 2 {
        UsbTransferType::Bulk
    } else {
        UsbTransferType::Interrupt
    }
}

/// Payload length of the man-in-the-middle packet at `offset`: its length
/// byte, cut to the data that is there.
pub open spec fn spec_mitm_payload_len(data: Seq<u8>, offset: int) -> int {
    if offset + 4 + data[offset + 3] as int > data.len() {
        data.len() - offset - 4
    } else {
        data[offset + 3] as int
    }
}

/// The placeholder setup stage recorded for a SETUP token.
pub open spec fn spec_placeholder_setup(direction: UsbDirection) -> SetupModel {
    SetupModel {
        bm_request_type: 0,
        b_request: 0,
        w_value: 0,
        w_index: 0,
        w_length: 0,
        direction,
        request_type: UsbControlRequestType::Standard,
        recipient: UsbControlRecipient::Device,
        standard_request: None,
        description: "Unknown Request"@,
    }
}

/// The transaction of the man-in-the-middle packet at `offset`.
#[verifier::opaque]
pub open spec fn spec_mitm_transaction(data: Seq<u8>, offset: int, id: u64) -> TransactionModel {
    let packet_type = data[offset];
    let endpoint = data[offset + 1];
    let direction = spec_endpoint_direction(endpoint);
    let n = spec_endpoint_number(endpoint);
    let len = spec_mitm_payload_len(data, offset);
    TransactionModel {
        id,
        transfer_type: spec_endpoint_transfer_type(endpoint),
        setup: if packet_type == 0xD0 { Some(spec_placeholder_setup(direction)) } else { None },
        data: Some(DataModel { data: data.subrange(offset + 4, offset + 4 + len), direction, endpoint: n }),
        status: Some(UsbStatusPacket { status: UsbTransferStatus::ACK, endpoint: n }),
        device_address: data[offset + 2],
        endpoint: n,
        fields: seq![("speed"@, "High"@), ("packet_type"@, spec_hex_byte(packet_type))],
    }
}

/// The man-in-the-middle transactions from `offset` on, numbered from
/// `count + 1`: a packet is read wherever eight bytes remain.
pub open spec fn spec_mitm_walk(data: Seq<u8>, offset: int, count: int) -> Seq<TransactionModel>
    decreases data.len() - offset,
{
    if offset < 0 || offset + 8 > data.len() {
        Seq::empty()
    } else {
        seq![spec_mitm_transaction(data, offset, (count + 1) as u64)]
            + spec_mitm_walk(data, offset + 4 + spec_mitm_payload_len(data, offset), count + 1)
    }
}

/// The transactions of one buffer of man-in-the-middle traffic.
pub open spec fn spec_process_mitm_traffic(data: Seq<u8>) -> Seq<TransactionModel> {
    if data.len() < 8 {
        Seq::empty()
    } else {
        spec_mitm_walk(data, 0, 0)
    }
}

fn endpoint_transfer_type(endpoint: u8) -> (t: UsbTransferType)
    ensures
        t == spec_endpoint_transfer_type(endpoint),
{
    match endpoint % 4 {
        0 => UsbTransferType::Control,
        1 => UsbTransferType::Isochronous,
        2 => UsbTransferType::Bulk,
        _ => UsbTransferType::Interrupt,
    }
}

fn mitm_transaction(data: &[u8], offset: usize, id: u64) -> (t: UsbTransaction)
    requires
        offset + 8 <= data@.len(),
    ensures
        t@ == spec_mitm_transaction(data@, offset as int, id),
{
    reveal(spec_mitm_transaction);
    let packet_type = data[offset];
    let endpoint = data[offset + 1];
    let direction = endpoint_direction(endpoint);
    let n = endpoint_number(endpoint);
    let mut len = data[offset + 3] as usize;
    if len > data.len() - offset - 4 {
        len = data.len() - offset - 4;
    }
    let payload = copy_range(data, offset + 4, offset + 4 + len);
    let mut fields: Vec<(String, String)> = Vec::new();
    fields.push(field("speed", String::from_str("High")));
    fields.push(field("packet_type", hex_byte(packet_type)));
    let setup_packet = if packet_type == 0xD0 {
        Some(UsbSetupPacket {
            bmRequestType: 0,
            bRequest: 0,
            wValue: 0,
            wIndex: 0,
            wLength: 0,
            direction,
            request_type: UsbControlRequestType::Standard,
            recipient: UsbControlRecipient::Device,
            standard_request: None,
            request_description: String::from_str("Unknown Request"),
        })
    } else {
        None
    };
    let t = UsbTransaction {
        id,
        transfer_type: endpoint_transfer_type(endpoint),
        setup_packet,
        data_packet: Some(UsbDataPacket::new(payload, direction, n)),
        status_packet: Some(UsbStatusPacket { status: UsbTransferStatus::ACK, endpoint: n }),
        device_address: data[offset + 2],
        endpoint: n,
        fields,
    };
    assert(t@.fields =~= seq![("speed"@, "High"@), ("packet_type"@, spec_hex_byte(packet_type))]);
    t
}

/// Decodes one buffer of man-in-the-middle traffic: from eight bytes on,
/// packets are read one after another while eight bytes remain, each
/// payload cut to the data that is there.
pub fn process_mitm_traffic(data: &[u8]) -> (r: Vec<UsbTransaction>)
    ensures
        transactions_model(r@) == spec_process_mitm_traffic(data@),
{
    let mut transactions: Vec<UsbTransaction> = Vec::new();
    if data.len() < 8 {
        assert(transactions_model(transactions@) =~= spec_process_mitm_traffic(data@));
        return transactions;
    }
    let mut offset: usize = 0;
    while data.len() - offset >= 8
        invariant
            offset <= data@.len(),
            transactions@.len() <= offset,
            transactions_model(transactions@) + spec_mitm_walk(data@, offset as int, transactions@.len() as int)
                == spec_mitm_walk(data@, 0, 0),
        decreases data@.len() - offset,
    {
        let ghost before = transactions_model(transactions@);
        let count = transactions.len();
        let mut len = data[offset + 3] as usize;
        if len > data.len() - offset - 4 {
            len = data.len() - offset - 4;
        }
        transactions.push(mitm_transaction(data, offset, count as u64 + 1));
        let ghost rest = spec_mitm_walk(data@, (offset + 4 + len) as int, (count + 1) as int);
        assert(transactions_model(transactions@) =~= before.push(spec_mitm_transaction(data@, offset as int, (count + 1) as u64)));
        assert(before + spec_mitm_walk(data@, offset as int, count as int) =~= transactions_model(transactions@) + rest);
        offset = offset + 4 + len;
    }
    assert(transactions_model(transactions@) =~= transactions_model(transactions@) + spec_mitm_walk(data@, offset as int, transactions@.len() as int));
    transactions
}

/// Whether a byte starts a packet of the analyzer's own capture format:
/// 0x80 setup, 0x81 control data, 0x82 status, 0x83 bulk.
pub open spec fn spec_is_capture_header(b: u8) -> bool {
    b == 0x80 || b == 0x81 || b == 0x82 || b == 0x83
}

/// Length of a variable-length body starting at `i`: up to and including the
/// first byte that is followed by a header byte, or to the end of the data.
pub open spec fn spec_body_len(raw: Seq<u8>, i: int) -> int
    decreases raw.len() - i,
{
    if i < 0 || i >= raw.len() {
        0
    } else if i + 1 < raw.len() && spec_is_capture_header(raw[i + 1]) {
        1
    } else {
        1 + spec_body_len(raw, i + 1)
    }
}

/// The packets of the analyzer's capture format found from `offset` on, as
/// `(start, end)` ranges: a setup packet is 10 bytes, a status packet 3,
/// a data or bulk packet 2 bytes plus its body; a byte that starts no
/// packet, or a setup or status packet cut short, is skipped.
pub open spec fn spec_capture_frames(raw: Seq<u8>, offset: int) -> Seq<(int, int)>
    decreases raw.len() - offset,
{
    if offset < 0 || offset + 2 > raw.len() {
        Seq::empty()
    } else {
        let t = raw[offset];
        if t == 0x80 {
            if offset + 10 > raw.len() {
                spec_capture_frames(raw, offset + 1)
            } else {
                seq![(offset, offset + 10)] + spec_capture_frames(raw, offset + 10)
            }
        } else if t == 0x81 || t == 0x83 {
            proof {
                lemma_body_len_bounds(raw, offset + 2);
            }
            let end = offset + 2 + spec_body_len(raw, offset + 2);
            seq![(offset, end)] + spec_capture_frames(raw, end)
        } else if t == 0x82 {
            if offset + 3 > raw.len() {
                spec_capture_frames(raw, offset + 1)
            } else {
                seq![(offset, offset + 3)] + spec_capture_frames(raw, offset + 3)
            }
        } else {
            spec_capture_frames(raw, offset + 1)
        }
    }
}

/// A body never runs past the end of the data.
pub proof fn lemma_body_len_bounds(raw: Seq<u8>, i: int)
    requires
        0 <= i <= raw.len(),
    ensures
        0 <= spec_body_len(raw, i) <= raw.len() - i,
    decreases raw.len() - i,
{
    if i < raw.len() && !(i + 1 < raw.len() && spec_is_capture_header(raw[i + 1])) {
        lemma_body_len_bounds(raw, i + 1);
    }
}

fn body_len(raw: &[u8], start: usize) -> (n: usize)
    requires
        start <= raw@.len(),
    ensures
        n == spec_body_len(raw@, start as int),
        n <= raw@.len() - start,
{
    proof { lemma_body_len_bounds(raw@, start as int); }
    let mut n: usize = 0;
    let mut i = start;
    while i < raw.len()
        invariant
            start <= i <= raw@.len(),
            n == i - start,
            spec_body_len(raw@, start as int) == n + spec_body_len(raw@, i as int),
        decreases raw@.len() - i,
    {
        if i + 1 < raw.len() && (raw[i + 1] == 0x80 || raw[i + 1] == 0x81 || raw[i + 1] == 0x82 || raw[i + 1] == 0x83) {
            return n + 1;
        }
        n += 1;
        i += 1;
    }
    n
}

/// Model of a list of ranges.
pub open spec fn ranges_model(v: Seq<(usize, usize)>) -> Seq<(int, int)> {
    Seq::new(v.len(), |i: int| (v[i].0 as int, v[i].1 as int))
}

/// The packets of the analyzer's capture format in a buffer, as `(start,
/// end)` ranges; a buffer under two bytes has none.
pub fn frame_capture_packets(raw: &[u8]) -> (r: Vec<(usize, usize)>)
    ensures
        ranges_model(r@) == (if raw@.len() < 2 { Seq::empty() } else { spec_capture_frames(raw@, 0) }),
{
    let mut frames: Vec<(usize, usize)> = Vec::new();
    if raw.len() < 2 {
        assert(ranges_model(frames@) =~= Seq::<(int, int)>::empty());
        return frames;
    }
    let mut offset: usize = 0;
    while raw.len() - offset >= 2
        invariant
            offset <= raw@.len(),
            raw@.len() >= 2,
            ranges_model(frames@) + spec_capture_frames(raw@, offset as int) == spec_capture_frames(raw@, 0),
        decreases raw@.len() - offset,
    {
        let ghost before = ranges_model(frames@);
        let t = raw[offset];
        if t == 0x80 {
            if raw.len() - offset < 10 {
                offset += 1;
            } else {
                frames.push((offset, offset + 10));
                assert(ranges_model(frames@) =~= before.push((offset as int, offset + 10)));
                assert(before + spec_capture_frames(raw@, offset as int) =~= ranges_model(frames@) + spec_capture_frames(raw@, offset + 10));
                offset += 10;
            }
        } else if t == 0x81 || t == 0x83 {
            let end = offset + 2 + body_len(raw, offset + 2);
            frames.push((offset, end));
            assert(ranges_model(frames@) =~= before.push((offset as int, end as int)));
            assert(before + spec_capture_frames(raw@, offset as int) =~= ranges_model(frames@) + spec_capture_frames(raw@, end as int));
            offset = end;
        } else if t == 0x82 {
            if raw.len() - offset < 3 {
                offset += 1;
            } else {
                frames.push((offset, offset + 3));
                assert(ranges_model(frames@) =~= before.push((offset as int, offset + 3)));
                assert(before + spec_capture_frames(raw@, offset as int) =~= ranges_model(frames@) + spec_capture_frames(raw@, offset + 3));
                offset += 3;
            }
        } else {
            offset += 1;
        }
    }
    assert(spec_capture_frames(raw@, offset as int) =~= Seq::<(int, int)>::empty());
    assert(ranges_model(frames@) =~= ranges_model(frames@) + spec_capture_frames(raw@, offset as int));
    frames
}

} // verus!
