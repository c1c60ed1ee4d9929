//! USB transactions decoded from Cynthion capture data, with their
//! mathematical models and the text that describes control requests.

use vstd::prelude::*;
use crate::text::{
    push_decimal, push_hex2, push_hex4, spec_decimal, spec_hex2, spec_hex4,
};

verus! {

/// Direction of a USB packet.
#[derive(Clone, Copy, Debug, PartialEq, Eq, Structural)]
pub enum UsbDirection {
    HostToDevice,
    DeviceToHost,
    Unknown,
}

/// Kind of USB transfer a transaction belongs to.
#[derive(Clone, Copy, Debug, PartialEq, Eq, Structural)]
pub enum UsbTransferType {
    Control,
    Bulk,
    Interrupt,
    Isochronous,
    Unknown,
}

/// Handshake that ended a transaction.
#[derive(Clone, Copy, Debug, PartialEq, Eq, Structural)]
pub enum UsbTransferStatus {
    ACK,
    NAK,
    STALL,
}

/// Type bits (5..6) of a setup packet's bmRequestType.
#[derive(Clone, Copy, Debug, PartialEq, Eq, Structural)]
pub enum UsbControlRequestType {
    Standard,
    Class,
    Vendor,
    Reserved,
}

/// Recipient bits (0..4) of a setup packet's bmRequestType.
#[derive(Clone, Copy, Debug, PartialEq, Eq, Structural)]
pub enum UsbControlRecipient {
    Device,
    Interface,
    Endpoint,
    Other,
    Reserved,
}

/// Standard device requests (bRequest of a standard setup packet).
#[derive(Clone, Copy, Debug, PartialEq, Eq, Structural)]
pub enum UsbStandardRequest {
    GetStatus,
    ClearFeature,
    SetFeature,
    SetAddress,
    GetDescriptor,
    SetDescriptor,
    GetConfiguration,
    SetConfiguration,
    GetInterface,
    SetInterface,
    SynchFrame,
    SetSel,
    SetIsochDelay,
    SetFeatureSelector,
}

/// A decoded setup packet.
#[allow(non_snake_case)]
pub struct UsbSetupPacket {
    pub bmRequestType: u8,
    pub bRequest: u8,
    pub wValue: u16,
    pub wIndex: u16,
    pub wLength: u16,
    pub direction: UsbDirection,
    pub request_type: UsbControlRequestType,
    pub recipient: UsbControlRecipient,
    pub standard_request: Option<UsbStandardRequest>,
    pub request_description: String,
}

/// The data stage of a transaction.
pub struct UsbDataPacket {
    pub data: Vec<u8>,
    pub direction: UsbDirection,
    pub endpoint: u8,
}

/// The status stage of a transaction.
#[derive(Clone, Copy, Debug, PartialEq, Eq, Structural)]
pub struct UsbStatusPacket {
    pub status: UsbTransferStatus,
    pub endpoint: u8,
}

/// One decoded USB transaction. `fields` holds named display values, each
/// name at most once, in the order they were recorded.
pub struct UsbTransaction {
    pub id: u64,
    pub transfer_type: UsbTransferType,
    pub setup_packet: Option<UsbSetupPacket>,
    pub data_packet: Option<UsbDataPacket>,
    pub status_packet: Option<UsbStatusPacket>,
    pub device_address: u8,
    pub endpoint: u8,
    pub fields: Vec<(String, String)>,
}

/// Model of a setup packet.
pub struct SetupModel {
    pub bm_request_type: u8,
    pub b_request: u8,
    pub w_value: u16,
    pub w_index: u16,
    pub w_length: u16,
    pub direction: UsbDirection,
    pub request_type: UsbControlRequestType,
    pub recipient: UsbControlRecipient,
    pub standard_request: Option<UsbStandardRequest>,
    pub description: Seq<char>,
}

/// Model of a data stage.
pub struct DataModel {
    pub data: Seq<u8>,
    pub direction: UsbDirection,
    pub endpoint: u8,
}

/// Model of a transaction.
pub struct TransactionModel {
    pub id: u64,
    pub transfer_type: UsbTransferType,
    pub setup: Option<SetupModel>,
    pub data: Option<DataModel>,
    pub status: Option<UsbStatusPacket>,
    pub device_address: u8,
    pub endpoint: u8,
    pub fields: Seq<(Seq<char>, Seq<char>)>,
}

impl View for UsbSetupPacket {
    type V = SetupModel;

    open spec fn view(&self) -> SetupModel {
        SetupModel {
            bm_request_type: self.bmRequestType,
            b_request: self.bRequest,
            w_value: self.wValue,
            w_index: self.wIndex,
            w_length: self.wLength,
            direction: self.direction,
            request_type: self.request_type,
            recipient: self.recipient,
            standard_request: self.standard_request,
            description: self.request_description@,
        }
    }
}

impl View for UsbDataPacket {
    type V = DataModel;

    open spec fn view(&self) -> DataModel {
        DataModel { data: self.data@, direction: self.direction, endpoint: self.endpoint }
    }
}

/// Model of a list of named display values.
pub open spec fn fields_model(f: Seq<(String, String)>) -> Seq<(Seq<char>, Seq<char>)> {
    Seq::new(f.len(), |i: int| (f[i].0@, f[i].1@))
}

impl View for UsbTransaction {
    type V = TransactionModel;

    open spec fn view(&self) -> TransactionModel {
        TransactionModel {
            id: self.id,
            transfer_type: self.transfer_type,
            setup: match self.setup_packet {
                Some(p) => Some(p@),
                None => None,
            },
            data: match self.data_packet {
                Some(p) => Some(p@),
                None => None,
            },
            status: self.status_packet,
            device_address: self.device_address,
            endpoint: self.endpoint,
            fields: fields_model(self.fields@),
        }
    }
}

/// Model of a sequence of transactions.
pub open spec fn transactions_model(t: Seq<UsbTransaction>) -> Seq<TransactionModel> {
    Seq::new(t.len(), |i: int| t[i]@)
}

impl UsbDataPacket {
    /// A data stage carrying `data`.
    pub fn new(data: Vec<u8>, direction: UsbDirection, endpoint: u8) -> (p: UsbDataPacket)
        ensures
            p.data@ == data@,
            p.direction == direction,
            p.endpoint == endpoint,
    {
        UsbDataPacket { data, direction, endpoint }
    }
}

/// Direction given by bit 7 of an endpoint address.
pub open spec fn spec_endpoint_direction(endpoint: u8) -> UsbDirection {
    if endpoint >= 0x80 { UsbDirection::DeviceToHost } else { UsbDirection::HostToDevice }
}

/// Direction given by bit 7 of an endpoint address.
pub fn endpoint_direction(endpoint: u8) -> (d: UsbDirection)
    ensures
        d == spec_endpoint_direction(endpoint),
{
    if endpoint & 0x80 != 0 {
        assert(endpoint & 0x80 != 0 ==> endpoint >= 0x80) by (bit_vector);
        UsbDirection::DeviceToHost
    } else {
        assert(endpoint & 0x80 == 0 ==> endpoint < 0x80) by (bit_vector);
        UsbDirection::HostToDevice
    }
}

/// Endpoint number: the endpoint address without its direction bit.
pub open spec fn spec_endpoint_number(endpoint: u8) -> u8 {
    (endpoint % 128) as u8
}

/// Endpoint number: the endpoint address without its direction bit.
pub fn endpoint_number(endpoint: u8) -> (n: u8)
    ensures
        n == spec_endpoint_number(endpoint),
        n < 128,
{
    assert(endpoint & 0x7F == endpoint % 128) by (bit_vector);
    endpoint & 0x7F
}

/// Name of a direction as debug output spells it.
pub open spec fn spec_direction_name(d: UsbDirection) -> Seq<char> {
    match d {
        UsbDirection::HostToDevice => "HostToDevice"@,
        UsbDirection::DeviceToHost => "DeviceToHost"@,
        UsbDirection::Unknown => "Unknown"@,
    }
}

/// Name of a direction as debug output spells it.
pub fn direction_name(d: UsbDirection) -> (s: &'static str)
    ensures
        s@ == spec_direction_name(d),
{
    match d {
        UsbDirection::HostToDevice => "HostToDevice",
        UsbDirection::DeviceToHost => "DeviceToHost",
        UsbDirection::Unknown => "Unknown",
    }
}

/// Name of a transfer type as debug output spells it.
pub open spec fn spec_transfer_type_name(t: UsbTransferType) -> Seq<char> {
    match t {
        UsbTransferType::Control => "Control"@,
        UsbTransferType::Bulk => "Bulk"@,
        UsbTransferType::Interrupt => "Interrupt"@,
        UsbTransferType::Isochronous => "Isochronous"@,
        UsbTransferType::Unknown => "Unknown"@,
    }
}

/// Name of a transfer type as debug output spells it.
pub fn transfer_type_name(t: UsbTransferType) -> (s: &'static str)
    ensures
        s@ == spec_transfer_type_name(t),
{
    match t {
        UsbTransferType::Control => "Control",
        UsbTransferType::Bulk => "Bulk",
        UsbTransferType::Interrupt => "Interrupt",
        UsbTransferType::Isochronous => "Isochronous",
        UsbTransferType::Unknown => "Unknown",
    }
}

/// Name of a request type as debug output spells it.
pub open spec fn spec_request_type_name(t: UsbControlRequestType) -> Seq<char> {
    match t {
        UsbControlRequestType::Standard => "Standard"@,
        UsbControlRequestType::Class => "Class"@,
        UsbControlRequestType::Vendor => "Vendor"@,
        UsbControlRequestType::Reserved => "Reserved"@,
    }
}

/// Name of a request type as debug output spells it.
pub fn request_type_name(t: UsbControlRequestType) -> (s: &'static str)
    ensures
        s@ == spec_request_type_name(t),
{
    match t {
        UsbControlRequestType::Standard => "Standard",
        UsbControlRequestType::Class => "Class",
        UsbControlRequestType::Vendor => "Vendor",
        UsbControlRequestType::Reserved => "Reserved",
    }
}

/// Name of a recipient as debug output spells it.
pub open spec fn spec_recipient_name(r: UsbControlRecipient) -> Seq<char> {
    match r {
        UsbControlRecipient::Device => "Device"@,
        UsbControlRecipient::Interface => "Interface"@,
        UsbControlRecipient::Endpoint => "Endpoint"@,
        UsbControlRecipient::Other => "Other"@,
        UsbControlRecipient::Reserved => "Reserved"@,
    }
}

/// Name of a recipient as debug output spells it.
pub fn recipient_name(r: UsbControlRecipient) -> (s: &'static str)
    ensures
        s@ == spec_recipient_name(r),
{
    match r {
        UsbControlRecipient::Device => "Device",
        UsbControlRecipient::Interface => "Interface",
        UsbControlRecipient::Endpoint => "Endpoint",
        UsbControlRecipient::Other => "Other",
        UsbControlRecipient::Reserved => "Reserved",
    }
}

/// Name of a standard request as debug output spells it.
pub open spec fn spec_standard_request_name(r: UsbStandardRequest) -> Seq<char> {
    match r {
        UsbStandardRequest::GetStatus => "GetStatus"@,
        UsbStandardRequest::ClearFeature => "ClearFeature"@,
        UsbStandardRequest::SetFeature => "SetFeature"@,
        UsbStandardRequest::SetAddress => "SetAddress"@,
        UsbStandardRequest::GetDescriptor => "GetDescriptor"@,
        UsbStandardRequest::SetDescriptor => "SetDescriptor"@,
        UsbStandardRequest::GetConfiguration => "GetConfiguration"@,
        UsbStandardRequest::SetConfiguration => "SetConfiguration"@,
        UsbStandardRequest::GetInterface => "GetInterface"@,
        UsbStandardRequest::SetInterface => "SetInterface"@,
        UsbStandardRequest::SynchFrame => "SynchFrame"@,
        UsbStandardRequest::SetSel => "SetSel"@,
        UsbStandardRequest::SetIsochDelay => "SetIsochDelay"@,
        UsbStandardRequest::SetFeatureSelector => "SetFeatureSelector"@,
    }
}

/// Name of a standard request as debug output spells it.
pub fn standard_request_name(r: UsbStandardRequest) -> (s: &'static str)
    ensures
        s@ == spec_standard_request_name(r),
{
    match r {
        UsbStandardRequest::GetStatus => "GetStatus",
        UsbStandardRequest::ClearFeature => "ClearFeature",
        UsbStandardRequest::SetFeature => "SetFeature",
        UsbStandardRequest::SetAddress => "SetAddress",
        UsbStandardRequest::GetDescriptor => "GetDescriptor",
        UsbStandardRequest::SetDescriptor => "SetDescriptor",
        UsbStandardRequest::GetConfiguration => "GetConfiguration",
        UsbStandardRequest::SetConfiguration => "SetConfiguration",
        UsbStandardRequest::GetInterface => "GetInterface",
        UsbStandardRequest::SetInterface => "SetInterface",
        UsbStandardRequest::SynchFrame => "SynchFrame",
        UsbStandardRequest::SetSel => "SetSel",
        UsbStandardRequest::SetIsochDelay => "SetIsochDelay",
        UsbStandardRequest::SetFeatureSelector => "SetFeatureSelector",
    }
}

/// Name of a status as it is displayed.
pub open spec fn spec_status_name(s: UsbTransferStatus) -> Seq<char> {
    match s {
        UsbTransferStatus::ACK => "ACK"@,
        UsbTransferStatus::NAK => "NAK"@,
        UsbTransferStatus::STALL => "STALL"@,
    }
}

/// Name of a status as it is displayed.
pub fn status_name(s: UsbTransferStatus) -> (r: &'static str)
    ensures
        r@ == spec_status_name(s),
{
    match s {
        UsbTransferStatus::ACK => "ACK",
        UsbTransferStatus::NAK => "NAK",
        UsbTransferStatus::STALL => "STALL",
    }
}

/// Request type from bits 5..6 of bmRequestType.
pub open spec fn spec_request_type(bm: u8) -> UsbControlRequestType {
    let t = (bm as int / 32) % 4;
    if t == 0 {
        UsbControlRequestType::Standard
    } else if t == 1 {
        UsbControlRequestType::Class
    } else if t == 2 {
        UsbControlRequestType::Vendor
    } else {
        UsbControlRequestType::Reserved
    }
}

/// Recipient from bits 0..4 of bmRequestType.
pub open spec fn spec_recipient(bm: u8) -> UsbControlRecipient {
    let r = bm as int % 32;
    if r == 0 {
        UsbControlRecipient::Device
    } else if r == 1 {
        UsbControlRecipient::Interface
    } else if r == 2 {
        UsbControlRecipient::Endpoint
    } else if r == 3 {
        UsbControlRecipient::Other
    } else {
        UsbControlRecipient::Reserved
    }
}

/// Standard request named by bRequest, for standard requests.
pub open spec fn spec_standard_request(request_type: UsbControlRequestType, b_request: u8) -> Option<UsbStandardRequest> {
    if request_type != UsbControlRequestType::Standard {
        None
    } else if b_request == 0x00 {
        Some(UsbStandardRequest::GetStatus)
    } else if b_request == 0x01 {
        Some(UsbStandardRequest::ClearFeature)
    } else if b_request == 0x03 {
        Some(UsbStandardRequest::SetFeature)
    } else if b_request == 0x05 {
        Some(UsbStandardRequest::SetAddress)
    } else if b_request == 0x06 {
        Some(UsbStandardRequest::GetDescriptor)
    } else if b_request == 0x07 {
        Some(UsbStandardRequest::SetDescriptor)
    } else if b_request == 0x08 {
        Some(UsbStandardRequest::GetConfiguration)
    } else if b_request == 0x09 {
        Some(UsbStandardRequest::SetConfiguration)
    } else if b_request == 0x0A {
        Some(UsbStandardRequest::GetInterface)
    } else if b_request == 0x0B {
        Some(UsbStandardRequest::SetInterface)
    } else if b_request == 0x0C {
        Some(UsbStandardRequest::SynchFrame)
    } else if b_request == 0x30 {
        Some(UsbStandardRequest::SetSel)
    } else if b_request == 0x31 {
        Some(UsbStandardRequest::SetIsochDelay)
    } else if b_request == 0x33 {
        Some(UsbStandardRequest::SetFeatureSelector)
    } else {
        None
    }
}

/// Request type from bits 5..6 of bmRequestType.
pub fn request_type_of(bm: u8) -> (t: UsbControlRequestType)
    ensures
        t == spec_request_type(bm),
{
    match (bm / 32) % 4 {
        0 => UsbControlRequestType::Standard,
        1 => UsbControlRequestType::Class,
        2 => UsbControlRequestType::Vendor,
        _ => UsbControlRequestType::Reserved,
    }
}

/// Recipient from bits 0..4 of bmRequestType.
pub fn recipient_of(bm: u8) -> (r: UsbControlRecipient)
    ensures
        r == spec_recipient(bm),
{
    match bm % 32 {
        0 => UsbControlRecipient::Device,
        1 => UsbControlRecipient::Interface,
        2 => UsbControlRecipient::Endpoint,
        3 => UsbControlRecipient::Other,
        _ => UsbControlRecipient::Reserved,
    }
}

/// Standard request named by bRequest, for standard requests.
pub fn standard_request_of(request_type: UsbControlRequestType, b_request: u8) -> (r: Option<UsbStandardRequest>)
    ensures
        r == spec_standard_request(request_type, b_request),
{
    if request_type != UsbControlRequestType::Standard {
        return None;
    }
    match b_request {
        0x00 => Some(UsbStandardRequest::GetStatus),
        0x01 => Some(UsbStandardRequest::ClearFeature),
        0x03 => Some(UsbStandardRequest::SetFeature),
        0x05 => Some(UsbStandardRequest::SetAddress),
        0x06 => Some(UsbStandardRequest::GetDescriptor),
        0x07 => Some(UsbStandardRequest::SetDescriptor),
        0x08 => Some(UsbStandardRequest::GetConfiguration),
        0x09 => Some(UsbStandardRequest::SetConfiguration),
        0x0A => Some(UsbStandardRequest::GetInterface),
        0x0B => Some(UsbStandardRequest::SetInterface),
        0x0C => Some(UsbStandardRequest::SynchFrame),
        0x30 => Some(UsbStandardRequest::SetSel),
        0x31 => Some(UsbStandardRequest::SetIsochDelay),
        0x33 => Some(UsbStandardRequest::SetFeatureSelector),
        _ => None,
    }
}

/// Name of the descriptor type a GET_DESCRIPTOR request asks for.
pub open spec fn spec_requested_descriptor_name(t: u8) -> Seq<char> {
    if t == 1 { "DEVICE"@ } else if t == 2 { "CONFIGURATION"@ } else if t == 3 { "STRING"@ }
    else if t == 4 { "INTERFACE"@ } else if t == 5 { "ENDPOINT"@ } else if t == 6 { "DEVICE_QUALIFIER"@ }
    else if t == 7 { "OTHER_SPEED_CONFIGURATION"@ } else if t == 8 { "INTERFACE_POWER"@ }
    else if t == 9 { "OTG"@ } else if t == 10 { "DEBUG"@ } else if t == 11 { "INTERFACE_ASSOCIATION"@ }
    else if t == 15 { "BOS"@ } else if t == 16 { "DEVICE_CAPABILITY"@ } else if t == 17 { "HID"@ }
    else if t == 18 { "REPORT"@ } else if t == 19 { "PHYSICAL"@ }
    else if t == 20 { "CLASS_SPECIFIC_INTERFACE"@ } else if t == 21 { "CLASS_SPECIFIC_ENDPOINT"@ }
    else if t == 22 { "HUB"@ } else if t == 23 { "SUPERSPEED_HUB"@ } else if t == 24 { "SS_ENDPOINT_COMPANION"@ }
    else { "UNKNOWN"@ }
}

/// Name of the descriptor type a GET_DESCRIPTOR request asks for.
pub fn requested_descriptor_name(t: u8) -> (s: &'static str)
    ensures
        s@ == spec_requested_descriptor_name(t),
{
    match t {
        1 => "DEVICE",
        2 => "CONFIGURATION",
        3 => "STRING",
        4 => "INTERFACE",
        5 => "ENDPOINT",
        6 => "DEVICE_QUALIFIER",
        7 => "OTHER_SPEED_CONFIGURATION",
        8 => "INTERFACE_POWER",
        9 => "OTG",
        10 => "DEBUG",
        11 => "INTERFACE_ASSOCIATION",
        15 => "BOS",
        16 => "DEVICE_CAPABILITY",
        17 => "HID",
        18 => "REPORT",
        19 => "PHYSICAL",
        20 => "CLASS_SPECIFIC_INTERFACE",
        21 => "CLASS_SPECIFIC_ENDPOINT",
        22 => "HUB",
        23 => "SUPERSPEED_HUB",
        24 => "SS_ENDPOINT_COMPANION",
        _ => "UNKNOWN",
    }
}

/// The `(wValue=0x…, wIndex=0x…, wLength=…)` tail of a request description.
pub open spec fn spec_setup_values(w_value: u16, w_index: u16, w_length: u16) -> Seq<char> {
    "(wValue=0x"@ + spec_hex4(w_value) + ", wIndex=0x"@ + spec_hex4(w_index) + ", wLength="@
        + spec_decimal(w_length as nat) + ")"@
}

/// Human-readable description of a control request.
pub open spec fn spec_request_description(
    b_request: u8,
    w_value: u16,
    w_index: u16,
    w_length: u16,
    request_type: UsbControlRequestType,
    recipient: UsbControlRecipient,
    standard_request: Option<UsbStandardRequest>,
) -> Seq<char> {
    match standard_request {
        Some(req) => {
            let info = if req == UsbStandardRequest::GetDescriptor {
                " (type="@ + spec_requested_descriptor_name((w_value as int / 256) as u8) + ", index="@
                    + spec_decimal((w_value as int % 256) as nat) + ")"@
            } else {
                Seq::empty()
            };
            spec_standard_request_name(req) + info + " "@ + spec_setup_values(w_value, w_index, w_length)
        },
        None => {
            if request_type == UsbControlRequestType::Class {
                "Class Request: 0x"@ + spec_hex2(b_request) + " to "@ + spec_recipient_name(recipient)
                    + " "@ + spec_setup_values(w_value, w_index, w_length)
            } else if request_type == UsbControlRequestType::Vendor {
                "Vendor Request: 0x"@ + spec_hex2(b_request) + " to "@ + spec_recipient_name(recipient)
                    + " "@ + spec_setup_values(w_value, w_index, w_length)
            } else {
                "Request: 0x"@ + spec_hex2(b_request) + " (Type: "@ + spec_request_type_name(request_type)
                    + ", Recipient: "@ + spec_recipient_name(recipient) + ", wValue=0x"@ + spec_hex4(w_value)
                    + ", wIndex=0x"@ + spec_hex4(w_index) + ", wLength="@ + spec_decimal(w_length as nat)
                    + ")"@
            }
        },
    }
}

fn push_setup_values(out: &mut String, w_value: u16, w_index: u16, w_length: u16)
    ensures
        final(out)@ == old(out)@ + spec_setup_values(w_value, w_index, w_length),
{
    out.append("(wValue=0x");
    push_hex4(out, w_value);
    out.append(", wIndex=0x");
    push_hex4(out, w_index);
    out.append(", wLength=");
    push_decimal(out, w_length as u64);
    out.append(")");
    assert(final(out)@ =~= old(out)@ + spec_setup_values(w_value, w_index, w_length));
}

/// Human-readable description of a control request.
pub fn request_description(
    b_request: u8,
    w_value: u16,
    w_index: u16,
    w_length: u16,
    request_type: UsbControlRequestType,
    recipient: UsbControlRecipient,
    standard_request: Option<UsbStandardRequest>,
) -> (s: String)
    ensures
        s@ == spec_request_description(b_request, w_value, w_index, w_length, request_type, recipient, standard_request),
{
    let mut s = String::new();
    match standard_request {
        Some(req) => {
            s.append(standard_request_name(req));
            if req == UsbStandardRequest::GetDescriptor {
                s.append(" (type=");
                s.append(requested_descriptor_name((w_value / 256) as u8));
                s.append(", index=");
                push_decimal(&mut s, (w_value % 256) as u64);
                s.append(")");
            }
            s.append(" ");
            push_setup_values(&mut s, w_value, w_index, w_length);
        },
        None => {
            if request_type == UsbControlRequestType::Class {
                s.append("Class Request: 0x");
                push_hex2(&mut s, b_request);
                s.append(" to ");
                s.append(recipient_name(recipient));
                s.append(" ");
                push_setup_values(&mut s, w_value, w_index, w_length);
            } else if request_type == UsbControlRequestType::Vendor {
                s.append("Vendor Request: 0x");
                push_hex2(&mut s, b_request);
                s.append(" to ");
                s.append(recipient_name(recipient));
                s.append(" ");
                push_setup_values(&mut s, w_value, w_index, w_length);
            } else {
                s.append("Request: 0x");
                push_hex2(&mut s, b_request);
                s.append(" (Type: ");
                s.append(request_type_name(request_type));
                s.append(", Recipient: ");
                s.append(recipient_name(recipient));
                s.append(", wValue=0x");
                push_hex4(&mut s, w_value);
                s.append(", wIndex=0x");
                push_hex4(&mut s, w_index);
                s.append(", wLength=");
                push_decimal(&mut s, w_length as u64);
                s.append(")");
            }
        },
    }
    assert(s@ =~= spec_request_description(b_request, w_value, w_index, w_length, request_type, recipient, standard_request));
    s
}

/// Model of the setup packet read from the eight bytes `b`.
pub open spec fn spec_setup_model(b: Seq<u8>, direction: UsbDirection) -> SetupModel {
    let bm = b[0];
    let req = b[1];
    let w_value = (b[2] as int + 256 * b[3] as int) as u16;
    let w_index = (b[4] as int + 256 * b[5] as int) as u16;
    let w_length = (b[6] as int + 256 * b[7] as int) as u16;
    let request_type = spec_request_type(bm);
    let recipient = spec_recipient(bm);
    let standard = spec_standard_request(request_type, req);
    SetupModel {
        bm_request_type: bm,
        b_request: req,
        w_value,
        w_index,
        w_length,
        direction,
        request_type,
        recipient,
        standard_request: standard,
        description: spec_request_description(req, w_value, w_index, w_length, request_type, recipient, standard),
    }
}

/// A little-endian 16-bit value from two bytes.
pub fn le16(lo: u8, hi: u8) -> (v: u16)
    ensures
        v == lo as int + 256 * hi as int,
{
    lo as u16 + (hi as u16) * 256
}

/// Decodes the eight bytes of a setup packet.
pub fn parse_setup_packet(b: &[u8], direction: UsbDirection) -> (p: UsbSetupPacket)
    requires
        b@.len() >= 8,
    ensures
        p@ == spec_setup_model(b@, direction),
{
    let bm = b[0];
    let req = b[1];
    let w_value = le16(b[2], b[3]);
    let w_index = le16(b[4], b[5]);
    let w_length = le16(b[6], b[7]);
    let request_type = request_type_of(bm);
    let recipient = recipient_of(bm);
    let standard = standard_request_of(request_type, req);
    let description = request_description(req, w_value, w_index, w_length, request_type, recipient, standard);
    UsbSetupPacket {
        bmRequestType: bm,
        bRequest: req,
        wValue: w_value,
        wIndex: w_index,
        wLength: w_length,
        direction,
        request_type,
        recipient,
        standard_request: standard,
        request_description: description,
    }
}

/// How a direction is shown in the traffic tree.
pub open spec fn spec_direction_display(d: UsbDirection) -> Seq<char> {
    match d {
        UsbDirection::HostToDevice => "Host to Device"@,
        UsbDirection::DeviceToHost => "Device to Host"@,
        UsbDirection::Unknown => "Unknown Direction"@,
    }
}

/// How a direction is shown in the traffic tree.
pub fn direction_display(d: UsbDirection) -> (s: &'static str)
    ensures
        s@ == spec_direction_display(d),
{
    match d {
        UsbDirection::HostToDevice => "Host to Device",
        UsbDirection::DeviceToHost => "Device to Host",
        UsbDirection::Unknown => "Unknown Direction",
    }
}

/// One-line summary of a transaction: the request description of its setup
/// stage, else the direction and size of its data stage, else "No data".
pub open spec fn spec_transaction_summary(t: TransactionModel) -> Seq<char> {
    match t.setup {
        Some(s) => s.description,
        None => match t.data {
            Some(d) => spec_direction_display(d.direction) + ", "@ + spec_decimal(d.data.len()) + " bytes"@,
            None => "No data"@,
        },
    }
}

impl UsbTransaction {
    /// One-line summary of the transaction.
    pub fn get_summary(&self) -> (s: String)
        ensures
            s@ == spec_transaction_summary(self@),
    {
        match &self.setup_packet {
            Some(setup) => setup.request_description.clone(),
            None => match &self.data_packet {
                Some(d) => {
                    let mut s = String::from_str(direction_display(d.direction));
                    s.append(", ");
                    push_decimal(&mut s, d.data.len() as u64);
                    s.append(" bytes");
                    s
                },
                None => String::from_str("No data"),
            },
        }
    }
}

} // verus!
