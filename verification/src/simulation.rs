//! Simulated man-in-the-middle traffic for exercising the decoders without
//! hardware.

use vstd::prelude::*;
use rand::rngs::OsRng;
use rand::RngCore;

verus! {

/// One byte from the operating system's random source, through
/// `OsRng::try_fill_bytes` (rand's re-export of `rand_core::OsRng`, which
/// calls `getrandom`): `Some` with the byte it filled, or `None` when the
/// source reports an error. Nothing is stated of the byte: any value may
/// come back and two calls may differ. During early boot the call may wait
/// until the system's generator is initialised.
#[verifier::external_body]
fn random_byte() -> (b: Option<u8>) {
    let mut buf = [0u8; 1];
    match OsRng.try_fill_bytes(&mut buf) {
        Ok(()) => Some(buf[0]),
        Err(_) => None,
    }
}

/// The setup packet carried by a simulated SETUP token: a standard
/// device-to-host GET_DESCRIPTOR for 18 bytes.
pub open spec fn spec_simulated_setup() -> Seq<u8> {
    seq![0x80u8, 0x06u8, 0x01u8, 0x00u8, 0x00u8, 0x00u8, 0x12u8, 0x00u8]
}

/// What holds of every simulated packet: a SETUP (0xD0), IN (0x90) or OUT
/// (0x10) token; endpoint 1 to 15, with the direction bit set exactly for
/// IN; device address 1 or 2; a length byte from 4 to 63; then the standard
/// setup packet for a SETUP token, or as many bytes as the length byte says.
pub open spec fn spec_simulated_packet(p: Seq<u8>) -> bool {
    &&& p.len() >= 4
    &&& p[0] == 0xD0 || p[0] == 0x90 || p[0] == 0x10
    &&& p[0] == 0x90 ==> 0x81 <= p[1] <= 0x8F
    &&& p[0] != 0x90 ==> 1 <= p[1] <= 15
    &&& p[2] == 1 || p[2] == 2
    &&& 4 <= p[3] <= 63
    &&& p[0] == 0xD0 ==> p.subrange(4, p.len() as int) == spec_simulated_setup()
    &&& p[0] != 0xD0 ==> p.len() == 4 + p[3]
}

/// The packet type a draw selects: SETUP (0xD0), IN (0x90) or OUT (0x10),
/// by the draw modulo 3.
pub open spec fn spec_simulated_type(kind_draw: u8) -> u8 {
    if kind_draw % 3 == 0 {
        0xD0
    } else if kind_draw % 3 == 1 {
        0x90
    } else {
        0x10
    }
}

/// The endpoint byte a draw selects: endpoint 1 to 15, with the direction
/// bit (0x80) set for an IN token.
pub open spec fn spec_simulated_endpoint(packet_type: u8, ep_draw: u8) -> u8 {
    let n = ep_draw % 15 + 1;
    if packet_type == 0x90 { (n + 0x80) as u8 } else { n as u8 }
}

/// The packet built from the drawn bytes: type, endpoint, device address
/// `addr_draw % 2 + 1` and length `len_draw % 60 + 4`; then the standard
/// setup packet for a SETUP token, or the first `length` bytes of `payload`
/// for the others.
pub open spec fn spec_simulated_from(kind_draw: u8, ep_draw: u8, addr_draw: u8, len_draw: u8, payload: Seq<u8>) -> Seq<u8> {
    let t = spec_simulated_type(kind_draw);
    let n = len_draw % 60 + 4;
    let header = seq![t, spec_simulated_endpoint(t, ep_draw), (addr_draw % 2 + 1) as u8, n as u8];
    if t == 0xD0 {
        header + spec_simulated_setup()
    } else {
        header + payload.subrange(0, n as int)
    }
}

/// Longest payload a simulated packet carries.
pub const MAX_SIMULATED_PAYLOAD: usize = 63;

/// The simulated packet built from drawn bytes, as
/// [`spec_simulated_from`] describes it; `payload` holds at least as many
/// bytes as the drawn length.
pub fn simulated_packet_from(kind_draw: u8, ep_draw: u8, addr_draw: u8, len_draw: u8, payload: &[u8]) -> (data: Vec<u8>)
    requires
        payload@.len() >= len_draw % 60 + 4,
    ensures
        data@ == spec_simulated_from(kind_draw, ep_draw, addr_draw, len_draw, payload@),
        spec_simulated_packet(data@),
{
    let packet_type: u8 = match kind_draw % 3 {
        0 => 0xD0,
        1 => 0x90,
        _ => 0x10,
    };
    let mut endpoint: u8 = (ep_draw % 15) + 1;
    if packet_type == 0x90 {
        assert(1 <= endpoint <= 15 ==> (endpoint | 0x80) == endpoint + 0x80) by (bit_vector);
        endpoint = endpoint | 0x80;
    }
    let device_addr: u8 = (addr_draw % 2) + 1;
    let data_len: u8 = (len_draw % 60) + 4;
    let mut data: Vec<u8> = Vec::new();
    data.push(packet_type);
    data.push(endpoint);
    data.push(device_addr);
    data.push(data_len);
    let ghost header = data@;
    assert(header =~= seq![packet_type, endpoint, device_addr, data_len]);
    if packet_type == 0xD0 {
        data.push(0x80);
        data.push(0x06);
        data.push(0x01);
        data.push(0x00);
        data.push(0x00);
        data.push(0x00);
        data.push(0x12);
        data.push(0x00);
        assert(data@ =~= header + spec_simulated_setup());
        assert(data@.subrange(4, data@.len() as int) =~= spec_simulated_setup());
    } else {
        let mut i: usize = 0;
        while i < data_len as usize
            invariant
                i <= data_len,
                data_len as int <= payload@.len(),
                data@ == header + payload@.subrange(0, i as int),
            decreases data_len - i,
        {
            data.push(payload[i]);
            i += 1;
            assert(data@ =~= header + payload@.subrange(0, i as int));
        }
    }
    data
}

/// One simulated packet in the man-in-the-middle capture format
/// `[packet type, endpoint, device address, length, data…]`, built from
/// random draws: a type draw, an endpoint draw, an address draw, a length
/// draw, then payload bytes. `None` when the random source fails to give a
/// byte.
pub fn get_simulated_mitm_traffic_pub() -> (r: Option<Vec<u8>>)
    ensures
        match r {
            Some(data) => {
                &&& exists|k: u8, e: u8, a: u8, l: u8, p: Seq<u8>|
                    p.len() == MAX_SIMULATED_PAYLOAD && data@ == #[trigger] spec_simulated_from(k, e, a, l, p)
                &&& spec_simulated_packet(data@)
            },
            None => true,
        },
{
    let kind_draw = match random_byte() {
        Some(b) => b,
        None => return None,
    };
    let ep_draw = match random_byte() {
        Some(b) => b,
        None => return None,
    };
    let addr_draw = match random_byte() {
        Some(b) => b,
        None => return None,
    };
    let len_draw = match random_byte() {
        Some(b) => b,
        None => return None,
    };
    let mut payload: Vec<u8> = Vec::new();
    while payload.len() < MAX_SIMULATED_PAYLOAD
        invariant
            payload@.len() <= MAX_SIMULATED_PAYLOAD,
        decreases MAX_SIMULATED_PAYLOAD - payload@.len(),
    {
        match random_byte() {
            Some(b) => payload.push(b),
            None => return None,
        }
    }
    let data = simulated_packet_from(kind_draw, ep_draw, addr_draw, len_draw, payload.as_slice());
    assert(payload@.len() == MAX_SIMULATED_PAYLOAD);
    Some(data)
}

} // verus!
