//! Properties that hold across the library's operations.

use vstd::prelude::*;
use crate::decode::{
    spec_packet_transaction, spec_partial_transaction, spec_process_transactions, spec_walk,
};
use crate::capture::{
    spec_start_value, spec_starter_next, spec_starter_valid, spec_steps_left, CaptureAction, StartPhase,
    StarterModel,
};
use crate::app_state::{
    spec_app_commands, spec_app_step, spec_poll_delay_ms, AppModel, Command, Message,
};
use crate::class_codes::{spec_class_name, spec_class_table};
use crate::descriptor::{spec_add_unique, DescriptorModel};
use crate::device_view::{spec_device_update, spec_selection_after_load, DeviceCommand, DeviceMessage, DeviceViewModel};
use crate::descriptor::{spec_descriptor_update, spec_descriptors_update, DescriptorMessage, DescriptorViewModel};
use crate::devices::DeviceInfoModel;
use crate::speed::{Speed, State};
use crate::traffic::{items_model, TrafficItem, TrafficItemModel, TrafficMessage};
use crate::descriptor::spec_frame_descriptors;
use crate::prepare::{failed, spec_prep_next, spec_prep_steps_left, spec_prep_valid, OutcomeModel, PrepAction, PrepPhase};
use crate::descriptor_types::{spec_descriptor_type_name, spec_descriptor_type_table};
use crate::stream::{spec_frame, spec_length_prefix, spec_next_packet};
use crate::vendor_ids::{spec_vendor_name, spec_vendor_table};
use crate::control::{spec_on_data, spec_stop_next, QueueAction, StopAction, StopModel, StopPhase, TransferStateModel};

verus! {

/// One packet of capture data: header fields and payload.
pub struct CapturedPacket {
    pub packet_type: u8,
    pub endpoint: u8,
    pub device_address: u8,
    pub payload: Seq<u8>,
}

/// A packet as it appears in capture data: its four-byte header, then its
/// payload.
pub open spec fn spec_encode_packet(p: CapturedPacket) -> Seq<u8> {
    seq![p.packet_type, p.endpoint, p.device_address, p.payload.len() as u8] + p.payload
}

/// Packets one after another as they appear in capture data.
pub open spec fn spec_encode_packets(ps: Seq<CapturedPacket>) -> Seq<u8>
    decreases ps.len(),
{
    if ps.len() == 0 {
        Seq::empty()
    } else {
        spec_encode_packet(ps[0]) + spec_encode_packets(ps.drop_first())
    }
}

proof fn lemma_packet_shift(pre: Seq<u8>, d: Seq<u8>, o: int, id: u64)
    requires
        0 <= o,
        o + 4 <= d.len(),
        o + 4 + d[o + 3] as int <= d.len(),
    ensures
        spec_packet_transaction(pre + d, pre.len() + o, id) == spec_packet_transaction(d, o, id),
{
    reveal(spec_packet_transaction);
    let a = pre + d;
    let p = pre.len() as int;
    assert(a[p + o] == d[o]);
    assert(a[p + o + 1] == d[o + 1]);
    assert(a[p + o + 2] == d[o + 2]);
    assert(a[p + o + 3] == d[o + 3]);
    let n = d[o + 3] as int;
    assert(a.subrange(p + o + 4, p + o + 4 + n) =~= d.subrange(o + 4, o + 4 + n));
}

proof fn lemma_partial_shift(pre: Seq<u8>, d: Seq<u8>, o: int, id: u64)
    requires
        0 <= o,
        o + 4 <= d.len(),
    ensures
        spec_partial_transaction(pre + d, pre.len() + o, id) == spec_partial_transaction(d, o, id),
{
    reveal(spec_partial_transaction);
    let a = pre + d;
    let p = pre.len() as int;
    assert(a[p + o] == d[o]);
    assert(a[p + o + 1] == d[o + 1]);
    assert(a[p + o + 2] == d[o + 2]);
    assert(a[p + o + 3] == d[o + 3]);
    assert(a.subrange(p + o + 4, a.len() as int) =~= d.subrange(o + 4, d.len() as int));
}

proof fn lemma_walk_shift(pre: Seq<u8>, d: Seq<u8>, o: int, c: int)
    requires
        0 <= o,
    ensures
        spec_walk(pre + d, pre.len() + o, c) == spec_walk(d, o, c),
    decreases d.len() - o,
{
    let a = pre + d;
    let p = pre.len() as int;
    if o + 4 > d.len() {
    } else {
        assert(a[p + o + 3] == d[o + 3]);
        let n = d[o + 3] as int;
        if o + 4 + n > d.len() {
            lemma_partial_shift(pre, d, o, (c + 1) as u64);
        } else {
            lemma_packet_shift(pre, d, o, (c + 1) as u64);
            lemma_walk_shift(pre, d, o + 4 + n, c + 1);
            assert(p + o + 4 + n == p + (o + 4 + n));
        }
    }
}

proof fn lemma_packet_extend(d: Seq<u8>, tail: Seq<u8>, o: int, id: u64)
    requires
        0 <= o,
        o + 4 <= d.len(),
        o + 4 + d[o + 3] as int <= d.len(),
    ensures
        spec_packet_transaction(d + tail, o, id) == spec_packet_transaction(d, o, id),
{
    reveal(spec_packet_transaction);
    let a = d + tail;
    let n = d[o + 3] as int;
    assert(a.subrange(o + 4, o + 4 + n) =~= d.subrange(o + 4, o + 4 + n));
}

proof fn lemma_encode_len(ps: Seq<CapturedPacket>)
    ensures
        spec_encode_packets(ps).len() >= 4 * ps.len(),
    decreases ps.len(),
{
    if ps.len() > 0 {
        lemma_encode_len(ps.drop_first());
    }
}

proof fn lemma_walk_encoded(ps: Seq<CapturedPacket>, c: int)
    requires
        forall|i: int| 0 <= i < ps.len() ==> ps[i].payload.len() <= 255,
    ensures
        spec_walk(spec_encode_packets(ps), 0, c).len() == ps.len(),
        forall|i: int| 0 <= i < ps.len() ==> #[trigger] spec_walk(spec_encode_packets(ps), 0, c)[i]
            == spec_packet_transaction(spec_encode_packet(ps[i]), 0, (c + i + 1) as u64),
    decreases ps.len(),
{
    let all = spec_encode_packets(ps);
    if ps.len() == 0 {
    } else {
        let rest_ps = ps.drop_first();
        assert forall|i: int| 0 <= i < rest_ps.len() implies rest_ps[i].payload.len() <= 255 by {
            assert(rest_ps[i] == ps[i + 1]);
        }
        lemma_walk_encoded(rest_ps, c + 1);
        let e0 = spec_encode_packet(ps[0]);
        let rest = spec_encode_packets(rest_ps);
        let n = ps[0].payload.len() as int;
        assert(all == e0 + rest);
        assert(e0.len() == 4 + n);
        assert(all[3] == e0[3]);
        assert(e0[3] as int == n);
        lemma_packet_extend(e0, rest, 0, (c + 1) as u64);
        lemma_walk_shift(e0, rest, 0, c + 1);
        assert(spec_walk(all, 0, c) == seq![spec_packet_transaction(all, 0, (c + 1) as u64)]
            + spec_walk(all, 4 + n, c + 1));
        assert forall|i: int| 0 <= i < ps.len() implies #[trigger] spec_walk(all, 0, c)[i]
            == spec_packet_transaction(spec_encode_packet(ps[i]), 0, (c + i + 1) as u64) by {
            if i > 0 {
                assert(rest_ps[i - 1] == ps[i]);
                assert(spec_walk(rest, 0, c + 1)[i - 1] == spec_packet_transaction(
                    spec_encode_packet(rest_ps[i - 1]), 0, ((c + 1) + (i - 1) + 1) as u64));
            }
        }
    }
}

/// Decoding capture data made of whole packets, eight bytes or more, gives
/// one transaction per packet, in order, numbered from 1, each the same as
/// decoding that packet on its own.
pub proof fn law_decode_encoded_packets(ps: Seq<CapturedPacket>)
    requires
        forall|i: int| 0 <= i < ps.len() ==> ps[i].payload.len() <= 255,
        spec_encode_packets(ps).len() >= 8,
    ensures
        spec_process_transactions(spec_encode_packets(ps)).len() == ps.len(),
        forall|i: int| 0 <= i < ps.len() ==> #[trigger] spec_process_transactions(spec_encode_packets(ps))[i]
            == spec_packet_transaction(spec_encode_packet(ps[i]), 0, (i + 1) as u64),
{
    lemma_walk_encoded(ps, 0);
    if ps.len() == 0 {
        assert(spec_encode_packets(ps).len() == 0);
    }
}

proof fn lemma_length_bytes(n: nat)
    requires
        n < 0x1_0000_0000,
    ensures
        (n % 256) + 256 * ((n / 256) % 256) + 65536 * ((n / 65536) % 256) + 16777216 * ((n / 16777216) % 256) == n,
{
    let q1 = n / 256;
    let q2 = q1 / 256;
    let q3 = q2 / 256;
    assert(n / 65536 == q2) by (nonlinear_arith)
        requires q1 == n / 256, q2 == q1 / 256;
    assert(n / 16777216 == q3) by (nonlinear_arith)
        requires q1 == n / 256, q2 == q1 / 256, q3 == q2 / 256;
    assert(q3 < 256) by (nonlinear_arith)
        requires n < 0x1_0000_0000, q1 == n / 256, q2 == q1 / 256, q3 == q2 / 256;
    assert(n == (n % 256) + 256 * ((q1 % 256) + 256 * ((q2 % 256) + 256 * q3))) by (nonlinear_arith)
        requires q1 == n / 256, q2 == q1 / 256, q3 == q2 / 256;
}

/// A packet framed with its little-endian length comes back whole from the
/// front of a stream buffer, which keeps what followed it.
pub proof fn law_stream_returns_framed_packet(p: Seq<u8>, rest: Seq<u8>)
    requires
        p.len() < 0x1_0000_0000,
    ensures
        spec_next_packet(spec_frame(p) + rest) == (Some(p), rest),
{
    let buf = spec_frame(p) + rest;
    let n = p.len();
    lemma_length_bytes(n);
    assert(spec_length_prefix(buf) == n as int);
    assert(buf.subrange(4, 4 + n as int) =~= p);
    assert(buf.subrange(4 + n as int, buf.len() as int) =~= rest);
}

/// The capture-control byte reads back as the enable flag and speed it was
/// made from.
pub proof fn law_state_round_trip(enable: bool, speed: Speed)
    ensures
        State(((if enable { 1int } else { 0int }) + 2 * speed.spec_value()) as u8).spec_enabled() == enable,
        State(((if enable { 1int } else { 0int }) + 2 * speed.spec_value()) as u8).spec_speed_value() == speed.spec_value() as int,
{
}

/// The class list and the class lookup agree: every listed code has the
/// listed name, codes ascend strictly (none is listed twice), and every code
/// with a name is listed.
pub proof fn law_class_table_matches_lookup()
    ensures
        forall|i: int| 0 <= i < spec_class_table().len() ==> spec_class_name(#[trigger] spec_class_table()[i].0) == Some(spec_class_table()[i].1),
        forall|i: int, j: int| 0 <= i < j < spec_class_table().len() ==> spec_class_table()[i].0 < spec_class_table()[j].0,
        forall|code: u8| #[trigger] spec_class_name(code) is Some ==> exists|i: int| 0 <= i < spec_class_table().len() && spec_class_table()[i].0 == code,
{
    let t = spec_class_table();
    assert forall|code: u8| #[trigger] spec_class_name(code) is Some implies exists|i: int| 0 <= i < t.len() && t[i].0 == code by {
        let i = choose|i: int| 0 <= i < t.len() && t[i].0 == code;
        assert(exists|i: int| 0 <= i < t.len() && t[i].0 == code) by {
            if code == t[0].0 { assert(t[0].0 == code); }
            else if code == t[1].0 { assert(t[1].0 == code); }
            else if code == t[2].0 { assert(t[2].0 == code); }
            else if code == t[3].0 { assert(t[3].0 == code); }
            else if code == t[4].0 { assert(t[4].0 == code); }
            else if code == t[5].0 { assert(t[5].0 == code); }
            else if code == t[6].0 { assert(t[6].0 == code); }
            else if code == t[7].0 { assert(t[7].0 == code); }
            else if code == t[8].0 { assert(t[8].0 == code); }
            else if code == t[9].0 { assert(t[9].0 == code); }
            else if code == t[10].0 { assert(t[10].0 == code); }
            else if code == t[11].0 { assert(t[11].0 == code); }
            else if code == t[12].0 { assert(t[12].0 == code); }
            else if code == t[13].0 { assert(t[13].0 == code); }
            else if code == t[14].0 { assert(t[14].0 == code); }
            else if code == t[15].0 { assert(t[15].0 == code); }
            else if code == t[16].0 { assert(t[16].0 == code); }
            else if code == t[17].0 { assert(t[17].0 == code); }
            else if code == t[18].0 { assert(t[18].0 == code); }
            else if code == t[19].0 { assert(t[19].0 == code); }
            else if code == t[20].0 { assert(t[20].0 == code); }
            else { assert(t[21].0 == code); }
        }
    }
}

/// The vendor list and the vendor lookup agree: every listed ID has the
/// listed name, IDs ascend strictly (none is listed twice), and every ID
/// with a name is listed.
#[verifier::rlimit(60)]
pub proof fn law_vendor_table_matches_lookup()
    ensures
        forall|i: int| 0 <= i < spec_vendor_table().len() ==> spec_vendor_name(#[trigger] spec_vendor_table()[i].0) == Some(spec_vendor_table()[i].1),
        forall|i: int, j: int| 0 <= i < j < spec_vendor_table().len() ==> spec_vendor_table()[i].0 < spec_vendor_table()[j].0,
        forall|code: u16| #[trigger] spec_vendor_name(code) is Some ==> exists|i: int| 0 <= i < spec_vendor_table().len() && spec_vendor_table()[i].0 == code,
{
    let t = spec_vendor_table();
    assert forall|code: u16| #[trigger] spec_vendor_name(code) is Some implies exists|i: int| 0 <= i < t.len() && t[i].0 == code by {
        assert(exists|i: int| 0 <= i < t.len() && t[i].0 == code) by {
            if code == t[0].0 { assert(t[0].0 == code); }
            else if code == t[1].0 { assert(t[1].0 == code); }
            else if code == t[2].0 { assert(t[2].0 == code); }
            else if code == t[3].0 { assert(t[3].0 == code); }
            else if code == t[4].0 { assert(t[4].0 == code); }
            else if code == t[5].0 { assert(t[5].0 == code); }
            else if code == t[6].0 { assert(t[6].0 == code); }
            else if code == t[7].0 { assert(t[7].0 == code); }
            else if code == t[8].0 { assert(t[8].0 == code); }
            else if code == t[9].0 { assert(t[9].0 == code); }
            else if code == t[10].0 { assert(t[10].0 == code); }
            else if code == t[11].0 { assert(t[11].0 == code); }
            else if code == t[12].0 { assert(t[12].0 == code); }
            else if code == t[13].0 { assert(t[13].0 == code); }
            else if code == t[14].0 { assert(t[14].0 == code); }
            else if code == t[15].0 { assert(t[15].0 == code); }
            else if code == t[16].0 { assert(t[16].0 == code); }
            else if code == t[17].0 { assert(t[17].0 == code); }
            else if code == t[18].0 { assert(t[18].0 == code); }
            else if code == t[19].0 { assert(t[19].0 == code); }
            else if code == t[20].0 { assert(t[20].0 == code); }
            else if code == t[21].0 { assert(t[21].0 == code); }
            else if code == t[22].0 { assert(t[22].0 == code); }
            else if code == t[23].0 { assert(t[23].0 == code); }
            else if code == t[24].0 { assert(t[24].0 == code); }
            else if code == t[25].0 { assert(t[25].0 == code); }
            else if code == t[26].0 { assert(t[26].0 == code); }
            else if code == t[27].0 { assert(t[27].0 == code); }
            else if code == t[28].0 { assert(t[28].0 == code); }
            else if code == t[29].0 { assert(t[29].0 == code); }
            else if code == t[30].0 { assert(t[30].0 == code); }
            else if code == t[31].0 { assert(t[31].0 == code); }
            else if code == t[32].0 { assert(t[32].0 == code); }
            else if code == t[33].0 { assert(t[33].0 == code); }
            else if code == t[34].0 { assert(t[34].0 == code); }
            else if code == t[35].0 { assert(t[35].0 == code); }
            else if code == t[36].0 { assert(t[36].0 == code); }
            else if code == t[37].0 { assert(t[37].0 == code); }
            else if code == t[38].0 { assert(t[38].0 == code); }
            else if code == t[39].0 { assert(t[39].0 == code); }
            else if code == t[40].0 { assert(t[40].0 == code); }
            else if code == t[41].0 { assert(t[41].0 == code); }
            else if code == t[42].0 { assert(t[42].0 == code); }
            else if code == t[43].0 { assert(t[43].0 == code); }
            else if code == t[44].0 { assert(t[44].0 == code); }
            else if code == t[45].0 { assert(t[45].0 == code); }
            else if code == t[46].0 { assert(t[46].0 == code); }
            else if code == t[47].0 { assert(t[47].0 == code); }
            else if code == t[48].0 { assert(t[48].0 == code); }
            else if code == t[49].0 { assert(t[49].0 == code); }
            else if code == t[50].0 { assert(t[50].0 == code); }
            else if code == t[51].0 { assert(t[51].0 == code); }
            else if code == t[52].0 { assert(t[52].0 == code); }
            else if code == t[53].0 { assert(t[53].0 == code); }
            else if code == t[54].0 { assert(t[54].0 == code); }
            else if code == t[55].0 { assert(t[55].0 == code); }
            else if code == t[56].0 { assert(t[56].0 == code); }
            else if code == t[57].0 { assert(t[57].0 == code); }
            else if code == t[58].0 { assert(t[58].0 == code); }
            else if code == t[59].0 { assert(t[59].0 == code); }
            else { assert(t[60].0 == code); }
        }
    }
}

/// The descriptor-type list and the descriptor-type lookup agree: every
/// listed code has the listed name, codes ascend strictly, and every code
/// with a name is listed.
pub proof fn law_descriptor_type_table_matches_lookup()
    ensures
        forall|i: int| 0 <= i < spec_descriptor_type_table().len() ==> spec_descriptor_type_name(#[trigger] spec_descriptor_type_table()[i].0) == Some(spec_descriptor_type_table()[i].1),
        forall|i: int, j: int| 0 <= i < j < spec_descriptor_type_table().len() ==> spec_descriptor_type_table()[i].0 < spec_descriptor_type_table()[j].0,
        forall|code: u8| #[trigger] spec_descriptor_type_name(code) is Some ==> exists|i: int| 0 <= i < spec_descriptor_type_table().len() && spec_descriptor_type_table()[i].0 == code,
{
    let t = spec_descriptor_type_table();
    assert forall|code: u8| #[trigger] spec_descriptor_type_name(code) is Some implies exists|i: int| 0 <= i < t.len() && t[i].0 == code by {
        assert(exists|i: int| 0 <= i < t.len() && t[i].0 == code) by {
            if code == t[0].0 { assert(t[0].0 == code); }
            else if code == t[1].0 { assert(t[1].0 == code); }
            else if code == t[2].0 { assert(t[2].0 == code); }
            else if code == t[3].0 { assert(t[3].0 == code); }
            else if code == t[4].0 { assert(t[4].0 == code); }
            else if code == t[5].0 { assert(t[5].0 == code); }
            else if code == t[6].0 { assert(t[6].0 == code); }
            else if code == t[7].0 { assert(t[7].0 == code); }
            else if code == t[8].0 { assert(t[8].0 == code); }
            else if code == t[9].0 { assert(t[9].0 == code); }
            else if code == t[10].0 { assert(t[10].0 == code); }
            else if code == t[11].0 { assert(t[11].0 == code); }
            else if code == t[12].0 { assert(t[12].0 == code); }
            else if code == t[13].0 { assert(t[13].0 == code); }
            else if code == t[14].0 { assert(t[14].0 == code); }
            else if code == t[15].0 { assert(t[15].0 == code); }
            else if code == t[16].0 { assert(t[16].0 == code); }
            else if code == t[17].0 { assert(t[17].0 == code); }
            else if code == t[18].0 { assert(t[18].0 == code); }
            else if code == t[19].0 { assert(t[19].0 == code); }
            else { assert(t[20].0 == code); }
        }
    }
}

/// Adding descriptors keeps the list free of repeats, keeps what was there,
/// and leaves every added descriptor in the list.
pub proof fn law_add_unique(list: Seq<DescriptorModel>, items: Seq<DescriptorModel>)
    ensures
        list.no_duplicates() ==> spec_add_unique(list, items).no_duplicates(),
        forall|x: DescriptorModel| list.contains(x) ==> spec_add_unique(list, items).contains(x),
        forall|i: int| 0 <= i < items.len() ==> spec_add_unique(list, items).contains(#[trigger] items[i]),
        spec_add_unique(list, items).len() <= list.len() + items.len(),
    decreases items.len(),
{
    if items.len() > 0 {
        let init = items.drop_last();
        law_add_unique(list, init);
        let l = spec_add_unique(list, init);
        let r = spec_add_unique(list, items);
        assert forall|x: DescriptorModel| l.contains(x) implies r.contains(x) by {
            if !l.contains(items.last()) {
                let k = choose|k: int| 0 <= k < l.len() && l[k] == x;
                assert(r[k] == x);
            }
        }
        if !l.contains(items.last()) {
            assert(r[l.len() as int] == items.last());
        }
        assert forall|i: int| 0 <= i < items.len() implies r.contains(#[trigger] items[i]) by {
            if i < items.len() - 1 {
                assert(init[i] == items[i]);
                assert(l.contains(init[i]));
            }
        }
        if l.no_duplicates() && !l.contains(items.last()) {
            let x = items.last();
            assert(r == l.push(x));
            assert forall|a: int, b: int| 0 <= a < r.len() && 0 <= b < r.len() && a != b implies r[a] != r[b] by {
                if a < l.len() && b < l.len() {
                    assert(r[a] == l[a] && r[b] == l[b]);
                } else if a == l.len() {
                    assert(r[b] == l[b]);
                    assert(l.contains(l[b]));
                } else {
                    assert(r[a] == l[a]);
                    assert(l.contains(l[a]));
                }
            }
        }
    }
}

/// A step of the capture starter from a state it can be in leads to a state
/// it can be in and, unless starting has finished, leaves fewer steps.
pub proof fn law_starter_progress(m: StarterModel, last_ok: bool)
    requires
        spec_starter_valid(m),
    ensures
        spec_starter_valid(spec_starter_next(m, last_ok).0),
        spec_steps_left(m) >= 0,
        !(m.phase is Done) ==> spec_steps_left(spec_starter_next(m, last_ok).0) < spec_steps_left(m),
{
    assert(m.candidates.len() <= 4);
}

/// Every start request the capture starter sends asks for one of the
/// candidate speeds of the chosen speed.
pub proof fn law_start_requests_use_candidates(m: StarterModel, last_ok: bool)
    requires
        spec_starter_valid(m),
        spec_starter_next(m, last_ok).1 matches CaptureAction::Write { request, value } && request == 1 && value % 2 == 1,
    ensures
        exists|i: int| 0 <= i < m.candidates.len() && spec_starter_next(m, last_ok).1 == (CaptureAction::Write {
            request: 1,
            value: spec_start_value(m.candidates[i]),
        }),
{
    match m.phase {
        StartPhase::Try(i) => {
            assert(0 <= i < m.candidates.len());
        },
        _ => {},
    }
}

/// The capture starter reports success only after a start request
/// succeeded: it enters its success steps only from waiting on a start
/// request whose result was success, and finishes with success only from
/// those steps or after having finished so.
pub proof fn law_success_only_after_start(m: StarterModel, last_ok: bool)
    requires
        spec_starter_valid(m),
    ensures
        spec_starter_next(m, last_ok).0.phase == StartPhase::Started(0) ==> (m.phase is Await && last_ok),
        spec_starter_next(m, last_ok).1 == CaptureAction::Finish(true) ==> (m.phase == StartPhase::Started(1) || m.phase == StartPhase::Done(true)),
{
}

/// After a new device list arrives, a selection that remains is a device of
/// a vendor and product on the list.
pub proof fn law_selection_stays_listed(devices: Seq<DeviceInfoModel>, selected: Option<DeviceInfoModel>)
    ensures
        spec_selection_after_load(devices, selected) matches Some(s) ==> exists|i: int|
            0 <= i < devices.len() && devices[i].vendor_id == s.vendor_id && devices[i].product_id == s.product_id,
{
    match selected {
        Some(s) => {
            if crate::device_view::spec_still_listed(devices, s) {
                let i = choose|i: int| 0 <= i < devices.len() && devices[i].vendor_id == s.vendor_id
                    && devices[i].product_id == s.product_id && devices[i].serial_number == s.serial_number;
                assert(devices[i].vendor_id == s.vendor_id);
            }
        },
        None => {},
    }
}

/// Once a connection is established the application counts itself
/// connected, clears the error, and uses the chosen speed both as the
/// connection's speed and for decoding.
pub proof fn law_connection_syncs_speeds(m: AppModel, simulation: bool, now_micros: u64)
    ensures
        ({
            let n = spec_app_step(m, Message::ConnectionEstablished { simulation }, now_micros);
            &&& n.connection && n.connected
            &&& n.error_message is None
            &&& n.current_speed == m.selected_speed
            &&& n.decoder_speed == m.selected_speed
        }),
{
}

/// A capture error always leaves capture stopped, with an error shown.
pub proof fn law_capture_error_stops_capture(m: AppModel, e: String, now_micros: u64)
    ensures
        ({
            let n = spec_app_step(m, Message::CaptureError(e), now_micros);
            &&& !n.traffic_view.capture_active
            &&& n.error_message == Some("Capture error: "@ + e@)
        }),
{
}

/// Once the device is released the application holds no connection and the
/// traffic subscription stops.
pub proof fn law_release_ends_connection(m: AppModel, now_micros: u64)
    ensures
        ({
            let n = spec_app_step(m, Message::DisconnectCompleted, now_micros);
            !n.connection && !n.connected
        }),
{
}

/// The items a save hands out are exactly the captured buffers, and
/// loading them back into any state restores that list, selecting its first
/// buffer.
pub proof fn law_saved_capture_loads_back(
    m: AppModel,
    later: AppModel,
    cmds: Seq<Command>,
    items: Vec<TrafficItem>,
    now_micros: u64,
)
    requires
        spec_app_commands(m, Message::SaveCapture, now_micros, cmds),
        cmds.len() > 0,
        cmds[0] == Command::SaveTraffic(items),
    ensures
        items_model(items@) == m.traffic_view.items,
        m.traffic_view.items.len() > 0,
        ({
            let n = spec_app_step(later, Message::TrafficViewMessage(TrafficMessage::LoadData(items)), now_micros);
            &&& n.traffic_view.items == m.traffic_view.items
            &&& n.traffic_view.selected == Some(0usize)
        }),
{
}

/// A speed change that reconnects restarts capture afterwards exactly when
/// capture was running.
pub proof fn law_reconnect_restarts_capture_when_running(m: AppModel, s: Speed, cmds: Seq<Command>, now_micros: u64)
    requires
        spec_app_commands(m, Message::ReconnectWithSpeed(s), now_micros, cmds),
    ensures
        (exists|i: int| 0 <= i < cmds.len() && cmds[i] == (Command::Deliver { delay_ms: 1500, message: Message::StartCapture }))
            <==> m.traffic_view.capture_active,
{
    if m.traffic_view.capture_active {
        assert(cmds.subrange(3, 4)[0] == cmds[3]);
    } else {
        assert forall|i: int| 0 <= i < cmds.len() implies cmds[i] != (Command::Deliver {
            delay_ms: 1500,
            message: Message::StartCapture,
        }) by {}
    }
}

/// Every received buffer that frames a descriptor is kept, last, in the
/// traffic list with its time and descriptors; any other buffer changes
/// nothing.
pub proof fn law_received_buffers_are_kept(m: AppModel, data: Vec<u8>, now_micros: u64)
    ensures
        ({
            let descs = spec_frame_descriptors(data@, 0);
            let n = spec_app_step(m, Message::USBDataReceived(data), now_micros);
            if descs.len() == 0 {
                n == m
            } else {
                n.traffic_view.items == m.traffic_view.items.push(
                    TrafficItemModel { timestamp_micros: now_micros, raw_data: data@, descriptors: descs },
                )
            }
        }),
{
}

/// The traffic subscription never waits more than half a second between
/// reads, and waits not at all after a successful one.
pub proof fn law_poll_delay_bounded(retries: u32)
    ensures
        0 <= spec_poll_delay_ms(retries) <= 500,
        retries == 0 ==> spec_poll_delay_ms(retries) == 0,
{
}

/// The application counts itself connected only while it holds a device
/// connection, whatever message it handles.
pub proof fn law_connected_only_with_connection(m: AppModel, msg: Message, now_micros: u64)
    requires
        m.connected ==> m.connection,
    ensures
        spec_app_step(m, msg, now_micros).connected ==> spec_app_step(m, msg, now_micros).connection,
{
    match msg {
        Message::Connect => {},
        Message::Disconnect => {},
        Message::DisconnectCompleted => {},
        Message::DevicesFound(_) => {},
        Message::ScanFinished { .. } => {},
        Message::ConnectionEstablished { .. } => {},
        Message::ConnectionFailed(_) => {},
        Message::ConnectionPossiblyFailed => {},
        Message::TabSelected(_) => {},
        Message::DeviceViewMessage(_) => {},
        Message::TrafficViewMessage(_) => {},
        Message::DescriptorViewMessage(_) => {},
        Message::USBDataReceived(_) => {},
        Message::SaveCapture => {},
        Message::LoadCapture => {},
        Message::ClearCapture => {},
        Message::ToggleDarkMode(_) => {},
        Message::StartCapture => {},
        Message::StopCapture => {},
        Message::FetchCaptureData => {},
        Message::ClearCaptureBuffer => {},
        Message::CaptureStarted => {},
        Message::ProcessingCapture => {},
        Message::CaptureStopped => {},
        Message::CaptureError(_) => {},
        Message::ChangeUsbSpeed(_) => {},
        Message::ReconnectWithSpeed(_) => {},
        Message::UpdateStatusMessage(_) => {},
        Message::DeviceAccessFailed(_) => {},
        Message::DeviceOpFinished { .. } => {},
        Message::TrafficRead(_) => {},
    }
}

/// The descriptor view never lists a descriptor twice, whichever message or
/// capture it takes in.
pub proof fn law_descriptor_view_keeps_no_repeats(
    v: DescriptorViewModel,
    m: DescriptorMessage,
    items: Seq<DescriptorModel>,
)
    requires
        v.descriptors.no_duplicates(),
    ensures
        spec_descriptor_update(v, m).descriptors.no_duplicates(),
        spec_descriptors_update(v, items).descriptors.no_duplicates(),
{
    law_add_unique(v.descriptors, items);
}

/// After an automatic refresh of the device list, the next one comes no
/// sooner than the refresh interval.
pub proof fn law_auto_refresh_waits_interval(v: DeviceViewModel, now_ms: u64, later_ms: u64)
    requires
        spec_device_update(v, DeviceMessage::CheckAutoRefresh, now_ms).1 is ListDevices,
        now_ms <= later_ms,
        later_ms < now_ms + v.auto_refresh_interval_ms,
    ensures
        spec_device_update(spec_device_update(v, DeviceMessage::CheckAutoRefresh, now_ms).0, DeviceMessage::CheckAutoRefresh, later_ms).1
            == DeviceCommand::Nothing,
{
}

/// A step of the queue starter from a phase it can be in leads to a phase it
/// can be in and, until it has finished, leaves fewer steps.
pub proof fn law_queue_starter_progress(p: PrepPhase, o: OutcomeModel)
    requires
        spec_prep_valid(p),
    ensures
        spec_prep_valid(spec_prep_next(p, o).0),
        spec_prep_steps_left(p) >= 0,
        !(p is Finished) ==> 0 <= spec_prep_steps_left(spec_prep_next(p, o).0) < spec_prep_steps_left(p),
{
    match p {
        PrepPhase::SpeedCheck(b, tried) => {
            assert(crate::speed::spec_alternative_speeds(b).len() <= 3) by {
                reveal_with_fuel(Seq::<Speed>::filter, 4);
            }
        },
        _ => {},
    }
}

/// The queue starter starts processing transfers only right after a start
/// request succeeded, and reports capture running only after that.
pub proof fn law_queue_starts_only_after_start_request(p: PrepPhase, o: OutcomeModel)
    requires
        spec_prep_valid(p),
    ensures
        spec_prep_next(p, o).0 == PrepPhase::Process ==> (p is TryCheck && !failed(o)),
        spec_prep_next(p, o).1 == PrepAction::StartProcessing ==> p == PrepPhase::Process,
        spec_prep_next(p, o).1 == PrepAction::Finish(true) ==> p == PrepPhase::Finished(true),
        spec_prep_next(p, o).0 == PrepPhase::Finished(true) ==> (p == PrepPhase::ProcessWait || p == PrepPhase::Finished(true)),
{
}

/// The transfer queue's bookkeeping after completions with `datas`, one
/// after another: the final state, the data handed on and the actions.
pub open spec fn spec_on_data_all(s: TransferStateModel, datas: Seq<Seq<u8>>) -> (TransferStateModel, Seq<Seq<u8>>, Seq<QueueAction>)
    decreases datas.len(),
{
    if datas.len() == 0 {
        (s, Seq::empty(), Seq::empty())
    } else {
        let (s1, out, acts) = spec_on_data_all(s, datas.drop_last());
        let (s2, d, a) = spec_on_data(s1, datas.last());
        (s2, out.push(d), acts.push(a))
    }
}

/// Completed transfers are handed on unchanged and in the order they
/// completed, each exactly once and nothing else; each is followed by one
/// new full-size transfer unless a stop was asked for, and nothing else of
/// the bookkeeping changes.
pub proof fn law_queue_forwards_completions_in_order(s: TransferStateModel, datas: Seq<Seq<u8>>)
    ensures
        spec_on_data_all(s, datas).1 == datas,
        spec_on_data_all(s, datas).0 == (TransferStateModel { forwarded: s.forwarded + datas, ..s }),
        spec_on_data_all(s, datas).2 == Seq::new(
            datas.len(),
            |i: int| if s.stopping { QueueAction::Wait } else { QueueAction::Submit(s.transfer_length) },
        ),
    decreases datas.len(),
{
    if datas.len() > 0 {
        law_queue_forwards_completions_in_order(s, datas.drop_last());
        assert(datas.drop_last().push(datas.last()) =~= datas);
        assert(s.forwarded + datas.drop_last() + seq![datas.last()] =~= s.forwarded + datas);
        assert((s.forwarded + datas.drop_last()).push(datas.last()) =~= s.forwarded + datas);
        let acts = spec_on_data_all(s, datas).2;
        assert(acts =~= Seq::new(
            datas.len(),
            |i: int| if s.stopping { QueueAction::Wait } else { QueueAction::Submit(s.transfer_length) },
        ));
    } else {
        assert(s.forwarded + datas =~= s.forwarded);
        assert(datas =~= Seq::<Seq<u8>>::empty());
    }
}

/// The actions of a stop sequence from `m`, at most `fuel` of them, where
/// the stop sends succeed or fail as `outs` says, in order (a send past the
/// end of `outs` fails); `last_ok` is the result of the last send.
pub open spec fn spec_stop_run(m: StopModel, last_ok: bool, outs: Seq<bool>, fuel: nat) -> Seq<StopAction>
    decreases fuel,
{
    if fuel == 0 {
        Seq::empty()
    } else {
        let (m2, a) = spec_stop_next(m, last_ok);
        match a {
            StopAction::Finish(_) => seq![a],
            StopAction::SendStop => {
                let ok = if outs.len() > 0 { outs[0] } else { false };
                seq![a] + spec_stop_run(m2, ok, outs.drop_first(), (fuel - 1) as nat)
            },
            _ => seq![a] + spec_stop_run(m2, last_ok, outs, (fuel - 1) as nat),
        }
    }
}

/// Stopping capture shuts the transfer queue down first, if there is one.
/// On an inactive connection it then succeeds with nothing sent. On an
/// active one the stop command is sent at most three times: a second send
/// always follows the first (after 50 ms if it succeeded, 100 ms if not), a
/// third only follows a failed second one (after 100 ms), and stopping
/// succeeds exactly when the second or the third send succeeds.
pub proof fn law_stop_capture_outcome(has_queue: bool, active: bool, o1: bool, o2: bool, o3: bool)
    ensures
        ({
            let run = spec_stop_run(StopModel { has_queue, active, phase: StopPhase::Begin }, false, seq![o1, o2, o3], 10);
            let prefix = if has_queue { seq![StopAction::ShutdownQueue] } else { Seq::<StopAction>::empty() };
            &&& !active ==> run == prefix.push(StopAction::Finish(true))
            &&& active ==> run == prefix
                + seq![StopAction::SendStop, StopAction::Pause(if o1 { 50 } else { 100 }), StopAction::SendStop]
                + if o2 {
                    seq![StopAction::Finish(true)]
                } else {
                    seq![StopAction::Pause(100), StopAction::SendStop, StopAction::Finish(o3)]
                }
        }),
{
    let outs = seq![o1, o2, o3];
    let m0 = StopModel { has_queue, active, phase: StopPhase::Begin };
    let mc = StopModel { has_queue, active, phase: StopPhase::Check };
    let m1 = StopModel { has_queue, active, phase: StopPhase::Sent(1) };
    let p2 = StopModel { has_queue, active, phase: StopPhase::Paused(2) };
    let m2 = StopModel { has_queue, active, phase: StopPhase::Sent(2) };
    let p3 = StopModel { has_queue, active, phase: StopPhase::Paused(3) };
    let m3 = StopModel { has_queue, active, phase: StopPhase::Sent(3) };
    let outs1 = outs.drop_first();
    let outs2 = outs1.drop_first();
    let outs3 = outs2.drop_first();
    assert(outs1 =~= seq![o2, o3]);
    assert(outs2 =~= seq![o3]);
    assert(outs3 =~= Seq::<bool>::empty());
    if has_queue {
        let tc = spec_stop_run(mc, false, outs, 9);
        if active {
            assert(tc == seq![StopAction::SendStop] + spec_stop_run(m1, o1, outs1, 8));
            assert(spec_stop_run(m1, o1, outs1, 8) == seq![StopAction::Pause(if o1 { 50 } else { 100 })] + spec_stop_run(p2, o1, outs1, 7));
            assert(spec_stop_run(p2, o1, outs1, 7) == seq![StopAction::SendStop] + spec_stop_run(m2, o2, outs2, 6));
            if o2 {
                assert(spec_stop_run(m2, o2, outs2, 6) == seq![StopAction::Finish(true)]);
            } else {
                assert(spec_stop_run(m2, o2, outs2, 6) == seq![StopAction::Pause(100)] + spec_stop_run(p3, o2, outs2, 5));
                assert(spec_stop_run(p3, o2, outs2, 5) == seq![StopAction::SendStop] + spec_stop_run(m3, o3, outs3, 4));
                assert(spec_stop_run(m3, o3, outs3, 4) == seq![StopAction::Finish(o3)]);
            }
        }
        assert(spec_stop_run(m0, false, outs, 10) == seq![StopAction::ShutdownQueue] + tc);
    } else if active {
        assert(spec_stop_run(m0, false, outs, 10) == seq![StopAction::SendStop] + spec_stop_run(m1, o1, outs1, 9));
        assert(spec_stop_run(m1, o1, outs1, 9) == seq![StopAction::Pause(if o1 { 50 } else { 100 })] + spec_stop_run(p2, o1, outs1, 8));
        assert(spec_stop_run(p2, o1, outs1, 8) == seq![StopAction::SendStop] + spec_stop_run(m2, o2, outs2, 7));
        if o2 {
            assert(spec_stop_run(m2, o2, outs2, 7) == seq![StopAction::Finish(true)]);
        } else {
            assert(spec_stop_run(m2, o2, outs2, 7) == seq![StopAction::Pause(100)] + spec_stop_run(p3, o2, outs2, 6));
            assert(spec_stop_run(p3, o2, outs2, 6) == seq![StopAction::SendStop] + spec_stop_run(m3, o3, outs3, 5));
            assert(spec_stop_run(m3, o3, outs3, 5) == seq![StopAction::Finish(o3)]);
        }
    }
    let run = spec_stop_run(m0, false, outs, 10);
    let prefix = if has_queue { seq![StopAction::ShutdownQueue] } else { Seq::<StopAction>::empty() };
    if !active {
        assert(run =~= prefix.push(StopAction::Finish(true)));
    } else if o2 {
        assert(run =~= prefix + seq![StopAction::SendStop, StopAction::Pause(if o1 { 50 } else { 100 }), StopAction::SendStop]
            + seq![StopAction::Finish(true)]);
    } else {
        assert(run =~= prefix + seq![StopAction::SendStop, StopAction::Pause(if o1 { 50 } else { 100 }), StopAction::SendStop]
            + seq![StopAction::Pause(100), StopAction::SendStop, StopAction::Finish(o3)]);
    }
}

} // verus!
