//! The traffic view: captured items, the selection, and the tree of nodes
//! that shows either the descriptors of the selected item or the decoded
//! transactions.

use vstd::prelude::*;
use crate::descriptor::{clone_descriptors, descriptors_model, DecodedUSBData, DescriptorModel, USBDescriptor};
use crate::speed::Speed;
use crate::text::{push_decimal, push_hex2, push_hex4, spec_decimal, spec_hex2, spec_hex4};
use crate::transaction::{
    direction_display, spec_direction_display, spec_status_name, spec_transaction_summary, status_name,
    transactions_model, TransactionModel, UsbTransaction, UsbTransferType,
};
use crate::tree::{ids_model, spec_push_child, spec_toggle, NodeMap, NodeModel, TreeNode, TreeNodeId, TreeNodeType};
use crate::bytes::copy_range;

verus! {

/// Model of a tree: its nodes and its root identifiers.
pub struct TreeModel {
    pub nodes: Map<Seq<char>, NodeModel>,
    pub roots: Seq<Seq<char>>,
}

/// A node without children, expanded.
pub open spec fn spec_leaf(id: Seq<char>, data: Seq<char>, t: TreeNodeType) -> NodeModel {
    NodeModel { id, children: Seq::empty(), expanded: true, data, item_type: t }
}

/// Label and node type of a transaction's transfer type.
pub open spec fn spec_transfer_label(t: UsbTransferType) -> (Seq<char>, TreeNodeType) {
    match t {
        UsbTransferType::Control => ("Control Transfer"@, TreeNodeType::Transaction),
        UsbTransferType::Bulk => ("Bulk Transfer"@, TreeNodeType::BulkTransfer),
        UsbTransferType::Interrupt => ("Interrupt Transfer"@, TreeNodeType::InterruptTransfer),
        UsbTransferType::Isochronous => ("Isochronous Transfer"@, TreeNodeType::IsochronousTransfer),
        UsbTransferType::Unknown => ("Unknown Transfer"@, TreeNodeType::Unknown),
    }
}

fn transfer_label(t: UsbTransferType) -> (r: (&'static str, TreeNodeType))
    ensures
        r.0@ == spec_transfer_label(t).0,
        r.1 == spec_transfer_label(t).1,
{
    match t {
        UsbTransferType::Control => ("Control Transfer", TreeNodeType::Transaction),
        UsbTransferType::Bulk => ("Bulk Transfer", TreeNodeType::BulkTransfer),
        UsbTransferType::Interrupt => ("Interrupt Transfer", TreeNodeType::InterruptTransfer),
        UsbTransferType::Isochronous => ("Isochronous Transfer", TreeNodeType::IsochronousTransfer),
        UsbTransferType::Unknown => ("Unknown Transfer", TreeNodeType::Unknown),
    }
}

/// Identifier made of a prefix and a transaction number.
pub open spec fn spec_numbered_id(prefix: Seq<char>, n: nat) -> Seq<char> {
    prefix + spec_decimal(n)
}

fn numbered_id(prefix: &str, n: u64) -> (id: TreeNodeId)
    ensures
        id@ == spec_numbered_id(prefix@, n as nat),
{
    let mut s = String::from_str(prefix);
    push_decimal(&mut s, n);
    TreeNodeId::from_string(s)
}

/// The tree after a transaction is added: a "USB Transactions" root is made
/// first if there is no root; nodes for its setup, data and status stages
/// are set, the transaction becomes a child of the first root, and its node
/// is set with those stages as children.
pub open spec fn spec_add_transaction(tree: TreeModel, t: TransactionModel) -> TreeModel {
    let (n0, r0) = if tree.roots.len() == 0 {
        (tree.nodes.insert("mitm_root"@, spec_leaf("mitm_root"@, "USB Transactions"@, TreeNodeType::Root)), seq!["mitm_root"@])
    } else {
        (tree.nodes, tree.roots)
    };
    let n = t.id as nat;
    let tid = spec_numbered_id("tx_"@, n);
    let sid = spec_numbered_id("setup_"@, n);
    let did = spec_numbered_id("data_"@, n);
    let stid = spec_numbered_id("status_"@, n);
    let c1: Seq<Seq<char>> = if t.setup is Some { seq![sid] } else { Seq::empty() };
    let c2 = if t.data is Some { c1.push(did) } else { c1 };
    let c3 = if t.status is Some { c2.push(stid) } else { c2 };
    let n1 = match t.setup {
        Some(s) => n0.insert(sid, spec_leaf(sid, "Setup Packet: "@ + spec_direction_display(s.direction)
            + " (bmRequestType: 0x"@ + spec_hex2(s.bm_request_type) + ", bRequest: 0x"@ + spec_hex2(s.b_request)
            + ")"@, TreeNodeType::Setup)),
        None => n0,
    };
    let n2 = match t.data {
        Some(d) => n1.insert(did, spec_leaf(did, "Data Packet: "@ + spec_direction_display(d.direction) + " ("@
            + spec_decimal(d.data.len()) + " bytes)"@, TreeNodeType::Data)),
        None => n1,
    };
    let n3 = match t.status {
        Some(st) => n2.insert(stid, spec_leaf(stid, "Status: "@ + spec_status_name(st.status) + " (Endpoint: 0x"@
            + spec_hex2(st.endpoint) + ")"@, TreeNodeType::Status)),
        None => n2,
    };
    let n4 = spec_push_child(n3, r0[0], tid);
    let (label, node_type) = spec_transfer_label(t.transfer_type);
    let n5 = n4.insert(tid, NodeModel {
        id: tid,
        children: c3,
        expanded: true,
        data: label + ": "@ + spec_transaction_summary(t) + " (Endpoint: 0x"@ + spec_hex2(t.endpoint) + ")"@,
        item_type: node_type,
    });
    TreeModel { nodes: n5, roots: r0 }
}

/// Adds a transaction to a tree.
pub fn add_transaction_to_tree(nodes: &mut NodeMap, roots: &mut Vec<TreeNodeId>, transaction: &UsbTransaction)
    requires
        old(nodes).wf(),
    ensures
        final(nodes).wf(),
        (TreeModel { nodes: final(nodes)@, roots: ids_model(final(roots)@) }) == spec_add_transaction(
            TreeModel { nodes: old(nodes)@, roots: ids_model(old(roots)@) },
            transaction@,
        ),
{
    let ghost t = transaction@;
    if roots.len() == 0 {
        let root_id = TreeNodeId::new("mitm_root");
        roots.push(root_id.clone_id());
        let root = TreeNode::leaf(root_id.clone_id(), String::from_str("USB Transactions"), TreeNodeType::Root);
        nodes.insert(root_id, root);
        assert(ids_model(roots@) =~= seq!["mitm_root"@]);
    }
    let ghost n0 = nodes@;
    let ghost r0 = ids_model(roots@);
    let id = transaction.id;
    let node_id = numbered_id("tx_", id);
    let mut children: Vec<TreeNodeId> = Vec::new();
    match &transaction.setup_packet {
        Some(setup) => {
            let setup_id = numbered_id("setup_", id);
            let mut text = String::from_str("Setup Packet: ");
            text.append(direction_display(setup.direction));
            text.append(" (bmRequestType: 0x");
            push_hex2(&mut text, setup.bmRequestType);
            text.append(", bRequest: 0x");
            push_hex2(&mut text, setup.bRequest);
            text.append(")");
            children.push(setup_id.clone_id());
            nodes.insert(setup_id.clone_id(), TreeNode::leaf(setup_id, text, TreeNodeType::Setup));
        },
        None => {},
    }
    let ghost n1 = nodes@;
    let ghost c1 = ids_model(children@);
    match &transaction.data_packet {
        Some(d) => {
            let data_id = numbered_id("data_", id);
            let mut text = String::from_str("Data Packet: ");
            text.append(direction_display(d.direction));
            text.append(" (");
            push_decimal(&mut text, d.data.len() as u64);
            text.append(" bytes)");
            children.push(data_id.clone_id());
            nodes.insert(data_id.clone_id(), TreeNode::leaf(data_id, text, TreeNodeType::Data));
        },
        None => {},
    }
    let ghost n2 = nodes@;
    let ghost c2 = ids_model(children@);
    match &transaction.status_packet {
        Some(st) => {
            let status_id = numbered_id("status_", id);
            let mut text = String::from_str("Status: ");
            text.append(status_name(st.status));
            text.append(" (Endpoint: 0x");
            push_hex2(&mut text, st.endpoint);
            text.append(")");
            children.push(status_id.clone_id());
            nodes.insert(status_id.clone_id(), TreeNode::leaf(status_id, text, TreeNodeType::Status));
        },
        None => {},
    }
    let ghost n3 = nodes@;
    let ghost c3 = ids_model(children@);
    nodes.push_child(&roots[0], node_id.clone_id());
    let (label, node_type) = transfer_label(transaction.transfer_type);
    let mut text = String::from_str(label);
    text.append(": ");
    text.append(transaction.get_summary().as_str());
    text.append(" (Endpoint: 0x");
    push_hex2(&mut text, transaction.endpoint);
    text.append(")");
    let node = TreeNode { id: node_id.clone_id(), children, expanded: true, data: text, item_type: node_type };
    nodes.insert(node_id, node);
    proof {
        let sid = spec_numbered_id("setup_"@, id as nat);
        let did = spec_numbered_id("data_"@, id as nat);
        let stid = spec_numbered_id("status_"@, id as nat);
        let e: Seq<Seq<char>> = Seq::empty();
        let x1: Seq<Seq<char>> = if t.setup is Some { seq![sid] } else { e };
        let x2 = if t.data is Some { x1.push(did) } else { x1 };
        let x3 = if t.status is Some { x2.push(stid) } else { x2 };
        assert(c1 =~= x1);
        assert(c2 =~= x2);
        assert(c3 =~= x3);
    }
}

/// The byte at `offset` of a descriptor as it was on the wire (bLength,
/// bDescriptorType, then its data); zero past the end.
pub open spec fn spec_desc_byte(d: DescriptorModel, offset: int) -> u8 {
    if offset == 0 {
        d.length
    } else if offset == 1 {
        d.descriptor_type
    } else if 0 <= offset - 2 < d.data.len() {
        d.data[offset - 2]
    } else {
        0
    }
}

pub(crate) fn desc_byte(d: &USBDescriptor, offset: usize) -> (b: u8)
    ensures
        b == spec_desc_byte(d@, offset as int),
{
    if offset == 0 {
        d.length
    } else if offset == 1 {
        d.descriptor_type
    } else if offset - 2 < d.data.len() {
        d.data[offset - 2]
    } else {
        0
    }
}

/// State while building the descriptor tree: the nodes, and the latest
/// device, configuration and interface node.
pub struct BuildState {
    pub nodes: Map<Seq<char>, NodeModel>,
    pub device: Option<Seq<char>>,
    pub config: Option<Seq<char>>,
    pub interface: Option<Seq<char>>,
}

/// The parent chosen from the first present candidate, else the root.
pub open spec fn spec_parent(a: Option<Seq<char>>, b: Option<Seq<char>>) -> Seq<char> {
    match a {
        Some(x) => x,
        None => match b {
            Some(y) => y,
            None => "root"@,
        },
    }
}

/// Adds `id` as a child of `parent` and sets its node.
pub open spec fn spec_attach(nodes: Map<Seq<char>, NodeModel>, parent: Seq<char>, node: NodeModel) -> Map<Seq<char>, NodeModel> {
    spec_push_child(nodes, parent, node.id).insert(node.id, node)
}

/// One descriptor (the `i`th) added to the tree: devices under the root,
/// configurations under the latest device, interfaces under the latest
/// configuration, endpoints under the latest interface or configuration;
/// other descriptors add nothing.
pub open spec fn spec_build_step(s: BuildState, i: nat, d: DescriptorModel) -> BuildState {
    if d.descriptor_type == 1 {
        let id = "device_"@ + spec_decimal(i);
        let vid = (spec_desc_byte(d, 8) as int + 256 * spec_desc_byte(d, 9) as int) as u16;
        let pid = (spec_desc_byte(d, 10) as int + 256 * spec_desc_byte(d, 11) as int) as u16;
        let text = "Device Descriptor (VID:"@ + spec_hex4(vid) + " PID:"@ + spec_hex4(pid) + ")"@;
        BuildState {
            nodes: spec_attach(s.nodes, "root"@, spec_leaf(id, text, TreeNodeType::Device)),
            device: Some(id),
            config: None,
            interface: None,
        }
    } else if d.descriptor_type == 2 {
        let id = "config_"@ + spec_decimal(i);
        let text = "Configuration Descriptor #"@ + spec_decimal(spec_desc_byte(d, 5) as nat);
        BuildState {
            nodes: spec_attach(s.nodes, spec_parent(s.device, None), spec_leaf(id, text, TreeNodeType::Configuration)),
            config: Some(id),
            interface: None,
            ..s
        }
    } else if d.descriptor_type == 4 {
        let num = spec_desc_byte(d, 2);
        let id = "interface_"@ + spec_decimal(i) + "_"@ + spec_decimal(num as nat);
        let text = "Interface #"@ + spec_decimal(num as nat) + " (Class: 0x"@ + spec_hex2(spec_desc_byte(d, 5)) + ")"@;
        BuildState {
            nodes: spec_attach(s.nodes, spec_parent(s.config, None), spec_leaf(id, text, TreeNodeType::Interface)),
            interface: Some(id),
            ..s
        }
    } else if d.descriptor_type == 5 {
        let addr = spec_desc_byte(d, 2);
        let id = "endpoint_"@ + spec_decimal(i) + "_"@ + spec_decimal(addr as nat);
        let text = "Endpoint 0x"@ + spec_hex2(addr) + " ("@ + (if addr >= 0x80 { "IN"@ } else { "OUT"@ }) + ")"@;
        BuildState {
            nodes: spec_attach(s.nodes, spec_parent(s.interface, s.config), spec_leaf(id, text, TreeNodeType::Endpoint)),
            ..s
        }
    } else {
        s
    }
}

/// The build state after the first `n` descriptors.
pub open spec fn spec_build(descs: Seq<DescriptorModel>, n: nat) -> BuildState
    decreases n,
{
    if n == 0 || n > descs.len() {
        BuildState {
            nodes: Map::empty().insert("root"@, spec_leaf("root"@, "USB Descriptors"@, TreeNodeType::Root)),
            device: None,
            config: None,
            interface: None,
        }
    } else {
        spec_build_step(spec_build(descs, (n - 1) as nat), (n - 1) as nat, descs[n - 1])
    }
}

/// The tree that shows a list of descriptors under a "USB Descriptors" root.
pub open spec fn spec_descriptor_tree(descs: Seq<DescriptorModel>) -> TreeModel {
    TreeModel { nodes: spec_build(descs, descs.len()).nodes, roots: seq!["root"@] }
}

/// Model of an optional identifier.
pub open spec fn opt_id_model(id: Option<TreeNodeId>) -> Option<Seq<char>> {
    match id {
        Some(x) => Some(x@),
        None => None,
    }
}

fn clone_opt_id(id: &Option<TreeNodeId>) -> (r: Option<TreeNodeId>)
    ensures
        opt_id_model(r) == opt_id_model(*id),
{
    match id {
        Some(x) => Some(x.clone_id()),
        None => None,
    }
}

fn parent_id(a: &Option<TreeNodeId>, b: &Option<TreeNodeId>) -> (p: TreeNodeId)
    ensures
        p@ == spec_parent(opt_id_model(*a), opt_id_model(*b)),
{
    match a {
        Some(x) => x.clone_id(),
        None => match b {
            Some(y) => y.clone_id(),
            None => TreeNodeId::new("root"),
        },
    }
}

fn attach(nodes: &mut NodeMap, parent: &TreeNodeId, node: TreeNode)
    requires
        old(nodes).wf(),
    ensures
        final(nodes).wf(),
        final(nodes)@ == spec_attach(old(nodes)@, parent@, node@),
{
    nodes.push_child(parent, node.id.clone_id());
    let id = node.id.clone_id();
    nodes.insert(id, node);
}

/// The build state held in the executable variables.
pub open spec fn build_state(
    nodes: Map<Seq<char>, NodeModel>,
    device: Option<TreeNodeId>,
    config: Option<TreeNodeId>,
    interface: Option<TreeNodeId>,
) -> BuildState {
    BuildState {
        nodes,
        device: opt_id_model(device),
        config: opt_id_model(config),
        interface: opt_id_model(interface),
    }
}

fn device_node(nodes: &mut NodeMap, i: usize, d: &USBDescriptor) -> (id: TreeNodeId)
    requires
        old(nodes).wf(),
        d.descriptor_type == 1,
    ensures
        final(nodes).wf(),
        spec_build_step(BuildState { nodes: old(nodes)@, device: None, config: None, interface: None }, i as nat, d@)
            == (BuildState { nodes: final(nodes)@, device: Some(id@), config: None, interface: None }),
{
    let mut id = String::from_str("device_");
    push_decimal(&mut id, i as u64);
    let vid = desc_byte(d, 8) as u16 + 256 * (desc_byte(d, 9) as u16);
    let pid = desc_byte(d, 10) as u16 + 256 * (desc_byte(d, 11) as u16);
    let mut text = String::from_str("Device Descriptor (VID:");
    push_hex4(&mut text, vid);
    text.append(" PID:");
    push_hex4(&mut text, pid);
    text.append(")");
    let node_id = TreeNodeId::from_string(id);
    attach(nodes, &TreeNodeId::new("root"), TreeNode::leaf(node_id.clone_id(), text, TreeNodeType::Device));
    node_id
}

fn config_node(nodes: &mut NodeMap, device: &Option<TreeNodeId>, i: usize, d: &USBDescriptor) -> (id: TreeNodeId)
    requires
        old(nodes).wf(),
        d.descriptor_type == 2,
    ensures
        final(nodes).wf(),
        final(nodes)@ == spec_attach(
            old(nodes)@,
            spec_parent(opt_id_model(*device), None),
            spec_leaf(
                "config_"@ + spec_decimal(i as nat),
                "Configuration Descriptor #"@ + spec_decimal(spec_desc_byte(d@, 5) as nat),
                TreeNodeType::Configuration,
            ),
        ),
        id@ == "config_"@ + spec_decimal(i as nat),
{
    let mut id = String::from_str("config_");
    push_decimal(&mut id, i as u64);
    let mut text = String::from_str("Configuration Descriptor #");
    push_decimal(&mut text, desc_byte(d, 5) as u64);
    let node_id = TreeNodeId::from_string(id);
    let parent = parent_id(device, &None);
    attach(nodes, &parent, TreeNode::leaf(node_id.clone_id(), text, TreeNodeType::Configuration));
    node_id
}

fn interface_node(nodes: &mut NodeMap, config: &Option<TreeNodeId>, i: usize, d: &USBDescriptor) -> (id: TreeNodeId)
    requires
        old(nodes).wf(),
        d.descriptor_type == 4,
    ensures
        final(nodes).wf(),
        ({
            let num = spec_desc_byte(d@, 2);
            &&& id@ == "interface_"@ + spec_decimal(i as nat) + "_"@ + spec_decimal(num as nat)
            &&& final(nodes)@ == spec_attach(
                old(nodes)@,
                spec_parent(opt_id_model(*config), None),
                spec_leaf(
                    id@,
                    "Interface #"@ + spec_decimal(num as nat) + " (Class: 0x"@ + spec_hex2(spec_desc_byte(d@, 5)) + ")"@,
                    TreeNodeType::Interface,
                ),
            )
        }),
{
    let num = desc_byte(d, 2);
    let mut id = String::from_str("interface_");
    push_decimal(&mut id, i as u64);
    id.append("_");
    push_decimal(&mut id, num as u64);
    let mut text = String::from_str("Interface #");
    push_decimal(&mut text, num as u64);
    text.append(" (Class: 0x");
    push_hex2(&mut text, desc_byte(d, 5));
    text.append(")");
    let node_id = TreeNodeId::from_string(id);
    let parent = parent_id(config, &None);
    attach(nodes, &parent, TreeNode::leaf(node_id.clone_id(), text, TreeNodeType::Interface));
    node_id
}

fn endpoint_node(
    nodes: &mut NodeMap,
    interface: &Option<TreeNodeId>,
    config: &Option<TreeNodeId>,
    i: usize,
    d: &USBDescriptor,
)
    requires
        old(nodes).wf(),
        d.descriptor_type == 5,
    ensures
        final(nodes).wf(),
        ({
            let addr = spec_desc_byte(d@, 2);
            final(nodes)@ == spec_attach(
                old(nodes)@,
                spec_parent(opt_id_model(*interface), opt_id_model(*config)),
                spec_leaf(
                    "endpoint_"@ + spec_decimal(i as nat) + "_"@ + spec_decimal(addr as nat),
                    "Endpoint 0x"@ + spec_hex2(addr) + " ("@ + (if addr >= 0x80 { "IN"@ } else { "OUT"@ }) + ")"@,
                    TreeNodeType::Endpoint,
                ),
            )
        }),
{
    let addr = desc_byte(d, 2);
    let mut id = String::from_str("endpoint_");
    push_decimal(&mut id, i as u64);
    id.append("_");
    push_decimal(&mut id, addr as u64);
    let mut text = String::from_str("Endpoint 0x");
    push_hex2(&mut text, addr);
    text.append(" (");
    if addr >= 0x80 {
        text.append("IN");
    } else {
        text.append("OUT");
    }
    text.append(")");
    let node_id = TreeNodeId::from_string(id);
    let parent = parent_id(interface, config);
    attach(nodes, &parent, TreeNode::leaf(node_id, text, TreeNodeType::Endpoint));
}

/// Builds the tree that shows a list of descriptors.
pub fn build_descriptor_tree(descriptors: &Vec<USBDescriptor>) -> (r: (NodeMap, Vec<TreeNodeId>))
    ensures
        r.0.wf(),
        (TreeModel { nodes: r.0@, roots: ids_model(r.1@) }) == spec_descriptor_tree(descriptors_model(descriptors@)),
{
    let ghost descs = descriptors_model(descriptors@);
    let mut nodes = NodeMap::new();
    let mut roots: Vec<TreeNodeId> = Vec::new();
    roots.push(TreeNodeId::new("root"));
    nodes.insert(TreeNodeId::new("root"), TreeNode::leaf(TreeNodeId::new("root"), String::from_str("USB Descriptors"), TreeNodeType::Root));
    let mut device: Option<TreeNodeId> = None;
    let mut config: Option<TreeNodeId> = None;
    let mut interface: Option<TreeNodeId> = None;
    let mut i: usize = 0;
    while i < descriptors.len()
        invariant
            i <= descriptors@.len(),
            descs == descriptors_model(descriptors@),
            nodes.wf(),
            ids_model(roots@) == seq!["root"@],
            spec_build(descs, i as nat) == build_state(nodes@, device, config, interface),
        decreases descriptors@.len() - i,
    {
        let d = &descriptors[i];
        assert(descs[i as int] == d@);
        let ghost before = build_state(nodes@, device, config, interface);
        if d.descriptor_type == 1 {
            let id = device_node(&mut nodes, i, d);
            device = Some(id);
            config = None;
            interface = None;
        } else if d.descriptor_type == 2 {
            let id = config_node(&mut nodes, &device, i, d);
            config = Some(id);
            interface = None;
        } else if d.descriptor_type == 4 {
            let id = interface_node(&mut nodes, &config, i, d);
            interface = Some(id);
        } else if d.descriptor_type == 5 {
            endpoint_node(&mut nodes, &interface, &config, i, d);
        }
        assert(spec_build_step(before, i as nat, d@) == build_state(nodes@, device, config, interface));
        i += 1;
    }
    (nodes, roots)
}

/// One captured buffer: when it arrived (microseconds since the Unix epoch),
/// its bytes and the descriptors framed from it.
pub struct TrafficItem {
    pub timestamp_micros: u64,
    pub raw_data: Vec<u8>,
    pub decoded_data: DecodedUSBData,
}

/// Model of a captured buffer.
pub struct TrafficItemModel {
    pub timestamp_micros: u64,
    pub raw_data: Seq<u8>,
    pub descriptors: Seq<DescriptorModel>,
}

impl View for TrafficItem {
    type V = TrafficItemModel;

    open spec fn view(&self) -> TrafficItemModel {
        TrafficItemModel {
            timestamp_micros: self.timestamp_micros,
            raw_data: self.raw_data@,
            descriptors: self.decoded_data@,
        }
    }
}

impl TrafficItem {
    /// A captured buffer.
    pub fn new(timestamp_micros: u64, raw_data: Vec<u8>, decoded_data: DecodedUSBData) -> (t: TrafficItem)
        ensures
            t@ == (TrafficItemModel { timestamp_micros, raw_data: raw_data@, descriptors: decoded_data@ }),
    {
        TrafficItem { timestamp_micros, raw_data, decoded_data }
    }

    /// A copy of the buffer.
    pub fn clone_item(&self) -> (t: TrafficItem)
        ensures
            t@ == self@,
    {
        let raw = copy_range(self.raw_data.as_slice(), 0, self.raw_data.len());
        assert(self.raw_data@.subrange(0, self.raw_data@.len() as int) =~= self.raw_data@);
        TrafficItem { timestamp_micros: self.timestamp_micros, raw_data: raw, decoded_data: self.decoded_data.clone_data() }
    }
}

/// Model of a list of captured buffers.
pub open spec fn items_model(v: Seq<TrafficItem>) -> Seq<TrafficItemModel> {
    Seq::new(v.len(), |i: int| v[i]@)
}

fn clone_items(v: &Vec<TrafficItem>) -> (r: Vec<TrafficItem>)
    ensures
        items_model(r@) == items_model(v@),
{
    let mut r: Vec<TrafficItem> = Vec::new();
    let mut i: usize = 0;
    while i < v.len()
        invariant
            i <= v@.len(),
            items_model(r@) == items_model(v@.subrange(0, i as int)),
        decreases v@.len() - i,
    {
        let ghost before = items_model(r@);
        r.push(v[i].clone_item());
        assert(items_model(r@) =~= before.push(v@[i as int]@));
        assert(items_model(v@.subrange(0, i + 1)) =~= items_model(v@.subrange(0, i as int)).push(v@[i as int]@));
        i += 1;
    }
    assert(v@.subrange(0, v@.len() as int) =~= v@);
    r
}

/// Messages the traffic view handles.
pub enum TrafficMessage {
    ItemSelected(usize),
    FilterChanged(String),
    ToggleAutoScroll(bool),
    ClearTraffic,
    LoadData(Vec<TrafficItem>),
    ToggleTreeNode(TreeNodeId),
    ToggleDarkMode(bool),
    OpenSpeedDialog,
    CloseSpeedDialog,
    ChangeSpeed(Speed),
    NoOp,
}

/// Model of the traffic view.
pub struct TrafficViewModel {
    pub items: Seq<TrafficItemModel>,
    pub selected: Option<usize>,
    pub filter: Seq<char>,
    pub auto_scroll: bool,
    pub tree: TreeModel,
    pub dark_mode: bool,
    pub capture_active: bool,
    pub speed_selection_open: bool,
}

/// The captured buffers, the selection and the tree shown for them.
pub struct TrafficView {
    traffic_data: Vec<TrafficItem>,
    selected_item: Option<usize>,
    filter_text: String,
    auto_scroll: bool,
    tree_nodes: NodeMap,
    root_nodes: Vec<TreeNodeId>,
    dark_mode: bool,
    capture_active: bool,
    speed_selection_open: bool,
}

/// The tree after a selection changes: the descriptor tree of the selected
/// buffer if the selection is in range, else unchanged.
pub open spec fn spec_tree_for_selection(v: TrafficViewModel) -> TreeModel {
    match v.selected {
        Some(i) => if i < v.items.len() { spec_descriptor_tree(v.items[i as int].descriptors) } else { v.tree },
        None => v.tree,
    }
}

/// The tree left by clearing the view: only a "USB Traffic" root node,
/// listed among no roots.
pub open spec fn spec_cleared_tree() -> TreeModel {
    TreeModel {
        nodes: Map::empty().insert("root"@, spec_leaf("root"@, "USB Traffic"@, TreeNodeType::Root)),
        roots: Seq::empty(),
    }
}

/// The empty tree.
pub open spec fn spec_empty_tree() -> TreeModel {
    TreeModel { nodes: Map::empty(), roots: Seq::empty() }
}

/// The view after a message.
pub open spec fn spec_traffic_update(v: TrafficViewModel, m: TrafficMessage) -> TrafficViewModel {
    match m {
        TrafficMessage::ItemSelected(i) => {
            let v1 = TrafficViewModel { selected: Some(i), ..v };
            TrafficViewModel { tree: spec_tree_for_selection(v1), ..v1 }
        },
        TrafficMessage::FilterChanged(f) => TrafficViewModel { filter: f@, ..v },
        TrafficMessage::ToggleAutoScroll(b) => TrafficViewModel { auto_scroll: b, ..v },
        TrafficMessage::ClearTraffic => TrafficViewModel { items: Seq::empty(), selected: None, tree: spec_empty_tree(), ..v },
        TrafficMessage::LoadData(items) => {
            let v1 = TrafficViewModel {
                items: items_model(items@),
                selected: if items@.len() == 0 { None } else { Some(0usize) },
                ..v
            };
            TrafficViewModel { tree: spec_tree_for_selection(v1), ..v1 }
        },
        TrafficMessage::ToggleTreeNode(id) => TrafficViewModel {
            tree: TreeModel { nodes: spec_toggle(v.tree.nodes, id@), ..v.tree },
            ..v
        },
        TrafficMessage::ToggleDarkMode(b) => TrafficViewModel { dark_mode: b, ..v },
        TrafficMessage::OpenSpeedDialog => TrafficViewModel { speed_selection_open: true, ..v },
        TrafficMessage::CloseSpeedDialog => TrafficViewModel { speed_selection_open: false, ..v },
        TrafficMessage::ChangeSpeed(_) => TrafficViewModel { speed_selection_open: false, ..v },
        TrafficMessage::NoOp => v,
    }
}

/// The view after a captured buffer is added; with auto-scroll on it becomes
/// the selection and the tree shows its descriptors.
pub open spec fn spec_add_packet(v: TrafficViewModel, item: TrafficItemModel) -> TrafficViewModel {
    let v1 = TrafficViewModel { items: v.items.push(item), ..v };
    if v.auto_scroll {
        let v2 = TrafficViewModel { selected: Some(v.items.len() as usize), ..v1 };
        TrafficViewModel { tree: spec_tree_for_selection(v2), ..v2 }
    } else {
        v1
    }
}

/// The tree after each of `txs` is added in turn.
pub open spec fn spec_add_transactions(tree: TreeModel, txs: Seq<TransactionModel>) -> TreeModel
    decreases txs.len(),
{
    if txs.len() == 0 {
        tree
    } else {
        spec_add_transaction(spec_add_transactions(tree, txs.drop_last()), txs.last())
    }
}

impl View for TrafficView {
    type V = TrafficViewModel;

    closed spec fn view(&self) -> TrafficViewModel {
        TrafficViewModel {
            items: items_model(self.traffic_data@),
            selected: self.selected_item,
            filter: self.filter_text@,
            auto_scroll: self.auto_scroll,
            tree: TreeModel { nodes: self.tree_nodes@, roots: ids_model(self.root_nodes@) },
            dark_mode: self.dark_mode,
            capture_active: self.capture_active,
            speed_selection_open: self.speed_selection_open,
        }
    }
}

impl TrafficView {
    /// The internal node map keeps each identifier once.
    pub closed spec fn wf(&self) -> bool {
        self.tree_nodes.wf()
    }

    /// An empty view: auto-scroll on, dark mode, capture inactive.
    pub fn new() -> (v: TrafficView)
        ensures
            v.wf(),
            v@ == (TrafficViewModel {
                items: Seq::empty(),
                selected: None,
                filter: Seq::empty(),
                auto_scroll: true,
                tree: spec_empty_tree(),
                dark_mode: true,
                capture_active: false,
                speed_selection_open: false,
            }),
    {
        let v = TrafficView {
            traffic_data: Vec::new(),
            selected_item: None,
            filter_text: String::new(),
            auto_scroll: true,
            tree_nodes: NodeMap::new(),
            root_nodes: Vec::new(),
            dark_mode: true,
            capture_active: false,
            speed_selection_open: false,
        };
        assert(items_model(v.traffic_data@) =~= Seq::<TrafficItemModel>::empty());
        assert(ids_model(v.root_nodes@) =~= Seq::<Seq<char>>::empty());
        v
    }

    /// Records whether capture is running.
    pub fn set_capture_active(&mut self, active: bool)
        requires
            old(self).wf(),
        ensures
            final(self).wf(),
            final(self)@ == (TrafficViewModel { capture_active: active, ..old(self)@ }),
    {
        self.capture_active = active;
    }

    /// Whether capture is running.
    pub fn is_capture_active(&self) -> (b: bool)
        ensures
            b == self@.capture_active,
    {
        self.capture_active
    }

    /// The captured buffers.
    pub fn traffic_data(&self) -> (d: &Vec<TrafficItem>)
        ensures
            items_model(d@) == self@.items,
    {
        &self.traffic_data
    }

    /// The selected buffer's index.
    pub fn selected_item(&self) -> (s: Option<usize>)
        ensures
            s == self@.selected,
    {
        self.selected_item
    }

    /// The filter text.
    pub fn filter_text(&self) -> (f: &String)
        ensures
            f@ == self@.filter,
    {
        &self.filter_text
    }

    /// Whether new buffers are selected as they arrive.
    pub fn auto_scroll(&self) -> (b: bool)
        ensures
            b == self@.auto_scroll,
    {
        self.auto_scroll
    }

    /// Whether the view is in dark mode.
    pub fn dark_mode(&self) -> (b: bool)
        ensures
            b == self@.dark_mode,
    {
        self.dark_mode
    }

    /// Whether the speed dialog is open.
    pub fn speed_selection_open(&self) -> (b: bool)
        ensures
            b == self@.speed_selection_open,
    {
        self.speed_selection_open
    }

    /// The nodes of the tree.
    pub fn tree_nodes(&self) -> (n: &NodeMap)
        requires
            self.wf(),
        ensures
            n@ == self@.tree.nodes,
            n.wf(),
    {
        &self.tree_nodes
    }

    /// The roots of the tree.
    pub fn root_nodes(&self) -> (r: &Vec<TreeNodeId>)
        ensures
            ids_model(r@) == self@.tree.roots,
    {
        &self.root_nodes
    }

    /// Forgets every buffer, the selection and the whole tree.
    pub fn clear_traffic(&mut self)
        requires
            old(self).wf(),
        ensures
            final(self).wf(),
            final(self)@ == (TrafficViewModel { items: Seq::empty(), selected: None, tree: spec_empty_tree(), ..old(self)@ }),
    {
        self.traffic_data.clear();
        self.selected_item = None;
        self.tree_nodes.clear();
        self.root_nodes.clear();
        assert(items_model(self.traffic_data@) =~= Seq::<TrafficItemModel>::empty());
        assert(ids_model(self.root_nodes@) =~= Seq::<Seq<char>>::empty());
    }

    /// Replaces the tree by a lone "USB Traffic" root node.
    pub fn clear_tree_view(&mut self)
        requires
            old(self).wf(),
        ensures
            final(self).wf(),
            final(self)@ == (TrafficViewModel { tree: spec_cleared_tree(), ..old(self)@ }),
    {
        self.tree_nodes.clear();
        self.root_nodes.clear();
        let root_id = TreeNodeId::new("root");
        let root = TreeNode::leaf(root_id.clone_id(), String::from_str("USB Traffic"), TreeNodeType::Root);
        self.tree_nodes.insert(root_id, root);
        assert(ids_model(self.root_nodes@) =~= Seq::<Seq<char>>::empty());
    }

    /// Forgets every buffer and the selection and leaves a lone root node.
    pub fn clear(&mut self)
        requires
            old(self).wf(),
        ensures
            final(self).wf(),
            final(self)@ == (TrafficViewModel { items: Seq::empty(), selected: None, tree: spec_cleared_tree(), ..old(self)@ }),
    {
        self.traffic_data.clear();
        self.selected_item = None;
        assert(items_model(self.traffic_data@) =~= Seq::<TrafficItemModel>::empty());
        self.clear_tree_view();
    }

    fn build_tree_for_selected_item(&mut self)
        requires
            old(self).wf(),
        ensures
            final(self).wf(),
            final(self)@ == (TrafficViewModel { tree: spec_tree_for_selection(old(self)@), ..old(self)@ }),
    {
        match self.selected_item {
            Some(index) => {
                if index < self.traffic_data.len() {
                    let descriptors = clone_descriptors(&self.traffic_data[index].decoded_data.descriptors);
                    let (nodes, roots) = build_descriptor_tree(&descriptors);
                    self.tree_nodes = nodes;
                    self.root_nodes = roots;
                }
            },
            None => {},
        }
    }

    /// Adds a captured buffer; with auto-scroll on it becomes the selection
    /// and the tree shows its descriptors.
    pub fn add_packet(&mut self, raw_data: Vec<u8>, decoded_data: DecodedUSBData, timestamp_micros: u64)
        requires
            old(self).wf(),
        ensures
            final(self).wf(),
            final(self)@ == spec_add_packet(
                old(self)@,
                TrafficItemModel { timestamp_micros, raw_data: raw_data@, descriptors: decoded_data@ },
            ),
    {
        let ghost before = items_model(self.traffic_data@);
        let item = TrafficItem::new(timestamp_micros, raw_data, decoded_data);
        self.traffic_data.push(item);
        assert(items_model(self.traffic_data@) =~= before.push(self.traffic_data@.last()@));
        if self.auto_scroll {
            self.selected_item = Some(self.traffic_data.len() - 1);
            self.build_tree_for_selected_item();
        }
    }

    /// Adds a decoded transaction to the tree.
    pub fn add_transaction(&mut self, transaction: UsbTransaction)
        requires
            old(self).wf(),
        ensures
            final(self).wf(),
            final(self)@ == (TrafficViewModel { tree: spec_add_transaction(old(self)@.tree, transaction@), ..old(self)@ }),
    {
        add_transaction_to_tree(&mut self.tree_nodes, &mut self.root_nodes, &transaction);
    }

    /// Adds decoded transactions to the tree, in order.
    pub fn add_transactions(&mut self, transactions: Vec<UsbTransaction>)
        requires
            old(self).wf(),
        ensures
            final(self).wf(),
            final(self)@ == (TrafficViewModel {
                tree: spec_add_transactions(old(self)@.tree, transactions_model(transactions@)),
                ..old(self)@
            }),
    {
        let mut rest = transactions;
        let ghost txs = transactions_model(rest@);
        let ghost n = txs.len();
        let ghost tv1 = self@;
        assert(transactions_model(rest@) =~= txs.subrange(0, n as int));
        assert(txs.subrange(0, 0) =~= Seq::<TransactionModel>::empty());
        while rest.len() > 0
            invariant
                rest@.len() <= n,
                n == txs.len(),
                transactions_model(rest@) == txs.subrange(n - rest@.len(), n as int),
                self.wf(),
                self@ == (TrafficViewModel { tree: spec_add_transactions(tv1.tree, txs.subrange(0, n - rest@.len())), ..tv1 }),
            decreases rest@.len(),
        {
            let ghost k = n - rest@.len();
            let ghost before = rest@;
            let t = rest.remove(0);
            proof {
                assert(transactions_model(before)[0] == txs.subrange(k, n as int)[0]);
                assert(before[0]@ == txs[k]);
                assert(txs.subrange(0, k + 1).drop_last() =~= txs.subrange(0, k));
                assert(txs.subrange(0, k + 1).last() == txs[k]);
                assert forall|j: int| 0 <= j < rest@.len() implies #[trigger] transactions_model(rest@)[j]
                    == txs.subrange(n - rest@.len(), n as int)[j] by {
                    assert(rest@[j] == before[j + 1]);
                    assert(transactions_model(before)[j + 1] == txs.subrange(k, n as int)[j + 1]);
                }
                assert(transactions_model(rest@) =~= txs.subrange(n - rest@.len(), n as int));
            }
            self.add_transaction(t);
        }
        assert(txs.subrange(0, n as int) =~= txs);
    }

    /// A copy of the captured buffers, or `None` if there are none.
    pub fn get_traffic_data(&self) -> (r: Option<Vec<TrafficItem>>)
        ensures
            self@.items.len() == 0 <==> r is None,
            r matches Some(v) ==> items_model(v@) == self@.items,
    {
        if self.traffic_data.len() == 0 {
            None
        } else {
            Some(clone_items(&self.traffic_data))
        }
    }

    /// Handles a message of the view.
    pub fn update(&mut self, message: TrafficMessage)
        requires
            old(self).wf(),
        ensures
            final(self).wf(),
            final(self)@ == spec_traffic_update(old(self)@, message),
    {
        match message {
            TrafficMessage::ItemSelected(index) => {
                self.selected_item = Some(index);
                self.build_tree_for_selected_item();
            },
            TrafficMessage::FilterChanged(filter) => {
                self.filter_text = filter;
            },
            TrafficMessage::ToggleAutoScroll(auto_scroll) => {
                self.auto_scroll = auto_scroll;
            },
            TrafficMessage::ClearTraffic => {
                self.clear_traffic();
            },
            TrafficMessage::LoadData(data) => {
                self.traffic_data = data;
                self.selected_item = if self.traffic_data.len() == 0 { None } else { Some(0) };
                self.build_tree_for_selected_item();
            },
            TrafficMessage::ToggleTreeNode(node_id) => {
                self.tree_nodes.toggle_expanded(&node_id);
            },
            TrafficMessage::ToggleDarkMode(enabled) => {
                self.dark_mode = enabled;
            },
            TrafficMessage::OpenSpeedDialog => {
                self.speed_selection_open = true;
            },
            TrafficMessage::CloseSpeedDialog => {
                self.speed_selection_open = false;
            },
            TrafficMessage::ChangeSpeed(_) => {
                self.speed_selection_open = false;
            },
            TrafficMessage::NoOp => {},
        }
    }
}

} // verus!
