use usbfly::decode::process_transactions;
use usbfly::descriptor::{decode_descriptors, DescriptorMessage, DescriptorView, USBDescriptor};
use usbfly::speed::Speed;
use usbfly::traffic::{build_descriptor_tree, TrafficMessage, TrafficView};
use usbfly::tree::{NodeMap, TreeNode, TreeNodeId, TreeNodeType};

fn device_descriptor() -> Vec<u8> {
    vec![18, 1, 0x00, 0x02, 0, 0, 0, 64, 0x50, 0x1d, 0x5b, 0x61, 0x00, 0x01, 1, 2, 3, 1]
}

fn config_and_interface() -> Vec<u8> {
    let mut v = vec![9, 2, 32, 0, 1, 1, 0, 0x80, 50];
    v.extend_from_slice(&[9, 4, 0, 0, 2, 0x03, 1, 1, 0]);
    v.extend_from_slice(&[7, 5, 0x81, 3, 8, 0, 10]);
    v
}

#[test]
fn descriptors_are_framed_by_length() {
    assert!(decode_descriptors(&[]).is_none());
    assert!(decode_descriptors(&[1, 1]).is_none());
    let d = decode_descriptors(&config_and_interface()).unwrap();
    assert_eq!(d.descriptors.len(), 3);
    assert_eq!(d.descriptors[0].descriptor_type, 2);
    assert_eq!(d.descriptors[1].descriptor_type, 4);
    assert_eq!(d.descriptors[2].data, vec![0x81, 3, 8, 0, 10]);
    let cut = decode_descriptors(&[9, 2, 1, 2, 3]).is_none();
    assert!(cut);
}

#[test]
fn descriptor_view_adds_each_descriptor_once() {
    let mut v = DescriptorView::new();
    assert!(v.dark_mode());
    v.update_descriptors(decode_descriptors(&device_descriptor()).unwrap());
    v.update_descriptors(decode_descriptors(&device_descriptor()).unwrap());
    assert_eq!(v.descriptors().len(), 1);
    assert_eq!(v.selected_descriptor(), Some(0));
    v.update_descriptors(decode_descriptors(&config_and_interface()).unwrap());
    assert_eq!(v.descriptors().len(), 4);
    for i in 0..v.descriptors().len() {
        for j in 0..v.descriptors().len() {
            if i != j {
                assert!(!v.descriptors()[i].same_as(&v.descriptors()[j]));
            }
        }
    }
    v.update(DescriptorMessage::DescriptorSelected(2));
    assert_eq!(v.selected_descriptor(), Some(2));
    v.update(DescriptorMessage::ToggleDarkMode(false));
    assert!(!v.dark_mode());
    v.update(DescriptorMessage::ClearDescriptors);
    assert!(v.descriptors().is_empty());
    assert_eq!(v.selected_descriptor(), None);
    assert!(!v.dark_mode());
}

#[test]
fn descriptor_tree_nests_by_kind() {
    let mut all = device_descriptor();
    all.extend(config_and_interface());
    let d = decode_descriptors(&all).unwrap();
    let (nodes, roots) = build_descriptor_tree(&d.descriptors);
    assert_eq!(roots.len(), 1);
    assert_eq!(roots[0].0, "root");
    let root = nodes.get(&TreeNodeId::new("root")).unwrap();
    assert_eq!(root.data, "USB Descriptors");
    assert_eq!(root.children.len(), 1);
    assert_eq!(root.children[0].0, "device_0");
    let dev = nodes.get(&TreeNodeId::new("device_0")).unwrap();
    assert_eq!(dev.data, "Device Descriptor (VID:1D50 PID:615B)");
    assert_eq!(dev.children[0].0, "config_1");
    let cfg = nodes.get(&TreeNodeId::new("config_1")).unwrap();
    assert_eq!(cfg.data, "Configuration Descriptor #1");
    let iface = nodes.get(&TreeNodeId::new("interface_2_0")).unwrap();
    assert_eq!(iface.data, "Interface #0 (Class: 0x03)");
    assert_eq!(iface.children[0].0, "endpoint_3_129");
    let ep = nodes.get(&TreeNodeId::new("endpoint_3_129")).unwrap();
    assert_eq!(ep.data, "Endpoint 0x81 (IN)");
    assert_eq!(ep.item_type, TreeNodeType::Endpoint);
    assert_eq!(nodes.len(), 5);
}

#[test]
fn traffic_view_auto_scroll_selects_new_buffer() {
    let mut v = TrafficView::new();
    assert!(v.auto_scroll());
    assert!(v.get_traffic_data().is_none());
    let raw = device_descriptor();
    v.add_packet(raw.clone(), decode_descriptors(&raw).unwrap(), 42);
    assert_eq!(v.traffic_data().len(), 1);
    assert_eq!(v.traffic_data()[0].timestamp_micros, 42);
    assert_eq!(v.selected_item(), Some(0));
    assert_eq!(v.root_nodes()[0].0, "root");
    v.update(TrafficMessage::ToggleAutoScroll(false));
    v.add_packet(raw.clone(), decode_descriptors(&raw).unwrap(), 43);
    assert_eq!(v.selected_item(), Some(0));
    let saved = v.get_traffic_data().unwrap();
    assert_eq!(saved.len(), 2);
    let mut w = TrafficView::new();
    w.update(TrafficMessage::LoadData(saved));
    assert_eq!(w.traffic_data().len(), 2);
    assert_eq!(w.traffic_data()[1].timestamp_micros, 43);
    assert_eq!(w.selected_item(), Some(0));
}

#[test]
fn traffic_view_messages() {
    let mut v = TrafficView::new();
    v.update(TrafficMessage::FilterChanged("abc".to_string()));
    assert_eq!(v.filter_text(), "abc");
    v.update(TrafficMessage::OpenSpeedDialog);
    assert!(v.speed_selection_open());
    v.update(TrafficMessage::ChangeSpeed(Speed::Full));
    assert!(!v.speed_selection_open());
    v.update(TrafficMessage::ToggleDarkMode(false));
    assert!(!v.dark_mode());
    v.set_capture_active(true);
    assert!(v.is_capture_active());
    v.clear();
    assert!(v.traffic_data().is_empty());
    assert!(v.is_capture_active());
    assert_eq!(v.tree_nodes().get(&TreeNodeId::new("root")).unwrap().data, "USB Traffic");
    assert!(v.root_nodes().is_empty());
    v.clear_traffic();
    assert_eq!(v.tree_nodes().len(), 0);
}

#[test]
fn transactions_join_the_tree() {
    let mut v = TrafficView::new();
    let data = [0xD0, 0x00, 0x03, 0x08, 0x80, 0x06, 0x00, 0x01, 0x00, 0x00, 0x12, 0x00];
    let txs = process_transactions(&data);
    v.add_transactions(txs);
    assert_eq!(v.root_nodes()[0].0, "mitm_root");
    let root = v.tree_nodes().get(&TreeNodeId::new("mitm_root")).unwrap();
    assert_eq!(root.data, "USB Transactions");
    assert_eq!(root.children[0].0, "tx_1");
    let tx = v.tree_nodes().get(&TreeNodeId::new("tx_1")).unwrap();
    assert!(tx.data.starts_with("Control Transfer: "));
    assert!(tx.data.ends_with(" (Endpoint: 0x00)"));
    assert_eq!(tx.children.len(), 3);
    let setup = v.tree_nodes().get(&TreeNodeId::new("setup_1")).unwrap();
    assert_eq!(setup.data, "Setup Packet: Host to Device (bmRequestType: 0x80, bRequest: 0x06)");
    let status = v.tree_nodes().get(&TreeNodeId::new("status_1")).unwrap();
    assert_eq!(status.data, "Status: ACK (Endpoint: 0x00)");
    let data_node = v.tree_nodes().get(&TreeNodeId::new("data_1")).unwrap();
    assert_eq!(data_node.data, "Data Packet: Host to Device (8 bytes)");
    v.update(TrafficMessage::ToggleTreeNode(TreeNodeId::new("tx_1")));
    assert!(!v.tree_nodes().get(&TreeNodeId::new("tx_1")).unwrap().expanded);
}

#[test]
fn node_map_keeps_one_entry_per_id() {
    let mut m = NodeMap::new();
    m.insert(TreeNodeId::new("a"), TreeNode::leaf(TreeNodeId::new("a"), "first".to_string(), TreeNodeType::Other));
    m.insert(TreeNodeId::new("a"), TreeNode::leaf(TreeNodeId::new("a"), "second".to_string(), TreeNodeType::Other));
    assert_eq!(m.len(), 1);
    assert_eq!(m.get(&TreeNodeId::new("a")).unwrap().data, "second");
    m.push_child(&TreeNodeId::new("a"), TreeNodeId::new("b"));
    m.push_child(&TreeNodeId::new("missing"), TreeNodeId::new("c"));
    assert_eq!(m.get(&TreeNodeId::new("a")).unwrap().children.len(), 1);
    assert!(m.get(&TreeNodeId::new("missing")).is_none());
    m.toggle_expanded(&TreeNodeId::new("a"));
    assert!(!m.get(&TreeNodeId::new("a")).unwrap().expanded);
    m.clear();
    assert_eq!(m.len(), 0);
    let _ = USBDescriptor { length: 2, descriptor_type: 9, data: vec![] };
}
