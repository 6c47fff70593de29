use passive_packet::address::{IpAddress, Ipv4Address, Ipv6Address};
use passive_packet::protocol::Layer;
use passive_packet::store::{CommStore, Communication};

fn s(t: &str) -> String {
    t.to_string()
}

fn comm(src: &str, dst: &str, typ: &[&str], value: u32) -> Communication {
    Communication::new(s(src), s("desktop"), s(dst), s("desktop"), typ.iter().map(|t| s(t)).collect(), value)
}

fn ipv4_frame(src: Ipv4Address, dst: Ipv4Address, top: Layer) -> Vec<Layer> {
    vec![Layer::Ethernet, Layer::Ipv4 { src, dst }, top]
}

#[test]
fn self_traffic_is_not_stored() {
    let mut store = CommStore::empty();
    let a = Ipv4Address(10, 0, 0, 1);
    assert!(!store.record_frame(&ipv4_frame(a, a, Layer::Tcp)));
    assert!(store.data.is_empty());
}

#[test]
fn frame_without_addresses_is_not_stored() {
    let mut store = CommStore::empty();
    assert!(!store.record_frame(&vec![Layer::Ethernet]));
    assert!(!store.record_frame(&vec![Layer::Ethernet, Layer::Unrecognized]));
    assert!(store.data.is_empty());
}

#[test]
fn frame_becomes_record() {
    let mut store = CommStore::empty();
    let frame = ipv4_frame(Ipv4Address(192, 168, 1, 4), Ipv4Address(8, 8, 8, 8), Layer::Udp);
    assert!(store.record_frame(&frame));
    assert_eq!(store.data.len(), 1);
    let r = &store.data[0];
    assert_eq!(r.src, "192.168.1.4");
    assert_eq!(r.src_group, "desktop");
    assert_eq!(r.dst, "8.8.8.8");
    assert_eq!(r.dst_group, "internet");
    assert_eq!(r.typ, vec![s("UDP")]);
    assert_eq!(r.value, 1);
}

#[test]
fn two_frames_same_pair_merge() {
    let mut store = CommStore::empty();
    let a = Ipv4Address(10, 0, 0, 1);
    let b = Ipv4Address(10, 0, 0, 2);
    assert!(store.record_frame(&ipv4_frame(a, b, Layer::Tcp)));
    assert!(store.record_frame(&ipv4_frame(a, b, Layer::Udp)));
    assert!(store.record_frame(&ipv4_frame(a, b, Layer::Tcp)));
    assert_eq!(store.data.len(), 1);
    assert_eq!(store.data[0].typ, vec![s("TCP"), s("UDP")]);
    assert_eq!(store.data[0].value, 3);
}

#[test]
fn reversed_direction_is_a_second_record() {
    let mut store = CommStore::empty();
    let a = Ipv4Address(10, 0, 0, 1);
    let b = Ipv4Address(10, 0, 0, 2);
    store.record_frame(&ipv4_frame(a, b, Layer::Tcp));
    store.record_frame(&ipv4_frame(b, a, Layer::Tcp));
    assert_eq!(store.data.len(), 2);
    assert_eq!(store.data[0].src, "10.0.0.1");
    assert_eq!(store.data[1].src, "10.0.0.2");
}

#[test]
fn merge_counts_once_per_label() {
    let mut store = CommStore::empty();
    store.add(comm("A", "B", &["TCP"], 1));
    store.add(comm("A", "B", &["TCP", "UDP"], 1));
    assert_eq!(store.data.len(), 1);
    assert_eq!(store.data[0].typ, vec![s("TCP"), s("UDP")]);
    assert_eq!(store.data[0].value, 3);
}

#[test]
fn new_pair_is_appended_unchanged() {
    let mut store = CommStore::empty();
    store.add(comm("A", "B", &["TCP"], 1));
    store.add(comm("C", "D", &["UDP", "DNS"], 7));
    assert_eq!(store.data.len(), 2);
    assert_eq!(store.data[1].src, "C");
    assert_eq!(store.data[1].typ, vec![s("UDP"), s("DNS")]);
    assert_eq!(store.data[1].value, 7);
}

#[test]
fn merge_without_labels_changes_nothing() {
    let mut store = CommStore::empty();
    store.add(comm("A", "B", &["TCP"], 4));
    store.add(comm("A", "B", &[], 9));
    assert_eq!(store.data.len(), 1);
    assert_eq!(store.data[0].typ, vec![s("TCP")]);
    assert_eq!(store.data[0].value, 4);
}

#[test]
fn merge_count_holds_at_maximum() {
    let mut store = CommStore::empty();
    store.add(comm("A", "B", &["TCP"], u32::MAX - 1));
    store.add(comm("A", "B", &["TCP", "UDP", "DNS"], 1));
    assert_eq!(store.data[0].value, u32::MAX);
    assert_eq!(store.data[0].typ, vec![s("TCP"), s("UDP"), s("DNS")]);
}

#[test]
fn groups_are_not_part_of_the_key() {
    let mut store = CommStore::empty();
    store.add(comm("A", "B", &["TCP"], 1));
    store.add(Communication::new(s("A"), s("internet"), s("B"), s("other"), vec![s("UDP")], 1));
    assert_eq!(store.data.len(), 1);
    assert_eq!(store.data[0].src_group, "desktop");
    assert_eq!(store.data[0].value, 2);
}

#[test]
fn seeded_store_has_one_record_per_local_address() {
    let local = vec![
        IpAddress::V4(Ipv4Address(192, 168, 1, 4)),
        IpAddress::V6(Ipv6Address(0, 0, 0, 0, 0, 0, 0, 1)),
        IpAddress::V4(Ipv4Address(192, 168, 1, 4)),
    ];
    let store = CommStore::new(&local);
    assert_eq!(store.data.len(), 2);
    assert_eq!(store.data[0].src, "192.168.1.4");
    assert_eq!(store.data[0].dst, "192.168.1.4");
    assert_eq!(store.data[0].src_group, "desktop");
    assert_eq!(store.data[0].dst_group, "desktop");
    assert!(store.data[0].typ.is_empty());
    assert_eq!(store.data[0].value, 0);
    assert_eq!(store.data[1].src, "::1");
    assert_eq!(store.data[1].dst, "::1");
}

#[test]
fn traffic_to_seed_address_is_a_new_pair() {
    let local = vec![IpAddress::V4(Ipv4Address(192, 168, 1, 4))];
    let mut store = CommStore::new(&local);
    store.record_frame(&ipv4_frame(Ipv4Address(192, 168, 1, 4), Ipv4Address(192, 168, 1, 1), Layer::Tcp));
    assert_eq!(store.data.len(), 2);
    assert_eq!(store.data[0].value, 0);
}

#[test]
fn duplicate_keeps_every_field() {
    let c = Communication::new(s("A"), s("internet"), s("B"), s("other"), vec![s("TCP"), s("UDP")], 12);
    let d = c.duplicate();
    assert_eq!(d.src, "A");
    assert_eq!(d.src_group, "internet");
    assert_eq!(d.dst, "B");
    assert_eq!(d.dst_group, "other");
    assert_eq!(d.typ, vec![s("TCP"), s("UDP")]);
    assert_eq!(d.value, 12);
}
