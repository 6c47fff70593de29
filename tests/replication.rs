use passive_packet::address::{IpAddress, Ipv4Address};
use passive_packet::protocol::Layer;
use passive_packet::replication::{Agent, FLUSH_INTERVAL};
use passive_packet::store::{CommStore, Communication};

fn text(t: &str) -> String {
    t.to_string()
}

fn frame(last: u8) -> Vec<Layer> {
    vec![Layer::Ethernet, Layer::Ipv4 { src: Ipv4Address(10, 0, 0, 1), dst: Ipv4Address(10, 0, 0, last) }, Layer::Tcp]
}

fn local() -> Vec<IpAddress> {
    vec![IpAddress::V4(Ipv4Address(10, 0, 0, 9))]
}

#[test]
fn flush_replicates_and_resets() {
    let mut agent = Agent::new(local());
    agent.store.add(Communication::new(text("10.0.0.1"), text("desktop"), text("10.0.0.2"), text("desktop"), vec![text("TCP")], 5));
    let mut collector = CommStore::empty();
    collector.ingest(&agent.store);
    agent.flushed(true);

    let r: Vec<&Communication> = collector.data.iter().filter(|c| c.src == "10.0.0.1").collect();
    assert_eq!(r.len(), 1);
    assert_eq!(r[0].dst, "10.0.0.2");
    assert_eq!(r[0].typ, vec![text("TCP")]);
    assert_eq!(r[0].value, 5);

    let seed = CommStore::new(&local());
    assert_eq!(agent.store.data.len(), seed.data.len());
    assert_eq!(agent.store.data[0].src, "10.0.0.9");
    assert_eq!(agent.store.data[0].value, 0);
    assert_eq!(agent.pending, 0);
}

#[test]
fn collector_merges_per_label() {
    let mut collector = CommStore::empty();
    collector.add(Communication::new(text("A"), text("desktop"), text("B"), text("desktop"), vec![text("TCP")], 1));
    let mut batch = CommStore::empty();
    batch.add(Communication::new(text("A"), text("desktop"), text("B"), text("desktop"), vec![text("TCP"), text("UDP")], 1));
    collector.ingest(&batch);
    assert_eq!(collector.data.len(), 1);
    assert_eq!(collector.data[0].typ, vec![text("TCP"), text("UDP")]);
    assert_eq!(collector.data[0].value, 3);
}

#[test]
fn ingest_keeps_batch_order_for_new_pairs() {
    let mut collector = CommStore::empty();
    let mut batch = CommStore::empty();
    batch.add(Communication::new(text("A"), text("desktop"), text("B"), text("desktop"), vec![text("TCP")], 2));
    batch.add(Communication::new(text("C"), text("desktop"), text("D"), text("desktop"), vec![text("UDP")], 3));
    collector.ingest(&batch);
    assert_eq!(collector.data.len(), 2);
    assert_eq!(collector.data[0].src, "A");
    assert_eq!(collector.data[1].src, "C");
    assert_eq!(collector.data[1].value, 3);
}

#[test]
fn flush_is_due_after_interval() {
    let mut agent = Agent::new(local());
    for i in 1..FLUSH_INTERVAL {
        assert!(!agent.observe(&frame(2)), "frame {}", i);
    }
    assert!(agent.observe(&frame(2)));
    assert_eq!(agent.pending, FLUSH_INTERVAL);
    assert_eq!(agent.store.data[1].value, FLUSH_INTERVAL);
}

#[test]
fn discarded_frames_do_not_count() {
    let mut agent = Agent::new(local());
    assert!(!agent.observe(&frame(1)));
    assert!(!agent.observe(&vec![Layer::Ethernet]));
    assert_eq!(agent.pending, 0);
    assert_eq!(agent.store.data.len(), 1);
}

#[test]
fn failed_delivery_keeps_the_store() {
    let mut agent = Agent::new(local());
    agent.observe(&frame(2));
    agent.observe(&frame(3));
    agent.flushed(false);
    assert_eq!(agent.pending, 0);
    assert_eq!(agent.store.data.len(), 3);
    agent.flushed(true);
    assert_eq!(agent.store.data.len(), 1);
}

use passive_packet::capture::{next_state, CaptureState, Receive, Source};

#[test]
fn replay_stops_at_end_of_input() {
    assert_eq!(next_state(Source::File, CaptureState::Running, Receive::Frame), CaptureState::Running);
    assert_eq!(next_state(Source::File, CaptureState::Running, Receive::Transient), CaptureState::Stopped);
}

#[test]
fn live_capture_retries_transient_errors() {
    assert_eq!(next_state(Source::Live, CaptureState::Running, Receive::Transient), CaptureState::Running);
    assert_eq!(next_state(Source::Live, CaptureState::Running, Receive::DeviceError), CaptureState::Stopped);
    assert_eq!(next_state(Source::Live, CaptureState::Stopped, Receive::Frame), CaptureState::Stopped);
}

#[test]
fn empty_collector_reproduces_batch() {
    let mut agent = Agent::new(vec![IpAddress::V4(Ipv4Address(10, 0, 0, 9))]);
    agent.observe(&frame(2));
    agent.observe(&frame(2));
    agent.observe(&frame(3));
    let mut collector = CommStore::empty();
    collector.ingest(&agent.store);
    assert_eq!(collector.data.len(), agent.store.data.len());
    for (c, a) in collector.data.iter().zip(agent.store.data.iter()) {
        assert_eq!(c.src, a.src);
        assert_eq!(c.dst, a.dst);
        assert_eq!(c.typ, a.typ);
        assert_eq!(c.value, a.value);
    }
    assert_eq!(collector.data[1].value, 2);
}
