use radio_sniffer::capture::{CaptureLoop, CaptureState, Packet, RadioAction};
use radio_sniffer::config::{configure, sniffer_config, RegisterBlock};
use radio_sniffer::handoff::Slot;

fn published_slot() -> Slot {
    let c = sniffer_config(255);
    let mut rb = RegisterBlock::at_reset();
    configure(&mut rb, &c);
    let mut slot = Slot::empty();
    slot.publish(rb);
    slot
}

#[test]
fn handler_reports_and_restarts_once() {
    // Buffer {length: 3, payload: [0x01, 0x02, 0x03, ...]} under a fresh
    // counter: report `[0] l: 3; [01, 02, 03]`, and exactly one start.
    let mut packet = Packet::empty();
    packet.load(&vec![0x01, 0x02, 0x03]);
    let mut slot = published_slot();
    let mut cap = CaptureLoop::new();
    cap.on_end_event();
    let (line, actions) = cap.handle_end(&mut slot, &packet);
    assert_eq!(line, b"[0] l: 3; [01, 02, 03]".to_vec());
    assert_eq!(actions, vec![RadioAction::ClearEndEvent, RadioAction::Start]);
    let starts = actions
        .iter()
        .filter(|a| **a == RadioAction::Start)
        .count();
    assert_eq!(starts, 1);
    assert_eq!(cap.state, CaptureState::Idle);
}

#[test]
fn counter_labels_count_up_without_gaps() {
    let mut packet = Packet::empty();
    packet.load(&vec![0xAA]);
    let mut slot = published_slot();
    let mut cap = CaptureLoop::new();
    let mut labels: Vec<Vec<u8>> = Vec::new();
    for _ in 0..4 {
        cap.on_end_event();
        let (line, _) = cap.handle_end(&mut slot, &packet);
        labels.push(line);
    }
    assert_eq!(labels[0], b"[0] l: 1; [aa]".to_vec());
    assert_eq!(labels[1], b"[1] l: 1; [aa]".to_vec());
    assert_eq!(labels[2], b"[2] l: 1; [aa]".to_vec());
    assert_eq!(labels[3], b"[3] l: 1; [aa]".to_vec());
    assert_eq!(cap.counter, 4);
}

#[test]
fn slot_stays_published_after_every_cycle() {
    let mut packet = Packet::empty();
    packet.load(&vec![0x10, 0x20]);
    let mut slot = published_slot();
    let mut cap = CaptureLoop::new();
    assert!(slot.is_published());
    for _ in 0..8 {
        cap.on_end_event();
        let _ = cap.handle_end(&mut slot, &packet);
        assert!(slot.is_published());
    }
}

#[test]
fn empty_slot_is_the_silent_degraded_path() {
    let mut packet = Packet::empty();
    packet.load(&vec![0x42]);
    let mut slot = Slot::empty();
    let mut cap = CaptureLoop::new();
    cap.on_end_event();
    let (line, actions) = cap.handle_end(&mut slot, &packet);
    // The packet is still reported, but no register operation happens.
    assert_eq!(line, b"[0] l: 1; [42]".to_vec());
    assert!(actions.is_empty());
    assert!(!slot.is_published());
}

#[test]
fn stale_bytes_never_reach_the_report() {
    // Two buffers agreeing below their length but differing beyond it
    // report the same line.
    let mut first = Packet::empty();
    first.load(&vec![0x01, 0x02, 0x03, 0x99, 0x98, 0x97]);
    first.load(&vec![0x01, 0x02, 0x03]);
    let mut second = Packet::empty();
    second.load(&vec![0x01, 0x02, 0x03]);
    assert_ne!(first.payload, second.payload);
    let mut slot_a = Slot::empty();
    let mut slot_b = Slot::empty();
    let mut cap_a = CaptureLoop::new();
    let mut cap_b = CaptureLoop::new();
    cap_a.on_end_event();
    cap_b.on_end_event();
    let (line_a, _) = cap_a.handle_end(&mut slot_a, &first);
    let (line_b, _) = cap_b.handle_end(&mut slot_b, &second);
    assert_eq!(line_a, line_b);
}

#[test]
fn handler_clears_end_event_and_issues_start_on_the_handle() {
    let mut packet = Packet::empty();
    packet.load(&vec![0x01]);
    let mut slot = Slot::empty();
    let mut rb = RegisterBlock::at_reset();
    rb.events_end = 1;
    slot.publish(rb);
    let mut cap = CaptureLoop::new();
    cap.on_end_event();
    let _ = cap.handle_end(&mut slot, &packet);
    let handle = slot.take().expect("slot was restored");
    assert_eq!(handle.events_end, 0);
    assert_eq!(handle.tasks_start, 1);
}

#[test]
fn empty_capture_reports_an_empty_listing() {
    let packet = Packet::empty();
    let mut slot = Slot::empty();
    let mut cap = CaptureLoop::new();
    cap.on_end_event();
    let (line, _) = cap.handle_end(&mut slot, &packet);
    assert_eq!(line, b"[0] l: 0; []".to_vec());
}

#[test]
fn full_length_capture_is_reported_whole() {
    let bytes: Vec<u8> = (0..255u32).map(|i| i as u8).collect();
    let mut packet = Packet::empty();
    packet.load(&bytes);
    let mut slot = Slot::empty();
    let mut cap = CaptureLoop::new();
    cap.on_end_event();
    let (line, _) = cap.handle_end(&mut slot, &packet);
    let text = String::from_utf8(line).unwrap();
    assert!(text.starts_with("[0] l: 255; [00, 01, 02,"));
    assert!(text.ends_with("fd, fe]"));
}

#[test]
fn loading_keeps_stale_tail_and_replaces_length() {
    let mut packet = Packet::empty();
    packet.load(&vec![0x01, 0x02, 0x03]);
    packet.load(&vec![0x09]);
    assert_eq!(packet.length, 1);
    assert_eq!(packet.payload[0], 0x09);
    // The tail beyond the new length keeps its stale bytes.
    assert_eq!(packet.payload[1], 0x02);
    assert_eq!(packet.payload[2], 0x03);
}
