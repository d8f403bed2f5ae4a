use term_bridge::channel::{DeliveryChannel, CHANNEL_CAPACITY};
use term_bridge::driver::TemplateApp;
use term_bridge::grid::{cell_rect, grid_dimensions, CELL_HEIGHT, CELL_WIDTH};
use term_bridge::input::{encode_event, forward_input, InputEvent};
use term_bridge::pump::{on_read, PumpAction, ReadOutcome};

fn text(s: &str) -> InputEvent {
    InputEvent::Text(s.to_string())
}

#[test]
fn channel_starts_empty_with_default_bound() {
    let ch = DeliveryChannel::new();
    assert_eq!(ch.capacity(), CHANNEL_CAPACITY);
    assert_eq!(ch.capacity(), 100);
    assert!(ch.is_empty());
    assert_eq!(ch.len(), 0);
}

#[test]
fn chunks_are_received_in_send_order() {
    let mut ch = DeliveryChannel::new();
    assert!(ch.try_send(b"AB".to_vec()).is_ok());
    assert!(ch.try_send(b"CD".to_vec()).is_ok());
    assert_eq!(ch.try_receive(), Some(b"AB".to_vec()));
    assert_eq!(ch.try_receive(), Some(b"CD".to_vec()));
    assert_eq!(ch.try_receive(), None);
}

#[test]
fn full_channel_hands_chunk_back() {
    let mut ch = DeliveryChannel::with_capacity(2);
    assert!(ch.try_send(vec![1]).is_ok());
    assert!(ch.try_send(vec![2]).is_ok());
    assert!(ch.is_full());
    assert_eq!(ch.try_send(vec![3]), Err(vec![3]));
    assert_eq!(ch.len(), 2);
    assert_eq!(ch.try_receive(), Some(vec![1]));
    assert!(!ch.is_full());
    assert!(ch.try_send(vec![3]).is_ok());
    assert_eq!(ch.try_receive(), Some(vec![2]));
    assert_eq!(ch.try_receive(), Some(vec![3]));
    assert!(ch.is_empty());
}

#[test]
fn no_chunk_lost_while_consumer_paused() {
    let produced: Vec<Vec<u8>> = (0..250u32).map(|i| i.to_le_bytes().to_vec()).collect();
    let mut ch = DeliveryChannel::new();
    let app = TemplateApp::new();
    let mut held: std::collections::VecDeque<Vec<u8>> = produced.iter().cloned().collect();
    // Consumer paused: the pump fills the channel and keeps the rest.
    while let Some(c) = held.pop_front() {
        if let Err(back) = ch.try_send(c) {
            held.push_front(back);
            break;
        }
    }
    assert_eq!(ch.len(), 100);
    assert_eq!(held.len(), 150);
    // Resumed: one offer by the pump and one chunk taken per frame.
    let mut applied: Vec<Vec<u8>> = Vec::new();
    for _ in 0..produced.len() {
        if let Some(c) = held.pop_front() {
            if let Err(back) = ch.try_send(c) {
                held.push_front(back);
            }
        }
        if let Some(c) = app.drain_and_apply(&mut ch) {
            applied.push(c);
        }
    }
    assert_eq!(applied, produced);
    assert!(ch.is_empty());
    assert!(held.is_empty());
}

#[test]
fn drain_takes_at_most_one_chunk() {
    let mut ch = DeliveryChannel::new();
    for i in 0..5u8 {
        assert!(ch.try_send(vec![i]).is_ok());
    }
    let app = TemplateApp::new();
    assert_eq!(app.drain_and_apply(&mut ch), Some(vec![0]));
    assert_eq!(ch.len(), 4);
    let mut empty = DeliveryChannel::new();
    assert_eq!(app.drain_and_apply(&mut empty), None);
    assert_eq!(empty.len(), 0);
}

#[test]
fn resize_twice_is_resize_once() {
    let mut app = TemplateApp::new();
    assert_eq!(app.dims(), None);
    assert!(app.resize(24, 80));
    assert_eq!(app.dims(), Some((24, 80)));
    assert!(!app.resize(24, 80));
    assert_eq!(app.dims(), Some((24, 80)));
    assert!(app.resize(25, 80));
    assert_eq!(app.dims(), Some((25, 80)));
}

#[test]
fn enter_forwards_one_newline() {
    assert_eq!(forward_input(&vec![InputEvent::Enter]), vec![b'\n']);
}

#[test]
fn text_a_forwards_one_byte() {
    assert_eq!(forward_input(&vec![text("a")]), vec![b'a']);
}

#[test]
fn other_events_forward_nothing() {
    assert_eq!(forward_input(&vec![InputEvent::Other]), Vec::<u8>::new());
    assert_eq!(forward_input(&vec![]), Vec::<u8>::new());
    assert_eq!(encode_event(&text("")), Vec::<u8>::new());
}

#[test]
fn multibyte_text_is_forwarded_whole() {
    assert_eq!(encode_event(&text("é")), vec![0xC3, 0xA9]);
    assert_eq!(forward_input(&vec![text("€")]), vec![0xE2, 0x82, 0xAC]);
}

#[test]
fn events_are_forwarded_in_order() {
    let events = vec![text("h"), InputEvent::Other, text("i"), InputEvent::Enter];
    assert_eq!(forward_input(&events), b"hi\n".to_vec());
}

#[test]
fn grid_dimensions_from_area() {
    assert_eq!((CELL_WIDTH, CELL_HEIGHT), (13, 20));
    assert_eq!(grid_dimensions(1040, 500), (24, 80));
    assert_eq!(grid_dimensions(1052, 519), (24, 80));
    assert_eq!(grid_dimensions(12, 19), (0, 0));
    assert_eq!(grid_dimensions(13, 20), (0, 1));
    assert_eq!(grid_dimensions(13, 40), (1, 1));
    assert_eq!(grid_dimensions(u32::MAX, u32::MAX), (65535, 65535));
}

#[test]
fn cell_rect_positions() {
    let r = cell_rect(0, 0, 0);
    assert_eq!((r.x, r.y, r.width, r.height), (13, 20, 13, 20));
    let r = cell_rect(2, 3, 1);
    assert_eq!((r.x, r.y), (39, 100));
    let r = cell_rect(0, -2, 0);
    assert_eq!((r.x, r.y), (13, -20));
}

#[test]
fn read_delivers_filled_part_only() {
    let mut buf = vec![0u8; 4096];
    buf[0] = b'o';
    buf[1] = b'k';
    match on_read(&buf, ReadOutcome::Filled(2)) {
        PumpAction::Deliver(c) => assert_eq!(c, b"ok".to_vec()),
        _ => panic!("expected a chunk"),
    }
}

#[test]
fn read_of_nothing_stops_and_failure_retries() {
    let buf = vec![0u8; 16];
    assert!(matches!(on_read(&buf, ReadOutcome::Filled(0)), PumpAction::Stop));
    assert!(matches!(on_read(&buf, ReadOutcome::Failed), PumpAction::Retry));
}

#[test]
fn frame_resizes_forwards_and_drains_once() {
    let mut app = TemplateApp::new();
    let mut ch = DeliveryChannel::new();
    assert!(ch.try_send(b"AB".to_vec()).is_ok());
    assert!(ch.try_send(b"CD".to_vec()).is_ok());
    let a = app.frame(1040, 500, &vec![InputEvent::Enter], &mut ch);
    assert_eq!(a.resize, Some((24, 80)));
    assert_eq!(a.input, vec![b'\n']);
    assert_eq!(a.output, Some(b"AB".to_vec()));
    let b = app.frame(1040, 500, &vec![], &mut ch);
    assert_eq!(b.resize, None);
    assert_eq!(b.input, Vec::<u8>::new());
    assert_eq!(b.output, Some(b"CD".to_vec()));
    let c = app.frame(1040, 500, &vec![], &mut ch);
    assert_eq!(c.output, None);
}

#[test]
fn echoed_input_reaches_the_grid_across_frames() {
    let mut app = TemplateApp::new();
    let mut ch = DeliveryChannel::new();
    let sent = app.frame(1040, 500, &vec![text("h"), text("i"), InputEvent::Enter], &mut ch);
    assert_eq!(sent.input, b"hi\n".to_vec());
    // The shell echoes what it was sent, in two reads.
    let mut buf = vec![0u8; 4096];
    buf[..2].copy_from_slice(b"hi");
    if let PumpAction::Deliver(c) = on_read(&buf, ReadOutcome::Filled(2)) {
        assert!(ch.try_send(c).is_ok());
    }
    buf[..2].copy_from_slice(b"\r\n");
    if let PumpAction::Deliver(c) = on_read(&buf, ReadOutcome::Filled(2)) {
        assert!(ch.try_send(c).is_ok());
    }
    let mut applied: Vec<u8> = Vec::new();
    for _ in 0..3 {
        if let Some(c) = app.frame(1040, 500, &vec![], &mut ch).output {
            applied.extend(c);
        }
    }
    assert_eq!(applied, b"hi\r\n".to_vec());
}
