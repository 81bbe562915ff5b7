use blazingrail::batcher::{Batcher, BatcherState, Control, FlushOrigin, Step};
use blazingrail::config::PipelineConfig;
use blazingrail::models::EventInput;

fn event(n: usize) -> EventInput {
    EventInput { event_type: format!("t{}", n), payload: "{}".to_string() }
}

fn types(batch: &[EventInput]) -> Vec<String> {
    batch.iter().map(|e| e.event_type.clone()).collect()
}

fn batcher(capacity: usize) -> Batcher {
    let mut config = PipelineConfig::default();
    config.batch_size = capacity;
    Batcher::new(&config)
}

#[test]
fn batcher_takes_its_settings_from_the_config() {
    let b = Batcher::new(&PipelineConfig::default());
    assert_eq!(b.capacity, 512);
    assert_eq!(b.timeout_ms, 128);
    assert!(BatcherState::new(&b).buffer.is_empty());
}

#[test]
fn buffer_flushes_when_it_reaches_the_batch_size() {
    let b = batcher(3);
    let mut s = BatcherState::new(&b);
    assert!(matches!(b.handle_recv(&mut s, Some(event(1))), Step::Proceed(Control::ResetTimer)));
    assert!(matches!(b.handle_recv(&mut s, Some(event(2))), Step::Proceed(Control::ResetTimer)));
    match b.handle_recv(&mut s, Some(event(3))) {
        Step::Flush(batch, FlushOrigin::Receive) => assert_eq!(types(&batch), vec!["t1", "t2", "t3"]),
        _ => panic!("expected a flush"),
    }
    assert!(s.buffer.is_empty());
}

#[test]
fn batch_size_zero_flushes_every_event() {
    let b = batcher(0);
    let mut s = BatcherState::new(&b);
    match b.handle_recv(&mut s, Some(event(7))) {
        Step::Flush(batch, FlushOrigin::Receive) => assert_eq!(types(&batch), vec!["t7"]),
        _ => panic!("expected a flush"),
    }
}

#[test]
fn closing_flushes_the_rest_then_stops() {
    let b = batcher(10);
    let mut s = BatcherState::new(&b);
    b.handle_recv(&mut s, Some(event(1)));
    b.handle_recv(&mut s, Some(event(2)));
    match b.handle_recv(&mut s, None) {
        Step::Flush(batch, FlushOrigin::Close) => assert_eq!(types(&batch), vec!["t1", "t2"]),
        _ => panic!("expected a flush"),
    }
    assert_eq!(b.after_flush(&mut s, FlushOrigin::Close, true), Control::Stop);
    assert!(matches!(b.handle_recv(&mut s, None), Step::Proceed(Control::Stop)));
}

#[test]
fn timer_flushes_whatever_is_buffered() {
    let b = batcher(10);
    let mut s = BatcherState::new(&b);
    assert!(matches!(b.handle_timeout(&mut s), Step::Proceed(Control::ResetTimer)));
    b.handle_recv(&mut s, Some(event(1)));
    match b.handle_timeout(&mut s) {
        Step::Flush(batch, FlushOrigin::Timeout) => assert_eq!(types(&batch), vec!["t1"]),
        _ => panic!("expected a flush"),
    }
    assert!(s.buffer.is_empty());
}

#[test]
fn after_flush_decisions() {
    let b = batcher(10);
    let mut s = BatcherState::new(&b);
    assert_eq!(b.after_flush(&mut s, FlushOrigin::Receive, true), Control::ResetTimer);
    assert_eq!(b.after_flush(&mut s, FlushOrigin::Receive, false), Control::ResetTimer);
    assert_eq!(b.after_flush(&mut s, FlushOrigin::Close, true), Control::Stop);
    assert_eq!(b.after_flush(&mut s, FlushOrigin::Close, false), Control::ResetTimer);
    assert_eq!(b.after_flush(&mut s, FlushOrigin::Timeout, true), Control::ResetTimer);
    assert_eq!(b.after_flush(&mut s, FlushOrigin::Timeout, false), Control::KeepTimer);
}

#[test]
fn failed_flush_clears_the_buffer() {
    let b = batcher(10);
    let mut s = BatcherState::new(&b);
    b.handle_recv(&mut s, Some(event(1)));
    b.after_flush(&mut s, FlushOrigin::Receive, false);
    assert!(s.buffer.is_empty());
}

#[test]
fn every_received_event_leaves_in_order() {
    let b = batcher(4);
    let mut s = BatcherState::new(&b);
    let mut out: Vec<String> = Vec::new();
    let mut sizes: Vec<usize> = Vec::new();
    for n in 0..10 {
        if let Step::Flush(batch, _) = b.handle_recv(&mut s, Some(event(n))) {
            sizes.push(batch.len());
            out.extend(types(&batch));
        }
    }
    assert_eq!(sizes, vec![4, 4]);
    assert_eq!(s.buffer.len(), 2);
    if let Step::Flush(batch, _) = b.handle_recv(&mut s, None) {
        out.extend(types(&batch));
    }
    let expected: Vec<String> = (0..10).map(|n| format!("t{}", n)).collect();
    assert_eq!(out, expected);
}

#[test]
fn flush_takes_the_whole_buffer() {
    let b = batcher(10);
    let mut s = BatcherState::new(&b);
    b.handle_recv(&mut s, Some(event(1)));
    let batch = b.flush(&mut s);
    assert_eq!(types(&batch), vec!["t1"]);
    assert!(s.buffer.is_empty());
}

#[test]
fn timer_flushes_between_receives_keep_every_event_in_order() {
    let b = batcher(3);
    let mut s = BatcherState::new(&b);
    let mut out: Vec<String> = Vec::new();
    let mut sizes: Vec<usize> = Vec::new();
    for n in 0..8 {
        if let Step::Flush(batch, origin) = b.handle_recv(&mut s, Some(event(n))) {
            sizes.push(batch.len());
            out.extend(types(&batch));
            // the sink refuses every other batch: nothing buffered is lost
            b.after_flush(&mut s, origin, n % 2 == 0);
        }
        if n % 3 == 1 {
            if let Step::Flush(batch, origin) = b.handle_timeout(&mut s) {
                sizes.push(batch.len());
                out.extend(types(&batch));
                b.after_flush(&mut s, origin, false);
            }
        }
    }
    if let Step::Flush(batch, _) = b.handle_recv(&mut s, None) {
        sizes.push(batch.len());
        out.extend(types(&batch));
    }
    let expected: Vec<String> = (0..8).map(|n| format!("t{}", n)).collect();
    assert_eq!(out, expected);
    assert!(sizes.iter().all(|&k| 1 <= k && k <= 3));
}
