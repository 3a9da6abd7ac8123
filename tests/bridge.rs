use mpris_async::bridge::{Bridge, PollOutcome, Produced};
use mpris_async::events::{event_step, SourceEvent};
use mpris_async::progress::{tick_step, Tick};

#[derive(Debug, Clone, PartialEq)]
enum Ev {
    Playing,
    Paused,
}

fn ready<T>(o: PollOutcome<T>) -> Option<T> {
    match o {
        PollOutcome::Ready(x) => Some(x),
        _ => None,
    }
}

fn is_pending<T>(o: &PollOutcome<T>) -> bool {
    matches!(o, PollOutcome::Pending)
}

fn is_ended<T>(o: &PollOutcome<T>) -> bool {
    matches!(o, PollOutcome::Ended)
}

fn tick(changed: bool, quit: bool, pos_ms: u64) -> Tick<u64> {
    Tick { progress_changed: changed, player_quit: quit, progress: pos_ms }
}

#[test]
fn events_playing_paused_shutdown() {
    let mut b: Bridge<Ev, u64> = Bridge::new();
    assert!(is_pending(&b.poll(1)));
    let (woken, go_on) = event_step(&mut b, SourceEvent::Event(Ev::Playing));
    assert_eq!(woken, vec![1]);
    assert!(go_on);
    let (woken, go_on) = event_step(&mut b, SourceEvent::Event(Ev::Paused));
    assert!(woken.is_empty());
    assert!(go_on);
    let (_, go_on) = event_step(&mut b, SourceEvent::ShutDown);
    assert!(!go_on);
    assert_eq!(ready(b.poll(2)), Some(Ev::Playing));
    assert_eq!(ready(b.poll(3)), Some(Ev::Paused));
    assert!(is_ended(&b.poll(4)));
    assert!(is_ended(&b.poll(5)));
}

#[test]
fn progress_single_change_then_quit() {
    let mut b: Bridge<u64, u64> = Bridge::new();
    assert!(is_pending(&b.poll(1)));
    let (woken, go_on) = tick_step(&mut b, tick(false, false, 0));
    assert!(woken.is_empty());
    assert!(go_on);
    let (woken, go_on) = tick_step(&mut b, tick(true, false, 1000));
    assert_eq!(woken, vec![1]);
    assert!(go_on);
    let (woken, go_on) = tick_step(&mut b, tick(false, false, 1000));
    assert!(woken.is_empty());
    assert!(go_on);
    let (_, go_on) = tick_step(&mut b, tick(false, true, 1000));
    assert!(!go_on);
    assert_eq!(ready(b.poll(2)), Some(1000));
    assert!(is_ended(&b.poll(3)));
}

#[test]
fn interleaved_items_keep_order() {
    let mut b: Bridge<u32, u64> = Bridge::new();
    let mut got = Vec::new();
    for i in 0..10u32 {
        b.deliver(Produced::Item(i));
        if i % 3 == 0 {
            if let Some(x) = ready(b.poll(7)) {
                got.push(x);
            }
        }
    }
    b.deliver(Produced::Terminated);
    loop {
        match b.poll(7) {
            PollOutcome::Ready(x) => got.push(x),
            PollOutcome::Ended => break,
            PollOutcome::Pending => panic!("pending after termination"),
        }
    }
    assert_eq!(got, (0..10u32).collect::<Vec<_>>());
}

#[test]
fn no_items_only_end() {
    let mut b: Bridge<u32, u64> = Bridge::new();
    let (_, go_on) = b.deliver(Produced::Terminated);
    assert!(!go_on);
    assert!(b.is_terminated());
    assert!(is_ended(&b.poll(1)));
}

#[test]
fn end_is_absorbing() {
    let mut b: Bridge<u32, u64> = Bridge::new();
    b.deliver(Produced::Terminated);
    assert!(is_ended(&b.poll(1)));
    let (woken, go_on) = b.deliver(Produced::Item(5));
    assert!(woken.is_empty());
    assert!(!go_on);
    let (woken, go_on) = b.deliver(Produced::Terminated);
    assert!(woken.is_empty());
    assert!(!go_on);
    for w in 2..6u64 {
        assert!(is_ended(&b.poll(w)));
    }
}

#[test]
fn pending_poll_is_woken_by_next_item() {
    let mut b: Bridge<u32, u64> = Bridge::new();
    assert!(is_pending(&b.poll(42)));
    assert!(b.has_waiting());
    let (woken, _) = b.deliver(Produced::Item(9));
    assert_eq!(woken, vec![42]);
    assert!(!b.has_waiting());
    assert_eq!(ready(b.poll(42)), Some(9));
}

#[test]
fn pending_poll_is_woken_by_termination() {
    let mut b: Bridge<u32, u64> = Bridge::new();
    assert!(is_pending(&b.poll(3)));
    assert!(is_pending(&b.poll(4)));
    let (woken, go_on) = b.deliver(Produced::Terminated);
    assert_eq!(woken, vec![3, 4]);
    assert!(!go_on);
}

#[test]
fn change_with_nobody_waiting_queues_nothing() {
    let mut b: Bridge<u64, u64> = Bridge::new();
    let (woken, go_on) = tick_step(&mut b, tick(true, false, 500));
    assert!(woken.is_empty());
    assert!(go_on);
    assert!(is_pending(&b.poll(1)));
}

#[test]
fn unchanged_ticks_queue_nothing() {
    let mut b: Bridge<u64, u64> = Bridge::new();
    assert!(is_pending(&b.poll(1)));
    tick_step(&mut b, tick(false, false, 10));
    tick_step(&mut b, tick(false, false, 20));
    assert!(b.has_waiting());
    assert!(is_pending(&b.poll(1)));
}

#[test]
fn unavailable_source_ends_event_stream() {
    let mut b: Bridge<Ev, u64> = Bridge::new();
    assert!(is_pending(&b.poll(8)));
    let (woken, go_on) = event_step(&mut b, SourceEvent::Unavailable);
    assert_eq!(woken, vec![8]);
    assert!(!go_on);
    assert!(is_ended(&b.poll(8)));
}
