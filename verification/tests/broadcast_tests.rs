use telemetry_core::broadcast::console_line;
use telemetry_core::broadcast::console_pusher_next;
use telemetry_core::broadcast::drainer_step;
use telemetry_core::broadcast::heartbeat_line;
use telemetry_core::broadcast::pusher_step;
use telemetry_core::broadcast::ConsoleQueue;
use telemetry_core::broadcast::InboundEvent;
use telemetry_core::broadcast::LoopAction;
use telemetry_core::counter::ConnectionCounter;
use telemetry_core::text::str_eq;
use telemetry_core::text::u64_to_string;

#[test]
fn drainer_terminates_on_close_error_and_stream_end() {
    assert_eq!(drainer_step(InboundEvent::CloseFrame), LoopAction::Terminate);
    assert_eq!(drainer_step(InboundEvent::ReadError), LoopAction::Terminate);
    assert_eq!(drainer_step(InboundEvent::StreamEnded), LoopAction::Terminate);
    assert_eq!(drainer_step(InboundEvent::OtherFrame), LoopAction::KeepRunning);
}

#[test]
fn pusher_terminates_exactly_on_failed_delivery() {
    assert_eq!(pusher_step(true), LoopAction::KeepRunning);
    assert_eq!(pusher_step(false), LoopAction::Terminate);
}

#[test]
fn console_line_frames_timestamp_counter_and_break() {
    assert_eq!(
        console_line("2024-01-01 00:00:00", 7),
        "[2024-01-01 00:00:00] alg console test 7\n"
    );
    assert_eq!(console_line("", 0), "[] alg console test 0\n");
}

#[test]
fn heartbeat_line_carries_the_cycle_number_in_the_frame() {
    let line = heartbeat_line(42);
    assert!(line.starts_with('['));
    assert!(line.ends_with("] alg console test 42\n"));
}

#[test]
fn console_queue_drains_first_in_first_out() {
    let mut q = ConsoleQueue::new();
    assert_eq!(q.dequeue(), None);
    q.enqueue("one".to_string());
    q.enqueue("two".to_string());
    q.enqueue("three".to_string());
    assert_eq!(q.dequeue(), Some("one".to_string()));
    assert_eq!(q.dequeue(), Some("two".to_string()));
    q.enqueue("four".to_string());
    assert_eq!(q.dequeue(), Some("three".to_string()));
    assert_eq!(q.dequeue(), Some("four".to_string()));
    assert_eq!(q.dequeue(), None);
}

#[test]
fn console_pusher_drains_the_queue_before_heartbeats_and_counts_cycles() {
    let mut q = ConsoleQueue::new();
    q.enqueue("queued line".to_string());
    let (line, next) = console_pusher_next(&mut q, 5);
    assert_eq!(line, "queued line");
    assert_eq!(next, 6);
    let (line, next) = console_pusher_next(&mut q, next);
    assert!(line.ends_with("] alg console test 6\n"));
    assert_eq!(next, 7);
    let (line, next) = console_pusher_next(&mut q, next);
    assert!(line.ends_with("] alg console test 7\n"));
    assert_eq!(next, 8);
}

#[test]
fn counter_issues_consecutive_unique_values() {
    let mut c = ConnectionCounter::new();
    assert_eq!(c.next(), 1);
    assert_eq!(c.next(), 2);
    assert_eq!(c.next(), 3);
    assert_eq!(c.count, 3);
}

#[test]
fn independent_counters_do_not_share_sequences() {
    let mut cpus = ConnectionCounter::new();
    let mut console = ConnectionCounter::new();
    assert_eq!(cpus.next(), 1);
    assert_eq!(cpus.next(), 2);
    assert_eq!(console.next(), 1);
}

#[test]
fn decimal_rendering_is_exact() {
    assert_eq!(u64_to_string(0), "0");
    assert_eq!(u64_to_string(7), "7");
    assert_eq!(u64_to_string(10), "10");
    assert_eq!(u64_to_string(105), "105");
    assert_eq!(u64_to_string(u64::MAX), "18446744073709551615");
}

#[test]
fn string_equality_is_character_wise() {
    assert!(str_eq("", ""));
    assert!(str_eq("abc", "abc"));
    assert!(!str_eq("abc", "abd"));
    assert!(!str_eq("abc", "ab"));
    assert!(!str_eq("Abc", "abc"));
}
