use rabbit_test::consume::{
    manual_ack_step, numbered_lines_for, ConsumerAction, ConsumerEvent, LoopDirective,
    NumberedConsumer, ReceiveError,
};

#[test]
fn a_valid_delivery_is_printed_then_acked_exactly_once() {
    let r = manual_ack_step(ConsumerEvent::Delivery(b"hi".to_vec()));
    assert_eq!(r.actions.len(), 2);
    assert!(matches!(&r.actions[0], ConsumerAction::Print(line) if line == "received message: hi"));
    assert!(matches!(r.actions[1], ConsumerAction::Ack));
    assert_eq!(r.directive, LoopDirective::Continue);
    let acks = r
        .actions
        .iter()
        .filter(|a| matches!(a, ConsumerAction::Ack))
        .count();
    assert_eq!(acks, 1);
}

#[test]
fn an_invalid_delivery_is_fatal_before_any_ack() {
    let r = manual_ack_step(ConsumerEvent::Delivery(vec![0xff, 0xfe]));
    assert_eq!(r.actions.len(), 0);
    assert_eq!(r.directive, LoopDirective::Fail(ReceiveError::InvalidUtf8));
}

#[test]
fn a_stream_error_is_fatal() {
    let r = manual_ack_step(ConsumerEvent::Failed);
    assert_eq!(r.actions.len(), 0);
    assert_eq!(r.directive, LoopDirective::Fail(ReceiveError::ConsumerFailed));
}

#[test]
fn the_stream_ending_finishes_the_loop() {
    let r = manual_ack_step(ConsumerEvent::Ended);
    assert_eq!(r.actions.len(), 0);
    assert_eq!(r.directive, LoopDirective::Finish);
}

#[test]
fn blocking_deliveries_are_numbered_from_zero() {
    let mut c = NumberedConsumer::new();
    let r = c.step(ConsumerEvent::Delivery(b"first".to_vec()));
    assert!(matches!(&r.actions[0], ConsumerAction::Print(line) if line == "  0 first"));
    assert_eq!(r.directive, LoopDirective::Continue);
    let r = c.step(ConsumerEvent::Delivery(b"second".to_vec()));
    assert!(matches!(&r.actions[0], ConsumerAction::Print(line) if line == "  1 second"));
    assert_eq!(c.count, 2);
}

#[test]
fn the_blocking_consumer_never_acks() {
    let mut c = NumberedConsumer::new();
    let r = c.step(ConsumerEvent::Delivery(b"x".to_vec()));
    assert!(r.actions.iter().all(|a| !matches!(a, ConsumerAction::Ack)));
    let r = c.step(ConsumerEvent::Ended);
    assert!(r.actions.iter().all(|a| !matches!(a, ConsumerAction::Ack)));
}

#[test]
fn a_non_delivery_event_ends_the_blocking_loop_with_a_diagnostic() {
    let mut c = NumberedConsumer::new();
    c.step(ConsumerEvent::Delivery(b"x".to_vec()));
    let r = c.step(ConsumerEvent::Failed);
    assert!(matches!(&r.actions[0], ConsumerAction::Print(line) if line == "consumer ended"));
    assert_eq!(r.directive, LoopDirective::Finish);
    assert_eq!(c.count, 1);
}

#[test]
fn three_deliveries_print_in_order_received() {
    let deliveries = vec![b"one".to_vec(), b"two".to_vec(), b"three".to_vec()];
    let lines = numbered_lines_for(&deliveries);
    assert_eq!(lines, vec!["  0 one", "  1 two", "  2 three"]);
}

#[test]
fn blocking_decoding_is_lossy_not_fatal() {
    let deliveries = vec![vec![104, 0xff, 105]];
    let lines = numbered_lines_for(&deliveries);
    assert_eq!(lines, vec!["  0 h\u{fffd}i"]);
}

#[test]
fn an_emitted_payload_is_received_byte_identical() {
    let args: Vec<String> = ["rabbit-test", "-e", "hello", "world"]
        .iter()
        .map(|a| a.to_string())
        .collect();
    let payload = rabbit_test::payload::emit_payload_from_args(&args);
    let r = manual_ack_step(ConsumerEvent::Delivery(payload));
    assert!(
        matches!(&r.actions[0], ConsumerAction::Print(line) if line == "received message: hello world")
    );
}

#[test]
fn the_fixed_payload_is_received_byte_identical() {
    let r = manual_ack_step(ConsumerEvent::Delivery(rabbit_test::payload::fixed_payload()));
    assert!(
        matches!(&r.actions[0], ConsumerAction::Print(line) if line == "received message: Hello world!")
    );
}

#[test]
fn receive_errors_describe_themselves() {
    assert_eq!(ReceiveError::InvalidUtf8.describe(), "message is not valid UTF-8");
    assert_eq!(ReceiveError::ConsumerFailed.describe(), "error in consumer");
}
