use rabbit_test::config::{consumer_tag, fanout_defaults, named_queue_defaults, AckMode};
use rabbit_test::lines::{
    consumer_ended_line, indexed_line, loop_banner, received_line, sent_body_line, sent_line,
};
use rabbit_test::publish::{confirm_step, ConfirmOutcome, EmitError};

#[test]
fn an_acknowledged_publish_yields_the_confirmation_line() {
    assert_eq!(
        confirm_step(ConfirmOutcome::Acked, "example"),
        Ok("Message sent to example: Hello world!".to_string())
    );
}

#[test]
fn a_rejected_publish_is_fatal() {
    assert_eq!(
        confirm_step(ConfirmOutcome::Rejected, "example"),
        Err(EmitError::PublishRejected)
    );
}

#[test]
fn a_failed_publish_is_fatal() {
    assert_eq!(
        confirm_step(ConfirmOutcome::Failed, "example"),
        Err(EmitError::PublishFailed)
    );
}

#[test]
fn emit_errors_describe_themselves() {
    assert_eq!(EmitError::PublishRejected.describe(), "publisher-confirms");
    assert_eq!(EmitError::PublishFailed.describe(), "basic_publish");
}

#[test]
fn the_printed_lines_have_their_fixed_shapes() {
    assert_eq!(received_line("hi"), "received message: hi");
    assert_eq!(indexed_line(5, "hi"), "  5 hi");
    assert_eq!(indexed_line(1000, "hi"), "1000 hi");
    assert_eq!(sent_line("example"), "Message sent to example: Hello world!");
    assert_eq!(sent_body_line("hello world"), "Sent: hello world");
    assert_eq!(loop_banner(), "[LOOP] Click Ctrl + C to kill this process...");
    assert_eq!(consumer_ended_line(), "consumer ended");
}

#[test]
fn the_named_queue_defaults_match_the_asynchronous_pair() {
    let c = named_queue_defaults();
    assert_eq!(c.uri, "amqp://127.0.0.1:5672/%2f");
    assert_eq!(c.exchange, "");
    assert_eq!(c.queue, "example");
    assert_eq!(c.ack, AckMode::Manual);
    assert_eq!(consumer_tag(), "my_consumer");
}

#[test]
fn the_fanout_defaults_match_the_blocking_pair() {
    let c = fanout_defaults();
    assert_eq!(c.uri, "amqp://127.0.0.1:5672/%2f");
    assert_eq!(c.exchange, "logs");
    assert_eq!(c.queue, "");
    assert_eq!(c.ack, AckMode::Automatic);
}
