use vstd::prelude::*;

verus! {

/// How delivered messages are acknowledged.
#[derive(Clone, Copy, Debug, PartialEq, Eq, Structural)]
pub enum AckMode {
    /// The broker counts a message as delivered the moment it is sent;
    /// the consumer never acknowledges. The blocking receiver's mode.
    Automatic,
    /// The consumer acknowledges each message itself, after handling
    /// it. The asynchronous receiver's mode.
    Manual,
}

/// Where a program talks to the broker and over which topology. The
/// fields mirror the knobs both demos otherwise hard-code: broker URI,
/// exchange name, queue name, and acknowledgement mode.
pub struct BrokerConfig {
    /// The broker's address.
    pub uri: String,
    /// The exchange published to; the empty name is the default
    /// (direct) exchange.
    pub exchange: String,
    /// The queue consumed from; the empty name asks the broker for an
    /// anonymous, server-named queue.
    pub queue: String,
    /// The acknowledgement mode of the consumer.
    pub ack: AckMode,
}

/// The blocking pair's topology: a fanout exchange named `logs`, an
/// anonymous exclusive queue bound to it, automatic acknowledgement.
/// Such a queue lives only as long as its receiver, so messages
/// published while no receiver runs are lost.
pub fn fanout_defaults() -> (c: BrokerConfig)
    ensures
        c.uri@ == "amqp://127.0.0.1:5672/%2f"@,
        c.exchange@ == "logs"@,
        c.queue@ == ""@,
        c.ack == AckMode::Automatic,
{
    BrokerConfig {
        uri: "amqp://127.0.0.1:5672/%2f".to_owned(),
        exchange: "logs".to_owned(),
        queue: "".to_owned(),
        ack: AckMode::Automatic,
    }
}

/// The asynchronous pair's topology: the default exchange and a fixed
/// named queue, manual acknowledgement. The queue outlives any one
/// process, so messages published before a receiver starts wait for it.
pub fn named_queue_defaults() -> (c: BrokerConfig)
    ensures
        c.uri@ == "amqp://127.0.0.1:5672/%2f"@,
        c.exchange@ == ""@,
        c.queue@ == "example"@,
        c.ack == AckMode::Manual,
{
    BrokerConfig {
        uri: "amqp://127.0.0.1:5672/%2f".to_owned(),
        exchange: "".to_owned(),
        queue: "example".to_owned(),
        ack: AckMode::Manual,
    }
}

/// The consumer tag the asynchronous receiver registers under.
pub fn consumer_tag() -> (tag: &'static str)
    ensures
        tag@ == "my_consumer"@,
{
    "my_consumer"
}

} // verus!
