use crate::codec::bytes_to_text;
use crate::codec::bytes_to_text_lossy;
use crate::codec::lossy_utf8;
use crate::lines::consumer_ended_line;
use crate::lines::indexed_line;
use crate::lines::indexed_line_text;
use crate::lines::received_line;
use crate::lines::received_line_text;
use vstd::prelude::*;
use vstd::utf8::decode_utf8;
use vstd::utf8::valid_utf8;

verus! {

/// One thing a receiver's delivery stream can yield.
pub enum ConsumerEvent {
    /// A normal delivery, carrying the message's payload bytes.
    Delivery(Vec<u8>),
    /// The stream reported an error instead of a delivery.
    Failed,
    /// The stream ended (consumer cancelled, connection closed).
    Ended,
}

/// One thing a receiver asks its surroundings to do in response to an
/// event, in the order the actions stand in the step's result.
pub enum ConsumerAction {
    /// Print this line.
    Print(String),
    /// Acknowledge the delivery the step was given.
    Ack,
}

/// What the loop does once the step's actions are performed.
#[derive(Clone, Copy, Debug, PartialEq, Eq, Structural)]
pub enum LoopDirective {
    /// Wait for the next event.
    Continue,
    /// Leave the loop normally.
    Finish,
    /// Abort: the error is fatal to the whole program.
    Fail(ReceiveError),
}

/// Why a receiver gives up.
#[derive(Clone, Copy, Debug, PartialEq, Eq, Structural)]
pub enum ReceiveError {
    /// A delivery's payload was not valid UTF-8 (strict decoding only).
    InvalidUtf8,
    /// The delivery stream itself reported an error.
    ConsumerFailed,
}

impl ReceiveError {
    /// A fixed diagnostic for this error.
    pub fn describe(&self) -> (text: &'static str)
        ensures
            *self is InvalidUtf8 ==> text@ == "message is not valid UTF-8"@,
            *self is ConsumerFailed ==> text@ == "error in consumer"@,
    {
        match self {
            ReceiveError::InvalidUtf8 => "message is not valid UTF-8",
            ReceiveError::ConsumerFailed => "error in consumer",
        }
    }
}

/// What one step of a receive loop decided: actions to perform, in
/// order, then how the loop goes on.
pub struct StepOutcome {
    pub actions: Vec<ConsumerAction>,
    pub directive: LoopDirective,
}

/// How many of the actions acknowledge the delivery.
pub open spec fn ack_count(actions: Seq<ConsumerAction>) -> nat
    decreases actions.len(),
{
    if actions.len() == 0 {
        0
    } else {
        (if actions[0] is Ack {
            1nat
        } else {
            0nat
        }) + ack_count(actions.drop_first())
    }
}

/// One step of the asynchronous receive loop (manual acknowledgement,
/// strict decoding). A delivery that decodes is printed and then — and
/// only then — acknowledged, exactly once; a delivery that is not valid
/// UTF-8 is fatal before any acknowledgement; a stream error is fatal;
/// the stream's end finishes the loop.
pub fn manual_ack_step(event: ConsumerEvent) -> (r: StepOutcome)
    ensures
        event matches ConsumerEvent::Delivery(d) ==> {
            &&& valid_utf8(d@) ==> {
                &&& r.actions@.len() == 2
                &&& (r.actions@[0] matches ConsumerAction::Print(line) && line@
                    == received_line_text(decode_utf8(d@)))
                &&& r.actions@[1] is Ack
                &&& r.directive is Continue
            }
            &&& !valid_utf8(d@) ==> r.actions@.len() == 0 && r.directive == LoopDirective::Fail(
                ReceiveError::InvalidUtf8,
            )
        },
        event is Failed ==> r.actions@.len() == 0 && r.directive == LoopDirective::Fail(
            ReceiveError::ConsumerFailed,
        ),
        event is Ended ==> r.actions@.len() == 0 && r.directive is Finish,
        ack_count(r.actions@) == (if event matches ConsumerEvent::Delivery(d) && valid_utf8(d@) {
            1nat
        } else {
            0nat
        }),
{
    match event {
        ConsumerEvent::Delivery(data) => {
            match bytes_to_text(data) {
                Some(text) => {
                    let line = received_line(text.as_str());
                    let actions = vec![ConsumerAction::Print(line), ConsumerAction::Ack];
                    proof {
                        assert(ack_count(actions@) == 1) by {
                            reveal_with_fuel(ack_count, 3);
                            assert(actions@.drop_first() =~= seq![ConsumerAction::Ack]);
                            assert(actions@.drop_first().drop_first() =~= Seq::<
                                ConsumerAction,
                            >::empty());
                        }
                    }
                    StepOutcome { actions, directive: LoopDirective::Continue }
                },
                None => StepOutcome {
                    actions: Vec::new(),
                    directive: LoopDirective::Fail(ReceiveError::InvalidUtf8),
                },
            }
        },
        ConsumerEvent::Failed => StepOutcome {
            actions: Vec::new(),
            directive: LoopDirective::Fail(ReceiveError::ConsumerFailed),
        },
        ConsumerEvent::Ended => StepOutcome { actions: Vec::new(), directive: LoopDirective::Finish },
    }
}

/// The blocking receive loop's only state: how many deliveries it has
/// printed, which is also the number the next delivery gets.
pub struct NumberedConsumer {
    pub count: u64,
}

impl NumberedConsumer {
    /// A fresh loop: the first delivery gets number zero.
    pub fn new() -> (c: Self)
        ensures
            c.count == 0,
    {
        NumberedConsumer { count: 0 }
    }

    /// One step of the blocking receive loop (automatic
    /// acknowledgement, lossy decoding). A delivery is printed under
    /// the next number, never acknowledged by the consumer, and the
    /// loop goes on; any other event prints a diagnostic and finishes
    /// the loop without failing.
    pub fn step(&mut self, event: ConsumerEvent) -> (r: StepOutcome)
        requires
            old(self).count < u64::MAX,
        ensures
            event matches ConsumerEvent::Delivery(d) ==> {
                &&& final(self).count == old(self).count + 1
                &&& r.actions@.len() == 1
                &&& (r.actions@[0] matches ConsumerAction::Print(line) && line@
                    == indexed_line_text(old(self).count as nat, lossy_utf8(d@)))
                &&& valid_utf8(d@) ==> (r.actions@[0] matches ConsumerAction::Print(line) && line@
                    == indexed_line_text(old(self).count as nat, decode_utf8(d@)))
                &&& r.directive is Continue
            },
            !(event is Delivery) ==> {
                &&& final(self).count == old(self).count
                &&& r.actions@.len() == 1
                &&& (r.actions@[0] matches ConsumerAction::Print(line) && line@
                    == "consumer ended"@)
                &&& r.directive is Finish
            },
            ack_count(r.actions@) == 0,
    {
        match event {
            ConsumerEvent::Delivery(data) => {
                let text = bytes_to_text_lossy(&data);
                let line = indexed_line(self.count, text.as_str());
                self.count = self.count + 1;
                let actions = vec![ConsumerAction::Print(line)];
                proof {
                    reveal_with_fuel(ack_count, 2);
                    assert(actions@.drop_first() =~= Seq::<ConsumerAction>::empty());
                }
                StepOutcome { actions, directive: LoopDirective::Continue }
            },
            _ => {
                let line = consumer_ended_line().to_owned();
                let actions = vec![ConsumerAction::Print(line)];
                proof {
                    reveal_with_fuel(ack_count, 2);
                    assert(actions@.drop_first() =~= Seq::<ConsumerAction>::empty());
                }
                StepOutcome { actions, directive: LoopDirective::Finish }
            },
        }
    }
}

/// The lines the blocking receiver prints for a whole run of
/// deliveries: the lines come in the order the deliveries came, and
/// line `j` is delivery `j` under number `j`.
pub fn numbered_lines_for(deliveries: &Vec<Vec<u8>>) -> (lines: Vec<String>)
    requires
        deliveries@.len() < u64::MAX,
    ensures
        lines@.len() == deliveries@.len(),
        forall|j: int|
            0 <= j < lines@.len() ==> lines.deep_view()[j] == indexed_line_text(
                j as nat,
                lossy_utf8(deliveries.deep_view()[j]),
            ),
        forall|j: int|
            0 <= j < lines@.len() && valid_utf8(deliveries.deep_view()[j])
                ==> lines.deep_view()[j] == indexed_line_text(
                j as nat,
                decode_utf8(deliveries.deep_view()[j]),
            ),
{
    let mut consumer = NumberedConsumer::new();
    let mut lines: Vec<String> = Vec::new();
    let mut i: usize = 0;
    while i < deliveries.len()
        invariant
            0 <= i <= deliveries@.len(),
            deliveries@.len() < u64::MAX,
            consumer.count == i,
            lines@.len() == i,
            forall|j: int|
                0 <= j < i ==> #[trigger] lines@[j]@ == indexed_line_text(
                    j as nat,
                    lossy_utf8(deliveries@[j]@),
                ),
            forall|j: int|
                0 <= j < i && valid_utf8(deliveries@[j]@) ==> #[trigger] lines@[j]@
                    == indexed_line_text(j as nat, decode_utf8(deliveries@[j]@)),
        decreases deliveries@.len() - i,
    {
        let data = deliveries[i].clone();
        assert(data@ == deliveries@[i as int]@);
        let mut outcome = consumer.step(ConsumerEvent::Delivery(data));
        let action = outcome.actions.remove(0);
        match action {
            ConsumerAction::Print(line) => {
                lines.push(line);
            },
            ConsumerAction::Ack => {
                proof {
                    assert(false);
                }
            },
        }
        i = i + 1;
    }
    proof {
        assert(forall|j: int|
            0 <= j < lines@.len() ==> lines.deep_view()[j] == #[trigger] lines@[j]@);
        assert(forall|j: int|
            0 <= j < deliveries@.len() ==> deliveries.deep_view()[j] == #[trigger] deliveries@[j]@);
    }
    lines
}

} // verus!
