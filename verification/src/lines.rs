use crate::decimal::dec_rep;
use crate::decimal::right_aligned3;
use crate::decimal::u64_to_decimal_width3;
use vstd::prelude::*;
use vstd::string::StringExecFns;

verus! {

/// The line the asynchronous receiver prints for one decoded message.
pub open spec fn received_line_text(msg: Seq<char>) -> Seq<char> {
    "received message: "@ + msg
}

/// Build the asynchronous receiver's line for a decoded message.
pub fn received_line(msg: &str) -> (line: String)
    ensures
        line@ == received_line_text(msg@),
{
    "received message: ".to_owned().concat(msg)
}

/// The line the blocking receiver prints for the `index`-th delivery
/// (counting from zero): the index right-aligned in a field of width
/// three, one space, and the message text.
pub open spec fn indexed_line_text(index: nat, msg: Seq<char>) -> Seq<char> {
    right_aligned3(dec_rep(index)) + seq![' '] + msg
}

/// Build the blocking receiver's numbered line for a decoded message.
pub fn indexed_line(index: u64, msg: &str) -> (line: String)
    ensures
        line@ == indexed_line_text(index as nat, msg@),
{
    proof {
        reveal_strlit(" ");
        assert(" "@ =~= seq![' ']);
    }
    u64_to_decimal_width3(index).concat(" ").concat(msg)
}

/// The confirmation line the asynchronous emitter prints once the
/// broker has acknowledged its fixed greeting.
pub open spec fn sent_line_text(queue: Seq<char>) -> Seq<char> {
    "Message sent to "@ + queue + ": Hello world!"@
}

/// Build the asynchronous emitter's confirmation line.
pub fn sent_line(queue: &str) -> (line: String)
    ensures
        line@ == sent_line_text(queue@),
{
    "Message sent to ".to_owned().concat(queue).concat(": Hello world!")
}

/// The confirmation line the blocking emitter prints: the literal text
/// it sent, after a fixed prefix.
pub open spec fn sent_body_line_text(body: Seq<char>) -> Seq<char> {
    "Sent: "@ + body
}

/// Build the blocking emitter's confirmation line.
pub fn sent_body_line(body: &str) -> (line: String)
    ensures
        line@ == sent_body_line_text(body@),
{
    "Sent: ".to_owned().concat(body)
}

/// The banner the asynchronous receiver prints before its consume loop.
pub fn loop_banner() -> (line: &'static str)
    ensures
        line@ == "[LOOP] Click Ctrl + C to kill this process..."@,
{
    "[LOOP] Click Ctrl + C to kill this process..."
}

/// The diagnostic the blocking receiver prints when the consumer stream
/// yields anything other than a normal delivery, just before it leaves
/// its loop.
pub fn consumer_ended_line() -> (line: &'static str)
    ensures
        line@ == "consumer ended"@,
{
    "consumer ended"
}

} // verus!
