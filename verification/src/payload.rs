use crate::codec::text_to_bytes;
use vstd::prelude::*;
use vstd::string::StrSliceExecFns;
use vstd::string::StringExecFns;
use vstd::utf8::encode_utf8;

verus! {

/// The given pieces of text joined with single spaces.
pub open spec fn join_spaces(parts: Seq<Seq<char>>) -> Seq<char>
    decreases parts.len(),
{
    if parts.len() == 0 {
        Seq::empty()
    } else if parts.len() == 1 {
        parts[0]
    } else {
        parts[0] + seq![' '] + join_spaces(parts.drop_first())
    }
}

/// Joining one more piece appends a space and the piece, unless nothing
/// was joined before it.
pub proof fn lemma_join_spaces_push(parts: Seq<Seq<char>>, part: Seq<char>)
    ensures
        parts.len() == 0 ==> join_spaces(parts.push(part)) == part,
        parts.len() > 0 ==> join_spaces(parts.push(part)) == join_spaces(parts) + seq![' ']
            + part,
    decreases parts.len(),
{
    let whole = parts.push(part);
    if parts.len() == 0 {
        assert(whole[0] == part);
    } else {
        lemma_join_spaces_push(parts.drop_first(), part);
        assert(whole.drop_first() =~= parts.drop_first().push(part));
        assert(whole[0] == parts[0]);
        if parts.len() == 1 {
            assert(join_spaces(whole) == parts[0] + seq![' '] + part);
        } else {
            assert(join_spaces(parts) + seq![' '] + part =~= parts[0] + seq![' '] + (
            join_spaces(parts.drop_first()) + seq![' '] + part));
        }
    }
}

/// The message body the emitter falls back on when the command line
/// carries no text of its own.
pub open spec fn default_body() -> Seq<char> {
    "info: Hello world!"@
}

/// The message body the blocking emitter sends for a given argument
/// list: every argument after the action flag, joined with spaces; the
/// fixed default where that comes out empty.
pub open spec fn message_body(args: Seq<Seq<char>>) -> Seq<char> {
    if args.len() <= 2 {
        default_body()
    } else if join_spaces(args.skip(2)).len() == 0 {
        default_body()
    } else {
        join_spaces(args.skip(2))
    }
}

/// Build the blocking emitter's message body from the argument list
/// (`args[0]` the program name, `args[1]` the action flag).
pub fn emit_body_from_args(args: &Vec<String>) -> (body: String)
    ensures
        body@ == message_body(args.deep_view()),
{
    if args.len() <= 2 {
        return "info: Hello world!".to_owned();
    }
    let mut joined: String = String::new();
    let mut i: usize = 2;
    while i < args.len()
        invariant
            2 <= i <= args@.len(),
            args@.len() > 2,
            joined@ == join_spaces(args.deep_view().subrange(2, i as int)),
        decreases args@.len() - i,
    {
        proof {
            reveal_strlit(" ");
        }
        if i > 2 {
            joined.append(" ");
        }
        joined.append(args[i].as_str());
        proof {
            let prev = args.deep_view().subrange(2, i as int);
            lemma_join_spaces_push(prev, args.deep_view()[i as int]);
            assert(" "@ =~= seq![' ']);
            assert(args.deep_view().subrange(2, i + 1) =~= prev.push(args.deep_view()[i as int]));
        }
        i += 1;
    }
    proof {
        assert(args.deep_view().subrange(2, args@.len() as int) =~= args.deep_view().skip(2));
    }
    if joined.as_str().is_empty() {
        "info: Hello world!".to_owned()
    } else {
        joined
    }
}

/// The payload bytes the blocking emitter publishes for a given
/// argument list.
pub fn emit_payload_from_args(args: &Vec<String>) -> (payload: Vec<u8>)
    ensures
        payload@ == encode_utf8(message_body(args.deep_view())),
{
    let body = emit_body_from_args(args);
    text_to_bytes(body.as_str())
}

/// The message body the asynchronous emitter sends: a fixed greeting,
/// whatever else stands on the command line.
pub open spec fn fixed_body() -> Seq<char> {
    "Hello world!"@
}

/// The payload bytes the asynchronous emitter publishes. It takes no
/// arguments: extra command-line text never reaches this payload.
pub fn fixed_payload() -> (payload: Vec<u8>)
    ensures
        payload@ == encode_utf8(fixed_body()),
{
    text_to_bytes("Hello world!")
}

} // verus!
