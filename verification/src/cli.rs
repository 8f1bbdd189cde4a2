use vstd::prelude::*;

verus! {

/// What a run of either demo program does, chosen by the first
/// command-line argument after the program name.
#[derive(Clone, Copy, Debug, PartialEq, Eq, Structural)]
pub enum ProgramAction {
    /// `-e`: publish one message.
    Emit,
    /// `-r`: consume and print messages.
    Receive,
    /// Anything else (including no argument at all): print the usage
    /// text and exit successfully, touching no network.
    Usage,
}

/// The action selected by an argument list: `-e` or `-r` in the first
/// position after the program name; every other list (too short, or an
/// unknown token there) asks for the usage text.
pub open spec fn parsed_action(args: Seq<Seq<char>>) -> ProgramAction {
    if args.len() >= 2 && args[1] == "-e"@ {
        ProgramAction::Emit
    } else if args.len() >= 2 && args[1] == "-r"@ {
        ProgramAction::Receive
    } else {
        ProgramAction::Usage
    }
}

/// Select the program's action from its argument list (`args[0]` being
/// the program name). Arguments past the flag do not affect the choice.
pub fn parse_args(args: &Vec<String>) -> (action: ProgramAction)
    ensures
        action == parsed_action(args.deep_view()),
{
    let emit_flag: String = "-e".to_owned();
    let receive_flag: String = "-r".to_owned();
    if args.len() >= 2 && args[1] == emit_flag {
        ProgramAction::Emit
    } else if args.len() >= 2 && args[1] == receive_flag {
        ProgramAction::Receive
    } else {
        ProgramAction::Usage
    }
}

/// First block of the usage text, shown when no action was selected.
pub fn usage_banner() -> (r: &'static str)
    ensures
        r@ == "USAGE:\n\trabbit-test <option>\n"@,
{
    "USAGE:\n\trabbit-test <option>\n"
}

/// Second block of the usage text: the two recognised options.
pub fn usage_options() -> (r: &'static str)
    ensures
        r@ == "OPTIONS:\n\t-e\temit log message\n\t-r\treceive message\n"@,
{
    "OPTIONS:\n\t-e\temit log message\n\t-r\treceive message\n"
}

} // verus!
