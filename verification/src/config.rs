//! Invocation parsing: the action / queue arguments and the action's meaning.

use vstd::prelude::*;

verus! {

/// The operation named on the command line. Any text other than the three
/// recognised action words maps to `Unknown`, which dispatch treats as a
/// no-op with a diagnostic rather than an error.
#[derive(Clone, Copy, Debug, PartialEq, Eq, Structural)]
pub enum Action {
    Send,
    Receive,
    Peek,
    Unknown,
}

/// The usage text reported whenever the invocation is too short.
pub open spec fn usage_message() -> Seq<char> {
    "Missing arguments. Usage: rustybus <send/receive/peek> <queue name>"@
}

/// The validated shape of one invocation: the action word, taken verbatim,
/// and the queue name it applies to.
pub struct Config {
    pub action: String,
    pub queue: String,
}

/// String comparison stated over the character views.
fn str_eq(a: &str, b: &str) -> (r: bool)
    ensures
        r == (a@ == b@),
{
    let sa: String = a.to_owned();
    let sb: String = b.to_owned();
    sa == sb
}

impl Config {
    /// Validate the raw argument list: the program name plus at least an
    /// action and a queue name must be present, else the usage text comes
    /// back as the error.
    pub fn new(args: &Vec<String>) -> (r: Result<Config, String>)
        ensures
            r is Err <==> args@.len() < 3,
            r matches Err(msg) ==> msg@ == usage_message(),
            r matches Ok(c) ==> c.action@ == args@[1]@ && c.queue@ == args@[2]@,
    {
        if args.len() < 3 {
            return Err(
                "Missing arguments. Usage: rustybus <send/receive/peek> <queue name>".to_owned(),
            );
        }
        let action = args[1].clone();
        let queue = args[2].clone();
        Ok(Config { action, queue })
    }
}

/// Read the action word. Exactly the three recognised words select an
/// operation; everything else is `Unknown`.
pub fn parse_action(s: &str) -> (r: Action)
    ensures
        r == Action::Send <==> s@ == "send"@,
        r == Action::Receive <==> s@ == "receive"@,
        r == Action::Peek <==> s@ == "peek"@,
        r == Action::Unknown <==> (s@ != "send"@ && s@ != "receive"@ && s@ != "peek"@),
{
    proof {
        reveal_strlit("send");
        reveal_strlit("receive");
        reveal_strlit("peek");
        assert("send"@.len() == 4);
        assert("receive"@.len() == 7);
        assert("peek"@.len() == 4);
        assert("send"@[0] == 's');
        assert("peek"@[0] == 'p');
    }
    if str_eq(s, "send") {
        Action::Send
    } else if str_eq(s, "receive") {
        Action::Receive
    } else if str_eq(s, "peek") {
        Action::Peek
    } else {
        Action::Unknown
    }
}

} // verus!
