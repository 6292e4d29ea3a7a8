//! The dispatcher's one decision: from the raw argument list and the drained
//! piped input to exactly one of the five possible courses of action.

use vstd::prelude::*;
use vstd::string::StringExecFns;
use crate::config::Action;
use crate::config::Config;
use crate::config::parse_action;
use crate::config::usage_message;
use crate::input::finalize_piped_input;
use crate::input::finalized_input;
use crate::ops::prepare_send_message;
use crate::ops::strip_newlines;

verus! {

/// The single course of action one invocation takes. Only the three `Do`
/// variants reach the network; `Usage` ends the process as an argument
/// error, and `Invalid` is a no-op diagnostic with a normal exit.
pub enum Plan {
    Usage(String),
    Invalid(String),
    DoSend { queue: String, message: String },
    DoReceive { queue: String },
    DoPeek { queue: String },
}

/// The line reported when the invocation itself cannot be parsed.
pub open spec fn argument_failure_line(msg: Seq<char>) -> Seq<char> {
    "Problem parsing arguments: "@ + msg
}

/// Decide the whole invocation: too few arguments end in `Usage`; a
/// recognised action becomes its operation on the named queue, with the
/// send flow's message assembled from the drained piped input (the
/// placeholder standing in when nothing was piped, newlines stripped
/// either way); any other action word is `Invalid` and reaches no
/// operation at all.
pub fn plan_invocation(args: &Vec<String>, drained: String) -> (r: Plan)
    ensures
        args@.len() < 3 <==> r matches Plan::Usage(_),
        r matches Plan::Usage(line) ==> line@ == argument_failure_line(usage_message()),
        args@.len() >= 3 ==> {
            let action = args@[1]@;
            let queue = args@[2]@;
            &&& action == "send"@ ==> (r matches Plan::DoSend { queue: q, message: m } && q@
                == queue && m@ == strip_newlines(finalized_input(drained@)))
            &&& action == "receive"@ ==> (r matches Plan::DoReceive { queue: q } && q@ == queue)
            &&& action == "peek"@ ==> (r matches Plan::DoPeek { queue: q } && q@ == queue)
            &&& (action != "send"@ && action != "receive"@ && action != "peek"@) ==> (r matches
                Plan::Invalid(line) && line@ == "Invalid command"@)
        },
{
    let config = match Config::new(args) {
        Ok(c) => c,
        Err(msg) => {
            let mut line: String = "Problem parsing arguments: ".to_owned();
            line.append(msg.as_str());
            return Plan::Usage(line);
        },
    };
    match parse_action(config.action.as_str()) {
        Action::Send => {
            let finalized = finalize_piped_input(drained);
            let message = prepare_send_message(finalized.as_str());
            Plan::DoSend { queue: config.queue, message }
        },
        Action::Receive => Plan::DoReceive { queue: config.queue },
        Action::Peek => Plan::DoPeek { queue: config.queue },
        Action::Unknown => Plan::Invalid("Invalid command".to_owned()),
    }
}

} // verus!
