//! Piped-input handling: the background stdin listener's decisions and the
//! dispatcher's non-blocking drain of the line channel.

use vstd::prelude::*;
use vstd::string::StringExecFns;

verus! {

/// One observation of the line channel during the dispatcher's drain:
/// either a line arrived, or the channel is momentarily empty, or the
/// sending side is gone. The last two end the drain alike.
pub enum ChannelEvent {
    Received(String),
    Empty,
    Disconnected,
}

/// One outcome of the background listener's read of its input stream:
/// a full line, or a read failure described by the stream.
pub enum ReadEvent {
    Line(String),
    Failed(String),
}

/// What the background listener does next: forward the line it read and keep
/// listening, or report a read failure and stop.
pub enum SnifferAction {
    Forward(String),
    ReportAndStop(String),
}

/// The diagnostic line printed when reading the input stream fails.
pub open spec fn read_error_line(error: Seq<char>) -> Seq<char> {
    "Error reading from stdin. Error: "@ + error
}

/// The placeholder payload standing for "no piped input arrived".
pub open spec fn no_input_sentinel() -> Seq<char> {
    "Empty"@
}

/// Decide the background listener's response to one read: a line read from
/// the stream is forwarded verbatim; a failure turns into a diagnostic line
/// and stops the listener.
pub fn sniffer_step(ev: ReadEvent) -> (r: SnifferAction)
    ensures
        ev matches ReadEvent::Line(s) ==> (r matches SnifferAction::Forward(f) && f@ == s@),
        ev matches ReadEvent::Failed(e) ==> (r matches SnifferAction::ReportAndStop(line)
            && line@ == read_error_line(e@)),
{
    match ev {
        ReadEvent::Line(s) => SnifferAction::Forward(s),
        ReadEvent::Failed(e) => {
            let mut line: String = "Error reading from stdin. Error: ".to_owned();
            line.append(e.as_str());
            SnifferAction::ReportAndStop(line)
        },
    }
}

/// One step of the dispatcher's drain loop: a received line is appended to
/// the accumulator and the drain goes on; an empty or disconnected channel
/// leaves the accumulator as it is and ends the drain at once.
pub fn drain_step(acc: &mut String, ev: ChannelEvent) -> (more: bool)
    ensures
        more <==> ev matches ChannelEvent::Received(_),
        ev matches ChannelEvent::Received(line) ==> final(acc)@ == old(acc)@ + line@,
        !(ev matches ChannelEvent::Received(_)) ==> final(acc)@ == old(acc)@,
{
    match ev {
        ChannelEvent::Received(line) => {
            acc.append(line.as_str());
            true
        },
        ChannelEvent::Empty => false,
        ChannelEvent::Disconnected => false,
    }
}

/// Freeze the drained input into the message the dispatcher works with:
/// whatever arrived, verbatim, or the placeholder text when nothing did.
pub fn finalize_piped_input(acc: String) -> (r: String)
    ensures
        r@ == finalized_input(acc@),
{
    if acc.as_str().is_empty() {
        "Empty".to_owned()
    } else {
        acc
    }
}

/// The message the dispatcher ends up with for a given drained accumulator.
pub open spec fn finalized_input(acc: Seq<char>) -> Seq<char> {
    if acc.len() == 0 {
        no_input_sentinel()
    } else {
        acc
    }
}

} // verus!
