//! The three queue operations' local logic: message normalization for send,
//! payload rendering for receive and peek, and the exact user-facing output
//! of each outcome.

use vstd::prelude::*;
use vstd::string::StrSliceExecFns;
use vstd::string::StringExecFns;

verus! {

/// How long a peek waits for a message to become available, in seconds.
pub const PEEK_WAIT_SECONDS: u64 = 3;

/// The text with every newline character removed and the remaining
/// characters kept in order.
pub open spec fn strip_newlines(s: Seq<char>) -> Seq<char>
    decreases s.len(),
{
    if s.len() == 0 {
        Seq::empty()
    } else if s.last() == '\n' {
        strip_newlines(s.drop_last())
    } else {
        strip_newlines(s.drop_last()).push(s.last())
    }
}

/// Stripping newlines distributes over concatenation: a message assembled
/// from several piped lines is normalized exactly as if each line had been
/// normalized on its own.
pub proof fn lemma_strip_newlines_concat(a: Seq<char>, b: Seq<char>)
    ensures
        strip_newlines(a + b) == strip_newlines(a) + strip_newlines(b),
    decreases b.len(),
{
    if b.len() == 0 {
        assert(a + b =~= a);
        assert(strip_newlines(a) + strip_newlines(b) =~= strip_newlines(a));
    } else {
        lemma_strip_newlines_concat(a, b.drop_last());
        assert((a + b).drop_last() =~= a + b.drop_last());
        assert((a + b).last() == b.last());
        if b.last() != '\n' {
            assert(strip_newlines(a) + strip_newlines(b.drop_last()).push(b.last()) =~= (
            strip_newlines(a) + strip_newlines(b.drop_last())).push(b.last()));
        }
    }
}

/// Flatten a (possibly multi-line) message into the single line the
/// transport expects: every newline character is removed.
pub fn prepare_send_message(message: &str) -> (r: String)
    ensures
        r@ == strip_newlines(message@),
{
    let n = message.unicode_len();
    let mut out = String::new();
    let mut i: usize = 0;
    while i < n
        invariant
            n == message@.len(),
            i <= n,
            out@ == strip_newlines(message@.subrange(0, i as int)),
        decreases n - i,
    {
        let c = message.get_char(i);
        if c != '\n' {
            let piece = message.substring_char(i, i + 1);
            out.append(piece);
        }
        proof {
            let pre = message@.subrange(0, i as int);
            let post = message@.subrange(0, i as int + 1);
            assert(post.drop_last() =~= pre);
            assert(post.last() == message@[i as int]);
            if message@[i as int] != '\n' {
                assert(message@.subrange(i as int, i as int + 1) =~= seq![message@[i as int]]);
                assert(pre + seq![message@[i as int]] =~= pre.push(message@[i as int]));
                assert(strip_newlines(pre) + seq![message@[i as int]] =~= strip_newlines(
                    pre,
                ).push(message@[i as int]));
            }
        }
        i = i + 1;
    }
    proof {
        assert(message@.subrange(0, n as int) =~= message@);
    }
    out
}

/// The rendering of a text as structured data: absent when the text is not
/// well-formed JSON, otherwise the canonical text of the parsed value.
pub uninterp spec fn json_rendering(s: Seq<char>) -> Option<Seq<char>>;

/// Relies on serde_json::from_str::<Value> to decide whether the text is
/// well-formed JSON, and on Value's Display implementation to render the
/// parsed value; both depend on the text alone.
#[verifier::external_body]
fn render_json(s: &str) -> (r: Option<String>)
    ensures
        r is Some <==> json_rendering(s@) is Some,
        r matches Some(t) ==> t@ == json_rendering(s@)->Some_0,
{
    match serde_json::from_str::<serde_json::Value>(s) {
        Ok(v) => Some(v.to_string()),
        Err(_) => None,
    }
}

/// One user-facing outcome: the line to print, and whether the invocation
/// must end as a failure.
pub struct Report {
    pub line: String,
    pub fatal: bool,
}

/// The outcome of the send flow once the transport has answered: a
/// confirmation on success, a fatal diagnostic on failure.
pub fn send_report(delivered: bool) -> (r: Report)
    ensures
        delivered ==> r.line@ == "Message sent!"@ && !r.fatal,
        !delivered ==> r.line@ == "Failed to send message"@ && r.fatal,
{
    if delivered {
        Report { line: "Message sent!".to_owned(), fatal: false }
    } else {
        Report { line: "Failed to send message".to_owned(), fatal: true }
    }
}

/// The fatal outcome reported when a receive or peek call itself fails.
pub fn transport_failure_report() -> (r: Report)
    ensures
        r.line@ == "Failed to receive message"@,
        r.fatal,
{
    Report { line: "Failed to receive message".to_owned(), fatal: true }
}

/// The outcome of the receive flow for a payload the transport handed back:
/// a well-formed payload is shown rendered; anything else is reported as an
/// empty queue. Neither case is a failure.
pub fn receive_report(payload: &str) -> (r: Report)
    ensures
        !r.fatal,
        json_rendering(payload@) matches Some(t) ==> r.line@ == "Message: "@ + t,
        json_rendering(payload@) is None ==> r.line@ == "No messages in queue"@,
{
    match render_json(payload) {
        Some(rendered) => {
            let mut line: String = "Message: ".to_owned();
            line.append(rendered.as_str());
            Report { line, fatal: false }
        },
        None => Report { line: "No messages in queue".to_owned(), fatal: false },
    }
}

/// What the peek flow does with the locked message's body: show it and then
/// release the lock, or treat the queue as empty and leave the lock to
/// expire on its own.
pub enum PeekPlan {
    ShowAndUnlock(String),
    NoMessage(String),
}

/// The peek flow's decision on a locked message's body: only a well-formed
/// payload is shown, and only then is the lock released.
pub fn peek_report(body: &str) -> (r: PeekPlan)
    ensures
        json_rendering(body@) matches Some(t) ==> (r matches PeekPlan::ShowAndUnlock(line)
            && line@ == "Peek message: "@ + t),
        json_rendering(body@) is None ==> (r matches PeekPlan::NoMessage(line) && line@
            == "No messages in queue"@),
{
    match render_json(body) {
        Some(rendered) => {
            let mut line: String = "Peek message: ".to_owned();
            line.append(rendered.as_str());
            PeekPlan::ShowAndUnlock(line)
        },
        None => PeekPlan::NoMessage("No messages in queue".to_owned()),
    }
}

/// The peek flow's reaction to the unlock call: silence on success, a
/// non-fatal warning line when the lock could not be released.
pub fn unlock_report(unlocked: bool) -> (r: Option<String>)
    ensures
        r is None <==> unlocked,
        r matches Some(line) ==> line@ == "Unable to unlock message"@,
{
    if unlocked {
        None
    } else {
        Some("Unable to unlock message".to_owned())
    }
}

} // verus!
