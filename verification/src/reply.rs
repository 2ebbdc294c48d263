//! What a handler answers, and how the answer is written for the content.

use vstd::prelude::*;
use vstd::string::*;
use vstd::utf8::*;
use crate::error::{failure_message, Capture, Captured, Failure, HandlerError, TextSource};
use crate::json::{json_string_text, quote};
use crate::process::ProcessRunResult;
use crate::script::{response_script, response_script_text};
use crate::text::{decimal, decimal_string, decode_text, signed_decimal, signed_decimal_string};

verus! {

/// The answer of a handler that succeeded.
#[derive(Debug, Clone, PartialEq, Eq)]
pub enum Reply {
    /// Nothing to report: the request was carried out or taken on.
    Empty,
    /// The entries of a directory.
    Listing(Vec<String>),
    /// Whether a file exists.
    Exists(bool),
    /// The text of a file.
    Text(String),
    /// What a command wrote.
    Output(ProcessRunResult),
    /// The identifier of a process that was started and left to itself.
    Pid(u32),
}

/// The quoted entries of a listing, separated by commas.
pub open spec fn listing_items_text(items: Seq<String>) -> Seq<char>
    decreases items.len(),
{
    if items.len() == 0 {
        Seq::<char>::empty()
    } else if items.len() == 1 {
        json_string_text(items.last()@)
    } else {
        listing_items_text(items.drop_last()) + ","@ + json_string_text(items.last()@)
    }
}

/// The JSON text of an answer.
pub open spec fn reply_text(reply: Reply) -> Seq<char> {
    match reply {
        Reply::Empty => "{}"@,
        Reply::Listing(items) => "["@ + listing_items_text(items@) + "]"@,
        Reply::Exists(found) => if found {
            "true"@
        } else {
            "false"@
        },
        Reply::Text(text) => json_string_text(text@),
        Reply::Output(result) => "{\"stderr\":"@ + json_string_text(result.stderr@)
            + ",\"stdout\":"@ + json_string_text(result.stdout@) + "}"@,
        Reply::Pid(pid) => "{\"pid\":"@ + decimal(pid as nat) + "}"@,
    }
}

/// The JSON text of what a process wrote: a string where it is text, `null`
/// where it is not.
pub open spec fn capture_text(c: Capture) -> Seq<char> {
    match c {
        Capture::Text(text) => json_string_text(text),
        Capture::Bytes(_) => "null"@,
    }
}

/// The JSON text of an exit code: the number, or `null` where the process
/// was ended by a signal.
pub open spec fn exit_code_text(code: Option<i32>) -> Seq<char> {
    match code {
        Some(c) => signed_decimal(c as int),
        None => "null"@,
    }
}

/// The JSON text of a failure: an object whose `err` member is the message.
/// For a process that ended unsuccessfully the object also carries the exit
/// code and what the process wrote.
pub open spec fn failure_text(f: Failure) -> Seq<char> {
    match f {
        Failure::ExitFailure { exit_code, stdout, stderr } => "{\"err\":"@ + json_string_text(
            failure_message(f),
        ) + ",\"exit_code\":"@ + exit_code_text(exit_code) + ",\"stderr\":"@ + capture_text(stderr)
            + ",\"stdout\":"@ + capture_text(stdout) + "}"@,
        _ => "{\"err\":"@ + json_string_text(failure_message(f)) + "}"@,
    }
}

/// The JSON text of what a handler came to, success or failure.
pub open spec fn body_text(body: Result<Reply, HandlerError>) -> Seq<char> {
    match body {
        Ok(reply) => reply_text(reply),
        Err(e) => failure_text(e@),
    }
}

impl Reply {
    /// Writes the answer as JSON text.
    pub fn render(&self) -> (s: String)
        ensures
            s@ == reply_text(*self),
    {
        match self {
            Reply::Empty => String::from_str("{}"),
            Reply::Listing(items) => {
                let mut s = String::from_str("[");
                let n = items.len();
                let mut i: usize = 0;
                while i < n
                    invariant
                        n == items@.len(),
                        i <= n,
                        s@ == "["@ + listing_items_text(items@.take(i as int)),
                    decreases n - i,
                {
                    if i > 0 {
                        s.append(",");
                    }
                    s.append(quote(items[i].as_str()).as_str());
                    proof {
                        let next = items@.take(i + 1);
                        assert(next.drop_last() =~= items@.take(i as int));
                        assert(next.last() == items@[i as int]);
                        assert(s@ =~= "["@ + listing_items_text(next));
                    }
                    i = i + 1;
                }
                proof {
                    assert(items@.take(n as int) =~= items@);
                }
                s.append("]");
                s
            },
            Reply::Exists(found) => if *found {
                String::from_str("true")
            } else {
                String::from_str("false")
            },
            Reply::Text(text) => quote(text.as_str()),
            Reply::Output(result) => {
                let mut s = String::from_str("{\"stderr\":");
                s.append(quote(result.stderr.as_str()).as_str());
                s.append(",\"stdout\":");
                s.append(quote(result.stdout.as_str()).as_str());
                s.append("}");
                s
            },
            Reply::Pid(pid) => {
                let mut s = String::from_str("{\"pid\":");
                let wide: u64 = *pid as u64;
                s.append(decimal_string(wide).as_str());
                s.append("}");
                s
            },
        }
    }
}

fn render_capture(c: &Captured) -> (s: String)
    ensures
        s@ == capture_text(c@),
{
    match c {
        Captured::Text(text) => quote(text.as_str()),
        Captured::Bytes(_) => String::from_str("null"),
    }
}

/// Writes a failure as JSON text.
pub fn render_failure(e: &HandlerError) -> (s: String)
    ensures
        s@ == failure_text(e@),
{
    let mut s = String::from_str("{\"err\":");
    s.append(quote(e.message().as_str()).as_str());
    match e {
        HandlerError::ExitFailure { exit_code, stdout, stderr } => {
            s.append(",\"exit_code\":");
            match exit_code {
                Some(code) => s.append(signed_decimal_string(*code).as_str()),
                None => s.append("null"),
            }
            s.append(",\"stderr\":");
            s.append(render_capture(stderr).as_str());
            s.append(",\"stdout\":");
            s.append(render_capture(stdout).as_str());
        },
        _ => {},
    }
    s.append("}");
    s
}

/// The answer to one request, tied to it by the correlation id.
#[derive(Debug, PartialEq, Eq)]
pub struct Response {
    pub correlation_id: u64,
    pub body: Result<Reply, HandlerError>,
}

impl Response {
    /// The script that delivers this answer to the content: it looks the
    /// request up by its correlation id and hands it the body.
    pub fn script(&self) -> (s: String)
        ensures
            s@ == response_script_text(self.correlation_id as nat, body_text(self.body)),
    {
        let payload = match &self.body {
            Ok(reply) => reply.render(),
            Err(e) => render_failure(e),
        };
        response_script(self.correlation_id, payload.as_str())
    }
}

/// The answer for a command that was run to its end: its output on success,
/// the failure otherwise.
pub fn run_reply(answer: Result<ProcessRunResult, HandlerError>) -> (r: Result<Reply, HandlerError>)
    ensures
        match answer {
            Ok(result) => r == Ok::<Reply, HandlerError>(Reply::Output(result)),
            Err(e) => r == Err::<Reply, HandlerError>(e),
        },
{
    match answer {
        Ok(result) => Ok(Reply::Output(result)),
        Err(e) => Err(e),
    }
}

/// The answer for a command that was started and left to itself: the process
/// identifier as soon as the process is there, else why it could not start.
/// Nothing that the process does later enters into it.
pub fn detached_reply(spawned: Result<u32, String>) -> (r: Result<Reply, HandlerError>)
    ensures
        match spawned {
            Ok(pid) => r == Ok::<Reply, HandlerError>(Reply::Pid(pid)),
            Err(detail) => r == Err::<Reply, HandlerError>(HandlerError::SpawnFailure(detail)),
        },
{
    match spawned {
        Ok(pid) => Ok(Reply::Pid(pid)),
        Err(detail) => Err(HandlerError::SpawnFailure(detail)),
    }
}

/// The answer for a file that was asked for: its text where the bytes are
/// well-formed UTF-8, an encoding failure where they are not, and the read
/// failure where the file could not be read.
pub fn read_reply(read: Result<Vec<u8>, String>) -> (r: Result<Reply, HandlerError>)
    ensures
        match read {
            Ok(bytes) => if valid_utf8(bytes@) {
                r matches Ok(Reply::Text(text)) && text@ == decode_utf8(bytes@)
            } else {
                r == Err::<Reply, HandlerError>(HandlerError::Encoding(TextSource::File))
            },
            Err(detail) => r == Err::<Reply, HandlerError>(HandlerError::ReadFailure(detail)),
        },
{
    match read {
        Ok(bytes) => match decode_text(bytes) {
            Ok(text) => Ok(Reply::Text(text)),
            Err(_) => Err(HandlerError::Encoding(TextSource::File)),
        },
        Err(detail) => Err(HandlerError::ReadFailure(detail)),
    }
}

/// The entries that a listing keeps: those whose path is text, in the order
/// in which they were read.
pub open spec fn kept_entries(entries: Seq<Option<String>>) -> Seq<String>
    decreases entries.len(),
{
    if entries.len() == 0 {
        Seq::<String>::empty()
    } else {
        match entries.last() {
            Some(path) => kept_entries(entries.drop_last()).push(path),
            None => kept_entries(entries.drop_last()),
        }
    }
}

/// The answer for a directory that was asked for. An entry whose path is not
/// text arrives as `None` and is left out; the others keep their order.
pub fn listing_reply(listed: Result<Vec<Option<String>>, String>) -> (r: Result<
    Reply,
    HandlerError,
>)
    ensures
        match listed {
            Ok(entries) => r matches Ok(Reply::Listing(paths)) && paths@ == kept_entries(entries@),
            Err(detail) => r == Err::<Reply, HandlerError>(HandlerError::ListFailure(detail)),
        },
{
    match listed {
        Ok(entries) => {
            let ghost all = entries@;
            let mut entries = entries;
            let mut reversed: Vec<String> = Vec::new();
            // Entries leave from the back, so they arrive here last to first.
            while entries.len() > 0
                invariant
                    entries@.len() <= all.len(),
                    entries@ == all.take(entries@.len() as int),
                    kept_entries(all) == kept_entries(entries@) + reversed@.reverse(),
                decreases entries@.len(),
            {
                let ghost before = entries@;
                let ghost was = reversed@;
                let last = entries.pop();
                proof {
                    assert(entries@ =~= before.drop_last());
                    assert(entries@ =~= all.take(entries@.len() as int));
                }
                match last {
                    Some(Some(path)) => {
                        reversed.push(path);
                        proof {
                            assert(reversed@.reverse() =~= seq![path] + was.reverse());
                            assert(kept_entries(before) =~= kept_entries(entries@).push(path));
                            assert(kept_entries(all) =~= kept_entries(entries@)
                                + reversed@.reverse());
                        }
                    },
                    _ => {},
                }
            }
            let mut paths: Vec<String> = Vec::new();
            while reversed.len() > 0
                invariant
                    kept_entries(all) == paths@ + reversed@.reverse(),
                decreases reversed@.len(),
            {
                let ghost was = reversed@;
                let ghost had = paths@;
                let next = reversed.pop();
                match next {
                    Some(path) => {
                        paths.push(path);
                        proof {
                            assert(was.reverse() =~= seq![path] + reversed@.reverse());
                            assert(kept_entries(all) =~= paths@ + reversed@.reverse());
                        }
                    },
                    None => {},
                }
            }
            proof {
                assert(reversed@.reverse() =~= Seq::<String>::empty());
                assert(paths@ =~= kept_entries(all));
            }
            Ok(Reply::Listing(paths))
        },
        Err(detail) => Err(HandlerError::ListFailure(detail)),
    }
}

} // verus!
