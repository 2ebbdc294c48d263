//! The scripts that the host hands to the content gate for evaluation in the content.
//! Each one calls into a registry that the content keeps: answers by
//! correlation id, stream lines by stream id, outside requests by the id the
//! host gave them.

use vstd::prelude::*;
use vstd::string::*;
use crate::json::{json_string_text, quote};
use crate::text::{
    decimal, decimal_string, digit_value, lemma_decimal_injective, lemma_decimal_is_digits,
};

verus! {

/// The script that delivers the answer `payload` (JSON text) to the request
/// with correlation id `id`.
pub open spec fn response_script_text(id: nat, payload: Seq<char>) -> Seq<char> {
    "(window._wongus.responses.get("@ + decimal(id) + "))("@ + payload + ");"@
}

/// The script that delivers one output line to the stream `stream_id`.
pub open spec fn stream_script_text(stream_id: nat, line: Seq<char>) -> Seq<char> {
    "(window._wongus.stream_cbs.get("@ + decimal(stream_id) + "))("@ + json_string_text(line)
        + ");"@
}

/// The script that hands the outside request `payload` (JSON text) with the
/// id `id` to the content's handler, and returns what the handler answers.
pub open spec fn external_script_text(id: nat, payload: Seq<char>) -> Seq<char> {
    "return window._wongus.external_ipc("@ + decimal(id) + ", "@ + payload + ");"@
}

/// The script that writes `message` to the content's console.
pub open spec fn console_script_text(message: Seq<char>) -> Seq<char> {
    "console.log("@ + json_string_text(message) + ");"@
}

/// One line of the startup script: it stores `value` under `key` in the
/// content-side map `target`.
pub open spec fn set_line_text(target: Seq<char>, key: Seq<char>, value: Seq<char>) -> Seq<char> {
    "wongus."@ + target + ".set("@ + json_string_text(key) + ", "@ + json_string_text(value)
        + ");\n"@
}

/// The lines that store every pair, in the order given.
pub open spec fn set_lines_text(target: Seq<char>, pairs: Seq<(String, String)>) -> Seq<char>
    decreases pairs.len(),
{
    if pairs.len() == 0 {
        Seq::<char>::empty()
    } else {
        set_lines_text(target, pairs.drop_last()) + set_line_text(
            target,
            pairs.last().0@,
            pairs.last().1@,
        )
    }
}

/// The script that is evaluated once when the content starts: first the
/// host's environment, then the arguments given on the command line.
pub open spec fn startup_script_text(
    environment: Seq<(String, String)>,
    arguments: Seq<(String, String)>,
) -> Seq<char> {
    set_lines_text("env"@, environment) + set_lines_text("args"@, arguments)
}

/// The address under which the content's entry page is loaded: the page's
/// absolute path behind the scheme and host of the content protocol.
pub open spec fn content_url_text(index_path: Seq<char>) -> Seq<char> {
    "filex://x"@ + index_path
}

/// Builds the address under which the content's entry page is loaded.
pub fn content_url(index_path: &str) -> (url: String)
    ensures
        url@ == content_url_text(index_path@),
{
    String::from_str("filex://x").concat(index_path)
}

/// Builds the script that delivers an answer to the request `id`.
pub fn response_script(id: u64, payload: &str) -> (s: String)
    ensures
        s@ == response_script_text(id as nat, payload@),
{
    let mut s = String::from_str("(window._wongus.responses.get(");
    s.append(decimal_string(id).as_str());
    s.append("))(");
    s.append(payload);
    s.append(");");
    s
}

/// Builds the script that delivers one output line to a stream.
pub fn stream_script(stream_id: u64, line: &str) -> (s: String)
    ensures
        s@ == stream_script_text(stream_id as nat, line@),
{
    let mut s = String::from_str("(window._wongus.stream_cbs.get(");
    s.append(decimal_string(stream_id).as_str());
    s.append("))(");
    s.append(quote(line).as_str());
    s.append(");");
    s
}

/// Builds the script that hands an outside request to the content.
pub fn external_script(id: u64, payload: &str) -> (s: String)
    ensures
        s@ == external_script_text(id as nat, payload@),
{
    let mut s = String::from_str("return window._wongus.external_ipc(");
    s.append(decimal_string(id).as_str());
    s.append(", ");
    s.append(payload);
    s.append(");");
    s
}

/// Builds the script that writes a message to the content's console.
pub fn console_script(message: &str) -> (s: String)
    ensures
        s@ == console_script_text(message@),
{
    let mut s = String::from_str("console.log(");
    s.append(quote(message).as_str());
    s.append(");");
    s
}

/// A response script names one request and carries one answer: two scripts
/// that are the same text were built for the same correlation id and the same
/// payload. So an answer can never reach a request other than its own.
pub proof fn lemma_response_script_names_one_request(
    a: nat,
    p: Seq<char>,
    b: nat,
    q: Seq<char>,
)
    requires
        response_script_text(a, p) == response_script_text(b, q),
    ensures
        a == b,
        p == q,
{
    reveal_strlit("(window._wongus.responses.get(");
    reveal_strlit("))(");
    reveal_strlit(");");
    let head = "(window._wongus.responses.get("@;
    let mid = "))("@;
    let tail = ");"@;
    let da = decimal(a);
    let db = decimal(b);
    let h = head.len() as int;
    let m = mid.len() as int;
    let na = da.len() as int;
    let nb = db.len() as int;
    let s = response_script_text(a, p);
    let t = response_script_text(b, q);
    lemma_decimal_is_digits(a);
    lemma_decimal_is_digits(b);
    assert(mid[0] == ')');
    assert(digit_value(')') is None);
    if da.len() < db.len() {
        assert(s[h + na] == mid[0]);
        assert(t[h + na] == db[na]);
        assert(false);
    }
    if db.len() < da.len() {
        assert(t[h + nb] == mid[0]);
        assert(s[h + nb] == da[nb]);
        assert(false);
    }
    assert forall|i: int| 0 <= i < da.len() implies da[i] == db[i] by {
        assert(s[h + i] == da[i]);
        assert(t[h + i] == db[i]);
    }
    assert(da =~= db);
    lemma_decimal_injective(a, b);
    assert(s.len() == head.len() + da.len() + mid.len() + p.len() + tail.len());
    assert(t.len() == head.len() + db.len() + mid.len() + q.len() + tail.len());
    assert forall|i: int| 0 <= i < p.len() implies p[i] == q[i] by {
        assert(s[h + na + m + i] == p[i]);
        assert(t[h + nb + m + i] == q[i]);
    }
    assert(p =~= q);
}

fn append_set_lines(out: &mut String, target: &str, pairs: &Vec<(String, String)>)
    ensures
        final(out)@ == old(out)@ + set_lines_text(target@, pairs@),
{
    let n = pairs.len();
    let mut i: usize = 0;
    while i < n
        invariant
            n == pairs@.len(),
            i <= n,
            out@ == old(out)@ + set_lines_text(target@, pairs@.take(i as int)),
        decreases n - i,
    {
        let pair = &pairs[i];
        out.append("wongus.");
        out.append(target);
        out.append(".set(");
        out.append(quote(pair.0.as_str()).as_str());
        out.append(", ");
        out.append(quote(pair.1.as_str()).as_str());
        out.append(");\n");
        proof {
            let next = pairs@.take(i + 1);
            assert(next.drop_last() =~= pairs@.take(i as int));
            assert(next.last() == pairs@[i as int]);
            assert(out@ =~= old(out)@ + set_lines_text(target@, next));
        }
        i = i + 1;
    }
    proof {
        assert(pairs@.take(n as int) =~= pairs@);
    }
}

/// Builds the script that injects the environment and the arguments into the
/// content at startup.
pub fn startup_script(environment: &Vec<(String, String)>, arguments: &Vec<(String, String)>) -> (s:
    String)
    ensures
        s@ == startup_script_text(environment@, arguments@),
{
    let mut s = String::new();
    append_set_lines(&mut s, "env", environment);
    append_set_lines(&mut s, "args", arguments);
    s
}

} // verus!
