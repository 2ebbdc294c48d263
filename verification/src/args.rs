//! Arguments for the content, given on the command line as `KEY=VALUE`.

use vstd::prelude::*;
use vstd::string::*;

verus! {

/// One argument for the content.
#[derive(Debug, Clone, PartialEq, Eq)]
pub struct ArgKv {
    pub k: String,
    pub v: String,
}

/// `i` is the place of the first `=` in `s`.
pub open spec fn is_split_point(s: Seq<char>, i: int) -> bool {
    &&& 0 <= i < s.len()
    &&& s[i] == '='
    &&& forall|j: int| 0 <= j < i ==> s[j] != '='
}

/// The message for an argument without `=`.
pub open spec fn malformed_argument_text(s: Seq<char>) -> Seq<char> {
    "All arguments must be in the form KEY=VALUE here, but got ["@ + s + "]"@
}

impl ArgKv {
    /// Splits an argument at its first `=`: the key is what stands before
    /// it, the value what stands after it, further `=` included. An argument
    /// without `=` is refused with a message that quotes it.
    pub fn from_str(s: &str) -> (r: Result<ArgKv, String>)
        ensures
            match r {
                Ok(kv) => {
                    &&& is_split_point(s@, kv.k@.len() as int)
                    &&& kv.k@ == s@.subrange(0, kv.k@.len() as int)
                    &&& kv.v@ == s@.subrange(kv.k@.len() as int + 1, s@.len() as int)
                },
                Err(message) => {
                    &&& forall|i: int| 0 <= i < s@.len() ==> s@[i] != '='
                    &&& message@ == malformed_argument_text(s@)
                },
            },
    {
        let n = s.unicode_len();
        let mut i: usize = 0;
        while i < n
            invariant
                n == s@.len(),
                i <= n,
                forall|j: int| 0 <= j < i ==> s@[j] != '=',
            decreases n - i,
        {
            if s.get_char(i) == '=' {
                let k = String::from_str(s.substring_char(0, i));
                let v = String::from_str(s.substring_char(i + 1, n));
                assert(k@.len() == i);
                return Ok(ArgKv { k, v });
            }
            i = i + 1;
        }
        let mut message = String::from_str(
            "All arguments must be in the form KEY=VALUE here, but got [",
        );
        message.append(s);
        message.append("]");
        Err(message)
    }

    /// The pattern shown for such an argument in the program's help.
    pub fn build_help_pattern() -> (pattern: String)
        ensures
            pattern@ == "KEY=VALUE"@,
    {
        String::from_str("KEY=VALUE")
    }
}

} // verus!
