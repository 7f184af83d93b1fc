//! The JSON texts that the C interface answers with (written by hand, not
//! through a serialiser).

use vstd::prelude::*;

use crate::text::push_char;

verus! {

/// `s` with every double quote turned into a single quote, so that it can
/// stand inside a JSON string without ending it.
pub open spec fn quotes_softened(s: Seq<char>) -> Seq<char> {
    s.map_values(|c: char| if c == '"' { '\'' } else { c })
}

/// The answer of a call that succeeded: `{"ok":true}`.
pub fn ok_json() -> (res: String)
    ensures
        res@ == "{\"ok\":true}"@,
{
    "{\"ok\":true}".to_owned()
}

/// The answer of a failed tunnel initialisation:
/// `{"ok":false,"error":"<error>"}` with the error's double quotes turned
/// into single quotes.
pub fn init_failure_json(error: &str) -> (res: String)
    ensures
        res@ == "{\"ok\":false,\"error\":\""@ + quotes_softened(error@) + "\"}"@,
{
    let mut res = "{\"ok\":false,\"error\":\"".to_owned();
    let ghost head = res@;
    let n = error.unicode_len();
    let mut i: usize = 0;
    while i < n
        invariant
            i <= n,
            n == error@.len(),
            res@ == head + quotes_softened(error@.subrange(0, i as int)),
        decreases n - i,
    {
        let c = error.get_char(i);
        if c == '"' {
            push_char(&mut res, '\'');
        } else {
            push_char(&mut res, c);
        }
        i = i + 1;
        assert(quotes_softened(error@.subrange(0, i as int))
            =~= quotes_softened(error@.subrange(0, i - 1)).push(if c == '"' { '\'' } else { c }));
    }
    assert(error@.subrange(0, n as int) =~= error@);
    res.append("\"}");
    res
}

/// The answer of another failed call: `{"ok":false,"error":"<error>"}`,
/// the error as it is.
pub fn failure_json(error: &str) -> (res: String)
    ensures
        res@ == "{\"ok\":false,\"error\":\""@ + error@ + "\"}"@,
{
    let mut res = "{\"ok\":false,\"error\":\"".to_owned();
    res.append(error);
    res.append("\"}");
    res
}

/// The answer of a statistics request that failed: `{"error":"<error>"}`.
pub fn error_json(error: &str) -> (res: String)
    ensures
        res@ == "{\"error\":\""@ + error@ + "\"}"@,
{
    let mut res = "{\"error\":\"".to_owned();
    res.append(error);
    res.append("\"}");
    res
}

/// The error text inside a failed initialisation's answer holds no double
/// quote, whatever the error said.
pub proof fn softened_text_has_no_double_quote(s: Seq<char>)
    ensures
        !quotes_softened(s).contains('"'),
        quotes_softened(s).len() == s.len(),
{
    if quotes_softened(s).contains('"') {
        let i = choose|i: int| 0 <= i < quotes_softened(s).len() && quotes_softened(s)[i] == '"';
        assert(quotes_softened(s)[i] == (if s[i] == '"' { '\'' } else { s[i] }));
    }
}

} // verus!
