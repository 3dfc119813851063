//! Response matcher: substring-containment classification of a raw
//! control-channel response against a set of acceptable status codes.

use vstd::prelude::*;

verus! {

/// An error of the protocol engine. Each variant carries the raw text
/// that explains it: the server response that failed to match, or the
/// underlying I/O failure's description.
pub enum FtpError {
    /// The control connection could not be established, or the greeting
    /// did not carry the expected status code.
    Connection(String),
    /// A response contained none of the command's acceptable codes;
    /// carries the full raw response.
    Protocol(String),
    /// A socket read, write, bind or accept failed on either channel.
    Io(String),
    /// The control channel delivered bytes that are not valid text.
    Decode(String),
    /// The data-channel worker could not be joined.
    Task(String),
}

impl FtpError {
    /// The raw text the error carries.
    pub fn message(&self) -> (m: &String)
        ensures
            m@ == (match self {
                FtpError::Connection(t) => t@,
                FtpError::Protocol(t) => t@,
                FtpError::Io(t) => t@,
                FtpError::Decode(t) => t@,
                FtpError::Task(t) => t@,
            }),
    {
        match self {
            FtpError::Connection(t) => t,
            FtpError::Protocol(t) => t,
            FtpError::Io(t) => t,
            FtpError::Decode(t) => t,
            FtpError::Task(t) => t,
        }
    }
}

/// The pattern `p` occurs in `t` starting at position `i`.
pub open spec fn match_at(t: Seq<char>, p: Seq<char>, i: int) -> bool {
    &&& 0 <= i
    &&& i + p.len() <= t.len()
    &&& forall|j: int| 0 <= j < p.len() ==> t[i + j] == p[j]
}

/// The pattern `p` occurs somewhere in `t` as a contiguous substring.
pub open spec fn contains_seq(t: Seq<char>, p: Seq<char>) -> bool {
    exists|i: int| match_at(t, p, i)
}

/// Whether the pattern occurs in the text as a contiguous substring.
pub fn contains_substring(text: &str, pat: &str) -> (r: bool)
    ensures
        r == contains_seq(text@, pat@),
{
    let tlen = text.unicode_len();
    let plen = pat.unicode_len();
    if plen > tlen {
        assert(forall|i: int| !match_at(text@, pat@, i));
        return false;
    }
    let mut i: usize = 0;
    while i <= tlen - plen
        invariant
            plen <= tlen,
            tlen == text@.len(),
            plen == pat@.len(),
            i <= tlen - plen + 1,
            forall|k: int| 0 <= k < i ==> !match_at(text@, pat@, k),
        decreases tlen - plen - i + 1,
    {
        let mut j: usize = 0;
        let mut all_eq: bool = true;
        while j < plen
            invariant
                plen <= tlen,
                tlen == text@.len(),
                plen == pat@.len(),
                i + plen <= tlen,
                j <= plen,
                all_eq == (forall|q: int| 0 <= q < j ==> text@[i + q] == pat@[q]),
            decreases plen - j,
        {
            let tc = text.get_char(i + j);
            let pc = pat.get_char(j);
            if tc != pc {
                all_eq = false;
                j = plen;
            } else {
                j = j + 1;
            }
        }
        if all_eq {
            assert(match_at(text@, pat@, i as int));
            return true;
        }
        assert(!match_at(text@, pat@, i as int));
        i = i + 1;
    }
    assert(forall|k: int| !match_at(text@, pat@, k));
    false
}

/// The code that fills a set's unused slots. It is filler, not a
/// genuine status code, and never counts as a match, even when the
/// response text happens to contain it.
pub open spec fn sentinel_code() -> Seq<char> {
    "000"@
}

/// The response contains at least one genuine (non-sentinel) code of
/// the set as a substring.
pub open spec fn matches_spec(resp: Seq<char>, codes: Seq<Seq<char>>) -> bool {
    exists|k: int| 0 <= k < codes.len() && codes[k] != sentinel_code() && contains_seq(
        resp,
        codes[k],
    )
}

/// Whether the response contains at least one genuine acceptable code
/// as a substring. Matching is deliberately permissive — a code
/// occurring anywhere in the response text counts — but the sentinel
/// slots are skipped.
pub fn matches(response: &str, codes: &Vec<String>) -> (r: bool)
    ensures
        r == matches_spec(response@, codes.deep_view()),
{
    let sentinel = String::from_str("000");
    let mut k: usize = 0;
    while k < codes.len()
        invariant
            k <= codes@.len(),
            sentinel@ == sentinel_code(),
            forall|q: int| 0 <= q < k ==> (codes.deep_view()[q] == sentinel_code()
                || !contains_seq(response@, codes.deep_view()[q])),
        decreases codes@.len() - k,
    {
        let code = &codes[k];
        if !code.eq(&sentinel) && contains_substring(response, code.as_str()) {
            assert(codes.deep_view()[k as int] == codes@[k as int]@);
            return true;
        }
        k = k + 1;
    }
    false
}

/// Success exactly when the response contains one of the genuine
/// acceptable codes; otherwise a protocol error carrying the full raw
/// response. The sentinel never matches.
pub fn validate(response: &str, codes: &Vec<String>) -> (r: Result<(), FtpError>)
    ensures
        r is Ok <==> matches_spec(response@, codes.deep_view()),
        r matches Err(e) ==> e matches FtpError::Protocol(t) && t@ == response@,
{
    if matches(response, codes) {
        Ok(())
    } else {
        Err(FtpError::Protocol(response.to_owned()))
    }
}

/// Success exactly when the server's greeting carries the status code
/// that announces a ready control channel; otherwise a connection
/// error carrying the full raw greeting.
pub fn validate_greeting(greeting: &str) -> (r: Result<(), FtpError>)
    ensures
        r is Ok <==> contains_seq(greeting@, "220"@),
        r matches Err(e) ==> e matches FtpError::Connection(t) && t@ == greeting@,
{
    if contains_substring(greeting, "220") {
        Ok(())
    } else {
        Err(FtpError::Connection(greeting.to_owned()))
    }
}

} // verus!
