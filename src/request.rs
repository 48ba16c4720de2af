//! The parts of a request that the library shapes besides its header: the
//! full URL of an endpoint and the `Key: value` header lines given by the user.

use vstd::prelude::*;

verus! {

/// The full URL of `endpoint` under `base`: a `/` is put between them unless
/// the endpoint starts with one.
pub open spec fn url_text(base: Seq<char>, endpoint: Seq<char>) -> Seq<char> {
    if endpoint.len() > 0 && endpoint[0] == '/' {
        base + endpoint
    } else {
        base + seq!['/'] + endpoint
    }
}

/// `i` is the position of the first `:` of `s`.
pub open spec fn first_colon(s: Seq<char>, i: int) -> bool {
    0 <= i < s.len() && s[i] == ':' && forall|j: int| 0 <= j < i ==> s[j] != ':'
}

/// What `str::trim` leaves of a text.
pub uninterp spec fn trimmed(s: Seq<char>) -> Seq<char>;

/// Relies on str::trim: the text without its leading and trailing white
/// space, which depends on the text alone.
#[verifier::external_body]
fn trim(s: &str) -> (r: String)
    ensures
        r@ == trimmed(s@),
{
    s.trim().to_string()
}

/// The URL of `endpoint` on the API at `base`.
pub fn request_url(base: &str, endpoint: &str) -> (r: String)
    ensures
        r@ == url_text(base@, endpoint@),
{
    let mut r = base.to_owned();
    if endpoint.unicode_len() > 0 && endpoint.get_char(0) == '/' {
        r.append(endpoint);
    } else {
        r.append("/");
        proof {
            reveal_strlit("/");
            assert("/"@ =~= seq!['/']);
        }
        r.append(endpoint);
    }
    r
}

/// Splits a `Key: value` header line at its first `:` and trims both sides;
/// `None` when the line has no `:`.
pub fn parse_header_line(line: &str) -> (r: Option<(String, String)>)
    ensures
        match r {
            None => forall|j: int| 0 <= j < line@.len() ==> line@[j] != ':',
            Some((k, v)) => exists|i: int|
                first_colon(line@, i) && k@ == trimmed(line@.subrange(0, i)) && v@ == trimmed(
                    line@.subrange(i + 1, line@.len() as int),
                ),
        },
{
    let n = line.unicode_len();
    let mut i: usize = 0;
    while i < n
        invariant
            n == line@.len(),
            i <= n,
            forall|j: int| 0 <= j < i ==> line@[j] != ':',
        decreases n - i,
    {
        if line.get_char(i) == ':' {
            let key = trim(line.substring_char(0, i));
            let value = trim(line.substring_char(i + 1, n));
            proof {
                assert(first_colon(line@, i as int));
            }
            return Some((key, value));
        }
        i = i + 1;
    }
    None
}

} // verus!
