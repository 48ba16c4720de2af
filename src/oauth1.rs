//! The OAuth 1.0a signer: percent-encoding, the ordered parameter list, the
//! signature base string, the HMAC-SHA1 signature and the `Authorization`
//! header.

use base64::Engine;
use hmac::Mac;
use vstd::prelude::*;
use crate::store::{OAuth1Model, OAuth1Token};
use vstd::utf8::encode_utf8;

verus! {

/// The bytes that OAuth leaves as they are: ASCII letters, digits and `-._~`.
pub open spec fn is_unreserved(b: u8) -> bool {
    (0x30 <= b <= 0x39) || (0x41 <= b <= 0x5a) || (0x61 <= b <= 0x7a) || b == 0x2d || b == 0x2e
        || b == 0x5f || b == 0x7e
}

/// The upper-case hexadecimal digit of `d < 16`.
pub open spec fn hex_upper(d: int) -> char {
    if d < 10 {
        ((d + 48) as u8) as char
    } else {
        ((d + 55) as u8) as char
    }
}

/// The lower-case hexadecimal digit of `d < 16`.
pub open spec fn hex_lower(d: int) -> char {
    if d < 10 {
        ((d + 48) as u8) as char
    } else {
        ((d + 87) as u8) as char
    }
}

/// `%` followed by the two upper-case hexadecimal digits of `b`.
pub open spec fn escaped(b: u8) -> Seq<char> {
    seq!['%', hex_upper(b as int / 16), hex_upper(b as int % 16)]
}

/// How one byte of the input appears in the output.
pub open spec fn encode_byte(b: u8) -> Seq<char> {
    if is_unreserved(b) {
        seq![b as char]
    } else {
        escaped(b)
    }
}

/// Percent-encoding of a byte string under the OAuth rule.
pub open spec fn percent_encode_bytes(bs: Seq<u8>) -> Seq<char>
    decreases bs.len(),
{
    if bs.len() == 0 {
        Seq::empty()
    } else {
        percent_encode_bytes(bs.drop_last()) + encode_byte(bs.last())
    }
}

/// Percent-encoding of a text: of its UTF-8 bytes.
pub open spec fn oauth_encode(s: Seq<char>) -> Seq<char> {
    percent_encode_bytes(encode_utf8(s))
}

/// The lower-case hexadecimal numeral of `n`, without leading zeros.
pub open spec fn hex_numeral(n: nat) -> Seq<char>
    decreases n,
{
    if n < 16 {
        seq![hex_lower(n as int)]
    } else {
        hex_numeral(n / 16) + seq![hex_lower((n % 16) as int)]
    }
}

/// The decimal numeral of `n`, without leading zeros.
pub open spec fn decimal_numeral(n: nat) -> Seq<char>
    decreases n,
{
    if n < 10 {
        seq![hex_lower(n as int)]
    } else {
        decimal_numeral(n / 10) + seq![hex_lower((n % 10) as int)]
    }
}

/// Relies on percent_encoding::percent_encode_byte: `%` and the byte's two
/// upper-case hexadecimal digits.
#[verifier::external_body]
fn escape_byte(b: u8) -> (r: &'static str)
    ensures
        r@ == escaped(b),
{
    percent_encoding::percent_encode_byte(b)
}

/// Relies on String::push: appends one character.
#[verifier::external_body]
fn push_char(s: &mut String, c: char)
    ensures
        final(s)@ == old(s)@.push(c),
{
    s.push(c)
}

fn is_unreserved_byte(b: u8) -> (r: bool)
    ensures
        r == is_unreserved(b),
{
    (0x30 <= b && b <= 0x39) || (0x41 <= b && b <= 0x5a) || (0x61 <= b && b <= 0x7a) || b == 0x2d
        || b == 0x2e || b == 0x5f || b == 0x7e
}

/// Percent-encodes `value` for OAuth: every byte of its UTF-8 form but the
/// unreserved ones becomes `%XX`.
pub fn encode(value: &str) -> (r: String)
    ensures
        r@ == oauth_encode(value@),
{
    let bytes = value.as_bytes_vec();
    let mut out = String::new();
    let mut i: usize = 0;
    while i < bytes.len()
        invariant
            i <= bytes@.len(),
            bytes@ == encode_utf8(value@),
            out@ == percent_encode_bytes(bytes@.subrange(0, i as int)),
        decreases bytes@.len() - i,
    {
        let b = bytes[i];
        if is_unreserved_byte(b) {
            push_char(&mut out, b as char);
        } else {
            out.append(escape_byte(b));
        }
        proof {
            assert(bytes@.subrange(0, i + 1).drop_last() =~= bytes@.subrange(0, i as int));
        }
        i = i + 1;
    }
    proof {
        assert(bytes@.subrange(0, bytes@.len() as int) =~= bytes@);
    }
    out
}

fn digit_char(d: u64) -> (c: char)
    requires
        d < 16,
    ensures
        c == hex_lower(d as int),
{
    if d < 10 {
        ((d + 48) as u8) as char
    } else {
        ((d + 87) as u8) as char
    }
}

fn push_hex(out: &mut String, n: u64)
    ensures
        final(out)@ == old(out)@ + hex_numeral(n as nat),
    decreases n,
{
    if n >= 16 {
        push_hex(out, n / 16);
    }
    push_char(out, digit_char(n % 16));
}

fn push_decimal(out: &mut String, n: u64)
    ensures
        final(out)@ == old(out)@ + decimal_numeral(n as nat),
    decreases n,
{
    if n >= 10 {
        push_decimal(out, n / 10);
    }
    push_char(out, digit_char(n % 10));
}

/// The lower-case hexadecimal numeral of `n`, as the nonce is written.
pub fn hex_string(n: u64) -> (r: String)
    ensures
        r@ == hex_numeral(n as nat),
{
    let mut out = String::new();
    push_hex(&mut out, n);
    out
}

/// The decimal numeral of `n`, as the timestamp is written.
pub fn decimal_string(n: u64) -> (r: String)
    ensures
        r@ == decimal_numeral(n as nat),
{
    let mut out = String::new();
    push_decimal(&mut out, n);
    out
}


/// `a` comes strictly before `b` in code-point order, as Rust orders strings.
pub open spec fn text_lt(a: Seq<char>, b: Seq<char>) -> bool
    decreases a.len(),
{
    if a.len() == 0 {
        b.len() > 0
    } else if b.len() == 0 {
        false
    } else if a[0] != b[0] {
        (a[0] as int) < (b[0] as int)
    } else {
        text_lt(a.drop_first(), b.drop_first())
    }
}

proof fn lemma_text_lt_irreflexive(a: Seq<char>)
    ensures
        !text_lt(a, a),
    decreases a.len(),
{
    if a.len() > 0 {
        lemma_text_lt_irreflexive(a.drop_first());
    }
}

proof fn lemma_text_lt_total(a: Seq<char>, b: Seq<char>)
    requires
        a != b,
    ensures
        text_lt(a, b) || text_lt(b, a),
    decreases a.len(),
{
    if a.len() > 0 && b.len() > 0 && a[0] == b[0] {
        if a.drop_first() == b.drop_first() {
            assert(a =~= seq![a[0]] + a.drop_first());
            assert(b =~= seq![b[0]] + b.drop_first());
        }
        lemma_text_lt_total(a.drop_first(), b.drop_first());
    } else if a.len() > 0 && b.len() > 0 {
        assert((a[0] as int) != (b[0] as int));
    } else if a.len() == 0 && b.len() == 0 {
        assert(a =~= b);
    }
}

/// With a common prefix of length `i`, the order is decided by the rest.
proof fn lemma_text_lt_skip(a: Seq<char>, b: Seq<char>, i: int)
    requires
        0 <= i <= a.len(),
        i <= b.len(),
        a.subrange(0, i) == b.subrange(0, i),
    ensures
        text_lt(a, b) == text_lt(a.subrange(i, a.len() as int), b.subrange(i, b.len() as int)),
    decreases i,
{
    if i > 0 {
        assert(a[0] == a.subrange(0, i)[0]);
        assert(b[0] == b.subrange(0, i)[0]);
        assert(a.drop_first().subrange(0, i - 1) =~= a.subrange(0, i).drop_first());
        assert(b.drop_first().subrange(0, i - 1) =~= b.subrange(0, i).drop_first());
        lemma_text_lt_skip(a.drop_first(), b.drop_first(), i - 1);
        assert(a.drop_first().subrange(i - 1, a.len() - 1) =~= a.subrange(i, a.len() as int));
        assert(b.drop_first().subrange(i - 1, b.len() - 1) =~= b.subrange(i, b.len() as int));
    } else {
        assert(a.subrange(0, a.len() as int) =~= a);
        assert(b.subrange(0, b.len() as int) =~= b);
    }
}

/// Whether `a` comes strictly before `b` in code-point order.
pub fn str_lt(a: &str, b: &str) -> (r: bool)
    ensures
        r == text_lt(a@, b@),
{
    let la = a.unicode_len();
    let lb = b.unicode_len();
    let mut i: usize = 0;
    while i < la && i < lb
        invariant
            la == a@.len(),
            lb == b@.len(),
            i <= la,
            i <= lb,
            a@.subrange(0, i as int) == b@.subrange(0, i as int),
        decreases la - i,
    {
        let ca = a.get_char(i);
        let cb = b.get_char(i);
        if ca != cb {
            proof {
                lemma_text_lt_skip(a@, b@, i as int);
                let ra = a@.subrange(i as int, a@.len() as int);
                assert(ra[0] == ca);
                assert(b@.subrange(i as int, b@.len() as int)[0] == cb);
            }
            return (ca as u32) < (cb as u32);
        }
        proof {
            assert(a@.subrange(0, i + 1) =~= a@.subrange(0, i as int).push(ca));
            assert(b@.subrange(0, i + 1) =~= b@.subrange(0, i as int).push(cb));
        }
        i = i + 1;
    }
    proof {
        lemma_text_lt_skip(a@, b@, i as int);
    }
    i == la && i < lb
}

/// A parameter list as text pairs.
pub open spec fn pairs_view(ps: Seq<(String, String)>) -> Seq<(Seq<char>, Seq<char>)> {
    ps.map_values(|p: (String, String)| (p.0@, p.1@))
}

/// Sets `k` to `v` in a key-ordered list: replaces the pair of key `k`, or
/// puts a new pair before the first greater key.
pub open spec fn sorted_insert(
    ps: Seq<(Seq<char>, Seq<char>)>,
    k: Seq<char>,
    v: Seq<char>,
) -> Seq<(Seq<char>, Seq<char>)>
    decreases ps.len(),
{
    if ps.len() == 0 {
        seq![(k, v)]
    } else if ps[0].0 == k {
        seq![(k, v)] + ps.drop_first()
    } else if text_lt(k, ps[0].0) {
        seq![(k, v)] + ps
    } else {
        seq![ps[0]] + sorted_insert(ps.drop_first(), k, v)
    }
}

/// Sets each pair of `extra` in turn, the later of two equal keys winning.
pub open spec fn sorted_insert_all(
    ps: Seq<(Seq<char>, Seq<char>)>,
    extra: Seq<(Seq<char>, Seq<char>)>,
) -> Seq<(Seq<char>, Seq<char>)>
    decreases extra.len(),
{
    if extra.len() == 0 {
        ps
    } else {
        sorted_insert(sorted_insert_all(ps, extra.drop_last()), extra.last().0, extra.last().1)
    }
}

proof fn lemma_sorted_insert_split(
    ps: Seq<(Seq<char>, Seq<char>)>,
    k: Seq<char>,
    v: Seq<char>,
    i: int,
)
    requires
        0 <= i <= ps.len(),
        forall|j: int| 0 <= j < i ==> text_lt(#[trigger] ps[j].0, k),
    ensures
        sorted_insert(ps, k, v) == ps.subrange(0, i) + sorted_insert(
            ps.subrange(i, ps.len() as int),
            k,
            v,
        ),
    decreases i,
{
    if i == 0 {
        assert(ps.subrange(0, ps.len() as int) =~= ps);
        assert(ps.subrange(0, 0) + sorted_insert(ps, k, v) =~= sorted_insert(ps, k, v));
    } else {
        let t = ps.drop_first();
        assert(text_lt(ps[0].0, k));
        lemma_text_lt_irreflexive(k);
        assert(ps[0].0 != k);
        if text_lt(k, ps[0].0) {
            lemma_text_lt_asym(k, ps[0].0);
        }
        assert forall|j: int| 0 <= j < i - 1 implies text_lt(#[trigger] t[j].0, k) by {
            assert(t[j] == ps[j + 1]);
        }
        lemma_sorted_insert_split(t, k, v, i - 1);
        assert(t.subrange(i - 1, t.len() as int) =~= ps.subrange(i, ps.len() as int));
        assert(seq![ps[0]] + t.subrange(0, i - 1) =~= ps.subrange(0, i));
        assert(seq![ps[0]] + (t.subrange(0, i - 1) + sorted_insert(ps.subrange(i, ps.len() as int), k, v))
            =~= ps.subrange(0, i) + sorted_insert(ps.subrange(i, ps.len() as int), k, v));
    }
}

proof fn lemma_text_lt_asym(a: Seq<char>, b: Seq<char>)
    requires
        text_lt(a, b),
    ensures
        !text_lt(b, a),
    decreases a.len(),
{
    if a.len() > 0 && b.len() > 0 && a[0] == b[0] {
        lemma_text_lt_asym(a.drop_first(), b.drop_first());
    }
}

/// Sets `k` to `v` in the key-ordered list `ps`.
pub fn insert_param(ps: &mut Vec<(String, String)>, k: String, v: String)
    ensures
        pairs_view(final(ps)@) == sorted_insert(pairs_view(old(ps)@), k@, v@),
{
    let ghost start = pairs_view(ps@);
    let mut i: usize = 0;
    while i < ps.len() && str_lt(ps[i].0.as_str(), k.as_str())
        invariant
            i <= ps@.len(),
            pairs_view(ps@) == start,
            forall|j: int| 0 <= j < i ==> text_lt(#[trigger] start[j].0, k@),
        decreases ps@.len() - i,
    {
        i = i + 1;
    }
    proof {
        lemma_sorted_insert_split(start, k@, v@, i as int);
    }
    let ghost rest = start.subrange(i as int, start.len() as int);
    let ghost kv = k@;
    let ghost vv = v@;
    if i < ps.len() && ps[i].0 == k {
        ps.set(i, (k, v));
        proof {
            assert(rest[0].0 == kv);
            assert(pairs_view(ps@) =~= start.subrange(0, i as int) + (seq![(kv, vv)] + rest.drop_first()));
        }
    } else {
        proof {
            if i < start.len() {
                assert(rest[0].0 != kv);
                lemma_text_lt_total(rest[0].0, kv);
                assert(text_lt(kv, rest[0].0));
                assert(sorted_insert(rest, kv, vv) == seq![(kv, vv)] + rest);
            } else {
                assert(rest.len() == 0);
            }
        }
        ps.insert(i, (k, v));
        proof {
            assert(pairs_view(ps@) =~= start.subrange(0, i as int) + (seq![(kv, vv)] + rest));
        }
    }
}


/// ASCII upper case of one character; other characters stay.
pub open spec fn upper_char(c: char) -> char {
    if 97 <= (c as int) <= 122 {
        (((c as int) - 32) as u8) as char
    } else {
        c
    }
}

/// ASCII upper case of a text.
pub open spec fn upper(s: Seq<char>) -> Seq<char> {
    s.map_values(|c: char| upper_char(c))
}

/// `k=v`, both percent-encoded.
pub open spec fn pair_text(p: (Seq<char>, Seq<char>)) -> Seq<char> {
    oauth_encode(p.0) + seq!['='] + oauth_encode(p.1)
}

/// The pairs as `k=v`, joined by `&`, in list order.
pub open spec fn joined_params(ps: Seq<(Seq<char>, Seq<char>)>) -> Seq<char>
    decreases ps.len(),
{
    if ps.len() == 0 {
        Seq::empty()
    } else if ps.len() == 1 {
        pair_text(ps[0])
    } else {
        joined_params(ps.drop_last()) + seq!['&'] + pair_text(ps.last())
    }
}

/// The signature base string: upper-case method, encoded URL and encoded
/// parameter string, joined by `&`.
pub open spec fn signature_base_string(
    method: Seq<char>,
    url: Seq<char>,
    ps: Seq<(Seq<char>, Seq<char>)>,
) -> Seq<char> {
    upper(method) + seq!['&'] + oauth_encode(url) + seq!['&'] + oauth_encode(joined_params(ps))
}

/// The HMAC key: the two encoded secrets joined by `&`.
pub open spec fn signing_key_text(consumer_secret: Seq<char>, token_secret: Seq<char>) -> Seq<
    char,
> {
    oauth_encode(consumer_secret) + seq!['&'] + oauth_encode(token_secret)
}

/// HMAC-SHA1 of `message` under `key`.
pub uninterp spec fn hmac_sha1(key: Seq<u8>, message: Seq<u8>) -> Seq<u8>;

/// Standard, padded base64 of `bytes`.
pub uninterp spec fn base64_standard(bytes: Seq<u8>) -> Seq<char>;

/// The OAuth1 signature of a request.
pub open spec fn signature_text(
    method: Seq<char>,
    url: Seq<char>,
    ps: Seq<(Seq<char>, Seq<char>)>,
    consumer_secret: Seq<char>,
    token_secret: Seq<char>,
) -> Seq<char> {
    base64_standard(
        hmac_sha1(
            encode_utf8(signing_key_text(consumer_secret, token_secret)),
            encode_utf8(signature_base_string(method, url, ps)),
        ),
    )
}

/// Whether a key starts with `oauth_`.
pub open spec fn is_oauth_key(k: Seq<char>) -> bool {
    k.len() >= 6 && k.subrange(0, 6) == seq!['o', 'a', 'u', 't', 'h', '_']
}

/// `k="v"`, both percent-encoded.
pub open spec fn header_pair(p: (Seq<char>, Seq<char>)) -> Seq<char> {
    oauth_encode(p.0) + seq!['=', '"'] + oauth_encode(p.1) + seq!['"']
}

/// The `oauth_` pairs as `k="v"`, joined by `, `, in list order.
pub open spec fn header_params(ps: Seq<(Seq<char>, Seq<char>)>) -> Seq<char>
    decreases ps.len(),
{
    if ps.len() == 0 {
        Seq::empty()
    } else {
        let rest = header_params(ps.drop_last());
        if !is_oauth_key(ps.last().0) {
            rest
        } else if rest.len() == 0 {
            header_pair(ps.last())
        } else {
            rest + seq![',', ' '] + header_pair(ps.last())
        }
    }
}

/// The header value: `OAuth ` and the `oauth_` pairs.
pub open spec fn header_text(ps: Seq<(Seq<char>, Seq<char>)>) -> Seq<char> {
    seq!['O', 'A', 'u', 't', 'h', ' '] + header_params(ps)
}

/// The signing parameters before the signature: the six `oauth_` pairs in
/// key order, then each extra pair set in turn.
pub open spec fn signing_params(
    creds: OAuth1Model,
    nonce: Seq<char>,
    timestamp: Seq<char>,
    extra: Seq<(Seq<char>, Seq<char>)>,
) -> Seq<(Seq<char>, Seq<char>)> {
    sorted_insert_all(
        seq![
            ("oauth_consumer_key"@, creds.consumer_key),
            ("oauth_nonce"@, nonce),
            ("oauth_signature_method"@, "HMAC-SHA1"@),
            ("oauth_timestamp"@, timestamp),
            ("oauth_token"@, creds.access_token),
            ("oauth_version"@, "1.0"@),
        ],
        extra,
    )
}

/// The signed `Authorization` header of a request, for a given nonce and
/// timestamp.
pub open spec fn oauth1_header_text(
    method: Seq<char>,
    url: Seq<char>,
    creds: OAuth1Model,
    nonce: Seq<char>,
    timestamp: Seq<char>,
    extra: Seq<(Seq<char>, Seq<char>)>,
) -> Seq<char> {
    let ps = signing_params(creds, nonce, timestamp, extra);
    let sig = signature_text(method, url, ps, creds.consumer_secret, creds.token_secret);
    header_text(sorted_insert(ps, "oauth_signature"@, sig))
}

/// Relies on hmac's `Hmac<Sha1>` (`new_from_slice`, `update`, `finalize`): the
/// HMAC-SHA1 of `message` under `key`, 20 bytes as SHA-1's output size.
/// `new_from_slice` accepts a key of any length, so the `expect` never fires.
#[verifier::external_body]
fn hmac_sha1_digest(key: &[u8], message: &[u8]) -> (r: Vec<u8>)
    ensures
        r@ == hmac_sha1(key@, message@),
        r@.len() == 20,
{
    let mut mac = hmac::Hmac::<sha1::Sha1>::new_from_slice(key).expect("any key length");
    mac.update(message);
    mac.finalize().into_bytes().to_vec()
}

/// Relies on base64's `STANDARD.encode`: padded standard base64. It panics only
/// when the output length overflows `usize`, which the bound rules out.
#[verifier::external_body]
fn base64_encode(bytes: &[u8]) -> (r: String)
    requires
        bytes@.len() <= 0x1000_0000,
    ensures
        r@ == base64_standard(bytes@),
{
    base64::engine::general_purpose::STANDARD.encode(bytes)
}

fn upper_ascii(c: char) -> (r: char)
    ensures
        r == upper_char(c),
{
    if 97 <= (c as u32) && (c as u32) <= 122 {
        (((c as u32) - 32) as u8) as char
    } else {
        c
    }
}

/// Appends the ASCII upper case of `s`.
fn push_upper(out: &mut String, s: &str)
    ensures
        final(out)@ == old(out)@ + upper(s@),
{
    let n = s.unicode_len();
    let ghost start = out@;
    let mut i: usize = 0;
    while i < n
        invariant
            n == s@.len(),
            i <= n,
            out@ == start + upper(s@.subrange(0, i as int)),
        decreases n - i,
    {
        let c = s.get_char(i);
        push_char(out, upper_ascii(c));
        proof {
            assert(upper(s@.subrange(0, i + 1)) =~= upper(s@.subrange(0, i as int)).push(upper_char(c)));
        }
        i = i + 1;
    }
    proof {
        assert(s@.subrange(0, n as int) =~= s@);
    }
}

/// The parameters as `k=v`, percent-encoded and joined by `&`.
pub fn parameter_string(params: &Vec<(String, String)>) -> (r: String)
    ensures
        r@ == joined_params(pairs_view(params@)),
{
    let mut out = String::new();
    let mut i: usize = 0;
    while i < params.len()
        invariant
            i <= params@.len(),
            out@ == joined_params(pairs_view(params@.subrange(0, i as int))),
        decreases params@.len() - i,
    {
        let ghost before = out@;
        if i > 0 {
            push_char(&mut out, '&');
        }
        let k = encode(params[i].0.as_str());
        let v = encode(params[i].1.as_str());
        out.append(k.as_str());
        push_char(&mut out, '=');
        out.append(v.as_str());
        proof {
            let pv = pairs_view(params@.subrange(0, i + 1));
            assert(pv.drop_last() =~= pairs_view(params@.subrange(0, i as int)));
            assert(pv.last() == (params@[i as int].0@, params@[i as int].1@));
            if i == 0 {
                assert(out@ =~= pair_text(pv[0]));
            } else {
                assert(out@ =~= before + seq!['&'] + pair_text(pv.last()));
            }
        }
        i = i + 1;
    }
    proof {
        assert(params@.subrange(0, params@.len() as int) =~= params@);
    }
    out
}

/// The signature base string of a request with the given ordered parameters.
pub fn base_string(method: &str, url: &str, params: &Vec<(String, String)>) -> (r: String)
    ensures
        r@ == signature_base_string(method@, url@, pairs_view(params@)),
{
    let mut out = String::new();
    push_upper(&mut out, method);
    push_char(&mut out, '&');
    let u = encode(url);
    out.append(u.as_str());
    push_char(&mut out, '&');
    let ps = parameter_string(params);
    let e = encode(ps.as_str());
    out.append(e.as_str());
    proof {
        assert(out@ =~= signature_base_string(method@, url@, pairs_view(params@)));
    }
    out
}

/// The HMAC key made of the two secrets.
pub fn signing_key(consumer_secret: &str, token_secret: &str) -> (r: String)
    ensures
        r@ == signing_key_text(consumer_secret@, token_secret@),
{
    let mut out = encode(consumer_secret);
    push_char(&mut out, '&');
    let t = encode(token_secret);
    out.append(t.as_str());
    proof {
        assert(out@ =~= signing_key_text(consumer_secret@, token_secret@));
    }
    out
}

/// The base64 HMAC-SHA1 signature of a request.
pub fn generate_signature(
    method: &str,
    url: &str,
    params: &Vec<(String, String)>,
    consumer_secret: &str,
    token_secret: &str,
) -> (r: String)
    ensures
        r@ == signature_text(method@, url@, pairs_view(params@), consumer_secret@, token_secret@),
{
    let base = base_string(method, url, params);
    let key = signing_key(consumer_secret, token_secret);
    let key_bytes = key.as_str().as_bytes_vec();
    let base_bytes = base.as_str().as_bytes_vec();
    let digest = hmac_sha1_digest(key_bytes.as_slice(), base_bytes.as_slice());
    base64_encode(digest.as_slice())
}


/// Whether `k` starts with `oauth_`.
fn has_oauth_prefix(k: &str) -> (r: bool)
    ensures
        r == is_oauth_key(k@),
{
    let n = k.unicode_len();
    if n < 6 {
        return false;
    }
    let r = k.get_char(0) == 'o' && k.get_char(1) == 'a' && k.get_char(2) == 'u' && k.get_char(3)
        == 't' && k.get_char(4) == 'h' && k.get_char(5) == '_';
    proof {
        if r {
            assert(k@.subrange(0, 6) =~= seq!['o', 'a', 'u', 't', 'h', '_']);
        } else {
            if k@.subrange(0, 6) == seq!['o', 'a', 'u', 't', 'h', '_'] {
                assert(k@[0] == k@.subrange(0, 6)[0]);
                assert(k@[1] == k@.subrange(0, 6)[1]);
                assert(k@[2] == k@.subrange(0, 6)[2]);
                assert(k@[3] == k@.subrange(0, 6)[3]);
                assert(k@[4] == k@.subrange(0, 6)[4]);
                assert(k@[5] == k@.subrange(0, 6)[5]);
            }
        }
    }
    r
}

/// The `Authorization` header value for the given ordered parameters: `OAuth `
/// and the `oauth_` pairs as `k="v"`, joined by `, `.
pub fn authorization_header(params: &Vec<(String, String)>) -> (r: String)
    ensures
        r@ == header_text(pairs_view(params@)),
{
    let mut pairs = String::new();
    let mut any = false;
    let mut i: usize = 0;
    while i < params.len()
        invariant
            i <= params@.len(),
            pairs@ == header_params(pairs_view(params@.subrange(0, i as int))),
            any == (pairs@.len() > 0),
        decreases params@.len() - i,
    {
        let ghost before = pairs@;
        let ghost pv = pairs_view(params@.subrange(0, i + 1));
        proof {
            assert(pv.drop_last() =~= pairs_view(params@.subrange(0, i as int)));
            assert(pv.last() == (params@[i as int].0@, params@[i as int].1@));
        }
        if has_oauth_prefix(params[i].0.as_str()) {
            if any {
                push_char(&mut pairs, ',');
                push_char(&mut pairs, ' ');
            }
            let k = encode(params[i].0.as_str());
            let v = encode(params[i].1.as_str());
            pairs.append(k.as_str());
            push_char(&mut pairs, '=');
            push_char(&mut pairs, '"');
            pairs.append(v.as_str());
            push_char(&mut pairs, '"');
            any = true;
            proof {
                if before.len() == 0 {
                    assert(pairs@ =~= header_pair(pv.last()));
                } else {
                    assert(pairs@ =~= before + seq![',', ' '] + header_pair(pv.last()));
                }
            }
        }
        i = i + 1;
    }
    proof {
        assert(params@.subrange(0, params@.len() as int) =~= params@);
    }
    let mut out = String::from_str("OAuth ");
    proof {
        reveal_strlit("OAuth ");
        assert(out@ =~= seq!['O', 'A', 'u', 't', 'h', ' ']);
    }
    out.append(pairs.as_str());
    out
}

/// The signed `Authorization` header of a request under the credential set
/// `creds`, with the given nonce and timestamp and the extra signing
/// parameters `extra` (set in turn, the later of two equal keys winning).
pub fn sign_request(
    method: &str,
    url: &str,
    creds: &OAuth1Token,
    nonce: &str,
    timestamp: &str,
    extra: &Vec<(String, String)>,
) -> (r: String)
    ensures
        r@ == oauth1_header_text(method@, url@, creds@, nonce@, timestamp@, pairs_view(extra@)),
{
    let mut params: Vec<(String, String)> = Vec::new();
    params.push((String::from_str("oauth_consumer_key"), creds.consumer_key.clone()));
    params.push((String::from_str("oauth_nonce"), nonce.to_owned()));
    params.push((String::from_str("oauth_signature_method"), String::from_str("HMAC-SHA1")));
    params.push((String::from_str("oauth_timestamp"), timestamp.to_owned()));
    params.push((String::from_str("oauth_token"), creds.access_token.clone()));
    params.push((String::from_str("oauth_version"), String::from_str("1.0")));
    let ghost base = pairs_view(params@);
    proof {
        assert(base =~= seq![
            ("oauth_consumer_key"@, creds@.consumer_key),
            ("oauth_nonce"@, nonce@),
            ("oauth_signature_method"@, "HMAC-SHA1"@),
            ("oauth_timestamp"@, timestamp@),
            ("oauth_token"@, creds@.access_token),
            ("oauth_version"@, "1.0"@),
        ]);
    }
    let mut i: usize = 0;
    while i < extra.len()
        invariant
            i <= extra@.len(),
            pairs_view(params@) == sorted_insert_all(base, pairs_view(extra@).subrange(0, i as int)),
        decreases extra@.len() - i,
    {
        insert_param(&mut params, extra[i].0.clone(), extra[i].1.clone());
        proof {
            let ev = pairs_view(extra@);
            assert(ev.subrange(0, i + 1).drop_last() =~= ev.subrange(0, i as int));
        }
        i = i + 1;
    }
    proof {
        assert(pairs_view(extra@).subrange(0, extra@.len() as int) =~= pairs_view(extra@));
    }
    let sig = generate_signature(
        method,
        url,
        &params,
        creds.consumer_secret.as_str(),
        creds.token_secret.as_str(),
    );
    insert_param(&mut params, String::from_str("oauth_signature"), sig);
    authorization_header(&params)
}


/// Signing is a function of its inputs: with the same request, credentials,
/// nonce, timestamp and extra parameters, two headers are the same.
pub proof fn law_signing_deterministic(
    method: Seq<char>,
    url: Seq<char>,
    creds: OAuth1Model,
    nonce: Seq<char>,
    timestamp: Seq<char>,
    extra: Seq<(Seq<char>, Seq<char>)>,
    first: Seq<char>,
    second: Seq<char>,
)
    requires
        first == oauth1_header_text(method, url, creds, nonce, timestamp, extra),
        second == oauth1_header_text(method, url, creds, nonce, timestamp, extra),
    ensures
        first == second,
{
}

} // verus!
