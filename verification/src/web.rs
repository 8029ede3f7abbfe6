//! Encodings of the web: percent-encoding, base64, HTML entities, URLs and
//! random URL keys, each done by the crate the bot uses for it.
use vstd::prelude::*;
use vstd::utf8::{valid_utf8, decode_utf8, encode_utf8};
use crate::text::push_char;
use base64::Engine;

verus! {

/// A byte that percent-encoding leaves as it is: ASCII alphanumerics and `- . _ ~`.
pub open spec fn unreserved(b: u8) -> bool {
    (48 <= b && b <= 57) || (65 <= b && b <= 90) || (97 <= b && b <= 122) || b == 45 || b == 46
        || b == 95 || b == 126
}

/// An upper-case hexadecimal digit.
pub open spec fn hex_digit(d: nat) -> char {
    if d < 10 {
        (48 + d) as char
    } else {
        (55 + d) as char
    }
}

/// Percent-encoding of a byte string: unreserved bytes as themselves, every
/// other byte as `%` and two upper-case hexadecimal digits.
pub open spec fn percent_encoded(bytes: Seq<u8>) -> Seq<char>
    decreases bytes.len(),
{
    if bytes.len() == 0 {
        Seq::empty()
    } else {
        let b = bytes.last();
        percent_encoded(bytes.drop_last()) + if unreserved(b) {
            seq![b as char]
        } else {
            seq!['%', hex_digit(b as nat / 16), hex_digit(b as nat % 16)]
        }
    }
}

/// `urlencoding::encode`: percent-encodes the UTF-8 bytes of `s`, all but
/// ASCII alphanumerics and `- . _ ~`, with upper-case hexadecimal digits.
#[verifier::external_body]
pub(crate) fn url_encode(s: &str) -> (r: String)
    ensures
        r@ == percent_encoded(encode_utf8(s@)),
{
    urlencoding::encode(s).into_owned()
}

/// The character of a 6-bit value in the standard base64 alphabet.
pub open spec fn b64_char(v: nat) -> char {
    if v < 26 {
        (65 + v) as char
    } else if v < 52 {
        (71 + v) as char
    } else if v < 62 {
        (v - 4) as char
    } else if v == 62 {
        '+'
    } else {
        '/'
    }
}

/// Standard base64 with `=` padding (RFC 4648).
pub open spec fn base64_spec(b: Seq<u8>) -> Seq<char>
    decreases b.len(),
{
    if b.len() == 0 {
        Seq::empty()
    } else if b.len() == 1 {
        seq![b64_char(b[0] as nat / 4), b64_char((b[0] as nat % 4) * 16), '=', '=']
    } else if b.len() == 2 {
        seq![
            b64_char(b[0] as nat / 4),
            b64_char((b[0] as nat % 4) * 16 + b[1] as nat / 16),
            b64_char((b[1] as nat % 16) * 4),
            '=',
        ]
    } else {
        seq![
            b64_char(b[0] as nat / 4),
            b64_char((b[0] as nat % 4) * 16 + b[1] as nat / 16),
            b64_char((b[1] as nat % 16) * 4 + b[2] as nat / 64),
            b64_char(b[2] as nat % 64),
        ] + base64_spec(b.subrange(3, b.len() as int))
    }
}

/// `s` is the standard base64 encoding of some byte string.
pub open spec fn base64_text(s: Seq<char>) -> bool {
    exists|b: Seq<u8>| #[trigger] base64_spec(b) == s
}

/// The byte string whose standard base64 encoding is `s`.
pub open spec fn base64_bytes(s: Seq<char>) -> Seq<u8> {
    choose|b: Seq<u8>| #[trigger] base64_spec(b) == s
}

proof fn lemma_b64_char_injective(x: nat, y: nat)
    requires
        x < 64,
        y < 64,
        b64_char(x) == b64_char(y),
    ensures
        x == y,
{
    assert(b64_char(x) as int == b64_char(y) as int);
}

proof fn lemma_b64_char_not_pad(x: nat)
    requires
        x < 64,
    ensures
        b64_char(x) != '=',
{
    assert(b64_char(x) as int != '=' as int);
}

/// Distinct byte strings have distinct encodings.
pub proof fn lemma_base64_injective(a: Seq<u8>, b: Seq<u8>)
    requires
        base64_spec(a) == base64_spec(b),
    ensures
        a == b,
    decreases a.len(),
{
    let ea = base64_spec(a);
    let eb = base64_spec(b);
    if a.len() == 0 || b.len() == 0 {
        if a.len() != 0 {
            assert(ea.len() > 0);
        }
        if b.len() != 0 {
            assert(eb.len() > 0);
        }
        assert(a =~= b);
        return;
    }
    let a0 = a[0] as nat;
    let b0 = b[0] as nat;
    assert(ea[0] == eb[0]);
    assert(ea[1] == eb[1]);
    lemma_b64_char_injective(a0 / 4, b0 / 4);
    if a.len() == 1 || b.len() == 1 {
        if a.len() >= 2 {
            lemma_b64_char_not_pad(((a[1] as nat) % 16) * 4 + if a.len() >= 3 { a[2] as nat / 64 } else { 0 });
            assert(false);
        }
        if b.len() >= 2 {
            lemma_b64_char_not_pad(((b[1] as nat) % 16) * 4 + if b.len() >= 3 { b[2] as nat / 64 } else { 0 });
            assert(false);
        }
        lemma_b64_char_injective((a0 % 4) * 16, (b0 % 4) * 16);
        assert(a0 == b0) by (nonlinear_arith)
            requires
                a0 < 256,
                b0 < 256,
                a0 / 4 == b0 / 4,
                (a0 % 4) * 16 == (b0 % 4) * 16,
        ;
        assert(a =~= b);
        return;
    }
    let a1 = a[1] as nat;
    let b1 = b[1] as nat;
    lemma_b64_char_injective((a0 % 4) * 16 + a1 / 16, (b0 % 4) * 16 + b1 / 16);
    assert(a0 == b0 && a1 / 16 == b1 / 16) by (nonlinear_arith)
        requires
            a0 < 256,
            b0 < 256,
            a1 < 256,
            b1 < 256,
            a0 / 4 == b0 / 4,
            (a0 % 4) * 16 + a1 / 16 == (b0 % 4) * 16 + b1 / 16,
    ;
    assert(ea[2] == eb[2]);
    assert(ea[3] == eb[3]);
    if a.len() == 2 || b.len() == 2 {
        if a.len() >= 3 {
            lemma_b64_char_not_pad(a[2] as nat % 64);
            assert(false);
        }
        if b.len() >= 3 {
            lemma_b64_char_not_pad(b[2] as nat % 64);
            assert(false);
        }
        lemma_b64_char_injective((a1 % 16) * 4, (b1 % 16) * 4);
        assert(a1 == b1) by (nonlinear_arith)
            requires
                a1 < 256,
                b1 < 256,
                a1 / 16 == b1 / 16,
                (a1 % 16) * 4 == (b1 % 16) * 4,
        ;
        assert(a =~= b);
        return;
    }
    let a2 = a[2] as nat;
    let b2 = b[2] as nat;
    lemma_b64_char_injective((a1 % 16) * 4 + a2 / 64, (b1 % 16) * 4 + b2 / 64);
    lemma_b64_char_injective(a2 % 64, b2 % 64);
    assert(a1 == b1 && a2 == b2) by (nonlinear_arith)
        requires
            a1 < 256,
            b1 < 256,
            a2 < 256,
            b2 < 256,
            a1 / 16 == b1 / 16,
            (a1 % 16) * 4 + a2 / 64 == (b1 % 16) * 4 + b2 / 64,
            a2 % 64 == b2 % 64,
    ;
    let ra = a.subrange(3, a.len() as int);
    let rb = b.subrange(3, b.len() as int);
    assert(base64_spec(ra) =~= ea.subrange(4, ea.len() as int));
    assert(base64_spec(rb) =~= eb.subrange(4, eb.len() as int));
    lemma_base64_injective(ra, rb);
    assert(a.len() == b.len());
    assert forall|i: int| 0 <= i < a.len() implies a[i] == b[i] by {
        if i >= 3 {
            assert(a[i] == ra[i - 3]);
            assert(b[i] == rb[i - 3]);
        } else if i == 0 {
            assert(a[0] as nat == a0);
        } else if i == 1 {
            assert(a[1] as nat == a1);
        } else {
            assert(a[2] as nat == a2);
        }
    }
    assert(a =~= b);
}

/// Base64-encodes the UTF-8 bytes of `s` with the standard engine of the
/// `base64` crate (standard alphabet, with padding).
#[verifier::external_body]
pub(crate) fn base64_encode(s: &str) -> (r: String)
    ensures
        r@ == base64_spec(encode_utf8(s@)),
{
    base64::engine::general_purpose::STANDARD.encode(s)
}

/// Decodes `s` with the standard engine of the `base64` crate. That engine
/// requires canonical padding and rejects set trailing bits, so it accepts
/// exactly the texts its encoder produces: `Some(b)` where `s` is the
/// encoding of `b`, `None` where `s` is the encoding of no byte string.
#[verifier::external_body]
pub(crate) fn base64_decode(s: &str) -> (r: Option<Vec<u8>>)
    ensures
        r is Some <==> base64_text(s@),
        r matches Some(b) ==> base64_spec(b@) == s@,
{
    base64::engine::general_purpose::STANDARD.decode(s).ok()
}

/// `String::from_utf8`: the text of a byte string when it is valid UTF-8.
#[verifier::external_body]
pub(crate) fn utf8_text(bytes: Vec<u8>) -> (r: Option<String>)
    ensures
        r is Some <==> valid_utf8(bytes@),
        r matches Some(s) ==> s@ == decode_utf8(bytes@),
{
    String::from_utf8(bytes).ok()
}

/// What `html_escape::decode_html_entities` makes of `s`.
pub uninterp spec fn html_decoded(s: Seq<char>) -> Seq<char>;

/// Decodes the HTML character references of `s` (`html_escape::decode_html_entities`).
#[verifier::external_body]
pub(crate) fn decode_html(s: &str) -> (r: String)
    ensures
        r@ == html_decoded(s@),
{
    html_escape::decode_html_entities(s).to_string()
}

/// `url::Url::parse` succeeds on `s`.
pub uninterp spec fn url_parses(s: Seq<char>) -> bool;

/// `Url::host_str` of the URL parsed from `s`.
pub uninterp spec fn url_host(s: Seq<char>) -> Option<Seq<char>>;

/// `Url::path` of the URL parsed from `s`.
pub uninterp spec fn url_path(s: Seq<char>) -> Seq<char>;

/// `Url::port` of the URL parsed from `s` (`None` when absent or the scheme's default).
pub uninterp spec fn url_port(s: Seq<char>) -> Option<u16>;

/// The URL parsed from `url`, with the query key `key` appended
/// (`Url::query_pairs_mut().append_key_only`), serialized.
pub uninterp spec fn url_with_query_key(url: Seq<char>, key: Seq<char>) -> Seq<char>;

/// The parts of a URL the search server's address is made of: host, path and
/// explicit port; `None` when `url::Url::parse` fails.
#[verifier::external_body]
pub(crate) fn url_parts(s: &str) -> (r: Option<(Option<String>, String, Option<u16>)>)
    ensures
        r is Some <==> url_parses(s@),
        r matches Some(p) ==> (match p.0 {
            Some(h) => url_host(s@) == Some(h@),
            None => url_host(s@) is None,
        }) && p.1@ == url_path(s@) && p.2 == url_port(s@),
{
    match url::Url::parse(s) {
        Ok(u) => Some((u.host_str().map(|h| h.to_string()), u.path().to_string(), u.port())),
        Err(_) => None,
    }
}

/// Parses `url` and appends the query key `key` to it; `None` when
/// `url::Url::parse` fails.
#[verifier::external_body]
pub(crate) fn add_query_key(url: &str, key: &str) -> (r: Option<String>)
    ensures
        r is Some <==> url_parses(url@),
        r matches Some(s) ==> s@ == url_with_query_key(url@, key@),
{
    match url::Url::parse(url) {
        Ok(mut u) => {
            u.query_pairs_mut().append_key_only(key);
            Some(u.as_str().to_string())
        },
        Err(_) => None,
    }
}

pub open spec fn is_ascii_alphanumeric(c: char) -> bool {
    ('a' <= c && c <= 'z') || ('A' <= c && c <= 'Z') || ('0' <= c && c <= '9')
}

/// A random ASCII letter or digit (`fastrand::alphanumeric`).
#[verifier::external_body]
fn random_alphanumeric() -> (c: char)
    ensures
        is_ascii_alphanumeric(c),
{
    fastrand::alphanumeric()
}

/// A random key of four ASCII letters or digits.
pub fn random_key() -> (k: String)
    ensures
        k@.len() == 4,
        forall|i: int| 0 <= i < 4 ==> is_ascii_alphanumeric(#[trigger] k@[i]),
{
    let mut k = String::new();
    let mut n: usize = 0;
    while n < 4
        invariant
            n <= 4,
            k@.len() == n,
            forall|i: int| 0 <= i < n ==> is_ascii_alphanumeric(#[trigger] k@[i]),
        decreases 4 - n,
    {
        let c = random_alphanumeric();
        push_char(&mut k, c);
        n = n + 1;
    }
    k
}

} // verus!
