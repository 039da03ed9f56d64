//! The remote-address annotation of a request's log line.

use vstd::prelude::*;
use vstd::string::*;

verus! {

/// `hyper::header::HeaderValue`, the value of one header. The library
/// reads it only as text, and speaks of its bytes as `value_bytes`.
#[verifier::external_type_specification]
#[verifier::external_body]
pub struct ExHeaderValue(hyper::header::HeaderValue);

/// `hyper::HeaderMap`, the headers of a request. The library only looks
/// a name up in it, and speaks of what it finds as `first_values`.
#[verifier::external_type_specification]
#[verifier::external_body]
#[verifier::reject_recursive_types(T)]
pub struct ExHeaderMap<T>(hyper::HeaderMap<T>);

/// Whether a character is white space, as `char::is_whitespace` has it.
pub open spec fn is_space(c: char) -> bool {
    let n = c as u32;
    (0x09 <= n <= 0x0d) || n == 0x20 || n == 0x85 || n == 0xa0 || n == 0x1680 || (0x2000 <= n
        <= 0x200a) || n == 0x2028 || n == 0x2029 || n == 0x202f || n == 0x205f || n == 0x3000
}

/// The bytes of a header value.
pub uninterp spec fn value_bytes(value: hyper::header::HeaderValue) -> Seq<u8>;

/// What a header map gives for each name that is looked up in it: the bytes
/// of the first value that it holds under the name. A name under which it
/// holds no value is no key.
pub uninterp spec fn first_values(headers: hyper::HeaderMap<hyper::header::HeaderValue>) -> Map<
    Seq<char>,
    Seq<u8>,
>;

/// Whether bytes are visible ASCII characters and tabs alone.
pub open spec fn is_visible(bytes: Seq<u8>) -> bool {
    forall|i: int| 0 <= i < bytes.len() ==> (32 <= #[trigger] bytes[i] <= 126) || bytes[i] == 9
}

/// ASCII bytes as text, a character for each byte.
pub open spec fn text_of_bytes(bytes: Seq<u8>) -> Seq<char> {
    Seq::new(bytes.len(), |i: int| bytes[i] as char)
}

/// The candidate for the real remote address that the bytes of a
/// forwarding header name: the first entry of the list, where the bytes are
/// text at all.
pub open spec fn candidate(bytes: Seq<u8>) -> Option<Seq<char>> {
    if is_visible(bytes) {
        Some(forwarded_entry(text_of_bytes(bytes)))
    } else {
        None
    }
}

/// The position of the first comma of `s` at or after `i`; the length of
/// `s` where there is none.
pub open spec fn comma_from(s: Seq<char>, i: int) -> int
    decreases s.len() - i,
{
    if i >= s.len() || s[i] == ',' {
        i
    } else {
        comma_from(s, i + 1)
    }
}

/// The position of the first character of `s` in `i..n` that is no white
/// space; `n` where there is none.
pub open spec fn text_from(s: Seq<char>, i: int, n: int) -> int
    decreases n - i,
{
    if i >= n || !is_space(s[i]) {
        i
    } else {
        text_from(s, i + 1, n)
    }
}

/// The position after the last character of `s` in `a..n` that is no white
/// space; `a` where there is none.
pub open spec fn text_until(s: Seq<char>, a: int, n: int) -> int
    decreases n - a,
{
    if n <= a || !is_space(s[n - 1]) {
        n
    } else {
        text_until(s, a, n - 1)
    }
}

/// The first entry of a comma-separated list, without the white space
/// around it: what stands before the first comma, from its first character
/// that is no white space to its last.
pub open spec fn forwarded_entry(s: Seq<char>) -> Seq<char> {
    let n = comma_from(s, 0);
    let a = text_from(s, 0, n);
    let b = text_until(s, a, n);
    s.subrange(a, b)
}

/// The annotation of a log line: nothing where remote addresses are not
/// logged; else the remote address, empty where there is none, and after
/// it the real remote address where one is known.
pub open spec fn annotation(
    log_remote_address: bool,
    remote_addr: Option<Seq<char>>,
    real_remote_ip: Option<Seq<char>>,
) -> Seq<char> {
    if !log_remote_address {
        Seq::<char>::empty()
    } else {
        let head = " remote_addr="@ + match remote_addr {
            Some(addr) => addr,
            None => Seq::<char>::empty(),
        };
        match real_remote_ip {
            Some(ip) => head + " real_remote_ip="@ + ip,
            None => head,
        }
    }
}

/// The view of an optional text.
pub open spec fn text_of(s: Option<&str>) -> Option<Seq<char>> {
    match s {
        Some(t) => Some(t@),
        None => None,
    }
}

/// Reads a header value as text with `HeaderValue::to_str`, which refuses
/// a value that holds anything but visible ASCII characters and tabs, and
/// else gives the value's bytes as a string.
#[verifier::external_body]
fn header_text(value: &hyper::header::HeaderValue) -> (r: Option<String>)
    ensures
        r is Some <==> is_visible(value_bytes(*value)),
        r is Some ==> r.unwrap()@ == text_of_bytes(value_bytes(*value)),
{
    match value.to_str() {
        Ok(s) => Some(s.to_owned()),
        Err(_) => None,
    }
}

/// Looks a header up by its name with `HeaderMap::get`, which gives the
/// first value that the map holds under the name, if it holds one.
#[verifier::external_body]
fn header_value<'a>(
    headers: &'a hyper::HeaderMap<hyper::header::HeaderValue>,
    name: &str,
) -> (r: Option<&'a hyper::header::HeaderValue>)
    ensures
        r is Some <==> first_values(*headers).contains_key(name@),
        r is Some ==> value_bytes(*r.unwrap()) == first_values(*headers)[name@],
{
    headers.get(name)
}

/// Whether a character is white space.
pub fn is_whitespace(c: char) -> (r: bool)
    ensures
        r == is_space(c),
{
    let n: u32 = c as u32;
    (0x09 <= n && n <= 0x0d) || n == 0x20 || n == 0x85 || n == 0xa0 || n == 0x1680 || (0x2000 <= n
        && n <= 0x200a) || n == 0x2028 || n == 0x2029 || n == 0x202f || n == 0x205f || n == 0x3000
}

fn char_at(text: &str, ascii: bool, i: usize) -> (c: char)
    requires
        i < text@.len(),
        ascii == text.is_ascii(),
    ensures
        c == text@[i as int],
{
    if ascii {
        let b: u8 = text.get_ascii(i);
        assert('\0' <= text@[i as int] <= '\u{7f}');
        b as char
    } else {
        text.get_char(i)
    }
}

/// The first entry of a comma-separated header text, without the white
/// space around it.
pub fn first_forwarded_entry(text: &str) -> (r: String)
    ensures
        r@ == forwarded_entry(text@),
{
    let ascii: bool = text.is_ascii();
    let len: usize = text.unicode_len();
    let mut n: usize = 0;
    while n < len
        invariant
            n <= len == text@.len(),
            ascii == text.is_ascii(),
            comma_from(text@, n as int) == comma_from(text@, 0),
        ensures
            comma_from(text@, 0) == n,
        decreases len - n,
    {
        if char_at(text, ascii, n) == ',' {
            break ;
        }
        n = n + 1;
    }
    let mut a: usize = 0;
    while a < n
        invariant
            a <= n <= len == text@.len(),
            ascii == text.is_ascii(),
            text_from(text@, a as int, n as int) == text_from(text@, 0, n as int),
        ensures
            text_from(text@, 0, n as int) == a,
        decreases n - a,
    {
        if !is_whitespace(char_at(text, ascii, a)) {
            break ;
        }
        a = a + 1;
    }
    let mut b: usize = n;
    while b > a
        invariant
            a <= b <= n <= len == text@.len(),
            ascii == text.is_ascii(),
            text_until(text@, a as int, b as int) == text_until(text@, a as int, n as int),
        ensures
            text_until(text@, a as int, n as int) == b,
        decreases b - a,
    {
        if !is_whitespace(char_at(text, ascii, b - 1)) {
            break ;
        }
        b = b - 1;
    }
    if ascii {
        text.substring_ascii(a, b).to_owned()
    } else {
        text.substring_char(a, b).to_owned()
    }
}

/// The candidate for the real remote address that a forwarding header
/// names: the first entry of its list, where the value is text at all.
/// Whether the candidate is an address is for the caller to parse.
pub fn forwarded_candidate(value: &hyper::header::HeaderValue) -> (r: Option<String>)
    ensures
        r is Some <==> candidate(value_bytes(*value)) is Some,
        r is Some ==> r.unwrap()@ == candidate(value_bytes(*value)).unwrap(),
{
    match header_text(value) {
        Some(text) => {
            let entry = first_forwarded_entry(text.as_str());
            Some(entry)
        },
        None => None,
    }
}

/// The candidate among a request's headers, seen from what the headers
/// hold under the name `X-Forwarded-For`.
pub open spec fn real_remote(
    headers: hyper::HeaderMap<hyper::header::HeaderValue>,
) -> Option<Seq<char>> {
    if first_values(headers).contains_key("X-Forwarded-For"@) {
        candidate(first_values(headers)["X-Forwarded-For"@])
    } else {
        None
    }
}

/// The candidate for the real remote address among a request's headers:
/// that of the `X-Forwarded-For` header, where the request has one.
pub fn real_remote_candidate(headers: &hyper::HeaderMap<hyper::header::HeaderValue>) -> (r: Option<
    String,
>)
    ensures
        r is Some <==> real_remote(*headers) is Some,
        r is Some ==> r.unwrap()@ == real_remote(*headers).unwrap(),
{
    match header_value(headers, "X-Forwarded-For") {
        Some(value) => forwarded_candidate(value),
        None => None,
    }
}

/// The log line of an incoming request: its method, its URI and the
/// annotation.
pub open spec fn request_line(method: Seq<char>, uri: Seq<char>, note: Seq<char>) -> Seq<char> {
    "incoming request: method="@ + method + " uri="@ + uri + note
}

/// The log line of an incoming request.
pub fn incoming_request_line(method: &str, uri: &str, note: &str) -> (r: String)
    ensures
        r@ == request_line(method@, uri@, note@),
{
    let mut out = "incoming request: method=".to_owned();
    out.append(method);
    out.append(" uri=");
    out.append(uri);
    out.append(note);
    out
}

/// The annotation of a request's log line.
pub fn remote_addr_annotation(
    log_remote_address: bool,
    remote_addr: Option<&str>,
    real_remote_ip: Option<&str>,
) -> (r: String)
    ensures
        r@ == annotation(log_remote_address, text_of(remote_addr), text_of(real_remote_ip)),
{
    let mut out = String::new();
    if log_remote_address {
        out.append(" remote_addr=");
        match remote_addr {
            Some(addr) => {
                out.append(addr);
            },
            None => {},
        }
        match real_remote_ip {
            Some(ip) => {
                out.append(" real_remote_ip=");
                out.append(ip);
            },
            None => {},
        }
    }
    assert(out@ =~= annotation(log_remote_address, text_of(remote_addr), text_of(real_remote_ip)));
    out
}

/// Where the first comma stands: nothing before it is a comma, and it is a
/// comma unless the text has none.
pub proof fn lemma_comma_from(s: Seq<char>, i: int)
    requires
        0 <= i <= s.len(),
    ensures
        i <= comma_from(s, i) <= s.len(),
        comma_from(s, i) < s.len() ==> s[comma_from(s, i)] == ',',
        forall|j: int| i <= j < comma_from(s, i) ==> s[j] != ',',
    decreases s.len() - i,
{
    if i < s.len() && s[i] != ',' {
        lemma_comma_from(s, i + 1);
    }
}

/// Where the text starts: only white space stands before it.
pub proof fn lemma_text_from(s: Seq<char>, i: int, n: int)
    requires
        0 <= i <= n <= s.len(),
    ensures
        i <= text_from(s, i, n) <= n,
        text_from(s, i, n) < n ==> !is_space(s[text_from(s, i, n)]),
        forall|j: int| i <= j < text_from(s, i, n) ==> is_space(s[j]),
    decreases n - i,
{
    if i < n && is_space(s[i]) {
        lemma_text_from(s, i + 1, n);
    }
}

/// Where the text ends: only white space stands after it.
pub proof fn lemma_text_until(s: Seq<char>, a: int, n: int)
    requires
        0 <= a <= n <= s.len(),
    ensures
        a <= text_until(s, a, n) <= n,
        text_until(s, a, n) > a ==> !is_space(s[text_until(s, a, n) - 1]),
        forall|j: int| text_until(s, a, n) <= j < n ==> is_space(s[j]),
    decreases n - a,
{
    if a < n && is_space(s[n - 1]) {
        lemma_text_until(s, a, n - 1);
    }
}

/// The shape of the first entry: it holds no comma, it neither starts nor
/// ends with white space, and it is the text before the first comma but
/// for white space at both ends.
pub proof fn lemma_forwarded_entry_shape(s: Seq<char>)
    ensures
        forall|i: int| 0 <= i < forwarded_entry(s).len() ==> forwarded_entry(s)[i] != ',',
        forwarded_entry(s).len() > 0 ==> !is_space(forwarded_entry(s).first()) && !is_space(
            forwarded_entry(s).last(),
        ),
        ({
            let n = comma_from(s, 0);
            let a = text_from(s, 0, n);
            let b = text_until(s, a, n);
            &&& 0 <= a <= b <= n <= s.len()
            &&& n < s.len() ==> s[n] == ','
            &&& forwarded_entry(s) == s.subrange(a, b)
            &&& forall|j: int| 0 <= j < a || b <= j < n ==> is_space(s[j])
        }),
{
    let n = comma_from(s, 0);
    lemma_comma_from(s, 0);
    let a = text_from(s, 0, n);
    lemma_text_from(s, 0, n);
    let b = text_until(s, a, n);
    lemma_text_until(s, a, n);
    if a < b {
        assert(forwarded_entry(s).first() == s[a]);
        assert(forwarded_entry(s).last() == s[b - 1]);
    }
}

/// Text without commas and without white space at its ends is its own
/// first entry.
pub proof fn lemma_forwarded_entry_of_plain_text(s: Seq<char>)
    requires
        forall|i: int| 0 <= i < s.len() ==> s[i] != ',',
        s.len() > 0 ==> !is_space(s.first()) && !is_space(s.last()),
    ensures
        forwarded_entry(s) == s,
{
    lemma_comma_from(s, 0);
    let n = comma_from(s, 0);
    assert(n == s.len());
    lemma_text_from(s, 0, n);
    lemma_text_until(s, text_from(s, 0, n), n);
    assert(forwarded_entry(s) =~= s);
}

} // verus!
