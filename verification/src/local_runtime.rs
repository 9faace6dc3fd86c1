//! Request framing and response text of the local loopback runtime.
//!
//! The runtime reads bytes from a connection until the header block ends, parses
//! the request line and `Content-Length`, reads the body, and answers with a
//! complete HTTP/1.1 response. Sockets and threads belong to the caller; this
//! module decides what a byte sequence means and what is written back.

use vstd::prelude::*;

use crate::configuration::address::{decimal_value, digit_value, is_digit, IpAddress};
use crate::configuration::file::{ConfigurationSnapshot, RoutingDefault};
use crate::errors::CoreError;
use crate::management::{
    BoundEndpoint, CoreHealthState, ManagementSnapshot, ProxyLifecycleState, SocketAddress,
};
use crate::minimal_proxy::{
    chat_route_response, error_body, problem_body, too_large_problem, MinimalProxyEngine,
    MinimalProxyEngineConfig, MinimalProxyErrorCode, MinimalProxyRequest, MinimalProxyResponse,
};
use crate::provider::ProviderExecutor;
use crate::text::{char_is_whitespace, concat2, concat3, decimal, decimal_string, is_whitespace_char, owned, push_char, str_equal};
use crate::usage::{MeteredValue, QuotaState, QuotaSummary, UsageSummary};
use crate::{core_identity, CoreIdentity};

verus! {

/// Path of the local health route.
pub const LOCAL_HEALTH_PATH: &'static str = "/health";

/// Body of the local health response.
pub const LOCAL_HEALTH_RESPONSE_BODY: &'static str = "oxmux local health runtime: healthy\n";

/// Most bytes a local request may take, headers and body together.
pub const MAX_LOCAL_PROXY_REQUEST_BYTES: usize = 65536;

/// Size of one read from a connection.
pub const LOCAL_READ_CHUNK_BYTES: usize = 512;

/// Whether the four bytes at `i` are `\r\n\r\n`.
pub open spec fn header_end_at(request: Seq<u8>, i: int) -> bool {
    0 <= i && i + 4 <= request.len() && request[i] == 13 && request[i + 1] == 10 && request[i + 2] == 13
        && request[i + 3] == 10
}

/// Index of the first `\r\n\r\n` in a request, if any.
pub open spec fn header_end(request: Seq<u8>) -> Option<int> {
    if exists|i: int| header_end_at(request, i) {
        Some(choose|i: int| header_end_at(request, i) && forall|j: int| 0 <= j < i ==> !header_end_at(request, j))
    } else {
        None
    }
}

/// Finds the index of the first `\r\n\r\n` in a request.
pub fn find_header_end(request: &[u8]) -> (r: Option<usize>)
    ensures
        match r {
            Some(i) => header_end_at(request@, i as int) && forall|j: int|
                0 <= j < i ==> !header_end_at(request@, j),
            None => forall|j: int| !header_end_at(request@, j),
        },
{
    let n = request.len();
    if n < 4 {
        return None;
    }
    let mut i: usize = 0;
    while i <= n - 4
        invariant
            n == request@.len(),
            n >= 4,
            i <= n - 3,
            forall|j: int| 0 <= j < i ==> !header_end_at(request@, j),
        decreases n - i,
    {
        if request[i] == 13 && request[i + 1] == 10 && request[i + 2] == 13 && request[i + 3] == 10 {
            return Some(i);
        }
        i = i + 1;
    }
    None
}

/// Text of the header bytes, with invalid UTF-8 replaced (`String::from_utf8_lossy`).
pub uninterp spec fn lossy_text(bytes: Seq<u8>) -> Seq<char>;

/// Decodes bytes as UTF-8, replacing invalid sequences by U+FFFD
/// (`String::from_utf8_lossy`). Valid UTF-8 decodes to its characters.
#[verifier::external_body]
fn lossy_decode(bytes: &[u8]) -> (r: String)
    ensures
        r@ == lossy_text(bytes@),
        vstd::utf8::valid_utf8(bytes@) ==> r@ == vstd::utf8::decode_utf8(bytes@),
{
    String::from_utf8_lossy(bytes).into_owned()
}

/// Index of the first `\r\n` at or after `i`, or the length.
pub open spec fn next_crlf(s: Seq<char>, i: int) -> int
    decreases s.len() - i,
{
    if i < 0 || i + 1 >= s.len() {
        s.len() as int
    } else if s[i] == '\r' && s[i + 1] == '\n' {
        i
    } else {
        next_crlf(s, i + 1)
    }
}

/// Index of the first non-whitespace character at or after `i`, or `end`.
pub open spec fn skip_space(s: Seq<char>, i: int, end: int) -> int
    decreases end - i,
{
    if i < 0 || i >= end || end > s.len() {
        end
    } else if is_whitespace_char(s[i]) {
        skip_space(s, i + 1, end)
    } else {
        i
    }
}

/// Index of the first whitespace character at or after `i`, or `end`.
pub open spec fn skip_word(s: Seq<char>, i: int, end: int) -> int
    decreases end - i,
{
    if i < 0 || i >= end || end > s.len() {
        end
    } else if is_whitespace_char(s[i]) {
        i
    } else {
        skip_word(s, i + 1, end)
    }
}

/// Whitespace-separated words of `s[i..end]` (`str::split_whitespace`).
pub open spec fn words(s: Seq<char>, i: int, end: int) -> Seq<Seq<char>>
    decreases end - i,
{
    let a = skip_space(s, i, end);
    if i < 0 || a >= end || end > s.len() || a < i {
        Seq::empty()
    } else {
        let b = skip_word(s, a, end);
        if b <= a || b > end {
            Seq::empty()
        } else {
            seq![s.subrange(a, b)] + words(s, b, end)
        }
    }
}

/// Bounds of the first non-whitespace index.
pub proof fn lemma_skip_space(s: Seq<char>, i: int, end: int)
    requires
        0 <= i <= end <= s.len(),
    ensures
        i <= skip_space(s, i, end) <= end,
        forall|k: int| i <= k < skip_space(s, i, end) ==> is_whitespace_char(#[trigger] s[k]),
        skip_space(s, i, end) < end ==> !is_whitespace_char(s[skip_space(s, i, end)]),
    decreases end - i,
{
    if i < end {
        lemma_skip_space(s, i + 1, end);
    }
}

proof fn lemma_skip_word(s: Seq<char>, i: int, end: int)
    requires
        0 <= i <= end <= s.len(),
    ensures
        i <= skip_word(s, i, end) <= end,
        forall|k: int| i <= k < skip_word(s, i, end) ==> !is_whitespace_char(#[trigger] s[k]),
        i < end && !is_whitespace_char(s[i]) ==> skip_word(s, i, end) > i,
    decreases end - i,
{
    if i < end {
        lemma_skip_word(s, i + 1, end);
    }
}

proof fn lemma_next_crlf(s: Seq<char>, i: int)
    requires
        0 <= i <= s.len(),
    ensures
        i <= next_crlf(s, i) <= s.len(),
        next_crlf(s, i) + 1 < s.len() ==> s[next_crlf(s, i)] == '\r' && s[next_crlf(s, i) + 1] == '\n',
        next_crlf(s, i) < s.len() ==> next_crlf(s, i) + 1 < s.len(),
    decreases s.len() - i,
{
    if i + 1 < s.len() {
        lemma_next_crlf(s, i + 1);
    }
}

fn find_crlf(s: &str, start: usize) -> (r: usize)
    requires
        start <= s@.len(),
    ensures
        r == next_crlf(s@, start as int),
{
    let n = s.unicode_len();
    let mut i = start;
    while n > 0 && i < n - 1
        invariant
            n == s@.len(),
            start <= i <= n,
            next_crlf(s@, start as int) == next_crlf(s@, i as int),
        decreases n - i,
    {
        if s.get_char(i) == '\r' && s.get_char(i + 1) == '\n' {
            return i;
        }
        i = i + 1;
    }
    n
}

/// Index of the first non-whitespace character of `s[start..end]`, or `end`.
pub fn skip_space_exec(s: &str, start: usize, end: usize) -> (r: usize)
    requires
        start <= end <= s@.len(),
    ensures
        r == skip_space(s@, start as int, end as int),
{
    let mut i = start;
    while i < end
        invariant
            start <= i <= end,
            end <= s@.len(),
            skip_space(s@, start as int, end as int) == skip_space(s@, i as int, end as int),
        decreases end - i,
    {
        if !char_is_whitespace(s.get_char(i)) {
            return i;
        }
        i = i + 1;
    }
    end
}

fn skip_word_exec(s: &str, start: usize, end: usize) -> (r: usize)
    requires
        start <= end <= s@.len(),
    ensures
        r == skip_word(s@, start as int, end as int),
{
    let mut i = start;
    while i < end
        invariant
            start <= i <= end,
            end <= s@.len(),
            skip_word(s@, start as int, end as int) == skip_word(s@, i as int, end as int),
        decreases end - i,
    {
        if char_is_whitespace(s.get_char(i)) {
            return i;
        }
        i = i + 1;
    }
    end
}

/// Words of `s[start..end]`.
fn split_words(s: &str, start: usize, end: usize) -> (r: Vec<String>)
    requires
        start <= end <= s@.len(),
    ensures
        r@.map_values(|w: String| w@) == words(s@, start as int, end as int),
{
    let mut out: Vec<String> = Vec::new();
    let mut i = start;
    assert(out@.map_values(|w: String| w@) + words(s@, i as int, end as int) =~= words(
        s@,
        start as int,
        end as int,
    ));
    while i < end
        invariant
            start <= i <= end,
            end <= s@.len(),
            out@.map_values(|w: String| w@) + words(s@, i as int, end as int) == words(
                s@,
                start as int,
                end as int,
            ),
        decreases end - i,
    {
        proof {
            lemma_skip_space(s@, i as int, end as int);
        }
        let a = skip_space_exec(s, i, end);
        if a >= end {
            assert(words(s@, i as int, end as int) =~= Seq::<Seq<char>>::empty());
            assert(out@.map_values(|w: String| w@) =~= words(s@, start as int, end as int));
            return out;
        }
        proof {
            lemma_skip_word(s@, a as int, end as int);
        }
        let b = skip_word_exec(s, a, end);
        assert(b > a) by {
            assert(!is_whitespace_char(s@[a as int]));
        }
        let word = owned(s.substring_char(a, b));
        let ghost before = out@;
        out.push(word);
        assert(out@.map_values(|w: String| w@) =~= before.map_values(|w: String| w@).push(
            s@.subrange(a as int, b as int),
        ));
        assert(words(s@, i as int, end as int) =~= seq![s@.subrange(a as int, b as int)] + words(
            s@,
            b as int,
            end as int,
        ));
        i = b;
    }
    assert(words(s@, i as int, end as int) =~= Seq::<Seq<char>>::empty());
    assert(out@.map_values(|w: String| w@) =~= words(s@, start as int, end as int));
    out
}

/// A local request diagnostic: field, stable code and message.
pub type LocalRequestProblem = (Seq<char>, MinimalProxyErrorCode, Seq<char>);

/// The error is the request validation error for this diagnostic.
pub open spec fn is_request_error(e: CoreError, p: LocalRequestProblem) -> bool {
    e matches CoreError::MinimalProxyRequestValidation { field, code, message } && field@ == p.0 && code
        == p.1 && message@ == p.2
}

fn invalid_local_request(field: &'static str, code: MinimalProxyErrorCode, message: &str) -> (r: CoreError)
    ensures
        is_request_error(r, (field@, code, message@)),
{
    CoreError::MinimalProxyRequestValidation { field, code, message: owned(message) }
}

/// Diagnostic for a malformed request shape.
pub open spec fn shape_problem(field: Seq<char>, message: Seq<char>) -> LocalRequestProblem {
    (field, MinimalProxyErrorCode::UnsupportedRequestShape, message)
}

/// Method and path of a request line, or its problem: it must be three words, the last
/// `HTTP/1.1` or `HTTP/1.0`.
pub open spec fn request_line_check(w: Seq<Seq<char>>) -> Result<(Seq<char>, Seq<char>), LocalRequestProblem> {
    if w.len() < 1 {
        Err(shape_problem("method"@, "request method is required"@))
    } else if w.len() < 2 {
        Err(shape_problem("path"@, "request path is required"@))
    } else if w.len() < 3 {
        Err(shape_problem("version"@, "request HTTP version is required"@))
    } else if w.len() > 3 || !(w[2] == "HTTP/1.1"@ || w[2] == "HTTP/1.0"@) {
        Err(
            shape_problem(
                "request_line"@,
                "request line must be METHOD PATH HTTP/1.1 or METHOD PATH HTTP/1.0"@,
            ),
        )
    } else {
        Ok((w[0], w[1]))
    }
}

/// The digits of an unsigned decimal: the text after an optional leading `+`.
pub open spec fn unsigned_digits(t: Seq<char>) -> Seq<char> {
    if t.len() > 0 && t[0] == '+' {
        t.subrange(1, t.len() as int)
    } else {
        t
    }
}

/// Value of a nonempty digit string that fits in `usize`.
pub open spec fn digits_value(d: Seq<char>) -> Option<nat> {
    if d.len() > 0 && (forall|i: int| 0 <= i < d.len() ==> is_digit(#[trigger] d[i])) && decimal_value(d)
        <= usize::MAX {
        Some(decimal_value(d))
    } else {
        None
    }
}

/// Value of an unsigned decimal with an optional `+`, as `usize`'s parser accepts it.
pub open spec fn parse_unsigned(t: Seq<char>) -> Option<nat> {
    digits_value(unsigned_digits(t))
}

/// Index one past the last non-whitespace character before `end` at or after `start`.
pub open spec fn trim_end(s: Seq<char>, start: int, end: int) -> int
    decreases end - start,
{
    if end <= start || end > s.len() || start < 0 {
        start
    } else if is_whitespace_char(s[end - 1]) {
        trim_end(s, start, end - 1)
    } else {
        end
    }
}

/// Whether a header name is `content-length`, ignoring ASCII case.
pub open spec fn is_content_length_name(name: Seq<char>) -> bool {
    name.len() == 14 && forall|i: int|
        0 <= i < 14 ==> crate::configuration::validation::lower_char(#[trigger] name[i])
            == "content-length"@[i]
}

/// Index of the first `:` at or after `i` and before `end`, or `end`.
pub open spec fn next_colon(s: Seq<char>, i: int, end: int) -> int
    decreases end - i,
{
    if i < 0 || i >= end || end > s.len() {
        end
    } else if s[i] == ':' {
        i
    } else {
        next_colon(s, i + 1, end)
    }
}

/// Content length declared by the header line `s[start..end]`: none when it is not a
/// content-length header, else its value or its problem.
pub open spec fn line_content_length(s: Seq<char>, start: int, end: int) -> Option<Result<nat, LocalRequestProblem>> {
    let c = next_colon(s, start, end);
    if c >= end || !is_content_length_name(s.subrange(start, c)) {
        None
    } else {
        let a = skip_space(s, c + 1, end);
        let b = trim_end(s, a, end);
        match parse_unsigned(s.subrange(a, b)) {
            Some(v) => Some(Ok(v)),
            None => Some(
                Err(
                    shape_problem("content-length"@, "content-length must be a non-negative integer"@),
                ),
            ),
        }
    }
}

/// Content length declared by the header lines from `pos`, given the one declared before:
/// every content-length header must parse, and all of them must agree.
pub open spec fn content_length_from(s: Seq<char>, pos: int, acc: Option<nat>) -> Result<Option<nat>, LocalRequestProblem>
    decreases s.len() - pos,
{
    if pos < 0 || pos > s.len() {
        Ok(acc)
    } else {
        let e = next_crlf(s, pos);
        let next = match line_content_length(s, pos, e) {
            None => Ok(acc),
            Some(Err(p)) => Err(p),
            Some(Ok(v)) => if acc is Some && acc.unwrap() != v {
                Err(shape_problem("content-length"@, "duplicate content-length headers must agree"@))
            } else {
                Ok(Some(v))
            },
        };
        match next {
            Err(p) => Err(p),
            Ok(a) => if e >= s.len() || e < pos || e + 2 > s.len() {
                Ok(a)
            } else {
                content_length_from(s, e + 2, a)
            },
        }
    }
}

/// Method, path and content length of a header block, or its problem.
pub open spec fn request_head(s: Seq<char>) -> Result<(Seq<char>, Seq<char>, nat), LocalRequestProblem> {
    let e = next_crlf(s, 0);
    match request_line_check(words(s, 0, e)) {
        Err(p) => Err(p),
        Ok((method, path)) => {
            let lengths = if e >= s.len() {
                Ok(None)
            } else {
                content_length_from(s, e + 2, None)
            };
            match lengths {
                Err(p) => Err(p),
                Ok(None) => Ok((method, path, 0)),
                Ok(Some(v)) => Ok((method, path, v)),
            }
        },
    }
}

/// Method, path and declared body length of a local request.
#[derive(Clone, Debug, PartialEq, Eq)]
pub struct LocalRequestHead {
    /// Request method.
    pub method: String,
    /// Request path.
    pub path: String,
    /// Declared body length.
    pub content_length: usize,
}

proof fn lemma_decimal_prefix(d: Seq<char>, j: int)
    requires
        0 <= j <= d.len(),
    ensures
        decimal_value(d.subrange(0, j)) <= decimal_value(d),
    decreases d.len() - j,
{
    if j < d.len() {
        lemma_decimal_prefix(d, j + 1);
        lemma_decimal_step(d, j);
    } else {
        assert(d.subrange(0, j) =~= d);
    }
}

proof fn lemma_decimal_step(d: Seq<char>, k: int)
    requires
        0 <= k < d.len(),
    ensures
        decimal_value(d.subrange(0, k + 1)) == decimal_value(d.subrange(0, k)) * 10 + digit_value(d[k]),
{
    let p = d.subrange(0, k + 1);
    assert(p.drop_last() =~= d.subrange(0, k));
    assert(p.last() == d[k]);
}

fn parse_digits(s: &str, first: usize, end: usize) -> (r: Option<usize>)
    requires
        first <= end <= s@.len(),
    ensures
        ({
            let d = s@.subrange(first as int, end as int);
            let ok = (forall|k: int| 0 <= k < d.len() ==> is_digit(#[trigger] d[k])) && decimal_value(d)
                <= usize::MAX;
            match r {
                Some(v) => ok && v as nat == decimal_value(d),
                None => !ok,
            }
        }),
{
    let ghost d = s@.subrange(first as int, end as int);
    let mut i = first;
    let mut value: usize = 0;
    while i < end
        invariant
            first <= i <= end,
            end <= s@.len(),
            d == s@.subrange(first as int, end as int),
            forall|k: int| 0 <= k < i - first ==> is_digit(#[trigger] d[k]),
            value as nat == decimal_value(d.subrange(0, i - first)),
        decreases end - i,
    {
        let c = s.get_char(i);
        let cv = c as u32;
        assert(d[i - first] == c);
        if !(48 <= cv && cv <= 57) {
            return None;
        }
        let digit = (cv - 48) as usize;
        proof {
            lemma_decimal_step(d, i - first);
        }
        let next = match value.checked_mul(10) {
            Some(m) => m.checked_add(digit),
            None => None,
        };
        match next {
            Some(v) => {
                value = v;
            },
            None => {
                proof {
                    lemma_decimal_prefix(d, i + 1 - first);
                    assert(d.subrange(0, d.len() as int) =~= d);
                }
                return None;
            },
        }
        i = i + 1;
    }
    assert(d.subrange(0, end - first) =~= d);
    Some(value)
}

fn parse_unsigned_exec(s: &str, start: usize, end: usize) -> (r: Option<usize>)
    requires
        start <= end <= s@.len(),
    ensures
        match r {
            Some(v) => parse_unsigned(s@.subrange(start as int, end as int)) == Some(v as nat),
            None => parse_unsigned(s@.subrange(start as int, end as int)) is None,
        },
{
    let ghost t = s@.subrange(start as int, end as int);
    let mut first = start;
    if start < end && s.get_char(start) == '+' {
        first = start + 1;
    }
    assert(s@.subrange(first as int, end as int) =~= unsigned_digits(t));
    if first >= end {
        return None;
    }
    parse_digits(s, first, end)
}

fn find_colon(s: &str, start: usize, end: usize) -> (r: usize)
    requires
        start <= end <= s@.len(),
    ensures
        r == next_colon(s@, start as int, end as int),
{
    let mut i = start;
    while i < end
        invariant
            start <= i <= end,
            end <= s@.len(),
            next_colon(s@, start as int, end as int) == next_colon(s@, i as int, end as int),
        decreases end - i,
    {
        if s.get_char(i) == ':' {
            return i;
        }
        i = i + 1;
    }
    end
}

/// Index one past the last non-whitespace character of `s[start..end]`, or `start`.
pub fn trim_end_exec(s: &str, start: usize, end: usize) -> (r: usize)
    requires
        start <= end <= s@.len(),
    ensures
        r == trim_end(s@, start as int, end as int),
{
    let mut e = end;
    while e > start
        invariant
            start <= e <= end,
            end <= s@.len(),
            trim_end(s@, start as int, end as int) == trim_end(s@, start as int, e as int),
        decreases e,
    {
        if !char_is_whitespace(s.get_char(e - 1)) {
            return e;
        }
        e = e - 1;
    }
    start
}

fn is_content_length_header(s: &str, start: usize, end: usize) -> (r: bool)
    requires
        start <= end <= s@.len(),
    ensures
        r == is_content_length_name(s@.subrange(start as int, end as int)),
{
    let expected = "content-length";
    proof {
        reveal_strlit("content-length");
    }
    if end - start != 14 {
        return false;
    }
    let mut k: usize = 0;
    while k < 14
        invariant
            end - start == 14,
            end <= s@.len(),
            k <= 14,
            expected@ == "content-length"@,
            expected@.len() == 14,
            forall|q: int|
                0 <= q < k ==> crate::configuration::validation::lower_char(#[trigger] s@.subrange(
                    start as int,
                    end as int,
                )[q]) == "content-length"@[q],
        decreases 14 - k,
    {
        let c = s.get_char(start + k);
        let lower = crate::configuration::validation::lower_char_exec(c);
        if lower != expected.get_char(k) {
            assert(crate::configuration::validation::lower_char(s@.subrange(start as int, end as int)[k as int])
                != "content-length"@[k as int]);
            return false;
        }
        k = k + 1;
    }
    true
}

fn line_content_length_exec(s: &str, start: usize, end: usize) -> (r: Option<Result<usize, CoreError>>)
    requires
        start <= end <= s@.len(),
    ensures
        match line_content_length(s@, start as int, end as int) {
            None => r is None,
            Some(Ok(v)) => r matches Some(Ok(x)) && x as nat == v,
            Some(Err(p)) => r matches Some(Err(e)) && is_request_error(e, p),
        },
{
    let c = find_colon(s, start, end);
    proof {
        lemma_colon_bounds(s@, start as int, end as int);
    }
    if c >= end || !is_content_length_header(s, start, c) {
        return None;
    }
    proof {
        lemma_skip_space(s@, (c + 1) as int, end as int);
    }
    let a = skip_space_exec(s, c + 1, end);
    proof {
        lemma_trim_end_bounds(s@, a as int, end as int);
    }
    let b = trim_end_exec(s, a, end);
    match parse_unsigned_exec(s, a, b) {
        Some(v) => Some(Ok(v)),
        None => Some(
            Err(
                invalid_local_request(
                    "content-length",
                    MinimalProxyErrorCode::UnsupportedRequestShape,
                    "content-length must be a non-negative integer",
                ),
            ),
        ),
    }
}

proof fn lemma_colon_bounds(s: Seq<char>, i: int, end: int)
    requires
        0 <= i <= end <= s.len(),
    ensures
        i <= next_colon(s, i, end) <= end,
    decreases end - i,
{
    if i < end {
        lemma_colon_bounds(s, i + 1, end);
    }
}

/// Bounds of the trimmed end.
pub proof fn lemma_trim_end_bounds(s: Seq<char>, start: int, end: int)
    requires
        0 <= start <= end <= s.len(),
    ensures
        start <= trim_end(s, start, end) <= end,
    decreases end - start,
{
    if start < end {
        lemma_trim_end_bounds(s, start, end - 1);
    }
}

/// Parses the `Content-Length` headers of the header lines from `pos`: every one must parse
/// and all must agree; without one the length is zero.
#[verifier::loop_isolation(false)]
fn parse_content_length(headers: &str, pos: usize) -> (r: Result<usize, CoreError>)
    requires
        2 <= pos <= headers@.len(),
    ensures
        match content_length_from(headers@, pos as int, None) {
            Ok(None) => r == Ok::<usize, CoreError>(0),
            Ok(Some(v)) => r is Ok && r->Ok_0 as nat == v,
            Err(p) => r is Err && is_request_error(r->Err_0, p),
        },
{
    let n = headers.unicode_len();
    let start = pos;
    let mut pos = pos;
    let mut acc: Option<usize> = None;
    loop
        invariant
            n == headers@.len(),
            start <= pos <= n,
            content_length_from(headers@, start as int, None) == content_length_from(
                headers@,
                pos as int,
                match acc {
                    Some(v) => Some(v as nat),
                    None => None,
                },
            ),
        decreases n - pos,
    {
        proof {
            lemma_next_crlf(headers@, pos as int);
        }
        let line_end = find_crlf(headers, pos);
        match line_content_length_exec(headers, pos, line_end) {
            None => {},
            Some(Err(error)) => {
                return Err(error);
            },
            Some(Ok(v)) => {
                match acc {
                    Some(existing) => {
                        if existing != v {
                            return Err(
                                invalid_local_request(
                                    "content-length",
                                    MinimalProxyErrorCode::UnsupportedRequestShape,
                                    "duplicate content-length headers must agree",
                                ),
                            );
                        }
                    },
                    None => {},
                }
                acc = Some(v);
            },
        }
        if line_end >= n {
            break;
        }
        pos = line_end + 2;
    }
    match acc {
        Some(v) => Ok(v),
        None => Ok(0),
    }
}

/// Parses the header block of a local request.
#[verifier::loop_isolation(false)]
pub fn parse_request_head(headers: &str) -> (r: Result<LocalRequestHead, CoreError>)
    ensures
        match request_head(headers@) {
            Ok((method, path, length)) => r is Ok && r->Ok_0.method@ == method && r->Ok_0.path@ == path
                && r->Ok_0.content_length as nat == length,
            Err(p) => r is Err && is_request_error(r->Err_0, p),
        },
{
    let n = headers.unicode_len();
    proof {
        lemma_next_crlf(headers@, 0);
    }
    let e = find_crlf(headers, 0);
    let w = split_words(headers, 0, e);
    proof {
        reveal_strlit("HTTP/1.1");
        reveal_strlit("HTTP/1.0");
    }
    if w.len() < 1 {
        return Err(
            invalid_local_request(
                "method",
                MinimalProxyErrorCode::UnsupportedRequestShape,
                "request method is required",
            ),
        );
    }
    if w.len() < 2 {
        return Err(
            invalid_local_request(
                "path",
                MinimalProxyErrorCode::UnsupportedRequestShape,
                "request path is required",
            ),
        );
    }
    if w.len() < 3 {
        return Err(
            invalid_local_request(
                "version",
                MinimalProxyErrorCode::UnsupportedRequestShape,
                "request HTTP version is required",
            ),
        );
    }
    assert(w@[2]@ == w@.map_values(|x: String| x@)[2]);
    if w.len() > 3 || !(str_equal(w[2].as_str(), "HTTP/1.1") || str_equal(w[2].as_str(), "HTTP/1.0")) {
        return Err(
            invalid_local_request(
                "request_line",
                MinimalProxyErrorCode::UnsupportedRequestShape,
                "request line must be METHOD PATH HTTP/1.1 or METHOD PATH HTTP/1.0",
            ),
        );
    }
    assert(w@[0]@ == w@.map_values(|x: String| x@)[0]);
    assert(w@[1]@ == w@.map_values(|x: String| x@)[1]);
    let method = w[0].clone();
    let path = w[1].clone();
    let content_length = if e < n {
        parse_content_length(headers, e + 2)?
    } else {
        0
    };
    Ok(LocalRequestHead { method, path, content_length })
}

/// What to do next while reading a request's header block.
#[derive(Clone, Copy, Debug, PartialEq, Eq, Structural)]
pub enum HeaderReadStep {
    /// Read at most this many more bytes.
    Read(usize),
    /// The header block ends at this index.
    Complete(usize),
    /// The header block did not end within the byte limit or before the connection closed.
    Incomplete,
}

/// Decides the next step of reading a header block from the bytes read so far and whether
/// the connection reported end of input.
pub fn next_header_step(request: &[u8], closed: bool) -> (r: HeaderReadStep)
    ensures
        match r {
            HeaderReadStep::Complete(i) => header_end_at(request@, i as int) && forall|j: int|
                0 <= j < i ==> !header_end_at(request@, j),
            HeaderReadStep::Read(limit) => (forall|j: int| !header_end_at(request@, j)) && !closed
                && request@.len() < MAX_LOCAL_PROXY_REQUEST_BYTES && limit == if MAX_LOCAL_PROXY_REQUEST_BYTES
                - request@.len() < LOCAL_READ_CHUNK_BYTES {
                (MAX_LOCAL_PROXY_REQUEST_BYTES - request@.len()) as usize
            } else {
                LOCAL_READ_CHUNK_BYTES
            },
            HeaderReadStep::Incomplete => (forall|j: int| !header_end_at(request@, j)) && (closed
                || request@.len() >= MAX_LOCAL_PROXY_REQUEST_BYTES),
        },
{
    match find_header_end(request) {
        Some(i) => HeaderReadStep::Complete(i),
        None => {
            if closed || request.len() >= MAX_LOCAL_PROXY_REQUEST_BYTES {
                HeaderReadStep::Incomplete
            } else {
                let remaining = MAX_LOCAL_PROXY_REQUEST_BYTES - request.len();
                HeaderReadStep::Read(
                    if remaining < LOCAL_READ_CHUNK_BYTES {
                        remaining
                    } else {
                        LOCAL_READ_CHUNK_BYTES
                    },
                )
            }
        },
    }
}

/// Error reported for a header block that never ended.
pub fn incomplete_headers_error() -> (r: CoreError)
    ensures
        is_request_error(
            r,
            shape_problem("headers"@, "request headers must terminate before the local request byte limit"@),
        ),
{
    invalid_local_request(
        "headers",
        MinimalProxyErrorCode::UnsupportedRequestShape,
        "request headers must terminate before the local request byte limit",
    )
}

/// A request line and header block that passed validation, with where its body ends.
#[derive(Clone, Debug, PartialEq, Eq)]
pub struct LocalRequestFrame {
    /// Parsed method, path and declared body length.
    pub head: LocalRequestHead,
    /// Index where the body starts.
    pub body_start: usize,
    /// Total request length once the body is read.
    pub expected_len: usize,
}

/// Frame of a request whose header block ends at `header_end`, or its problem: the header
/// block must parse, and headers and body must fit in the byte limit.
pub open spec fn frame_spec(request: Seq<u8>, header_end: int) -> Result<(Seq<char>, Seq<char>, nat, int, int), LocalRequestProblem> {
    match request_head(lossy_text(request.subrange(0, header_end))) {
        Err(p) => Err(p),
        Ok((method, path, length)) => {
            let body_start = header_end + 4;
            if body_start + length > usize::MAX {
                Err(
                    (
                        "content-length"@,
                        MinimalProxyErrorCode::RequestTooLarge,
                        "request body length overflows local parser bounds"@,
                    ),
                )
            } else if body_start + length > MAX_LOCAL_PROXY_REQUEST_BYTES {
                Err(("body"@, MinimalProxyErrorCode::RequestTooLarge, "request exceeds local proxy byte limit"@))
            } else {
                Ok((method, path, length, body_start, body_start + length))
            }
        },
    }
}

/// Parses the header block ending at `header_end` and bounds the request it frames.
pub fn frame_local_request(request: &[u8], header_end: usize) -> (r: Result<LocalRequestFrame, CoreError>)
    requires
        header_end_at(request@, header_end as int),
    ensures
        match frame_spec(request@, header_end as int) {
            Ok((method, path, length, body_start, expected)) => r is Ok && r->Ok_0.head.method@ == method
                && r->Ok_0.head.path@ == path && r->Ok_0.head.content_length as nat == length
                && r->Ok_0.body_start as int == body_start && r->Ok_0.expected_len as int == expected,
            Err(p) => r is Err && is_request_error(r->Err_0, p),
        },
{
    let n = request.len();
    assert(header_end + 4 <= n);
    let headers = lossy_decode(vstd::slice::slice_subrange(request, 0, header_end));
    let head = parse_request_head(headers.as_str())?;
    let body_start = header_end + 4;
    let expected_len = match body_start.checked_add(head.content_length) {
        Some(v) => v,
        None => {
            return Err(
                invalid_local_request(
                    "content-length",
                    MinimalProxyErrorCode::RequestTooLarge,
                    "request body length overflows local parser bounds",
                ),
            );
        },
    };
    if expected_len > MAX_LOCAL_PROXY_REQUEST_BYTES {
        return Err(
            invalid_local_request(
                "body",
                MinimalProxyErrorCode::RequestTooLarge,
                "request exceeds local proxy byte limit",
            ),
        );
    }
    Ok(LocalRequestFrame { head, body_start, expected_len })
}

/// What to do next while reading a request body.
#[derive(Clone, Copy, Debug, PartialEq, Eq, Structural)]
pub enum BodyReadStep {
    /// Read at most this many more bytes.
    Read(usize),
    /// The whole request has been read.
    Complete,
    /// The connection closed before the declared length.
    Truncated,
}

/// Decides the next step of reading a body from the bytes read so far.
pub fn next_body_step(read: usize, expected_len: usize, closed: bool) -> (r: BodyReadStep)
    ensures
        read >= expected_len ==> r is Complete,
        read < expected_len && closed ==> r is Truncated,
        read < expected_len && !closed ==> r == BodyReadStep::Read(
            if expected_len - read < LOCAL_READ_CHUNK_BYTES {
                (expected_len - read) as usize
            } else {
                LOCAL_READ_CHUNK_BYTES
            },
        ),
{
    if read >= expected_len {
        BodyReadStep::Complete
    } else if closed {
        BodyReadStep::Truncated
    } else {
        let remaining = expected_len - read;
        BodyReadStep::Read(
            if remaining < LOCAL_READ_CHUNK_BYTES {
                remaining
            } else {
                LOCAL_READ_CHUNK_BYTES
            },
        )
    }
}

/// Method, path and body of a local request.
#[derive(Clone, Debug, PartialEq, Eq)]
pub struct LocalHttpRequest {
    /// Request method.
    pub method: String,
    /// Request path.
    pub path: String,
    /// Request body.
    pub body: Vec<u8>,
}

/// Completes a framed request from all bytes read: the body is the declared range, and a
/// request shorter than its declared length is refused.
pub fn finish_local_request(request: &[u8], frame: LocalRequestFrame) -> (r: Result<LocalHttpRequest, CoreError>)
    requires
        frame.body_start <= frame.expected_len,
    ensures
        request@.len() < frame.expected_len ==> r is Err && is_request_error(
            r->Err_0,
            shape_problem("body"@, "request body ended before declared content length"@),
        ),
        request@.len() >= frame.expected_len ==> r is Ok && r->Ok_0.method == frame.head.method
            && r->Ok_0.path == frame.head.path && r->Ok_0.body@ == request@.subrange(
            frame.body_start as int,
            frame.expected_len as int,
        ),
{
    if request.len() < frame.expected_len {
        return Err(
            invalid_local_request(
                "body",
                MinimalProxyErrorCode::UnsupportedRequestShape,
                "request body ended before declared content length",
            ),
        );
    }
    let body = vstd::slice::slice_to_vec(
        vstd::slice::slice_subrange(request, frame.body_start, frame.expected_len),
    );
    Ok(LocalHttpRequest { method: frame.head.method, path: frame.head.path, body })
}

// ---------------------------------------------------------------------------
// Responses
// ---------------------------------------------------------------------------

/// A complete response to a local request.
#[derive(Clone, Debug, PartialEq, Eq)]
pub struct LocalHttpResponse {
    /// HTTP status code.
    pub status_code: u16,
    /// Reason phrase of the status line.
    pub reason: &'static str,
    /// Content type of the body.
    pub content_type: &'static str,
    /// Response body.
    pub body: String,
}

/// Reason phrase written for a JSON response status.
pub open spec fn reason_phrase(status_code: u16) -> Seq<char> {
    if status_code == 200 {
        "OK"@
    } else if status_code == 400 {
        "Bad Request"@
    } else if status_code == 404 {
        "Not Found"@
    } else if status_code == 408 {
        "Request Timeout"@
    } else if status_code == 502 {
        "Bad Gateway"@
    } else {
        "Internal Server Error"@
    }
}

fn reason_for(status_code: u16) -> (r: &'static str)
    ensures
        r@ == reason_phrase(status_code),
{
    if status_code == 200 {
        "OK"
    } else if status_code == 400 {
        "Bad Request"
    } else if status_code == 404 {
        "Not Found"
    } else if status_code == 408 {
        "Request Timeout"
    } else if status_code == 502 {
        "Bad Gateway"
    } else {
        "Internal Server Error"
    }
}

/// A JSON response with this status and body.
pub open spec fn is_json_response(r: LocalHttpResponse, status_code: u16, body: Seq<char>) -> bool {
    &&& r.status_code == status_code
    &&& r.reason@ == reason_phrase(status_code)
    &&& r.content_type@ == "application/json"@
    &&& r.body@ == body
}

fn json_response(status_code: u16, body: String) -> (r: LocalHttpResponse)
    ensures
        is_json_response(r, status_code, body@),
{
    LocalHttpResponse { status_code, reason: reason_for(status_code), content_type: "application/json", body }
}

fn from_proxy_response(response: MinimalProxyResponse) -> (r: LocalHttpResponse)
    ensures
        is_json_response(r, response.status_code, response.body@),
{
    json_response(response.status_code, response.body)
}

/// Status of a connection error: 408 when reading timed out or failed, else 500.
pub open spec fn connection_error_status(error: CoreError) -> u16 {
    if error is LocalRuntimeHealthServing {
        408
    } else {
        500
    }
}

/// Decides the response to a read request: validation errors become 400 answers, other read
/// errors connection-error answers; `GET /health` is answered with the health text; `POST`
/// to the chat path goes to the minimal proxy when a proxy route is configured; every other
/// request is an unsupported path.
pub fn respond_to_local_request<E: ProviderExecutor>(
    read: Result<LocalHttpRequest, CoreError>,
    proxy_route: Option<MinimalProxyEngineConfig<'_, E>>,
) -> (r: LocalHttpResponse)
    ensures
        match read {
            Err(error) => match error {
                CoreError::MinimalProxyRequestValidation { code, .. } => is_json_response(
                    r,
                    400,
                    error_body(code.code(), error.message_spec()),
                ),
                _ => is_json_response(
                    r,
                    connection_error_status(error),
                    error_body("local_runtime_io"@, error.message_spec()),
                ),
            },
            Ok(request) => if request.method@ == "GET"@ && request.path@ == LOCAL_HEALTH_PATH@ {
                r.status_code == 200 && r.reason@ == "OK"@ && r.content_type@
                    == "text/plain; charset=utf-8"@ && r.body@ == LOCAL_HEALTH_RESPONSE_BODY@
            } else if request.method@ == "POST"@ && request.path@ == crate::minimal_proxy::MINIMAL_CHAT_COMPLETIONS_PATH@ {
                match proxy_route {
                    None => is_json_response(
                        r,
                        404,
                        error_body("unsupported_path"@, "unsupported local proxy path"@),
                    ),
                    Some(config) => if request.body@.len() > crate::minimal_proxy::MAX_MINIMAL_PROXY_BODY_BYTES {
                        is_json_response(r, 400, problem_body(too_large_problem()))
                    } else {
                        exists|response: MinimalProxyResponse|
                            #[trigger] chat_route_response(
                                *config.provider_executor,
                                (MinimalProxyRequest { body: request.body }),
                                *config.routing_policy,
                                *config.availability,
                                response,
                            ) && is_json_response(r, response.status_code, response.body@)
                    },
                }
            } else {
                is_json_response(r, 404, error_body("unsupported_path"@, "unsupported local proxy path"@))
            },
        },
{
    proof {
        reveal_strlit("GET");
        reveal_strlit("POST");
    }
    let request = match read {
        Ok(request) => request,
        Err(error) => {
            match &error {
                CoreError::MinimalProxyRequestValidation { .. } => {
                    return from_proxy_response(MinimalProxyResponse::invalid_request(&error));
                },
                _ => {},
            }
            let status: u16 = match &error {
                CoreError::LocalRuntimeHealthServing { .. } => 408,
                _ => 500,
            };
            let message = error.to_string();
            return json_response(status, crate::minimal_proxy::error_body_text("local_runtime_io", message.as_str()));
        },
    };
    if str_equal(request.method.as_str(), "GET") && str_equal(request.path.as_str(), LOCAL_HEALTH_PATH) {
        return LocalHttpResponse {
            status_code: 200,
            reason: "OK",
            content_type: "text/plain; charset=utf-8",
            body: owned(LOCAL_HEALTH_RESPONSE_BODY),
        };
    }
    if str_equal(request.method.as_str(), "POST") && str_equal(
        request.path.as_str(),
        crate::minimal_proxy::MINIMAL_CHAT_COMPLETIONS_PATH,
    ) {
        let config = match proxy_route {
            Some(config) => config,
            None => {
                return from_proxy_response(MinimalProxyResponse::unsupported_path());
            },
        };
        let proxy_request = match MinimalProxyRequest::open_ai_chat_completions(request.body) {
            Ok(proxy_request) => proxy_request,
            Err(error) => {
                return from_proxy_response(MinimalProxyResponse::invalid_request(&error));
            },
        };
        let ghost policy = *config.routing_policy;
        let ghost availability = *config.availability;
        let ghost executor = *config.provider_executor;
        assert(proxy_request == (MinimalProxyRequest { body: request.body }));
        let response = MinimalProxyEngine::execute_to_response(proxy_request, config);
        assert(chat_route_response(executor, (MinimalProxyRequest { body: request.body }), policy, availability, response));
        return from_proxy_response(response);
    }
    from_proxy_response(MinimalProxyResponse::unsupported_path())
}

/// Bytes of a text (`str::len`).
pub open spec fn byte_len(s: Seq<char>) -> nat {
    vstd::utf8::encode_utf8(s).len()
}

/// Text of a complete HTTP/1.1 response: status line, length, type, close, body.
pub open spec fn response_text(r: LocalHttpResponse) -> Seq<char> {
    "HTTP/1.1 "@ + decimal(r.status_code as nat) + " "@ + r.reason@ + "\r\nContent-Length: "@ + decimal(
        byte_len(r.body@),
    ) + "\r\nContent-Type: "@ + r.content_type@ + "\r\nConnection: close\r\n\r\n"@ + r.body@
}

/// Writes the complete text of a response.
pub fn render_response(response: &LocalHttpResponse) -> (r: String)
    ensures
        r@ == response_text(*response),
{
    let status = decimal_string(response.status_code as u64);
    let body = response.body.as_str();
    let byte_count = body.as_bytes().len();
    assert(byte_count as nat == byte_len(response.body@));
    let length = decimal_string(byte_count as u64);
    assert(status@ == decimal(response.status_code as nat));
    assert(length@ == decimal(byte_len(response.body@)));
    let mut s = concat3("HTTP/1.1 ", status.as_str(), " ");
    s.append(response.reason);
    s.append("\r\nContent-Length: ");
    s.append(length.as_str());
    s.append("\r\nContent-Type: ");
    s.append(response.content_type);
    s.append("\r\nConnection: close\r\n\r\n");
    s.append(response.body.as_str());
    s
}

// ---------------------------------------------------------------------------
// Runtime configuration and status
// ---------------------------------------------------------------------------

/// Address and port the local runtime binds.
#[derive(Clone, Copy, Debug, PartialEq, Eq, Structural)]
pub struct LocalHealthRuntimeConfig {
    /// Listen address; must be loopback.
    pub listen_address: IpAddress,
    /// Listen port; zero asks for any free port.
    pub port: u16,
}

/// The error reported for a listen address that is not loopback.
pub open spec fn is_loopback_error(e: CoreError) -> bool {
    e matches CoreError::LocalRuntimeConfiguration { field, message } && field@ == "listen_address"@
        && message@ == "local health runtime must bind a loopback address"@
}

impl LocalHealthRuntimeConfig {
    /// Creates a runtime configuration; the address must be loopback.
    pub fn new(listen_address: IpAddress, port: u16) -> (r: Result<Self, CoreError>)
        ensures
            listen_address.is_loopback_spec() ==> r == Ok::<Self, CoreError>(
                LocalHealthRuntimeConfig { listen_address, port },
            ),
            !listen_address.is_loopback_spec() ==> r is Err && is_loopback_error(r->Err_0),
    {
        let config = LocalHealthRuntimeConfig { listen_address, port };
        config.validate()?;
        Ok(config)
    }

    /// Runtime configuration for `127.0.0.1` and a port.
    pub fn loopback(port: u16) -> (r: Self)
        ensures
            r == (LocalHealthRuntimeConfig { listen_address: IpAddress::V4(127, 0, 0, 1), port }),
    {
        LocalHealthRuntimeConfig { listen_address: IpAddress::localhost_v4(), port }
    }

    /// The socket address to bind.
    pub fn socket_addr(self) -> (r: SocketAddress)
        ensures
            r == (SocketAddress { ip: self.listen_address, port: self.port }),
    {
        SocketAddress { ip: self.listen_address, port: self.port }
    }

    /// Validates this value: the address must be loopback.
    pub fn validate(&self) -> (r: Result<(), CoreError>)
        ensures
            self.listen_address.is_loopback_spec() ==> r is Ok,
            !self.listen_address.is_loopback_spec() ==> r is Err && is_loopback_error(r->Err_0),
    {
        if !self.listen_address.is_loopback() {
            return Err(
                CoreError::LocalRuntimeConfiguration {
                    field: "listen_address",
                    message: owned("local health runtime must bind a loopback address"),
                },
            );
        }
        Ok(())
    }
}

/// Lifecycle, health and endpoint of the local runtime.
#[derive(Clone, Debug, PartialEq, Eq)]
pub struct LocalHealthRuntimeStatus {
    /// Lifecycle state.
    pub lifecycle: ProxyLifecycleState,
    /// Health state.
    pub health: CoreHealthState,
    /// Bound endpoint, when bound.
    pub endpoint: Option<BoundEndpoint>,
}

impl LocalHealthRuntimeStatus {
    /// Status of a runtime that is starting.
    pub fn starting() -> (r: Self)
        ensures
            r.lifecycle is Starting,
            r.health is Healthy,
            r.endpoint is None,
    {
        LocalHealthRuntimeStatus {
            lifecycle: ProxyLifecycleState::Starting,
            health: CoreHealthState::Healthy,
            endpoint: None,
        }
    }

    /// Status of a runtime that failed with an error.
    pub fn failed(error: CoreError) -> (r: Self)
        ensures
            r.lifecycle is Failed,
            r.health == (CoreHealthState::Failed { error }),
            r.endpoint is None,
    {
        let last_error = error.clone();
        LocalHealthRuntimeStatus {
            lifecycle: ProxyLifecycleState::Failed { last_error },
            health: CoreHealthState::Failed { error },
            endpoint: None,
        }
    }

    /// Management snapshot of this status with a configuration snapshot: no providers,
    /// zero usage, unknown quota, and the lifecycle's error when it failed.
    pub fn management_snapshot(&self, configuration: ConfigurationSnapshot) -> (r: ManagementSnapshot)
        ensures
            r.identity == CoreIdentity::spec(),
            r.configuration == configuration,
            r.file_configuration is None,
            r.last_configuration_load_failure is None,
            r.providers@.len() == 0,
            r.usage.all_meters(MeteredValue::Zero),
            r.quota.requests == QuotaState::Unknown && r.quota.tokens == QuotaState::Unknown,
            r.warnings@.len() == 0,
            r.errors@.len() == if self.lifecycle is Failed {
                1int
            } else {
                0int
            },
    {
        let mut errors: Vec<CoreError> = Vec::new();
        match &self.lifecycle {
            ProxyLifecycleState::Failed { last_error } => errors.push(last_error.clone()),
            _ => {},
        }
        ManagementSnapshot {
            identity: core_identity(),
            lifecycle: self.lifecycle.clone(),
            health: self.health.clone(),
            configuration,
            file_configuration: None,
            last_configuration_load_failure: None,
            providers: Vec::new(),
            usage: UsageSummary::zero(),
            quota: QuotaSummary::unknown(),
            warnings: Vec::new(),
            errors,
        }
    }

    /// Status of a stopped runtime.
    pub fn stopped(endpoint: Option<BoundEndpoint>) -> (r: Self)
        ensures
            r.lifecycle is Stopped,
            r.health is Healthy,
            r.endpoint == endpoint,
    {
        LocalHealthRuntimeStatus {
            lifecycle: ProxyLifecycleState::Stopped,
            health: CoreHealthState::Healthy,
            endpoint,
        }
    }
}

} // verus!
