//! Classification of TOML read errors into configuration diagnostics.
//!
//! A reader reports a message and, often, the byte offset where reading failed.
//! Unknown fields are located by the nearest table header above that offset.

use vstd::prelude::*;

use crate::errors::{
    ConfigurationError, ConfigurationErrorKind, ConfigurationIssue, ConfigurationSourceMetadata,
    CoreError, InvalidConfigurationValue,
};
use crate::local_runtime::{lemma_skip_space, lemma_trim_end_bounds, skip_space, skip_space_exec, trim_end, trim_end_exec};
use crate::text::{concat3, is_blank, is_blank_text, owned, str_equal};

verus! {

/// Whether `needle` occurs at index `i` of `s`.
pub open spec fn occurs_at(s: Seq<char>, needle: Seq<char>, i: int) -> bool {
    0 <= i && i + needle.len() <= s.len() && s.subrange(i, i + needle.len()) == needle
}

/// Whether `needle` occurs in `s`.
pub open spec fn contains_text(s: Seq<char>, needle: Seq<char>) -> bool {
    exists|i: int| occurs_at(s, needle, i)
}

/// Index of the first `c` at or after `i`, or the length.
pub open spec fn next_char(s: Seq<char>, c: char, i: int) -> int
    decreases s.len() - i,
{
    if i < 0 || i >= s.len() {
        s.len() as int
    } else if s[i] == c {
        i
    } else {
        next_char(s, c, i + 1)
    }
}

/// The text between the first and second backtick of a message (to the end when there is
/// no second one), if the message has a backtick.
pub open spec fn quoted_name(message: Seq<char>) -> Option<Seq<char>> {
    let a = next_char(message, '`', 0);
    if a >= message.len() {
        None
    } else {
        Some(message.subrange(a + 1, next_char(message, '`', a + 1)))
    }
}

/// Field named by an unknown-field message: its quoted name, or `configuration`.
pub open spec fn named_field(message: Seq<char>) -> Seq<char> {
    match quoted_name(message) {
        Some(f) => if is_blank_text(f) {
            "configuration"@
        } else {
            f
        },
        None => "configuration"@,
    }
}

/// A text without leading and trailing whitespace.
pub open spec fn trimmed_text(s: Seq<char>) -> Seq<char> {
    let a = skip_space(s, 0, s.len() as int);
    s.subrange(a, trim_end(s, a, s.len() as int))
}

/// Count of leading repetitions of `p` (`str::trim_start_matches`).
pub open spec fn strip_prefix_repeated(s: Seq<char>, p: Seq<char>) -> Seq<char>
    decreases s.len(),
{
    if p.len() > 0 && p.len() <= s.len() && s.subrange(0, p.len() as int) == p {
        strip_prefix_repeated(s.subrange(p.len() as int, s.len() as int), p)
    } else {
        s
    }
}

/// Trailing repetitions of `p` removed (`str::trim_end_matches`).
pub open spec fn strip_suffix_repeated(s: Seq<char>, p: Seq<char>) -> Seq<char>
    decreases s.len(),
{
    if p.len() > 0 && p.len() <= s.len() && s.subrange(s.len() - p.len(), s.len() as int) == p {
        strip_suffix_repeated(s.subrange(0, s.len() - p.len()), p)
    } else {
        s
    }
}

/// Whether `s` starts with `p`.
pub open spec fn starts(s: Seq<char>, p: Seq<char>) -> bool {
    p.len() <= s.len() && s.subrange(0, p.len() as int) == p
}

/// Whether `s` ends with `p`.
pub open spec fn ends(s: Seq<char>, p: Seq<char>) -> bool {
    p.len() <= s.len() && s.subrange(s.len() - p.len(), s.len() as int) == p
}

/// Table named by a header line, if the trimmed line is `[[name]]` or `[name]`.
pub open spec fn header_table(line: Seq<char>) -> Option<Seq<char>> {
    let t = trimmed_text(line);
    if starts(t, "[["@) && ends(t, "]]"@) {
        Some(strip_suffix_repeated(strip_prefix_repeated(t, "[["@), "]]"@))
    } else if starts(t, "["@) && ends(t, "]"@) {
        Some(strip_suffix_repeated(strip_prefix_repeated(t, "["@), "]"@))
    } else {
        None
    }
}

/// Table of the last header line that ends at or before index `end` of `s` (lines are
/// separated by `\n`).
pub open spec fn last_table(s: Seq<char>, end: int) -> Option<Seq<char>>
    decreases end,
{
    if end < 0 || end > s.len() {
        None
    } else {
        let start = line_start(s, end);
        match header_table(s.subrange(start, end)) {
            Some(t) => Some(t),
            None => if start <= 0 || start > end {
                None
            } else {
                last_table(s, start - 1)
            },
        }
    }
}

/// Start of the line that ends at `end`: one past the last `\n` before it, or zero.
pub open spec fn line_start(s: Seq<char>, end: int) -> int
    decreases end,
{
    if end <= 0 || end > s.len() {
        0
    } else if s[end - 1] == '\n' {
        end
    } else {
        line_start(s, end - 1)
    }
}

/// Path of an unknown field: the nearest table above the error, a dot and the field name;
/// the field name alone when there is no such table or no position.
pub open spec fn unknown_field_path(prefix: Option<Seq<char>>, message: Seq<char>) -> Seq<char> {
    let field = named_field(message);
    match prefix {
        None => field,
        Some(p) => match last_table(p, p.len() as int) {
            Some(t) => if t.len() > 0 {
                t + "."@ + field
            } else {
                field
            },
            None => field,
        },
    }
}

/// Classification of a read error message: unknown fields, missing fields, or malformed text.
pub open spec fn parse_error_class(prefix: Option<Seq<char>>, message: Seq<char>) -> (
    ConfigurationErrorKind,
    Seq<char>,
    InvalidConfigurationValue,
) {
    if contains_text(message, "unknown field"@) {
        (ConfigurationErrorKind::UnknownField, unknown_field_path(prefix, message), InvalidConfigurationValue::Unsupported)
    } else if contains_text(message, "missing field"@) {
        (ConfigurationErrorKind::MissingRequiredField, "configuration"@, InvalidConfigurationValue::Missing)
    } else {
        (ConfigurationErrorKind::ParseFailed, "configuration"@, InvalidConfigurationValue::Malformed)
    }
}

fn contains_exec(s: &str, needle: &str) -> (r: bool)
    ensures
        r == contains_text(s@, needle@),
{
    let n = s.unicode_len();
    let m = needle.unicode_len();
    if m > n {
        assert forall|i: int| !occurs_at(s@, needle@, i) by {}
        return false;
    }
    let mut i: usize = 0;
    while i <= n - m
        invariant
            n == s@.len(),
            m == needle@.len(),
            m <= n,
            i <= n - m + 1,
            forall|j: int| 0 <= j < i ==> !occurs_at(s@, needle@, j),
        decreases n - i,
    {
        let mut k: usize = 0;
        let mut same = true;
        while k < m
            invariant
                n == s@.len(),
                m == needle@.len(),
                i + m <= n,
                k <= m,
                same == forall|q: int| 0 <= q < k ==> s@[i + q] == needle@[q],
            decreases m - k,
        {
            if s.get_char(i + k) != needle.get_char(k) {
                same = false;
            }
            k = k + 1;
        }
        if same {
            assert(s@.subrange(i as int, i + m) =~= needle@);
            assert(occurs_at(s@, needle@, i as int));
            return true;
        }
        assert(!occurs_at(s@, needle@, i as int)) by {
            if occurs_at(s@, needle@, i as int) {
                assert forall|q: int| 0 <= q < m implies s@[i + q] == needle@[q] by {
                    assert(s@.subrange(i as int, i + m)[q] == s@[i + q]);
                }
            }
        }
        i = i + 1;
    }
    assert forall|j: int| !occurs_at(s@, needle@, j) by {
        if 0 <= j < i {
        }
    }
    false
}

fn next_char_exec(s: &str, c: char, start: usize) -> (r: usize)
    requires
        start <= s@.len(),
    ensures
        r == next_char(s@, c, start as int),
        start <= r <= s@.len(),
{
    let n = s.unicode_len();
    let mut i = start;
    while i < n
        invariant
            n == s@.len(),
            start <= i <= n,
            next_char(s@, c, start as int) == next_char(s@, c, i as int),
        decreases n - i,
    {
        if s.get_char(i) == c {
            return i;
        }
        i = i + 1;
    }
    n
}

fn field_name(message: &str) -> (r: String)
    ensures
        r@ == named_field(message@),
{
    let n = message.unicode_len();
    let a = next_char_exec(message, '`', 0);
    if a >= n {
        return owned("configuration");
    }
    let b = next_char_exec(message, '`', a + 1);
    let name = message.substring_char(a + 1, b);
    if is_blank(name) {
        owned("configuration")
    } else {
        owned(name)
    }
}

fn trim_exec(s: &str) -> (r: String)
    ensures
        r@ == trimmed_text(s@),
{
    let n = s.unicode_len();
    proof {
        lemma_skip_space(s@, 0, n as int);
    }
    let a = skip_space_exec(s, 0, n);
    proof {
        lemma_trim_end_bounds(s@, a as int, n as int);
    }
    let b = trim_end_exec(s, a, n);
    owned(s.substring_char(a, b))
}

fn starts_exec(s: &str, p: &str) -> (r: bool)
    ensures
        r == starts(s@, p@),
{
    let n = s.unicode_len();
    let m = p.unicode_len();
    if m > n {
        return false;
    }
    let head = s.substring_char(0, m);
    str_equal(head, p)
}

fn ends_exec(s: &str, p: &str) -> (r: bool)
    ensures
        r == ends(s@, p@),
{
    let n = s.unicode_len();
    let m = p.unicode_len();
    if m > n {
        return false;
    }
    let tail = s.substring_char(n - m, n);
    str_equal(tail, p)
}

fn strip_prefix_exec(s: &str, p: &str) -> (r: String)
    requires
        p@.len() > 0,
    ensures
        r@ == strip_prefix_repeated(s@, p@),
    decreases s@.len(),
{
    if starts_exec(s, p) {
        let n = s.unicode_len();
        let m = p.unicode_len();
        strip_prefix_exec(s.substring_char(m, n), p)
    } else {
        owned(s)
    }
}

fn strip_suffix_exec(s: &str, p: &str) -> (r: String)
    requires
        p@.len() > 0,
    ensures
        r@ == strip_suffix_repeated(s@, p@),
    decreases s@.len(),
{
    if ends_exec(s, p) {
        let n = s.unicode_len();
        let m = p.unicode_len();
        strip_suffix_exec(s.substring_char(0, n - m), p)
    } else {
        owned(s)
    }
}

fn header_table_exec(line: &str) -> (r: Option<String>)
    ensures
        match header_table(line@) {
            Some(t) => r is Some && r.unwrap()@ == t,
            None => r is None,
        },
{
    proof {
        reveal_strlit("[[");
        reveal_strlit("]]");
        reveal_strlit("[");
        reveal_strlit("]");
    }
    let t = trim_exec(line);
    if starts_exec(t.as_str(), "[[") && ends_exec(t.as_str(), "]]") {
        let stripped = strip_prefix_exec(t.as_str(), "[[");
        Some(strip_suffix_exec(stripped.as_str(), "]]"))
    } else if starts_exec(t.as_str(), "[") && ends_exec(t.as_str(), "]") {
        let stripped = strip_prefix_exec(t.as_str(), "[");
        Some(strip_suffix_exec(stripped.as_str(), "]"))
    } else {
        None
    }
}

proof fn lemma_line_start(s: Seq<char>, end: int)
    requires
        0 <= end <= s.len(),
    ensures
        0 <= line_start(s, end) <= end,
    decreases end,
{
    if end > 0 && s[end - 1] != '\n' {
        lemma_line_start(s, end - 1);
    }
}

fn line_start_exec(s: &str, end: usize) -> (r: usize)
    requires
        end <= s@.len(),
    ensures
        r == line_start(s@, end as int),
{
    let mut e = end;
    while e > 0
        invariant
            e <= end,
            end <= s@.len(),
            line_start(s@, end as int) == line_start(s@, e as int),
        decreases e,
    {
        if s.get_char(e - 1) == '\n' {
            return e;
        }
        e = e - 1;
    }
    0
}

fn last_table_exec(s: &str) -> (r: Option<String>)
    ensures
        match last_table(s@, s@.len() as int) {
            Some(t) => r is Some && r.unwrap()@ == t,
            None => r is None,
        },
{
    let n = s.unicode_len();
    let mut end = n;
    loop
        invariant
            end <= n,
            n == s@.len(),
            last_table(s@, n as int) == last_table(s@, end as int),
        decreases end,
    {
        proof {
            lemma_line_start(s@, end as int);
        }
        let start = line_start_exec(s, end);
        match header_table_exec(s.substring_char(start, end)) {
            Some(t) => {
                return Some(t);
            },
            None => {},
        }
        if start == 0 {
            return None;
        }
        end = start - 1;
    }
}

/// Prefix of a text up to byte offset `end`, as characters.
pub open spec fn text_before(contents: &str, end: int) -> Seq<char> {
    vstd::utf8::decode_utf8(vstd::utf8::encode_utf8(contents@).subrange(0, end))
}

/// The offset where the prefix before a read error ends: the error's offset, at most the
/// length of the text.
pub open spec fn prefix_end(contents: &str, span_start: usize) -> int {
    if (span_start as int) < vstd::utf8::encode_utf8(contents@).len() {
        span_start as int
    } else {
        vstd::utf8::encode_utf8(contents@).len() as int
    }
}

/// Path of the unknown field a read error names, located by the nearest table header
/// above the byte offset where reading failed.
pub fn infer_unknown_field_path(contents: &str, span_start: Option<usize>, message: &str) -> (r: String)
    requires
        span_start is Some ==> vstd::utf8::is_char_boundary(
            vstd::utf8::encode_utf8(contents@),
            prefix_end(contents, span_start.unwrap()),
        ),
    ensures
        r@ == unknown_field_path(
            match span_start {
                Some(start) => Some(text_before(contents, prefix_end(contents, start))),
                None => None,
            },
            message@,
        ),
{
    let field = field_name(message);
    match span_start {
        None => field,
        Some(start) => {
            let bytes = contents.as_bytes();
            let end = if start < bytes.len() {
                start
            } else {
                bytes.len()
            };
            let (prefix, _) = contents.split_at(end);
            proof {
                vstd::utf8::encode_utf8_decode_utf8(prefix@);
                assert(vstd::utf8::encode_utf8(prefix@) =~= vstd::utf8::encode_utf8(contents@).subrange(0, end as int));
            }
            match last_table_exec(prefix) {
                Some(table) => {
                    if table.unicode_len() > 0 {
                        concat3(table.as_str(), ".", field.as_str())
                    } else {
                        field
                    }
                },
                None => field,
            }
        },
    }
}

/// Classifies a TOML read error by its message and the byte offset where reading failed.
pub fn classify_parse_error(contents: &str, span_start: Option<usize>, message: &str) -> (r: (
    ConfigurationErrorKind,
    String,
    InvalidConfigurationValue,
))
    requires
        span_start is Some && contains_text(message@, "unknown field"@) ==> vstd::utf8::is_char_boundary(
            vstd::utf8::encode_utf8(contents@),
            prefix_end(contents, span_start.unwrap()),
        ),
    ensures
        ({
            let prefix = match span_start {
                Some(start) => Some(text_before(contents, prefix_end(contents, start))),
                None => None,
            };
            let expected = parse_error_class(prefix, message@);
            r.0 == expected.0 && r.1@ == expected.1 && r.2 == expected.2
        }),
{
    proof {
        reveal_strlit("unknown field");
        reveal_strlit("missing field");
    }
    if contains_exec(message, "unknown field") {
        let path = infer_unknown_field_path(contents, span_start, message);
        (ConfigurationErrorKind::UnknownField, path, InvalidConfigurationValue::Unsupported)
    } else if contains_exec(message, "missing field") {
        (ConfigurationErrorKind::MissingRequiredField, owned("configuration"), InvalidConfigurationValue::Missing)
    } else {
        (ConfigurationErrorKind::ParseFailed, owned("configuration"), InvalidConfigurationValue::Malformed)
    }
}

/// The configuration error for a TOML read error from `source`.
pub fn parse_failure(
    contents: &str,
    span_start: Option<usize>,
    message: &str,
    source: ConfigurationSourceMetadata,
) -> (r: CoreError)
    requires
        span_start is Some && contains_text(message@, "unknown field"@) ==> vstd::utf8::is_char_boundary(
            vstd::utf8::encode_utf8(contents@),
            prefix_end(contents, span_start.unwrap()),
        ),
    ensures
        ({
            let prefix = match span_start {
                Some(start) => Some(text_before(contents, prefix_end(contents, start))),
                None => None,
            };
            let expected = parse_error_class(prefix, message@);
            &&& r matches CoreError::Configuration { errors }
            &&& errors@.len() == 1
            &&& errors@[0]@ == (ConfigurationIssue {
                kind: expected.0,
                field_path: expected.1,
                invalid_value: expected.2,
                source: Some(source@),
                message: Some(message@),
            })
        }),
{
    let (kind, field, invalid_value) = classify_parse_error(contents, span_start, message);
    let description = source.description.clone();
    let error = ConfigurationError::with_message(kind, field.as_str(), invalid_value, Some(source), message);
    let mut errors: Vec<ConfigurationError> = Vec::new();
    errors.push(error);
    CoreError::Configuration { errors }
}

} // verus!
