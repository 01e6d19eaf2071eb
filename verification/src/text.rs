//! Character classes and small verified string utilities shared by the validators.

use vstd::prelude::*;
use vstd::string::*;

verus! {

/// Closed set of character classes accepted by identifier validators.
#[derive(Clone, Copy, Debug, PartialEq, Eq, Structural)]
pub enum CharSet {
    /// ASCII letters and digits.
    AsciiAlnum,
    /// ASCII digits.
    AsciiDigit,
    /// ASCII letters, digits and `_`.
    Word,
    /// ASCII letters and `_` (first character of an environment variable name).
    WordStart,
    /// ASCII letters, digits and `- _ . / space`.
    Upstream,
    /// Lowercase ASCII letters, digits and `- _`.
    Region,
    /// ASCII letters, digits and `. _ / -`.
    SourceId,
    /// ASCII letters, digits and `- _ .`.
    Token,
    /// Visible ASCII except `(` and `)`.
    CommentToken,
    /// ASCII letters, digits and `- _ . :`.
    IdempotencyKey,
    /// ASCII letters, digits and `- _ . ~`.
    QueryName,
    /// Lowercase ASCII letters, digits and `. _ / -`.
    NormalizedProviderId,
    /// ASCII letters, digits and `. - _ +`.
    Version,
    /// Any character except ASCII control characters.
    NotControl,
    /// Characters accepted in an HTTP header value: not a control character except tab.
    HeaderValue,
    /// ASCII characters other than `/ : @`.
    HostLabel,
    /// Any ASCII character.
    Ascii,
    /// ASCII letters, digits and `- _`.
    Category,
}

pub open spec fn is_upper(c: char) -> bool {
    'A' <= c && c <= 'Z'
}

pub open spec fn is_lower(c: char) -> bool {
    'a' <= c && c <= 'z'
}

pub open spec fn is_digit(c: char) -> bool {
    '0' <= c && c <= '9'
}

pub open spec fn is_alpha(c: char) -> bool {
    is_upper(c) || is_lower(c)
}

pub open spec fn is_alnum(c: char) -> bool {
    is_alpha(c) || is_digit(c)
}

pub open spec fn is_ascii_char(c: char) -> bool {
    (c as u32) < 128
}

/// Unicode `White_Space` characters, as recognised by `char::is_whitespace`.
pub open spec fn is_white_space(c: char) -> bool {
    ||| ('\u{9}' <= c && c <= '\u{d}')
    ||| c == ' '
    ||| c == '\u{85}'
    ||| c == '\u{a0}'
    ||| c == '\u{1680}'
    ||| ('\u{2000}' <= c && c <= '\u{200a}')
    ||| c == '\u{2028}'
    ||| c == '\u{2029}'
    ||| c == '\u{202f}'
    ||| c == '\u{205f}'
    ||| c == '\u{3000}'
}

pub open spec fn in_set(c: char, set: CharSet) -> bool {
    match set {
        CharSet::AsciiAlnum => is_alnum(c),
        CharSet::AsciiDigit => is_digit(c),
        CharSet::Word => is_alnum(c) || c == '_',
        CharSet::WordStart => is_alpha(c) || c == '_',
        CharSet::Upstream => is_alnum(c) || c == '-' || c == '_' || c == '.' || c == '/' || c == ' ',
        CharSet::Region => is_lower(c) || is_digit(c) || c == '-' || c == '_',
        CharSet::SourceId => is_alnum(c) || c == '.' || c == '_' || c == '/' || c == '-',
        CharSet::Token => is_alnum(c) || c == '-' || c == '_' || c == '.',
        CharSet::CommentToken => '!' <= c && c <= '~' && c != '(' && c != ')',
        CharSet::IdempotencyKey => is_alnum(c) || c == '-' || c == '_' || c == '.' || c == ':',
        CharSet::QueryName => is_alnum(c) || c == '-' || c == '_' || c == '.' || c == '~',
        CharSet::NormalizedProviderId => is_lower(c) || is_digit(c) || c == '.' || c == '_' || c
            == '/' || c == '-',
        CharSet::Version => is_alnum(c) || c == '.' || c == '-' || c == '_' || c == '+',
        CharSet::NotControl => !((c as u32) < 32 || c == '\u{7f}'),
        CharSet::HeaderValue => ((c as u32) >= 32 && (c as u32) != 127) || (c as u32) == 9,
        CharSet::HostLabel => is_ascii_char(c) && c != '/' && c != ':' && c != '@',
        CharSet::Ascii => is_ascii_char(c),
        CharSet::Category => is_alnum(c) || c == '-' || c == '_',
    }
}

/// Every character of `s` belongs to `set`.
pub open spec fn all_in_set(s: Seq<char>, set: CharSet) -> bool {
    forall|i: int| 0 <= i < s.len() ==> #[trigger] in_set(s[i], set)
}

/// `trim()` would change the string: its first or last character is white space.
pub open spec fn has_boundary_whitespace(s: Seq<char>) -> bool {
    s.len() > 0 && (is_white_space(s[0]) || is_white_space(s[s.len() - 1]))
}

/// Every character is white space (so `trim()` yields the empty string).
pub open spec fn is_blank(s: Seq<char>) -> bool {
    forall|i: int| 0 <= i < s.len() ==> #[trigger] is_white_space(s[i])
}

/// Number of bytes in the UTF-8 encoding of one character.
pub open spec fn utf8_width(c: char) -> nat {
    if (c as u32) < 0x80 {
        1
    } else if (c as u32) < 0x800 {
        2
    } else if (c as u32) < 0x10000 {
        3
    } else {
        4
    }
}

/// Number of bytes in the UTF-8 encoding of `s`.
pub open spec fn utf8_len(s: Seq<char>) -> nat
    decreases s.len(),
{
    if s.len() == 0 {
        0
    } else {
        utf8_len(s.drop_last()) + utf8_width(s.last())
    }
}

/// A character never needs more than four bytes.
pub proof fn lemma_utf8_len_bound(s: Seq<char>)
    ensures
        utf8_len(s) <= 4 * s.len(),
    decreases s.len(),
{
    if s.len() > 0 {
        lemma_utf8_len_bound(s.drop_last());
    }
}

/// An ASCII string has one byte per character.
pub proof fn lemma_utf8_len_ascii(s: Seq<char>)
    requires
        forall|i: int| 0 <= i < s.len() ==> (#[trigger] s[i] as u32) < 0x80,
    ensures
        utf8_len(s) == s.len(),
    decreases s.len(),
{
    if s.len() > 0 {
        assert forall|i: int| 0 <= i < s.drop_last().len() implies (#[trigger] s.drop_last()[i] as u32)
            < 0x80 by {
            assert(s.drop_last()[i] == s[i]);
        }
        lemma_utf8_len_ascii(s.drop_last());
        assert((s[s.len() - 1] as u32) < 0x80);
    }
}

/// The encoded length of a prefix never exceeds that of the whole string.
pub proof fn lemma_utf8_len_prefix(s: Seq<char>, i: int)
    requires
        0 <= i <= s.len(),
    ensures
        utf8_len(s.subrange(0, i)) <= utf8_len(s),
    decreases s.len() - i,
{
    if i < s.len() {
        lemma_utf8_len_prefix(s, i + 1);
        assert(s.subrange(0, i + 1).drop_last() =~= s.subrange(0, i));
    } else {
        assert(s.subrange(0, i) =~= s);
    }
}

pub open spec fn lower_char(c: char) -> char {
    if is_upper(c) {
        ((c as u32) + 32) as char
    } else {
        c
    }
}

pub open spec fn ascii_lowercase(s: Seq<char>) -> Seq<char> {
    s.map_values(|c: char| lower_char(c))
}

pub open spec fn starts_with(s: Seq<char>, prefix: Seq<char>) -> bool {
    prefix.len() <= s.len() && s.subrange(0, prefix.len() as int) == prefix
}

pub open spec fn ends_with(s: Seq<char>, suffix: Seq<char>) -> bool {
    suffix.len() <= s.len() && s.subrange(s.len() - suffix.len(), s.len() as int) == suffix
}

/// `needle` occurs in `s` as a contiguous run.
pub open spec fn contains_seq(s: Seq<char>, needle: Seq<char>) -> bool {
    exists|i: int|
        0 <= i && i + needle.len() <= s.len() && #[trigger] s.subrange(i, i + needle.len())
            == needle
}

/// `c` occurs in `s`.
pub open spec fn has_char(s: Seq<char>, c: char) -> bool {
    exists|i: int| 0 <= i < s.len() && s[i] == c
}

pub fn char_in_set(c: char, set: CharSet) -> (r: bool)
    ensures
        r == in_set(c, set),
{
    let alnum = ('a' <= c && c <= 'z') || ('A' <= c && c <= 'Z') || ('0' <= c && c <= '9');
    match set {
        CharSet::AsciiAlnum => alnum,
        CharSet::AsciiDigit => '0' <= c && c <= '9',
        CharSet::Word => alnum || c == '_',
        CharSet::WordStart => ('a' <= c && c <= 'z') || ('A' <= c && c <= 'Z') || c == '_',
        CharSet::Upstream => alnum || c == '-' || c == '_' || c == '.' || c == '/' || c == ' ',
        CharSet::Region => ('a' <= c && c <= 'z') || ('0' <= c && c <= '9') || c == '-' || c
            == '_',
        CharSet::SourceId => alnum || c == '.' || c == '_' || c == '/' || c == '-',
        CharSet::Token => alnum || c == '-' || c == '_' || c == '.',
        CharSet::CommentToken => '!' <= c && c <= '~' && c != '(' && c != ')',
        CharSet::IdempotencyKey => alnum || c == '-' || c == '_' || c == '.' || c == ':',
        CharSet::QueryName => alnum || c == '-' || c == '_' || c == '.' || c == '~',
        CharSet::NormalizedProviderId => ('a' <= c && c <= 'z') || ('0' <= c && c <= '9') || c
            == '.' || c == '_' || c == '/' || c == '-',
        CharSet::Version => alnum || c == '.' || c == '-' || c == '_' || c == '+',
        CharSet::NotControl => !(c < ' ' || c == '\u{7f}'),
        CharSet::HeaderValue => ((c as u32) >= 32 && (c as u32) != 127) || (c as u32) == 9,
        CharSet::HostLabel => c <= '\u{7f}' && c != '/' && c != ':' && c != '@',
        CharSet::Ascii => c <= '\u{7f}',
        CharSet::Category => alnum || c == '-' || c == '_',
    }
}

pub fn char_is_white_space(c: char) -> (r: bool)
    ensures
        r == is_white_space(c),
{
    ('\u{9}' <= c && c <= '\u{d}') || c == ' ' || c == '\u{85}' || c == '\u{a0}' || c
        == '\u{1680}' || ('\u{2000}' <= c && c <= '\u{200a}') || c == '\u{2028}' || c
        == '\u{2029}' || c == '\u{202f}' || c == '\u{205f}' || c == '\u{3000}'
}

/// Copies the characters of `s` into a vector.
pub fn chars_of(s: &str) -> (r: Vec<char>)
    ensures
        r@ == s@,
{
    let n = s.unicode_len();
    let mut out: Vec<char> = Vec::new();
    let mut i: usize = 0;
    while i < n
        invariant
            n == s@.len(),
            i <= n,
            out@ == s@.subrange(0, i as int),
        decreases n - i,
    {
        let c = s.get_char(i);
        out.push(c);
        i = i + 1;
    }
    out
}

/// Number of characters of `s`.
pub fn char_count(s: &str) -> (r: usize)
    ensures
        r == s@.len(),
{
    s.unicode_len()
}

fn char_utf8_width(c: char) -> (r: usize)
    ensures
        r == utf8_width(c),
{
    let v = c as u32;
    if v < 0x80 {
        1
    } else if v < 0x800 {
        2
    } else if v < 0x10000 {
        3
    } else {
        4
    }
}

/// Whether the UTF-8 encoding of `s` is longer than `limit` bytes.
pub fn utf8_len_exceeds(s: &str, limit: usize) -> (r: bool)
    requires
        limit <= 0x1000_0000,
    ensures
        r == (utf8_len(s@) > limit),
{
    let n = s.unicode_len();
    let mut total: usize = 0;
    let mut i: usize = 0;
    while i < n
        invariant
            n == s@.len(),
            i <= n,
            limit <= 0x1000_0000,
            total == utf8_len(s@.subrange(0, i as int)),
            total <= limit,
        decreases n - i,
    {
        let w = char_utf8_width(s.get_char(i));
        proof {
            assert(s@.subrange(0, i + 1).drop_last() =~= s@.subrange(0, i as int));
        }
        total = total + w;
        i = i + 1;
        if total > limit {
            proof {
                lemma_utf8_len_prefix(s@, i as int);
            }
            return true;
        }
    }
    proof {
        assert(s@.subrange(0, n as int) =~= s@);
    }
    false
}

pub fn all_chars_in(s: &str, set: CharSet) -> (r: bool)
    ensures
        r == all_in_set(s@, set),
{
    let n = s.unicode_len();
    let mut i: usize = 0;
    while i < n
        invariant
            n == s@.len(),
            i <= n,
            forall|j: int| 0 <= j < i ==> #[trigger] in_set(s@[j], set),
        decreases n - i,
    {
        if !char_in_set(s.get_char(i), set) {
            return false;
        }
        i = i + 1;
    }
    true
}

pub fn boundary_whitespace(s: &str) -> (r: bool)
    ensures
        r == has_boundary_whitespace(s@),
{
    let n = s.unicode_len();
    if n == 0 {
        return false;
    }
    char_is_white_space(s.get_char(0)) || char_is_white_space(s.get_char(n - 1))
}

pub fn blank(s: &str) -> (r: bool)
    ensures
        r == is_blank(s@),
{
    let n = s.unicode_len();
    let mut i: usize = 0;
    while i < n
        invariant
            n == s@.len(),
            i <= n,
            forall|j: int| 0 <= j < i ==> #[trigger] is_white_space(s@[j]),
        decreases n - i,
    {
        if !char_is_white_space(s.get_char(i)) {
            return false;
        }
        i = i + 1;
    }
    true
}

pub fn lower_char_exec(c: char) -> (r: char)
    ensures
        r == lower_char(c),
{
    if 'A' <= c && c <= 'Z' {
        let b = c as u8;
        assert(b as u32 == c as u32);
        let lowered = (b + 32) as char;
        lowered
    } else {
        c
    }
}

/// Builds a `String` from its characters (`String::from_iter` over `char`).
#[verifier::external_body]
pub fn string_from_chars(chars: &Vec<char>) -> (r: String)
    ensures
        r@ == chars@,
{
    chars.iter().collect()
}

pub fn to_ascii_lowercase(s: &str) -> (r: String)
    ensures
        r@ == ascii_lowercase(s@),
{
    let chars = chars_of(s);
    let mut out: Vec<char> = Vec::new();
    let mut i: usize = 0;
    while i < chars.len()
        invariant
            chars@ == s@,
            i <= chars.len(),
            out@ == ascii_lowercase(s@.subrange(0, i as int)),
        decreases chars.len() - i,
    {
        let c = lower_char_exec(chars[i]);
        out.push(c);
        proof {
            assert(ascii_lowercase(s@.subrange(0, i + 1)) =~= ascii_lowercase(
                s@.subrange(0, i as int),
            ).push(lower_char(s@[i as int])));
        }
        i = i + 1;
    }
    proof {
        assert(s@.subrange(0, s@.len() as int) =~= s@);
    }
    string_from_chars(&out)
}

/// Whether `needle` occurs at position `at` of `s`.
pub fn matches_at(s: &Vec<char>, needle: &Vec<char>, at: usize) -> (r: bool)
    requires
        at + needle@.len() <= s@.len(),
    ensures
        r == (s@.subrange(at as int, at + needle@.len()) == needle@),
{
    let mut k: usize = 0;
    while k < needle.len()
        invariant
            at + needle@.len() <= s@.len(),
            s@.len() == s.len(),
            k <= needle@.len(),
            forall|j: int| 0 <= j < k ==> s@[at + j] == needle@[j],
        decreases needle.len() - k,
    {
        if s[at + k] != needle[k] {
            proof {
                assert(s@.subrange(at as int, at + needle@.len())[k as int] != needle@[k as int]);
            }
            return false;
        }
        k = k + 1;
    }
    proof {
        assert(s@.subrange(at as int, at + needle@.len()) =~= needle@);
    }
    true
}

pub fn str_starts_with(s: &str, prefix: &str) -> (r: bool)
    ensures
        r == starts_with(s@, prefix@),
{
    let sv = chars_of(s);
    let pv = chars_of(prefix);
    if pv.len() > sv.len() {
        return false;
    }
    matches_at(&sv, &pv, 0)
}

pub fn str_ends_with(s: &str, suffix: &str) -> (r: bool)
    ensures
        r == ends_with(s@, suffix@),
{
    let sv = chars_of(s);
    let pv = chars_of(suffix);
    if pv.len() > sv.len() {
        return false;
    }
    matches_at(&sv, &pv, sv.len() - pv.len())
}

pub fn str_contains(s: &str, needle: &str) -> (r: bool)
    ensures
        r == contains_seq(s@, needle@),
{
    let sv = chars_of(s);
    let nv = chars_of(needle);
    if nv.len() > sv.len() {
        return false;
    }
    let last = sv.len() - nv.len();
    let mut i: usize = 0;
    loop
        invariant
            sv@ == s@,
            nv@ == needle@,
            last + nv@.len() == sv@.len(),
            i <= last,
            forall|j: int| 0 <= j < i ==> #[trigger] s@.subrange(j, j + needle@.len()) != needle@,
        decreases last - i,
    {
        if matches_at(&sv, &nv, i) {
            return true;
        }
        if i == last {
            proof {
                assert forall|j: int|
                    0 <= j && j + needle@.len() <= s@.len() implies #[trigger] s@.subrange(
                    j,
                    j + needle@.len(),
                ) != needle@ by {
                    assert(j <= i);
                }
            }
            return false;
        }
        i = i + 1;
    }
}

pub fn str_has_char(s: &str, c: char) -> (r: bool)
    ensures
        r == has_char(s@, c),
{
    let n = s.unicode_len();
    let mut i: usize = 0;
    while i < n
        invariant
            n == s@.len(),
            i <= n,
            forall|j: int| 0 <= j < i ==> s@[j] != c,
        decreases n - i,
    {
        if s.get_char(i) == c {
            return true;
        }
        i = i + 1;
    }
    false
}

/// Exact equality of two strings.
pub fn str_eq(a: &str, b: &str) -> (r: bool)
    ensures
        r == (a@ == b@),
{
    let av = chars_of(a);
    let bv = chars_of(b);
    if av.len() != bv.len() {
        return false;
    }
    let r = matches_at(&av, &bv, 0);
    proof {
        assert(av@.subrange(0, bv@.len() as int) =~= av@);
    }
    r
}

/// Whether the UTF-8 encoding of `s` is longer than 256 bytes.
pub fn byte_len_exceeds_256(s: &str) -> (r: bool)
    ensures
        r == (utf8_len(s@) > 256),
{
    utf8_len_exceeds(s, 256)
}

/// Concatenates two strings.
pub fn concat(a: String, b: &str) -> (r: String)
    ensures
        r@ == a@ + b@,
{
    a.concat(b)
}

/// Copies a string slice into an owned `String`.
pub fn owned(s: &str) -> (r: String)
    ensures
        r@ == s@,
{
    s.to_owned()
}


/// `s` without every trailing occurrence of `c`.
pub open spec fn trim_end_char(s: Seq<char>, c: char) -> Seq<char>
    decreases s.len(),
{
    if s.len() > 0 && s.last() == c {
        trim_end_char(s.drop_last(), c)
    } else {
        s
    }
}

/// Builds a `String` from the first `end` characters of `chars`.
pub fn prefix_string(chars: &Vec<char>, end: usize) -> (r: String)
    requires
        end <= chars@.len(),
    ensures
        r@ == chars@.subrange(0, end as int),
{
    let mut out: Vec<char> = Vec::new();
    let mut i: usize = 0;
    while i < end
        invariant
            end <= chars@.len(),
            i <= end,
            out@ == chars@.subrange(0, i as int),
        decreases end - i,
    {
        out.push(chars[i]);
        i = i + 1;
    }
    string_from_chars(&out)
}

/// Removes every trailing occurrence of `c` (`str::trim_end_matches` with a character).
pub fn trim_end_matching(s: &str, c: char) -> (r: String)
    ensures
        r@ == trim_end_char(s@, c),
{
    let chars = chars_of(s);
    let mut end: usize = chars.len();
    proof {
        assert(s@.subrange(0, end as int) =~= s@);
    }
    while end > 0 && chars[end - 1] == c
        invariant
            chars@ == s@,
            end <= chars@.len(),
            trim_end_char(s@, c) == trim_end_char(s@.subrange(0, end as int), c),
        decreases end,
    {
        proof {
            assert(s@.subrange(0, end as int).drop_last() =~= s@.subrange(0, end - 1));
        }
        end = end - 1;
    }
    prefix_string(&chars, end)
}

/// Every character of `s` is ASCII.
pub open spec fn all_ascii(s: Seq<char>) -> bool {
    forall|i: int| 0 <= i < s.len() ==> is_ascii_char(#[trigger] s[i])
}


/// Lexicographic order of character sequences by code point, a proper prefix first.
///
/// This is the order of `str` and `String` comparison, since UTF-8 preserves the order of
/// code points.
pub open spec fn seq_lt(a: Seq<char>, b: Seq<char>) -> bool
    decreases a.len(),
{
    if a.len() == 0 {
        b.len() > 0
    } else if b.len() == 0 {
        false
    } else if a[0] != b[0] {
        a[0] < b[0]
    } else {
        seq_lt(a.drop_first(), b.drop_first())
    }
}

/// `seq_lt` is irreflexive.
pub proof fn lemma_seq_lt_irreflexive(a: Seq<char>)
    ensures
        !seq_lt(a, a),
    decreases a.len(),
{
    if a.len() > 0 {
        lemma_seq_lt_irreflexive(a.drop_first());
    }
}

/// `seq_lt` is transitive.
pub proof fn lemma_seq_lt_transitive(a: Seq<char>, b: Seq<char>, c: Seq<char>)
    requires
        seq_lt(a, b),
        seq_lt(b, c),
    ensures
        seq_lt(a, c),
    decreases a.len(),
{
    if a.len() > 0 && b.len() > 0 && c.len() > 0 && a[0] == b[0] && b[0] == c[0] {
        lemma_seq_lt_transitive(a.drop_first(), b.drop_first(), c.drop_first());
    }
}

/// Two different sequences are ordered one way or the other, and never both ways.
pub proof fn lemma_seq_lt_total(a: Seq<char>, b: Seq<char>)
    ensures
        a != b ==> seq_lt(a, b) || seq_lt(b, a),
        !(seq_lt(a, b) && seq_lt(b, a)),
    decreases a.len(),
{
    if a.len() > 0 && b.len() > 0 {
        if a[0] == b[0] {
            lemma_seq_lt_total(a.drop_first(), b.drop_first());
            if a != b {
                assert(a =~= seq![a[0]] + a.drop_first());
                assert(b =~= seq![b[0]] + b.drop_first());
            }
        }
    } else if a.len() == 0 && b.len() == 0 {
        assert(a =~= b);
    }
}

/// Whether `a` orders strictly before `b` (`<` on `str`).
pub fn str_lt(a: &str, b: &str) -> (r: bool)
    ensures
        r == seq_lt(a@, b@),
{
    let av = chars_of(a);
    let bv = chars_of(b);
    let mut i: usize = 0;
    proof {
        assert(a@.skip(0) =~= a@);
        assert(b@.skip(0) =~= b@);
    }
    while i < av.len() && i < bv.len() && av[i] == bv[i]
        invariant
            av@ == a@,
            bv@ == b@,
            i <= a@.len(),
            i <= b@.len(),
            seq_lt(a@, b@) == seq_lt(a@.skip(i as int), b@.skip(i as int)),
        decreases a@.len() - i,
    {
        proof {
            assert(a@.skip(i as int).drop_first() =~= a@.skip(i + 1));
            assert(b@.skip(i as int).drop_first() =~= b@.skip(i + 1));
        }
        i = i + 1;
    }
    if i == av.len() {
        assert(a@.skip(i as int).len() == 0);
        i < bv.len()
    } else if i == bv.len() {
        assert(b@.skip(i as int).len() == 0);
        false
    } else {
        assert(a@.skip(i as int)[0] == a@[i as int]);
        assert(b@.skip(i as int)[0] == b@[i as int]);
        av[i] < bv[i]
    }
}

/// `s` without every leading occurrence of `c`.
pub open spec fn trim_start_char(s: Seq<char>, c: char) -> Seq<char>
    decreases s.len(),
{
    if s.len() > 0 && s[0] == c {
        trim_start_char(s.drop_first(), c)
    } else {
        s
    }
}

/// Builds a `String` from `chars[from..to]`.
pub fn slice_string(chars: &Vec<char>, from: usize, to: usize) -> (r: String)
    requires
        from <= to <= chars@.len(),
    ensures
        r@ == chars@.subrange(from as int, to as int),
{
    let mut out: Vec<char> = Vec::new();
    let mut i: usize = from;
    while i < to
        invariant
            from <= i <= to <= chars@.len(),
            out@ == chars@.subrange(from as int, i as int),
        decreases to - i,
    {
        out.push(chars[i]);
        i = i + 1;
    }
    string_from_chars(&out)
}

/// Removes every leading occurrence of `c` (`str::trim_start_matches` with a character).
pub fn trim_start_matching(s: &str, c: char) -> (r: String)
    ensures
        r@ == trim_start_char(s@, c),
{
    let chars = chars_of(s);
    let mut start: usize = 0;
    proof {
        assert(s@.skip(0) =~= s@);
    }
    while start < chars.len() && chars[start] == c
        invariant
            chars@ == s@,
            start <= chars@.len(),
            trim_start_char(s@, c) == trim_start_char(s@.skip(start as int), c),
        decreases chars.len() - start,
    {
        proof {
            assert(s@.skip(start as int).drop_first() =~= s@.skip(start + 1));
        }
        start = start + 1;
    }
    proof {
        assert(s@.skip(start as int) =~= s@.subrange(start as int, s@.len() as int));
    }
    slice_string(&chars, start, chars.len())
}

/// The pieces of `s` between occurrences of `c` (`str::split` with a character): one
/// piece more than there are separators.
pub open spec fn split_char(s: Seq<char>, c: char) -> Seq<Seq<char>>
    decreases s.len(),
{
    if s.len() == 0 {
        seq![Seq::empty()]
    } else if s.last() == c {
        split_char(s.drop_last(), c).push(Seq::empty())
    } else {
        let parts = split_char(s.drop_last(), c);
        parts.update(parts.len() - 1, parts.last().push(s.last()))
    }
}

/// Splitting always yields at least one piece.
pub proof fn lemma_split_char_len(s: Seq<char>, c: char)
    ensures
        split_char(s, c).len() >= 1,
    decreases s.len(),
{
    if s.len() > 0 {
        lemma_split_char_len(s.drop_last(), c);
    }
}

/// Splits `s` at every `c`.
pub fn split_on(s: &str, c: char) -> (r: Vec<String>)
    ensures
        r@.len() == split_char(s@, c).len(),
        forall|i: int| 0 <= i < r@.len() ==> #[trigger] r@[i]@ == split_char(s@, c)[i],
{
    let chars = chars_of(s);
    let mut parts: Vec<String> = Vec::new();
    let mut current: Vec<char> = Vec::new();
    let mut i: usize = 0;
    while i < chars.len()
        invariant
            chars@ == s@,
            i <= chars@.len(),
            split_char(s@.take(i as int), c).len() == parts@.len() + 1,
            forall|j: int| 0 <= j < parts@.len() ==> #[trigger] parts@[j]@ == split_char(s@.take(i as int), c)[j],
            split_char(s@.take(i as int), c).last() == current@,
        decreases chars.len() - i,
    {
        let ch = chars[i];
        proof {
            assert(s@.take(i + 1).drop_last() =~= s@.take(i as int));
            lemma_split_char_len(s@.take(i as int), c);
        }
        if ch == c {
            let piece = string_from_chars(&current);
            parts.push(piece);
            current = Vec::new();
        } else {
            current.push(ch);
        }
        i = i + 1;
    }
    proof {
        assert(s@.take(chars@.len() as int) =~= s@);
    }
    let last = string_from_chars(&current);
    parts.push(last);
    parts
}

/// The characters of a byte, as `char::from` gives them.
pub open spec fn byte_char(b: u8) -> char {
    b as char
}

/// An unreserved URI byte: an ASCII letter or digit, `-`, `_` or `~`.
pub open spec fn is_unreserved(b: u8) -> bool {
    (48 <= b <= 57) || (65 <= b <= 90) || (97 <= b <= 122) || b == 45 || b == 95 || b == 126
}

/// Upper-case hexadecimal digits.
pub open spec fn hex_digits() -> Seq<char> {
    seq!['0', '1', '2', '3', '4', '5', '6', '7', '8', '9', 'A', 'B', 'C', 'D', 'E', 'F']
}

/// How one byte of a path segment is written: itself when unreserved, else `%XX`.
pub open spec fn encoded_byte(b: u8) -> Seq<char> {
    if is_unreserved(b) {
        seq![byte_char(b)]
    } else {
        seq!['%', hex_digits()[(b / 16) as int], hex_digits()[(b % 16) as int]]
    }
}

/// Percent-encoding of a byte sequence, keeping unreserved bytes.
pub open spec fn percent_encoded(bytes: Seq<u8>) -> Seq<char>
    decreases bytes.len(),
{
    if bytes.len() == 0 {
        Seq::empty()
    } else {
        percent_encoded(bytes.drop_last()) + encoded_byte(bytes.last())
    }
}

fn hex_digit(n: u8) -> (r: char)
    requires
        n < 16,
    ensures
        r == hex_digits()[n as int],
{
    if n == 0 { '0' } else if n == 1 { '1' } else if n == 2 { '2' } else if n == 3 { '3' }
    else if n == 4 { '4' } else if n == 5 { '5' } else if n == 6 { '6' } else if n == 7 { '7' }
    else if n == 8 { '8' } else if n == 9 { '9' } else if n == 10 { 'A' } else if n == 11 { 'B' }
    else if n == 12 { 'C' } else if n == 13 { 'D' } else if n == 14 { 'E' } else { 'F' }
}

/// Percent-encodes the UTF-8 bytes of `value` for use as one URL path segment.
pub fn encode_path_segment(value: &str) -> (r: String)
    ensures
        r@ == percent_encoded(value.spec_bytes()),
{
    let bytes = value.as_bytes();
    let mut out: Vec<char> = Vec::new();
    let mut i: usize = 0;
    while i < bytes.len()
        invariant
            bytes@ == value.spec_bytes(),
            i <= bytes@.len(),
            out@ == percent_encoded(bytes@.take(i as int)),
        decreases bytes.len() - i,
    {
        let b = bytes[i];
        proof {
            assert(bytes@.take(i + 1).drop_last() =~= bytes@.take(i as int));
        }
        if (48 <= b && b <= 57) || (65 <= b && b <= 90) || (97 <= b && b <= 122) || b == 45 || b
            == 95 || b == 126 {
            out.push(b as char);
        } else {
            out.push('%');
            out.push(hex_digit(b / 16));
            out.push(hex_digit(b % 16));
        }
        proof {
            assert(out@ =~= percent_encoded(bytes@.take(i + 1)));
        }
        i = i + 1;
    }
    proof {
        assert(bytes@.take(bytes@.len() as int) =~= bytes@);
    }
    string_from_chars(&out)
}

/// Appends the characters of `text` to `out`.
pub fn push_chars(out: &mut Vec<char>, text: &str)
    ensures
        final(out)@ == old(out)@ + text@,
{
    let chars = chars_of(text);
    let mut i: usize = 0;
    let ghost start = out@;
    while i < chars.len()
        invariant
            i <= chars@.len(),
            chars@ == text@,
            out@ == start + chars@.take(i as int),
        decreases chars.len() - i,
    {
        out.push(chars[i]);
        proof {
            assert(start + chars@.take(i + 1) =~= (start + chars@.take(i as int)).push(
                chars@[i as int],
            ));
        }
        i = i + 1;
    }
    proof {
        assert(chars@.take(i as int) =~= chars@);
    }
}

/// `s` without leading white space.
pub open spec fn trim_start_ws(s: Seq<char>) -> Seq<char>
    decreases s.len(),
{
    if s.len() > 0 && is_white_space(s[0]) {
        trim_start_ws(s.drop_first())
    } else {
        s
    }
}

/// `s` without trailing white space.
pub open spec fn trim_end_ws(s: Seq<char>) -> Seq<char>
    decreases s.len(),
{
    if s.len() > 0 && is_white_space(s.last()) {
        trim_end_ws(s.drop_last())
    } else {
        s
    }
}

/// `s` without leading and trailing white space (`str::trim`).
pub open spec fn trim_ws(s: Seq<char>) -> Seq<char> {
    trim_end_ws(trim_start_ws(s))
}

/// Removes leading and trailing white space.
pub fn trim(s: &str) -> (r: String)
    ensures
        r@ == trim_ws(s@),
{
    let chars = chars_of(s);
    let mut start: usize = 0;
    proof {
        assert(s@.skip(0) =~= s@);
    }
    while start < chars.len() && char_is_white_space(chars[start])
        invariant
            chars@ == s@,
            start <= chars@.len(),
            trim_start_ws(s@) == trim_start_ws(s@.skip(start as int)),
        decreases chars.len() - start,
    {
        proof {
            assert(s@.skip(start as int).drop_first() =~= s@.skip(start + 1));
        }
        start = start + 1;
    }
    let ghost head = s@.skip(start as int);
    proof {
        assert(trim_start_ws(s@) == head);
        assert(head.subrange(0, head.len() as int) =~= head);
    }
    let mut end: usize = chars.len();
    while end > start && char_is_white_space(chars[end - 1])
        invariant
            chars@ == s@,
            start <= end <= chars@.len(),
            head == s@.skip(start as int),
            trim_end_ws(head) == trim_end_ws(s@.subrange(start as int, end as int)),
        decreases end,
    {
        proof {
            assert(s@.subrange(start as int, end as int).drop_last() =~= s@.subrange(
                start as int,
                end - 1,
            ));
        }
        end = end - 1;
    }
    proof {
        assert(head =~= s@.subrange(start as int, chars@.len() as int));
    }
    slice_string(&chars, start, end)
}

}
