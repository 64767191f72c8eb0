//! Text predicates shared by the providers.
//!
//! Process names arrive from the host as raw bytes and are compared byte by
//! byte; tool output arrives as text and is inspected character by
//! character.
use vstd::prelude::*;
use vstd::string::*;
use vstd::utf8::{encode_utf8, valid_utf8};

verus! {

/// The ASCII lower-case form of one byte; bytes outside `A..=Z` are unchanged.
pub open spec fn ascii_lower(b: u8) -> u8 {
    if 65 <= b <= 90 {
        (b + 32) as u8
    } else {
        b
    }
}

/// Two byte strings that agree up to the case of ASCII letters.
pub open spec fn bytes_match(a: Seq<u8>, b: Seq<u8>) -> bool {
    &&& a.len() == b.len()
    &&& forall|i: int| 0 <= i < a.len() ==> ascii_lower(#[trigger] a[i]) == ascii_lower(b[i])
}

/// Whether `name` matches the UTF-8 encoding of any entry of `list`, up to
/// the case of ASCII letters.
pub open spec fn matches_any(list: Seq<Seq<char>>, name: Seq<u8>) -> bool {
    exists|i: int| 0 <= i < list.len() && bytes_match(encode_utf8(#[trigger] list[i]), name)
}

/// `suffix` is the tail of `s`.
pub open spec fn is_suffix<T>(s: Seq<T>, suffix: Seq<T>) -> bool {
    suffix.len() <= s.len() && s.subrange(s.len() - suffix.len(), s.len() as int) == suffix
}

/// `needle` occurs in `s` starting at `at`.
pub open spec fn occurs_at(s: Seq<char>, needle: Seq<char>, at: int) -> bool {
    0 <= at && at + needle.len() <= s.len() && s.subrange(at, at + needle.len()) == needle
}

/// `needle` occurs somewhere in `s`.
pub open spec fn contains(s: Seq<char>, needle: Seq<char>) -> bool {
    exists|at: int| occurs_at(s, needle, at)
}

/// The Unicode lower-case form of a text, as the standard library computes it.
pub uninterp spec fn lowercase(s: Seq<char>) -> Seq<char>;

/// Position of the first line feed at or after `from`, or the length of
/// `text`.
pub open spec fn line_end(text: Seq<char>, from: int) -> int
    decreases text.len() - from,
{
    if from < 0 || from >= text.len() || text[from] == '\n' {
        from
    } else {
        line_end(text, from + 1)
    }
}

/// The lines of `text` that start at or after `from`. A line ends at a line
/// feed; the line feed, and a carriage return just before it, are not part
/// of the line. What follows the last line feed is a line of its own unless
/// it is empty. (The test on the bounds of the line end only shows that the
/// recursion ends.)
pub open spec fn lines_from(text: Seq<char>, from: int) -> Seq<Seq<char>>
    decreases text.len() - from + 1,
{
    if from < 0 || from >= text.len() || !(from <= line_end(text, from) <= text.len()) {
        Seq::empty()
    } else {
        let end = line_end(text, from);
        let line = if from < end < text.len() && text[end - 1] == '\r' {
            text.subrange(from, end - 1)
        } else {
            text.subrange(from, end)
        };
        seq![line] + lines_from(text, end + 1)
    }
}

/// The lines of a text, without their line ends.
pub open spec fn text_lines(text: Seq<char>) -> Seq<Seq<char>> {
    lines_from(text, 0)
}

/// The characters with the Unicode property `White_Space`.
pub open spec fn is_white_space(c: char) -> bool {
    let u = c as u32;
    ||| 0x09 <= u <= 0x0D
    ||| u == 0x20
    ||| u == 0x85
    ||| u == 0xA0
    ||| u == 0x1680
    ||| 0x2000 <= u <= 0x200A
    ||| u == 0x2028
    ||| u == 0x2029
    ||| u == 0x202F
    ||| u == 0x205F
    ||| u == 0x3000
}

/// Position of the first character at or after `from` that is no white
/// space, or the length of `s`.
pub open spec fn skip_white_space(s: Seq<char>, from: int) -> int
    decreases s.len() - from,
{
    if from < 0 || from >= s.len() || !is_white_space(s[from]) {
        from
    } else {
        skip_white_space(s, from + 1)
    }
}

/// Position of the first white space at or after `from`, or the length of
/// `s`.
pub open spec fn token_end(s: Seq<char>, from: int) -> int
    decreases s.len() - from,
{
    if from < 0 || from >= s.len() || is_white_space(s[from]) {
        from
    } else {
        token_end(s, from + 1)
    }
}

/// The least position such that everything from it up to `to` is white
/// space.
pub open spec fn trailing_start(s: Seq<char>, to: int) -> int
    decreases to,
{
    if to <= 0 || to > s.len() || !is_white_space(s[to - 1]) {
        to
    } else {
        trailing_start(s, to - 1)
    }
}

/// A text without its leading and trailing white space.
pub open spec fn trimmed(s: Seq<char>) -> Seq<char> {
    let start = skip_white_space(s, 0);
    let end = trailing_start(s, s.len() as int);
    if start < end {
        s.subrange(start, end)
    } else {
        Seq::empty()
    }
}

/// The maximal runs of characters that are no white space, from `from` on,
/// in order. (The test on the bounds of the token only shows that the
/// recursion ends.)
pub open spec fn tokens_from(s: Seq<char>, from: int) -> Seq<Seq<char>>
    decreases s.len() - from + 1,
{
    let start = skip_white_space(s, from);
    if from < 0 || start >= s.len() || !(from <= start < token_end(s, start) <= s.len()) {
        Seq::empty()
    } else {
        seq![s.subrange(start, token_end(s, start))] + tokens_from(s, token_end(s, start))
    }
}

/// The maximal runs of characters of a text that are no white space, in
/// order.
pub open spec fn whitespace_tokens(s: Seq<char>) -> Seq<Seq<char>> {
    tokens_from(s, 0)
}

/// `str::to_lowercase`: the result is named `lowercase`; nothing more is
/// claimed about it.
#[verifier::external_body]
pub(crate) fn to_lowercase(s: &str) -> (r: String)
    ensures
        r@ == lowercase(s@),
{
    s.to_lowercase()
}

/// `core::str::from_utf8` succeeds exactly on well-formed UTF-8.
#[verifier::external_body]
pub(crate) fn is_utf8(bytes: &[u8]) -> (r: bool)
    ensures
        r == valid_utf8(bytes@),
{
    core::str::from_utf8(bytes).is_ok()
}

fn lower(b: u8) -> (r: u8)
    ensures
        r == ascii_lower(b),
{
    if 65 <= b && b <= 90 {
        b + 32
    } else {
        b
    }
}

/// Case-insensitive (ASCII) comparison of two byte strings.
pub fn eq_ignore_ascii_case(a: &[u8], b: &[u8]) -> (r: bool)
    ensures
        r == bytes_match(a@, b@),
{
    if a.len() != b.len() {
        return false;
    }
    let mut i: usize = 0;
    while i < a.len()
        invariant
            a.len() == b.len(),
            i <= a.len(),
            forall|j: int| 0 <= j < i ==> ascii_lower(#[trigger] a@[j]) == ascii_lower(b@[j]),
        decreases a.len() - i,
    {
        if lower(a[i]) != lower(b[i]) {
            assert(ascii_lower(a@[i as int]) != ascii_lower(b@[i as int]));
            return false;
        }
        i += 1;
    }
    true
}

/// Whether `name` matches any entry of `list`, ignoring ASCII case.
pub fn in_list(list: &Vec<&'static str>, name: &[u8]) -> (r: bool)
    ensures
        r == matches_any(list.deep_view(), name@),
{
    let mut i: usize = 0;
    while i < list.len()
        invariant
            i <= list.len(),
            forall|j: int|
                0 <= j < i ==> !bytes_match(encode_utf8(#[trigger] list.deep_view()[j]), name@),
        decreases list.len() - i,
    {
        if eq_ignore_ascii_case(list[i].as_bytes(), name) {
            assert(bytes_match(encode_utf8(list.deep_view()[i as int]), name@));
            return true;
        }
        i += 1;
    }
    false
}

/// Exact equality of two strings.
pub fn same_text(a: &str, b: &str) -> (r: bool)
    ensures
        r == (a@ == b@),
{
    let x = a.as_bytes();
    let y = b.as_bytes();
    proof {
        vstd::utf8::encode_utf8_decode_utf8(a@);
        vstd::utf8::encode_utf8_decode_utf8(b@);
    }
    if x.len() != y.len() {
        return false;
    }
    let mut i: usize = 0;
    while i < x.len()
        invariant
            x@ == a.spec_bytes(),
            y@ == b.spec_bytes(),
            x.len() == y.len(),
            i <= x.len(),
            forall|j: int| 0 <= j < i ==> x@[j] == y@[j],
        decreases x.len() - i,
    {
        if x[i] != y[i] {
            return false;
        }
        i += 1;
    }
    assert(x@ =~= y@);
    true
}

/// The characters of a text.
pub fn chars_of(s: &str) -> (r: Vec<char>)
    ensures
        r@ == s@,
{
    let n = s.unicode_len();
    let mut out: Vec<char> = Vec::new();
    let mut i: usize = 0;
    while i < n
        invariant
            n == s@.len(),
            i <= n,
            out@ == s@.subrange(0, i as int),
        decreases n - i,
    {
        let c = s.get_char(i);
        out.push(c);
        assert(out@ =~= s@.subrange(0, i as int + 1));
        i += 1;
    }
    assert(s@.subrange(0, n as int) =~= s@);
    out
}

/// Whether `needle` occurs in `s` at position `at`.
fn occurs_here(s: &Vec<char>, needle: &Vec<char>, at: usize) -> (r: bool)
    requires
        at + needle@.len() <= s@.len(),
    ensures
        r == occurs_at(s@, needle@, at as int),
{
    let n: usize = s.len();
    let mut j: usize = 0;
    while j < needle.len()
        invariant
            n == s@.len(),
            at + needle@.len() <= s@.len(),
            j <= needle@.len(),
            forall|k: int| 0 <= k < j ==> s@[at + k] == needle@[k],
        decreases needle@.len() - j,
    {
        if s[at + j] != needle[j] {
            assert(s@.subrange(at as int, at + needle@.len())[j as int] != needle@[j as int]);
            return false;
        }
        j += 1;
    }
    assert(s@.subrange(at as int, at + needle@.len()) =~= needle@);
    true
}

/// Whether `needle` occurs in `s`.
pub fn has_substring(s: &Vec<char>, needle: &Vec<char>) -> (r: bool)
    ensures
        r == contains(s@, needle@),
{
    if needle.len() > s.len() {
        return false;
    }
    let last: usize = s.len() - needle.len();
    let mut at: usize = 0;
    loop
        invariant
            last == s@.len() - needle@.len(),
            at <= last,
            forall|k: int| 0 <= k < at ==> !occurs_at(s@, needle@, k),
        decreases last - at,
    {
        if occurs_here(s, needle, at) {
            return true;
        }
        if at == last {
            return false;
        }
        at += 1;
    }
}

/// Whether `s` ends with `suffix`.
pub fn ends_with(s: &Vec<char>, suffix: &Vec<char>) -> (r: bool)
    ensures
        r == is_suffix(s@, suffix@),
{
    if suffix.len() > s.len() {
        return false;
    }
    let at: usize = s.len() - suffix.len();
    let r = occurs_here(s, suffix, at);
    r
}

/// The decimal digit of `d`, for `0 <= d < 10`.
pub open spec fn digit_char(d: int) -> char {
    if d == 0 {
        '0'
    } else if d == 1 {
        '1'
    } else if d == 2 {
        '2'
    } else if d == 3 {
        '3'
    } else if d == 4 {
        '4'
    } else if d == 5 {
        '5'
    } else if d == 6 {
        '6'
    } else if d == 7 {
        '7'
    } else if d == 8 {
        '8'
    } else {
        '9'
    }
}

/// The decimal form of `n`, without leading zeros.
pub open spec fn decimal(n: nat) -> Seq<char>
    decreases n,
{
    if n < 10 {
        seq![digit_char(n as int)]
    } else {
        decimal(n / 10).push(digit_char((n % 10) as int))
    }
}

fn digit(d: u32) -> (s: &'static str)
    requires
        d < 10,
    ensures
        s@ == seq![digit_char(d as int)],
{
    proof {
        reveal_strlit("0");
        reveal_strlit("1");
        reveal_strlit("2");
        reveal_strlit("3");
        reveal_strlit("4");
        reveal_strlit("5");
        reveal_strlit("6");
        reveal_strlit("7");
        reveal_strlit("8");
        reveal_strlit("9");
    }
    let s = match d {
        0 => "0",
        1 => "1",
        2 => "2",
        3 => "3",
        4 => "4",
        5 => "5",
        6 => "6",
        7 => "7",
        8 => "8",
        _ => "9",
    };
    assert(s@ =~= seq![digit_char(d as int)]);
    s
}

/// Appends the decimal form of `n`.
pub fn push_decimal(out: &mut String, n: u32)
    ensures
        final(out)@ == old(out)@ + decimal(n as nat),
    decreases n,
{
    if n < 10 {
        out.append(digit(n));
    } else {
        push_decimal(out, n / 10);
        out.append(digit(n % 10));
        assert(out@ =~= old(out)@ + decimal(n as nat));
    }
}

/// Position of the first `:` at or after `from`, or the length of `line`.
pub open spec fn colon_position(line: Seq<char>, from: int) -> int
    decreases line.len() - from,
{
    if from < 0 || from >= line.len() || line[from] == ':' {
        from
    } else {
        colon_position(line, from + 1)
    }
}

/// The second of the fields that `:` separates, if the line has a `:`.
pub open spec fn second_field(line: Seq<char>) -> Option<Seq<char>> {
    let first = colon_position(line, 0);
    if first >= line.len() {
        None
    } else {
        Some(line.subrange(first + 1, colon_position(line, first + 1)))
    }
}

fn find_colon(line: &Vec<char>, from: usize) -> (at: usize)
    requires
        from <= line@.len(),
    ensures
        at == colon_position(line@, from as int),
        from <= at <= line@.len(),
{
    let mut at: usize = from;
    while at < line.len() && line[at] != ':'
        invariant
            from <= at <= line@.len(),
            colon_position(line@, from as int) == colon_position(line@, at as int),
        decreases line@.len() - at,
    {
        at += 1;
    }
    at
}

/// The second of the fields of `line` that `:` separates.
pub fn split_second_field(line: &str) -> (field: Option<String>)
    ensures
        field.deep_view() == second_field(line@),
{
    let chars = chars_of(line);
    let first = find_colon(&chars, 0);
    if first >= chars.len() {
        None
    } else {
        let second = find_colon(&chars, first + 1);
        Some(line.substring_char(first + 1, second).to_owned())
    }
}

/// The end of a line lies between its start and the end of the text, so
/// the bounds test in `lines_from` never fails.
pub proof fn lemma_line_end_bounds(text: Seq<char>, from: int)
    requires
        0 <= from <= text.len(),
    ensures
        from <= line_end(text, from) <= text.len(),
    decreases text.len() - from,
{
    if from < text.len() && text[from] != '\n' {
        lemma_line_end_bounds(text, from + 1);
    }
}

/// The lines of a text.
pub fn lines(text: &str) -> (all: Vec<String>)
    ensures
        all.deep_view() == text_lines(text@),
{
    let chars = chars_of(text);
    let mut all: Vec<String> = Vec::new();
    let mut from: usize = 0;
    assert(all.deep_view() + lines_from(text@, 0) =~= text_lines(text@));
    while from < chars.len()
        invariant
            chars@ == text@,
            from <= chars@.len(),
            all.deep_view() + lines_from(text@, from as int) == text_lines(text@),
        decreases chars@.len() - from,
    {
        let mut end: usize = from;
        while end < chars.len() && chars[end] != '\n'
            invariant
                chars@ == text@,
                from <= end <= chars@.len(),
                line_end(text@, from as int) == line_end(text@, end as int),
            decreases chars@.len() - end,
        {
            end += 1;
        }
        let stop: usize = if from < end && end < chars.len() && chars[end - 1] == '\r' {
            (end - 1) as usize
        } else {
            end
        };
        let line = text.substring_char(from, stop).to_owned();
        let ghost before = all.deep_view();
        let ghost rest = lines_from(text@, end as int + 1);
        assert(lines_from(text@, from as int) == seq![line@] + rest);
        all.push(line);
        assert(all.deep_view() =~= before.push(line@));
        assert(before.push(line@) + rest =~= before + (seq![line@] + rest));
        if end == chars.len() {
            assert(rest =~= Seq::<Seq<char>>::empty());
            assert(all.deep_view() =~= text_lines(text@));
            return all;
        }
        from = end + 1;
    }
    assert(lines_from(text@, from as int) =~= Seq::<Seq<char>>::empty());
    assert(all.deep_view() =~= text_lines(text@));
    all
}

/// Whether a character is white space.
pub fn white_space(c: char) -> (r: bool)
    ensures
        r == is_white_space(c),
{
    let u: u32 = c as u32;
    (0x09 <= u && u <= 0x0D) || u == 0x20 || u == 0x85 || u == 0xA0 || u == 0x1680 || (0x2000 <= u
        && u <= 0x200A) || u == 0x2028 || u == 0x2029 || u == 0x202F || u == 0x205F || u == 0x3000
}

fn skip(chars: &Vec<char>, from: usize) -> (at: usize)
    requires
        from <= chars@.len(),
    ensures
        at == skip_white_space(chars@, from as int),
        from <= at <= chars@.len(),
        at < chars@.len() ==> !is_white_space(chars@[at as int]),
{
    let mut at: usize = from;
    while at < chars.len() && white_space(chars[at])
        invariant
            from <= at <= chars@.len(),
            skip_white_space(chars@, from as int) == skip_white_space(chars@, at as int),
        decreases chars@.len() - at,
    {
        at += 1;
    }
    at
}

fn find_token_end(chars: &Vec<char>, from: usize) -> (at: usize)
    requires
        from <= chars@.len(),
    ensures
        at == token_end(chars@, from as int),
        from <= at <= chars@.len(),
        from < chars@.len() && !is_white_space(chars@[from as int]) ==> from < at,
{
    let mut at: usize = from;
    while at < chars.len() && !white_space(chars[at])
        invariant
            from <= at <= chars@.len(),
            token_end(chars@, from as int) == token_end(chars@, at as int),
        decreases chars@.len() - at,
    {
        at += 1;
    }
    at
}

/// A text without its leading and trailing white space.
pub fn trim(text: &str) -> (r: String)
    ensures
        r@ == trimmed(text@),
{
    let chars = chars_of(text);
    let start = skip(&chars, 0);
    let mut end: usize = chars.len();
    while end > 0 && white_space(chars[end - 1])
        invariant
            end <= chars@.len(),
            trailing_start(chars@, chars@.len() as int) == trailing_start(chars@, end as int),
        decreases end,
    {
        end -= 1;
    }
    if start < end {
        text.substring_char(start, end).to_owned()
    } else {
        let empty = String::new();
        assert(empty@ =~= Seq::<char>::empty());
        empty
    }
}

/// The maximal runs of characters of a text that are no white space.
pub fn split_whitespace(text: &str) -> (all: Vec<String>)
    ensures
        all.deep_view() == whitespace_tokens(text@),
{
    let chars = chars_of(text);
    let mut all: Vec<String> = Vec::new();
    let mut from: usize = 0;
    assert(all.deep_view() + tokens_from(text@, 0) =~= whitespace_tokens(text@));
    loop
        invariant
            chars@ == text@,
            from <= chars@.len(),
            all.deep_view() + tokens_from(text@, from as int) == whitespace_tokens(text@),
        decreases chars@.len() - from,
    {
        let start = skip(&chars, from);
        if start >= chars.len() {
            assert(tokens_from(text@, from as int) =~= Seq::<Seq<char>>::empty());
            assert(all.deep_view() =~= whitespace_tokens(text@));
            return all;
        }
        let end = find_token_end(&chars, start);
        let token = text.substring_char(start, end).to_owned();
        let ghost before = all.deep_view();
        let ghost rest = tokens_from(text@, end as int);
        assert(tokens_from(text@, from as int) == seq![token@] + rest);
        all.push(token);
        assert(all.deep_view() =~= before.push(token@));
        assert(before.push(token@) + rest =~= before + (seq![token@] + rest));
        from = end;
    }
}

} // verus!
