//! Characters and strings: whitespace, letter case, lines, and what bytes say as text.
use vstd::prelude::*;
use vstd::string::*;

verus! {

/// `String::push`: the character is appended at the end.
pub assume_specification[ String::push ](s: &mut String, ch: char)
    ensures
        final(s)@ == old(s)@.push(ch),
;

/// `String::pop`: the last character is removed and returned, `None` of an empty string.
pub assume_specification[ String::pop ](s: &mut String) -> (last: Option<char>)
    ensures
        old(s)@.len() == 0 ==> last is None && final(s)@ == old(s)@,
        old(s)@.len() > 0 ==> last == Some(old(s)@.last()) && final(s)@ == old(s)@.drop_last(),
;

/// The characters of `s` in order.
pub(crate) fn chars_of(s: &str) -> (chars: Vec<char>)
    ensures
        chars@ == s@,
{
    let mut chars: Vec<char> = Vec::new();
    for c in it: s.chars()
        invariant
            it.seq() == s@,
            chars@ == it.seq().take(it.index()),
    {
        chars.push(c);
    }
    chars
}

/// The string made of the characters from `from` up to `to`.
pub(crate) fn text_from(chars: &Vec<char>, from: usize, to: usize) -> (text: String)
    requires
        from <= to <= chars@.len(),
    ensures
        text@ == chars@.subrange(from as int, to as int),
{
    let mut text = String::new();
    let mut i: usize = from;
    while i < to
        invariant
            from <= i <= to <= chars@.len(),
            text@ == chars@.subrange(from as int, i as int),
        decreases to - i,
    {
        text.push(chars[i]);
        i += 1;
    }
    text
}

/// Whether two texts hold the same characters.
pub(crate) fn same_text(a: &str, b: &str) -> (same: bool)
    ensures
        same == (a@ == b@),
{
    let left = a.as_bytes();
    let right = b.as_bytes();
    proof {
        vstd::utf8::encode_utf8_decode_utf8(a@);
        vstd::utf8::encode_utf8_decode_utf8(b@);
    }
    if left.len() != right.len() {
        return false;
    }
    let mut i: usize = 0;
    while i < left.len()
        invariant
            i <= left@.len() == right@.len(),
            left@ == a.spec_bytes(),
            right@ == b.spec_bytes(),
            forall|j: int| 0 <= j < i ==> left@[j] == right@[j],
        decreases left@.len() - i,
    {
        if left[i] != right[i] {
            return false;
        }
        i += 1;
    }
    assert(left@ == right@);
    true
}

/// Joins two texts.
pub(crate) fn join(a: &str, b: &str) -> (text: String)
    ensures
        text@ == a@ + b@,
{
    let mut text = a.to_string();
    text.append(b);
    text
}

/// Whether `c` has the Unicode property `White_Space`.
pub open spec fn is_space(c: char) -> bool {
    ||| '\u{9}' <= c <= '\u{d}'
    ||| c == ' '
    ||| c == '\u{85}'
    ||| c == '\u{a0}'
    ||| c == '\u{1680}'
    ||| '\u{2000}' <= c <= '\u{200a}'
    ||| c == '\u{2028}'
    ||| c == '\u{2029}'
    ||| c == '\u{202f}'
    ||| c == '\u{205f}'
    ||| c == '\u{3000}'
}

fn space(c: char) -> (yes: bool)
    ensures
        yes == is_space(c),
{
    ('\u{9}' <= c && c <= '\u{d}') || c == ' ' || c == '\u{85}' || c == '\u{a0}' || c == '\u{1680}'
        || ('\u{2000}' <= c && c <= '\u{200a}') || c == '\u{2028}' || c == '\u{2029}' || c
        == '\u{202f}' || c == '\u{205f}' || c == '\u{3000}'
}

/// `s` without its leading whitespace.
pub open spec fn trim_start(s: Seq<char>) -> Seq<char>
    decreases s.len(),
{
    if s.len() > 0 && is_space(s[0]) {
        trim_start(s.drop_first())
    } else {
        s
    }
}

/// `s` without its trailing whitespace.
pub open spec fn trim_end(s: Seq<char>) -> Seq<char>
    decreases s.len(),
{
    if s.len() > 0 && is_space(s.last()) {
        trim_end(s.drop_last())
    } else {
        s
    }
}

/// `s` without the whitespace at its two ends.
pub open spec fn trimmed(s: Seq<char>) -> Seq<char> {
    trim_end(trim_start(s))
}

/// Removes the whitespace at the two ends of `s`.
pub(crate) fn trim(s: &str) -> (text: String)
    ensures
        text@ == trimmed(s@),
{
    let chars = chars_of(s);
    let mut from: usize = 0;
    assert(s@.skip(0) == s@);
    while from < chars.len() && space(chars[from])
        invariant
            from <= chars@.len(),
            chars@ == s@,
            trim_start(s@) == trim_start(s@.skip(from as int)),
        decreases chars@.len() - from,
    {
        assert(s@.skip(from as int).drop_first() == s@.skip(from + 1));
        from += 1;
    }
    let mut to: usize = chars.len();
    assert(s@.skip(from as int) == s@.subrange(from as int, to as int));
    while to > from && space(chars[to - 1])
        invariant
            from <= to <= chars@.len(),
            chars@ == s@,
            trimmed(s@) == trim_end(s@.subrange(from as int, to as int)),
        decreases to,
    {
        assert(s@.subrange(from as int, to as int).drop_last() == s@.subrange(
            from as int,
            to - 1,
        ));
        to -= 1;
    }
    text_from(&chars, from, to)
}

proof fn lemma_trim_end(s: Seq<char>)
    ensures
        trim_end(s).len() <= s.len(),
        trim_end(s) == s.take(trim_end(s).len() as int),
        trim_end(s).len() > 0 ==> !is_space(trim_end(s).last()),
    decreases s.len(),
{
    if s.len() > 0 && is_space(s.last()) {
        lemma_trim_end(s.drop_last());
    }
}

proof fn lemma_trim_start(s: Seq<char>)
    ensures
        trim_start(s).len() > 0 ==> !is_space(trim_start(s)[0]),
    decreases s.len(),
{
    if s.len() > 0 && is_space(s[0]) {
        lemma_trim_start(s.drop_first());
    }
}

/// Whitespace behind a text has no part in what trimming leaves.
pub proof fn trailing_space_is_dropped(s: Seq<char>, c: char)
    requires
        is_space(c),
    ensures
        trimmed(s.push(c)) == trimmed(s),
    decreases s.len(),
{
    if s.len() > 0 && is_space(s[0]) {
        assert(s.push(c).drop_first() == s.drop_first().push(c));
        trailing_space_is_dropped(s.drop_first(), c);
    } else if s.len() > 0 {
        assert(s.push(c).drop_last() == s);
    } else {
        assert(s.push(c).drop_first() == s);
    }
}

/// Any amount of whitespace behind a text has no part in what trimming leaves.
pub proof fn trailing_spaces_are_dropped(s: Seq<char>, t: Seq<char>)
    requires
        forall|i: int| 0 <= i < t.len() ==> is_space(#[trigger] t[i]),
    ensures
        trimmed(s + t) == trimmed(s),
    decreases t.len(),
{
    if t.len() == 0 {
        assert(s + t == s);
    } else {
        assert(s + t == (s + t.drop_last()).push(t.last()));
        trailing_space_is_dropped(s + t.drop_last(), t.last());
        trailing_spaces_are_dropped(s, t.drop_last());
    }
}

/// Trimmed text neither begins nor ends with whitespace.
pub proof fn trimmed_text_has_bare_ends(s: Seq<char>)
    ensures
        trimmed(s).len() > 0 ==> !is_space(trimmed(s)[0]) && !is_space(trimmed(s).last()),
{
    lemma_trim_start(s);
    lemma_trim_end(trim_start(s));
}

/// The lower-case letter of an ASCII capital, any other character itself.
pub open spec fn ascii_lower(c: char) -> char {
    if 'A' <= c <= 'Z' {
        (c as u32 + 32) as char
    } else {
        c
    }
}

/// The capital of an ASCII lower-case letter, any other character itself.
pub open spec fn ascii_upper(c: char) -> char {
    if 'a' <= c <= 'z' {
        (c as u32 - 32) as char
    } else {
        c
    }
}

/// `s` with its ASCII capitals made lower case.
pub open spec fn ascii_lowercase(s: Seq<char>) -> Seq<char> {
    Seq::new(s.len(), |i: int| ascii_lower(s[i]))
}

/// `s` with its ASCII lower-case letters made capitals.
pub open spec fn ascii_uppercase(s: Seq<char>) -> Seq<char> {
    Seq::new(s.len(), |i: int| ascii_upper(s[i]))
}

/// Makes the ASCII capitals of `s` lower case.
pub(crate) fn to_ascii_lowercase(s: &str) -> (text: String)
    ensures
        text@ == ascii_lowercase(s@),
{
    let mut text = String::new();
    for c in it: s.chars()
        invariant
            it.seq() == s@,
            text@ == ascii_lowercase(it.seq().take(it.index())),
    {
        let lower: char = if 'A' <= c && c <= 'Z' {
            (c as u8 + 32) as char
        } else {
            c
        };
        text.push(lower);
        assert(text@ == ascii_lowercase(it.seq().take(it.index() + 1)));
    }
    text
}

/// The number of characters of `s` before its first line feed.
pub open spec fn first_line_len(s: Seq<char>) -> nat
    decreases s.len(),
{
    if s.len() == 0 || s[0] == '\n' {
        0
    } else {
        1 + first_line_len(s.drop_first())
    }
}

/// `s` without one trailing carriage return.
pub open spec fn without_return(s: Seq<char>) -> Seq<char> {
    if s.len() > 0 && s.last() == '\r' {
        s.drop_last()
    } else {
        s
    }
}

/// The lines of `s` without the line feeds that end them, and without the carriage returns right
/// before those. A last line may lack its line feed, and is then taken as it is.
pub open spec fn text_lines(s: Seq<char>) -> Seq<Seq<char>>
    decreases s.len(),
{
    let n = first_line_len(s);
    if s.len() == 0 {
        Seq::empty()
    } else if n >= s.len() {
        seq![s]
    } else {
        seq![without_return(s.take(n as int))] + text_lines(s.skip(n as int + 1))
    }
}

/// `first_line_len` finds the first line feed.
proof fn lemma_first_line(s: Seq<char>, n: int)
    requires
        0 <= n <= s.len(),
        forall|i: int| 0 <= i < n ==> s[i] != '\n',
        n < s.len() ==> s[n] == '\n',
    ensures
        first_line_len(s) == n,
    decreases s.len(),
{
    if n > 0 {
        lemma_first_line(s.drop_first(), n - 1);
    }
}

/// Cuts a text into its lines.
pub(crate) fn split_lines(s: &str) -> (lines: Vec<String>)
    ensures
        lines@.map_values(|l: String| l@) == text_lines(s@),
{
    let chars = chars_of(s);
    let mut lines: Vec<String> = Vec::new();
    let mut from: usize = 0;
    let mut i: usize = 0;
    assert(s@.skip(0) == s@);
    assert(lines@.map_values(|l: String| l@) + text_lines(s@.skip(0)) == text_lines(s@));
    while i < chars.len()
        invariant
            from <= i <= chars@.len(),
            chars@ == s@,
            forall|j: int| from <= j < i ==> chars@[j] != '\n',
            lines@.map_values(|l: String| l@) + text_lines(s@.skip(from as int)) == text_lines(s@),
        decreases chars@.len() - i,
    {
        if chars[i] == '\n' {
            let to: usize = if i > from && chars[i - 1] == '\r' {
                i - 1
            } else {
                i
            };
            let ghost rest = s@.skip(from as int);
            let ghost before = lines@.map_values(|l: String| l@);
            proof {
                lemma_first_line(rest, i - from);
                assert(rest.skip(i - from + 1) == s@.skip(i + 1));
                assert(without_return(rest.take(i - from)) == s@.subrange(from as int, to as int));
            }
            lines.push(text_from(&chars, from, to));
            from = i + 1;
            assert(lines@.map_values(|l: String| l@) == before.push(lines@.last()@));
            assert(before + text_lines(rest) == before.push(lines@.last()@) + text_lines(
                s@.skip(from as int),
            ));
        }
        i += 1;
    }
    let ghost rest = s@.skip(from as int);
    let ghost before = lines@.map_values(|l: String| l@);
    if from < chars.len() {
        proof {
            lemma_first_line(rest, i - from);
        }
        lines.push(text_from(&chars, from, i));
        assert(lines@.last()@ == rest);
        assert(lines@.map_values(|l: String| l@) == before.push(rest));
        assert(before + seq![rest] == before.push(rest));
    } else {
        assert(before + text_lines(rest) == before);
    }
    lines
}

/// Whether `b` is a space, a tab, a line feed or a carriage return.
pub open spec fn is_blank_byte(b: u8) -> bool {
    b == 32 || b == 9 || b == 10 || b == 13
}

/// Whether `bytes` are `content` with nothing but blanks behind it.
pub open spec fn is_padded(bytes: Seq<u8>, content: Seq<u8>) -> bool {
    &&& content.len() <= bytes.len()
    &&& forall|i: int| 0 <= i < content.len() ==> bytes[i] == content[i]
    &&& forall|i: int| content.len() <= i < bytes.len() ==> is_blank_byte(#[trigger] bytes[i])
}

/// The characters of the ASCII bytes from `from` on.
pub open spec fn ascii_from(bytes: Seq<u8>, from: int) -> Seq<char> {
    Seq::new((bytes.len() - from) as nat, |i: int| bytes[from + i] as char)
}

/// A line feed, with or without a carriage return before it, pads what stands before it.
pub proof fn line_ends_are_padding(content: Seq<u8>)
    ensures
        is_padded(content + seq![10u8], content),
        is_padded(content + seq![13u8, 10u8], content),
{
}

/// What `String::from_utf8_lossy` makes of `bytes`.
pub uninterp spec fn lossy_text(bytes: Seq<u8>) -> Seq<char>;

/// `String::from_utf8_lossy`: valid UTF-8 is decoded as it is; each invalid sequence, which is at
/// least one byte long, is replaced by one replacement character, of three bytes. So blanks behind
/// other bytes are decoded to themselves, and the text takes at most three bytes for each byte read.
#[verifier::external_body]
pub(crate) fn decode_lossy(bytes: &[u8]) -> (text: String)
    ensures
        text@ == lossy_text(bytes@),
        vstd::utf8::valid_utf8(bytes@) ==> text@ == vstd::utf8::decode_utf8(bytes@),
        forall|content: Seq<u8>|
            is_padded(bytes@, content) ==> text@ == #[trigger] lossy_text(content) + ascii_from(
                bytes@,
                content.len() as int,
            ),
        vstd::utf8::encode_utf8(text@).len() <= 3 * bytes@.len(),
{
    String::from_utf8_lossy(bytes).into_owned()
}

/// What `str::to_uppercase` makes of `s`.
pub uninterp spec fn uppercase(s: Seq<char>) -> Seq<char>;

/// Whether `c` is an ASCII lower-case letter.
pub open spec fn is_small(c: char) -> bool {
    'a' <= c <= 'z'
}

/// `str::to_uppercase`: the capitals of Unicode, whatever the locale; of ASCII text, the ASCII
/// capitals. No ASCII lower-case letter is left, as each has a capital, and no character's capital
/// holds one.
#[verifier::external_body]
pub(crate) fn to_uppercase(s: &str) -> (text: String)
    ensures
        text@ == uppercase(s@),
        vstd::utf8::is_ascii_chars(s@) ==> text@ == ascii_uppercase(s@),
        forall|i: int| 0 <= i < text@.len() ==> !is_small(#[trigger] text@[i]),
{
    s.to_uppercase()
}

/// The code points that count as whitespace.
pub proof fn white_space_by_code_point(c: char)
    ensures
        is_space(c) <==> ({
            let n = c as u32;
            ||| 9 <= n <= 13
            ||| n == 32
            ||| n == 0x85
            ||| n == 0xa0
            ||| n == 0x1680
            ||| 0x2000 <= n <= 0x200a
            ||| n == 0x2028
            ||| n == 0x2029
            ||| n == 0x202f
            ||| n == 0x205f
            ||| n == 0x3000
        }),
{
}

proof fn lemma_trim_start_skips(s: Seq<char>) -> (from: int)
    ensures
        0 <= from <= s.len(),
        trim_start(s) == s.skip(from),
        forall|i: int| 0 <= i < from ==> is_space(#[trigger] s[i]),
    decreases s.len(),
{
    if s.len() > 0 && is_space(s[0]) {
        let rest = s.drop_first();
        let from = lemma_trim_start_skips(rest);
        assert(rest.skip(from) == s.skip(from + 1));
        assert forall|i: int| 0 <= i < from + 1 implies is_space(#[trigger] s[i]) by {
            if i > 0 {
                assert(s[i] == rest[i - 1]);
            }
        }
        from + 1
    } else {
        assert(s.skip(0) == s);
        0
    }
}

proof fn lemma_trim_end_takes(s: Seq<char>)
    ensures
        forall|i: int| trim_end(s).len() <= i < s.len() ==> is_space(#[trigger] s[i]),
    decreases s.len(),
{
    lemma_trim_end(s);
    if s.len() > 0 && is_space(s.last()) {
        let rest = s.drop_last();
        lemma_trim_end_takes(rest);
        assert forall|i: int| trim_end(s).len() <= i < s.len() implies is_space(
            #[trigger] s[i],
        ) by {
            if i < rest.len() {
                assert(s[i] == rest[i]);
            }
        }
    }
}

/// Trimming cuts out one piece of the text, and drops nothing but whitespace around it.
pub proof fn trimming_drops_only_white_space(s: Seq<char>) -> (ends: (int, int))
    ensures
        0 <= ends.0 <= ends.1 <= s.len(),
        trimmed(s) == s.subrange(ends.0, ends.1),
        forall|i: int| 0 <= i < ends.0 ==> is_space(#[trigger] s[i]),
        forall|i: int| ends.1 <= i < s.len() ==> is_space(#[trigger] s[i]),
        ends.0 < ends.1 ==> !is_space(s[ends.0]) && !is_space(s[ends.1 - 1]),
{
    let from = lemma_trim_start_skips(s);
    let rest = s.skip(from);
    lemma_trim_end(rest);
    lemma_trim_end_takes(rest);
    let to = from + trimmed(s).len();
    trimmed_text_has_bare_ends(s);
    assert(trimmed(s) == s.subrange(from, to));
    assert forall|i: int| to <= i < s.len() implies is_space(#[trigger] s[i]) by {
        assert(s[i] == rest[i - from]);
    }
    if from < to {
        assert(trimmed(s)[0] == s[from]);
        assert(trimmed(s).last() == s[to - 1]);
    }
    (from, to)
}

/// A word with bare ends is what trimming leaves of it, whatever whitespace surrounds it.
pub proof fn trimming_finds_the_word(before: Seq<char>, word: Seq<char>, after: Seq<char>)
    requires
        forall|i: int| 0 <= i < before.len() ==> is_space(#[trigger] before[i]),
        forall|i: int| 0 <= i < after.len() ==> is_space(#[trigger] after[i]),
        word.len() > 0 ==> !is_space(word[0]) && !is_space(word.last()),
    ensures
        trimmed(before + word + after) == word,
{
    let s = before + word + after;
    let (from, to) = trimming_drops_only_white_space(s);
    let (a, b) = (before.len() as int, (before.len() + word.len()) as int);
    assert(s.subrange(a, b) == word);
    if word.len() > 0 {
        assert(s[a] == word[0] && s[b - 1] == word.last());
        assert(from <= a && b <= to);
        if from < a {
            assert(s[from] == before[from]);
        }
        if b < to {
            assert(s[to - 1] == after[to - 1 - b]);
        }
    } else {
        assert(forall|i: int| 0 <= i < s.len() ==> is_space(#[trigger] s[i])) by {
            assert forall|i: int| 0 <= i < s.len() implies is_space(#[trigger] s[i]) by {
                if i < a {
                    assert(s[i] == before[i]);
                } else {
                    assert(s[i] == after[i - b]);
                }
            }
        }
        assert(trimmed(s) == word);
    }
}

/// Letter case changes ASCII letters by the distance between the two alphabets, and nothing else.
pub proof fn letter_case_keeps_the_rest(s: Seq<char>, i: int)
    requires
        0 <= i < s.len(),
    ensures
        ascii_lowercase(s).len() == s.len(),
        ascii_uppercase(s).len() == s.len(),
        65 <= s[i] as u32 <= 90 ==> ascii_lowercase(s)[i] as u32 == s[i] as u32 + 32,
        !(65 <= s[i] as u32 <= 90) ==> ascii_lowercase(s)[i] == s[i],
        97 <= s[i] as u32 <= 122 ==> ascii_uppercase(s)[i] as u32 == s[i] as u32 - 32,
        !(97 <= s[i] as u32 <= 122) ==> ascii_uppercase(s)[i] == s[i],
{
}

/// A line feed ends a line, which is shown without it and without a carriage return right before
/// it; what follows is cut on its own. Text without a line feed is one line, unless it is empty.
pub proof fn lines_end_at_line_feeds(a: Seq<char>, b: Seq<char>)
    requires
        forall|i: int| 0 <= i < a.len() ==> a[i] != '\n',
    ensures
        text_lines(Seq::empty()) == Seq::<Seq<char>>::empty(),
        a.len() > 0 ==> text_lines(a) == seq![a],
        text_lines(a + seq!['\n'] + b) == seq![
            if a.len() > 0 && a.last() == '\r' {
                a.drop_last()
            } else {
                a
            },
        ] + text_lines(b),
{
    lemma_first_line(a, a.len() as int);
    let s = a + seq!['\n'] + b;
    lemma_first_line(s, a.len() as int);
    assert(s.take(a.len() as int) == a);
    assert(s.skip(a.len() as int + 1) == b);
}

/// Blanks are the space, the tab, the line feed and the carriage return, and padding is made of them.
pub proof fn padding_is_blank(bytes: Seq<u8>, content: Seq<u8>, i: int)
    requires
        is_padded(bytes, content),
    ensures
        content.len() <= bytes.len(),
        0 <= i < content.len() ==> bytes[i] == content[i],
        content.len() <= i < bytes.len() ==> bytes[i] == 32u8 || bytes[i] == 9u8 || bytes[i] == 10u8
            || bytes[i] == 13u8,
{
}

} // verus!
