//! Text helpers shared by the rest of the crate: decimal formatting,
//! character classes, scanning, and line splitting over `Seq<char>` models.

use vstd::prelude::*;
use vstd::string::*;

verus! {

/// The character that writes the decimal digit `d`.
pub open spec fn digit_char(d: nat) -> char
    recommends
        d < 10,
{
    if d == 0 {
        '0'
    } else if d == 1 {
        '1'
    } else if d == 2 {
        '2'
    } else if d == 3 {
        '3'
    } else if d == 4 {
        '4'
    } else if d == 5 {
        '5'
    } else if d == 6 {
        '6'
    } else if d == 7 {
        '7'
    } else if d == 8 {
        '8'
    } else {
        '9'
    }
}

/// Decimal digits of `n`, most significant first, without leading zeros.
pub open spec fn nat_text(n: nat) -> Seq<char>
    decreases n,
{
    if n < 10 {
        seq![digit_char(n)]
    } else {
        nat_text(n / 10).push(digit_char(n % 10))
    }
}

/// Decimal text of a signed integer: a minus sign for negative values,
/// then the digits of the magnitude.
pub open spec fn int_text(i: int) -> Seq<char> {
    if i < 0 {
        seq!['-'] + nat_text((-i) as nat)
    } else {
        nat_text(i as nat)
    }
}

fn digit_str(d: u64) -> (s: &'static str)
    requires
        d < 10,
    ensures
        s@ == seq![digit_char(d as nat)],
{
    proof {
        reveal_strlit("0");
        reveal_strlit("1");
        reveal_strlit("2");
        reveal_strlit("3");
        reveal_strlit("4");
        reveal_strlit("5");
        reveal_strlit("6");
        reveal_strlit("7");
        reveal_strlit("8");
        reveal_strlit("9");
    }
    let s = if d == 0 {
        "0"
    } else if d == 1 {
        "1"
    } else if d == 2 {
        "2"
    } else if d == 3 {
        "3"
    } else if d == 4 {
        "4"
    } else if d == 5 {
        "5"
    } else if d == 6 {
        "6"
    } else if d == 7 {
        "7"
    } else if d == 8 {
        "8"
    } else {
        "9"
    };
    assert(s@ =~= seq![digit_char(d as nat)]);
    s
}

/// Formats an unsigned integer in decimal.
pub fn u128_text(n: u128) -> (s: String)
    ensures
        s@ == nat_text(n as nat),
    decreases n,
{
    if n < 10 {
        String::from_str(digit_str(n as u64))
    } else {
        let mut s = u128_text(n / 10);
        s.append(digit_str((n % 10) as u64));
        assert(s@ =~= nat_text((n / 10) as nat).push(digit_char((n % 10) as nat)));
        s
    }
}

/// Formats an unsigned integer in decimal.
pub fn u64_text(n: u64) -> (s: String)
    ensures
        s@ == nat_text(n as nat),
{
    u128_text(n as u128)
}

/// Formats a signed integer in decimal, with a leading `-` when negative.
pub fn i64_text(i: i64) -> (s: String)
    ensures
        s@ == int_text(i as int),
{
    if i < 0 {
        let magnitude: u64 = if i == i64::MIN {
            9223372036854775808u64
        } else {
            (-i) as u64
        };
        proof {
            reveal_strlit("-");
        }
        let mut s = String::from_str("-");
        let digits = u64_text(magnitude);
        s.append(digits.as_str());
        assert(s@ =~= seq!['-'] + nat_text((-i) as nat));
        s
    } else {
        u64_text(i as u64)
    }
}

/// The characters of a string slice, as a vector.
pub fn chars_of(s: &str) -> (v: Vec<char>)
    ensures
        v@ == s@,
{
    let mut v: Vec<char> = Vec::new();
    for c in it: s.chars()
        invariant
            v@ == it.seq().take(it.index() as int),
            it.seq() == s@,
    {
        v.push(c);
    }
    v
}

/// Whether two string slices hold the same characters.
pub fn same_text(a: &str, b: &str) -> (r: bool)
    ensures
        r == (a@ == b@),
{
    let x: String = a.to_owned();
    let y: String = b.to_owned();
    x == y
}

/// Concatenation of two string slices.
pub fn concat2(a: &str, b: &str) -> (s: String)
    ensures
        s@ == a@ + b@,
{
    let mut s = String::from_str(a);
    s.append(b);
    s
}

/// Concatenation of three string slices.
pub fn concat3(a: &str, b: &str, c: &str) -> (s: String)
    ensures
        s@ == a@ + b@ + c@,
{
    let mut s = String::from_str(a);
    s.append(b);
    s.append(c);
    s
}

/// The views of a sequence of strings.
pub open spec fn texts(v: Seq<String>) -> Seq<Seq<char>> {
    v.map_values(|s: String| s@)
}

/// Unicode white space: the code points with the `White_Space` property.
pub open spec fn is_space_char(c: char) -> bool {
    let n = c as u32;
    ||| 0x09 <= n <= 0x0D
    ||| n == 0x20
    ||| n == 0x85
    ||| n == 0xA0
    ||| n == 0x1680
    ||| 0x2000 <= n <= 0x200A
    ||| n == 0x2028
    ||| n == 0x2029
    ||| n == 0x202F
    ||| n == 0x205F
    ||| n == 0x3000
}

/// Decides `is_space_char`.
pub fn is_space(c: char) -> (r: bool)
    ensures
        r == is_space_char(c),
{
    let n: u32 = c as u32;
    (0x09 <= n && n <= 0x0D) || n == 0x20 || n == 0x85 || n == 0xA0 || n == 0x1680 || (0x2000 <= n
        && n <= 0x200A) || n == 0x2028 || n == 0x2029 || n == 0x202F || n == 0x205F || n == 0x3000
}

/// A text is blank when every character is white space (so trimming it
/// leaves nothing).
pub open spec fn is_blank(s: Seq<char>) -> bool {
    forall|i: int| 0 <= i < s.len() ==> is_space_char(#[trigger] s[i])
}

/// Decides `is_blank`.
pub fn blank(cs: &Vec<char>) -> (r: bool)
    ensures
        r == is_blank(cs@),
{
    let mut i: usize = 0;
    while i < cs.len()
        invariant
            i <= cs.len(),
            forall|k: int| 0 <= k < i ==> is_space_char(#[trigger] cs@[k]),
        decreases cs.len() - i,
    {
        if !is_space(cs[i]) {
            return false;
        }
        i = i + 1;
    }
    true
}

/// Classes of characters that a scan can run over.
#[derive(Clone, Copy, Debug, PartialEq, Eq)]
pub enum CharClass {
    /// White space.
    Space,
    /// Anything but white space.
    Word,
    /// Anything but the given character.
    Until(char),
}

/// Whether `c` belongs to `class`.
pub open spec fn in_class(c: char, class: CharClass) -> bool {
    match class {
        CharClass::Space => is_space_char(c),
        CharClass::Word => !is_space_char(c),
        CharClass::Until(stop) => c != stop,
    }
}

/// Decides `in_class`.
pub fn class_has(c: char, class: CharClass) -> (r: bool)
    ensures
        r == in_class(c, class),
{
    match class {
        CharClass::Space => is_space(c),
        CharClass::Word => !is_space(c),
        CharClass::Until(stop) => c != stop,
    }
}

/// The first position at or after `i` whose character is outside `class`,
/// or the length of `s` when the run reaches the end.
pub open spec fn run_end(s: Seq<char>, class: CharClass, i: int) -> int
    decreases s.len() - i,
{
    if 0 <= i < s.len() && in_class(s[i], class) {
        run_end(s, class, i + 1)
    } else {
        i
    }
}

/// Scans forward from `start` over the characters of `class`.
pub fn scan_run(cs: &Vec<char>, class: CharClass, start: usize) -> (end: usize)
    requires
        start <= cs.len(),
    ensures
        end == run_end(cs@, class, start as int),
        start <= end <= cs.len(),
{
    let mut i: usize = start;
    while i < cs.len() && class_has(cs[i], class)
        invariant
            start <= i <= cs.len(),
            run_end(cs@, class, start as int) == run_end(cs@, class, i as int),
        decreases cs.len() - i,
    {
        i = i + 1;
    }
    i
}

/// Whether `needle` stands in `hay` at position `i`.
pub open spec fn occurs_at(hay: Seq<char>, needle: Seq<char>, i: int) -> bool {
    &&& 0 <= i
    &&& i + needle.len() <= hay.len()
    &&& hay.subrange(i, i + needle.len()) == needle
}

/// Whether `needle` stands somewhere in `hay`.
pub open spec fn contains_text(hay: Seq<char>, needle: Seq<char>) -> bool {
    exists|i: int| occurs_at(hay, needle, i)
}

/// The first position at or after `i` where `needle` stands in `hay`, or
/// the length of `hay` when there is none.
pub open spec fn find_from(hay: Seq<char>, needle: Seq<char>, i: int) -> int
    decreases hay.len() - i,
{
    if i < 0 || i >= hay.len() || i + needle.len() > hay.len() {
        hay.len() as int
    } else if occurs_at(hay, needle, i) {
        i
    } else {
        find_from(hay, needle, i + 1)
    }
}

/// What `find_from` returns is the first occurrence, and there is none
/// before it.
pub proof fn lemma_find_from(hay: Seq<char>, needle: Seq<char>, i: int)
    requires
        0 <= i <= hay.len(),
    ensures
        i <= find_from(hay, needle, i) <= hay.len(),
        forall|k: int| i <= k < find_from(hay, needle, i) ==> !occurs_at(hay, needle, k),
        find_from(hay, needle, i) < hay.len() ==> occurs_at(
            hay,
            needle,
            find_from(hay, needle, i),
        ),
        find_from(hay, needle, i) == hay.len() && needle.len() > 0 ==> forall|k: int|
            i <= k ==> !#[trigger] occurs_at(hay, needle, k),
    decreases hay.len() - i,
{
    if i >= hay.len() || i + needle.len() > hay.len() {
    } else if occurs_at(hay, needle, i) {
    } else {
        lemma_find_from(hay, needle, i + 1);
    }
}

/// Decides `occurs_at`.
pub fn starts_at(hay: &Vec<char>, needle: &Vec<char>, i: usize) -> (r: bool)
    ensures
        r == occurs_at(hay@, needle@, i as int),
{
    if needle.len() > hay.len() || i > hay.len() - needle.len() {
        return false;
    }
    let mut k: usize = 0;
    while k < needle.len()
        invariant
            k <= needle.len(),
            i + needle.len() <= hay.len(),
            forall|j: int| 0 <= j < k ==> hay@[i + j] == needle@[j],
        decreases needle.len() - k,
    {
        if hay[i + k] != needle[k] {
            assert(hay@.subrange(i as int, i + needle.len())[k as int] == hay@[i + k]);
            return false;
        }
        k = k + 1;
    }
    assert(hay@.subrange(i as int, i + needle.len()) =~= needle@);
    true
}

/// Finds the first occurrence of `needle` in `hay` at or after `start`.
pub fn find_text(hay: &Vec<char>, needle: &Vec<char>, start: usize) -> (at: usize)
    requires
        start <= hay.len(),
    ensures
        at == find_from(hay@, needle@, start as int),
        start <= at <= hay.len(),
{
    let mut i: usize = start;
    while i < hay.len() && needle.len() <= hay.len() - i
        invariant
            start <= i <= hay.len(),
            find_from(hay@, needle@, start as int) == find_from(hay@, needle@, i as int),
        decreases hay.len() - i,
    {
        if starts_at(hay, needle, i) {
            return i;
        }
        i = i + 1;
    }
    hay.len()
}

/// Whether `needle` stands somewhere in `hay`.
pub fn has_text(hay: &Vec<char>, needle: &Vec<char>) -> (r: bool)
    ensures
        r == contains_text(hay@, needle@),
{
    let at = find_text(hay, needle, 0);
    proof {
        lemma_find_from(hay@, needle@, 0);
    }
    if at < hay.len() {
        true
    } else if needle.len() == 0 {
        assert(occurs_at(hay@, needle@, 0)) by {
            assert(hay@.subrange(0, 0) =~= needle@);
        }
        true
    } else {
        assert forall|k: int| !occurs_at(hay@, needle@, k) by {
            if k >= 0 {
            }
        }
        false
    }
}

/// Whether `s` begins with `prefix`.
pub fn begins_with(s: &Vec<char>, prefix: &Vec<char>) -> (r: bool)
    ensures
        r == occurs_at(s@, prefix@, 0),
{
    starts_at(s, prefix, 0)
}

/// The characters of `cs` from `from` up to `to`, as a string.
pub fn text_between(s: &str, from: usize, to: usize) -> (r: String)
    requires
        from <= to <= s@.len(),
    ensures
        r@ == s@.subrange(from as int, to as int),
{
    s.substring_char(from, to).to_owned()
}

/// A line without the carriage return that may end it.
pub open spec fn strip_cr(line: Seq<char>) -> Seq<char> {
    if line.len() > 0 && line.last() == '\r' {
        line.drop_last()
    } else {
        line
    }
}

/// The lines of `s` that are still to come when a scan stands at `i` in a
/// line that began at `start`. A line ends at a line feed, which is not
/// part of it, nor is a carriage return right before the line feed. What
/// follows the last line feed is a line of its own unless it is empty.
pub open spec fn lines_scan(s: Seq<char>, start: int, i: int) -> Seq<Seq<char>>
    decreases s.len() - i,
{
    if start < 0 || i < start {
        Seq::empty()
    } else if i >= s.len() {
        if start < s.len() {
            seq![s.subrange(start, s.len() as int)]
        } else {
            Seq::empty()
        }
    } else if s[i] == '\n' {
        seq![strip_cr(s.subrange(start, i))] + lines_scan(s, i + 1, i + 1)
    } else {
        lines_scan(s, start, i + 1)
    }
}

/// The lines of a text.
pub open spec fn lines_of(s: Seq<char>) -> Seq<Seq<char>> {
    lines_scan(s, 0, 0)
}

/// Splits a text into its lines.
pub fn split_lines(s: &str) -> (lines: Vec<String>)
    ensures
        texts(lines@) == lines_of(s@),
{
    let cs = chars_of(s);
    let mut lines: Vec<String> = Vec::new();
    let mut start: usize = 0;
    let mut i: usize = 0;
    assert(texts(lines@) + lines_scan(s@, 0, 0) =~= lines_of(s@));
    while i < cs.len()
        invariant
            cs@ == s@,
            start <= i <= cs.len(),
            lines_of(s@) == texts(lines@) + lines_scan(s@, start as int, i as int),
        decreases cs.len() - i,
    {
        if cs[i] == '\n' {
            let end: usize = if i > start && cs[i - 1] == '\r' {
                i - 1
            } else {
                i
            };
            let line = text_between(s, start, end);
            proof {
                let raw = s@.subrange(start as int, i as int);
                if i > start && cs[i - 1] == '\r' {
                    assert(raw.last() == '\r');
                    assert(raw.drop_last() =~= s@.subrange(start as int, end as int));
                } else {
                    if raw.len() > 0 {
                        assert(raw.last() == cs@[i - 1]);
                    }
                }
                assert(line@ == strip_cr(raw));
            }
            let ghost before = lines@;
            lines.push(line);
            proof {
                assert(texts(lines@) =~= texts(before).push(line@));
                assert(texts(lines@) + lines_scan(s@, i + 1, i + 1) =~= texts(before) + (seq![
                    line@,
                ] + lines_scan(s@, i + 1, i + 1)));
            }
            start = i + 1;
        }
        i = i + 1;
    }
    if start < cs.len() {
        let line = text_between(s, start, cs.len());
        let ghost before = lines@;
        lines.push(line);
        proof {
            assert(texts(lines@) =~= texts(before).push(line@));
            assert(texts(lines@) =~= texts(before) + seq![line@]);
        }
    } else {
        assert(texts(lines@) + Seq::<Seq<char>>::empty() =~= texts(lines@));
    }
    lines
}

/// The entries of `items` that hold something, in order.
pub open spec fn keep_some(items: Seq<Option<Seq<char>>>) -> Seq<Seq<char>>
    decreases items.len(),
{
    if items.len() == 0 {
        Seq::empty()
    } else {
        match items.last() {
            Some(item) => keep_some(items.drop_last()).push(item),
            None => keep_some(items.drop_last()),
        }
    }
}

/// `keep_some` on a sequence that grew by one entry.
pub proof fn lemma_keep_some_step(items: Seq<Option<Seq<char>>>, i: int)
    requires
        0 <= i < items.len(),
    ensures
        keep_some(items.take(i + 1)) == match items[i] {
            Some(item) => keep_some(items.take(i)).push(item),
            None => keep_some(items.take(i)),
        },
{
    assert(items.take(i + 1).drop_last() =~= items.take(i));
}

/// Whether std takes `c` for a letter: the Unicode property `Alphabetic`,
/// as `char::is_alphabetic` decides it.
pub uninterp spec fn char_alphabetic(c: char) -> bool;

/// Whether std takes `c` for a letter or a number: `Alphabetic` or one of
/// the numeric categories, as `char::is_alphanumeric` decides it.
pub uninterp spec fn char_alphanumeric(c: char) -> bool;

/// Whether `c` is one of the letters of ASCII.
pub open spec fn is_ascii_letter(c: char) -> bool {
    ('a' <= c <= 'z') || ('A' <= c <= 'Z')
}

/// Whether `c` is one of the digits of ASCII.
pub open spec fn is_ascii_digit(c: char) -> bool {
    '0' <= c <= '9'
}

/// `char::is_alphabetic`. The result is given the name `char_alphabetic`;
/// within ASCII, where the property holds of the letters and of nothing
/// else, it is also stated outright.
#[verifier::external_body]
pub(crate) fn is_alphabetic(c: char) -> (r: bool)
    ensures
        r == char_alphabetic(c),
        (c as u32) < 128 ==> r == is_ascii_letter(c),
{
    c.is_alphabetic()
}

/// `char::is_alphanumeric`. The result is given the name
/// `char_alphanumeric`; within ASCII, where it holds of the letters and
/// digits and of nothing else, it is also stated outright.
#[verifier::external_body]
pub(crate) fn is_alphanumeric(c: char) -> (r: bool)
    ensures
        r == char_alphanumeric(c),
        (c as u32) < 128 ==> r == (is_ascii_letter(c) || is_ascii_digit(c)),
{
    c.is_alphanumeric()
}

/// The position of the last `c` in `s`, or -1 where there is none.
pub open spec fn last_index_of(s: Seq<char>, c: char) -> int
    decreases s.len(),
{
    if s.len() == 0 {
        -1
    } else if s.last() == c {
        s.len() - 1
    } else {
        last_index_of(s.drop_last(), c)
    }
}

/// Finds the last `c` in `cs`.
pub fn find_last(cs: &Vec<char>, c: char) -> (at: Option<usize>)
    ensures
        match at {
            Some(i) => i == last_index_of(cs@, c) && i < cs.len(),
            None => last_index_of(cs@, c) == -1,
        },
{
    let mut i: usize = cs.len();
    assert(cs@.take(i as int) =~= cs@);
    while i > 0
        invariant
            i <= cs.len(),
            last_index_of(cs@, c) == last_index_of(cs@.take(i as int), c),
        decreases i,
    {
        if cs[i - 1] == c {
            return Some(i - 1);
        }
        assert(cs@.take(i as int).drop_last() =~= cs@.take(i - 1));
        i = i - 1;
    }
    None
}

/// The lowercase form of a text, as `str::to_lowercase` gives it: each
/// character replaced by its Unicode lowercase mapping, which may be
/// several characters long and depends on context for one Greek letter.
pub uninterp spec fn lowercase_text(s: Seq<char>) -> Seq<char>;

/// `str::to_lowercase`. The result is given the name `lowercase_text`.
#[verifier::external_body]
pub(crate) fn lowercase(s: &str) -> (r: String)
    ensures
        r@ == lowercase_text(s@),
{
    s.to_lowercase()
}

/// The number that an ASCII digit stands for.
pub open spec fn digit_value(c: char) -> nat
    recommends
        is_ascii_digit(c),
{
    (c as u32 - '0' as u32) as nat
}

/// Whether every character is an ASCII digit.
pub open spec fn all_digits(s: Seq<char>) -> bool {
    forall|i: int| 0 <= i < s.len() ==> is_ascii_digit(#[trigger] s[i])
}

/// The number that a run of ASCII digits writes in decimal.
pub open spec fn digits_value(s: Seq<char>) -> nat
    decreases s.len(),
{
    if s.len() == 0 {
        0
    } else {
        digits_value(s.drop_last()) * 10 + digit_value(s.last())
    }
}

/// The number that a text writes, read as std reads a `u64`: an optional
/// `+`, then at least one ASCII digit and nothing else, and a value that
/// fits in 64 bits.
pub open spec fn decimal_u64(s: Seq<char>) -> Option<u64> {
    let body = if s.len() > 0 && s[0] == '+' {
        s.drop_first()
    } else {
        s
    };
    if body.len() > 0 && all_digits(body) && digits_value(body) <= u64::MAX {
        Some(digits_value(body) as u64)
    } else {
        None
    }
}

/// A longer run of digits never writes a smaller number than its
/// beginning.
pub proof fn lemma_digits_value_grows(s: Seq<char>, i: int)
    requires
        0 <= i <= s.len(),
    ensures
        digits_value(s.take(i)) <= digits_value(s),
    decreases s.len(),
{
    if i == s.len() {
        assert(s.take(i) =~= s);
    } else {
        assert(s.drop_last().take(i) =~= s.take(i));
        lemma_digits_value_grows(s.drop_last(), i);
    }
}

/// Reads a `u64` written in decimal.
pub fn parse_u64(s: &str) -> (r: Option<u64>)
    ensures
        r == decimal_u64(s@),
{
    let cs = chars_of(s);
    let start: usize = if cs.len() > 0 && cs[0] == '+' {
        1
    } else {
        0
    };
    let ghost body = cs@.subrange(start as int, cs.len() as int);
    proof {
        if start == 1 {
            assert(body =~= s@.drop_first());
        } else {
            assert(body =~= s@);
        }
    }
    if start == cs.len() {
        return None;
    }
    let mut value: u64 = 0;
    let mut i: usize = start;
    assert(body.take(0) =~= Seq::<char>::empty());
    while i < cs.len()
        invariant
            start <= i <= cs.len(),
            body == cs@.subrange(start as int, cs.len() as int),
            decimal_u64(s@) == if body.len() > 0 && all_digits(body) && digits_value(body)
                <= u64::MAX {
                Some(digits_value(body) as u64)
            } else {
                None
            },
            all_digits(body.take(i - start)),
            value == digits_value(body.take(i - start)),
        decreases cs.len() - i,
    {
        let c = cs[i];
        let ghost next = body.take(i - start + 1);
        proof {
            assert(next.drop_last() =~= body.take(i - start));
            assert(next.last() == c);
        }
        if !('0' <= c && c <= '9') {
            assert(!is_ascii_digit(body[i - start]));
            return None;
        }
        let d: u64 = (c as u32 - '0' as u32) as u64;
        if value > (u64::MAX - d) / 10 {
            proof {
                assert(digits_value(next) > u64::MAX);
                lemma_digits_value_grows(body, i - start + 1);
            }
            return None;
        }
        value = value * 10 + d;
        proof {
            assert forall|k: int| 0 <= k < next.len() implies is_ascii_digit(#[trigger] next[k]) by {
                if k < i - start {
                    assert(next[k] == body.take(i - start)[k]);
                }
            }
        }
        i = i + 1;
    }
    assert(body.take(i - start) =~= body);
    Some(value)
}

/// Where the text ends once trailing white space is cut off.
pub open spec fn trimmed_end(s: Seq<char>) -> int
    decreases s.len(),
{
    if s.len() == 0 {
        0
    } else if is_space_char(s.last()) {
        trimmed_end(s.drop_last())
    } else {
        s.len() as int
    }
}

/// The text without the white space before and after it.
pub open spec fn trimmed(s: Seq<char>) -> Seq<char> {
    let from = run_end(s, CharClass::Space, 0);
    let to = trimmed_end(s);
    if from < to {
        s.subrange(from, to)
    } else {
        Seq::empty()
    }
}

/// Cuts the white space off both ends of a text.
pub fn trim(s: &str) -> (r: String)
    ensures
        r@ == trimmed(s@),
{
    let cs = chars_of(s);
    let from = scan_run(&cs, CharClass::Space, 0);
    let mut to: usize = cs.len();
    assert(cs@.take(to as int) =~= cs@);
    while to > 0 && is_space(cs[to - 1])
        invariant
            to <= cs.len(),
            trimmed_end(cs@) == trimmed_end(cs@.take(to as int)),
        decreases to,
    {
        assert(cs@.take(to as int).drop_last() =~= cs@.take(to - 1));
        to = to - 1;
    }
    proof {
        if to > 0 {
            assert(cs@.take(to as int).last() == cs@[to - 1]);
        }
        assert(trimmed_end(cs@) == to);
    }
    if from < to {
        text_between(s, from, to)
    } else {
        String::new()
    }
}

} // verus!
