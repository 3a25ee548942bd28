//! Small verified routines over the characters of a text: lines, trimming, decimal numbers.
use vstd::prelude::*;

verus! {

/// `String::push` of std: the text grows by the given character at its end.
pub assume_specification[ String::push ](text: &mut String, c: char)
    ensures
        final(text)@ == old(text)@.push(c),
;

/// The characters of Unicode's `White_Space` property.
pub open spec fn is_space(c: char) -> bool {
    ||| '\u{9}' <= c <= '\u{d}'
    ||| c == ' '
    ||| c == '\u{85}'
    ||| c == '\u{a0}'
    ||| c == '\u{1680}'
    ||| '\u{2000}' <= c <= '\u{200a}'
    ||| c == '\u{2028}'
    ||| c == '\u{2029}'
    ||| c == '\u{202f}'
    ||| c == '\u{205f}'
    ||| c == '\u{3000}'
}

/// A set of characters that trimming removes or that ends a token.
#[derive(Clone, Copy, Debug, PartialEq, Eq, Structural)]
pub enum CharClass {
    Space,
    Only(char),
}

impl CharClass {
    pub open spec fn holds(self, c: char) -> bool {
        match self {
            CharClass::Space => is_space(c),
            CharClass::Only(only) => c == only,
        }
    }

    pub fn contains(self, c: char) -> (r: bool)
        ensures
            r == self.holds(c),
    {
        match self {
            CharClass::Space => ('\u{9}' <= c && c <= '\u{d}') || c == ' ' || c == '\u{85}' || c
                == '\u{a0}' || c == '\u{1680}' || ('\u{2000}' <= c && c <= '\u{200a}') || c
                == '\u{2028}' || c == '\u{2029}' || c == '\u{202f}' || c == '\u{205f}' || c
                == '\u{3000}',
            CharClass::Only(only) => c == only,
        }
    }
}

/// `s` without the characters of `class` at its start.
pub open spec fn without_leading(s: Seq<char>, class: CharClass) -> Seq<char>
    decreases s.len(),
{
    if s.len() > 0 && class.holds(s[0]) {
        without_leading(s.skip(1), class)
    } else {
        s
    }
}

/// `s` without the characters of `class` at its end.
pub open spec fn without_trailing(s: Seq<char>, class: CharClass) -> Seq<char>
    decreases s.len(),
{
    if s.len() > 0 && class.holds(s.last()) {
        without_trailing(s.drop_last(), class)
    } else {
        s
    }
}

/// `s` without the characters of `class` at either end.
pub open spec fn trimmed(s: Seq<char>, class: CharClass) -> Seq<char> {
    without_trailing(without_leading(s, class), class)
}

/// The longest start of `s` that holds no character of `class`.
pub open spec fn until(s: Seq<char>, class: CharClass) -> Seq<char>
    decreases s.len(),
{
    if s.len() == 0 || class.holds(s[0]) {
        Seq::empty()
    } else {
        seq![s[0]] + until(s.skip(1), class)
    }
}

/// The characters of `text`, one by one.
pub fn chars_of(text: &str) -> (chars: Vec<char>)
    ensures
        chars@ == text@,
{
    let mut chars: Vec<char> = Vec::new();
    for c in iter: text.chars()
        invariant
            chars@ == iter.seq().take(iter.index()),
            iter.seq() == text@,
    {
        proof {
            assert(iter.seq().take(iter.index() + 1) =~= iter.seq().take(iter.index()).push(c));
        }
        chars.push(c);
    }
    chars
}

/// The part of `chars` that starts at `from` and ends before `to`.
pub fn part(chars: &Vec<char>, from: usize, to: usize) -> (r: Vec<char>)
    requires
        from <= to <= chars.len(),
    ensures
        r@ == chars@.subrange(from as int, to as int),
{
    let mut r: Vec<char> = Vec::new();
    let mut i: usize = from;
    while i < to
        invariant
            from <= i <= to <= chars.len(),
            r@ == chars@.subrange(from as int, i as int),
        decreases to - i,
    {
        r.push(chars[i]);
        i += 1;
    }
    r
}

/// Where the part of `chars` between `from` and `to` begins once the leading characters of
/// `class` are gone.
pub fn skip_leading(chars: &Vec<char>, from: usize, to: usize, class: CharClass) -> (start: usize)
    requires
        from <= to <= chars.len(),
    ensures
        from <= start <= to,
        chars@.subrange(start as int, to as int) == without_leading(
            chars@.subrange(from as int, to as int),
            class,
        ),
{
    let mut start: usize = from;
    while start < to && class.contains(chars[start])
        invariant
            from <= start <= to <= chars.len(),
            without_leading(chars@.subrange(start as int, to as int), class) == without_leading(
                chars@.subrange(from as int, to as int),
                class,
            ),
        decreases to - start,
    {
        assert(chars@.subrange(start as int, to as int).skip(1) =~= chars@.subrange(
            start + 1,
            to as int,
        ));
        start += 1;
    }
    start
}

/// Where the part of `chars` between `from` and `to` ends once the trailing characters of
/// `class` are gone.
pub fn skip_trailing(chars: &Vec<char>, from: usize, to: usize, class: CharClass) -> (end: usize)
    requires
        from <= to <= chars.len(),
    ensures
        from <= end <= to,
        chars@.subrange(from as int, end as int) == without_trailing(
            chars@.subrange(from as int, to as int),
            class,
        ),
{
    let mut end: usize = to;
    while end > from && class.contains(chars[end - 1])
        invariant
            from <= end <= to <= chars.len(),
            without_trailing(chars@.subrange(from as int, end as int), class) == without_trailing(
                chars@.subrange(from as int, to as int),
                class,
            ),
        decreases end,
    {
        assert(chars@.subrange(from as int, end as int).drop_last() =~= chars@.subrange(
            from as int,
            end - 1,
        ));
        end -= 1;
    }
    end
}

/// Where the first character of `class` at or behind `from` stands, or `to`.
pub fn find(chars: &Vec<char>, from: usize, to: usize, class: CharClass) -> (end: usize)
    requires
        from <= to <= chars.len(),
    ensures
        from <= end <= to,
        chars@.subrange(from as int, end as int) == until(
            chars@.subrange(from as int, to as int),
            class,
        ),
        forall|i: int| from <= i < end ==> !class.holds(#[trigger] chars@[i]),
        end < to ==> class.holds(chars@[end as int]),
{
    let mut end: usize = from;
    while end < to && !class.contains(chars[end])
        invariant
            from <= end <= to <= chars.len(),
            forall|i: int| from <= i < end ==> !class.holds(#[trigger] chars@[i]),
            until(chars@.subrange(from as int, to as int), class) == chars@.subrange(
                from as int,
                end as int,
            ) + until(chars@.subrange(end as int, to as int), class),
        decreases to - end,
    {
        proof {
            let rest = chars@.subrange(end as int, to as int);
            assert(rest.skip(1) =~= chars@.subrange(end + 1, to as int));
            assert(chars@.subrange(from as int, end + 1) =~= chars@.subrange(
                from as int,
                end as int,
            ) + seq![rest[0]]);
        }
        end += 1;
    }
    proof {
        assert(until(chars@.subrange(end as int, to as int), class) =~= Seq::empty());
    }
    end
}

/// Whether `s` starts with `prefix`.
pub open spec fn starts_with(s: Seq<char>, prefix: Seq<char>) -> bool {
    prefix.len() <= s.len() && s.take(prefix.len() as int) == prefix
}

/// Whether `s` ends with `suffix`.
pub open spec fn ends_with(s: Seq<char>, suffix: Seq<char>) -> bool {
    suffix.len() <= s.len() && s.skip(s.len() - suffix.len()) == suffix
}

/// Whether `chars` holds `piece` at `at`.
pub fn holds_at(chars: &Vec<char>, at: usize, piece: &Vec<char>) -> (r: bool)
    requires
        at <= chars.len(),
    ensures
        r == (at + piece.len() <= chars.len() && chars@.subrange(at as int, at + piece.len())
            == piece@),
{
    if piece.len() > chars.len() - at {
        return false;
    }
    let mut i: usize = 0;
    while i < piece.len()
        invariant
            i <= piece.len(),
            at + piece.len() <= chars.len(),
            forall|j: int| 0 <= j < i ==> chars@[at + j] == piece@[j],
        decreases piece.len() - i,
    {
        if chars[at + i] != piece[i] {
            assert(chars@.subrange(at as int, at + piece.len())[i as int] != piece@[i as int]);
            return false;
        }
        i += 1;
    }
    assert(chars@.subrange(at as int, at + piece.len()) =~= piece@);
    true
}

/// Whether the two texts hold the same characters.
pub fn same(left: &Vec<char>, right: &Vec<char>) -> (r: bool)
    ensures
        r == (left@ == right@),
{
    if left.len() != right.len() {
        return false;
    }
    let r = holds_at(left, 0, right);
    assert(left@.subrange(0, left.len() as int) =~= left@);
    r
}

/// Where the first line of `s` ends: at its first line feed, or with the text.
pub open spec fn line_end(s: Seq<char>) -> int {
    until(s, CharClass::Only('\n')).len() as int
}

/// The first line of `s`, without its line feed and without a carriage return before that.
pub open spec fn first_line(s: Seq<char>) -> Seq<char> {
    let end = line_end(s);
    if end < s.len() && end > 0 && s[end - 1] == '\r' {
        s.take(end - 1)
    } else {
        s.take(end)
    }
}

/// What follows the first line of `s` and its line feed.
pub open spec fn after_line(s: Seq<char>) -> Seq<char> {
    if line_end(s) < s.len() {
        s.skip(line_end(s) + 1)
    } else {
        Seq::empty()
    }
}

/// The lines of `s`. A line feed at the very end opens no further line.
pub open spec fn lines(s: Seq<char>) -> Seq<Seq<char>>
    decreases s.len(),
{
    if s.len() == 0 {
        Seq::empty()
    } else {
        seq![first_line(s)] + lines(after_line(s))
    }
}

/// The lines of `chars`.
pub fn lines_of(chars: &Vec<char>) -> (r: Vec<Vec<char>>)
    ensures
        r@.map_values(|line: Vec<char>| line@) == lines(chars@),
{
    let ghost text = |line: Vec<char>| line@;
    let mut r: Vec<Vec<char>> = Vec::new();
    let mut from: usize = 0;
    proof {
        assert(chars@.skip(0) =~= chars@);
        assert(r@.map_values(text) + lines(chars@) =~= lines(chars@));
    }
    while from < chars.len()
        invariant
            from <= chars.len(),
            text == (|line: Vec<char>| line@),
            r@.map_values(text) + lines(chars@.skip(from as int)) == lines(chars@),
        decreases chars.len() - from,
    {
        let len: usize = chars.len();
        let feed: usize = find(chars, from, len, CharClass::Only('\n'));
        let ghost rest = chars@.skip(from as int);
        proof {
            assert(rest =~= chars@.subrange(from as int, len as int));
        }
        let cut: bool = feed < len && feed > from && chars[feed - 1] == '\r';
        let to: usize = if cut {
            feed - 1
        } else {
            feed
        };
        let line: Vec<char> = part(chars, from, to);
        let ghost before = r@;
        r.push(line);
        from = if feed < len {
            feed + 1
        } else {
            len
        };
        proof {
            assert(line@ =~= first_line(rest));
            assert(chars@.skip(from as int) =~= after_line(rest));
            assert(r@.map_values(text) =~= before.map_values(text).push(line@));
            assert(r@.map_values(text) + lines(after_line(rest)) =~= before.map_values(text)
                + lines(rest));
        }
    }
    assert(chars@.skip(from as int).len() == 0);
    assert(r@.map_values(text) =~= lines(chars@));
    r
}

/// Whether `c` is one of the ten decimal digits.
pub open spec fn is_digit(c: char) -> bool {
    '0' <= c <= '9'
}

/// The number that a sequence of decimal digits stands for.
pub open spec fn digits_value(s: Seq<char>) -> nat
    decreases s.len(),
{
    if s.len() == 0 {
        0
    } else {
        digits_value(s.drop_last()) * 10 + (s.last() as nat - '0' as nat) as nat
    }
}

/// The digits of an unsigned decimal number: a plus sign may stand before them.
pub open spec fn unsigned_digits(s: Seq<char>) -> Seq<char> {
    if s.len() > 0 && s[0] == '+' {
        s.skip(1)
    } else {
        s
    }
}

/// The unsigned decimal number that `s` spells, if it spells one that is at most `max`.
pub open spec fn unsigned_value(s: Seq<char>, max: nat) -> Option<nat> {
    let digits = unsigned_digits(s);
    if digits.len() > 0 && (forall|i: int| 0 <= i < digits.len() ==> is_digit(#[trigger] digits[i]))
        && digits_value(digits) <= max {
        Some(digits_value(digits))
    } else {
        None
    }
}

proof fn lemma_digits_value_grows(s: Seq<char>, n: int)
    requires
        0 <= n <= s.len(),
    ensures
        digits_value(s.take(n)) <= digits_value(s),
    decreases s.len() - n,
{
    if n < s.len() {
        lemma_digits_value_grows(s, n + 1);
        assert(s.take(n + 1).drop_last() =~= s.take(n));
    } else {
        assert(s.take(n) =~= s);
    }
}

/// Reads the part of `chars` between `from` and `to` as an unsigned decimal number.
pub fn parse_unsigned(chars: &Vec<char>, from: usize, to: usize, max: u64) -> (r: Option<u64>)
    requires
        from <= to <= chars.len(),
    ensures
        match r {
            Some(n) => unsigned_value(chars@.subrange(from as int, to as int), max as nat) == Some(
                n as nat,
            ),
            None => unsigned_value(chars@.subrange(from as int, to as int), max as nat) is None,
        },
{
    let ghost s = chars@.subrange(from as int, to as int);
    let ghost digits = unsigned_digits(s);
    let start: usize = if from < to && chars[from] == '+' {
        from + 1
    } else {
        from
    };
    proof {
        assert(digits =~= chars@.subrange(start as int, to as int));
    }
    if start == to {
        return None;
    }
    let mut value: u64 = 0;
    let mut i: usize = start;
    while i < to
        invariant
            start <= i <= to <= chars.len(),
            digits == chars@.subrange(start as int, to as int),
            digits == unsigned_digits(s),
            s == chars@.subrange(from as int, to as int),
            forall|j: int| 0 <= j < i - start ==> is_digit(#[trigger] digits[j]),
            value == digits_value(digits.take(i - start)),
            value <= max,
        decreases to - i,
    {
        let c: char = chars[i];
        assert(c == digits[i - start]);
        if !('0' <= c && c <= '9') {
            return None;
        }
        let next: u128 = value as u128 * 10 + (c as u32 - '0' as u32) as u128;
        proof {
            assert(digits.take(i - start + 1).drop_last() =~= digits.take(i - start));
            assert(next == digits_value(digits.take(i - start + 1)));
            lemma_digits_value_grows(digits, i - start + 1);
        }
        if next > max as u128 {
            return None;
        }
        value = next as u64;
        i += 1;
    }
    proof {
        assert(digits.take(to - start) =~= digits);
    }
    Some(value)
}

/// The decimal digits of `n`, most significant first, without leading zeros.
pub open spec fn decimal(n: nat) -> Seq<char>
    decreases n,
{
    if n < 10 {
        seq![(n + '0' as nat) as char]
    } else {
        decimal(n / 10).push((n % 10 + '0' as nat) as char)
    }
}

/// Appends the decimal digits of `n` to `text`.
pub fn push_decimal(text: &mut String, n: u64)
    ensures
        final(text)@ == old(text)@ + decimal(n as nat),
    decreases n,
{
    if n >= 10 {
        push_decimal(text, n / 10);
    }
    let ghost before = text@;
    let digit: u8 = (n % 10) as u8;
    text.push((digit + 48u8) as char);
    proof {
        if n >= 10 {
            assert(before == old(text)@ + decimal((n / 10) as nat));
        }
        assert(text@ =~= old(text)@ + decimal(n as nat));
    }
}

/// The pieces of `s` between its separators.
pub open spec fn pieces(s: Seq<char>, separator: char) -> Seq<Seq<char>>
    decreases s.len(),
{
    let head = until(s, CharClass::Only(separator));
    if head.len() < s.len() {
        seq![head] + pieces(s.skip(head.len() as int + 1), separator)
    } else {
        seq![s]
    }
}

/// The pieces of `chars` between its separators.
pub fn pieces_of(chars: &Vec<char>, separator: char) -> (r: Vec<Vec<char>>)
    ensures
        r@.map_values(|piece: Vec<char>| piece@) == pieces(chars@, separator),
        r@.len() > 0,
{
    let ghost text = |piece: Vec<char>| piece@;
    let mut r: Vec<Vec<char>> = Vec::new();
    let mut from: usize = 0;
    let len: usize = chars.len();
    proof {
        assert(chars@.skip(0) =~= chars@);
        assert(r@.map_values(text) + pieces(chars@, separator) =~= pieces(chars@, separator));
    }
    loop
        invariant
            from <= len,
            len == chars.len(),
            text == (|piece: Vec<char>| piece@),
            r@.map_values(text) + pieces(chars@.skip(from as int), separator) == pieces(
                chars@,
                separator,
            ),
        decreases len - from,
    {
        let end: usize = find(chars, from, len, CharClass::Only(separator));
        let ghost rest = chars@.skip(from as int);
        let ghost before = r@;
        let piece: Vec<char> = part(chars, from, end);
        proof {
            assert(rest =~= chars@.subrange(from as int, len as int));
        }
        r.push(piece);
        proof {
            assert(r@.map_values(text) =~= before.map_values(text).push(piece@));
        }
        if end == len {
            proof {
                assert(piece@ =~= rest);
                assert(r@.map_values(text) =~= before.map_values(text) + pieces(rest, separator));
            }
            return r;
        }
        proof {
            assert(rest.skip(piece@.len() as int + 1) =~= chars@.skip(end + 1));
            assert(r@.map_values(text) + pieces(chars@.skip(end + 1), separator)
                =~= before.map_values(text) + pieces(rest, separator));
        }
        from = end + 1;
    }
}

/// What follows the last `separator` of `s`, if it has one.
pub open spec fn after_last(s: Seq<char>, separator: char) -> Option<Seq<char>>
    decreases s.len(),
{
    if s.len() == 0 {
        None
    } else if s.last() == separator {
        Some(Seq::empty())
    } else {
        match after_last(s.drop_last(), separator) {
            Some(tail) => Some(tail.push(s.last())),
            None => None,
        }
    }
}

/// Where the part behind the last `separator` of `chars` starts, if there is one.
pub fn after_last_separator(chars: &Vec<char>, separator: char) -> (r: Option<usize>)
    ensures
        match r {
            Some(start) => start <= chars.len() && after_last(chars@, separator) == Some(
                chars@.skip(start as int),
            ),
            None => after_last(chars@, separator) is None,
        },
{
    let mut end: usize = chars.len();
    proof {
        assert(chars@.take(end as int) =~= chars@);
    }
    while end > 0
        invariant
            end <= chars.len(),
            match after_last(chars@.take(end as int), separator) {
                Some(tail) => after_last(chars@, separator) == Some(tail + chars@.skip(end as int)),
                None => after_last(chars@, separator) is None,
            },
        decreases end,
    {
        proof {
            let head = chars@.take(end as int);
            assert(head.drop_last() =~= chars@.take(end - 1));
            assert(chars@.skip(end - 1) =~= seq![head.last()] + chars@.skip(end as int));
            match after_last(head.drop_last(), separator) {
                Some(tail) => {
                    assert(tail.push(head.last()) + chars@.skip(end as int) =~= tail + chars@.skip(
                        end - 1,
                    ));
                },
                None => {},
            }
            assert(Seq::<char>::empty() + chars@.skip(end as int) =~= chars@.skip(end as int));
        }
        if chars[end - 1] == separator {
            return Some(end);
        }
        end -= 1;
    }
    None
}

/// `c` with an ASCII capital turned into its small letter.
pub open spec fn lower(c: char) -> char {
    if 'A' <= c <= 'Z' {
        (c as nat + 32) as char
    } else {
        c
    }
}

/// `s` with its ASCII capitals turned into small letters.
pub open spec fn lowered(s: Seq<char>) -> Seq<char> {
    s.map_values(|c: char| lower(c))
}

/// `str::to_ascii_lowercase` of std: ASCII capitals become small letters, all else stays.
pub assume_specification[ str::to_ascii_lowercase ](text: &str) -> (r: String)
    ensures
        r@ == lowered(text@),
;

/// Whether all of `s` are hexadecimal digits of either case.
pub open spec fn is_hex(s: Seq<char>) -> bool {
    forall|i: int| 0 <= i < s.len() ==> is_hex_digit(#[trigger] s[i])
}

pub open spec fn is_hex_digit(c: char) -> bool {
    '0' <= c <= '9' || 'a' <= c <= 'f' || 'A' <= c <= 'F'
}

/// Whether `text` consists of exactly `len` hexadecimal digits.
pub fn is_hex_of_len(text: &str, len: usize) -> (r: bool)
    ensures
        r == (text@.len() == len && is_hex(text@)),
{
    let chars: Vec<char> = chars_of(text);
    if chars.len() != len {
        return false;
    }
    let mut i: usize = 0;
    while i < chars.len()
        invariant
            i <= chars.len(),
            chars@ == text@,
            forall|j: int| 0 <= j < i ==> is_hex_digit(#[trigger] chars@[j]),
        decreases chars.len() - i,
    {
        let c: char = chars[i];
        if !(('0' <= c && c <= '9') || ('a' <= c && c <= 'f') || ('A' <= c && c <= 'F')) {
            assert(!is_hex_digit(chars@[i as int]));
            return false;
        }
        i += 1;
    }
    true
}

} // verus!
