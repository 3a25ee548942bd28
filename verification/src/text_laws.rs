//! What the functions on text do, told by what the text is put together from.
use crate::text::CharClass;
use vstd::prelude::*;

verus! {

/// Whether `core` is `s` without its ends: all that is missing at either side belongs to `class`,
/// and neither the first nor the last character of `core` does.
pub open spec fn is_core(s: Seq<char>, core: Seq<char>, class: CharClass) -> bool {
    exists|from: int, to: int| #[trigger] is_core_at(s, core, class, from, to)
}

/// Whether `core` is the part of `s` between `from` and `to` that `is_core` speaks of.
pub open spec fn is_core_at(
    s: Seq<char>,
    core: Seq<char>,
    class: CharClass,
    from: int,
    to: int,
) -> bool {
    &&& 0 <= from <= to <= s.len()
    &&& core == s.subrange(from, to)
    &&& forall|i: int| 0 <= i < from ==> class.holds(#[trigger] s[i])
    &&& forall|i: int| to <= i < s.len() ==> class.holds(#[trigger] s[i])
    &&& from < to ==> !class.holds(s[from]) && !class.holds(s[to - 1])
}

/// White space is what Unicode calls so; of the ASCII characters that is the blank and the five
/// controls from the tab to the carriage return. A class of one character holds that one alone.
pub proof fn lemma_white_space(c: char, only: char)
    ensures
        c == ' ' || c == '\t' || c == '\n' || c == '\r' ==> CharClass::Space.holds(c),
        (c as nat) < 128 ==> (CharClass::Space.holds(c) <==> c as nat == 32 || 9 <= c as nat
            <= 13),
        CharClass::Only(only).holds(c) <==> c == only,
{
}

proof fn lemma_leading(s: Seq<char>, class: CharClass)
    ensures
        ({
            let rest = crate::text::without_leading(s, class);
            let from = s.len() - rest.len();
            &&& 0 <= from <= s.len()
            &&& rest == s.skip(from)
            &&& forall|i: int| 0 <= i < from ==> class.holds(#[trigger] s[i])
            &&& rest.len() > 0 ==> !class.holds(rest[0])
        }),
    decreases s.len(),
{
    if s.len() > 0 && class.holds(s[0]) {
        lemma_leading(s.skip(1), class);
        let rest = crate::text::without_leading(s, class);
        let from = s.len() - rest.len();
        assert(rest =~= s.skip(from));
        assert forall|i: int| 0 <= i < from implies class.holds(#[trigger] s[i]) by {
            if i > 0 {
                assert(s.skip(1)[i - 1] == s[i]);
            }
        }
    } else {
        assert(s =~= s.skip(0));
    }
}

proof fn lemma_trailing(s: Seq<char>, class: CharClass)
    ensures
        ({
            let rest = crate::text::without_trailing(s, class);
            &&& rest.len() <= s.len()
            &&& rest == s.take(rest.len() as int)
            &&& forall|i: int| rest.len() <= i < s.len() ==> class.holds(#[trigger] s[i])
            &&& rest.len() > 0 ==> !class.holds(rest.last())
        }),
    decreases s.len(),
{
    if s.len() > 0 && class.holds(s.last()) {
        lemma_trailing(s.drop_last(), class);
        let rest = crate::text::without_trailing(s, class);
        assert(rest =~= s.take(rest.len() as int));
        assert forall|i: int| rest.len() <= i < s.len() implies class.holds(#[trigger] s[i]) by {
            if i < s.len() - 1 {
                assert(s.drop_last()[i] == s[i]);
            }
        }
    } else {
        assert(s =~= s.take(s.len() as int));
    }
}

/// Trimming takes the characters of a class off both ends and leaves everything between.
pub proof fn lemma_trimmed_is_the_core(s: Seq<char>, class: CharClass)
    ensures
        is_core(s, crate::text::trimmed(s, class), class),
{
    let front = crate::text::without_leading(s, class);
    let core = crate::text::trimmed(s, class);
    lemma_leading(s, class);
    lemma_trailing(front, class);
    let from = s.len() - front.len();
    let to = from + core.len();
    assert(core =~= s.subrange(from, to));
    assert forall|i: int| to <= i < s.len() implies class.holds(#[trigger] s[i]) by {
        assert(front[i - from] == s[i]);
    }
    if from < to {
        assert(core[0] == front[0] && s[from] == front[0]);
        assert(core.last() == s[to - 1]);
    }
    assert(is_core_at(s, core, class, from, to));
}

/// A text has one core: two parts that `is_core` accepts are the same.
pub proof fn lemma_one_core(s: Seq<char>, left: Seq<char>, right: Seq<char>, class: CharClass)
    requires
        is_core(s, left, class),
        is_core(s, right, class),
    ensures
        left == right,
{
    let (a, b) = choose|from: int, to: int| #[trigger] is_core_at(s, left, class, from, to);
    let (c, d) = choose|from: int, to: int| #[trigger] is_core_at(s, right, class, from, to);
    if a < b {
        assert(!class.holds(s[a]) && !class.holds(s[b - 1]));
        assert(c <= a && b <= d);
    }
    if c < d {
        assert(!class.holds(s[c]) && !class.holds(s[d - 1]));
        assert(a <= c && d <= b);
    }
    assert(left =~= right);
}

/// A token ends before the first character of a class, or with the text.
pub proof fn lemma_token_ends_at_the_first(s: Seq<char>, class: CharClass)
    ensures
        ({
            let token = crate::text::until(s, class);
            &&& token.len() <= s.len()
            &&& token == s.take(token.len() as int)
            &&& forall|i: int| 0 <= i < token.len() ==> !class.holds(#[trigger] s[i])
            &&& token.len() < s.len() ==> class.holds(s[token.len() as int])
        }),
    decreases s.len(),
{
    if s.len() == 0 || class.holds(s[0]) {
        assert(s.take(0) =~= Seq::empty());
    } else {
        lemma_token_ends_at_the_first(s.skip(1), class);
        let token = crate::text::until(s, class);
        assert(token =~= s.take(token.len() as int));
        assert forall|i: int| 0 <= i < token.len() implies !class.holds(#[trigger] s[i]) by {
            if i > 0 {
                assert(s.skip(1)[i - 1] == s[i]);
            }
        }
    }
}

proof fn lemma_head(a: Seq<char>, c: char, b: Seq<char>)
    requires
        !a.contains(c),
    ensures
        crate::text::until(a + seq![c] + b, CharClass::Only(c)) == a,
        crate::text::until(a, CharClass::Only(c)) == a,
        (a + seq![c] + b).skip(a.len() as int + 1) == b,
{
    let s = a + seq![c] + b;
    lemma_token_ends_at_the_first(s, CharClass::Only(c));
    lemma_token_ends_at_the_first(a, CharClass::Only(c));
    let token = crate::text::until(s, CharClass::Only(c));
    let whole = crate::text::until(a, CharClass::Only(c));
    assert(s[a.len() as int] == c);
    if token.len() < a.len() {
        assert(s[token.len() as int] == a[token.len() as int]);
        assert(a.contains(c));
    }
    assert(token.len() <= a.len()) by {
        if token.len() > a.len() {
            assert(!CharClass::Only(c).holds(s[a.len() as int]));
        }
    }
    assert(s.take(a.len() as int) =~= a);
    if whole.len() < a.len() {
        assert(a.contains(a[whole.len() as int]));
    }
    assert(a.take(a.len() as int) =~= a);
    assert(s.skip(a.len() as int + 1) =~= b);
}

/// A separator parts a text into what is before it and what is behind it, and a text without one
/// is a single piece.
pub proof fn lemma_separator_parts(a: Seq<char>, separator: char, b: Seq<char>)
    ensures
        crate::text::pieces(a + seq![separator] + b, separator) == crate::text::pieces(
            a,
            separator,
        ) + crate::text::pieces(b, separator),
        !a.contains(separator) ==> crate::text::pieces(a, separator) == seq![a],
        crate::text::pieces(a, separator).len() > 0,
    decreases a.len(),
{
    let s = a + seq![separator] + b;
    let class = CharClass::Only(separator);
    if !a.contains(separator) {
        lemma_head(a, separator, b);
        assert(crate::text::pieces(a, separator) == seq![a]);
        assert(crate::text::pieces(s, separator) == seq![a] + crate::text::pieces(b, separator));
    } else {
        let head = crate::text::until(a, class);
        lemma_token_ends_at_the_first(a, class);
        if head.len() == a.len() {
            let i = choose|i: int| 0 <= i < a.len() && a[i] == separator;
            assert(!class.holds(a[i]));
        }
        let rest = a.skip(head.len() as int + 1);
        assert(a =~= head + seq![separator] + rest);
        assert(!head.contains(separator)) by {
            if head.contains(separator) {
                let i = choose|i: int| 0 <= i < head.len() && head[i] == separator;
                assert(a[i] == head[i]);
                assert(!class.holds(a[i]));
            }
        }
        assert(s =~= head + seq![separator] + (rest + seq![separator] + b));
        lemma_head(head, separator, rest);
        lemma_head(head, separator, rest + seq![separator] + b);
        lemma_separator_parts(rest, separator, b);
        assert(crate::text::pieces(a, separator) == seq![head] + crate::text::pieces(
            rest,
            separator,
        ));
        assert(crate::text::pieces(s, separator) == seq![head] + crate::text::pieces(
            rest + seq![separator] + b,
            separator,
        ));
        assert(seq![head] + (crate::text::pieces(rest, separator) + crate::text::pieces(
            b,
            separator,
        )) =~= (seq![head] + crate::text::pieces(rest, separator)) + crate::text::pieces(
            b,
            separator,
        ));
    }
}

/// Behind the last separator of a text stands what follows it and holds no other; a text without a
/// separator has no such part.
pub proof fn lemma_behind_the_last_separator(a: Seq<char>, separator: char, b: Seq<char>)
    requires
        !b.contains(separator),
    ensures
        crate::text::after_last(a + seq![separator] + b, separator) == Some(b),
        crate::text::after_last(b, separator) is None,
    decreases b.len(),
{
    let s = a + seq![separator] + b;
    if b.len() == 0 {
        assert(s.last() == separator);
        assert(b =~= Seq::empty());
    } else {
        let front = b.drop_last();
        assert(b.last() != separator) by {
            assert(b.contains(b.last()));
        }
        assert(!front.contains(separator)) by {
            if front.contains(separator) {
                let i = choose|i: int| 0 <= i < front.len() && front[i] == separator;
                assert(b[i] == separator);
            }
        }
        lemma_behind_the_last_separator(a, separator, front);
        assert(s.drop_last() =~= a + seq![separator] + front);
        assert(s.last() == b.last());
        assert(front.push(b.last()) =~= b);
    }
}

/// A line ends with its line feed, and a carriage return before that is no part of it. What no line
/// feed ends is a line as it stands, and nothing at all is no line.
pub proof fn lemma_line_feed_ends_a_line(a: Seq<char>, b: Seq<char>)
    requires
        !a.contains('\n'),
    ensures
        crate::text::lines(a + seq!['\n'] + b) == seq![
            if a.len() > 0 && a.last() == '\r' {
                a.drop_last()
            } else {
                a
            },
        ] + crate::text::lines(b),
        a.len() > 0 ==> crate::text::lines(a) == seq![a],
        crate::text::lines(Seq::empty()) == Seq::<Seq<char>>::empty(),
{
    let s = a + seq!['\n'] + b;
    lemma_head(a, '\n', b);
    assert(s.take(a.len() as int) =~= a);
    if a.len() > 0 {
        assert(s[a.len() - 1] == a.last());
        assert(s.take(a.len() - 1) =~= a.drop_last());
        assert(a.take(a.len() as int) =~= a);
        assert(crate::text::lines(Seq::empty()) =~= Seq::<Seq<char>>::empty());
        assert(crate::text::after_line(a) =~= Seq::empty());
        assert(crate::text::lines(a) =~= seq![a]);
    }
    assert(crate::text::after_line(s) == b);
}

proof fn lemma_decimal_digits(n: nat)
    ensures
        crate::text::decimal(n).len() > 0,
        forall|i: int|
            0 <= i < crate::text::decimal(n).len() ==> '0' <= #[trigger] crate::text::decimal(n)[i]
                <= '9',
        crate::text::digits_value(crate::text::decimal(n)) == n,
        n > 0 ==> crate::text::decimal(n)[0] != '0',
    decreases n,
{
    reveal_with_fuel(crate::text::digits_value, 2);
    if n < 10 {
        assert(crate::text::decimal(n).drop_last() =~= Seq::empty());
    } else {
        lemma_decimal_digits(n / 10);
        assert(crate::text::decimal(n).drop_last() =~= crate::text::decimal(n / 10));
    }
}

/// A number reads back from its decimal digits, with or without a plus sign, unless it is too
/// large. It is written in digits alone, and zero aside none of them leads as a zero.
pub proof fn lemma_number_reads_back(n: nat, max: nat)
    ensures
        crate::text::unsigned_value(crate::text::decimal(n), max) == if n <= max {
            Some(n)
        } else {
            None
        },
        crate::text::unsigned_value(seq!['+'] + crate::text::decimal(n), max) == if n <= max {
            Some(n)
        } else {
            None
        },
        forall|i: int|
            0 <= i < crate::text::decimal(n).len() ==> '0' <= #[trigger] crate::text::decimal(n)[i]
                <= '9',
        n > 0 ==> crate::text::decimal(n)[0] != '0',
{
    let digits = crate::text::decimal(n);
    lemma_decimal_digits(n);
    assert(digits[0] != '+');
    assert((seq!['+'] + digits).skip(1) =~= digits);
}

/// A digit more makes a number ten times as large, and that digit more.
pub proof fn lemma_digit_counts_ten_times_less(digits: Seq<char>, digit: nat)
    requires
        digit < 10,
    ensures
        crate::text::digits_value(digits.push((48 + digit) as char)) == 10
            * crate::text::digits_value(digits) + digit,
        crate::text::digits_value(Seq::empty()) == 0,
{
    let all = digits.push((48 + digit) as char);
    assert(all.drop_last() =~= digits);
}

/// What holds anything but digits behind an optional plus sign spells no number, and so does what
/// holds no digit.
pub proof fn lemma_only_digits_spell_a_number(s: Seq<char>, max: nat)
    ensures
        crate::text::unsigned_value(s, max) matches Some(n) ==> {
            &&& n <= max
            &&& s.len() > 0
            &&& s[s.len() - 1] != '+'
            &&& forall|i: int|
                0 <= i < s.len() ==> '0' <= #[trigger] s[i] <= '9' || (i == 0 && s[i] == '+')
        },
        s.len() > 0 && s[0] != '+' && (forall|i: int|
            0 <= i < s.len() ==> '0' <= #[trigger] s[i] <= '9') && crate::text::digits_value(s)
            <= max ==> crate::text::unsigned_value(s, max) == Some(crate::text::digits_value(s)),
{
    if crate::text::unsigned_value(s, max) is Some && s[0] == '+' {
        let digits = s.skip(1);
        assert forall|i: int| 0 <= i < s.len() implies '0' <= #[trigger] s[i] <= '9' || (i == 0
            && s[i] == '+') by {
            if i > 0 {
                assert(digits[i - 1] == s[i]);
                assert(crate::text::is_digit(digits[i - 1]));
            }
        }
        assert(crate::text::is_digit(digits[digits.len() - 1]));
    }
}

/// A text starts with each of its beginnings and ends with each of its ends, and with nothing else.
pub proof fn lemma_beginnings_and_ends(a: Seq<char>, b: Seq<char>, s: Seq<char>)
    ensures
        crate::text::starts_with(a + b, a),
        crate::text::ends_with(a + b, b),
        crate::text::starts_with(s, a) ==> s == a + s.skip(a.len() as int),
        crate::text::ends_with(s, b) ==> s == s.take(s.len() - b.len()) + b,
{
    assert((a + b).take(a.len() as int) =~= a);
    assert((a + b).skip(a.len() as int) =~= b);
    if crate::text::starts_with(s, a) {
        assert(s =~= s.take(a.len() as int) + s.skip(a.len() as int));
    }
    if crate::text::ends_with(s, b) {
        assert(s =~= s.take(s.len() - b.len()) + s.skip(s.len() - b.len()));
    }
}

/// Turning capitals into small letters keeps every other character where it stands, moves a capital
/// by the distance of the two alphabets, and leaves no capital to turn.
pub proof fn lemma_small_letters(s: Seq<char>, i: int)
    requires
        0 <= i < s.len(),
    ensures
        crate::text::lowered(s).len() == s.len(),
        'A' <= s[i] <= 'Z' ==> crate::text::lowered(s)[i] as nat - 'a' as nat == s[i] as nat
            - 'A' as nat,
        !('A' <= s[i] <= 'Z') ==> crate::text::lowered(s)[i] == s[i],
        !('A' <= crate::text::lowered(s)[i] <= 'Z'),
{
}

} // verus!
