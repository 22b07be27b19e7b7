//! Grouped-digit rendering of magnitudes.
//!
//! A magnitude is written as its decimal digits, split into groups of three
//! and right-aligned in a field. The functions here work on characters, so
//! they are defined for every string, not only for runs of digits.

use vstd::prelude::*;

verus! {

/// The character written between two groups.
pub const SEPARATOR: char = '.';

/// The character that fills a field to the left of its text.
pub const FILL: char = ' ';

/// The character that stands for the digit `d`, for `0 <= d < 10`.
pub open spec fn digit_char(d: int) -> char {
    if d == 0 {
        '0'
    } else if d == 1 {
        '1'
    } else if d == 2 {
        '2'
    } else if d == 3 {
        '3'
    } else if d == 4 {
        '4'
    } else if d == 5 {
        '5'
    } else if d == 6 {
        '6'
    } else if d == 7 {
        '7'
    } else if d == 8 {
        '8'
    } else {
        '9'
    }
}

/// Whether `c` is one of the ten decimal digits.
pub open spec fn is_digit(c: char) -> bool {
    exists|d: int| 0 <= d < 10 && c == #[trigger] digit_char(d)
}

/// The number that the digit `c` stands for, and zero for any other
/// character.
pub open spec fn digit_value(c: char) -> nat {
    if c == '1' {
        1
    } else if c == '2' {
        2
    } else if c == '3' {
        3
    } else if c == '4' {
        4
    } else if c == '5' {
        5
    } else if c == '6' {
        6
    } else if c == '7' {
        7
    } else if c == '8' {
        8
    } else if c == '9' {
        9
    } else {
        0
    }
}

/// The decimal digits of `n`, most significant first, without leading zeros;
/// zero is the single digit `0`.
pub open spec fn decimal_digits(n: nat) -> Seq<char>
    decreases n,
{
    if n < 10 {
        seq![digit_char(n as int)]
    } else {
        decimal_digits(n / 10).push(digit_char((n % 10) as int))
    }
}

/// The decimal text of `v`: its digits, after a minus sign when `v` is
/// negative.
pub open spec fn decimal(v: int) -> Seq<char> {
    if v < 0 {
        seq!['-'] + decimal_digits((-v) as nat)
    } else {
        decimal_digits(v as nat)
    }
}

/// The number that a run of digits denotes, read most significant first.
pub open spec fn decimal_value(s: Seq<char>) -> nat
    decreases s.len(),
{
    if s.len() == 0 {
        0
    } else {
        decimal_value(s.drop_last()) * 10 + digit_value(s.last())
    }
}

/// `s` cut into groups of three from the right, with a separator between
/// neighbouring groups. Only the leftmost group may be shorter than three.
pub open spec fn join_groups(s: Seq<char>) -> Seq<char>
    decreases s.len(),
{
    if s.len() <= 3 {
        s
    } else {
        join_groups(s.take(s.len() - 3)).push(SEPARATOR) + s.skip(s.len() - 3)
    }
}

/// How many leading characters of a text of `n` characters are rendered.
///
/// A rendering is made of a leading group of `n % 3` characters, where that
/// is not zero, and of further groups of three, one less of them than the
/// text divides into groups. With a leading group that is the whole text.
/// A text whose length is a positive multiple of three has no leading group,
/// and its last three characters are not rendered.
pub open spec fn rendered_len(n: nat) -> nat {
    if n > 0 && n % 3 == 0 {
        (n - 3) as nat
    } else {
        n
    }
}

/// The grouped rendering of `s`.
pub open spec fn grouped(s: Seq<char>) -> Seq<char> {
    join_groups(s.take(rendered_len(s.len()) as int))
}

/// `s` with every separator removed.
pub open spec fn without_separators(s: Seq<char>) -> Seq<char> {
    s.filter(|c: char| c != SEPARATOR)
}

/// `s` at the right end of a field of `width` characters: filled on the left
/// where it is shorter, unchanged where it is not.
pub open spec fn right_aligned(s: Seq<char>, width: nat) -> Seq<char> {
    if s.len() >= width {
        s
    } else {
        Seq::new((width - s.len()) as nat, |i: int| FILL) + s
    }
}

fn digit_str(d: u64) -> (s: &'static str)
    requires
        d < 10,
    ensures
        s@ == seq![digit_char(d as int)],
{
    proof {
        reveal_strlit("0");
        reveal_strlit("1");
        reveal_strlit("2");
        reveal_strlit("3");
        reveal_strlit("4");
        reveal_strlit("5");
        reveal_strlit("6");
        reveal_strlit("7");
        reveal_strlit("8");
        reveal_strlit("9");
    }
    let s: &'static str = if d == 0 {
        "0"
    } else if d == 1 {
        "1"
    } else if d == 2 {
        "2"
    } else if d == 3 {
        "3"
    } else if d == 4 {
        "4"
    } else if d == 5 {
        "5"
    } else if d == 6 {
        "6"
    } else if d == 7 {
        "7"
    } else if d == 8 {
        "8"
    } else {
        "9"
    };
    s
}

/// The characters for a list of digits that was gathered least significant
/// first.
spec fn trailing_digits(low: Seq<u64>) -> Seq<char> {
    Seq::new(low.len(), |i: int| digit_char(low[low.len() - 1 - i] as int))
}

fn append_digits(out: &mut String, value: u64)
    ensures
        final(out)@ == old(out)@ + decimal_digits(value as nat),
{
    let mut rest: u64 = value;
    let mut low: Vec<u64> = Vec::new();
    while rest >= 10
        invariant
            decimal_digits(value as nat) == decimal_digits(rest as nat) + trailing_digits(low@),
            forall|i: int| 0 <= i < low.len() ==> low[i] < 10,
        decreases rest,
    {
        low.push(rest % 10);
        rest = rest / 10;
    }
    out.append(digit_str(rest));
    let mut i: usize = low.len();
    while i > 0
        invariant
            i <= low.len(),
            forall|j: int| 0 <= j < low.len() ==> low[j] < 10,
            out@ == old(out)@ + decimal_digits(rest as nat) + trailing_digits(low@).take(
                low.len() - i,
            ),
        decreases i,
    {
        i = i - 1;
        out.append(digit_str(low[i]));
    }
    assert(out@ =~= old(out)@ + decimal_digits(value as nat));
}

/// The decimal text of an unsigned magnitude.
pub fn unsigned_decimal(value: u64) -> (text: String)
    ensures
        text@ == decimal(value as int),
{
    let mut text = String::new();
    append_digits(&mut text, value);
    text
}

/// The decimal text of a signed number.
pub fn signed_decimal(value: i64) -> (text: String)
    ensures
        text@ == decimal(value as int),
{
    let mut text = String::new();
    if value < 0 {
        proof {
            reveal_strlit("-");
        }
        text.append("-");
        let magnitude: u64 = ((-(value + 1)) as u64) + 1;
        append_digits(&mut text, magnitude);
    } else {
        append_digits(&mut text, value as u64);
    }
    text
}

/// Renders `text` in groups of three characters, counted from the right,
/// with a separator between neighbouring groups.
///
/// A leading group of `text.len() % 3` characters is written first, where
/// that is not zero. Groups of three follow, one less of them than `text`
/// divides into groups. So a text whose length is a positive multiple of
/// three is rendered without its last three characters, and the empty text
/// is rendered as itself.
pub fn group_digits(text: &str) -> (out: String)
    ensures
        out@ == grouped(text@),
{
    let n: usize = text.unicode_len();
    let base: usize = n % 3;
    // One less than the number of groups, which is `n / 3` rounded up.
    let segments: usize = if base > 0 {
        n / 3
    } else if n > 0 {
        n / 3 - 1
    } else {
        0
    };
    proof {
        reveal_strlit(".");
    }
    let mut out = String::new();
    if base > 0 {
        out.append(text.substring_char(0, base));
        if segments > 0 {
            out.append(".");
        }
    }
    let mut i: usize = 0;
    while i < segments
        invariant
            n == text@.len(),
            base < 3,
            i <= segments,
            base + 3 * segments == rendered_len(n as nat),
            "."@ == seq![SEPARATOR],
            out@ == if base + 3 * i == 0 {
                Seq::<char>::empty()
            } else if i < segments {
                join_groups(text@.take(base + 3 * i)).push(SEPARATOR)
            } else {
                join_groups(text@.take(base + 3 * i))
            },
        decreases segments - i,
    {
        let from: usize = base + 3 * i;
        out.append(text.substring_char(from, from + 3));
        if i < segments - 1 {
            out.append(".");
        }
        proof {
            let whole = text@.take(from + 3);
            assert(whole.take(whole.len() - 3) =~= text@.take(from as int));
        }
        i = i + 1;
    }
    out
}

/// Places `text` at the right end of a field of `width` characters. A text
/// that fills the field or is longer is returned as it is, never cut.
pub fn right_align(text: &str, width: usize) -> (out: String)
    ensures
        out@ == right_aligned(text@, width as nat),
{
    let n: usize = text.unicode_len();
    let mut out = String::new();
    if n < width {
        proof {
            reveal_strlit(" ");
        }
        let gap: usize = width - n;
        let mut i: usize = 0;
        while i < gap
            invariant
                i <= gap,
                " "@ == seq![FILL],
                out@ == Seq::new(i as nat, |k: int| FILL),
            decreases gap - i,
        {
            out.append(" ");
            i = i + 1;
        }
    }
    out.append(text);
    out
}

/// Renders `text` in groups of three, right-aligned in a field of `width`
/// characters.
pub fn format_grouped(text: &str, width: usize) -> (out: String)
    ensures
        out@ == right_aligned(grouped(text@), width as nat),
{
    let groups = group_digits(text);
    right_align(groups.as_str(), width)
}

/// Whether `s` holds no separator.
pub open spec fn separator_free(s: Seq<char>) -> bool {
    forall|i: int| 0 <= i < s.len() ==> s[i] != SEPARATOR
}

/// Whether `out` is made of groups in the way a reader expects: it is not
/// empty, it neither begins nor ends with a separator, and, counted from the
/// right, exactly every fourth character is a separator. So every group but
/// the leftmost has three characters, and the leftmost has one, two or three.
pub open spec fn well_grouped(out: Seq<char>) -> bool {
    &&& out.len() > 0
    &&& out.len() % 4 != 0
    &&& forall|i: int|
        0 <= i < out.len() ==> ((out[i] == SEPARATOR) <==> (out.len() - i) % 4 == 0)
}

/// The digits of a number are digits: there is at least one, none is a
/// separator, and read as a number they give the number back.
pub proof fn lemma_decimal_digits(n: nat)
    ensures
        decimal_digits(n).len() >= 1,
        forall|i: int| 0 <= i < decimal_digits(n).len() ==> is_digit(decimal_digits(n)[i]),
        separator_free(decimal_digits(n)),
        decimal_value(decimal_digits(n)) == n,
    decreases n,
{
    let digits = decimal_digits(n);
    if n < 10 {
        assert(decimal_value(digits.drop_last()) == 0);
    } else {
        lemma_decimal_digits(n / 10);
        assert(digits.drop_last() =~= decimal_digits(n / 10));
    }
}

proof fn lemma_nothing_to_remove(s: Seq<char>)
    requires
        separator_free(s),
    ensures
        without_separators(s) == s,
    decreases s.len(),
{
    reveal(Seq::filter);
    if s.len() > 0 {
        lemma_nothing_to_remove(s.drop_last());
    }
}

/// Removing the separators from the groups of a text that holds none gives
/// the text back.
pub proof fn lemma_join_groups_keeps_text(s: Seq<char>)
    requires
        separator_free(s),
    ensures
        without_separators(join_groups(s)) == s,
    decreases s.len(),
{
    if s.len() <= 3 {
        lemma_nothing_to_remove(s);
    } else {
        let pred = |c: char| c != SEPARATOR;
        let head = s.take(s.len() - 3);
        let tail = s.skip(s.len() - 3);
        lemma_join_groups_keeps_text(head);
        lemma_nothing_to_remove(tail);
        let mark = seq![SEPARATOR];
        assert(mark.filter(pred) =~= Seq::<char>::empty()) by {
            reveal_with_fuel(Seq::filter, 2);
            assert(mark.drop_last() =~= Seq::<char>::empty());
        }
        assert(join_groups(head).push(SEPARATOR) =~= join_groups(head) + mark);
        Seq::filter_distributes_over_add(join_groups(head), mark, pred);
        Seq::filter_distributes_over_add(join_groups(head) + mark, tail, pred);
    }
}

/// The groups of a text that is not empty and holds no separator are well
/// grouped.
pub proof fn lemma_join_groups_shape(s: Seq<char>)
    requires
        s.len() > 0,
        separator_free(s),
    ensures
        well_grouped(join_groups(s)),
        join_groups(s).len() == s.len() + (s.len() - 1) / 3,
    decreases s.len(),
{
    if s.len() > 3 {
        lemma_join_groups_shape(s.take(s.len() - 3));
    }
}

/// Grouping keeps the number: for every magnitude `v` whose digits do not
/// come in a multiple of three, the rendering of `v` without its separators
/// spells the digits of `v`, and so reads as `v` again.
///
/// Digits in a multiple of three are left out: their last group is not
/// rendered (see [`rendered_len`]).
pub proof fn law_grouping_keeps_the_number(v: nat)
    requires
        decimal_digits(v).len() % 3 != 0,
    ensures
        without_separators(grouped(decimal_digits(v))) == decimal_digits(v),
        decimal_value(without_separators(grouped(decimal_digits(v)))) == v,
{
    let digits = decimal_digits(v);
    lemma_decimal_digits(v);
    assert(digits.take(digits.len() as int) =~= digits);
    lemma_join_groups_keeps_text(digits);
}

/// Separators stand where they belong: for every magnitude `v` that does not
/// have exactly three digits, the rendering of `v` is well grouped.
///
/// With exactly three digits nothing is rendered at all, so there is no
/// group to speak of.
pub proof fn law_separator_placement(v: nat)
    requires
        decimal_digits(v).len() != 3,
    ensures
        well_grouped(grouped(decimal_digits(v))),
{
    let digits = decimal_digits(v);
    lemma_decimal_digits(v);
    let shown = digits.take(rendered_len(digits.len()) as int);
    lemma_join_groups_shape(shown);
}

/// A field is as wide as asked, or as wide as its text where that is wider:
/// the text stands at its right end, whole, and everything before it is
/// fill.
pub proof fn law_field_width(s: Seq<char>, width: nat)
    ensures
        right_aligned(s, width).len() == if s.len() >= width {
            s.len()
        } else {
            width
        },
        right_aligned(s, width).skip(right_aligned(s, width).len() - s.len()) == s,
        forall|i: int|
            0 <= i < right_aligned(s, width).len() - s.len() ==> right_aligned(s, width)[i]
                == FILL,
        s.len() >= width ==> right_aligned(s, width) == s,
{
    let field = right_aligned(s, width);
}

} // verus!
