//! Text building: decimal numbers and placeholder substitution.

use vstd::prelude::*;

verus! {

/// The decimal digit that stands for `d`.
pub open spec fn digit(d: nat) -> char
    recommends
        d < 10,
{
    seq!['0', '1', '2', '3', '4', '5', '6', '7', '8', '9'][d as int]
}

/// The decimal numeral of `n`: no sign, no leading zero.
pub open spec fn decimal(n: nat) -> Seq<char>
    decreases n,
{
    if n < 10 {
        seq![digit(n)]
    } else {
        decimal(n / 10).push(digit(n % 10))
    }
}

fn digit_text(d: u64) -> (text: &'static str)
    requires
        d < 10,
    ensures
        text@ == seq![digit(d as nat)],
{
    proof {
        reveal_strlit("0");
        reveal_strlit("1");
        reveal_strlit("2");
        reveal_strlit("3");
        reveal_strlit("4");
        reveal_strlit("5");
        reveal_strlit("6");
        reveal_strlit("7");
        reveal_strlit("8");
        reveal_strlit("9");
    }
    let text = if d == 0 {
        "0"
    } else if d == 1 {
        "1"
    } else if d == 2 {
        "2"
    } else if d == 3 {
        "3"
    } else if d == 4 {
        "4"
    } else if d == 5 {
        "5"
    } else if d == 6 {
        "6"
    } else if d == 7 {
        "7"
    } else if d == 8 {
        "8"
    } else {
        "9"
    };
    assert(text@ =~= seq![digit(d as nat)]);
    text
}

/// The decimal numeral of `n` as text.
pub fn decimal_text(n: u64) -> (text: String)
    ensures
        text@ == decimal(n as nat),
    decreases n,
{
    if n < 10 {
        digit_text(n).to_owned()
    } else {
        let mut text = decimal_text(n / 10);
        text.append(digit_text(n % 10));
        assert(text@ =~= decimal(n as nat));
        text
    }
}

/// Whether `pat` stands in `s` at position `i`.
pub open spec fn occurs_at(s: Seq<char>, pat: Seq<char>, i: int) -> bool {
    0 <= i && i + pat.len() <= s.len() && s.subrange(i, i + pat.len()) == pat
}

/// `s` with every occurrence of the non-empty `pat` replaced by `to`. Occurrences are found
/// from left to right and do not overlap; what was put in is not searched again.
pub open spec fn replace_all(s: Seq<char>, pat: Seq<char>, to: Seq<char>) -> Seq<char>
    recommends
        pat.len() > 0,
    decreases s.len(),
{
    if s.len() == 0 || pat.len() == 0 {
        s
    } else if occurs_at(s, pat, 0) {
        to + replace_all(s.skip(pat.len() as int), pat, to)
    } else {
        seq![s[0]] + replace_all(s.skip(1), pat, to)
    }
}

/// A text in which the pattern does not occur is left as it is.
pub proof fn replace_all_without_occurrence(s: Seq<char>, pat: Seq<char>, to: Seq<char>)
    requires
        pat.len() > 0,
        forall|i: int| !occurs_at(s, pat, i),
    ensures
        replace_all(s, pat, to) == s,
    decreases s.len(),
{
    if s.len() > 0 {
        let rest = s.skip(1);
        assert(!occurs_at(s, pat, 0));
        assert forall|i: int| !occurs_at(rest, pat, i) by {
            if occurs_at(rest, pat, i) {
                assert(rest.subrange(i, i + pat.len()) =~= s.subrange(i + 1, i + 1 + pat.len()));
                assert(occurs_at(s, pat, i + 1));
            }
        }
        replace_all_without_occurrence(rest, pat, to);
        assert(seq![s[0]] + rest =~= s);
    }
}

/// Where the pattern first occurs right after `before`, the text up to there is kept, the
/// occurrence is replaced, and the rest is treated in the same way.
pub proof fn replace_all_at_first_occurrence(
    before: Seq<char>,
    after: Seq<char>,
    pat: Seq<char>,
    to: Seq<char>,
)
    requires
        pat.len() > 0,
        forall|i: int| 0 <= i < before.len() ==> !occurs_at(before + pat + after, pat, i),
    ensures
        replace_all(before + pat + after, pat, to) == before + to + replace_all(after, pat, to),
    decreases before.len(),
{
    let s = before + pat + after;
    if before.len() == 0 {
        assert(s.subrange(0, pat.len() as int) =~= pat);
        assert(occurs_at(s, pat, 0));
        assert(s.skip(pat.len() as int) =~= after);
        assert(before + to + replace_all(after, pat, to) =~= to + replace_all(after, pat, to));
    } else {
        let rest = before.skip(1);
        assert(!occurs_at(s, pat, 0));
        assert(s.skip(1) =~= rest + pat + after);
        assert forall|i: int| 0 <= i < rest.len() implies !occurs_at(rest + pat + after, pat, i) by {
            if occurs_at(rest + pat + after, pat, i) {
                assert((rest + pat + after).subrange(i, i + pat.len()) =~= s.subrange(
                    i + 1,
                    i + 1 + pat.len(),
                ));
                assert(occurs_at(s, pat, i + 1));
            }
        }
        replace_all_at_first_occurrence(rest, after, pat, to);
        assert(seq![s[0]] + (rest + to + replace_all(after, pat, to)) =~= before + to
            + replace_all(after, pat, to));
    }
}

fn chars_of(text: &str) -> (chars: Vec<char>)
    ensures
        chars@ == text@,
{
    let mut chars: Vec<char> = Vec::new();
    for c in it: text.chars()
        invariant
            chars@ == it.seq().take(it.index()),
            it.seq() == text@,
    {
        chars.push(c);
        assert(it.seq().take(it.index() + 1) =~= it.seq().take(it.index()).push(c));
    }
    assert(text@.take(text@.len() as int) =~= text@);
    chars
}

/// Whether `pat` stands in `chars` at position `at`.
fn stands_at(chars: &Vec<char>, pat: &Vec<char>, at: usize) -> (found: bool)
    requires
        at <= chars.len(),
    ensures
        found == occurs_at(chars@, pat@, at as int),
{
    if pat.len() > chars.len() - at {
        return false;
    }
    let mut k: usize = 0;
    while k < pat.len()
        invariant
            k <= pat.len(),
            at + pat.len() <= chars.len(),
            forall|j: int| 0 <= j < k ==> chars@[at + j] == pat@[j],
        decreases pat.len() - k,
    {
        if chars[at + k] != pat[k] {
            assert(chars@.subrange(at as int, at + pat@.len())[k as int] != pat@[k as int]);
            return false;
        }
        k += 1;
    }
    assert(chars@.subrange(at as int, at + pat@.len()) =~= pat@);
    true
}

/// `text` with every occurrence of `pat` replaced by `to`.
pub fn replace_text(text: &str, pat: &str, to: &str) -> (replaced: String)
    requires
        pat@.len() > 0,
    ensures
        replaced@ == replace_all(text@, pat@, to@),
{
    let chars = chars_of(text);
    let wanted = chars_of(pat);
    let mut out = String::new();
    // The characters from `kept` up to `i` are copied as they are.
    let mut kept: usize = 0;
    let mut i: usize = 0;
    assert(text@.skip(0) =~= text@);
    assert(out@ + text@.subrange(0, 0) + replace_all(text@, pat@, to@) =~= replace_all(
        text@,
        pat@,
        to@,
    ));
    while i < chars.len()
        invariant
            chars@ == text@,
            wanted@ == pat@,
            pat@.len() > 0,
            kept <= i <= chars.len(),
            replace_all(text@, pat@, to@) == out@ + text@.subrange(kept as int, i as int)
                + replace_all(text@.skip(i as int), pat@, to@),
        decreases chars.len() - i,
    {
        let ghost rest = text@.skip(i as int);
        let ghost before = out@;
        if stands_at(&chars, &wanted, i) {
            assert(rest.subrange(0, pat@.len() as int) =~= text@.subrange(
                i as int,
                i + pat@.len(),
            ));
            assert(occurs_at(rest, pat@, 0));
            out.append(text.substring_char(kept, i));
            out.append(to);
            let ghost was_kept = kept;
            let ghost was_i = i;
            i = i + wanted.len();
            kept = i;
            assert(rest.skip(pat@.len() as int) =~= text@.skip(i as int));
            assert(out@ + text@.subrange(kept as int, i as int) + replace_all(
                text@.skip(i as int),
                pat@,
                to@,
            ) =~= before + text@.subrange(was_kept as int, was_i as int) + (to@ + replace_all(
                text@.skip(i as int),
                pat@,
                to@,
            )));
        } else {
            assert(!occurs_at(rest, pat@, 0)) by {
                if occurs_at(rest, pat@, 0) {
                    assert(rest.subrange(0, pat@.len() as int) =~= text@.subrange(
                        i as int,
                        i + pat@.len(),
                    ));
                }
            }
            let ghost was_i = i;
            i = i + 1;
            assert(rest.skip(1) =~= text@.skip(i as int));
            assert(out@ + text@.subrange(kept as int, i as int) + replace_all(
                text@.skip(i as int),
                pat@,
                to@,
            ) =~= before + text@.subrange(kept as int, was_i as int) + (seq![rest[0]] + replace_all(
                text@.skip(i as int),
                pat@,
                to@,
            )));
        }
    }
    assert(text@.skip(i as int) =~= Seq::<char>::empty());
    out.append(text.substring_char(kept, i));
    assert(out@ + replace_all(text@.skip(i as int), pat@, to@) =~= out@);
    out
}

/// A number below ten is written as the one digit for it; any other number is written as its
/// tens, followed by the digit for its units.
pub proof fn numerals_are_tens_and_units(tens: nat, units: nat)
    requires
        units < 10,
    ensures
        decimal(units).len() == 1,
        decimal(units)[0] as int == '0' as int + units,
        tens > 0 ==> decimal(10 * tens + units) == decimal(tens) + decimal(units),
{
    assert(units == 0 || units == 1 || units == 2 || units == 3 || units == 4 || units == 5
        || units == 6 || units == 7 || units == 8 || units == 9);
    if tens > 0 {
        let n = 10 * tens + units;
        assert(n / 10 == tens && n % 10 == units);
        assert(decimal(n) =~= decimal(tens) + decimal(units));
    }
}

/// Different numbers are written differently.
pub proof fn different_numbers_have_different_numerals(a: nat, b: nat)
    requires
        a != b,
    ensures
        decimal(a) != decimal(b),
    decreases a,
{
    numerals_are_tens_and_units(a / 10, a % 10);
    numerals_are_tens_and_units(b / 10, b % 10);
    if a >= 10 && b >= 10 {
        assert(decimal(a).last() == digit(a % 10) && decimal(b).last() == digit(b % 10));
        assert(decimal(a).drop_last() =~= decimal(a / 10));
        assert(decimal(b).drop_last() =~= decimal(b / 10));
        if a / 10 != b / 10 {
            different_numbers_have_different_numerals(a / 10, b / 10);
        }
    } else if a >= 10 {
        numeral_is_not_empty(a / 10);
    } else if b >= 10 {
        numeral_is_not_empty(b / 10);
    }
}

proof fn numeral_is_not_empty(n: nat)
    ensures
        decimal(n).len() > 0,
{
}

proof fn lemma_no_prefix_no_occurrence(s: Seq<char>, pat: Seq<char>, i: int)
    requires
        0 <= i <= s.len(),
        !pat.is_prefix_of(s.skip(i)),
    ensures
        !occurs_at(s, pat, i),
{
    if occurs_at(s, pat, i) {
        assert(s.skip(i).subrange(0, pat.len() as int) =~= s.subrange(i, i + pat.len()));
    }
}

/// A text that goes on with the pattern from no position is left as it is.
pub proof fn replacing_keeps_text_without_the_pattern(s: Seq<char>, pat: Seq<char>, to: Seq<char>)
    requires
        pat.len() > 0,
        forall|i: int| 0 <= i <= s.len() ==> !pat.is_prefix_of(#[trigger] s.skip(i)),
    ensures
        replace_all(s, pat, to) == s,
{
    assert forall|i: int| !occurs_at(s, pat, i) by {
        if 0 <= i <= s.len() {
            assert(!pat.is_prefix_of(s.skip(i)));
            lemma_no_prefix_no_occurrence(s, pat, i);
        }
    }
    replace_all_without_occurrence(s, pat, to);
}

/// Where a text goes on with the pattern right after `before`, and from no position before that,
/// `before` is kept, the new text stands in place of the pattern, and the rest is treated in the
/// same way.
pub proof fn replacing_starts_at_the_first_position(
    before: Seq<char>,
    after: Seq<char>,
    pat: Seq<char>,
    to: Seq<char>,
)
    requires
        pat.len() > 0,
        forall|i: int|
            0 <= i < before.len() ==> !pat.is_prefix_of(#[trigger] (before + pat + after).skip(i)),
    ensures
        replace_all(before + pat + after, pat, to) == before + to + replace_all(after, pat, to),
{
    let s = before + pat + after;
    assert forall|i: int| 0 <= i < before.len() implies !occurs_at(s, pat, i) by {
        assert(!pat.is_prefix_of(s.skip(i)));
        lemma_no_prefix_no_occurrence(s, pat, i);
    }
    replace_all_at_first_occurrence(before, after, pat, to);
}

} // verus!
