//! What the operations on texts do, said of the characters.

use vstd::arithmetic::power::{lemma_pow0, lemma_pow1, lemma_pow_adds, pow};
use vstd::prelude::*;

use crate::chars::{ascii_lower, begins, digits_value, ends, first_at, is_digit, is_space, joined, lines_of, number_of, replaced, same_ignoring_case, split_is_not_empty, split_on, trimmed, trimmed_end, trimmed_of, trimmed_start, words_of, words_within};
use crate::sort::text_le;
use crate::text::{decimal_text, signed_text};

verus! {

/// All characters are white space.
pub open spec fn blank(s: Seq<char>) -> bool {
    forall|i: int| 0 <= i < s.len() ==> is_space(#[trigger] s[i])
}

/// No character is white space.
pub open spec fn solid(s: Seq<char>) -> bool {
    forall|i: int| 0 <= i < s.len() ==> !is_space(#[trigger] s[i])
}

/// Among the ASCII characters the blank, the tab, the line feed, the vertical tab, the form feed and
/// the carriage return are white space, and no other.
pub proof fn ascii_white_space(c: char)
    requires
        c as u32 <= 0x7f,
    ensures
        is_space(c) <==> c == ' ' || c == '\t' || c == '\n' || c == '\u{b}' || c == '\u{c}' || c
            == '\r',
{
}

proof fn trimmed_start_cuts(s: Seq<char>) -> (front: Seq<char>)
    ensures
        s == front + trimmed_start(s),
        blank(front),
        trimmed_start(s).len() > 0 ==> !is_space(trimmed_start(s)[0]),
    decreases s.len(),
{
    if s.len() > 0 && is_space(s[0]) {
        let front = trimmed_start_cuts(s.skip(1));
        assert(s =~= seq![s[0]] + s.skip(1));
        assert(s =~= (seq![s[0]] + front) + trimmed_start(s));
        seq![s[0]] + front
    } else {
        assert(s =~= Seq::empty() + s);
        Seq::empty()
    }
}

proof fn trimmed_end_cuts(s: Seq<char>) -> (back: Seq<char>)
    ensures
        s == trimmed_end(s) + back,
        blank(back),
        trimmed_end(s).len() > 0 ==> !is_space(trimmed_end(s).last()),
    decreases s.len(),
{
    if s.len() > 0 && is_space(s.last()) {
        let back = trimmed_end_cuts(s.drop_last());
        assert(s =~= s.drop_last().push(s.last()));
        assert(s =~= trimmed_end(s) + back.push(s.last()));
        back.push(s.last())
    } else {
        assert(s =~= s + Seq::empty());
        Seq::empty()
    }
}

/// A text is its trimmed text between two stretches of white space.
pub open spec fn surrounded(s: Seq<char>, front: Seq<char>, inner: Seq<char>, back: Seq<char>) -> bool {
    s == front + inner + back && blank(front) && blank(back)
}

/// Trimming cuts off white space at either end, and all of it.
pub proof fn trimming_cuts_white_space(s: Seq<char>)
    ensures
        exists|front: Seq<char>, back: Seq<char>| #[trigger] surrounded(s, front, trimmed(s), back),
        trimmed(s).len() > 0 ==> !is_space(trimmed(s)[0]) && !is_space(trimmed(s).last()),
{
    let front = trimmed_start_cuts(s);
    let middle = trimmed_start(s);
    let back = trimmed_end_cuts(middle);
    assert(s =~= front + trimmed(s) + back);
    assert(surrounded(s, front, trimmed(s), back));
    if trimmed(s).len() > 0 {
        assert(middle[0] == trimmed(s)[0]);
    }
}

proof fn blank_fronts_are_cut(front: Seq<char>, s: Seq<char>)
    requires
        blank(front),
        s.len() > 0 ==> !is_space(s[0]),
    ensures
        trimmed_start(front + s) == s,
    decreases front.len(),
{
    let all = front + s;
    if front.len() > 0 {
        let rest = front.skip(1);
        assert forall|i: int| 0 <= i < rest.len() implies is_space(#[trigger] rest[i]) by {
            assert(is_space(front[i + 1]));
        }
        assert(is_space(front[0]) && all[0] == front[0]);
        assert(all.skip(1) =~= rest + s);
        blank_fronts_are_cut(rest, s);
    } else {
        assert(all =~= s);
    }
}

proof fn blank_backs_are_cut(s: Seq<char>, back: Seq<char>)
    requires
        blank(back),
        s.len() > 0 ==> !is_space(s.last()),
    ensures
        trimmed_end(s + back) == s,
    decreases back.len(),
{
    let all = s + back;
    if back.len() > 0 {
        let rest = back.drop_last();
        assert forall|i: int| 0 <= i < rest.len() implies is_space(#[trigger] rest[i]) by {
            assert(is_space(back[i]));
        }
        assert(is_space(back[back.len() - 1]) && all.last() == back.last());
        assert(all.drop_last() =~= s + rest);
        blank_backs_are_cut(s, rest);
    } else {
        assert(all =~= s);
    }
}

/// A text that neither begins nor ends with white space is what is left of it between any white
/// space.
pub proof fn trimming_leaves_the_inner_text(front: Seq<char>, inner: Seq<char>, back: Seq<char>)
    requires
        blank(front),
        blank(back),
        inner.len() > 0,
        !is_space(inner[0]),
        !is_space(inner.last()),
    ensures
        trimmed(front + inner + back) == inner,
{
    assert(front + inner + back =~= front + (inner + back));
    blank_fronts_are_cut(front, inner + back);
    blank_backs_are_cut(inner, back);
}

/// All characters are `c`.
pub open spec fn only(s: Seq<char>, c: char) -> bool {
    forall|i: int| 0 <= i < s.len() ==> #[trigger] s[i] == c
}

/// Trimming a character off the end cuts off a stretch of it, and all of that stretch.
pub proof fn trimming_cuts_the_character(s: Seq<char>, c: char)
    ensures
        trimmed_of(s, c).len() <= s.len(),
        trimmed_of(s, c) == s.take(trimmed_of(s, c).len() as int),
        only(s.skip(trimmed_of(s, c).len() as int), c),
        trimmed_of(s, c).len() > 0 ==> trimmed_of(s, c).last() != c,
    decreases s.len(),
{
    if s.len() > 0 && s.last() == c {
        let init = s.drop_last();
        trimming_cuts_the_character(init, c);
        let n = trimmed_of(s, c).len() as int;
        assert(init.take(n) =~= s.take(n));
        assert forall|i: int| 0 <= i < s.skip(n).len() implies #[trigger] s.skip(n)[i] == c by {
            if i < init.skip(n).len() {
                assert(init.skip(n)[i] == c);
            }
        }
    } else {
        assert(s.take(s.len() as int) =~= s);
    }
}

/// A text begins with another exactly where it is that text with more behind it.
pub proof fn beginnings_have_rests(s: Seq<char>, prefix: Seq<char>, rest: Seq<char>)
    ensures
        begins(prefix + rest, prefix),
        begins(s, prefix) ==> s == prefix + s.skip(prefix.len() as int),
{
    assert((prefix + rest).take(prefix.len() as int) =~= prefix);
    if begins(s, prefix) {
        assert(s =~= s.take(prefix.len() as int) + s.skip(prefix.len() as int));
    }
}

/// A text ends with another exactly where it is that text with more before it.
pub proof fn endings_have_fronts(s: Seq<char>, front: Seq<char>, suffix: Seq<char>)
    ensures
        ends(front + suffix, suffix),
        ends(s, suffix) ==> s == s.take(s.len() - suffix.len()) + suffix,
{
    assert((front + suffix).skip(front.len() as int) =~= suffix);
    if ends(s, suffix) {
        assert(s =~= s.take(s.len() - suffix.len()) + s.skip(s.len() - suffix.len()));
    }
}

/// The pattern stands in the text at an index.
pub open spec fn stands_at(s: Seq<char>, pattern: Seq<char>, i: int) -> bool {
    0 <= i && i + pattern.len() <= s.len() && s.subrange(i, i + pattern.len()) == pattern
}

/// What is found is the first place at which the pattern stands.
pub proof fn the_first_place_is_found(s: Seq<char>, pattern: Seq<char>)
    ensures
        match first_at(s, pattern) {
            Some(n) => stands_at(s, pattern, n as int) && forall|i: int|
                0 <= i < n ==> !#[trigger] stands_at(s, pattern, i),
            None => forall|i: int| !#[trigger] stands_at(s, pattern, i),
        },
    decreases s.len(),
{
    if begins(s, pattern) {
        assert(s.subrange(0, pattern.len() as int) =~= s.take(pattern.len() as int));
    } else if s.len() == 0 {
        assert forall|i: int| !#[trigger] stands_at(s, pattern, i) by {
            if stands_at(s, pattern, i) {
                assert(s.take(0) =~= pattern);
            }
        }
    } else {
        let rest = s.skip(1);
        the_first_place_is_found(rest, pattern);
        assert forall|i: int| #[trigger] stands_at(s, pattern, i) implies i > 0 && stands_at(
            rest,
            pattern,
            i - 1,
        ) by {
            if i == 0 {
                assert(s.take(pattern.len() as int) =~= s.subrange(0, pattern.len() as int));
            } else {
                assert(rest.subrange(i - 1, i - 1 + pattern.len()) =~= s.subrange(
                    i,
                    i + pattern.len(),
                ));
            }
        }
        match first_at(rest, pattern) {
            Some(n) => {
                let m = n as int;
                assert(rest.subrange(m, m + pattern.len()) =~= s.subrange(
                    m + 1,
                    m + 1 + pattern.len(),
                ));
            },
            None => {},
        }
    }
}

/// Replacing leaves a text alone in which the pattern does not stand; otherwise it keeps what stands
/// before its first place, puts the other text there, and goes on behind it.
pub proof fn replacing_goes_place_by_place(s: Seq<char>, from: Seq<char>, to: Seq<char>)
    requires
        from.len() > 0,
    ensures
        match first_at(s, from) {
            Some(n) => replaced(s, from, to) == s.take(n as int) + to + replaced(
                s.skip(n as int + from.len()),
                from,
                to,
            ),
            None => replaced(s, from, to) == s,
        },
    decreases s.len(),
{
    if s.len() == 0 {
    } else if begins(s, from) {
        assert(s.take(0) + to =~= to);
    } else {
        let rest = s.skip(1);
        replacing_goes_place_by_place(rest, from, to);
        match first_at(rest, from) {
            Some(n) => {
                the_first_place_is_found(rest, from);
                let m = n as int;
                assert(rest.skip(m + from.len()) =~= s.skip(m + 1 + from.len()));
                assert(s.take(m + 1) =~= seq![s[0]] + rest.take(m));
                assert(replaced(s, from, to) =~= s.take(m + 1) + to + replaced(
                    s.skip(m + 1 + from.len()),
                    from,
                    to,
                ));
            },
            None => {
                assert(s =~= seq![s[0]] + rest);
            },
        }
    }
}

/// The pieces of a text, put together again with what separates them, are the text.
pub proof fn joining_undoes_splitting(s: Seq<char>, c: char)
    ensures
        joined(split_on(s, c), seq![c], split_on(s, c).len()) == s,
    decreases s.len(),
{
    if s.len() > 0 {
        let init = s.drop_last();
        let before = split_on(init, c);
        let after = split_on(s, c);
        split_is_not_empty(init, c);
        joining_undoes_splitting(init, c);
        let n = before.len();
        if s.last() == c {
            joined_alike(before, after, seq![c], n);
            assert(joined(after, seq![c], n + 1) =~= s);
        } else {
            joined_alike(before, after, seq![c], (n - 1) as nat);
            if n == 1 {
                assert(joined(after, seq![c], n) =~= s);
            } else {
                assert(joined(after, seq![c], n) =~= joined(before, seq![c], n).push(s.last()));
                assert(joined(after, seq![c], n) =~= s);
            }
        }
    } else {
        assert(joined(split_on(s, c), seq![c], 1) =~= s);
    }
}

proof fn joined_alike(a: Seq<Seq<char>>, b: Seq<Seq<char>>, separator: Seq<char>, n: nat)
    requires
        n <= a.len(),
        n <= b.len(),
        forall|i: int| 0 <= i < n ==> #[trigger] a[i] == b[i],
    ensures
        joined(a, separator, n) == joined(b, separator, n),
    decreases n,
{
    if n > 1 {
        joined_alike(a, b, separator, (n - 1) as nat);
    }
    if n > 0 {
        assert(a[n - 1] == b[n - 1]);
    }
}

/// Texts that lack a character, put together with it, split at it into those texts.
pub proof fn splitting_undoes_joining(parts: Seq<Seq<char>>, c: char, n: nat)
    requires
        0 < n <= parts.len(),
        forall|i: int| 0 <= i < parts.len() ==> !(#[trigger] parts[i]).contains(c),
    ensures
        split_on(joined(parts, seq![c], n), c) == parts.take(n as int),
    decreases n,
{
    let last = parts[n - 1];
    assert forall|i: int| 0 <= i < last.len() implies #[trigger] last[i] != c by {
        if last[i] == c {
            assert(last.contains(c));
        }
    }
    if n == 1 {
        crate::bench::statement_laws::unsplit(last, c);
        assert(parts.take(1) =~= seq![last]);
    } else {
        let m = (n - 1) as nat;
        let before = joined(parts, seq![c], m);
        splitting_undoes_joining(parts, c, m);
        crate::bench::statement_laws::split_at_last(before, last, c);
        assert(joined(parts, seq![c], n) =~= before.push(c) + last);
        assert(parts.take(n as int) =~= parts.take(m as int).push(last));
    }
}

/// Replacing one character by another goes character by character.
pub proof fn replacing_a_character(s: Seq<char>, from: char, to: char, i: int)
    requires
        0 <= i < s.len(),
    ensures
        replaced(s, seq![from], seq![to]).len() == s.len(),
        replaced(s, seq![from], seq![to])[i] == if s[i] == from {
            to
        } else {
            s[i]
        },
    decreases s.len(),
{
    let p = seq![from];
    let rest = s.skip(1);
    assert(s.take(1) =~= seq![s[0]]);
    assert(begins(s, p) == (s[0] == from)) by {
        if s[0] == from {
            assert(s.take(1) =~= p);
        } else {
            assert(s.take(1)[0] != p[0]);
        }
    }
    if i > 0 {
        replacing_a_character(rest, from, to, i - 1);
        assert(rest[i - 1] == s[i]);
    } else if rest.len() > 0 {
        replacing_a_character(rest, from, to, 0);
    }
}

/// A text that ends its line: a line feed after it, or a carriage return and a line feed.
pub open spec fn ended(line: Seq<char>, with_return: bool) -> Seq<char> {
    if with_return {
        line.push('\r').push('\n')
    } else {
        line.push('\n')
    }
}

/// The text holds no line feed.
pub open spec fn one_line(s: Seq<char>) -> bool {
    forall|i: int| 0 <= i < s.len() ==> #[trigger] s[i] != '\n'
}

proof fn split_at_first(a: Seq<char>, b: Seq<char>, c: char)
    requires
        forall|i: int| 0 <= i < a.len() ==> #[trigger] a[i] != c,
    ensures
        split_on(a.push(c) + b, c) == seq![a] + split_on(b, c),
    decreases b.len(),
{
    let all = a.push(c) + b;
    if b.len() == 0 {
        assert(all =~= a.push(c));
        assert(all.drop_last() =~= a);
        crate::bench::statement_laws::unsplit(a, c);
        assert(seq![a].push(Seq::<char>::empty()) =~= seq![a] + seq![Seq::<char>::empty()]);
    } else {
        let init = b.drop_last();
        split_at_first(a, init, c);
        assert(all.drop_last() =~= a.push(c) + init);
        assert(all.last() == b.last());
        let rest = split_on(init, c);
        split_is_not_empty(init, c);
        let before = seq![a] + rest;
        assert(before.last() == rest.last());
        if b.last() == c {
            assert(before.push(Seq::<char>::empty()) =~= seq![a] + rest.push(
                Seq::<char>::empty(),
            ));
        } else {
            assert(before.update(before.len() - 1, before.last().push(b.last())) =~= seq![a]
                + rest.update(rest.len() - 1, rest.last().push(b.last())));
        }
    }
}

/// A text's first line ends at its first line feed, with the carriage return before it, and the
/// other lines are those of the rest. A text without line feeds is one line, and an empty text has
/// none.
pub proof fn lines_end_at_line_feeds(line: Seq<char>, with_return: bool, rest: Seq<char>)
    requires
        one_line(line),
        line.len() > 0 && !with_return ==> line.last() != '\r',
    ensures
        lines_of(ended(line, with_return) + rest) == seq![line] + lines_of(rest),
        lines_of(line) == if line.len() == 0 {
            Seq::empty()
        } else {
            seq![line]
        },
{
    let first = if with_return {
        line.push('\r')
    } else {
        line
    };
    split_at_first(first, rest, '\n');
    split_is_not_empty(rest, '\n');
    let parts = split_on(rest, '\n');
    let all = seq![first] + parts;
    assert(all.last() == parts.last());
    assert(line.push('\r').drop_last() =~= line);
    assert(lines_of(ended(line, with_return) + rest) =~= seq![line] + lines_of(rest));
    crate::bench::statement_laws::unsplit(line, '\n');
    assert(lines_of(line) =~= if line.len() == 0 {
        Seq::empty()
    } else {
        seq![line]
    });
}

proof fn words_of_solid(s: Seq<char>)
    requires
        solid(s),
    ensures
        s.len() > 0 ==> words_within(s) == (seq![s], true),
    decreases s.len(),
{
    if s.len() > 0 {
        let init = s.drop_last();
        assert forall|i: int| 0 <= i < init.len() implies !is_space(#[trigger] init[i]) by {
            assert(!is_space(s[i]));
        }
        assert(!is_space(s[s.len() - 1]));
        words_of_solid(init);
        if init.len() > 0 {
            assert(init.push(s.last()) =~= s);
            assert(words_within(init).0.last() == init);
        } else {
            assert(init =~= Seq::empty());
            assert(seq![s.last()] =~= s);
            assert(words_within(init).0 =~= Seq::empty());
        }
        assert(words_within(s).0 =~= seq![s]);
    }
}

proof fn words_on_either_side(a: Seq<char>, c: char, b: Seq<char>)
    requires
        is_space(c),
    ensures
        words_within(a.push(c) + b).0 == words_of(a) + words_of(b),
        b.len() == 0 ==> !words_within(a.push(c) + b).1,
        b.len() > 0 ==> words_within(a.push(c) + b).1 == words_within(b).1,
        words_within(b).1 ==> words_of(b).len() > 0,
    decreases b.len(),
{
    let all = a.push(c) + b;
    if b.len() == 0 {
        assert(all =~= a.push(c));
        assert(all.drop_last() =~= a);
        assert(words_of(a) + words_of(b) =~= words_of(a));
    } else {
        let init = b.drop_last();
        words_on_either_side(a, c, init);
        assert(all.drop_last() =~= a.push(c) + init);
        assert(all.last() == b.last());
        let left = words_of(a);
        let (right, open) = words_within(init);
        let before = left + right;
        if is_space(b.last()) {
        } else if open {
            assert(before.last() == right.last());
            assert(before.update(before.len() - 1, before.last().push(b.last())) =~= left
                + right.update(right.len() - 1, right.last().push(b.last())));
        } else {
            assert(before.push(seq![b.last()]) =~= left + right.push(seq![b.last()]));
        }
    }
}

/// White space separates words: those of a text with a white space character in it are the words
/// before it and the words behind it. A text without white space is one word, and an empty text has
/// none.
pub proof fn white_space_separates_words(a: Seq<char>, c: char, b: Seq<char>)
    requires
        is_space(c),
    ensures
        words_of(a.push(c) + b) == words_of(a) + words_of(b),
        solid(a) ==> words_of(a) == if a.len() == 0 {
            Seq::empty()
        } else {
            seq![a]
        },
{
    words_on_either_side(a, c, b);
    if solid(a) {
        words_of_solid(a);
    }
}

/// Lower case changes the capital letters of ASCII, each to its small letter, and nothing else.
pub proof fn lower_case_is_ascii(c: char)
    ensures
        'A' <= c <= 'Z' ==> 'a' <= ascii_lower(c) <= 'z' && ascii_lower(c) as int - 'a' as int == c
            as int - 'A' as int,
        !('A' <= c <= 'Z') ==> ascii_lower(c) == c,
{
}

/// Texts that are the same but for the case of letters have the same characters, or a small and a
/// capital letter of one kind.
pub proof fn same_but_for_case(a: Seq<char>, b: Seq<char>)
    ensures
        same_ignoring_case(a, b) <==> a.len() == b.len() && forall|i: int|
            0 <= i < a.len() ==> {
                let x = #[trigger] a[i] as int;
                let y = b[i] as int;
                ||| x == y
                ||| 'A' as int <= x <= 'Z' as int && y == x + 32
                ||| 'A' as int <= y <= 'Z' as int && x == y + 32
            },
{
    if a.len() == b.len() {
        assert forall|i: int| 0 <= i < a.len() implies (ascii_lower(#[trigger] a[i]) == ascii_lower(
            b[i],
        )) == {
            let x = a[i] as int;
            let y = b[i] as int;
            ||| x == y
            ||| 'A' as int <= x <= 'Z' as int && y == x + 32
            ||| 'A' as int <= y <= 'Z' as int && x == y + 32
        } by {
            lower_case_is_ascii(a[i]);
            lower_case_is_ascii(b[i]);
        }
    }
}

/// All characters are decimal digits.
pub open spec fn digits(s: Seq<char>) -> bool {
    forall|i: int| 0 <= i < s.len() ==> '0' <= #[trigger] s[i] <= '9'
}

/// Digits count by their place: those before others count ten times as much for each of these.
pub proof fn digits_count_by_place(a: Seq<char>, b: Seq<char>)
    requires
        digits(a),
        digits(b),
    ensures
        digits_value(a + b) == digits_value(a) * pow(10, b.len()) + digits_value(b),
        a.len() == 1 ==> digits_value(a) == a[0] as int - '0' as int,
    decreases b.len(),
{
    if b.len() == 0 {
        lemma_pow0(10);
        assert(a + b =~= a);
        assert(digits_value(a) * 1 == digits_value(a));
    } else {
        let init = b.drop_last();
        assert(digits(init)) by {
            assert forall|i: int| 0 <= i < init.len() implies '0' <= #[trigger] init[i] <= '9' by {
                assert('0' <= b[i] <= '9');
            }
        }
        digits_count_by_place(a, init);
        assert((a + b).drop_last() =~= a + init);
        lemma_pow1(10);
        lemma_pow_adds(10, 1, init.len());
        let x = digits_value(a) as int;
        let p = pow(10, init.len());
        assert(pow(10, b.len()) == 10 * p);
        assert('0' <= b[b.len() - 1] <= '9');
        assert(x * (10 * p) == (x * p) * 10) by (nonlinear_arith);
    }
    if a.len() == 1 {
        assert('0' <= a[0] <= '9');
        assert(a.drop_last() =~= Seq::empty());
        assert(digits_value(a.drop_last()) == 0);
    }
}

proof fn decimal_text_is_digits(n: nat)
    ensures
        digits(decimal_text(n)),
        decimal_text(n).len() > 0,
        digits_value(decimal_text(n)) == n,
        n > 0 ==> decimal_text(n)[0] != '0',
    decreases n,
{
    if n < 10 {
        let s = decimal_text(n);
        assert(s.len() == 1);
        assert(s.drop_last() =~= Seq::empty());
        assert(digits_value(s.drop_last()) == 0);
    } else {
        decimal_text_is_digits(n / 10);
        let init = decimal_text(n / 10);
        let s = decimal_text(n);
        assert(s.drop_last() =~= init);
        assert forall|i: int| 0 <= i < s.len() implies '0' <= #[trigger] s[i] <= '9' by {
            if i < init.len() {
                assert('0' <= init[i] <= '9');
            }
        }
    }
}

/// A number is written in decimal digits, the first of which is no zero unless it is the only one,
/// and reading them gives the number back.
pub proof fn reading_undoes_writing(n: nat, max: nat)
    ensures
        digits(decimal_text(n)),
        decimal_text(n).len() > 0,
        decimal_text(n)[0] == '0' ==> decimal_text(n).len() == 1,
        number_of(decimal_text(n), max) == if n <= max {
            Some(n)
        } else {
            None
        },
{
    decimal_text_is_digits(n);
    let s = decimal_text(n);
    assert('0' <= s[0] <= '9');
    assert forall|i: int| 0 <= i < s.len() implies is_digit(#[trigger] s[i]) by {}
    if n == 0 {
        assert(s.len() == 1);
    }
}

/// A number that a text writes counts its digits by their place; a plus sign before them changes
/// nothing. Texts with anything else, or with no digit, write none.
pub proof fn numbers_are_digits(s: Seq<char>, max: nat)
    ensures
        digits(s) && s.len() > 0 ==> number_of(s, max) == if digits_value(s) <= max {
            Some(digits_value(s))
        } else {
            None
        },
        digits(s) ==> number_of(seq!['+'] + s, max) == number_of(s, max),
        number_of(s, max) is Some ==> s.len() > 0 && (digits(s) || s[0] == '+' && digits(
            s.skip(1),
        ) && s.len() > 1),
{
    let plus = seq!['+'] + s;
    assert(plus.skip(1) =~= s);
    if digits(s) {
        if s.len() > 0 {
            assert('0' <= s[0] <= '9');
        }
        assert forall|i: int| 0 <= i < s.len() implies is_digit(#[trigger] s[i]) by {}
    }
    if number_of(s, max) is Some {
        let rest = crate::chars::without_plus(s);
        assert forall|i: int| 0 <= i < rest.len() implies '0' <= #[trigger] rest[i] <= '9' by {
            assert(is_digit(rest[i]));
        }
    }
}

/// A negative number is written as its opposite, after a hyphen; no other number has one.
pub proof fn hyphens_mark_negative_numbers(n: int)
    ensures
        n >= 0 ==> signed_text(n) == decimal_text(n as nat) && signed_text(n)[0] != '-',
        n > 0 ==> signed_text(-n) == seq!['-'] + signed_text(n),
{
    if n >= 0 {
        decimal_text_is_digits(n as nat);
        assert('0' <= decimal_text(n as nat)[0] <= '9');
    }
}

proof fn text_from(a: Seq<char>, b: Seq<char>, from: nat, i: nat)
    requires
        from <= i <= a.len(),
        i <= b.len(),
        forall|j: int| from <= j < i ==> #[trigger] a[j] == b[j],
    ensures
        text_le(a, b, from) == text_le(a, b, i),
    decreases i - from,
{
    if from < i {
        assert(a[from as int] == b[from as int]);
        text_from(a, b, from + 1, i);
    }
}

/// Texts are in order as in a dictionary: where they agree before an index, the one that ends there
/// comes first, and otherwise the one whose character there has the smaller code.
pub proof fn texts_are_lexicographic(a: Seq<char>, b: Seq<char>, i: int)
    requires
        0 <= i <= a.len(),
        i <= b.len(),
        forall|j: int| 0 <= j < i ==> #[trigger] a[j] == b[j],
    ensures
        i == a.len() ==> text_le(a, b, 0),
        i < a.len() && i == b.len() ==> !text_le(a, b, 0),
        i < a.len() && i < b.len() && a[i] != b[i] ==> (text_le(a, b, 0) <==> (a[i] as int) < (b[i]
            as int)),
{
    text_from(a, b, 0, i as nat);
}

} // verus!
