//! What the statements of a script look like.

use vstd::prelude::*;

use super::create_sql::{statement, statement_lines, statements, statements_of};
use crate::chars;

verus! {

/// A character does not occur in a text.
pub open spec fn lacks(s: Seq<char>, c: char) -> bool {
    forall|i: int| 0 <= i < s.len() ==> #[trigger] s[i] != c
}

/// A text begins and ends with something other than white space.
pub open spec fn tight(s: Seq<char>) -> bool {
    s.len() > 0 && !chars::is_space(s[0]) && !chars::is_space(s.last())
}

/// A statement that stands on one line: it is not empty, has no white space at its ends, holds
/// neither a semicolon nor a line feed, and does not begin as a comment does.
pub open spec fn clean(s: Seq<char>) -> bool {
    &&& tight(s)
    &&& lacks(s, ';')
    &&& lacks(s, '\n')
    &&& !chars::begins(s, "--"@)
}

/// Every text is clean.
pub open spec fn all_clean(texts: Seq<Seq<char>>) -> bool {
    forall|i: int| 0 <= i < texts.len() ==> clean(#[trigger] texts[i])
}

/// The pieces of a text lack what separates them, and whatever the text lacks.
proof fn pieces_lack(s: Seq<char>, c: char, d: char)
    ensures
        chars::split_on(s, c).len() > 0,
        forall|i: int|
            0 <= i < chars::split_on(s, c).len() ==> lacks(#[trigger] chars::split_on(s, c)[i], c),
        lacks(s, d) ==> forall|i: int|
            0 <= i < chars::split_on(s, c).len() ==> lacks(#[trigger] chars::split_on(s, c)[i], d),
    decreases s.len(),
{
    if s.len() > 0 {
        let init = s.drop_last();
        pieces_lack(init, c, d);
        let before = chars::split_on(init, c);
        if lacks(s, d) {
            assert forall|i: int| 0 <= i < init.len() implies #[trigger] init[i] != d by {
                assert(s[i] != d);
            }
            assert(s[s.len() - 1] != d);
        }
        assert(lacks(before.last(), c));
    }
}

proof fn trimmed_start_is_tight(s: Seq<char>, d: char)
    ensures
        chars::trimmed_start(s).len() > 0 ==> !chars::is_space(chars::trimmed_start(s)[0]),
        lacks(s, d) ==> lacks(chars::trimmed_start(s), d),
    decreases s.len(),
{
    if s.len() > 0 && chars::is_space(s[0]) {
        trimmed_start_is_tight(s.skip(1), d);
        if lacks(s, d) {
            assert forall|i: int| 0 <= i < s.skip(1).len() implies #[trigger] s.skip(1)[i] != d by {
                assert(s[i + 1] != d);
            }
        }
    }
}

proof fn trimmed_end_is_tight(s: Seq<char>, d: char)
    ensures
        chars::trimmed_end(s).len() > 0 ==> !chars::is_space(chars::trimmed_end(s).last())
            && chars::trimmed_end(s)[0] == s[0],
        lacks(s, d) ==> lacks(chars::trimmed_end(s), d),
    decreases s.len(),
{
    if s.len() > 0 && chars::is_space(s.last()) {
        trimmed_end_is_tight(s.drop_last(), d);
        if lacks(s, d) {
            assert forall|i: int| 0 <= i < s.drop_last().len() implies #[trigger] s.drop_last()[i]
                != d by {
                assert(s[i] != d);
            }
        }
    }
}

/// A trimmed text is tight, unless it is empty, and lacks what the text lacks.
proof fn trimmed_is_tight(s: Seq<char>, d: char)
    ensures
        chars::trimmed(s).len() > 0 ==> tight(chars::trimmed(s)),
        lacks(s, d) ==> lacks(chars::trimmed(s), d),
{
    trimmed_start_is_tight(s, d);
    trimmed_end_is_tight(chars::trimmed_start(s), d);
}

/// The lines of a text lack line feeds, and whatever the text lacks.
proof fn lines_lack(s: Seq<char>, d: char)
    ensures
        forall|i: int|
            0 <= i < chars::lines_of(s).len() ==> lacks(#[trigger] chars::lines_of(s)[i], '\n'),
        lacks(s, d) ==> forall|i: int|
            0 <= i < chars::lines_of(s).len() ==> lacks(#[trigger] chars::lines_of(s)[i], d),
{
    let parts = chars::split_on(s, '\n');
    pieces_lack(s, '\n', d);
    assert forall|i: int| 0 <= i < chars::lines_of(s).len() implies lacks(
        #[trigger] chars::lines_of(s)[i],
        '\n',
    ) && (lacks(s, d) ==> lacks(chars::lines_of(s)[i], d)) by {
        assert(lacks(parts[i], '\n'));
        assert(lacks(s, d) ==> lacks(parts[i], d));
        assert(chars::lines_of(s)[i] == chars::without_return(parts[i]) || chars::lines_of(s)[i]
            == parts[i]);
    }
}

/// The lines of a statement are clean.
proof fn kept_lines_are_clean(lines: Seq<Seq<char>>, n: nat)
    requires
        n <= lines.len(),
        forall|i: int|
            0 <= i < lines.len() ==> lacks(#[trigger] lines[i], '\n') && lacks(lines[i], ';'),
    ensures
        all_clean(statement_lines(lines, n)),
    decreases n,
{
    if n > 0 {
        kept_lines_are_clean(lines, (n - 1) as nat);
        assert(lacks(lines[n - 1], '\n') && lacks(lines[n - 1], ';'));
        trimmed_is_tight(lines[n - 1], '\n');
        trimmed_is_tight(lines[n - 1], ';');
    }
}

/// Clean lines with spaces between them make a clean text.
proof fn joined_lines_are_clean(lines: Seq<Seq<char>>, n: nat)
    requires
        0 < n <= lines.len(),
        all_clean(lines),
    ensures
        clean(chars::joined(lines, " "@, n)),
        chars::joined(lines, " "@, n).len() >= lines[0].len(),
        chars::joined(lines, " "@, n).take(lines[0].len() as int) == lines[0],
        n > 1 ==> chars::joined(lines, " "@, n).len() > lines[0].len() && chars::joined(
            lines,
            " "@,
            n,
        )[lines[0].len() as int] == ' ',
    decreases n,
{
    reveal_strlit(" ");
    reveal_strlit("--");
    let first = lines[0];
    assert(clean(first));
    if n == 1 {
        assert(first.take(first.len() as int) =~= first);
    } else {
        let m = (n - 1) as nat;
        joined_lines_are_clean(lines, m);
        let before = chars::joined(lines, " "@, m);
        let last = lines[n - 1];
        let all = before + " "@ + last;
        assert(clean(last));
        assert(all.len() == before.len() + 1 + last.len());
        assert(all[0] == before[0]);
        assert(all.last() == last.last());
        assert forall|i: int| 0 <= i < all.len() implies #[trigger] all[i] != ';' && all[i]
            != '\n' by {
            if i < before.len() {
                assert(all[i] == before[i]);
            } else if i == before.len() {
                assert(all[i] == ' ');
            } else {
                assert(all[i] == last[i - before.len() - 1]);
            }
        }
        assert(all.take(first.len() as int) =~= before.take(first.len() as int));
        if m == 1 {
            assert(all[first.len() as int] == ' ');
        } else {
            assert(all[first.len() as int] == before[first.len() as int]);
        }
        assert(!chars::begins(all, "--"@)) by {
            if chars::begins(all, "--"@) {
                let two = all.take(2);
                assert(two[0] == '-' && two[1] == '-');
                assert(all[0] == '-' && all[1] == '-');
                if first.len() >= 2 {
                    assert(all.take(first.len() as int)[0] == first[0]);
                    assert(all.take(first.len() as int)[1] == first[1]);
                    assert(first.take(2) =~= "--"@);
                } else {
                    assert(first.len() == 1);
                }
            }
        }
    }
}

/// A statement of a text without semicolons is clean, unless it is empty.
proof fn statement_is_clean(text: Seq<char>)
    requires
        lacks(text, ';'),
    ensures
        statement(text).len() > 0 ==> clean(statement(text)),
{
    let lines = chars::lines_of(text);
    lines_lack(text, ';');
    kept_lines_are_clean(lines, lines.len());
    let kept = statement_lines(lines, lines.len());
    if kept.len() > 0 {
        joined_lines_are_clean(kept, kept.len());
    }
}

proof fn statements_of_are_clean(parts: Seq<Seq<char>>, n: nat)
    requires
        n <= parts.len(),
        forall|i: int| 0 <= i < parts.len() ==> lacks(#[trigger] parts[i], ';'),
    ensures
        all_clean(statements_of(parts, n)),
    decreases n,
{
    if n > 0 {
        statements_of_are_clean(parts, (n - 1) as nat);
        assert(lacks(parts[n - 1], ';'));
        statement_is_clean(parts[n - 1]);
    }
}

/// A text without a separator is one piece.
pub proof fn unsplit(s: Seq<char>, c: char)
    requires
        lacks(s, c),
    ensures
        chars::split_on(s, c) == seq![s],
    decreases s.len(),
{
    if s.len() > 0 {
        let init = s.drop_last();
        assert forall|i: int| 0 <= i < init.len() implies #[trigger] init[i] != c by {
            assert(s[i] != c);
        }
        unsplit(init, c);
        assert(s[s.len() - 1] != c);
        assert(init.push(s.last()) =~= s);
        assert(seq![init].update(0, s) =~= seq![s]);
    } else {
        assert(s =~= Seq::empty());
    }
}

/// What follows the last separator is the last piece.
pub proof fn split_at_last(a: Seq<char>, b: Seq<char>, c: char)
    requires
        lacks(b, c),
    ensures
        chars::split_on(a.push(c) + b, c) == chars::split_on(a, c).push(b),
    decreases b.len(),
{
    let all = a.push(c) + b;
    if b.len() == 0 {
        assert(all =~= a.push(c));
        assert(all.drop_last() =~= a);
        assert(b =~= Seq::empty());
    } else {
        let init = b.drop_last();
        assert forall|i: int| 0 <= i < init.len() implies #[trigger] init[i] != c by {
            assert(b[i] != c);
        }
        split_at_last(a, init, c);
        assert(all.drop_last() =~= a.push(c) + init);
        assert(b[b.len() - 1] != c);
        assert(all.last() == b.last());
        let before = chars::split_on(a, c);
        assert(init.push(b.last()) =~= b);
        assert(before.push(init).update(before.len() as int, b) =~= before.push(b));
    }
}

/// Splitting joined texts gives the texts.
proof fn splitting_undoes_joining(texts: Seq<Seq<char>>, n: nat)
    requires
        0 < n <= texts.len(),
        all_clean(texts),
    ensures
        chars::split_on(chars::joined(texts, ";"@, n), ';') == texts.take(n as int),
    decreases n,
{
    reveal_strlit(";");
    assert(clean(texts[n - 1]));
    if n == 1 {
        unsplit(texts[0], ';');
        assert(seq![texts[0]] =~= texts.take(1));
    } else {
        let m = (n - 1) as nat;
        splitting_undoes_joining(texts, m);
        let before = chars::joined(texts, ";"@, m);
        split_at_last(before, texts[n - 1], ';');
        assert(before + ";"@ + texts[n - 1] =~= before.push(';') + texts[n - 1]);
        assert(texts.take(m as int).push(texts[n - 1]) =~= texts.take(n as int));
    }
}

/// A clean text is a statement as it is.
proof fn clean_texts_are_statements(text: Seq<char>)
    requires
        clean(text),
    ensures
        statement(text) == text,
{
    unsplit(text, '\n');
    let lines = chars::lines_of(text);
    assert(lines =~= seq![text]);
    assert(chars::trimmed_start(text) == text);
    assert(chars::trimmed_end(text) == text);
    assert(statement_lines(lines, 0) =~= Seq::empty());
    assert(statement_lines(lines, 1) =~= seq![text]);
}

proof fn clean_pieces_are_kept(parts: Seq<Seq<char>>, n: nat)
    requires
        n <= parts.len(),
        all_clean(parts),
    ensures
        statements_of(parts, n) == parts.take(n as int),
    decreases n,
{
    if n > 0 {
        clean_pieces_are_kept(parts, (n - 1) as nat);
        assert(clean(parts[n - 1]));
        clean_texts_are_statements(parts[n - 1]);
        assert(parts.take(n - 1).push(parts[n - 1]) =~= parts.take(n as int));
    } else {
        assert(parts.take(0) =~= Seq::empty());
    }
}

/// The statements of a section are clean, and splitting them again, put together with semicolons,
/// changes nothing.
pub proof fn statements_are_clean_and_stay(body: Seq<char>)
    ensures
        all_clean(statements(body)),
        ({
            let found = statements(body);
            statements(chars::joined(found, ";"@, found.len())) == found
        }),
{
    let parts = chars::split_on(body, ';');
    pieces_lack(body, ';', ';');
    statements_of_are_clean(parts, parts.len());
    let found = statements(body);
    let text = chars::joined(found, ";"@, found.len());
    if found.len() == 0 {
        assert(chars::split_on(text, ';') =~= seq![Seq::<char>::empty()]);
        let empty = Seq::<char>::empty();
        assert(chars::split_on(empty, '\n') =~= seq![empty]);
        assert(chars::lines_of(empty) =~= Seq::empty());
        assert(statement(empty) =~= empty);
        assert(statements_of(seq![empty], 0) =~= Seq::empty());
        assert(statements_of(seq![empty], 1) =~= Seq::empty());
        assert(found =~= Seq::empty());
    } else {
        splitting_undoes_joining(found, found.len());
        assert(found.take(found.len() as int) =~= found);
        clean_pieces_are_kept(found, found.len());
    }
}

} // verus!
