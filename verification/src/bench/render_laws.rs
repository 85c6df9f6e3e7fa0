//! What rendering makes of the statements of a script.

use vstd::prelude::*;

use super::create_sql::{self, statement, statement_lines, statements, statements_of, substituted, SqlDialect};
use super::pipeline::{self, Registration, TableSource};
use super::statement_laws::{self, lacks, tight};
use crate::chars::{self, begins, replaced};

verus! {

/// A text occurs nowhere in another.
pub open spec fn absent(s: Seq<char>, p: Seq<char>) -> bool {
    forall|i: int| 0 <= i <= s.len() ==> !begins(#[trigger] s.skip(i), p)
}

/// What separates two texts that are replaced in separately is no part of what is replaced.
proof fn replaced_around(a: Seq<char>, c: char, b: Seq<char>, q: Seq<char>, t: Seq<char>)
    requires
        q.len() > 0,
        lacks(q, c),
    ensures
        replaced(a.push(c) + b, q, t) == replaced(a, q, t).push(c) + replaced(b, q, t),
    decreases a.len(),
{
    let s = a.push(c) + b;
    assert(s[a.len() as int] == c);
    if begins(s, q) {
        if q.len() > a.len() {
            assert(s.take(q.len() as int)[a.len() as int] == c);
            assert(q[a.len() as int] == c);
        }
        assert(a.take(q.len() as int) =~= s.take(q.len() as int));
        let rest = a.skip(q.len() as int);
        replaced_around(rest, c, b, q, t);
        assert(s.skip(q.len() as int) =~= rest.push(c) + b);
        assert(replaced(s, q, t) =~= replaced(a, q, t).push(c) + replaced(b, q, t));
    } else if a.len() == 0 {
        assert(s.skip(1) =~= b);
        assert(replaced(a, q, t) =~= a);
        assert(replaced(s, q, t) =~= replaced(a, q, t).push(c) + replaced(b, q, t));
    } else {
        if begins(a, q) {
            assert(s.take(q.len() as int) =~= a.take(q.len() as int));
        }
        let rest = a.skip(1);
        replaced_around(rest, c, b, q, t);
        assert(s.skip(1) =~= rest.push(c) + b);
        assert(replaced(s, q, t) =~= replaced(a, q, t).push(c) + replaced(b, q, t));
    }
}

proof fn replaced_of_empty(q: Seq<char>, t: Seq<char>)
    ensures
        replaced(Seq::empty(), q, t) == Seq::<char>::empty(),
{
}

/// What neither a text nor what is put into it holds, the result does not hold.
proof fn replaced_lacks(s: Seq<char>, q: Seq<char>, t: Seq<char>, c: char)
    requires
        lacks(s, c),
        lacks(t, c),
    ensures
        lacks(replaced(s, q, t), c),
    decreases s.len(),
{
    if q.len() > 0 && s.len() > 0 {
        let n: int = if begins(s, q) {
            q.len() as int
        } else {
            1
        };
        let rest = s.skip(n);
        assert forall|i: int| 0 <= i < rest.len() implies #[trigger] rest[i] != c by {
            assert(s[i + n] != c);
        }
        replaced_lacks(rest, q, t, c);
        assert(s[0] != c);
    }
}

/// The ends of a text that is not empty stay, or become those of what is put in.
proof fn replaced_ends(s: Seq<char>, q: Seq<char>, t: Seq<char>)
    requires
        s.len() > 0,
        q.len() > 0,
        t.len() > 0,
    ensures
        replaced(s, q, t).len() > 0,
        replaced(s, q, t)[0] == (if begins(s, q) {
            t[0]
        } else {
            s[0]
        }),
        replaced(s, q, t).last() == s.last() || replaced(s, q, t).last() == t.last(),
    decreases s.len(),
{
    let n: int = if begins(s, q) {
        q.len() as int
    } else {
        1
    };
    let rest = s.skip(n);
    if rest.len() > 0 {
        replaced_ends(rest, q, t);
        assert(rest.last() == s.last());
    } else {
        assert(replaced(rest, q, t) =~= rest);
    }
}

/// What is replaced is a placeholder, and what it is replaced by fits on a line of a statement.
pub open spec fn fills(q: Seq<char>, t: Seq<char>) -> bool {
    &&& q.len() > 0 && q[0] == '{'
    &&& lacks(q, ';')
    &&& forall|i: int| 0 <= i < q.len() ==> !chars::is_space(#[trigger] q[i])
    &&& tight(t)
    &&& lacks(t, ';')
    &&& lacks(t, '\n')
    &&& t[0] != '-'
}

proof fn spaces_are_no_part(q: Seq<char>, t: Seq<char>, c: char)
    requires
        fills(q, t),
        chars::is_space(c),
    ensures
        lacks(q, c),
{
}

/// Every text with a placeholder replaced.
pub open spec fn all_replaced(texts: Seq<Seq<char>>, q: Seq<char>, t: Seq<char>) -> Seq<Seq<char>> {
    Seq::new(texts.len(), |i: int| replaced(texts[i], q, t))
}

/// Pieces are replaced in separately.
proof fn pieces_are_replaced(s: Seq<char>, c: char, q: Seq<char>, t: Seq<char>)
    requires
        q.len() > 0,
        lacks(q, c),
        lacks(t, c),
    ensures
        chars::split_on(replaced(s, q, t), c) == all_replaced(chars::split_on(s, c), q, t),
    decreases s.len(),
{
    if lacks(s, c) {
        statement_laws::unsplit(s, c);
        replaced_lacks(s, q, t, c);
        statement_laws::unsplit(replaced(s, q, t), c);
        assert(all_replaced(seq![s], q, t) =~= seq![replaced(s, q, t)]);
    } else {
        let at = last_place(s, c);
        let a = s.take(at);
        let b = s.skip(at + 1);
        assert(a.push(c) + b =~= s);
        replaced_around(a, c, b, q, t);
        replaced_lacks(b, q, t, c);
        statement_laws::split_at_last(a, b, c);
        statement_laws::split_at_last(replaced(a, q, t), replaced(b, q, t), c);
        pieces_are_replaced(a, c, q, t);
        let before = chars::split_on(a, c);
        assert(all_replaced(before.push(b), q, t) =~= all_replaced(before, q, t).push(
            replaced(b, q, t),
        ));
    }
}

/// The last place of a character.
proof fn last_place(s: Seq<char>, c: char) -> (at: int)
    requires
        !lacks(s, c),
    ensures
        0 <= at < s.len(),
        s[at] == c,
        lacks(s.skip(at + 1), c),
    decreases s.len(),
{
    if s.last() == c {
        assert(s.skip(s.len() as int) =~= Seq::empty());
        s.len() - 1
    } else {
        let init = s.drop_last();
        let i = choose|i: int| 0 <= i < s.len() && s[i] == c;
        assert(init[i] == c);
        let at = last_place(init, c);
        let rest = s.skip(at + 1);
        assert forall|k: int| 0 <= k < rest.len() implies #[trigger] rest[k] != c by {
            if at + 1 + k < init.len() {
                assert(init.skip(at + 1)[k] != c);
            }
        }
        at
    }
}

proof fn returns_stay(s: Seq<char>, q: Seq<char>, t: Seq<char>)
    requires
        fills(q, t),
    ensures
        chars::without_return(replaced(s, q, t)) == replaced(chars::without_return(s), q, t),
{
    if s.len() > 0 {
        replaced_ends(s, q, t);
        if s.last() == '\r' {
            let init = s.drop_last();
            let none = Seq::<char>::empty();
            spaces_are_no_part(q, t, '\r');
            replaced_around(init, '\r', none, q, t);
            replaced_of_empty(q, t);
            assert(init.push('\r') + none =~= s);
            assert(replaced(init, q, t).push('\r') + none =~= replaced(init, q, t).push('\r'));
            assert(replaced(s, q, t).drop_last() =~= replaced(init, q, t));
        }
    }
}

/// Lines are replaced in separately.
proof fn lines_are_replaced(s: Seq<char>, q: Seq<char>, t: Seq<char>)
    requires
        fills(q, t),
    ensures
        chars::lines_of(replaced(s, q, t)) == all_replaced(chars::lines_of(s), q, t),
{
    spaces_are_no_part(q, t, '\n');
    pieces_are_replaced(s, '\n', q, t);
    chars::split_is_not_empty(s, '\n');
    let parts = chars::split_on(s, '\n');
    assert forall|i: int| 0 <= i < parts.len() implies #[trigger] chars::without_return(
        all_replaced(parts, q, t)[i],
    ) == replaced(chars::without_return(parts[i]), q, t) by {
        returns_stay(parts[i], q, t);
    }
    if parts.last().len() > 0 {
        replaced_ends(parts.last(), q, t);
    }
    assert(chars::lines_of(replaced(s, q, t)) =~= all_replaced(chars::lines_of(s), q, t));
}

proof fn start_is_trimmed(s: Seq<char>, q: Seq<char>, t: Seq<char>)
    requires
        fills(q, t),
    ensures
        chars::trimmed_start(replaced(s, q, t)) == replaced(chars::trimmed_start(s), q, t),
    decreases s.len(),
{
    if s.len() > 0 {
        replaced_ends(s, q, t);
        if chars::is_space(s[0]) {
            let none = Seq::<char>::empty();
            let rest = s.skip(1);
            spaces_are_no_part(q, t, s[0]);
            replaced_around(none, s[0], rest, q, t);
            replaced_of_empty(q, t);
            assert(none.push(s[0]) + rest =~= s);
            assert(replaced(s, q, t).skip(1) =~= replaced(rest, q, t));
            assert(replaced(s, q, t)[0] == s[0]);
            start_is_trimmed(rest, q, t);
        }
    }
}

proof fn end_is_trimmed(s: Seq<char>, q: Seq<char>, t: Seq<char>)
    requires
        fills(q, t),
    ensures
        chars::trimmed_end(replaced(s, q, t)) == replaced(chars::trimmed_end(s), q, t),
    decreases s.len(),
{
    if s.len() > 0 {
        replaced_ends(s, q, t);
        if chars::is_space(s.last()) {
            let none = Seq::<char>::empty();
            let init = s.drop_last();
            spaces_are_no_part(q, t, s.last());
            replaced_around(init, s.last(), none, q, t);
            replaced_of_empty(q, t);
            assert(init.push(s.last()) + none =~= s);
            assert(replaced(s, q, t) =~= replaced(init, q, t).push(s.last()));
            assert(replaced(s, q, t).drop_last() =~= replaced(init, q, t));
            end_is_trimmed(init, q, t);
        }
    }
}

/// Comments stay comments, and nothing else becomes one.
proof fn comments_stay(s: Seq<char>, q: Seq<char>, t: Seq<char>)
    requires
        fills(q, t),
    ensures
        begins(replaced(s, q, t), "--"@) == begins(s, "--"@),
{
    reveal_strlit("--");
    if s.len() > 0 {
        replaced_ends(s, q, t);
        let out = replaced(s, q, t);
        if begins(s, q) {
            assert(s.take(q.len() as int)[0] == '{');
            assert(s[0] == '{');
        } else {
            let rest = s.skip(1);
            if rest.len() > 0 {
                replaced_ends(rest, q, t);
                if begins(rest, q) {
                    assert(rest.take(q.len() as int)[0] == '{');
                }
                assert(out[1] == replaced(rest, q, t)[0]);
            } else {
                assert(replaced(rest, q, t) =~= rest);
            }
        }
        if begins(s, "--"@) {
            assert(s.take(2)[0] == '-' && s.take(2)[1] == '-');
            assert(out.take(2) =~= "--"@);
        }
        if begins(out, "--"@) {
            assert(out.take(2)[0] == '-' && out.take(2)[1] == '-');
            assert(s.take(2) =~= "--"@);
        }
    }
}

proof fn kept_lines_are_replaced(lines: Seq<Seq<char>>, n: nat, q: Seq<char>, t: Seq<char>)
    requires
        fills(q, t),
        n <= lines.len(),
    ensures
        statement_lines(all_replaced(lines, q, t), n) == all_replaced(
            statement_lines(lines, n),
            q,
            t,
        ),
    decreases n,
{
    if n > 0 {
        kept_lines_are_replaced(lines, (n - 1) as nat, q, t);
        let line = lines[n - 1];
        start_is_trimmed(line, q, t);
        end_is_trimmed(chars::trimmed_start(line), q, t);
        let kept = chars::trimmed(line);
        comments_stay(kept, q, t);
        if kept.len() > 0 {
            replaced_ends(kept, q, t);
        }
        let before = statement_lines(lines, (n - 1) as nat);
        assert(all_replaced(before.push(kept), q, t) =~= all_replaced(before, q, t).push(
            replaced(kept, q, t),
        ));
    }
    assert(statement_lines(all_replaced(lines, q, t), n) =~= all_replaced(
        statement_lines(lines, n),
        q,
        t,
    ));
}

proof fn joined_lines_are_replaced(texts: Seq<Seq<char>>, n: nat, q: Seq<char>, t: Seq<char>)
    requires
        fills(q, t),
        n <= texts.len(),
    ensures
        chars::joined(all_replaced(texts, q, t), " "@, n) == replaced(
            chars::joined(texts, " "@, n),
            q,
            t,
        ),
    decreases n,
{
    reveal_strlit(" ");
    if n == 0 {
        replaced_of_empty(q, t);
    } else if n > 1 {
        let m = (n - 1) as nat;
        joined_lines_are_replaced(texts, m, q, t);
        let before = chars::joined(texts, " "@, m);
        let last = texts[n - 1];
        spaces_are_no_part(q, t, ' ');
        replaced_around(before, ' ', last, q, t);
        assert(before + " "@ + last =~= before.push(' ') + last);
        assert(replaced(before, q, t) + " "@ + replaced(last, q, t) =~= replaced(before, q, t).push(
            ' ',
        ) + replaced(last, q, t));
    }
}

proof fn statement_is_replaced(s: Seq<char>, q: Seq<char>, t: Seq<char>)
    requires
        fills(q, t),
    ensures
        statement(replaced(s, q, t)) == replaced(statement(s), q, t),
{
    let lines = chars::lines_of(s);
    lines_are_replaced(s, q, t);
    kept_lines_are_replaced(lines, lines.len(), q, t);
    let kept = statement_lines(lines, lines.len());
    joined_lines_are_replaced(kept, kept.len(), q, t);
}

proof fn statements_are_replaced(parts: Seq<Seq<char>>, n: nat, q: Seq<char>, t: Seq<char>)
    requires
        fills(q, t),
        n <= parts.len(),
    ensures
        statements_of(all_replaced(parts, q, t), n) == all_replaced(statements_of(parts, n), q, t),
    decreases n,
{
    if n > 0 {
        statements_are_replaced(parts, (n - 1) as nat, q, t);
        statement_is_replaced(parts[n - 1], q, t);
        let text = statement(parts[n - 1]);
        if text.len() > 0 {
            replaced_ends(text, q, t);
        } else {
            assert(text =~= Seq::empty());
            replaced_of_empty(q, t);
        }
        let before = statements_of(parts, (n - 1) as nat);
        assert(all_replaced(before.push(text), q, t) =~= all_replaced(before, q, t).push(
            replaced(text, q, t),
        ));
    }
    assert(statements_of(all_replaced(parts, q, t), n) =~= all_replaced(
        statements_of(parts, n),
        q,
        t,
    ));
}

/// Filling in a placeholder does not change how a section splits: its statements are those of the
/// section, with the placeholder filled in.
pub proof fn filling_in_keeps_the_statements(body: Seq<char>, q: Seq<char>, t: Seq<char>)
    requires
        fills(q, t),
    ensures
        statements(replaced(body, q, t)) == all_replaced(statements(body), q, t),
{
    pieces_are_replaced(body, ';', q, t);
    let parts = chars::split_on(body, ';');
    statements_are_replaced(parts, parts.len(), q, t);
}

/// A placeholder of a script.
#[derive(Clone, Copy, PartialEq, Eq, Structural)]
pub enum Hole {
    Object,
    Dir,
    Ext,
    Read,
    Format,
}

impl Hole {
    /// How the placeholder is written.
    pub open spec fn written(self) -> Seq<char> {
        match self {
            Hole::Object => "{object}"@,
            Hole::Dir => "{dir}"@,
            Hole::Ext => "{ext}"@,
            Hole::Read => "{read}"@,
            Hole::Format => "{format}"@,
        }
    }

    /// When the placeholder is filled in.
    pub open spec fn turn(self) -> nat {
        match self {
            Hole::Object => 0,
            Hole::Dir => 1,
            Hole::Ext => 2,
            Hole::Read => 3,
            Hole::Format => 4,
        }
    }

    /// What the placeholder is filled with.
    pub open spec fn value(self, base_url: Seq<char>, registration: Registration) -> Seq<char> {
        match self {
            Hole::Object => registration.object.keyword(),
            Hole::Dir => pipeline::directory(base_url),
            Hole::Ext => registration.load_format.ext_text(),
            Hole::Read => create_sql::read_function_of(registration.load_format),
            Hole::Format => create_sql::stored_name(registration.load_format)->Ok_0,
        }
    }
}

/// The characters that placeholders are written with.
pub open spec fn in_placeholders(c: char) -> bool {
    ||| c == '{'
    ||| c == '}'
    ||| c == 'o'
    ||| c == 'b'
    ||| c == 'j'
    ||| c == 'e'
    ||| c == 'c'
    ||| c == 't'
    ||| c == 'd'
    ||| c == 'i'
    ||| c == 'r'
    ||| c == 'x'
    ||| c == 'a'
    ||| c == 'f'
    ||| c == 'm'
}

/// A text brings no placeholder in: it holds no braces, and some character that no placeholder is
/// written with, so that it cannot complete one either.
pub open spec fn brings_none(t: Seq<char>) -> bool {
    &&& lacks(t, '{')
    &&& lacks(t, '}')
    &&& exists|i: int| 0 <= i < t.len() && !in_placeholders(#[trigger] t[i])
}

/// A placeholder stands between braces.
pub open spec fn braced(p: Seq<char>) -> bool {
    &&& p.len() >= 3
    &&& p[0] == '{'
    &&& p.last() == '}'
    &&& lacks(p.skip(1), '{')
    &&& forall|i: int| 0 <= i < p.len() ==> in_placeholders(#[trigger] p[i])
}

proof fn placeholders_are_braced(h: Hole)
    ensures
        braced(h.written()),
        lacks(h.written(), ';'),
        forall|i: int| 0 <= i < h.written().len() ==> !chars::is_space(#[trigger] h.written()[i]),
{
    reveal_strlit("{object}");
    reveal_strlit("{dir}");
    reveal_strlit("{ext}");
    reveal_strlit("{read}");
    reveal_strlit("{format}");
}

/// What begins a text after a replacement, and ends in a brace, began it before.
proof fn beginnings_were_there(s: Seq<char>, q: Seq<char>, t: Seq<char>, w: Seq<char>)
    requires
        q.len() > 0,
        brings_none(t),
        w.len() > 0 ==> w.last() == '}',
        forall|i: int| 0 <= i < w.len() ==> in_placeholders(#[trigger] w[i]),
        begins(replaced(s, q, t), w),
    ensures
        begins(s, w),
    decreases s.len(),
{
    let out = replaced(s, q, t);
    if w.len() > 0 && s.len() > 0 {
        if begins(s, q) {
            let at = choose|i: int| 0 <= i < t.len() && !in_placeholders(#[trigger] t[i]);
            if w.len() <= t.len() {
                assert(out.take(w.len() as int)[w.len() - 1] == t[w.len() - 1]);
            } else {
                assert(out.take(w.len() as int)[at] == t[at]);
            }
            assert(false);
        } else {
            let rest = s.skip(1);
            let tail = w.skip(1);
            assert(out.take(w.len() as int)[0] == s[0]);
            assert(out.skip(1) =~= replaced(rest, q, t));
            assert(replaced(rest, q, t).take(tail.len() as int) =~= out.take(w.len() as int).skip(1));
            assert forall|i: int| 0 <= i < tail.len() implies in_placeholders(#[trigger] tail[i]) by {
                assert(in_placeholders(w[i + 1]));
            }
            beginnings_were_there(rest, q, t, tail);
            assert(s.take(w.len() as int) =~= w) by {
                assert forall|i: int| 0 <= i < w.len() implies s.take(w.len() as int)[i] == w[i] by {
                    if i > 0 {
                        assert(rest.take(tail.len() as int)[i - 1] == tail[i - 1]);
                    }
                }
            }
        }
    } else if w.len() == 0 {
        assert(s.take(0) =~= w);
    }
}

/// A replacement leaves nothing of what it replaces, and brings nothing else in.
proof fn replaced_is_absent(s: Seq<char>, q: Seq<char>, t: Seq<char>, p: Seq<char>)
    requires
        q.len() > 0,
        braced(p),
        brings_none(t),
        p == q || absent(s, p),
    ensures
        absent(replaced(s, q, t), p),
    decreases s.len(),
{
    let out = replaced(s, q, t);
    if s.len() > 0 {
        let whole = begins(s, q);
        let n: int = if whole {
            q.len() as int
        } else {
            1
        };
        let rest = s.skip(n);
        if p != q {
            assert forall|i: int| 0 <= i <= rest.len() implies !begins(#[trigger] rest.skip(i), p) by {
                assert(rest.skip(i) =~= s.skip(i + n));
            }
        }
        replaced_is_absent(rest, q, t, p);
        let head = if whole {
            t
        } else {
            seq![s[0]]
        };
        assert(out =~= head + replaced(rest, q, t));
        assert forall|i: int| 0 <= i <= out.len() implies !begins(#[trigger] out.skip(i), p) by {
            if i >= head.len() {
                assert(out.skip(i) =~= replaced(rest, q, t).skip(i - head.len()));
            } else if begins(out.skip(i), p) {
                assert(out.skip(i).take(p.len() as int)[0] == head[i]);
                if whole {
                    assert(t[i] == '{');
                } else {
                    let w = p.skip(1);
                    assert(out.skip(0) =~= out);
                    assert(replaced(rest, q, t).take(w.len() as int) =~= out.take(
                        p.len() as int,
                    ).skip(1));
                    assert forall|k: int| 0 <= k < w.len() implies in_placeholders(#[trigger] w[k]) by {
                        assert(in_placeholders(p[k + 1]));
                    }
                    beginnings_were_there(rest, q, t, w);
                    assert(s.take(p.len() as int) =~= p) by {
                        assert forall|k: int| 0 <= k < p.len() implies s.take(p.len() as int)[k]
                            == p[k] by {
                            if k > 0 {
                                assert(rest.take(w.len() as int)[k - 1] == w[k - 1]);
                            }
                        }
                    }
                    assert(s.skip(0) =~= s);
                    assert(begins(s.skip(0), p));
                }
            }
        }
    } else {
        assert(out =~= s);
        assert forall|i: int| 0 <= i <= out.len() implies !begins(#[trigger] out.skip(i), p) by {
        }
    }
}

/// What a text does not hold, no stretch of it holds.
proof fn stretches_hold_no_more(s: Seq<char>, from: int, to: int, p: Seq<char>)
    requires
        0 <= from <= to <= s.len(),
        absent(s, p),
    ensures
        absent(s.subrange(from, to), p),
{
    let part = s.subrange(from, to);
    assert forall|i: int| 0 <= i <= part.len() implies !begins(#[trigger] part.skip(i), p) by {
        if begins(part.skip(i), p) {
            assert(s.skip(from + i).take(p.len() as int) =~= part.skip(i).take(p.len() as int));
            assert(begins(s.skip(from + i), p));
        }
    }
}

proof fn pieces_hold_no_more(s: Seq<char>, c: char, p: Seq<char>)
    requires
        p.len() > 0,
        absent(s, p),
    ensures
        chars::split_on(s, c).len() > 0,
        chars::split_on(s, c).last().len() <= s.len(),
        chars::split_on(s, c).last() == s.skip(s.len() - chars::split_on(s, c).last().len()),
        forall|i: int|
            0 <= i < chars::split_on(s, c).len() ==> absent(#[trigger] chars::split_on(s, c)[i], p),
    decreases s.len(),
{
    let all = chars::split_on(s, c);
    if s.len() == 0 {
        assert(all[0] =~= s);
        assert(s.skip(0) =~= s);
    } else {
        let init = s.drop_last();
        assert(init =~= s.subrange(0, s.len() - 1));
        stretches_hold_no_more(s, 0, s.len() - 1, p);
        pieces_hold_no_more(init, c, p);
        let before = chars::split_on(init, c);
        let from = s.len() - all.last().len();
        assert(all.last() =~= s.skip(from));
        assert(s.skip(from) =~= s.subrange(from, s.len() as int));
        stretches_hold_no_more(s, from, s.len() as int, p);
        assert forall|i: int| 0 <= i < all.len() implies absent(#[trigger] all[i], p) by {
            if i < all.len() - 1 {
                assert(all[i] == before[i]);
            }
        }
    }
}

proof fn trimmed_holds_no_more(s: Seq<char>, p: Seq<char>)
    requires
        absent(s, p),
    ensures
        absent(chars::trimmed_start(s), p),
        absent(chars::trimmed_end(s), p),
    decreases s.len(),
{
    if s.len() > 0 {
        assert(s.skip(1) =~= s.subrange(1, s.len() as int));
        stretches_hold_no_more(s, 1, s.len() as int, p);
        assert(s.drop_last() =~= s.subrange(0, s.len() - 1));
        stretches_hold_no_more(s, 0, s.len() - 1, p);
        trimmed_holds_no_more(s.skip(1), p);
        trimmed_holds_no_more(s.drop_last(), p);
    }
}

proof fn kept_lines_hold_no_more(lines: Seq<Seq<char>>, n: nat, p: Seq<char>)
    requires
        n <= lines.len(),
        forall|i: int| 0 <= i < lines.len() ==> absent(#[trigger] lines[i], p),
    ensures
        forall|i: int|
            0 <= i < statement_lines(lines, n).len() ==> absent(
                #[trigger] statement_lines(lines, n)[i],
                p,
            ),
    decreases n,
{
    if n > 0 {
        kept_lines_hold_no_more(lines, (n - 1) as nat, p);
        assert(absent(lines[n - 1], p));
        trimmed_holds_no_more(lines[n - 1], p);
        trimmed_holds_no_more(chars::trimmed_start(lines[n - 1]), p);
        let before = statement_lines(lines, (n - 1) as nat);
        let all = statement_lines(lines, n);
        assert forall|i: int| 0 <= i < all.len() implies absent(#[trigger] all[i], p) by {
            if i < before.len() {
                assert(all[i] == before[i]);
                assert(absent(before[i], p));
            }
        }
    }
}

proof fn joined_lines_hold_no_more(texts: Seq<Seq<char>>, n: nat, p: Seq<char>)
    requires
        n <= texts.len(),
        p.len() > 0,
        lacks(p, ' '),
        forall|i: int| 0 <= i < texts.len() ==> absent(#[trigger] texts[i], p),
    ensures
        absent(chars::joined(texts, " "@, n), p),
    decreases n,
{
    reveal_strlit(" ");
    let out = chars::joined(texts, " "@, n);
    if n == 0 {
        assert(out.len() == 0);
    } else if n == 1 {
        assert(absent(texts[0], p));
    } else {
        joined_lines_hold_no_more(texts, (n - 1) as nat, p);
        let a = chars::joined(texts, " "@, (n - 1) as nat);
        let b = texts[n - 1];
        assert(absent(b, p));
        assert(out =~= a.push(' ') + b);
        assert forall|i: int| 0 <= i <= out.len() implies !begins(#[trigger] out.skip(i), p) by {
            if begins(out.skip(i), p) {
                let seen = out.skip(i).take(p.len() as int);
                if i > a.len() {
                    assert(b.skip(i - a.len() - 1) =~= out.skip(i));
                } else if i + p.len() > a.len() {
                    assert(seen[a.len() - i] == ' ');
                } else {
                    assert(a.skip(i).take(p.len() as int) =~= seen);
                    assert(begins(a.skip(i), p));
                }
            }
        }
    }
}

proof fn statements_hold_no_more(parts: Seq<Seq<char>>, n: nat, p: Seq<char>)
    requires
        n <= parts.len(),
        p.len() > 0,
        lacks(p, ' '),
        forall|i: int| 0 <= i < parts.len() ==> absent(#[trigger] parts[i], p),
    ensures
        forall|i: int|
            0 <= i < statements_of(parts, n).len() ==> absent(
                #[trigger] statements_of(parts, n)[i],
                p,
            ),
    decreases n,
{
    if n > 0 {
        statements_hold_no_more(parts, (n - 1) as nat, p);
        let part = parts[n - 1];
        assert(absent(part, p));
        pieces_hold_no_more(part, '\n', p);
        let pieces = chars::split_on(part, '\n');
        let lines = chars::lines_of(part);
        assert forall|i: int| 0 <= i < lines.len() implies absent(#[trigger] lines[i], p) by {
            assert(absent(pieces[i], p));
            if pieces[i].len() > 0 {
                assert(pieces[i].drop_last() =~= pieces[i].subrange(0, pieces[i].len() - 1));
                stretches_hold_no_more(pieces[i], 0, pieces[i].len() - 1, p);
            }
        }
        kept_lines_hold_no_more(lines, lines.len(), p);
        let kept = statement_lines(lines, lines.len());
        joined_lines_hold_no_more(kept, kept.len(), p);
        let before = statements_of(parts, (n - 1) as nat);
        let all = statements_of(parts, n);
        assert forall|i: int| 0 <= i < all.len() implies absent(#[trigger] all[i], p) by {
            if i < before.len() {
                assert(all[i] == before[i]);
                assert(absent(before[i], p));
            }
        }
    }
}

proof fn values_bring_none(h: Hole, base_url: Seq<char>, registration: Registration)
    requires
        create_sql::stored_name(registration.load_format) is Ok,
        h == Hole::Dir ==> brings_none(pipeline::directory(base_url)),
    ensures
        brings_none(h.value(base_url, registration)),
{
    reveal_strlit("TABLE");
    reveal_strlit("VIEW");
    reveal_strlit("csv");
    reveal_strlit("arrow");
    reveal_strlit("parquet");
    reveal_strlit("vortex");
    reveal_strlit("duckdb");
    reveal_strlit("lance");
    reveal_strlit("read_vortex");
    reveal_strlit("read_parquet");
    reveal_strlit("PARQUET");
    reveal_strlit("CSV");
    reveal_strlit("VORTEX");
    if h != Hole::Dir {
        let t = h.value(base_url, registration);
        assert(!in_placeholders(t[0]) || !in_placeholders(t[1]) || !in_placeholders(t[2])
            || !in_placeholders(t[4]));
    }
}

/// Rendering fills in every placeholder: where the directory brings none in, no statement that is
/// rendered holds one.
pub proof fn rendered_statements_hold_no_placeholder(
    path: Seq<char>,
    sections: Seq<(Seq<char>, Seq<char>)>,
    dialect: SqlDialect,
    base_url: Seq<char>,
    registration: Registration,
    h: Hole,
    i: int,
)
    requires
        brings_none(pipeline::directory(base_url)),
        create_sql::rendered(path, sections, dialect, base_url, registration) matches Ok(Some(out))
            && 0 <= i < out.len(),
    ensures
        absent(
            create_sql::rendered(path, sections, dialect, base_url, registration)->Ok_0->Some_0[i],
            h.written(),
        ),
{
    let body = create_sql::section(sections, dialect.tag_text(), 0)->Some_0;
    let p = h.written();
    placeholders_are_braced(h);
    placeholders_are_braced(Hole::Object);
    placeholders_are_braced(Hole::Dir);
    placeholders_are_braced(Hole::Ext);
    placeholders_are_braced(Hole::Read);
    placeholders_are_braced(Hole::Format);
    values_bring_none(Hole::Object, base_url, registration);
    values_bring_none(Hole::Dir, base_url, registration);
    values_bring_none(Hole::Ext, base_url, registration);
    values_bring_none(Hole::Read, base_url, registration);
    values_bring_none(Hole::Format, base_url, registration);
    let object = Hole::Object.value(base_url, registration);
    let dir = Hole::Dir.value(base_url, registration);
    let ext = Hole::Ext.value(base_url, registration);
    let read = Hole::Read.value(base_url, registration);
    let format = Hole::Format.value(base_url, registration);
    let a = replaced(body, "{object}"@, object);
    let b = replaced(a, "{dir}"@, dir);
    let c = replaced(b, "{ext}"@, ext);
    let d = replaced(c, "{read}"@, read);
    let text = replaced(d, "{format}"@, format);
    if h.turn() <= 0 {
        replaced_is_absent(body, "{object}"@, object, p);
    }
    if h.turn() <= 1 {
        replaced_is_absent(a, "{dir}"@, dir, p);
    }
    if h.turn() <= 2 {
        replaced_is_absent(b, "{ext}"@, ext, p);
    }
    if h.turn() <= 3 {
        replaced_is_absent(c, "{read}"@, read, p);
    }
    replaced_is_absent(d, "{format}"@, format, p);
    assert(text == substituted(body, object, dir, ext, read, format));
    pieces_hold_no_more(text, ';', p);
    let parts = chars::split_on(text, ';');
    assert(lacks(p, ' ')) by {
        assert forall|k: int| 0 <= k < p.len() implies #[trigger] p[k] != ' ' by {
            assert(!chars::is_space(p[k]));
        }
    }
    statements_hold_no_more(parts, parts.len(), p);
}

/// A stretch of a template.
pub enum Piece {
    Text(Seq<char>),
    Blank(Hole),
}

/// A template with the placeholders of the first `turns` turns filled in.
pub open spec fn filled(
    pieces: Seq<Piece>,
    base_url: Seq<char>,
    registration: Registration,
    turns: nat,
) -> Seq<char>
    decreases pieces.len(),
{
    if pieces.len() == 0 {
        Seq::empty()
    } else {
        (match pieces[0] {
            Piece::Text(text) => text,
            Piece::Blank(hole) => if hole.turn() < turns {
                hole.value(base_url, registration)
            } else {
                hole.written()
            },
        }) + filled(pieces.skip(1), base_url, registration, turns)
    }
}

/// The text between the placeholders holds no brace that opens one.
pub open spec fn plain_between(pieces: Seq<Piece>) -> bool {
    forall|i: int|
        0 <= i < pieces.len() ==> ((#[trigger] pieces[i]) matches Piece::Text(text) ==> lacks(
            text,
            '{',
        ))
}

/// Text without an opening brace stays in front of a replacement.
proof fn plain_text_stays(u: Seq<char>, s: Seq<char>, q: Seq<char>, t: Seq<char>)
    requires
        q.len() > 0,
        q[0] == '{',
        lacks(u, '{'),
    ensures
        replaced(u + s, q, t) == u + replaced(s, q, t),
    decreases u.len(),
{
    if u.len() == 0 {
        assert(u + s =~= s);
        assert(u + replaced(s, q, t) =~= replaced(s, q, t));
    } else {
        let all = u + s;
        assert(u[0] != '{');
        if begins(all, q) {
            assert(all.take(q.len() as int)[0] == u[0]);
        }
        let rest = u.skip(1);
        assert forall|i: int| 0 <= i < rest.len() implies #[trigger] rest[i] != '{' by {
            assert(u[i + 1] != '{');
        }
        plain_text_stays(rest, s, q, t);
        assert(all.skip(1) =~= rest + s);
        assert(seq![u[0]] + (rest + replaced(s, q, t)) =~= u + replaced(s, q, t));
    }
}

/// Placeholders are told apart by their second character.
proof fn placeholders_differ(a: Hole, b: Hole)
    requires
        a != b,
    ensures
        a.written()[1] != b.written()[1],
{
    reveal_strlit("{object}");
    reveal_strlit("{dir}");
    reveal_strlit("{ext}");
    reveal_strlit("{read}");
    reveal_strlit("{format}");
}

/// One turn of filling in.
proof fn a_turn_is_taken(
    pieces: Seq<Piece>,
    base_url: Seq<char>,
    registration: Registration,
    hole: Hole,
)
    requires
        plain_between(pieces),
        forall|h: Hole| lacks(#[trigger] h.value(base_url, registration), '{'),
    ensures
        replaced(
            filled(pieces, base_url, registration, hole.turn()),
            hole.written(),
            hole.value(base_url, registration),
        ) == filled(pieces, base_url, registration, hole.turn() + 1),
    decreases pieces.len(),
{
    let q = hole.written();
    let t = hole.value(base_url, registration);
    placeholders_are_braced(hole);
    if pieces.len() == 0 {
        replaced_of_empty(q, t);
    } else {
        let rest = pieces.skip(1);
        assert forall|i: int| 0 <= i < rest.len() implies ((#[trigger] rest[i]) matches Piece::Text(
            text,
        ) ==> lacks(text, '{')) by {
            assert(rest[i] == pieces[i + 1]);
        }
        a_turn_is_taken(rest, base_url, registration, hole);
        let tail = filled(rest, base_url, registration, hole.turn());
        match pieces[0] {
            Piece::Text(text) => {
                plain_text_stays(text, tail, q, t);
            },
            Piece::Blank(other) => if other.turn() < hole.turn() {
                plain_text_stays(other.value(base_url, registration), tail, q, t);
            } else if other == hole {
                assert((q + tail).take(q.len() as int) =~= q);
                assert((q + tail).skip(q.len() as int) =~= tail);
            } else {
                let p = other.written();
                placeholders_are_braced(other);
                placeholders_differ(other, hole);
                let all = p + tail;
                if begins(all, q) {
                    assert(all.take(q.len() as int)[1] == p[1]);
                }
                assert(all.skip(1) =~= p.skip(1) + tail);
                plain_text_stays(p.skip(1), tail, q, t);
                assert(seq![p[0]] + (p.skip(1) + replaced(tail, q, t)) =~= p + replaced(tail, q, t));
            },
        }
    }
}

/// Filling in a template fills in its placeholders and keeps the text between them.
pub proof fn templates_are_filled_in(
    pieces: Seq<Piece>,
    base_url: Seq<char>,
    registration: Registration,
)
    requires
        plain_between(pieces),
        lacks(pipeline::directory(base_url), '{'),
        create_sql::stored_name(registration.load_format) is Ok,
    ensures
        filled_in(filled(pieces, base_url, registration, 0), base_url, registration) == filled(
            pieces,
            base_url,
            registration,
            5,
        ),
{
    assert forall|h: Hole| lacks(#[trigger] h.value(base_url, registration), '{') by {
        if h != Hole::Dir {
            values_bring_none(h, base_url, registration);
        }
    }
    a_turn_is_taken(pieces, base_url, registration, Hole::Object);
    a_turn_is_taken(pieces, base_url, registration, Hole::Dir);
    a_turn_is_taken(pieces, base_url, registration, Hole::Ext);
    a_turn_is_taken(pieces, base_url, registration, Hole::Read);
    a_turn_is_taken(pieces, base_url, registration, Hole::Format);
}

/// A text with its placeholders filled in.
pub open spec fn filled_in(text: Seq<char>, base_url: Seq<char>, registration: Registration) -> Seq<
    char,
> {
    substituted(
        text,
        Hole::Object.value(base_url, registration),
        Hole::Dir.value(base_url, registration),
        Hole::Ext.value(base_url, registration),
        Hole::Read.value(base_url, registration),
        Hole::Format.value(base_url, registration),
    )
}

/// A directory that fits on a line of a statement: it is not empty, has no white space at its ends,
/// and holds neither a semicolon nor a line feed, nor does it begin as a comment does.
pub open spec fn fits_on_a_line(dir: Seq<char>) -> bool {
    tight(dir) && lacks(dir, ';') && lacks(dir, '\n') && dir[0] != '-'
}

proof fn values_fill(h: Hole, base_url: Seq<char>, registration: Registration)
    requires
        fits_on_a_line(pipeline::directory(base_url)),
        create_sql::stored_name(registration.load_format) is Ok,
    ensures
        fills(h.written(), h.value(base_url, registration)),
{
    placeholders_are_braced(h);
    reveal_strlit("TABLE");
    reveal_strlit("VIEW");
    reveal_strlit("csv");
    reveal_strlit("arrow");
    reveal_strlit("parquet");
    reveal_strlit("vortex");
    reveal_strlit("duckdb");
    reveal_strlit("lance");
    reveal_strlit("read_vortex");
    reveal_strlit("read_parquet");
    reveal_strlit("PARQUET");
    reveal_strlit("CSV");
    reveal_strlit("VORTEX");
}

/// The statements of a rendered section are those of the section, each with its placeholders filled
/// in: rendering neither splits nor joins statements.
pub proof fn rendering_keeps_the_statements(
    body: Seq<char>,
    base_url: Seq<char>,
    registration: Registration,
)
    requires
        fits_on_a_line(pipeline::directory(base_url)),
        create_sql::stored_name(registration.load_format) is Ok,
    ensures
        statements(filled_in(body, base_url, registration)) == Seq::new(
            statements(body).len(),
            |i: int| filled_in(statements(body)[i], base_url, registration),
        ),
{
    values_fill(Hole::Object, base_url, registration);
    values_fill(Hole::Dir, base_url, registration);
    values_fill(Hole::Ext, base_url, registration);
    values_fill(Hole::Read, base_url, registration);
    values_fill(Hole::Format, base_url, registration);
    let object = Hole::Object.value(base_url, registration);
    let dir = Hole::Dir.value(base_url, registration);
    let ext = Hole::Ext.value(base_url, registration);
    let read = Hole::Read.value(base_url, registration);
    let format = Hole::Format.value(base_url, registration);
    let a = replaced(body, "{object}"@, object);
    let b = replaced(a, "{dir}"@, dir);
    let c = replaced(b, "{ext}"@, ext);
    let d = replaced(c, "{read}"@, read);
    filling_in_keeps_the_statements(body, "{object}"@, object);
    filling_in_keeps_the_statements(a, "{dir}"@, dir);
    filling_in_keeps_the_statements(b, "{ext}"@, ext);
    filling_in_keeps_the_statements(c, "{read}"@, read);
    filling_in_keeps_the_statements(d, "{format}"@, format);
    assert(statements(filled_in(body, base_url, registration)) =~= Seq::new(
        statements(body).len(),
        |i: int| filled_in(statements(body)[i], base_url, registration),
    ));
}

/// A statement without surrounding white space and without semicolons at its end.
pub open spec fn bare(text: Seq<char>) -> Seq<char> {
    chars::trimmed(chars::trimmed_of(chars::trimmed(text), ';'))
}

/// What stands before the files of a table, in the template of its statement.
pub open spec fn before_the_files(dialect: SqlDialect, name: Seq<char>) -> Seq<Piece> {
    match dialect {
        SqlDialect::DuckDb => seq![
            Piece::Text("CREATE "@),
            Piece::Blank(Hole::Object),
            Piece::Text(" IF NOT EXISTS "@),
            Piece::Text(name),
            Piece::Text(" AS SELECT * FROM "@),
            Piece::Blank(Hole::Read),
            Piece::Text("('"@),
            Piece::Blank(Hole::Dir),
            Piece::Text("/"@),
        ],
        SqlDialect::DataFusion => seq![
            Piece::Text("CREATE EXTERNAL TABLE IF NOT EXISTS "@),
            Piece::Text(name),
            Piece::Text(" STORED AS "@),
            Piece::Blank(Hole::Format),
            Piece::Text(" LOCATION '"@),
            Piece::Blank(Hole::Dir),
            Piece::Text("/"@),
        ],
    }
}

/// The template of the statement that registers a table, whose files are matched by a template.
pub open spec fn template(dialect: SqlDialect, name: Seq<char>, glob: Seq<Piece>) -> Seq<Piece> {
    before_the_files(dialect, name) + glob + seq![
        Piece::Text(
            match dialect {
                SqlDialect::DuckDb => "')"@,
                SqlDialect::DataFusion => "'"@,
            },
        ),
    ]
}

/// Templates are filled in one after the other.
proof fn filled_in_turn(
    a: Seq<Piece>,
    b: Seq<Piece>,
    base_url: Seq<char>,
    registration: Registration,
    turns: nat,
)
    ensures
        filled(a + b, base_url, registration, turns) == filled(a, base_url, registration, turns)
            + filled(b, base_url, registration, turns),
    decreases a.len(),
{
    if a.len() == 0 {
        assert(a + b =~= b);
    } else {
        filled_in_turn(a.skip(1), b, base_url, registration, turns);
        assert((a + b).skip(1) =~= a.skip(1) + b);
    }
    assert(filled(a + b, base_url, registration, turns) =~= filled(a, base_url, registration, turns)
        + filled(b, base_url, registration, turns));
}

/// A table's files and names that a template may hold, and what its statement is made of.
pub open spec fn templated<S>(
    source: TableSource<S>,
    glob: Seq<Piece>,
    base_url: Seq<char>,
    registration: Registration,
) -> bool {
    &&& source.base_url@ == base_url
    &&& source.load_format == registration.load_format
    &&& source.object == registration.object
    &&& lacks(source.name@, '{')
    &&& plain_between(glob)
    &&& filled(glob, base_url, registration, 5) == source.files()
}

/// The first `n` stretches of a template, filled in.
spec fn filled_up_to(
    pieces: Seq<Piece>,
    base_url: Seq<char>,
    registration: Registration,
    n: nat,
) -> Seq<char>
    decreases n,
{
    if n == 0 {
        Seq::empty()
    } else {
        filled_up_to(pieces, base_url, registration, (n - 1) as nat) + (match pieces[n - 1] {
            Piece::Text(text) => text,
            Piece::Blank(hole) => hole.value(base_url, registration),
        })
    }
}

proof fn filled_from_the_left(
    pieces: Seq<Piece>,
    base_url: Seq<char>,
    registration: Registration,
    n: nat,
)
    requires
        n <= pieces.len(),
    ensures
        filled(pieces.take(n as int), base_url, registration, 5) == filled_up_to(
            pieces,
            base_url,
            registration,
            n,
        ),
    decreases n,
{
    if n > 0 {
        filled_from_the_left(pieces, base_url, registration, (n - 1) as nat);
        let last = seq![pieces[n - 1]];
        filled_in_turn(pieces.take(n - 1), last, base_url, registration, 5);
        assert(pieces.take(n as int) =~= pieces.take(n - 1) + last);
        assert(last.skip(1) =~= Seq::empty());
        assert(filled(last.skip(1), base_url, registration, 5) =~= Seq::empty());
        assert(filled(last, base_url, registration, 5) =~= (match pieces[n - 1] {
            Piece::Text(text) => text,
            Piece::Blank(hole) => hole.value(base_url, registration),
        }));
    } else {
        assert(pieces.take(0) =~= Seq::empty());
    }
}

proof fn beginning_is_filled(
    dialect: SqlDialect,
    name: Seq<char>,
    base_url: Seq<char>,
    registration: Registration,
)
    ensures
        filled(before_the_files(dialect, name), base_url, registration, 5) == (match dialect {
            SqlDialect::DuckDb => "CREATE "@ + registration.object.keyword() + " IF NOT EXISTS "@
                + name + " AS SELECT * FROM "@ + create_sql::read_function_of(
                registration.load_format,
            ) + "('"@ + pipeline::directory(base_url) + "/"@,
            SqlDialect::DataFusion => "CREATE EXTERNAL TABLE IF NOT EXISTS "@ + name
                + " STORED AS "@ + create_sql::stored_name(registration.load_format)->Ok_0
                + " LOCATION '"@ + pipeline::directory(base_url) + "/"@,
        }),
{
    let head = before_the_files(dialect, name);
    filled_from_the_left(head, base_url, registration, head.len());
    assert(head.take(head.len() as int) =~= head);
    reveal_with_fuel(filled_up_to, 10);
    match dialect {
        SqlDialect::DuckDb => {
            assert(Seq::<char>::empty() + "CREATE "@ =~= "CREATE "@);
        },
        SqlDialect::DataFusion => {
            assert(Seq::<char>::empty() + "CREATE EXTERNAL TABLE IF NOT EXISTS "@
                =~= "CREATE EXTERNAL TABLE IF NOT EXISTS "@);
        },
    }
}

/// White space and semicolons at the end are taken off.
proof fn ends_are_taken_off(text: Seq<char>)
    requires
        tight(text),
        text.last() != ';',
    ensures
        bare(text) == text,
        bare(text.push(';').push('\n')) == text,
{
    assert(chars::trimmed_start(text) == text);
    assert(chars::trimmed_end(text) == text);
    assert(chars::trimmed_of(text, ';') == text);
    let once = text.push(';');
    let twice = once.push('\n');
    assert(once.drop_last() =~= text);
    assert(twice.drop_last() =~= once);
    assert(twice[0] == text[0]);
    assert(chars::trimmed_start(twice) == twice);
    assert(chars::trimmed_end(once) == once);
    assert(chars::trimmed_end(twice) == once);
    assert(chars::trimmed_of(once, ';') == text);
}

/// A template fills in to the statement that is generated.
proof fn template_fills_in_to_generated<S>(
    dialect: SqlDialect,
    source: TableSource<S>,
    glob: Seq<Piece>,
    base_url: Seq<char>,
    registration: Registration,
)
    requires
        templated(source, glob, base_url, registration),
        create_sql::stored_name(registration.load_format) is Ok,
        dialect == SqlDialect::DuckDb ==> create_sql::read_function_of(registration.load_format)
            == "read_"@ + registration.load_format.ext_text(),
    ensures
        create_sql::generated(dialect, source) is Ok,
        bare(create_sql::generated(dialect, source)->Ok_0) == filled(
            template(dialect, source.name@, glob),
            base_url,
            registration,
            5,
        ),
{
    let text = create_sql::generated(dialect, source)->Ok_0;
    let head = before_the_files(dialect, source.name@);
    let quote = match dialect {
        SqlDialect::DuckDb => "')"@,
        SqlDialect::DataFusion => "'"@,
    };
    let foot = seq![Piece::Text(quote)];
    let out = filled(template(dialect, source.name@, glob), base_url, registration, 5);
    assert(template(dialect, source.name@, glob) =~= head + glob + foot);
    filled_in_turn(head + glob, foot, base_url, registration, 5);
    filled_in_turn(head, glob, base_url, registration, 5);
    beginning_is_filled(dialect, source.name@, base_url, registration);
    assert(foot.skip(1) =~= Seq::empty());
    assert(filled(foot.skip(1), base_url, registration, 5) =~= Seq::empty());
    assert(filled(foot, base_url, registration, 5) =~= quote);
    let start = filled(head, base_url, registration, 5);
    assert(out == start + source.files() + quote);
    reveal_strlit("')");
    reveal_strlit("'");
    match dialect {
        SqlDialect::DuckDb => {
            reveal_strlit("CREATE ");
            let created = "CREATE "@ + registration.object.keyword() + " IF NOT EXISTS "@
                + source.name@;
            let ext = registration.load_format.ext_text();
            assert(created + " AS SELECT * FROM "@ + ("read_"@ + ext) =~= created
                + " AS SELECT * FROM read_"@ + ext) by {
                reveal_strlit(" AS SELECT * FROM ");
                reveal_strlit(" AS SELECT * FROM read_");
                reveal_strlit("read_");
                assert(" AS SELECT * FROM read_"@ =~= " AS SELECT * FROM "@ + "read_"@);
            }
            assert(text == start + source.files() + "');\n"@);
            assert(start + source.files() + "');\n"@ =~= out.push(';').push('\n')) by {
                reveal_strlit("');\n");
            }
            assert(created[0] == 'C');
            assert(start[0] == created[0]);
            assert(out[0] == 'C' && out.last() == ')');
        },
        SqlDialect::DataFusion => {
            reveal_strlit("CREATE EXTERNAL TABLE IF NOT EXISTS ");
            let created = "CREATE EXTERNAL TABLE IF NOT EXISTS "@ + source.name@;
            assert(text == out);
            assert(created[0] == 'C');
            assert(start[0] == created[0]);
            assert(out[0] == 'C' && out.last() == '\'');
        },
    }
    ends_are_taken_off(out);
}

/// The template of a statement holds no brace that opens a placeholder but for the placeholders.
proof fn templates_are_plain(dialect: SqlDialect, name: Seq<char>, glob: Seq<Piece>)
    requires
        lacks(name, '{'),
        plain_between(glob),
    ensures
        plain_between(template(dialect, name, glob)),
{
    reveal_strlit("CREATE ");
    reveal_strlit(" IF NOT EXISTS ");
    reveal_strlit(" AS SELECT * FROM ");
    reveal_strlit("('");
    reveal_strlit("/");
    reveal_strlit("')");
    reveal_strlit("CREATE EXTERNAL TABLE IF NOT EXISTS ");
    reveal_strlit(" STORED AS ");
    reveal_strlit(" LOCATION '");
    reveal_strlit("'");
    let pieces = template(dialect, name, glob);
    let n: int = match dialect {
        SqlDialect::DuckDb => 9,
        SqlDialect::DataFusion => 7,
    };
    assert forall|i: int| 0 <= i < pieces.len() implies ((#[trigger] pieces[i]) matches Piece::Text(
        text,
    ) ==> lacks(text, '{')) by {
        if n <= i < n + glob.len() {
            assert(pieces[i] == glob[i - n]);
        }
    }
}

/// A script whose statements are the templates of the generated ones renders to those, but for
/// white space around them and semicolons at their end.
pub proof fn scripts_of_templates_render_to_generated<S>(
    path: Seq<char>,
    sections: Seq<(Seq<char>, Seq<char>)>,
    dialect: SqlDialect,
    base_url: Seq<char>,
    registration: Registration,
    sources: Seq<TableSource<S>>,
    globs: Seq<Seq<Piece>>,
)
    requires
        fits_on_a_line(pipeline::directory(base_url)),
        lacks(pipeline::directory(base_url), '{'),
        create_sql::stored_name(registration.load_format) is Ok,
        dialect == SqlDialect::DuckDb ==> create_sql::read_function_of(registration.load_format)
            == "read_"@ + registration.load_format.ext_text(),
        sources.len() > 0,
        globs.len() == sources.len(),
        forall|i: int|
            0 <= i < sources.len() ==> templated(
                #[trigger] sources[i],
                globs[i],
                base_url,
                registration,
            ),
        create_sql::section(sections, dialect.tag_text(), 0) matches Some(body) && statements(body)
            == Seq::new(
            sources.len(),
            |i: int|
                filled(template(dialect, sources[i].name@, globs[i]), base_url, registration, 0),
        ),
    ensures
        create_sql::generated_all(dialect, sources, sources.len()) matches Ok(generated)
            && generated.len() == sources.len() && create_sql::rendered(
            path,
            sections,
            dialect,
            base_url,
            registration,
        ) == Ok::<Option<Seq<Seq<char>>>, Seq<char>>(
            Some(Seq::new(generated.len(), |i: int| bare(generated[i]))),
        ),
{
    let body = create_sql::section(sections, dialect.tag_text(), 0)->Some_0;
    rendering_keeps_the_statements(body, base_url, registration);
    all_are_generated(dialect, base_url, registration, sources, globs, sources.len());
    let generated = create_sql::generated_all(dialect, sources, sources.len())->Ok_0;
    let out = statements(filled_in(body, base_url, registration));
    assert forall|i: int| 0 <= i < sources.len() implies out[i] == bare(generated[i]) by {
        let source = sources[i];
        let pieces = template(dialect, source.name@, globs[i]);
        assert(templated(source, globs[i], base_url, registration));
        template_fills_in_to_generated(dialect, source, globs[i], base_url, registration);
        templates_are_plain(dialect, source.name@, globs[i]);
        templates_are_filled_in(pieces, base_url, registration);
        assert(statements(body)[i] == filled(pieces, base_url, registration, 0));
    }
    assert(out =~= Seq::new(generated.len(), |i: int| bare(generated[i])));
}

proof fn all_are_generated<S>(
    dialect: SqlDialect,
    base_url: Seq<char>,
    registration: Registration,
    sources: Seq<TableSource<S>>,
    globs: Seq<Seq<Piece>>,
    n: nat,
)
    requires
        n <= sources.len() == globs.len(),
        create_sql::stored_name(registration.load_format) is Ok,
        forall|i: int|
            0 <= i < sources.len() ==> templated(
                #[trigger] sources[i],
                globs[i],
                base_url,
                registration,
            ),
    ensures
        create_sql::generated_all(dialect, sources, n) matches Ok(all) && all.len() == n && forall|
            i: int,
        |
            0 <= i < n ==> create_sql::generated(dialect, sources[i]) == Ok::<Seq<char>, Seq<char>>(
                #[trigger] all[i],
            ),
    decreases n,
{
    if n > 0 {
        all_are_generated(dialect, base_url, registration, sources, globs, (n - 1) as nat);
        assert(templated(sources[n - 1], globs[n - 1], base_url, registration));
    }
}

} // verus!
