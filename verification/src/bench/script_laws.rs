//! How a script is taken apart, said of its lines and words.

use vstd::prelude::*;

use crate::bench::create_sql::{header_tag, name_after_exists, section, sections_of, statement_lines};
use crate::chars;
use crate::chars_laws::{self, blank};

verus! {

/// A header names the tag that follows it, whatever white space stands around both. A line that does
/// not begin so is none.
pub proof fn headers_name_their_tag(
    front: Seq<char>,
    tag: Seq<char>,
    back: Seq<char>,
    line: Seq<char>,
)
    requires
        blank(front),
        blank(back),
        tag.len() > 0,
        !chars::is_space(tag[0]),
        !chars::is_space(tag.last()),
    ensures
        header_tag(front + "-- @engine "@ + tag + back) == Some(tag),
        !chars::begins(chars::trimmed(line), "-- @engine "@) ==> header_tag(line) is None,
{
    reveal_strlit("-- @engine ");
    let header = "-- @engine "@;
    let inner = header + tag;
    assert(front + header + tag + back =~= front + inner + back);
    assert(inner[0] == '-');
    chars_laws::trimming_leaves_the_inner_text(front, inner, back);
    assert(inner.take(header.len() as int) =~= header);
    assert(inner.skip(header.len() as int) =~= tag);
    chars_laws::trimming_leaves_the_inner_text(Seq::empty(), tag, Seq::empty());
    assert(Seq::empty() + tag + Seq::<char>::empty() =~= tag);
}

/// Lines, each with a line feed behind it.
pub open spec fn stacked(lines: Seq<Seq<char>>, from: int, to: int) -> Seq<char>
    decreases to - from,
{
    if from >= to {
        Seq::empty()
    } else {
        stacked(lines, from, to - 1) + lines[to - 1] + seq!['\n']
    }
}

/// A header starts a section, which holds the lines up to the next header, or to the end.
pub proof fn sections_hold_the_lines_after_their_header(
    lines: Seq<Seq<char>>,
    header: int,
    end: int,
    tag: Seq<char>,
)
    requires
        0 <= header < end <= lines.len(),
        header_tag(lines[header]) == Some(tag),
        forall|i: int| header < i < end ==> header_tag(#[trigger] lines[i]) is None,
    ensures
        sections_of(lines, end as nat) == sections_of(lines, header as nat).push(
            (tag, stacked(lines, header + 1, end)),
        ),
    decreases end - header,
{
    let before = sections_of(lines, header as nat);
    if end == header + 1 {
        assert(stacked(lines, header + 1, end) =~= Seq::empty());
    } else {
        sections_hold_the_lines_after_their_header(lines, header, end - 1, tag);
        assert(header_tag(lines[end - 1]) is None);
        let body = stacked(lines, header + 1, end - 1);
        let sections = before.push((tag, body));
        assert((body + lines[end - 1]).push('\n') =~= stacked(lines, header + 1, end));
        assert(sections.update(sections.len() - 1, (tag, stacked(lines, header + 1, end)))
            =~= before.push((tag, stacked(lines, header + 1, end))));
    }
}

/// A dialect's section is the first of its tag.
pub proof fn the_first_section_counts(
    sections: Seq<(Seq<char>, Seq<char>)>,
    tag: Seq<char>,
    from: int,
)
    requires
        0 <= from,
    ensures
        match section(sections, tag, from) {
            Some(body) => exists|i: int|
                from <= i < sections.len() && (#[trigger] sections[i]) == (tag, body) && forall|
                    j: int,
                |
                    from <= j < i ==> (#[trigger] sections[j]).0 != tag,
            None => forall|i: int| from <= i < sections.len() ==> (#[trigger] sections[i]).0 != tag,
        },
    decreases sections.len() - from,
{
    if from < sections.len() {
        if sections[from].0 == tag {
            assert(sections[from] == (tag, sections[from].1));
        } else {
            the_first_section_counts(sections, tag, from + 1);
        }
    }
}

/// Of a statement's lines those count that are neither blank nor comments, without the white space
/// around them.
pub proof fn comments_and_blank_lines_are_dropped(lines: Seq<Seq<char>>, n: nat, line: Seq<char>)
    requires
        n <= lines.len(),
    ensures
        statement_lines(lines, n).contains(line) <==> line.len() > 0 && !chars::begins(line, "--"@)
            && exists|i: int| 0 <= i < n && chars::trimmed(#[trigger] lines[i]) == line,
    decreases n,
{
    if n > 0 {
        comments_and_blank_lines_are_dropped(lines, (n - 1) as nat, line);
        let before = statement_lines(lines, (n - 1) as nat);
        let after = statement_lines(lines, n);
        let last = chars::trimmed(lines[n - 1]);
        if before.contains(line) {
            let i = choose|i: int| 0 <= i < before.len() && before[i] == line;
            assert(after[i] == line);
        }
        if after.len() > before.len() {
            assert(after[before.len() as int] == last);
        }
        if after.contains(line) {
            let i = choose|i: int| 0 <= i < after.len() && after[i] == line;
            if i < before.len() {
                assert(before[i] == line);
            } else {
                assert(chars::trimmed(lines[n - 1]) == line);
            }
        }
    }
}

/// The table that a statement registers is named by the word after the first `EXISTS`, in whatever
/// case that is written.
pub proof fn tables_are_named_after_exists(words: Seq<Seq<char>>, k: int)
    requires
        0 <= k <= words.len(),
        forall|i: int| 0 <= i < k ==> !chars::same_ignoring_case(#[trigger] words[i], "EXISTS"@),
    ensures
        k == words.len() ==> name_after_exists(words, 0) is None,
        k < words.len() && chars::same_ignoring_case(words[k], "EXISTS"@) ==> name_after_exists(
            words,
            0,
        ) == if k + 1 < words.len() {
            Some(words[k + 1])
        } else {
            None
        },
{
    names_from(words, 0, k);
}

proof fn names_from(words: Seq<Seq<char>>, from: int, k: int)
    requires
        0 <= from <= k <= words.len(),
        forall|i: int| from <= i < k ==> !chars::same_ignoring_case(#[trigger] words[i], "EXISTS"@),
    ensures
        name_after_exists(words, from) == name_after_exists(words, k),
    decreases k - from,
{
    if from < k {
        assert(!chars::same_ignoring_case(words[from], "EXISTS"@));
        names_from(words, from + 1, k);
    }
}

} // verus!
