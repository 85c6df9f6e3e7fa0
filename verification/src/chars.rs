//! Text as a sequence of characters: trimming, splitting and replacing.

use vstd::prelude::*;

verus! {

/// The characters of a text.
pub fn chars_of(s: &str) -> (out: Vec<char>)
    ensures
        out@ == s@,
{
    let mut out: Vec<char> = Vec::new();
    for c in iter: s.chars()
        invariant
            out@ == iter.seq().take(iter.index() as int),
            iter.seq() == s@,
    {
        out.push(c);
        assert(out@ =~= iter.seq().take(iter.index() + 1));
    }
    assert(out@ =~= s@);
    out
}

/// The text of some characters.
pub fn string_of(chars: &[char]) -> (out: String)
    ensures
        out@ == chars@,
{
    let mut out = String::new();
    let mut index: usize = 0;
    assert(chars@.take(0) =~= Seq::empty());
    while index < chars.len()
        invariant
            index <= chars@.len(),
            out@ == chars@.take(index as int),
        decreases chars@.len() - index,
    {
        out.push(chars[index]);
        index = index + 1;
        assert(out@ =~= chars@.take(index as int));
    }
    assert(out@ =~= chars@);
    out
}

/// Copy the characters from `from` up to `to`.
pub fn copy_range(chars: &[char], from: usize, to: usize) -> (out: Vec<char>)
    requires
        from <= to <= chars@.len(),
    ensures
        out@ == chars@.subrange(from as int, to as int),
{
    let mut out: Vec<char> = Vec::new();
    let mut index: usize = from;
    while index < to
        invariant
            from <= index <= to <= chars@.len(),
            out@ == chars@.subrange(from as int, index as int),
        decreases to - index,
    {
        out.push(chars[index]);
        index = index + 1;
        assert(out@ =~= chars@.subrange(from as int, index as int));
    }
    out
}

/// The characters that Unicode calls white space.
pub open spec fn is_space(c: char) -> bool {
    let u = c as u32;
    ||| 0x9 <= u <= 0xd
    ||| u == 0x20
    ||| u == 0x85
    ||| u == 0xa0
    ||| u == 0x1680
    ||| 0x2000 <= u <= 0x200a
    ||| u == 0x2028
    ||| u == 0x2029
    ||| u == 0x202f
    ||| u == 0x205f
    ||| u == 0x3000
}

/// Whether a character is white space.
pub fn space(c: char) -> (out: bool)
    ensures
        out == is_space(c),
{
    let u: u32 = c as u32;
    (0x9 <= u && u <= 0xd) || u == 0x20 || u == 0x85 || u == 0xa0 || u == 0x1680 || (0x2000 <= u
        && u <= 0x200a) || u == 0x2028 || u == 0x2029 || u == 0x202f || u == 0x205f || u == 0x3000
}

/// The text without leading white space.
pub open spec fn trimmed_start(s: Seq<char>) -> Seq<char>
    decreases s.len(),
{
    if s.len() > 0 && is_space(s[0]) {
        trimmed_start(s.skip(1))
    } else {
        s
    }
}

/// The text without trailing white space.
pub open spec fn trimmed_end(s: Seq<char>) -> Seq<char>
    decreases s.len(),
{
    if s.len() > 0 && is_space(s.last()) {
        trimmed_end(s.drop_last())
    } else {
        s
    }
}

/// The text without white space at either end.
pub open spec fn trimmed(s: Seq<char>) -> Seq<char> {
    trimmed_end(trimmed_start(s))
}

/// Remove white space at either end.
pub fn trim(s: &[char]) -> (out: Vec<char>)
    ensures
        out@ == trimmed(s@),
{
    let mut from: usize = 0;
    assert(s@.skip(0) =~= s@);
    while from < s.len() && space(s[from])
        invariant
            from <= s@.len(),
            trimmed_start(s@) == trimmed_start(s@.skip(from as int)),
        decreases s@.len() - from,
    {
        assert(s@.skip(from as int).skip(1) =~= s@.skip(from + 1));
        from = from + 1;
    }
    let mut to: usize = s.len();
    assert(s@.subrange(from as int, to as int) =~= s@.skip(from as int));
    while to > from && space(s[to - 1])
        invariant
            from <= to <= s@.len(),
            trimmed_end(trimmed_start(s@)) == trimmed_end(
                s@.subrange(from as int, to as int),
            ),
        decreases to,
    {
        assert(s@.subrange(from as int, to as int).drop_last() =~= s@.subrange(
            from as int,
            to - 1,
        ));
        to = to - 1;
    }
    copy_range(s, from, to)
}

/// The text without the character `c` at its end, however often it stands there.
pub open spec fn trimmed_of(s: Seq<char>, c: char) -> Seq<char>
    decreases s.len(),
{
    if s.len() > 0 && s.last() == c {
        trimmed_of(s.drop_last(), c)
    } else {
        s
    }
}

/// Remove every `c` at the end.
pub fn trim_end_of(s: &[char], c: char) -> (out: Vec<char>)
    ensures
        out@ == trimmed_of(s@, c),
{
    let mut to: usize = s.len();
    assert(s@.subrange(0, to as int) =~= s@);
    while to > 0 && s[to - 1] == c
        invariant
            to <= s@.len(),
            trimmed_of(s@, c) == trimmed_of(s@.subrange(0, to as int), c),
        decreases to,
    {
        assert(s@.subrange(0, to as int).drop_last() =~= s@.subrange(0, to - 1));
        to = to - 1;
    }
    copy_range(s, 0, to)
}

/// `s` begins with `prefix`.
pub open spec fn begins(s: Seq<char>, prefix: Seq<char>) -> bool {
    prefix.len() <= s.len() && s.take(prefix.len() as int) == prefix
}

/// Whether `prefix` stands at `from`.
pub fn begins_at(s: &[char], from: usize, prefix: &[char]) -> (out: bool)
    requires
        from <= s@.len(),
    ensures
        out == begins(s@.skip(from as int), prefix@),
{
    let total: usize = s.len();
    if prefix.len() > total - from {
        return false;
    }
    let mut index: usize = 0;
    while index < prefix.len()
        invariant
            from <= total == s@.len(),
            index <= prefix@.len() <= total - from,
            forall|i: int| 0 <= i < index ==> s@[from + i] == #[trigger] prefix@[i],
        decreases prefix@.len() - index,
    {
        if s[from + index] != prefix[index] {
            assert(s@.skip(from as int).take(prefix@.len() as int)[index as int]
                != prefix@[index as int]);
            return false;
        }
        index = index + 1;
    }
    assert(s@.skip(from as int).take(prefix@.len() as int) =~= prefix@);
    true
}

/// `s` ends with `suffix`.
pub open spec fn ends(s: Seq<char>, suffix: Seq<char>) -> bool {
    suffix.len() <= s.len() && s.skip(s.len() - suffix.len()) == suffix
}

/// The text with every `from`, taken from the left without overlap, replaced by `to`.
pub open spec fn replaced(s: Seq<char>, from: Seq<char>, to: Seq<char>) -> Seq<char>
    decreases s.len(),
{
    if from.len() == 0 || s.len() == 0 {
        s
    } else if begins(s, from) {
        to + replaced(s.skip(from.len() as int), from, to)
    } else {
        seq![s[0]] + replaced(s.skip(1), from, to)
    }
}

/// Append `more` to `out`.
pub fn extend(out: &mut Vec<char>, more: &[char])
    ensures
        final(out)@ == old(out)@ + more@,
{
    let mut index: usize = 0;
    assert(more@.take(0) =~= Seq::empty());
    assert(out@ + more@.take(0) =~= out@);
    while index < more.len()
        invariant
            index <= more@.len(),
            out@ == old(out)@ + more@.take(index as int),
        decreases more@.len() - index,
    {
        out.push(more[index]);
        index = index + 1;
        assert(out@ =~= old(out)@ + more@.take(index as int));
    }
    assert(more@.take(more@.len() as int) =~= more@);
}

/// Replace every `from` by `to`.
pub fn replace(s: &[char], from: &[char], to: &[char]) -> (out: Vec<char>)
    requires
        from@.len() > 0,
    ensures
        out@ == replaced(s@, from@, to@),
{
    let mut out: Vec<char> = Vec::new();
    let mut index: usize = 0;
    assert(s@.skip(0) =~= s@);
    assert(out@ + replaced(s@.skip(0), from@, to@) =~= replaced(s@, from@, to@));
    while index < s.len()
        invariant
            from@.len() > 0,
            index <= s@.len(),
            out@ + replaced(s@.skip(index as int), from@, to@) == replaced(s@, from@, to@),
        decreases s@.len() - index,
    {
        let ghost before = out@;
        let ghost rest = s@.skip(index as int);
        if begins_at(s, index, from) {
            extend(&mut out, to);
            proof {
                let after = rest.skip(from@.len() as int);
                assert(after =~= s@.skip(index + from@.len()));
                assert(before + (to@ + replaced(after, from@, to@)) =~= (before + to@)
                    + replaced(after, from@, to@));
            }
            index = index + from.len();
        } else {
            out.push(s[index]);
            proof {
                let after = rest.skip(1);
                assert(after =~= s@.skip(index + 1));
                assert(before + (seq![rest[0]] + replaced(after, from@, to@)) =~= before.push(
                    rest[0],
                ) + replaced(after, from@, to@));
            }
            index = index + 1;
        }
    }
    assert(s@.skip(s@.len() as int) =~= Seq::empty());
    assert(out@ =~= out@ + Seq::<char>::empty());
    out
}

/// Texts as what they hold.
pub open spec fn pieces(texts: Seq<Vec<char>>) -> Seq<Seq<char>> {
    Seq::new(texts.len(), |i: int| texts[i]@)
}

/// The pieces of a text between the characters `c`: one more than there are of them.
pub open spec fn split_on(s: Seq<char>, c: char) -> Seq<Seq<char>>
    decreases s.len(),
{
    if s.len() == 0 {
        seq![Seq::empty()]
    } else {
        let before = split_on(s.drop_last(), c);
        if s.last() == c {
            before.push(Seq::empty())
        } else {
            before.update(before.len() - 1, before.last().push(s.last()))
        }
    }
}

/// No piece holds what separates the pieces.
pub proof fn pieces_lack_the_separator(s: Seq<char>, c: char, i: int)
    requires
        0 <= i < split_on(s, c).len(),
    ensures
        !split_on(s, c)[i].contains(c),
    decreases s.len(),
{
    if s.len() > 0 {
        let before = split_on(s.drop_last(), c);
        split_is_not_empty(s.drop_last(), c);
        if i < before.len() {
            pieces_lack_the_separator(s.drop_last(), c, i);
        }
        let piece = split_on(s, c)[i];
        if piece.contains(c) {
            let k = choose|k: int| 0 <= k < piece.len() && piece[k] == c;
            assert(before[i].contains(c) || piece[k] == s.last()) by {
                if i < before.len() && k < before[i].len() {
                    assert(before[i][k] == c);
                }
            }
        }
    }
}

/// A text has a first piece.
pub proof fn split_is_not_empty(s: Seq<char>, c: char)
    ensures
        split_on(s, c).len() > 0,
    decreases s.len(),
{
    if s.len() > 0 {
        split_is_not_empty(s.drop_last(), c);
    }
}

/// Split at every `c`.
pub fn split(s: &[char], c: char) -> (out: Vec<Vec<char>>)
    ensures
        pieces(out@) == split_on(s@, c),
        out@.len() > 0,
{
    let mut out: Vec<Vec<char>> = Vec::new();
    let mut current: Vec<char> = Vec::new();
    let mut index: usize = 0;
    assert(s@.take(0) =~= Seq::empty());
    assert(pieces(out@).push(current@) =~= seq![Seq::<char>::empty()]) by {
        assert(current@ =~= Seq::<char>::empty());
    }
    while index < s.len()
        invariant
            index <= s@.len(),
            pieces(out@).push(current@) == split_on(s@.take(index as int), c),
        decreases s@.len() - index,
    {
        let ghost before = pieces(out@);
        let ghost had = current@;
        proof {
            assert(s@.take(index + 1).drop_last() =~= s@.take(index as int));
            split_is_not_empty(s@.take(index as int), c);
        }
        if s[index] == c {
            out.push(current);
            current = Vec::new();
            proof {
                assert(pieces(out@) =~= before.push(had));
                assert(current@ =~= Seq::<char>::empty());
            }
        } else {
            current.push(s[index]);
            assert(before.push(had).update(before.len() as int, current@) =~= before.push(
                current@,
            ));
        }
        index = index + 1;
    }
    assert(s@.take(s@.len() as int) =~= s@);
    let ghost before = pieces(out@);
    let ghost last = current@;
    out.push(current);
    assert(pieces(out@) =~= before.push(last));
    out
}

/// A line without the carriage return of its line ending.
pub open spec fn without_return(line: Seq<char>) -> Seq<char> {
    if line.len() > 0 && line.last() == '\r' {
        line.drop_last()
    } else {
        line
    }
}

/// The lines of a text: a line ends at a line feed, with the carriage return before it, and the
/// last line need not end.
pub open spec fn lines_of(s: Seq<char>) -> Seq<Seq<char>> {
    let parts = split_on(s, '\n');
    let ended = Seq::new((parts.len() - 1) as nat, |i: int| without_return(parts[i]));
    if parts.last().len() == 0 {
        ended
    } else {
        ended.push(parts.last())
    }
}

/// The lines of a text.
pub fn lines(s: &[char]) -> (out: Vec<Vec<char>>)
    ensures
        pieces(out@) == lines_of(s@),
{
    let parts = split(s, '\n');
    let ghost model = split_on(s@, '\n');
    let ghost ended = Seq::new((model.len() - 1) as nat, |i: int| without_return(model[i]));
    let last: usize = parts.len() - 1;
    let mut out: Vec<Vec<char>> = Vec::new();
    let mut index: usize = 0;
    while index < last
        invariant
            index <= last == parts@.len() - 1,
            model == pieces(parts@),
            ended == Seq::new((model.len() - 1) as nat, |i: int| without_return(model[i])),
            pieces(out@) == ended.take(index as int),
        decreases last - index,
    {
        let part = &parts[index];
        let ghost before = pieces(out@);
        assert(model[index as int] == part@);
        let end: usize = part.len();
        let line = if end > 0 && part[end - 1] == '\r' {
            let line = copy_range(part, 0, end - 1);
            assert(line@ =~= part@.drop_last());
            line
        } else {
            let line = copy_range(part, 0, end);
            assert(line@ =~= part@);
            line
        };
        let ghost shown = line@;
        out.push(line);
        proof {
            assert(pieces(out@) =~= before.push(shown));
            assert(ended.take(index + 1) =~= ended.take(index as int).push(ended[index as int]));
        }
        index = index + 1;
    }
    assert(ended.take(last as int) =~= ended);
    assert(model.last() == parts@[last as int]@);
    if parts[last].len() > 0 {
        let ghost before = pieces(out@);
        let line = copy_range(&parts[last], 0, parts[last].len());
        let ghost shown = line@;
        assert(shown =~= model.last());
        out.push(line);
        assert(pieces(out@) =~= before.push(shown));
    }
    out
}

/// The words of a text, and whether it ends within one.
pub open spec fn words_within(s: Seq<char>) -> (Seq<Seq<char>>, bool)
    decreases s.len(),
{
    if s.len() == 0 {
        (Seq::empty(), false)
    } else {
        let (words, open) = words_within(s.drop_last());
        if is_space(s.last()) {
            (words, false)
        } else if open {
            (words.update(words.len() - 1, words.last().push(s.last())), true)
        } else {
            (words.push(seq![s.last()]), true)
        }
    }
}

/// The words of a text: its longest stretches without white space.
pub open spec fn words_of(s: Seq<char>) -> Seq<Seq<char>> {
    words_within(s).0
}

/// The words of a text.
pub fn split_whitespace(s: &[char]) -> (out: Vec<Vec<char>>)
    ensures
        pieces(out@) == words_of(s@),
{
    let mut out: Vec<Vec<char>> = Vec::new();
    let mut current: Vec<char> = Vec::new();
    let mut open = false;
    let mut index: usize = 0;
    assert(s@.take(0) =~= Seq::empty());
    assert(pieces(out@) =~= Seq::empty());
    while index < s.len()
        invariant
            index <= s@.len(),
            words_within(s@.take(index as int)) == (
                (if open {
                    pieces(out@).push(current@)
                } else {
                    pieces(out@)
                }),
                open,
            ),
            !open ==> current@.len() == 0,
        decreases s@.len() - index,
    {
        let ghost before = pieces(out@);
        let ghost had = current@;
        assert(s@.take(index + 1).drop_last() =~= s@.take(index as int));
        if space(s[index]) {
            if open {
                out.push(current);
                current = Vec::new();
                assert(pieces(out@) =~= before.push(had));
            }
            open = false;
        } else {
            current.push(s[index]);
            proof {
                if open {
                    assert(before.push(had).update(before.len() as int, current@) =~= before.push(
                        current@,
                    ));
                } else {
                    assert(current@ =~= seq![s@[index as int]]);
                }
            }
            open = true;
        }
        index = index + 1;
    }
    assert(s@.take(s@.len() as int) =~= s@);
    if open {
        let ghost before = pieces(out@);
        let ghost last = current@;
        out.push(current);
        assert(pieces(out@) =~= before.push(last));
    }
    out
}

/// The first `n` texts with `separator` between them.
pub open spec fn joined(texts: Seq<Seq<char>>, separator: Seq<char>, n: nat) -> Seq<char>
    decreases n,
{
    if n == 0 {
        Seq::empty()
    } else if n == 1 {
        texts[0]
    } else {
        joined(texts, separator, (n - 1) as nat) + separator + texts[n - 1]
    }
}

/// Join texts with a separator.
pub fn join(texts: &Vec<Vec<char>>, separator: &[char]) -> (out: Vec<char>)
    ensures
        out@ == joined(pieces(texts@), separator@, texts@.len()),
{
    let mut out: Vec<char> = Vec::new();
    let mut index: usize = 0;
    let ghost model = pieces(texts@);
    assert(out@ =~= Seq::empty());
    while index < texts.len()
        invariant
            index <= texts@.len(),
            model == pieces(texts@),
            out@ == joined(model, separator@, index as nat),
        decreases texts@.len() - index,
    {
        let ghost before = out@;
        if index > 0 {
            extend(&mut out, separator);
        }
        extend(&mut out, &texts[index]);
        assert(index == 0 ==> out@ =~= texts@[index as int]@);
        index = index + 1;
    }
    out
}

/// The lower case of an ASCII letter; any other character is itself.
pub open spec fn ascii_lower(c: char) -> char {
    if 'A' <= c <= 'Z' {
        ((c as u32) + 32) as char
    } else {
        c
    }
}

/// The lower case of an ASCII letter.
pub fn lower(c: char) -> (out: char)
    ensures
        out == ascii_lower(c),
{
    if 'A' <= c && c <= 'Z' {
        let code: u8 = c as u8;
        (code + 32) as char
    } else {
        c
    }
}

/// Two texts are the same but for the case of ASCII letters.
pub open spec fn same_ignoring_case(a: Seq<char>, b: Seq<char>) -> bool {
    a.len() == b.len() && forall|i: int|
        0 <= i < a.len() ==> ascii_lower(#[trigger] a[i]) == ascii_lower(b[i])
}

/// Whether two texts are the same but for the case of ASCII letters.
pub fn eq_ignore_ascii_case(a: &[char], b: &[char]) -> (out: bool)
    ensures
        out == same_ignoring_case(a@, b@),
{
    if a.len() != b.len() {
        return false;
    }
    let mut index: usize = 0;
    while index < a.len()
        invariant
            index <= a@.len() == b@.len(),
            forall|i: int| 0 <= i < index ==> ascii_lower(#[trigger] a@[i]) == ascii_lower(b@[i]),
        decreases a@.len() - index,
    {
        if lower(a[index]) != lower(b[index]) {
            return false;
        }
        index = index + 1;
    }
    true
}

/// Whether two texts are the same.
pub fn same(a: &[char], b: &[char]) -> (out: bool)
    ensures
        out == (a@ == b@),
{
    if a.len() != b.len() {
        return false;
    }
    let mut index: usize = 0;
    while index < a.len()
        invariant
            index <= a@.len() == b@.len(),
            forall|i: int| 0 <= i < index ==> #[trigger] a@[i] == b@[i],
        decreases a@.len() - index,
    {
        if a[index] != b[index] {
            return false;
        }
        index = index + 1;
    }
    assert(a@ =~= b@);
    true
}

/// Where `pattern` stands first.
pub open spec fn first_at(s: Seq<char>, pattern: Seq<char>) -> Option<nat>
    decreases s.len(),
{
    if begins(s, pattern) {
        Some(0)
    } else if s.len() == 0 {
        None
    } else {
        match first_at(s.skip(1), pattern) {
            None => None,
            Some(n) => Some(n + 1),
        }
    }
}

/// Find `pattern`.
pub fn find(s: &[char], pattern: &[char]) -> (out: Option<usize>)
    ensures
        match out {
            None => first_at(s@, pattern@) is None,
            Some(n) => first_at(s@, pattern@) == Some(n as nat) && n + pattern@.len() <= s@.len(),
        },
{
    let total: usize = s.len();
    let mut index: usize = 0;
    assert(s@.skip(0) =~= s@);
    loop
        invariant
            index <= total == s@.len(),
            match first_at(s@.skip(index as int), pattern@) {
                None => first_at(s@, pattern@) is None,
                Some(n) => first_at(s@, pattern@) == Some(n + index as nat),
            },
        decreases total - index,
    {
        if begins_at(s, index, pattern) {
            return Some(index);
        }
        if index == total {
            return None;
        }
        assert(s@.skip(index as int).skip(1) =~= s@.skip(index + 1));
        index = index + 1;
    }
}

/// A decimal digit.
pub open spec fn is_digit(c: char) -> bool {
    '0' <= c <= '9'
}

/// The number that decimal digits write.
pub open spec fn digits_value(s: Seq<char>) -> nat
    decreases s.len(),
{
    if s.len() == 0 {
        0
    } else {
        (digits_value(s.drop_last()) * 10 + ((s.last() as u32) - 48)) as nat
    }
}

/// The digits of a number that may be written with a plus sign.
pub open spec fn without_plus(s: Seq<char>) -> Seq<char> {
    if s.len() > 0 && s[0] == '+' {
        s.skip(1)
    } else {
        s
    }
}

/// The number that a text writes, where it is one and fits in `max`: decimal digits, after a plus
/// sign or none.
pub open spec fn number_of(s: Seq<char>, max: nat) -> Option<nat> {
    let digits = without_plus(s);
    if digits.len() > 0 && (forall|i: int| 0 <= i < digits.len() ==> is_digit(#[trigger] digits[i]))
        && digits_value(digits) <= max {
        Some(digits_value(digits))
    } else {
        None
    }
}

/// More digits write no smaller number.
proof fn digits_grow(s: Seq<char>, n: int)
    requires
        forall|i: int| 0 <= i < s.len() ==> is_digit(#[trigger] s[i]),
        0 <= n <= s.len(),
    ensures
        digits_value(s.take(n)) <= digits_value(s),
    decreases s.len() - n,
{
    if n < s.len() {
        digits_grow(s, n + 1);
        assert(s.take(n + 1).drop_last() =~= s.take(n));
        assert(is_digit(s[n]));
    } else {
        assert(s.take(n) =~= s);
    }
}

/// Read a number.
pub fn parse_u64(s: &[char]) -> (out: Option<u64>)
    ensures
        match out {
            None => number_of(s@, u64::MAX as nat) is None,
            Some(n) => number_of(s@, u64::MAX as nat) == Some(n as nat),
        },
{
    let total: usize = s.len();
    let from: usize = if total > 0 && s[0] == '+' {
        1
    } else {
        0
    };
    let ghost digits = without_plus(s@);
    assert(digits =~= s@.skip(from as int));
    if from == total {
        return None;
    }
    let mut value: u64 = 0;
    let mut index: usize = from;
    assert(digits.take(0) =~= Seq::empty());
    while index < total
        invariant
            from <= index <= total == s@.len(),
            digits == s@.skip(from as int),
            digits == without_plus(s@),
            forall|i: int| 0 <= i < index - from ==> is_digit(#[trigger] digits[i]),
            value == digits_value(digits.take(index - from)),
        decreases total - index,
    {
        let c = s[index];
        let ghost n = index - from;
        assert(digits[n] == c);
        if !('0' <= c && c <= '9') {
            return None;
        }
        let digit: u64 = (c as u32 - 48) as u64;
        assert(digits.take(n + 1).drop_last() =~= digits.take(n));
        if value > (u64::MAX - digit) / 10 {
            proof {
                if number_of(s@, u64::MAX as nat) is Some {
                    digits_grow(digits, n + 1);
                }
            }
            return None;
        }
        value = value * 10 + digit;
        index = index + 1;
    }
    assert(digits.take(digits.len() as int) =~= digits);
    Some(value)
}

} // verus!
