//! Paths as texts, and the components they are made of.

use vstd::prelude::*;

use crate::chars;

verus! {

/// A rest of a path without the slashes and the `.` components at its start.
pub open spec fn unslashed(s: Seq<char>) -> Seq<char>
    decreases s.len(),
{
    if s.len() == 0 {
        s
    } else if s[0] == '/' {
        unslashed(s.skip(1))
    } else if s[0] == '.' && (s.len() == 1 || s[1] == '/') {
        unslashed(s.skip(1))
    } else {
        s
    }
}

/// Where the first slash stands, or the length of the text.
pub open spec fn until_slash(s: Seq<char>) -> nat
    decreases s.len(),
{
    if s.len() == 0 || s[0] == '/' {
        0
    } else {
        until_slash(s.skip(1)) + 1
    }
}

/// The first slash stands within the text.
pub proof fn slash_is_within(s: Seq<char>)
    ensures
        until_slash(s) <= s.len(),
    decreases s.len(),
{
    if s.len() > 0 && s[0] != '/' {
        slash_is_within(s.skip(1));
    }
}

/// Leaving out slashes and dots makes no text longer.
pub proof fn unslashed_is_shorter(s: Seq<char>)
    ensures
        unslashed(s).len() <= s.len(),
        unslashed(s) == s.skip(s.len() - unslashed(s).len()),
        unslashed(s).len() > 0 ==> until_slash(unslashed(s)) > 0,
    decreases s.len(),
{
    if s.len() > 0 && (s[0] == '/' || (s[0] == '.' && (s.len() == 1 || s[1] == '/'))) {
        unslashed_is_shorter(s.skip(1));
        let rest = unslashed(s.skip(1));
        assert(s.skip(1).skip(s.skip(1).len() - rest.len()) =~= s.skip(s.len() - rest.len()));
    } else {
        assert(s.skip(0) =~= s);
    }
}

/// The first component of a path, and what follows it. At the start of a path a slash is the root
/// and a leading `.` counts; further on neither does.
pub open spec fn head(s: Seq<char>, start: bool) -> Option<(Seq<char>, Seq<char>)> {
    if start && s.len() > 0 && s[0] == '/' {
        Some((s.take(1), s.skip(1)))
    } else if start && s.len() > 0 && s[0] == '.' && (s.len() == 1 || s[1] == '/') {
        Some((s.take(1), s.skip(1)))
    } else {
        let body = unslashed(s);
        if body.len() == 0 {
            None
        } else {
            Some((body.take(until_slash(body) as int), body.skip(until_slash(body) as int)))
        }
    }
}

/// What follows a component is shorter.
pub proof fn head_shortens(s: Seq<char>, start: bool)
    ensures
        head(s, start) matches Some((first, rest)) ==> rest.len() < s.len() && first.len() > 0,
{
    unslashed_is_shorter(s);
    slash_is_within(unslashed(s));
}

/// The components of a path.
pub open spec fn components(s: Seq<char>, start: bool) -> Seq<Seq<char>>
    decreases s.len(),
    via components_decreases
{
    match head(s, start) {
        None => Seq::empty(),
        Some((first, rest)) => seq![first] + components(rest, false),
    }
}

#[via_fn]
proof fn components_decreases(s: Seq<char>, start: bool) {
    head_shortens(s, start);
}

/// How many characters the root or a leading `.` takes.
pub open spec fn lead(s: Seq<char>, start: bool) -> nat {
    if start && s.len() > 0 && (s[0] == '/' || (s[0] == '.' && (s.len() == 1 || s[1] == '/'))) {
        1
    } else {
        0
    }
}

/// The rest of a path without the slashes and the `.` components at its end. The first `kept`
/// characters stay.
pub open spec fn closed_off(s: Seq<char>, kept: nat) -> Seq<char>
    decreases s.len(),
{
    if s.len() <= kept {
        s
    } else if s.last() == '/' {
        closed_off(s.drop_last(), kept)
    } else if s.last() == '.' && (s.len() == 1 || s[s.len() - 2] == '/') {
        closed_off(s.drop_last(), kept)
    } else {
        s
    }
}

/// What is left of a path below a directory; nothing where the path does not lie in it.
pub open spec fn below(path: Seq<char>, dir: Seq<char>, start: bool) -> Option<Seq<char>>
    decreases dir.len(),
    via below_decreases
{
    match head(dir, start) {
        None => Some(
            closed_off(
                if start {
                    path
                } else {
                    unslashed(path)
                },
                lead(path, start),
            ),
        ),
        Some((wanted, dir_rest)) => match head(path, start) {
            None => None,
            Some((found, path_rest)) => if found == wanted {
                below(path_rest, dir_rest, false)
            } else {
                None
            },
        },
    }
}

#[via_fn]
proof fn below_decreases(path: Seq<char>, dir: Seq<char>, start: bool) {
    head_shortens(dir, start);
}

/// A path lies in a directory where the directory's components come first in its own.
pub proof fn below_goes_by_components(path: Seq<char>, dir: Seq<char>, start: bool)
    ensures
        below(path, dir, start) is Some <==> {
            &&& components(dir, start).len() <= components(path, start).len()
            &&& components(path, start).take(components(dir, start).len() as int)
                == components(dir, start)
        },
    decreases dir.len(),
{
    head_shortens(dir, start);
    let all = components(path, start);
    let first = components(dir, start);
    match head(dir, start) {
        None => {
            assert(all.take(0) =~= first);
        },
        Some((wanted, dir_rest)) => {
            let deeper = components(dir_rest, false);
            assert(first =~= seq![wanted] + deeper);
            assert(first[0] == wanted);
            match head(path, start) {
                None => {},
                Some((found, path_rest)) => {
                    let more = components(path_rest, false);
                    below_goes_by_components(path_rest, dir_rest, false);
                    assert(all =~= seq![found] + more);
                    if first.len() <= all.len() {
                        assert(all.take(first.len() as int)[0] == found);
                        assert(all.take(first.len() as int).skip(1) =~= more.take(
                            deeper.len() as int,
                        ));
                        assert(first.skip(1) =~= deeper);
                        if found == wanted && more.take(deeper.len() as int) == deeper {
                            assert(all.take(first.len() as int) =~= first);
                        }
                    }
                },
            }
        },
    }
}

/// Where a rest of a path goes on after slashes and `.` components.
fn skip_slashes(s: &[char], from: usize) -> (out: usize)
    requires
        from <= s@.len(),
    ensures
        from <= out <= s@.len(),
        s@.skip(out as int) == unslashed(s@.skip(from as int)),
{
    let total: usize = s.len();
    let mut index: usize = from;
    loop
        invariant
            from <= index <= total == s@.len(),
            unslashed(s@.skip(from as int)) == unslashed(s@.skip(index as int)),
        ensures
            from <= index <= total,
            s@.skip(index as int) == unslashed(s@.skip(from as int)),
        decreases total - index,
    {
        let ghost rest = s@.skip(index as int);
        if index < total && (s[index] == '/' || (s[index] == '.' && (index + 1 == total || s[index
            + 1] == '/'))) {
            assert(rest.skip(1) =~= s@.skip(index + 1));
            index = index + 1;
        } else {
            break;
        }
    }
    index
}

/// The first component from `from` on: where it begins and where it ends.
fn next_component(s: &[char], from: usize, start: bool) -> (out: Option<(usize, usize)>)
    requires
        from <= s@.len(),
    ensures
        match out {
            None => head(s@.skip(from as int), start) is None,
            Some((begin, end)) => {
                &&& from <= begin < end <= s@.len()
                &&& head(s@.skip(from as int), start) == Some(
                    (s@.subrange(begin as int, end as int), s@.skip(end as int)),
                )
            },
        },
{
    let total: usize = s.len();
    let ghost rest = s@.skip(from as int);
    if start && from < total && (s[from] == '/' || (s[from] == '.' && (from + 1 == total || s[from
        + 1] == '/'))) {
        assert(rest.take(1) =~= s@.subrange(from as int, from + 1));
        assert(rest.skip(1) =~= s@.skip(from + 1));
        return Some((from, from + 1));
    }
    let begin: usize = skip_slashes(s, from);
    if begin == total {
        return None;
    }
    let ghost body = s@.skip(begin as int);
    proof {
        unslashed_is_shorter(rest);
    }
    let mut end: usize = begin;
    while end < total && s[end] != '/'
        invariant
            begin <= end <= total == s@.len(),
            body == s@.skip(begin as int),
            until_slash(body) == (end - begin) + until_slash(s@.skip(end as int)),
        decreases total - end,
    {
        assert(s@.skip(end as int).skip(1) =~= s@.skip(end + 1));
        end = end + 1;
    }
    assert(body.take(end - begin) =~= s@.subrange(begin as int, end as int));
    assert(body.skip(end - begin) =~= s@.skip(end as int));
    Some((begin, end))
}

/// Whether two stretches of texts are the same.
fn same_stretch(a: &[char], from: usize, to: usize, b: &[char], start: usize, end: usize) -> (out:
    bool)
    requires
        from <= to <= a@.len(),
        start <= end <= b@.len(),
    ensures
        out == (a@.subrange(from as int, to as int) == b@.subrange(start as int, end as int)),
{
    if to - from != end - start {
        assert(a@.subrange(from as int, to as int).len() != b@.subrange(
            start as int,
            end as int,
        ).len());
        return false;
    }
    let length: usize = to - from;
    let mut index: usize = 0;
    while index < length
        invariant
            index <= length == to - from == end - start,
            from <= to <= a@.len(),
            start <= end <= b@.len(),
            forall|i: int| 0 <= i < index ==> #[trigger] a@[from + i] == b@[start + i],
        decreases length - index,
    {
        if a[from + index] != b[start + index] {
            proof {
                assert(a@.subrange(from as int, to as int)[index as int] != b@.subrange(
                    start as int,
                    end as int,
                )[index as int]);
            }
            return false;
        }
        index = index + 1;
    }
    proof {
        let left = a@.subrange(from as int, to as int);
        let right = b@.subrange(start as int, end as int);
        assert forall|i: int| 0 <= i < left.len() implies left[i] == right[i] by {
            assert(a@[from + i] == b@[start + i]);
        }
        assert(left =~= right);
    }
    true
}

/// How many components a path has.
pub fn component_count(path: &[char]) -> (out: usize)
    ensures
        out == components(path@, true).len(),
{
    let mut count: usize = 0;
    let mut from: usize = 0;
    let mut start = true;
    assert(path@.skip(0) =~= path@);
    loop
        invariant
            from <= path@.len(),
            count <= from,
            components(path@, true).len() == count + components(
                path@.skip(from as int),
                start,
            ).len(),
        ensures
            count == components(path@, true).len(),
        decreases path@.len() - from,
    {
        proof {
            head_shortens(path@.skip(from as int), start);
        }
        match next_component(path, from, start) {
            None => {
                break;
            },
            Some((_, end)) => {
                from = end;
                count = count + 1;
                start = false;
            },
        }
    }
    count
}

/// The components of a path.
pub fn components_of(path: &[char]) -> (out: Vec<Vec<char>>)
    ensures
        chars::pieces(out@) == components(path@, true),
{
    let mut out: Vec<Vec<char>> = Vec::new();
    let mut from: usize = 0;
    let mut start = true;
    assert(path@.skip(0) =~= path@);
    assert(chars::pieces(out@) + components(path@, true) =~= components(path@, true));
    loop
        invariant
            from <= path@.len(),
            components(path@, true) == chars::pieces(out@) + components(
                path@.skip(from as int),
                start,
            ),
        ensures
            chars::pieces(out@) == components(path@, true),
        decreases path@.len() - from,
    {
        let ghost before = chars::pieces(out@);
        let ghost rest = path@.skip(from as int);
        proof {
            head_shortens(rest, start);
        }
        match next_component(path, from, start) {
            None => {
                assert(before + components(rest, start) =~= before);
                break;
            },
            Some((begin, end)) => {
                let component = chars::copy_range(path, begin, end);
                let ghost shown = component@;
                out.push(component);
                proof {
                    assert(chars::pieces(out@) =~= before.push(shown));
                    let more = components(path@.skip(end as int), false);
                    assert(components(rest, start) == seq![shown] + more);
                    assert(before + (seq![shown] + more) =~= before.push(shown) + more);
                }
                from = end;
                start = false;
            },
        }
    }
    out
}

/// What is left of a path below a directory.
pub fn strip_prefix(path: &[char], dir: &[char]) -> (out: Option<Vec<char>>)
    ensures
        match out {
            None => below(path@, dir@, true) is None,
            Some(rest) => below(path@, dir@, true) == Some(rest@),
        },
{
    let mut at: usize = 0;
    let mut dir_at: usize = 0;
    let mut start = true;
    assert(path@.skip(0) =~= path@);
    assert(dir@.skip(0) =~= dir@);
    loop
        invariant
            at <= path@.len(),
            dir_at <= dir@.len(),
            below(path@, dir@, true) == below(
                path@.skip(at as int),
                dir@.skip(dir_at as int),
                start,
            ),
        ensures
            at <= path@.len(),
            head(dir@.skip(dir_at as int), start) is None,
            below(path@, dir@, true) == below(
                path@.skip(at as int),
                dir@.skip(dir_at as int),
                start,
            ),
        decreases dir@.len() - dir_at,
    {
        match next_component(dir, dir_at, start) {
            None => {
                break;
            },
            Some((wanted, wanted_end)) => match next_component(path, at, start) {
                None => {
                    return None;
                },
                Some((found, found_end)) => {
                    if !same_stretch(path, found, found_end, dir, wanted, wanted_end) {
                        return None;
                    }
                    at = found_end;
                    dir_at = wanted_end;
                    start = false;
                },
            },
        }
    }
    let from: usize = if start {
        at
    } else {
        skip_slashes(path, at)
    };
    let ghost rest = path@.skip(from as int);
    let mut to: usize = path.len();
    let kept: usize = if start && at < to && (path[at] == '/' || (path[at] == '.' && (at + 1 == to
        || path[at + 1] == '/'))) {
        1
    } else {
        0
    };
    assert(path@.subrange(from as int, to as int) =~= rest);
    while to - from > kept && (path[to - 1] == '/' || (path[to - 1] == '.' && (to - 1 == from
        || path[to - 2] == '/')))
        invariant
            from <= to <= path@.len(),
            closed_off(rest, kept as nat) == closed_off(
                path@.subrange(from as int, to as int),
                kept as nat,
            ),
        decreases to,
    {
        assert(path@.subrange(from as int, to as int).drop_last() =~= path@.subrange(
            from as int,
            to - 1,
        ));
        to = to - 1;
    }
    Some(chars::copy_range(path, from, to))
}

/// Where the extension of a file name begins: at its last dot, unless that is its first
/// character.
pub open spec fn stem_length(name: Seq<char>, n: nat) -> Option<nat>
    decreases n,
{
    if n <= 1 {
        None
    } else if name[n - 1] == '.' {
        Some((n - 1) as nat)
    } else {
        stem_length(name, (n - 1) as nat)
    }
}

/// A file name without its extension.
pub open spec fn stem(name: Seq<char>) -> Seq<char> {
    match stem_length(name, name.len()) {
        None => name,
        Some(n) => name.take(n as int),
    }
}

/// A file name with another extension.
pub open spec fn extended(name: Seq<char>, extension: Seq<char>) -> Seq<char> {
    stem(name) + seq!['.'] + extension
}

/// A file name that is a component of its own: not empty, without slashes, and none of the names
/// that stand for a directory.
pub open spec fn plain_name(name: Seq<char>) -> bool {
    &&& name.len() > 0
    &&& !name.contains('/')
    &&& name != seq!['.']
    &&& name != seq!['.', '.']
}

/// Give a file name another extension.
pub fn with_extension(name: &[char], extension: &[char]) -> (out: Vec<char>)
    ensures
        out@ == extended(name@, extension@),
{
    let mut n: usize = name.len();
    while n > 1 && name[n - 1] != '.'
        invariant
            n <= name@.len(),
            stem_length(name@, name@.len()) == stem_length(name@, n as nat),
        decreases n,
    {
        n = n - 1;
    }
    let kept: usize = if n <= 1 {
        name.len()
    } else {
        n - 1
    };
    let mut out = chars::copy_range(name, 0, kept);
    assert(out@ =~= stem(name@));
    out.push('.');
    assert(out@ =~= stem(name@) + seq!['.']);
    chars::extend(&mut out, extension);
    out
}

/// Whether a file name is a component of its own.
pub fn is_plain_name(name: &[char]) -> (out: bool)
    ensures
        out == plain_name(name@),
{
    let length: usize = name.len();
    if length == 0 {
        return false;
    }
    let mut index: usize = 0;
    while index < length
        invariant
            index <= length == name@.len(),
            forall|i: int| 0 <= i < index ==> #[trigger] name@[i] != '/',
        decreases length - index,
    {
        if name[index] == '/' {
            assert(name@[index as int] == '/');
            return false;
        }
        index = index + 1;
    }
    assert(!name@.contains('/'));
    if length == 1 && name[0] == '.' {
        assert(name@ =~= seq!['.']);
        return false;
    }
    if length == 2 && name[0] == '.' && name[1] == '.' {
        assert(name@ =~= seq!['.', '.']);
        return false;
    }
    assert(name@ == seq!['.'] ==> name@[0] == '.' && name@.len() == 1);
    assert(name@ == seq!['.', '.'] ==> name@[0] == '.' && name@[1] == '.' && name@.len() == 2);
    true
}

/// A path below another.
pub open spec fn joined_path(base: Seq<char>, name: Seq<char>) -> Seq<char> {
    if name.len() > 0 && name[0] == '/' {
        name
    } else if base.len() == 0 || base.last() == '/' {
        base + name
    } else {
        base + "/"@ + name
    }
}

/// The file of a name in a directory, with another extension. A name that stands for the directory
/// itself leaves the extension to the directory, whose own name has none, and one that stands for
/// the directory above has no extension to replace.
pub open spec fn placed(dir: Seq<char>, name: Seq<char>, extension: Seq<char>) -> Seq<char> {
    if name.len() == 0 || name == seq!['.'] {
        dir + seq!['.'] + extension
    } else if name == seq!['.', '.'] {
        joined_path(dir, name)
    } else {
        joined_path(dir, extended(name, extension))
    }
}

/// The file of a name in a directory, with another extension.
pub fn place(dir: &str, name: &str, extension: &str) -> (out: String)
    ensures
        out@ == placed(dir@, name@, extension@),
{
    let letters = chars::chars_of(name);
    let length: usize = letters.len();
    assert(name@ == seq!['.'] ==> name@[0] == '.' && name@.len() == 1);
    assert(name@ == seq!['.', '.'] ==> name@[0] == '.' && name@[1] == '.' && name@.len() == 2);
    if length == 0 || (length == 1 && letters[0] == '.') {
        assert(name@.len() == 1 ==> name@ =~= seq!['.']);
        let mut out = String::from_str(dir);
        out.append(".");
        out.append(extension);
        proof {
            reveal_strlit(".");
            assert("."@ =~= seq!['.']);
        }
        return out;
    }
    if length == 2 && letters[0] == '.' && letters[1] == '.' {
        assert(name@ =~= seq!['.', '.']);
        return join(dir, name);
    }
    let file = with_extension(&letters, &chars::chars_of(extension));
    join(dir, chars::string_of(&file).as_str())
}

/// A path below another.
pub fn join(base: &str, name: &str) -> (out: String)
    ensures
        out@ == joined_path(base@, name@),
{
    let dir = chars::chars_of(base);
    let file = chars::chars_of(name);
    if file.len() > 0 && file[0] == '/' {
        return String::from_str(name);
    }
    let mut out = String::from_str(base);
    if dir.len() > 0 && dir[dir.len() - 1] != '/' {
        out.append("/");
    }
    out.append(name);
    out
}

} // verus!
