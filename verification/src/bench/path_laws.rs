//! What joining paths and changing extensions does, said of the characters.

use vstd::prelude::*;

use crate::bench::path::{below, closed_off, components, extended, head, joined_path, placed, stem_length, unslashed, until_slash};

verus! {

/// A relative path below another is the other, a slash unless there is one already, and itself; an
/// absolute path stands for itself.
pub proof fn joined_paths_hold_both(base: Seq<char>, name: Seq<char>)
    ensures
        name.len() > 0 && name[0] == '/' ==> joined_path(base, name) == name,
        !(name.len() > 0 && name[0] == '/') ==> {
            let slash = if base.len() > 0 && base.last() != '/' {
                1int
            } else {
                0int
            };
            let out = joined_path(base, name);
            &&& out.len() == base.len() + slash + name.len()
            &&& out.take(base.len() as int) == base
            &&& out.skip(base.len() + slash) == name
            &&& slash == 1 ==> out[base.len() as int] == '/'
        },
{
    reveal_strlit("/");
    if !(name.len() > 0 && name[0] == '/') {
        let out = joined_path(base, name);
        assert(out.take(base.len() as int) =~= base);
        if base.len() > 0 && base.last() != '/' {
            assert(out.skip(base.len() as int + 1) =~= name);
        } else {
            assert(out.skip(base.len() as int) =~= name);
        }
    }
}

proof fn no_dot_behind(name: Seq<char>, n: nat, m: nat)
    requires
        m <= n <= name.len(),
        forall|i: int| m <= i < n ==> #[trigger] name[i] != '.',
    ensures
        stem_length(name, n) == stem_length(name, m),
    decreases n,
{
    if n > m {
        assert(name[n - 1] != '.');
        if n > 1 {
            no_dot_behind(name, (n - 1) as nat, m);
        }
    }
}

/// Another extension takes the place of what follows a file name's last dot; a name without a dot,
/// or with none but at its start, gets the extension behind it.
pub proof fn extensions_follow_the_last_dot(first: Seq<char>, last: Seq<char>, extension: Seq<char>)
    requires
        !last.contains('.'),
    ensures
        first.len() > 0 ==> extended(first.push('.') + last, extension) == first.push('.')
            + extension,
        extended(last, extension) == last.push('.') + extension,
        extended(seq!['.'] + last, extension) == (seq!['.'] + last).push('.') + extension,
{
    assert forall|i: int| 0 <= i < last.len() implies #[trigger] last[i] != '.' by {
        if last[i] == '.' {
            assert(last.contains('.'));
        }
    }
    let name = first.push('.') + last;
    if first.len() > 0 {
        assert forall|i: int| first.len() + 1 <= i < name.len() implies #[trigger] name[i] != '.' by {
            assert(name[i] == last[i - first.len() - 1]);
        }
        no_dot_behind(name, name.len(), (first.len() + 1) as nat);
        assert(name[first.len() as int] == '.');
        assert(stem_length(name, (first.len() + 1) as nat) == Some(first.len()));
        assert(name.take(first.len() as int) =~= first);
        assert(extended(name, extension) =~= first.push('.') + extension);
    }
    no_dot_behind(last, last.len(), 0);
    assert(extended(last, extension) =~= last.push('.') + extension);
    let hidden = seq!['.'] + last;
    assert forall|i: int| 1 <= i < hidden.len() implies #[trigger] hidden[i] != '.' by {
        assert(hidden[i] == last[i - 1]);
    }
    no_dot_behind(hidden, hidden.len(), 1);
    assert(extended(hidden, extension) =~= hidden.push('.') + extension);
}

/// A file of a plain name in a directory is that name with the extension, joined to the directory.
pub proof fn files_are_placed_by_name(dir: Seq<char>, name: Seq<char>, extension: Seq<char>)
    requires
        name.len() > 0,
        !name.contains('.'),
        !name.contains('/'),
        dir.len() > 0,
        dir.last() != '/',
    ensures
        placed(dir, name, extension) == dir + seq!['/'] + name + seq!['.'] + extension,
{
    assert(name != seq!['.']) by {
        if name == seq!['.'] {
            assert(seq!['.'][0] == '.');
            assert(name.contains('.'));
        }
    }
    assert(name != seq!['.', '.']) by {
        if name == seq!['.', '.'] {
            assert(seq!['.', '.'][0] == '.');
            assert(name.contains('.'));
        }
    }
    extensions_follow_the_last_dot(Seq::empty(), name, extension);
    reveal_strlit("/");
    assert("/"@ =~= seq!['/']);
    let file = extended(name, extension);
    assert(file[0] == name[0]);
    assert(name.contains(name[0]));
    assert(placed(dir, name, extension) =~= dir + seq!['/'] + name + seq!['.'] + extension);
}

/// A component of a path: not empty, without slashes, and not the dot that stands for its directory.
pub open spec fn component(s: Seq<char>) -> bool {
    s.len() > 0 && (forall|i: int| 0 <= i < s.len() ==> #[trigger] s[i] != '/') && !(s.len() == 1
        && s[0] == '.')
}

proof fn slash_ends_component(part: Seq<char>, rest: Seq<char>)
    requires
        forall|i: int| 0 <= i < part.len() ==> #[trigger] part[i] != '/',
        rest.len() == 0 || rest[0] == '/',
    ensures
        until_slash(part + rest) == part.len(),
    decreases part.len(),
{
    let all = part + rest;
    if part.len() > 0 {
        assert(part[0] != '/');
        let tail = part.skip(1);
        assert forall|i: int| 0 <= i < tail.len() implies #[trigger] tail[i] != '/' by {
            assert(part[i + 1] != '/');
        }
        assert(all.skip(1) =~= tail + rest);
        slash_ends_component(tail, rest);
    } else {
        assert(all =~= rest);
    }
}

/// Slashes separate the components of a path: what stands before the first is a component, and the
/// others are those of the rest. Further slashes and dots between them count for nothing; at the
/// start of a path a slash is the root, which is a component of its own.
pub proof fn slashes_separate_components(part: Seq<char>, rest: Seq<char>)
    requires
        component(part),
        rest.len() == 0 || rest[0] == '/',
    ensures
        components(part + rest, false) == seq![part] + components(rest, false),
        components(part + rest, true) == seq![part] + components(rest, false),
        components(seq!['/'] + part + rest, true) == seq![seq!['/']] + components(
            part + rest,
            false,
        ),
        components(seq!['/'] + part + rest, false) == components(part + rest, false),
        components(seq!['.', '/'] + part + rest, false) == components(part + rest, false),
        components(Seq::empty(), false) == Seq::<Seq<char>>::empty(),
{
    let all = part + rest;
    assert(part[0] != '/');
    assert(all[0] == part[0]);
    if part.len() > 1 {
        assert(part[1] != '/');
        assert(all[1] == part[1]);
    }
    assert(unslashed(all) == all);
    slash_ends_component(part, rest);
    assert(all.take(part.len() as int) =~= part);
    assert(all.skip(part.len() as int) =~= rest);
    assert(head(all, false) == Some((part, rest)));
    assert(head(all, true) == Some((part, rest)));
    let rooted = seq!['/'] + part + rest;
    assert(rooted.skip(1) =~= all);
    assert(rooted.take(1) =~= seq!['/']);
    assert(head(rooted, true) == Some((seq!['/'], all)));
    assert(unslashed(rooted) == all);
    assert(head(rooted, false) == head(all, false));
    let dotted = seq!['.', '/'] + part + rest;
    assert(dotted.skip(1) =~= rooted);
    assert(unslashed(dotted) == unslashed(rooted));
    assert(head(dotted, false) == head(all, false));
    assert(components(all, false) == seq![part] + components(rest, false));
    assert(components(rooted, false) == seq![part] + components(rest, false));
    assert(components(dotted, false) == seq![part] + components(rest, false));
}

proof fn first_component(part: Seq<char>, rest: Seq<char>, start: bool)
    requires
        component(part),
        rest.len() == 0 || rest[0] == '/',
    ensures
        head(part + rest, start) == Some((part, rest)),
{
    let all = part + rest;
    assert(part[0] != '/');
    assert(all[0] == part[0]);
    if part.len() > 1 {
        assert(part[1] != '/');
        assert(all[1] == part[1]);
    }
    assert(unslashed(all) == all);
    slash_ends_component(part, rest);
    assert(all.take(part.len() as int) =~= part);
    assert(all.skip(part.len() as int) =~= rest);
}

/// What is left of a path below a directory is found component by component: one that both begin
/// with is left out of both, and one that differs from the other's is not below it. A single
/// component below nothing is left as it is.
pub proof fn rests_are_found_component_by_component(
    part: Seq<char>,
    other: Seq<char>,
    path: Seq<char>,
    dir: Seq<char>,
    start: bool,
)
    requires
        component(part),
        component(other),
        path.len() == 0 || path[0] == '/',
        dir.len() == 0 || dir[0] == '/',
    ensures
        below(part + path, part + dir, start) == below(path, dir, false),
        part != other ==> below(part + path, other + dir, start) is None,
        below(seq!['/'] + part + path, seq!['/'] + other + dir, true) == below(
            part + path,
            other + dir,
            false,
        ),
        below(seq!['/'] + part, Seq::empty(), false) == Some(part),
        below(part, Seq::empty(), false) == Some(part),
{
    first_component(part, path, start);
    first_component(part, dir, start);
    first_component(other, dir, start);
    let rooted_path = seq!['/'] + part + path;
    let rooted_dir = seq!['/'] + other + dir;
    assert(rooted_path.skip(1) =~= part + path);
    assert(rooted_dir.skip(1) =~= other + dir);
    assert(rooted_path.take(1) =~= seq!['/']);
    assert(rooted_dir.take(1) =~= seq!['/']);
    let nothing = Seq::<char>::empty();
    assert(unslashed(nothing) == nothing);
    assert(head(nothing, false) is None);
    let slashed = seq!['/'] + part;
    assert(slashed.skip(1) =~= part);
    first_component(part, nothing, false);
    assert(part + nothing =~= part);
    assert(part[0] != '/');
    assert(part.len() > 1 ==> part[1] != '/');
    assert(unslashed(part) == part);
    assert(unslashed(slashed) == part);
    assert(part[part.len() - 1] != '/');
    assert(part.len() > 1 ==> part[part.len() - 2] != '/');
    assert(closed_off(part, 0) == part);
}

} // verus!
