//! The table of mounts, as `/proc/self/mountinfo` writes it.

use vstd::prelude::*;

use super::path;
use super::pipeline::maybe_text;
use crate::chars::{self, begins_at, chars_of, copy_range, find, lines, split, string_of};

verus! {

/// An octal digit.
pub open spec fn is_octal(c: char) -> bool {
    '0' <= c <= '7'
}

/// The character that three octal digits stand for, up to the largest byte.
pub open spec fn escape_code(a: char, b: char, c: char) -> Option<char> {
    if is_octal(a) && is_octal(b) && is_octal(c) {
        let code = (a as int - 48) * 64 + (b as int - 48) * 8 + (c as int - 48);
        if code <= 255 {
            Some(code as char)
        } else {
            None
        }
    } else {
        None
    }
}

/// Whether a text begins with an escape: a backslash and the three digits of a code.
pub open spec fn begins_with_escape(s: Seq<char>) -> bool {
    s.len() > 3 && s[0] == '\\' && escape_code(s[1], s[2], s[3]) is Some
}

/// A text with its escapes decoded. Every other character is kept as it is.
pub open spec fn unescaped(s: Seq<char>) -> Seq<char>
    decreases s.len(),
{
    if s.len() == 0 {
        Seq::empty()
    } else if begins_with_escape(s) {
        seq![escape_code(s[1], s[2], s[3])->Some_0] + unescaped(s.skip(4))
    } else {
        seq![s[0]] + unescaped(s.skip(1))
    }
}

/// A character as the kernel writes it: spaces, tabs, newlines and backslashes are escaped.
pub open spec fn escaped_char(c: char) -> Seq<char> {
    if c == ' ' {
        seq!['\\', '0', '4', '0']
    } else if c == '\t' {
        seq!['\\', '0', '1', '1']
    } else if c == '\n' {
        seq!['\\', '0', '1', '2']
    } else if c == '\\' {
        seq!['\\', '1', '3', '4']
    } else {
        seq![c]
    }
}

/// A text as the kernel writes it.
pub open spec fn escaped(s: Seq<char>) -> Seq<char>
    decreases s.len(),
{
    if s.len() == 0 {
        Seq::empty()
    } else {
        escaped_char(s[0]) + escaped(s.skip(1))
    }
}

/// Decoding undoes what the kernel escapes, in any text.
pub proof fn unescaping_undoes_escaping(s: Seq<char>)
    ensures
        unescaped(escaped(s)) == s,
    decreases s.len(),
{
    if s.len() > 0 {
        let first = escaped_char(s[0]);
        let rest = escaped(s.skip(1));
        let whole = escaped(s);
        unescaping_undoes_escaping(s.skip(1));
        assert(whole == first + rest);
        if first.len() == 4 {
            assert(whole[0] == first[0] && whole[1] == first[1] && whole[2] == first[2] && whole[3]
                == first[3]);
            assert(whole.skip(4) =~= rest);
            assert(escape_code(first[1], first[2], first[3]) == Some(s[0]));
        } else {
            assert(whole[0] == s[0]);
            assert(whole.skip(1) =~= rest);
        }
        assert(seq![s[0]] + s.skip(1) =~= s);
    } else {
        assert(s =~= Seq::empty());
    }
}

/// A text without a backslash holds no escape.
pub proof fn plain_texts_are_kept(s: Seq<char>)
    requires
        !s.contains('\\'),
    ensures
        unescaped(s) == s,
    decreases s.len(),
{
    if s.len() > 0 {
        assert(s[0] != '\\');
        let rest = s.skip(1);
        assert(!rest.contains('\\')) by {
            if rest.contains('\\') {
                let i = choose|i: int| 0 <= i < rest.len() && rest[i] == '\\';
                assert(s[i + 1] == '\\');
            }
        }
        plain_texts_are_kept(rest);
        assert(seq![s[0]] + rest =~= s);
    } else {
        assert(s =~= Seq::empty());
    }
}

/// The character of an escape.
fn code_of(a: char, b: char, c: char) -> (out: Option<char>)
    ensures
        out == escape_code(a, b, c),
{
    if !('0' <= a && a <= '7') || !('0' <= b && b <= '7') || !('0' <= c && c <= '7') {
        return None;
    }
    let code: u32 = (a as u32 - 48) * 64 + (b as u32 - 48) * 8 + (c as u32 - 48);
    if code <= 255 {
        Some(code as u8 as char)
    } else {
        None
    }
}

/// Decode the `\040`-style octal escapes the kernel uses for spaces, tabs, newlines and `\`.
pub fn unescape_octal(s: &str) -> (out: String)
    ensures
        out@ == unescaped(s@),
{
    let given = chars_of(s);
    let total: usize = given.len();
    let mut out = String::new();
    let mut i: usize = 0;
    assert(given@.skip(0) =~= given@);
    assert(out@ + unescaped(given@) =~= unescaped(given@));
    while i < total
        invariant
            i <= total == given@.len(),
            out@ + unescaped(given@.skip(i as int)) == unescaped(given@),
        decreases total - i,
    {
        let ghost before = out@;
        let ghost rest = given@.skip(i as int);
        if given[i] == '\\' && total - i > 3 {
            match code_of(given[i + 1], given[i + 2], given[i + 3]) {
                Some(code) => {
                    out.push(code);
                    i = i + 4;
                    proof {
                        assert(rest.skip(4) =~= given@.skip(i as int));
                        assert(before + (seq![code] + unescaped(rest.skip(4))) =~= before.push(code)
                            + unescaped(rest.skip(4)));
                    }
                    continue;
                },
                None => {},
            }
        }
        let c = given[i];
        out.push(c);
        i = i + 1;
        proof {
            assert(rest.skip(1) =~= given@.skip(i as int));
            assert(before + (seq![c] + unescaped(rest.skip(1))) =~= before.push(c) + unescaped(
                rest.skip(1),
            ));
        }
    }
    assert(given@.skip(i as int) =~= Seq::empty());
    assert(out@ + Seq::<char>::empty() =~= out@);
    out
}

/// One mount.
pub struct MountEntry {
    pub mount_point: String,
    pub fs_type: String,
    pub source: String,
    /// The directory that holds the data of an overlay.
    pub upper_dir: Option<String>,
}

/// What a mount holds.
pub struct MountV {
    pub mount_point: Seq<char>,
    pub fs_type: Seq<char>,
    pub source: Seq<char>,
    pub upper_dir: Option<Seq<char>>,
}

impl View for MountEntry {
    type V = MountV;

    open spec fn view(&self) -> MountV {
        MountV {
            mount_point: self.mount_point@,
            fs_type: self.fs_type@,
            source: self.source@,
            upper_dir: maybe_text(self.upper_dir),
        }
    }
}

/// What mounts hold.
pub open spec fn mounts_model(mounts: Seq<MountEntry>) -> Seq<MountV> {
    Seq::new(mounts.len(), |i: int| mounts[i]@)
}

/// The first of the options from the `n`-th on that names an upper directory.
pub open spec fn upper_option(options: Seq<Seq<char>>, n: nat) -> Option<Seq<char>>
    decreases options.len() - n,
{
    if n >= options.len() {
        None
    } else if chars::begins(options[n as int], "upperdir="@) {
        Some(options[n as int].skip("upperdir="@.len() as int))
    } else {
        upper_option(options, n + 1)
    }
}

/// The mount of a line. Before the separator the mount point is the fifth field; after it stand
/// the filesystem type, the source and the options. A line that lacks one of the first three
/// names no mount.
pub open spec fn mount_of(line: Seq<char>) -> Option<MountV> {
    match chars::first_at(line, " - "@) {
        None => None,
        Some(n) => {
            let before = chars::split_on(line.take(n as int), ' ');
            let after = chars::split_on(line.skip((n + " - "@.len()) as int), ' ');
            if before.len() <= 4 || after.len() <= 1 {
                None
            } else {
                let options = if after.len() > 2 {
                    after[2]
                } else {
                    Seq::empty()
                };
                Some(
                    MountV {
                        mount_point: unescaped(before[4]),
                        fs_type: after[0],
                        source: unescaped(after[1]),
                        upper_dir: match upper_option(chars::split_on(options, ','), 0) {
                            None => None,
                            Some(dir) => Some(unescaped(dir)),
                        },
                    },
                )
            }
        },
    }
}

/// The mounts of the first `n` lines.
pub open spec fn mounts_of(lines: Seq<Seq<char>>, n: nat) -> Seq<MountV>
    decreases n,
{
    if n == 0 {
        Seq::empty()
    } else {
        let before = mounts_of(lines, (n - 1) as nat);
        match mount_of(lines[n - 1]) {
            None => before,
            Some(mount) => before.push(mount),
        }
    }
}

/// The upper directory among the options of a mount.
fn find_upper(options: &[char]) -> (out: Option<String>)
    ensures
        maybe_text(out) == (match upper_option(chars::split_on(options@, ','), 0) {
            None => None::<Seq<char>>,
            Some(dir) => Some(unescaped(dir)),
        }),
{
    let parts = split(options, ',');
    let prefix = chars_of("upperdir=");
    let ghost model = chars::split_on(options@, ',');
    let mut index: usize = 0;
    while index < parts.len()
        invariant
            index <= parts@.len(),
            model == chars::pieces(parts@),
            model == chars::split_on(options@, ','),
            prefix@ == "upperdir="@,
            upper_option(model, 0) == upper_option(model, index as nat),
        decreases parts@.len() - index,
    {
        assert(model[index as int] == parts@[index as int]@);
        assert(parts@[index as int]@.skip(0) =~= parts@[index as int]@);
        if begins_at(&parts[index], 0, &prefix) {
            let dir = copy_range(&parts[index], prefix.len(), parts[index].len());
            assert(dir@ =~= model[index as int].skip(prefix@.len() as int));
            return Some(unescape_octal(string_of(&dir).as_str()));
        }
        index = index + 1;
    }
    None
}

/// Read the mount of a line.
fn parse_line(line: &[char]) -> (out: Option<MountEntry>)
    ensures
        match out {
            None => mount_of(line@) is None,
            Some(mount) => mount_of(line@) == Some(mount@),
        },
{
    let separator = chars_of(" - ");
    let total: usize = line.len();
    match find(line, &separator) {
        None => None,
        Some(n) => {
            let head = copy_range(line, 0, n);
            let tail = copy_range(line, n + separator.len(), total);
            assert(head@ =~= line@.take(n as int));
            assert(tail@ =~= line@.skip(n + separator@.len()));
            let before = split(&head, ' ');
            let after = split(&tail, ' ');
            let ghost before_model = chars::split_on(head@, ' ');
            let ghost after_model = chars::split_on(tail@, ' ');
            assert(before_model == chars::pieces(before@));
            assert(after_model == chars::pieces(after@));
            if before.len() <= 4 || after.len() <= 1 {
                return None;
            }
            assert(before_model[4] == before@[4]@);
            assert(after_model[0] == after@[0]@);
            assert(after_model[1] == after@[1]@);
            let upper_dir = if after.len() > 2 {
                assert(after_model[2] == after@[2]@);
                find_upper(&after[2])
            } else {
                let none: Vec<char> = Vec::new();
                assert(none@ =~= Seq::empty());
                find_upper(&none)
            };
            Some(
                MountEntry {
                    mount_point: unescape_octal(string_of(&before[4]).as_str()),
                    fs_type: string_of(&after[0]),
                    source: unescape_octal(string_of(&after[1]).as_str()),
                    upper_dir,
                },
            )
        },
    }
}

/// Parse `/proc/self/mountinfo`.
///
/// Fields up to the `-` separator are mount metadata (mount point is field 5); after it come the
/// filesystem type, the mount source, and the super options. Path fields are octal-escaped.
pub fn parse_mountinfo(raw: &str) -> (out: Vec<MountEntry>)
    ensures
        mounts_model(out@) == mounts_of(chars::lines_of(raw@), chars::lines_of(raw@).len()),
{
    let all = lines(&chars_of(raw));
    let ghost model = chars::lines_of(raw@);
    let mut out: Vec<MountEntry> = Vec::new();
    let mut index: usize = 0;
    assert(mounts_model(out@) =~= Seq::empty());
    while index < all.len()
        invariant
            index <= all@.len(),
            model == chars::pieces(all@),
            mounts_model(out@) == mounts_of(model, index as nat),
        decreases all@.len() - index,
    {
        let ghost before = mounts_model(out@);
        assert(model[index as int] == all@[index as int]@);
        match parse_line(&all[index]) {
            None => {},
            Some(mount) => {
                let ghost shown = mount@;
                out.push(mount);
                assert(mounts_model(out@) =~= before.push(shown));
            },
        }
        index = index + 1;
    }
    out
}

/// A path lies on a mount.
pub open spec fn covers(mount: MountV, path: Seq<char>) -> bool {
    path::below(path, mount.mount_point, true) is Some
}

/// How many components the mount point of a mount has.
pub open spec fn depth_of(mount: MountV) -> nat {
    path::components(mount.mount_point, true).len()
}

/// Of the first `n` mounts the one that covers a path: of those that it lies on the one with the
/// most components, and of several such the last.
pub open spec fn covering(path: Seq<char>, mounts: Seq<MountV>, n: nat) -> Option<int>
    decreases n,
{
    if n == 0 {
        None
    } else {
        let before = covering(path, mounts, (n - 1) as nat);
        if !covers(mounts[n - 1], path) {
            before
        } else {
            match before {
                None => Some(n - 1),
                Some(best) => if depth_of(mounts[n - 1]) >= depth_of(mounts[best]) {
                    Some(n - 1)
                } else {
                    before
                },
            }
        }
    }
}

/// The mount that covers a path has the longest mount point of those that the path lies on, and
/// none that is stacked onto the same point after it hides it.
pub proof fn covering_mount_is_longest(path: Seq<char>, mounts: Seq<MountV>, n: nat)
    requires
        n <= mounts.len(),
    ensures
        covering(path, mounts, n) is None <==> forall|i: int|
            0 <= i < n ==> !covers(#[trigger] mounts[i], path),
        covering(path, mounts, n) matches Some(best) ==> {
            &&& 0 <= best < n
            &&& covers(mounts[best], path)
            &&& forall|i: int|
                0 <= i < n && covers(#[trigger] mounts[i], path) ==> depth_of(mounts[i])
                    <= depth_of(mounts[best]) && (i > best ==> depth_of(mounts[i]) < depth_of(
                    mounts[best],
                ))
        },
    decreases n,
{
    if n > 0 {
        covering_mount_is_longest(path, mounts, (n - 1) as nat);
    }
}

/// The mount covering `path` is the one with the longest mount point that prefixes it. Later
/// entries win ties, since a mount stacked onto the same point shadows the earlier one.
pub fn longest_prefix_mount(path: &str, mounts: &Vec<MountEntry>) -> (out: Option<usize>)
    ensures
        match out {
            None => covering(path@, mounts_model(mounts@), mounts@.len()) is None,
            Some(best) => covering(path@, mounts_model(mounts@), mounts@.len()) == Some(
                best as int,
            ) && best < mounts@.len(),
        },
{
    let given = chars_of(path);
    let ghost model = mounts_model(mounts@);
    let mut best: Option<usize> = None;
    let mut best_depth: usize = 0;
    let mut index: usize = 0;
    while index < mounts.len()
        invariant
            index <= mounts@.len(),
            model == mounts_model(mounts@),
            given@ == path@,
            match best {
                None => covering(path@, model, index as nat) is None,
                Some(b) => covering(path@, model, index as nat) == Some(b as int) && b < index
                    && best_depth == depth_of(model[b as int]),
            },
        decreases mounts@.len() - index,
    {
        let point = chars_of(mounts[index].mount_point.as_str());
        assert(model[index as int] == mounts@[index as int]@);
        if path::strip_prefix(&given, &point).is_some() {
            let depth: usize = path::component_count(&point);
            let wins = match best {
                None => true,
                Some(_) => depth >= best_depth,
            };
            if wins {
                best = Some(index);
                best_depth = depth;
            }
        }
        index = index + 1;
    }
    best
}

} // verus!
