//! URLs as plain values.

use vstd::prelude::*;

verus! {

/// What a URL holds: its text, its path, and whether its path is opaque, so that nothing can be
/// resolved against it.
pub struct Location {
    pub text: String,
    pub path: String,
    pub opaque: bool,
}

/// A URL's text, path and opaqueness, or why it cannot be had.
pub open spec fn url_outcome(out: Result<(String, String, bool), String>) -> Result<
    (Seq<char>, Seq<char>, bool),
    Seq<char>,
> {
    match out {
        Ok((text, path, opaque)) => Ok((text@, path@, opaque)),
        Err(error) => Err(error@),
    }
}

/// What `url::Url::parse` makes of a text.
pub uninterp spec fn url_read(text: Seq<char>) -> Result<(Seq<char>, Seq<char>, bool), Seq<char>>;

/// What `url::Url::set_path` makes of the URL of a text.
pub uninterp spec fn url_with_path(text: Seq<char>, path: Seq<char>) -> Result<
    (Seq<char>, Seq<char>, bool),
    Seq<char>,
>;

/// What `url::Url::join` makes of a reference, against the URL of a text.
pub uninterp spec fn url_joined(base: Seq<char>, reference: Seq<char>) -> Result<
    (Seq<char>, Seq<char>, bool),
    Seq<char>,
>;

/// A character that a URL's path holds as it is: the printable ones that need no escape.
pub open spec fn plain_in_path(c: char) -> bool {
    '!' <= c <= '~' && c != '"' && c != '#' && c != '<' && c != '>' && c != '?' && c != '`' && c
        != '{' && c != '}'
}

/// The most bytes that a character takes in a URL's path: up to four bytes, each of them escaped
/// by three.
pub open spec fn char_cost(c: char) -> nat {
    if plain_in_path(c) {
        1
    } else {
        12
    }
}

/// The most bytes that a text takes as a URL's path, but for what is put before it.
pub open spec fn path_cost(path: Seq<char>) -> nat
    decreases path.len(),
{
    if path.len() == 0 {
        0
    } else {
        path_cost(path.drop_last()) + char_cost(path.last())
    }
}

/// A URL of `whole` characters, `old` of them its path, stays below four gigabytes with another
/// path, whatever slashes are put before that.
pub open spec fn stays_small(whole: nat, old: nat, path: Seq<char>) -> bool {
    old <= whole <= u32::MAX && whole - old + path_cost(path) + 16 <= u32::MAX
}

/// The URL of a text stays below four gigabytes with another path.
pub open spec fn takes_path(text: Seq<char>, path: Seq<char>) -> bool {
    url_read(text) matches Ok((whole, old, _)) ==> stays_small(whole.len(), old.len(), path)
}

proof fn prefixes_cost_less(path: Seq<char>, n: int)
    requires
        0 <= n <= path.len(),
    ensures
        path_cost(path.take(n)) <= path_cost(path),
    decreases path.len(),
{
    if n < path.len() {
        prefixes_cost_less(path.drop_last(), n);
        assert(path.drop_last().take(n) =~= path.take(n));
    } else {
        assert(path.take(n) =~= path);
    }
}

/// Whether a URL stays below four gigabytes with another path.
pub fn is_small_with(whole: usize, old: usize, path: &Vec<char>) -> (out: bool)
    ensures
        out == stays_small(whole as nat, old as nat, path@),
{
    if old > whole || whole as u64 > 0xffff_ffff {
        return false;
    }
    let mut size: u64 = (whole - old) as u64 + 16;
    let mut index: usize = 0;
    while index < path.len()
        invariant
            index <= path@.len(),
            old <= whole <= u32::MAX,
            size == whole - old + 16 + path_cost(path@.take(index as int)),
            size <= u32::MAX + 16,
        decreases path@.len() - index,
    {
        let c = path[index];
        let plain = '!' <= c && c <= '~' && c != '"' && c != '#' && c != '<' && c != '>' && c != '?'
            && c != '`' && c != '{' && c != '}';
        let ghost next = path@.take(index + 1);
        proof {
            assert(next.drop_last() =~= path@.take(index as int));
            assert(next.last() == c);
            prefixes_cost_less(path@, index + 1);
        }
        size = size + if plain {
            1
        } else {
            12
        };
        if size > 0xffff_ffff {
            return false;
        }
        index = index + 1;
    }
    assert(path@.take(index as int) =~= path@);
    size <= 0xffff_ffff
}

/// A text begins and ends with a slash.
pub open spec fn slashed(path: Seq<char>) -> bool {
    path.len() > 0 && path[0] == '/' && path.last() == '/'
}

/// A path that is set fails only where its URL cannot be read, and one between slashes leaves the
/// URL's path ending in a slash.
pub open spec fn sets_path(
    text: Seq<char>,
    path: Seq<char>,
    out: Result<(Seq<char>, Seq<char>, bool), Seq<char>>,
) -> bool {
    match url_read(text) {
        Err(error) => out == Err::<(Seq<char>, Seq<char>, bool), Seq<char>>(error),
        Ok((_, _, opaque)) => out is Ok && (!opaque && slashed(path) ==> out->Ok_0.1.len() > 0
            && out->Ok_0.1.last() == '/'),
    }
}

/// `url::Url::parse`: the URL's text and path, and whether it cannot be a base. The result is
/// named; nothing is said of which texts are URLs.
#[verifier::external_body]
fn parse(text: &str) -> (out: Result<(String, String, bool), String>)
    ensures
        url_outcome(out) == url_read(text@),
{
    match url::Url::parse(text) {
        Ok(url) => Ok((url.as_str().to_string(), url.path().to_string(), url.cannot_be_a_base())),
        Err(error) => Err(error.to_string()),
    }
}

/// `url::Url::set_path` on the URL that `url::Url::parse` reads. It fails where the text is no
/// URL, and only there; a path that begins and ends with a slash leaves one at the end, unless
/// the URL cannot be a base. The call panics from four gigabytes on, which is left out: outside its
/// path the URL keeps its length, and a URL is ASCII.
#[verifier::external_body]
fn set_path(text: &str, path: &str) -> (out: Result<(String, String, bool), String>)
    requires
        takes_path(text@, path@),
    ensures
        url_outcome(out) == url_with_path(text@, path@),
        sets_path(text@, path@, url_outcome(out)),
{
    match url::Url::parse(text) {
        Ok(mut url) => {
            url.set_path(path);
            Ok((url.as_str().to_string(), url.path().to_string(), url.cannot_be_a_base()))
        },
        Err(error) => Err(error.to_string()),
    }
}

/// `url::Url::join` on the URL that `url::Url::parse` reads. The result is named; nothing is said
/// of how the reference is resolved.
#[verifier::external_body]
fn join(base: &str, reference: &str) -> (out: Result<(String, String, bool), String>)
    ensures
        url_outcome(out) == url_joined(base@, reference@),
{
    match url::Url::parse(base).and_then(|url| url.join(reference)) {
        Ok(url) => Ok((url.as_str().to_string(), url.path().to_string(), url.cannot_be_a_base())),
        Err(error) => Err(error.to_string()),
    }
}

impl Location {
    /// What the URL holds.
    pub open spec fn parts(self) -> (Seq<char>, Seq<char>, bool) {
        (self.text@, self.path@, self.opaque)
    }

    /// What a result holds.
    pub open spec fn model(out: Result<Location, String>) -> Result<
        (Seq<char>, Seq<char>, bool),
        Seq<char>,
    > {
        match out {
            Ok(location) => Ok(location.parts()),
            Err(error) => Err(error@),
        }
    }

    fn gathered(out: Result<(String, String, bool), String>) -> (result: Result<Location, String>)
        ensures
            Location::model(result) == url_outcome(out),
    {
        match out {
            Ok((text, path, opaque)) => Ok(Location { text, path, opaque }),
            Err(error) => Err(error),
        }
    }

    /// Read a URL.
    pub fn parse(text: &str) -> (out: Result<Location, String>)
        ensures
            Location::model(out) == url_read(text@),
    {
        Location::gathered(self::parse(text))
    }

    /// The URL of a text with another path.
    pub(crate) fn parse_with_path(text: &str, path: &str) -> (out: Result<Location, String>)
        requires
            takes_path(text@, path@),
        ensures
            Location::model(out) == url_with_path(text@, path@),
            sets_path(text@, path@, Location::model(out)),
    {
        Location::gathered(set_path(text, path))
    }

    /// Resolve a reference against this URL.
    pub fn resolve(&self, reference: &str) -> (out: Result<Location, String>)
        ensures
            Location::model(out) == url_joined(self.text@, reference@),
    {
        Location::gathered(join(self.text.as_str(), reference))
    }
}

} // verus!
