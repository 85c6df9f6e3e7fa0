//! Session state of the statistics rewrites: the rules of each function, and a cache of what they
//! proved.

use vstd::prelude::*;

use crate::text::same_text;

verus! {

/// How many rewrites are cached before the cache is reset.
///
/// Keys are identities, so a long-lived session that binds many predicates would otherwise grow
/// without bound. The cache is only an accelerator: a miss recomputes the rewrite.
pub const REWRITE_CACHE_CAPACITY: usize = 4096;

/// The kind of proof that a rewrite produces.
#[derive(Clone, Copy, PartialEq, Eq, Structural, Debug, Hash)]
pub enum StatsRewriteKind {
    /// The predicate is false for every row in scope.
    Falsify,
    /// The predicate is true for every row in scope.
    Satisfy,
}

/// The rules of one function.
struct RuleSet<R> {
    id: String,
    rules: Vec<R>,
}

/// One cached rewrite.
struct CacheEntry<E> {
    kind: StatsRewriteKind,
    expr: u64,
    rewrite: Option<E>,
}

/// Session state of the statistics rewrites. An expression is told by its identity.
pub struct StatsSession<R, E> {
    rules: Vec<RuleSet<R>>,
    cache: Vec<CacheEntry<E>>,
}

/// The place of a function's rules.
spec fn rules_at<R>(rules: Seq<RuleSet<R>>, id: Seq<char>, n: nat) -> Option<int>
    decreases n,
{
    if n == 0 {
        None
    } else if rules[n - 1].id@ == id {
        Some(n - 1)
    } else {
        rules_at(rules, id, (n - 1) as nat)
    }
}

/// The place of a cached rewrite.
spec fn entry_at<E>(cache: Seq<CacheEntry<E>>, kind: StatsRewriteKind, expr: u64, n: nat) -> Option<
    int,
>
    decreases n,
{
    if n == 0 {
        None
    } else if cache[n - 1].kind == kind && cache[n - 1].expr == expr {
        Some(n - 1)
    } else {
        entry_at(cache, kind, expr, (n - 1) as nat)
    }
}

impl<R, E> StatsSession<R, E> {
    /// The rules registered for a function, in the order of registration.
    pub closed spec fn rules_for(&self, id: Seq<char>) -> Option<Seq<R>> {
        match rules_at(self.rules@, id, self.rules@.len()) {
            Some(i) => Some(self.rules@[i].rules@),
            None => None,
        }
    }

    /// The cached rewrite of an expression; `Some(None)` records that nothing could be proved.
    pub closed spec fn cached(&self, kind: StatsRewriteKind, expr: u64) -> Option<Option<E>> {
        match entry_at(self.cache@, kind, expr, self.cache@.len()) {
            Some(i) => Some(self.cache@[i].rewrite),
            None => None,
        }
    }

    /// The number of cached rewrites.
    pub closed spec fn cached_count(&self) -> nat {
        self.cache@.len()
    }

    /// The cache holds no more than its capacity. A session begins so, and stays so.
    pub open spec fn bounded(&self) -> bool {
        self.cached_count() <= REWRITE_CACHE_CAPACITY
    }

    /// A session without rules.
    pub fn new() -> (out: Self)
        ensures
            out.bounded(),
            forall|id: Seq<char>| #[trigger] out.rules_for(id) is None,
            forall|kind: StatsRewriteKind, expr: u64| #[trigger] out.cached(kind, expr) is None,
            out.cached_count() == 0,
    {
        StatsSession { rules: Vec::new(), cache: Vec::new() }
    }

    fn find_rules(&self, id: &str) -> (out: Option<usize>)
        ensures
            match out {
                Some(i) => rules_at(self.rules@, id@, self.rules@.len()) == Some(i as int) && i
                    < self.rules@.len() && self.rules@[i as int].id@ == id@,
                None => rules_at(self.rules@, id@, self.rules@.len()) is None,
            },
    {
        let mut n: usize = self.rules.len();
        while n > 0
            invariant
                n <= self.rules@.len(),
                rules_at(self.rules@, id@, self.rules@.len()) == rules_at(
                    self.rules@,
                    id@,
                    n as nat,
                ),
            decreases n,
        {
            if same_text(self.rules[n - 1].id.as_str(), id) {
                return Some(n - 1);
            }
            n = n - 1;
        }
        None
    }

    fn find_entry(&self, kind: StatsRewriteKind, expr: u64) -> (out: Option<usize>)
        ensures
            match out {
                Some(i) => entry_at(self.cache@, kind, expr, self.cache@.len()) == Some(i as int)
                    && i < self.cache@.len(),
                None => entry_at(self.cache@, kind, expr, self.cache@.len()) is None,
            },
    {
        let mut n: usize = self.cache.len();
        while n > 0
            invariant
                n <= self.cache@.len(),
                entry_at(self.cache@, kind, expr, self.cache@.len()) == entry_at(
                    self.cache@,
                    kind,
                    expr,
                    n as nat,
                ),
            decreases n,
        {
            if self.cache[n - 1].kind == kind && self.cache[n - 1].expr == expr {
                return Some(n - 1);
            }
            n = n - 1;
        }
        None
    }

    /// Register a rewrite rule of a function, after those it has.
    ///
    /// This invalidates every cached rewrite, since a new rule can strengthen the proof of
    /// expressions that were already lowered.
    pub fn register_rewrite(&mut self, id: &str, rule: R)
        ensures
            forall|other: Seq<char>| #[trigger]
                final(self).rules_for(other) == (if other == id@ {
                    Some(
                        (match old(self).rules_for(id@) {
                            Some(rules) => rules,
                            None => Seq::empty(),
                        }).push(rule),
                    )
                } else {
                    old(self).rules_for(other)
                }),
            forall|kind: StatsRewriteKind, expr: u64| #[trigger]
                final(self).cached(kind, expr) is None,
            final(self).cached_count() == 0,
            final(self).bounded(),
    {
        let ghost before = self.rules@;
        match self.find_rules(id) {
            Some(i) => {
                let mut set = self.rules.remove(i);
                let ghost had = set.rules@;
                set.rules.push(rule);
                self.rules.insert(i, set);
                proof {
                    assert(self.rules@ =~= before.update(i as int, set));
                    assert forall|other: Seq<char>| #[trigger] rules_at(
                        self.rules@,
                        other,
                        self.rules@.len(),
                    ) == rules_at(before, other, before.len()) by {
                        same_places(self.rules@, before, other, before.len());
                    }
                    assert forall|other: Seq<char>| other != id@ implies rules_at(
                        before,
                        other,
                        before.len(),
                    ) != Some(i as int) by {
                        rules_at_holds(before, other, before.len());
                    }
                    assert forall|other: Seq<char>| rules_at(
                        before,
                        other,
                        before.len(),
                    ) is Some implies 0 <= #[trigger] rules_at(before, other, before.len())->Some_0
                        < before.len() by {
                        rules_at_holds(before, other, before.len());
                    }
                }
            },
            None => {
                let mut rules: Vec<R> = Vec::new();
                rules.push(rule);
                let set = RuleSet { id: String::from_str(id), rules };
                self.rules.push(set);
                proof {
                    assert(rules@ =~= Seq::<R>::empty().push(rule));
                    assert forall|other: Seq<char>| other != id@ implies #[trigger] rules_at(
                        self.rules@,
                        other,
                        self.rules@.len(),
                    ) == rules_at(before, other, before.len()) by {
                        same_places(self.rules@, before, other, before.len());
                    }
                    assert forall|other: Seq<char>| rules_at(
                        before,
                        other,
                        before.len(),
                    ) is Some implies 0 <= #[trigger] rules_at(before, other, before.len())->Some_0
                        < before.len() by {
                        rules_at_holds(before, other, before.len());
                    }
                }
            },
        }
        self.cache = Vec::new();
    }

    /// The cached rewrite of an expression, if there is one.
    pub fn cached_rewrite(&self, kind: StatsRewriteKind, expr: u64) -> (out: Option<&Option<E>>)
        ensures
            match out {
                Some(rewrite) => self.cached(kind, expr) == Some(*rewrite),
                None => self.cached(kind, expr) is None,
            },
    {
        match self.find_entry(kind, expr) {
            Some(i) => Some(&self.cache[i].rewrite),
            None => None,
        }
    }

    /// Cache the rewrite of an expression and return the entry that the session now shares.
    ///
    /// A full cache is reset first. If the expression was cached before, that result wins, so that
    /// every caller sees one proof.
    pub fn cache_rewrite(&mut self, kind: StatsRewriteKind, expr: u64, rewrite: Option<E>) -> (out:
        &Option<E>)
        ensures
            final(self).cached(kind, expr) == Some(*out),
            old(self).bounded() ==> final(self).bounded(),
            ({
                let full = old(self).cached_count() >= REWRITE_CACHE_CAPACITY;
                let earlier = if full {
                    None
                } else {
                    old(self).cached(kind, expr)
                };
                &&& final(self).cached(kind, expr) == Some(
                    match earlier {
                        Some(shared) => shared,
                        None => rewrite,
                    },
                )
                &&& forall|k: StatsRewriteKind, e: u64|
                    (k != kind || e != expr) ==> #[trigger] final(self).cached(k, e) == (if full {
                        None
                    } else {
                        old(self).cached(k, e)
                    })
                &&& final(self).cached_count() == (if full {
                    1nat
                } else if earlier is Some {
                    old(self).cached_count()
                } else {
                    old(self).cached_count() + 1
                })
            }),
            forall|id: Seq<char>| #[trigger] final(self).rules_for(id) == old(self).rules_for(id),
    {
        if self.cache.len() >= REWRITE_CACHE_CAPACITY {
            self.cache = Vec::new();
        }
        if let Some(i) = self.find_entry(kind, expr) {
            return &self.cache[i].rewrite;
        }
        let ghost before = self.cache@;
        let last: usize = self.cache.len();
        self.cache.push(CacheEntry { kind, expr, rewrite });
        proof {
            assert forall|k: StatsRewriteKind, e: u64| k != kind || e != expr implies #[trigger] entry_at(
                self.cache@,
                k,
                e,
                self.cache@.len(),
            ) == entry_at(before, k, e, before.len()) by {
                same_entries(self.cache@, before, k, e, before.len());
            }
            assert forall|k: StatsRewriteKind, e: u64|
                entry_at(before, k, e, before.len()) is Some implies 0 <= #[trigger] entry_at(
                before,
                k,
                e,
                before.len(),
            )->Some_0 < before.len() by {
                entry_at_holds(before, k, e, before.len());
            }
        }
        &self.cache[last].rewrite
    }

    /// The rules registered for a function.
    pub fn rewrite_rules_for(&self, id: &str) -> (out: Option<&Vec<R>>)
        ensures
            match out {
                Some(rules) => self.rules_for(id@) == Some(rules@),
                None => self.rules_for(id@) is None,
            },
    {
        match self.find_rules(id) {
            Some(i) => Some(&self.rules[i].rules),
            None => None,
        }
    }
}

proof fn same_places<R>(a: Seq<RuleSet<R>>, b: Seq<RuleSet<R>>, id: Seq<char>, n: nat)
    requires
        n <= a.len(),
        n <= b.len(),
        forall|i: int| 0 <= i < n ==> (#[trigger] a[i]).id@ == b[i].id@,
    ensures
        rules_at(a, id, n) == rules_at(b, id, n),
    decreases n,
{
    if n > 0 {
        same_places(a, b, id, (n - 1) as nat);
        assert(a[n - 1].id@ == b[n - 1].id@);
    }
}

proof fn rules_at_holds<R>(rules: Seq<RuleSet<R>>, id: Seq<char>, n: nat)
    requires
        n <= rules.len(),
    ensures
        rules_at(rules, id, n) matches Some(i) ==> 0 <= i < n && rules[i].id@ == id,
    decreases n,
{
    if n > 0 {
        rules_at_holds(rules, id, (n - 1) as nat);
    }
}

proof fn same_entries<E>(
    a: Seq<CacheEntry<E>>,
    b: Seq<CacheEntry<E>>,
    kind: StatsRewriteKind,
    expr: u64,
    n: nat,
)
    requires
        n <= a.len(),
        n <= b.len(),
        forall|i: int| 0 <= i < n ==> #[trigger] a[i] == b[i],
    ensures
        entry_at(a, kind, expr, n) == entry_at(b, kind, expr, n),
    decreases n,
{
    if n > 0 {
        same_entries(a, b, kind, expr, (n - 1) as nat);
        assert(a[n - 1] == b[n - 1]);
    }
}

proof fn entry_at_holds<E>(cache: Seq<CacheEntry<E>>, kind: StatsRewriteKind, expr: u64, n: nat)
    requires
        n <= cache.len(),
    ensures
        entry_at(cache, kind, expr, n) matches Some(i) ==> 0 <= i < n,
    decreases n,
{
    if n > 0 {
        entry_at_holds(cache, kind, expr, (n - 1) as nat);
    }
}

} // verus!
