//! Sorting.

use vstd::prelude::*;
use vstd::relations::{sorted_by, total_ordering};

use crate::chars;

verus! {

/// Items that are ordered by what they hold.
pub trait Ordered: Sized {
    /// What an item holds.
    type M;

    /// What the item holds.
    spec fn held(&self) -> Self::M;

    /// `a` comes before `b`, or is the same.
    spec fn precedes(a: Self::M, b: Self::M) -> bool;

    /// The order is total, and no two different items stand at the same place.
    proof fn is_total(a: Self::M, b: Self::M)
        ensures
            Self::precedes(a, b) || Self::precedes(b, a),
            Self::precedes(a, b) && Self::precedes(b, a) ==> a == b,
    ;

    /// The order chains.
    proof fn chains(a: Self::M, b: Self::M, c: Self::M)
        ensures
            Self::precedes(a, b) && Self::precedes(b, c) ==> Self::precedes(a, c),
    ;

    /// Whether `self` comes before `other`, or is the same.
    fn at_most(&self, other: &Self) -> (out: bool)
        ensures
            out == Self::precedes(self.held(), other.held()),
    ;
}

/// The order of items.
pub open spec fn order_of<T: Ordered>() -> spec_fn(T::M, T::M) -> bool {
    |a: T::M, b: T::M| T::precedes(a, b)
}

/// What items hold.
pub open spec fn held_by<T: Ordered>(items: Seq<T>) -> Seq<T::M> {
    Seq::new(items.len(), |i: int| items[i].held())
}

/// What items hold, in order.
pub open spec fn in_order<T: Ordered>(held: Seq<T::M>) -> Seq<T::M> {
    held.sort_by(order_of::<T>())
}

/// The order of items is a total ordering.
proof fn orders<T: Ordered>()
    ensures
        total_ordering(order_of::<T>()),
{
    let leq = order_of::<T>();
    assert forall|a: T::M| #[trigger] leq(a, a) by {
        T::is_total(a, a);
    }
    assert forall|a: T::M, b: T::M| #[trigger] leq(a, b) && #[trigger] leq(b, a) implies a == b by {
        T::is_total(a, b);
    }
    assert forall|a: T::M, b: T::M, c: T::M| #[trigger]
        leq(a, b) && #[trigger] leq(b, c) implies leq(a, c) by {
        T::chains(a, b, c);
    }
    assert forall|a: T::M, b: T::M| #[trigger] leq(a, b) || #[trigger] leq(b, a) by {
        T::is_total(a, b);
    }
}

/// What items hold, in order, is what they hold.
pub proof fn order_is_kept<T: Ordered>(held: Seq<T::M>)
    ensures
        in_order::<T>(held).to_multiset() == held.to_multiset(),
        in_order::<T>(held).len() == held.len(),
        sorted_by(in_order::<T>(held), order_of::<T>()),
        forall|x: T::M| in_order::<T>(held).contains(x) ==> held.contains(x),
{
    orders::<T>();
    held.lemma_sort_by_ensures(order_of::<T>());
    held.to_multiset_ensures();
    in_order::<T>(held).to_multiset_ensures();
}

/// Insert an item in its place.
fn insert_sorted<T: Ordered>(items: &mut Vec<T>, item: T)
    requires
        sorted_by(held_by(old(items)@), order_of::<T>()),
    ensures
        sorted_by(held_by(final(items)@), order_of::<T>()),
        held_by(final(items)@).to_multiset() == held_by(old(items)@).to_multiset().insert(
            item.held(),
        ),
{
    let ghost leq = order_of::<T>();
    let ghost before = held_by(items@);
    let ghost held = item.held();
    let mut place: usize = items.len();
    while place > 0 && !items[place - 1].at_most(&item)
        invariant
            place <= items@.len(),
            before == held_by(items@),
            items@ == old(items)@,
            held == item.held(),
            forall|i: int| place <= i < before.len() ==> !T::precedes(#[trigger] before[i], held),
        decreases place,
    {
        assert(before[place - 1] == items@[place - 1].held());
        place = place - 1;
    }
    if place > 0 {
        assert(before[place - 1] == items@[place - 1].held());
    }
    items.insert(place, item);
    proof {
        let after = held_by(items@);
        assert(after =~= before.insert(place as int, held));
        multiset_of_insert(before, place as int, held);
        assert forall|i: int, j: int| 0 <= i < j < after.len() implies #[trigger] leq(
            after[i],
            after[j],
        ) by {
            let a = if i < place {
                i
            } else {
                i - 1
            };
            let b = if j < place {
                j
            } else {
                j - 1
            };
            if i != place && j != place {
                assert(leq(before[a], before[b]));
            } else if j == place {
                if a < place - 1 {
                    assert(leq(before[a], before[place - 1]));
                }
                T::chains(before[a], before[place - 1], held);
            } else {
                assert(!T::precedes(before[b], held));
                T::is_total(held, before[b]);
            }
        }
    }
}

/// Inserting an item adds it to the items.
proof fn multiset_of_insert<A>(items: Seq<A>, place: int, item: A)
    requires
        0 <= place <= items.len(),
    ensures
        items.insert(place, item).to_multiset() == items.to_multiset().insert(item),
{
    let head = items.take(place);
    let tail = items.skip(place);
    assert(items.insert(place, item) =~= head.push(item) + tail);
    assert(items =~= head + tail);
    vstd::seq_lib::lemma_multiset_commutative(head.push(item), tail);
    vstd::seq_lib::lemma_multiset_commutative(head, tail);
    head.to_multiset_ensures();
    assert(head.push(item).to_multiset() =~= head.to_multiset().insert(item));
    assert(items.insert(place, item).to_multiset() =~= items.to_multiset().insert(item));
}

/// Sort items.
pub fn sort<T: Ordered>(mut items: Vec<T>) -> (out: Vec<T>)
    ensures
        held_by(out@) == in_order::<T>(held_by(items@)),
        out@.len() == items@.len(),
{
    let ghost given = items@;
    let ghost model = held_by(given);
    let ghost leq = order_of::<T>();
    let mut out: Vec<T> = Vec::new();
    let ghost mut count: int = 0;
    proof {
        assert(held_by(out@) =~= model.take(0));
    }
    while items.len() > 0
        invariant
            0 <= count <= given.len(),
            model == held_by(given),
            leq == order_of::<T>(),
            items@ == given.skip(count),
            sorted_by(held_by(out@), leq),
            held_by(out@).to_multiset() == model.take(count).to_multiset(),
        decreases items@.len(),
    {
        let item = items.remove(0);
        let ghost held = item.held();
        insert_sorted(&mut out, item);
        proof {
            assert(held == model[count]);
            assert(items@ =~= given.skip(count + 1));
            assert(model.take(count + 1) =~= model.take(count).push(held));
            model.take(count).to_multiset_ensures();
            count = count + 1;
        }
    }
    proof {
        assert(model.take(given.len() as int) =~= model);
        orders::<T>();
        model.lemma_sort_by_ensures(leq);
        vstd::seq_lib::lemma_sorted_unique(held_by(out@), model.sort_by(leq), leq);
        held_by(out@).to_multiset_ensures();
        model.to_multiset_ensures();
    }
    out
}

/// The order of texts by their characters, from character `from` on.
pub open spec fn text_le(a: Seq<char>, b: Seq<char>, from: nat) -> bool
    decreases a.len() - from,
{
    if from >= a.len() {
        true
    } else if from >= b.len() {
        false
    } else if a[from as int] != b[from as int] {
        a[from as int] < b[from as int]
    } else {
        text_le(a, b, from + 1)
    }
}

/// Texts are totally ordered.
pub proof fn texts_are_total(a: Seq<char>, b: Seq<char>, from: nat)
    ensures
        text_le(a, b, from) || text_le(b, a, from),
        from <= a.len() && from <= b.len() && text_le(a, b, from) && text_le(b, a, from) ==> a.skip(
            from as int,
        ) == b.skip(from as int),
    decreases a.len() - from,
{
    if from < a.len() && from < b.len() && a[from as int] == b[from as int] {
        texts_are_total(a, b, from + 1);
        if text_le(a, b, from) && text_le(b, a, from) {
            assert(a.skip(from as int) =~= seq![a[from as int]] + a.skip(from as int + 1));
            assert(b.skip(from as int) =~= seq![b[from as int]] + b.skip(from as int + 1));
        }
    } else if from <= a.len() && from <= b.len() && from >= a.len() && from >= b.len() {
        assert(a.skip(from as int) =~= b.skip(from as int));
    }
}

/// The order of texts chains.
pub proof fn texts_chain(a: Seq<char>, b: Seq<char>, c: Seq<char>, from: nat)
    requires
        text_le(a, b, from),
        text_le(b, c, from),
    ensures
        text_le(a, c, from),
    decreases a.len() - from,
{
    if from < a.len() && from < b.len() && from < c.len() && a[from as int] == b[from as int]
        && b[from as int] == c[from as int] {
        texts_chain(a, b, c, from + 1);
    }
}

/// Whether one text comes before another, or is the same.
pub fn text_at_most(a: &str, b: &str) -> (out: bool)
    ensures
        out == text_le(a@, b@, 0),
{
    let x = chars::chars_of(a);
    let y = chars::chars_of(b);
    let mut index: usize = 0;
    while index < x.len()
        invariant
            index <= x@.len(),
            x@ == a@,
            y@ == b@,
            text_le(a@, b@, 0) == text_le(a@, b@, index as nat),
        decreases x@.len() - index,
    {
        if index >= y.len() {
            return false;
        }
        if x[index] != y[index] {
            return x[index] < y[index];
        }
        index = index + 1;
    }
    true
}

impl Ordered for String {
    type M = Seq<char>;

    open spec fn held(&self) -> Seq<char> {
        self@
    }

    open spec fn precedes(a: Seq<char>, b: Seq<char>) -> bool {
        text_le(a, b, 0)
    }

    proof fn is_total(a: Seq<char>, b: Seq<char>) {
        texts_are_total(a, b, 0);
        assert(Self::precedes(a, b) == text_le(a, b, 0));
        assert(Self::precedes(b, a) == text_le(b, a, 0));
        assert(a.skip(0) =~= a);
        assert(b.skip(0) =~= b);
    }

    proof fn chains(a: Seq<char>, b: Seq<char>, c: Seq<char>) {
        if Self::precedes(a, b) && Self::precedes(b, c) {
            texts_chain(a, b, c, 0);
        }
    }

    fn at_most(&self, other: &Self) -> (out: bool) {
        text_at_most(self.as_str(), other.as_str())
    }
}

} // verus!
