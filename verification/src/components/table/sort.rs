use vstd::prelude::*;

verus! {

/// The order of texts: character by character, by code point; a text comes
/// before every text that it is a proper start of.
pub open spec fn text_le(a: Seq<char>, b: Seq<char>) -> bool
    decreases a.len(),
{
    if a.len() == 0 {
        true
    } else if b.len() == 0 {
        false
    } else if a[0] != b[0] {
        a[0] < b[0]
    } else {
        text_le(a.skip(1), b.skip(1))
    }
}

/// Compares two texts with the order that the standard library gives to
/// `str`: lexicographic by bytes, which for UTF-8 is the order of the code
/// points.
#[verifier::external_body]
pub(crate) fn str_le(a: &str, b: &str) -> (le: bool)
    ensures
        le == text_le(a@, b@),
{
    a <= b
}

/// Of two texts one comes before the other, or both ways when they are equal.
pub proof fn lemma_text_le_total(a: Seq<char>, b: Seq<char>)
    ensures
        text_le(a, b) || text_le(b, a),
    decreases a.len(),
{
    if a.len() > 0 && b.len() > 0 {
        if a[0] == b[0] {
            lemma_text_le_total(a.skip(1), b.skip(1));
        }
    }
}

/// The order of texts is transitive.
pub proof fn lemma_text_le_transitive(a: Seq<char>, b: Seq<char>, c: Seq<char>)
    requires
        text_le(a, b),
        text_le(b, c),
    ensures
        text_le(a, c),
    decreases a.len(),
{
    if a.len() > 0 && b.len() > 0 && c.len() > 0 {
        if a[0] == b[0] && b[0] == c[0] {
            lemma_text_le_transitive(a.skip(1), b.skip(1), c.skip(1));
        }
    }
}

/// How the rows of a table are ordered.
pub trait ItemOrder<T> {
    /// `a` may stand before `b`.
    spec fn in_order(a: &T, b: &T) -> bool;

    /// Any two items can be put in order.
    proof fn lemma_total(a: &T, b: &T)
        ensures
            Self::in_order(a, b) || Self::in_order(b, a),
    ;

    /// The order is transitive.
    proof fn lemma_transitive(a: &T, b: &T, c: &T)
        requires
            Self::in_order(a, b),
            Self::in_order(b, c),
        ensures
            Self::in_order(a, c),
    ;

    /// Whether `a` may stand before `b`.
    fn precedes(a: &T, b: &T) -> (r: bool)
        ensures
            r == Self::in_order(a, b),
    ;

}

/// How the rows of a table are put in order.
pub trait SortItems<T>: ItemOrder<T> {
    /// Puts the items in order.
    fn sort(items: &mut Vec<T>)
        ensures
            forall|i: int, j: int|
                0 <= i < j < final(items)@.len() ==> Self::in_order(
                    &final(items)@[i],
                    &final(items)@[j],
                ),
            final(items)@.to_multiset() == old(items)@.to_multiset(),
    ;
}

/// Every item may stand before all that follow it.
pub open spec fn is_sorted<T, S: ItemOrder<T> + ?Sized>(items: Seq<T>) -> bool {
    forall|i: int, j: int| 0 <= i < j < items.len() ==> S::in_order(&items[i], &items[j])
}

/// Sorts by insertion: each item in turn is taken out and put back behind the
/// last item of the sorted front that may stand before it. The result holds
/// the same items and is in order.
pub fn insertion_sort<T, S: ItemOrder<T> + ?Sized>(items: &mut Vec<T>)
    ensures
        is_sorted::<T, S>(final(items)@),
        final(items)@.to_multiset() == old(items)@.to_multiset(),
{
    let mut i: usize = 0;
    while i < items.len()
        invariant
            i <= items@.len(),
            items@.len() == old(items)@.len(),
            items@.to_multiset() == old(items)@.to_multiset(),
            is_sorted::<T, S>(items@.take(i as int)),
        decreases items@.len() - i,
    {
        let ghost before = items@;
        let x = items.remove(i);
        proof {
            vstd::seq_lib::to_multiset_remove(before, i as int);
        }
        let ghost without = items@;
        let mut j: usize = i;
        let mut searching: bool = j > 0;
        while searching
            invariant
                j <= i <= items@.len(),
                items@ == without,
                searching ==> j > 0,
                !searching ==> j == 0 || S::in_order(&items@[j - 1], &x),
                forall|k: int| j <= k < i ==> !S::in_order(&#[trigger] items@[k], &x),
            decreases j + if searching { 1int } else { 0int },
        {
            if S::precedes(&items[j - 1], &x) {
                searching = false;
            } else {
                j -= 1;
                searching = j > 0;
            }
        }
        items.insert(j, x);
        proof {
            vstd::seq_lib::to_multiset_insert(without, j as int, x);
            assert(before.to_multiset() =~= items@.to_multiset()) by {
                broadcast use vstd::multiset::group_multiset_axioms;

                before.to_multiset_ensures();
                assert(before.to_multiset().count(x) > 0);
                assert(before.to_multiset() =~= without.to_multiset().insert(x));
            }
            let front = items@.take(i + 1);
            let old_front = before.take(i as int);
            assert forall|a: int, b: int| 0 <= a < b < front.len() implies S::in_order(
                &front[a],
                &front[b],
            ) by {
                if b < j {
                    assert(front[a] == old_front[a] && front[b] == old_front[b]);
                } else if b == j {
                    assert(front[b] == x);
                    assert(front[a] == old_front[a]);
                    assert(front[j - 1] == without[j - 1]);
                    if a < j - 1 {
                        assert(S::in_order(&old_front[a], &old_front[j - 1]));
                        assert(old_front[j - 1] == without[j - 1]);
                        S::lemma_transitive(&front[a], &without[j - 1], &x);
                    }
                } else if a < j {
                    assert(front[a] == old_front[a] && front[b] == old_front[b - 1]);
                } else if a == j {
                    assert(front[a] == x);
                    assert(front[b] == without[b - 1]);
                    S::lemma_total(&without[b - 1], &x);
                } else {
                    assert(front[a] == old_front[a - 1] && front[b] == old_front[b - 1]);
                }
            }
        }
        i += 1;
    }
    assert(items@.take(items@.len() as int) =~= items@);
}

} // verus!
