//! A stable insertion sort by a text key, used by the emitters to order
//! the emitted types alphabetically by their `Pascal` identifiers. The
//! result is pinned exactly — not merely "some sorted permutation" — so
//! emission over an unchanged model is deterministic.

use vstd::prelude::*;

verus! {

use crate::views::seq_view;
use vstd::string::StrSliceExecFns;

/// Lexicographic order on character sequences, by character value.
pub open spec fn chars_le(a: Seq<char>, b: Seq<char>) -> bool
    decreases a.len(),
{
    if a.len() == 0 {
        true
    } else if b.len() == 0 {
        false
    } else if (a[0] as u32) < (b[0] as u32) {
        true
    } else if (a[0] as u32) > (b[0] as u32) {
        false
    } else {
        chars_le(a.drop_first(), b.drop_first())
    }
}

/// Compares two string slices in the order of [`chars_le`].
pub fn str_le(a: &str, b: &str) -> (r: bool)
    ensures
        r == chars_le(a@, b@),
{
    let na = a.unicode_len();
    let nb = b.unicode_len();
    let mut i: usize = 0;
    proof {
        assert(a@.skip(0) =~= a@);
        assert(b@.skip(0) =~= b@);
    }
    while i < na && i < nb
        invariant
            0 <= i <= na,
            0 <= i <= nb,
            na == a@.len(),
            nb == b@.len(),
            chars_le(a@, b@) == chars_le(a@.skip(i as int), b@.skip(i as int)),
        decreases na - i,
    {
        proof {
            assert(a@.skip(i as int)[0] == a@[i as int]);
            assert(b@.skip(i as int)[0] == b@[i as int]);
            assert(a@.skip(i as int).drop_first() =~= a@.skip(i as int + 1));
            assert(b@.skip(i as int).drop_first() =~= b@.skip(i as int + 1));
        }
        let ca = a.get_char(i);
        let cb = b.get_char(i);
        if (ca as u32) < (cb as u32) {
            return true;
        }
        if (ca as u32) > (cb as u32) {
            return false;
        }
        i = i + 1;
    }
    proof {
        if i >= na {
            assert(a@.skip(i as int) =~= Seq::<char>::empty());
        } else {
            assert(b@.skip(i as int) =~= Seq::<char>::empty());
            assert(a@.skip(i as int).len() > 0);
        }
    }
    i >= na
}

/// The sort key of an item: a text its order goes by, plus the executable
/// accessor that reads it.
pub trait SortKey: Sized {
    /// The key text.
    spec fn key_spec(&self) -> Seq<char>;

    /// Reads the key text.
    fn key(&self) -> (r: &str)
        ensures
            r@ == self.key_spec(),
    ;
}

/// `x` placed into the sorted list `s`, after every element whose key is
/// less than or equal to its own — the stable position.
pub open spec fn insert_by<T>(s: Seq<T>, x: T, key: spec_fn(T) -> Seq<char>) -> Seq<T>
    decreases s.len(),
{
    if s.len() == 0 {
        seq![x]
    } else if chars_le(key(s.last()), key(x)) {
        s.push(x)
    } else {
        insert_by(s.drop_last(), x, key).push(s.last())
    }
}

/// The stable insertion sort of `s` by `key`.
pub open spec fn sort_by<T>(s: Seq<T>, key: spec_fn(T) -> Seq<char>) -> Seq<T>
    decreases s.len(),
{
    if s.len() == 0 {
        Seq::empty()
    } else {
        insert_by(sort_by(s.drop_last(), key), s.last(), key)
    }
}

/// The trait key as a spec-level function value.
pub open spec fn trait_key<T: SortKey>() -> spec_fn(T) -> Seq<char> {
    |t: T| t.key_spec()
}

/// The stable insertion sort by the trait key.
pub open spec fn sort_by_key<T: SortKey>(s: Seq<T>) -> Seq<T> {
    sort_by(s, trait_key::<T>())
}

proof fn lemma_insert_at<T: SortKey>(s: Seq<T>, x: T, j: int)
    requires
        0 <= j <= s.len(),
        forall|k: int| j <= k < s.len() ==> !chars_le((#[trigger] s[k]).key_spec(), x.key_spec()),
        j > 0 ==> chars_le(s[j - 1].key_spec(), x.key_spec()),
    ensures
        insert_by(s, x, trait_key::<T>()) == s.insert(j, x),
    decreases s.len(),
{
    let key = trait_key::<T>();
    if s.len() == 0 {
        assert(insert_by(s, x, key) =~= s.insert(0, x));
    } else if chars_le(key(s.last()), key(x)) {
        assert(j == s.len());
        assert(s.push(x) =~= s.insert(j, x));
    } else {
        lemma_insert_at(s.drop_last(), x, j);
        assert(insert_by(s.drop_last(), x, key).push(s.last()) =~= s.insert(j, x));
    }
}

/// Inserts `x` into the sorted vector `v` at its stable position.
fn insert_sorted<T: SortKey>(v: &mut Vec<T>, x: T)
    ensures
        final(v)@ == insert_by(old(v)@, x, trait_key::<T>()),
{
    let mut j: usize = v.len();
    while j > 0 && !str_le(v[j - 1].key(), x.key())
        invariant
            0 <= j <= v.len(),
            v@ == old(v)@,
            forall|k: int|
                j <= k < v@.len() ==> !chars_le((#[trigger] v@[k]).key_spec(), x.key_spec()),
        decreases j,
    {
        j = j - 1;
    }
    proof {
        lemma_insert_at(v@, x, j as int);
    }
    v.insert(j, x);
}

/// Sorts a vector by key with a stable insertion sort; the result is
/// exactly [`sort_by_key`] of the input.
#[verifier::loop_isolation(false)]
pub fn sort_vec<T: SortKey>(v: Vec<T>) -> (r: Vec<T>)
    ensures
        r@ == sort_by_key(v@),
{
    let ghost orig = v@;
    let mut rest = v;
    let mut out: Vec<T> = Vec::new();
    proof {
        assert(orig.subrange(0, 0) =~= Seq::<T>::empty());
        assert(orig.skip(0) =~= orig);
    }
    while rest.len() > 0
        invariant
            rest@.len() <= orig.len(),
            rest@ == orig.skip(orig.len() - rest@.len()),
            out@ == sort_by_key(orig.subrange(0, orig.len() - rest@.len())),
        decreases rest@.len(),
    {
        let ghost k = orig.len() - rest@.len();
        let x = rest.remove(0);
        proof {
            assert(x == orig[k]);
            assert(rest@ =~= orig.skip(k + 1));
            assert(orig.subrange(0, k + 1).drop_last() =~= orig.subrange(0, k));
            assert(orig.subrange(0, k + 1).last() == orig[k]);
        }
        insert_sorted(&mut out, x);
    }
    proof {
        assert(orig.subrange(0, orig.len() as int) =~= orig);
    }
    out
}

/// Inserting by key neither adds nor loses values: the result holds
/// exactly the old values and the new one.
pub proof fn lemma_insert_contains<T>(s: Seq<T>, x: T, key: spec_fn(T) -> Seq<char>)
    ensures
        forall|y: T| #[trigger] insert_by(s, x, key).contains(y) <==> s.contains(y) || y == x,
    decreases s.len(),
{
    broadcast use vstd::seq_lib::group_seq_properties;

    if s.len() == 0 {
        assert(insert_by(s, x, key) =~= Seq::empty().push(x));
        assert(forall|y: T| !s.contains(y));
        assert(forall|y: T|
            #[trigger] Seq::<T>::empty().push(x).contains(y) <==> x == y || Seq::<T>::empty()
                .contains(y));
    } else if chars_le(key(s.last()), key(x)) {
        assert(insert_by(s, x, key) == s.push(x));
        assert(forall|y: T| #[trigger] s.push(x).contains(y) <==> x == y || s.contains(y));
    } else {
        lemma_insert_contains(s.drop_last(), x, key);
        let t = insert_by(s.drop_last(), x, key);
        assert(insert_by(s, x, key) == t.push(s.last()));
        assert(forall|y: T|
            #[trigger] t.push(s.last()).contains(y) <==> s.last() == y || t.contains(y));
        assert(forall|y: T|
            #[trigger] s.drop_last().push(s.last()).contains(y) <==> s.last() == y
                || s.drop_last().contains(y));
        assert(s =~= s.drop_last().push(s.last()));
    }
}

/// Sorting by key neither adds nor loses values.
pub proof fn lemma_sort_contains<T>(s: Seq<T>, key: spec_fn(T) -> Seq<char>)
    ensures
        forall|y: T| #[trigger] sort_by(s, key).contains(y) <==> s.contains(y),
    decreases s.len(),
{
    broadcast use vstd::seq_lib::group_seq_properties;

    if s.len() > 0 {
        lemma_sort_contains(s.drop_last(), key);
        lemma_insert_contains(sort_by(s.drop_last(), key), s.last(), key);
        assert(s =~= s.drop_last().push(s.last()));
    }
}

/// Taking views commutes with insertion, provided the key of a value is a
/// function of its view.
pub proof fn lemma_insert_view_commutes<T: View>(
    s: Seq<T>,
    x: T,
    key: spec_fn(T) -> Seq<char>,
    kv: spec_fn(T::V) -> Seq<char>,
)
    requires
        forall|y: T| #[trigger] key(y) == kv(y@),
    ensures
        seq_view(insert_by(s, x, key)) == insert_by(seq_view(s), x@, kv),
    decreases s.len(),
{
    if s.len() == 0 {
        assert(seq_view(insert_by(s, x, key)) =~= insert_by(seq_view(s), x@, kv));
    } else {
        assert(seq_view(s).last() == s.last()@);
        if chars_le(key(s.last()), key(x)) {
            assert(seq_view(s.push(x)) =~= seq_view(s).push(x@));
        } else {
            lemma_insert_view_commutes(s.drop_last(), x, key, kv);
            assert(seq_view(s.drop_last()) =~= seq_view(s).drop_last());
            assert(seq_view(insert_by(s.drop_last(), x, key).push(s.last())) =~= seq_view(
                insert_by(s.drop_last(), x, key),
            ).push(s.last()@));
        }
    }
}

/// Taking views commutes with sorting, provided the key of a value is a
/// function of its view.
pub proof fn lemma_sort_view_commutes<T: View>(
    s: Seq<T>,
    key: spec_fn(T) -> Seq<char>,
    kv: spec_fn(T::V) -> Seq<char>,
)
    requires
        forall|y: T| #[trigger] key(y) == kv(y@),
    ensures
        seq_view(sort_by(s, key)) == sort_by(seq_view(s), kv),
    decreases s.len(),
{
    if s.len() == 0 {
        assert(seq_view(sort_by(s, key)) =~= sort_by(seq_view(s), kv));
    } else {
        lemma_sort_view_commutes(s.drop_last(), key, kv);
        lemma_insert_view_commutes(sort_by(s.drop_last(), key), s.last(), key, kv);
        assert(seq_view(s.drop_last()) =~= seq_view(s).drop_last());
        assert(seq_view(s).last() == s.last()@);
    }
}

} // verus!
