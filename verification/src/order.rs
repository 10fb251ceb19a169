//! Total orders, lexicographic order on sequences, and a stable sort.
use vstd::prelude::*;

verus! {

/// `le` is a total order whose only equivalent elements are equal ones.
pub open spec fn total_order<A>(le: spec_fn(A, A) -> bool) -> bool {
    &&& forall|a: A| #[trigger] le(a, a)
    &&& forall|a: A, b: A| le(a, b) || #[trigger] le(b, a)
    &&& forall|a: A, b: A| le(a, b) && #[trigger] le(b, a) ==> a == b
    &&& forall|a: A, b: A, c: A| #[trigger] le(a, b) && #[trigger] le(b, c) ==> le(a, c)
}

/// The order of a dictionary: the first place where two sequences differ
/// decides, and a proper prefix comes first.
pub open spec fn lex_le<A>(le: spec_fn(A, A) -> bool, a: Seq<A>, b: Seq<A>) -> bool
    decreases a.len(),
{
    if a.len() == 0 {
        true
    } else if b.len() == 0 {
        false
    } else if a[0] == b[0] {
        lex_le(le, a.drop_first(), b.drop_first())
    } else {
        le(a[0], b[0])
    }
}

pub proof fn lemma_lex_reflexive<A>(le: spec_fn(A, A) -> bool, a: Seq<A>)
    ensures
        lex_le(le, a, a),
    decreases a.len(),
{
    if a.len() > 0 {
        lemma_lex_reflexive(le, a.drop_first());
    }
}

pub proof fn lemma_lex_total<A>(le: spec_fn(A, A) -> bool, a: Seq<A>, b: Seq<A>)
    requires
        total_order(le),
    ensures
        lex_le(le, a, b) || lex_le(le, b, a),
    decreases a.len(),
{
    if a.len() > 0 && b.len() > 0 {
        if a[0] == b[0] {
            lemma_lex_total(le, a.drop_first(), b.drop_first());
        } else {
            assert(le(a[0], b[0]) || le(b[0], a[0]));
        }
    }
}

pub proof fn lemma_lex_antisymmetric<A>(le: spec_fn(A, A) -> bool, a: Seq<A>, b: Seq<A>)
    requires
        total_order(le),
        lex_le(le, a, b),
        lex_le(le, b, a),
    ensures
        a == b,
    decreases a.len(),
{
    if a.len() > 0 && b.len() > 0 {
        if a[0] == b[0] {
            lemma_lex_antisymmetric(le, a.drop_first(), b.drop_first());
            assert(a =~= seq![a[0]] + a.drop_first());
            assert(b =~= seq![b[0]] + b.drop_first());
        } else {
            assert(le(a[0], b[0]) && le(b[0], a[0]));
        }
    } else {
        assert(a =~= b);
    }
}

pub proof fn lemma_lex_transitive<A>(le: spec_fn(A, A) -> bool, a: Seq<A>, b: Seq<A>, c: Seq<A>)
    requires
        total_order(le),
        lex_le(le, a, b),
        lex_le(le, b, c),
    ensures
        lex_le(le, a, c),
    decreases a.len(),
{
    if a.len() > 0 {
        if a[0] == b[0] && b[0] == c[0] {
            lemma_lex_transitive(le, a.drop_first(), b.drop_first(), c.drop_first());
        } else if a[0] != b[0] && b[0] != c[0] {
            assert(le(a[0], b[0]) && le(b[0], c[0]));
            if a[0] == c[0] {
                assert(le(b[0], a[0]));
            }
        }
    }
}

/// Dictionary order over a total order is itself a total order.
pub proof fn lex_is_total_order<A>(le: spec_fn(A, A) -> bool)
    requires
        total_order(le),
    ensures
        total_order(|a: Seq<A>, b: Seq<A>| lex_le(le, a, b)),
{
    let lex = |a: Seq<A>, b: Seq<A>| lex_le(le, a, b);
    assert forall|a: Seq<A>| #[trigger] lex(a, a) by {
        lemma_lex_reflexive(le, a);
    }
    assert forall|a: Seq<A>, b: Seq<A>| lex(a, b) || #[trigger] lex(b, a) by {
        lemma_lex_total(le, a, b);
    }
    assert forall|a: Seq<A>, b: Seq<A>| lex(a, b) && #[trigger] lex(b, a) implies a == b by {
        lemma_lex_antisymmetric(le, a, b);
    }
    assert forall|a: Seq<A>, b: Seq<A>, c: Seq<A>|
        #[trigger] lex(a, b) && #[trigger] lex(b, c) implies lex(a, c) by {
        lemma_lex_transitive(le, a, b, c);
    }
}

/// Values that are compared by a key.
pub trait Ranked: Sized {
    /// What two values are compared by.
    type Key;

    spec fn key(&self) -> Self::Key;

    spec fn key_le(a: Self::Key, b: Self::Key) -> bool;

    /// The keys are totally ordered.
    proof fn keys_are_ordered()
        ensures
            total_order(|a: Self::Key, b: Self::Key| Self::key_le(a, b)),
    ;

    /// Whether this value may stand before `other`.
    fn not_after(&self, other: &Self) -> (r: bool)
        ensures
            r == Self::key_le(self.key(), other.key()),
    ;
}

/// The keys of a sequence of values.
pub open spec fn keys<T: Ranked>(s: Seq<T>) -> Seq<T::Key> {
    s.map_values(|x: T| x.key())
}

/// Dictionary order on sequences of keys.
pub open spec fn keys_le<T: Ranked>(a: Seq<T::Key>, b: Seq<T::Key>) -> bool {
    lex_le(|x: T::Key, y: T::Key| T::key_le(x, y), a, b)
}

/// Dictionary order on sequences of keys is a total order.
pub proof fn keys_le_is_total_order<T: Ranked>()
    ensures
        total_order(|a: Seq<T::Key>, b: Seq<T::Key>| keys_le::<T>(a, b)),
{
    let le = |x: T::Key, y: T::Key| T::key_le(x, y);
    T::keys_are_ordered();
    lex_is_total_order(le);
    let by_keys = |a: Seq<T::Key>, b: Seq<T::Key>| keys_le::<T>(a, b);
    let by_le = |a: Seq<T::Key>, b: Seq<T::Key>| lex_le(le, a, b);
    assert(by_keys =~= by_le);
}

/// Compares two lists value by value, as a dictionary does.
pub fn list_not_after<T: Ranked>(a: &Vec<T>, b: &Vec<T>) -> (r: bool)
    ensures
        r == keys_le::<T>(keys(a@), keys(b@)),
{
    let ghost ka = keys(a@);
    let ghost kb = keys(b@);
    let mut i: usize = 0;
    proof {
        assert(ka.skip(0) =~= ka);
        assert(kb.skip(0) =~= kb);
    }
    while i < a.len() && i < b.len()
        invariant
            ka == keys(a@),
            kb == keys(b@),
            i <= a@.len(),
            i <= b@.len(),
            keys_le::<T>(ka, kb) == keys_le::<T>(ka.skip(i as int), kb.skip(i as int)),
        decreases a@.len() - i,
    {
        let forth = a[i].not_after(&b[i]);
        let back = b[i].not_after(&a[i]);
        proof {
            T::keys_are_ordered();
            let le = |x: T::Key, y: T::Key| T::key_le(x, y);
            let x = ka.skip(i as int);
            let y = kb.skip(i as int);
            assert(x[0] == a@[i as int].key() && y[0] == b@[i as int].key());
            assert(le(x[0], y[0]) == forth && le(y[0], x[0]) == back);
            assert(x.drop_first() =~= ka.skip(i + 1));
            assert(y.drop_first() =~= kb.skip(i + 1));
            assert(x[0] == y[0] ==> le(x[0], y[0]));
        }
        if !forth || !back {
            return forth;
        }
        i = i + 1;
    }
    a.len() == i
}

/// No value stands before one with a smaller key.
pub open spec fn sorted<T: Ranked>(s: Seq<T>) -> bool {
    forall|i: int, j: int| 0 <= i <= j < s.len() ==> T::key_le(#[trigger] s[i].key(), #[trigger] s[j].key())
}

/// The values of `s` that have the key `k`, in the order in which they stand.
pub open spec fn with_key<T: Ranked>(s: Seq<T>, k: T::Key) -> Seq<T> {
    s.filter(|x: T| x.key() == k)
}

/// `r` holds the values of `s` in the order of their keys, and values with
/// equal keys in the order in which `s` has them.
pub open spec fn stable_sort_of<T: Ranked>(r: Seq<T>, s: Seq<T>) -> bool {
    &&& sorted(r)
    &&& r.to_multiset() == s.to_multiset()
    &&& forall|k: T::Key| #[trigger] with_key(r, k) == with_key(s, k)
}

proof fn lemma_filter_nothing<A>(s: Seq<A>, pred: spec_fn(A) -> bool)
    requires
        forall|i: int| 0 <= i < s.len() ==> !pred(#[trigger] s[i]),
    ensures
        s.filter(pred) == Seq::<A>::empty(),
    decreases s.len(),
{
    reveal(Seq::filter);
    if s.len() > 0 {
        lemma_filter_nothing(s.drop_last(), pred);
    }
}

/// Moving `x` into the sorted `p` behind everything that may stand before it
/// keeps the order, and is as good as appending it for each key by itself.
proof fn lemma_insert<T: Ranked>(p: Seq<T>, x: T, j: int)
    requires
        sorted(p),
        0 <= j <= p.len(),
        j > 0 ==> T::key_le(p[j - 1].key(), x.key()),
        forall|i: int| j <= i < p.len() ==> !T::key_le((#[trigger] p[i]).key(), x.key()),
    ensures
        sorted(p.insert(j, x)),
        forall|k: T::Key| #[trigger] with_key(p.insert(j, x), k) == with_key(p.push(x), k),
{
    T::keys_are_ordered();
    let le = |a: T::Key, b: T::Key| T::key_le(a, b);
    let r = p.insert(j, x);
    assert forall|m: int, n: int| 0 <= m <= n < r.len() implies T::key_le(
        #[trigger] r[m].key(),
        #[trigger] r[n].key(),
    ) by {
        let pm = if m < j { p[m].key() } else { p[m - 1].key() };
        let pn = if n < j { p[n].key() } else { p[n - 1].key() };
        assert(le(x.key(), x.key()));
        if n == j && m < j {
            assert(le(p[m].key(), p[j - 1].key()) && le(p[j - 1].key(), x.key()));
        } else if m == j && n > j {
            assert(le(p[n - 1].key(), x.key()) || le(x.key(), p[n - 1].key()));
        }
    }
    assert forall|k: T::Key| #[trigger] with_key(r, k) == with_key(p.push(x), k) by {
        let pred = |y: T| y.key() == k;
        let a = p.take(j);
        let b = p.skip(j);
        assert(r =~= a.push(x) + b);
        assert(p =~= a + b);
        Seq::filter_distributes_over_add(a.push(x), b, pred);
        Seq::filter_distributes_over_add(a, b, pred);
        reveal(Seq::filter);
        assert(a.push(x).drop_last() =~= a);
        assert(p.push(x).drop_last() =~= p);
        if x.key() == k {
            assert forall|i: int| 0 <= i < b.len() implies !pred(#[trigger] b[i]) by {
                assert(b[i] == p[j + i]);
                assert(le(k, k));
            }
            lemma_filter_nothing(b, pred);
            assert(with_key(r, k) =~= with_key(p.push(x), k));
        }
    }
}

/// Sorts by insertion. Values with equal keys keep their order.
pub fn sort<T: Ranked>(v: &mut Vec<T>)
    ensures
        stable_sort_of(final(v)@, old(v)@),
{
    let n: usize = v.len();
    let ghost input = v@;
    let mut i: usize = 0;
    while i < n
        invariant
            i <= n,
            n == v@.len(),
            n == input.len(),
            sorted(v@.take(i as int)),
            v@.skip(i as int) == input.skip(i as int),
            v@.to_multiset() == input.to_multiset(),
            forall|k: T::Key| #[trigger]
                with_key(v@.take(i as int), k) == with_key(input.take(i as int), k),
        decreases n - i,
    {
        let ghost before = v@;
        let ghost p = v@.take(i as int);
        let x = v.remove(i);
        let mut j: usize = i;
        while j > 0 && !v[j - 1].not_after(&x)
            invariant
                j <= i < n,
                v@ == before.remove(i as int),
                before.len() == n,
                p == before.take(i as int),
                forall|m: int| j <= m < i ==> !T::key_le((#[trigger] p[m]).key(), x.key()),
            decreases j,
        {
            assert(v@[j - 1] == p[j - 1]);
            j = j - 1;
        }
        assert(j > 0 ==> v@[j - 1] == p[j - 1]);
        v.insert(j, x);
        proof {
            let after = v@;
            lemma_insert(p, x, j as int);
            assert(after.take(i + 1) =~= p.insert(j as int, x));
            assert(after.skip(i + 1) =~= before.skip(i as int).drop_first());
            assert(input.skip(i + 1) =~= input.skip(i as int).drop_first());
            assert(x == input[i as int]) by {
                assert(before.skip(i as int)[0] == input.skip(i as int)[0]);
            }
            assert(input.take(i + 1) =~= input.take(i as int).push(x));
            assert forall|k: T::Key| #[trigger]
                with_key(after.take(i + 1), k) == with_key(input.take(i + 1), k) by {
                assert(with_key(p, k) == with_key(input.take(i as int), k));
                reveal(Seq::filter);
                assert(p.push(x).drop_last() =~= p);
                assert(input.take(i as int).push(x).drop_last() =~= input.take(i as int));
            }
            assert(after.remove(j as int) =~= before.remove(i as int));
            broadcast use vstd::seq_lib::group_to_multiset_ensures;
            assert(before.to_multiset().count(x) > 0) by {
                assert(before[i as int] == x);
                assert(before.contains(x));
            }
            assert(after.to_multiset().count(x) > 0) by {
                assert(after[j as int] == x);
                assert(after.contains(x));
            }
            assert(after.to_multiset() =~= after.to_multiset().remove(x).insert(x));
            assert(before.to_multiset() =~= before.to_multiset().remove(x).insert(x));
        }
        i = i + 1;
    }
    proof {
        assert(v@.take(n as int) =~= v@);
        assert(input.take(n as int) =~= input);
    }
}

impl Ranked for u8 {
    type Key = u8;

    open spec fn key(&self) -> u8 {
        *self
    }

    open spec fn key_le(a: u8, b: u8) -> bool {
        a <= b
    }

    proof fn keys_are_ordered() {
    }

    fn not_after(&self, other: &Self) -> (r: bool) {
        *self <= *other
    }
}

impl Ranked for char {
    type Key = char;

    open spec fn key(&self) -> char {
        *self
    }

    open spec fn key_le(a: char, b: char) -> bool {
        a as u32 <= b as u32
    }

    proof fn keys_are_ordered() {
        let le = |a: char, b: char| Self::key_le(a, b);
        assert forall|a: char, b: char| le(a, b) && #[trigger] le(b, a) implies a == b by {
            vstd::utf8::char_u32_cast(a, a as u32);
            vstd::utf8::char_u32_cast(b, b as u32);
        }
    }

    fn not_after(&self, other: &Self) -> (r: bool) {
        *self as u32 <= *other as u32
    }
}

} // verus!
