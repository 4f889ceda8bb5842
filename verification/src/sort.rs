//! Stable sorting by a string key (`sort_by(|a, b| a.name.cmp(&b.name))`).
use vstd::prelude::*;
use vstd::seq_lib::*;
use crate::text::{lex_lt, str_lt};

verus! {

/// Something ordered by a display name.
pub trait Named {
    spec fn name_of(&self) -> Seq<char>;

    fn name_str(&self) -> (r: &str)
        ensures
            r@ == self.name_of(),
    ;
}

/// `a` sorts at or before `b`.
pub open spec fn lex_le(a: Seq<char>, b: Seq<char>) -> bool {
    !lex_lt(b, a)
}

pub proof fn lemma_lex_irrefl(a: Seq<char>)
    ensures
        !lex_lt(a, a),
    decreases a.len(),
{
    if a.len() > 0 {
        lemma_lex_irrefl(a.drop_first());
    }
}

pub proof fn lemma_lex_asym(a: Seq<char>, b: Seq<char>)
    ensures
        lex_lt(a, b) ==> !lex_lt(b, a),
    decreases a.len(),
{
    if a.len() > 0 && b.len() > 0 {
        lemma_lex_asym(a.drop_first(), b.drop_first());
    }
}

pub proof fn lemma_lex_trans(a: Seq<char>, b: Seq<char>, c: Seq<char>)
    ensures
        lex_lt(a, b) && lex_lt(b, c) ==> lex_lt(a, c),
    decreases a.len(),
{
    if a.len() > 0 && b.len() > 0 && c.len() > 0 {
        lemma_lex_trans(a.drop_first(), b.drop_first(), c.drop_first());
    }
}

pub proof fn lemma_lex_total(a: Seq<char>, b: Seq<char>)
    ensures
        !lex_lt(a, b) && !lex_lt(b, a) ==> a == b,
    decreases a.len(),
{
    if a.len() > 0 && b.len() > 0 {
        lemma_lex_total(a.drop_first(), b.drop_first());
        if !lex_lt(a, b) && !lex_lt(b, a) {
            assert(a[0] as int == b[0] as int);
            assert(a =~= seq![a[0]] + a.drop_first());
            assert(b =~= seq![b[0]] + b.drop_first());
        }
    } else if a.len() == 0 && b.len() == 0 {
        assert(a =~= b);
    }
}

/// `lt(a, b)` and `b <= c` give `lt(a, c)`.
pub proof fn lemma_lex_lt_le(a: Seq<char>, b: Seq<char>, c: Seq<char>)
    ensures
        lex_lt(a, b) && lex_le(b, c) ==> lex_lt(a, c),
{
    lemma_lex_total(b, c);
    lemma_lex_trans(a, b, c);
}

/// `a <= b` and `b <= c` give `a <= c`.
pub proof fn lemma_lex_le_trans(a: Seq<char>, b: Seq<char>, c: Seq<char>)
    ensures
        lex_le(a, b) && lex_le(b, c) ==> lex_le(a, c),
{
    lemma_lex_total(a, b);
    lemma_lex_total(b, c);
    lemma_lex_trans(c, b, a);
    lemma_lex_lt_le(c, a, b);
}

/// Names never decrease along `s`.
pub open spec fn sorted_by_name<T: Named>(s: Seq<T>) -> bool {
    forall|i: int, j: int|
        0 <= i < j < s.len() ==> lex_le(#[trigger] s[i].name_of(), #[trigger] s[j].name_of())
}

/// Where a stable insertion puts `x` into `s`: before the first element
/// whose name sorts strictly after `x`'s.
pub open spec fn insert_pos<T: Named>(s: Seq<T>, x: T) -> nat
    decreases s.len(),
{
    if s.len() == 0 || lex_lt(x.name_of(), s[0].name_of()) {
        0
    } else {
        1 + insert_pos(s.drop_first(), x)
    }
}

pub open spec fn insert_sorted<T: Named>(s: Seq<T>, x: T) -> Seq<T> {
    s.insert(insert_pos(s, x) as int, x)
}

/// The stable sort of `s` by name: Rust's `sort_by` on the names.
pub open spec fn sort_by_name_spec<T: Named>(s: Seq<T>) -> Seq<T>
    decreases s.len(),
{
    if s.len() == 0 {
        s
    } else {
        insert_sorted(sort_by_name_spec(s.drop_last()), s.last())
    }
}

pub proof fn lemma_insert_pos<T: Named>(s: Seq<T>, x: T)
    ensures
        insert_pos(s, x) <= s.len(),
        forall|k: int| 0 <= k < insert_pos(s, x) ==> !lex_lt(x.name_of(), #[trigger] s[k].name_of()),
        insert_pos(s, x) < s.len() ==> lex_lt(x.name_of(), s[insert_pos(s, x) as int].name_of()),
    decreases s.len(),
{
    if s.len() > 0 && !lex_lt(x.name_of(), s[0].name_of()) {
        lemma_insert_pos(s.drop_first(), x);
        assert forall|k: int| 0 <= k < insert_pos(s, x) implies !lex_lt(
            x.name_of(),
            #[trigger] s[k].name_of(),
        ) by {
            if k > 0 {
                assert(s[k] == s.drop_first()[k - 1]);
            }
        }
    }
}

proof fn lemma_insert_pos_unique<T: Named>(s: Seq<T>, x: T, p: int)
    requires
        0 <= p <= s.len(),
        forall|k: int| 0 <= k < p ==> !lex_lt(x.name_of(), #[trigger] s[k].name_of()),
        p < s.len() ==> lex_lt(x.name_of(), s[p].name_of()),
    ensures
        insert_pos(s, x) == p,
    decreases s.len(),
{
    if p > 0 {
        assert(!lex_lt(x.name_of(), s[0].name_of()));
        assert forall|k: int| 0 <= k < p - 1 implies !lex_lt(
            x.name_of(),
            #[trigger] s.drop_first()[k].name_of(),
        ) by {
            assert(s.drop_first()[k] == s[k + 1]);
        }
        lemma_insert_pos_unique(s.drop_first(), x, p - 1);
    }
}

pub proof fn lemma_insert_sorted_sorted<T: Named>(s: Seq<T>, x: T)
    requires
        sorted_by_name(s),
    ensures
        sorted_by_name(insert_sorted(s, x)),
{
    lemma_insert_pos(s, x);
    let p = insert_pos(s, x) as int;
    let r = insert_sorted(s, x);
    assert forall|i: int, j: int| 0 <= i < j < r.len() implies lex_le(
        #[trigger] r[i].name_of(),
        #[trigger] r[j].name_of(),
    ) by {
        if j < p {
            assert(r[i] == s[i] && r[j] == s[j]);
        } else if j == p {
            assert(r[i] == s[i] && r[j] == x);
        } else if i == p {
            assert(r[j] == s[j - 1]);
            assert(lex_lt(x.name_of(), s[p].name_of()));
            if j - 1 > p {
                assert(lex_le(s[p].name_of(), s[j - 1].name_of()));
            }
            lemma_lex_irrefl(s[p].name_of());
            lemma_lex_lt_le(x.name_of(), s[p].name_of(), s[j - 1].name_of());
            lemma_lex_asym(x.name_of(), s[j - 1].name_of());
        } else if i < p {
            assert(r[i] == s[i] && r[j] == s[j - 1]);
        } else {
            assert(r[i] == s[i - 1] && r[j] == s[j - 1]);
        }
    }
}

pub proof fn lemma_sort_by_name_sorted<T: Named>(s: Seq<T>)
    ensures
        sorted_by_name(sort_by_name_spec(s)),
        sort_by_name_spec(s).to_multiset() == s.to_multiset(),
        sort_by_name_spec(s).len() == s.len(),
    decreases s.len(),
{
    broadcast use group_to_multiset_ensures;

    if s.len() > 0 {
        let t = sort_by_name_spec(s.drop_last());
        lemma_sort_by_name_sorted(s.drop_last());
        lemma_insert_sorted_sorted(t, s.last());
        lemma_insert_pos(t, s.last());
        assert(s =~= s.drop_last().push(s.last()));
    }
}

/// Sorting keeps exactly the elements: one is in the result iff it is in the input.
pub proof fn lemma_sort_by_name_contains<T: Named>(s: Seq<T>, x: T)
    ensures
        sort_by_name_spec(s).contains(x) <==> s.contains(x),
{
    broadcast use group_to_multiset_ensures;

    lemma_sort_by_name_sorted(s);
    assert(sort_by_name_spec(s).to_multiset().count(x) == s.to_multiset().count(x));
}

/// Sorts `v` by name, stably: equal names keep their relative order.
pub fn sort_by_name<T: Named>(v: &mut Vec<T>)
    ensures
        final(v)@ == sort_by_name_spec(old(v)@),
{
    let ghost orig = v@;
    let mut out: Vec<T> = Vec::new();
    let n = v.len();
    let mut k: usize = 0;
    assert(orig.take(0) =~= Seq::<T>::empty());
    assert(orig.skip(0) =~= orig);
    while k < n
        invariant
            n == orig.len(),
            k <= n,
            v@ == orig.skip(k as int),
            out@ == sort_by_name_spec(orig.take(k as int)),
        decreases n - k,
    {
        let x = v.remove(0);
        assert(x == orig[k as int]);
        let mut p: usize = 0;
        while p < out.len() && !str_lt(x.name_str(), out[p].name_str())
            invariant
                p <= out.len(),
                forall|j: int| 0 <= j < p ==> !lex_lt(x.name_of(), #[trigger] out@[j].name_of()),
            decreases out.len() - p,
        {
            p = p + 1;
        }
        proof {
            lemma_insert_pos_unique(out@, x, p as int);
            assert(orig.take(k + 1).drop_last() =~= orig.take(k as int));
            assert(orig.take(k + 1).last() == x);
            assert(orig.skip(k as int).drop_first() =~= orig.skip(k + 1));
        }
        out.insert(p, x);
        k = k + 1;
    }
    assert(orig.take(n as int) =~= orig);
    *v = out;
}

} // verus!
