//! Laws of what is carried: the parts that a text carries one after the other.

use vstd::prelude::*;

use crate::text::occurs_at;

verus! {

/// A text carries parts: they stand in it, each as it is, one behind the other and none over
/// another.
pub open spec fn carries(s: Seq<char>, parts: Seq<Seq<char>>) -> bool
    decreases parts.len(),
{
    parts.len() == 0 || exists|i: int| #[trigger]
        occurs_at(s, parts.last(), i) && carries(s.take(i), parts.drop_last())
}

/// With one more part behind it a text carries that part too.
pub broadcast proof fn lemma_carries_more(s: Seq<char>, parts: Seq<Seq<char>>, x: Seq<char>)
    ensures
        carries(s, parts) ==> #[trigger] carries(s + x, parts.push(x)),
{
    if carries(s, parts) {
        let more = parts.push(x);
        let n = s.len() as int;
        assert((s + x).subrange(n, n + x.len()) =~= x);
        assert(occurs_at(s + x, more.last(), n));
        assert((s + x).take(n) =~= s);
        assert(more.drop_last() =~= parts);
    }
}

/// With more behind it a text carries what it carried.
pub broadcast proof fn lemma_carries_on(s: Seq<char>, parts: Seq<Seq<char>>, x: Seq<char>)
    ensures
        carries(s, parts) ==> #[trigger] carries(s + x, parts),
{
    if carries(s, parts) && parts.len() > 0 {
        let i = choose|i: int| #[trigger]
            occurs_at(s, parts.last(), i) && carries(s.take(i), parts.drop_last());
        assert((s + x).subrange(i, i + parts.last().len()) =~= s.subrange(
            i,
            i + parts.last().len(),
        ));
        assert(occurs_at(s + x, parts.last(), i));
        assert((s + x).take(i) =~= s.take(i));
    }
}

/// What a text carries stands in it: every part, and each behind those before it.
pub proof fn what_is_carried_stands_in_order(s: Seq<char>, parts: Seq<Seq<char>>, k: int, l: int)
    requires
        carries(s, parts),
        0 <= k < l < parts.len(),
    ensures
        exists|i: int, j: int| #[trigger]
            occurs_at(s, parts[k], i) && #[trigger] occurs_at(s, parts[l], j) && i + parts[k].len()
                <= j,
    decreases parts.len(),
{
    let last = parts.len() - 1;
    let j = choose|j: int| #[trigger]
        occurs_at(s, parts.last(), j) && carries(s.take(j), parts.drop_last());
    let d = parts.drop_last();
    let t = s.take(j);
    if l == last {
        let i = lemma_carried(t, d, k);
        assert(t.subrange(i, i + d[k].len()) =~= s.subrange(i, i + d[k].len()));
        assert(occurs_at(s, parts[k], i));
        assert(occurs_at(s, parts[l], j));
    } else {
        what_is_carried_stands_in_order(t, d, k, l);
        let (a, b) = choose|a: int, b: int| #[trigger]
            occurs_at(t, d[k], a) && #[trigger] occurs_at(t, d[l], b) && a + d[k].len() <= b;
        assert(t.subrange(a, a + d[k].len()) =~= s.subrange(a, a + d[k].len()));
        assert(t.subrange(b, b + d[l].len()) =~= s.subrange(b, b + d[l].len()));
        assert(occurs_at(s, parts[k], a));
        assert(occurs_at(s, parts[l], b));
    }
}

proof fn lemma_carried(s: Seq<char>, parts: Seq<Seq<char>>, k: int) -> (i: int)
    requires
        carries(s, parts),
        0 <= k < parts.len(),
    ensures
        occurs_at(s, parts[k], i),
    decreases parts.len(),
{
    let j = choose|j: int| #[trigger]
        occurs_at(s, parts.last(), j) && carries(s.take(j), parts.drop_last());
    if k == parts.len() - 1 {
        j
    } else {
        let i = lemma_carried(s.take(j), parts.drop_last(), k);
        assert(s.take(j).subrange(i, i + parts[k].len()) =~= s.subrange(i, i + parts[k].len()));
        i
    }
}

} // verus!
