//! Text helpers: joining, ordering and sorting of strings.

use vstd::prelude::*;
use vstd::string::*;

verus! {

/// The parts of a list, each but the first preceded by `sep`.
pub open spec fn join(parts: Seq<Seq<char>>, sep: Seq<char>) -> Seq<char>
    decreases parts.len(),
{
    if parts.len() == 0 {
        Seq::empty()
    } else if parts.len() == 1 {
        parts[0]
    } else {
        join(parts.drop_last(), sep) + sep + parts.last()
    }
}

/// The views of a list of strings.
pub open spec fn texts(parts: Seq<String>) -> Seq<Seq<char>> {
    parts.map_values(|s: String| s@)
}

/// Whether `a` comes before `b`, or is `b`, in the order of a dictionary
/// whose alphabet is the code points in their numeric order.
pub open spec fn text_le(a: Seq<char>, b: Seq<char>) -> bool
    decreases a.len(),
{
    if a.len() == 0 {
        true
    } else if b.len() == 0 {
        false
    } else if a[0] != b[0] {
        (a[0] as int) < (b[0] as int)
    } else {
        text_le(a.drop_first(), b.drop_first())
    }
}

/// `sorted` with `x` put before the first text that comes after it.
pub open spec fn insert_sorted(sorted: Seq<Seq<char>>, x: Seq<char>) -> Seq<Seq<char>>
    decreases sorted.len(),
{
    if sorted.len() == 0 {
        seq![x]
    } else if text_le(sorted.last(), x) {
        sorted.push(x)
    } else {
        insert_sorted(sorted.drop_last(), x).push(sorted.last())
    }
}

/// The texts of a list in ascending order.
pub open spec fn sort(parts: Seq<Seq<char>>) -> Seq<Seq<char>>
    decreases parts.len(),
{
    if parts.len() == 0 {
        Seq::empty()
    } else {
        insert_sorted(sort(parts.drop_last()), parts.last())
    }
}

/// Whether each text of a list is followed by one that is not before it.
pub open spec fn ascending(parts: Seq<Seq<char>>) -> bool {
    forall|i: int, j: int| 0 <= i < j < parts.len() ==> text_le(parts[i], parts[j])
}

/// The texts of a list with those left out that repeat their predecessor.
pub open spec fn dedup(parts: Seq<Seq<char>>) -> Seq<Seq<char>>
    decreases parts.len(),
{
    if parts.len() <= 1 {
        parts
    } else if parts[parts.len() - 2] == parts.last() {
        dedup(parts.drop_last())
    } else {
        dedup(parts.drop_last()).push(parts.last())
    }
}

/// Any two texts are ordered one way or the other.
pub proof fn lemma_text_le_total(a: Seq<char>, b: Seq<char>)
    ensures
        text_le(a, b) || text_le(b, a),
    decreases a.len(),
{
    if a.len() > 0 && b.len() > 0 {
        if a[0] == b[0] {
            lemma_text_le_total(a.drop_first(), b.drop_first());
        }
    }
}

/// The order of texts is transitive.
pub proof fn lemma_text_le_transitive(a: Seq<char>, b: Seq<char>, c: Seq<char>)
    requires
        text_le(a, b),
        text_le(b, c),
    ensures
        text_le(a, c),
    decreases a.len(),
{
    if a.len() > 0 && b.len() > 0 && c.len() > 0 {
        if a[0] == b[0] && b[0] == c[0] {
            lemma_text_le_transitive(a.drop_first(), b.drop_first(), c.drop_first());
        }
    }
}

/// Inserting into an ascending list gives an ascending list, one longer,
/// whose texts are those of the list and the new one.
pub proof fn lemma_insert_sorted(sorted: Seq<Seq<char>>, x: Seq<char>)
    requires
        ascending(sorted),
    ensures
        ascending(insert_sorted(sorted, x)),
        insert_sorted(sorted, x).len() == sorted.len() + 1,
        insert_sorted(sorted, x).to_multiset() == sorted.to_multiset().insert(x),
    decreases sorted.len(),
{
    broadcast use vstd::seq_lib::group_to_multiset_ensures;

    let r = insert_sorted(sorted, x);
    if sorted.len() == 0 {
        assert(r == Seq::<Seq<char>>::empty().push(x));
    } else if text_le(sorted.last(), x) {
        assert forall|i: int, j: int| 0 <= i < j < r.len() implies text_le(r[i], r[j]) by {
            if j == sorted.len() {
                if i < sorted.len() - 1 {
                    lemma_text_le_transitive(sorted[i], sorted.last(), x);
                }
            }
        }
    } else {
        let rest = sorted.drop_last();
        let inner = insert_sorted(rest, x);
        assert(sorted == rest.push(sorted.last()));
        lemma_insert_sorted(rest, x);
        lemma_text_le_total(sorted.last(), x);
        assert forall|i: int, j: int| 0 <= i < j < r.len() implies text_le(r[i], r[j]) by {
            if j == inner.len() {
                // r[i] is a text of `rest` or is `x`; both come before the last
                assert(inner.to_multiset().count(inner[i]) > 0);
                if inner[i] != x {
                    assert(rest.to_multiset().count(inner[i]) > 0);
                    assert(rest.contains(inner[i]));
                    let k = choose|k: int| 0 <= k < rest.len() && rest[k] == inner[i];
                    assert(text_le(sorted[k], sorted[sorted.len() - 1]));
                }
            }
        }
        assert(r.to_multiset() == inner.to_multiset().insert(sorted.last()));
        assert(sorted.to_multiset() == rest.to_multiset().insert(sorted.last()));
        assert(r.to_multiset() =~= sorted.to_multiset().insert(x));
    }
}

/// Sorting gives an ascending list that holds each text as often as the
/// list that was sorted.
pub proof fn lemma_sort(parts: Seq<Seq<char>>)
    ensures
        ascending(sort(parts)),
        sort(parts).len() == parts.len(),
        sort(parts).to_multiset() == parts.to_multiset(),
    decreases parts.len(),
{
    broadcast use vstd::seq_lib::group_to_multiset_ensures;

    if parts.len() > 0 {
        let rest = parts.drop_last();
        lemma_sort(rest);
        lemma_insert_sorted(sort(rest), parts.last());
        assert(parts == rest.push(parts.last()));
    } else {
        assert(parts.to_multiset() =~= sort(parts).to_multiset());
    }
}

/// Whether `a` comes before `b`, or is `b`, in dictionary order.
pub fn le(a: &str, b: &str) -> (r: bool)
    ensures
        r == text_le(a@, b@),
{
    let n = a.unicode_len();
    let m = b.unicode_len();
    let mut i: usize = 0;
    assert(a@.skip(0) == a@ && b@.skip(0) == b@);
    while i < n && i < m
        invariant
            n == a@.len(),
            m == b@.len(),
            i <= n,
            i <= m,
            text_le(a@, b@) == text_le(a@.skip(i as int), b@.skip(i as int)),
        decreases n - i,
    {
        let x = a.get_char(i);
        let y = b.get_char(i);
        let ghost ra = a@.skip(i as int);
        let ghost rb = b@.skip(i as int);
        assert(ra[0] == x && rb[0] == y);
        assert(ra.drop_first() == a@.skip(i + 1));
        assert(rb.drop_first() == b@.skip(i + 1));
        if x != y {
            return (x as u32) < (y as u32);
        }
        i = i + 1;
    }
    assert(a@.skip(i as int).len() == n - i);
    assert(b@.skip(i as int).len() == m - i);
    i == n
}

/// Joins the strings of a list, with `sep` between neighbours.
pub fn join_strings(parts: &Vec<String>, sep: &str) -> (r: String)
    ensures
        r@ == join(texts(parts@), sep@),
{
    let mut out = String::new();
    let mut i: usize = 0;
    while i < parts.len()
        invariant
            i <= parts.len(),
            out@ == join(texts(parts@).take(i as int), sep@),
        decreases parts.len() - i,
    {
        let ghost before = texts(parts@).take(i as int);
        let ghost after = texts(parts@).take(i + 1);
        assert(after.drop_last() == before);
        assert(after.last() == parts@[i as int]@);
        if i > 0 {
            out.append(sep);
        } else {
            assert(out@ + parts@[i as int]@ == parts@[i as int]@);
        }
        out.append(parts[i].as_str());
        i = i + 1;
    }
    assert(texts(parts@).take(parts.len() as int) == texts(parts@));
    out
}

/// Sorts the strings of a list into ascending order.
pub fn sort_strings(parts: Vec<String>) -> (r: Vec<String>)
    ensures
        texts(r@) == sort(texts(parts@)),
{
    let mut parts = parts;
    let ghost all = texts(parts@);
    let mut out: Vec<String> = Vec::new();
    let mut rest: Vec<String> = Vec::new();
    // take the strings in their order: `rest` holds them reversed
    while parts.len() > 0
        invariant
            all == texts(parts@) + texts(rest@).reverse(),
        decreases parts.len(),
    {
        let ghost before = parts@;
        let ghost rest_before = rest@;
        let s = parts.pop().unwrap();
        rest.push(s);
        assert(texts(rest@).reverse() == seq![s@] + texts(rest_before).reverse());
        assert(texts(before) == texts(parts@).push(s@));
        assert(texts(parts@) + texts(rest@).reverse() == texts(before) + texts(
            rest_before,
        ).reverse());
    }
    assert(all == texts(rest@).reverse());
    let ghost total = rest@.len();
    while rest.len() > 0
        invariant
            rest@.len() <= total,
            total == all.len(),
            all.take(total - rest@.len()) + texts(rest@).reverse() == all,
            texts(out@) == sort(all.take(total - rest@.len())),
        decreases rest.len(),
    {
        let ghost done = all.take(total - rest@.len());
        let ghost rest_before = rest@;
        let s = rest.pop().unwrap();
        assert(texts(rest_before).reverse() == seq![s@] + texts(rest@).reverse());
        let ghost next = all.take(total - rest@.len());
        assert(next == done.push(s@)) by {
            assert(all == done + (seq![s@] + texts(rest@).reverse()));
            assert(next =~= done.push(s@));
        }
        assert(next.drop_last() == done);
        assert(all.take(total - rest@.len()) + texts(rest@).reverse() =~= all);
        out = insert_string(out, s);
    }
    assert(all.take(total as int) == all);
    out
}

/// Puts `s` into an ascending list, before the first string that comes
/// after it.
fn insert_string(sorted: Vec<String>, s: String) -> (r: Vec<String>)
    ensures
        texts(r@) == insert_sorted(texts(sorted@), s@),
{
    let mut sorted = sorted;
    let ghost start = texts(sorted@);
    let mut tail: Vec<String> = Vec::new();
    // `tail` holds, reversed, the strings that come after `s`
    let mut searching = true;
    while searching
        invariant
            start == texts(sorted@) + texts(tail@).reverse(),
            insert_sorted(start, s@) == insert_sorted(texts(sorted@), s@) + texts(
                tail@,
            ).reverse(),
            !searching ==> sorted@.len() == 0 || text_le(texts(sorted@).last(), s@),
        decreases sorted.len() + (if searching { 1nat } else { 0nat }),
    {
        if sorted.len() == 0 {
            searching = false;
            continue ;
        }
        if le(sorted[sorted.len() - 1].as_str(), s.as_str()) {
            assert(texts(sorted@).last() == sorted@[sorted.len() - 1]@);
            searching = false;
            continue ;
        }
        let ghost before = sorted@;
        let ghost tail_before = tail@;
        assert(texts(before).last() == before[before.len() - 1]@);
        let last = sorted.pop().unwrap();
        tail.push(last);
        assert(texts(before).drop_last() == texts(sorted@));
        assert(texts(tail@).reverse() == seq![last@] + texts(tail_before).reverse());
        assert(insert_sorted(texts(before), s@) == insert_sorted(texts(sorted@), s@).push(last@));
        assert(insert_sorted(texts(sorted@), s@).push(last@) + texts(tail_before).reverse()
            == insert_sorted(texts(sorted@), s@) + texts(tail@).reverse());
        assert(texts(before) == texts(sorted@).push(last@));
        assert(texts(sorted@).push(last@) + texts(tail_before).reverse() == texts(sorted@)
            + texts(tail@).reverse());
    }
    let ghost low = texts(sorted@);
    assert(insert_sorted(low, s@) =~= low.push(s@));
    sorted.push(s);
    assert(texts(sorted@) == low.push(s@));
    while tail.len() > 0
        invariant
            texts(sorted@) + texts(tail@).reverse() == insert_sorted(start, s@),
        decreases tail.len(),
    {
        let ghost sorted_before = sorted@;
        let ghost tail_before = tail@;
        let t = tail.pop().unwrap();
        sorted.push(t);
        assert(texts(tail_before).reverse() == seq![t@] + texts(tail@).reverse());
        assert(texts(sorted@) == texts(sorted_before).push(t@));
        assert(texts(sorted@) + texts(tail@).reverse() == texts(sorted_before) + texts(
            tail_before,
        ).reverse());
    }
    assert(texts(tail@).reverse() == Seq::<Seq<char>>::empty());
    assert(texts(sorted@) + Seq::<Seq<char>>::empty() == texts(sorted@));
    sorted
}

} // verus!
