//! The contributor set: distinct author names kept in ascending code-point
//! order.

use vstd::prelude::*;

verus! {

/// Lexicographic order on code points, strict.
pub open spec fn code_point_lt(a: Seq<char>, b: Seq<char>) -> bool
    decreases a.len(),
{
    if b.len() == 0 {
        false
    } else if a.len() == 0 {
        true
    } else if a[0] != b[0] {
        (a[0] as int) < (b[0] as int)
    } else {
        code_point_lt(a.drop_first(), b.drop_first())
    }
}

/// Neighbours are in strictly ascending code-point order.
pub open spec fn ascending(v: Seq<String>) -> bool {
    forall|i: int| 0 <= i && i + 1 < v.len() ==> code_point_lt(#[trigger] v[i]@, v[i + 1]@)
}

/// No name appears twice.
pub open spec fn distinct(v: Seq<String>) -> bool {
    forall|i: int, j: int| 0 <= i < j < v.len() ==> #[trigger] v[i]@ != #[trigger] v[j]@
}

/// The contributor list invariant: distinct names in ascending order.
pub open spec fn sorted_distinct(v: Seq<String>) -> bool {
    ascending(v) && distinct(v)
}

/// `name` is one of the entries of `v`.
pub open spec fn holds_name(v: Seq<String>, name: Seq<char>) -> bool {
    exists|i: int| 0 <= i < v.len() && #[trigger] v[i]@ == name
}

/// Two different names are ordered one way or the other.
pub proof fn lemma_code_point_total(a: Seq<char>, b: Seq<char>)
    requires
        a != b,
    ensures
        code_point_lt(a, b) || code_point_lt(b, a),
    decreases a.len(),
{
    if a.len() == 0 || b.len() == 0 {
        if a.len() == 0 && b.len() == 0 {
            assert(a =~= b);
        }
    } else if a[0] != b[0] {
        assert((a[0] as int) != (b[0] as int));
    } else {
        if a.drop_first() == b.drop_first() {
            assert(a =~= seq![a[0]] + a.drop_first());
            assert(b =~= seq![b[0]] + b.drop_first());
        }
        lemma_code_point_total(a.drop_first(), b.drop_first());
    }
}

/// The code-point order is transitive.
pub proof fn lemma_code_point_transitive(a: Seq<char>, b: Seq<char>, c: Seq<char>)
    requires
        code_point_lt(a, b),
        code_point_lt(b, c),
    ensures
        code_point_lt(a, c),
    decreases a.len(),
{
    if a.len() > 0 && a[0] == b[0] && b[0] == c[0] {
        lemma_code_point_transitive(a.drop_first(), b.drop_first(), c.drop_first());
    }
}

/// A contributor list is in ascending code-point order over every pair of
/// positions, not only between neighbours.
pub proof fn lemma_sorted_distinct_ordered(v: Seq<String>, i: int, j: int)
    requires
        sorted_distinct(v),
        0 <= i < j < v.len(),
    ensures
        code_point_lt(v[i]@, v[j]@),
    decreases j - i,
{
    if j > i + 1 {
        lemma_sorted_distinct_ordered(v, i, j - 1);
        lemma_code_point_transitive(v[i]@, v[j - 1]@, v[j]@);
    }
}

/// Relies on `Ord` for `str`: strings compare lexicographically by code
/// point.
#[verifier::external_body]
fn str_less(a: &str, b: &str) -> (r: bool)
    ensures
        r == code_point_lt(a@, b@),
{
    a < b
}

/// Adds `name` to an ordered contributor list unless it is already there
/// (names compare exactly, case included).
pub fn insert_contributor(list: &mut Vec<String>, name: String)
    requires
        sorted_distinct(old(list)@),
    ensures
        sorted_distinct(final(list)@),
        forall|s: Seq<char>|
            holds_name(final(list)@, s) <==> (holds_name(old(list)@, s) || s == name@),
{
    let n = list.len();
    let mut i: usize = 0;
    while i < n
        invariant
            n == list.len(),
            i <= n,
            sorted_distinct(list@),
            forall|j: int| 0 <= j < i ==> #[trigger] list@[j]@ != name@,
        decreases n - i,
    {
        if list[i] == name {
            assert(list@[i as int]@ == name@);
            return;
        }
        i = i + 1;
    }
    let mut k: usize = 0;
    while k < n && str_less(list[k].as_str(), name.as_str())
        invariant
            n == list.len(),
            k <= n,
            sorted_distinct(list@),
            k > 0 ==> code_point_lt(list@[k - 1]@, name@),
        decreases n - k,
    {
        k = k + 1;
    }
    if k < n {
        proof {
            lemma_code_point_total(list@[k as int]@, name@);
        }
    }
    let ghost before = list@;
    list.insert(k, name);
    let ghost after = list@;
    assert(ascending(after)) by {
        assert forall|i: int| 0 <= i && i + 1 < after.len() implies code_point_lt(
            #[trigger] after[i]@,
            after[i + 1]@,
        ) by {
            if i + 1 < k {
                assert(after[i] == before[i] && after[i + 1] == before[i + 1]);
            } else if i > k {
                assert(after[i] == before[i - 1] && after[i + 1] == before[i]);
            }
        }
    }
    assert forall|s: Seq<char>|
        holds_name(after, s) <==> (holds_name(before, s) || s == name@) by {
        if holds_name(after, s) {
            let j = choose|j: int| 0 <= j < after.len() && #[trigger] after[j]@ == s;
            if j < k {
                assert(before[j]@ == s);
            } else if j > k {
                assert(before[j - 1]@ == s);
            }
        }
        if holds_name(before, s) {
            let j = choose|j: int| 0 <= j < before.len() && #[trigger] before[j]@ == s;
            if j < k {
                assert(after[j]@ == s);
            } else {
                assert(after[j + 1]@ == s);
            }
        }
        if s == name@ {
            assert(after[k as int]@ == s);
        }
    }
}

} // verus!
