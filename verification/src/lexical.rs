//! Lexicographic encoding of text cells into palette indices.
//!
//! A categorical facet column that holds text is encoded by the lexical
//! order of its distinct observed values: the distinct values are sorted
//! in ascending byte order, and each row receives the position of its
//! value in that order. Equal values therefore always receive the same
//! index, and the assignment is independent of row order.

use vstd::prelude::*;

verus! {

/// Strict lexicographic byte order, as `[u8]` compares in Rust: the
/// shorter of two sequences precedes when one is a prefix of the other.
pub open spec fn lex_lt(a: Seq<u8>, b: Seq<u8>) -> bool
    decreases a.len(),
{
    if b.len() == 0 {
        false
    } else if a.len() == 0 {
        true
    } else if a[0] < b[0] {
        true
    } else if a[0] > b[0] {
        false
    } else {
        lex_lt(a.drop_first(), b.drop_first())
    }
}

/// Any two byte sequences compare: below, above, or equal.
pub proof fn lemma_lex_trichotomy(a: Seq<u8>, b: Seq<u8>)
    ensures
        lex_lt(a, b) || lex_lt(b, a) || a == b,
    decreases a.len(),
{
    if b.len() == 0 && a.len() == 0 {
        assert(a =~= b);
    } else if a.len() > 0 && b.len() > 0 && a[0] == b[0] {
        lemma_lex_trichotomy(a.drop_first(), b.drop_first());
        if a.drop_first() == b.drop_first() {
            assert(a.len() == b.len());
            assert forall|i: int| 0 <= i < a.len() implies #[trigger] a[i] == b[i] by {
                if i > 0 {
                    assert(a.drop_first()[i - 1] == a[i]);
                    assert(b.drop_first()[i - 1] == b[i]);
                }
            }
            assert(a =~= b);
        }
    }
}

/// The order is irreflexive.
pub proof fn lemma_lex_irrefl(a: Seq<u8>)
    ensures
        !lex_lt(a, a),
    decreases a.len(),
{
    if a.len() > 0 {
        lemma_lex_irrefl(a.drop_first());
    }
}

/// The order is transitive.
pub proof fn lemma_lex_trans(a: Seq<u8>, b: Seq<u8>, c: Seq<u8>)
    requires
        lex_lt(a, b),
        lex_lt(b, c),
    ensures
        lex_lt(a, c),
    decreases a.len(),
{
    if a.len() > 0 && b.len() > 0 && c.len() > 0 && a[0] == b[0] && b[0] == c[0] {
        lemma_lex_trans(a.drop_first(), b.drop_first(), c.drop_first());
    }
}

/// Strict byte order on two byte vectors.
pub fn bytes_lt(x: &Vec<u8>, y: &Vec<u8>) -> (r: bool)
    ensures
        r == lex_lt(x@, y@),
{
    let mut i: usize = 0;
    proof {
        assert(x@.skip(0) =~= x@);
        assert(y@.skip(0) =~= y@);
    }
    while i < x.len() && i < y.len()
        invariant
            i <= x.len(),
            i <= y.len(),
            lex_lt(x@, y@) == lex_lt(x@.skip(i as int), y@.skip(i as int)),
        decreases x.len() - i,
    {
        let a = x[i];
        let b = y[i];
        proof {
            assert(x@.skip(i as int)[0] == x@[i as int]);
            assert(y@.skip(i as int)[0] == y@[i as int]);
            assert(x@.skip(i as int).drop_first() =~= x@.skip(i + 1));
            assert(y@.skip(i as int).drop_first() =~= y@.skip(i + 1));
        }
        if a < b {
            return true;
        }
        if a > b {
            return false;
        }
        i = i + 1;
    }
    proof {
        if i == x.len() {
            assert(x@.skip(i as int) =~= Seq::<u8>::empty());
        }
        if i == y.len() {
            assert(y@.skip(i as int) =~= Seq::<u8>::empty());
        }
    }
    i < y.len()
}

/// Equality of two byte vectors.
pub fn bytes_eq(x: &Vec<u8>, y: &Vec<u8>) -> (r: bool)
    ensures
        r == (x@ == y@),
{
    if x.len() != y.len() {
        proof {
            assert(x@ != y@);
        }
        return false;
    }
    let mut i: usize = 0;
    while i < x.len()
        invariant
            i <= x.len(),
            x@.len() == y@.len(),
            forall|m: int| 0 <= m < i ==> x@[m] == y@[m],
        decreases x.len() - i,
    {
        if x[i] != y[i] {
            return false;
        }
        i = i + 1;
    }
    proof {
        assert(x@ =~= y@);
    }
    true
}

/// A verified copy of a byte vector.
fn copy_bytes(v: &Vec<u8>) -> (r: Vec<u8>)
    ensures
        r@ == v@,
{
    let mut r: Vec<u8> = Vec::new();
    let mut i: usize = 0;
    while i < v.len()
        invariant
            i <= v.len(),
            r@ =~= v@.take(i as int),
        decreases v.len() - i,
    {
        r.push(v[i]);
        i = i + 1;
    }
    proof {
        assert(v@.take(v@.len() as int) =~= v@);
    }
    r
}

/// A byte sequence occurs among the present cells of a text series.
pub open spec fn occurs(cells: Seq<Option<Vec<u8>>>, w: Seq<u8>) -> bool {
    exists|k: int| 0 <= k < cells.len() && (#[trigger] cells[k] matches Some(cv) && cv@ == w)
}

/// The level vector is strictly ascending in lexicographic order.
pub open spec fn strictly_ascending(levels: Seq<Vec<u8>>) -> bool {
    forall|i: int, j: int| 0 <= i < j < levels.len() ==> lex_lt(levels[i]@, levels[j]@)
}

/// A byte sequence stands somewhere in a level list.
pub open spec fn member(x: Seq<u8>, s: Seq<Vec<u8>>) -> bool {
    exists|i: int| 0 <= i < s.len() && (#[trigger] s[i])@ == x
}

/// The level list is canonical: two strictly ascending lists that hold
/// the same values are equal, element for element. The list a
/// categorical assignment quantifies over is therefore unique.
#[verifier::rlimit(60)]
pub proof fn lemma_levels_unique(a: Seq<Vec<u8>>, b: Seq<Vec<u8>>)
    requires
        strictly_ascending(a),
        strictly_ascending(b),
        forall|i: int| 0 <= i < a.len() ==> member((#[trigger] a[i])@, b),
        forall|j: int| 0 <= j < b.len() ==> member((#[trigger] b[j])@, a),
    ensures
        a.len() == b.len(),
        forall|i: int| 0 <= i < a.len() ==> (#[trigger] a[i])@ == b[i]@,
    decreases a.len(),
{
    if a.len() == 0 {
        if b.len() > 0 {
            assert(member(b[0]@, a));
            assert(false);
        }
    } else if b.len() == 0 {
        assert(member(a[0]@, b));
        assert(false);
    } else {
        assert(a[0]@ == b[0]@) by {
            assert(member(a[0]@, b));
            assert(member(b[0]@, a));
            let j = choose|j: int| 0 <= j < b.len() && (#[trigger] b[j])@ == a[0]@;
            let i = choose|i: int| 0 <= i < a.len() && (#[trigger] a[i])@ == b[0]@;
            lemma_lex_trichotomy(a[0]@, b[0]@);
            if lex_lt(a[0]@, b[0]@) {
                if j > 0 {
                    lemma_lex_trans(a[0]@, b[0]@, b[j]@);
                }
                lemma_lex_irrefl(a[0]@);
            } else if lex_lt(b[0]@, a[0]@) {
                if i > 0 {
                    lemma_lex_trans(b[0]@, a[0]@, a[i]@);
                }
                lemma_lex_irrefl(b[0]@);
            }
        }
        let at = a.drop_first();
        let bt = b.drop_first();
        assert forall|i: int| 0 <= i < at.len() implies member((#[trigger] at[i])@, bt) by {
            assert(at[i] == a[i + 1]);
            assert(member(a[i + 1]@, b));
            let j = choose|j: int| 0 <= j < b.len() && (#[trigger] b[j])@ == a[i + 1]@;
            if j == 0 {
                assert(a[0]@ == a[i + 1]@);
                lemma_lex_irrefl(a[0]@);
            }
            assert((bt[j - 1])@ == at[i]@);
        }
        assert forall|j: int| 0 <= j < bt.len() implies member((#[trigger] bt[j])@, at) by {
            assert(bt[j] == b[j + 1]);
            assert(member(b[j + 1]@, a));
            let i = choose|i: int| 0 <= i < a.len() && (#[trigger] a[i])@ == b[j + 1]@;
            if i == 0 {
                assert(b[0]@ == b[j + 1]@);
                lemma_lex_irrefl(b[0]@);
            }
            assert((at[i - 1])@ == bt[j]@);
        }
        assert(strictly_ascending(at)) by {
            assert(forall|i: int, j: int|
                0 <= i < j < at.len() ==> at[i] == a[i + 1] && at[j] == a[j + 1]);
        }
        assert(strictly_ascending(bt)) by {
            assert(forall|i: int, j: int|
                0 <= i < j < bt.len() ==> bt[i] == b[i + 1] && bt[j] == b[j + 1]);
        }
        lemma_levels_unique(at, bt);
        assert forall|i: int| 0 <= i < a.len() implies (#[trigger] a[i])@ == b[i]@ by {
            if i > 0 {
                assert(at[i - 1]@ == bt[i - 1]@);
            }
        }
    }
}

/// Encodes a text series categorically: returns the distinct observed
/// values in ascending lexicographic order, and for each row the position
/// of its value among them. An absent cell receives index 0, as a missing
/// facet value selects the first palette entry.
pub fn categorical_encode(cells: &Vec<Option<Vec<u8>>>) -> (r: (Vec<Vec<u8>>, Vec<u64>))
    ensures
        strictly_ascending(r.0@),
        forall|i: int| 0 <= i < r.0@.len() ==> occurs(cells@, r.0@[i]@),
        forall|k: int|
            0 <= k < cells@.len() ==> (#[trigger] cells@[k] matches Some(cv) ==> exists|i: int|
                0 <= i < r.0@.len() && #[trigger] r.0@[i]@ == cv@),
        r.1@.len() == cells@.len(),
        forall|k: int|
            0 <= k < cells@.len() ==> (#[trigger] cells@[k] matches Some(cv)
                ==> r.1@[k] < r.0@.len() && r.0@[r.1@[k] as int]@ == cv@),
        forall|k: int| 0 <= k < cells@.len() ==> (#[trigger] cells@[k] is None ==> r.1@[k] == 0),
        forall|k1: int, k2: int|
            0 <= k1 < cells@.len() && 0 <= k2 < cells@.len() ==> ((#[trigger] cells@[k1] matches Some(a)
                && #[trigger] cells@[k2] matches Some(b) && a@ == b@) ==> r.1@[k1] == r.1@[k2]),
{
    let levels = collect_levels(cells);
    let idx = assign_indices(cells, &levels);
    proof {
        assert forall|k1: int, k2: int|
            0 <= k1 < cells@.len() && 0 <= k2 < cells@.len() && (cells@[k1] matches Some(a)
                && cells@[k2] matches Some(b) && a@ == b@) implies idx@[k1] == idx@[k2] by {
            let i1 = idx@[k1] as int;
            let i2 = idx@[k2] as int;
            if i1 < i2 {
                assert(lex_lt(levels@[i1]@, levels@[i2]@));
                lemma_lex_irrefl(levels@[i1]@);
            } else if i2 < i1 {
                assert(lex_lt(levels@[i2]@, levels@[i1]@));
                lemma_lex_irrefl(levels@[i1]@);
            }
        }
    }
    (levels, idx)
}

/// Collects the distinct present values in ascending order.
fn collect_levels(cells: &Vec<Option<Vec<u8>>>) -> (levels: Vec<Vec<u8>>)
    ensures
        strictly_ascending(levels@),
        forall|i: int| 0 <= i < levels@.len() ==> occurs(cells@, levels@[i]@),
        forall|k: int|
            0 <= k < cells@.len() ==> (#[trigger] cells@[k] matches Some(cv) ==> exists|i: int|
                0 <= i < levels@.len() && #[trigger] levels@[i]@ == cv@),
{
    let mut levels: Vec<Vec<u8>> = Vec::new();
    let mut k: usize = 0;
    while k < cells.len()
        invariant
            k <= cells.len(),
            strictly_ascending(levels@),
            forall|i: int| 0 <= i < levels@.len() ==> occurs(cells@, levels@[i]@),
            forall|m: int|
                0 <= m < k ==> (#[trigger] cells@[m] matches Some(cv) ==> exists|i: int|
                    0 <= i < levels@.len() && #[trigger] levels@[i]@ == cv@),
        decreases cells.len() - k,
    {
        match &cells[k] {
            None => {},
            Some(v) => {
                let mut j: usize = 0;
                while j < levels.len() && bytes_lt(&levels[j], v)
                    invariant
                        j <= levels.len(),
                        forall|m: int| 0 <= m < j ==> lex_lt(levels@[m]@, v@),
                    decreases levels.len() - j,
                {
                    j = j + 1;
                }
                let present = j < levels.len() && bytes_eq(&levels[j], v);
                if present {
                    proof {
                        assert(cells@[k as int] matches Some(cv) && cv@ == v@);
                        assert(levels@[j as int]@ == v@);
                    }
                }
                if !present {
                    proof {
                        if j < levels@.len() {
                            lemma_lex_trichotomy(levels@[j as int]@, v@);
                        }
                        assert forall|m: int| j <= m < levels@.len() implies lex_lt(
                            v@,
                            levels@[m]@,
                        ) by {
                            if m > j {
                                lemma_lex_trans(v@, levels@[j as int]@, levels@[m]@);
                            }
                        }
                    }
                    let copy = copy_bytes(v);
                    let ghost celem = copy;
                    let ghost old_levels = levels@;
                    levels.insert(j, copy);
                    proof {
                        old_levels.insert_ensures(j as int, celem);
                        assert(cells@[k as int] matches Some(cv) && cv@ == v@);
                        assert(occurs(cells@, v@));
                        assert(levels@[j as int]@ == v@);
                        assert forall|i: int| 0 <= i < levels@.len() implies occurs(
                            cells@,
                            levels@[i]@,
                        ) by {
                            if i < j {
                                assert(levels@[i] == old_levels[i]);
                            } else if i > j {
                                assert(levels@[i] == old_levels[i - 1]);
                            }
                        }
                        assert forall|m: int|
                            0 <= m < k && cells@[m] is Some implies exists|i: int|
                            0 <= i < levels@.len() && #[trigger] levels@[i]@ == (
                        cells@[m]->Some_0)@ by {
                            let cv = cells@[m]->Some_0;
                            let i0 = choose|i0: int|
                                0 <= i0 < old_levels.len() && #[trigger] old_levels[i0]@ == cv@;
                            if i0 < j {
                                assert(levels@[i0]@ == cv@);
                            } else {
                                assert(levels@[i0 + 1]@ == cv@);
                            }
                        }
                        assert forall|p: int, q: int|
                            0 <= p < q < levels@.len() implies lex_lt(
                            levels@[p]@,
                            levels@[q]@,
                        ) by {
                            if q < j {
                            } else if q == j {
                                assert(levels@[q] == celem);
                                assert(lex_lt(old_levels[p]@, v@));
                            } else {
                                assert(levels@[q] == old_levels[q - 1]);
                                if p < j {
                                    if j <= q - 1 && q - 1 > p {
                                        assert(lex_lt(old_levels[p]@, old_levels[q - 1]@));
                                    }
                                } else if p == j {
                                    assert(levels@[p] == celem);
                                    assert(lex_lt(v@, old_levels[q - 1]@));
                                } else {
                                    assert(levels@[p] == old_levels[p - 1]);
                                }
                            }
                        }
                    }
                }
            },
        }
        k = k + 1;
    }
    levels
}

/// Assigns each row the position of its value among the levels.
fn assign_indices(cells: &Vec<Option<Vec<u8>>>, levels: &Vec<Vec<u8>>) -> (idx: Vec<u64>)
    requires
        forall|k: int|
            0 <= k < cells@.len() ==> (#[trigger] cells@[k] matches Some(cv) ==> exists|i: int|
                0 <= i < levels@.len() && #[trigger] levels@[i]@ == cv@),
    ensures
        idx@.len() == cells@.len(),
        forall|k: int|
            0 <= k < cells@.len() ==> (#[trigger] cells@[k] matches Some(cv)
                ==> idx@[k] < levels@.len() && levels@[idx@[k] as int]@ == cv@),
        forall|k: int| 0 <= k < cells@.len() ==> (#[trigger] cells@[k] is None ==> idx@[k] == 0),
{
    let mut idx: Vec<u64> = Vec::new();
    let mut k: usize = 0;
    while k < cells.len()
        invariant
            k <= cells.len(),
            idx@.len() == k,
            forall|m: int|
                0 <= m < k ==> (#[trigger] cells@[m] matches Some(cv)
                    ==> idx@[m] < levels@.len() && levels@[idx@[m] as int]@ == cv@),
            forall|m: int| 0 <= m < k ==> (#[trigger] cells@[m] is None ==> idx@[m] == 0),
            forall|m: int|
                0 <= m < cells@.len() ==> (#[trigger] cells@[m] matches Some(cv) ==> exists|i: int|
                    0 <= i < levels@.len() && #[trigger] levels@[i]@ == cv@),
        decreases cells.len() - k,
    {
        match &cells[k] {
            None => {
                idx.push(0);
            },
            Some(v) => {
                let mut j: usize = 0;
                let mut found: u64 = 0;
                let mut done = false;
                while j < levels.len() && !done
                    invariant
                        j <= levels.len(),
                        !done ==> forall|m: int| 0 <= m < j ==> levels@[m]@ != v@,
                        done ==> j >= 1 && (j - 1) < levels@.len() && found == j - 1 && levels@[
                            j - 1
                        ]@ == v@,
                    decreases levels.len() - j,
                {
                    if bytes_eq(&levels[j], v) {
                        found = j as u64;
                        done = true;
                    }
                    j = j + 1;
                }
                proof {
                    if !done {
                        assert(cells@[k as int] matches Some(cv) && cv@ == v@);
                        let i0 = choose|i: int|
                            0 <= i < levels@.len() && #[trigger] levels@[i]@ == (
                        cells@[k as int]->Some_0)@;
                        assert(levels@[i0]@ != v@);
                        assert(false);
                    }
                }
                idx.push(found);
            },
        }
        k = k + 1;
    }
    idx
}

} // verus!
