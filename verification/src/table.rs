use vstd::prelude::*;

verus! {

/// A row of one of the service's tables: a value with an identifier, an
/// owning principal and a position in the table's natural listing order.
///
/// Every repository in this crate keeps its rows in a `Vec` whose identifiers
/// are pairwise distinct (`ids_unique`), and answers scoped reads through the
/// generic operations below, so the ownership rules are proved once.
pub trait Row: Sized {
    /// The row's identifier.
    spec fn row_id(&self) -> Seq<char>;

    /// The owning principal's identifier. Globally shared rows (categories)
    /// report an empty owner and are never read through a scope.
    spec fn row_owner(&self) -> Seq<char>;

    /// The table's listing order: `a.spec_le(b)` allows `a` to stand before
    /// `b` in a listing.
    spec fn spec_le(&self, other: &Self) -> bool;

    /// The listing order relates every pair of rows.
    proof fn lemma_le_total(a: &Self, b: &Self)
        ensures
            a.spec_le(b) || b.spec_le(a),
    ;

    /// The listing order is transitive.
    proof fn lemma_le_trans(a: &Self, b: &Self, c: &Self)
        requires
            a.spec_le(b),
            b.spec_le(c),
        ensures
            a.spec_le(c),
    ;

    fn id_matches(&self, id: &str) -> (r: bool)
        ensures
            r == (self.row_id() == id@),
    ;

    fn owner_matches(&self, owner: &str) -> (r: bool)
        ensures
            r == (self.row_owner() == owner@),
    ;

    fn le(&self, other: &Self) -> (r: bool)
        ensures
            r == self.spec_le(other),
    ;

    /// A field-by-field copy, equal to the value it copies.
    fn duplicate(&self) -> (r: Self)
        ensures
            r == *self,
    ;
}

/// No two rows of the table share an identifier.
pub open spec fn ids_unique<T: Row>(s: Seq<T>) -> bool {
    forall|i: int, j: int| 0 <= i < j < s.len() ==> s[i].row_id() != s[j].row_id()
}

/// Some row carries this identifier, whoever owns it.
pub open spec fn has_id<T: Row>(s: Seq<T>, id: Seq<char>) -> bool {
    exists|i: int| 0 <= i < s.len() && s[i].row_id() == id
}

/// Some row carries this identifier and belongs to this principal. Scoped
/// reads, updates and deletes succeed exactly when this holds.
pub open spec fn scoped_has<T: Row>(s: Seq<T>, owner: Seq<char>, id: Seq<char>) -> bool {
    exists|i: int| 0 <= i < s.len() && s[i].row_id() == id && s[i].row_owner() == owner
}

/// The rows stand in the table's listing order.
pub open spec fn rows_sorted<T: Row>(s: Seq<T>) -> bool {
    forall|i: int, j: int| 0 <= i < j < s.len() ==> s[i].spec_le(&s[j])
}

/// How many rows belong to this principal.
pub open spec fn count_owned<T: Row>(s: Seq<T>, owner: Seq<char>) -> int
    decreases s.len(),
{
    if s.len() == 0 {
        0
    } else {
        count_owned(s.drop_last(), owner) + if s.last().row_owner() == owner {
            1int
        } else {
            0int
        }
    }
}

/// An entity owned by one principal is invisible inside every other
/// principal's scope: when identifiers are unique, no row with the same
/// identifier belongs to anyone else, so a scoped read, update or delete by
/// another principal fails exactly as it does for an identifier that does
/// not exist at all.
pub proof fn lemma_other_principal_sees_nothing<T: Row>(s: Seq<T>, i: int, other: Seq<char>)
    requires
        ids_unique(s),
        0 <= i < s.len(),
        s[i].row_owner() != other,
    ensures
        !scoped_has(s, other, s[i].row_id()),
{
    assert forall|j: int| 0 <= j < s.len() && s[j].row_id() == s[i].row_id() implies s[j].row_owner()
        != other by {
        if j < i {
            assert(s[j].row_id() != s[i].row_id());
        } else if j > i {
            assert(s[i].row_id() != s[j].row_id());
        }
    }
}

/// A freshly inserted row is exactly what its owner's scoped read finds: the
/// identifier was new, so after the push it is carried by one row only, the
/// new one.
pub proof fn lemma_created_row_is_found<T: Row>(s: Seq<T>, x: T, owner: Seq<char>)
    requires
        !has_id(s, x.row_id()),
        x.row_owner() == owner,
    ensures
        scoped_has(s.push(x), owner, x.row_id()),
        forall|j: int|
            0 <= j < s.push(x).len() && #[trigger] s.push(x)[j].row_id() == x.row_id() ==> s.push(
                x,
            )[j] == x,
{
    let t = s.push(x);
    assert(t[s.len() as int] == x);
    assert forall|j: int| 0 <= j < t.len() && #[trigger] t[j].row_id() == x.row_id() implies t[j]
        == x by {
        if j < s.len() {
            assert(s[j] == t[j]);
            assert(!(0 <= j < s.len() && s[j].row_id() == x.row_id()));
        }
    }
}

/// Pushing a row with a fresh identifier keeps identifiers unique.
pub proof fn lemma_push_keeps_ids_unique<T: Row>(s: Seq<T>, x: T)
    requires
        ids_unique(s),
        !has_id(s, x.row_id()),
    ensures
        ids_unique(s.push(x)),
{
    let t = s.push(x);
    assert forall|i: int, j: int| 0 <= i < j < t.len() implies t[i].row_id() != t[j].row_id() by {
        if j < s.len() {
            assert(s[i].row_id() != s[j].row_id());
        } else {
            assert(t[j] == x);
            assert(!(0 <= i < s.len() && s[i].row_id() == x.row_id()));
        }
    }
}

/// Removing a row keeps identifiers unique.
pub proof fn lemma_remove_keeps_ids_unique<T: Row>(s: Seq<T>, i: int)
    requires
        ids_unique(s),
        0 <= i < s.len(),
    ensures
        ids_unique(s.remove(i)),
{
    s.remove_ensures(i);
    let t = s.remove(i);
    assert forall|p: int, q: int| 0 <= p < q < t.len() implies t[p].row_id() != t[q].row_id() by {
        let p0: int = if p < i {
            p
        } else {
            p + 1
        };
        let q0: int = if q < i {
            q
        } else {
            q + 1
        };
        assert(t[p] == s[p0]);
        assert(t[q] == s[q0]);
        assert(s[p0].row_id() != s[q0].row_id());
    }
}

/// Replacing a row by one with the same identifier keeps identifiers unique.
pub proof fn lemma_update_keeps_ids_unique<T: Row>(s: Seq<T>, i: int, x: T)
    requires
        ids_unique(s),
        0 <= i < s.len(),
        x.row_id() == s[i].row_id(),
    ensures
        ids_unique(s.update(i, x)),
{
    let t = s.update(i, x);
    assert forall|p: int, q: int| 0 <= p < q < t.len() implies t[p].row_id() != t[q].row_id() by {
        assert(s[p].row_id() != s[q].row_id());
    }
}

/// Finds the row with this identifier in this principal's scope.
pub fn find_scoped<T: Row>(rows: &Vec<T>, owner: &str, id: &str) -> (r: Option<usize>)
    ensures
        match r {
            Some(i) => i < rows@.len() && rows@[i as int].row_id() == id@
                && rows@[i as int].row_owner() == owner@,
            None => !scoped_has(rows@, owner@, id@),
        },
{
    let mut i: usize = 0;
    while i < rows.len()
        invariant
            i <= rows@.len(),
            forall|j: int|
                0 <= j < i ==> !(#[trigger] rows@[j].row_id() == id@ && rows@[j].row_owner()
                    == owner@),
        decreases rows@.len() - i,
    {
        let row = &rows[i];
        if row.id_matches(id) && row.owner_matches(owner) {
            return Some(i);
        }
        i += 1;
    }
    None
}

/// Finds the row with this identifier, whoever owns it.
pub fn find_by_id<T: Row>(rows: &Vec<T>, id: &str) -> (r: Option<usize>)
    ensures
        match r {
            Some(i) => i < rows@.len() && rows@[i as int].row_id() == id@,
            None => !has_id(rows@, id@),
        },
{
    let mut i: usize = 0;
    while i < rows.len()
        invariant
            i <= rows@.len(),
            forall|j: int| 0 <= j < i ==> !(#[trigger] rows@[j].row_id() == id@),
        decreases rows@.len() - i,
    {
        let row = &rows[i];
        if row.id_matches(id) {
            return Some(i);
        }
        i += 1;
    }
    None
}

/// Inserts a row into an already ordered listing, keeping the order.
fn insert_sorted<T: Row>(out: &mut Vec<T>, x: T)
    requires
        rows_sorted(old(out)@),
    ensures
        rows_sorted(final(out)@),
        exists|p: int| 0 <= p <= old(out)@.len() && final(out)@ == old(out)@.insert(p, x),
{
    let ghost s = out@;
    let mut p: usize = 0;
    while p < out.len() && out[p].le(&x)
        invariant
            out@ == s,
            p <= out@.len(),
            forall|k: int| 0 <= k < p ==> s[k].spec_le(&x),
        decreases out@.len() - p,
    {
        p += 1;
    }
    proof {
        if (p as int) < s.len() {
            T::lemma_le_total(&s[p as int], &x);
            assert(x.spec_le(&s[p as int]));
        }
    }
    out.insert(p, x);
    proof {
        s.insert_ensures(p as int, x);
        let t = out@;
        assert forall|i: int, j: int| 0 <= i < j < t.len() implies t[i].spec_le(&t[j]) by {
            let pi = p as int;
            if i < pi && j < pi {
                assert(t[i] == s[i] && t[j] == s[j]);
            } else if i < pi && j == pi {
                assert(t[i] == s[i] && t[j] == x);
            } else if i < pi && j > pi {
                // the rows before the insertion point come before x, and x
                // before everything from the insertion point on
                assert(t[i] == s[i] && t[j] == s[j - 1]);
                T::lemma_le_trans(&s[i], &x, &s[pi]);
                if j - 1 > pi {
                    T::lemma_le_trans(&s[i], &s[pi], &s[j - 1]);
                }
            } else if i == pi {
                assert(t[i] == x && t[j] == s[j - 1]);
                if j - 1 > pi {
                    T::lemma_le_trans(&x, &s[pi], &s[j - 1]);
                }
            } else {
                assert(t[i] == s[i - 1] && t[j] == s[j - 1]);
                assert(s[i - 1].spec_le(&s[j - 1]));
            }
        }
    }
}

/// Lists every row of the table, in the table's order. Never fails.
pub fn list_all<T: Row>(rows: &Vec<T>) -> (r: Vec<T>)
    ensures
        rows_sorted(r@),
        r@.len() == rows@.len(),
        forall|i: int| 0 <= i < r@.len() ==> rows@.contains(#[trigger] r@[i]),
        forall|j: int| 0 <= j < rows@.len() ==> r@.contains(#[trigger] rows@[j]),
{
    let mut out: Vec<T> = Vec::new();
    let mut i: usize = 0;
    while i < rows.len()
        invariant
            i <= rows@.len(),
            rows_sorted(out@),
            out@.len() == i,
            forall|k: int| 0 <= k < out@.len() ==> rows@.contains(#[trigger] out@[k]),
            forall|j: int| 0 <= j < i ==> out@.contains(#[trigger] rows@[j]),
        decreases rows@.len() - i,
    {
        let ghost prev = out@;
        let x = rows[i].duplicate();
        assert(rows@.contains(x)) by {
            assert(rows@[i as int] == x);
        }
        insert_sorted(&mut out, x);
        proof {
            let p = choose|p: int| 0 <= p <= prev.len() && out@ == prev.insert(p, x);
            prev.insert_ensures(p, x);
            assert forall|k: int| 0 <= k < out@.len() implies rows@.contains(#[trigger] out@[k]) by {
                if k < p {
                    assert(out@[k] == prev[k]);
                } else if k == p {
                    assert(out@[k] == x);
                } else {
                    assert(out@[k] == prev[k - 1]);
                }
            }
            assert forall|e: T| prev.contains(e) implies out@.contains(e) by {
                let k = choose|k: int| 0 <= k < prev.len() && prev[k] == e;
                if k < p {
                    assert(out@[k] == e);
                } else {
                    assert(out@[k + 1] == e);
                }
            }
            assert(out@.contains(x)) by {
                assert(out@[p] == x);
            }
        }
        i += 1;
    }
    out
}

/// Lists this principal's rows, in the table's order. Nothing else is
/// listed, nothing owned is left out, and the listing never fails.
pub fn list_scoped<T: Row>(rows: &Vec<T>, owner: &str) -> (r: Vec<T>)
    ensures
        rows_sorted(r@),
        r@.len() == count_owned(rows@, owner@),
        forall|i: int| 0 <= i < r@.len() ==> #[trigger] r@[i].row_owner() == owner@,
        forall|i: int| 0 <= i < r@.len() ==> rows@.contains(#[trigger] r@[i]),
        forall|j: int|
            0 <= j < rows@.len() && #[trigger] rows@[j].row_owner() == owner@ ==> r@.contains(
                rows@[j],
            ),
{
    let mut out: Vec<T> = Vec::new();
    let mut i: usize = 0;
    while i < rows.len()
        invariant
            i <= rows@.len(),
            rows_sorted(out@),
            out@.len() == count_owned(rows@.subrange(0, i as int), owner@),
            forall|k: int| 0 <= k < out@.len() ==> #[trigger] out@[k].row_owner() == owner@,
            forall|k: int| 0 <= k < out@.len() ==> rows@.contains(#[trigger] out@[k]),
            forall|j: int|
                0 <= j < i && #[trigger] rows@[j].row_owner() == owner@ ==> out@.contains(rows@[j]),
        decreases rows@.len() - i,
    {
        let ghost prev = out@;
        let row = &rows[i];
        if row.owner_matches(owner) {
            let x = row.duplicate();
            assert(rows@.contains(x)) by {
                assert(rows@[i as int] == x);
            }
            insert_sorted(&mut out, x);
            proof {
                let p = choose|p: int| 0 <= p <= prev.len() && out@ == prev.insert(p, x);
                prev.insert_ensures(p, x);
                assert forall|k: int| 0 <= k < out@.len() implies rows@.contains(
                    #[trigger] out@[k],
                ) && out@[k].row_owner() == owner@ by {
                    if k < p {
                        assert(out@[k] == prev[k]);
                    } else if k == p {
                        assert(out@[k] == x);
                    } else {
                        assert(out@[k] == prev[k - 1]);
                    }
                }
                assert forall|e: T| prev.contains(e) implies out@.contains(e) by {
                    let k = choose|k: int| 0 <= k < prev.len() && prev[k] == e;
                    if k < p {
                        assert(out@[k] == e);
                    } else {
                        assert(out@[k + 1] == e);
                    }
                }
                assert(out@.contains(x)) by {
                    assert(out@[p] == x);
                }
            }
        }
        proof {
            let pre = rows@.subrange(0, i as int);
            let cur = rows@.subrange(0, i + 1);
            assert(cur.drop_last() =~= pre);
            assert(cur.last() == rows@[i as int]);
        }
        i += 1;
    }
    proof {
        assert(rows@.subrange(0, rows@.len() as int) =~= rows@);
    }
    out
}

} // verus!
