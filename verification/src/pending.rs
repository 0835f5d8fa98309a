//! The collections that hold a grid's pending changes: cell edits keyed by
//! `(row, column)` and the set of rows marked for deletion.
//!
//! Both keep their entries in insertion order, with no key twice, so that the
//! scripts and change sets built from them list the changes in a fixed order.
use vstd::prelude::*;

verus! {

/// One staged cell change.
pub struct CellEdit<T> {
    pub row: usize,
    pub col: usize,
    pub value: T,
}

/// Some entry of `s` has the key `(row, col)`.
pub open spec fn has_edit<T>(s: Seq<CellEdit<T>>, row: usize, col: usize) -> bool {
    exists|i: int| 0 <= i < s.len() && (#[trigger] s[i]).row == row && s[i].col == col
}

/// The position of the entry with key `(row, col)`.
pub open spec fn edit_index<T>(s: Seq<CellEdit<T>>, row: usize, col: usize) -> int {
    choose|i: int| 0 <= i < s.len() && (#[trigger] s[i]).row == row && s[i].col == col
}

/// No two entries share a key.
pub open spec fn edit_keys_unique<T>(s: Seq<CellEdit<T>>) -> bool {
    forall|i: int, j: int|
        0 <= i < j < s.len() ==> !((#[trigger] s[i]).row == (#[trigger] s[j]).row && s[i].col
            == s[j].col)
}

/// The value staged for `(row, col)`, if any.
pub open spec fn lookup_edit<T>(s: Seq<CellEdit<T>>, row: usize, col: usize) -> Option<T> {
    if has_edit(s, row, col) {
        Some(s[edit_index(s, row, col)].value)
    } else {
        None
    }
}

/// The entries after staging `value` for `(row, col)`: an existing entry keeps
/// its place and takes the new value, a new key goes last.
pub open spec fn insert_edit<T>(s: Seq<CellEdit<T>>, row: usize, col: usize, value: T) -> Seq<
    CellEdit<T>,
> {
    if has_edit(s, row, col) {
        s.update(edit_index(s, row, col), CellEdit { row, col, value })
    } else {
        s.push(CellEdit { row, col, value })
    }
}

/// The entries after dropping the one with key `(row, col)`.
pub open spec fn remove_edit<T>(s: Seq<CellEdit<T>>, row: usize, col: usize) -> Seq<
    CellEdit<T>,
> {
    if has_edit(s, row, col) {
        s.remove(edit_index(s, row, col))
    } else {
        s
    }
}

/// Pending cell edits, keyed by `(row, column)`: a map held as a list of
/// entries with no key twice (the type's invariant). A hash map would walk
/// its entries in an order that changes from run to run; this list keeps the
/// order in which cells were first staged, so the scripts built from it are
/// the same every time.
pub struct PendingEdits<T> {
    entries: Vec<CellEdit<T>>,
}

impl<T> View for PendingEdits<T> {
    type V = Seq<CellEdit<T>>;

    closed spec fn view(&self) -> Seq<CellEdit<T>> {
        self.entries@
    }
}

impl<T> PendingEdits<T> {
    #[verifier::type_invariant]
    spec fn keys_unique(self) -> bool {
        edit_keys_unique(self.entries@)
    }

    /// No edits.
    pub fn new() -> (r: Self)
        ensures
            r@ == Seq::<CellEdit<T>>::empty(),
    {
        PendingEdits { entries: Vec::new() }
    }

    pub fn len(&self) -> (r: usize)
        ensures
            r == self@.len(),
            edit_keys_unique(self@),
    {
        proof {
            use_type_invariant(self);
        }
        self.entries.len()
    }

    pub fn is_empty(&self) -> (r: bool)
        ensures
            r == (self@.len() == 0),
            edit_keys_unique(self@),
    {
        proof {
            use_type_invariant(self);
        }
        self.entries.len() == 0
    }

    /// The entries in order.
    pub fn as_slice(&self) -> (r: &[CellEdit<T>])
        ensures
            r@ == self@,
            edit_keys_unique(self@),
    {
        proof {
            use_type_invariant(self);
        }
        self.entries.as_slice()
    }

    /// Drops every edit.
    pub fn clear(&mut self)
        ensures
            final(self)@ == Seq::<CellEdit<T>>::empty(),
    {
        self.entries = Vec::new();
    }

    /// The position of the key `(row, col)`, if present.
    fn find(&self, row: usize, col: usize) -> (r: Option<usize>)
        ensures
            edit_keys_unique(self@),
            r is None <==> !has_edit(self@, row, col),
            r matches Some(i) ==> i == edit_index(self@, row, col) && i < self@.len(),
    {
        proof {
            use_type_invariant(self);
        }
        let mut i: usize = 0;
        while i < self.entries.len()
            invariant
                i <= self.entries@.len(),
                edit_keys_unique(self.entries@),
                forall|j: int|
                    0 <= j < i ==> !((#[trigger] self.entries@[j]).row == row
                        && self.entries@[j].col == col),
            decreases self.entries.len() - i,
        {
            if self.entries[i].row == row && self.entries[i].col == col {
                proof {
                    let k = edit_index(self@, row, col);
                    assert(self@[i as int].row == row && self@[i as int].col == col);
                    if k != i {
                        if k < i {
                            assert(self@[k].row == row);
                        } else {
                            assert(!(self@[i as int].row == self@[k].row && self@[i as int].col
                                == self@[k].col));
                        }
                    }
                }
                return Some(i);
            }
            i += 1;
        }
        None
    }

    /// The value staged for `(row, col)` (`HashMap::get`).
    pub fn get(&self, row: usize, col: usize) -> (r: Option<&T>)
        ensures
            edit_keys_unique(self@),
            r is None <==> !has_edit(self@, row, col),
            r matches Some(v) ==> lookup_edit(self@, row, col) == Some(*v),
    {
        match self.find(row, col) {
            Some(i) => Some(&self.entries[i].value),
            None => None,
        }
    }

    /// `HashMap::contains_key`.
    pub fn contains_key(&self, row: usize, col: usize) -> (r: bool)
        ensures
            r == has_edit(self@, row, col),
    {
        self.find(row, col).is_some()
    }

    /// Stages `value` for `(row, col)` (`HashMap::insert`).
    pub fn insert(&mut self, row: usize, col: usize, value: T)
        ensures
            final(self)@ == insert_edit(old(self)@, row, col, value),
            edit_keys_unique(final(self)@),
    {
        let found = self.find(row, col);
        let mut entries: Vec<CellEdit<T>> = Vec::new();
        std::mem::swap(&mut entries, &mut self.entries);
        let ghost s = entries@;
        match found {
            Some(i) => {
                entries.set(i, CellEdit { row, col, value });
            },
            None => {
                entries.push(CellEdit { row, col, value });
            },
        }
        proof {
            let t = entries@;
            assert forall|a: int, b: int| 0 <= a < b < t.len() implies !((#[trigger] t[a]).row
                == (#[trigger] t[b]).row && t[a].col == t[b].col) by {
                if found is None {
                    if b == s.len() {
                        assert(t[a] == s[a]);
                    }
                } else {
                    let k = edit_index(s, row, col);
                    if a == k {
                        assert(t[b] == s[b]);
                        assert(!(s[a].row == s[b].row && s[a].col == s[b].col));
                    } else if b == k {
                        assert(t[a] == s[a]);
                        assert(!(s[a].row == s[b].row && s[a].col == s[b].col));
                    }
                }
            }
        }
        self.entries = entries;
    }

    /// Drops the edit for `(row, col)` if there is one (`HashMap::remove`).
    pub fn remove(&mut self, row: usize, col: usize)
        ensures
            final(self)@ == remove_edit(old(self)@, row, col),
            edit_keys_unique(final(self)@),
    {
        let found = self.find(row, col);
        let mut entries: Vec<CellEdit<T>> = Vec::new();
        std::mem::swap(&mut entries, &mut self.entries);
        let ghost s = entries@;
        match found {
            Some(i) => {
                entries.remove(i);
            },
            None => {},
        }
        proof {
            let t = entries@;
            if let Some(k) = found {
                assert forall|a: int, b: int| 0 <= a < b < t.len() implies !((#[trigger] t[a]).row
                    == (#[trigger] t[b]).row && t[a].col == t[b].col) by {
                    let a2 = if a < k { a } else { a + 1 };
                    let b2 = if b < k { b } else { b + 1 };
                    assert(t[a] == s[a2]);
                    assert(t[b] == s[b2]);
                    assert(!((s[a2]).row == (s[b2]).row && s[a2].col == s[b2].col));
                }
            }
        }
        self.entries = entries;
    }
}

/// Law: after staging `value` for a key, that key reads back `value` and every
/// other key reads back what it read before.
pub proof fn lemma_insert_then_lookup<T>(
    s: Seq<CellEdit<T>>,
    row: usize,
    col: usize,
    value: T,
    r2: usize,
    c2: usize,
)
    requires
        edit_keys_unique(s),
    ensures
        lookup_edit(insert_edit(s, row, col, value), row, col) == Some(value),
        !(r2 == row && c2 == col) ==> lookup_edit(insert_edit(s, row, col, value), r2, c2)
            == lookup_edit(s, r2, c2),
{
    let t = insert_edit(s, row, col, value);
    lemma_insert_keeps_unique(s, row, col, value);
    let n = if has_edit(s, row, col) {
        edit_index(s, row, col)
    } else {
        s.len() as int
    };
    assert(t[n].row == row && t[n].col == col);
    lemma_lookup_at(t, row, col, n);
    if !(r2 == row && c2 == col) {
        if has_edit(s, r2, c2) {
            let m = edit_index(s, r2, c2);
            assert(t[m] == s[m]);
            lemma_lookup_at(t, r2, c2, m);
        } else {
            if has_edit(t, r2, c2) {
                let m = edit_index(t, r2, c2);
                if m != n {
                    assert(t[m] == s[m]);
                }
            }
        }
    }
}

/// Law: after dropping a key, that key reads back nothing and every other key
/// reads back what it read before.
pub proof fn lemma_remove_then_lookup<T>(s: Seq<CellEdit<T>>, row: usize, col: usize, r2: usize, c2: usize)
    requires
        edit_keys_unique(s),
    ensures
        lookup_edit(remove_edit(s, row, col), row, col) is None,
        !(r2 == row && c2 == col) ==> lookup_edit(remove_edit(s, row, col), r2, c2)
            == lookup_edit(s, r2, c2),
{
    let t = remove_edit(s, row, col);
    if has_edit(s, row, col) {
        let k = edit_index(s, row, col);
        if has_edit(t, row, col) {
            let m = edit_index(t, row, col);
            let m2 = if m < k { m } else { m + 1 };
            assert(t[m] == s[m2]);
            assert(s[k].row == row && s[k].col == col);
            if m2 < k {
                assert(!(s[m2].row == s[k].row && s[m2].col == s[k].col));
            } else {
                assert(!(s[k].row == s[m2].row && s[k].col == s[m2].col));
            }
        }
        if !(r2 == row && c2 == col) {
            lemma_remove_keeps_unique(s, row, col);
            if has_edit(s, r2, c2) {
                let m = edit_index(s, r2, c2);
                assert(m != k);
                let m1 = if m < k { m } else { m - 1 };
                assert(t[m1] == s[m]);
                lemma_lookup_at(t, r2, c2, m1);
            } else if has_edit(t, r2, c2) {
                let m = edit_index(t, r2, c2);
                let m2 = if m < k { m } else { m + 1 };
                assert(t[m] == s[m2]);
            }
        }
    }
}

proof fn lemma_lookup_at<T>(s: Seq<CellEdit<T>>, row: usize, col: usize, n: int)
    requires
        edit_keys_unique(s),
        0 <= n < s.len(),
        s[n].row == row,
        s[n].col == col,
    ensures
        has_edit(s, row, col),
        edit_index(s, row, col) == n,
        lookup_edit(s, row, col) == Some(s[n].value),
{
    assert(has_edit(s, row, col));
    let k = edit_index(s, row, col);
    if k < n {
        assert(!(s[k].row == s[n].row && s[k].col == s[n].col));
    } else if k > n {
        assert(!(s[n].row == s[k].row && s[n].col == s[k].col));
    }
}

proof fn lemma_insert_keeps_unique<T>(s: Seq<CellEdit<T>>, row: usize, col: usize, value: T)
    requires
        edit_keys_unique(s),
    ensures
        edit_keys_unique(insert_edit(s, row, col, value)),
{
    let t = insert_edit(s, row, col, value);
    assert forall|a: int, b: int| 0 <= a < b < t.len() implies !((#[trigger] t[a]).row
        == (#[trigger] t[b]).row && t[a].col == t[b].col) by {
        if !has_edit(s, row, col) {
            if b == s.len() {
                assert(t[a] == s[a]);
            }
        } else {
            let k = edit_index(s, row, col);
            if a == k {
                assert(t[b] == s[b]);
                assert(!(s[a].row == s[b].row && s[a].col == s[b].col));
            } else if b == k {
                assert(t[a] == s[a]);
                assert(!(s[a].row == s[b].row && s[a].col == s[b].col));
            }
        }
    }
}

proof fn lemma_remove_keeps_unique<T>(s: Seq<CellEdit<T>>, row: usize, col: usize)
    requires
        edit_keys_unique(s),
    ensures
        edit_keys_unique(remove_edit(s, row, col)),
{
    let t = remove_edit(s, row, col);
    if has_edit(s, row, col) {
        let k = edit_index(s, row, col);
        assert forall|a: int, b: int| 0 <= a < b < t.len() implies !((#[trigger] t[a]).row
            == (#[trigger] t[b]).row && t[a].col == t[b].col) by {
            let a2 = if a < k { a } else { a + 1 };
            let b2 = if b < k { b } else { b + 1 };
            assert(t[a] == s[a2]);
            assert(t[b] == s[b2]);
            assert(!((s[a2]).row == (s[b2]).row && s[a2].col == s[b2].col));
        }
    }
}

/// The marked rows after toggling `row`: unmarked when it was marked,
/// marked (last) when it was not.
pub open spec fn toggle_row(s: Seq<usize>, row: usize) -> Seq<usize> {
    if s.contains(row) {
        s.remove(s.index_of(row))
    } else {
        s.push(row)
    }
}

/// Law: toggling a row twice marks the same rows as before.
pub proof fn lemma_toggle_twice(s: Seq<usize>, row: usize)
    requires
        s.no_duplicates(),
    ensures
        toggle_row(toggle_row(s, row), row).to_set() == s.to_set(),
{
    let t = toggle_row(s, row);
    if s.contains(row) {
        let k = s.index_of(row);
        assert(s[k] == row);
        assert(!t.contains(row)) by {
            if t.contains(row) {
                let j = t.index_of(row);
                let j2 = if j < k { j } else { j + 1 };
                assert(t[j] == s[j2]);
            }
        }
        let u = toggle_row(t, row);
        assert(u == t.push(row));
        assert forall|x: usize| u.to_set().contains(x) == s.to_set().contains(x) by {
            if s.contains(x) {
                let i = s.index_of(x);
                if x != row {
                    let i1 = if i < k { i } else { i - 1 };
                    assert(i != k);
                    assert(t[i1] == s[i]);
                    assert(u[i1] == x);
                } else {
                    assert(u[u.len() - 1] == row);
                }
            }
            if u.contains(x) {
                let i = u.index_of(x);
                if i < t.len() {
                    let i2 = if i < k { i } else { i + 1 };
                    assert(t[i] == s[i2]);
                }
            }
        }
        assert(u.to_set() =~= s.to_set());
    } else {
        assert(t.contains(row)) by {
            assert(t[t.len() - 1] == row);
        }
        let n = t.index_of(row);
        assert(n == s.len()) by {
            if n < s.len() {
                assert(t[n] == s[n]);
            }
        }
        let u = toggle_row(t, row);
        assert(u =~= s);
    }
}

/// A set of row indices held as a list with no row twice (the type's
/// invariant), in the order the rows were marked, so that the deletes built
/// from it come out in that order every time, where a hash set's order would
/// vary.
pub struct RowSet {
    rows: Vec<usize>,
}

impl View for RowSet {
    type V = Seq<usize>;

    closed spec fn view(&self) -> Seq<usize> {
        self.rows@
    }
}

impl RowSet {
    #[verifier::type_invariant]
    spec fn no_duplicates(self) -> bool {
        self.rows@.no_duplicates()
    }

    pub fn new() -> (r: Self)
        ensures
            r@ == Seq::<usize>::empty(),
    {
        RowSet { rows: Vec::new() }
    }

    pub fn len(&self) -> (r: usize)
        ensures
            r == self@.len(),
            self@.no_duplicates(),
    {
        proof {
            use_type_invariant(self);
        }
        self.rows.len()
    }

    pub fn is_empty(&self) -> (r: bool)
        ensures
            r == (self@.len() == 0),
            self@.no_duplicates(),
    {
        proof {
            use_type_invariant(self);
        }
        self.rows.len() == 0
    }

    /// The rows in order.
    pub fn as_slice(&self) -> (r: &[usize])
        ensures
            r@ == self@,
            self@.no_duplicates(),
    {
        proof {
            use_type_invariant(self);
        }
        self.rows.as_slice()
    }

    pub fn clear(&mut self)
        ensures
            final(self)@ == Seq::<usize>::empty(),
    {
        self.rows = Vec::new();
    }

    fn position(&self, row: usize) -> (r: Option<usize>)
        ensures
            self@.no_duplicates(),
            r is None <==> !self@.contains(row),
            r matches Some(i) ==> i < self@.len() && self@[i as int] == row && i
                == self@.index_of(row),
    {
        proof {
            use_type_invariant(self);
        }
        let mut i: usize = 0;
        while i < self.rows.len()
            invariant
                i <= self.rows@.len(),
                self.rows@.no_duplicates(),
                forall|j: int| 0 <= j < i ==> self.rows@[j] != row,
            decreases self.rows.len() - i,
        {
            if self.rows[i] == row {
                proof {
                    assert(self@[i as int] == row);
                    let k = self@.index_of(row);
                    assert(self@.contains(row));
                    if k != i {
                        assert(self@[k] == row);
                    }
                }
                return Some(i);
            }
            i += 1;
        }
        None
    }

    /// `HashSet::contains`.
    pub fn contains(&self, row: usize) -> (r: bool)
        ensures
            r == self@.contains(row),
            self@.no_duplicates(),
    {
        self.position(row).is_some()
    }

    /// Marks `row` if it is unmarked, unmarks it otherwise.
    pub fn toggle(&mut self, row: usize)
        ensures
            final(self)@ == toggle_row(old(self)@, row),
            final(self)@.no_duplicates(),
    {
        if self.contains(row) {
            self.remove(row);
        } else {
            self.insert(row);
        }
    }

    /// `HashSet::insert`: adds `row` at the end unless it is already there.
    pub fn insert(&mut self, row: usize)
        ensures
            final(self)@ == if old(self)@.contains(row) {
                old(self)@
            } else {
                old(self)@.push(row)
            },
            final(self)@.no_duplicates(),
    {
        if self.position(row).is_none() {
            let mut rows: Vec<usize> = Vec::new();
            std::mem::swap(&mut rows, &mut self.rows);
            let ghost s = rows@;
            rows.push(row);
            assert(rows@.no_duplicates()) by {
                assert forall|a: int, b: int|
                    0 <= a < rows@.len() && 0 <= b < rows@.len() && a != b implies rows@[a]
                    != rows@[b] by {
                    if a == s.len() {
                        assert(!s.contains(row));
                        assert(rows@[b] == s[b]);
                    } else if b == s.len() {
                        assert(rows@[a] == s[a]);
                    }
                }
            }
            self.rows = rows;
        }
        proof {
            use_type_invariant(&*self);
        }
    }

    /// `HashSet::remove`.
    pub fn remove(&mut self, row: usize)
        ensures
            final(self)@ == if old(self)@.contains(row) {
                old(self)@.remove(old(self)@.index_of(row))
            } else {
                old(self)@
            },
            !final(self)@.contains(row),
            final(self)@.no_duplicates(),
    {
        match self.position(row) {
            Some(i) => {
                let mut rows: Vec<usize> = Vec::new();
                std::mem::swap(&mut rows, &mut self.rows);
                let ghost s = rows@;
                rows.remove(i);
                assert(rows@.no_duplicates() && !rows@.contains(row)) by {
                    assert forall|a: int, b: int|
                        0 <= a < rows@.len() && 0 <= b < rows@.len() && a != b implies rows@[a]
                        != rows@[b] by {
                        let a2 = if a < i { a } else { a + 1 };
                        let b2 = if b < i { b } else { b + 1 };
                        assert(rows@[a] == s[a2]);
                        assert(rows@[b] == s[b2]);
                    }
                    if rows@.contains(row) {
                        let a = rows@.index_of(row);
                        let a2 = if a < i { a } else { a + 1 };
                        assert(rows@[a] == s[a2]);
                    }
                }
                self.rows = rows;
            },
            None => {},
        }
        proof {
            use_type_invariant(&*self);
        }
    }
}

/// Every entry of `s` satisfies `p`.
pub open spec fn all_edits<T>(s: Seq<CellEdit<T>>, p: spec_fn(CellEdit<T>) -> bool) -> bool {
    forall|i: int| 0 <= i < s.len() ==> p(#[trigger] s[i])
}

/// Dropping a key keeps a property that every entry had.
pub proof fn lemma_remove_keeps_all<T>(s: Seq<CellEdit<T>>, row: usize, col: usize, p: spec_fn(CellEdit<T>) -> bool)
    requires
        all_edits(s, p),
    ensures
        all_edits(remove_edit(s, row, col), p),
{
    if has_edit(s, row, col) {
        let k = edit_index(s, row, col);
        let t = remove_edit(s, row, col);
        assert forall|i: int| 0 <= i < t.len() implies p(#[trigger] t[i]) by {
            if i < k {
                assert(t[i] == s[i]);
            } else {
                assert(t[i] == s[i + 1]);
            }
        }
    }
}

/// Staging an entry that has a property keeps that property on every entry.
pub proof fn lemma_insert_keeps_all<T>(
    s: Seq<CellEdit<T>>,
    row: usize,
    col: usize,
    value: T,
    p: spec_fn(CellEdit<T>) -> bool,
)
    requires
        all_edits(s, p),
        p(CellEdit { row, col, value }),
    ensures
        all_edits(insert_edit(s, row, col, value), p),
{
    let t = insert_edit(s, row, col, value);
    assert forall|i: int| 0 <= i < t.len() implies p(#[trigger] t[i]) by {
        if has_edit(s, row, col) {
            if i != edit_index(s, row, col) {
                assert(t[i] == s[i]);
            }
        } else if i < s.len() {
            assert(t[i] == s[i]);
        }
    }
}

/// Law: staging a value for a key and then dropping that key leaves the
/// entries as dropping the key alone would; when the key had no entry, as
/// they were.
pub proof fn lemma_insert_then_remove<T>(s: Seq<CellEdit<T>>, row: usize, col: usize, value: T)
    requires
        edit_keys_unique(s),
    ensures
        remove_edit(insert_edit(s, row, col, value), row, col) == remove_edit(s, row, col),
        !has_edit(s, row, col) ==> remove_edit(insert_edit(s, row, col, value), row, col) == s,
{
    let t = insert_edit(s, row, col, value);
    lemma_insert_keeps_unique(s, row, col, value);
    if has_edit(s, row, col) {
        let k = edit_index(s, row, col);
        assert(t[k].row == row && t[k].col == col);
        lemma_lookup_at(t, row, col, k);
        assert(t.remove(k) =~= s.remove(k));
    } else {
        let n = s.len() as int;
        assert(t[n].row == row && t[n].col == col);
        lemma_lookup_at(t, row, col, n);
        assert(t.remove(n) =~= s);
    }
}

} // verus!
