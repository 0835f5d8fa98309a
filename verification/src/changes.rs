//! What the change script and the change set are built from: staged edits
//! grouped by row, primary-key columns looked up by name, and the joining of
//! text pieces.
use vstd::prelude::*;
use crate::pending::CellEdit;
use crate::schema::Column;

verus! {

/// `list` joined with `sep` between consecutive items (`[String]::join`).
pub open spec fn seq_join(list: Seq<Seq<char>>, sep: Seq<char>) -> Seq<char>
    decreases list.len(),
{
    if list.len() == 0 {
        Seq::<char>::empty()
    } else if list.len() == 1 {
        list[0]
    } else {
        seq_join(list.drop_last(), sep) + sep + list.last()
    }
}

/// The items of `list` one after the other.
pub open spec fn seq_concat(list: Seq<Seq<char>>) -> Seq<char>
    decreases list.len(),
{
    if list.len() == 0 {
        Seq::<char>::empty()
    } else {
        seq_concat(list.drop_last()) + list.last()
    }
}

pub proof fn lemma_join_step(list: Seq<Seq<char>>, sep: Seq<char>, i: int)
    requires
        0 <= i < list.len(),
    ensures
        seq_join(list.take(i + 1), sep) == if i == 0 {
            list[0]
        } else {
            seq_join(list.take(i), sep) + sep + list[i]
        },
{
    assert(list.take(i + 1).drop_last() =~= list.take(i));
}

pub proof fn lemma_concat_step(list: Seq<Seq<char>>, i: int)
    requires
        0 <= i < list.len(),
    ensures
        seq_concat(list.take(i + 1)) == seq_concat(list.take(i)) + list[i],
{
    assert(list.take(i + 1).drop_last() =~= list.take(i));
}

/// Position of the first group of `row`, if any.
pub open spec fn find_group(g: Seq<(usize, Seq<usize>)>, row: usize) -> Option<int>
    decreases g.len(),
{
    if g.len() == 0 {
        None
    } else if g[0].0 == row {
        Some(0)
    } else {
        match find_group(g.drop_first(), row) {
            Some(j) => Some(j + 1),
            None => None,
        }
    }
}

/// The staged edits grouped by row: one group per edited row, in the order in
/// which the rows first occur, each holding the positions of that row's edits
/// in order.
pub open spec fn group_rows<T>(edits: Seq<CellEdit<T>>) -> Seq<(usize, Seq<usize>)>
    decreases edits.len(),
{
    if edits.len() == 0 {
        Seq::empty()
    } else {
        let g = group_rows(edits.drop_last());
        let n = (edits.len() - 1) as usize;
        let r = edits.last().row;
        match find_group(g, r) {
            Some(j) => g.update(j, (r, g[j].1.push(n))),
            None => g.push((r, seq![n])),
        }
    }
}

proof fn lemma_find_group(g: Seq<(usize, Seq<usize>)>, row: usize, i: int)
    requires
        0 <= i <= g.len(),
        forall|j: int| 0 <= j < i ==> (#[trigger] g[j]).0 != row,
        i == g.len() || g[i].0 == row,
    ensures
        find_group(g, row) == if i == g.len() {
            None::<int>
        } else {
            Some(i)
        },
    decreases i,
{
    if i > 0 {
        let t = g.drop_first();
        assert(g[0].0 != row);
        assert forall|j: int| 0 <= j < i - 1 implies (#[trigger] t[j]).0 != row by {
            assert(t[j] == g[j + 1]);
        }
        if i < g.len() {
            assert(t[i - 1] == g[i]);
        }
        lemma_find_group(t, row, i - 1);
    }
}

proof fn lemma_group_rows_bounded<T>(edits: Seq<CellEdit<T>>)
    requires
        edits.len() <= usize::MAX,
    ensures
        forall|k: int| 0 <= k < group_rows(edits).len() ==> (#[trigger] group_rows(edits)[k]).1.len() > 0,
        forall|k: int, m: int|
            0 <= k < group_rows(edits).len() && 0 <= m < group_rows(edits)[k].1.len() ==> (#[trigger] group_rows(edits)[k].1[m]) < edits.len() && edits[group_rows(edits)[k].1[m] as int].row == group_rows(edits)[k].0,
    decreases edits.len(),
{
    if edits.len() > 0 {
        let p = edits.drop_last();
        lemma_group_rows_bounded(p);
        let g = group_rows(p);
        lemma_find_group_some(g, edits.last().row);
        assert forall|k: int, m: int|
            0 <= k < group_rows(edits).len() && 0 <= m < group_rows(
                edits,
            )[k].1.len() implies (#[trigger] group_rows(edits)[k].1[m]) < edits.len()
            && edits[group_rows(edits)[k].1[m] as int].row == group_rows(edits)[k].0 by {
            let r = edits.last().row;
            let gk = group_rows(edits)[k];
            assert(gk.1.len() > 0);
            match find_group(g, r) {
                Some(j) => {
                    if k != j {
                        assert(gk == g[k]);
                        assert(g[k].1[m] < p.len());
                        assert(edits[g[k].1[m] as int] == p[g[k].1[m] as int]);
                    } else {
                        if m < g[j].1.len() {
                            assert(gk.1[m] == g[j].1[m]);
                            assert(g[j].1[m] < p.len());
                            assert(edits[g[j].1[m] as int] == p[g[j].1[m] as int]);
                        } else {
                            assert(gk.1[m] == edits.len() - 1);
                        }
                    }
                },
                None => {
                    if k < g.len() {
                        assert(gk == g[k]);
                        assert(g[k].1[m] < p.len());
                        assert(edits[g[k].1[m] as int] == p[g[k].1[m] as int]);
                    } else {
                        assert(gk.1[m] == edits.len() - 1);
                    }
                },
            }
        }
    }
}

proof fn lemma_find_group_some(g: Seq<(usize, Seq<usize>)>, row: usize)
    ensures
        find_group(g, row) matches Some(j) ==> 0 <= j < g.len() && g[j].0 == row,
    decreases g.len(),
{
    if g.len() > 0 && g[0].0 != row {
        lemma_find_group_some(g.drop_first(), row);
    }
}

/// Every staged edit lies in some group, and every group lists edits of its
/// row only.
pub proof fn lemma_groups_are_rows<T>(edits: Seq<CellEdit<T>>)
    requires
        edits.len() <= usize::MAX,
    ensures
        forall|k: int| 0 <= k < group_rows(edits).len() ==> (#[trigger] group_rows(edits)[k]).1.len() > 0,
        forall|k: int, m: int|
            0 <= k < group_rows(edits).len() && 0 <= m < group_rows(edits)[k].1.len() ==> (#[trigger] group_rows(edits)[k].1[m]) < edits.len() && edits[group_rows(edits)[k].1[m] as int].row == group_rows(edits)[k].0,
{
    lemma_group_rows_bounded(edits);
}

/// Groups the staged edits by row (see `group_rows`); returns the rows and,
/// for each, the positions of its edits.
pub fn group_edits_by_row<T>(edits: &[CellEdit<T>]) -> (r: (Vec<usize>, Vec<Vec<usize>>))
    ensures
        r.0@.len() == r.1@.len(),
        r.0@.len() == group_rows(edits@).len(),
        forall|k: int|
            0 <= k < r.0@.len() ==> (#[trigger] group_rows(edits@)[k]) == (r.0@[k], r.1@[k]@),
{
    let mut rows: Vec<usize> = Vec::new();
    let mut members: Vec<Vec<usize>> = Vec::new();
    let mut i: usize = 0;
    while i < edits.len()
        invariant
            i <= edits@.len(),
            rows@.len() == members@.len(),
            rows@.len() == group_rows(edits@.take(i as int)).len(),
            forall|k: int|
                0 <= k < rows@.len() ==> (#[trigger] group_rows(edits@.take(i as int))[k]) == (
                    rows@[k],
                    members@[k]@,
                ),
        decreases edits.len() - i,
    {
        let row = edits[i].row;
        let ghost g = group_rows(edits@.take(i as int));
        proof {
            assert(edits@.take(i + 1).drop_last() =~= edits@.take(i as int));
            assert(edits@.take(i + 1).last() == edits@[i as int]);
        }
        let mut j: usize = 0;
        while j < rows.len() && rows[j] != row
            invariant
                j <= rows@.len(),
                rows@.len() == g.len(),
                forall|k: int| 0 <= k < rows@.len() ==> (#[trigger] g[k]).0 == rows@[k],
                forall|k: int| 0 <= k < j ==> (#[trigger] g[k]).0 != row,
            decreases rows.len() - j,
        {
            assert(g[j as int].0 == rows@[j as int]);
            j += 1;
        }
        proof {
            if j < rows.len() {
                assert(g[j as int].0 == rows@[j as int]);
            }
            lemma_find_group(g, row, j as int);
        }
        if j < rows.len() {
            let mut m = members[j].clone();
            assert(m@ == members@[j as int]@) by {
                assert(m@ =~= members@[j as int]@);
            }
            m.push(i);
            members.set(j, m);
        } else {
            rows.push(row);
            let mut m: Vec<usize> = Vec::new();
            m.push(i);
            members.push(m);
        }
        i += 1;
        proof {
            let g2 = group_rows(edits@.take(i as int));
            assert forall|k: int| 0 <= k < rows@.len() implies (#[trigger] g2[k]) == (
                rows@[k],
                members@[k]@,
            ) by {
                if k < g.len() && k != j {
                    assert(g2[k] == g[k]);
                } else if k < g.len() {
                    assert(members@[k]@ =~= g[k].1.push((i - 1) as usize));
                } else {
                    assert(members@[k]@ =~= seq![(i - 1) as usize]);
                }
            }
        }
    }
    assert(edits@.take(edits.len() as int) =~= edits@);
    (rows, members)
}

/// Position of the first column named `name` (or the number of columns when
/// no column has that name).
pub open spec fn column_position(cols: Seq<Column>, name: Seq<char>) -> int
    decreases cols.len(),
{
    if cols.len() == 0 {
        0
    } else if cols[0].name@ == name {
        0
    } else {
        1 + column_position(cols.drop_first(), name)
    }
}

proof fn lemma_column_position(cols: Seq<Column>, name: Seq<char>, i: int)
    requires
        0 <= i <= cols.len(),
        forall|j: int| 0 <= j < i ==> (#[trigger] cols[j]).name@ != name,
        i == cols.len() || cols[i].name@ == name,
    ensures
        column_position(cols, name) == i,
    decreases i,
{
    if i > 0 {
        let t = cols.drop_first();
        assert(cols[0].name@ != name);
        assert forall|j: int| 0 <= j < i - 1 implies (#[trigger] t[j]).name@ != name by {
            assert(t[j] == cols[j + 1]);
        }
        if i < cols.len() {
            assert(t[i - 1] == cols[i]);
        }
        lemma_column_position(t, name, i - 1);
    }
}

/// The first column named `name` (`iter().position(|c| c.name == name)`).
pub fn find_column(cols: &[Column], name: &str) -> (r: Option<usize>)
    ensures
        r matches Some(i) ==> i == column_position(cols@, name@) && i < cols@.len(),
        r is None ==> column_position(cols@, name@) == cols@.len(),
{
    let target = String::from_str(name);
    let mut i: usize = 0;
    while i < cols.len()
        invariant
            i <= cols@.len(),
            target@ == name@,
            forall|j: int| 0 <= j < i ==> (#[trigger] cols@[j]).name@ != name@,
        decreases cols.len() - i,
    {
        if cols[i].name == target {
            proof {
                lemma_column_position(cols@, name@, i as int);
            }
            return Some(i);
        }
        i += 1;
    }
    proof {
        lemma_column_position(cols@, name@, i as int);
    }
    None
}

/// Every item of a joined list appears, whole, in the joined text.
pub proof fn lemma_join_contains(list: Seq<Seq<char>>, sep: Seq<char>, k: int)
    requires
        0 <= k < list.len(),
    ensures
        exists|a: Seq<char>, b: Seq<char>| seq_join(list, sep) == a + list[k] + b,
    decreases list.len(),
{
    if list.len() == 1 {
        assert(seq_join(list, sep) =~= Seq::<char>::empty() + list[k] + Seq::<char>::empty());
    } else if k == list.len() - 1 {
        let a = seq_join(list.drop_last(), sep) + sep;
        assert(seq_join(list, sep) =~= a + list[k] + Seq::<char>::empty());
    } else {
        lemma_join_contains(list.drop_last(), sep, k);
        let (a, b) = choose|a: Seq<char>, b: Seq<char>| seq_join(list.drop_last(), sep) == a + list.drop_last()[k] + b;
        assert(seq_join(list, sep) =~= a + list[k] + (b + sep + list.last()));
    }
}

} // verus!
