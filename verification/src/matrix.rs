//! The response table: a sparse table keyed by (search-line index >= 1,
//! search depth), with keyed overwrite and a "best known" accessor for
//! line 1. One structure serves both scores and principal variations.

use vstd::prelude::*;

verus! {

/// Sparse keyed table. Its view is the map from (line index, depth) to the
/// deep view of the most recently stored value for that key.
#[derive(Clone, Debug)]
pub struct Matrix<T> {
    rows: Vec<Vec<Option<T>>>,
}

impl<T: DeepView> View for Matrix<T> {
    type V = Map<(int, int), T::V>;

    closed spec fn view(&self) -> Map<(int, int), T::V> {
        Map::new(
            |k: (int, int)|
                1 <= k.0 <= self.rows@.len() && 0 <= k.1 < self.rows@[k.0 - 1]@.len()
                    && self.rows@[k.0 - 1]@[k.1] is Some,
            |k: (int, int)| self.rows@[k.0 - 1]@[k.1].unwrap().deep_view(),
        )
    }
}

impl<T: DeepView> Matrix<T> {
    /// Validity: a row never ends in an empty cell. Rows only ever grow up
    /// to the depth being written, so the last cell of a row is the deepest
    /// entry recorded for that line.
    pub closed spec fn inv(&self) -> bool {
        forall|i: int|
            0 <= i < self.rows@.len() ==> (self.rows@[i]@.len() == 0
                || self.rows@[i]@.last() is Some)
    }

    pub fn new() -> (m: Matrix<T>)
        ensures
            m.inv(),
            m@ == Map::<(int, int), T::V>::empty(),
    {
        let m = Matrix::<T> { rows: Vec::new() };
        proof {
            assert(m@ =~= Map::<(int, int), T::V>::empty());
        }
        m
    }

    /// Record `value` for line `multipv` at `depth`, overwriting any
    /// earlier entry for that key.
    pub fn set(&mut self, multipv: u8, depth: u32, value: T)
        requires
            old(self).inv(),
            multipv >= 1,
        ensures
            final(self).inv(),
            final(self)@ == old(self)@.insert(
                (multipv as int, depth as int),
                value.deep_view(),
            ),
    {
        let i = (multipv - 1) as usize;
        while self.rows.len() <= i
            invariant
                old(self).rows@.len() <= self.rows@.len(),
                forall|j: int|
                    0 <= j < old(self).rows@.len() ==> self.rows@[j] == old(self).rows@[j],
                forall|j: int|
                    old(self).rows@.len() <= j < self.rows@.len() ==> self.rows@[j]@.len() == 0,
            decreases i + 1 - self.rows.len(),
        {
            self.rows.push(Vec::new());
        }
        proof {
            assert(self@ =~= old(self)@);
            assert(self.inv());
        }
        let ghost padded = *self;
        let mut row: Vec<Option<T>> = Vec::new();
        core::mem::swap(&mut self.rows[i], &mut row);
        let ghost row0 = row@;
        let d = depth as usize;
        while row.len() <= d
            invariant
                row0.len() <= row@.len(),
                row0.len() <= d ==> row@.len() <= d + 1,
                row0.len() > d ==> row@ == row0,
                forall|j: int| 0 <= j < row0.len() ==> row@[j] == row0[j],
                forall|j: int| row0.len() <= j < row@.len() ==> row@[j] is None,
            decreases d + 1 - row.len(),
        {
            row.push(None);
        }
        row[d] = Some(value);
        core::mem::swap(&mut self.rows[i], &mut row);
        proof {
            let newrow = self.rows@[i as int]@;
            assert(newrow.len() == if row0.len() <= d { d + 1 } else { row0.len() as int });
            assert(newrow.last() is Some) by {
                if row0.len() > d && d < row0.len() - 1 {
                    assert(newrow.last() == row0.last());
                    assert(padded.rows@[i as int]@ == row0);
                }
            }
            assert forall|j: int|
                0 <= j < self.rows@.len() implies (self.rows@[j]@.len() == 0
                || self.rows@[j]@.last() is Some) by {
                if j != i as int {
                    assert(self.rows@[j] == padded.rows@[j]);
                }
            }
            assert(self@ =~= old(self)@.insert((multipv as int, depth as int), value.deep_view()));
        }
    }

    /// Read the entry for line `multipv` at `depth`, if one was recorded.
    pub fn get(&self, multipv: u8, depth: u32) -> (r: Option<&T>)
        requires
            multipv >= 1,
        ensures
            match r {
                Some(v) => self@.contains_key((multipv as int, depth as int)) && v.deep_view()
                    == self@[(multipv as int, depth as int)],
                None => !self@.contains_key((multipv as int, depth as int)),
            },
    {
        let i = (multipv - 1) as usize;
        if i < self.rows.len() {
            let row = &self.rows[i];
            let d = depth as usize;
            if d < row.len() {
                match &row[d] {
                    Some(v) => Some(v),
                    None => None,
                }
            } else {
                None
            }
        } else {
            None
        }
    }

    /// The deepest entry recorded for line 1, if any: used to check that
    /// some report was seen before a terminal line is trusted.
    pub fn best(&self) -> (r: Option<&T>)
        requires
            self.inv(),
        ensures
            match r {
                Some(v) => exists|d: int|
                    #[trigger] self@.contains_key((1, d)) && v.deep_view() == self@[(1, d)] && (
                    forall|d2: int| #[trigger] self@.contains_key((1, d2)) ==> d2 <= d),
                None => forall|d: int| !(#[trigger] self@.contains_key((1, d))),
            },
    {
        if self.rows.len() == 0 {
            return None;
        }
        let row = &self.rows[0];
        if row.len() == 0 {
            return None;
        }
        match &row[row.len() - 1] {
            Some(v) => {
                proof {
                    let d = row@.len() - 1;
                    assert(self@.contains_key((1, d)));
                }
                Some(v)
            },
            None => {
                proof {
                    assert(false);
                }
                None
            },
        }
    }
}

} // verus!
