//! Rectangular grids.
//!
//! A [`Grid`] backs the project's sprites (a grid of pixels) and its tile
//! map (a grid of optional sprite indices).  Every row has the same width;
//! the [`Resize`] operations grow or shrink a grid one row or one column
//! at a time, as the editors do.

use vstd::pervasive::VecAdditionalExecFns;
use vstd::prelude::*;

verus! {

/// A rectangular grid: rows of equal width.  Viewed as a sequence of rows,
/// each a sequence of cells.
#[derive(Debug)]
pub struct Grid<T> {
    rows: Vec<Vec<T>>,
    width: usize,
}

/// Growing and shrinking a rectangular grid at its edges, one row or one
/// column at a time.
pub trait Resize<T>: View<V = Seq<Seq<T>>> + Sized {
    /// The width every row of the grid has.
    spec fn width(&self) -> nat;

    /// Appends one row filled with `default` at the bottom.
    fn addrow(&mut self, default: T)
        ensures
            final(self)@ == old(self)@.push(Seq::new(old(self).width(), |i: int| default)),
            final(self).width() == old(self).width(),
    ;

    /// Appends `default` to every row: one new column on the right.
    fn addcolumn(&mut self, default: T)
        requires
            old(self).width() < usize::MAX,
        ensures
            final(self)@.len() == old(self)@.len(),
            forall|i: int|
                0 <= i < old(self)@.len() ==> final(self)@[i] == (#[trigger] old(self)@[i]).push(
                    default,
                ),
            final(self).width() == old(self).width() + 1,
    ;

    /// Removes and returns the bottom row.
    fn poprow(&mut self) -> (r: Vec<T>)
        requires
            old(self)@.len() > 0,
        ensures
            final(self)@ == old(self)@.drop_last(),
            r@ == old(self)@.last(),
            final(self).width() == old(self).width(),
    ;

    /// Removes and returns the rightmost column, top to bottom.
    fn popcolumn(&mut self) -> (r: Vec<T>)
        requires
            old(self).width() > 0,
        ensures
            final(self)@.len() == old(self)@.len(),
            forall|i: int|
                0 <= i < old(self)@.len() ==> final(self)@[i] == (#[trigger] old(self)@[i]).drop_last(),
            r@ == Seq::new(old(self)@.len(), |i: int| old(self)@[i].last()),
            final(self).width() == old(self).width() - 1,
    ;
}

impl<T> View for Grid<T> {
    type V = Seq<Seq<T>>;

    closed spec fn view(&self) -> Seq<Seq<T>> {
        self.rows@.map_values(|r: Vec<T>| r@)
    }
}

impl<T> Grid<T> {
    #[verifier::type_invariant]
    spec fn rectangular(&self) -> bool {
        forall|i: int| 0 <= i < self.rows@.len() ==> (#[trigger] self.rows@[i])@.len() == self.width
    }

    pub closed spec fn spec_width(&self) -> nat {
        self.width as nat
    }

    /// How many rows the grid has.
    pub fn num_rows(&self) -> (r: usize)
        ensures
            r == self@.len(),
    {
        self.rows.len()
    }

    /// How many columns the grid has.  Also witnesses that the grid is
    /// rectangular: every row of the view has exactly this width.
    pub fn num_columns(&self) -> (r: usize)
        ensures
            r == self.spec_width(),
            forall|i: int| 0 <= i < self@.len() ==> (#[trigger] self@[i]).len() == self.spec_width(),
    {
        proof {
            use_type_invariant(self);
        }
        self.width
    }

    /// The number of cells in one row; equal to the number of columns.
    pub fn row_len(&self) -> (r: usize)
        ensures
            r == self.spec_width(),
    {
        self.width
    }

    /// The number of cells in one column; equal to the number of rows.
    pub fn column_len(&self) -> (r: usize)
        ensures
            r == self@.len(),
    {
        self.rows.len()
    }
}

fn filled_row<T: Copy>(value: T, n: usize) -> (r: Vec<T>)
    ensures
        r@ == Seq::new(n as nat, |i: int| value),
{
    let mut r: Vec<T> = Vec::new();
    let mut i: usize = 0;
    proof {
        assert(r@ =~= Seq::new(0, |j: int| value));
    }
    while i < n
        invariant
            i <= n,
            r@ == Seq::new(i as nat, |j: int| value),
        decreases n - i,
    {
        r.push(value);
        i = i + 1;
        proof {
            assert(r@ =~= Seq::new(i as nat, |j: int| value));
        }
    }
    r
}

impl<T: Copy> Grid<T> {
    /// A grid of `num_rows` rows by `num_columns` columns, every cell
    /// holding `element`.
    pub fn filled_with(element: T, num_rows: usize, num_columns: usize) -> (g: Grid<T>)
        ensures
            g@ == Seq::new(
                num_rows as nat,
                |i: int| Seq::new(num_columns as nat, |j: int| element),
            ),
            g.spec_width() == num_columns as nat,
    {
        let mut rows: Vec<Vec<T>> = Vec::new();
        let mut i: usize = 0;
        while i < num_rows
            invariant
                i <= num_rows,
                rows@.len() == i,
                forall|k: int|
                    0 <= k < i ==> (#[trigger] rows@[k])@ == Seq::new(
                        num_columns as nat,
                        |j: int| element,
                    ),
            decreases num_rows - i,
        {
            rows.push(filled_row(element, num_columns));
            i = i + 1;
        }
        let g = Grid { rows, width: num_columns };
        proof {
            assert(g@ =~= Seq::new(
                num_rows as nat,
                |i: int| Seq::new(num_columns as nat, |j: int| element),
            ));
        }
        g
    }

    /// The cell at `row`, `column`, or `None` when either index is out of
    /// the grid.
    pub fn get(&self, row: usize, column: usize) -> (r: Option<&T>)
        ensures
            match r {
                Some(v) => row < self@.len() && column < self.spec_width() && *v
                    == self@[row as int][column as int],
                None => row >= self@.len() || column >= self.spec_width(),
            },
    {
        proof {
            use_type_invariant(self);
        }
        if row < self.rows.len() && column < self.width {
            Some(&self.rows[row][column])
        } else {
            None
        }
    }

    /// Replaces the cell at `row`, `column`.
    pub fn set(&mut self, row: usize, column: usize, value: T)
        requires
            row < old(self)@.len(),
            column < old(self).spec_width(),
        ensures
            final(self)@ == old(self)@.update(
                row as int,
                old(self)@[row as int].update(column as int, value),
            ),
            final(self).spec_width() == old(self).spec_width(),
    {
        proof {
            use_type_invariant(&*self);
        }
        let mut taken: Vec<Vec<T>> = Vec::new();
        core::mem::swap(&mut self.rows, &mut taken);
        let mut rowv: Vec<T> = taken.remove(row);
        rowv.set(column, value);
        taken.insert(row, rowv);
        let w = self.width;
        *self = Grid { rows: taken, width: w };
        proof {
            assert(self@ =~= old(self)@.update(
                row as int,
                old(self)@[row as int].update(column as int, value),
            ));
        }
    }
}

impl<T: Copy> Resize<T> for Grid<T> {
    closed spec fn width(&self) -> nat {
        self.width as nat
    }

    fn addrow(&mut self, default: T) {
        proof {
            use_type_invariant(&*self);
        }
        let row = filled_row(default, self.width);
        let mut taken: Vec<Vec<T>> = Vec::new();
        core::mem::swap(&mut self.rows, &mut taken);
        taken.push(row);
        let w = self.width;
        *self = Grid { rows: taken, width: w };
        proof {
            assert(self@ =~= old(self)@.push(Seq::new(old(self).width(), |i: int| default)));
        }
    }

    fn addcolumn(&mut self, default: T) {
        proof {
            use_type_invariant(&*self);
        }
        let mut taken: Vec<Vec<T>> = Vec::new();
        core::mem::swap(&mut self.rows, &mut taken);
        let ghost orig = taken@;
        let mut out: Vec<Vec<T>> = Vec::new();
        while taken.len() > 0
            invariant
                out@.len() + taken@.len() == orig.len(),
                forall|j: int|
                    0 <= j < taken@.len() ==> #[trigger] taken@[j] == orig[out@.len() + j],
                forall|i: int|
                    0 <= i < out@.len() ==> (#[trigger] out@[i])@ == orig[i]@.push(default),
            decreases taken@.len(),
        {
            let mut rowv = taken.remove(0);
            rowv.push(default);
            out.push(rowv);
        }
        let w = self.width + 1;
        *self = Grid { rows: out, width: w };
        proof {
            assert(forall|i: int|
                0 <= i < old(self)@.len() ==> self@[i] == (#[trigger] old(self)@[i]).push(default));
        }
    }

    fn poprow(&mut self) -> (r: Vec<T>) {
        proof {
            use_type_invariant(&*self);
        }
        let mut taken: Vec<Vec<T>> = Vec::new();
        core::mem::swap(&mut self.rows, &mut taken);
        let r = taken.pop().unwrap();
        let w = self.width;
        *self = Grid { rows: taken, width: w };
        proof {
            assert(self@ =~= old(self)@.drop_last());
        }
        r
    }

    fn popcolumn(&mut self) -> (r: Vec<T>) {
        proof {
            use_type_invariant(&*self);
        }
        let mut taken: Vec<Vec<T>> = Vec::new();
        core::mem::swap(&mut self.rows, &mut taken);
        let ghost orig = taken@;
        let mut out: Vec<Vec<T>> = Vec::new();
        let mut popped: Vec<T> = Vec::new();
        while taken.len() > 0
            invariant
                out@.len() + taken@.len() == orig.len(),
                popped@.len() == out@.len(),
                forall|j: int|
                    0 <= j < taken@.len() ==> #[trigger] taken@[j] == orig[out@.len() + j],
                forall|i: int|
                    0 <= i < orig.len() ==> (#[trigger] orig[i])@.len() == old(self).width(),
                old(self).width() > 0,
                forall|i: int|
                    0 <= i < out@.len() ==> (#[trigger] out@[i])@ == orig[i]@.drop_last(),
                forall|i: int|
                    0 <= i < popped@.len() ==> #[trigger] popped@[i] == orig[i]@.last(),
            decreases taken@.len(),
        {
            let mut rowv = taken.remove(0);
            let v = rowv.pop().unwrap();
            out.push(rowv);
            popped.push(v);
        }
        let w = self.width - 1;
        *self = Grid { rows: out, width: w };
        proof {
            assert(forall|i: int|
                0 <= i < old(self)@.len() ==> self@[i] == (#[trigger] old(self)@[i]).drop_last());
            assert(popped@ =~= Seq::new(old(self)@.len(), |i: int| old(self)@[i].last()));
        }
        popped
    }
}

} // verus!
