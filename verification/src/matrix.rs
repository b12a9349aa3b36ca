use vstd::prelude::*;
use vstd::std_specs::iter::IteratorSpec;
use vstd::string::StringExecFns;

use crate::utils::{decimal, push_decimal};

verus! {

/// A dense matrix that is `W` columns wide and `H` rows tall.
///
/// The cell in column `x` and row `y` is addressed by the pair `(x, y)`.
pub struct Matrix<T: Default, const W: usize, const H: usize> {
    d: Vec<Vec<T>>,
}

impl<T: Default, const W: usize, const H: usize> View for Matrix<T, W, H> {
    type V = Seq<Seq<T>>;

    /// The rows of the matrix, top to bottom; each row lists its cells left to right.
    closed spec fn view(&self) -> Seq<Seq<T>> {
        self.d@.map_values(|r: Vec<T>| r@)
    }
}

impl<T: Default, const W: usize, const H: usize> Matrix<T, W, H> {
    /// The matrix has exactly `H` rows of exactly `W` cells each.
    pub open spec fn wf(&self) -> bool {
        &&& self@.len() == H
        &&& forall|y: int| 0 <= y < H ==> #[trigger] self@[y].len() == W
    }

    /// The cell in column `x`, row `y`.
    pub open spec fn cell(&self, x: int, y: int) -> T {
        self@[y][x]
    }

    /// A position that `get` rejects without looking at the data:
    /// a column beyond `W` or a row beyond `H`.
    pub open spec fn out_of_range(x: int, y: int) -> bool {
        x > W || y > H
    }

    /// A position that `get` accepts but that lies on the border just outside
    /// the matrix (column `W` or row `H`): indexing it would fail.
    pub open spec fn on_border(x: int, y: int) -> bool {
        !Self::out_of_range(x, y) && (x == W || y == H)
    }

    /// The cells hold `items` in row-major order: the cell in column `x`, row `y`
    /// holds item `y * W + x`.
    pub open spec fn holds_row_major(&self, items: Seq<T>) -> bool {
        forall|x: int, y: int| 0 <= x < W && 0 <= y < H ==> #[trigger] self.cell(x, y) == items[y * W + x]
    }

    /// Like `holds_row_major`, but cells past the end of `items` hold a value that
    /// `T::default()` produces.
    pub open spec fn holds_row_major_padded(&self, items: Seq<T>) -> bool {
        &&& forall|x: int, y: int|
            0 <= x < W && 0 <= y < H && y * W + x < items.len() ==> #[trigger] self.cell(x, y)
                == items[y * W + x]
        &&& forall|x: int, y: int|
            0 <= x < W && 0 <= y < H && y * W + x >= items.len() ==> call_ensures(
                T::default,
                (),
                #[trigger] self.cell(x, y),
            )
    }

    proof fn lemma_view(&self)
        ensures
            self@.len() == self.d@.len(),
            forall|y: int| 0 <= y < self.d@.len() ==> #[trigger] self@[y] == self.d@[y]@,
    {
    }

    /// Builds a matrix from the next `W * H` items of `iter`, filling it row by row.
    /// Returns `None` when the iterator runs out first.
    pub fn from_iter<I: Iterator<Item = T>>(iter: &mut I) -> (r: Option<Self>)
        ensures
            r matches Some(m) ==> m.wf(),
            (*old(iter)).obeys_prophetic_iter_laws() ==> {
                let items = (*old(iter)).remaining();
                if items.len() >= W * H {
                    &&& r is Some
                    &&& r->0.holds_row_major(items)
                    &&& (*final(iter)).remaining() == items.skip(W * H)
                } else {
                    &&& r is None
                    &&& (*final(iter)).remaining().len() == 0
                }
            },
    {
        let ghost items = (*iter).remaining();
        let ghost obeys = (*iter).obeys_prophetic_iter_laws();
        let mut rows: Vec<Vec<T>> = Vec::new();
        let mut complete = true;
        let mut y: usize = 0;
        while y < H && complete
            invariant
                0 <= y <= H,
                complete ==> rows@.len() == y,
                forall|j: int| 0 <= j < rows@.len() ==> #[trigger] rows@[j]@.len() == W,
                (*iter).obeys_prophetic_iter_laws() == obeys,
                obeys && complete ==> items.len() >= y * W,
                obeys && complete ==> (*iter).remaining() == items.skip(y * W),
                obeys && complete ==> forall|i: int, j: int|
                    0 <= i < W && 0 <= j < y ==> #[trigger] rows@[j]@[i] == items[j * W + i],
                obeys && !complete ==> items.len() < W * H && (*iter).remaining().len() == 0,
            decreases H - y,
        {
            let mut row: Vec<T> = Vec::new();
            let mut x: usize = 0;
            while x < W && complete
                invariant
                    0 <= y < H,
                    0 <= x <= W,
                    complete ==> row@.len() == x,
                    (*iter).obeys_prophetic_iter_laws() == obeys,
                    obeys && complete ==> items.len() >= y * W + x,
                    obeys && complete ==> (*iter).remaining() == items.skip(y * W + x),
                    obeys && complete ==> forall|i: int| 0 <= i < x ==> #[trigger] row@[i] == items[y * W + i],
                    obeys && !complete ==> items.len() < W * H && (*iter).remaining().len() == 0,
                decreases W - x,
            {
                match iter.next() {
                    Some(item) => {
                        row.push(item);
                    },
                    None => {
                        proof {
                            if obeys {
                                assert(items.len() < W * H) by (nonlinear_arith)
                                    requires
                                        items.len() == y * W + x,
                                        x < W,
                                        y < H,
                                ;
                            }
                        }
                        complete = false;
                    },
                }
                x = x + 1;
            }
            if complete {
                rows.push(row);
                proof {
                    assert((y + 1) * W == y * W + W) by (nonlinear_arith);
                }
            }
            y = y + 1;
        }
        if !complete {
            return None;
        }
        let m = Matrix { d: rows };
        proof {
            m.lemma_view();
            if obeys {
                assert(y * W == W * H) by (nonlinear_arith)
                    requires
                        y == H,
                ;
            }
        }
        Some(m)
    }

    /// Builds a matrix row by row from the items of `iter`; once the iterator runs
    /// out, the remaining cells hold `T::default()`.
    pub fn from_iter_default<I: Iterator<Item = T>>(iter: &mut I) -> (r: Self)
        ensures
            r.wf(),
            (*old(iter)).obeys_prophetic_iter_laws() ==> {
                let items = (*old(iter)).remaining();
                &&& r.holds_row_major_padded(items)
                &&& (*final(iter)).remaining() == items.skip(
                    if items.len() < W * H {
                        items.len() as int
                    } else {
                        W * H
                    },
                )
            },
    {
        let ghost items = (*iter).remaining();
        let ghost obeys = (*iter).obeys_prophetic_iter_laws();
        let mut rows: Vec<Vec<T>> = Vec::new();
        let mut y: usize = 0;
        while y < H
            invariant
                0 <= y <= H,
                rows@.len() == y,
                forall|j: int| 0 <= j < y ==> #[trigger] rows@[j]@.len() == W,
                (*iter).obeys_prophetic_iter_laws() == obeys,
                obeys ==> (*iter).remaining() == items.skip(
                    if items.len() < y * W {
                        items.len() as int
                    } else {
                        y * W
                    },
                ),
                obeys ==> forall|i: int, j: int|
                    0 <= i < W && 0 <= j < y && j * W + i < items.len() ==> #[trigger] rows@[j]@[i]
                        == items[j * W + i],
                obeys ==> forall|i: int, j: int|
                    0 <= i < W && 0 <= j < y && j * W + i >= items.len() ==> call_ensures(
                        T::default,
                        (),
                        #[trigger] rows@[j]@[i],
                    ),
            decreases H - y,
        {
            let mut row: Vec<T> = Vec::new();
            let mut x: usize = 0;
            while x < W
                invariant
                    0 <= y < H,
                    0 <= x <= W,
                    row@.len() == x,
                    (*iter).obeys_prophetic_iter_laws() == obeys,
                    obeys ==> (*iter).remaining() == items.skip(
                        if items.len() < y * W + x {
                            items.len() as int
                        } else {
                            y * W + x
                        },
                    ),
                    obeys ==> forall|i: int|
                        0 <= i < x && y * W + i < items.len() ==> #[trigger] row@[i] == items[y * W + i],
                    obeys ==> forall|i: int|
                        0 <= i < x && y * W + i >= items.len() ==> call_ensures(
                            T::default,
                            (),
                            #[trigger] row@[i],
                        ),
                decreases W - x,
            {
                let next_data = match iter.next() {
                    Some(item) => item,
                    None => T::default(),
                };
                row.push(next_data);
                x = x + 1;
            }
            rows.push(row);
            proof {
                assert((y + 1) * W == y * W + W) by (nonlinear_arith);
            }
            y = y + 1;
        }
        let m = Matrix { d: rows };
        proof {
            m.lemma_view();
            assert(y * W == W * H) by (nonlinear_arith)
                requires
                    y == H,
            ;
        }
        m
    }

    /// Looks up the cell in column `index.0`, row `index.1`; `None` when the column
    /// lies beyond `W` or the row beyond `H`.
    pub fn get(&self, index: (usize, usize)) -> (r: Option<&T>)
        requires
            self.wf(),
            !Self::on_border(index.0 as int, index.1 as int),
        ensures
            r == (if Self::out_of_range(index.0 as int, index.1 as int) {
                None
            } else {
                Some(&self.cell(index.0 as int, index.1 as int))
            }),
    {
        let (x, y) = index;
        if x > W || y > H {
            None
        } else {
            proof {
                self.lemma_view();
                assert(self.d@[y as int]@ == self@[y as int]);
            }
            Some(&self.d[y][x])
        }
    }

    /// Like `get`, but hands out the cell for writing.
    pub fn get_mut(&mut self, index: (usize, usize)) -> (r: Option<&mut T>)
        requires
            old(self).wf(),
            !Self::on_border(index.0 as int, index.1 as int),
        ensures
            Self::out_of_range(index.0 as int, index.1 as int) ==> r is None && *final(self) == *old(self),
            !Self::out_of_range(index.0 as int, index.1 as int) ==> {
                &&& r is Some
                &&& *r->0 == old(self).cell(index.0 as int, index.1 as int)
                &&& final(self)@ == old(self)@.update(
                    index.1 as int,
                    old(self)@[index.1 as int].update(index.0 as int, *final(r->0)),
                )
            },
    {
        let (x, y) = index;
        if x > W || y > H {
            None
        } else {
            proof {
                self.lemma_view();
                assert(self.d@[y as int]@ == self@[y as int]);
            }
            Some(&mut self.d[y][x])
        }
    }

    /// Mirrors the matrix over its diagonal: the cell in column `x`, row `y`
    /// moves to column `y`, row `x`.
    pub fn transpose(self) -> (r: Matrix<T, H, W>)
        requires
            self.wf(),
        ensures
            r.wf(),
            is_transpose(self, r),
    {
        proof {
            self.lemma_view();
        }
        let ghost orig = self@;
        let mut rows = self.d;
        let mut cols: Vec<Vec<T>> = Vec::new();
        let mut x: usize = 0;
        while x < W
            invariant
                0 <= x <= W,
                cols@.len() == x,
                forall|i: int| 0 <= i < x ==> (#[trigger] cols@[i])@.len() == 0,
            decreases W - x,
        {
            cols.push(Vec::new());
            x = x + 1;
        }
        let mut y: usize = 0;
        while y < H
            invariant
                0 <= y <= H,
                orig.len() == H,
                forall|j: int| 0 <= j < H ==> #[trigger] orig[j].len() == W,
                rows@.len() == H - y,
                forall|j: int| 0 <= j < H - y ==> #[trigger] rows@[j]@ == orig[j + y],
                cols@.len() == W,
                forall|i: int| 0 <= i < W ==> (#[trigger] cols@[i])@.len() == y,
                forall|i: int, j: int|
                    0 <= i < W && 0 <= j < y ==> #[trigger] cols@[i]@[j] == orig[j][i],
            decreases H - y,
        {
            let mut row = rows.remove(0);
            assert(row@ == orig[y as int]);
            let mut x: usize = 0;
            while x < W
                invariant
                    0 <= y < H,
                    0 <= x <= W,
                    orig.len() == H,
                    orig[y as int].len() == W,
                    row@ == orig[y as int].skip(x as int),
                    cols@.len() == W,
                    forall|i: int| 0 <= i < x ==> (#[trigger] cols@[i])@.len() == y + 1,
                    forall|i: int| x <= i < W ==> (#[trigger] cols@[i])@.len() == y,
                    forall|i: int, j: int|
                        0 <= i < W && 0 <= j < y ==> #[trigger] cols@[i]@[j] == orig[j][i],
                    forall|i: int| 0 <= i < x ==> #[trigger] cols@[i]@[y as int] == orig[y as int][i],
                decreases W - x,
            {
                let d = row.remove(0);
                cols[x].push(d);
                x = x + 1;
            }
            y = y + 1;
        }
        let m = Matrix { d: cols };
        proof {
            m.lemma_view();
        }
        m
    }

    /// Applies `func` to every cell, row by row, and collects the results in a
    /// matrix of the same shape.
    pub fn do_ops<E: Default, F: Fn(T) -> E>(self, func: F) -> (r: Matrix<E, W, H>)
        requires
            self.wf(),
            forall|x: int, y: int|
                0 <= x < W && 0 <= y < H ==> call_requires(func, (#[trigger] self.cell(x, y),)),
        ensures
            r.wf(),
            forall|x: int, y: int|
                0 <= x < W && 0 <= y < H ==> call_ensures(
                    func,
                    (#[trigger] self.cell(x, y),),
                    r.cell(x, y),
                ),
    {
        proof {
            self.lemma_view();
        }
        let ghost orig = self@;
        assert forall|i: int, j: int| 0 <= i < W && 0 <= j < H implies call_requires(
            func,
            (#[trigger] orig[j][i],),
        ) by {
            assert(orig[j][i] == self.cell(i, j));
        }
        let mut rows = self.d;
        let mut res: Vec<Vec<E>> = Vec::new();
        let mut y: usize = 0;
        while y < H
            invariant
                0 <= y <= H,
                orig.len() == H,
                forall|j: int| 0 <= j < H ==> #[trigger] orig[j].len() == W,
                forall|i: int, j: int|
                    0 <= i < W && 0 <= j < H ==> call_requires(func, (#[trigger] orig[j][i],)),
                rows@.len() == H - y,
                forall|j: int| 0 <= j < H - y ==> #[trigger] rows@[j]@ == orig[j + y],
                res@.len() == y,
                forall|j: int| 0 <= j < y ==> (#[trigger] res@[j])@.len() == W,
                forall|i: int, j: int|
                    0 <= i < W && 0 <= j < y ==> call_ensures(func, (orig[j][i],), #[trigger] res@[j]@[i]),
            decreases H - y,
        {
            let mut row = rows.remove(0);
            assert(row@ == orig[y as int]);
            let mut out: Vec<E> = Vec::new();
            let mut x: usize = 0;
            while x < W
                invariant
                    0 <= y < H,
                    0 <= x <= W,
                    orig.len() == H,
                    orig[y as int].len() == W,
                    forall|i: int, j: int|
                        0 <= i < W && 0 <= j < H ==> call_requires(func, (#[trigger] orig[j][i],)),
                    row@ == orig[y as int].skip(x as int),
                    out@.len() == x,
                    forall|i: int|
                        0 <= i < x ==> call_ensures(func, (orig[y as int][i],), #[trigger] out@[i]),
                decreases W - x,
            {
                let d = row.remove(0);
                assert(d == orig[y as int][x as int]);
                out.push(func(d));
                x = x + 1;
            }
            res.push(out);
            y = y + 1;
        }
        let m = Matrix { d: res };
        proof {
            m.lemma_view();
        }
        m
    }

    /// The dimensions `(W, H)`.
    pub fn get_size(&self) -> (r: (usize, usize))
        ensures
            r == (W, H),
    {
        (W, H)
    }
}


impl<T: Default, const W: usize, const H: usize> Default for Matrix<T, W, H> {
    /// A matrix whose every cell holds `T::default()`.
    fn default() -> (r: Self)
        ensures
            r.wf(),
            forall|x: int, y: int|
                0 <= x < W && 0 <= y < H ==> call_ensures(T::default, (), #[trigger] r.cell(x, y)),
    {
        let mut rows: Vec<Vec<T>> = Vec::new();
        let mut y: usize = 0;
        while y < H
            invariant
                0 <= y <= H,
                rows@.len() == y,
                forall|j: int| 0 <= j < y ==> #[trigger] rows@[j]@.len() == W,
                forall|i: int, j: int|
                    0 <= i < W && 0 <= j < y ==> call_ensures(T::default, (), #[trigger] rows@[j]@[i]),
            decreases H - y,
        {
            let mut row: Vec<T> = Vec::new();
            let mut x: usize = 0;
            while x < W
                invariant
                    0 <= x <= W,
                    row@.len() == x,
                    forall|i: int| 0 <= i < x ==> call_ensures(T::default, (), #[trigger] row@[i]),
                decreases W - x,
            {
                row.push(T::default());
                x = x + 1;
            }
            rows.push(row);
            y = y + 1;
        }
        let m = Matrix { d: rows };
        proof {
            m.lemma_view();
        }
        m
    }
}

/// The decimal text of `v`, with a leading `-` when it is negative.
pub open spec fn int_text(v: int) -> Seq<char> {
    if v < 0 {
        "-"@ + decimal((-v) as nat)
    } else {
        decimal(v as nat)
    }
}

/// A row as text: every cell followed by `", "`.
pub open spec fn row_text(row: Seq<i32>) -> Seq<char>
    decreases row.len(),
{
    if row.len() == 0 {
        Seq::empty()
    } else {
        row_text(row.drop_last()) + int_text(row.last() as int) + ", "@
    }
}

/// The rows as text, each ended by a line break.
pub open spec fn rows_text(rows: Seq<Seq<i32>>) -> Seq<char>
    decreases rows.len(),
{
    if rows.len() == 0 {
        Seq::empty()
    } else {
        rows_text(rows.drop_last()) + row_text(rows.last()) + "\n"@
    }
}

/// The printed form of a matrix: its rows between `[` and ` ]`, then its size.
pub open spec fn display_text(rows: Seq<Seq<i32>>, w: nat, h: nat) -> Seq<char> {
    "[\n"@ + rows_text(rows) + " ]\n"@ + "("@ + decimal(w) + ", "@ + decimal(h) + ")\n"@
}

/// Appends the decimal text of `v` to `out`.
fn push_int(out: &mut String, v: i32)
    ensures
        final(out)@ == old(out)@ + int_text(v as int),
{
    if v < 0 {
        out.append("-");
        let a: i64 = -(v as i64);
        push_decimal(out, a as usize);
        proof {
            reveal_strlit("-");
        }
    } else {
        push_decimal(out, v as usize);
    }
}

/// `r` is `m` mirrored over its diagonal.
pub open spec fn is_transpose<T: Default, const W: usize, const H: usize>(
    m: Matrix<T, W, H>,
    r: Matrix<T, H, W>,
) -> bool {
    forall|x: int, y: int| 0 <= x < W && 0 <= y < H ==> #[trigger] r.cell(y, x) == m.cell(x, y)
}

/// `r` is the matrix product of `left` and `right`.
pub open spec fn is_product<const W: usize, const H: usize, const P: usize>(
    left: Matrix<i32, P, H>,
    right: Matrix<i32, W, P>,
    r: Matrix<i32, W, H>,
) -> bool {
    forall|x: int, y: int|
        0 <= x < W && 0 <= y < H ==> #[trigger] r.cell(x, y) == dot_prefix(left@, right@, x, y, P as int)
}

/// `r` is the cell-wise sum of `left` and `right`.
pub open spec fn is_sum<const W: usize, const H: usize>(
    left: Matrix<i32, W, H>,
    right: Matrix<i32, W, H>,
    r: Matrix<i32, W, H>,
) -> bool {
    forall|x: int, y: int|
        0 <= x < W && 0 <= y < H ==> #[trigger] r.cell(x, y) == left.cell(x, y) + right.cell(x, y)
}

/// The sum of the first `k` products of row `y` of `left` with column `x` of `right`.
pub open spec fn dot_prefix(left: Seq<Seq<i32>>, right: Seq<Seq<i32>>, x: int, y: int, k: int) -> int
    decreases k,
{
    if k <= 0 {
        0
    } else {
        dot_prefix(left, right, x, y, k - 1) + left[y][k - 1] * right[k - 1][x]
    }
}

/// Every product and every running sum that the product of `left` (`P` wide, `H` tall)
/// and `right` (`W` wide, `P` tall) computes fits in an `i32`.
pub open spec fn dot_fits(left: Seq<Seq<i32>>, right: Seq<Seq<i32>>, w: int, h: int, p: int) -> bool {
    forall|x: int, y: int, k: int|
        0 <= x < w && 0 <= y < h && 0 <= k < p ==> {
            &&& i32::MIN <= #[trigger] (left[y][k] * right[k][x]) <= i32::MAX
            &&& i32::MIN <= dot_prefix(left, right, x, y, k + 1) <= i32::MAX
        }
}

/// Every cell-wise sum of `left` and `right` (both `w` wide, `h` tall) fits in an `i32`.
pub open spec fn sum_fits(left: Seq<Seq<i32>>, right: Seq<Seq<i32>>, w: int, h: int) -> bool {
    forall|x: int, y: int|
        0 <= x < w && 0 <= y < h ==> i32::MIN <= #[trigger] (left[y][x] + right[y][x]) <= i32::MAX
}

impl<const W: usize, const H: usize> Matrix<i32, W, H> {
    /// The printed form: `[`, a line per row with every cell followed by `", "`,
    /// ` ]`, then the size as `(W, H)`.
    pub fn to_display_string(&self) -> (r: String)
        requires
            self.wf(),
        ensures
            r@ == display_text(self@, W as nat, H as nat),
    {
        proof {
            self.lemma_view();
        }
        let mut out = String::from_str("[\n");
        let ghost start = out@;
        let mut y: usize = 0;
        while y < H
            invariant
                0 <= y <= H,
                self.wf(),
                out@ == start + rows_text(self@.take(y as int)),
            decreases H - y,
        {
            proof {
                self.lemma_view();
            }
            let row = &self.d[y];
            assert(row@ == self@[y as int]);
            assert(row@.len() == W);
            let ghost before = out@;
            let mut x: usize = 0;
            while x < W
                invariant
                    0 <= y < H,
                    0 <= x <= W,
                    row@ == self@[y as int],
                    row@.len() == W,
                    out@ == before + row_text(row@.take(x as int)),
                decreases W - x,
            {
                push_int(&mut out, row[x]);
                out.append(", ");
                proof {
                    assert(row@.take(x + 1).drop_last() == row@.take(x as int));
                    assert(row@.take(x + 1).last() == row@[x as int]);
                }
                x = x + 1;
            }
            out.append("\n");
            proof {
                assert(row@.take(W as int) == row@);
                assert(self@.take(y + 1).drop_last() == self@.take(y as int));
                assert(self@.take(y + 1).last() == self@[y as int]);
            }
            y = y + 1;
        }
        out.append(" ]\n");
        out.append("(");
        push_decimal(&mut out, W);
        out.append(", ");
        push_decimal(&mut out, H);
        out.append(")\n");
        proof {
            assert(self@.take(H as int) == self@);
        }
        out
    }

    /// The matrix product of `left` (`P` columns, `H` rows) and `right` (`W` columns,
    /// `P` rows): the cell in column `x`, row `y` is the sum over `i` of
    /// `left[(i, y)] * right[(x, i)]`, and `0` when `P` is `0`.
    pub fn dot_mul<const P: usize>(left: Matrix<i32, P, H>, right: Matrix<i32, W, P>) -> (r: Matrix<i32, W, H>)
        requires
            left.wf(),
            right.wf(),
            dot_fits(left@, right@, W as int, H as int, P as int),
        ensures
            r.wf(),
            is_product(left, right, r),
    {
        let mut res: Vec<Vec<i32>> = Vec::new();
        let mut y: usize = 0;
        while y < H
            invariant
                0 <= y <= H,
                left.wf(),
                right.wf(),
                dot_fits(left@, right@, W as int, H as int, P as int),
                res@.len() == y,
                forall|j: int| 0 <= j < y ==> (#[trigger] res@[j])@.len() == W,
                forall|i: int, j: int|
                    0 <= i < W && 0 <= j < y ==> #[trigger] res@[j]@[i] == dot_prefix(
                        left@,
                        right@,
                        i,
                        j,
                        P as int,
                    ),
            decreases H - y,
        {
            let mut row: Vec<i32> = Vec::new();
            let mut x: usize = 0;
            while x < W
                invariant
                    0 <= y < H,
                    0 <= x <= W,
                    left.wf(),
                    right.wf(),
                    dot_fits(left@, right@, W as int, H as int, P as int),
                    row@.len() == x,
                    forall|i: int|
                        0 <= i < x ==> #[trigger] row@[i] == dot_prefix(left@, right@, i, y as int, P as int),
                decreases W - x,
            {
                let mut acc: i32 = 0;
                let mut i: usize = 0;
                while i < P
                    invariant
                        0 <= y < H,
                        0 <= x < W,
                        0 <= i <= P,
                        left.wf(),
                        right.wf(),
                        dot_fits(left@, right@, W as int, H as int, P as int),
                        acc == dot_prefix(left@, right@, x as int, y as int, i as int),
                    decreases P - i,
                {
                    let lt = match left.get((i, y)) {
                        Some(v) => *v,
                        None => 0,
                    };
                    let rt = match right.get((x, i)) {
                        Some(v) => *v,
                        None => 0,
                    };
                    assert(i32::MIN <= left@[y as int][i as int] * right@[i as int][x as int] <= i32::MAX);
                    assert(i32::MIN <= dot_prefix(left@, right@, x as int, y as int, i + 1) <= i32::MAX);
                    acc = acc + lt * rt;
                    i = i + 1;
                }
                row.push(acc);
                x = x + 1;
            }
            res.push(row);
            y = y + 1;
        }
        let m = Matrix { d: res };
        proof {
            m.lemma_view();
        }
        m
    }

}

impl<const W: usize, const H: usize> vstd::std_specs::ops::AddSpecImpl for Matrix<i32, W, H> {
    open spec fn obeys_add_spec() -> bool {
        false
    }

    /// Both operands have the declared shape and every cell-wise sum fits in an `i32`.
    open spec fn add_req(self, rhs: Self) -> bool {
        &&& self.wf()
        &&& rhs.wf()
        &&& sum_fits(self@, rhs@, W as int, H as int)
    }

    open spec fn add_spec(self, rhs: Self) -> Self {
        arbitrary()
    }
}

impl<const W: usize, const H: usize> std::ops::Add for Matrix<i32, W, H> {
    type Output = Matrix<i32, W, H>;

    /// Cell-wise sum of two matrices of the same shape.
    fn add(self, rhs: Self) -> (r: Self::Output)
        ensures
            r.wf(),
            is_sum(self, rhs, r),
    {
        let mut res: Vec<Vec<i32>> = Vec::new();
        let mut y: usize = 0;
        while y < H
            invariant
                0 <= y <= H,
                self.wf(),
                rhs.wf(),
                sum_fits(self@, rhs@, W as int, H as int),
                res@.len() == y,
                forall|j: int| 0 <= j < y ==> (#[trigger] res@[j])@.len() == W,
                forall|i: int, j: int|
                    0 <= i < W && 0 <= j < y ==> #[trigger] res@[j]@[i] == self@[j][i] + rhs@[j][i],
            decreases H - y,
        {
            let mut row: Vec<i32> = Vec::new();
            let mut x: usize = 0;
            while x < W
                invariant
                    0 <= y < H,
                    0 <= x <= W,
                    self.wf(),
                    rhs.wf(),
                    sum_fits(self@, rhs@, W as int, H as int),
                    row@.len() == x,
                    forall|i: int| 0 <= i < x ==> #[trigger] row@[i] == self@[y as int][i] + rhs@[y as int][i],
                decreases W - x,
            {
                let l = match self.get((x, y)) {
                    Some(v) => *v,
                    None => 0,
                };
                let r = match rhs.get((x, y)) {
                    Some(v) => *v,
                    None => 0,
                };
                assert(i32::MIN <= self@[y as int][x as int] + rhs@[y as int][x as int] <= i32::MAX);
                row.push(l + r);
                x = x + 1;
            }
            res.push(row);
            y = y + 1;
        }
        let m = Matrix { d: res };
        proof {
            m.lemma_view();
        }
        m
    }
}

impl<T: Default, const W: usize, const H: usize> vstd::std_specs::core::IndexSpecImpl<(usize, usize)> for Matrix<T, W, H> {
    /// Indexing is defined for cells inside the matrix only.
    open spec fn index_req(&self, index: &(usize, usize)) -> bool {
        &&& self.wf()
        &&& index.0 < W
        &&& index.1 < H
    }
}

impl<T: Default, const W: usize, const H: usize> std::ops::Index<(usize, usize)> for Matrix<T, W, H> {
    type Output = T;

    /// The cell in column `index.0`, row `index.1`.
    fn index(&self, index: (usize, usize)) -> (r: &T)
        ensures
            *r == self.cell(index.0 as int, index.1 as int),
    {
        let (x, y) = index;
        proof {
            self.lemma_view();
            assert(self.d@[y as int]@ == self@[y as int]);
        }
        &self.d[y][x]
    }
}

/// Two matrices of the same shape are equal when they agree on every cell.
proof fn lemma_cells_equal<T: Default, const W: usize, const H: usize>(a: Matrix<T, W, H>, b: Matrix<T, W, H>)
    requires
        a.wf(),
        b.wf(),
        forall|x: int, y: int| 0 <= x < W && 0 <= y < H ==> #[trigger] a.cell(x, y) == b.cell(x, y),
    ensures
        a@ == b@,
{
    assert forall|y: int| 0 <= y < H implies a@[y] =~= b@[y] by {
        assert forall|x: int| 0 <= x < W implies a@[y][x] == b@[y][x] by {
            assert(a.cell(x, y) == b.cell(x, y));
        }
    }
    assert(a@ =~= b@);
}

/// Transposing twice gives back the matrix that was started from.
pub proof fn lemma_transpose_twice<T: Default, const W: usize, const H: usize>(
    m: Matrix<T, W, H>,
    t: Matrix<T, H, W>,
    tt: Matrix<T, W, H>,
)
    requires
        m.wf(),
        t.wf(),
        tt.wf(),
        is_transpose(m, t),
        is_transpose(t, tt),
    ensures
        tt@ == m@,
{
    assert forall|x: int, y: int| 0 <= x < W && 0 <= y < H implies #[trigger] tt.cell(x, y) == m.cell(x, y) by {
        assert(t.cell(y, x) == m.cell(x, y));
        assert(tt.cell(x, y) == t.cell(y, x));
    }
    lemma_cells_equal(tt, m);
}

/// When the iterator holds at least `W * H` items, `from_iter` and
/// `from_iter_default` build the same matrix.
pub proof fn lemma_from_iter_agrees<T: Default, const W: usize, const H: usize>(
    a: Matrix<T, W, H>,
    b: Matrix<T, W, H>,
    items: Seq<T>,
)
    requires
        a.wf(),
        b.wf(),
        items.len() >= W * H,
        a.holds_row_major(items),
        b.holds_row_major_padded(items),
    ensures
        a@ == b@,
{
    assert forall|x: int, y: int| 0 <= x < W && 0 <= y < H implies #[trigger] a.cell(x, y) == b.cell(x, y) by {
        assert(y * W + x < W * H) by (nonlinear_arith)
            requires
                0 <= x < W,
                0 <= y < H,
        ;
    }
    lemma_cells_equal(a, b);
}

/// Cell-wise addition does not depend on the order of the operands.
pub proof fn lemma_add_commutes<const W: usize, const H: usize>(
    a: Matrix<i32, W, H>,
    b: Matrix<i32, W, H>,
    ab: Matrix<i32, W, H>,
    ba: Matrix<i32, W, H>,
)
    requires
        ab.wf(),
        ba.wf(),
        is_sum(a, b, ab),
        is_sum(b, a, ba),
    ensures
        ab@ == ba@,
{
    assert forall|x: int, y: int| 0 <= x < W && 0 <= y < H implies #[trigger] ab.cell(x, y) == ba.cell(x, y) by {
        assert(ab.cell(x, y) == a.cell(x, y) + b.cell(x, y));
        assert(ba.cell(x, y) == b.cell(x, y) + a.cell(x, y));
    }
    lemma_cells_equal(ab, ba);
}

proof fn lemma_dot_prefix_transposed<const W: usize, const H: usize, const P: usize>(
    a: Matrix<i32, P, H>,
    b: Matrix<i32, W, P>,
    at: Matrix<i32, H, P>,
    bt: Matrix<i32, P, W>,
    x: int,
    y: int,
    k: int,
)
    requires
        is_transpose(a, at),
        is_transpose(b, bt),
        0 <= x < W,
        0 <= y < H,
        0 <= k <= P,
    ensures
        dot_prefix(bt@, at@, y, x, k) == dot_prefix(a@, b@, x, y, k),
    decreases k,
{
    if k > 0 {
        lemma_dot_prefix_transposed(a, b, at, bt, x, y, k - 1);
        assert(bt.cell(k - 1, x) == b.cell(x, k - 1));
        assert(at.cell(y, k - 1) == a.cell(k - 1, y));
        let p = bt@[x][k - 1] as int;
        let q = at@[k - 1][y] as int;
        assert(p * q == q * p) by (nonlinear_arith);
    }
}

/// The transpose of a product is the product of the transposes in the other
/// order: `(A * B)^T == B^T * A^T`.
pub proof fn lemma_product_transpose<const W: usize, const H: usize, const P: usize>(
    a: Matrix<i32, P, H>,
    b: Matrix<i32, W, P>,
    ab: Matrix<i32, W, H>,
    at: Matrix<i32, H, P>,
    bt: Matrix<i32, P, W>,
    btat: Matrix<i32, H, W>,
)
    requires
        is_product(a, b, ab),
        is_transpose(a, at),
        is_transpose(b, bt),
        is_product(bt, at, btat),
    ensures
        is_transpose(ab, btat),
{
    assert forall|x: int, y: int| 0 <= x < W && 0 <= y < H implies #[trigger] btat.cell(y, x) == ab.cell(x, y) by {
        lemma_dot_prefix_transposed(a, b, at, bt, x, y, P as int);
    }
}
} // verus!
