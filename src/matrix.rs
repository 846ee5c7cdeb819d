use crate::error::Error;
use crate::grid::{
    column, diagonal, dot, exact_ring, filled, map_cells, one, rectangular, rows_view, dot_ok,
    transposed, zero, zip_cells,
};
use crate::vector::vector_dot_product;
use vstd::prelude::*;
use vstd::std_specs::convert::FromSpec;
use vstd::std_specs::ops::{AddSpec, DivSpec, MulSpec, SubSpec};

verus! {

/// A dense matrix of `h` rows with `w` elements each, over any element type.
/// All operations return new values; none changes its operands.
#[derive(Debug, Clone, PartialEq)]
pub struct Matrix<T> {
    matrix: Vec<Vec<T>>,
    h: usize,
    w: usize,
}

impl<T> View for Matrix<T> {
    type V = Seq<Seq<T>>;

    closed spec fn view(&self) -> Seq<Seq<T>> {
        rows_view(self.matrix@)
    }
}

impl<T> Matrix<T> {
    /// Number of rows.
    pub closed spec fn height(&self) -> nat {
        self.h as nat
    }

    /// Number of columns.
    pub closed spec fn width(&self) -> nat {
        self.w as nat
    }

    /// The grid has `height` rows of `width` elements each.
    pub open spec fn wf(&self) -> bool {
        &&& self@.len() == self.height()
        &&& rectangular(self@, self.width())
    }
}

impl<T: Copy> Matrix<T> {
    /// The dimensions, as (height, width).
    pub fn dim(&self) -> (r: (usize, usize))
        ensures
            r.0 == self.height(),
            r.1 == self.width(),
    {
        (self.h, self.w)
    }

    /// Builds a matrix from its rows. Fails with `Error::Shape` when there is
    /// no row or when the rows differ in length.
    pub fn new(matrix: Vec<Vec<T>>) -> (r: Result<Matrix<T>, Error>)
        ensures
            r is Err <==> matrix@.len() == 0 || !rectangular(
                rows_view(matrix@),
                matrix@[0]@.len(),
            ),
            r matches Err(e) ==> e == Error::Shape,
            r matches Ok(m) ==> {
                &&& m.wf()
                &&& m@ == rows_view(matrix@)
                &&& m.height() == matrix@.len()
                &&& m.width() == matrix@[0]@.len()
            },
    {
        let h_size = matrix.len();
        if h_size == 0 {
            return Err(Error::Shape);
        }
        let w_size = matrix[0].len();
        let mut i: usize = 0;
        while i < h_size
            invariant
                h_size == matrix@.len(),
                w_size == matrix@[0]@.len(),
                0 <= i <= h_size,
                forall|k: int| 0 <= k < i ==> #[trigger] matrix@[k]@.len() == w_size,
            decreases h_size - i,
        {
            if matrix[i].len() != w_size {
                assert(rows_view(matrix@)[i as int].len() != w_size);
                return Err(Error::Shape);
            }
            i += 1;
        }
        Ok(Matrix { matrix, h: h_size, w: w_size })
    }

    /// A matrix of one row holding `vector`.
    pub fn row_vector(vector: Vec<T>) -> (r: Matrix<T>)
        ensures
            r.wf(),
            r.height() == 1,
            r.width() == vector@.len(),
            r@ == seq![vector@],
    {
        let w_size = vector.len();
        let mut matrix: Vec<Vec<T>> = Vec::new();
        matrix.push(vector);
        let r = Matrix { matrix, h: 1, w: w_size };
        assert(r@ =~= seq![vector@]);
        r
    }

    /// A matrix of one column holding `vector`, one element per row.
    pub fn column_vector(vector: Vec<T>) -> (r: Matrix<T>)
        ensures
            r.wf(),
            r.height() == vector@.len(),
            r.width() == 1,
            r@ == Seq::new(vector@.len(), |i: int| seq![vector@[i]]),
    {
        let h_size = vector.len();
        let mut matrix: Vec<Vec<T>> = Vec::new();
        let mut i: usize = 0;
        while i < h_size
            invariant
                h_size == vector@.len(),
                0 <= i <= h_size,
                matrix@.len() == i,
                forall|k: int| 0 <= k < i ==> (#[trigger] matrix@[k])@ == seq![vector@[k]],
            decreases h_size - i,
        {
            let mut line: Vec<T> = Vec::new();
            line.push(vector[i]);
            assert(line@ =~= seq![vector@[i as int]]);
            matrix.push(line);
            i += 1;
        }
        let r = Matrix { matrix, h: h_size, w: 1 };
        assert(r@ =~= Seq::new(vector@.len(), |i: int| seq![vector@[i]]));
        r
    }

    /// An `height` by `width` matrix with `value` in every cell.
    fn filled_with(height: usize, width: usize, value: T) -> (r: Matrix<T>)
        ensures
            r.wf(),
            r.height() == height,
            r.width() == width,
            r@ == filled(height as nat, width as nat, value),
    {
        let mut matrix: Vec<Vec<T>> = Vec::new();
        let mut i: usize = 0;
        while i < height
            invariant
                0 <= i <= height,
                matrix@.len() == i,
                forall|k: int|
                    0 <= k < i ==> (#[trigger] matrix@[k])@ == Seq::new(width as nat, |j: int| value),
            decreases height - i,
        {
            let mut line: Vec<T> = Vec::new();
            let mut j: usize = 0;
            while j < width
                invariant
                    0 <= j <= width,
                    line@ == Seq::new(j as nat, |c: int| value),
                decreases width - j,
            {
                line.push(value);
                j += 1;
                assert(line@ =~= Seq::new(j as nat, |c: int| value));
            }
            matrix.push(line);
            i += 1;
        }
        let r = Matrix { matrix, h: height, w: width };
        assert(r@ =~= filled(height as nat, width as nat, value));
        r
    }

    /// Row `x`, copied. Fails with `Error::Index` when `x` is not below the
    /// height.
    pub fn row(&self, x: usize) -> (r: Result<Vec<T>, Error>)
        requires
            self.wf(),
        ensures
            r is Err <==> x >= self.height(),
            r matches Err(e) ==> e == Error::Index,
            r matches Ok(v) ==> v@ == self@[x as int],
    {
        if x >= self.h {
            return Err(Error::Index);
        }
        let line = &self.matrix[x];
        assert(line@ == self@[x as int]);
        let mut v: Vec<T> = Vec::new();
        let mut j: usize = 0;
        while j < line.len()
            invariant
                0 <= j <= line@.len(),
                v@ == line@.subrange(0, j as int),
            decreases line@.len() - j,
        {
            v.push(line[j]);
            j += 1;
            assert(v@ =~= line@.subrange(0, j as int));
        }
        assert(v@ =~= line@);
        Ok(v)
    }

    /// Column `x`: element `x` of every row, in row order. Fails with
    /// `Error::Index` when `x` is not below the width.
    pub fn col(&self, x: usize) -> (r: Result<Vec<T>, Error>)
        requires
            self.wf(),
        ensures
            r is Err <==> x >= self.width(),
            r matches Err(e) ==> e == Error::Index,
            r matches Ok(v) ==> v@ == column(self@, x as int),
    {
        if x >= self.w {
            return Err(Error::Index);
        }
        let mut v: Vec<T> = Vec::new();
        let mut i: usize = 0;
        while i < self.h
            invariant
                self.wf(),
                x < self.width(),
                0 <= i <= self.height(),
                v@ == column(self@, x as int).subrange(0, i as int),
            decreases self.height() - i,
        {
            let line = &self.matrix[i];
            assert(line@ == self@[i as int]);
            v.push(line[x]);
            i += 1;
            assert(v@ =~= column(self@, x as int).subrange(0, i as int));
        }
        assert(v@ =~= column(self@, x as int));
        Ok(v)
    }

    /// The transpose: cell (i, j) of the result is cell (j, i) of `self`.
    /// Only square matrices are accepted; any other fails with `Error::Shape`.
    pub fn transpose(self) -> (r: Result<Matrix<T>, Error>)
        requires
            self.wf(),
        ensures
            r is Err <==> self.height() != self.width(),
            r matches Err(e) ==> e == Error::Shape,
            r matches Ok(m) ==> {
                &&& m.wf()
                &&& m.height() == self.width()
                &&& m.width() == self.height()
                &&& m@ == transposed(self@, self.width())
            },
    {
        if self.h != self.w {
            return Err(Error::Shape);
        }
        let mut res_vector: Vec<Vec<T>> = Vec::new();
        let mut i: usize = 0;
        while i < self.w
            invariant
                self.wf(),
                self.height() == self.width(),
                0 <= i <= self.width(),
                res_vector@.len() == i,
                forall|k: int| 0 <= k < i ==> (#[trigger] res_vector@[k])@ == column(self@, k),
            decreases self.width() - i,
        {
            let c = self.col(i);
            match c {
                Ok(v) => res_vector.push(v),
                Err(_) => {},
            }
            i += 1;
        }
        let r = Matrix { matrix: res_vector, h: self.w, w: self.h };
        assert(r@ =~= transposed(self@, self.width()));
        Ok(r)
    }

    /// Applies `f` to each pair of cells at the same position of two matrices
    /// of equal dimensions.
    fn zip_with<F: Fn(T, T) -> T>(&self, other: &Matrix<T>, f: F) -> (r: Matrix<T>)
        requires
            self.wf(),
            other.wf(),
            self.height() == other.height(),
            self.width() == other.width(),
            forall|i: int, j: int|
                0 <= i < self.height() && 0 <= j < self.width() ==> f.requires(
                    (#[trigger] self@[i][j], other@[i][j]),
                ),
        ensures
            r.wf(),
            r.height() == self.height(),
            r.width() == self.width(),
            forall|i: int, j: int|
                0 <= i < self.height() && 0 <= j < self.width() ==> f.ensures(
                    (self@[i][j], other@[i][j]),
                    #[trigger] r@[i][j],
                ),
    {
        let h = self.h;
        let w = self.w;
        let mut result: Vec<Vec<T>> = Vec::new();
        let mut x: usize = 0;
        while x < h
            invariant
                self.wf(),
                other.wf(),
                h == self.height() == other.height(),
                w == self.width() == other.width(),
                0 <= x <= h,
                result@.len() == x,
                forall|i: int, j: int|
                    0 <= i < h && 0 <= j < w ==> f.requires((#[trigger] self@[i][j], other@[i][j])),
                forall|i: int| 0 <= i < x ==> (#[trigger] result@[i])@.len() == w,
                forall|i: int, j: int|
                    0 <= i < x && 0 <= j < w ==> f.ensures(
                        (self@[i][j], other@[i][j]),
                        #[trigger] result@[i]@[j],
                    ),
            decreases h - x,
        {
            let a = &self.matrix[x];
            let b = &other.matrix[x];
            assert(a@ == self@[x as int]);
            assert(b@ == other@[x as int]);
            let mut line: Vec<T> = Vec::new();
            let mut y: usize = 0;
            while y < w
                invariant
                    0 <= y <= w,
                    a@.len() == w,
                    b@.len() == w,
                    line@.len() == y,
                    forall|j: int| 0 <= j < w ==> f.requires((#[trigger] a@[j], b@[j])),
                    forall|j: int| 0 <= j < y ==> f.ensures((a@[j], b@[j]), #[trigger] line@[j]),
                decreases w - y,
            {
                line.push(f(a[y], b[y]));
                y += 1;
            }
            result.push(line);
            x += 1;
        }
        Matrix { matrix: result, h, w }
    }

    /// Applies `f` to each cell.
    fn map_with<F: Fn(T) -> T>(&self, f: F) -> (r: Matrix<T>)
        requires
            self.wf(),
            forall|i: int, j: int|
                0 <= i < self.height() && 0 <= j < self.width() ==> f.requires(
                    (#[trigger] self@[i][j],),
                ),
        ensures
            r.wf(),
            r.height() == self.height(),
            r.width() == self.width(),
            forall|i: int, j: int|
                0 <= i < self.height() && 0 <= j < self.width() ==> f.ensures(
                    (self@[i][j],),
                    #[trigger] r@[i][j],
                ),
    {
        let h = self.h;
        let w = self.w;
        let mut result: Vec<Vec<T>> = Vec::new();
        let mut x: usize = 0;
        while x < h
            invariant
                self.wf(),
                h == self.height(),
                w == self.width(),
                0 <= x <= h,
                result@.len() == x,
                forall|i: int, j: int|
                    0 <= i < h && 0 <= j < w ==> f.requires((#[trigger] self@[i][j],)),
                forall|i: int| 0 <= i < x ==> (#[trigger] result@[i])@.len() == w,
                forall|i: int, j: int|
                    0 <= i < x && 0 <= j < w ==> f.ensures((self@[i][j],), #[trigger] result@[i]@[j]),
            decreases h - x,
        {
            let a = &self.matrix[x];
            assert(a@ == self@[x as int]);
            let mut line: Vec<T> = Vec::new();
            let mut y: usize = 0;
            while y < w
                invariant
                    0 <= y <= w,
                    a@.len() == w,
                    line@.len() == y,
                    forall|j: int| 0 <= j < w ==> f.requires((#[trigger] a@[j],)),
                    forall|j: int| 0 <= j < y ==> f.ensures((a@[j],), #[trigger] line@[j]),
                decreases w - y,
            {
                line.push(f(a[y]));
                y += 1;
            }
            result.push(line);
            x += 1;
        }
        Matrix { matrix: result, h, w }
    }
}


impl<T: Copy + From<i8>> Matrix<T> {
    /// The `height` by `width` zero matrix.
    pub fn zeroes(height: usize, width: usize) -> (r: Matrix<T>)
        ensures
            r.wf(),
            r.height() == height,
            r.width() == width,
            exists|z: T|
                #[trigger] filled(height as nat, width as nat, z) == r@ && (T::obeys_from_spec()
                    ==> z == zero::<T>()),
    {
        let z = T::from(0i8);
        Matrix::filled_with(height, width, z)
    }

    /// The `height` by `width` matrix of ones.
    pub fn ones(height: usize, width: usize) -> (r: Matrix<T>)
        ensures
            r.wf(),
            r.height() == height,
            r.width() == width,
            exists|o: T|
                #[trigger] filled(height as nat, width as nat, o) == r@ && (T::obeys_from_spec()
                    ==> o == one::<T>()),
    {
        let o = T::from(1i8);
        Matrix::filled_with(height, width, o)
    }

    /// The `size` by `size` identity matrix: ones on the main diagonal, zeroes
    /// elsewhere.
    pub fn identity(size: usize) -> (r: Matrix<T>)
        ensures
            r.wf(),
            r.height() == size,
            r.width() == size,
            exists|z: T, o: T|
                #[trigger] diagonal(size as nat, z, o) == r@ && (T::obeys_from_spec() ==> z
                    == zero::<T>() && o == one::<T>()),
    {
        let z = T::from(0i8);
        let o = T::from(1i8);
        let mut matrix: Vec<Vec<T>> = Vec::new();
        let mut x: usize = 0;
        while x < size
            invariant
                0 <= x <= size,
                matrix@.len() == x,
                forall|k: int|
                    0 <= k < x ==> (#[trigger] matrix@[k])@ == diagonal(size as nat, z, o)[k],
            decreases size - x,
        {
            let mut line: Vec<T> = Vec::new();
            let mut y: usize = 0;
            while y < size
                invariant
                    0 <= y <= size,
                    x < size,
                    line@ == diagonal(size as nat, z, o)[x as int].subrange(0, y as int),
                decreases size - y,
            {
                if y == x {
                    line.push(o);
                } else {
                    line.push(z);
                }
                y += 1;
                assert(line@ =~= diagonal(size as nat, z, o)[x as int].subrange(0, y as int));
            }
            assert(line@ =~= diagonal(size as nat, z, o)[x as int]);
            matrix.push(line);
            x += 1;
        }
        let r = Matrix { matrix, h: size, w: size };
        assert(r@ =~= diagonal(size as nat, z, o));
        r
    }
}

impl<T: Copy + core::ops::Add<Output = T>> Matrix<T> {
    /// Cell-by-cell sum of two matrices of equal dimensions. Operands of
    /// different dimensions fail with `Error::Shape`.
    pub fn add(&self, other: &Matrix<T>) -> (r: Result<Matrix<T>, Error>)
        requires
            self.wf(),
            other.wf(),
            self.height() == other.height() && self.width() == other.width() ==> forall|
                i: int,
                j: int,
            |
                0 <= i < self.height() && 0 <= j < self.width() ==> (#[trigger] self@[i][j]).add_req(
                    other@[i][j],
                ),
        ensures
            r is Err <==> self.height() != other.height() || self.width() != other.width(),
            r matches Err(e) ==> e == Error::Shape,
            r matches Ok(m) ==> {
                &&& m.wf()
                &&& m.height() == self.height()
                &&& m.width() == self.width()
                &&& T::obeys_add_spec() ==> m@ == zip_cells(
                    self@,
                    other@,
                    |a: T, b: T| a.add_spec(b),
                )
            },
    {
        if self.h != other.h || self.w != other.w {
            return Err(Error::Shape);
        }
        let f = |a: T, b: T| -> (c: T)
            requires
                a.add_req(b),
            ensures
                T::obeys_add_spec() ==> c == a.add_spec(b),
            { a + b };
        let m = self.zip_with(other, f);
        assert(T::obeys_add_spec() ==> m@ =~~= zip_cells(self@, other@, |a: T, b: T| a.add_spec(b)));
        Ok(m)
    }
}

impl<T: Copy + core::ops::Sub<Output = T>> Matrix<T> {
    /// Cell-by-cell difference of two matrices of equal dimensions. Operands
    /// of different dimensions fail with `Error::Shape`.
    pub fn sub(&self, other: &Matrix<T>) -> (r: Result<Matrix<T>, Error>)
        requires
            self.wf(),
            other.wf(),
            self.height() == other.height() && self.width() == other.width() ==> forall|
                i: int,
                j: int,
            |
                0 <= i < self.height() && 0 <= j < self.width() ==> (#[trigger] self@[i][j]).sub_req(
                    other@[i][j],
                ),
        ensures
            r is Err <==> self.height() != other.height() || self.width() != other.width(),
            r matches Err(e) ==> e == Error::Shape,
            r matches Ok(m) ==> {
                &&& m.wf()
                &&& m.height() == self.height()
                &&& m.width() == self.width()
                &&& T::obeys_sub_spec() ==> m@ == zip_cells(
                    self@,
                    other@,
                    |a: T, b: T| a.sub_spec(b),
                )
            },
    {
        if self.h != other.h || self.w != other.w {
            return Err(Error::Shape);
        }
        let f = |a: T, b: T| -> (c: T)
            requires
                a.sub_req(b),
            ensures
                T::obeys_sub_spec() ==> c == a.sub_spec(b),
            { a - b };
        let m = self.zip_with(other, f);
        assert(T::obeys_sub_spec() ==> m@ =~~= zip_cells(self@, other@, |a: T, b: T| a.sub_spec(b)));
        Ok(m)
    }
}

impl<T: Copy + core::ops::Mul<Output = T>> Matrix<T> {
    /// Every cell multiplied by the scalar `rhs`.
    pub fn mul(&self, rhs: T) -> (r: Matrix<T>)
        requires
            self.wf(),
            forall|i: int, j: int|
                0 <= i < self.height() && 0 <= j < self.width() ==> (#[trigger] self@[i][j]).mul_req(rhs),
        ensures
            r.wf(),
            r.height() == self.height(),
            r.width() == self.width(),
            T::obeys_mul_spec() ==> r@ == map_cells(self@, |a: T| a.mul_spec(rhs)),
    {
        let f = |a: T| -> (c: T)
            requires
                a.mul_req(rhs),
            ensures
                T::obeys_mul_spec() ==> c == a.mul_spec(rhs),
            { a * rhs };
        let m = self.map_with(f);
        assert(T::obeys_mul_spec() ==> m@ =~~= map_cells(self@, |a: T| a.mul_spec(rhs)));
        m
    }
}

impl<T: Copy + core::ops::Div<Output = T>> Matrix<T> {
    /// Every cell divided by the scalar `rhs`. A zero divisor is not singled
    /// out: what the element type's division gives for it is kept.
    pub fn div(&self, rhs: T) -> (r: Matrix<T>)
        requires
            self.wf(),
            forall|i: int, j: int|
                0 <= i < self.height() && 0 <= j < self.width() ==> (#[trigger] self@[i][j]).div_req(rhs),
        ensures
            r.wf(),
            r.height() == self.height(),
            r.width() == self.width(),
            T::obeys_div_spec() ==> r@ == map_cells(self@, |a: T| a.div_spec(rhs)),
    {
        let f = |a: T| -> (c: T)
            requires
                a.div_req(rhs),
            ensures
                T::obeys_div_spec() ==> c == a.div_spec(rhs),
            { a / rhs };
        let m = self.map_with(f);
        assert(T::obeys_div_spec() ==> m@ =~~= map_cells(self@, |a: T| a.div_spec(rhs)));
        m
    }
}

impl<T> Matrix<T> where T: Copy + From<i8> + core::ops::Add<Output = T> + core::ops::Mul<Output = T> {
    /// The matrix times the column vector `vector`: entry `i` of the result is
    /// the inner product of row `i` with `vector`. Fails with `Error::Shape`
    /// when the vector's length is not the matrix's width.
    pub fn mul_vec(&self, vector: &Vec<T>) -> (r: Result<Vec<T>, Error>)
        requires
            self.wf(),
            vector@.len() == self.width() ==> forall|i: int|
                0 <= i < self.height() ==> dot_ok(#[trigger] self@[i], vector@),
        ensures
            r is Err <==> vector@.len() != self.width(),
            r matches Err(e) ==> e == Error::Shape,
            r matches Ok(v) ==> {
                &&& v@.len() == self.height()
                &&& exact_ring::<T>() ==> v@ == Seq::new(self.height(), |i: int| dot(self@[i], vector@))
            },
    {
        if vector.len() != self.w {
            return Err(Error::Shape);
        }
        let mut result: Vec<T> = Vec::new();
        let mut x: usize = 0;
        while x < self.h
            invariant
                self.wf(),
                vector@.len() == self.width(),
                forall|i: int| 0 <= i < self.height() ==> dot_ok(#[trigger] self@[i], vector@),
                0 <= x <= self.height(),
                result@.len() == x,
                forall|i: int| 0 <= i < x ==> exact_ring::<T>() ==> #[trigger] result@[i] == dot(self@[i], vector@),
            decreases self.height() - x,
        {
            let line = &self.matrix[x];
            assert(line@ == self@[x as int]);
            let d = vector_dot_product(line.as_slice(), vector.as_slice());
            result.push(d);
            x += 1;
        }
        assert(exact_ring::<T>() ==> result@ =~= Seq::new(self.height(), |i: int| dot(self@[i], vector@)));
        Ok(result)
    }
}

impl<T> core::ops::Index<usize> for Matrix<T> {
    type Output = Vec<T>;

    /// Row `line`, borrowed; indexing it again gives a cell.
    fn index(&self, line: usize) -> (r: &Vec<T>)
        ensures
            r@ == self@[line as int],
    {
        &self.matrix[line]
    }
}

impl<T> vstd::std_specs::core::IndexSpecImpl<usize> for Matrix<T> {
    open spec fn index_req(&self, line: &usize) -> bool {
        *line < self.height() && self.wf()
    }
}

} // verus!
