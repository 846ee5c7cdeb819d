use vstd::prelude::*;
use vstd::std_specs::convert::FromSpec;
use vstd::std_specs::ops::{AddSpec, MulSpec};

verus! {

/// The rows of `rows`, each as a sequence.
pub open spec fn rows_view<T>(rows: Seq<Vec<T>>) -> Seq<Seq<T>> {
    rows.map_values(|r: Vec<T>| r@)
}

/// Every row of `rows` has exactly `w` elements.
pub open spec fn rectangular<T>(rows: Seq<Seq<T>>, w: nat) -> bool {
    forall|i: int| 0 <= i < rows.len() ==> #[trigger] rows[i].len() == w
}

/// An `h` by `w` grid with `v` in every cell.
pub open spec fn filled<T>(h: nat, w: nat, v: T) -> Seq<Seq<T>> {
    Seq::new(h, |i: int| Seq::new(w, |j: int| v))
}

/// An `n` by `n` grid with `one` on the main diagonal and `zero` elsewhere.
pub open spec fn diagonal<T>(n: nat, zero: T, one: T) -> Seq<Seq<T>> {
    Seq::new(n, |i: int| Seq::new(n, |j: int| if i == j { one } else { zero }))
}

/// Column `j` of `rows`, top to bottom.
pub open spec fn column<T>(rows: Seq<Seq<T>>, j: int) -> Seq<T> {
    Seq::new(rows.len(), |i: int| rows[i][j])
}

/// The grid whose row `i` is column `i` of `rows`, for a `w`-wide `rows`.
pub open spec fn transposed<T>(rows: Seq<Seq<T>>, w: nat) -> Seq<Seq<T>> {
    Seq::new(w, |i: int| column(rows, i))
}

/// The grid obtained by applying `f` to each pair of cells at the same position.
pub open spec fn zip_cells<T>(a: Seq<Seq<T>>, b: Seq<Seq<T>>, f: spec_fn(T, T) -> T) -> Seq<Seq<T>> {
    Seq::new(a.len(), |i: int| Seq::new(a[i].len(), |j: int| f(a[i][j], b[i][j])))
}

/// The grid obtained by applying `f` to each cell.
pub open spec fn map_cells<T>(a: Seq<Seq<T>>, f: spec_fn(T) -> T) -> Seq<Seq<T>> {
    Seq::new(a.len(), |i: int| Seq::new(a[i].len(), |j: int| f(a[i][j])))
}

/// The element type's additive unit, as converted from the 8-bit integer 0.
pub open spec fn zero<T: From<i8>>() -> T {
    T::from_spec(0i8)
}

/// The element type's multiplicative unit, as converted from the 8-bit integer 1.
pub open spec fn one<T: From<i8>>() -> T {
    T::from_spec(1i8)
}

/// The element type's conversion, addition and multiplication follow their
/// specifications, so results can be stated as values.
pub open spec fn exact_ring<T: From<i8> + core::ops::Add<Output = T> + core::ops::Mul<Output = T>>() -> bool {
    &&& T::obeys_from_spec()
    &&& T::obeys_add_spec()
    &&& T::obeys_mul_spec()
}

/// Addition and multiplication of the element type have no precondition.
pub open spec fn total_ring<T: core::ops::Add<Output = T> + core::ops::Mul<Output = T>>() -> bool {
    &&& forall|x: T, y: T| #[trigger] x.add_req(y)
    &&& forall|x: T, y: T| #[trigger] x.mul_req(y)
}

/// The sum of the products of the first `n` pairs of `a` and `b`.
pub open spec fn dot_prefix<T: From<i8> + core::ops::Add<Output = T> + core::ops::Mul<Output = T>>(
    a: Seq<T>,
    b: Seq<T>,
    n: nat,
) -> T
    decreases n,
{
    if n == 0 {
        zero::<T>()
    } else {
        dot_prefix(a, b, (n - 1) as nat).add_spec(a[n - 1].mul_spec(b[n - 1]))
    }
}

/// The inner product of `a` and `b` over the pairs that both have.
pub open spec fn dot<T: From<i8> + core::ops::Add<Output = T> + core::ops::Mul<Output = T>>(
    a: Seq<T>,
    b: Seq<T>,
) -> T {
    dot_prefix(a, b, if a.len() <= b.len() { a.len() } else { b.len() })
}

/// Step `k` of the inner product of `a` and `b`, the product of the `k`th
/// pair and its addition to the partial sum before it, stays within what the
/// element type's operations accept.
pub open spec fn dot_step_in_range<T: From<i8> + core::ops::Add<Output = T> + core::ops::Mul<Output = T>>(
    a: Seq<T>,
    b: Seq<T>,
    k: int,
) -> bool {
    &&& a[k].mul_req(b[k])
    &&& dot_prefix(a, b, k as nat).add_req(a[k].mul_spec(b[k]))
}

/// Every step of the inner product of `a` and `b` stays in range.
pub open spec fn dot_in_range<T: From<i8> + core::ops::Add<Output = T> + core::ops::Mul<Output = T>>(
    a: Seq<T>,
    b: Seq<T>,
) -> bool {
    forall|k: int| 0 <= k < a.len() && 0 <= k < b.len() ==> #[trigger] dot_step_in_range(a, b, k)
}

/// The inner product of `a` and `b` can be computed: the element type's
/// operations accept every input, or they follow their specifications and
/// every step of this product stays in range.
pub open spec fn dot_ok<T: From<i8> + core::ops::Add<Output = T> + core::ops::Mul<Output = T>>(
    a: Seq<T>,
    b: Seq<T>,
) -> bool {
    total_ring::<T>() || (exact_ring::<T>() && dot_in_range(a, b))
}

} // verus!
