use crate::error::Error;
use crate::grid::{dot, dot_ok, dot_prefix, dot_step_in_range, exact_ring, total_ring, zero};
use vstd::prelude::*;
use vstd::std_specs::cmp::PartialEqSpec;
use vstd::std_specs::ops::AddSpec;

verus! {

/// Inner product of two vectors: the sum of the products of their elements,
/// pair by pair, over the pairs that both vectors have.
pub fn vector_dot_product<T>(a: &[T], b: &[T]) -> (r: T) where
    T: Copy + From<i8> + core::ops::Add<Output = T> + core::ops::Mul<Output = T>,

    requires
        dot_ok(a@, b@),
    ensures
        exact_ring::<T>() ==> r == dot(a@, b@),
{
    let n: usize = if a.len() <= b.len() {
        a.len()
    } else {
        b.len()
    };
    let mut acc: T = T::from(0i8);
    let mut k: usize = 0;
    while k < n
        invariant
            dot_ok(a@, b@),
            n <= a@.len(),
            n <= b@.len(),
            n == (if a@.len() <= b@.len() { a@.len() } else { b@.len() }),
            0 <= k <= n,
            exact_ring::<T>() ==> acc == dot_prefix(a@, b@, k as nat),
        decreases n - k,
    {
        assert(total_ring::<T>() || dot_step_in_range(a@, b@, k as int));
        acc = acc + a[k] * b[k];
        k += 1;
    }
    acc
}

/// Element-wise sum of two vectors, over the pairs that both vectors have.
pub fn vector_sum<T: Copy + core::ops::Add<Output = T>>(a: &[T], b: &[T]) -> (r: Vec<T>)
    requires
        forall|k: int| 0 <= k < a@.len() && 0 <= k < b@.len() ==> (#[trigger] a@[k]).add_req(b@[k]),
    ensures
        r@.len() == if a@.len() <= b@.len() {
            a@.len()
        } else {
            b@.len()
        },
        T::obeys_add_spec() ==> forall|k: int|
            0 <= k < r@.len() ==> #[trigger] r@[k] == a@[k].add_spec(b@[k]),
{
    let n: usize = if a.len() <= b.len() {
        a.len()
    } else {
        b.len()
    };
    let mut r: Vec<T> = Vec::new();
    let mut k: usize = 0;
    while k < n
        invariant
            n <= a@.len(),
            n <= b@.len(),
            0 <= k <= n,
            r@.len() == k,
            forall|i: int| 0 <= i < a@.len() && 0 <= i < b@.len() ==> (#[trigger] a@[i]).add_req(b@[i]),
            T::obeys_add_spec() ==> forall|i: int| 0 <= i < k ==> #[trigger] r@[i] == a@[i].add_spec(b@[i]),
        decreases n - k,
    {
        r.push(a[k] + b[k]);
        k += 1;
    }
    r
}

/// `a` and `b` have an inner product equal to the element type's zero.
pub open spec fn orthogonal_spec<T>(a: Seq<T>, b: Seq<T>) -> bool where
    T: From<i8> + core::ops::Add<Output = T> + core::ops::Mul<Output = T> + PartialEq,
 {
    dot(a, b).eq_spec(&zero::<T>())
}

/// Every two distinct positions of `vectors` hold orthogonal vectors.
pub open spec fn all_orthogonal_spec<T>(vectors: Seq<&Vec<T>>) -> bool where
    T: From<i8> + core::ops::Add<Output = T> + core::ops::Mul<Output = T> + PartialEq,
 {
    forall|i: int, j: int|
        0 <= i < j < vectors.len() ==> orthogonal_spec(#[trigger] vectors[i]@, #[trigger] vectors[j]@)
}

/// The element type's conversion, ring operations and equality all follow
/// their specifications.
pub open spec fn exact_eq<T>() -> bool where
    T: From<i8> + core::ops::Add<Output = T> + core::ops::Mul<Output = T> + PartialEq,
 {
    exact_ring::<T>() && T::obeys_eq_spec()
}

/// Whether the inner product of `a` and `b` is exactly zero.
pub fn orthogonal<T>(a: &[T], b: &[T]) -> (r: bool) where
    T: Copy + From<i8> + core::ops::Add<Output = T> + core::ops::Mul<Output = T> + PartialEq,

    requires
        dot_ok(a@, b@),
    ensures
        exact_eq::<T>() ==> r == orthogonal_spec(a@, b@),
{
    let d = vector_dot_product(a, b);
    let z = T::from(0i8);
    d == z
}

/// Whether the vectors are mutually orthogonal, every one against every
/// other; true for no vector or a single one. Each vector is checked against
/// those after it.
pub fn all_orthogonal<T>(vectors: &[&Vec<T>]) -> (r: bool) where
    T: Copy + From<i8> + core::ops::Add<Output = T> + core::ops::Mul<Output = T> + PartialEq,

    requires
        forall|i: int, j: int|
            0 <= i < j < vectors@.len() ==> dot_ok(#[trigger] vectors@[i]@, #[trigger] vectors@[j]@),
    ensures
        vectors@.len() <= 1 ==> r,
        exact_eq::<T>() ==> r == all_orthogonal_spec(vectors@),
{
    let n = vectors.len();
    let mut i: usize = 0;
    while i < n
        invariant
            n == vectors@.len(),
            forall|i: int, j: int|
                0 <= i < j < vectors@.len() ==> dot_ok(#[trigger] vectors@[i]@, #[trigger] vectors@[j]@),
            0 <= i <= n,
            exact_eq::<T>() ==> forall|p: int, q: int|
                0 <= p < i && p < q < n ==> orthogonal_spec(
                    #[trigger] vectors@[p]@,
                    #[trigger] vectors@[q]@,
                ),
        decreases n - i,
    {
        let test_vector = vectors[i];
        let mut j: usize = i + 1;
        while j < n
            invariant
                n == vectors@.len(),
                forall|i: int, j: int|
                    0 <= i < j < vectors@.len() ==> dot_ok(#[trigger] vectors@[i]@, #[trigger] vectors@[j]@),
                0 <= i < n,
                i + 1 <= j <= n,
                test_vector == vectors@[i as int],
                exact_eq::<T>() ==> forall|p: int, q: int|
                    0 <= p < i && p < q < n ==> orthogonal_spec(
                        #[trigger] vectors@[p]@,
                        #[trigger] vectors@[q]@,
                    ),
                exact_eq::<T>() ==> forall|q: int|
                    i < q < j ==> orthogonal_spec(vectors@[i as int]@, #[trigger] vectors@[q]@),
            decreases n - j,
        {
            if !orthogonal(test_vector.as_slice(), vectors[j].as_slice()) {
                return false;
            }
            j += 1;
        }
        i += 1;
    }
    true
}

/// Coordinates of `v` in the basis `base`: `projection(v, b)` for each basis
/// vector `b`, in basis order. A basis whose vectors are not mutually
/// orthogonal fails with `Error::Precondition`.
pub fn change_base<T, F>(v: &[T], base: &[&Vec<T>], projection: F) -> (r: Result<Vec<T>, Error>) where
    T: Copy + From<i8> + core::ops::Add<Output = T> + core::ops::Mul<Output = T> + PartialEq,
    F: Fn(&[T], &Vec<T>) -> T,

    requires
        forall|i: int, j: int|
            0 <= i < j < base@.len() ==> dot_ok(#[trigger] base@[i]@, #[trigger] base@[j]@),
        forall|k: int| 0 <= k < base@.len() ==> projection.requires((v, #[trigger] base@[k])),
    ensures
        base@.len() <= 1 ==> r is Ok,
        exact_eq::<T>() ==> (r is Err <==> !all_orthogonal_spec(base@)),
        r matches Err(e) ==> e == Error::Precondition,
        r matches Ok(c) ==> {
            &&& c@.len() == base@.len()
            &&& forall|k: int| 0 <= k < base@.len() ==> projection.ensures((v, base@[k]), #[trigger] c@[k])
        },
{
    if !all_orthogonal(base) {
        return Err(Error::Precondition);
    }
    let mut c: Vec<T> = Vec::new();
    let mut k: usize = 0;
    while k < base.len()
        invariant
            0 <= k <= base@.len(),
            c@.len() == k,
            forall|i: int| 0 <= i < base@.len() ==> projection.requires((v, #[trigger] base@[i])),
            forall|i: int| 0 <= i < k ==> projection.ensures((v, base@[i]), #[trigger] c@[i]),
        decreases base@.len() - k,
    {
        c.push(projection(v, base[k]));
        k += 1;
    }
    Ok(c)
}

} // verus!
