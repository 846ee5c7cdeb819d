use crate::grid::{column, diagonal, dot, dot_prefix, filled, one, rectangular, transposed, zero, zip_cells};
use vstd::prelude::*;
use vstd::std_specs::ops::{AddSpec, MulSpec};

verus! {

/// Adding the matrix of ones to the zero matrix of the same dimensions, cell
/// by cell, gives the matrix of ones, whatever the dimensions, wherever the
/// element type's zero plus its one is its one.
pub proof fn lemma_zeroes_plus_ones<T: From<i8> + core::ops::Add<Output = T>>(h: nat, w: nat)
    requires
        zero::<T>().add_spec(one::<T>()) == one::<T>(),
    ensures
        zip_cells(filled(h, w, zero::<T>()), filled(h, w, one::<T>()), |a: T, b: T| a.add_spec(b))
            == filled(h, w, one::<T>()),
{
    assert(zip_cells(filled(h, w, zero::<T>()), filled(h, w, one::<T>()), |a: T, b: T| a.add_spec(b))
        =~~= filled(h, w, one::<T>()));
}

/// Transposing a square grid twice gives the grid back.
pub proof fn lemma_transpose_involution<T>(g: Seq<Seq<T>>, n: nat)
    requires
        g.len() == n,
        rectangular(g, n),
    ensures
        transposed(transposed(g, n), n) == g,
{
    assert(transposed(transposed(g, n), n) =~~= g);
}

/// The inner product of the first `k` pairs of `a` and the `j`th standard
/// basis vector `e` is `a[j]` once position `j` is among them, zero before.
proof fn lemma_dot_prefix_basis<T>(a: Seq<T>, e: Seq<T>, j: int, k: nat)
    where T: From<i8> + core::ops::Add<Output = T> + core::ops::Mul<Output = T>,
    requires
        0 <= j,
        k <= a.len(),
        k <= e.len(),
        forall|i: int| 0 <= i < e.len() ==> #[trigger] e[i] == if i == j { one::<T>() } else { zero::<T>() },
        forall|x: T| #[trigger] x.mul_spec(one::<T>()) == x,
        forall|x: T| #[trigger] x.mul_spec(zero::<T>()) == zero::<T>(),
        forall|x: T| #[trigger] zero::<T>().add_spec(x) == x,
        forall|x: T| #[trigger] x.add_spec(zero::<T>()) == x,
    ensures
        dot_prefix(a, e, k) == if j < k { a[j] } else { zero::<T>() },
    decreases k,
{
    if k > 0 {
        lemma_dot_prefix_basis(a, e, j, (k - 1) as nat);
        let p = a[k - 1].mul_spec(e[k - 1]);
        if k - 1 == j {
            assert(p == a[j]);
        } else {
            assert(p == zero::<T>());
        }
        assert(dot_prefix(a, e, k) == dot_prefix(a, e, (k - 1) as nat).add_spec(p));
    }
}

/// Multiplying an `n` by `n` grid by column `j` of the identity, the `j`th
/// standard basis vector, gives column `j` of the grid, wherever the element
/// type's zero and one are units of its addition and multiplication and its
/// zero annihilates.
pub proof fn lemma_identity_column<T>(m: Seq<Seq<T>>, n: nat, j: int)
    where T: From<i8> + core::ops::Add<Output = T> + core::ops::Mul<Output = T>,
    requires
        m.len() == n,
        rectangular(m, n),
        0 <= j < n,
        forall|x: T| #[trigger] x.mul_spec(one::<T>()) == x,
        forall|x: T| #[trigger] x.mul_spec(zero::<T>()) == zero::<T>(),
        forall|x: T| #[trigger] zero::<T>().add_spec(x) == x,
        forall|x: T| #[trigger] x.add_spec(zero::<T>()) == x,
    ensures
        Seq::new(n, |i: int| dot(m[i], column(diagonal(n, zero::<T>(), one::<T>()), j)))
            == column(m, j),
{
    let e = column(diagonal(n, zero::<T>(), one::<T>()), j);
    assert forall|i: int| 0 <= i < n implies dot(m[i], e) == m[i][j] by {
        assert(m[i].len() == n);
        lemma_dot_prefix_basis(m[i], e, j, n);
    }
    assert(Seq::new(n, |i: int| dot(m[i], e)) =~= column(m, j));
}

} // verus!
