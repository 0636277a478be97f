//! Index arithmetic for the row-major tensors used by the geodesic solver:
//! `n × n` matrices (the metric tensor) and `n × n × n` arrays (the
//! Christoffel symbols and the metric derivatives).
use vstd::prelude::*;
use vstd::arithmetic::div_mod::{
    lemma_div_denominator,
    lemma_fundamental_div_mod,
    lemma_fundamental_div_mod_converse,
    lemma_mod_bound,
};

verus! {

/// The flat position of entry `(i, j)` of a row-major `n × n` matrix.
pub open spec fn spec_matrix_index(n: nat, i: nat, j: nat) -> nat {
    i * n + j
}

/// The flat position of entry `(i, j, k)` of a row-major `n × n × n` array.
pub open spec fn spec_tensor3_index(n: nat, i: nat, j: nat, k: nat) -> nat {
    i * (n * n) + j * n + k
}

/// The entry `(i, j, k)` that sits at flat position `idx` of a row-major
/// `n × n × n` array.
pub open spec fn spec_tensor3_coords(n: nat, idx: nat) -> (nat, nat, nat) {
    (idx / (n * n), (idx / n) % n, idx % n)
}

proof fn lemma_row_fits(n: nat, j: nat, k: nat)
    requires
        j < n,
        k < n,
    ensures
        j * n + k < n * n,
{
    assert(j * n + k < n * n) by (nonlinear_arith)
        requires
            j < n,
            k < n,
    ;
}

proof fn lemma_tensor3_bound(n: nat, i: nat, j: nat, k: nat)
    requires
        i < n,
        j < n,
        k < n,
    ensures
        spec_tensor3_index(n, i, j, k) < n * n * n,
{
    lemma_row_fits(n, j, k);
    assert(i * (n * n) + (j * n + k) < n * n * n) by (nonlinear_arith)
        requires
            i < n,
            j * n + k < n * n,
    ;
}

proof fn lemma_recover2(n: nat, i: nat, j: nat)
    requires
        i < n,
        j < n,
    ensures
        (i * n + j) / n == i,
        (i * n + j) % n == j,
{
    lemma_fundamental_div_mod_converse((i * n + j) as int, n as int, i as int, j as int);
}

proof fn lemma_recover3(n: nat, i: nat, j: nat, k: nat)
    requires
        i < n,
        j < n,
        k < n,
    ensures
        (i * n * n + j * n + k) / (n * n) == i,
        ((i * n * n + j * n + k) / n) % n == j,
        (i * n * n + j * n + k) % n == k,
{
    let x = i * n * n + j * n + k;
    lemma_row_fits(n, j, k);
    assert(x == i * (n * n) + (j * n + k)) by (nonlinear_arith)
        requires
            x == i * n * n + j * n + k,
    ;
    lemma_fundamental_div_mod_converse(x as int, (n * n) as int, i as int, (j * n + k) as int);
    assert(x == (i * n + j) * n + k) by (nonlinear_arith)
        requires
            x == i * n * n + j * n + k,
    ;
    lemma_fundamental_div_mod_converse(x as int, n as int, (i * n + j) as int, k as int);
    lemma_recover2(n, i, j);
}

/// Row-major matrix layout: entry `(i, j)` of an `n × n` matrix sits at
/// `i·n + j`, so the row is the position divided by `n` and the column the
/// remainder, and distinct entries sit at distinct positions.
pub proof fn lemma_matrix_layout(n: nat, i: nat, j: nat, i2: nat, j2: nat)
    requires
        i < n,
        j < n,
        i2 < n,
        j2 < n,
    ensures
        spec_matrix_index(n, i, j) == i * n + j,
        spec_matrix_index(n, i, j) / n == i,
        spec_matrix_index(n, i, j) % n == j,
        spec_matrix_index(n, i, j) < n * n,
        spec_matrix_index(n, i, j) == spec_matrix_index(n, i2, j2) ==> i == i2 && j == j2,
{
    lemma_recover2(n, i, j);
    lemma_recover2(n, i2, j2);
    lemma_row_fits(n, i, j);
}

/// Row-major layout of an `n × n × n` array: entry `(i, j, k)` sits at
/// `i·n² + j·n + k`, and the entry at position `i·n² + j·n + k` is
/// `(i, j, k)`, read back as `(idx / n², (idx / n) mod n, idx mod n)`.
pub proof fn lemma_tensor3_layout(n: nat, i: nat, j: nat, k: nat)
    requires
        i < n,
        j < n,
        k < n,
    ensures
        spec_tensor3_index(n, i, j, k) == i * n * n + j * n + k,
        spec_tensor3_coords(n, i * n * n + j * n + k) == (i, j, k),
        (i * n * n + j * n + k) / (n * n) == i,
        ((i * n * n + j * n + k) / n) % n == j,
        (i * n * n + j * n + k) % n == k,
{
    assert(i * (n * n) == i * n * n) by (nonlinear_arith);
    lemma_recover3(n, i, j, k);
}

/// Taking the entry apart undoes putting it together: the entry at the flat
/// position of `(i, j, k)` is `(i, j, k)`.
pub proof fn lemma_tensor3_coords_of_index(n: nat, i: nat, j: nat, k: nat)
    requires
        i < n,
        j < n,
        k < n,
    ensures
        spec_tensor3_coords(n, spec_tensor3_index(n, i, j, k)) == (i, j, k),
{
    let x = spec_tensor3_index(n, i, j, k);
    lemma_row_fits(n, j, k);
    lemma_fundamental_div_mod_converse(x as int, (n * n) as int, i as int, (j * n + k) as int);
    assert(x == (i * n + j) * n + k) by (nonlinear_arith)
        requires
            x == i * (n * n) + j * n + k,
    ;
    lemma_fundamental_div_mod_converse(x as int, n as int, (i * n + j) as int, k as int);
    lemma_fundamental_div_mod_converse((i * n + j) as int, n as int, i as int, j as int);
}

/// Putting the entry together undoes taking it apart: every flat position is
/// the position of the entry found there.
pub proof fn lemma_tensor3_index_of_coords(n: nat, idx: nat)
    requires
        n > 0,
    ensures
        ({
            let (i, j, k) = spec_tensor3_coords(n, idx);
            spec_tensor3_index(n, i, j, k) == idx
        }),
        idx < n * n * n ==> ({
            let (i, j, k) = spec_tensor3_coords(n, idx);
            i < n && j < n && k < n
        }),
{
    let q = idx / n;
    let i = idx / (n * n);
    let j = q % n;
    let k = idx % n;
    lemma_fundamental_div_mod(idx as int, n as int);
    lemma_fundamental_div_mod(q as int, n as int);
    lemma_div_denominator(idx as int, n as int, n as int);
    assert(q / n == i);
    lemma_mod_bound(idx as int, n as int);
    lemma_mod_bound(q as int, n as int);
    assert(idx == i * (n * n) + j * n + k) by (nonlinear_arith)
        requires
            idx == n * q + k,
            q == n * i + j,
    ;
    if idx < n * n * n {
        assert(i < n) by (nonlinear_arith)
            requires
                idx == i * (n * n) + j * n + k,
                idx < n * n * n,
                0 <= j,
                0 <= k,
        ;
    }
}

/// Flat position `i·n + j` of entry `(i, j)` in a row-major `n × n` matrix.
pub fn matrix_index(n: usize, i: usize, j: usize) -> (idx: usize)
    requires
        i < n,
        j < n,
        n * n <= usize::MAX,
    ensures
        idx == spec_matrix_index(n as nat, i as nat, j as nat),
        idx == i * n + j,
        idx / n == i,
        idx % n == j,
        idx < n * n,
{
    proof {
        lemma_row_fits(n as nat, i as nat, j as nat);
        lemma_recover2(n as nat, i as nat, j as nat);
    }
    i * n + j
}

/// Flat position `i·n² + j·n + k` of entry `(i, j, k)` in a row-major
/// `n × n × n` array.
pub fn tensor3_index(n: usize, i: usize, j: usize, k: usize) -> (idx: usize)
    requires
        i < n,
        j < n,
        k < n,
        n * n * n <= usize::MAX,
    ensures
        idx == spec_tensor3_index(n as nat, i as nat, j as nat, k as nat),
        idx == i * n * n + j * n + k,
        idx as int / (n * n) == i,
        (idx / n) % n == j,
        idx % n == k,
        idx < n * n * n,
{
    proof {
        lemma_tensor3_bound(n as nat, i as nat, j as nat, k as nat);
        lemma_recover3(n as nat, i as nat, j as nat, k as nat);
        assert(i * (n * n) == i * n * n) by (nonlinear_arith);
        assert(n * n <= n * n * n) by (nonlinear_arith)
            requires
                n > 0,
        ;
    }
    let nn = n * n;
    i * nn + j * n + k
}

/// The entry `(idx / n², (idx / n) mod n, idx mod n)` that sits at flat
/// position `idx` of a row-major `n × n × n` array.
pub fn tensor3_coords(n: usize, idx: usize) -> (r: (usize, usize, usize))
    requires
        idx < n * n * n,
        n * n * n <= usize::MAX,
    ensures
        (r.0 as nat, r.1 as nat, r.2 as nat) == spec_tensor3_coords(n as nat, idx as nat),
        r.0 == idx as int / (n * n),
        r.1 == (idx / n) % n,
        r.2 == idx % n,
        r.0 * n * n + r.1 * n + r.2 == idx,
        r.0 < n,
        r.1 < n,
        r.2 < n,
{
    proof {
        if n == 0 {
            assert(n * n * n == 0);
        }
        lemma_tensor3_index_of_coords(n as nat, idx as nat);
        assert(0 < n * n <= n * n * n) by (nonlinear_arith)
            requires
                n > 0,
        ;
        let q = idx as int / (n * n);
        assert(q * (n * n) == q * n * n) by (nonlinear_arith);
    }
    let nn = n * n;
    (idx / nn, (idx / n) % n, idx % n)
}

} // verus!
