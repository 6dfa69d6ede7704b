use vstd::prelude::*;

verus! {

/// Whether `x` can be held by an `i64`.
pub open spec fn fits_i64(x: int) -> bool {
    i64::MIN <= x <= i64::MAX
}

/// `g` has `n` rows of `m` entries each.
pub open spec fn is_grid(g: Seq<Seq<int>>, n: nat, m: nat) -> bool {
    &&& g.len() == n
    &&& forall|i: int| 0 <= i < n ==> (#[trigger] g[i]).len() == m
}

/// Entrywise sum of two grids of one shape.
pub open spec fn grid_sum(a: Seq<Seq<int>>, b: Seq<Seq<int>>) -> Seq<Seq<int>> {
    Seq::new(a.len(), |i: int| Seq::new(a[i].len(), |j: int| a[i][j] + b[i][j]))
}

/// Entrywise difference of two grids of one shape.
pub open spec fn grid_diff(a: Seq<Seq<int>>, b: Seq<Seq<int>>) -> Seq<Seq<int>> {
    Seq::new(a.len(), |i: int| Seq::new(a[i].len(), |j: int| a[i][j] - b[i][j]))
}

/// Entrywise negation of a grid.
pub open spec fn grid_neg(a: Seq<Seq<int>>) -> Seq<Seq<int>> {
    Seq::new(a.len(), |i: int| Seq::new(a[i].len(), |j: int| -a[i][j]))
}

/// The transpose of a square grid: entry `(i, j)` is entry `(j, i)` of `a`.
pub open spec fn transposed(a: Seq<Seq<int>>) -> Seq<Seq<int>> {
    Seq::new(a.len(), |i: int| Seq::new(a.len(), |j: int| a[j][i]))
}

/// The `n` by `n` identity grid.
pub open spec fn identity_grid(n: nat) -> Seq<Seq<int>> {
    Seq::new(n, |i: int| Seq::new(n, |j: int| if i == j { 1int } else { 0int }))
}

/// Sum of `a[i][l] * b[l][j]` over `l < k`, accumulated in increasing `l`.
pub open spec fn dot_upto(a: Seq<Seq<int>>, b: Seq<Seq<int>>, i: int, j: int, k: nat) -> int
    decreases k,
{
    if k == 0 {
        0
    } else {
        dot_upto(a, b, i, j, (k - 1) as nat) + a[i][k - 1] * b[k - 1][j]
    }
}

/// Every entrywise sum of `a` and `b` fits in an `i64`.
pub open spec fn sum_fits(a: Seq<Seq<int>>, b: Seq<Seq<int>>) -> bool {
    forall|i: int, j: int|
        0 <= i < a.len() && 0 <= j < a[i].len() ==> #[trigger] fits_i64(a[i][j] + b[i][j])
}

/// Every entrywise difference of `a` and `b` fits in an `i64`.
pub open spec fn diff_fits(a: Seq<Seq<int>>, b: Seq<Seq<int>>) -> bool {
    forall|i: int, j: int|
        0 <= i < a.len() && 0 <= j < a[i].len() ==> #[trigger] fits_i64(a[i][j] - b[i][j])
}

/// Every product of two entries and every partial sum of the product `a * b`
/// (with `r` columns) fits in an `i64`.
pub open spec fn product_fits(a: Seq<Seq<int>>, b: Seq<Seq<int>>, r: nat) -> bool {
    &&& forall|i: int, j: int, k: int|
        #![trigger a[i][k], b[k][j]]
        0 <= i < a.len() && 0 <= j < r && 0 <= k < b.len() ==> fits_i64(a[i][k] * b[k][j])
    &&& forall|i: int, j: int, k: nat|
        0 <= i < a.len() && 0 <= j < r && k <= b.len() ==> fits_i64(
            #[trigger] dot_upto(a, b, i, j, k),
        )
}

/// Matrix product of `a` (rows of `b.len()` entries) and `b` (rows of `r` entries).
pub open spec fn grid_product(a: Seq<Seq<int>>, b: Seq<Seq<int>>, r: nat) -> Seq<Seq<int>> {
    Seq::new(a.len(), |i: int| Seq::new(r, |j: int| dot_upto(a, b, i, j, b.len())))
}

/// The entries of `a` as `N` rows of `M` integers.
pub open spec fn grid<const N: usize, const M: usize, A: Matrix<N, M>>(a: &A) -> Seq<Seq<int>> {
    Seq::new(N as nat, |i: int| Seq::new(M as nat, |j: int| a.entry(i, j)))
}

/// Transposing a square grid twice gives it back.
pub proof fn lemma_transpose_involutive(a: Seq<Seq<int>>, n: nat)
    requires
        is_grid(a, n, n),
    ensures
        transposed(transposed(a)) == a,
{
    assert forall|i: int| 0 <= i < n implies #[trigger] transposed(transposed(a))[i] =~= a[i] by {}
    assert(transposed(transposed(a)) =~= a);
}

proof fn lemma_identity_row_sum(a: Seq<Seq<int>>, n: nat, m: nat, i: int, j: int, k: nat)
    requires
        is_grid(a, n, m),
        0 <= i < n,
        0 <= j < m,
        k <= n,
    ensures
        dot_upto(identity_grid(n), a, i, j, k) == if i < k {
            a[i][j]
        } else {
            0
        },
    decreases k,
{
    if k > 0 {
        lemma_identity_row_sum(a, n, m, i, j, (k - 1) as nat);
    }
}

/// The identity matrix is a left unit of the matrix product.
pub proof fn lemma_identity_left(a: Seq<Seq<int>>, n: nat, m: nat)
    requires
        is_grid(a, n, m),
    ensures
        grid_product(identity_grid(n), a, m) == a,
{
    assert forall|i: int| 0 <= i < n implies #[trigger] grid_product(identity_grid(n), a, m)[i]
        =~= a[i] by {
        assert forall|j: int| 0 <= j < m implies grid_product(identity_grid(n), a, m)[i][j]
            == a[i][j] by {
            lemma_identity_row_sum(a, n, m, i, j, n);
        }
    }
    assert(grid_product(identity_grid(n), a, m) =~= a);
}

/// The entrywise sum commutes, and swapping the operands of a difference negates it.
pub proof fn lemma_sum_commutes(a: Seq<Seq<int>>, b: Seq<Seq<int>>, n: nat, m: nat)
    requires
        is_grid(a, n, m),
        is_grid(b, n, m),
    ensures
        grid_sum(a, b) == grid_sum(b, a),
        grid_diff(a, b) == grid_neg(grid_diff(b, a)),
{
    assert forall|i: int| 0 <= i < n implies #[trigger] grid_sum(a, b)[i] =~= grid_sum(b, a)[i] by {}
    assert(grid_sum(a, b) =~= grid_sum(b, a));
    assert forall|i: int| 0 <= i < n implies #[trigger] grid_diff(a, b)[i] =~= grid_neg(
        grid_diff(b, a),
    )[i] by {}
    assert(grid_diff(a, b) =~= grid_neg(grid_diff(b, a)));
}

/// A type that stores an `N` by `M` matrix of `i64` entries. Its three accessors
/// are all that an implementor writes; the arithmetic comes from `MatrixOps`.
pub trait Matrix<const N: usize, const M: usize>: Sized {
    /// The entry at row `i` and column `j`, for `0 <= i < N` and `0 <= j < M`.
    spec fn entry(&self, i: int, j: int) -> int;

    /// A matrix whose entries are all zero.
    fn zeroed() -> (r: Self)
        ensures
            forall|i: int, j: int| 0 <= i < N && 0 <= j < M ==> r.entry(i, j) == 0,
    ;

    /// Writes `n` at row `i` and column `j`, leaving every other entry as it was.
    fn set_entry(&mut self, i: usize, j: usize, n: i64)
        requires
            i < N,
            j < M,
        ensures
            final(self).entry(i as int, j as int) == n,
            forall|a: int, b: int|
                0 <= a < N && 0 <= b < M && !(a == i && b == j) ==> final(self).entry(a, b) == old(
                    self,
                ).entry(a, b),
    ;

    /// Reads the entry at row `i` and column `j`.
    fn get_entry(&self, i: usize, j: usize) -> (r: i64)
        requires
            i < N,
            j < M,
        ensures
            r == self.entry(i as int, j as int),
    ;
}

/// The arithmetic that every matrix type has from its three accessors.
pub trait MatrixOps<const N: usize, const M: usize>: Matrix<N, M> {
    /// Matrix product of `self` (N by M) and `rhs` (M by R), stored in a type the caller picks.
    fn mat_mul<const R: usize, T: Matrix<N, R>, U: Matrix<M, R>>(&self, rhs: &U) -> (r: T)
        requires
            product_fits(grid(self), grid(rhs), R as nat),
        ensures
            grid(&r) == grid_product(grid(self), grid(rhs), R as nat),
    ;

    /// Entrywise sum of `self` and `rhs`, stored in a type the caller picks.
    fn add<T: Matrix<N, M>, U: Matrix<N, M>>(&self, rhs: &U) -> (r: T)
        requires
            sum_fits(grid(self), grid(rhs)),
        ensures
            grid(&r) == grid_sum(grid(self), grid(rhs)),
    ;

    /// Entrywise difference of `self` and `rhs`, stored in a type the caller picks.
    fn sub<T: Matrix<N, M>, U: Matrix<N, M>>(&self, rhs: &U) -> (r: T)
        requires
            diff_fits(grid(self), grid(rhs)),
        ensures
            grid(&r) == grid_diff(grid(self), grid(rhs)),
    ;
}

/// Every matrix type gets the arithmetic, written once over its accessors.
impl<const N: usize, const M: usize, S: Matrix<N, M>> MatrixOps<N, M> for S {
    fn mat_mul<const R: usize, T: Matrix<N, R>, U: Matrix<M, R>>(&self, rhs: &U) -> (r: T) {
        let mut res: T = T::zeroed();
        let mut i: usize = 0;
        while i < N
            invariant
                i <= N,
                product_fits(grid(self), grid(rhs), R as nat),
                forall|a: int, b: int|
                    0 <= a < i && 0 <= b < R ==> #[trigger] res.entry(a, b) == dot_upto(
                        grid(self),
                        grid(rhs),
                        a,
                        b,
                        M as nat,
                    ),
            decreases N - i,
        {
            let mut j: usize = 0;
            while j < R
                invariant
                    i < N,
                    j <= R,
                    product_fits(grid(self), grid(rhs), R as nat),
                    forall|a: int, b: int|
                        0 <= a < N && 0 <= b < R && (a < i || (a == i && b < j))
                            ==> #[trigger] res.entry(a, b) == dot_upto(
                            grid(self),
                            grid(rhs),
                            a,
                            b,
                            M as nat,
                        ),
                decreases R - j,
            {
                let mut n: i64 = 0;
                let mut k: usize = 0;
                while k < M
                    invariant
                        i < N,
                        j < R,
                        k <= M,
                        product_fits(grid(self), grid(rhs), R as nat),
                        n == dot_upto(grid(self), grid(rhs), i as int, j as int, k as nat),
                    decreases M - k,
                {
                    let x = self.get_entry(i, k);
                    let y = rhs.get_entry(k, j);
                    assert(fits_i64(grid(self)[i as int][k as int] * grid(rhs)[k as int][j as int]));
                    assert(fits_i64(
                        dot_upto(grid(self), grid(rhs), i as int, j as int, (k + 1) as nat),
                    ));
                    n = n + x * y;
                    k = k + 1;
                }
                res.set_entry(i, j, n);
                j = j + 1;
            }
            i = i + 1;
        }
        assert forall|a: int| 0 <= a < N implies #[trigger] grid(&res)[a] =~= grid_product(
            grid(self),
            grid(rhs),
            R as nat,
        )[a] by {}
        assert(grid(&res) =~= grid_product(grid(self), grid(rhs), R as nat));
        res
    }


    fn add<T: Matrix<N, M>, U: Matrix<N, M>>(&self, rhs: &U) -> (r: T) {
        let mut res: T = T::zeroed();
        let mut i: usize = 0;
        while i < N
            invariant
                i <= N,
                sum_fits(grid(self), grid(rhs)),
                forall|a: int, b: int|
                    0 <= a < i && 0 <= b < M ==> #[trigger] res.entry(a, b) == self.entry(a, b)
                        + rhs.entry(a, b),
            decreases N - i,
        {
            let mut j: usize = 0;
            while j < M
                invariant
                    i < N,
                    j <= M,
                    sum_fits(grid(self), grid(rhs)),
                    forall|a: int, b: int|
                        0 <= a < N && 0 <= b < M && (a < i || (a == i && b < j))
                            ==> #[trigger] res.entry(a, b) == self.entry(a, b) + rhs.entry(a, b),
                decreases M - j,
            {
                let x = self.get_entry(i, j);
                let y = rhs.get_entry(i, j);
                assert(fits_i64(grid(self)[i as int][j as int] + grid(rhs)[i as int][j as int]));
                res.set_entry(i, j, x + y);
                j = j + 1;
            }
            i = i + 1;
        }
        assert forall|a: int| 0 <= a < N implies #[trigger] grid(&res)[a] =~= grid_sum(
            grid(self),
            grid(rhs),
        )[a] by {}
        assert(grid(&res) =~= grid_sum(grid(self), grid(rhs)));
        res
    }


    fn sub<T: Matrix<N, M>, U: Matrix<N, M>>(&self, rhs: &U) -> (r: T) {
        let mut res: T = T::zeroed();
        let mut i: usize = 0;
        while i < N
            invariant
                i <= N,
                diff_fits(grid(self), grid(rhs)),
                forall|a: int, b: int|
                    0 <= a < i && 0 <= b < M ==> #[trigger] res.entry(a, b) == self.entry(a, b)
                        - rhs.entry(a, b),
            decreases N - i,
        {
            let mut j: usize = 0;
            while j < M
                invariant
                    i < N,
                    j <= M,
                    diff_fits(grid(self), grid(rhs)),
                    forall|a: int, b: int|
                        0 <= a < N && 0 <= b < M && (a < i || (a == i && b < j))
                            ==> #[trigger] res.entry(a, b) == self.entry(a, b) - rhs.entry(a, b),
                decreases M - j,
            {
                let x = self.get_entry(i, j);
                let y = rhs.get_entry(i, j);
                assert(fits_i64(grid(self)[i as int][j as int] - grid(rhs)[i as int][j as int]));
                res.set_entry(i, j, x - y);
                j = j + 1;
            }
            i = i + 1;
        }
        assert forall|a: int| 0 <= a < N implies #[trigger] grid(&res)[a] =~= grid_diff(
            grid(self),
            grid(rhs),
        )[a] by {}
        assert(grid(&res) =~= grid_diff(grid(self), grid(rhs)));
        res
    }
}

/// Operations of square matrices, which every `N` by `N` matrix type has.
pub trait SquareMatrix<const N: usize>: Matrix<N, N> {
    /// The transpose of `self`, as a new value.
    fn transpose(self) -> (r: Self)
        ensures
            grid(&r) == transposed(grid(&self)),
    {
        let mut m = self;
        m.transpose_mut();
        m
    }

    /// Transposes `self` in place by swapping each entry below the diagonal with its mirror.
    fn transpose_mut(&mut self)
        ensures
            grid(final(self)) == transposed(grid(old(self))),
    {
        let ghost g = grid(&*self);
        let mut i: usize = 0;
        while i < N
            invariant
                i <= N,
                g == grid(old(self)),
                forall|a: int, b: int|
                    0 <= a < N && 0 <= b < N ==> #[trigger] self.entry(a, b) == if a < i && b < i {
                        g[b][a]
                    } else {
                        g[a][b]
                    },
            decreases N - i,
        {
            let mut j: usize = 0;
            while j < i
                invariant
                    i < N,
                    j <= i,
                    g == grid(old(self)),
                    forall|a: int, b: int|
                        0 <= a < N && 0 <= b < N ==> #[trigger] self.entry(a, b) == if (a < i && b
                            < i) || (a == i && b < j) || (b == i && a < j) {
                            g[b][a]
                        } else {
                            g[a][b]
                        },
                decreases i - j,
            {
                let n = self.get_entry(i, j);
                let m = self.get_entry(j, i);
                self.set_entry(i, j, m);
                self.set_entry(j, i, n);
                j = j + 1;
            }
            i = i + 1;
        }
        assert forall|a: int| 0 <= a < N implies #[trigger] grid(&*self)[a] =~= transposed(g)[a] by {}
        assert(grid(&*self) =~= transposed(g));
    }

    /// The identity matrix: ones on the diagonal, zeros elsewhere.
    fn identity() -> (r: Self)
        ensures
            grid(&r) == identity_grid(N as nat),
    {
        let mut result = Self::zeroed();
        let mut i: usize = 0;
        while i < N
            invariant
                i <= N,
                forall|a: int, b: int|
                    0 <= a < N && 0 <= b < N ==> #[trigger] result.entry(a, b) == if a == b && a
                        < i {
                        1int
                    } else {
                        0int
                    },
            decreases N - i,
        {
            result.set_entry(i, i, 1);
            i = i + 1;
        }
        assert forall|a: int| 0 <= a < N implies #[trigger] grid(&result)[a] =~= identity_grid(
            N as nat,
        )[a] by {}
        assert(grid(&result) =~= identity_grid(N as nat));
        result
    }
}

/// Every square matrix type gets transpose and identity.
impl<const N: usize, T: Matrix<N, N>> SquareMatrix<N> for T {}

/// A 3 by 3 matrix stored row by row.
#[derive(Clone, Copy)]
pub struct Matrix3x3 {
    pub entries: [[i64; 3]; 3],
}

impl Matrix<3, 3> for Matrix3x3 {
    open spec fn entry(&self, i: int, j: int) -> int {
        self.entries@[i]@[j] as int
    }

    fn zeroed() -> (r: Self) {
        Matrix3x3 { entries: [[0, 0, 0], [0, 0, 0], [0, 0, 0]] }
    }

    fn set_entry(&mut self, i: usize, j: usize, n: i64) {
        self.entries[i][j] = n;
    }

    fn get_entry(&self, i: usize, j: usize) -> (r: i64) {
        self.entries[i][j]
    }
}

} // verus!
