use vstd::prelude::*;
use vstd::arithmetic::div_mod::{lemma_fundamental_div_mod, lemma_mod_bound, lemma_fundamental_div_mod_converse};
use crate::error::FilterError;
use crate::shape::{Shape, square, add_vec, flat_index};
use crate::filters::{KalmanCore, KalmanModel, UKF, UKF_TransitionModel, UKF_ObservationModel};

verus! {

/// Number of sigma points for a state of length `n`.
pub open spec fn sigma_count(n: usize) -> int {
    2 * n + 1
}

/// What entry `k` of the sigma-point matrix holds.
///
/// The matrix has `n` rows and `2 n + 1` columns, stored row by row.  Column
/// 0 of row `r` is `x[r]`; column `1 + i` is `x[r] + root[r][i]` and column
/// `1 + n + i` is `x[r] - root[r][i]`, where `root` is the `n` × `n` square
/// root of the scaled covariance, stored row by row, and `+`, `-` are the
/// element operations `plus` and `minus`.
pub open spec fn sigma_entry<T, A: Fn(T, T) -> T, S: Fn(T, T) -> T>(
    x: Seq<T>,
    root: Seq<T>,
    plus: A,
    minus: S,
    n: int,
    k: int,
    v: T,
) -> bool {
    let m: int = 2 * n + 1;
    let row: int = k / m;
    let col: int = k % m;
    if col == 0 {
        v == x[row]
    } else if col <= n {
        call_ensures(plus, (x[row], root[row * n + col - 1]), v)
    } else {
        call_ensures(minus, (x[row], root[row * n + col - 1 - n]), v)
    }
}

/// Position of `x[r]` among the sigma points of a state of length `n`.
pub open spec fn sigma_center(n: int, r: int) -> int {
    flat_index(2 * n + 1, r, 0)
}

/// Position of `x[r] + root[r][i]` among the sigma points of a state of
/// length `n`.
pub open spec fn sigma_plus(n: int, r: int, i: int) -> int {
    flat_index(2 * n + 1, r, 1 + i)
}

/// Position of `x[r] - root[r][i]` among the sigma points of a state of
/// length `n`.
pub open spec fn sigma_minus(n: int, r: int, i: int) -> int {
    flat_index(2 * n + 1, r, 1 + n + i)
}

/// Entry `k` of a matrix with `m` columns stored row by row is entry
/// `(i, j)` when `k = i m + j` and `j < m`.
proof fn lemma_flat_index(m: int, rows: int, i: int, j: int)
    requires
        0 <= i < rows,
        0 <= j < m,
    ensures
        0 <= flat_index(m, i, j) < rows * m,
        flat_index(m, i, j) / m == i,
        flat_index(m, i, j) % m == j,
{
    lemma_fundamental_div_mod_converse(i * m + j, m, i, j);
    assert(0 <= i * m + j < rows * m) by (nonlinear_arith)
        requires
            0 <= i < rows,
            0 <= j < m,
    ;
}

/// Entry `(i, j)` of the diagonal matrix of weights: `w_0_c` first on the
/// diagonal, `w_i` further down, `w_off` off the diagonal.
pub open spec fn weight_diag_entry<T>(w_0_c: T, w_i: T, w_off: T, i: int, j: int) -> T {
    if i != j {
        w_off
    } else if i == 0 {
        w_0_c
    } else {
        w_i
    }
}

/// Entry `k` of the vector of weights: `w_0` first, `w_i` after.
pub open spec fn weight_entry<T>(w_0: T, w_i: T, k: int) -> T {
    if k == 0 {
        w_0
    } else {
        w_i
    }
}

/// Entry `k` of a matrix with `n` rows and `m` columns stored row by row
/// lies in a row below `n` and a column below `m`.
proof fn lemma_row_col(k: int, n: int, m: int)
    requires
        0 <= k < n * m,
        m > 0,
    ensures
        0 <= k / m < n,
        0 <= k % m < m,
{
    lemma_fundamental_div_mod(k, m);
    lemma_mod_bound(k, m);
    let q: int = k / m;
    let r: int = k % m;
    assert(0 <= q < n) by (nonlinear_arith)
        requires
            k == m * q + r,
            0 <= r < m,
            0 <= k < n * m,
            m > 0,
    ;
}

impl UKF {
    /// The outcome of building an unscented filter: a linear transition
    /// matrix must be `n_x` × `n_x`, a linear observation matrix `n_z` ×
    /// `n_x`, and a nonlinear transition takes no control matrix.  The sigma
    /// points start empty; there are `2 n_x + 1` weights.
    pub open spec fn new_spec(
        n_x: usize,
        n_z: usize,
        n_u: usize,
        F: UKF_TransitionModel,
        H: UKF_ObservationModel,
        G: Option<Shape>,
    ) -> Result<UKF, FilterError> {
        let transition = match F {
            UKF_TransitionModel::Linear { F: f } => if f != square(n_x) {
                Some(FilterError::StateTransition { expected: square(n_x), found: f })
            } else {
                None
            },
            UKF_TransitionModel::NonLinear => None,
        };
        let observation = match H {
            UKF_ObservationModel::Linear { H: h } => if h != (Shape { rows: n_z, cols: n_x }) {
                Some(FilterError::Observation { expected: Shape { rows: n_z, cols: n_x }, found: h })
            } else {
                None
            },
            UKF_ObservationModel::NonLinear => None,
        };
        let m: usize = sigma_count(n_x) as usize;
        if transition is Some {
            Err(transition->0)
        } else if observation is Some {
            Err(observation->0)
        } else if F is NonLinear && G is Some {
            Err(FilterError::ControlUnused)
        } else {
            Ok(UKF {
                n_x,
                n_z,
                n_u,
                F,
                H,
                G,
                sigma_points_prior: Shape { rows: 0, cols: 0 },
                weights: m,
                weights_diag: square(m),
            })
        }
    }

    /// Builds an unscented filter.
    pub fn new(
        n_x: usize,
        n_z: usize,
        n_u: usize,
        F: UKF_TransitionModel,
        H: UKF_ObservationModel,
        G: Option<Shape>,
    ) -> (r: Result<UKF, FilterError>)
        requires
            sigma_count(n_x) <= usize::MAX,
        ensures
            r == Self::new_spec(n_x, n_z, n_u, F, H, G),
            r matches Ok(f) ==> f.wf(),
    {
        if let UKF_TransitionModel::Linear { F: f } = F {
            if f != Shape::square(n_x) {
                return Err(FilterError::StateTransition { expected: Shape::square(n_x), found: f });
            }
        }
        if let UKF_ObservationModel::Linear { H: h } = H {
            if h != Shape::new(n_z, n_x) {
                return Err(FilterError::Observation { expected: Shape::new(n_z, n_x), found: h });
            }
        }
        if let UKF_TransitionModel::NonLinear = F {
            if G.is_some() {
                return Err(FilterError::ControlUnused);
            }
        }
        let m: usize = 2 * n_x + 1;
        Ok(UKF {
            n_x,
            n_z,
            n_u,
            F,
            H,
            G,
            sigma_points_prior: Shape::new(0, 0),
            weights: m,
            weights_diag: Shape::square(m),
        })
    }

    /// Lays out the `n_x` × `(2 n_x + 1)` sigma points around the state `x`,
    /// row by row: `x[r]`, then `x[r] + root[r][i]` for each `i`, then
    /// `x[r] - root[r][i]` for each `i`, where `sqrt_mat` holds the square
    /// root of the scaled covariance row by row.
    pub fn calculate_sigma_points<T: Copy, A: Fn(T, T) -> T, S: Fn(T, T) -> T>(
        &self,
        x: &Vec<T>,
        sqrt_mat: &Vec<T>,
        plus: A,
        minus: S,
    ) -> (r: Vec<T>)
        requires
            self.n_x * sigma_count(self.n_x) <= usize::MAX,
            sigma_count(self.n_x) <= usize::MAX,
            x@.len() >= self.n_x,
            sqrt_mat@.len() >= self.n_x * self.n_x,
            forall|a: T, b: T| call_requires(plus, (a, b)),
            forall|a: T, b: T| call_requires(minus, (a, b)),
        ensures
            r@.len() == self.n_x * sigma_count(self.n_x),
            forall|k: int|
                0 <= k < r@.len() ==> sigma_entry(x@, sqrt_mat@, plus, minus, self.n_x as int, k, #[trigger] r@[k]),
            forall|row: int|
                0 <= row < self.n_x ==> #[trigger] r@[sigma_center(self.n_x as int, row)] == x@[row],
            forall|row: int, i: int|
                0 <= row < self.n_x && 0 <= i < self.n_x ==> call_ensures(
                    plus,
                    (x@[row], sqrt_mat@[flat_index(self.n_x as int, row, i)]),
                    #[trigger] r@[sigma_plus(self.n_x as int, row, i)],
                ),
            forall|row: int, i: int|
                0 <= row < self.n_x && 0 <= i < self.n_x ==> call_ensures(
                    minus,
                    (x@[row], sqrt_mat@[flat_index(self.n_x as int, row, i)]),
                    #[trigger] r@[sigma_minus(self.n_x as int, row, i)],
                ),
    {
        let n: usize = self.n_x;
        let m: usize = 2 * n + 1;
        let total: usize = n * m;
        assert(n * n <= n * m) by (nonlinear_arith)
            requires
                m == 2 * n + 1,
        ;
        let mut data: Vec<T> = Vec::new();
        let mut k: usize = 0;
        while k < total
            invariant
                n == self.n_x,
                m == sigma_count(n),
                total == n * m,
                n * n <= total,
                k <= total,
                data@.len() == k,
                x@.len() >= n,
                sqrt_mat@.len() >= n * n,
                forall|a: T, b: T| call_requires(plus, (a, b)),
                forall|a: T, b: T| call_requires(minus, (a, b)),
                forall|j: int| 0 <= j < k ==> sigma_entry(x@, sqrt_mat@, plus, minus, n as int, j, #[trigger] data@[j]),
            decreases total - k,
        {
            let row: usize = k / m;
            let col: usize = k % m;
            proof {
                lemma_row_col(k as int, n as int, m as int);
            }
            let v = if col == 0 {
                x[row]
            } else if col <= n {
                let i: usize = col - 1;
                assert(row * n + i < n * n) by (nonlinear_arith)
                    requires
                        row < n,
                        i < n,
                ;
                plus(x[row], sqrt_mat[row * n + i])
            } else {
                let i: usize = col - 1 - n;
                assert(row * n + i < n * n) by (nonlinear_arith)
                    requires
                        row < n,
                        i < n,
                ;
                minus(x[row], sqrt_mat[row * n + i])
            };
            data.push(v);
            k += 1;
        }
        let ghost nn = n as int;
        let ghost mm = m as int;
        assert forall|row: int| 0 <= row < nn implies #[trigger] data@[sigma_center(nn, row)] == x@[row] by {
            lemma_flat_index(mm, nn, row, 0);
        }
        assert forall|row: int, i: int| 0 <= row < nn && 0 <= i < nn implies call_ensures(
            plus,
            (x@[row], sqrt_mat@[flat_index(nn, row, i)]),
            #[trigger] data@[sigma_plus(nn, row, i)],
        ) by {
            lemma_flat_index(mm, nn, row, 1 + i);
        }
        assert forall|row: int, i: int| 0 <= row < nn && 0 <= i < nn implies call_ensures(
            minus,
            (x@[row], sqrt_mat@[flat_index(nn, row, i)]),
            #[trigger] data@[sigma_minus(nn, row, i)],
        ) by {
            lemma_flat_index(mm, nn, row, 1 + nn + i);
        }
        data
    }

    /// The weights of the sigma points and the same weights on a diagonal:
    /// `w_0` leads the vector and `w_0_c` the diagonal, every other weight is
    /// `w_i`, and the entries off the diagonal are `w_off`.
    pub fn calculate_weights<T: Copy>(w_0: T, w_0_c: T, w_i: T, w_off: T, length: usize) -> (r: (Vec<T>, Vec<T>))
        requires
            length >= 1,
            length * length <= usize::MAX,
        ensures
            r.0@ == Seq::new(length as nat, |k: int| weight_entry(w_0, w_i, k)),
            r.1@ == Seq::new(
                (length * length) as nat,
                |k: int| weight_diag_entry(w_0_c, w_i, w_off, k / (length as int), k % (length as int)),
            ),
            forall|i: int, j: int|
                0 <= i < length && 0 <= j < length ==> #[trigger] r.1@[flat_index(length as int, i, j)]
                    == weight_diag_entry(w_0_c, w_i, w_off, i, j),
            forall|k: int|
                1 <= k < length ==> r.1@[flat_index(length as int, k, k)] == #[trigger] r.0@[k],
            r.0@.len() == length,
            r.0@[0] == w_0,
            forall|k: int| 1 <= k < length ==> #[trigger] r.0@[k] == w_i,
            r.1@.len() == length * length,
            r.1@[0] == w_0_c,
            forall|k: int| 1 <= k < length ==> #[trigger] r.1@[flat_index(length as int, k, k)] == w_i,
            forall|i: int, j: int|
                0 <= i < length && 0 <= j < length && i != j ==> #[trigger] r.1@[flat_index(length as int, i, j)]
                    == w_off,
    {
        let mut weights: Vec<T> = Vec::new();
        let mut k: usize = 0;
        while k < length
            invariant
                k <= length,
                weights@ == Seq::new(k as nat, |j: int| weight_entry(w_0, w_i, j)),
            decreases length - k,
        {
            weights.push(if k == 0 { w_0 } else { w_i });
            k += 1;
        }
        let total: usize = length * length;
        let mut diagonal: Vec<T> = Vec::new();
        let mut k: usize = 0;
        while k < total
            invariant
                k <= total,
                total == length * length,
                length >= 1,
                diagonal@ == Seq::new(
                    k as nat,
                    |j: int| weight_diag_entry(w_0_c, w_i, w_off, j / (length as int), j % (length as int)),
                ),
            decreases total - k,
        {
            let row: usize = k / length;
            let col: usize = k % length;
            diagonal.push(if row != col { w_off } else if row == 0 { w_0_c } else { w_i });
            k += 1;
        }
        let ghost len = length as int;
        assert forall|i: int, j: int| 0 <= i < len && 0 <= j < len implies #[trigger] diagonal@[flat_index(len, i, j)]
            == weight_diag_entry(w_0_c, w_i, w_off, i, j) by {
            lemma_flat_index(len, len, i, j);
        }
        assert forall|k: int| 1 <= k < len implies diagonal@[flat_index(len, k, k)] == #[trigger] weights@[k] by {
            lemma_flat_index(len, len, k, k);
        }
        assert(diagonal@[0] == w_0_c) by {
            lemma_flat_index(len, len, 0, 0);
        }
        (weights, diagonal)
    }

    /// Shape of the sigma points around a state of length `x` with
    /// covariance `P`: the square root of the scaled covariance is defined
    /// for square matrices, and its first `n_x` rows and columns and the first
    /// `n_x` entries of the state are read.
    fn sigma_points_shape(&self, x: usize, P: &Shape) -> (r: Result<Shape, FilterError>)
        requires
            self.wf(),
        ensures
            r == self.sigma_points_spec(x, *P),
    {
        if P.rows != P.cols || P.rows < self.n_x || x < self.n_x {
            Err(FilterError::ShapeMismatch)
        } else {
            Ok(Shape::new(self.n_x, self.weights))
        }
    }

    /// The sigma points' shape around a state of length `x` with covariance `P`.
    pub open spec fn sigma_points_spec(&self, x: usize, P: Shape) -> Result<Shape, FilterError> {
        if P.rows != P.cols || P.rows < self.n_x || x < self.n_x {
            Err(FilterError::ShapeMismatch)
        } else {
            Ok(Shape { rows: self.n_x, cols: self.weights })
        }
    }
}

impl KalmanModel for UKF {
    open spec fn state_dim_spec(&self) -> usize {
        self.n_x
    }

    open spec fn meas_dim_spec(&self) -> usize {
        self.n_z
    }

    open spec fn wf(&self) -> bool {
        &&& (self.F matches UKF_TransitionModel::Linear { F } ==> F == square(self.n_x))
        &&& (self.H matches UKF_ObservationModel::Linear { H } ==> H == (Shape { rows: self.n_z, cols: self.n_x }))
        &&& (self.F is NonLinear ==> self.G is None)
        &&& sigma_count(self.n_x) <= usize::MAX
        &&& self.weights == sigma_count(self.n_x)
        &&& self.weights_diag == square(self.weights)
    }

    /// The sigma points must be formable; a linear transition then needs
    /// both or neither of control matrix and input, an input of length `n_u`
    /// and a control matrix of `n_x` × `n_u`; the process noise must be
    /// `n_x` × `n_x`.
    open spec fn predict_spec(&self, x: usize, u: Option<usize>, P: Shape, Q: Shape) -> Result<(usize, Shape), FilterError> {
        let control = match self.F {
            UKF_TransitionModel::Linear { .. } => match (self.G, u) {
                (Some(g), Some(v)) => if v != self.n_u {
                    Err(FilterError::InputVector { expected: self.n_u, found: v })
                } else if g != (Shape { rows: self.n_x, cols: self.n_u }) {
                    Err(FilterError::ShapeMismatch)
                } else {
                    Ok(())
                },
                (Some(_), None) => Err(FilterError::ControlMismatch),
                (None, Some(_)) => Err(FilterError::ControlMismatch),
                (None, None) => Ok(()),
            },
            UKF_TransitionModel::NonLinear => Ok(()),
        };
        if self.sigma_points_spec(x, P) is Err {
            Err(FilterError::ShapeMismatch)
        } else if control is Err {
            Err(control->Err_0)
        } else if Q != square(self.n_x) {
            Err(FilterError::ShapeMismatch)
        } else {
            Ok((self.n_x, square(self.n_x)))
        }
    }

    /// After a prediction the propagated sigma points are `n_x` × `(2 n_x + 1)`.
    open spec fn predicted(&self, x: usize, u: Option<usize>, P: Shape, Q: Shape) -> Self {
        UKF { sigma_points_prior: Shape { rows: self.n_x, cols: self.weights }, ..*self }
    }

    /// The update reads the propagated sigma points: a linear observation
    /// needs them to have `n_x` rows, and they must have one column per
    /// weight; the measurement covariance must be `n_z` × `n_z`, the prior
    /// state as long as the sigma points are high, the measurement of length
    /// `n_z` and the prior covariance square of the prior state's length.
    open spec fn update_spec(&self, x_prior: usize, z: usize, u: Option<usize>, P_prior: Shape, R: Shape) -> Result<(usize, Shape, Shape), FilterError> {
        let s = self.sigma_points_prior;
        if (self.H is Linear && s.rows != self.n_x) || s.cols != self.weights || R != square(self.n_z)
            || x_prior != s.rows || z != self.n_z || P_prior != square(s.rows) {
            Err(FilterError::ShapeMismatch)
        } else {
            Ok((x_prior, P_prior, Shape { rows: x_prior, cols: self.n_z }))
        }
    }

    fn state_dim(&self) -> (n: usize) {
        self.n_x
    }

    fn meas_dim(&self) -> (n: usize) {
        self.n_z
    }

    fn predict(&mut self, x: usize, u: &Option<usize>, P: &Shape, Q: &Shape) -> (r: Result<(usize, Shape), FilterError>) {
        let sigma_points = self.sigma_points_shape(x, P)?;
        let propagated = match &self.F {
            UKF_TransitionModel::Linear { F } => {
                let transformed = F.mul(&sigma_points)?;
                match (self.G, *u) {
                    (Some(g), Some(v)) => {
                        if v != self.n_u {
                            return Err(FilterError::InputVector { expected: self.n_u, found: v });
                        }
                        transformed.add_each_col(g.mul_vec(v)?)?
                    },
                    (Some(_), None) => {
                        return Err(FilterError::ControlMismatch);
                    },
                    (None, Some(_)) => {
                        return Err(FilterError::ControlMismatch);
                    },
                    (None, None) => transformed,
                }
            },
            // f returns an n_x × (2 n_x + 1) matrix
            UKF_TransitionModel::NonLinear => Shape::new(self.n_x, self.weights),
        };
        let x_prior: usize = propagated.mul_vec(self.weights)?;
        // subtracting the mean from each column keeps the shape
        let tmp_subt = propagated.add_each_col(x_prior)?;
        let P_prior = tmp_subt.mul(&self.weights_diag)?.mul(&tmp_subt.transpose())?.add(Q)?;
        self.sigma_points_prior = propagated;
        Ok((x_prior, P_prior))
    }

    fn update(&self, x_prior: usize, z: usize, u: &Option<usize>, P_prior: &Shape, R: &Shape) -> (r: Result<(usize, Shape, Shape), FilterError>) {
        let meas_space = match &self.H {
            UKF_ObservationModel::Linear { H } => H.mul(&self.sigma_points_prior)?,
            // h returns an n_z × (2 n_x + 1) matrix
            UKF_ObservationModel::NonLinear => Shape::new(self.n_z, self.weights),
        };
        let pred_meas_mean: usize = meas_space.mul_vec(self.weights)?;
        let tmp_subt = meas_space.add_each_col(pred_meas_mean)?;
        let meas_space_cov = tmp_subt.mul(&self.weights_diag)?.mul(&tmp_subt.transpose())?.add(R)?;
        let cross_cov_state_meas = self.sigma_points_prior.add_each_col(x_prior)?.mul(&self.weights_diag)?.mul(
            &tmp_subt.transpose(),
        )?;
        let K_n = cross_cov_state_meas.mul(&meas_space_cov.inverse()?)?;
        let innovation: usize = add_vec(z, pred_meas_mean)?;
        let x: usize = add_vec(x_prior, K_n.mul_vec(innovation)?)?;
        let P = P_prior.add(&K_n.mul(&meas_space_cov)?.mul(&K_n.transpose())?)?;
        Ok((x, P, K_n))
    }
}


/// A prediction prepares the update: when the control matrix, if any, is
/// `n_x` × `n_u`, a step of a well-formed unscented filter core fails only
/// when, for a linear transition, the input does not go with the control
/// matrix, or when the measurement is not of length `n_z`.
pub proof fn lemma_ukf_step_outcome(core: KalmanCore<UKF>, z: usize, u: Option<usize>)
    requires
        core.wf(),
        core.model.G matches Some(g) ==> g == (Shape { rows: core.model.n_x, cols: core.model.n_u }),
    ensures
        core.step_spec(z, u) == match (if core.model.F is Linear {
            match (core.model.G, u) {
                (Some(_), Some(v)) => if v != core.model.n_u {
                    Err(FilterError::InputVector { expected: core.model.n_u, found: v })
                } else {
                    Ok(())
                },
                (None, None) => Ok(()),
                _ => Err(FilterError::ControlMismatch),
            }
        } else {
            Ok(())
        }) {
            Err(e) => Err(e),
            Ok(_) => if z != core.model.n_z {
                Err(FilterError::ShapeMismatch)
            } else {
                Ok(())
            },
        },
{
    let m = core.model;
    let p = m.predicted(core.x, u, core.P, core.Q);
    assert(p.sigma_points_prior == Shape { rows: m.n_x, cols: m.weights });
}

/// The update reads the sigma points of a prediction: a freshly built
/// unscented filter refuses to update before it has predicted.
pub proof fn lemma_ukf_update_needs_prediction(
    n_x: usize,
    n_z: usize,
    n_u: usize,
    F: UKF_TransitionModel,
    H: UKF_ObservationModel,
    G: Option<Shape>,
    x_prior: usize,
    z: usize,
    u: Option<usize>,
    P_prior: Shape,
    R: Shape,
)
    requires
        sigma_count(n_x) <= usize::MAX,
        UKF::new_spec(n_x, n_z, n_u, F, H, G) is Ok,
    ensures
        UKF::new_spec(n_x, n_z, n_u, F, H, G)->Ok_0.update_spec(x_prior, z, u, P_prior, R)
            == Err::<(usize, Shape, Shape), FilterError>(FilterError::ShapeMismatch),
{
}

} // verus!
