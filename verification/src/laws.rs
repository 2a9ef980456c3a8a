//! What the filters promise, stated directly over their inputs and results.
use vstd::prelude::*;
use crate::error::FilterError;
use crate::shape::{Shape, square, product, product_vec, sum, sum_vec, each_col, transposed, inverted};
use crate::filters::{
    control_outcome,
    KalmanCore, KalmanModel, EKF, EKF_ObservationModel, EKF_TransitionModel, LKF, UKF, UKF_ObservationModel,
    UKF_TransitionModel,
};

verus! {

/// A control matrix and an input go together: both present, the input of
/// length `n_u`, or both absent.
pub open spec fn control_fits(G: Option<Shape>, u: Option<usize>, n_u: usize) -> bool {
    &&& (G is Some <==> u is Some)
    &&& (u matches Some(v) ==> v == n_u)
}

/// An `r` × `c` shape.
pub open spec fn dims(r: usize, c: usize) -> Shape {
    Shape { rows: r, cols: c }
}

// ---------------------------------------------------------------- building

/// A linear filter is built exactly when `F` is `n_x` × `n_x`, `H` is `n_z` ×
/// `n_x` and a control matrix, if given, is `n_x` × `n_u`; whatever `n_u` is,
/// no control matrix is ever refused.  The filter keeps its arguments, the
/// transposes of `F` and `H` and the `n_x` × `n_x` identity; a refusal names
/// the matrix that does not fit, with the shape it must have.
pub proof fn law_lkf_new(n_x: usize, n_z: usize, n_u: usize, F: Shape, H: Shape, G: Option<Shape>)
    ensures
        LKF::new_spec(n_x, n_z, n_u, F, H, G) is Ok <==> (F == square(n_x) && H == dims(n_z, n_x) && (G matches Some(
            g,
        ) ==> g == dims(n_x, n_u))),
        LKF::new_spec(n_x, n_z, n_u, F, H, G) matches Ok(f) ==> {
            &&& f.n_x == n_x && f.n_z == n_z && f.n_u == n_u
            &&& f.F == F && f.H == H && f.G == G
            &&& f.F_transpose == dims(F.cols, F.rows)
            &&& f.H_transpose == dims(H.cols, H.rows)
            &&& f.I == square(n_x)
            &&& f.wf()
        },
        LKF::new_spec(n_x, n_z, n_u, F, H, G) matches Err(e) ==> match e {
            FilterError::StateTransition { expected, found } => expected == square(n_x) && found == F && F != expected,
            FilterError::Observation { expected, found } => F == square(n_x) && expected == dims(n_z, n_x) && found
                == H && H != expected,
            FilterError::Control { expected, found } => F == square(n_x) && H == dims(n_z, n_x) && expected == dims(
                n_x,
                n_u,
            ) && G == Some(found) && found != expected,
            _ => false,
        },
{
}

/// An extended filter is built exactly when a linear `F` is `n_x` × `n_x`, a
/// linear `H` is `n_z` × `n_x`, and a control matrix comes only with a linear
/// transition; the observation model has no say over the control matrix.
/// The filter keeps its arguments and the `n_x` × `n_x` identity; a refusal
/// names what does not fit.
pub proof fn law_ekf_new(
    n_x: usize,
    n_z: usize,
    n_u: usize,
    F: EKF_TransitionModel,
    H: EKF_ObservationModel,
    G: Option<Shape>,
)
    ensures
        EKF::new_spec(n_x, n_z, n_u, F, H, G) is Ok <==> {
            &&& (F matches EKF_TransitionModel::Linear { F: f, .. } ==> f == square(n_x))
            &&& (H matches EKF_ObservationModel::Linear { H: h, .. } ==> h == dims(n_z, n_x))
            &&& (F is NonLinear ==> G is None)
        },
        EKF::new_spec(n_x, n_z, n_u, F, H, G) matches Ok(f) ==> {
            &&& f.n_x == n_x && f.n_z == n_z && f.n_u == n_u
            &&& f.F == F && f.H == H && f.G == G
            &&& f.I == square(n_x)
            &&& f.wf()
        },
        EKF::new_spec(n_x, n_z, n_u, F, H, G) matches Err(e) ==> match e {
            FilterError::StateTransition { expected, found } => expected == square(n_x) && (F matches EKF_TransitionModel::Linear {
                F: f,
                ..
            } && found == f && f != expected),
            FilterError::Observation { expected, found } => expected == dims(n_z, n_x) && (H matches EKF_ObservationModel::Linear {
                H: h,
                ..
            } && found == h && h != expected),
            FilterError::ControlUnused => F is NonLinear && G is Some,
            _ => false,
        },
{
}

/// An unscented filter is built exactly when a linear `F` is `n_x` × `n_x`, a
/// linear `H` is `n_z` × `n_x`, and a control matrix comes only with a linear
/// transition.  It keeps its arguments, starts with no sigma points and has
/// `2 n_x + 1` weights on an equally wide diagonal; a refusal names what
/// does not fit.
pub proof fn law_ukf_new(
    n_x: usize,
    n_z: usize,
    n_u: usize,
    F: UKF_TransitionModel,
    H: UKF_ObservationModel,
    G: Option<Shape>,
)
    requires
        2 * n_x + 1 <= usize::MAX,
    ensures
        UKF::new_spec(n_x, n_z, n_u, F, H, G) is Ok <==> {
            &&& (F matches UKF_TransitionModel::Linear { F: f } ==> f == square(n_x))
            &&& (H matches UKF_ObservationModel::Linear { H: h } ==> h == dims(n_z, n_x))
            &&& (F is NonLinear ==> G is None)
        },
        UKF::new_spec(n_x, n_z, n_u, F, H, G) matches Ok(f) ==> {
            &&& f.n_x == n_x && f.n_z == n_z && f.n_u == n_u
            &&& f.F == F && f.H == H && f.G == G
            &&& f.sigma_points_prior == dims(0, 0)
            &&& f.weights == 2 * n_x + 1
            &&& f.weights_diag == square(f.weights)
            &&& f.wf()
        },
        UKF::new_spec(n_x, n_z, n_u, F, H, G) matches Err(e) ==> match e {
            FilterError::StateTransition { expected, found } => expected == square(n_x) && (F matches UKF_TransitionModel::Linear {
                F: f,
            } && found == f && f != expected),
            FilterError::Observation { expected, found } => expected == dims(n_z, n_x) && (H matches UKF_ObservationModel::Linear {
                H: h,
            } && found == h && h != expected),
            FilterError::ControlUnused => F is NonLinear && G is Some,
            _ => false,
        },
{
}

/// A core is built exactly when the state has the model's state length, the
/// covariance and process noise are `n_x` × `n_x` and the measurement noise
/// is `n_z` × `n_z`; a refusal names the size that does not fit.
pub proof fn law_core_new<M: KalmanModel>(model: M, x: usize, P: Shape, Q: Shape, R: Shape)
    ensures
        KalmanCore::<M>::new_spec(model, x, P, Q, R) is Ok <==> {
            &&& x == model.state_dim_spec()
            &&& P == square(model.state_dim_spec())
            &&& Q == square(model.state_dim_spec())
            &&& R == square(model.meas_dim_spec())
        },
        KalmanCore::<M>::new_spec(model, x, P, Q, R) matches Err(e) ==> match e {
            FilterError::StateVector { expected, found } => expected == model.state_dim_spec() && found == x
                && found != expected,
            FilterError::Covariance { expected, found } => expected == square(model.state_dim_spec()) && found == P
                && found != expected,
            FilterError::ProcessNoise { expected, found } => expected == square(model.state_dim_spec()) && found == Q
                && found != expected,
            FilterError::MeasurementNoise { expected, found } => expected == square(model.meas_dim_spec()) && found
                == R && found != expected,
            _ => false,
        },
{
}

// -------------------------------------------------------------- predicting

/// A linear filter's prediction leaves the filter as it was, so predicting
/// twice with the same arguments gives the same outcome; it succeeds exactly
/// when the state, covariance and process noise fit the state length and
/// the control matrix and the input go together, and then gives an `n_x`
/// state with an `n_x` × `n_x` covariance.
pub proof fn law_lkf_predict(f: LKF, x: usize, u: Option<usize>, P: Shape, Q: Shape)
    requires
        f.wf(),
    ensures
        f.predicted(x, u, P, Q) == f,
        f.predicted(x, u, P, Q).predict_spec(x, u, P, Q) == f.predict_spec(x, u, P, Q),
        f.predict_spec(x, u, P, Q) is Ok <==> (x == f.n_x && P == square(f.n_x) && Q == square(f.n_x)
            && control_fits(f.G, u, f.n_u)),
        f.predict_spec(x, u, P, Q) matches Ok(v) ==> v == (f.n_x, square(f.n_x)),
{
}

/// An extended filter's prediction leaves the filter as it was, so predicting
/// twice with the same arguments gives the same outcome.  When the stored
/// transpose and the control matrix fit, it succeeds exactly when the state,
/// covariance and process noise fit the state length and, for a linear
/// transition, the control matrix and the input go together; a nonlinear
/// transition hands any input to its function.
pub proof fn law_ekf_predict(f: EKF, x: usize, u: Option<usize>, P: Shape, Q: Shape)
    requires
        f.wf(),
    ensures
        f.predicted(x, u, P, Q) == f,
        f.predicted(x, u, P, Q).predict_spec(x, u, P, Q) == f.predict_spec(x, u, P, Q),
        (f.F matches EKF_TransitionModel::Linear { F_transpose, .. } ==> F_transpose == square(f.n_x)) && (
        f.G matches Some(g) ==> g == dims(f.n_x, f.n_u)) ==> (f.predict_spec(x, u, P, Q) is Ok <==> (x == f.n_x
            && P == square(f.n_x) && Q == square(f.n_x) && (f.F is Linear ==> control_fits(f.G, u, f.n_u)))),
        f.predict_spec(x, u, P, Q) matches Ok(v) ==> v == (f.n_x, square(f.n_x)),
{
}

/// An unscented filter's prediction changes only its sigma points, which
/// become `n_x` × `(2 n_x + 1)`; predicting twice with the same arguments
/// gives the same outcome.  With a fitting control matrix, a prediction from
/// an `n_x` state with `n_x` × `n_x` covariance and process noise succeeds
/// exactly when, for a linear transition, the control matrix and the input
/// go together.
pub proof fn law_ukf_predict(f: UKF, x: usize, u: Option<usize>, P: Shape, Q: Shape)
    requires
        f.wf(),
    ensures
        ({
            let p = f.predicted(x, u, P, Q);
            &&& p.n_x == f.n_x && p.n_z == f.n_z && p.n_u == f.n_u
            &&& p.F == f.F && p.H == f.H && p.G == f.G
            &&& p.weights == f.weights && p.weights_diag == f.weights_diag
            &&& p.sigma_points_prior == dims(f.n_x, (2 * f.n_x + 1) as usize)
        }),
        f.predicted(x, u, P, Q).predict_spec(x, u, P, Q) == f.predict_spec(x, u, P, Q),
        (f.G matches Some(g) ==> g == dims(f.n_x, f.n_u)) && x == f.n_x && P == square(f.n_x) && Q == square(f.n_x)
            ==> (f.predict_spec(x, u, P, Q) is Ok <==> (f.F is Linear ==> control_fits(f.G, u, f.n_u))),
        f.predict_spec(x, u, P, Q) matches Ok(v) ==> v == (f.n_x, square(f.n_x)),
{
}

// ---------------------------------------------------------------- updating

/// A linear filter's update succeeds exactly when the prior state and
/// covariance fit the state length and the measurement and its covariance
/// the measurement length, and gives an `n_x` state, an `n_x` × `n_x`
/// covariance and an `n_x` × `n_z` gain.
pub proof fn law_lkf_update(f: LKF, x_prior: usize, z: usize, u: Option<usize>, P_prior: Shape, R: Shape)
    requires
        f.wf(),
    ensures
        f.update_spec(x_prior, z, u, P_prior, R) is Ok <==> (x_prior == f.n_x && P_prior == square(f.n_x) && z
            == f.n_z && R == square(f.n_z)),
        f.update_spec(x_prior, z, u, P_prior, R) matches Ok(v) ==> v == (f.n_x, square(f.n_x), dims(f.n_x, f.n_z)),
{
}

/// An extended filter's update succeeds exactly when the sizes fit as for a
/// linear filter and a linear observation's stored transpose is `n_x` ×
/// `n_z`.
pub proof fn law_ekf_update(f: EKF, x_prior: usize, z: usize, u: Option<usize>, P_prior: Shape, R: Shape)
    requires
        f.wf(),
    ensures
        f.update_spec(x_prior, z, u, P_prior, R) is Ok <==> (x_prior == f.n_x && P_prior == square(f.n_x) && z
            == f.n_z && R == square(f.n_z) && (f.H matches EKF_ObservationModel::Linear { H_transpose, .. }
            ==> H_transpose == dims(f.n_x, f.n_z))),
        f.update_spec(x_prior, z, u, P_prior, R) matches Ok(v) ==> v == (f.n_x, square(f.n_x), dims(f.n_x, f.n_z)),
{
}

/// After a prediction an unscented filter's update from the predicted `n_x`
/// state and `n_x` × `n_x` covariance succeeds exactly when the measurement
/// has length `n_z` and its covariance is `n_z` × `n_z`.
pub proof fn law_ukf_update_after_predict(
    f: UKF,
    x: usize,
    u: Option<usize>,
    P: Shape,
    Q: Shape,
    z: usize,
    R: Shape,
)
    requires
        f.wf(),
    ensures
        f.predicted(x, u, P, Q).update_spec(f.n_x, z, u, square(f.n_x), R) is Ok <==> (z == f.n_z && R == square(
            f.n_z,
        )),
{
}


// ------------------------------------------------------------ shape algebra

/// A product is defined exactly when the inner dimensions agree and has the
/// outer ones; a sum, exactly on equal shapes, and keeps the shape; a
/// column-wise sum needs a vector as long as a column; the transpose swaps
/// the dimensions and the inverse is defined on square matrices.
pub proof fn law_shape_algebra(a: Shape, b: Shape, n: usize, m: usize)
    ensures
        product(a, b) is Ok <==> a.cols == b.rows,
        product(a, b) matches Ok(c) ==> c == dims(a.rows, b.cols),
        product_vec(a, n) is Ok <==> a.cols == n,
        product_vec(a, n) matches Ok(l) ==> l == a.rows,
        sum(a, b) is Ok <==> a == b,
        sum(a, b) matches Ok(c) ==> c == a,
        sum_vec(n, m) is Ok <==> n == m,
        sum_vec(n, m) matches Ok(l) ==> l == n,
        each_col(a, n) is Ok <==> a.rows == n,
        each_col(a, n) matches Ok(c) ==> c == a,
        transposed(a) == dims(a.cols, a.rows),
        transposed(transposed(a)) == a,
        inverted(a) is Ok <==> a.rows == a.cols,
        inverted(a) matches Ok(c) ==> c == a,
{
}

// ----------------------------------------------------------------- control

/// The control term of a linear transition is added exactly when both a
/// control matrix and an input are given; the decision fails exactly when
/// they do not go together, and a refusal says which of them is missing or
/// how long the input should be.
pub proof fn law_control(G: Option<Shape>, u: Option<usize>, n_u: usize)
    ensures
        control_outcome(G, u, n_u) is Ok <==> control_fits(G, u, n_u),
        control_outcome(G, u, n_u) matches Ok(apply) ==> apply == (G is Some),
        control_outcome(G, u, n_u) matches Err(e) ==> match e {
            FilterError::InputVector { expected, found } => G is Some && u == Some(found) && expected == n_u && found
                != n_u,
            FilterError::ControlWithoutInput => G is Some && u is None,
            FilterError::InputWithoutControl => G is None && u is Some,
            _ => false,
        },
{
}

// ----------------------------------------------------------------- a step

/// A step of a linear filter core succeeds exactly when the control matrix
/// and the input go together and the measurement has length `n_z`.
pub proof fn law_lkf_core_step(core: KalmanCore<LKF>, z: usize, u: Option<usize>)
    requires
        core.wf(),
    ensures
        core.step_spec(z, u) is Ok <==> (control_fits(core.model.G, u, core.model.n_u) && z == core.model.n_z),
{
    law_control(core.model.G, u, core.model.n_u);
}

/// When the stored transposes and the control matrix fit, a step of an
/// extended filter core succeeds exactly when, for a linear transition, the
/// control matrix and the input go together, and the measurement has length
/// `n_z`.
pub proof fn law_ekf_core_step(core: KalmanCore<EKF>, z: usize, u: Option<usize>)
    requires
        core.wf(),
        core.model.F matches EKF_TransitionModel::Linear { F_transpose, .. } ==> F_transpose == square(core.model.n_x),
        core.model.H matches EKF_ObservationModel::Linear { H_transpose, .. } ==> H_transpose == dims(
            core.model.n_x,
            core.model.n_z,
        ),
        core.model.G matches Some(g) ==> g == dims(core.model.n_x, core.model.n_u),
    ensures
        core.step_spec(z, u) is Ok <==> ((core.model.F is Linear ==> control_fits(core.model.G, u, core.model.n_u))
            && z == core.model.n_z),
{
    law_control(core.model.G, u, core.model.n_u);
    law_ekf_predict(core.model, core.x, u, core.P, core.Q);
    law_ekf_update(core.model, core.model.n_x, z, u, square(core.model.n_x), core.R);
}

/// When the control matrix fits, a step of an unscented filter core succeeds
/// exactly when, for a linear transition, the control matrix and the input
/// go together, and the measurement has length `n_z`.
pub proof fn law_ukf_core_step(core: KalmanCore<UKF>, z: usize, u: Option<usize>)
    requires
        core.wf(),
        core.model.G matches Some(g) ==> g == dims(core.model.n_x, core.model.n_u),
    ensures
        core.step_spec(z, u) is Ok <==> ((core.model.F is Linear ==> control_fits(core.model.G, u, core.model.n_u))
            && z == core.model.n_z),
{
    law_ukf_predict(core.model, core.x, u, core.P, core.Q);
    law_ukf_update_after_predict(core.model, core.x, u, core.P, core.Q, z, core.R);
}

} // verus!
