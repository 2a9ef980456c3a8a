//! The filters, the interface they share and the core that drives them.
//!
//! Every matrix is held by its [`Shape`] and every vector by its length.
use vstd::prelude::*;
use crate::error::FilterError;
use crate::shape::{Shape, square};

pub mod EKF_fn;
pub mod LKF_fn;
pub mod UKF_fn;

verus! {

/// How a linear transition applies the control term `G · u`.
///
/// Both a control matrix and an input vector of length `n_u` give `Ok(true)`
/// (the term is added), neither gives `Ok(false)`; exactly one of them is
/// refused.
pub open spec fn control_outcome(G: Option<Shape>, u: Option<usize>, n_u: usize) -> Result<bool, FilterError> {
    match G {
        Some(_) => match u {
            Some(v) => if v == n_u {
                Ok(true)
            } else {
                Err(FilterError::InputVector { expected: n_u, found: v })
            },
            None => Err(FilterError::ControlWithoutInput),
        },
        None => match u {
            Some(_) => Err(FilterError::InputWithoutControl),
            None => Ok(false),
        },
    }
}

/// Decides whether the control term `G · u` is added in a linear prediction.
pub fn control_decision(G: &Option<Shape>, u: &Option<usize>, n_u: usize) -> (r: Result<bool, FilterError>)
    ensures
        r == control_outcome(*G, *u, n_u),
{
    match G {
        Some(_) => match u {
            Some(v) => if *v == n_u {
                Ok(true)
            } else {
                Err(FilterError::InputVector { expected: n_u, found: *v })
            },
            None => Err(FilterError::ControlWithoutInput),
        },
        None => match u {
            Some(_) => Err(FilterError::InputWithoutControl),
            None => Ok(false),
        },
    }
}

/// A Kalman filter model, seen through the sizes of what it reads and returns.
pub trait KalmanModel: Sized {
    /// Length of the state vector.
    spec fn state_dim_spec(&self) -> usize;

    /// Length of the measurement vector.
    spec fn meas_dim_spec(&self) -> usize;

    /// What the model's constructor guarantees of it.
    spec fn wf(&self) -> bool;

    /// The outcome of a prediction from a state of length `x` with covariance
    /// `P`, process noise `Q` and optional input of length `u`.
    spec fn predict_spec(&self, x: usize, u: Option<usize>, P: Shape, Q: Shape) -> Result<(usize, Shape), FilterError>;

    /// The model after a successful prediction.
    spec fn predicted(&self, x: usize, u: Option<usize>, P: Shape, Q: Shape) -> Self;

    /// The outcome of an update from a prior state of length `x_prior`, a
    /// measurement of length `z`, prior covariance `P_prior` and measurement
    /// covariance `R`: state, covariance and gain.
    spec fn update_spec(&self, x_prior: usize, z: usize, u: Option<usize>, P_prior: Shape, R: Shape) -> Result<(usize, Shape, Shape), FilterError>;

    /// Length of the state vector.
    fn state_dim(&self) -> (n: usize)
        ensures
            n == self.state_dim_spec(),
    ;

    /// Length of the measurement vector.
    fn meas_dim(&self) -> (n: usize)
        ensures
            n == self.meas_dim_spec(),
    ;

    /// Predicts the prior state and covariance.
    fn predict(&mut self, x: usize, u: &Option<usize>, P: &Shape, Q: &Shape) -> (r: Result<(usize, Shape), FilterError>)
        requires
            old(self).wf(),
        ensures
            r == old(self).predict_spec(x, *u, *P, *Q),
            r matches Ok(v) ==> v == (old(self).state_dim_spec(), square(old(self).state_dim_spec())),
            r is Ok ==> *final(self) == old(self).predicted(x, *u, *P, *Q),
            r is Err ==> *final(self) == *old(self),
            final(self).wf(),
            final(self).state_dim_spec() == old(self).state_dim_spec(),
            final(self).meas_dim_spec() == old(self).meas_dim_spec(),
    ;

    /// Corrects the prior with a measurement: new state, covariance and gain.
    fn update(&self, x_prior: usize, z: usize, u: &Option<usize>, P_prior: &Shape, R: &Shape) -> (r: Result<(usize, Shape, Shape), FilterError>)
        requires
            self.wf(),
        ensures
            r == self.update_spec(x_prior, z, *u, *P_prior, *R),
            r matches Ok(v) ==> v == (x_prior, *P_prior, Shape { rows: x_prior, cols: self.meas_dim_spec() }),
    ;
}


/// A filter model together with its state, covariance, gain and noise matrices.
pub struct KalmanCore<M: KalmanModel> {
    pub model: M,
    /// Length of the state vector.
    pub x: usize,
    /// Shape of the state covariance.
    pub P: Shape,
    /// Shape of the last Kalman gain.
    pub K: Shape,
    /// Shape of the process noise.
    pub Q: Shape,
    /// Shape of the measurement noise.
    pub R: Shape,
}

impl<M: KalmanModel> KalmanCore<M> {
    /// What a core keeps between steps: the model is well formed, the state
    /// and covariance fit its state dimension and the noise matrices fit the
    /// state and measurement dimensions.
    pub open spec fn wf(&self) -> bool {
        &&& self.model.wf()
        &&& self.x == self.model.state_dim_spec()
        &&& self.P == square(self.model.state_dim_spec())
        &&& self.Q == square(self.model.state_dim_spec())
        &&& self.R == square(self.model.meas_dim_spec())
    }

    /// The outcome of building a core: the first size that does not fit the
    /// model is reported.
    pub open spec fn new_spec(model: M, x: usize, P: Shape, Q: Shape, R: Shape) -> Result<(), FilterError> {
        let n_x: usize = model.state_dim_spec();
        let n_z: usize = model.meas_dim_spec();
        if x != n_x {
            Err(FilterError::StateVector { expected: n_x, found: x })
        } else if P != square(n_x) {
            Err(FilterError::Covariance { expected: square(n_x), found: P })
        } else if Q != square(n_x) {
            Err(FilterError::ProcessNoise { expected: square(n_x), found: Q })
        } else if R != square(n_z) {
            Err(FilterError::MeasurementNoise { expected: square(n_z), found: R })
        } else {
            Ok(())
        }
    }

    /// Builds a core from a model, the state length and the shapes of the
    /// covariance, process noise and measurement noise; the gain starts empty.
    pub fn new(model: M, x: usize, P: Shape, Q: Shape, R: Shape) -> (r: Result<Self, FilterError>)
        requires
            model.wf(),
        ensures
            r is Ok <==> Self::new_spec(model, x, P, Q, R) is Ok,
            r matches Err(e) ==> Self::new_spec(model, x, P, Q, R) == Err::<(), FilterError>(e),
            r matches Ok(c) ==> {
                &&& c.wf()
                &&& c.model == model
                &&& c.x == x
                &&& c.P == P
                &&& c.Q == Q
                &&& c.R == R
                &&& c.K == (Shape { rows: 0, cols: 0 })
            },
    {
        let n_x: usize = model.state_dim();
        let n_z: usize = model.meas_dim();
        if x != n_x {
            return Err(FilterError::StateVector { expected: n_x, found: x });
        }
        if P != Shape::square(n_x) {
            return Err(FilterError::Covariance { expected: Shape::square(n_x), found: P });
        }
        if Q != Shape::square(n_x) {
            return Err(FilterError::ProcessNoise { expected: Shape::square(n_x), found: Q });
        }
        if R != Shape::square(n_z) {
            return Err(FilterError::MeasurementNoise { expected: Shape::square(n_z), found: R });
        }
        Ok(KalmanCore { model, x, P, K: Shape::new(0, 0), Q, R })
    }

    /// Length of the state vector.
    pub fn state(&self) -> (n: usize)
        ensures
            n == self.x,
    {
        self.x
    }

    /// Shape of the state covariance.
    pub fn covariance(&self) -> (s: Shape)
        ensures
            s == self.P,
    {
        self.P
    }

    /// Shape of the last Kalman gain.
    pub fn kalman_gain(&self) -> (s: Shape)
        ensures
            s == self.K,
    {
        self.K
    }

    /// The outcome of a step with a measurement of length `z` and an
    /// optional input of length `u`: a prediction, then an update with the
    /// model as the prediction left it.
    pub open spec fn step_spec(&self, z: usize, u: Option<usize>) -> Result<(), FilterError> {
        match self.model.predict_spec(self.x, u, self.P, self.Q) {
            Err(e) => Err(e),
            Ok(prior) => match self.model.predicted(self.x, u, self.P, self.Q).update_spec(
                prior.0,
                z,
                u,
                prior.1,
                self.R,
            ) {
                Err(e) => Err(e),
                Ok(_) => Ok(()),
            },
        }
    }

    /// Runs one predict/update cycle.
    ///
    /// On success the state keeps its length, the covariance its shape and
    /// the gain maps measurements to states; on failure the state,
    /// covariance and gain are left as they were.
    pub fn step(&mut self, z: usize, u: &Option<usize>) -> (r: Result<(), FilterError>)
        requires
            old(self).wf(),
        ensures
            r == old(self).step_spec(z, *u),
            final(self).wf(),
            final(self).model.state_dim_spec() == old(self).model.state_dim_spec(),
            final(self).model.meas_dim_spec() == old(self).model.meas_dim_spec(),
            final(self).Q == old(self).Q,
            final(self).R == old(self).R,
            old(self).model.predict_spec(old(self).x, *u, old(self).P, old(self).Q) is Err ==> final(self).model
                == old(self).model,
            old(self).model.predict_spec(old(self).x, *u, old(self).P, old(self).Q) is Ok ==> final(self).model
                == old(self).model.predicted(old(self).x, *u, old(self).P, old(self).Q),
            r is Ok ==> {
                &&& final(self).x == old(self).x
                &&& final(self).P == old(self).P
                &&& final(self).K == (Shape {
                    rows: old(self).model.state_dim_spec(),
                    cols: old(self).model.meas_dim_spec(),
                })
            },
            r is Err ==> {
                &&& final(self).x == old(self).x
                &&& final(self).P == old(self).P
                &&& final(self).K == old(self).K
            },
    {
        let prior = self.model.predict(self.x, u, &self.P, &self.Q);
        match prior {
            Err(e) => Err(e),
            Ok((x_prior, P_prior)) => {
                let posterior = self.model.update(x_prior, z, u, &P_prior, &self.R);
                match posterior {
                    Err(e) => Err(e),
                    Ok((x, P, K)) => {
                        self.x = x;
                        self.P = P;
                        self.K = K;
                        Ok(())
                    },
                }
            },
        }
    }
}


/// Linear Kalman filter.
#[derive(Clone, Copy, Debug, PartialEq, Eq, Structural)]
pub struct LKF {
    /// Length of the state vector.
    pub n_x: usize,
    /// Length of the measurement vector.
    pub n_z: usize,
    /// Length of the input vector.
    pub n_u: usize,
    /// State transition matrix.
    pub F: Shape,
    pub F_transpose: Shape,
    /// Observation matrix.
    pub H: Shape,
    pub H_transpose: Shape,
    /// Control matrix.
    pub G: Option<Shape>,
    /// Identity of the state space.
    pub I: Shape,
}


/// Transition model of an extended Kalman filter.
///
/// A nonlinear model's function `f` and Jacobian `jac` are held by the
/// caller; `f` returns a vector of length `n_x` and `jac` an `n_x` × `n_x`
/// matrix.
#[derive(Clone, Copy, Debug, PartialEq, Eq, Structural)]
pub enum EKF_TransitionModel {
    Linear { F: Shape, F_transpose: Shape },
    NonLinear,
}

/// Observation model of an extended Kalman filter.
///
/// A nonlinear model's function `f` and Jacobian `jac` are held by the
/// caller; `f` returns a vector of length `n_z` and `jac` an `n_z` × `n_x`
/// matrix.
#[derive(Clone, Copy, Debug, PartialEq, Eq, Structural)]
pub enum EKF_ObservationModel {
    Linear { H: Shape, H_transpose: Shape },
    NonLinear,
}

/// Extended Kalman filter.
#[derive(Clone, Copy, Debug, PartialEq, Eq, Structural)]
pub struct EKF {
    /// Length of the state vector.
    pub n_x: usize,
    /// Length of the measurement vector.
    pub n_z: usize,
    /// Length of the input vector.
    pub n_u: usize,
    pub F: EKF_TransitionModel,
    pub H: EKF_ObservationModel,
    /// Control matrix.
    pub G: Option<Shape>,
    /// Identity of the state space.
    pub I: Shape,
}


/// Transition model of an unscented Kalman filter.
///
/// A nonlinear model's function `f` is held by the caller; it maps the
/// `n_x` × `(2 n_x + 1)` sigma points to a matrix of the same shape.
#[derive(Clone, Copy, Debug, PartialEq, Eq, Structural)]
pub enum UKF_TransitionModel {
    Linear { F: Shape },
    NonLinear,
}

/// Observation model of an unscented Kalman filter.
///
/// A nonlinear model's function `h` is held by the caller; it maps the sigma
/// points to an `n_z` × `(2 n_x + 1)` matrix.
#[derive(Clone, Copy, Debug, PartialEq, Eq, Structural)]
pub enum UKF_ObservationModel {
    Linear { H: Shape },
    NonLinear,
}

/// Unscented Kalman filter.
#[derive(Clone, Copy, Debug, PartialEq, Eq, Structural)]
pub struct UKF {
    /// Length of the state vector.
    pub n_x: usize,
    /// Length of the measurement vector.
    pub n_z: usize,
    /// Length of the input vector.
    pub n_u: usize,
    /// Transition model.
    pub F: UKF_TransitionModel,
    /// Observation model.
    pub H: UKF_ObservationModel,
    /// Control matrix.
    pub G: Option<Shape>,
    /// Sigma points propagated by the last prediction.
    pub sigma_points_prior: Shape,
    /// Number of weights, one per sigma point.
    pub weights: usize,
    /// The weights on a diagonal.
    pub weights_diag: Shape,
}

} // verus!
