use vstd::prelude::*;
use crate::error::FilterError;
use crate::shape::{Shape, square, add_vec};
use crate::filters::{KalmanCore, KalmanModel, EKF, EKF_TransitionModel, EKF_ObservationModel, control_outcome, control_decision};

verus! {

impl EKF {
    /// The outcome of building an extended filter: a linear transition
    /// matrix must be `n_x` × `n_x`, a linear observation matrix `n_z` ×
    /// `n_x`, and a nonlinear transition takes no control matrix.
    pub open spec fn new_spec(
        n_x: usize,
        n_z: usize,
        n_u: usize,
        F: EKF_TransitionModel,
        H: EKF_ObservationModel,
        G: Option<Shape>,
    ) -> Result<EKF, FilterError> {
        let transition = match F {
            EKF_TransitionModel::Linear { F: f, .. } => if f != square(n_x) {
                Some(FilterError::StateTransition { expected: square(n_x), found: f })
            } else {
                None
            },
            EKF_TransitionModel::NonLinear => None,
        };
        let observation = match H {
            EKF_ObservationModel::Linear { H: h, .. } => if h != (Shape { rows: n_z, cols: n_x }) {
                Some(FilterError::Observation { expected: Shape { rows: n_z, cols: n_x }, found: h })
            } else {
                None
            },
            EKF_ObservationModel::NonLinear => None,
        };
        if transition is Some {
            Err(transition->0)
        } else if observation is Some {
            Err(observation->0)
        } else if F is NonLinear && G is Some {
            Err(FilterError::ControlUnused)
        } else {
            Ok(EKF { n_x, n_z, n_u, F, H, G, I: square(n_x) })
        }
    }

    /// Builds an extended filter with the identity of the state space.
    pub fn new(
        n_x: usize,
        n_z: usize,
        n_u: usize,
        F: EKF_TransitionModel,
        H: EKF_ObservationModel,
        G: Option<Shape>,
    ) -> (r: Result<EKF, FilterError>)
        ensures
            r == Self::new_spec(n_x, n_z, n_u, F, H, G),
            r matches Ok(f) ==> f.wf(),
    {
        if let EKF_TransitionModel::Linear { F: f, .. } = F {
            if f != Shape::square(n_x) {
                return Err(FilterError::StateTransition { expected: Shape::square(n_x), found: f });
            }
        }
        if let EKF_ObservationModel::Linear { H: h, .. } = H {
            if h != Shape::new(n_z, n_x) {
                return Err(FilterError::Observation { expected: Shape::new(n_z, n_x), found: h });
            }
        }
        if let EKF_TransitionModel::NonLinear = F {
            if G.is_some() {
                return Err(FilterError::ControlUnused);
            }
        }
        Ok(EKF { n_x, n_z, n_u, F, H, G, I: Shape::square(n_x) })
    }

    /// Whether the gain can be formed: a linear observation needs its
    /// transpose to be `n_x` × `n_z`.
    pub open spec fn gain_fits(&self) -> bool {
        self.H matches EKF_ObservationModel::Linear { H_transpose, .. } ==> H_transpose == (Shape { rows: self.n_x, cols: self.n_z })
    }

    /// Gain `P⁻ Hᵀ (H P⁻ Hᵀ + R)⁻¹`, with the observation Jacobian at the
    /// prior state in place of `H` for a nonlinear observation.
    fn update_kalman_gain(&self, x_prior: usize, P_prior: &Shape, R: &Shape) -> (r: Result<Shape, FilterError>)
        requires
            self.wf(),
            *P_prior == square(self.n_x),
            *R == square(self.n_z),
        ensures
            r == (if self.H is NonLinear && x_prior != self.n_x {
                Err(FilterError::PriorStateVector { expected: self.n_x, found: x_prior })
            } else if self.gain_fits() {
                Ok(Shape { rows: self.n_x, cols: self.n_z })
            } else {
                Err(FilterError::ShapeMismatch)
            }),
    {
        match &self.H {
            EKF_ObservationModel::Linear { H, H_transpose } => {
                let tmp = H.mul(P_prior)?.mul(H_transpose)?.add(R)?;
                P_prior.mul(H_transpose)?.mul(&tmp.inverse()?)
            },
            EKF_ObservationModel::NonLinear => {
                if x_prior != self.n_x {
                    return Err(FilterError::PriorStateVector { expected: self.n_x, found: x_prior });
                }
                // the observation Jacobian is n_z × n_x
                let jacobian = Shape::new(self.n_z, self.n_x);
                let tmp = jacobian.mul(P_prior)?.mul(&jacobian.transpose())?.add(R)?;
                P_prior.mul(&jacobian.transpose())?.mul(&tmp.inverse()?)
            },
        }
    }

    /// Covariance in Joseph form `(I - K H) P⁻ (I - K H)ᵀ + K R Kᵀ`, with
    /// the observation Jacobian in place of `H` for a nonlinear observation.
    fn update_estimation_covariance(&self, K_n: &Shape, R: &Shape, P_prior: &Shape) -> (r: Result<Shape, FilterError>)
        requires
            self.wf(),
            *K_n == (Shape { rows: self.n_x, cols: self.n_z }),
            *P_prior == square(self.n_x),
            *R == square(self.n_z),
        ensures
            r == Ok::<Shape, FilterError>(square(self.n_x)),
    {
        let joseph = K_n.mul(R)?.mul(&K_n.transpose())?;
        let observation = match &self.H {
            EKF_ObservationModel::Linear { H, .. } => *H,
            // the observation Jacobian is n_z × n_x
            EKF_ObservationModel::NonLinear => Shape::new(self.n_z, self.n_x),
        };
        // a difference has the shape of a sum
        let main_part = self.I.add(&K_n.mul(&observation)?)?;
        main_part.mul(P_prior)?.mul(&main_part.transpose())?.add(&joseph)
    }
}

impl KalmanModel for EKF {
    open spec fn state_dim_spec(&self) -> usize {
        self.n_x
    }

    open spec fn meas_dim_spec(&self) -> usize {
        self.n_z
    }

    open spec fn wf(&self) -> bool {
        &&& (self.F matches EKF_TransitionModel::Linear { F, .. } ==> F == square(self.n_x))
        &&& (self.H matches EKF_ObservationModel::Linear { H, .. } ==> H == (Shape { rows: self.n_z, cols: self.n_x }))
        &&& (self.F is NonLinear ==> self.G is None)
        &&& self.I == square(self.n_x)
    }

    /// The state, covariance and process noise must fit the state dimension.
    /// A linear transition then needs its transpose to be `n_x` × `n_x`,
    /// decides the control term, and a control term needs the control matrix
    /// to be `n_x` × `n_u`.
    open spec fn predict_spec(&self, x: usize, u: Option<usize>, P: Shape, Q: Shape) -> Result<(usize, Shape), FilterError> {
        if x != self.n_x {
            Err(FilterError::StateVector { expected: self.n_x, found: x })
        } else if P != square(self.n_x) {
            Err(FilterError::Covariance { expected: square(self.n_x), found: P })
        } else if Q != square(self.n_x) {
            Err(FilterError::ProcessNoise { expected: square(self.n_x), found: Q })
        } else {
            match self.F {
                EKF_TransitionModel::Linear { F_transpose, .. } => if F_transpose != square(self.n_x) {
                    Err(FilterError::ShapeMismatch)
                } else {
                    match control_outcome(self.G, u, self.n_u) {
                        Err(e) => Err(e),
                        Ok(apply) => if apply && self.G != Some(Shape { rows: self.n_x, cols: self.n_u }) {
                            Err(FilterError::ShapeMismatch)
                        } else {
                            Ok((self.n_x, square(self.n_x)))
                        },
                    }
                },
                EKF_TransitionModel::NonLinear => Ok((self.n_x, square(self.n_x))),
            }
        }
    }

    open spec fn predicted(&self, x: usize, u: Option<usize>, P: Shape, Q: Shape) -> Self {
        *self
    }

    /// The prior state and covariance must fit the state dimension, the
    /// measurement and its covariance the measurement dimension, and the gain
    /// must be formable.
    open spec fn update_spec(&self, x_prior: usize, z: usize, u: Option<usize>, P_prior: Shape, R: Shape) -> Result<(usize, Shape, Shape), FilterError> {
        if x_prior != self.n_x {
            Err(FilterError::PriorStateVector { expected: self.n_x, found: x_prior })
        } else if P_prior != square(self.n_x) {
            Err(FilterError::PriorCovariance { expected: square(self.n_x), found: P_prior })
        } else if z != self.n_z {
            Err(FilterError::MeasurementVector { expected: self.n_z, found: z })
        } else if R != square(self.n_z) {
            Err(FilterError::MeasurementCovariance { expected: square(self.n_z), found: R })
        } else if !self.gain_fits() {
            Err(FilterError::ShapeMismatch)
        } else {
            Ok((self.n_x, square(self.n_x), Shape { rows: self.n_x, cols: self.n_z }))
        }
    }

    fn state_dim(&self) -> (n: usize) {
        self.n_x
    }

    fn meas_dim(&self) -> (n: usize) {
        self.n_z
    }

    fn predict(&mut self, x: usize, u: &Option<usize>, P: &Shape, Q: &Shape) -> (r: Result<(usize, Shape), FilterError>) {
        if x != self.n_x {
            return Err(FilterError::StateVector { expected: self.n_x, found: x });
        }
        if *P != Shape::square(self.n_x) {
            return Err(FilterError::Covariance { expected: Shape::square(self.n_x), found: *P });
        }
        if *Q != Shape::square(self.n_x) {
            return Err(FilterError::ProcessNoise { expected: Shape::square(self.n_x), found: *Q });
        }
        match &self.F {
            EKF_TransitionModel::Linear { F, F_transpose } => {
                let x_prior: usize = F.mul_vec(x)?;
                let P_prior = F.mul(P)?.mul(F_transpose)?.add(Q)?;
                if control_decision(&self.G, u, self.n_u)? {
                    match (self.G, *u) {
                        (Some(g), Some(v)) => Ok((add_vec(x_prior, g.mul_vec(v)?)?, P_prior)),
                        _ => Ok((x_prior, P_prior)),
                    }
                } else {
                    Ok((x_prior, P_prior))
                }
            },
            EKF_TransitionModel::NonLinear => {
                // f returns a vector of length n_x and its Jacobian is n_x × n_x
                let jacobian = Shape::square(self.n_x);
                let P_prior = jacobian.mul(P)?.mul(&jacobian.transpose())?.add(Q)?;
                Ok((self.n_x, P_prior))
            },
        }
    }

    fn update(&self, x_prior: usize, z: usize, u: &Option<usize>, P_prior: &Shape, R: &Shape) -> (r: Result<(usize, Shape, Shape), FilterError>) {
        if x_prior != self.n_x {
            return Err(FilterError::PriorStateVector { expected: self.n_x, found: x_prior });
        }
        if *P_prior != Shape::square(self.n_x) {
            return Err(FilterError::PriorCovariance { expected: Shape::square(self.n_x), found: *P_prior });
        }
        if z != self.n_z {
            return Err(FilterError::MeasurementVector { expected: self.n_z, found: z });
        }
        if *R != Shape::square(self.n_z) {
            return Err(FilterError::MeasurementCovariance { expected: Shape::square(self.n_z), found: *R });
        }
        let K_n = self.update_kalman_gain(x_prior, P_prior, R)?;
        let predicted_measurement: usize = match &self.H {
            EKF_ObservationModel::Linear { H, .. } => H.mul_vec(x_prior)?,
            // f returns a vector of length n_z
            EKF_ObservationModel::NonLinear => self.n_z,
        };
        let innovation: usize = add_vec(z, predicted_measurement)?;
        let x: usize = add_vec(K_n.mul_vec(innovation)?, x_prior)?;
        let P = self.update_estimation_covariance(&K_n, R, P_prior)?;
        Ok((x, P, K_n))
    }
}


impl EKF {
    /// The sizes that the constructor leaves unchecked fit: the transposes
    /// of linear models and the control matrix.
    pub open spec fn transposes_and_control_fit(&self) -> bool {
        &&& (self.F matches EKF_TransitionModel::Linear { F_transpose, .. } ==> F_transpose == square(self.n_x))
        &&& self.gain_fits()
        &&& (self.G matches Some(g) ==> g == (Shape { rows: self.n_x, cols: self.n_u }))
    }
}

/// When the transposes and the control matrix fit, a step of a well-formed
/// extended filter core fails only when, for a linear transition, the
/// control matrix and the input do not go together, or when the measurement
/// is not of length `n_z`.
pub proof fn lemma_ekf_step_outcome(core: KalmanCore<EKF>, z: usize, u: Option<usize>)
    requires
        core.wf(),
        core.model.transposes_and_control_fit(),
    ensures
        core.step_spec(z, u) == match (if core.model.F is Linear {
            control_outcome(core.model.G, u, core.model.n_u)
        } else {
            Ok(false)
        }) {
            Err(e) => Err(e),
            Ok(_) => if z != core.model.n_z {
                Err(FilterError::MeasurementVector { expected: core.model.n_z, found: z })
            } else {
                Ok(())
            },
        },
{
}

} // verus!
