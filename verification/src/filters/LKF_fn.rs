use vstd::prelude::*;
use crate::error::FilterError;
use crate::shape::{Shape, square, transposed, add_vec};
use crate::filters::{KalmanCore, KalmanModel, LKF, control_outcome, control_decision};

verus! {

impl LKF {
    /// The outcome of building a linear filter: the transition matrix must be
    /// `n_x` × `n_x`, the observation matrix `n_z` × `n_x` and a control
    /// matrix, if any, `n_x` × `n_u`; the first that does not fit is reported.
    pub open spec fn new_spec(n_x: usize, n_z: usize, n_u: usize, F: Shape, H: Shape, G: Option<Shape>) -> Result<LKF, FilterError> {
        let built = LKF {
            n_x,
            n_z,
            n_u,
            F,
            F_transpose: transposed(F),
            H,
            H_transpose: transposed(H),
            G,
            I: square(n_x),
        };
        if F != square(n_x) {
            Err(FilterError::StateTransition { expected: square(n_x), found: F })
        } else if H != (Shape { rows: n_z, cols: n_x }) {
            Err(FilterError::Observation { expected: Shape { rows: n_z, cols: n_x }, found: H })
        } else {
            match G {
                Some(g) => if g != (Shape { rows: n_x, cols: n_u }) {
                    Err(FilterError::Control { expected: Shape { rows: n_x, cols: n_u }, found: g })
                } else {
                    Ok(built)
                },
                None => Ok(built),
            }
        }
    }

    /// Builds a linear filter, keeping the transposes of the transition and
    /// observation matrices and the identity of the state space.
    pub fn new(n_x: usize, n_z: usize, n_u: usize, F: Shape, H: Shape, G: Option<Shape>) -> (r: Result<LKF, FilterError>)
        ensures
            r == Self::new_spec(n_x, n_z, n_u, F, H, G),
            r matches Ok(f) ==> f.wf(),
    {
        if F != Shape::square(n_x) {
            return Err(FilterError::StateTransition { expected: Shape::square(n_x), found: F });
        }
        if H != Shape::new(n_z, n_x) {
            return Err(FilterError::Observation { expected: Shape::new(n_z, n_x), found: H });
        }
        if let Some(g) = G {
            if g != Shape::new(n_x, n_u) {
                return Err(FilterError::Control { expected: Shape::new(n_x, n_u), found: g });
            }
        }
        Ok(LKF {
            n_x,
            n_z,
            n_u,
            F_transpose: F.transpose(),
            F,
            H_transpose: H.transpose(),
            H,
            G,
            I: Shape::square(n_x),
        })
    }

    /// Gain `P⁻ Hᵀ (H P⁻ Hᵀ)⁻¹`: the sum `H P⁻ Hᵀ + R` is formed but the
    /// inverse is taken of `H P⁻ Hᵀ`.
    fn update_kalman_gain(&self, P_prior: &Shape, R: &Shape) -> (r: Result<Shape, FilterError>)
        requires
            self.wf(),
            *P_prior == square(self.n_x),
            *R == square(self.n_z),
        ensures
            r == Ok::<Shape, FilterError>(Shape { rows: self.n_x, cols: self.n_z }),
    {
        let gain = self.H.mul(P_prior)?.mul(&self.H_transpose)?;
        let _with_noise = gain.add(R)?;
        P_prior.mul(&self.H_transpose)?.mul(&gain.inverse()?)
    }

    /// Covariance in Joseph form `(I - K H) P⁻ (I - K H)ᵀ + K R Kᵀ`.
    fn update_estimation_covariance(&self, K_n: &Shape, R: &Shape, P_prior: &Shape) -> (r: Result<Shape, FilterError>)
        requires
            self.wf(),
            *K_n == (Shape { rows: self.n_x, cols: self.n_z }),
            *P_prior == square(self.n_x),
            *R == square(self.n_z),
        ensures
            r == Ok::<Shape, FilterError>(square(self.n_x)),
    {
        let P_joseph = K_n.mul(R)?.mul(&K_n.transpose())?;
        // a difference has the shape of a sum
        let main_part = self.I.add(&K_n.mul(&self.H)?)?;
        main_part.mul(P_prior)?.mul(&main_part.transpose())?.add(&P_joseph)
    }
}

impl KalmanModel for LKF {
    open spec fn state_dim_spec(&self) -> usize {
        self.n_x
    }

    open spec fn meas_dim_spec(&self) -> usize {
        self.n_z
    }

    open spec fn wf(&self) -> bool {
        &&& self.F == square(self.n_x)
        &&& self.F_transpose == square(self.n_x)
        &&& self.H == (Shape { rows: self.n_z, cols: self.n_x })
        &&& self.H_transpose == (Shape { rows: self.n_x, cols: self.n_z })
        &&& (self.G matches Some(g) ==> g == (Shape { rows: self.n_x, cols: self.n_u }))
        &&& self.I == square(self.n_x)
    }

    /// The state, covariance and process noise must fit the state dimension,
    /// then the control term is decided.
    open spec fn predict_spec(&self, x: usize, u: Option<usize>, P: Shape, Q: Shape) -> Result<(usize, Shape), FilterError> {
        if x != self.n_x {
            Err(FilterError::StateVector { expected: self.n_x, found: x })
        } else if P != square(self.n_x) {
            Err(FilterError::Covariance { expected: square(self.n_x), found: P })
        } else if Q != square(self.n_x) {
            Err(FilterError::ProcessNoise { expected: square(self.n_x), found: Q })
        } else {
            match control_outcome(self.G, u, self.n_u) {
                Err(e) => Err(e),
                Ok(_) => Ok((self.n_x, square(self.n_x))),
            }
        }
    }

    open spec fn predicted(&self, x: usize, u: Option<usize>, P: Shape, Q: Shape) -> Self {
        *self
    }

    /// The prior state and covariance must fit the state dimension, the
    /// measurement and its covariance the measurement dimension.
    open spec fn update_spec(&self, x_prior: usize, z: usize, u: Option<usize>, P_prior: Shape, R: Shape) -> Result<(usize, Shape, Shape), FilterError> {
        if x_prior != self.n_x {
            Err(FilterError::PriorStateVector { expected: self.n_x, found: x_prior })
        } else if P_prior != square(self.n_x) {
            Err(FilterError::PriorCovariance { expected: square(self.n_x), found: P_prior })
        } else if z != self.n_z {
            Err(FilterError::MeasurementVector { expected: self.n_z, found: z })
        } else if R != square(self.n_z) {
            Err(FilterError::MeasurementCovariance { expected: square(self.n_z), found: R })
        } else {
            Ok((self.n_x, square(self.n_x), Shape { rows: self.n_x, cols: self.n_z }))
        }
    }

    fn state_dim(&self) -> (n: usize) {
        self.n_x
    }

    fn meas_dim(&self) -> (n: usize) {
        self.n_z
    }

    fn predict(&mut self, x: usize, u: &Option<usize>, P: &Shape, Q: &Shape) -> (r: Result<(usize, Shape), FilterError>) {
        if x != self.n_x {
            return Err(FilterError::StateVector { expected: self.n_x, found: x });
        }
        if *P != Shape::square(self.n_x) {
            return Err(FilterError::Covariance { expected: Shape::square(self.n_x), found: *P });
        }
        if *Q != Shape::square(self.n_x) {
            return Err(FilterError::ProcessNoise { expected: Shape::square(self.n_x), found: *Q });
        }
        let P_prior = self.F.mul(P)?.mul(&self.F_transpose)?.add(Q)?;
        let x_prior: usize = self.F.mul_vec(x)?;
        if control_decision(&self.G, u, self.n_u)? {
            match (self.G, *u) {
                (Some(g), Some(v)) => Ok((add_vec(x_prior, g.mul_vec(v)?)?, P_prior)),
                _ => Ok((x_prior, P_prior)),
            }
        } else {
            Ok((x_prior, P_prior))
        }
    }

    fn update(&self, x_prior: usize, z: usize, u: &Option<usize>, P_prior: &Shape, R: &Shape) -> (r: Result<(usize, Shape, Shape), FilterError>) {
        if x_prior != self.n_x {
            return Err(FilterError::PriorStateVector { expected: self.n_x, found: x_prior });
        }
        if *P_prior != Shape::square(self.n_x) {
            return Err(FilterError::PriorCovariance { expected: Shape::square(self.n_x), found: *P_prior });
        }
        if z != self.n_z {
            return Err(FilterError::MeasurementVector { expected: self.n_z, found: z });
        }
        if *R != Shape::square(self.n_z) {
            return Err(FilterError::MeasurementCovariance { expected: Shape::square(self.n_z), found: *R });
        }
        let K_n = self.update_kalman_gain(P_prior, R)?;
        let innovation: usize = add_vec(z, self.H.mul_vec(x_prior)?)?;
        let x: usize = add_vec(K_n.mul_vec(innovation)?, x_prior)?;
        let P = self.update_estimation_covariance(&K_n, R, P_prior)?;
        Ok((x, P, K_n))
    }
}


/// Every size a linear filter core reads fits: a step of a well-formed core
/// fails only when the control matrix and the input do not go together, or
/// when the measurement is not of length `n_z`.
pub proof fn lemma_lkf_step_outcome(core: KalmanCore<LKF>, z: usize, u: Option<usize>)
    requires
        core.wf(),
    ensures
        core.step_spec(z, u) == match control_outcome(core.model.G, u, core.model.n_u) {
            Err(e) => Err(e),
            Ok(_) => if z != core.model.n_z {
                Err(FilterError::MeasurementVector { expected: core.model.n_z, found: z })
            } else {
                Ok(())
            },
        },
{
}

} // verus!
