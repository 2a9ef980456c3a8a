use vstd::prelude::*;
use crate::shape::Shape;

verus! {

/// Why a filter refused its inputs.
///
/// Each variant stands for one of the checks that a filter makes; the sizes
/// carried are the expected one and the one found.
#[allow(inconsistent_fields)]
#[derive(Clone, Copy, Debug, PartialEq, Eq, Structural)]
pub enum FilterError {
    /// The state vector of a filter has the wrong length.
    StateVector { expected: usize, found: usize },
    /// The prior state vector handed to an update has the wrong length.
    PriorStateVector { expected: usize, found: usize },
    /// The measurement vector has the wrong length.
    MeasurementVector { expected: usize, found: usize },
    /// The control input vector has the wrong length.
    InputVector { expected: usize, found: usize },
    /// The covariance matrix has the wrong shape.
    Covariance { expected: Shape, found: Shape },
    /// The prior covariance matrix handed to an update has the wrong shape.
    PriorCovariance { expected: Shape, found: Shape },
    /// The process noise matrix has the wrong shape.
    ProcessNoise { expected: Shape, found: Shape },
    /// The measurement noise matrix given to a filter core has the wrong shape.
    MeasurementNoise { expected: Shape, found: Shape },
    /// The measurement covariance matrix handed to an update has the wrong shape.
    MeasurementCovariance { expected: Shape, found: Shape },
    /// The state transition matrix has the wrong shape.
    StateTransition { expected: Shape, found: Shape },
    /// The observation matrix has the wrong shape.
    Observation { expected: Shape, found: Shape },
    /// The control matrix has the wrong shape.
    Control { expected: Shape, found: Shape },
    /// A control matrix is set but no input vector was given.
    ControlWithoutInput,
    /// An input vector was given but no control matrix is set.
    InputWithoutControl,
    /// Exactly one of control matrix and input vector is present.
    ControlMismatch,
    /// A control matrix was given to a nonlinear transition model, which does not use it.
    ControlUnused,
    /// An operation of the matrix algebra met operands whose shapes do not fit.
    ShapeMismatch,
}

} // verus!
