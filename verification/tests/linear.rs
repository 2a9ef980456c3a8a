use kalman_2d_multivariate_xy_car::error::FilterError;
use kalman_2d_multivariate_xy_car::filters::{control_decision, KalmanCore, KalmanModel, LKF};
use kalman_2d_multivariate_xy_car::shape::Shape;

fn filter() -> LKF {
    LKF::new(4, 2, 1, Shape::square(4), Shape::new(2, 4), Some(Shape::new(4, 1))).unwrap()
}

#[test]
fn control_decision_cases() {
    let g = Some(Shape::new(4, 1));
    assert_eq!(control_decision(&g, &Some(1), 1), Ok(true));
    assert_eq!(control_decision(&g, &Some(2), 1), Err(FilterError::InputVector { expected: 1, found: 2 }));
    assert_eq!(control_decision(&g, &None, 1), Err(FilterError::ControlWithoutInput));
    assert_eq!(control_decision(&None, &Some(1), 1), Err(FilterError::InputWithoutControl));
    assert_eq!(control_decision(&None, &None, 1), Ok(false));
}

#[test]
fn lkf_new_keeps_transposes() {
    let f = filter();
    assert_eq!(f.F_transpose, Shape::square(4));
    assert_eq!(f.H_transpose, Shape::new(4, 2));
    assert_eq!(f.I, Shape::square(4));
    assert_eq!(f.state_dim(), 4);
    assert_eq!(f.meas_dim(), 2);
}

#[test]
fn lkf_new_refuses_wrong_sizes() {
    assert_eq!(
        LKF::new(4, 2, 1, Shape::new(4, 3), Shape::new(2, 4), None).err(),
        Some(FilterError::StateTransition { expected: Shape::square(4), found: Shape::new(4, 3) })
    );
    assert_eq!(
        LKF::new(4, 2, 1, Shape::square(4), Shape::new(4, 2), None).err(),
        Some(FilterError::Observation { expected: Shape::new(2, 4), found: Shape::new(4, 2) })
    );
    assert_eq!(
        LKF::new(4, 2, 1, Shape::square(4), Shape::new(2, 4), Some(Shape::new(4, 2))).err(),
        Some(FilterError::Control { expected: Shape::new(4, 1), found: Shape::new(4, 2) })
    );
    // the first failing check is reported
    assert_eq!(
        LKF::new(4, 2, 1, Shape::new(1, 1), Shape::new(1, 1), Some(Shape::new(1, 1))).err(),
        Some(FilterError::StateTransition { expected: Shape::square(4), found: Shape::new(1, 1) })
    );
}

#[test]
fn lkf_predict_checks_sizes_then_control() {
    let mut f = filter();
    let sq = Shape::square(4);
    assert_eq!(f.predict(4, &Some(1), &sq, &sq), Ok((4, sq)));
    assert_eq!(f.predict(3, &Some(1), &sq, &sq), Err(FilterError::StateVector { expected: 4, found: 3 }));
    assert_eq!(
        f.predict(4, &Some(1), &Shape::square(3), &sq),
        Err(FilterError::Covariance { expected: sq, found: Shape::square(3) })
    );
    assert_eq!(
        f.predict(4, &Some(1), &sq, &Shape::new(4, 3)),
        Err(FilterError::ProcessNoise { expected: sq, found: Shape::new(4, 3) })
    );
    assert_eq!(f.predict(4, &None, &sq, &sq), Err(FilterError::ControlWithoutInput));
    assert_eq!(f.predict(4, &Some(2), &sq, &sq), Err(FilterError::InputVector { expected: 1, found: 2 }));
    let mut without_control = LKF::new(4, 2, 1, sq, Shape::new(2, 4), None).unwrap();
    assert_eq!(without_control.predict(4, &Some(1), &sq, &sq), Err(FilterError::InputWithoutControl));
    assert_eq!(without_control.predict(4, &None, &sq, &sq), Ok((4, sq)));
}

#[test]
fn lkf_update_checks_sizes() {
    let f = filter();
    let sq = Shape::square(4);
    let r = Shape::square(2);
    assert_eq!(f.update(4, 2, &None, &sq, &r), Ok((4, sq, Shape::new(4, 2))));
    assert_eq!(f.update(5, 2, &None, &sq, &r), Err(FilterError::PriorStateVector { expected: 4, found: 5 }));
    assert_eq!(
        f.update(4, 2, &None, &Shape::square(2), &r),
        Err(FilterError::PriorCovariance { expected: sq, found: Shape::square(2) })
    );
    assert_eq!(f.update(4, 3, &None, &sq, &r), Err(FilterError::MeasurementVector { expected: 2, found: 3 }));
    assert_eq!(
        f.update(4, 2, &None, &sq, &Shape::square(3)),
        Err(FilterError::MeasurementCovariance { expected: r, found: Shape::square(3) })
    );
}

#[test]
fn core_new_refuses_wrong_sizes() {
    let sq = Shape::square(4);
    let r = Shape::square(2);
    assert_eq!(
        KalmanCore::new(filter(), 3, sq, sq, r).err(),
        Some(FilterError::StateVector { expected: 4, found: 3 })
    );
    assert_eq!(
        KalmanCore::new(filter(), 4, r, sq, r).err(),
        Some(FilterError::Covariance { expected: sq, found: r })
    );
    assert_eq!(
        KalmanCore::new(filter(), 4, sq, r, r).err(),
        Some(FilterError::ProcessNoise { expected: sq, found: r })
    );
    assert_eq!(
        KalmanCore::new(filter(), 4, sq, sq, sq).err(),
        Some(FilterError::MeasurementNoise { expected: r, found: sq })
    );
}

#[test]
fn core_starts_with_empty_gain() {
    let core = KalmanCore::new(filter(), 4, Shape::square(4), Shape::square(4), Shape::square(2)).unwrap();
    assert_eq!(core.state(), 4);
    assert_eq!(core.covariance(), Shape::square(4));
    assert_eq!(core.kalman_gain(), Shape::new(0, 0));
}

#[test]
fn lkf_core_steps_keep_dimensions() {
    let mut core = KalmanCore::new(filter(), 4, Shape::square(4), Shape::square(4), Shape::square(2)).unwrap();
    for _ in 0..3 {
        assert_eq!(core.step(2, &Some(1)), Ok(()));
        assert_eq!(core.state(), 4);
        assert_eq!(core.covariance(), Shape::square(4));
        assert_eq!(core.kalman_gain(), Shape::new(4, 2));
    }
}

#[test]
fn lkf_core_step_failures_leave_state() {
    let mut core = KalmanCore::new(filter(), 4, Shape::square(4), Shape::square(4), Shape::square(2)).unwrap();
    assert_eq!(core.step(3, &Some(1)), Err(FilterError::MeasurementVector { expected: 2, found: 3 }));
    assert_eq!(core.step(2, &None), Err(FilterError::ControlWithoutInput));
    assert_eq!(core.kalman_gain(), Shape::new(0, 0));
    assert_eq!(core.state(), 4);
}
