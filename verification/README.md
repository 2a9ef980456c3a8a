# Kalman filters

Linear (`LKF`), extended (`EKF`) and unscented (`UKF`) Kalman filters and the
core (`KalmanCore`) that drives any of them through predict/update cycles.

`src/` is the verified library.  It holds every matrix by its shape and every
vector by its length, and proves for each filter which inputs it accepts,
which check refuses the others, and that every product, sum, transpose and
inverse a step forms is defined on the shapes it meets.  It also lays out the
sigma points and weights of the unscented transform, for any element type.

- `src/shape.rs`: shapes and the shape rules of the matrix algebra.
- `src/error.rs`: the reasons a filter refuses its inputs.
- `src/filters/mod.rs`: the model interface, the control decision, the core.
- `src/filters/LKF_fn.rs`, `EKF_fn.rs`, `UKF_fn.rs`: the three filters.

`app/` runs the filters on floating-point matrices: it asks the library to
check every size, then does the arithmetic, and tracks a car from radar
measurements in `main`.
