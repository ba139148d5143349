# quadruped_gait

Gait generation, state estimation and policy I/O for a quadruped robot, written
in Verus.

Scalars are carried by their bit patterns. Comparing, clamping, negating and
moving them is exact on that representation and proved here. Arithmetic comes
from the caller through the `Arithmetic` trait; contracts state which expression
is evaluated, in which order, for every arithmetic whose operations are
functions of their operands. Single operations on matrices, factorisations and
the solver come in through further traits without contracts (`BlockAlgebra`,
`DenseAlgebra`, `BodyAlgebra`, `HorizonKernel`, `BodyKernel`, `LeastSquares`,
`LegModel`), and contracts say which formulas are composed of them, what is handed
to them and what is made of their results. Laws of geometry are stated for a
reading of scalars as real numbers under which the steps involved are exact.

## Layout

- `src/`: the library.
  - scalars, arithmetic and matrices: `scalar`, `arith`, `single`, `reals`, `dense`
  - parameters and kinematics: `config`, `ik`, `ik_round_trip`, `footstep`,
    `body_state`, `autodetect`
  - open-loop gaits: `controller`, `linear_crawl`, `linear_crawl_gen`
  - body predictive control: `centroidal_mpc`, `centroidal_iter`,
    `centroidal_controller`
  - full predictive control: `full_centroidal_mpc`, `full_centroidal_qp`,
    `full_centroidal_iter`, `full_centroidal_*`, with `linear_blocks`,
    `linearisation`, `euler`, `lift`, `horizon_feet`, `foot_cost`, `rows`, `csc`,
    `dynamics`
  - bounding: `bound_reference`, `bound_peak`, `bound_periodic_orbit`,
    `bound_orbit_search`
  - modes and settings: `generator`, `generator_tick`, `exp`, `goal`, `async_solver`
  - estimation: `attitude_estimator`, `leg_odometry`, `linear_kalman`,
    `kalman_steps`
  - learned policies: `policy`, `policy_log`, `policy_probe`
- `tests/`: run the library on machine arithmetic with nalgebra and clarabel.
- `Cargo.toml`: `kstring` is not called; its line holds a version that the model
  loader of `app/` builds with.
- `app/`: machine arithmetic, dense algebra, solver, worker thread, policy
  runtime and serialisable parameters.
