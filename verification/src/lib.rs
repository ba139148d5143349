//! Gait generation, state estimation and policy plumbing of a quadruped robot,
//! verified with Verus.
//!
//! Scalars are carried as [`scalar::Scalar`], a binary64 value held by its bit
//! pattern. Comparing, negating, clamping and moving scalars is exact on that
//! representation. Sums, products and the like come from the caller through
//! [`arith::Arithmetic`]; where an arithmetic is [`arith::deterministic`], the
//! contracts give every result as an expression over its operations. Matrix
//! products, factorisations and the solver are the caller's too, through traits
//! that promise nothing; the contracts say what they are given and what is made
//! of what they return.

pub mod algebra_laws;
pub mod arith;
pub mod async_solver;
pub mod attitude_estimator;
pub mod autodetect;
pub mod body_state;
pub mod bound_laws;
pub mod bound_orbit_search;
pub mod bound_peak;
pub mod bound_periodic_orbit;
pub mod bound_reference;
pub mod centroidal_controller;
pub mod centroidal_iter;
pub mod centroidal_mpc;
pub mod closed_loop;
pub mod config;
pub mod constraint_laws;
pub mod controller;
pub mod csc;
pub mod dense;
pub mod dynamics;
pub mod estimation_laws;
pub mod euler;
pub mod exact;
pub mod exp;
pub mod foot_cost;
pub mod foothold_laws;
pub mod footstep;
pub mod full_centroidal_controller;
pub mod full_centroidal_footstep;
pub mod full_centroidal_iter;
pub mod full_centroidal_mpc;
pub mod full_centroidal_plan;
pub mod full_centroidal_problem;
pub mod full_centroidal_qp;
pub mod full_centroidal_reference;
pub mod full_centroidal_tick;
pub mod gait_laws;
pub mod generator;
pub mod generator_tick;
pub mod goal;
pub mod horizon_feet;
pub mod horizon_laws;
pub mod ik;
pub mod ik_round_trip;
pub mod kalman_steps;
pub mod leg_odometry;
pub mod lift;
pub mod linear_blocks;
pub mod linear_crawl;
pub mod linear_crawl_gen;
pub mod linear_kalman;
pub mod linearisation;
pub mod mechanics_laws;
pub mod model_laws;
pub mod motion_laws;
pub mod mpc_controller;
pub mod mpc_solution;
pub mod orbit_laws;
pub mod policy;
pub mod policy_laws;
pub mod policy_log;
pub mod policy_probe;
pub mod problem_laws;
pub mod reals;
pub mod rows;
pub mod scalar;
pub mod single;
pub mod text;
